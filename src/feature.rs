//! Whether the host's disposable-VM feature is installed and enabled, decided
//! from the records of an optional-feature inventory query.

use vstd::prelude::*;

verus! {

/// The inventory name of the Windows Sandbox feature.
pub const FEATURE_WINDOWS_SANDBOX: &'static str = "Containers-DisposableClientVM";

/// The install state that means "enabled".
pub const ENABLED_STATE: u32 = 1;

pub open spec fn feature_name() -> Seq<char> {
    "Containers-DisposableClientVM"@
}

/// One inventory record: its name when that is a string, and its install
/// state when that is an unsigned 32-bit number.
pub struct FeatureRecord {
    pub name: Option<String>,
    pub install_state: Option<u32>,
}

pub ghost struct FeatureRecordView {
    pub name: Option<Seq<char>>,
    pub install_state: Option<u32>,
}

impl View for FeatureRecord {
    type V = FeatureRecordView;

    open spec fn view(&self) -> FeatureRecordView {
        FeatureRecordView {
            name: match self.name {
                Some(n) => Some(n@),
                None => None,
            },
            install_state: self.install_state,
        }
    }
}

#[derive(Debug, Clone, Copy, PartialEq, Eq, Structural)]
pub enum FeatureState {
    /// No record names the feature.
    Absent,
    /// The feature is listed but not in the enabled state.
    Disabled,
    /// The feature is installed and enabled.
    Enabled,
}

/// What one record says of the feature, if it names it.
pub open spec fn record_state(r: FeatureRecordView) -> Option<FeatureState> {
    if r.name == Some(feature_name()) {
        if r.install_state == Some(1u32) {
            Some(FeatureState::Enabled)
        } else {
            Some(FeatureState::Disabled)
        }
    } else {
        None
    }
}

/// The feature is enabled when a record naming it is enabled, disabled when
/// records name it but none is enabled, and absent otherwise.
pub open spec fn feature_state(records: Seq<FeatureRecordView>) -> FeatureState {
    if exists|i: int| 0 <= i < records.len() && record_state(#[trigger] records[i]) == Some(
        FeatureState::Enabled,
    ) {
        FeatureState::Enabled
    } else if exists|i: int| 0 <= i < records.len() && (#[trigger] record_state(records[i])) is Some {
        FeatureState::Disabled
    } else {
        FeatureState::Absent
    }
}

pub open spec fn records_view(s: Seq<FeatureRecord>) -> Seq<FeatureRecordView> {
    s.map_values(|r: FeatureRecord| r@)
}

/// Reads one record.
pub fn check_feature(record: &FeatureRecord) -> (r: Option<FeatureState>)
    ensures
        r == record_state(record@),
{
    match &record.name {
        Some(name) => {
            let wanted = FEATURE_WINDOWS_SANDBOX.to_owned();
            proof {
                reveal_strlit("Containers-DisposableClientVM");
            }
            if *name == wanted {
                if record.install_state == Some(ENABLED_STATE) {
                    Some(FeatureState::Enabled)
                } else {
                    Some(FeatureState::Disabled)
                }
            } else {
                None
            }
        },
        None => None,
    }
}

/// Reads all records of the inventory.
pub fn feature_status(records: &Vec<FeatureRecord>) -> (r: FeatureState)
    ensures
        r == feature_state(records_view(records@)),
{
    let ghost s = records_view(records@);
    let mut found = FeatureState::Absent;
    let mut i: usize = 0;
    while i < records.len()
        invariant
            i <= records.len(),
            s == records_view(records@),
            found == feature_state(s.take(i as int)),
        decreases records.len() - i,
    {
        let state = check_feature(&records[i]);
        proof {
            let before = s.take(i as int);
            let after = s.take(i + 1);
            assert(after[i as int] == records[i as int]@);
            assert forall|j: int| 0 <= j < i implies after[j] == #[trigger] before[j] by {}
        }
        match state {
            Some(FeatureState::Enabled) => {
                found = FeatureState::Enabled;
            },
            Some(_) => {
                if found == FeatureState::Absent {
                    found = FeatureState::Disabled;
                }
            },
            None => {},
        }
        i = i + 1;
    }
    assert(s.take(i as int) =~= s);
    found
}

} // verus!
