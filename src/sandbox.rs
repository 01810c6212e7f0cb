//! The sandbox configuration model and the document that describes it.

use vstd::prelude::*;
use xml::writer::EventWriter;
use crate::feature::FeatureState;
use crate::markup::{
    Markup, events_written, open_depth, lemma_open_depth_push, xml_document, new_document_writer, write_open, write_text,
    write_close, finish_document,
};

verus! {

/// A host folder exposed inside the sandbox.
pub struct FolderMapper {
    path: String,
    read_only: bool,
}

pub ghost struct FolderMapperView {
    pub path: Seq<char>,
    pub read_only: bool,
}

impl View for FolderMapper {
    type V = FolderMapperView;

    closed spec fn view(&self) -> FolderMapperView {
        FolderMapperView { path: self.path@, read_only: self.read_only }
    }
}

/// What the sandbox may reach: mapped folders, networking, a logon command
/// and virtual GPU access.
pub struct Config {
    folder_mappers: Vec<FolderMapper>,
    pub networking: bool,
    logon_script: String,
    virtual_gpu: bool,
}

pub ghost struct ConfigView {
    pub folder_mappers: Seq<FolderMapperView>,
    pub networking: bool,
    pub logon_script: Seq<char>,
    pub virtual_gpu: bool,
}

pub open spec fn mappers_view(s: Seq<FolderMapper>) -> Seq<FolderMapperView> {
    s.map_values(|m: FolderMapper| m@)
}

impl View for Config {
    type V = ConfigView;

    closed spec fn view(&self) -> ConfigView {
        ConfigView {
            folder_mappers: mappers_view(self.folder_mappers@),
            networking: self.networking,
            logon_script: self.logon_script@,
            virtual_gpu: self.virtual_gpu,
        }
    }
}

/// The text of the GPU and networking elements.
pub open spec fn flag_text(value: bool) -> Seq<char> {
    if value {
        "Default "@
    } else {
        "Disabled"@
    }
}

/// The text of a folder's read-only element.
pub open spec fn read_only_text(value: bool) -> Seq<char> {
    if value {
        "true"@
    } else {
        "false"@
    }
}

/// An element holding nothing but a text.
pub open spec fn element(name: Seq<char>, text: Seq<char>) -> Seq<Markup> {
    seq![Markup::Open(name), Markup::Text(text), Markup::Close]
}

pub open spec fn folder_markup(m: FolderMapperView) -> Seq<Markup> {
    seq![Markup::Open("MappedFolder"@)]
        + element("HostFolder"@, m.path)
        + element("ReadOnly"@, read_only_text(m.read_only))
        + seq![Markup::Close]
}

/// The folder elements, in the order of the mappers.
pub open spec fn folders_markup(s: Seq<FolderMapperView>) -> Seq<Markup>
    decreases s.len(),
{
    if s.len() == 0 {
        Seq::empty()
    } else {
        folders_markup(s.drop_last()) + folder_markup(s.last())
    }
}

pub open spec fn mapped_folders_markup(s: Seq<FolderMapperView>) -> Seq<Markup> {
    seq![Markup::Open("MappedFolders"@)] + folders_markup(s) + seq![Markup::Close]
}

/// The whole document for a configuration, event by event.
pub open spec fn config_markup(c: ConfigView) -> Seq<Markup> {
    seq![Markup::Open("Configuration"@)]
        + element("VGpu"@, flag_text(c.virtual_gpu))
        + element("Networking"@, flag_text(c.networking))
        + seq![Markup::Open("LogonCommand"@)]
        + element("Command"@, c.logon_script)
        + seq![Markup::Close]
        + mapped_folders_markup(c.folder_mappers)
        + seq![Markup::Close]
}

/// What rendering a configuration yields as text.
pub open spec fn rendered_as(c: ConfigView, text: Seq<char>) -> bool {
    text == xml_document(config_markup(c))
}

impl FolderMapper {
    pub fn new(path: String, read_only: bool) -> (r: FolderMapper)
        ensures
            r@ == (FolderMapperView { path: path@, read_only }),
    {
        FolderMapper { path, read_only }
    }

    pub fn path(&self) -> (r: &str)
        ensures
            r@ == self@.path,
    {
        self.path.as_str()
    }

    pub fn read_only(&self) -> (r: bool)
        ensures
            r == self@.read_only,
    {
        self.read_only
    }
}

impl Config {
    pub fn new(
        folder_mappers: Vec<FolderMapper>,
        networking: bool,
        logon_script: String,
        virtual_gpu: bool,
    ) -> (r: Config)
        ensures
            r@ == (ConfigView {
                folder_mappers: mappers_view(folder_mappers@),
                networking,
                logon_script: logon_script@,
                virtual_gpu,
            }),
    {
        Config { folder_mappers, networking, logon_script, virtual_gpu }
    }

    pub fn folder_mappers(&self) -> (r: &Vec<FolderMapper>)
        ensures
            mappers_view(r@) == self@.folder_mappers,
    {
        &self.folder_mappers
    }

    pub fn networking(&self) -> (r: bool)
        ensures
            r == self@.networking,
    {
        self.networking
    }

    pub fn logon_script(&self) -> (r: &str)
        ensures
            r@ == self@.logon_script,
    {
        self.logon_script.as_str()
    }

    pub fn virtual_gpu(&self) -> (r: bool)
        ensures
            r == self@.virtual_gpu,
    {
        self.virtual_gpu
    }
}

impl Default for Config {
    /// No folders, no networking, an empty logon command and no virtual GPU.
    fn default() -> (r: Config)
        ensures
            r@ == (ConfigView {
                folder_mappers: Seq::empty(),
                networking: false,
                logon_script: Seq::empty(),
                virtual_gpu: false,
            }),
    {
        let r = Config {
            folder_mappers: Vec::new(),
            networking: false,
            logon_script: String::new(),
            virtual_gpu: false,
        };
        assert(mappers_view(r.folder_mappers@) =~= Seq::empty());
        r
    }
}

/// A sandbox without networking.
pub struct OfflineSandbox {
    pub config: Config,
}

/// A sandbox with networking; no launch path is defined for it yet.
pub struct OnlineSandbox {
    pub config: Config,
    pub launch_new_instance: bool,
}

/// The session that renders, persists and launches an offline sandbox.
pub struct OfflineSession {
    pub sandbox: OfflineSandbox,
}

/// The two kinds of session, chosen by the configuration's networking flag.
pub enum SandboxSession {
    Offline(OfflineSession),
    Online(OnlineSandbox),
}

/// Why no session was started.
#[derive(Debug, Clone, Copy, PartialEq, Eq, Structural)]
pub enum PreconditionFailure {
    /// The inventory does not list the sandbox feature.
    FeatureAbsent,
    /// The sandbox feature is listed but not enabled.
    FeatureDisabled,
}

impl OfflineSession {
    /// Renders the document for this session's configuration, which an
    /// offline session holds only without networking.
    pub fn render(&self) -> (r: String)
        requires
            !self.sandbox.config@.networking,
        ensures
            rendered_as(self.sandbox.config@, r@),
    {
        generate_config_file(&self.sandbox.config)
    }
}

/// Chooses the session for a configuration once the host feature is known:
/// none unless the feature is enabled, then offline or online by the
/// networking flag, with the configuration handed over unchanged.
pub fn select_session(feature: FeatureState, config: Config, launch_new_instance: bool) -> (r: Result<
    SandboxSession,
    PreconditionFailure,
>)
    ensures
        feature == FeatureState::Absent ==> r == Err::<SandboxSession, _>(
            PreconditionFailure::FeatureAbsent,
        ),
        feature == FeatureState::Disabled ==> r == Err::<SandboxSession, _>(
            PreconditionFailure::FeatureDisabled,
        ),
        feature == FeatureState::Enabled && !config@.networking ==> (r matches Ok(
            SandboxSession::Offline(s),
        ) && s.sandbox.config@ == config@),
        feature == FeatureState::Enabled && config@.networking ==> (r matches Ok(
            SandboxSession::Online(s),
        ) && s.config@ == config@ && s.launch_new_instance == launch_new_instance),
{
    match feature {
        FeatureState::Absent => Err(PreconditionFailure::FeatureAbsent),
        FeatureState::Disabled => Err(PreconditionFailure::FeatureDisabled),
        FeatureState::Enabled => {
            if config.networking {
                Ok(SandboxSession::Online(OnlineSandbox { config, launch_new_instance }))
            } else {
                Ok(SandboxSession::Offline(OfflineSession { sandbox: OfflineSandbox { config } }))
            }
        },
    }
}

/// Where an offline session stands.
#[derive(Debug, Clone, Copy, PartialEq, Eq, Structural)]
pub enum Stage {
    /// The configuration is held; nothing is rendered.
    Created,
    /// The document text is computed.
    Rendered,
    /// The document is written to a file with the sandbox suffix.
    Persisted,
    /// The launcher was spawned with the file.
    Launched,
    /// A stage failed; the attempt is over.
    Failed,
}

/// What the caller does next.
#[derive(Debug, Clone, Copy, PartialEq, Eq, Structural)]
pub enum Action {
    Render,
    Persist,
    Launch,
    /// Delete the temporary file, then stop.
    Release,
    Stop,
}

/// The action that a stage calls for.
pub open spec fn action_for(stage: Stage) -> Action {
    match stage {
        Stage::Created => Action::Render,
        Stage::Rendered => Action::Persist,
        Stage::Persisted => Action::Launch,
        Stage::Launched => Action::Release,
        Stage::Failed => Action::Stop,
    }
}

impl Stage {
    pub fn first_action(self) -> (r: Action)
        ensures
            r == action_for(self),
    {
        match self {
            Stage::Created => Action::Render,
            Stage::Rendered => Action::Persist,
            Stage::Persisted => Action::Launch,
            Stage::Launched => Action::Release,
            Stage::Failed => Action::Stop,
        }
    }

    /// The stage after the current stage's action has succeeded or failed,
    /// and what to do next. Nothing is retried: a failure ends the attempt.
    /// Once a file exists it is released on every path: after a failure, or
    /// after the launcher has been handed the file.
    pub fn advance(self, succeeded: bool) -> (r: (Stage, Action))
        ensures
            self == Stage::Launched || self == Stage::Failed ==> r == (self, Action::Stop),
            self == Stage::Created && succeeded ==> r == (Stage::Rendered, Action::Persist),
            self == Stage::Rendered && succeeded ==> r == (Stage::Persisted, Action::Launch),
            self == Stage::Persisted && succeeded ==> r == (Stage::Launched, Action::Release),
            self == Stage::Created && !succeeded ==> r == (Stage::Failed, Action::Stop),
            (self == Stage::Rendered || self == Stage::Persisted) && !succeeded ==> r == (
                Stage::Failed,
                Action::Release,
            ),
            succeeded && (self == Stage::Created || self == Stage::Rendered || self
                == Stage::Persisted) ==> r.1 == action_for(r.0),
    {
        match self {
            Stage::Created => {
                if succeeded {
                    (Stage::Rendered, Action::Persist)
                } else {
                    (Stage::Failed, Action::Stop)
                }
            },
            Stage::Rendered => {
                if succeeded {
                    (Stage::Persisted, Action::Launch)
                } else {
                    (Stage::Failed, Action::Release)
                }
            },
            Stage::Persisted => {
                if succeeded {
                    (Stage::Launched, Action::Release)
                } else {
                    (Stage::Failed, Action::Release)
                }
            },
            Stage::Launched => (Stage::Launched, Action::Stop),
            Stage::Failed => (Stage::Failed, Action::Stop),
        }
    }
}

pub fn get_boolean_text(value: bool) -> (r: &'static str)
    ensures
        r@ == flag_text(value),
{
    if value {
        "Default "
    } else {
        "Disabled"
    }
}

fn write_element(writer: &mut EventWriter<Vec<u8>>, name: &str, text: &str) -> (r: Result<
    (),
    xml::writer::Error,
>)
    requires
        open_depth(events_written(*old(writer))) >= 0,
    ensures
        r is Ok,
        events_written(*final(writer)) == events_written(*old(writer)) + element(name@, text@),
        open_depth(events_written(*final(writer))) == open_depth(events_written(*old(writer))),
{
    let ghost start = events_written(*writer);
    write_open(writer, name)?;
    proof {
        lemma_open_depth_push(start, Markup::Open(name@));
    }
    let ghost opened = events_written(*writer);
    write_text(writer, text)?;
    proof {
        lemma_open_depth_push(opened, Markup::Text(text@));
    }
    let ghost filled = events_written(*writer);
    write_close(writer)?;
    proof {
        lemma_open_depth_push(filled, Markup::Close);
    }
    assert(events_written(*writer) =~= start + element(name@, text@));
    Ok(())
}

fn format_folder_mappers(folder_mappers: &Vec<FolderMapper>, writer: &mut EventWriter<Vec<u8>>) -> (r:
    Result<(), xml::writer::Error>)
    requires
        open_depth(events_written(*old(writer))) >= 0,
    ensures
        r is Ok,
        events_written(*final(writer)) == events_written(*old(writer)) + mapped_folders_markup(
            mappers_view(folder_mappers@),
        ),
        open_depth(events_written(*final(writer))) == open_depth(events_written(*old(writer))),
{
    let ghost s = mappers_view(folder_mappers@);
    let ghost start = events_written(*writer);
    write_open(writer, "MappedFolders")?;
    proof {
        lemma_open_depth_push(start, Markup::Open("MappedFolders"@));
    }
    let mut i: usize = 0;
    while i < folder_mappers.len()
        invariant
            i <= folder_mappers.len(),
            s == mappers_view(folder_mappers@),
            start == events_written(*old(writer)),
            open_depth(start) >= 0,
            events_written(*writer) == start + seq![Markup::Open("MappedFolders"@)]
                + folders_markup(s.take(i as int)),
            open_depth(events_written(*writer)) == open_depth(start) + 1,
        decreases folder_mappers.len() - i,
    {
        let folder_mapper = &folder_mappers[i];
        let ghost before = events_written(*writer);
        write_open(writer, "MappedFolder")?;
        proof {
            lemma_open_depth_push(before, Markup::Open("MappedFolder"@));
        }
        write_element(writer, "HostFolder", folder_mapper.path.as_str())?;
        let read_only_text = if folder_mapper.read_only {
            "true"
        } else {
            "false"
        };
        write_element(writer, "ReadOnly", read_only_text)?;
        let ghost filled = events_written(*writer);
        write_close(writer)?;
        proof {
            lemma_open_depth_push(filled, Markup::Close);
            assert(s.take(i + 1).drop_last() =~= s.take(i as int));
            assert(s.take(i + 1).last() == folder_mapper@);
            assert(events_written(*writer) =~= start + seq![Markup::Open("MappedFolders"@)]
                + folders_markup(s.take(i + 1)));
        }
        i = i + 1;
    }
    let ghost filled = events_written(*writer);
    write_close(writer)?;
    proof {
        lemma_open_depth_push(filled, Markup::Close);
    }
    assert(s.take(i as int) =~= s);
    assert(events_written(*writer) =~= start + mapped_folders_markup(s));
    Ok(())
}

fn render_markup(config: &Config, writer: &mut EventWriter<Vec<u8>>) -> (r: Result<
    (),
    xml::writer::Error,
>)
    requires
        open_depth(events_written(*old(writer))) >= 0,
    ensures
        r is Ok,
        events_written(*final(writer)) == events_written(*old(writer)) + config_markup(config@),
{
    let ghost start = events_written(*writer);
    write_open(writer, "Configuration")?;
    proof {
        lemma_open_depth_push(start, Markup::Open("Configuration"@));
    }
    write_element(writer, "VGpu", get_boolean_text(config.virtual_gpu))?;
    write_element(writer, "Networking", get_boolean_text(config.networking))?;
    let ghost before_logon = events_written(*writer);
    write_open(writer, "LogonCommand")?;
    proof {
        lemma_open_depth_push(before_logon, Markup::Open("LogonCommand"@));
    }
    write_element(writer, "Command", config.logon_script.as_str())?;
    let ghost filled = events_written(*writer);
    write_close(writer)?;
    proof {
        lemma_open_depth_push(filled, Markup::Close);
    }
    format_folder_mappers(&config.folder_mappers, writer)?;
    write_close(writer)?;
    assert(events_written(*writer) =~= start + config_markup(config@));
    Ok(())
}

/// Renders the configuration as an indented XML document. Rendering always
/// succeeds, and the text depends on the configuration's value alone.
pub fn generate_config_file(config: &Config) -> (r: String)
    ensures
        rendered_as(config@, r@),
{
    let mut writer = new_document_writer();
    render_markup(config, &mut writer).unwrap();
    assert(events_written(writer) =~= config_markup(config@));
    finish_document(writer).unwrap()
}

proof fn lemma_folder_len(m: FolderMapperView)
    ensures
        folder_markup(m).len() == 8,
{
    let host = element("HostFolder"@, m.path);
    let ro = element("ReadOnly"@, read_only_text(m.read_only));
    assert(host.len() == 3);
    assert(ro.len() == 3);
    assert(folder_markup(m) == seq![Markup::Open("MappedFolder"@)] + host + ro + seq![Markup::Close]);
}

proof fn lemma_folders_len(s: Seq<FolderMapperView>)
    ensures
        folders_markup(s).len() == 8 * s.len(),
    decreases s.len(),
{
    if s.len() > 0 {
        lemma_folders_len(s.drop_last());
        lemma_folder_len(s.last());
    }
}

proof fn lemma_folder_at(s: Seq<FolderMapperView>, i: int)
    requires
        0 <= i < s.len(),
    ensures
        folders_markup(s).subrange(8 * i, 8 * i + 8) == folder_markup(s[i]),
    decreases s.len(),
{
    let prefix = s.drop_last();
    lemma_folders_len(prefix);
    let whole = folders_markup(s);
    assert(whole == folders_markup(prefix) + folder_markup(s.last()));
    lemma_folder_len(s.last());
    if i == s.len() - 1 {
        assert(whole.subrange(8 * i, 8 * i + 8) =~= folder_markup(s[i]));
    } else {
        lemma_folder_at(prefix, i);
        assert(whole.subrange(8 * i, 8 * i + 8) =~= folders_markup(prefix).subrange(8 * i, 8 * i + 8));
    }
}

/// Rendering is deterministic: two renderings of one configuration are the
/// same text.
pub proof fn lemma_rendering_deterministic(c: ConfigView, first: Seq<char>, second: Seq<char>)
    requires
        rendered_as(c, first),
        rendered_as(c, second),
    ensures
        first == second,
{
}

/// The document opens with the root, then the GPU element, the networking
/// element and the logon command; the mapped folders follow, one folder
/// element per mapper in the mappers' order, and the root closes it.
pub proof fn lemma_element_order(c: ConfigView)
    ensures
        config_markup(c).len() == 15 + 8 * (c.folder_mappers.len() as int),
        config_markup(c).subrange(0, 13) == seq![
            Markup::Open("Configuration"@),
            Markup::Open("VGpu"@),
            Markup::Text(flag_text(c.virtual_gpu)),
            Markup::Close,
            Markup::Open("Networking"@),
            Markup::Text(flag_text(c.networking)),
            Markup::Close,
            Markup::Open("LogonCommand"@),
            Markup::Open("Command"@),
            Markup::Text(c.logon_script),
            Markup::Close,
            Markup::Close,
            Markup::Open("MappedFolders"@),
        ],
        forall|i: int|
            0 <= i < c.folder_mappers.len() ==> #[trigger] config_markup(c).subrange(
                13 + 8 * i,
                21 + 8 * i,
            ) == folder_markup(c.folder_mappers[i]),
        config_markup(c).subrange(
            13 + 8 * (c.folder_mappers.len() as int),
            15 + 8 * (c.folder_mappers.len() as int),
        ) == seq![Markup::Close, Markup::Close],
{
    let s = c.folder_mappers;
    let d = config_markup(c);
    let f = folders_markup(s);
    lemma_folders_len(s);
    let head = seq![
        Markup::Open("Configuration"@),
        Markup::Open("VGpu"@),
        Markup::Text(flag_text(c.virtual_gpu)),
        Markup::Close,
        Markup::Open("Networking"@),
        Markup::Text(flag_text(c.networking)),
        Markup::Close,
        Markup::Open("LogonCommand"@),
        Markup::Open("Command"@),
        Markup::Text(c.logon_script),
        Markup::Close,
        Markup::Close,
        Markup::Open("MappedFolders"@),
    ];
    assert(d =~= head + f + seq![Markup::Close, Markup::Close]);
    assert(d.subrange(0, 13) =~= head);
    assert(d.subrange(13 + 8 * (s.len() as int), 15 + 8 * (s.len() as int)) =~= seq![Markup::Close, Markup::Close]);
    assert forall|i: int| 0 <= i < s.len() implies #[trigger] d.subrange(13 + 8 * i, 21 + 8 * i)
        == folder_markup(s[i]) by {
        lemma_folder_at(s, i);
        assert(d.subrange(13 + 8 * i, 21 + 8 * i) =~= f.subrange(8 * i, 8 * i + 8));
    }
}

/// GPU and networking are written "Default " (trailing space kept) when set
/// and "Disabled" when not; a folder's read-only flag is written "true" or
/// "false", which is never one of the other two texts.
pub proof fn lemma_boolean_texts(c: ConfigView)
    ensures
        config_markup(c)[2] == Markup::Text(if c.virtual_gpu {
            "Default "@
        } else {
            "Disabled"@
        }),
        config_markup(c)[5] == Markup::Text(if c.networking {
            "Default "@
        } else {
            "Disabled"@
        }),
        forall|i: int|
            0 <= i < c.folder_mappers.len() ==> #[trigger] config_markup(c)[18 + 8 * i]
                == Markup::Text(if c.folder_mappers[i].read_only {
                "true"@
            } else {
                "false"@
            }),
        forall|a: bool, b: bool| read_only_text(a) != flag_text(b),
{
    reveal_strlit("Default ");
    reveal_strlit("Disabled");
    reveal_strlit("true");
    reveal_strlit("false");
    lemma_element_order(c);
    let d = config_markup(c);
    assert(d[2] == d.subrange(0, 13)[2]);
    assert(d[5] == d.subrange(0, 13)[5]);
    assert forall|i: int| 0 <= i < c.folder_mappers.len() implies #[trigger] d[18 + 8 * i]
        == Markup::Text(read_only_text(c.folder_mappers[i].read_only)) by {
        assert(d[18 + 8 * i] == d.subrange(13 + 8 * i, 21 + 8 * i)[5]);
    }
    assert forall|a: bool, b: bool| read_only_text(a) != flag_text(b) by {
        assert(read_only_text(a).len() != flag_text(b).len());
    }
}

/// With no mappers the mapped-folders element is opened and closed at once.
pub proof fn lemma_no_folders(c: ConfigView)
    requires
        c.folder_mappers.len() == 0,
    ensures
        config_markup(c).subrange(12, 14) == seq![Markup::Open("MappedFolders"@), Markup::Close],
{
    lemma_element_order(c);
    let d = config_markup(c);
    assert(d[12] == d.subrange(0, 13)[12]);
    assert(d[13] == d.subrange(13, 15)[0]);
    assert(d.subrange(12, 14) =~= seq![Markup::Open("MappedFolders"@), Markup::Close]);
}

} // verus!
