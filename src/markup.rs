//! The markup events a sandbox document is made of, and the trusted layer
//! over xml-rs that turns a sequence of them into indented XML text.

use vstd::prelude::*;
use xml::writer::{EmitterConfig, EventWriter, XmlEvent};

verus! {

#[verifier::external_type_specification]
#[verifier::external_body]
#[verifier::reject_recursive_types(W)]
pub struct ExEventWriter<W>(EventWriter<W>);

#[verifier::external_type_specification]
#[verifier::external_body]
pub struct ExEmitterError(xml::writer::Error);

/// One step of a markup document, as the emitter receives it.
pub ghost enum Markup {
    Open(Seq<char>),
    Text(Seq<char>),
    Close,
}

/// How many elements a sequence of events leaves open.
pub open spec fn open_depth(s: Seq<Markup>) -> int
    decreases s.len(),
{
    if s.len() == 0 {
        0
    } else {
        open_depth(s.drop_last()) + match s.last() {
            Markup::Open(_) => 1int,
            Markup::Text(_) => 0int,
            Markup::Close => -1int,
        }
    }
}

pub proof fn lemma_open_depth_push(s: Seq<Markup>, e: Markup)
    ensures
        open_depth(s.push(e)) == open_depth(s) + match e {
            Markup::Open(_) => 1int,
            Markup::Text(_) => 0int,
            Markup::Close => -1int,
        },
{
    assert(s.push(e).drop_last() =~= s);
}

/// The events a writer has accepted so far, in order.
pub uninterp spec fn events_written(w: EventWriter<Vec<u8>>) -> Seq<Markup>;

/// The indented, escaped XML text that xml-rs produces for a sequence of events.
pub uninterp spec fn xml_document(events: Seq<Markup>) -> Seq<char>;

/// Relies on xml-rs `EmitterConfig::create_writer`: a fresh writer over an
/// empty buffer, with indentation on, has been handed no event yet.
#[verifier::external_body]
pub(crate) fn new_document_writer() -> (w: EventWriter<Vec<u8>>)
    ensures
        events_written(w) == Seq::<Markup>::empty(),
{
    EmitterConfig::new().perform_indent(true).create_writer(Vec::new())
}

/// Relies on xml-rs `EventWriter::write` with a start-element event: into a
/// `Vec<u8>`, which raises no I/O error, it always succeeds, and the element
/// is the writer's next event.
#[verifier::external_body]
pub(crate) fn write_open(w: &mut EventWriter<Vec<u8>>, name: &str) -> (r: Result<(), xml::writer::Error>)
    ensures
        r is Ok,
        events_written(*final(w)) == events_written(*old(w)).push(Markup::Open(name@)),
{
    w.write(XmlEvent::start_element(name))
}

/// Relies on xml-rs `EventWriter::write` with a characters event, which the
/// emitter escapes: into a `Vec<u8>` it always succeeds, and the text is the
/// writer's next event.
#[verifier::external_body]
pub(crate) fn write_text(w: &mut EventWriter<Vec<u8>>, text: &str) -> (r: Result<(), xml::writer::Error>)
    ensures
        r is Ok,
        events_written(*final(w)) == events_written(*old(w)).push(Markup::Text(text@)),
{
    w.write(XmlEvent::characters(text))
}

/// Relies on xml-rs `EventWriter::write` with an end-element event, which
/// closes the innermost open element: it fails only when no element is open,
/// and on success it is the writer's next event.
#[verifier::external_body]
pub(crate) fn write_close(w: &mut EventWriter<Vec<u8>>) -> (r: Result<(), xml::writer::Error>)
    ensures
        open_depth(events_written(*old(w))) > 0 ==> r is Ok,
        r is Ok ==> events_written(*final(w)) == events_written(*old(w)).push(Markup::Close),
{
    w.write(XmlEvent::end_element())
}

/// Relies on xml-rs `EventWriter::into_inner` and `String::from_utf8`: the
/// buffer holds the document for the events written, and is UTF-8 since the
/// emitter writes only `&str` pieces.
#[verifier::external_body]
pub(crate) fn finish_document(w: EventWriter<Vec<u8>>) -> (r: Option<String>)
    ensures
        r is Some,
        r matches Some(s) ==> s@ == xml_document(events_written(w)),
{
    String::from_utf8(w.into_inner()).ok()
}

} // verus!
