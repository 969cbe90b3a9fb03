//! The event alphabet of the forward scan, and the trusted boundary to
//! the XML tokenizer. Everything the parser consumes is one of these
//! plain-text events; the tokenizer itself is the only code taken on
//! trust.

use core::str::from_utf8;
use quick_xml::events::Event;
use vstd::prelude::*;

use crate::ArxivError;

verus! {

/// One attribute of an XML element, decoded to text.
pub struct XmlAttr {
    pub key: String,
    pub value: String,
}

/// Mathematical model of an attribute.
#[verifier::ext_equal]
pub struct AttrView {
    pub key: Seq<char>,
    pub value: Seq<char>,
}

impl View for XmlAttr {
    type V = AttrView;

    open spec fn view(&self) -> AttrView {
        AttrView { key: self.key@, value: self.value@ }
    }
}

impl DeepView for XmlAttr {
    type V = AttrView;

    open spec fn deep_view(&self) -> AttrView {
        self.view()
    }
}

/// One event of the forward scan over the document, in document order.
/// `Other` stands for every event kind the feed schema does not use
/// (declarations, comments, CDATA, processing instructions).
pub enum XmlEvent {
    Start(String),
    Text(String),
    Empty(String, Vec<XmlAttr>),
    End(String),
    Eof,
    Other,
}

/// Mathematical model of an event.
#[verifier::ext_equal]
pub enum EventView {
    Start(Seq<char>),
    Text(Seq<char>),
    Empty(Seq<char>, Seq<AttrView>),
    End(Seq<char>),
    Eof,
    Other,
}

impl View for XmlEvent {
    type V = EventView;

    open spec fn view(&self) -> EventView {
        match self {
            XmlEvent::Start(n) => EventView::Start(n@),
            XmlEvent::Text(t) => EventView::Text(t@),
            XmlEvent::Empty(n, attrs) => EventView::Empty(n@, attrs.deep_view()),
            XmlEvent::End(n) => EventView::End(n@),
            XmlEvent::Eof => EventView::Eof,
            XmlEvent::Other => EventView::Other,
        }
    }
}

impl DeepView for XmlEvent {
    type V = EventView;

    open spec fn deep_view(&self) -> EventView {
        self.view()
    }
}

#[verifier::external_type_specification]
#[verifier::external_body]
#[verifier::reject_recursive_types(R)]
pub struct ExReader<R>(quick_xml::Reader<R>);

#[verifier::external_type_specification]
#[verifier::external_body]
pub struct ExEvent<'a>(quick_xml::events::Event<'a>);

// The tokenizer reads nothing but the document text — no clock,
// environment or randomness — so the converted event stream a document
// yields is a function of that text alone, and these names stand for it.
// `tokens_of` is the sequence of decoded events the text owes, up to but
// not including its end; `token_failure` is how the stream ends: `None`
// for a clean end of document, or the failure (a tokenizer error, or a
// value that does not decode) that aborts it.
pub uninterp spec fn tokens_of(s: Seq<char>) -> Seq<EventView>;

pub uninterp spec fn token_failure(s: Seq<char>) -> Option<ArxivError>;

// The part of that stream a live reader has not yet handed over, and the
// end it is still owed; a fresh reader's pending stream is the whole of
// `tokens_of`.
pub uninterp spec fn pending_events(r: quick_xml::Reader<&[u8]>) -> Seq<EventView>;

pub uninterp spec fn pending_failure(r: quick_xml::Reader<&[u8]>) -> Option<ArxivError>;

// The decoded form of one raw tokenizer event: a function of the event
// value alone.
pub uninterp spec fn event_token(raw: quick_xml::events::Event<'_>) -> Result<
    EventView,
    ArxivError,
>;

/// Relies on `quick_xml::Reader::from_str`: a streaming reader positioned
/// at the start of the document text. The events a reader yields depend
/// on that text alone, so the fresh reader's pending stream and end are
/// those the text owes; the end-of-document event marks only the end and
/// never stands inside the stream.
#[verifier::external_body]
pub(crate) fn xml_reader<'a>(input: &'a str) -> (r: quick_xml::Reader<&'a [u8]>)
    ensures
        pending_events(r) == tokens_of(input@),
        pending_failure(r) == token_failure(input@),
        forall|i: int| 0 <= i < pending_events(r).len() ==> pending_events(r)[i]
            != EventView::Eof,
{
    quick_xml::Reader::from_str(input)
}

/// Relies on `quick_xml::Reader::read_event`: one call hands over the
/// next event of the reader's pending stream — the head of
/// `pending_events`, in its decoded form — or, once the stream is spent,
/// the end-of-document event or the failure the stream ends with. A
/// tokenizer error is the malformed-document failure.
#[verifier::external_body]
fn read_raw<'a>(r: &mut quick_xml::Reader<&'a [u8]>) -> (ev: Result<
    quick_xml::events::Event<'a>,
    ArxivError,
>)
    ensures
        pending_events(*old(r)).len() > 0 ==> (ev matches Ok(x) && event_token(x) matches Ok(v)
            && v == pending_events(*old(r))[0] && pending_events(*final(r)) == pending_events(
            *old(r),
        ).skip(1) && pending_failure(*final(r)) == pending_failure(*old(r))),
        pending_events(*old(r)).len() == 0 && pending_failure(*old(r)) is None ==> (ev matches Ok(x)
            && event_token(x) matches Ok(v) && v == EventView::Eof && pending_events(*final(r))
            == pending_events(*old(r)) && pending_failure(*final(r)) == pending_failure(*old(r))),
        pending_failure(*old(r)) matches Some(er) ==> (pending_events(*old(r)).len() == 0 ==> ((
        ev matches Err(e) && e == er) || (ev matches Ok(x) && event_token(x) matches Err(e2) && e2
            == er))),
        ev matches Err(e) ==> e == ArxivError::XmlParsing,
{
    r.read_event().map_err(|_| ArxivError::XmlParsing)
}

type AttrsResult = Result<Vec<XmlAttr>, ArxivError>;

/// An attribute from its decoded key and value.
pub(crate) fn make_attr(key: String, value: String) -> (a: XmlAttr)
    ensures
        a@ == (AttrView { key: key@, value: value@ }),
{
    XmlAttr { key, value }
}

/// Relies on the variants and accessors of `quick_xml::events::Event`
/// (`BytesStart::name`, `BytesStart::attributes`, the raw text bytes) and
/// on `core::str::from_utf8`: converts one raw event to the plain-text
/// alphabet, which is what `event_token` names. A tag name, text or
/// attribute value that is not valid UTF-8 is the decoding failure; an
/// unparsable attribute is skipped, as the feed contract asks; every
/// event kind the feed schema does not use maps to `Other`.
#[verifier::external_body]
fn convert_event(raw: quick_xml::events::Event<'_>) -> (r: Result<XmlEvent, ArxivError>)
    ensures
        r matches Ok(x) ==> (event_token(raw) matches Ok(v) && v == x@),
        r matches Err(e) ==> (event_token(raw) matches Err(e2) && e2 == e && e
            == ArxivError::Utf8Error),
{
    let t = |b: &[u8]| from_utf8(b).map(str::to_owned).map_err(|_| ArxivError::Utf8Error);
    Ok(match raw {
        Event::Start(e) => XmlEvent::Start(t(e.name().0)?),
        Event::Text(e) => XmlEvent::Text(t(&e)?),
        Event::Empty(e) => XmlEvent::Empty(t(e.name().0)?, e.attributes().flatten().map(
            |a| Ok(make_attr(t(a.key.0)?, t(&a.value)?)),
        ).collect::<AttrsResult>()?),
        Event::End(e) => XmlEvent::End(t(e.name().0)?),
        Event::Eof => XmlEvent::Eof,
        _ => XmlEvent::Other,
    })
}

/// The next event of the document, as the plain-text alphabet: the head
/// of the reader's pending stream, the end-of-document event once that
/// stream is spent, or the failure it ends with.
pub(crate) fn next_raw_event(r: &mut quick_xml::Reader<&[u8]>) -> (ev: Result<
    XmlEvent,
    ArxivError,
>)
    ensures
        pending_events(*old(r)).len() > 0 ==> (ev matches Ok(x) && x@ == pending_events(
            *old(r),
        )[0] && pending_events(*final(r)) == pending_events(*old(r)).skip(1) && pending_failure(
            *final(r),
        ) == pending_failure(*old(r))),
        pending_events(*old(r)).len() == 0 && pending_failure(*old(r)) is None ==> (ev matches Ok(x)
            && x@ == EventView::Eof && pending_events(*final(r)) == pending_events(*old(r))
            && pending_failure(*final(r)) == pending_failure(*old(r))),
        pending_failure(*old(r)) matches Some(er) ==> (pending_events(*old(r)).len() == 0
            ==> (ev matches Err(e) && e == er)),
        ev matches Err(e) ==> e == ArxivError::XmlParsing || e == ArxivError::Utf8Error,
{
    let raw = match read_raw(r) {
        Ok(raw) => raw,
        Err(e) => {
            return Err(e);
        },
    };
    match convert_event(raw) {
        Ok(x) => Ok(x),
        Err(e) => Err(e),
    }
}

} // verus!
