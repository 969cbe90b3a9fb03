//! The streaming feed parser: a small state machine driven by the events
//! of one forward scan over the document. Each transition is specified as
//! a function on the mathematical scan state, and the executable parser
//! is proved to follow those transitions step by step.

use vstd::prelude::*;

use crate::events::{next_raw_event, pending_events, pending_failure, token_failure, tokens_of,
    xml_reader, AttrView, EventView, XmlAttr, XmlEvent};
use crate::strutil::{str_eq, str_trim, trim};
use crate::urlnorm::{convert_pdf_url, norm_url};
use crate::{ArxivError, Paper, PaperView};

verus! {

/// Which scalar or multi-valued field the next text event is written to.
#[derive(Clone, Copy, Debug, PartialEq, Eq, Structural)]
pub enum FieldTag {
    Title,
    Author,
    Abstract,
}

/// Mathematical model of the scan state.
#[verifier::ext_equal]
pub struct ParserView {
    pub papers: Seq<PaperView>,
    pub current: Option<PaperView>,
    pub authors: Seq<Seq<char>>,
    pub categories: Seq<Seq<char>>,
    pub in_entry: bool,
    pub field: Option<FieldTag>,
}

/// The paper begun at an entry-start boundary: every field empty.
pub open spec fn empty_paper() -> PaperView {
    PaperView {
        title: Seq::empty(),
        authors: Seq::empty(),
        abstract_text: Seq::empty(),
        url: Seq::empty(),
        categories: Seq::empty(),
    }
}

/// The state of a fresh scan.
pub open spec fn init_state() -> ParserView {
    ParserView {
        papers: Seq::empty(),
        current: None,
        authors: Seq::empty(),
        categories: Seq::empty(),
        in_entry: false,
        field: None,
    }
}

/// Effect of a tag-open event: an `entry` begins a new paper and clears
/// the accumulators; inside an entry, `title`, `author` and `summary`
/// select the field slot; every other tag changes nothing.
pub open spec fn step_start(st: ParserView, name: Seq<char>) -> ParserView {
    if name == "entry"@ {
        ParserView {
            current: Some(empty_paper()),
            authors: Seq::empty(),
            categories: Seq::empty(),
            in_entry: true,
            ..st
        }
    } else if st.in_entry && name == "title"@ {
        ParserView { field: Some(FieldTag::Title), ..st }
    } else if st.in_entry && name == "author"@ {
        ParserView { field: Some(FieldTag::Author), ..st }
    } else if st.in_entry && name == "summary"@ {
        ParserView { field: Some(FieldTag::Abstract), ..st }
    } else {
        st
    }
}

/// Effect of a text event: the trimmed text is written to the selected
/// field of the paper in progress; whitespace-only text, text outside an
/// entry, and text with no field selected change nothing.
pub open spec fn step_text(st: ParserView, raw: Seq<char>) -> ParserView {
    let t = trim(raw);
    if t.len() == 0 {
        st
    } else {
        match st.current {
            None => st,
            Some(p) => match st.field {
                Some(FieldTag::Title) => ParserView { current: Some(PaperView { title: t, ..p }), ..st },
                Some(FieldTag::Author) => ParserView { authors: st.authors.push(t), ..st },
                Some(FieldTag::Abstract) => ParserView {
                    current: Some(PaperView { abstract_text: t, ..p }),
                    ..st
                },
                None => st,
            },
        }
    }
}

/// The value of the last `href` attribute, if there is one.
pub open spec fn last_href(attrs: Seq<AttrView>) -> Option<Seq<char>>
    decreases attrs.len(),
{
    if attrs.len() == 0 {
        None
    } else if attrs.last().key == "href"@ {
        Some(attrs.last().value)
    } else {
        last_href(attrs.drop_last())
    }
}

/// The values of the `term` attributes, in document order.
pub open spec fn term_values(attrs: Seq<AttrView>) -> Seq<Seq<char>>
    decreases attrs.len(),
{
    if attrs.len() == 0 {
        Seq::empty()
    } else if attrs.last().key == "term"@ {
        term_values(attrs.drop_last()).push(attrs.last().value)
    } else {
        term_values(attrs.drop_last())
    }
}

/// Effect of a self-closed element: inside an entry, a `link` assigns the
/// normalized `href` value as the paper's URL (last one wins), and a
/// `category` appends every `term` value to the category accumulator.
pub open spec fn step_empty(st: ParserView, name: Seq<char>, attrs: Seq<AttrView>) -> ParserView {
    if !st.in_entry {
        st
    } else {
        let st1 = if name == "link"@ {
            match st.current {
                Some(p) => match last_href(attrs) {
                    Some(h) => ParserView { current: Some(PaperView { url: norm_url(h), ..p }), ..st },
                    None => st,
                },
                None => st,
            }
        } else {
            st
        };
        if name == "category"@ {
            ParserView { categories: st1.categories + term_values(attrs), ..st1 }
        } else {
            st1
        }
    }
}

/// Effect of a tag-close event: closing `entry` completes the paper in
/// progress, copying the accumulated authors and categories into it;
/// closing a field tag clears the field slot.
pub open spec fn step_end(st: ParserView, name: Seq<char>) -> ParserView {
    if name == "entry"@ {
        match st.current {
            Some(p) => ParserView {
                papers: st.papers.push(
                    PaperView { authors: st.authors, categories: st.categories, ..p },
                ),
                current: None,
                in_entry: false,
                ..st
            },
            None => ParserView { in_entry: false, ..st },
        }
    } else if name == "title"@ || name == "author"@ || name == "summary"@ || name == "link"@
        || name == "category"@ {
        ParserView { field: None, ..st }
    } else {
        st
    }
}

/// Effect of one event on the scan state.
pub open spec fn step(st: ParserView, ev: EventView) -> ParserView {
    match ev {
        EventView::Start(n) => step_start(st, n),
        EventView::Text(t) => step_text(st, t),
        EventView::Empty(n, attrs) => step_empty(st, n, attrs),
        EventView::End(n) => step_end(st, n),
        EventView::Eof => st,
        EventView::Other => st,
    }
}

/// The state after scanning the events `evs` from the state `st`.
pub open spec fn scan(st: ParserView, evs: Seq<EventView>) -> ParserView
    decreases evs.len(),
{
    if evs.len() == 0 {
        st
    } else {
        scan(step(st, evs[0]), evs.skip(1))
    }
}

/// The result owed for the event sequence `evs`: the completed papers in
/// document order, or the no-results failure when no entry closed.
pub open spec fn parse_outcome(evs: Seq<EventView>) -> Result<Seq<PaperView>, ArxivError> {
    let fin = scan(init_state(), evs);
    if fin.papers.len() == 0 {
        Err(ArxivError::NoResults)
    } else {
        Ok(fin.papers)
    }
}

/// Scanning one more event is one more step.
pub proof fn lemma_scan_snoc(st: ParserView, evs: Seq<EventView>, ev: EventView)
    ensures
        scan(st, evs.push(ev)) == step(scan(st, evs), ev),
    decreases evs.len(),
{
    if evs.len() == 0 {
        assert(evs.push(ev)[0] == ev);
        assert(evs.push(ev).skip(1) =~= Seq::<EventView>::empty());
        assert(scan(st, evs.push(ev)) == scan(step(st, ev), Seq::<EventView>::empty()));
        assert(scan(step(st, ev), Seq::<EventView>::empty()) == step(st, ev));
        assert(scan(st, evs) == st);
    } else {
        assert(evs.push(ev)[0] == evs[0]);
        assert(evs.push(ev).skip(1) =~= evs.skip(1).push(ev));
        lemma_scan_snoc(step(st, evs[0]), evs.skip(1), ev);
        assert(scan(st, evs.push(ev)) == scan(step(st, evs[0]), evs.skip(1).push(ev)));
        assert(scan(st, evs) == scan(step(st, evs[0]), evs.skip(1)));
    }
}

/// Scanning a concatenation scans the parts in order.
pub proof fn lemma_scan_concat(st: ParserView, a: Seq<EventView>, b: Seq<EventView>)
    ensures
        scan(st, a + b) == scan(scan(st, a), b),
    decreases a.len(),
{
    if a.len() == 0 {
        assert(a + b =~= b);
    } else {
        assert((a + b)[0] == a[0]);
        assert((a + b).skip(1) =~= a.skip(1) + b);
        lemma_scan_concat(step(st, a[0]), a.skip(1), b);
    }
}

/// The streaming scan state: one in-progress paper, its accumulators, and
/// the completed papers.
pub struct ArxivParser {
    pub papers: Vec<Paper>,
    pub current_paper: Option<Paper>,
    pub current_authors: Vec<String>,
    pub current_categories: Vec<String>,
    pub in_entry: bool,
    pub current_field: Option<FieldTag>,
}

impl View for ArxivParser {
    type V = ParserView;

    open spec fn view(&self) -> ParserView {
        ParserView {
            papers: self.papers.deep_view(),
            current: match self.current_paper {
                Some(p) => Some(p@),
                None => None,
            },
            authors: self.current_authors.deep_view(),
            categories: self.current_categories.deep_view(),
            in_entry: self.in_entry,
            field: self.current_field,
        }
    }
}

/// A copy of the strings, element for element.
fn clone_strings(v: &Vec<String>) -> (r: Vec<String>)
    ensures
        r.deep_view() == v.deep_view(),
{
    let mut r: Vec<String> = Vec::new();
    let mut i: usize = 0;
    while i < v.len()
        invariant
            i <= v.len(),
            r.deep_view() =~= v.deep_view().take(i as int),
        decreases v.len() - i,
    {
        let ghost pre = r.deep_view();
        let c = v[i].clone();
        proof {
            assert(c@ == v.deep_view()[i as int]);
        }
        r.push(c);
        proof {
            assert(r.deep_view() =~= pre.push(c@));
            assert(r.deep_view() =~= v.deep_view().take(i + 1 as int));
        }
        i += 1;
    }
    proof {
        assert(v.deep_view().take(v.len() as int) =~= v.deep_view());
    }
    r
}

/// A copy of the papers, field for field.
fn clone_papers(v: &Vec<Paper>) -> (r: Vec<Paper>)
    ensures
        r.deep_view() == v.deep_view(),
{
    let mut r: Vec<Paper> = Vec::new();
    let mut i: usize = 0;
    while i < v.len()
        invariant
            i <= v.len(),
            r.deep_view() =~= v.deep_view().take(i as int),
        decreases v.len() - i,
    {
        let ghost pre = r.deep_view();
        let p = Paper {
            title: v[i].title.clone(),
            authors: clone_strings(&v[i].authors),
            abstract_text: v[i].abstract_text.clone(),
            url: v[i].url.clone(),
            categories: clone_strings(&v[i].categories),
        };
        proof {
            assert(p@ =~= v.deep_view()[i as int]);
        }
        r.push(p);
        proof {
            assert(r.deep_view() =~= pre.push(p@));
            assert(r.deep_view() =~= v.deep_view().take(i + 1 as int));
        }
        i += 1;
    }
    proof {
        assert(v.deep_view().take(v.len() as int) =~= v.deep_view());
    }
    r
}

impl ArxivParser {
    /// A parser in the state of a fresh scan.
    pub fn new() -> (p: ArxivParser)
        ensures
            p@ == init_state(),
    {
        let p = ArxivParser {
            papers: Vec::new(),
            current_paper: None,
            current_authors: Vec::new(),
            current_categories: Vec::new(),
            in_entry: false,
            current_field: None,
        };
        proof {
            assert(p@ =~~= init_state());
        }
        p
    }

    /// Applies a tag-open event to the scan state.
    pub fn parse_start_event(&mut self, name: &str)
        ensures
            final(self)@ == step_start(old(self)@, name@),
    {
        if str_eq(name, "entry") {
            self.in_entry = true;
            self.current_paper = Some(Paper::new());
            self.current_authors.clear();
            self.current_categories.clear();
            proof {
                assert(self@ =~~= step_start(old(self)@, name@));
            }
        } else if self.in_entry && str_eq(name, "title") {
            self.current_field = Some(FieldTag::Title);
        } else if self.in_entry && str_eq(name, "author") {
            self.current_field = Some(FieldTag::Author);
        } else if self.in_entry && str_eq(name, "summary") {
            self.current_field = Some(FieldTag::Abstract);
        }
    }

    /// Applies a text event to the scan state: the trimmed text goes to
    /// the selected field of the paper in progress.
    pub fn parse_text_event(&mut self, text: &str)
        ensures
            final(self)@ == step_text(old(self)@, text@),
    {
        let t = str_trim(text);
        if t.unicode_len() == 0 {
            return ;
        }
        match (&mut self.current_paper) {
            Some(p) => {
                match self.current_field {
                    Some(FieldTag::Title) => {
                        p.title = t.to_owned();
                        proof {
                            assert(self@ =~~= step_text(old(self)@, text@));
                        }
                    },
                    Some(FieldTag::Author) => {
                        self.current_authors.push(t.to_owned());
                        proof {
                            assert(self@ =~~= step_text(old(self)@, text@));
                        }
                    },
                    Some(FieldTag::Abstract) => {
                        p.abstract_text = t.to_owned();
                        proof {
                            assert(self@ =~~= step_text(old(self)@, text@));
                        }
                    },
                    None => {},
                }
            },
            None => {},
        }
    }

    /// Applies a self-closed element to the scan state: a `link` assigns
    /// the normalized `href` as the paper's URL, a `category` appends its
    /// `term` values.
    pub fn parse_empty_event(&mut self, name: &str, attrs: &Vec<XmlAttr>)
        ensures
            final(self)@ == step_empty(old(self)@, name@, attrs.deep_view()),
    {
        if !self.in_entry {
            return ;
        }
        if str_eq(name, "link") {
            proof {
                reveal_strlit("link");
                reveal_strlit("category");
                assert("link"@.len() == 4);
                assert("category"@.len() == 8);
                assert(name@ != "category"@);
            }
            if self.current_paper.is_some() {
                let mut found: Option<String> = None;
                let mut i: usize = 0;
                while i < attrs.len()
                    invariant
                        i <= attrs.len(),
                        match last_href(attrs.deep_view().take(i as int)) {
                            Some(h) => found matches Some(v) && v@ == h,
                            None => found is None,
                        },
                    decreases attrs.len() - i,
                {
                    if str_eq(attrs[i].key.as_str(), "href") {
                        found = Some(attrs[i].value.clone());
                    }
                    proof {
                        assert(attrs.deep_view().take(i + 1 as int).drop_last() =~= attrs.deep_view()
                            .take(i as int));
                        assert(attrs.deep_view().take(i + 1 as int).last() == attrs.deep_view()[i as int]);
                    }
                    i += 1;
                }
                proof {
                    assert(attrs.deep_view().take(attrs.len() as int) =~= attrs.deep_view());
                }
                match found {
                    Some(v) => {
                        let u = convert_pdf_url(v.as_str());
                        let cur = self.current_paper.take();
                        match cur {
                            Some(mut p) => {
                                p.url = u;
                                self.current_paper = Some(p);
                                proof {
                                    let goal = step_empty(old(self)@, name@, attrs.deep_view());
                                    match (self@.current, goal.current) {
                                        (Some(a), Some(b)) => {
                                            assert(a =~~= b);
                                        },
                                        _ => {},
                                    }
                                    assert(self@ =~~= goal);
                                }
                            },
                            None => {
                                proof {
                                    assert(false);
                                }
                            },
                        }
                    },
                    None => {},
                }
            }
        } else if str_eq(name, "category") {
            let mut terms: Vec<String> = Vec::new();
            let mut i: usize = 0;
            while i < attrs.len()
                invariant
                    i <= attrs.len(),
                    terms.deep_view() =~= term_values(attrs.deep_view().take(i as int)),
                decreases attrs.len() - i,
            {
                if str_eq(attrs[i].key.as_str(), "term") {
                    let ghost pre = terms.deep_view();
                    let c = attrs[i].value.clone();
                    terms.push(c);
                    proof {
                        assert(terms.deep_view() =~= pre.push(c@));
                    }
                }
                proof {
                    assert(attrs.deep_view().take(i + 1 as int).drop_last() =~= attrs.deep_view()
                        .take(i as int));
                    assert(attrs.deep_view().take(i + 1 as int).last() == attrs.deep_view()[i as int]);
                    assert(terms.deep_view() =~= term_values(attrs.deep_view().take(i + 1 as int)));
                }
                i += 1;
            }
            proof {
                assert(attrs.deep_view().take(attrs.len() as int) =~= attrs.deep_view());
            }
            let ghost pre_cats = self.current_categories.deep_view();
            let ghost pre_terms = terms.deep_view();
            self.current_categories.append(&mut terms);
            proof {
                assert(self.current_categories.deep_view() =~= pre_cats + pre_terms);
                assert(self@ =~~= step_empty(old(self)@, name@, attrs.deep_view()));
            }
        }
    }

    /// Applies a tag-close event to the scan state: closing `entry`
    /// completes the paper in progress; closing a field tag clears the
    /// field slot.
    pub fn parse_end_event(&mut self, name: &str)
        ensures
            final(self)@ == step_end(old(self)@, name@),
    {
        if str_eq(name, "entry") {
            let cur = self.current_paper.take();
            match cur {
                Some(mut paper) => {
                    paper.authors = clone_strings(&self.current_authors);
                    paper.categories = clone_strings(&self.current_categories);
                    self.papers.push(paper);
                    self.in_entry = false;
                    proof {
                        assert(self@ =~~= step_end(old(self)@, name@));
                    }
                },
                None => {
                    self.in_entry = false;
                },
            }
        } else if str_eq(name, "title") || str_eq(name, "author") || str_eq(name, "summary")
            || str_eq(name, "link") || str_eq(name, "category") {
            self.current_field = None;
        }
    }

    /// Applies one event to the scan state.
    pub fn process_event(&mut self, ev: &XmlEvent)
        ensures
            final(self)@ == step(old(self)@, ev@),
    {
        match ev {
            XmlEvent::Start(n) => self.parse_start_event(n.as_str()),
            XmlEvent::Text(t) => self.parse_text_event(t.as_str()),
            XmlEvent::Empty(n, attrs) => self.parse_empty_event(n.as_str(), attrs),
            XmlEvent::End(n) => self.parse_end_event(n.as_str()),
            XmlEvent::Eof => {},
            XmlEvent::Other => {},
        }
    }

    /// Scans one XML document and returns its completed papers, or the
    /// document-level failure. The outcome is pinned by the document's
    /// token stream: when the stream ends cleanly, the final state is
    /// the scan of the starting state over exactly `tokens_of(input@)`,
    /// and the call succeeds precisely when that scan completed at least
    /// one paper; when the stream ends with a failure, that failure is
    /// returned.
    pub fn parse_response(&mut self, input: &str) -> (r: Result<Vec<Paper>, ArxivError>)
        ensures
            exists|evs: Seq<EventView>| final(self)@ == scan(old(self)@, evs),
            token_failure(input@) is None ==> final(self)@ == scan(old(self)@, tokens_of(input@)),
            token_failure(input@) is None && scan(old(self)@, tokens_of(input@)).papers.len() > 0
                ==> (r matches Ok(ps) && ps.deep_view() == scan(
                old(self)@,
                tokens_of(input@),
            ).papers),
            token_failure(input@) is None && scan(old(self)@, tokens_of(input@)).papers.len() == 0
                ==> r == Err::<Vec<Paper>, ArxivError>(ArxivError::NoResults),
            token_failure(input@) matches Some(er) ==> r matches Err(e) && e == er,
            r matches Ok(ps) ==> ps.deep_view() == final(self)@.papers
                && final(self)@.papers.len() > 0,
            r matches Err(e) ==> (e == ArxivError::NoResults || e == ArxivError::XmlParsing
                || e == ArxivError::Utf8Error),
            r matches Err(e) ==> (e == ArxivError::NoResults ==> final(self)@.papers.len() == 0),
    {
        let ghost mut evs: Seq<EventView> = Seq::empty();
        let mut reader = xml_reader(input);
        proof {
            assert(scan(old(self)@, evs) == old(self)@);
            assert(evs + pending_events(reader) =~= tokens_of(input@));
        }
        loop
            invariant
                self@ == scan(old(self)@, evs),
                evs + pending_events(reader) =~= tokens_of(input@),
                pending_failure(reader) == token_failure(input@),
                forall|i: int| 0 <= i < pending_events(reader).len() ==> pending_events(reader)[i]
                    != EventView::Eof,
            ensures
                self@ == scan(old(self)@, evs),
                pending_events(reader).len() == 0,
                pending_failure(reader) is None,
                evs =~= tokens_of(input@),
            decreases pending_events(reader).len(),
        {
            match next_raw_event(&mut reader) {
                Err(e) => {
                    return Err(e);
                },
                Ok(ev) => {
                    match ev {
                        XmlEvent::Eof => {
                            break ;
                        },
                        _ => {
                            self.process_event(&ev);
                            proof {
                                lemma_scan_snoc(old(self)@, evs, ev@);
                                assert(evs.push(ev@) + pending_events(reader) =~= tokens_of(
                                    input@,
                                ));
                                evs = evs.push(ev@);
                            }
                        },
                    }
                },
            }
        }
        proof {
            assert(self@ == scan(old(self)@, tokens_of(input@)));
        }
        if self.papers.len() == 0 {
            return Err(ArxivError::NoResults);
        }
        let out = clone_papers(&self.papers);
        Ok(out)
    }
}

/// Scans one XML document with a fresh parser. The result is pinned by
/// the document's token stream: when the stream ends cleanly, the call
/// returns exactly the outcome the scan specification owes for
/// `tokens_of(response@)` — the completed papers in document order, or
/// `NoResults` when no entry closed; when the stream ends with a
/// failure, that failure is returned.
pub fn parse_arxiv_response(response: &str) -> (r: Result<Vec<Paper>, ArxivError>)
    ensures
        token_failure(response@) is None ==> match r {
            Ok(ps) => parse_outcome(tokens_of(response@)) == Ok::<Seq<PaperView>, ArxivError>(
                ps.deep_view(),
            ),
            Err(e) => parse_outcome(tokens_of(response@)) == Err::<Seq<PaperView>, ArxivError>(e),
        },
        token_failure(response@) matches Some(er) ==> r matches Err(e) && e == er,
        r matches Ok(ps) ==> ps.deep_view().len() > 0,
        r matches Err(e) ==> (e == ArxivError::NoResults || e == ArxivError::XmlParsing
            || e == ArxivError::Utf8Error),
{
    let mut parser = ArxivParser::new();
    let r = parser.parse_response(response);
    proof {
        if token_failure(response@) is None {
            assert(parser@ == scan(init_state(), tokens_of(response@)));
        }
    }
    r
}

/// Runs the scan over a given event sequence and returns exactly the
/// outcome the specification owes for it.
pub fn parse_events(events: &Vec<XmlEvent>) -> (r: Result<Vec<Paper>, ArxivError>)
    ensures
        r matches Ok(ps) ==> parse_outcome(events.deep_view()) == Ok::<Seq<PaperView>, ArxivError>(
            ps.deep_view(),
        ),
        r matches Err(e) ==> parse_outcome(events.deep_view()) == Err::<Seq<PaperView>, ArxivError>(
            e,
        ),
{
    let mut parser = ArxivParser::new();
    let mut i: usize = 0;
    while i < events.len()
        invariant
            i <= events.len(),
            parser@ == scan(init_state(), events.deep_view().take(i as int)),
        decreases events.len() - i,
    {
        parser.process_event(&events[i]);
        proof {
            lemma_scan_snoc(init_state(), events.deep_view().take(i as int), events.deep_view()[i as int]);
            assert(events.deep_view().take(i + 1 as int) =~= events.deep_view().take(i as int).push(
                events.deep_view()[i as int],
            ));
        }
        i += 1;
    }
    proof {
        assert(events.deep_view().take(events.len() as int) =~= events.deep_view());
    }
    if parser.papers.len() == 0 {
        return Err(ArxivError::NoResults);
    }
    let out = clone_papers(&parser.papers);
    Ok(out)
}

/// A document whose scan opens no `entry` element yields the no-results
/// failure: with no entry boundary, no paper can complete.
pub proof fn lemma_no_entries_no_results(evs: Seq<EventView>)
    requires
        forall|i: int|
            0 <= i < evs.len() ==> !(#[trigger] evs[i] matches EventView::Start(n) && n
                == "entry"@),
    ensures
        parse_outcome(evs) == Err::<Seq<PaperView>, ArxivError>(ArxivError::NoResults),
{
    lemma_scan_no_entries(init_state(), evs);
}

proof fn lemma_scan_no_entries(st: ParserView, evs: Seq<EventView>)
    requires
        st.papers.len() == 0,
        st.current is None,
        !st.in_entry,
        forall|i: int|
            0 <= i < evs.len() ==> !(#[trigger] evs[i] matches EventView::Start(n) && n
                == "entry"@),
    ensures
        scan(st, evs).papers.len() == 0,
        scan(st, evs).current is None,
        !scan(st, evs).in_entry,
    decreases evs.len(),
{
    if evs.len() == 0 {
    } else {
        let st1 = step(st, evs[0]);
        assert(!(evs[0] matches EventView::Start(n) && n == "entry"@));
        assert(st1.papers.len() == 0 && st1.current is None && !st1.in_entry);
        assert(forall|i: int|
            0 <= i < evs.skip(1).len() ==> !(#[trigger] evs.skip(1)[i] matches EventView::Start(n)
                && n == "entry"@));
        lemma_scan_no_entries(st1, evs.skip(1));
    }
}

} // verus!
