//! Verified core of an arXiv Atom-feed search client: a streaming feed
//! parser that turns one XML document into a list of `Paper` records, a
//! URL normalizer that rewrites abstract-page links to secure PDF links,
//! and two pure renderers (a fixed-width text table and an HTML fragment).

pub mod events;
pub mod laws;
pub mod parser;
pub mod render;
pub mod strutil;
pub mod urlnorm;

use vstd::prelude::*;

verus! {

/// A document-level failure of the core: the error kinds surfaced by the
/// parser and the renderers.
#[derive(Clone, Copy, Debug, PartialEq, Eq, Structural)]
pub enum ArxivError {
    /// The XML tokenizer reported a syntax error; the parse aborts.
    XmlParsing,
    /// The document was well formed but yielded zero completed entries.
    NoResults,
    /// A text or attribute value is not valid UTF-8; the parse aborts.
    Utf8Error,
    /// An internal failure while writing an output buffer.
    Formatting,
}

impl ArxivError {
    /// A short human-readable description of the failure.
    pub fn message(&self) -> (r: &'static str)
        ensures
            self is XmlParsing ==> r@ == "XML parsing error"@,
            self is NoResults ==> r@ == "No results found"@,
            self is Utf8Error ==> r@ == "UTF-8 decoding error"@,
            self is Formatting ==> r@ == "Formatting error"@,
    {
        match self {
            ArxivError::XmlParsing => "XML parsing error",
            ArxivError::NoResults => "No results found",
            ArxivError::Utf8Error => "UTF-8 decoding error",
            ArxivError::Formatting => "Formatting error",
        }
    }
}

/// One arXiv entry, as extracted from the feed.
#[derive(Debug, Clone)]
pub struct Paper {
    pub title: String,
    pub authors: Vec<String>,
    pub abstract_text: String,
    pub url: String,
    pub categories: Vec<String>,
}

/// Mathematical model of a `Paper`: every field as a sequence of characters.
#[verifier::ext_equal]
pub struct PaperView {
    pub title: Seq<char>,
    pub authors: Seq<Seq<char>>,
    pub abstract_text: Seq<char>,
    pub url: Seq<char>,
    pub categories: Seq<Seq<char>>,
}

impl View for Paper {
    type V = PaperView;

    open spec fn view(&self) -> PaperView {
        PaperView {
            title: self.title@,
            authors: self.authors.deep_view(),
            abstract_text: self.abstract_text@,
            url: self.url@,
            categories: self.categories.deep_view(),
        }
    }
}

impl DeepView for Paper {
    type V = PaperView;

    open spec fn deep_view(&self) -> PaperView {
        self.view()
    }
}

impl Paper {
    /// A paper with every field empty, as begun at an entry-start boundary.
    pub fn new() -> (p: Paper)
        ensures
            p@.title == Seq::<char>::empty(),
            p@.authors == Seq::<Seq<char>>::empty(),
            p@.abstract_text == Seq::<char>::empty(),
            p@.url == Seq::<char>::empty(),
            p@.categories == Seq::<Seq<char>>::empty(),
    {
        Paper {
            title: String::new(),
            authors: Vec::new(),
            abstract_text: String::new(),
            url: String::new(),
            categories: Vec::new(),
        }
    }
}

/// The arguments of one search request: the query text and an optional
/// cap on the number of results.
pub struct SearchArgs {
    pub query: String,
    pub max_results: Option<i32>,
}

impl SearchArgs {
    /// The result cap the request asks for: the given one, or five when
    /// none is given.
    pub fn effective_max_results(&self) -> (r: i32)
        ensures
            r == match self.max_results {
                Some(m) => m,
                None => 5i32,
            },
    {
        match &self.max_results {
            Some(m) => *m,
            None => 5,
        }
    }
}

/// The arXiv search capability: it names the tool and describes it; the
/// network fetch itself belongs to the collaborator around the core.
pub struct ArxivSearchTool;

impl ArxivSearchTool {
    /// The tool's wire name.
    pub fn name(&self) -> (r: &'static str)
        ensures
            r@ == "search_arxiv"@,
    {
        "search_arxiv"
    }

    /// The tool's human-readable description.
    pub fn description(&self) -> (r: &'static str)
        ensures
            r@ == "Search for academic papers on arXiv"@,
    {
        "Search for academic papers on arXiv"
    }
}

} // verus!
