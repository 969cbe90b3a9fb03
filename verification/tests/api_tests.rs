use arxiv_feed::{ArxivError, ArxivSearchTool, Paper, SearchArgs};

#[test]
fn new_paper_has_every_field_empty() {
    let p = Paper::new();
    assert_eq!(p.title, "");
    assert!(p.authors.is_empty());
    assert_eq!(p.abstract_text, "");
    assert_eq!(p.url, "");
    assert!(p.categories.is_empty());
}

#[test]
fn error_messages_name_the_failure() {
    assert_eq!(ArxivError::XmlParsing.message(), "XML parsing error");
    assert_eq!(ArxivError::NoResults.message(), "No results found");
    assert_eq!(ArxivError::Utf8Error.message(), "UTF-8 decoding error");
    assert_eq!(ArxivError::Formatting.message(), "Formatting error");
}

#[test]
fn max_results_defaults_to_five() {
    let with_cap = SearchArgs { query: String::from("q"), max_results: Some(9) };
    assert_eq!(with_cap.effective_max_results(), 9);
    let without_cap = SearchArgs { query: String::from("q"), max_results: None };
    assert_eq!(without_cap.effective_max_results(), 5);
}

#[test]
fn the_tool_names_itself() {
    let tool = ArxivSearchTool;
    assert_eq!(tool.name(), "search_arxiv");
    assert_eq!(tool.description(), "Search for academic papers on arXiv");
}
