use arxiv_feed::events::{XmlAttr, XmlEvent};
use arxiv_feed::parser::{parse_arxiv_response, parse_events, ArxivParser};
use arxiv_feed::ArxivError;

fn two_entry_fixture() -> String {
    let mut s = String::new();
    s.push_str("<?xml version=\"1.0\" encoding=\"UTF-8\"?>\n");
    s.push_str("<feed xmlns=\"http://www.w3.org/2005/Atom\">\n");
    s.push_str("  <title>ArXiv Query Results</title>\n");
    s.push_str("  <entry>\n");
    s.push_str("    <title>Attention Is All You Need</title>\n");
    s.push_str("    <author><name>Ashish Vaswani</name></author>\n");
    s.push_str("    <author><name>Noam Shazeer</name></author>\n");
    s.push_str("    <summary>We propose a new network architecture.</summary>\n");
    s.push_str("    <link href=\"http://arxiv.org/abs/1706.03762\" rel=\"alternate\"/>\n");
    s.push_str("    <category term=\"cs.CL\"/>\n");
    s.push_str("    <category term=\"cs.LG\"/>\n");
    s.push_str("  </entry>\n");
    s.push_str("  <entry>\n");
    s.push_str("    <title>Deep Residual Learning</title>\n");
    s.push_str("    <author><name>Kaiming He</name></author>\n");
    s.push_str("    <summary>Deeper neural networks are harder to train.</summary>\n");
    s.push_str("    <link href=\"http://arxiv.org/pdf/1512.03385\"/>\n");
    s.push_str("    <category term=\"cs.CV\"/>\n");
    s.push_str("  </entry>\n");
    s.push_str("</feed>\n");
    s
}

#[test]
fn two_entries_parse_in_document_order() {
    let papers = parse_arxiv_response(&two_entry_fixture()).unwrap();
    assert_eq!(papers.len(), 2);

    assert_eq!(papers[0].title, "Attention Is All You Need");
    assert_eq!(papers[0].authors, vec!["Ashish Vaswani", "Noam Shazeer"]);
    assert_eq!(papers[0].abstract_text, "We propose a new network architecture.");
    assert_eq!(papers[0].url, "https://arxiv.org/pdf/1706.03762.pdf");
    assert_eq!(papers[0].categories, vec!["cs.CL", "cs.LG"]);

    assert_eq!(papers[1].title, "Deep Residual Learning");
    assert_eq!(papers[1].authors, vec!["Kaiming He"]);
    assert_eq!(papers[1].abstract_text, "Deeper neural networks are harder to train.");
    assert_eq!(papers[1].url, "https://arxiv.org/pdf/1512.03385");
    assert_eq!(papers[1].categories, vec!["cs.CV"]);
}

#[test]
fn document_without_entries_is_no_results() {
    let doc = "<feed><title>empty</title><updated>now</updated></feed>";
    let err = parse_arxiv_response(doc).unwrap_err();
    assert!(matches!(err, ArxivError::NoResults));
}

#[test]
fn empty_document_is_no_results() {
    let err = parse_arxiv_response("").unwrap_err();
    assert!(matches!(err, ArxivError::NoResults));
}

#[test]
fn entry_without_authors_parses_with_empty_author_list() {
    let doc = "<feed><entry>\
               <title>Lonely Paper</title>\
               <summary>No one wrote this.</summary>\
               <link href=\"http://example.com/x\"/>\
               </entry></feed>";
    let papers = parse_arxiv_response(doc).unwrap();
    assert_eq!(papers.len(), 1);
    assert_eq!(papers[0].title, "Lonely Paper");
    assert!(papers[0].authors.is_empty());
    assert!(papers[0].categories.is_empty());
    assert_eq!(papers[0].url, "https://example.com/x");
}

#[test]
fn mismatched_end_tag_is_parse_error() {
    let doc = "<feed><entry><title>x</wrong></entry></feed>";
    let err = parse_arxiv_response(doc).unwrap_err();
    assert!(matches!(err, ArxivError::XmlParsing));
}

#[test]
fn text_is_whitespace_trimmed() {
    let doc = "<feed><entry><title>\n   Spaced Out \t</title>\
               <summary>  kept   inside  </summary></entry></feed>";
    let papers = parse_arxiv_response(doc).unwrap();
    assert_eq!(papers[0].title, "Spaced Out");
    assert_eq!(papers[0].abstract_text, "kept   inside");
}

#[test]
fn last_link_wins() {
    let doc = "<feed><entry><title>t</title>\
               <link href=\"http://example.com/first\"/>\
               <link href=\"http://example.com/second\"/>\
               </entry></feed>";
    let papers = parse_arxiv_response(doc).unwrap();
    assert_eq!(papers[0].url, "https://example.com/second");
}

#[test]
fn unrecognized_tags_are_ignored() {
    let doc = "<feed><entry><title>t</title>\
               <published>2024-01-01</published>\
               <iframe>nope</iframe>\
               </entry></feed>";
    let papers = parse_arxiv_response(doc).unwrap();
    assert_eq!(papers.len(), 1);
    assert_eq!(papers[0].title, "t");
    assert_eq!(papers[0].abstract_text, "");
}

#[test]
fn closed_entry_counts_even_when_its_fields_are_empty() {
    // Any entry that reaches its closing boundary is included, even if
    // every field stayed empty.
    let doc = "<feed><entry><unused/></entry></feed>";
    let papers = parse_arxiv_response(doc).unwrap();
    assert_eq!(papers.len(), 1);
    assert_eq!(papers[0].title, "");
    assert_eq!(papers[0].url, "");
    assert!(papers[0].authors.is_empty());
}

#[test]
fn parse_events_follows_the_scan() {
    let events = vec![
        XmlEvent::Start(String::from("entry")),
        XmlEvent::Start(String::from("title")),
        XmlEvent::Text(String::from("Direct")),
        XmlEvent::End(String::from("title")),
        XmlEvent::Empty(
            String::from("link"),
            vec![XmlAttr { key: String::from("href"), value: String::from("http://arxiv.org/abs/7") }],
        ),
        XmlEvent::Empty(
            String::from("category"),
            vec![XmlAttr { key: String::from("term"), value: String::from("math.CO") }],
        ),
        XmlEvent::End(String::from("entry")),
    ];
    let papers = parse_events(&events).unwrap();
    assert_eq!(papers.len(), 1);
    assert_eq!(papers[0].title, "Direct");
    assert_eq!(papers[0].url, "https://arxiv.org/pdf/7.pdf");
    assert_eq!(papers[0].categories, vec!["math.CO"]);
}

#[test]
fn parse_events_without_entries_is_no_results() {
    let events = vec![
        XmlEvent::Start(String::from("feed")),
        XmlEvent::Text(String::from("stray")),
        XmlEvent::End(String::from("feed")),
    ];
    let err = parse_events(&events).unwrap_err();
    assert!(matches!(err, ArxivError::NoResults));
}

#[test]
fn parsing_the_same_document_twice_gives_the_same_papers() {
    let doc = two_entry_fixture();
    let a = parse_arxiv_response(&doc).unwrap();
    let b = parse_arxiv_response(&doc).unwrap();
    assert_eq!(a.len(), b.len());
    for (x, y) in a.iter().zip(b.iter()) {
        assert_eq!(x.title, y.title);
        assert_eq!(x.authors, y.authors);
        assert_eq!(x.abstract_text, y.abstract_text);
        assert_eq!(x.url, y.url);
        assert_eq!(x.categories, y.categories);
    }
}

#[test]
fn parser_state_machine_is_reusable_across_events() {
    let mut p = ArxivParser::new();
    p.parse_start_event("entry");
    p.parse_start_event("title");
    p.parse_text_event("  Stepwise  ");
    p.parse_end_event("title");
    p.parse_end_event("entry");
    assert_eq!(p.papers.len(), 1);
    assert_eq!(p.papers[0].title, "Stepwise");
}
