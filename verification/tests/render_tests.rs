use arxiv_feed::parser::parse_arxiv_response;
use arxiv_feed::render::{format_author_display, format_papers_as_html, format_papers_as_table};
use arxiv_feed::Paper;

fn sample_paper() -> Paper {
    Paper {
        title: String::from("A Modest Title"),
        authors: vec![String::from("Alice"), String::from("Bob")],
        abstract_text: String::from("An abstract."),
        url: String::from("https://arxiv.org/pdf/1.pdf"),
        categories: vec![String::from("cs.LO"), String::from("cs.PL")],
    }
}

#[test]
fn one_author_shows_the_name() {
    let authors = vec![String::from("Alice")];
    assert_eq!(format_author_display(&authors), "Alice");
}

#[test]
fn two_authors_join_with_a_comma() {
    let authors = vec![String::from("Alice"), String::from("Bob")];
    assert_eq!(format_author_display(&authors), "Alice, Bob");
}

#[test]
fn three_authors_show_et_al() {
    let authors = vec![String::from("Alice"), String::from("Bob"), String::from("Carol")];
    assert_eq!(format_author_display(&authors), "Alice et al.");
}

#[test]
fn no_authors_show_as_empty() {
    let authors: Vec<String> = Vec::new();
    assert_eq!(format_author_display(&authors), "");
}

#[test]
fn table_matches_the_fixed_width_format() {
    let paper = sample_paper();
    let out = format_papers_as_table(&vec![paper.clone()]).unwrap();

    let mut expected = String::new();
    expected.push_str(&format!("\n{:-^120}\n", " Research Papers "));
    expected.push_str(&format!(
        "{:<50} | {:<20} | {:<15} | {:<30}\n",
        "Title", "Authors", "Categories", "URL"
    ));
    expected.push_str(&format!("{:-<120}\n", ""));
    expected.push_str(&format!(
        "{:<50} | {:<20} | {:<15} | {:<30}\n",
        "A Modest Title", "Alice, Bob", "cs.LO, cs.PL", "https://arxiv.org/pdf/1.pdf"
    ));
    expected.push_str(&format!("\n{:-^120}\n", " Abstracts "));
    expected.push_str(&format!("\n{}. {}\n", 1, "A Modest Title"));
    expected.push_str(&format!("Authors: {}\n", "Alice, Bob"));
    expected.push_str(&format!("\nAbstract:\n{}\n\n", "An abstract."));
    expected.push_str(&format!("Categories: {}\n\n", "cs.LO, cs.PL"));
    expected.push_str(&format!("URL: {}\n\n", "https://arxiv.org/pdf/1.pdf"));
    expected.push_str(&format!("{:-<120}\n", ""));

    assert_eq!(out, expected);
}

#[test]
fn title_of_forty_eight_characters_truncates_to_forty_seven_and_ellipsis() {
    let title = "x".repeat(48);
    let mut paper = sample_paper();
    paper.title = title.clone();
    let out = format_papers_as_table(&vec![paper]).unwrap();
    let cell = format!("{}...", &title[..47]);
    assert_eq!(cell.len(), 50);
    assert!(out.contains(&cell));
    assert!(!out.lines().any(|l| l.starts_with(&title)));
}

#[test]
fn title_of_forty_seven_characters_is_not_truncated() {
    let title = "y".repeat(47);
    let mut paper = sample_paper();
    paper.title = title.clone();
    let out = format_papers_as_table(&vec![paper]).unwrap();
    assert!(out.contains(&format!("{} ", title)));
    assert!(!out.contains(&format!("{}...", &title[..44])));
}

#[test]
fn long_fields_truncate_to_their_budgets() {
    let paper = Paper {
        title: String::from("t"),
        authors: vec![String::from("An Author With A Very Long Name")],
        abstract_text: String::from("a"),
        url: String::from("https://example.com/a/very/long/path/indeed"),
        categories: vec![String::from("alpha.one"), String::from("beta.two")],
    };
    let out = format_papers_as_table(&vec![paper]).unwrap();
    assert!(out.contains("An Author With A ..."));
    assert!(out.contains("alpha.one, b..."));
    assert!(out.contains("https://example.com/a/very/..."));
}

#[test]
fn html_matches_the_fragment_format() {
    let paper = sample_paper();
    let out = format_papers_as_html(&vec![paper]).unwrap();

    let mut expected = String::new();
    expected.push_str("<div class='research-results'>\n");
    expected.push_str("<table class='papers-table'>\n");
    expected.push_str(
        "<thead><tr><th>Title</th><th>Authors</th><th>Categories</th><th>URL</th></tr></thead>\n",
    );
    expected.push_str("<tbody>\n");
    expected.push_str(
        "<tr><td>A Modest Title</td><td>Alice, Bob</td><td>cs.LO, cs.PL</td>\
         <td><a href='https://arxiv.org/pdf/1.pdf' target='_blank'>View Paper</a></td></tr>\n",
    );
    expected.push_str("</tbody></table>\n");
    expected.push_str("<div class='abstracts-section'>\n");
    expected.push_str("<h2>Paper Abstracts</h2>\n");
    expected.push_str("<div class='abstract-container'>\n");
    expected.push_str("<h3>A Modest Title</h3>\n");
    expected.push_str("<p><strong>Authors:</strong> Alice, Bob</p>\n");
    expected.push_str("<p><strong>Abstract:</strong></p>\n");
    expected.push_str("<p>An abstract.</p>\n");
    expected.push_str("<p><strong>Categories:</strong> cs.LO, cs.PL</p>\n");
    expected.push_str("<p><a href='https://arxiv.org/pdf/1.pdf' target='_blank'>View on arXiv</a></p>\n");
    expected.push_str("</div>\n");
    expected.push_str("</div></div>\n");

    assert_eq!(out, expected);
}

#[test]
fn html_of_empty_author_entry_has_empty_author_paragraph() {
    let paper = Paper {
        title: String::from("Lonely"),
        authors: Vec::new(),
        abstract_text: String::from("a"),
        url: String::from("https://example.com/x"),
        categories: Vec::new(),
    };
    let out = format_papers_as_html(&vec![paper.clone()]).unwrap();
    assert!(out.contains("<p><strong>Authors:</strong> </p>\n"));
    let table = format_papers_as_table(&vec![paper]).unwrap();
    // The author column of the row renders as an empty, space-padded cell.
    let row = table.lines().nth(4).unwrap();
    let author_cell = row.split(" | ").nth(1).unwrap();
    assert_eq!(author_cell.trim(), "");
}

fn two_entry_fixture() -> String {
    let mut s = String::new();
    s.push_str("<feed>");
    s.push_str("<entry><title>First Title</title>");
    s.push_str("<author><name>A One</name></author>");
    s.push_str("<summary>First abstract.</summary>");
    s.push_str("<link href=\"http://arxiv.org/abs/1\"/>");
    s.push_str("<category term=\"cs.AI\"/></entry>");
    s.push_str("<entry><title>Second Title</title>");
    s.push_str("<author><name>B Two</name></author>");
    s.push_str("<summary>Second abstract.</summary>");
    s.push_str("<link href=\"http://arxiv.org/abs/2\"/>");
    s.push_str("<category term=\"cs.DB\"/></entry>");
    s.push_str("</feed>");
    s
}

#[test]
fn html_round_trip_of_two_entry_parse() {
    let papers = parse_arxiv_response(&two_entry_fixture()).unwrap();
    assert_eq!(papers.len(), 2);
    let html = format_papers_as_html(&papers).unwrap();

    // Exactly two body rows and two abstract blocks.
    assert_eq!(html.matches("<tr><td>").count(), 2);
    assert_eq!(html.matches("<div class='abstract-container'>").count(), 2);

    // Each abstract block's heading carries the corresponding title.
    let headings: Vec<&str> = html
        .matches("<h3>First Title</h3>")
        .chain(html.matches("<h3>Second Title</h3>"))
        .collect();
    assert_eq!(headings.len(), 2);
    let first = html.find("<h3>First Title</h3>").unwrap();
    let second = html.find("<h3>Second Title</h3>").unwrap();
    assert!(first < second);
}
