//! The renderers: pure projections of a paper list into a fixed-width
//! text report and into an HTML fragment. Each output string is pinned
//! character for character by a specification function.

use vstd::prelude::*;

use crate::strutil::{center_dashes, dec_str, join, join_strings, pad_right, push_centered,
    push_dashes, push_padded, push_truncated, repeat_char, truncate_ellipsis, usize_to_dec};
use crate::{ArxivError, Paper, PaperView};

verus! {

/// The author display rule: more than two authors show as the first
/// author with an `et al.` marker, otherwise all authors joined with a
/// comma; no authors show as the empty string.
pub open spec fn author_display(authors: Seq<Seq<char>>) -> Seq<char> {
    if authors.len() > 2 {
        authors[0] + " et al."@
    } else {
        join(authors, ", "@)
    }
}

/// No authors show as nothing, one author as the name, two as the names
/// joined with a comma, and more as the first author with `et al.`.
pub proof fn lemma_author_display_rule(authors: Seq<Seq<char>>)
    ensures
        authors.len() == 0 ==> author_display(authors) == Seq::<char>::empty(),
        authors.len() == 1 ==> author_display(authors) == authors[0],
        authors.len() == 2 ==> author_display(authors) == authors[0] + ", "@ + authors[1],
        authors.len() > 2 ==> author_display(authors) == authors[0] + " et al."@,
{
    if authors.len() == 2 {
        assert(authors.skip(1).len() == 1);
        assert(authors.skip(1)[0] == authors[1]);
        assert(join(authors.skip(1), ", "@) == authors.skip(1)[0]);
        assert(join(authors, ", "@) == authors[0] + ", "@ + join(authors.skip(1), ", "@));
    }
}

/// A field cell is truncated exactly when it exceeds its budget: a
/// longer text keeps its first `keep` characters and gains the `...`
/// marker, a shorter one is kept whole.
pub proof fn lemma_truncation_rule(s: Seq<char>, keep: nat)
    ensures
        s.len() > keep ==> truncate_ellipsis(s, keep) == s.subrange(0, keep as int) + "..."@,
        s.len() <= keep ==> truncate_ellipsis(s, keep) == s,
{
}

/// The author display rule, as executable code.
pub fn format_author_display(authors: &Vec<String>) -> (r: String)
    ensures
        r@ == author_display(authors.deep_view()),
{
    if authors.len() > 2 {
        let mut r = authors[0].clone();
        r.append(" et al.");
        r
    } else {
        join_strings(authors, ", ")
    }
}

/// One fixed-width table row: title, authors, categories and URL, each
/// truncated to its column budget and padded to its column width.
pub open spec fn table_row(p: PaperView) -> Seq<char> {
    pad_right(truncate_ellipsis(p.title, 47), 50) + " | "@ + pad_right(
        truncate_ellipsis(author_display(p.authors), 17),
        20,
    ) + " | "@ + pad_right(truncate_ellipsis(join(p.categories, ", "@), 12), 15) + " | "@
        + pad_right(truncate_ellipsis(p.url, 27), 30) + "\n"@
}

/// The table rows of the papers, in order.
pub open spec fn table_rows(ps: Seq<PaperView>) -> Seq<char>
    decreases ps.len(),
{
    if ps.len() == 0 {
        Seq::empty()
    } else {
        table_row(ps[0]) + table_rows(ps.skip(1))
    }
}

/// The detail block of one paper, numbered `n` (1-based): title, full
/// author list, full abstract, full category list and full URL, with no
/// truncation.
pub open spec fn abstract_block(p: PaperView, n: nat) -> Seq<char> {
    "\n"@ + dec_str(n) + ". "@ + p.title + "\n"@ + "Authors: "@ + join(p.authors, ", "@) + "\n"@
        + "\nAbstract:\n"@ + p.abstract_text + "\n\n"@ + "Categories: "@ + join(
        p.categories,
        ", "@,
    ) + "\n\n"@ + "URL: "@ + p.url + "\n\n"@ + repeat_char('-', 120) + "\n"@
}

/// The detail blocks of the papers, numbered from `n` upward.
pub open spec fn abstract_blocks(ps: Seq<PaperView>, n: nat) -> Seq<char>
    decreases ps.len(),
{
    if ps.len() == 0 {
        Seq::empty()
    } else {
        abstract_block(ps[0], n) + abstract_blocks(ps.skip(1), n + 1)
    }
}

/// The whole plain-text report: banner, header row, separator, one row
/// per paper, and one detail block per paper.
pub open spec fn table_output(ps: Seq<PaperView>) -> Seq<char> {
    "\n"@ + center_dashes(" Research Papers "@, 120) + "\n"@ + pad_right("Title"@, 50) + " | "@
        + pad_right("Authors"@, 20) + " | "@ + pad_right("Categories"@, 15) + " | "@ + pad_right(
        "URL"@,
        30,
    ) + "\n"@ + repeat_char('-', 120) + "\n"@ + table_rows(ps) + "\n"@ + center_dashes(
        " Abstracts "@,
        120,
    ) + "\n"@ + abstract_blocks(ps, 1)
}

fn push_table_row(out: &mut String, p: &Paper)
    ensures
        final(out)@ == old(out)@ + table_row(p@),
{
    let mut title_cell = String::new();
    push_truncated(&mut title_cell, p.title.as_str(), 47);
    push_padded(out, title_cell.as_str(), 50);
    out.append(" | ");
    let disp = format_author_display(&p.authors);
    let mut author_cell = String::new();
    push_truncated(&mut author_cell, disp.as_str(), 17);
    push_padded(out, author_cell.as_str(), 20);
    out.append(" | ");
    let cats = join_strings(&p.categories, ", ");
    let mut cat_cell = String::new();
    push_truncated(&mut cat_cell, cats.as_str(), 12);
    push_padded(out, cat_cell.as_str(), 15);
    out.append(" | ");
    let mut url_cell = String::new();
    push_truncated(&mut url_cell, p.url.as_str(), 27);
    push_padded(out, url_cell.as_str(), 30);
    out.append("\n");
    proof {
        assert(out@ =~= old(out)@ + table_row(p@));
    }
}

fn push_rows_from(out: &mut String, papers: &Vec<Paper>, i: usize)
    requires
        i <= papers.len(),
    ensures
        final(out)@ == old(out)@ + table_rows(papers.deep_view().skip(i as int)),
    decreases papers.len() - i,
{
    if i == papers.len() {
        proof {
            assert(papers.deep_view().skip(i as int) =~= Seq::<PaperView>::empty());
            assert(old(out)@ + Seq::<char>::empty() =~= old(out)@);
        }
    } else {
        push_table_row(out, &papers[i]);
        push_rows_from(out, papers, i + 1);
        proof {
            assert(papers.deep_view().skip(i as int)[0] == papers.deep_view()[i as int]);
            assert(papers.deep_view().skip(i as int).skip(1) =~= papers.deep_view().skip(
                i + 1 as int,
            ));
            assert(out@ =~= old(out)@ + table_rows(papers.deep_view().skip(i as int)));
        }
    }
}

fn push_abstract_block(out: &mut String, p: &Paper, n: usize)
    ensures
        final(out)@ == old(out)@ + abstract_block(p@, n as nat),
{
    out.append("\n");
    let num = usize_to_dec(n);
    out.append(num.as_str());
    out.append(". ");
    out.append(p.title.as_str());
    out.append("\n");
    out.append("Authors: ");
    let auth = join_strings(&p.authors, ", ");
    out.append(auth.as_str());
    out.append("\n");
    out.append("\nAbstract:\n");
    out.append(p.abstract_text.as_str());
    out.append("\n\n");
    out.append("Categories: ");
    let cats = join_strings(&p.categories, ", ");
    out.append(cats.as_str());
    out.append("\n\n");
    out.append("URL: ");
    out.append(p.url.as_str());
    out.append("\n\n");
    push_dashes(out, 120);
    out.append("\n");
    proof {
        assert(out@ =~= old(out)@ + abstract_block(p@, n as nat));
    }
}

fn push_blocks_from(out: &mut String, papers: &Vec<Paper>, i: usize)
    requires
        i <= papers.len(),
    ensures
        final(out)@ == old(out)@ + abstract_blocks(papers.deep_view().skip(i as int), (i + 1) as nat),
    decreases papers.len() - i,
{
    if i == papers.len() {
        proof {
            assert(papers.deep_view().skip(i as int) =~= Seq::<PaperView>::empty());
            assert(old(out)@ + Seq::<char>::empty() =~= old(out)@);
        }
    } else {
        push_abstract_block(out, &papers[i], i + 1);
        push_blocks_from(out, papers, i + 1);
        proof {
            assert(papers.deep_view().skip(i as int)[0] == papers.deep_view()[i as int]);
            assert(papers.deep_view().skip(i as int).skip(1) =~= papers.deep_view().skip(
                i + 1 as int,
            ));
            assert(out@ =~= old(out)@ + abstract_blocks(
                papers.deep_view().skip(i as int),
                (i + 1) as nat,
            ));
        }
    }
}

/// Renders the papers as the fixed-width text report, exactly as
/// `table_output` states it; rendering always succeeds.
pub fn format_papers_as_table(papers: &Vec<Paper>) -> (r: Result<String, ArxivError>)
    ensures
        r matches Ok(s) && s@ == table_output(papers.deep_view()),
{
    let mut out = String::new();
    out.append("\n");
    push_centered(&mut out, " Research Papers ", 120);
    out.append("\n");
    push_padded(&mut out, "Title", 50);
    out.append(" | ");
    push_padded(&mut out, "Authors", 20);
    out.append(" | ");
    push_padded(&mut out, "Categories", 15);
    out.append(" | ");
    push_padded(&mut out, "URL", 30);
    out.append("\n");
    push_dashes(&mut out, 120);
    out.append("\n");
    push_rows_from(&mut out, papers, 0);
    out.append("\n");
    push_centered(&mut out, " Abstracts ", 120);
    out.append("\n");
    push_blocks_from(&mut out, papers, 0);
    proof {
        assert(papers.deep_view().skip(0) =~= papers.deep_view());
        assert(out@ =~= table_output(papers.deep_view()));
    }
    Ok(out)
}

/// One HTML table row: title, authors (display rule), categories, and a
/// `View Paper` anchor opening in a new browsing context.
pub open spec fn html_row(p: PaperView) -> Seq<char> {
    "<tr><td>"@ + p.title + "</td><td>"@ + author_display(p.authors) + "</td><td>"@ + join(
        p.categories,
        ", "@,
    ) + "</td><td><a href='"@ + p.url + "' target='_blank'>View Paper</a></td></tr>\n"@
}

/// The HTML table rows of the papers, in order.
pub open spec fn html_rows(ps: Seq<PaperView>) -> Seq<char>
    decreases ps.len(),
{
    if ps.len() == 0 {
        Seq::empty()
    } else {
        html_row(ps[0]) + html_rows(ps.skip(1))
    }
}

/// One HTML abstract block: title, full author list, full abstract, full
/// category list, and a link back to the paper.
pub open spec fn html_block(p: PaperView) -> Seq<char> {
    "<div class='abstract-container'>\n"@ + "<h3>"@ + p.title + "</h3>\n"@
        + "<p><strong>Authors:</strong> "@ + join(p.authors, ", "@) + "</p>\n"@
        + "<p><strong>Abstract:</strong></p>\n"@ + "<p>"@ + p.abstract_text + "</p>\n"@
        + "<p><strong>Categories:</strong> "@ + join(p.categories, ", "@) + "</p>\n"@
        + "<p><a href='"@ + p.url + "' target='_blank'>View on arXiv</a></p>\n"@ + "</div>\n"@
}

/// The HTML abstract blocks of the papers, in order.
pub open spec fn html_blocks(ps: Seq<PaperView>) -> Seq<char>
    decreases ps.len(),
{
    if ps.len() == 0 {
        Seq::empty()
    } else {
        html_block(ps[0]) + html_blocks(ps.skip(1))
    }
}

/// The whole HTML fragment: a table with one header row and one body row
/// per paper, followed by one abstract block per paper.
pub open spec fn html_output(ps: Seq<PaperView>) -> Seq<char> {
    "<div class='research-results'>\n"@ + "<table class='papers-table'>\n"@
        + "<thead><tr><th>Title</th><th>Authors</th><th>Categories</th><th>URL</th></tr></thead>\n"@
        + "<tbody>\n"@ + html_rows(ps) + "</tbody></table>\n"@ + "<div class='abstracts-section'>\n"@
        + "<h2>Paper Abstracts</h2>\n"@ + html_blocks(ps) + "</div></div>\n"@
}

fn push_html_row(out: &mut String, p: &Paper)
    ensures
        final(out)@ == old(out)@ + html_row(p@),
{
    out.append("<tr><td>");
    out.append(p.title.as_str());
    out.append("</td><td>");
    let disp = format_author_display(&p.authors);
    out.append(disp.as_str());
    out.append("</td><td>");
    let cats = join_strings(&p.categories, ", ");
    out.append(cats.as_str());
    out.append("</td><td><a href='");
    out.append(p.url.as_str());
    out.append("' target='_blank'>View Paper</a></td></tr>\n");
    proof {
        assert(out@ =~= old(out)@ + html_row(p@));
    }
}

fn push_html_rows_from(out: &mut String, papers: &Vec<Paper>, i: usize)
    requires
        i <= papers.len(),
    ensures
        final(out)@ == old(out)@ + html_rows(papers.deep_view().skip(i as int)),
    decreases papers.len() - i,
{
    if i == papers.len() {
        proof {
            assert(papers.deep_view().skip(i as int) =~= Seq::<PaperView>::empty());
            assert(old(out)@ + Seq::<char>::empty() =~= old(out)@);
        }
    } else {
        push_html_row(out, &papers[i]);
        push_html_rows_from(out, papers, i + 1);
        proof {
            assert(papers.deep_view().skip(i as int)[0] == papers.deep_view()[i as int]);
            assert(papers.deep_view().skip(i as int).skip(1) =~= papers.deep_view().skip(
                i + 1 as int,
            ));
            assert(out@ =~= old(out)@ + html_rows(papers.deep_view().skip(i as int)));
        }
    }
}

fn push_html_block(out: &mut String, p: &Paper)
    ensures
        final(out)@ == old(out)@ + html_block(p@),
{
    out.append("<div class='abstract-container'>\n");
    out.append("<h3>");
    out.append(p.title.as_str());
    out.append("</h3>\n");
    out.append("<p><strong>Authors:</strong> ");
    let auth = join_strings(&p.authors, ", ");
    out.append(auth.as_str());
    out.append("</p>\n");
    out.append("<p><strong>Abstract:</strong></p>\n");
    out.append("<p>");
    out.append(p.abstract_text.as_str());
    out.append("</p>\n");
    out.append("<p><strong>Categories:</strong> ");
    let cats = join_strings(&p.categories, ", ");
    out.append(cats.as_str());
    out.append("</p>\n");
    out.append("<p><a href='");
    out.append(p.url.as_str());
    out.append("' target='_blank'>View on arXiv</a></p>\n");
    out.append("</div>\n");
    proof {
        assert(out@ =~= old(out)@ + html_block(p@));
    }
}

fn push_html_blocks_from(out: &mut String, papers: &Vec<Paper>, i: usize)
    requires
        i <= papers.len(),
    ensures
        final(out)@ == old(out)@ + html_blocks(papers.deep_view().skip(i as int)),
    decreases papers.len() - i,
{
    if i == papers.len() {
        proof {
            assert(papers.deep_view().skip(i as int) =~= Seq::<PaperView>::empty());
            assert(old(out)@ + Seq::<char>::empty() =~= old(out)@);
        }
    } else {
        push_html_block(out, &papers[i]);
        push_html_blocks_from(out, papers, i + 1);
        proof {
            assert(papers.deep_view().skip(i as int)[0] == papers.deep_view()[i as int]);
            assert(papers.deep_view().skip(i as int).skip(1) =~= papers.deep_view().skip(
                i + 1 as int,
            ));
            assert(out@ =~= old(out)@ + html_blocks(papers.deep_view().skip(i as int)));
        }
    }
}

/// Renders the papers as the HTML fragment, exactly as `html_output`
/// states it; rendering always succeeds.
pub fn format_papers_as_html(papers: &Vec<Paper>) -> (r: Result<String, ArxivError>)
    ensures
        r matches Ok(s) && s@ == html_output(papers.deep_view()),
{
    let mut out = String::new();
    out.append("<div class='research-results'>\n");
    out.append("<table class='papers-table'>\n");
    out.append("<thead><tr><th>Title</th><th>Authors</th><th>Categories</th><th>URL</th></tr></thead>\n");
    out.append("<tbody>\n");
    push_html_rows_from(&mut out, papers, 0);
    out.append("</tbody></table>\n");
    out.append("<div class='abstracts-section'>\n");
    out.append("<h2>Paper Abstracts</h2>\n");
    push_html_blocks_from(&mut out, papers, 0);
    out.append("</div></div>\n");
    proof {
        assert(papers.deep_view().skip(0) =~= papers.deep_view());
        assert(out@ =~= html_output(papers.deep_view()));
    }
    Ok(out)
}

} // verus!
