//! Laws of the feed parser: what the scan owes a well-formed document.
//! A document here is described by the fields of its entries; the laws
//! relate the scan of the corresponding event sequence to those fields.

use vstd::prelude::*;

use crate::events::{AttrView, EventView};
use crate::parser::{init_state, lemma_scan_concat, parse_outcome, scan, step, ParserView};
use crate::strutil::trim;
use crate::urlnorm::norm_url;
use crate::{ArxivError, PaperView};

verus! {

/// The source fields of one feed entry.
pub struct EntryFields {
    pub title: Seq<char>,
    pub authors: Seq<Seq<char>>,
    pub abstract_text: Seq<char>,
    pub url: Seq<char>,
    pub categories: Seq<Seq<char>>,
}

/// A text value the feed carries verbatim: non-empty and already free of
/// surrounding whitespace, so trimming returns it unchanged.
pub open spec fn verbatim_text(t: Seq<char>) -> bool {
    t.len() > 0 && trim(t) == t
}

/// Well-formedness of one entry's fields: the title, the abstract and
/// every author are verbatim text values. The URL and the categories are
/// attribute values and may be anything.
pub open spec fn wf_entry(e: EntryFields) -> bool {
    &&& verbatim_text(e.title)
    &&& verbatim_text(e.abstract_text)
    &&& forall|i: int| 0 <= i < e.authors.len() ==> verbatim_text(#[trigger] e.authors[i])
}

/// The events of one `author` element.
pub open spec fn author_events(a: Seq<char>) -> Seq<EventView> {
    seq![
        EventView::Start("author"@),
        EventView::Text(a),
        EventView::End("author"@),
    ]
}

/// The events of the author elements, in order.
pub open spec fn authors_events(authors: Seq<Seq<char>>) -> Seq<EventView>
    decreases authors.len(),
{
    if authors.len() == 0 {
        Seq::empty()
    } else {
        author_events(authors[0]) + authors_events(authors.skip(1))
    }
}

/// The events of the category elements, in order.
pub open spec fn category_events(cats: Seq<Seq<char>>) -> Seq<EventView>
    decreases cats.len(),
{
    if cats.len() == 0 {
        Seq::empty()
    } else {
        seq![EventView::Empty("category"@, seq![AttrView { key: "term"@, value: cats[0] }])]
            + category_events(cats.skip(1))
    }
}

/// The events of one well-formed entry: the entry boundary, a title, the
/// authors, a summary, one self-closed link, the categories, and the
/// closing boundary.
pub open spec fn entry_events(e: EntryFields) -> Seq<EventView> {
    seq![EventView::Start("entry"@)] + seq![
        EventView::Start("title"@),
        EventView::Text(e.title),
        EventView::End("title"@),
    ] + authors_events(e.authors) + seq![
        EventView::Start("summary"@),
        EventView::Text(e.abstract_text),
        EventView::End("summary"@),
    ] + seq![EventView::Empty("link"@, seq![AttrView { key: "href"@, value: e.url }])]
        + category_events(e.categories) + seq![EventView::End("entry"@)]
}

/// The events of a whole document: its entries, in order.
pub open spec fn entries_events(es: Seq<EntryFields>) -> Seq<EventView>
    decreases es.len(),
{
    if es.len() == 0 {
        Seq::empty()
    } else {
        entry_events(es[0]) + entries_events(es.skip(1))
    }
}

/// The paper an entry owes: every field verbatim, except the URL, which
/// is normalized.
pub open spec fn expected_paper(e: EntryFields) -> PaperView {
    PaperView {
        title: e.title,
        authors: e.authors,
        abstract_text: e.abstract_text,
        url: norm_url(e.url),
        categories: e.categories,
    }
}

proof fn lemma_scan1(st: ParserView, e1: EventView)
    ensures
        scan(st, seq![e1]) == step(st, e1),
{
    assert(seq![e1][0] == e1);
    assert(seq![e1].skip(1) =~= Seq::<EventView>::empty());
    assert(scan(st, seq![e1]) == scan(step(st, e1), Seq::<EventView>::empty()));
    assert(scan(step(st, e1), Seq::<EventView>::empty()) == step(st, e1));
}

proof fn lemma_scan3(st: ParserView, e1: EventView, e2: EventView, e3: EventView)
    ensures
        scan(st, seq![e1, e2, e3]) == step(step(step(st, e1), e2), e3),
{
    assert(seq![e1, e2, e3][0] == e1);
    assert(seq![e1, e2, e3].skip(1) =~= seq![e2, e3]);
    assert(scan(st, seq![e1, e2, e3]) == scan(step(st, e1), seq![e2, e3]));
    assert(seq![e2, e3][0] == e2);
    assert(seq![e2, e3].skip(1) =~= seq![e3]);
    assert(scan(step(st, e1), seq![e2, e3]) == scan(step(step(st, e1), e2), seq![e3]));
    lemma_scan1(step(step(st, e1), e2), e3);
}

proof fn reveal_tag_literals()
    ensures
        "entry"@.len() == 5,
        "title"@.len() == 5,
        "author"@.len() == 6,
        "summary"@.len() == 7,
        "link"@.len() == 4,
        "category"@.len() == 8,
        "href"@.len() == 4,
        "term"@.len() == 4,
        "entry"@ != "title"@,
        "entry"@ != "author"@,
        "entry"@ != "summary"@,
        "entry"@ != "link"@,
        "entry"@ != "category"@,
        "title"@ != "author"@,
        "title"@ != "summary"@,
        "title"@ != "link"@,
        "title"@ != "category"@,
        "author"@ != "summary"@,
        "author"@ != "link"@,
        "author"@ != "category"@,
        "summary"@ != "link"@,
        "summary"@ != "category"@,
        "link"@ != "category"@,
        "href"@ != "term"@,
{
    reveal_strlit("entry");
    reveal_strlit("title");
    reveal_strlit("author");
    reveal_strlit("summary");
    reveal_strlit("link");
    reveal_strlit("category");
    reveal_strlit("href");
    reveal_strlit("term");
    assert("entry"@[0] == 'e' && "title"@[0] == 't' && "author"@[0] == 'a' && "summary"@[0] == 's'
        && "href"@[0] == 'h' && "term"@[0] == 't');
    assert("title"@[0] == 't' && "term"@[1] == 'e' && "title"@[1] == 'i');
}

proof fn lemma_scan_authors(st: ParserView, authors: Seq<Seq<char>>)
    requires
        st.in_entry,
        st.current is Some,
        st.field is None,
        forall|i: int| 0 <= i < authors.len() ==> verbatim_text(#[trigger] authors[i]),
    ensures
        scan(st, authors_events(authors)) == (ParserView {
            authors: st.authors + authors,
            ..st
        }),
    decreases authors.len(),
{
    reveal_tag_literals();
    if authors.len() == 0 {
        assert(st.authors + authors =~= st.authors);
        assert(scan(st, authors_events(authors)) =~~= (ParserView {
            authors: st.authors + authors,
            ..st
        }));
    } else {
        let a = authors[0];
        lemma_scan3(st, EventView::Start("author"@), EventView::Text(a), EventView::End("author"@));
        let st1 = step(st, EventView::Start("author"@));
        let st2 = step(st1, EventView::Text(a));
        let st3 = step(st2, EventView::End("author"@));
        assert(st3 =~~= (ParserView { authors: st.authors.push(a), ..st }));
        lemma_scan_concat(st, author_events(a), authors_events(authors.skip(1)));
        lemma_scan_authors(st3, authors.skip(1));
        assert(st.authors.push(a) + authors.skip(1) =~= st.authors + authors);
        assert(scan(st, authors_events(authors)) =~~= (ParserView {
            authors: st.authors + authors,
            ..st
        }));
    }
}

proof fn lemma_scan_categories(st: ParserView, cats: Seq<Seq<char>>)
    requires
        st.in_entry,
    ensures
        scan(st, category_events(cats)) == (ParserView { categories: st.categories + cats, ..st }),
    decreases cats.len(),
{
    reveal_tag_literals();
    if cats.len() == 0 {
        assert(st.categories + cats =~= st.categories);
        assert(scan(st, category_events(cats)) =~~= (ParserView {
            categories: st.categories + cats,
            ..st
        }));
    } else {
        let c = cats[0];
        let ev = EventView::Empty("category"@, seq![AttrView { key: "term"@, value: c }]);
        lemma_scan1(st, ev);
        let attrs = seq![AttrView { key: "term"@, value: c }];
        assert(attrs.drop_last() =~= Seq::<AttrView>::empty());
        assert(attrs.last() == AttrView { key: "term"@, value: c });
        assert(crate::parser::term_values(Seq::<AttrView>::empty()) =~= Seq::<Seq<char>>::empty());
        assert(crate::parser::term_values(attrs) =~= seq![c]);
        assert(st.categories + crate::parser::term_values(attrs) =~= st.categories.push(c));
        let st1 = step(st, ev);
        assert(st1 =~~= (ParserView { categories: st.categories.push(c), ..st }));
        lemma_scan_concat(st, seq![ev], category_events(cats.skip(1)));
        lemma_scan_categories(st1, cats.skip(1));
        assert(st.categories.push(c) + cats.skip(1) =~= st.categories + cats);
        assert(scan(st, category_events(cats)) =~~= (ParserView {
            categories: st.categories + cats,
            ..st
        }));
    }
}

proof fn lemma_scan_entry(st: ParserView, e: EntryFields)
    requires
        !st.in_entry,
        st.current is None,
        wf_entry(e),
    ensures
        scan(st, entry_events(e)) == (ParserView {
            papers: st.papers.push(expected_paper(e)),
            current: None,
            authors: e.authors,
            categories: e.categories,
            in_entry: false,
            field: None,
        }),
{
    reveal_tag_literals();
    let open_entry = seq![EventView::Start("entry"@)];
    let title_block = seq![
        EventView::Start("title"@),
        EventView::Text(e.title),
        EventView::End("title"@),
    ];
    let summary_block = seq![
        EventView::Start("summary"@),
        EventView::Text(e.abstract_text),
        EventView::End("summary"@),
    ];
    let link_attrs = seq![AttrView { key: "href"@, value: e.url }];
    let link_block = seq![EventView::Empty("link"@, link_attrs)];
    let close_entry = seq![EventView::End("entry"@)];

    let part1 = open_entry + title_block;
    let part2 = part1 + authors_events(e.authors);
    let part3 = part2 + summary_block;
    let part4 = part3 + link_block;
    let part5 = part4 + category_events(e.categories);
    assert(entry_events(e) == part5 + close_entry);

    // Opening the entry boundary.
    lemma_scan1(st, EventView::Start("entry"@));
    let st1 = step(st, EventView::Start("entry"@));

    // The title element.
    lemma_scan3(st1, EventView::Start("title"@), EventView::Text(e.title), EventView::End("title"@));
    let st2 = scan(st1, title_block);
    lemma_scan_concat(st, open_entry, title_block);
    assert(scan(st, part1) == st2);

    // The author elements.
    assert(st2.in_entry && st2.current is Some && st2.field is None);
    lemma_scan_authors(st2, e.authors);
    let st3 = scan(st2, authors_events(e.authors));
    lemma_scan_concat(st, part1, authors_events(e.authors));
    assert(scan(st, part2) == st3);

    // The summary element.
    lemma_scan3(
        st3,
        EventView::Start("summary"@),
        EventView::Text(e.abstract_text),
        EventView::End("summary"@),
    );
    let st4 = scan(st3, summary_block);
    lemma_scan_concat(st, part2, summary_block);
    assert(scan(st, part3) == st4);

    // The link element.
    lemma_scan1(st4, EventView::Empty("link"@, link_attrs));
    assert(link_attrs.drop_last() =~= Seq::<AttrView>::empty());
    let st5 = step(st4, EventView::Empty("link"@, link_attrs));
    lemma_scan_concat(st, part3, link_block);
    assert(scan(st, part4) == st5);

    // The category elements.
    assert(st5.in_entry);
    lemma_scan_categories(st5, e.categories);
    let st6 = scan(st5, category_events(e.categories));
    lemma_scan_concat(st, part4, category_events(e.categories));
    assert(scan(st, part5) == st6);

    // Closing the entry boundary.
    lemma_scan1(st6, EventView::End("entry"@));
    let st7 = step(st6, EventView::End("entry"@));
    lemma_scan_concat(st, part5, close_entry);
    assert(scan(st, entry_events(e)) == st7);

    assert(st6.authors =~= e.authors);
    assert(st6.categories =~= e.categories);
    match st6.current {
        Some(p) => {
            assert(PaperView { authors: st6.authors, categories: st6.categories, ..p } =~~=
                expected_paper(e));
        },
        None => {
            assert(false);
        },
    }
    assert(st7 =~~= (ParserView {
        papers: st.papers.push(expected_paper(e)),
        current: None,
        authors: e.authors,
        categories: e.categories,
        in_entry: false,
        field: None,
    }));
}

proof fn lemma_scan_entries(st: ParserView, es: Seq<EntryFields>)
    requires
        !st.in_entry,
        st.current is None,
        forall|i: int| 0 <= i < es.len() ==> wf_entry(#[trigger] es[i]),
    ensures
        scan(st, entries_events(es)).papers =~= st.papers + Seq::new(
            es.len(),
            |i: int| expected_paper(es[i]),
        ),
        scan(st, entries_events(es)).current is None,
        !scan(st, entries_events(es)).in_entry,
    decreases es.len(),
{
    if es.len() == 0 {
        assert(st.papers + Seq::new(0, |i: int| expected_paper(es[i])) =~= st.papers);
    } else {
        lemma_scan_entry(st, es[0]);
        let st1 = scan(st, entry_events(es[0]));
        lemma_scan_concat(st, entry_events(es[0]), entries_events(es.skip(1)));
        lemma_scan_entries(st1, es.skip(1));
        assert(st.papers.push(expected_paper(es[0])) + Seq::new(
            es.skip(1).len(),
            |i: int| expected_paper(es.skip(1)[i]),
        ) =~= st.papers + Seq::new(es.len(), |i: int| expected_paper(es[i])));
    }
}

/// A well-formed document with at least one entry parses to exactly its
/// entries, in document order: each paper holds the entry's title,
/// authors, abstract and categories verbatim, and the entry's URL after
/// normalization.
pub proof fn lemma_well_formed_parse(es: Seq<EntryFields>)
    requires
        es.len() >= 1,
        forall|i: int| 0 <= i < es.len() ==> wf_entry(#[trigger] es[i]),
    ensures
        parse_outcome(entries_events(es)) == Ok::<Seq<PaperView>, ArxivError>(
            Seq::new(es.len(), |i: int| expected_paper(es[i])),
        ),
{
    lemma_scan_entries(init_state(), es);
    assert(init_state().papers + Seq::new(es.len(), |i: int| expected_paper(es[i])) =~= Seq::new(
        es.len(),
        |i: int| expected_paper(es[i]),
    ));
}

/// An entry with no `author` elements still parses, to a paper whose
/// author sequence is empty.
pub proof fn lemma_entry_without_authors(e: EntryFields)
    requires
        e.authors.len() == 0,
        verbatim_text(e.title),
        verbatim_text(e.abstract_text),
    ensures
        parse_outcome(entries_events(seq![e])) == Ok::<Seq<PaperView>, ArxivError>(
            seq![expected_paper(e)],
        ),
        expected_paper(e).authors == Seq::<Seq<char>>::empty(),
{
    assert(wf_entry(e));
    assert(seq![e][0] == e);
    lemma_well_formed_parse(seq![e]);
    assert(Seq::new(1, |i: int| expected_paper(seq![e][i])) =~= seq![expected_paper(e)]);
    assert(expected_paper(e).authors =~= Seq::<Seq<char>>::empty());
}

} // verus!
