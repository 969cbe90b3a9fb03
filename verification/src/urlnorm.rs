//! Canonical-URL normalization: every link captured from the feed is
//! forced onto secure transport, and an abstract-page link is rewritten
//! to the equivalent PDF link.

use vstd::prelude::*;

use crate::strutil::{has_sub, lemma_replace_all_no_match, replace_all, str_contains,
    str_replace_all};

verus! {

/// The normalized form of a captured link: an abstract-page URL becomes a
/// secure PDF URL with a `.pdf` suffix; a PDF URL and any other URL are
/// only forced onto secure transport.
pub open spec fn norm_url(s: Seq<char>) -> Seq<char> {
    if has_sub(s, "arxiv.org/abs/"@) {
        replace_all(replace_all(s, "arxiv.org/abs/"@, "arxiv.org/pdf/"@), "http://"@, "https://"@)
            + ".pdf"@
    } else if has_sub(s, "arxiv.org/pdf/"@) {
        replace_all(s, "http://"@, "https://"@)
    } else {
        replace_all(s, "http://"@, "https://"@)
    }
}

/// The canonical form of the URL `url`, per `norm_url`.
pub fn convert_pdf_url(url: &str) -> (r: String)
    ensures
        r@ == norm_url(url@),
{
    proof {
        reveal_strlit("arxiv.org/abs/");
        reveal_strlit("arxiv.org/pdf/");
        reveal_strlit("http://");
        reveal_strlit("https://");
    }
    if str_contains(url, "arxiv.org/abs/") {
        let step = str_replace_all(url, "arxiv.org/abs/", "arxiv.org/pdf/");
        let mut r = str_replace_all(step.as_str(), "http://", "https://");
        r.append(".pdf");
        r
    } else if str_contains(url, "arxiv.org/pdf/") {
        str_replace_all(url, "http://", "https://")
    } else {
        str_replace_all(url, "http://", "https://")
    }
}

/// Normalizing is idempotent on its fixed points: a URL that already
/// denotes the PDF rendition, carries no abstract-page segment, and holds
/// no insecure scheme comes back unchanged.
pub proof fn lemma_norm_url_idempotent(u: Seq<char>)
    requires
        has_sub(u, "arxiv.org/pdf/"@),
        !has_sub(u, "arxiv.org/abs/"@),
        !has_sub(u, "http://"@),
    ensures
        norm_url(u) == u,
{
    reveal_strlit("http://");
    lemma_replace_all_no_match(u, "http://"@, "https://"@);
}

} // verus!
