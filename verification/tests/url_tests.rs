use arxiv_feed::urlnorm::convert_pdf_url;

#[test]
fn abstract_url_becomes_secure_pdf_url() {
    assert_eq!(convert_pdf_url("http://arxiv.org/abs/1234"), "https://arxiv.org/pdf/1234.pdf");
}

#[test]
fn pdf_url_only_gains_secure_scheme() {
    assert_eq!(convert_pdf_url("http://arxiv.org/pdf/1234"), "https://arxiv.org/pdf/1234");
}

#[test]
fn other_url_only_gains_secure_scheme() {
    assert_eq!(convert_pdf_url("http://example.com/x"), "https://example.com/x");
}

#[test]
fn secure_pdf_url_is_a_fixed_point() {
    let once = convert_pdf_url("http://arxiv.org/pdf/1234");
    let twice = convert_pdf_url(&once);
    assert_eq!(once, twice);
}

#[test]
fn already_secure_url_is_unchanged() {
    assert_eq!(convert_pdf_url("https://example.com/x"), "https://example.com/x");
}

#[test]
fn abstract_rewrite_applies_to_every_occurrence() {
    assert_eq!(
        convert_pdf_url("http://arxiv.org/abs/a?mirror=arxiv.org/abs/b"),
        "https://arxiv.org/pdf/a?mirror=arxiv.org/pdf/b.pdf"
    );
}
