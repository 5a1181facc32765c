use imap_mcp_lite::build_content_disposition;
use imap_mcp_lite::disposition::percent_encode;

#[test]
fn content_disposition_ascii_filename_quoted() {
    let header = build_content_disposition("report.pdf");
    assert!(header.contains(r#"filename="report.pdf""#));
    assert!(header.contains(r"filename*=UTF-8''report.pdf"));
}

#[test]
fn content_disposition_unicode_filename_is_percent_encoded() {
    let header = build_content_disposition("Отчёт 📊.pdf");
    assert!(header.contains("filename=\""));
    assert!(header.contains("filename*=UTF-8''"));
    assert!(header.contains("%D0%9E"));
    assert!(header.contains(".pdf"));
    assert!(header.is_ascii(), "header must be ASCII-safe: {header}");
}

#[test]
fn content_disposition_strips_path_traversal_segments() {
    let header = build_content_disposition("../etc/passwd");
    assert!(!header.contains("../"));
    assert!(header.contains("passwd"));
}

#[test]
fn content_disposition_empty_filename_falls_back() {
    let header = build_content_disposition("");
    assert!(header.contains(r#"filename="attachment""#));
}

#[test]
fn content_disposition_exact_values() {
    assert_eq!(
        build_content_disposition("report.pdf"),
        r#"attachment; filename="report.pdf"; filename*=UTF-8''report.pdf"#
    );
    assert_eq!(
        build_content_disposition("é x.txt"),
        r#"attachment; filename="__x.txt"; filename*=UTF-8''%C3%A9%20x.txt"#
    );
    assert_eq!(
        build_content_disposition(""),
        r#"attachment; filename="attachment"; filename*=UTF-8''attachment"#
    );
}

#[test]
fn quotes_and_line_breaks_cannot_leave_the_quoted_name() {
    assert_eq!(
        build_content_disposition("a\"b\r\nc"),
        r#"attachment; filename="a_b__c"; filename*=UTF-8''a%22b%0D%0Ac"#
    );
}

#[test]
fn last_segment_counts_for_either_separator() {
    let expected = r#"attachment; filename="c.txt"; filename*=UTF-8''c.txt"#;
    assert_eq!(build_content_disposition("a/b\\c.txt"), expected);
    assert_eq!(build_content_disposition("a\\b/c.txt"), expected);
    assert_eq!(build_content_disposition("/ c.txt\u{3000}"), expected);
}

#[test]
fn names_without_content_fall_back() {
    let expected = r#"attachment; filename="attachment"; filename*=UTF-8''attachment"#;
    assert_eq!(build_content_disposition("dir/"), expected);
    assert_eq!(build_content_disposition(" \t\u{a0}"), expected);
    assert_eq!(build_content_disposition("x\\ \n"), expected);
}

#[test]
fn percent_encoding_of_every_byte() {
    let safe = b"-_.~!#$&+^";
    for b in 0u8..=255 {
        let expected = if b.is_ascii_alphanumeric() || safe.contains(&b) {
            (b as char).to_string()
        } else {
            format!("%{b:02X}")
        };
        assert_eq!(percent_encode(&[b]), expected);
    }
    assert_eq!(percent_encode(b"a b/c"), "a%20b%2Fc");
}
