use flowstate::content::{binary_content, content_kind, image_content, pdf_content, text_content, ContentKind, FileContent};
use flowstate::git::{parse_last_commit, parse_log_line, parse_remote_url, pending_changes, LogEntry};
use flowstate::index::{locations_for, text_le_exec};
use flowstate::records::ContentLocation;
use flowstate::text::{
    contains_substring, count_lines, decimal_string, hex_string, same_text, signed_decimal_string, split_lines,
    split_string,
};

fn loc(id: i64, attachment_id: i64, start: &str) -> ContentLocation {
    ContentLocation {
        id,
        attachment_id,
        description: format!("loc {}", id),
        category: None,
        location_type: "line".to_string(),
        start_location: start.to_string(),
        end_location: None,
        snippet: None,
        related_problem_id: None,
        related_solution_id: None,
        related_learning_id: None,
        related_component_id: None,
        created_at: "t".to_string(),
    }
}

#[test]
fn kinds_by_file_type() {
    assert_eq!(content_kind("md"), ContentKind::Text);
    assert_eq!(content_kind("xml"), ContentKind::Text);
    assert_eq!(content_kind("jpeg"), ContentKind::Image);
    assert_eq!(content_kind("pdf"), ContentKind::Pdf);
    assert_eq!(content_kind("PDF"), ContentKind::Binary);
    assert_eq!(content_kind("zip"), ContentKind::Binary);
    assert_eq!(content_kind(""), ContentKind::Binary);
}

#[test]
fn text_size_is_in_bytes() {
    match text_content("héllo".to_string()) {
        FileContent::Text { content, size } => {
            assert_eq!(content, "héllo");
            assert_eq!(size, 6);
        }
        _ => panic!("expected text"),
    }
}

#[test]
fn images_and_pdfs_are_base64() {
    match image_content("png", b"hello") {
        FileContent::Image { content, size, mime_type } => {
            assert_eq!(content, "aGVsbG8=");
            assert_eq!(size, 5);
            assert_eq!(mime_type, "image/png");
        }
        _ => panic!("expected an image"),
    }
    match pdf_content(&[0xff, 0xfe]) {
        FileContent::Pdf { content, size } => {
            assert_eq!(content, "//4=");
            assert_eq!(size, 2);
        }
        _ => panic!("expected a pdf"),
    }
    match pdf_content(b"abc") {
        FileContent::Pdf { content, .. } => assert_eq!(content, "YWJj"),
        _ => panic!("expected a pdf"),
    }
    match pdf_content(b"") {
        FileContent::Pdf { content, size } => {
            assert_eq!(content, "");
            assert_eq!(size, 0);
        }
        _ => panic!("expected a pdf"),
    }
}

#[test]
fn binaries_report_size_only() {
    match binary_content(4096) {
        FileContent::Binary { size, message } => {
            assert_eq!(size, 4096);
            assert_eq!(message, "Binary file content not readable as text");
        }
        _ => panic!("expected binary"),
    }
}

#[test]
fn locations_are_listed_by_start() {
    let all = vec![loc(1, 5, "0030"), loc(2, 6, "0001"), loc(3, 5, "0002"), loc(4, 5, "0010"), loc(5, 5, "0002")];
    let got = locations_for(all, 5);
    let starts: Vec<&str> = got.iter().map(|l| l.start_location.as_str()).collect();
    assert_eq!(starts, vec!["0002", "0002", "0010", "0030"]);
    let mut ids: Vec<i64> = got.iter().map(|l| l.id).collect();
    ids.sort();
    assert_eq!(ids, vec![1, 3, 4, 5]);
    assert!(locations_for(vec![loc(1, 2, "a")], 9).is_empty());
}

#[test]
fn text_order() {
    assert!(text_le_exec("a", "b"));
    assert!(!text_le_exec("b", "a"));
    assert!(text_le_exec("ab", "abc"));
    assert!(!text_le_exec("abc", "ab"));
    assert!(text_le_exec("", ""));
    assert!(text_le_exec("10", "9"));
    assert!(text_le_exec("Z", "a"));
}

#[test]
fn decimal_and_hex_rendering() {
    assert_eq!(decimal_string(0), "0");
    assert_eq!(decimal_string(1234567890), "1234567890");
    assert_eq!(decimal_string(u128::MAX), u128::MAX.to_string());
    assert_eq!(signed_decimal_string(-42), "-42");
    assert_eq!(signed_decimal_string(i64::MIN), i64::MIN.to_string());
    assert_eq!(hex_string(&[0x00, 0x0f, 0xa5, 0xff]), "000fa5ff");
    assert_eq!(hex_string(&[]), "");
}

#[test]
fn splitting_and_lines() {
    assert_eq!(split_string("a|b||c", '|'), vec!["a", "b", "", "c"]);
    assert_eq!(split_string("", '|'), vec![""]);
    assert_eq!(split_string("x|", '|'), vec!["x", ""]);
    assert_eq!(split_lines("a\r\nb\n\nc"), vec!["a", "b", "", "c"]);
    assert_eq!(split_lines("a\n"), vec!["a"]);
    assert!(split_lines("").is_empty());
    assert_eq!(count_lines(""), 0);
    assert_eq!(count_lines("one"), 1);
    assert_eq!(count_lines("one\ntwo\n"), 2);
    assert_eq!(count_lines("\n\n"), 2);
    assert_eq!(pending_changes(" M a\n?? b\n"), 2);
}

#[test]
fn substring_and_equality() {
    assert!(contains_substring("Merge conflict in x", "conflict"));
    assert!(!contains_substring("CONFLICT", "conflict"));
    assert!(contains_substring("abc", ""));
    assert!(!contains_substring("ab", "abc"));
    assert!(same_text("pdf", "pdf"));
    assert!(!same_text("pdf", "pd"));
}

#[test]
fn reading_client_output() {
    assert_eq!(parse_remote_url("  https://example/repo.git \n"), "https://example/repo.git");
    assert!(parse_last_commit("abc|msg\n").is_none());
    let c = parse_last_commit(" h|s|d|extra\n").unwrap();
    assert_eq!((c.hash.as_str(), c.message.as_str(), c.date.as_str()), ("h", "s", "d"));
    match parse_log_line("only|three|fields") {
        LogEntry::Raw { line } => assert_eq!(line, "only|three|fields"),
        _ => panic!("expected raw"),
    }
}
