use asm_ext::comments::{comment_body_bytes, comment_line_test, extract_comment_above, trim_bytes};

fn lines(ls: &[&str]) -> Vec<Vec<u8>> {
    ls.iter().map(|l| l.as_bytes().to_vec()).collect()
}

fn extract(ls: &[&str], line_number: usize) -> Option<String> {
    extract_comment_above(&lines(ls), line_number).map(|b| String::from_utf8(b).unwrap())
}

#[test]
fn comment_block_above_code_line() {
    let file = ["; a", "; b", "code();"];
    assert_eq!(extract(&file, 3), Some("a\nb".to_string()));
}

#[test]
fn first_line_has_nothing_above() {
    let file = ["; a", "; b", "code();"];
    assert_eq!(extract(&file, 1), None);
}

#[test]
fn blank_separator_breaks_adjacency() {
    let file = ["; a", "; b", "", "code();"];
    assert_eq!(extract(&file, 4), None);
}

#[test]
fn line_number_zero_gives_none() {
    let file = ["; a", "code();"];
    assert_eq!(extract(&file, 0), None);
    assert_eq!(extract(&[], 0), None);
}

#[test]
fn line_number_past_end_gives_none() {
    let file = ["; a", "code();"];
    assert_eq!(extract(&file, 3), None);
    assert_eq!(extract(&file, 100), None);
    assert_eq!(extract(&[], 1), None);
}

#[test]
fn non_comment_line_directly_above_gives_none() {
    let file = ["; a", "mov rax, 1", "code();"];
    assert_eq!(extract(&file, 3), None);
}

#[test]
fn scan_stops_at_first_non_comment() {
    let file = ["; far", "other();", "; near", "code();"];
    assert_eq!(extract(&file, 4), Some("near".to_string()));
}

#[test]
fn single_comment_line() {
    let file = ["; only", "target"];
    assert_eq!(extract(&file, 2), Some("only".to_string()));
}

#[test]
fn comment_bodies_are_trimmed() {
    let file = [";   padded   ", "\t; tabbed", "code();"];
    assert_eq!(extract(&file, 3), Some("padded\n; tabbed".to_string()));
}

#[test]
fn double_semicolons_are_stripped() {
    let file = [";; doc", "code();"];
    assert_eq!(extract(&file, 2), Some("doc".to_string()));
}

#[test]
fn whole_file_of_comments_up_to_target() {
    let file = ["; a", "; b", "; c"];
    assert_eq!(extract(&file, 3), Some("a\nb".to_string()));
}

#[test]
fn trim_bytes_strips_ascii_whitespace() {
    assert_eq!(trim_bytes(&b"  \t x y \r\n".to_vec()), b"x y".to_vec());
    assert_eq!(trim_bytes(&b"".to_vec()), Vec::<u8>::new());
    assert_eq!(trim_bytes(&b" \t ".to_vec()), Vec::<u8>::new());
    assert_eq!(trim_bytes(&b"abc".to_vec()), b"abc".to_vec());
}

#[test]
fn comment_line_detection() {
    assert!(comment_line_test(&b"; c".to_vec()));
    assert!(comment_line_test(&b"   ;c".to_vec()));
    assert!(!comment_line_test(&b"".to_vec()));
    assert!(!comment_line_test(&b"   ".to_vec()));
    assert!(!comment_line_test(&b"mov rax, 1".to_vec()));
}

#[test]
fn comment_body_strips_leading_semicolons_then_trims() {
    assert_eq!(comment_body_bytes(&b"; a".to_vec()), b"a".to_vec());
    assert_eq!(comment_body_bytes(&b";;; a".to_vec()), b"a".to_vec());
    // the semicolon run is stripped from the raw line, so a delimiter after
    // leading whitespace stays in the body
    assert_eq!(comment_body_bytes(&b"  ; a".to_vec()), b"; a".to_vec());
    assert_eq!(comment_body_bytes(&b";".to_vec()), Vec::<u8>::new());
}
