use md_segments::links::escape_newlines;

#[test]
fn escape_inserts_backslash_before_newline() {
    let input: Vec<u8> = b"a\nb\nc".to_vec();
    let out = escape_newlines(&input);
    assert_eq!(out, b"a\\\nb\\\nc".to_vec());
}

#[test]
fn escape_leaves_other_bytes_alone() {
    let input: Vec<u8> = b"no breaks here".to_vec();
    let out = escape_newlines(&input);
    assert_eq!(out, input);
}

#[test]
fn escape_of_empty_is_empty() {
    let input: Vec<u8> = Vec::new();
    let out = escape_newlines(&input);
    assert!(out.is_empty());
}
