use freshbooks_mcp::urlencode::urlencoding;

#[test]
fn unreserved_characters_stay() {
    assert_eq!(urlencoding("AZaz09-_.~"), "AZaz09-_.~");
}

#[test]
fn reserved_characters_are_escaped_in_upper_case_hex() {
    assert_eq!(urlencoding("hello world&x=1"), "hello%20world%26x%3D1");
    assert_eq!(urlencoding("a+b/c?d#e"), "a%2Bb%2Fc%3Fd%23e");
    assert_eq!(urlencoding("%"), "%25");
}

#[test]
fn non_ascii_is_escaped_byte_by_byte() {
    assert_eq!(urlencoding("café"), "caf%C3%A9");
    assert_eq!(urlencoding("日"), "%E6%97%A5");
}

#[test]
fn empty_query() {
    assert_eq!(urlencoding(""), "");
}

#[test]
fn encoded_text_is_query_safe() {
    let e = urlencoding("x=1&y=[2] #frag\n\u{7f}");
    assert!(e.chars().all(|c| c.is_ascii_alphanumeric() || "-_.~%".contains(c)));
}
