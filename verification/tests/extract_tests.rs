use tool_proxy::extract::extract_tool_block;

#[test]
fn block_between_markers_is_extracted() {
    let reply = "Sure: <tool_code>{\"name\":\"x\"}</tool_code> done";
    assert_eq!(extract_tool_block(reply), Some(String::from("{\"name\":\"x\"}")));
}

#[test]
fn extraction_spans_newlines() {
    let reply = "<tool_code>\n{\n  \"name\": \"x\"\n}\n</tool_code>";
    assert_eq!(
        extract_tool_block(reply),
        Some(String::from("\n{\n  \"name\": \"x\"\n}\n"))
    );
}

#[test]
fn first_block_wins() {
    let reply = "<tool_code>a</tool_code><tool_code>b</tool_code>";
    assert_eq!(extract_tool_block(reply), Some(String::from("a")));
}

#[test]
fn no_marker_means_no_block() {
    assert_eq!(extract_tool_block("plain answer"), None);
}

#[test]
fn open_tag_without_close_is_no_block() {
    assert_eq!(extract_tool_block("<tool_code>{\"name\":\"x\"}"), None);
}

#[test]
fn close_tag_before_open_is_no_block() {
    assert_eq!(extract_tool_block("</tool_code><tool_code>x"), None);
}

#[test]
fn empty_block_is_extracted_empty() {
    assert_eq!(extract_tool_block("<tool_code></tool_code>"), Some(String::new()));
}
