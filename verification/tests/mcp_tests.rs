use nactl::config::RuntimeConfig;
use nactl::mcp::{
    auth_status, config_get_output, content_length_header, default_group, first_line,
    header_step, list_paging, mutation_output, outgoing_framing, parse_content_length_header,
    remember_framing, server_instructions, tool_search_mode, FirstLine, FrameError, HeaderStep,
    McpSearchMode, StdioFraming,
};
use nactl::nacos::{ConfigGetResult, SearchMode};
use nactl::text::IntErrorKind;

fn s(v: &str) -> Option<String> {
    Some(v.to_string())
}

#[test]
fn content_length_headers() {
    assert_eq!(parse_content_length_header("Content-Length: 42\r\n"), Ok(Some(42)));
    assert_eq!(parse_content_length_header("content-length:7"), Ok(Some(7)));
    assert_eq!(parse_content_length_header("Content-Type: application/json\r\n"), Ok(None));
    assert_eq!(parse_content_length_header("no separator"), Ok(None));
    assert_eq!(parse_content_length_header("Content-Length: abc\r\n"), Err(IntErrorKind::InvalidDigit));
    assert_eq!(parse_content_length_header("Content-Length:   \r\n"), Err(IntErrorKind::Empty));
    assert_eq!(
        parse_content_length_header("Content-Length: 99999999999999999999999\r\n"),
        Err(IntErrorKind::PosOverflow)
    );
}

#[test]
fn written_header_reads_back() {
    let block = content_length_header(123);
    assert_eq!(block, "Content-Length: 123\r\n\r\n");
    let first = "Content-Length: 123\r\n";
    match first_line(first, first.len()) {
        Ok(FirstLine::Headers(Some(n))) => assert_eq!(n, 123),
        _ => panic!("expected a header"),
    }
    match header_step(Some(123), "\r\n", 2) {
        Ok(HeaderStep::Payload(n)) => assert_eq!(n, 123),
        _ => panic!("expected the payload"),
    }
}

#[test]
fn first_lines() {
    assert!(matches!(first_line("", 0), Ok(FirstLine::Closed)));
    match first_line("  {\"jsonrpc\":\"2.0\"}\n", 20) {
        Ok(FirstLine::Json(j)) => assert_eq!(j, "{\"jsonrpc\":\"2.0\"}"),
        _ => panic!("expected JSON"),
    }
    match first_line("[1]\n", 4) {
        Ok(FirstLine::Json(j)) => assert_eq!(j, "[1]"),
        _ => panic!("expected JSON"),
    }
    assert!(matches!(first_line("\r\n", 2), Ok(FirstLine::Headers(None))));
    assert!(matches!(first_line("X-Other: 1\r\n", 12), Ok(FirstLine::Headers(None))));
    assert_eq!(first_line("Content-Length: x\r\n", 19).err(), Some(FrameError::InvalidLength(IntErrorKind::InvalidDigit)));
}

#[test]
fn header_blocks() {
    assert_eq!(header_step(Some(1), "", 0).err(), Some(FrameError::UnexpectedEof));
    assert_eq!(header_step(None, "\r\n", 2).err(), Some(FrameError::MissingContentLength));
    assert!(matches!(header_step(None, "Content-Length: 5\r\n", 19), Ok(HeaderStep::More(Some(5)))));
    assert!(matches!(header_step(Some(5), "Content-Length: 9\r\n", 19), Ok(HeaderStep::More(Some(9)))));
    assert!(matches!(header_step(Some(5), "Content-Type: x\r\n", 17), Ok(HeaderStep::More(Some(5)))));
    assert!(matches!(header_step(Some(5), "\n", 1), Ok(HeaderStep::More(Some(5)))));
    assert_eq!(FrameError::UnexpectedEof.message(), "unexpected EOF while reading MCP headers");
    assert_eq!(FrameError::MissingContentLength.message(), "missing Content-Length header");
    assert_eq!(FrameError::InvalidLength(IntErrorKind::Empty).message(), "cannot parse integer from empty string");
}

#[test]
fn framing_choice() {
    assert_eq!(outgoing_framing(None), StdioFraming::ContentLength);
    assert_eq!(outgoing_framing(Some(StdioFraming::JsonLine)), StdioFraming::JsonLine);
    assert_eq!(remember_framing(None, StdioFraming::JsonLine), Some(StdioFraming::JsonLine));
    assert_eq!(remember_framing(Some(StdioFraming::ContentLength), StdioFraming::JsonLine), Some(StdioFraming::ContentLength));
}

fn runtime() -> RuntimeConfig {
    RuntimeConfig {
        config_path: s("/c.yaml"),
        base_url: "http://h:8848".to_string(),
        context_path: "/nacos".to_string(),
        namespace: "dev".to_string(),
        username: s("u"),
        password: None,
        access_token: s("t"),
        timeout_secs: 10,
        verbose: false,
    }
}

#[test]
fn tool_answers() {
    assert_eq!(default_group(None), "DEFAULT_GROUP");
    assert_eq!(default_group(s("G")), "G");
    assert_eq!(list_paging(None, None), (1, 20));
    assert_eq!(list_paging(Some(2), Some(5)), (2, 5));
    assert_eq!(tool_search_mode(None), SearchMode::Auto);
    assert_eq!(tool_search_mode(Some(McpSearchMode::Blur)), SearchMode::Blur);
    assert_eq!(tool_search_mode(Some(McpSearchMode::Accurate)), SearchMode::Accurate);

    let a = auth_status(&runtime());
    assert_eq!(a.server, "http://h:8848");
    assert_eq!(a.namespace, "dev");
    assert!(a.has_access_token);
    assert!(!a.has_username_password);
    assert_eq!(a.config_path, s("/c.yaml"));

    let g = config_get_output("a".to_string(), "G".to_string(), None, Some(ConfigGetResult { content: "c".to_string() }));
    assert_eq!(g.namespace, "public");
    assert!(g.found);
    assert_eq!(g.content, s("c"));
    let g = config_get_output("a".to_string(), "G".to_string(), s("ns"), None);
    assert_eq!(g.namespace, "ns");
    assert!(!g.found);
    assert_eq!(g.content, None);

    let m = mutation_output("set", "a".to_string(), "G".to_string());
    assert_eq!((m.action.as_str(), m.success), ("set", true));

    assert_eq!(
        server_instructions(&runtime()),
        "Use these tools to read or mutate Nacos configuration through nactl. Target server: http://h:8848/nacos."
    );
}
