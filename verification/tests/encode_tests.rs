use rapid_mcp_server::encode::encode_response;
use rapid_mcp_server::registry::CommandRegistry;
use rapid_mcp_server::server::McpServer;
use rapid_mcp_server::types::{Command, ErrorInfo, Outcome, Response, RequestId};

#[test]
fn escapes_in_prompt_text() {
    let mut registry = CommandRegistry::new();
    registry.insert(Command {
        name: String::from("odd"),
        version: String::from("1"),
        description: String::from("say \"hi\"\tback\\slash"),
        parameters: Vec::new(),
        prompt: String::from("line1\nline2\r\u{8}\u{c}\u{1f}\u{0}end\u{e9}"),
    });
    let server = McpServer::new(registry);
    let out = server
        .handle_line("{\"jsonrpc\":\"2.0\",\"id\":1,\"method\":\"tools/call\",\"params\":{\"name\":\"odd\"}}")
        .expect("a response line");
    assert_eq!(
        out,
        "{\"jsonrpc\":\"2.0\",\"id\":1,\"result\":{\"content\":[{\"type\":\"text\",\
         \"text\":\"line1\\nline2\\r\\b\\f\\u001f\\u0000end\u{e9}\"}]}}"
    );
    let listed = server
        .handle_line("{\"jsonrpc\":\"2.0\",\"id\":1,\"method\":\"tools/list\"}")
        .expect("a response line");
    assert!(listed.contains("\"description\":\"say \\\"hi\\\"\\tback\\\\slash\""));
}

#[test]
fn encode_error_response_exactly() {
    let response = Response {
        id: RequestId::Str(String::from("a\"b")),
        outcome: Outcome::Failure(ErrorInfo { code: -32603, message: String::from("oops") }),
    };
    assert_eq!(
        encode_response(&response),
        "{\"jsonrpc\":\"2.0\",\"id\":\"a\\\"b\",\"error\":{\"code\":-32603,\"message\":\"oops\"}}"
    );
}

#[test]
fn encode_numeric_ids() {
    let make = |id: i64| Response { id: RequestId::Num(id), outcome: Outcome::Init };
    assert!(encode_response(&make(0)).starts_with("{\"jsonrpc\":\"2.0\",\"id\":0,"));
    assert!(encode_response(&make(1048576)).starts_with("{\"jsonrpc\":\"2.0\",\"id\":1048576,"));
    assert!(encode_response(&make(-7)).starts_with("{\"jsonrpc\":\"2.0\",\"id\":-7,"));
    assert!(
        encode_response(&make(i64::MIN))
            .starts_with("{\"jsonrpc\":\"2.0\",\"id\":-9223372036854775808,")
    );
    assert!(
        encode_response(&make(i64::MAX))
            .starts_with("{\"jsonrpc\":\"2.0\",\"id\":9223372036854775807,")
    );
}

#[test]
fn responses_agree_with_reference_serializer() {
    // the hand-written encoder emits exactly what serde_json would
    let response = Response {
        id: RequestId::Str(String::from("x\n\"\\y")),
        outcome: Outcome::Failure(ErrorInfo {
            code: -32603,
            message: String::from("tab\there \u{1b} dot"),
        }),
    };
    let line = encode_response(&response);
    let reparsed: serde_json::Value = serde_json::from_str(&line).expect("valid JSON");
    assert_eq!(reparsed["jsonrpc"].as_str(), Some("2.0"));
    assert_eq!(reparsed["id"].as_str(), Some("x\n\"\\y"));
    assert_eq!(reparsed["error"]["code"].as_i64(), Some(-32603));
    assert_eq!(reparsed["error"]["message"].as_str(), Some("tab\there \u{1b} dot"));
    assert!(reparsed.get("result").is_none());
}
