use rapid_mcp_server::registry::CommandRegistry;
use rapid_mcp_server::server::McpServer;
use rapid_mcp_server::types::{Command, Outcome, Request, RequestId, Response};

fn greet_command() -> Command {
    Command {
        name: String::from("greet"),
        version: String::from("1"),
        description: String::from("Greet"),
        parameters: Vec::new(),
        prompt: String::from("Hello!"),
    }
}

fn greet_server() -> McpServer {
    let mut registry = CommandRegistry::new();
    registry.insert(greet_command());
    McpServer::new(registry)
}

#[test]
fn empty_directory_tools_list() {
    let server = McpServer::new(CommandRegistry::new());
    let out = server.handle_line("{\"jsonrpc\":\"2.0\",\"id\":1,\"method\":\"tools/list\"}");
    assert_eq!(
        out.as_deref(),
        Some("{\"jsonrpc\":\"2.0\",\"id\":1,\"result\":{\"tools\":[]}}")
    );
}

#[test]
fn single_command_tools_list() {
    let server = greet_server();
    let out = server.handle_line("{\"jsonrpc\":\"2.0\",\"id\":7,\"method\":\"tools/list\"}");
    assert_eq!(
        out.as_deref(),
        Some(
            "{\"jsonrpc\":\"2.0\",\"id\":7,\"result\":{\"tools\":[{\"name\":\"greet\",\
             \"description\":\"Greet\",\"inputSchema\":{\"type\":\"object\",\
             \"properties\":{},\"required\":[]}}]}}"
        )
    );
}

#[test]
fn successful_call_returns_prompt() {
    let server = greet_server();
    let out = server.handle_line(
        "{\"jsonrpc\":\"2.0\",\"id\":\"x\",\"method\":\"tools/call\",\"params\":{\"name\":\"greet\"}}",
    );
    assert_eq!(
        out.as_deref(),
        Some(
            "{\"jsonrpc\":\"2.0\",\"id\":\"x\",\"result\":{\"content\":[{\"type\":\"text\",\
             \"text\":\"Hello!\"}]}}"
        )
    );
}

#[test]
fn unknown_tool_is_an_error() {
    let server = greet_server();
    let out = server.handle_line(
        "{\"jsonrpc\":\"2.0\",\"id\":5,\"method\":\"tools/call\",\"params\":{\"name\":\"nope\"}}",
    );
    assert_eq!(
        out.as_deref(),
        Some(
            "{\"jsonrpc\":\"2.0\",\"id\":5,\"error\":{\"code\":-32603,\
             \"message\":\"Unknown tool: nope\"}}"
        )
    );
}

#[test]
fn unknown_method_is_an_error() {
    let server = greet_server();
    let out = server.handle_line("{\"jsonrpc\":\"2.0\",\"id\":2,\"method\":\"shutdown\"}");
    let line = out.expect("a response line");
    assert!(line.contains("\"code\":-32603"));
    assert!(line.contains("Unknown method: shutdown"));
    assert!(line.contains("\"id\":2"));
    assert!(!line.contains("\"result\""));
}

#[test]
fn malformed_line_is_dropped_and_loop_survives() {
    let server = greet_server();
    assert!(server.handle_line("not json").is_none());
    let out = server.handle_line("{\"jsonrpc\":\"2.0\",\"id\":1,\"method\":\"initialize\"}");
    assert_eq!(
        out.as_deref(),
        Some(
            "{\"jsonrpc\":\"2.0\",\"id\":1,\"result\":{\"protocolVersion\":\"2024-11-05\",\
             \"capabilities\":{\"tools\":{}},\"serverInfo\":{\"name\":\"rapid-mcp-server-rust\",\
             \"version\":\"0.1.0\"}}}"
        )
    );
}

#[test]
fn duplicate_names_leave_one_entry() {
    let mut registry = CommandRegistry::new();
    let mut first = greet_command();
    first.name = String::from("dup");
    first.description = String::from("first");
    let mut second = greet_command();
    second.name = String::from("dup");
    second.description = String::from("second");
    registry.insert(first);
    registry.insert(second);
    assert_eq!(registry.len(), 1);
    let server = McpServer::new(registry);
    let out = server.handle_line("{\"jsonrpc\":\"2.0\",\"id\":1,\"method\":\"tools/list\"}");
    let line = out.expect("a response line");
    assert_eq!(line.matches("\"name\":\"dup\"").count(), 1);
    assert!(line.contains("\"description\":\"second\""));
    assert!(!line.contains("first"));
}

#[test]
fn missing_params_and_missing_name() {
    let server = greet_server();
    let out = server.handle_line("{\"jsonrpc\":\"2.0\",\"id\":1,\"method\":\"tools/call\"}");
    assert_eq!(
        out.as_deref(),
        Some("{\"jsonrpc\":\"2.0\",\"id\":1,\"error\":{\"code\":-32603,\"message\":\"Missing params\"}}")
    );
    let out = server.handle_line(
        "{\"jsonrpc\":\"2.0\",\"id\":1,\"method\":\"tools/call\",\"params\":{}}",
    );
    assert_eq!(
        out.as_deref(),
        Some("{\"jsonrpc\":\"2.0\",\"id\":1,\"error\":{\"code\":-32603,\"message\":\"Missing tool name\"}}")
    );
    let out = server.handle_line(
        "{\"jsonrpc\":\"2.0\",\"id\":1,\"method\":\"tools/call\",\"params\":{\"name\":7}}",
    );
    assert_eq!(
        out.as_deref(),
        Some("{\"jsonrpc\":\"2.0\",\"id\":1,\"error\":{\"code\":-32603,\"message\":\"Missing tool name\"}}")
    );
    // params of a non-object shape carry no usable name either
    let out = server.handle_line(
        "{\"jsonrpc\":\"2.0\",\"id\":1,\"method\":\"tools/call\",\"params\":5}",
    );
    assert_eq!(
        out.as_deref(),
        Some("{\"jsonrpc\":\"2.0\",\"id\":1,\"error\":{\"code\":-32603,\"message\":\"Missing tool name\"}}")
    );
}

#[test]
fn id_kinds_are_echoed_with_their_json_type() {
    let server = greet_server();
    let out = server.handle_line("{\"jsonrpc\":\"2.0\",\"id\":null,\"method\":\"initialize\"}");
    assert!(out.expect("a response line").starts_with("{\"jsonrpc\":\"2.0\",\"id\":null,"));
    let out = server.handle_line("{\"jsonrpc\":\"2.0\",\"id\":-42,\"method\":\"initialize\"}");
    assert!(out.expect("a response line").starts_with("{\"jsonrpc\":\"2.0\",\"id\":-42,"));
    let out = server.handle_line("{\"jsonrpc\":\"2.0\",\"id\":true,\"method\":\"initialize\"}");
    assert!(out.expect("a response line").starts_with("{\"jsonrpc\":\"2.0\",\"id\":true,"));
    let out = server.handle_line("{\"jsonrpc\":\"2.0\",\"id\":\"1\",\"method\":\"initialize\"}");
    assert!(out.expect("a response line").starts_with("{\"jsonrpc\":\"2.0\",\"id\":\"1\","));
}

#[test]
fn frames_without_an_envelope_are_dropped() {
    let server = greet_server();
    // no id: a notification frame, not answered
    assert!(server.handle_line("{\"jsonrpc\":\"2.0\",\"method\":\"initialize\"}").is_none());
    // no jsonrpc member
    assert!(server.handle_line("{\"id\":1,\"method\":\"initialize\"}").is_none());
    // no method
    assert!(server.handle_line("{\"jsonrpc\":\"2.0\",\"id\":1}").is_none());
    // method is not a string
    assert!(server.handle_line("{\"jsonrpc\":\"2.0\",\"id\":1,\"method\":3}").is_none());
    // not an object at all
    assert!(server.handle_line("[1,2,3]").is_none());
    assert!(server.handle_line("").is_none());
}

#[test]
fn handle_request_dispatches_and_echoes_id() {
    let server = greet_server();
    let request = Request {
        id: RequestId::Num(9),
        method: String::from("tools/call"),
        params: None,
    };
    let response: Response = server.handle_request(&request);
    assert!(matches!(response.id, RequestId::Num(9)));
    match response.outcome {
        Outcome::Failure(e) => {
            assert_eq!(e.code, -32603);
            assert_eq!(e.message, "Missing params");
        }
        _ => panic!("expected a failure outcome"),
    }
}

#[test]
fn serve_answers_in_fifo_order() {
    let server = greet_server();
    let requests = vec![
        Request { id: RequestId::Num(1), method: String::from("initialize"), params: None },
        Request { id: RequestId::Num(2), method: String::from("tools/list"), params: None },
        Request { id: RequestId::Num(3), method: String::from("nope"), params: None },
    ];
    let responses = server.serve(&requests);
    assert_eq!(responses.len(), 3);
    assert!(matches!(responses[0].id, RequestId::Num(1)));
    assert!(matches!(responses[0].outcome, Outcome::Init));
    assert!(matches!(responses[1].id, RequestId::Num(2)));
    assert!(matches!(responses[1].outcome, Outcome::ToolList(_)));
    assert!(matches!(responses[2].id, RequestId::Num(3)));
    assert!(matches!(responses[2].outcome, Outcome::Failure(_)));
}
