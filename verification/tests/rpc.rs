use signal_mcp::json::Json;
use signal_mcp::json_text::compact_text;
use signal_mcp::rpc::{tell, JsonRpcError, JsonRpcResponse};

#[test]
fn test_json_rpc_response_success() {
    let response = JsonRpcResponse::success(
        Some(Json::unsigned(1)),
        Json::object().with("ok", Json::Bool(true)),
    );
    assert_eq!(response.jsonrpc, "2.0");
    assert!(response.result.is_some());
    assert!(response.error.is_none());
}

#[test]
fn test_json_rpc_response_error() {
    let response =
        JsonRpcResponse::error(Some(Json::unsigned(1)), -32600, "Invalid Request".to_string());
    assert_eq!(response.jsonrpc, "2.0");
    assert!(response.result.is_none());
    assert!(response.error.is_some());
    assert_eq!(response.error.as_ref().unwrap().code, -32600);
}

#[test]
fn responses_keep_what_they_are_given() {
    let response = JsonRpcResponse::success(Some(Json::text("a")), Json::unsigned(7));
    assert_eq!(compact_text(&response.id.unwrap()), "\"a\"");
    assert_eq!(compact_text(&response.result.unwrap()), "7");
    let response = JsonRpcResponse::error(None, -32000, "no".to_string());
    assert!(response.id.is_none());
    assert_eq!(response.error.unwrap().message, "no");
}

#[test]
fn outcomes_are_told() {
    let response = tell(Some(Json::unsigned(3)), Ok(Json::Bool(false)));
    assert_eq!(compact_text(&response.id.unwrap()), "3");
    assert_eq!(compact_text(&response.result.unwrap()), "false");
    assert!(response.error.is_none());
    let error = JsonRpcError { code: -32602, message: "Missing params".to_string() };
    let response = tell(None, Err(error));
    assert!(response.result.is_none());
    let error = response.error.unwrap();
    assert_eq!(error.code, -32602);
    assert_eq!(error.message, "Missing params");
}
