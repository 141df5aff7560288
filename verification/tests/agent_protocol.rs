use lpmng::agent::{
    server_handler, server_handler_test, server_on_tool_result, AgentStep, PendingReply,
    ToolResult,
};
use lpmng::nft::Nftables;
use lpmng::protocol::{
    action_of_wire, ping_response, request_of_action, trace_router_response, Action, ActionKind,
    AgentResponse, RouterRequest,
};
use lpmng::errors::Error;

fn backend() -> Nftables {
    Nftables::new("filter".to_string(), "allowed".to_string())
}

fn req(action: &str, body: &str) -> RouterRequest {
    RouterRequest { action: action.to_string(), body: body.to_string() }
}

fn ok_result(output: &[u8]) -> ToolResult {
    ToolResult { ok: true, output: output.to_vec(), error: String::new() }
}

#[test]
fn wire_names_round_trip() {
    for kind in [ActionKind::Admit, ActionKind::Revoke, ActionKind::List, ActionKind::Flush] {
        let r = request_of_action(&Action { kind, target: "x".to_string() });
        assert_eq!(action_of_wire(&r.action), Some(kind));
        assert_eq!(r.body, "x");
    }
    assert_eq!(action_of_wire("add"), Some(ActionKind::Admit));
    assert_eq!(action_of_wire("remove"), Some(ActionKind::Revoke));
    assert_eq!(action_of_wire("get"), Some(ActionKind::List));
    assert_eq!(action_of_wire("clear"), Some(ActionKind::Flush));
    assert_eq!(action_of_wire("reboot"), None);
    assert_eq!(action_of_wire(""), None);
}

#[test]
fn responses_carry_their_texts() {
    let s = AgentResponse::success();
    assert!(s.success);
    assert_eq!(s.body, "");
    let f = AgentResponse::fail("boom");
    assert!(!f.success);
    assert_eq!(f.body, "boom");
}

#[test]
fn ping_wants_the_exact_marker() {
    let pong = ping_response("ping");
    assert!(pong.success);
    assert_eq!(pong.body, "PONG !");
    let nope = ping_response("pong");
    assert!(!nope.success);
    assert_eq!(nope.body, "PONG ?");
}

#[test]
fn failed_response_becomes_transport_failure() {
    assert!(trace_router_response(AgentResponse::success()).is_ok());
    let r = trace_router_response(AgentResponse::fail("down"));
    match r {
        Err(Error::TransportFailure(detail)) => assert_eq!(detail, "down"),
        other => panic!("expected a transport failure, got {other:?}"),
    }
}

#[test]
fn handler_plans_an_add_run() {
    let step = server_handler(&req("add", "aa:bb:cc:dd:ee:ff"), &backend());
    match step {
        AgentStep::RunTool { document, then } => {
            assert_eq!(
                document,
                r#"{"nftables":[{"add":{"element":{"family":"inet","table":"filter","name":"allowed","elem":["aa:bb:cc:dd:ee:ff"]}}}]}"#
            );
            assert_eq!(then, PendingReply::Ack);
        }
        AgentStep::Respond(resp) => panic!("expected a tool run, got response {}", resp.body),
    }
}

#[test]
fn handler_plans_a_remove_run() {
    let step = server_handler(&req("remove", "aa:bb:cc:dd:ee:ff"), &backend());
    match step {
        AgentStep::RunTool { document, then } => {
            assert!(document.contains(r#""delete""#));
            assert_eq!(then, PendingReply::Ack);
        }
        AgentStep::Respond(_) => panic!("expected a tool run"),
    }
}

#[test]
fn handler_rejects_malformed_addresses_before_any_run() {
    for bad in ["ff:ff:ff:ff:ff:ff;rm -rf", "00:11:22:33:44", "GG:11:22:33:44:55"] {
        for verb in ["add", "remove"] {
            match server_handler(&req(verb, bad), &backend()) {
                AgentStep::Respond(resp) => {
                    assert!(!resp.success);
                    assert_eq!(resp.body, "unable to parse mac address");
                }
                AgentStep::RunTool { .. } => {
                    panic!("malformed address must never reach the tool")
                }
            }
        }
    }
}

#[test]
fn handler_refuses_unknown_actions() {
    match server_handler(&req("reboot", ""), &backend()) {
        AgentStep::Respond(resp) => {
            assert!(!resp.success);
            assert_eq!(resp.body, "unknown method");
        }
        AgentStep::RunTool { .. } => panic!("unknown action must not run the tool"),
    }
}

#[test]
fn handler_plans_a_listing_for_get_and_clear() {
    match server_handler(&req("get", ""), &backend()) {
        AgentStep::RunTool { document, then } => {
            assert_eq!(
                document,
                r#"{"nftables":[{"list":{"set":{"family":"inet","table":"filter","name":"allowed"}}}]}"#
            );
            assert_eq!(then, PendingReply::ListBody);
        }
        AgentStep::Respond(_) => panic!("expected a tool run"),
    }
    match server_handler(&req("clear", ""), &backend()) {
        AgentStep::RunTool { then, .. } => assert_eq!(then, PendingReply::DeleteListed),
        AgentStep::Respond(_) => panic!("expected a tool run"),
    }
}

#[test]
fn tool_failure_is_reported_with_its_diagnostic() {
    let result = ToolResult { ok: false, output: vec![], error: "no such table".to_string() };
    match server_on_tool_result(PendingReply::Ack, &backend(), result) {
        AgentStep::Respond(resp) => {
            assert!(!resp.success);
            assert_eq!(resp.body, "enforcement tool failed: no such table");
        }
        AgentStep::RunTool { .. } => panic!("a failed run must not continue"),
    }
}

#[test]
fn successful_mutation_is_acknowledged() {
    match server_on_tool_result(PendingReply::Ack, &backend(), ok_result(b"")) {
        AgentStep::Respond(resp) => {
            assert!(resp.success);
            assert_eq!(resp.body, "");
        }
        AgentStep::RunTool { .. } => panic!("an acknowledged run must respond"),
    }
}

#[test]
fn listing_reply_joins_elements_with_newlines() {
    let output = br#"{"nftables":[{"set":{"family":"inet","name":"allowed","table":"filter","type":"ether_addr","handle":2,"elem":["aa:bb:cc:dd:ee:ff","11:22:33:44:55:66"]}}]}"#;
    match server_on_tool_result(PendingReply::ListBody, &backend(), ok_result(output)) {
        AgentStep::Respond(resp) => {
            assert!(resp.success);
            assert_eq!(resp.body, "aa:bb:cc:dd:ee:ff\n11:22:33:44:55:66");
        }
        AgentStep::RunTool { .. } => panic!("a listing must respond"),
    }
}

#[test]
fn flush_continues_by_deleting_the_listed_elements() {
    let output = br#"{"nftables":[{"set":{"family":"inet","name":"allowed","table":"filter","type":"ether_addr","handle":2,"elem":["aa:bb:cc:dd:ee:ff"]}}]}"#;
    match server_on_tool_result(PendingReply::DeleteListed, &backend(), ok_result(output)) {
        AgentStep::RunTool { document, then } => {
            assert_eq!(
                document,
                r#"{"nftables":[{"delete":{"element":{"family":"inet","table":"filter","name":"allowed","elem":["aa:bb:cc:dd:ee:ff"]}}}]}"#
            );
            assert_eq!(then, PendingReply::Ack);
        }
        AgentStep::Respond(resp) => panic!("expected the deletion run, got {}", resp.body),
    }
}

#[test]
fn flush_of_garbage_listing_fails_closed() {
    match server_on_tool_result(PendingReply::DeleteListed, &backend(), ok_result(b"garbage")) {
        AgentStep::Respond(resp) => assert!(!resp.success),
        AgentStep::RunTool { .. } => panic!("unparsed listing must not continue"),
    }
}

#[test]
fn test_mode_validates_but_never_runs() {
    assert!(server_handler_test(&req("add", "aa:bb:cc:dd:ee:ff")).success);
    assert!(server_handler_test(&req("remove", "aa:bb:cc:dd:ee:ff")).success);
    assert!(server_handler_test(&req("get", "")).success);
    assert!(server_handler_test(&req("clear", "")).success);
    let r = server_handler_test(&req("add", "00:11:22:33:44"));
    assert!(!r.success);
    assert_eq!(r.body, "unable to parse mac address");
    let r = server_handler_test(&req("dance", ""));
    assert!(!r.success);
    assert_eq!(r.body, "unknown method");
}
