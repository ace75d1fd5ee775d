use waybarx::ipc::{normalize_fetch, WmBackend};
use waybarx::providers::SystemProvider;
use waybarx::ui_bridge::{
    echo_response, handle_message, route_message, system_info_error_response, unknown_response,
    workspaces_response, BridgeReply, Route,
};

#[test]
fn malformed_input_is_echoed_ok() {
    let payload = "not json{{{";
    assert_eq!(route_message(payload), Route::Echo);
    assert_eq!(
        echo_response(payload),
        "{\"ok\":true,\"echo\":\"not json{{{\"}"
    );
}

#[test]
fn non_object_json_is_echoed_ok() {
    assert_eq!(route_message("42"), Route::Echo);
    assert_eq!(route_message("[\"cmd\"]"), Route::Echo);
}

#[test]
fn object_without_cmd_is_echoed_ok() {
    let payload = "{\"a\":1}";
    assert_eq!(route_message(payload), Route::Echo);
    assert_eq!(echo_response(payload), "{\"ok\":true,\"echo\":\"{\\\"a\\\":1}\"}");
}

#[test]
fn non_string_cmd_is_rejected_as_unknown() {
    // A present command of some other type is not "no command": it is
    // an unrecognized command and gets the error envelope.
    assert_eq!(route_message("{\"cmd\":5}"), Route::Unknown);
    assert_eq!(route_message("{\"cmd\":null}"), Route::Unknown);
    assert_eq!(route_message("{\"cmd\":[\"get_workspaces\"]}"), Route::Unknown);
    assert_eq!(
        unknown_response("{\"cmd\":5}"),
        "{\"ok\":false,\"error\":\"unknown command\",\"echo\":\"{\\\"cmd\\\":5}\"}"
    );
}

#[test]
fn echo_response_round_trips_through_a_json_parser() {
    let payload = "weird \"payload\"\nwith\\escapes";
    let resp = echo_response(payload);
    let v: serde_json::Value = serde_json::from_str(&resp).unwrap();
    assert_eq!(v.get("ok").unwrap().as_bool().unwrap(), true);
    assert_eq!(v.get("echo").unwrap().as_str().unwrap(), payload);
}

#[test]
fn unknown_cmd_is_rejected_with_echo() {
    let payload = "{\"cmd\":\"reboot\"}";
    assert_eq!(route_message(payload), Route::Unknown);
    assert_eq!(
        unknown_response(payload),
        "{\"ok\":false,\"error\":\"unknown command\",\"echo\":\"{\\\"cmd\\\":\\\"reboot\\\"}\"}"
    );
}

#[test]
fn known_commands_route_to_their_handlers() {
    assert_eq!(route_message("{\"cmd\":\"get_workspaces\"}"), Route::Workspaces);
    assert_eq!(route_message("{\"cmd\":\"get_system_info\"}"), Route::SystemInfo);
    assert_eq!(
        route_message("{\"cmd\":\"get_workspaces\",\"extra\":true}"),
        Route::Workspaces
    );
}

#[test]
fn workspaces_success_envelope_is_exact() {
    let names = vec!["1".to_string(), "2".to_string(), "web".to_string()];
    assert_eq!(
        workspaces_response(&Ok(names)),
        "{\"ok\":true,\"cmd\":\"workspaces\",\"data\":[\"1\",\"2\",\"web\"]}"
    );
}

#[test]
fn workspaces_empty_list_envelope() {
    assert_eq!(
        workspaces_response(&Ok(vec![])),
        "{\"ok\":true,\"cmd\":\"workspaces\",\"data\":[]}"
    );
}

#[test]
fn workspaces_error_envelope_is_exact() {
    assert_eq!(
        workspaces_response(&Err("connect failed".to_string())),
        "{\"ok\":false,\"cmd\":\"workspaces\",\"error\":\"connect failed\"}"
    );
}

#[test]
fn system_info_error_envelope_is_exact() {
    assert_eq!(
        system_info_error_response(),
        "{\"ok\":false,\"cmd\":\"system_info\",\"error\":\"Failed to get system info\"}"
    );
}

#[test]
fn sway_backend_propagates_errors() {
    let r = normalize_fetch(WmBackend::Sway, Err("no socket".to_string()));
    assert_eq!(r, Err("no socket".to_string()));
    let ok = normalize_fetch(WmBackend::Sway, Ok(vec!["1".to_string()]));
    assert_eq!(ok, Ok(vec!["1".to_string()]));
}

#[test]
fn hypr_backend_degrades_errors_to_empty_list() {
    let r = normalize_fetch(WmBackend::Hypr, Err("no socket".to_string()));
    assert_eq!(r, Ok(vec![]));
    let ok = normalize_fetch(WmBackend::Hypr, Ok(vec!["web".to_string()]));
    assert_eq!(ok, Ok(vec!["web".to_string()]));
}

#[test]
fn workspace_fetch_end_to_end() {
    // A backend that reported these names answers with exactly this envelope.
    let fetched: Result<Vec<String>, String> =
        Ok(vec!["1".to_string(), "2".to_string(), "web".to_string()]);
    let normalized = normalize_fetch(WmBackend::Sway, fetched);
    assert_eq!(
        workspaces_response(&normalized),
        "{\"ok\":true,\"cmd\":\"workspaces\",\"data\":[\"1\",\"2\",\"web\"]}"
    );
}

#[test]
fn handle_message_dispatches_every_route() {
    let provider = SystemProvider::new();
    match handle_message("plain text", &provider) {
        BridgeReply::Immediate(resp) => {
            assert_eq!(resp, "{\"ok\":true,\"echo\":\"plain text\"}")
        }
        BridgeReply::NeedsWorkspaces => panic!("echo payload must answer immediately"),
    }
    match handle_message("{\"cmd\":5}", &provider) {
        BridgeReply::Immediate(resp) => assert_eq!(
            resp,
            "{\"ok\":false,\"error\":\"unknown command\",\"echo\":\"{\\\"cmd\\\":5}\"}"
        ),
        BridgeReply::NeedsWorkspaces => panic!("a non-string command must answer immediately"),
    }
    match handle_message("{\"cmd\":\"get_workspaces\"}", &provider) {
        BridgeReply::NeedsWorkspaces => {}
        BridgeReply::Immediate(_) => panic!("workspace fetch must be deferred"),
    }
    match handle_message("{\"cmd\":\"get_system_info\"}", &provider) {
        BridgeReply::Immediate(resp) => {
            let v: serde_json::Value = serde_json::from_str(&resp).unwrap();
            assert_eq!(v.get("ok").unwrap().as_bool().unwrap(), true);
            assert_eq!(v.get("cmd").unwrap().as_str().unwrap(), "system_info");
            assert!(v.get("data").unwrap().is_object());
        }
        BridgeReply::NeedsWorkspaces => panic!("snapshot reads must answer immediately"),
    }
}
