use gws_executa::json::{json_integer, json_text, Json};
use gws_executa::protocol::{
    error_response, response_plan, success_response, FileTransportMode, TransportDir,
};
use gws_executa::transport::{
    choose_delivery, file_transport_pointer, message_line, Delivery, MAX_STDIO_MESSAGE_BYTES,
};

fn dir() -> Option<TransportDir> {
    Some(TransportDir::Requested("/data".to_string()))
}

#[test]
fn a_file_is_used_whenever_it_is_asked_for() {
    for payload in [vec![], vec![b'x'; MAX_STDIO_MESSAGE_BYTES + 1]] {
        assert_eq!(
            choose_delivery(&payload, dir(), FileTransportMode::Always),
            Ok(Delivery::File(TransportDir::Requested("/data".to_string())))
        );
    }
}

#[test]
fn a_file_is_used_for_what_is_too_long() {
    assert_eq!(MAX_STDIO_MESSAGE_BYTES, 524288);
    assert_eq!(
        choose_delivery(
            &vec![b'x'; MAX_STDIO_MESSAGE_BYTES],
            dir(),
            FileTransportMode::Auto
        ),
        Ok(Delivery::Stdout)
    );
    assert_eq!(
        choose_delivery(
            &vec![b'x'; MAX_STDIO_MESSAGE_BYTES + 1],
            dir(),
            FileTransportMode::Auto
        ),
        Ok(Delivery::File(TransportDir::Requested("/data".to_string())))
    );
}

#[test]
fn a_file_needs_a_directory() {
    let message = "file transport directory is required when file transport is enabled";
    assert_eq!(
        choose_delivery(b"{}", None, FileTransportMode::Always),
        Err(message.to_string())
    );
    assert_eq!(
        choose_delivery(
            &vec![b'x'; MAX_STDIO_MESSAGE_BYTES + 1],
            None,
            FileTransportMode::Auto
        ),
        Err(message.to_string())
    );
}

#[test]
fn the_pointer_carries_the_id_and_the_path() {
    let response = success_response(json_integer(1), Json::Bool(true));
    let pointer = file_transport_pointer(response, "/data/executa-resp-1.json".to_string());
    assert_eq!(pointer.jsonrpc, "2.0");
    assert_eq!(pointer.id, json_integer(1));
    assert_eq!(pointer.file_transport, "/data/executa-resp-1.json");
}

#[test]
fn a_message_is_a_line_of_its_own() {
    assert_eq!(message_line(b"{}".to_vec()), b"{}\n".to_vec());
    assert_eq!(message_line(vec![]), b"\n".to_vec());
}

#[test]
fn a_response_holds_a_result_or_an_error() {
    let success = success_response(json_text("a"), Json::Null);
    assert_eq!(success.jsonrpc, "2.0");
    assert_eq!(success.id, json_text("a"));
    assert_eq!(success.result, Some(Json::Null));
    assert_eq!(success.error, None);

    let failure = error_response(
        json_text("b"),
        -32603,
        "broken".to_string(),
        Some(Json::Bool(false)),
    );
    assert_eq!(failure.jsonrpc, "2.0");
    assert_eq!(failure.result, None);
    let plan = response_plan(failure);
    assert_eq!(plan.file_transport_dir, None);
    assert_eq!(plan.file_transport_mode, FileTransportMode::Auto);
    assert_eq!(plan.response.id, json_text("b"));
    let error = plan.response.error.unwrap();
    assert_eq!(error.code, -32603);
    assert_eq!(error.message, "broken");
    assert_eq!(error.data, Some(Json::Bool(false)));
}

#[test]
fn a_directory_is_shown_by_its_path() {
    assert_eq!(TransportDir::Requested("/a".to_string()).shown(), "/a");
    assert_eq!(TransportDir::Executable("/b".to_string()).shown(), "/b");
}
