//! Tests for the reply builder and the dispatcher routing.

use menu_lens::PipelineError;
use menu_lens::dispatch::{
    InboundUpdate, PhotoRef, Route, acknowledgment, no_photo_reply, respond_to_photo, route_update,
};
use menu_lens::keyboard::{ActionButton, OutgoingResponse, build, button_url, chunk_rows,
    filter_lines, make_buttons};

const FALLBACK: &str = "Sorry, can't parse your image.";

#[test]
fn test_build_empty_is_fallback() {
    match build(Vec::new()) {
        OutgoingResponse::TextReply(m) => assert_eq!(m, FALLBACK),
        _ => panic!("empty input must yield the fallback text"),
    }
}

#[test]
fn test_build_short_lines_is_fallback() {
    let lines = vec!["a".to_string(), "ok".to_string()];
    match build(lines) {
        OutgoingResponse::TextReply(m) => assert_eq!(m, FALLBACK),
        _ => panic!("lines of at most two characters must be filtered out"),
    }
}

#[test]
fn test_build_menu_rows() {
    let lines = vec![
        "Schnitzel".to_string(),
        "Wiener Art".to_string(),
        "Pils".to_string(),
        "Weissbier".to_string(),
        "Kartoffeln".to_string(),
    ];
    match build(lines) {
        OutgoingResponse::InteractiveReply { prompt, rows } => {
            assert_eq!(prompt, "Please pick the dish.");
            assert_eq!(rows.len(), 2);
            assert_eq!(rows[0].len(), 3);
            assert_eq!(rows[1].len(), 2);
            let labels: Vec<&str> = rows
                .iter()
                .flat_map(|row| row.iter().map(|b| b.label.as_str()))
                .collect();
            assert_eq!(labels, vec!["Schnitzel", "Wiener Art", "Pils", "Weissbier", "Kartoffeln"]);
            assert_eq!(
                rows[0][1].url,
                "https://www.google.com/search?q=Wiener+Art&tbm=isch"
            );
            assert!(rows[1][1].url.contains("Kartoffeln"));
        }
        _ => panic!("five usable lines must yield an interactive reply"),
    }
}

#[test]
fn test_button_url_replaces_spaces() {
    let url = button_url(&"Wiener Art Schnitzel".to_string());
    assert_eq!(url, "https://www.google.com/search?q=Wiener+Art+Schnitzel&tbm=isch");
}

#[test]
fn test_button_url_plain_label() {
    let url = button_url(&"Pils".to_string());
    assert_eq!(url, "https://www.google.com/search?q=Pils&tbm=isch");
}

#[test]
fn test_filter_lines_drops_noise() {
    let lines = vec![
        "..".to_string(),
        "Gulasch".to_string(),
        "7".to_string(),
        "Brezel".to_string(),
    ];
    assert_eq!(filter_lines(lines), vec!["Gulasch".to_string(), "Brezel".to_string()]);
}

#[test]
fn test_make_buttons_keeps_order() {
    let buttons = make_buttons(vec!["Knoedel".to_string(), "Obatzda".to_string()]);
    assert_eq!(buttons.len(), 2);
    assert_eq!(buttons[0].label, "Knoedel");
    assert_eq!(buttons[1].label, "Obatzda");
    assert_eq!(buttons[1].url, "https://www.google.com/search?q=Obatzda&tbm=isch");
}

#[test]
fn test_chunk_rows_widths() {
    let mut buttons: Vec<ActionButton> = Vec::new();
    for i in 0..7 {
        buttons.push(ActionButton { label: format!("b{i}"), url: format!("u{i}") });
    }
    let rows = chunk_rows(buttons);
    assert_eq!(rows.len(), 3);
    assert_eq!(rows[0].len(), 3);
    assert_eq!(rows[1].len(), 3);
    assert_eq!(rows[2].len(), 1);
    assert_eq!(rows[2][0].label, "b6");
}

#[test]
fn test_route_not_message_acknowledges() {
    assert!(matches!(route_update(InboundUpdate::NotMessage), Route::Acknowledge));
}

#[test]
fn test_route_empty_photo_list_is_no_photo() {
    let update = InboundUpdate::Message { photos: Vec::new() };
    assert!(matches!(route_update(update), Route::ReplyNoPhoto));
}

#[test]
fn test_route_picks_last_variant() {
    let update = InboundUpdate::Message {
        photos: vec![
            PhotoRef { file_id: "small".to_string() },
            PhotoRef { file_id: "medium".to_string() },
            PhotoRef { file_id: "large".to_string() },
        ],
    };
    match route_update(update) {
        Route::Transcribe { file_id } => assert_eq!(file_id, "large"),
        _ => panic!("a message with photos must route to transcription"),
    }
}

#[test]
fn test_download_failure_gets_fallback_and_ok_ack() {
    let route = Route::Transcribe { file_id: "large".to_string() };
    match respond_to_photo(Err(PipelineError::Transport)) {
        OutgoingResponse::TextReply(m) => assert_eq!(m, FALLBACK),
        _ => panic!("a download failure must yield the fallback text"),
    }
    let ack = acknowledgment(&route);
    assert_eq!(ack.status, 200);
    assert_eq!(ack.body, "OK");
}

#[test]
fn test_engine_failures_get_fallback() {
    for e in [
        PipelineError::Decode,
        PipelineError::ModelLoad,
        PipelineError::PrepareFailed,
        PipelineError::DetectionFailed,
        PipelineError::RecognitionFailed,
    ] {
        match respond_to_photo(Err(e)) {
            OutgoingResponse::TextReply(m) => assert_eq!(m, FALLBACK),
            _ => panic!("every failure must yield the fallback text"),
        }
    }
}

#[test]
fn test_successful_lines_build_reply() {
    let lines = vec!["Flammkuchen".to_string(), "Radler".to_string(), "Spaetzle".to_string()];
    match respond_to_photo(Ok(lines)) {
        OutgoingResponse::InteractiveReply { prompt, rows } => {
            assert_eq!(prompt, "Please pick the dish.");
            assert_eq!(rows.len(), 1);
            assert_eq!(rows[0].len(), 3);
        }
        _ => panic!("usable lines must yield an interactive reply"),
    }
}

#[test]
fn test_no_photo_reply_text() {
    match no_photo_reply() {
        OutgoingResponse::TextReply(m) => assert_eq!(m, "I only accept photo messages."),
        _ => panic!("the no-photo reply is plain text"),
    }
}

#[test]
fn test_acknowledgment_bodies() {
    let ack = acknowledgment(&Route::ReplyNoPhoto);
    assert_eq!((ack.status, ack.body.as_str()), (200, "Not a photo message"));
    let ack = acknowledgment(&Route::Acknowledge);
    assert_eq!((ack.status, ack.body.as_str()), (200, "OK"));
}
