use video_trimmer::error::ErrorKind;
use video_trimmer::fetch::{FetchAction, FetchEvent, FetchSession, FetchStage};

fn responded(status: u16, text: &str) -> FetchEvent {
    FetchEvent::Responded { status, status_text: text.to_string() }
}

fn failure(action: FetchAction) -> (ErrorKind, String) {
    match action {
        FetchAction::Fail(error) => (error.kind, error.message()),
        other => panic!("no failure: {other:?}"),
    }
}

fn streaming() -> FetchSession {
    let mut session = FetchSession::begin();
    assert!(matches!(session.step(&responded(200, "200 OK")), FetchAction::CreateFile));
    assert!(matches!(session.step(&FetchEvent::FileCreated), FetchAction::AwaitChunk));
    session
}

#[test]
fn a_download_of_two_pieces() {
    let mut session = streaming();
    assert_eq!(session.stage(), FetchStage::AwaitingChunk);
    assert!(matches!(session.step(&FetchEvent::ChunkArrived), FetchAction::WriteChunk));
    assert_eq!(session.stage(), FetchStage::AwaitingWrite);
    assert!(matches!(session.step(&FetchEvent::ChunkWritten), FetchAction::AwaitChunk));
    assert!(matches!(session.step(&FetchEvent::ChunkArrived), FetchAction::WriteChunk));
    assert!(matches!(session.step(&FetchEvent::ChunkWritten), FetchAction::AwaitChunk));
    assert!(matches!(session.step(&FetchEvent::StreamEnded), FetchAction::Succeed));
    assert_eq!(session.stage(), FetchStage::Ended);
}

#[test]
fn an_empty_body_is_a_download() {
    let mut session = streaming();
    assert!(matches!(session.step(&FetchEvent::StreamEnded), FetchAction::Succeed));
}

#[test]
fn every_status_from_200_to_299_is_success() {
    for status in [200u16, 204, 206, 299] {
        let mut session = FetchSession::begin();
        assert!(matches!(session.step(&responded(status, "x")), FetchAction::CreateFile));
        assert_eq!(session.stage(), FetchStage::AwaitingFile);
    }
}

#[test]
fn any_other_status_fails_before_a_file_is_made() {
    for (status, text) in
        [(199u16, "199 <unknown status code>"), (300, "300 Multiple Choices"), (404, "404 Not Found"), (500, "500 Internal Server Error")]
    {
        let mut session = FetchSession::begin();
        let (kind, message) = failure(session.step(&responded(status, text)));
        assert_eq!(kind, ErrorKind::FetchHttpError);
        assert_eq!(
            message,
            format!("Failed to download video: Failed to download video: HTTP status {text}")
        );
        assert_eq!(session.stage(), FetchStage::Ended);
    }
}

#[test]
fn a_request_that_fails() {
    let mut session = FetchSession::begin();
    let (kind, message) =
        failure(session.step(&FetchEvent::RequestFailed("dns error".to_string())));
    assert_eq!(kind, ErrorKind::FetchNetworkError);
    assert_eq!(message, "Failed to download video: Failed to fetch URL: dns error");
}

#[test]
fn a_file_that_cannot_be_created() {
    let mut session = FetchSession::begin();
    session.step(&responded(200, "200 OK"));
    let (kind, message) = failure(session.step(&FetchEvent::FileFailed("read-only".to_string())));
    assert_eq!(kind, ErrorKind::FetchIoError);
    assert_eq!(message, "Failed to download video: Failed to create temporary file: read-only");
}

#[test]
fn a_body_that_breaks_off() {
    let mut session = streaming();
    let (kind, message) = failure(session.step(&FetchEvent::ChunkFailed("reset".to_string())));
    assert_eq!(kind, ErrorKind::FetchNetworkError);
    assert_eq!(message, "Failed to download video: Error while downloading chunk: reset");
}

#[test]
fn a_piece_that_cannot_be_written() {
    let mut session = streaming();
    session.step(&FetchEvent::ChunkArrived);
    let (kind, message) = failure(session.step(&FetchEvent::WriteFailed("disk full".to_string())));
    assert_eq!(kind, ErrorKind::FetchIoError);
    assert_eq!(message, "Failed to download video: Failed to write chunk to file: disk full");
}

#[test]
fn a_second_piece_is_not_taken_before_the_first_is_written() {
    let mut session = streaming();
    session.step(&FetchEvent::ChunkArrived);
    let (kind, _) = failure(session.step(&FetchEvent::ChunkArrived));
    assert_eq!(kind, ErrorKind::UnexpectedEvent);
    assert_eq!(session.stage(), FetchStage::Ended);
}

#[test]
fn a_session_that_has_ended_takes_nothing_more() {
    let mut session = streaming();
    session.step(&FetchEvent::StreamEnded);
    let (kind, _) = failure(session.step(&FetchEvent::ChunkArrived));
    assert_eq!(kind, ErrorKind::UnexpectedEvent);
    let (kind, _) = failure(session.step(&responded(200, "200 OK")));
    assert_eq!(kind, ErrorKind::UnexpectedEvent);
}
