use sha2::Digest;
use webarc::msg::corwrk::{
    ConfirmCaptureRequest, ConfirmCaptureResponse, InitiateCaptureRequest,
    QueryCaptureProgressResponse,
};
use webarc::worker::auth::get_bearer_token;
use webarc::worker::digest::blob_hash;
use webarc::worker::handler::{
    capture_confirm, capture_create, capture_create_random, capture_output, capture_progress,
    request_authorized, CreateOutcome, Unauthorized,
};
use webarc::worker::state::State;
use webarc::worker::task::{on_blob_stored, on_extractor_exit, ExtractorOutcome, WriteBlobError};
use webarc::worker::ticket::Ticket;

const AUTH: Option<&str> = Some("Bearer s3cret");

fn new_state() -> State {
    State::from_config(
        vec!["s3cret".to_string(), "other".to_string()],
        vec![
            ("echo".to_string(), "/opt/extractors/echo".to_string()),
            ("fail".to_string(), "/opt/extractors/fail".to_string()),
        ],
        "/var/blobs".to_string(),
    )
}

fn create_request(url: &str, extractor: &str) -> InitiateCaptureRequest {
    InitiateCaptureRequest::new(url.to_string(), extractor.to_string())
}

fn sha256_hex(bytes: &[u8]) -> String {
    let mut hasher = sha2::Sha256::new();
    hasher.update(bytes);
    hex::encode(hasher.finalize())
}

fn launch(state: &mut State, url: &str, extractor: &str, id: u128) -> Ticket {
    match capture_create(state, AUTH, &create_request(url, extractor), Ticket::from_u128(id)) {
        Ok(CreateOutcome::Launch { ticket, .. }) => ticket,
        _ => panic!("capture was not launched"),
    }
}

fn progress(state: &State, ticket: Ticket) -> QueryCaptureProgressResponse {
    capture_progress(state, AUTH, ticket).unwrap()
}

fn confirm(state: &State, ticket: Ticket, hash: &str) -> ConfirmCaptureResponse {
    capture_confirm(state, AUTH, &ConfirmCaptureRequest::new(ticket, hash.to_string())).unwrap()
}

#[test]
fn bearer_token_is_read_after_prefix() {
    assert_eq!(get_bearer_token(Some("Bearer abc")), Some("abc".to_string()));
    assert_eq!(get_bearer_token(Some("Bearer ")), Some(String::new()));
    assert_eq!(get_bearer_token(Some("Bearer  x y")), Some(" x y".to_string()));
    assert_eq!(get_bearer_token(Some("Bearer é∂")), Some("é∂".to_string()));
}

#[test]
fn bearer_token_needs_exact_prefix() {
    assert_eq!(get_bearer_token(None), None);
    assert_eq!(get_bearer_token(Some("")), None);
    assert_eq!(get_bearer_token(Some("Bearer")), None);
    assert_eq!(get_bearer_token(Some("bearer abc")), None);
    assert_eq!(get_bearer_token(Some("Basic abc")), None);
    assert_eq!(get_bearer_token(Some("abc")), None);
    assert_eq!(get_bearer_token(Some("Béarer abc")), None);
}

#[test]
fn auth_gate_rejects_and_accepts() {
    let state = new_state();
    assert!(!request_authorized(&state, None));
    assert!(!request_authorized(&state, Some("s3cret")));
    assert!(!request_authorized(&state, Some("Token s3cret")));
    assert!(!request_authorized(&state, Some("Bearer unknown")));
    assert!(!request_authorized(&state, Some("Bearer S3CRET")));
    assert!(!request_authorized(&state, Some("Bearer s3cret ")));
    assert!(request_authorized(&state, Some("Bearer s3cret")));
    assert!(request_authorized(&state, Some("Bearer other")));
}

#[test]
fn auth_gate_independent_of_request_order() {
    let mut state = new_state();
    assert!(request_authorized(&state, AUTH));
    let t = launch(&mut state, "https://a.example/", "echo", 5);
    on_extractor_exit(&mut state, t, ExtractorOutcome::SpawnFailed);
    assert!(request_authorized(&state, AUTH));
    assert!(!request_authorized(&state, Some("Bearer nope")));
}

#[test]
fn validate_auth_token_is_exact() {
    let state = new_state();
    assert!(!state.validate_auth_token(None));
    assert!(state.validate_auth_token(Some("s3cret".to_string())));
    assert!(!state.validate_auth_token(Some("s3cre".to_string())));
    assert!(!state.validate_auth_token(Some(String::new())));
}

#[test]
fn locate_extractor_first_entry_wins() {
    let state = State::from_config(
        vec![],
        vec![
            ("a".to_string(), "/bin/first".to_string()),
            ("a".to_string(), "/bin/second".to_string()),
            ("b".to_string(), "/bin/b".to_string()),
        ],
        "/tmp".to_string(),
    );
    assert_eq!(state.locate_extractor("a"), Some("/bin/first".to_string()));
    assert_eq!(state.locate_extractor("b"), Some("/bin/b".to_string()));
    assert_eq!(state.locate_extractor("A"), None);
    assert_eq!(state.locate_extractor(""), None);
    assert_eq!(state.blob_dir(), "/tmp");
}

#[test]
fn blob_hash_is_sha256_hex() {
    assert_eq!(
        blob_hash(b""),
        "e3b0c44298fc1c149afbf4c8996fb92427ae41e4649b934ca495991b7852b855"
    );
    assert_eq!(
        blob_hash(b"abc"),
        "ba7816bf8f01cfea414140de5dae2223b00361a396177a9cb410ff61f20015ad"
    );
}

#[test]
fn equal_blobs_give_equal_hashes() {
    let mut state = new_state();
    let bytes = b"same capture bytes".to_vec();
    let a = launch(&mut state, "https://a.example/", "echo", 1);
    let b = launch(&mut state, "https://b.example/", "echo", 2);
    on_blob_stored(&mut state, a, &bytes, Ok(()));
    on_blob_stored(&mut state, b, &bytes, Ok(()));
    let ha = state.get_hash(&a).unwrap();
    let hb = state.get_hash(&b).unwrap();
    assert_eq!(ha, hb);
    assert_eq!(ha, sha256_hex(&bytes));
}

#[test]
fn ticket_text_is_hyphenated_lowercase() {
    let t = Ticket::from_u128(0xa1a2a3a4b1b2c1c2d1d2d3d4d5d6d7d8);
    assert_eq!(t.to_text(), "a1a2a3a4-b1b2-c1c2-d1d2-d3d4d5d6d7d8");
    assert_eq!(t.as_u128(), 0xa1a2a3a4b1b2c1c2d1d2d3d4d5d6d7d8);
    assert_eq!(Ticket::from_u128(0).to_text(), "00000000-0000-0000-0000-000000000000");
}

#[test]
fn create_without_auth_is_unauthorized() {
    let mut state = new_state();
    let req = create_request("https://a.example/", "echo");
    let t = Ticket::from_u128(9);
    assert!(matches!(capture_create(&mut state, None, &req, t), Err(Unauthorized)));
    assert!(matches!(
        capture_create(&mut state, Some("Bearer bad"), &req, t),
        Err(Unauthorized)
    ));
    assert_eq!(progress(&state, t), QueryCaptureProgressResponse::NoSuchCapture);
}

#[test]
fn create_with_unknown_extractor_registers_nothing() {
    let mut state = new_state();
    let req = create_request("https://a.example/", "missing");
    let t = Ticket::from_u128(3);
    let r = capture_create(&mut state, AUTH, &req, t);
    assert!(matches!(r, Ok(CreateOutcome::InvalidExtractor)));
    assert_eq!(progress(&state, t), QueryCaptureProgressResponse::NoSuchCapture);
}

#[test]
fn create_launches_in_progress() {
    let mut state = new_state();
    let req = create_request("https://a.example/page", "echo");
    match capture_create(&mut state, AUTH, &req, Ticket::from_u128(77)) {
        Ok(CreateOutcome::Launch { ticket, command, url }) => {
            assert_eq!(ticket, Ticket::from_u128(77));
            assert_eq!(command, "/opt/extractors/echo");
            assert_eq!(url, "https://a.example/page");
        }
        _ => panic!("capture was not launched"),
    }
    assert_eq!(progress(&state, Ticket::from_u128(77)), QueryCaptureProgressResponse::InProgress);
}

#[test]
fn create_refuses_ticket_in_use() {
    let mut state = new_state();
    let t = launch(&mut state, "https://a.example/", "echo", 4);
    let r = capture_create(&mut state, AUTH, &create_request("https://b.example/", "echo"), t);
    assert!(matches!(r, Ok(CreateOutcome::TicketInUse)));
    assert_eq!(progress(&state, t), QueryCaptureProgressResponse::InProgress);
}

#[test]
fn random_tickets_are_distinct() {
    let mut state = new_state();
    let mut seen: Vec<Ticket> = Vec::new();
    for i in 0..50 {
        let req = create_request(&format!("https://a.example/{i}"), "echo");
        match capture_create_random(&mut state, AUTH, &req) {
            Ok(CreateOutcome::Launch { ticket, .. }) => {
                assert!(!seen.contains(&ticket));
                seen.push(ticket);
            }
            _ => panic!("capture was not launched"),
        }
    }
    assert_eq!(seen.len(), 50);
}

#[test]
fn progress_unknown_ticket() {
    let state = new_state();
    assert_eq!(
        progress(&state, Ticket::from_u128(123)),
        QueryCaptureProgressResponse::NoSuchCapture
    );
    assert_eq!(capture_progress(&state, None, Ticket::from_u128(123)), Err(Unauthorized));
}

#[test]
fn confirm_answers_by_stored_hash() {
    let mut state = new_state();
    let t = launch(&mut state, "https://a.example/", "echo", 10);
    assert_eq!(confirm(&state, t, &sha256_hex(b"data")), ConfirmCaptureResponse::NoSuchCapture);
    let blob = on_extractor_exit(
        &mut state,
        t,
        ExtractorOutcome::Exited { success: true, stdout: b"data".to_vec() },
    )
    .unwrap();
    on_blob_stored(&mut state, t, &blob, Ok(()));
    assert_eq!(confirm(&state, t, &sha256_hex(b"data")), ConfirmCaptureResponse::CorrectHash);
    assert_eq!(confirm(&state, t, &sha256_hex(b"other")), ConfirmCaptureResponse::IncorrectHash);
    assert_eq!(
        confirm(&state, t, &sha256_hex(b"data").to_uppercase()),
        ConfirmCaptureResponse::IncorrectHash
    );
    assert_eq!(
        confirm(&state, Ticket::from_u128(11), &sha256_hex(b"data")),
        ConfirmCaptureResponse::NoSuchCapture
    );
    let req = ConfirmCaptureRequest::new(t, sha256_hex(b"data"));
    assert_eq!(capture_confirm(&state, None, &req), Err(Unauthorized));
}

#[test]
fn spawn_failure_fails_capture() {
    let mut state = new_state();
    let t = launch(&mut state, "https://a.example/", "echo", 20);
    assert_eq!(on_extractor_exit(&mut state, t, ExtractorOutcome::SpawnFailed), None);
    assert_eq!(progress(&state, t), QueryCaptureProgressResponse::Failed);
    assert_eq!(state.get_hash(&t), None);
}

#[test]
fn storage_failure_fails_capture() {
    let mut state = new_state();
    let t = launch(&mut state, "https://a.example/", "echo", 21);
    let blob = on_extractor_exit(
        &mut state,
        t,
        ExtractorOutcome::Exited { success: true, stdout: b"x".to_vec() },
    )
    .unwrap();
    assert_eq!(progress(&state, t), QueryCaptureProgressResponse::InProgress);
    on_blob_stored(&mut state, t, &blob, Err(WriteBlobError::WriteBlobFile));
    assert_eq!(progress(&state, t), QueryCaptureProgressResponse::Failed);
    assert_eq!(confirm(&state, t, &sha256_hex(b"x")), ConfirmCaptureResponse::NoSuchCapture);
}

#[test]
fn terminal_status_never_moves() {
    let mut state = new_state();
    let t = launch(&mut state, "https://a.example/", "echo", 30);
    state.abort_capture(t);
    state.finalize_capture(t, "abcd".to_string());
    assert_eq!(progress(&state, t), QueryCaptureProgressResponse::Failed);
    assert_eq!(state.get_hash(&t), None);

    let u = launch(&mut state, "https://b.example/", "echo", 31);
    state.finalize_capture(u, "abcd".to_string());
    state.abort_capture(u);
    state.finalize_capture(u, "ef01".to_string());
    assert_eq!(progress(&state, u), QueryCaptureProgressResponse::Completed);
    assert_eq!(state.get_hash(&u), Some("abcd".to_string()));
}

#[test]
fn scenario_extractor_echoes_url() {
    let mut state = new_state();
    let url = "https://example.com/some/page?q=1";
    let (ticket, command, arg) = match capture_create(
        &mut state,
        AUTH,
        &create_request(url, "echo"),
        Ticket::from_u128(0x1234),
    ) {
        Ok(CreateOutcome::Launch { ticket, command, url }) => (ticket, command, url),
        _ => panic!("capture was not launched"),
    };
    assert_eq!(command, "/opt/extractors/echo");
    assert_eq!(progress(&state, ticket), QueryCaptureProgressResponse::InProgress);
    let outcome = ExtractorOutcome::Exited { success: true, stdout: arg.as_bytes().to_vec() };
    let blob = on_extractor_exit(&mut state, ticket, outcome).unwrap();
    assert_eq!(blob, url.as_bytes());
    on_blob_stored(&mut state, ticket, &blob, Ok(()));
    assert_eq!(progress(&state, ticket), QueryCaptureProgressResponse::Completed);
    assert_eq!(confirm(&state, ticket, &sha256_hex(url.as_bytes())), ConfirmCaptureResponse::CorrectHash);
    assert_eq!(
        capture_output(&state, AUTH, ticket),
        Ok("00000000-0000-0000-0000-000000001234".to_string())
    );
}

#[test]
fn scenario_extractor_exits_nonzero() {
    let mut state = new_state();
    let ticket = launch(&mut state, "https://example.com/", "fail", 0x99);
    let outcome = ExtractorOutcome::Exited { success: false, stdout: b"partial".to_vec() };
    assert_eq!(on_extractor_exit(&mut state, ticket, outcome), None);
    assert_eq!(progress(&state, ticket), QueryCaptureProgressResponse::Failed);
    assert_eq!(confirm(&state, ticket, &sha256_hex(b"partial")), ConfirmCaptureResponse::NoSuchCapture);
    assert_eq!(confirm(&state, ticket, "anything"), ConfirmCaptureResponse::NoSuchCapture);
    assert_eq!(capture_output(&state, None, ticket), Err(Unauthorized));
}
