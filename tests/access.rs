use syncwatch::auth::{check_admin, Unauthorized};
use syncwatch::config::Args;
use syncwatch::delivery::{start, step, LoopAction, LoopEvent, LoopState, HEARTBEAT_MILLIS};

fn args() -> Args {
    Args { admin_pw: "secret".to_string(), listen_addr: "0.0.0.0:8080".to_string() }
}

#[test]
fn admin_with_matching_secret_is_admitted() {
    assert_eq!(check_admin(Some("secret"), &args()), Ok(()));
}

#[test]
fn admin_with_wrong_or_missing_secret_is_refused() {
    assert_eq!(check_admin(Some("secret2"), &args()), Err(Unauthorized));
    assert_eq!(check_admin(Some(""), &args()), Err(Unauthorized));
    assert_eq!(check_admin(None, &args()), Err(Unauthorized));
}

#[test]
fn loop_starts_by_sending_engine_snapshot() {
    assert_eq!(start(), (LoopState::Init, LoopAction::SendFromEngine));
    assert_eq!(step(LoopState::Init, LoopEvent::Delivered), (LoopState::Streaming, LoopAction::AwaitChange));
    assert_eq!(step(LoopState::Init, LoopEvent::DeliveryFailed), (LoopState::Terminated, LoopAction::Stop));
}

#[test]
fn heartbeat_and_change_each_send_once() {
    assert_eq!(HEARTBEAT_MILLIS, 5000);
    assert_eq!(step(LoopState::Streaming, LoopEvent::TimedOut), (LoopState::Streaming, LoopAction::SendLatest));
    assert_eq!(step(LoopState::Streaming, LoopEvent::Changed), (LoopState::Streaming, LoopAction::SendLatest));
    assert_eq!(step(LoopState::Streaming, LoopEvent::Delivered), (LoopState::Streaming, LoopAction::AwaitChange));
}

#[test]
fn loop_ends_on_close_or_failure_and_stays_ended() {
    assert_eq!(step(LoopState::Streaming, LoopEvent::Closed), (LoopState::Terminated, LoopAction::Stop));
    assert_eq!(step(LoopState::Streaming, LoopEvent::DeliveryFailed), (LoopState::Terminated, LoopAction::Stop));
    assert_eq!(step(LoopState::Terminated, LoopEvent::Changed), (LoopState::Terminated, LoopAction::Stop));
    assert_eq!(step(LoopState::Terminated, LoopEvent::Delivered), (LoopState::Terminated, LoopAction::Stop));
}

#[test]
fn cors_headers_echo_origin_and_allow_everything() {
    let h = syncwatch::cors::cors_headers("https://example.org");
    let expected: Vec<(String, String)> = vec![
        ("access-control-allow-origin".to_string(), "https://example.org".to_string()),
        ("access-control-allow-headers".to_string(), "*".to_string()),
        ("access-control-allow-methods".to_string(), "*".to_string()),
        ("access-control-allow-credentials".to_string(), "true".to_string()),
    ];
    assert_eq!(h, expected);
    assert_eq!(syncwatch::cors::cors_headers("")[0].1, "");
}
