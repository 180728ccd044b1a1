use sailify::controller::{
    ControlMessage, Controller, ControllerInput, Directive, Phase, Reaction, SurfaceCommand,
};
use sailify::events::LibrespotEvent;

fn msg(c: &mut Controller, m: ControlMessage, now: u64) -> Reaction {
    c.handle(ControllerInput::Message { msg: m, now })
}

fn connected() -> Controller {
    let mut c = Controller::new();
    c.handle(ControllerInput::Start);
    c.handle(ControllerInput::LoginSucceeded);
    assert_eq!(c.phase(), Phase::Connected);
    c
}

#[test]
fn start_then_login_emits_connecting_then_connected() {
    let mut c = Controller::new();
    assert_eq!(c.phase(), Phase::Initial);
    let r = c.handle(ControllerInput::Start);
    assert_eq!(r.events.len(), 1);
    assert!(matches!(r.events[0], LibrespotEvent::Connecting));
    assert_eq!(r.directive, Directive::Connect);
    assert_eq!(c.phase(), Phase::Connecting { reconnect: false });
    let r = c.handle(ControllerInput::LoginSucceeded);
    assert_eq!(r.events.len(), 1);
    assert!(matches!(r.events[0], LibrespotEvent::Connected));
    assert_eq!(r.directive, Directive::Launch);
    assert_eq!(c.phase(), Phase::Connected);
}

#[test]
fn first_login_failure_ends_the_run() {
    let mut c = Controller::new();
    c.handle(ControllerInput::Start);
    let r = c.handle(ControllerInput::LoginFailed { message: "refused".to_string() });
    assert_eq!(r.events.len(), 1);
    assert!(matches!(&r.events[0], LibrespotEvent::ConnectionError { message } if message == "refused"));
    assert_eq!(r.directive, Directive::Exit);
    assert_eq!(c.phase(), Phase::Terminated);
}

#[test]
fn commands_are_forwarded_while_connected() {
    let mut c = connected();
    let cases = [
        (ControlMessage::Play, SurfaceCommand::Play),
        (ControlMessage::Pause, SurfaceCommand::Pause),
        (ControlMessage::Next, SurfaceCommand::Next),
        (ControlMessage::Previous, SurfaceCommand::Previous),
    ];
    for (m, s) in cases {
        let r = msg(&mut c, m, 0);
        assert!(r.events.is_empty());
        assert_eq!(r.directive, Directive::Forward(s));
    }
    let r = msg(&mut c, ControlMessage::RefreshToken, 0);
    assert!(r.events.is_empty());
    assert_eq!(r.directive, Directive::RequestToken);
    assert_eq!(c.phase(), Phase::Connected);
}

#[test]
fn shutdown_without_session_emits_nothing() {
    let mut c = Controller::new();
    let r = msg(&mut c, ControlMessage::Shutdown, 0);
    assert!(r.events.is_empty());
    assert_eq!(r.directive, Directive::Exit);
    assert_eq!(c.phase(), Phase::Terminated);
}

#[test]
fn commands_without_session_are_dropped() {
    let mut c = Controller::new();
    for m in [
        ControlMessage::Play,
        ControlMessage::Pause,
        ControlMessage::Next,
        ControlMessage::Previous,
        ControlMessage::RefreshToken,
        ControlMessage::AutoReconnect,
    ] {
        let r = msg(&mut c, m, 0);
        assert!(r.events.is_empty());
        assert_eq!(r.directive, Directive::Nothing);
    }
    assert_eq!(c.phase(), Phase::Initial);
}

#[test]
fn shutdown_while_connected_stops_and_ignores_later_commands() {
    let mut c = connected();
    let r = msg(&mut c, ControlMessage::Shutdown, 0);
    assert_eq!(r.events.len(), 1);
    assert!(matches!(r.events[0], LibrespotEvent::Shutdown));
    assert_eq!(r.directive, Directive::Stop);
    assert_eq!(c.phase(), Phase::Terminated);
    let r = msg(&mut c, ControlMessage::Play, 1);
    assert!(r.events.is_empty());
    assert_eq!(r.directive, Directive::Nothing);
}

#[test]
fn unexpected_disconnect_reconnects() {
    let mut c = connected();
    let r = msg(&mut c, ControlMessage::AutoReconnect, 1_000);
    assert_eq!(r.events.len(), 2);
    assert!(matches!(r.events[0], LibrespotEvent::StartReconnect));
    assert!(matches!(r.events[1], LibrespotEvent::Connecting));
    assert_eq!(r.directive, Directive::Connect);
    assert_eq!(c.phase(), Phase::Connecting { reconnect: true });
    assert_eq!(c.recent_reconnects(), 1);
    let r = c.handle(ControllerInput::LoginSucceeded);
    assert_eq!(r.events.len(), 1);
    assert!(matches!(r.events[0], LibrespotEvent::Connected));
    assert_eq!(c.phase(), Phase::Connected);
}

#[test]
fn failed_reconnect_leaves_controller_idle() {
    let mut c = connected();
    msg(&mut c, ControlMessage::AutoReconnect, 1_000);
    let r = c.handle(ControllerInput::LoginFailed { message: "timeout".to_string() });
    assert_eq!(r.events.len(), 1);
    assert!(matches!(&r.events[0], LibrespotEvent::ConnectionError { message } if message == "timeout"));
    assert_eq!(r.directive, Directive::Nothing);
    assert_eq!(c.phase(), Phase::Idle);
    let r = msg(&mut c, ControlMessage::Play, 2_000);
    assert!(r.events.is_empty());
    assert_eq!(r.directive, Directive::Nothing);
    let r = msg(&mut c, ControlMessage::Shutdown, 3_000);
    assert!(r.events.is_empty());
    assert_eq!(r.directive, Directive::Exit);
}

#[test]
fn sixth_disconnect_within_ten_seconds_is_refused() {
    let mut c = connected();
    for i in 0..5u64 {
        let r = msg(&mut c, ControlMessage::AutoReconnect, i * 2_000);
        assert_eq!(r.directive, Directive::Connect);
        c.handle(ControllerInput::LoginSucceeded);
    }
    let r = msg(&mut c, ControlMessage::AutoReconnect, 10_000);
    assert_eq!(r.events.len(), 2);
    assert!(matches!(r.events[0], LibrespotEvent::StartReconnect));
    assert!(matches!(&r.events[1], LibrespotEvent::ConnectionError { message } if message == "too many reconnects"));
    assert!(!r.events.iter().any(|e| matches!(e, LibrespotEvent::Connecting)));
    assert_eq!(r.directive, Directive::Release);
    assert_eq!(c.phase(), Phase::Idle);
    let r = c.handle(ControllerInput::LoginSucceeded);
    assert!(r.events.is_empty());
    assert_eq!(c.phase(), Phase::Idle);
}

#[test]
fn disconnects_ten_minutes_apart_always_reconnect() {
    let mut c = connected();
    for i in 1..20u64 {
        let r = msg(&mut c, ControlMessage::AutoReconnect, i * 600_000);
        assert_eq!(r.directive, Directive::Connect);
        c.handle(ControllerInput::LoginSucceeded);
    }
    assert_eq!(c.phase(), Phase::Connected);
}

#[test]
fn login_results_outside_a_login_are_ignored() {
    let mut c = Controller::new();
    let r = c.handle(ControllerInput::LoginSucceeded);
    assert!(r.events.is_empty());
    assert_eq!(c.phase(), Phase::Initial);
    let mut c = connected();
    let r = c.handle(ControllerInput::Start);
    assert!(r.events.is_empty());
    assert_eq!(r.directive, Directive::Nothing);
    let r = c.handle(ControllerInput::LoginFailed { message: "x".to_string() });
    assert!(r.events.is_empty());
    assert_eq!(c.phase(), Phase::Connected);
}
