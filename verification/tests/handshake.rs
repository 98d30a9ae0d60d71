use webdriver_session::handshake::{pending, start, step, Action, Event, Phase, RETRY_INTERVAL_MS};
use webdriver_session::reply::Reply;
use webdriver_session::supervisor::{teardown_next, teardown_start, Teardown};
use webdriver_session::WebDriverError;

fn accepted(id: &str) -> Event {
    let body = format!("{{\"value\":{{\"sessionId\":\"{}\",\"capabilities\":{{}}}}}}", id);
    Event::Replied(Reply::Received { status: 200, body: body.into_bytes() })
}

/// Runs the handshake against a driver that accepts the `n`th request and
/// whose process keeps running; returns the last phase, the last action and
/// the number of requests that were sent.
fn run_until_accepted(n: usize) -> (Phase, Action, usize) {
    let (mut phase, mut action) = start(4444);
    let mut posts = 0;
    for _ in 0..10_000 {
        let event = match action {
            Action::Spawn(_) => Event::Spawned,
            Action::Post => {
                posts += 1;
                if posts == n {
                    accepted("abc")
                } else {
                    Event::Replied(Reply::Failed)
                }
            }
            Action::Sleep(_) => Event::Slept,
            Action::Poll => Event::Running,
            other => return (phase, other, posts),
        };
        let next = step(4444, phase, event);
        phase = next.0;
        action = next.1;
    }
    panic!("the handshake did not end");
}

#[test]
fn start_asks_for_the_driver_with_its_port() {
    assert_eq!(start(4444), (Phase::Spawning, Action::Spawn(String::from("--port=4444"))));
}

#[test]
fn retry_interval_is_an_eighth_of_a_second() {
    assert_eq!(RETRY_INTERVAL_MS, 125);
}

#[test]
fn driver_that_accepts_at_once_opens_the_session() {
    let (phase, action, posts) = run_until_accepted(1);
    assert_eq!(phase, Phase::Active);
    assert_eq!(posts, 1);
    match action {
        Action::Finish(driver) => {
            assert_eq!(driver.session_id(), "abc");
            assert!(!driver.session_id().is_empty());
            assert_eq!(driver.url(), "http://localhost:4444");
        }
        other => panic!("unexpected action {:?}", other),
    }
}

#[test]
fn driver_that_accepts_the_fifth_request_opens_one_session() {
    let (phase, action, posts) = run_until_accepted(5);
    assert_eq!(phase, Phase::Active);
    assert_eq!(posts, 5);
    assert!(matches!(action, Action::Finish(_)));
    assert_eq!(step(4444, Phase::Active, accepted("other")), (Phase::Active, Action::Halt));
    assert_eq!(step(4444, Phase::Active, Event::Running), (Phase::Active, Action::Halt));
}

#[test]
fn launch_failure_is_a_spawn_error() {
    assert_eq!(
        step(4444, Phase::Spawning, Event::SpawnFailed),
        (
            Phase::Failed(WebDriverError::SpawnError),
            Action::Fail(WebDriverError::SpawnError)
        )
    );
}

#[test]
fn exit_before_any_answer_is_driver_exited() {
    let (phase, action) = start(4444);
    assert!(matches!(action, Action::Spawn(_)));
    let (phase, action) = step(4444, phase, Event::Spawned);
    assert_eq!((phase, action), (Phase::Posting, Action::Post));
    let (phase, action) = step(4444, phase, Event::Replied(Reply::Failed));
    assert_eq!((phase, action), (Phase::Sleeping, Action::Sleep(125)));
    let (phase, action) = step(4444, phase, Event::Slept);
    assert_eq!((phase, action), (Phase::Polling, Action::Poll));
    let (phase, action) = step(4444, phase, Event::Exited);
    assert_eq!(
        (phase, action),
        (
            Phase::Failed(WebDriverError::DriverExited),
            Action::Fail(WebDriverError::DriverExited)
        )
    );
    assert_eq!(
        step(4444, phase, Event::Running),
        (Phase::Failed(WebDriverError::DriverExited), Action::Halt)
    );
}

#[test]
fn running_driver_is_asked_again() {
    assert_eq!(step(4444, Phase::Polling, Event::Running), (Phase::Posting, Action::Post));
}

#[test]
fn answer_without_session_id_is_a_protocol_error() {
    let event = Event::Replied(Reply::Received { status: 200, body: b"{\"value\":null}".to_vec() });
    assert_eq!(
        step(4444, Phase::Posting, event),
        (
            Phase::Failed(WebDriverError::ProtocolError),
            Action::Fail(WebDriverError::ProtocolError)
        )
    );
}

#[test]
fn event_out_of_turn_repeats_the_pending_action() {
    assert_eq!(step(4444, Phase::Posting, Event::Slept), (Phase::Posting, Action::Post));
    assert_eq!(step(4444, Phase::Sleeping, Event::Exited), (Phase::Sleeping, Action::Sleep(125)));
    assert_eq!(step(4444, Phase::Polling, Event::Slept), (Phase::Polling, Action::Poll));
    assert_eq!(
        step(4444, Phase::Spawning, Event::Slept),
        (Phase::Spawning, Action::Spawn(String::from("--port=4444")))
    );
    assert_eq!(
        step(4444, Phase::Sleeping, accepted("abc")),
        (Phase::Sleeping, Action::Sleep(125))
    );
}

#[test]
fn pending_names_what_each_phase_waits_on() {
    assert_eq!(pending(80, Phase::Spawning), Action::Spawn(String::from("--port=80")));
    assert_eq!(pending(80, Phase::Posting), Action::Post);
    assert_eq!(pending(80, Phase::Sleeping), Action::Sleep(125));
    assert_eq!(pending(80, Phase::Polling), Action::Poll);
    assert_eq!(pending(80, Phase::Active), Action::Halt);
    assert_eq!(pending(80, Phase::Failed(WebDriverError::SpawnError)), Action::Halt);
}

#[test]
fn teardown_signals_then_waits_whatever_happens() {
    for killed in [false, true] {
        for waited in [false, true] {
            let first = teardown_start();
            assert_eq!(first, Teardown::Kill);
            let second = teardown_next(first, killed);
            assert_eq!(second, Teardown::Wait);
            let third = teardown_next(second, waited);
            assert_eq!(third, Teardown::Done);
            assert_eq!(teardown_next(third, true), Teardown::Done);
        }
    }
}
