use geo_handshake::http::{Answer, Header, Method};
use geo_handshake::report::{Binary64, Draft};
use geo_handshake::session::{Action, Event, Session, Turn};

fn number(value: f64) -> Binary64 {
    Binary64 { bits: value.to_bits() }
}

fn values(numbers: Vec<Binary64>) -> Vec<f64> {
    numbers.into_iter().map(|n| f64::from_bits(n.bits)).collect()
}

/// POST {"latitude":37.5665,"longitude":126.9780,"accuracy":12.5,"timestamp":1700000000000}
#[test]
fn scenario_report_is_taken_and_returned() {
    let read = Draft {
        latitude: Some(number(37.5665)),
        longitude: Some(number(126.9780)),
        accuracy: Some(number(12.5)),
        timestamp: Some(1_700_000_000_000),
    };
    let mut session = Session::new();
    let action = session.step(Event::Arrived { method: Method::Post, path: "/update" });
    assert_eq!(action, Action::ReadBody);
    let action = session.step(Event::Body(read));
    let answer = match action {
        Action::Send(answer) => answer,
        other => panic!("expected an answer, got {:?}", other),
    };
    let reply = answer.reply();
    assert_eq!(reply.status, 200);
    assert_eq!(reply.body, Some("{\"status\":\"ok\"}"));
    assert!(reply.headers.contains(&Header { name: "Content-Type", value: "application/json" }));
    assert!(reply.headers.contains(&Header { name: "Access-Control-Allow-Origin", value: "*" }));
    assert_eq!(session.step(Event::Flushed), Action::Finish);
    assert_eq!(values(session.coordinates()), vec![37.5665, 126.9780, 12.5]);
    assert_eq!(session.result().map(|report| report.timestamp), Some(1_700_000_000_000));
}

/// POST {"latitude":"bad"}: nothing of it can be read.
#[test]
fn scenario_bad_report_is_rejected_and_session_waits_on() {
    let mut session = Session::new();
    let action = session.step(Event::Arrived { method: Method::Post, path: "/update" });
    assert_eq!(action, Action::ReadBody);
    let action = session.step(Event::Body(Draft::empty()));
    assert_eq!(action, Action::Send(Answer::Rejected));
    let reply = Answer::Rejected.reply();
    assert_eq!(reply.status, 400);
    assert_eq!(reply.body, Some("Invalid JSON"));
    assert_eq!(session.step(Event::Flushed), Action::Accept);
    assert_eq!(session, Session::Serving(Turn::Accepting));
    assert_eq!(session.result(), None);
    assert!(session.coordinates().is_empty());
}

#[test]
fn scenario_preflight_is_granted() {
    let mut session = Session::new();
    let action = session.step(Event::Arrived { method: Method::Options, path: "/update" });
    let answer = match action {
        Action::Send(answer) => answer,
        other => panic!("expected an answer, got {:?}", other),
    };
    let reply = answer.reply();
    assert_eq!(reply.status, 200);
    assert_eq!(reply.body, None);
    assert_eq!(reply.headers.len(), 3);
    assert!(reply.headers.contains(&Header { name: "Access-Control-Allow-Origin", value: "*" }));
    assert!(reply
        .headers
        .contains(&Header { name: "Access-Control-Allow-Methods", value: "POST, OPTIONS" }));
    assert!(reply
        .headers
        .contains(&Header { name: "Access-Control-Allow-Headers", value: "Content-Type" }));
    assert_eq!(session.step(Event::Flushed), Action::Accept);
}

#[test]
fn scenario_whole_visit() {
    let read = Draft {
        latitude: Some(number(35.1796)),
        longitude: Some(number(129.0756)),
        accuracy: Some(number(65.0)),
        timestamp: Some(1_712_345_678_901),
    };
    let mut session = Session::new();
    let mut sent = Vec::new();
    let events = [
        Event::Arrived { method: Method::Get, path: "/" },
        Event::Flushed,
        Event::Arrived { method: Method::Get, path: "/favicon.ico" },
        Event::Flushed,
        Event::Arrived { method: Method::Options, path: "/update" },
        Event::Flushed,
        Event::Arrived { method: Method::Post, path: "/update" },
        Event::Body(read),
        Event::Flushed,
    ];
    let mut last = session.pending();
    for event in events {
        last = session.step(event);
        if let Action::Send(answer) = last {
            sent.push(answer.reply().status);
        }
    }
    assert_eq!(sent, vec![200, 404, 200, 200]);
    assert_eq!(last, Action::Finish);
    assert_eq!(values(session.coordinates()), vec![35.1796, 129.0756, 65.0]);
}
