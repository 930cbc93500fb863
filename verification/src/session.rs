//! The session: one acquisition, from the first request to the one report
//! that ends it.
//!
//! The session does no input or output. It is told what happened, one
//! [`Event`] at a time, and says what is to be done next, one [`Action`] at a
//! time. Whoever owns the listener performs the action and comes back with
//! the event that followed.

use crate::http::{route, route_of, Answer, Method, Route};
use crate::report::{Binary64, Draft, LocationData};
use vstd::prelude::*;

verus! {

/// Where the session stands within one request.
#[derive(Clone, Copy, Debug, PartialEq, Eq, Structural)]
pub enum Turn {
    /// Between two requests.
    Accepting,
    /// A report was announced and its body is being read.
    Reading,
    /// An answer was handed out and is on its way to the client.
    Replying(Answer),
}

/// The state of a session.
#[derive(Clone, Copy, Debug, PartialEq, Eq, Structural)]
pub enum Session {
    /// The listener is bound and no request has arrived yet.
    AwaitingConnection,
    /// Requests are being served and no report has ended the session yet.
    Serving(Turn),
    /// A report was accepted and answered. It is the result of the session.
    Completed(LocationData),
    /// The listener closed before any report was accepted. There is no
    /// result.
    Terminated,
}

/// Something that happened outside.
#[derive(Clone, Copy, Debug, PartialEq, Eq)]
pub enum Event<'a> {
    /// A request arrived.
    Arrived { method: Method, path: &'a str },
    /// The body of the request was read, as far as it could be.
    Body(Draft),
    /// The answer is out. A failure to write it counts as out, too.
    Flushed,
    /// The listener hands out no more requests.
    Closed,
}

/// What is to be done next.
#[derive(Clone, Copy, Debug, PartialEq, Eq, Structural)]
pub enum Action {
    /// Wait for the next request.
    Accept,
    /// Read the body of the request at hand.
    ReadBody,
    /// Send this answer to the request at hand.
    Send(Answer),
    /// Stop: the session is over.
    Finish,
}

/// The answer to a request that needs no body.
pub open spec fn answer_of(found: Route) -> Answer
    recommends
        found != Route::Update,
{
    match found {
        Route::Page => Answer::Page,
        Route::Preflight => Answer::Preflight,
        _ => Answer::NotFound,
    }
}

/// The turn that a request opens.
pub open spec fn turn_of(found: Route) -> Turn {
    if found == Route::Update {
        Turn::Reading
    } else {
        Turn::Replying(answer_of(found))
    }
}

/// The answer to a posted body: taken if it is a whole report, rejected if
/// not.
pub open spec fn verdict_of(draft: Draft) -> Answer {
    match draft.record() {
        Some(report) => Answer::Accepted(report),
        None => Answer::Rejected,
    }
}

impl Session {
    /// The session waits for a request.
    pub open spec fn accepts(self) -> bool {
        self == Session::AwaitingConnection || self == Session::Serving(Turn::Accepting)
    }

    /// The session is over.
    pub open spec fn finished(self) -> bool {
        self is Completed || self is Terminated
    }

    /// The state that follows `self` when `event` happens.
    ///
    /// An event that the state does not wait for changes nothing.
    pub open spec fn after(self, event: Event<'_>) -> Session {
        match (self, event) {
            (Session::AwaitingConnection, Event::Arrived { method, path })
            | (Session::Serving(Turn::Accepting), Event::Arrived { method, path }) => {
                Session::Serving(turn_of(route_of(method, path@)))
            },
            (Session::AwaitingConnection, Event::Closed)
            | (Session::Serving(Turn::Accepting), Event::Closed) => Session::Terminated,
            (Session::Serving(Turn::Reading), Event::Body(draft)) => Session::Serving(
                Turn::Replying(verdict_of(draft)),
            ),
            (Session::Serving(Turn::Replying(Answer::Accepted(report))), Event::Flushed) => {
                Session::Completed(report)
            },
            (Session::Serving(Turn::Replying(_)), Event::Flushed) => Session::Serving(
                Turn::Accepting,
            ),
            _ => self,
        }
    }

    /// What the state waits for.
    pub open spec fn owed(self) -> Action {
        match self {
            Session::AwaitingConnection => Action::Accept,
            Session::Serving(Turn::Accepting) => Action::Accept,
            Session::Serving(Turn::Reading) => Action::ReadBody,
            Session::Serving(Turn::Replying(answer)) => Action::Send(answer),
            Session::Completed(_) => Action::Finish,
            Session::Terminated => Action::Finish,
        }
    }

    /// The result of the session: the accepted report once the session has
    /// completed, and nothing before that or after a termination.
    pub open spec fn outcome(self) -> Option<LocationData> {
        match self {
            Session::Completed(report) => Some(report),
            _ => None,
        }
    }

    /// A session whose listener has just been bound.
    pub fn new() -> (session: Session)
        ensures
            session == Session::AwaitingConnection,
    {
        Session::AwaitingConnection
    }

    /// What is to be done now.
    pub fn pending(&self) -> (action: Action)
        ensures
            action == self.owed(),
    {
        match self {
            Session::AwaitingConnection => Action::Accept,
            Session::Serving(Turn::Accepting) => Action::Accept,
            Session::Serving(Turn::Reading) => Action::ReadBody,
            Session::Serving(Turn::Replying(answer)) => Action::Send(*answer),
            Session::Completed(_) => Action::Finish,
            Session::Terminated => Action::Finish,
        }
    }

    /// Takes note of an event and says what is to be done next.
    pub fn step(&mut self, event: Event<'_>) -> (action: Action)
        ensures
            *final(self) == old(self).after(event),
            action == final(self).owed(),
    {
        let next = match (*self, event) {
            (Session::AwaitingConnection, Event::Arrived { method, path })
            | (Session::Serving(Turn::Accepting), Event::Arrived { method, path }) => {
                match route(method, path) {
                    Route::Page => Session::Serving(Turn::Replying(Answer::Page)),
                    Route::Update => Session::Serving(Turn::Reading),
                    Route::Preflight => Session::Serving(Turn::Replying(Answer::Preflight)),
                    Route::NotFound => Session::Serving(Turn::Replying(Answer::NotFound)),
                }
            },
            (Session::AwaitingConnection, Event::Closed)
            | (Session::Serving(Turn::Accepting), Event::Closed) => Session::Terminated,
            (Session::Serving(Turn::Reading), Event::Body(draft)) => {
                match draft.complete() {
                    Some(report) => Session::Serving(Turn::Replying(Answer::Accepted(report))),
                    None => Session::Serving(Turn::Replying(Answer::Rejected)),
                }
            },
            (Session::Serving(Turn::Replying(Answer::Accepted(report))), Event::Flushed) => {
                Session::Completed(report)
            },
            (Session::Serving(Turn::Replying(_)), Event::Flushed) => Session::Serving(
                Turn::Accepting,
            ),
            (state, _) => state,
        };
        *self = next;
        self.pending()
    }

    /// The accepted report, once the session has completed.
    pub fn result(&self) -> (report: Option<LocationData>)
        ensures
            report == self.outcome(),
    {
        match self {
            Session::Completed(report) => Some(*report),
            _ => None,
        }
    }

    /// What the caller of an acquisition gets: latitude, longitude and
    /// accuracy of the accepted report, or nothing at all where the session
    /// has no result.
    pub fn coordinates(&self) -> (numbers: Vec<Binary64>)
        ensures
            numbers@ == match self.outcome() {
                Some(report) => report.coordinates_spec(),
                None => Seq::<Binary64>::empty(),
            },
    {
        match self {
            Session::Completed(report) => report.coordinates(),
            _ => Vec::new(),
        }
    }
}

} // verus!
