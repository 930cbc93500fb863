//! What holds of every session, proved from the definitions in
//! [`crate::session`] and [`crate::http`].

use crate::http::{line, reply_of, route_of, Answer, Method, ReplyView, Route, ROOT_PATH, UPDATE_PATH};
use crate::page::BOOTSTRAP_PAGE;
use crate::report::{Draft, LocationData};
use crate::session::{Action, Event, Session, Turn};
use vstd::prelude::*;

verus! {

/// The state that a session is in after a whole row of events, taken in
/// order.
pub open spec fn run(start: Session, events: Seq<Event<'static>>) -> Session
    decreases events.len(),
{
    if events.len() == 0 {
        start
    } else {
        run(start, events.drop_last()).after(events.last())
    }
}

/// The events of one request that needs no body: it arrives, and its answer
/// goes out.
pub open spec fn round(method: Method, path: &'static str) -> Seq<Event<'static>> {
    seq![Event::Arrived { method, path }, Event::Flushed]
}

/// The events of one posted report: it arrives, its body is read, and its
/// answer goes out.
pub open spec fn post(draft: Draft) -> Seq<Event<'static>> {
    seq![
        Event::Arrived { method: Method::Post, path: UPDATE_PATH },
        Event::Body(draft),
        Event::Flushed,
    ]
}

/// A report with all four fields, posted to a session that waits for a
/// request, is read, answered with status 200 and the body `{"status":"ok"}`,
/// and ends the session once that answer is out, not before. The result of
/// the session is then the report as it was posted, field for field.
pub proof fn law_whole_report_completes_session(start: Session, draft: Draft)
    requires
        start.accepts(),
        draft.is_complete(),
    ensures
        ({
            let report = LocationData {
                latitude: draft.latitude->0,
                longitude: draft.longitude->0,
                accuracy: draft.accuracy->0,
                timestamp: draft.timestamp->0,
            };
            let announced = start.after(
                Event::Arrived { method: Method::Post, path: UPDATE_PATH },
            );
            let read = announced.after(Event::Body(draft));
            let answered = read.after(Event::Flushed);
            &&& announced.owed() == Action::ReadBody
            &&& read.owed() == Action::Send(Answer::Accepted(report))
            &&& !read.finished()
            &&& read.outcome() is None
            &&& reply_of(Answer::Accepted(report)) == (ReplyView {
                status: 200,
                headers: seq![
                    line("Content-Type"@, "application/json"@),
                    line("Access-Control-Allow-Origin"@, "*"@),
                ],
                body: Some("{\"status\":\"ok\"}"@),
            })
            &&& answered == Session::Completed(report)
            &&& answered.owed() == Action::Finish
            &&& answered.outcome() == Some(report)
            &&& run(start, post(draft)) == answered
        }),
{
    lemma_run_three(
        start,
        Event::Arrived { method: Method::Post, path: UPDATE_PATH },
        Event::Body(draft),
        Event::Flushed,
    );
}

/// A posted body that lacks any of the four fields, or that could not be
/// read at all, is answered with status 400 and the body `Invalid JSON`. The
/// session stays open: it waits for the next request, and a whole report
/// that is posted later still completes it.
pub proof fn law_partial_report_leaves_session_open(start: Session, draft: Draft, later: Draft)
    requires
        start.accepts(),
        !draft.is_complete(),
        later.is_complete(),
    ensures
        ({
            let announced = start.after(
                Event::Arrived { method: Method::Post, path: UPDATE_PATH },
            );
            let read = announced.after(Event::Body(draft));
            let answered = read.after(Event::Flushed);
            &&& announced.owed() == Action::ReadBody
            &&& read.owed() == Action::Send(Answer::Rejected)
            &&& reply_of(Answer::Rejected) == (ReplyView {
                status: 400,
                headers: seq![],
                body: Some("Invalid JSON"@),
            })
            &&& answered == Session::Serving(Turn::Accepting)
            &&& answered.accepts()
            &&& answered.outcome() is None
            &&& run(start, post(draft)) == answered
            &&& run(answered, post(later)) == Session::Completed(later.record()->0)
        }),
{
    let arrived = Event::Arrived { method: Method::Post, path: UPDATE_PATH };
    lemma_run_three(start, arrived, Event::Body(draft), Event::Flushed);
    lemma_run_three(
        Session::Serving(Turn::Accepting),
        arrived,
        Event::Body(later),
        Event::Flushed,
    );
}

/// A session that is over takes note of nothing: whatever happens, its state
/// and with it its result stay as they are, and all it asks for is to stop.
pub proof fn law_finished_session_is_deaf(state: Session, event: Event<'static>)
    requires
        state.finished(),
    ensures
        state.after(event) == state,
        state.after(event).outcome() == state.outcome(),
        state.owed() == Action::Finish,
{
}

/// Over a whole row of events a session that is over stays as it is. So the
/// first report that completes a session is the only one: no later event, and
/// no second report among them, is seen.
pub proof fn law_result_is_final(state: Session, events: Seq<Event<'static>>)
    requires
        state.finished(),
    ensures
        run(state, events) == state,
    decreases events.len(),
{
    if events.len() > 0 {
        law_result_is_final(state, events.drop_last());
    }
}

/// The events of one request, whatever it asks for: those of a post where
/// it is routed as a report, with `draft` as what is read of its body, and
/// those of a round where it is not.
pub open spec fn visit(method: Method, path: &'static str, draft: Draft) -> Seq<Event<'static>> {
    if route_of(method, path@) == Route::Update {
        seq![Event::Arrived { method, path }, Event::Body(draft), Event::Flushed]
    } else {
        round(method, path)
    }
}

/// Nothing but a whole report ends a session by request. A session that
/// waits for a request is completed by a `POST /update` whose body holds all
/// four fields, and by no other request: after any other it waits for the
/// next one.
pub proof fn law_only_whole_report_completes(
    start: Session,
    method: Method,
    path: &'static str,
    draft: Draft,
)
    requires
        start.accepts(),
    ensures
        run(start, visit(method, path, draft)) == if method == Method::Post && path@ == "/update"@
            && draft.is_complete() {
            Session::Completed(draft.record()->0)
        } else {
            Session::Serving(Turn::Accepting)
        },
{
    let arrived = Event::Arrived { method, path };
    if route_of(method, path@) == Route::Update {
        lemma_run_three(start, arrived, Event::Body(draft), Event::Flushed);
    } else {
        lemma_run_two(start, arrived, Event::Flushed);
    }
}

/// Once a row of events has completed a session, going further along the
/// row changes nothing: the session is completed at most once, and by one
/// report.
pub proof fn law_completed_once(
    start: Session,
    events: Seq<Event<'static>>,
    early: int,
    late: int,
)
    requires
        0 <= early <= late <= events.len(),
        run(start, events.take(early)) is Completed,
    ensures
        run(start, events.take(late)) == run(start, events.take(early)),
{
    let head = events.take(early);
    let rest = events.subrange(early, late);
    assert(events.take(late) =~= head + rest);
    lemma_run_append(start, head, rest);
    law_result_is_final(run(start, head), rest);
}

/// The session asks to stop exactly when it is over, and it is over exactly
/// when it has a result or its listener has closed.
pub proof fn law_stops_when_over(state: Session)
    ensures
        state.owed() == Action::Finish <==> state.finished(),
        state.finished() <==> state.outcome() is Some || state == Session::Terminated,
        state.accepts() ==> !state.finished(),
{
}

/// There is one way into completion: the answer to an accepted report goes
/// out. And there is one way to an accepted report: a body is read that
/// holds all four fields.
pub proof fn law_completion_has_one_cause(
    state: Session,
    event: Event<'static>,
    report: LocationData,
)
    ensures
        !(state is Completed) && state.after(event) == Session::Completed(report) ==> {
            &&& event is Flushed
            &&& state == Session::Serving(Turn::Replying(Answer::Accepted(report)))
        },
        state != Session::Serving(Turn::Replying(Answer::Accepted(report))) && state.after(event)
            == Session::Serving(Turn::Replying(Answer::Accepted(report))) ==> {
            &&& state == Session::Serving(Turn::Reading)
            &&& event is Body
            &&& event->Body_0.record() == Some(report)
        },
{
}

/// `OPTIONS /update` is answered with status 200, the three headers that
/// grant a cross-origin post, and no body, whatever the session has served
/// before. The session then waits for the next request.
pub proof fn law_preflight_is_always_granted(start: Session)
    requires
        start.accepts(),
    ensures
        ({
            let asked = start.after(
                Event::Arrived { method: Method::Options, path: UPDATE_PATH },
            );
            &&& asked.owed() == Action::Send(Answer::Preflight)
            &&& reply_of(Answer::Preflight) == (ReplyView {
                status: 200,
                headers: seq![
                    line("Access-Control-Allow-Origin"@, "*"@),
                    line("Access-Control-Allow-Methods"@, "POST, OPTIONS"@),
                    line("Access-Control-Allow-Headers"@, "Content-Type"@),
                ],
                body: None,
            })
            &&& asked.after(Event::Flushed) == Session::Serving(Turn::Accepting)
            &&& run(start, round(Method::Options, UPDATE_PATH)) == Session::Serving(
                Turn::Accepting,
            )
        }),
{
    lemma_run_two(
        start,
        Event::Arrived { method: Method::Options, path: UPDATE_PATH },
        Event::Flushed,
    );
}

/// The events of `times` requests for the page, one after the other.
pub open spec fn page_rounds(times: nat) -> Seq<Event<'static>>
    decreases times,
{
    if times == 0 {
        Seq::empty()
    } else {
        page_rounds((times - 1) as nat) + round(Method::Get, ROOT_PATH)
    }
}

/// `GET /` is answered with status 200 and the bootstrap page as HTML, and
/// it is the same page however many times it was asked for before.
pub proof fn law_page_is_always_the_same(start: Session, times: nat)
    requires
        start.accepts(),
    ensures
        ({
            let before = run(start, page_rounds(times));
            let asked = before.after(Event::Arrived { method: Method::Get, path: ROOT_PATH });
            &&& before.accepts()
            &&& asked.owed() == Action::Send(Answer::Page)
            &&& reply_of(Answer::Page) == (ReplyView {
                status: 200,
                headers: seq![line("Content-Type"@, "text/html; charset=utf-8"@)],
                body: Some(BOOTSTRAP_PAGE@),
            })
            &&& asked.after(Event::Flushed) == Session::Serving(Turn::Accepting)
        }),
    decreases times,
{
    if times > 0 {
        let earlier = page_rounds((times - 1) as nat);
        law_page_is_always_the_same(start, (times - 1) as nat);
        lemma_run_append(start, earlier, round(Method::Get, ROOT_PATH));
        lemma_run_two(
            run(start, earlier),
            Event::Arrived { method: Method::Get, path: ROOT_PATH },
            Event::Flushed,
        );
    }
}

/// A request for anything but `GET /`, `POST /update` and `OPTIONS /update`
/// is answered with status 404 and the body `Not Found`, and leaves the
/// session waiting for the next request.
pub proof fn law_unknown_request_is_not_found(start: Session, method: Method, path: &'static str)
    requires
        start.accepts(),
        !(method == Method::Get && path@ == "/"@),
        !(method == Method::Post && path@ == "/update"@),
        !(method == Method::Options && path@ == "/update"@),
    ensures
        ({
            let asked = start.after(Event::Arrived { method, path });
            &&& route_of(method, path@) == Route::NotFound
            &&& asked.owed() == Action::Send(Answer::NotFound)
            &&& reply_of(Answer::NotFound) == (ReplyView {
                status: 404,
                headers: seq![],
                body: Some("Not Found"@),
            })
            &&& asked.after(Event::Flushed) == Session::Serving(Turn::Accepting)
        }),
{
}

/// A session whose listener closes while it waits for a request ends
/// without a result.
pub proof fn law_closed_listener_terminates(start: Session)
    requires
        start.accepts(),
    ensures
        start.after(Event::Closed) == Session::Terminated,
        start.after(Event::Closed).outcome() is None,
        start.after(Event::Closed).owed() == Action::Finish,
{
}

/// Running two rows of events one after the other is running them as one
/// row.
pub proof fn lemma_run_append(
    start: Session,
    first: Seq<Event<'static>>,
    second: Seq<Event<'static>>,
)
    ensures
        run(start, first + second) == run(run(start, first), second),
    decreases second.len(),
{
    if second.len() == 0 {
        assert(first + second =~= first);
    } else {
        lemma_run_append(start, first, second.drop_last());
        assert((first + second).drop_last() =~= first + second.drop_last());
    }
}

/// Running a row of two events is taking two steps.
pub proof fn lemma_run_two(start: Session, first: Event<'static>, second: Event<'static>)
    ensures
        run(start, seq![first, second]) == start.after(first).after(second),
{
    let events = seq![first, second];
    assert(events.drop_last() =~= seq![first]);
    assert(events.drop_last().drop_last() =~= Seq::<Event<'static>>::empty());
    assert(run(start, events.drop_last().drop_last()) == start);
    assert(run(start, events.drop_last()) == start.after(first));
}

/// Running a row of three events is taking three steps.
pub proof fn lemma_run_three(
    start: Session,
    first: Event<'static>,
    second: Event<'static>,
    third: Event<'static>,
)
    ensures
        run(start, seq![first, second, third]) == start.after(first).after(second).after(third),
{
    let events = seq![first, second, third];
    assert(events.drop_last() =~= seq![first, second]);
    lemma_run_two(start, first, second);
}

} // verus!
