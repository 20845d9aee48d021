//! What holds of a session over any course of events: commands are served in the
//! order they were submitted, a session is ended at most once, and an ended session
//! refuses everything.

use crate::command::CommandView;
use crate::error::Failure;
use crate::json::JsonValue;
use crate::session::{
    busy, shutdown_request, spec_attach, spec_complete, spec_detach, spec_next, spec_submit,
    ActionView, SessionView, Status,
};
use crate::wire::{session_path, spec_encode, spec_wire, HttpRequestView};
use vstd::prelude::*;

verus! {

/// Something that happens to a session.
pub enum Event {
    /// A handle submits a command.
    Submit(CommandView),
    /// A handle is cloned.
    Attach,
    /// A handle is dropped.
    Detach,
    /// The owner asks what to do next.
    Next,
    /// The owner hands back the outcome of the exchange under way.
    Complete(Result<JsonValue, Failure>),
}

/// The session after one event.
pub open spec fn step(s: SessionView, e: Event) -> SessionView {
    match e {
        Event::Submit(command) => spec_submit(s, command),
        Event::Attach => spec_attach(s),
        Event::Detach => spec_detach(s),
        Event::Next => spec_next(s).0,
        Event::Complete(outcome) => spec_complete(s, outcome).0,
    }
}

/// The session after a course of events.
pub open spec fn run(s: SessionView, events: Seq<Event>) -> SessionView
    decreases events.len(),
{
    if events.len() == 0 {
        s
    } else {
        step(run(s, events.drop_last()), events.last())
    }
}

/// The command that an event takes from the queue to serve it, if it takes one.
pub open spec fn served_by(s: SessionView, e: Event) -> Option<CommandView> {
    if e is Next && !busy(s) && s.queue.len() > 0 {
        Some(s.queue[0])
    } else {
        None
    }
}

/// The request that an event puts on the wire, if it puts one.
pub open spec fn sent_by(s: SessionView, e: Event) -> Option<HttpRequestView> {
    match e {
        Event::Next => match spec_next(s).1 {
            ActionView::Send(request) => Some(request),
            _ => None,
        },
        _ => None,
    }
}

/// The answer that an event gives to a command, if it gives one.
pub open spec fn answered_by(s: SessionView, e: Event) -> Option<Result<JsonValue, Failure>> {
    match e {
        Event::Next => match spec_next(s).1 {
            ActionView::Reply(reply) => Some(reply),
            _ => None,
        },
        Event::Complete(outcome) => spec_complete(s, outcome).1,
        _ => None,
    }
}

/// The commands that a course of events submits, in order.
pub open spec fn submitted(events: Seq<Event>) -> Seq<CommandView>
    decreases events.len(),
{
    if events.len() == 0 {
        Seq::empty()
    } else {
        match events.last() {
            Event::Submit(command) => submitted(events.drop_last()).push(command),
            _ => submitted(events.drop_last()),
        }
    }
}

/// The commands that a course of events takes from the queue, in order.
pub open spec fn served(s: SessionView, events: Seq<Event>) -> Seq<CommandView>
    decreases events.len(),
{
    if events.len() == 0 {
        Seq::empty()
    } else {
        let before = events.drop_last();
        match served_by(run(s, before), events.last()) {
            Some(command) => served(s, before).push(command),
            None => served(s, before),
        }
    }
}

/// The commands that a course of events takes from the queue of a live session, in
/// order.
pub open spec fn served_alive(s: SessionView, events: Seq<Event>) -> Seq<CommandView>
    decreases events.len(),
{
    if events.len() == 0 {
        Seq::empty()
    } else {
        let before = events.drop_last();
        let then = run(s, before);
        match served_by(then, events.last()) {
            Some(command) => if then.status is Ready {
                served_alive(s, before).push(command)
            } else {
                served_alive(s, before)
            },
            None => served_alive(s, before),
        }
    }
}

/// The requests that a course of events puts on the wire, in order.
pub open spec fn requests(s: SessionView, events: Seq<Event>) -> Seq<HttpRequestView>
    decreases events.len(),
{
    if events.len() == 0 {
        Seq::empty()
    } else {
        let before = events.drop_last();
        match sent_by(run(s, before), events.last()) {
            Some(request) => requests(s, before).push(request),
            None => requests(s, before),
        }
    }
}

/// The wire forms of those of the commands that have one, in the order of the commands.
pub open spec fn wire_forms(
    commands: Seq<CommandView>,
    endpoint: Seq<char>,
    session_id: Seq<char>,
) -> Seq<HttpRequestView>
    decreases commands.len(),
{
    if commands.len() == 0 {
        Seq::empty()
    } else {
        let before = wire_forms(commands.drop_last(), endpoint, session_id);
        match spec_encode(commands.last(), endpoint, session_id) {
            Some(request) => before.push(request),
            None => before,
        }
    }
}

/// Whether an event makes the session end itself: no handle is left, nothing waits,
/// and the session is alive and not persistent.
pub open spec fn ends_itself(s: SessionView, e: Event) -> bool {
    &&& e is Next
    &&& s.status is Ready
    &&& s.queue.len() == 0
    &&& s.handles == 0
    &&& !s.persistent
}

/// Whether the session ended itself in a course of events.
pub open spec fn ended_itself(s: SessionView, events: Seq<Event>) -> bool
    decreases events.len(),
{
    if events.len() == 0 {
        false
    } else {
        let before = events.drop_last();
        ended_itself(s, before) || ends_itself(run(s, before), events.last())
    }
}

/// How often a course of events sends the request that ends the session.
pub open spec fn shutdowns(s: SessionView, events: Seq<Event>) -> nat
    decreases events.len(),
{
    if events.len() == 0 {
        0
    } else {
        let before = events.drop_last();
        let then = run(s, before);
        if sent_by(then, events.last()) == Some(shutdown_request(then)) {
            shutdowns(s, before) + 1
        } else {
            shutdowns(s, before)
        }
    }
}

/// How many answers a course of events gives.
pub open spec fn answers(s: SessionView, events: Seq<Event>) -> nat
    decreases events.len(),
{
    if events.len() == 0 {
        0
    } else {
        let before = events.drop_last();
        if answered_by(run(s, before), events.last()) is Some {
            answers(s, before) + 1
        } else {
            answers(s, before)
        }
    }
}

/// How many commands the session has taken from the queue and not answered yet: the
/// one whose exchange is under way, if a handle waits for its answer.
pub open spec fn owed(s: SessionView) -> nat {
    match s.status {
        Status::Serving => 1,
        Status::ServingRaw => 1,
        Status::Closing { acknowledged } => if acknowledged {
            1
        } else {
            0
        },
        _ => 0,
    }
}

/// No event changes where the session lives, its id or its dialect.
pub proof fn lemma_identity_is_fixed(s: SessionView, events: Seq<Event>)
    ensures
        run(s, events).endpoint == s.endpoint,
        run(s, events).session_id == s.session_id,
        run(s, events).legacy == s.legacy,
    decreases events.len(),
{
    if events.len() > 0 {
        lemma_identity_is_fixed(s, events.drop_last());
    }
}

/// Commands are served in the order they were submitted: at any time, the commands
/// that waited at the start followed by those submitted since are the commands served
/// so far followed by those that still wait.
pub proof fn lemma_served_in_order(s: SessionView, events: Seq<Event>)
    ensures
        s.queue + submitted(events) == served(s, events) + run(s, events).queue,
    decreases events.len(),
{
    if events.len() == 0 {
        assert(s.queue + submitted(events) =~= served(s, events) + run(s, events).queue);
    } else {
        let before = events.drop_last();
        let then = run(s, before);
        lemma_served_in_order(s, before);
        match events.last() {
            Event::Submit(command) => {
                assert(s.queue + submitted(before).push(command) =~= (s.queue + submitted(
                    before,
                )).push(command));
                assert(served(s, before) + then.queue.push(command) =~= (served(s, before)
                    + then.queue).push(command));
            },
            Event::Next => {
                if !busy(then) && then.queue.len() > 0 {
                    assert(served(s, before).push(then.queue[0]) + then.queue.drop_first()
                        =~= served(s, before) + then.queue);
                }
            },
            _ => {},
        }
    }
}

/// Every command that is served is answered once, and before the next one is served:
/// at any time, the commands served so far are those answered so far and at most one
/// more, the one whose exchange is under way.
pub proof fn lemma_each_served_is_answered(s: SessionView, events: Seq<Event>)
    ensures
        served(s, events).len() + owed(s) == answers(s, events) + owed(run(s, events)),
        owed(run(s, events)) <= 1,
    decreases events.len(),
{
    if events.len() > 0 {
        lemma_each_served_is_answered(s, events.drop_last());
    }
}

/// The request of a command that a live session serves is the command's own wire form:
/// it goes out when the command reaches the front of the queue, and so in the order of
/// submission.
pub proof fn lemma_served_request(s: SessionView)
    requires
        !busy(s),
        s.status is Ready,
        s.queue.len() > 0,
        spec_wire(s.queue[0]) is Some,
    ensures
        sent_by(s, Event::Next) == spec_encode(s.queue[0], s.endpoint, s.session_id),
{
}

/// The server sees the commands in the order they were submitted: the requests on the
/// wire are the wire forms of the commands that were served while the session was
/// alive, in the order they were served, and after them the request by which the
/// session ended itself, if it did.
pub proof fn lemma_requests_in_order(s: SessionView, events: Seq<Event>)
    ensures
        requests(s, events) == wire_forms(served_alive(s, events), s.endpoint, s.session_id) + (
        if ended_itself(s, events) {
            seq![shutdown_request(s)]
        } else {
            Seq::empty()
        }),
        ended_itself(s, events) ==> run(s, events).status is Closing || run(
            s,
            events,
        ).status is Dead,
    decreases events.len(),
{
    let forms = wire_forms(served_alive(s, events), s.endpoint, s.session_id);
    if events.len() == 0 {
        assert(requests(s, events) =~= forms + Seq::<HttpRequestView>::empty());
    } else {
        let before = events.drop_last();
        let e = events.last();
        let then = run(s, before);
        let forms_before = wire_forms(served_alive(s, before), s.endpoint, s.session_id);
        lemma_requests_in_order(s, before);
        lemma_identity_is_fixed(s, before);
        if ended_itself(s, before) {
            lemma_no_second_shutdown(then, seq![e]);
            assert(seq![e].drop_last() =~= Seq::<Event>::empty());
            assert(sent_by(then, e) is None);
            assert(served_alive(s, events) == served_alive(s, before));
        } else if ends_itself(then, e) {
            assert(requests(s, events) =~= forms_before + seq![shutdown_request(s)]);
        } else {
            match served_by(then, e) {
                Some(command) => {
                    if then.status is Ready {
                        let longer = served_alive(s, before).push(command);
                        assert(longer.drop_last() =~= served_alive(s, before));
                        assert(longer.last() == command);
                        assert(requests(s, events) =~= forms + Seq::<HttpRequestView>::empty());
                    } else {
                        assert(requests(s, events) =~= forms + Seq::<HttpRequestView>::empty());
                    }
                },
                None => {
                    assert(requests(s, events) =~= forms + Seq::<HttpRequestView>::empty());
                },
            }
        }
    }
}

/// The commands served while the session was alive are the first of the commands
/// served; and all of them, as long as the session is not dead.
pub proof fn lemma_served_alive_first(s: SessionView, events: Seq<Event>)
    ensures
        served_alive(s, events).len() <= served(s, events).len(),
        served_alive(s, events) == served(s, events).take(served_alive(s, events).len() as int),
        !(run(s, events).status is Dead) ==> served_alive(s, events) == served(s, events),
    decreases events.len(),
{
    if events.len() == 0 {
        assert(served_alive(s, events) =~= served(s, events).take(0));
    } else {
        let before = events.drop_last();
        lemma_served_alive_first(s, before);
        let alive = served_alive(s, before);
        let all = served(s, before);
        match served_by(run(s, before), events.last()) {
            Some(command) => {
                if run(s, before).status is Ready {
                    assert(alive.push(command) =~= all.push(command).take(alive.len() as int + 1));
                } else {
                    assert(alive =~= all.push(command).take(alive.len() as int));
                }
            },
            None => {},
        }
    }
}

/// While an exchange is under way, nothing is put on the wire.
pub proof fn lemma_one_exchange_at_a_time(s: SessionView, e: Event)
    requires
        busy(s),
    ensures
        sent_by(s, e) is None,
        served_by(s, e) is None,
{
}

/// An ended session stays ended, whatever happens.
pub proof fn lemma_dead_stays_dead(s: SessionView, events: Seq<Event>)
    requires
        s.status is Dead,
    ensures
        run(s, events).status is Dead,
    decreases events.len(),
{
    if events.len() > 0 {
        lemma_dead_stays_dead(s, events.drop_last());
    }
}

/// After the session has ended, every command that is answered is answered with
/// `SessionClosed`, and nothing is put on the wire.
pub proof fn lemma_closed_refuses(s: SessionView, events: Seq<Event>, e: Event)
    requires
        s.status is Dead,
    ensures
        sent_by(run(s, events), e) is None,
        answered_by(run(s, events), e) matches Some(reply) ==> reply == Err::<
            JsonValue,
            Failure,
        >(Failure::SessionClosed),
        served_by(run(s, events), e) is Some ==> answered_by(run(s, events), e) is Some,
{
    lemma_dead_stays_dead(s, events);
}

/// Closing ends the session: once a live session has served `Shutdown` and the
/// response to its request is in, whatever it is, the session is dead, and the handle
/// that closed it is answered.
pub proof fn lemma_close_ends(s: SessionView, outcome: Result<JsonValue, Failure>)
    requires
        s.status is Ready,
        s.queue.len() > 0,
        s.queue[0] is Shutdown,
    ensures
        sent_by(s, Event::Next) == Some(shutdown_request(s)),
        spec_complete(spec_next(s).0, outcome).0.status is Dead,
        spec_complete(spec_next(s).0, outcome).1 is Some,
{
}

/// Once the last handle is gone, a live session that was not made persistent and has
/// nothing left to serve ends itself: it sends the request that ends the session.
pub proof fn lemma_last_drop_shuts_down(s: SessionView)
    requires
        s.status is Ready,
        s.queue.len() == 0,
        s.handles == 0,
        !s.persistent,
    ensures
        sent_by(s, Event::Next) == Some(shutdown_request(s)),
        spec_next(s).0.status == (Status::Closing { acknowledged: false }),
{
}

/// A persistent session outlives its handles: with no handle left and nothing to
/// serve, it puts nothing on the wire.
pub proof fn lemma_persist_suppresses(s: SessionView)
    requires
        s.status is Ready,
        s.queue.len() == 0,
        s.handles == 0,
        s.persistent,
    ensures
        spec_next(s) == (s, ActionView::Exit),
        sent_by(s, Event::Next) is None,
{
}

/// `Persist` makes a live session persistent, with no traffic on the wire.
pub proof fn lemma_persist_sets(s: SessionView)
    requires
        s.status is Ready,
        s.queue.len() > 0,
        s.queue[0] is Persist,
    ensures
        spec_next(s).0.persistent,
        sent_by(s, Event::Next) is None,
        answered_by(s, Event::Next) == Some(Ok::<JsonValue, Failure>(JsonValue::Null)),
{
}

/// Once persistent, a session stays so.
pub proof fn lemma_persistent_stays(s: SessionView, events: Seq<Event>)
    requires
        s.persistent,
    ensures
        run(s, events).persistent,
    decreases events.len(),
{
    if events.len() > 0 {
        lemma_persistent_stays(s, events.drop_last());
    }
}

/// An explicit close ends a persistent session too.
pub proof fn lemma_close_beats_persist(s: SessionView)
    requires
        s.status is Ready,
        s.persistent,
        s.queue.len() > 0,
        s.queue[0] is Shutdown,
    ensures
        sent_by(s, Event::Next) == Some(shutdown_request(s)),
{
}

/// Every command but `Shutdown` has a path of its own below the session's.
pub proof fn lemma_template_not_empty(command: CommandView)
    requires
        spec_wire(command) is Some,
        !(command is Shutdown),
    ensures
        spec_wire(command)->Some_0.template.len() > 0,
{
    reveal_strlit("/url");
    reveal_strlit("/back");
    reveal_strlit("/refresh");
    reveal_strlit("/window");
    reveal_strlit("/window/handles");
    reveal_strlit("/window/new");
    reveal_strlit("/frame");
    reveal_strlit("/frame/parent");
    reveal_strlit("/window/rect");
    reveal_strlit("/element");
    reveal_strlit("/elements");
    reveal_strlit("/element/active");
    reveal_strlit("/source");
    reveal_strlit("/execute/sync");
    reveal_strlit("/execute/async");
    reveal_strlit("/screenshot");
    reveal_strlit("/element/");
    reveal_strlit("/cookie");
}

/// The request that ends the session goes out only when the session starts to close.
pub proof fn lemma_shutdown_request_closes(s: SessionView, e: Event)
    requires
        sent_by(s, e) == Some(shutdown_request(s)),
    ensures
        !busy(s),
        s.status is Ready,
        step(s, e).status is Closing,
{
    if !busy(s) && s.queue.len() > 0 && s.status is Ready {
        let head = s.queue[0];
        if spec_wire(head) is Some && !(head is Shutdown) {
            lemma_template_not_empty(head);
            let path = session_path(s.endpoint, s.session_id);
            let template = spec_wire(head)->Some_0.template;
            assert((path + template).len() == path.len() + template.len());
            assert((path + Seq::<char>::empty()).len() == path.len());
        }
    }
}

/// Once a session closes or is dead, it never sends the request that ends it again.
pub proof fn lemma_no_second_shutdown(s: SessionView, events: Seq<Event>)
    requires
        s.status is Closing || s.status is Dead,
    ensures
        run(s, events).status is Closing || run(s, events).status is Dead,
        shutdowns(s, events) == 0,
    decreases events.len(),
{
    if events.len() > 0 {
        let before = events.drop_last();
        lemma_no_second_shutdown(s, before);
        let then = run(s, before);
        if sent_by(then, events.last()) == Some(shutdown_request(then)) {
            lemma_shutdown_request_closes(then, events.last());
        }
    }
}

/// Whatever happens to a session, the request that ends it is sent at most once; and
/// when it has been sent, the session is closing or dead.
pub proof fn lemma_at_most_one_shutdown(s: SessionView, events: Seq<Event>)
    ensures
        shutdowns(s, events) <= 1,
        shutdowns(s, events) == 1 ==> run(s, events).status is Closing || run(
            s,
            events,
        ).status is Dead,
    decreases events.len(),
{
    if events.len() > 0 {
        let before = events.drop_last();
        let then = run(s, before);
        lemma_at_most_one_shutdown(s, before);
        if sent_by(then, events.last()) == Some(shutdown_request(then)) {
            lemma_shutdown_request_closes(then, events.last());
        } else if shutdowns(s, before) == 1 {
            lemma_no_second_shutdown(then, seq![events.last()]);
            assert(seq![events.last()].drop_last() =~= Seq::<Event>::empty());
        }
    }
}

} // verus!
