//! The session: one task that owns the connection to the server and serves the
//! commands of all handles, one at a time and in the order they were submitted.
//!
//! The session does no I/O of its own. Its owner asks it what to do next, sends the
//! request it is given, and hands back the response.

use crate::client::Client;
use crate::command::{Command, CommandView, RawRequest, RawRequestView};
use crate::error::{reply_view, CmdError, Failure};
use crate::handshake::{classify, spec_classify};
use crate::json::{text_of, Json, JsonValue};
use crate::reply::{decode, spec_decode};
use crate::wire::{
    new_session, route, session_path, spec_new_session, spec_route, Control, ControlView,
    HttpRequest, HttpRequestView, Routed, RoutedView, Verb,
};
use vstd::string::StringExecFns;
use std::collections::VecDeque;
use vstd::prelude::*;

verus! {

/// What the session is doing.
#[derive(Clone, Copy, Debug, PartialEq, Eq)]
pub enum Status {
    /// Alive, with no exchange under way.
    Ready,
    /// Alive, waiting for the response to a command's request.
    Serving,
    /// Alive, waiting for the response to a raw request.
    ServingRaw,
    /// Waiting for the response to the request that ends the session. `acknowledged`
    /// tells whether a handle waits for the answer.
    Closing { acknowledged: bool },
    /// Ended.
    Dead,
}

/// One browser session and the commands that wait to be served.
#[derive(Debug)]
pub struct Session {
    endpoint: String,
    session_id: String,
    is_legacy: bool,
    ua: Option<String>,
    persistent: bool,
    status: Status,
    queue: VecDeque<Command>,
    handles: u64,
}

/// The mathematical value of a [`Session`].
pub struct SessionView {
    pub endpoint: Seq<char>,
    pub session_id: Seq<char>,
    pub legacy: bool,
    pub ua: Option<Seq<char>>,
    pub persistent: bool,
    pub status: Status,
    pub queue: Seq<CommandView>,
    pub handles: nat,
}

/// What the session's owner is to do.
#[derive(Debug, PartialEq, Eq)]
pub enum Action {
    /// Nothing for now: an exchange is under way, or no command waits.
    Wait,
    /// Nothing any more: no handle is left and the session needs no request.
    Exit,
    /// Answer the oldest command that waits for an answer.
    Reply(Result<Json, CmdError>),
    /// Send this request and hand back the response.
    Send(HttpRequest),
    /// Send this raw request, give its response to the caller, and say when it is done.
    SendRaw(RawRequest),
}

/// The mathematical value of an [`Action`].
pub enum ActionView {
    Wait,
    Exit,
    Reply(Result<JsonValue, Failure>),
    Send(HttpRequestView),
    SendRaw(RawRequestView),
}

/// The views of the commands of a queue.
pub open spec fn commands_view(queue: Seq<Command>) -> Seq<CommandView> {
    Seq::new(queue.len(), |i: int| queue[i]@)
}

/// The view of an answer that may be withheld.
pub open spec fn optional_reply_view(reply: Option<Result<Json, CmdError>>) -> Option<
    Result<JsonValue, Failure>,
> {
    match reply {
        Some(r) => Some(reply_view(r)),
        None => None,
    }
}

impl View for Session {
    type V = SessionView;

    closed spec fn view(&self) -> SessionView {
        SessionView {
            endpoint: self.endpoint@,
            session_id: self.session_id@,
            legacy: self.is_legacy,
            ua: text_of(self.ua),
            persistent: self.persistent,
            status: self.status,
            queue: commands_view(self.queue@),
            handles: self.handles as nat,
        }
    }
}

impl View for Action {
    type V = ActionView;

    open spec fn view(&self) -> ActionView {
        match self {
            Action::Wait => ActionView::Wait,
            Action::Exit => ActionView::Exit,
            Action::Reply(reply) => ActionView::Reply(reply_view(*reply)),
            Action::Send(request) => ActionView::Send(request@),
            Action::SendRaw(request) => ActionView::SendRaw(request@),
        }
    }
}

/// The session that the handshake creates. `outcome` is the body of the server's
/// answer, or the failure to get one. An answer gives a session of the dialect and with
/// the id that it shows: alive, with one handle and nothing to do. Without an answer
/// there is no session; an answer of neither dialect's shape is refused as it came.
pub open spec fn spec_establish(endpoint: Seq<char>, outcome: Result<JsonValue, Failure>) -> Result<
    SessionView,
    Failure,
> {
    match outcome {
        Err(_) => Err(Failure::NewSessionError),
        Ok(res) => match spec_classify(res) {
            Ok((legacy, session_id)) => Ok(
                SessionView {
                    endpoint,
                    session_id,
                    legacy,
                    ua: None,
                    persistent: false,
                    status: Status::Ready,
                    queue: Seq::empty(),
                    handles: 1,
                },
            ),
            Err(e) => Err(e),
        },
    }
}

/// The session after `command` was submitted: the command waits behind all others.
pub open spec fn spec_submit(s: SessionView, command: CommandView) -> SessionView {
    SessionView { queue: s.queue.push(command), ..s }
}

/// The session after a handle was cloned.
pub open spec fn spec_attach(s: SessionView) -> SessionView {
    if s.handles < u64::MAX {
        SessionView { handles: s.handles + 1, ..s }
    } else {
        s
    }
}

/// The session after a handle was dropped.
pub open spec fn spec_detach(s: SessionView) -> SessionView {
    if s.handles > 0 {
        SessionView { handles: (s.handles - 1) as nat, ..s }
    } else {
        s
    }
}

/// The request that ends the session: `DELETE` on the session's own path.
pub open spec fn shutdown_request(s: SessionView) -> HttpRequestView {
    HttpRequestView {
        verb: Verb::Delete,
        url: session_path(s.endpoint, s.session_id),
        body: None,
    }
}

/// The answer to a question after the `User-Agent` that was set.
pub open spec fn ua_value(ua: Option<Seq<char>>) -> JsonValue {
    match ua {
        Some(ua) => JsonValue::String(ua),
        None => JsonValue::Null,
    }
}

/// What a live session does with a command that it sees to by itself: it answers from
/// what it knows, or, for a raw request, sends what the caller built.
pub open spec fn spec_control(s: SessionView, control: ControlView) -> (SessionView, ActionView) {
    match control {
        ControlView::GetSessionId => (s, ActionView::Reply(Ok(JsonValue::String(s.session_id)))),
        ControlView::SetUa(ua) => (
            SessionView { ua: Some(ua), ..s },
            ActionView::Reply(Ok(JsonValue::Null)),
        ),
        ControlView::GetUa => (s, ActionView::Reply(Ok(ua_value(s.ua)))),
        ControlView::Persist => (
            SessionView { persistent: true, ..s },
            ActionView::Reply(Ok(JsonValue::Null)),
        ),
        ControlView::Raw(request) => (
            SessionView { status: Status::ServingRaw, ..s },
            ActionView::SendRaw(request),
        ),
    }
}

/// What a session with no exchange under way does with the command `head`, which it
/// has just taken from the front of the queue.
///
/// A dead session refuses it. A live one sends the request of a command that has one,
/// and starts to close if the command is `Shutdown`; it sees to any other command by
/// itself.
pub open spec fn spec_serve(s: SessionView, head: CommandView) -> (SessionView, ActionView) {
    if s.status is Dead {
        (s, ActionView::Reply(Err(Failure::SessionClosed)))
    } else {
        match spec_route(head, s.endpoint, s.session_id) {
            RoutedView::Wire(request) => (
                SessionView {
                    status: if head is Shutdown {
                        Status::Closing { acknowledged: true }
                    } else {
                        Status::Serving
                    },
                    ..s
                },
                ActionView::Send(request),
            ),
            RoutedView::Control(control) => spec_control(s, control),
        }
    }
}

/// What a session with no exchange under way and no command waiting does: it ends
/// itself once its last handle is gone, unless it was made persistent.
pub open spec fn spec_rest(s: SessionView) -> (SessionView, ActionView) {
    if s.handles > 0 {
        (s, ActionView::Wait)
    } else if s.status is Ready && !s.persistent {
        (
            SessionView { status: Status::Closing { acknowledged: false }, ..s },
            ActionView::Send(shutdown_request(s)),
        )
    } else {
        (s, ActionView::Exit)
    }
}

/// Whether an exchange is under way.
pub open spec fn busy(s: SessionView) -> bool {
    s.status is Serving || s.status is ServingRaw || s.status is Closing
}

/// What the session does next, and what it is afterwards. While an exchange is under
/// way it does nothing; else it serves the oldest command that waits.
pub open spec fn spec_next(s: SessionView) -> (SessionView, ActionView) {
    if busy(s) {
        (s, ActionView::Wait)
    } else if s.queue.len() > 0 {
        spec_serve(SessionView { queue: s.queue.drop_first(), ..s }, s.queue[0])
    } else {
        spec_rest(s)
    }
}

/// What the end of the exchange under way means: the session afterwards, and the
/// answer for the command that was served, if one is owed.
///
/// `outcome` is the body of the response, or the failure to get one. A command's
/// response is read in the session's dialect. A raw request's response goes to the
/// caller as it is; the command is answered with `null`. After the response to the
/// request that ends the session, whatever it is, the session is dead.
pub open spec fn spec_complete(s: SessionView, outcome: Result<JsonValue, Failure>) -> (
    SessionView,
    Option<Result<JsonValue, Failure>>,
) {
    match s.status {
        Status::Serving => (
            SessionView { status: Status::Ready, ..s },
            Some(
                match outcome {
                    Ok(body) => spec_decode(body, s.legacy),
                    Err(e) => Err(e),
                },
            ),
        ),
        Status::ServingRaw => (
            SessionView { status: Status::Ready, ..s },
            Some(Ok(JsonValue::Null)),
        ),
        Status::Closing { acknowledged } => (
            SessionView { status: Status::Dead, ..s },
            if acknowledged {
                Some(Ok(JsonValue::Null))
            } else {
                None
            },
        ),
        _ => (s, None),
    }
}

impl Session {
    /// The request that creates a session at `endpoint` with the given capabilities.
    pub fn handshake(endpoint: &str, capabilities: &Json) -> (request: HttpRequest)
        ensures
            request@ == spec_new_session(endpoint@, capabilities@),
    {
        new_session(endpoint, capabilities)
    }

    /// The session that the handshake creates: `outcome` is the body of the server's
    /// answer, or the failure to get one.
    pub fn establish(endpoint: &str, outcome: Result<Json, CmdError>) -> (made: Result<
        Session,
        CmdError,
    >)
        ensures
            match made {
                Ok(s) => spec_establish(endpoint@, reply_view(outcome)) == Ok::<
                    SessionView,
                    Failure,
                >(s@),
                Err(e) => spec_establish(endpoint@, reply_view(outcome)) == Err::<
                    SessionView,
                    Failure,
                >(e@),
            },
    {
        let res = match outcome {
            Ok(res) => res,
            Err(_) => {
                return Err(CmdError::NewSessionError);
            },
        };
        match classify(res) {
            Ok(settled) => {
                let queue: VecDeque<Command> = VecDeque::new();
                assert(commands_view(queue@) =~= Seq::empty());
                Ok(
                    Session {
                        endpoint: endpoint.to_owned(),
                        session_id: settled.session_id,
                        is_legacy: settled.is_legacy,
                        ua: None,
                        persistent: false,
                        status: Status::Ready,
                        queue,
                        handles: 1,
                    },
                )
            },
            Err(e) => Err(e),
        }
    }

    /// A handle on this session.
    pub fn client(&self) -> (handle: Client)
        ensures
            handle.legacy() == self@.legacy,
    {
        Client::for_dialect(self.is_legacy)
    }

    /// The id that the server gave to the session.
    pub fn session_id(&self) -> (id: &str)
        ensures
            id@ == self@.session_id,
    {
        self.session_id.as_str()
    }

    /// Whether the session speaks the legacy dialect.
    pub fn is_legacy(&self) -> (legacy: bool)
        ensures
            legacy == self@.legacy,
    {
        self.is_legacy
    }

    /// Whether the session outlives its handles.
    pub fn is_persistent(&self) -> (persistent: bool)
        ensures
            persistent == self@.persistent,
    {
        self.persistent
    }

    /// What the session is doing.
    pub fn status(&self) -> (status: Status)
        ensures
            status == self@.status,
    {
        self.status
    }

    /// The number of commands that wait to be served.
    pub fn pending(&self) -> (n: usize)
        ensures
            n == self@.queue.len(),
    {
        self.queue.len()
    }

    /// The number of handles on the session.
    pub fn handles(&self) -> (n: u64)
        ensures
            n == self@.handles,
    {
        self.handles
    }

    /// Puts `command` behind the commands that wait.
    pub fn submit(&mut self, command: Command)
        ensures
            final(self)@ == spec_submit(old(self)@, command@),
    {
        let ghost before = commands_view(self.queue@);
        self.queue.push_back(command);
        assert(commands_view(self.queue@) =~= before.push(command@));
    }

    /// Counts a handle that was cloned. The count stays where it is once it has
    /// reached `u64::MAX`.
    pub fn attach(&mut self)
        ensures
            final(self)@ == spec_attach(old(self)@),
    {
        if self.handles < u64::MAX {
            self.handles = self.handles + 1;
        }
    }

    /// Counts a handle that was dropped.
    pub fn detach(&mut self)
        ensures
            final(self)@ == spec_detach(old(self)@),
    {
        if self.handles > 0 {
            self.handles = self.handles - 1;
        }
    }

    /// Says what is to be done next.
    pub fn next(&mut self) -> (action: Action)
        ensures
            (final(self)@, action@) == spec_next(old(self)@),
    {
        match self.status {
            Status::Serving | Status::ServingRaw | Status::Closing { .. } => {
                return Action::Wait;
            },
            _ => {},
        }
        let ghost before = commands_view(self.queue@);
        match self.queue.pop_front() {
            Some(head) => {
                assert(commands_view(self.queue@) =~= before.drop_first());
                assert(head@ == before[0]);
                self.serve(head)
            },
            None => self.rest(),
        }
    }

    /// Serves the command that was just taken from the front of the queue.
    fn serve(&mut self, head: Command) -> (action: Action)
        requires
            !busy(old(self)@),
        ensures
            (final(self)@, action@) == spec_serve(old(self)@, head@),
    {
        match self.status {
            Status::Dead => {
                return Action::Reply(Err(CmdError::SessionClosed));
            },
            _ => {},
        }
        let ends = match &head {
            Command::Shutdown => true,
            _ => false,
        };
        match route(head, self.endpoint.as_str(), self.session_id.as_str()) {
            Routed::Wire(request) => {
                self.status = if ends {
                    Status::Closing { acknowledged: true }
                } else {
                    Status::Serving
                };
                Action::Send(request)
            },
            Routed::Control(control) => self.control(control),
        }
    }

    /// Sees to a command that needs no request of the session's own.
    fn control(&mut self, control: Control) -> (action: Action)
        ensures
            (final(self)@, action@) == spec_control(old(self)@, control@),
    {
        match control {
            Control::GetSessionId => Action::Reply(Ok(Json::String(self.session_id.clone()))),
            Control::SetUa(ua) => {
                self.ua = Some(ua);
                Action::Reply(Ok(Json::Null))
            },
            Control::GetUa => {
                let ua = match &self.ua {
                    Some(ua) => Json::String(ua.clone()),
                    None => Json::Null,
                };
                Action::Reply(Ok(ua))
            },
            Control::Persist => {
                self.persistent = true;
                Action::Reply(Ok(Json::Null))
            },
            Control::Raw(request) => {
                self.status = Status::ServingRaw;
                Action::SendRaw(request)
            },
        }
    }

    /// Decides what to do while no command waits.
    fn rest(&mut self) -> (action: Action)
        requires
            !busy(old(self)@),
        ensures
            (final(self)@, action@) == spec_rest(old(self)@),
    {
        if self.handles > 0 {
            return Action::Wait;
        }
        let alive = match self.status {
            Status::Ready => true,
            _ => false,
        };
        if alive && !self.persistent {
            let request = self.shutdown();
            self.status = Status::Closing { acknowledged: false };
            Action::Send(request)
        } else {
            Action::Exit
        }
    }

    /// The request that ends the session.
    fn shutdown(&self) -> (request: HttpRequest)
        ensures
            request@ == shutdown_request(self@),
    {
        let mut url = self.endpoint.clone();
        url.append("/session/");
        url.append(self.session_id.as_str());
        HttpRequest { verb: Verb::Delete, url, body: None }
    }

    /// Takes the end of the exchange under way: `outcome` is the body of the response,
    /// or the failure to get one. Hands back the answer for the command that was
    /// served, if one is owed.
    pub fn complete(&mut self, outcome: Result<Json, CmdError>) -> (reply: Option<
        Result<Json, CmdError>,
    >)
        ensures
            (final(self)@, optional_reply_view(reply)) == spec_complete(
                old(self)@,
                reply_view(outcome),
            ),
    {
        match self.status {
            Status::Serving => {
                self.status = Status::Ready;
                match outcome {
                    Ok(body) => Some(decode(body, self.is_legacy)),
                    Err(e) => Some(Err(e)),
                }
            },
            Status::ServingRaw => {
                self.status = Status::Ready;
                Some(Ok(Json::Null))
            },
            Status::Closing { acknowledged } => {
                self.status = Status::Dead;
                if acknowledged {
                    Some(Ok(Json::Null))
                } else {
                    None
                }
            },
            _ => None,
        }
    }
}

} // verus!
