//! Requests of the caller's own that carry the browser's cookies.
//!
//! The browser only tells the cookies of the page it is on. To learn those of another
//! URL without loading it, the session is sent to a decoy on the same origin, asked
//! for its cookies, and sent back.

use crate::client::{optional_text, read_current_url, spec_current_url, spec_optional_text, Client};
use crate::collect::{collect, lemma_collect_ok, lemma_collect_prefix_fails, lemma_collect_step};
use crate::command::{Command, CommandView, RawRequest, RawRequestView};
use crate::error::{reply_view, CmdError, Failure};
use crate::json::{items_view, lemma_array_view, Json, JsonValue};
use crate::urls::{spec_join, uri_accepted, Url, UrlError};
use vstd::prelude::*;
use vstd::string::StringExecFns;
use vstd::utf8::{encode_utf8, is_ascii_chars, is_ascii_chars_encode_utf8};

verus! {

/// The path of the decoy: on every origin a URL that is unlikely to lead anywhere.
pub const DECOY_PATH: &'static str = "/please_give_me_your_cookies";

/// The percent-encoded form that the `cookie` crate gives to a cookie's name or value.
pub uninterp spec fn cookie_encoded(text: Seq<char>) -> Seq<char>;

/// What a cookie is in a `Cookie` header: its encoded name, `=`, its encoded value.
pub open spec fn cookie_pair(name: Seq<char>, value: Seq<char>) -> Seq<char> {
    cookie_encoded(name) + "="@ + cookie_encoded(value)
}

/// Calls `cookie::Cookie::new`, `Cookie::encoded` and the `to_string` of what that
/// gives. For a cookie that has only a name and a value, the crate writes the
/// percent-encoded name, `=`, and the percent-encoded value; the contract says so, and
/// names the encoded form of each. The crate encodes every byte that is a control, a
/// space, DEL or not ASCII, so that what it writes is visible ASCII throughout.
#[verifier::external_body]
fn encode_cookie(name: &str, value: &str) -> (pair: String)
    ensures
        pair@ == cookie_encoded(name@) + "="@ + cookie_encoded(value@),
        visible(pair@),
{
    cookie::Cookie::new(name, value).encoded().to_string()
}

/// Whether a byte can stand in the value of a header: a tab, or anything from the space
/// on but DEL.
pub open spec fn header_byte(b: u8) -> bool {
    b == 9 || (b >= 32 && b != 127)
}

/// Whether `text` can be the value of a header: every byte of its UTF-8 form can stand
/// in one.
pub open spec fn header_accepted(text: Seq<char>) -> bool {
    forall|i: int|
        0 <= i < encode_utf8(text).len() ==> header_byte(#[trigger] encode_utf8(text)[i])
}

/// Calls `http::HeaderValue::from_str` and tells whether it gave a value. The `http`
/// crate takes a text exactly when each of its bytes is a tab, or at least 0x20 and not
/// 0x7F; the contract says so.
#[verifier::external_body]
fn accepts_header(text: &str) -> (accepted: bool)
    ensures
        accepted == header_accepted(text@),
{
    http::HeaderValue::from_str(text).is_ok()
}

/// Whether the text is made of visible ASCII characters alone, from `!` to `~`.
pub open spec fn visible(text: Seq<char>) -> bool {
    forall|i: int| 0 <= i < text.len() ==> '!' <= #[trigger] text[i] <= '~'
}

/// Whether the text is made of visible ASCII characters and spaces alone.
pub open spec fn plain(text: Seq<char>) -> bool {
    forall|i: int| 0 <= i < text.len() ==> ' ' <= #[trigger] text[i] <= '~'
}

/// A text of visible ASCII characters and spaces can be the value of a header.
pub proof fn lemma_plain_is_accepted(text: Seq<char>)
    requires
        plain(text),
    ensures
        header_accepted(text),
{
    assert(is_ascii_chars(text));
    is_ascii_chars_encode_utf8(text);
    assert forall|i: int| 0 <= i < encode_utf8(text).len() implies header_byte(
        #[trigger] encode_utf8(text)[i],
    ) by {
        assert(' ' <= text[i] <= '~');
        assert(text[i] as u8 == encode_utf8(text)[i]);
    }
}

/// The pair that one entry of the browser's cookie list gives: the entry must be an
/// object whose `name` and `value` are strings. Its other members are not looked at.
pub open spec fn spec_cookie(item: JsonValue) -> Result<Seq<char>, Failure> {
    match (item.get("name"@), item.get("value"@)) {
        (Some(JsonValue::String(name)), Some(JsonValue::String(value))) => Ok(
            cookie_pair(name, value),
        ),
        _ => Err(Failure::NotW3C(item)),
    }
}

/// The parts with `separator` between each two of them.
pub open spec fn join(parts: Seq<Seq<char>>, separator: Seq<char>) -> Seq<char>
    decreases parts.len(),
{
    if parts.len() == 0 {
        Seq::empty()
    } else if parts.len() == 1 {
        parts[0]
    } else {
        join(parts.drop_last(), separator) + separator + parts.last()
    }
}

/// The pairs of all entries of the cookie list, in order; nothing if the list is no
/// array or one of its entries gives no pair.
pub open spec fn spec_cookie_pairs(cookies: JsonValue) -> Option<Seq<Seq<char>>> {
    match cookies {
        JsonValue::Array(items) => match collect(items, |item: JsonValue| spec_cookie(item)) {
            Ok(pairs) => Some(pairs),
            Err(_) => None,
        },
        _ => None,
    }
}

/// The value of the `Cookie` header for the browser's cookie list: the pairs, with
/// `"; "` between them. A list with an entry that gives no pair is refused as a whole.
pub open spec fn spec_cookie_header(cookies: JsonValue) -> Result<Seq<char>, Failure> {
    match spec_cookie_pairs(cookies) {
        Some(pairs) => Ok(join(pairs, "; "@)),
        None => Err(Failure::NotW3C(cookies)),
    }
}

/// The header holds one pair for each entry of the cookie list, in the list's order,
/// each made of that entry's `name` and `value`, and nothing else but the separators:
/// whenever a header is built, every entry is an object with a string `name` and a
/// string `value`.
pub proof fn lemma_cookie_header_pairs(cookies: JsonValue)
    requires
        spec_cookie_header(cookies) is Ok,
    ensures
        cookies is Array,
        spec_cookie_pairs(cookies) is Some,
        spec_cookie_header(cookies) == Ok::<Seq<char>, Failure>(
            join(spec_cookie_pairs(cookies)->Some_0, "; "@),
        ),
        spec_cookie_pairs(cookies)->Some_0.len() == cookies->Array_0.len(),
        forall|i: int|
            0 <= i < cookies->Array_0.len() ==> {
                let entry = #[trigger] cookies->Array_0[i];
                &&& entry.get("name"@) matches Some(JsonValue::String(name))
                &&& entry.get("value"@) matches Some(JsonValue::String(value))
                &&& spec_cookie_pairs(cookies)->Some_0[i] == cookie_pair(name, value)
            },
{
    let items = cookies->Array_0;
    let read = |item: JsonValue| spec_cookie(item);
    lemma_collect_ok(items, read);
    let pairs = collect(items, read)->Ok_0;
    assert forall|i: int| 0 <= i < items.len() implies {
        let entry = #[trigger] items[i];
        &&& entry.get("name"@) matches Some(JsonValue::String(name))
        &&& entry.get("value"@) matches Some(JsonValue::String(value))
        &&& pairs[i] == cookie_pair(name, value)
    } by {
        assert(read(items[i]) == Ok::<Seq<char>, Failure>(pairs[i]));
    }
}

/// The pair of one entry of the cookie list, if it gives one.
fn cookie_of(item: &Json) -> (pair: Option<String>)
    ensures
        match pair {
            Some(p) => spec_cookie(item@) == Ok::<Seq<char>, Failure>(p@) && visible(p@),
            None => spec_cookie(item@) is Err,
        },
{
    let name = match item.get("name") {
        Some(name) => match name.as_str() {
            Some(name) => name,
            None => {
                return None;
            },
        },
        None => {
            return None;
        },
    };
    let value = match item.get("value") {
        Some(value) => match value.as_str() {
            Some(value) => value,
            None => {
                return None;
            },
        },
        None => {
            return None;
        },
    };
    Some(encode_cookie(name, value))
}

/// Builds the value of the `Cookie` header from the reply to `GetCookies`, or nothing
/// where the reply is no list of cookies. What is built can always be the value of a
/// header.
pub fn cookie_header(cookies: &Json) -> (header: Option<String>)
    ensures
        match header {
            Some(h) => spec_cookie_header(cookies@) == Ok::<Seq<char>, Failure>(h@)
                && header_accepted(h@),
            None => spec_cookie_header(cookies@) is Err,
        },
{
    match cookies {
        Json::Array(items) => {
            proof {
                lemma_array_view(*items);
            }
            let ghost all = items_view(items@);
            let ghost read = |item: JsonValue| spec_cookie(item);
            let ghost mut pairs: Seq<Seq<char>> = Seq::empty();
            let mut header = String::new();
            let mut i: usize = 0;
            assert(all.take(0) =~= Seq::<JsonValue>::empty());
            while i < items.len()
                invariant
                    i <= items.len(),
                    all == items_view(items@),
                    cookies@ == JsonValue::Array(all),
                    read == |item: JsonValue| spec_cookie(item),
                    collect(all.take(i as int), read) == Ok::<Seq<Seq<char>>, Failure>(pairs),
                    pairs.len() == i,
                    header@ == join(pairs, "; "@),
                    plain(header@),
                decreases items.len() - i,
            {
                proof {
                    lemma_collect_step(all, read, i as int);
                }
                match cookie_of(&items[i]) {
                    Some(pair) => {
                        if i > 0 {
                            header.append("; ");
                        }
                        header.append(pair.as_str());
                        proof {
                            reveal_strlit("; ");
                            let longer = pairs.push(pair@);
                            assert(longer.drop_last() =~= pairs);
                            if i == 0 {
                                assert(header@ =~= pair@);
                            }
                            pairs = longer;
                        }
                    },
                    None => {
                        proof {
                            lemma_collect_prefix_fails(all, read, i as int + 1);
                        }
                        return None;
                    },
                }
                i += 1;
            }
            assert(all.take(i as int) =~= all);
            proof {
                lemma_plain_is_accepted(header@);
            }
            Some(header)
        },
        _ => None,
    }
}

/// Where the raw-request sequence stands: what it waits for, and what it has learned.
#[derive(Debug, PartialEq, Eq)]
pub enum RawStage {
    /// Waits for the reply to `GetUrl`.
    Url { method: http::Method, url: String },
    /// Waits for the reply to the `Goto` that leads to the decoy.
    Decoy { method: http::Method, target: Url },
    /// Waits for the reply to `GetCookies`.
    Cookies { method: http::Method, target: Url },
    /// Waits for the reply to `Back`.
    Back { method: http::Method, target: Url, cookies: Json },
    /// Waits for the reply to `GetUa`.
    Ua { method: http::Method, target: Url, cookies: Json },
}

/// What the raw-request sequence does next.
#[derive(Debug, PartialEq, Eq)]
pub enum RawStep {
    /// Send this command to the session, and come back with its reply.
    Issue(Command, RawStage),
    /// The request is built: let the caller finish it, then send it as `Command::Raw`.
    Ready(RawRequest),
    /// The sequence ends with this failure.
    Failed(CmdError),
}

/// The mathematical value of a [`RawStage`].
pub enum RawStageView {
    Url { method: http::Method, url: Seq<char> },
    Decoy { method: http::Method, target: Seq<char> },
    Cookies { method: http::Method, target: Seq<char> },
    Back { method: http::Method, target: Seq<char>, cookies: JsonValue },
    Ua { method: http::Method, target: Seq<char>, cookies: JsonValue },
}

/// The mathematical value of a [`RawStep`].
pub enum RawStepView {
    Issue(CommandView, RawStageView),
    Ready(RawRequestView),
    Failed(Failure),
}

impl View for RawStage {
    type V = RawStageView;

    open spec fn view(&self) -> RawStageView {
        match self {
            RawStage::Url { method, url } => RawStageView::Url { method: *method, url: url@ },
            RawStage::Decoy { method, target } => RawStageView::Decoy {
                method: *method,
                target: target@,
            },
            RawStage::Cookies { method, target } => RawStageView::Cookies {
                method: *method,
                target: target@,
            },
            RawStage::Back { method, target, cookies } => RawStageView::Back {
                method: *method,
                target: target@,
                cookies: cookies@,
            },
            RawStage::Ua { method, target, cookies } => RawStageView::Ua {
                method: *method,
                target: target@,
                cookies: cookies@,
            },
        }
    }
}

impl View for RawStep {
    type V = RawStepView;

    open spec fn view(&self) -> RawStepView {
        match self {
            RawStep::Issue(command, stage) => RawStepView::Issue(command@, stage@),
            RawStep::Ready(request) => RawStepView::Ready(request@),
            RawStep::Failed(e) => RawStepView::Failed(e@),
        }
    }
}

/// The target of a raw request and its decoy: `url` resolved against the browser's URL
/// as the reply to `GetUrl` gives it, and the decoy path resolved against the target.
pub open spec fn spec_raw_target(res: JsonValue, url: Seq<char>) -> Result<
    (Seq<char>, Seq<char>),
    Failure,
> {
    match spec_current_url(res) {
        Err(e) => Err(e),
        Ok(old) => match spec_join(old, url) {
            Err(e) => Err(e),
            Ok(target) => match spec_join(target, DECOY_PATH@) {
                Err(e) => Err(e),
                Ok(decoy) => Ok((target, decoy)),
            },
        },
    }
}

/// Whether the `User-Agent` that was set, if one was, can be the value of a header.
pub open spec fn user_agent_accepted(user_agent: Option<Seq<char>>) -> bool {
    match user_agent {
        Some(ua) => header_accepted(ua),
        None => true,
    }
}

/// The request to `target`, given the browser's cookie list and the reply to `GetUa`.
/// What is looked at, in this order: the cookie list must give a `Cookie` header; the
/// reply to `GetUa` must be a string that can be the value of a header, or `null`; the
/// target must be one that a request can go to. The first that is not so ends the
/// sequence: with the cookie list, with the reply to `GetUa`, or with `InvalidUrl`.
pub open spec fn spec_raw_request_parts(
    method: http::Method,
    target: Seq<char>,
    cookies: JsonValue,
    ua: JsonValue,
) -> Result<RawRequestView, Failure> {
    match spec_cookie_header(cookies) {
        Err(e) => Err(e),
        Ok(cookie) => match spec_optional_text(ua) {
            Err(e) => Err(e),
            Ok(user_agent) => if !user_agent_accepted(user_agent) {
                Err(Failure::NotW3C(ua))
            } else if !uri_accepted(target) {
                Err(Failure::InvalidUrl)
            } else {
                Ok(RawRequestView { method, uri: target, cookie, user_agent })
            },
        },
    }
}

/// The step that follows `stage` when the session replies `res`.
///
/// The browser's URL gives the target and the decoy; the session goes to the decoy,
/// tells its cookies, goes back and tells the `User-Agent` that was set. A reply to
/// `GetCookies` that is no array ends the sequence at once, before `Back`; a list with
/// a bad entry ends it when the request is built. Both failures hold the reply to
/// `GetCookies` as it came. After that, a reply to `GetUa` that is neither `null` nor a
/// string that a header can hold ends the sequence with that reply, and after that a
/// target that no request can be sent to ends it with `InvalidUrl`.
pub open spec fn spec_proceed(stage: RawStageView, res: JsonValue) -> RawStepView {
    match stage {
        RawStageView::Url { method, url } => match spec_raw_target(res, url) {
            Err(e) => RawStepView::Failed(e),
            Ok((target, decoy)) => RawStepView::Issue(
                CommandView::Goto(decoy),
                RawStageView::Decoy { method, target },
            ),
        },
        RawStageView::Decoy { method, target } => RawStepView::Issue(
            CommandView::GetCookies,
            RawStageView::Cookies { method, target },
        ),
        RawStageView::Cookies { method, target } => if res is Array {
            RawStepView::Issue(
                CommandView::Back,
                RawStageView::Back { method, target, cookies: res },
            )
        } else {
            RawStepView::Failed(Failure::NotW3C(res))
        },
        RawStageView::Back { method, target, cookies } => RawStepView::Issue(
            CommandView::GetUa,
            RawStageView::Ua { method, target, cookies },
        ),
        RawStageView::Ua { method, target, cookies } => match spec_raw_request_parts(
            method,
            target,
            cookies,
            res,
        ) {
            Ok(request) => RawStepView::Ready(request),
            Err(e) => RawStepView::Failed(e),
        },
    }
}

/// The step that follows `stage` when the command it waits for is answered with
/// `answer`. A command that fails ends the sequence with its failure, whichever
/// command it is: nothing more is sent, and no request is built. In particular the
/// session is not sent back when `GetCookies` fails.
pub open spec fn spec_advance(stage: RawStageView, answer: Result<JsonValue, Failure>) -> RawStepView {
    match answer {
        Err(e) => RawStepView::Failed(e),
        Ok(res) => spec_proceed(stage, res),
    }
}

/// The request that the whole sequence builds, given the replies to `GetUrl`,
/// `GetCookies` and `GetUa`: to the target, with the method the caller chose, the
/// browser's cookies and the `User-Agent` that was set.
pub open spec fn spec_raw_request(
    method: http::Method,
    url: Seq<char>,
    current: JsonValue,
    cookies: JsonValue,
    ua: JsonValue,
) -> Result<RawRequestView, Failure> {
    match spec_raw_target(current, url) {
        Err(e) => Err(e),
        Ok((target, _)) => if !(cookies is Array) {
            Err(Failure::NotW3C(cookies))
        } else {
            spec_raw_request_parts(method, target, cookies, ua)
        },
    }
}

/// The sequence sends five commands, always in the same order: `GetUrl`, `Goto` to the
/// decoy, `GetCookies`, `Back`, `GetUa`. Where all of them are answered as they should
/// be, the request that is built is `spec_raw_request` of the replies. The replies to
/// `Goto` and `Back` make no difference.
pub proof fn lemma_raw_sequence(
    method: http::Method,
    url: Seq<char>,
    current: JsonValue,
    gone: JsonValue,
    cookies: JsonValue,
    back: JsonValue,
    ua: JsonValue,
)
    requires
        spec_raw_request(method, url, current, cookies, ua) is Ok,
    ensures
        ({
            let first = spec_advance(RawStageView::Url { method, url }, Ok(current));
            let second = spec_advance(first->Issue_1, Ok(gone));
            let third = spec_advance(second->Issue_1, Ok(cookies));
            let fourth = spec_advance(third->Issue_1, Ok(back));
            let last = spec_advance(fourth->Issue_1, Ok(ua));
            &&& first matches RawStepView::Issue(CommandView::Goto(decoy), _) && Ok::<
                (Seq<char>, Seq<char>),
                Failure,
            >((spec_raw_request(method, url, current, cookies, ua)->Ok_0.uri, decoy))
                == spec_raw_target(current, url)
            &&& second matches RawStepView::Issue(CommandView::GetCookies, _)
            &&& third matches RawStepView::Issue(CommandView::Back, _)
            &&& fourth matches RawStepView::Issue(CommandView::GetUa, _)
            &&& last == RawStepView::Ready(
                spec_raw_request(method, url, current, cookies, ua)->Ok_0,
            )
        }),
{
}

/// The sequence surfaces the first thing that goes wrong, and stops there. A command
/// that fails ends it with that failure; a reply to `GetCookies` that is no array ends
/// it with `NotW3C` of the reply. Either way no `Back` follows and no request is built.
pub proof fn lemma_raw_stops(stage: RawStageView, e: Failure, res: JsonValue)
    ensures
        spec_advance(stage, Err(e)) == RawStepView::Failed(e),
        stage is Cookies && !(res is Array) ==> spec_advance(stage, Ok(res))
            == RawStepView::Failed(Failure::NotW3C(res)),
{
}

/// Every request that the sequence builds is one that can be sent: the `http` crate
/// takes its target as a URI and its `User-Agent` as the value of a header. That the
/// `Cookie` header can be one too is what `RawStage::advance` adds of each request it
/// hands out.
pub proof fn lemma_raw_request_can_be_sent(stage: RawStageView, answer: Result<JsonValue, Failure>)
    ensures
        spec_advance(stage, answer) matches RawStepView::Ready(request) ==> {
            &&& uri_accepted(request.uri)
            &&& user_agent_accepted(request.user_agent)
        },
{
}

impl RawStage {
    /// Takes the answer to the command that this stage waits for, and says what is
    /// next.
    pub fn advance(self, answer: Result<Json, CmdError>) -> (step: RawStep)
        ensures
            step@ == spec_advance(self@, reply_view(answer)),
            step matches RawStep::Ready(request) ==> header_accepted(request.cookie@),
    {
        match answer {
            Ok(res) => self.proceed(res),
            Err(e) => RawStep::Failed(e),
        }
    }

    /// Takes the reply to the command that this stage waits for, and says what is next.
    fn proceed(self, res: Json) -> (step: RawStep)
        ensures
            step@ == spec_proceed(self@, res@),
            step matches RawStep::Ready(request) ==> header_accepted(request.cookie@),
    {
        match self {
            RawStage::Url { method, url } => {
                let old_url = match read_current_url(res) {
                    Ok(u) => u,
                    Err(e) => {
                        return RawStep::Failed(e);
                    },
                };
                let target = match old_url.join(url.as_str()) {
                    Ok(u) => u,
                    Err(e) => {
                        return RawStep::Failed(e);
                    },
                };
                let decoy = match target.join(DECOY_PATH) {
                    Ok(u) => u,
                    Err(e) => {
                        return RawStep::Failed(e);
                    },
                };
                RawStep::Issue(
                    Command::Goto(decoy.into_string()),
                    RawStage::Decoy { method, target },
                )
            },
            RawStage::Decoy { method, target } => RawStep::Issue(
                Command::GetCookies,
                RawStage::Cookies { method, target },
            ),
            RawStage::Cookies { method, target } => {
                let is_array = match &res {
                    Json::Array(_) => true,
                    _ => false,
                };
                if is_array {
                    RawStep::Issue(Command::Back, RawStage::Back { method, target, cookies: res })
                } else {
                    RawStep::Failed(CmdError::NotW3C(res))
                }
            },
            RawStage::Back { method, target, cookies } => RawStep::Issue(
                Command::GetUa,
                RawStage::Ua { method, target, cookies },
            ),
            RawStage::Ua { method, target, cookies } => {
                let cookie = match cookie_header(&cookies) {
                    Some(cookie) => cookie,
                    None => {
                        return RawStep::Failed(CmdError::NotW3C(cookies));
                    },
                };
                let user_agent = match optional_text(res) {
                    Ok(user_agent) => user_agent,
                    Err(e) => {
                        return RawStep::Failed(e);
                    },
                };
                let user_agent = match user_agent {
                    Some(ua) => {
                        if !accepts_header(ua.as_str()) {
                            return RawStep::Failed(CmdError::NotW3C(Json::String(ua)));
                        }
                        Some(ua)
                    },
                    None => None,
                };
                if target.is_request_target() {
                    RawStep::Ready(
                        RawRequest { method, uri: target.into_string(), cookie, user_agent },
                    )
                } else {
                    RawStep::Failed(CmdError::InvalidUrl(UrlError::Target))
                }
            },
        }
    }
}

impl Client {
    /// Starts the sequence that builds a request to `url` with the browser's cookies:
    /// the first command to send, and the stage that waits for its reply. The caller
    /// finishes the request that comes out at the end before it is sent.
    pub fn with_raw_client_for(&self, method: http::Method, url: &str) -> (start: (
        Command,
        RawStage,
    ))
        ensures
            start.0@ == CommandView::GetUrl,
            start.1@ == (RawStageView::Url { method, url: url@ }),
    {
        (Command::GetUrl, RawStage::Url { method, url: url.to_owned() })
    }

    /// Starts the sequence that builds a request to `url` with the browser's cookies,
    /// for a request that is sent as it is built, with an empty body.
    pub fn raw_client_for(&self, method: http::Method, url: &str) -> (start: (Command, RawStage))
        ensures
            start.0@ == CommandView::GetUrl,
            start.1@ == (RawStageView::Url { method, url: url@ }),
    {
        self.with_raw_client_for(method, url)
    }
}

} // verus!
