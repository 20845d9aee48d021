//! The client's side of each command: what it sends, and what it makes of the reply.

use crate::collect::{collect, lemma_collect_prefix_fails, lemma_collect_step};
use crate::command::{Command, CommandView};
use crate::element::{
    element_key, w3c_element_key, Element, Form, NewWindowResponse, WebElement, WebWindow,
    LEGACY_ELEMENT_KEY,
};
use crate::error::{reply_view, CmdError, Failure};
use crate::fixup::{rename, spec_canonical, spec_fixup, spec_fixup_all};
use crate::image::{base64_decoded, decode_image, image_text, spec_image};
use crate::json::{
    items_view, lemma_absent, lemma_array_view, lemma_first, lemma_object_view, lookup,
    members_view, position, text_of, Json, JsonValue,
};
use crate::urls::{spec_join, spec_parse, Url};
use vstd::prelude::*;

verus! {

/// A handle on one browser session. It knows which dialect the session speaks.
#[derive(Clone, Copy, Debug, PartialEq, Eq)]
pub struct Client {
    is_legacy: bool,
}

/// The id in the reply to an element lookup: the string under the dialect's element
/// key. Any other reply is not of the protocol, and is handed back as it came.
pub open spec fn spec_parse_lookup(res: JsonValue, legacy: bool) -> Result<Seq<char>, Failure> {
    match res {
        JsonValue::Object(members) => match lookup(members, element_key(legacy)) {
            Some(JsonValue::String(id)) => Ok(id),
            _ => Err(Failure::NotW3C(res)),
        },
        _ => Err(Failure::NotW3C(res)),
    }
}

/// The ids in the reply to a lookup of many elements: those of the array's items, in
/// order. Where an item is no element, the failure is that of the first such item.
pub open spec fn spec_parse_lookup_all(res: JsonValue, legacy: bool) -> Result<
    Seq<Seq<char>>,
    Failure,
> {
    match res {
        JsonValue::Array(items) => collect(
            items,
            |item: JsonValue| spec_parse_lookup(item, legacy),
        ),
        _ => Err(Failure::NotW3C(res)),
    }
}

/// The text of a reply that must be a string.
pub open spec fn spec_text(res: JsonValue) -> Result<Seq<char>, Failure> {
    match res {
        JsonValue::String(s) => Ok(s),
        _ => Err(Failure::NotW3C(res)),
    }
}

/// The window handles in the reply to `Windows`: the strings of the array, in order.
/// Where an item is no string, the failure holds the first such item.
pub open spec fn spec_windows(res: JsonValue) -> Result<Seq<Seq<char>>, Failure> {
    match res {
        JsonValue::Array(items) => collect(items, |item: JsonValue| spec_text(item)),
        _ => Err(Failure::NotW3C(res)),
    }
}

/// What a control command's reply says of a text that may be unset: the string, or
/// nothing for `null`. Any other reply is handed back as it came.
pub open spec fn spec_optional_text(res: JsonValue) -> Result<Option<Seq<char>>, Failure> {
    match res {
        JsonValue::String(s) => Ok(Some(s)),
        JsonValue::Null => Ok(None),
        _ => Err(Failure::NotW3C(res)),
    }
}

/// The handle and the kind of the new window in the reply to `NewWindow`: the strings
/// `handle` and `type` of the object. A reply that lacks one of them is handed back as
/// it came.
pub open spec fn spec_new_window(res: JsonValue) -> Result<(Seq<char>, Seq<char>), Failure> {
    match (res.text_at("handle"@), res.text_at("type"@)) {
        (Some(handle), Some(typ)) => Ok((handle, typ)),
        _ => Err(Failure::NotW3C(res)),
    }
}

/// The window's place and size in the reply to `GetRect`: the numbers `x`, `y`, `width`
/// and `height` of the object, each an integer from 0 to `u64::MAX`. A reply that lacks
/// one of them is handed back as it came.
pub open spec fn spec_window_rect(res: JsonValue) -> Result<(u64, u64, u64, u64), Failure> {
    match (res.u64_at("x"@), res.u64_at("y"@), res.u64_at("width"@), res.u64_at("height"@)) {
        (Some(x), Some(y), Some(width), Some(height)) => Ok((x, y, width, height)),
        _ => Err(Failure::NotW3C(res)),
    }
}

/// The browser's URL in the reply to `GetUrl`: the reply's string, parsed; an empty
/// string stands for `about:blank`.
pub open spec fn spec_current_url(res: JsonValue) -> Result<Seq<char>, Failure> {
    match res {
        JsonValue::String(s) => if s.len() == 0 {
            spec_parse("about:blank"@)
        } else {
            spec_parse(s)
        },
        _ => Err(Failure::NotW3C(res)),
    }
}

/// The command that navigates to `url`, which is resolved against the browser's URL as
/// the answer to `GetUrl` gives it. Where `GetUrl` fails, its failure is the outcome and
/// nothing is sent.
pub open spec fn spec_goto(current: Result<JsonValue, Failure>, url: Seq<char>) -> Result<
    CommandView,
    Failure,
> {
    match current {
        Err(e) => Err(e),
        Ok(res) => match spec_current_url(res) {
            Err(e) => Err(e),
            Ok(base) => match spec_join(base, url) {
                Err(e) => Err(e),
                Ok(resolved) => Ok(CommandView::Goto(resolved)),
            },
        },
    }
}

/// What a wait for an element makes of one answer to `Find`: the element, or the
/// failure, or nothing where the server said `no such element` and `Find` is to be sent
/// again.
pub open spec fn spec_wait_for_find(answer: Result<JsonValue, Failure>, legacy: bool) -> Option<
    Result<Seq<char>, Failure>,
> {
    match answer {
        Ok(res) => Some(spec_parse_lookup(res, legacy)),
        Err(Failure::NoSuchElement(_)) => None,
        Err(e) => Some(Err(e)),
    }
}

/// What a wait makes of one answer to its question: done when the answer is `true`,
/// failed when the question failed, nothing where the question is to be asked again.
pub open spec fn spec_wait_for(ready: Result<bool, Failure>) -> Option<Result<(), Failure>> {
    match ready {
        Ok(true) => Some(Ok(())),
        Ok(false) => None,
        Err(e) => Some(Err(e)),
    }
}

/// Whether the browser has left `current`, as the answer to `GetUrl` tells. Where
/// `GetUrl` fails, its failure is the outcome.
pub open spec fn spec_has_navigated(current: Seq<char>, answer: Result<JsonValue, Failure>) -> Result<
    bool,
    Failure,
> {
    match answer {
        Err(e) => Err(e),
        Ok(res) => match spec_current_url(res) {
            Ok(now) => Ok(now != current),
            Err(e) => Err(e),
        },
    }
}

/// The handles of a list of windows.
pub open spec fn handles(windows: Seq<WebWindow>) -> Seq<Seq<char>> {
    Seq::new(windows.len(), |i: int| windows[i]@)
}

/// The ids of a list of elements.
pub open spec fn ids(elements: Seq<WebElement>) -> Seq<Seq<char>> {
    Seq::new(elements.len(), |i: int| elements[i]@)
}

impl Client {
    /// A handle on a session of the given dialect.
    pub fn for_dialect(is_legacy: bool) -> (client: Client)
        ensures
            client.legacy() == is_legacy,
    {
        Client { is_legacy }
    }

    /// Whether the session speaks the legacy dialect.
    pub closed spec fn legacy(&self) -> bool {
        self.is_legacy
    }

    /// Whether the session speaks the legacy dialect.
    pub fn is_legacy(&self) -> (legacy: bool)
        ensures
            legacy == self.legacy(),
    {
        self.is_legacy
    }

    /// The command that sets the `User-Agent` of later raw requests.
    pub fn set_ua(&self, ua: String) -> (command: Command)
        ensures
            command@ == CommandView::SetUa(ua@),
    {
        Command::SetUa(ua)
    }

    /// The command that ends the session. Every handle's later commands fail.
    pub fn close(&self) -> (command: Command)
        ensures
            command@ == CommandView::Shutdown,
    {
        Command::Shutdown
    }

    /// The command that lets the session outlive its handles.
    pub fn persist(&self) -> (command: Command)
        ensures
            command@ == CommandView::Persist,
    {
        Command::Persist
    }

    /// The command that goes back to the page before.
    pub fn back(&self) -> (command: Command)
        ensures
            command@ == CommandView::Back,
    {
        Command::Back
    }

    /// The command that loads the page again.
    pub fn refresh(&self) -> (command: Command)
        ensures
            command@ == CommandView::Refresh,
    {
        Command::Refresh
    }

    /// The command that closes the window.
    pub fn close_window(&self) -> (command: Command)
        ensures
            command@ == CommandView::CloseWindow,
    {
        Command::CloseWindow
    }

    /// The command that makes `window` the one that later commands act on.
    pub fn switch_to_window(&self, window: WebWindow) -> (command: Command)
        ensures
            command@ == CommandView::SwitchToWindow(window@),
    {
        Command::SwitchToWindow(window)
    }

    /// The command that enters the frame at `index`, or the top of the page for
    /// `None`, with the handle to go on with: the same handle.
    pub fn enter_frame(self, index: Option<u16>) -> (next: (Client, Command))
        ensures
            next.0 == self,
            next.1@ == (CommandView::EnterFrame { index }),
    {
        (self, Command::EnterFrame { index })
    }

    /// The command that enters the frame around the one the session is in, with the
    /// handle to go on with: the same handle.
    pub fn enter_parent_frame(self) -> (next: (Client, Command))
        ensures
            next.0 == self,
            next.1@ == CommandView::EnterParentFrame,
    {
        (self, Command::EnterParentFrame)
    }

    /// Reads the element out of the reply to `Find` or `ActiveElement`.
    pub fn parse_lookup(&self, res: Json) -> (found: Result<WebElement, CmdError>)
        ensures
            match found {
                Ok(e) => spec_parse_lookup(res@, self.legacy()) == Ok::<Seq<char>, Failure>(e@),
                Err(e) => spec_parse_lookup(res@, self.legacy()) == Err::<Seq<char>, Failure>(e@),
            },
    {
        let key = if self.is_legacy {
            LEGACY_ELEMENT_KEY
        } else {
            w3c_element_key()
        };
        match res {
            Json::Object(mut members) => {
                proof {
                    lemma_object_view(members);
                }
                let ghost before = members_view(members@);
                match position(&members, key) {
                    Some(i) => {
                        proof {
                            lemma_first(before, key@, i as int);
                        }
                        let (name, value) = members.remove(i);
                        match value {
                            Json::String(id) => Ok(WebElement(id)),
                            other => {
                                members.insert(i, (name, other));
                                proof {
                                    assert(members_view(members@) =~= before);
                                    lemma_object_view(members);
                                }
                                Err(CmdError::NotW3C(Json::Object(members)))
                            },
                        }
                    },
                    None => {
                        proof {
                            lemma_absent(before, key@);
                        }
                        Err(CmdError::NotW3C(Json::Object(members)))
                    },
                }
            },
            other => Err(CmdError::NotW3C(other)),
        }
    }

    /// Reads the elements out of the reply to `FindAll`.
    pub fn parse_lookup_all(&self, res: Json) -> (found: Result<Vec<WebElement>, CmdError>)
        ensures
            match found {
                Ok(v) => spec_parse_lookup_all(res@, self.legacy()) == Ok::<
                    Seq<Seq<char>>,
                    Failure,
                >(ids(v@)),
                Err(e) => spec_parse_lookup_all(res@, self.legacy()) == Err::<
                    Seq<Seq<char>>,
                    Failure,
                >(e@),
            },
    {
        match res {
            Json::Array(items) => {
                proof {
                    lemma_array_view(items);
                }
                let ghost all = items_view(items@);
                let ghost read = |item: JsonValue| spec_parse_lookup(item, self.legacy());
                let mut found: Vec<WebElement> = Vec::new();
                assert(all.take(0) =~= Seq::<JsonValue>::empty());
                assert(ids(found@) =~= Seq::<Seq<char>>::empty());
                for item in it: items
                    invariant
                        res@ == JsonValue::Array(all),
                        all == items_view(items@),
                        read == |item: JsonValue| spec_parse_lookup(item, self.legacy()),
                        collect(all.take(it.index() as int), read) == Ok::<Seq<Seq<char>>, Failure>(
                            ids(found@),
                        ),
                {
                    let ghost n = it.index() as int;
                    proof {
                        lemma_collect_step(all, read, n);
                    }
                    let ghost done = ids(found@);
                    match self.parse_lookup(item) {
                        Ok(e) => {
                            found.push(e);
                            assert(ids(found@) =~= done.push(e@));
                        },
                        Err(e) => {
                            proof {
                                lemma_collect_prefix_fails(all, read, n + 1);
                            }
                            return Err(e);
                        },
                    }
                }
                assert(all.take(all.len() as int) =~= all);
                Ok(found)
            },
            other => Err(CmdError::NotW3C(other)),
        }
    }

    /// Rewrites the script arguments for the session's dialect: for a legacy session,
    /// every object of every argument, at any depth, that carries an element's id under
    /// the W3C key carries it under the legacy key afterwards. A W3C session's arguments
    /// stay as they are.
    pub fn fixup_elements(&self, args: &mut Vec<Json>)
        ensures
            final(args)@.len() == old(args)@.len(),
            items_view(final(args)@) == spec_fixup_all(items_view(old(args)@), self.legacy()),
    {
        let ghost before = items_view(args@);
        if self.is_legacy {
            let mut rest: Vec<Json> = Vec::new();
            core::mem::swap(args, &mut rest);
            assert(items_view(args@) =~= spec_fixup_all(before, true).take(0));
            for arg in it: rest
                invariant
                    before == items_view(rest@),
                    args@.len() == it.index(),
                    items_view(args@) == spec_fixup_all(before, true).take(it.index() as int),
            {
                let ghost n = it.index() as int;
                let ghost done = items_view(args@);
                let fixed = rename(arg, w3c_element_key(), LEGACY_ELEMENT_KEY);
                args.push(fixed);
                assert(items_view(args@) =~= done.push(fixed@));
                assert(done.push(fixed@) =~= spec_fixup_all(before, true).take(n + 1));
            }
            assert(spec_fixup_all(before, true).take(before.len() as int) =~= spec_fixup_all(
                before,
                true,
            ));
        } else {
            assert forall|i: int| 0 <= i < before.len() implies spec_fixup(before[i], false)
                == before[i] by {}
            assert(before =~= spec_fixup_all(before, false));
        }
    }

    /// Reads the window handle out of the reply to `GetWindow`.
    pub fn window(&self, res: Json) -> (handle: Result<WebWindow, CmdError>)
        ensures
            match handle {
                Ok(w) => spec_text(res@) == Ok::<Seq<char>, Failure>(w@),
                Err(e) => spec_text(res@) == Err::<Seq<char>, Failure>(e@),
            },
    {
        match res {
            Json::String(x) => Ok(WebWindow(x)),
            v => Err(CmdError::NotW3C(v)),
        }
    }

    /// Reads the window handles out of the reply to `Windows`.
    pub fn windows(&self, res: Json) -> (all: Result<Vec<WebWindow>, CmdError>)
        ensures
            match all {
                Ok(v) => spec_windows(res@) == Ok::<Seq<Seq<char>>, Failure>(handles(v@)),
                Err(e) => spec_windows(res@) == Err::<Seq<Seq<char>>, Failure>(e@),
            },
    {
        match res {
            Json::Array(items) => {
                proof {
                    lemma_array_view(items);
                }
                let ghost all = items_view(items@);
                let ghost read = |item: JsonValue| spec_text(item);
                let mut found: Vec<WebWindow> = Vec::new();
                assert(all.take(0) =~= Seq::<JsonValue>::empty());
                assert(handles(found@) =~= Seq::<Seq<char>>::empty());
                for item in it: items
                    invariant
                        res@ == JsonValue::Array(all),
                        all == items_view(items@),
                        read == |item: JsonValue| spec_text(item),
                        collect(all.take(it.index() as int), read) == Ok::<Seq<Seq<char>>, Failure>(
                            handles(found@),
                        ),
                {
                    let ghost n = it.index() as int;
                    proof {
                        lemma_collect_step(all, read, n);
                    }
                    let ghost done = handles(found@);
                    match self.window(item) {
                        Ok(w) => {
                            found.push(w);
                            assert(handles(found@) =~= done.push(w@));
                        },
                        Err(e) => {
                            proof {
                                lemma_collect_prefix_fails(all, read, n + 1);
                            }
                            return Err(e);
                        },
                    }
                }
                assert(all.take(all.len() as int) =~= all);
                Ok(found)
            },
            v => Err(CmdError::NotW3C(v)),
        }
    }

    /// Reads the page source out of the reply to `Source`.
    pub fn source(&self, res: Json) -> (text: Result<String, CmdError>)
        ensures
            match text {
                Ok(s) => spec_text(res@) == Ok::<Seq<char>, Failure>(s@),
                Err(e) => spec_text(res@) == Err::<Seq<char>, Failure>(e@),
            },
    {
        match res {
            Json::String(s) => Ok(s),
            v => Err(CmdError::NotW3C(v)),
        }
    }

    /// Reads the session's id out of the reply to `GetSessionId`: the id, or nothing
    /// where the session has none.
    pub fn session_id(&self, res: Json) -> (id: Result<Option<String>, CmdError>)
        ensures
            match id {
                Ok(id) => spec_optional_text(res@) == Ok::<Option<Seq<char>>, Failure>(text_of(id)),
                Err(e) => spec_optional_text(res@) == Err::<Option<Seq<char>>, Failure>(e@),
            },
    {
        optional_text(res)
    }

    /// Reads the `User-Agent` out of the reply to `GetUa`: the text that was set, or
    /// nothing where none was.
    pub fn get_ua(&self, res: Json) -> (ua: Result<Option<String>, CmdError>)
        ensures
            match ua {
                Ok(ua) => spec_optional_text(res@) == Ok::<Option<Seq<char>>, Failure>(text_of(ua)),
                Err(e) => spec_optional_text(res@) == Err::<Option<Seq<char>>, Failure>(e@),
            },
    {
        optional_text(res)
    }

    /// Reads the new window out of the reply to `NewWindow`.
    pub fn new_window(&self, res: Json) -> (opened: Result<NewWindowResponse, CmdError>)
        ensures
            match opened {
                Ok(w) => spec_new_window(res@) == Ok::<(Seq<char>, Seq<char>), Failure>(
                    (w.handle@, w.typ@),
                ),
                Err(e) => spec_new_window(res@) == Err::<(Seq<char>, Seq<char>), Failure>(e@),
            },
    {
        match (res.text_at("handle"), res.text_at("type")) {
            (Some(handle), Some(typ)) => Ok(NewWindowResponse { handle, typ }),
            _ => Err(CmdError::NotW3C(res)),
        }
    }

    /// Reads the window's place and size out of the reply to `GetRect`: x, y, width,
    /// height.
    pub fn get_window_rect(&self, res: Json) -> (rect: Result<(u64, u64, u64, u64), CmdError>)
        ensures
            match rect {
                Ok(r) => spec_window_rect(res@) == Ok::<(u64, u64, u64, u64), Failure>(r),
                Err(e) => spec_window_rect(res@) == Err::<(u64, u64, u64, u64), Failure>(e@),
            },
    {
        match (res.u64_at("x"), res.u64_at("y"), res.u64_at("width"), res.u64_at("height")) {
            (Some(x), Some(y), Some(width), Some(height)) => Ok((x, y, width, height)),
            _ => Err(CmdError::NotW3C(res)),
        }
    }

    /// Reads the window's size out of the reply to `GetRect`: width, height.
    pub fn get_window_size(&self, res: Json) -> (size: Result<(u64, u64), CmdError>)
        ensures
            match size {
                Ok(s) => spec_window_rect(res@) matches Ok(r) && s == (r.2, r.3),
                Err(e) => spec_window_rect(res@) == Err::<(u64, u64, u64, u64), Failure>(e@),
            },
    {
        match self.get_window_rect(res) {
            Ok((_, _, width, height)) => Ok((width, height)),
            Err(e) => Err(e),
        }
    }

    /// Reads the window's place out of the reply to `GetRect`: x, y of its top left
    /// corner.
    pub fn get_window_position(&self, res: Json) -> (place: Result<(u64, u64), CmdError>)
        ensures
            match place {
                Ok(p) => spec_window_rect(res@) matches Ok(r) && p == (r.0, r.1),
                Err(e) => spec_window_rect(res@) == Err::<(u64, u64, u64, u64), Failure>(e@),
            },
    {
        match self.get_window_rect(res) {
            Ok((x, y, _, _)) => Ok((x, y)),
            Err(e) => Err(e),
        }
    }

    /// The command that moves and resizes the window. Each number goes out as the
    /// `i32` with the same low 32 bits.
    pub fn set_window_rect(&self, x: u32, y: u32, width: u32, height: u32) -> (command: Command)
        ensures
            command@ == (CommandView::SetRect {
                x: Some(x as i32),
                y: Some(y as i32),
                width: Some(width as i32),
                height: Some(height as i32),
            }),
    {
        Command::SetRect {
            x: Some(x as i32),
            y: Some(y as i32),
            width: Some(width as i32),
            height: Some(height as i32),
        }
    }

    /// The command that resizes the window. It names no place: the server is sent
    /// `null` for x and y.
    pub fn set_window_size(&self, width: u32, height: u32) -> (command: Command)
        ensures
            command@ == (CommandView::SetRect {
                x: None,
                y: None,
                width: Some(width as i32),
                height: Some(height as i32),
            }),
    {
        Command::SetRect { x: None, y: None, width: Some(width as i32), height: Some(height as i32) }
    }

    /// The command that moves the window. It names no size: the server is sent `null`
    /// for width and height.
    pub fn set_window_position(&self, x: u32, y: u32) -> (command: Command)
        ensures
            command@ == (CommandView::SetRect {
                x: Some(x as i32),
                y: Some(y as i32),
                width: None,
                height: None,
            }),
    {
        Command::SetRect { x: Some(x as i32), y: Some(y as i32), width: None, height: None }
    }

    /// Reads the browser's URL out of the reply to `GetUrl`.
    pub fn current_url(&self, res: Json) -> (url: Result<Url, CmdError>)
        ensures
            match url {
                Ok(u) => spec_current_url(res@) == Ok::<Seq<char>, Failure>(u@),
                Err(e) => spec_current_url(res@) == Err::<Seq<char>, Failure>(e@),
            },
    {
        read_current_url(res)
    }

    /// The command that navigates to `url`. `current` is the answer to `GetUrl`: `url`
    /// is resolved against the browser's URL.
    pub fn goto(&self, current: Result<Json, CmdError>, url: &str) -> (command: Result<
        Command,
        CmdError,
    >)
        ensures
            match command {
                Ok(c) => spec_goto(reply_view(current), url@) == Ok::<CommandView, Failure>(c@),
                Err(e) => spec_goto(reply_view(current), url@) == Err::<CommandView, Failure>(e@),
            },
    {
        let res = match current {
            Ok(res) => res,
            Err(e) => {
                return Err(e);
            },
        };
        let base = match self.current_url(res) {
            Ok(base) => base,
            Err(e) => {
                return Err(e);
            },
        };
        match base.join(url) {
            Ok(resolved) => Ok(Command::Goto(resolved.into_string())),
            Err(e) => Err(e),
        }
    }

    /// Reads the element out of the reply to `Find`.
    pub fn find(&self, res: Json) -> (found: Result<Element, CmdError>)
        ensures
            match found {
                Ok(e) => e.client == *self && spec_parse_lookup(res@, self.legacy()) == Ok::<
                    Seq<char>,
                    Failure,
                >(e.element@),
                Err(e) => spec_parse_lookup(res@, self.legacy()) == Err::<Seq<char>, Failure>(e@),
            },
    {
        self.found(res)
    }

    /// Reads the elements out of the reply to `FindAll`.
    pub fn find_all(&self, res: Json) -> (found: Result<Vec<Element>, CmdError>)
        ensures
            match found {
                Ok(v) => spec_parse_lookup_all(res@, self.legacy()) == Ok::<
                    Seq<Seq<char>>,
                    Failure,
                >(element_ids(v@)) && forall|i: int|
                    0 <= i < v@.len() ==> (#[trigger] v@[i]).client == *self,
                Err(e) => spec_parse_lookup_all(res@, self.legacy()) == Err::<
                    Seq<Seq<char>>,
                    Failure,
                >(e@),
            },
    {
        let array = match self.parse_lookup_all(res) {
            Ok(array) => array,
            Err(e) => {
                return Err(e);
            },
        };
        let ghost all = ids(array@);
        let mut found: Vec<Element> = Vec::new();
        assert(element_ids(found@) =~= all.take(0));
        for element in it: array
            invariant
                all == ids(array@),
                element_ids(found@) == all.take(it.index() as int),
                forall|i: int| 0 <= i < found@.len() ==> (#[trigger] found@[i]).client == *self,
        {
            let ghost done = element_ids(found@);
            let ghost id = element@;
            found.push(Element { client: *self, element });
            assert(element_ids(found@) =~= done.push(id));
            assert(done.push(id) =~= all.take(it.index() as int + 1));
        }
        assert(all.take(all.len() as int) =~= all);
        Ok(found)
    }

    /// Reads the element that has the focus out of the reply to `ActiveElement`.
    pub fn active_element(&self, res: Json) -> (found: Result<Element, CmdError>)
        ensures
            match found {
                Ok(e) => e.client == *self && spec_parse_lookup(res@, self.legacy()) == Ok::<
                    Seq<char>,
                    Failure,
                >(e.element@),
                Err(e) => spec_parse_lookup(res@, self.legacy()) == Err::<Seq<char>, Failure>(e@),
            },
    {
        self.found(res)
    }

    /// Reads the form out of the reply to a `Find` that looked for one.
    pub fn form(&self, res: Json) -> (found: Result<Form, CmdError>)
        ensures
            match found {
                Ok(f) => f.client == *self && spec_parse_lookup(res@, self.legacy()) == Ok::<
                    Seq<char>,
                    Failure,
                >(f.form@),
                Err(e) => spec_parse_lookup(res@, self.legacy()) == Err::<Seq<char>, Failure>(e@),
            },
    {
        match self.parse_lookup(res) {
            Ok(form) => Ok(Form { client: *self, form }),
            Err(e) => Err(e),
        }
    }

    /// Reads the element out of the reply to a lookup, and joins it to this handle.
    fn found(&self, res: Json) -> (found: Result<Element, CmdError>)
        ensures
            match found {
                Ok(e) => e.client == *self && spec_parse_lookup(res@, self.legacy()) == Ok::<
                    Seq<char>,
                    Failure,
                >(e.element@),
                Err(e) => spec_parse_lookup(res@, self.legacy()) == Err::<Seq<char>, Failure>(e@),
            },
    {
        match self.parse_lookup(res) {
            Ok(element) => Ok(Element { client: *self, element }),
            Err(e) => Err(e),
        }
    }

    /// The command that runs `script` with `args`, which are rewritten for the
    /// session's dialect first. What the script gives is read by `script_result`.
    pub fn execute(&self, script: &str, args: Vec<Json>) -> (command: Command)
        ensures
            command@ == (CommandView::Execute {
                script: script@,
                args: spec_fixup_all(items_view(args@), self.legacy()),
            }),
    {
        let mut args = args;
        self.fixup_elements(&mut args);
        Command::Execute { script: script.to_owned(), args }
    }

    /// The command that runs `script` with `args` and waits for its callback; the
    /// arguments are rewritten for the session's dialect first. What the script gives
    /// is read by `script_result`.
    pub fn execute_async(&self, script: &str, args: Vec<Json>) -> (command: Command)
        ensures
            command@ == (CommandView::ExecuteAsync {
                script: script@,
                args: spec_fixup_all(items_view(args@), self.legacy()),
            }),
    {
        let mut args = args;
        self.fixup_elements(&mut args);
        Command::ExecuteAsync { script: script.to_owned(), args }
    }

    /// Brings the reply to `Execute` or `ExecuteAsync` into the form that callers get:
    /// from a legacy session, every object of the result, at any depth, that carries an
    /// element's id under the legacy key carries it under the W3C key afterwards. A W3C
    /// session's result stays as it is.
    pub fn script_result(&self, res: Json) -> (result: Json)
        ensures
            result@ == spec_canonical(res@, self.legacy()),
    {
        if self.is_legacy {
            rename(res, LEGACY_ELEMENT_KEY, w3c_element_key())
        } else {
            res
        }
    }

    /// Reads the image out of the reply to `Screenshot`.
    pub fn screenshot(&self, res: Json) -> (image: Result<Vec<u8>, CmdError>)
        ensures
            match image {
                Ok(bytes) => spec_image(res@, base64_decoded(image_text(res@))) == Ok::<
                    Seq<u8>,
                    Failure,
                >(bytes@),
                Err(e) => spec_image(res@, base64_decoded(image_text(res@))) == Err::<
                    Seq<u8>,
                    Failure,
                >(e@),
            },
    {
        decode_image(res)
    }

    /// Reads the image out of the reply to `ElementScreenshot`.
    pub fn screenshot_element(&self, res: Json) -> (image: Result<Vec<u8>, CmdError>)
        ensures
            match image {
                Ok(bytes) => spec_image(res@, base64_decoded(image_text(res@))) == Ok::<
                    Seq<u8>,
                    Failure,
                >(bytes@),
                Err(e) => spec_image(res@, base64_decoded(image_text(res@))) == Err::<
                    Seq<u8>,
                    Failure,
                >(e@),
            },
    {
        decode_image(res)
    }

    /// One round of a wait: `ready` is the answer to the caller's question. The wait is
    /// over with `Some`; with `None` the question is asked again.
    pub fn wait_for(&self, ready: Result<bool, CmdError>) -> (over: Option<Result<(), CmdError>>)
        ensures
            match over {
                None => spec_wait_for(outcome_view(ready)) is None,
                Some(Ok(())) => spec_wait_for(outcome_view(ready)) == Some(Ok::<(), Failure>(())),
                Some(Err(e)) => spec_wait_for(outcome_view(ready)) == Some(Err::<(), Failure>(e@)),
            },
    {
        match ready {
            Ok(true) => Some(Ok(())),
            Ok(false) => None,
            Err(e) => Some(Err(e)),
        }
    }

    /// One round of a wait for an element: `answer` is the answer to `Find`. The wait
    /// is over with `Some`; with `None` the same `Find` is sent again.
    pub fn wait_for_find(&self, answer: Result<Json, CmdError>) -> (over: Option<
        Result<Element, CmdError>,
    >)
        ensures
            match over {
                None => spec_wait_for_find(reply_view(answer), self.legacy()) is None,
                Some(Ok(e)) => e.client == *self && spec_wait_for_find(
                    reply_view(answer),
                    self.legacy(),
                ) == Some(Ok::<Seq<char>, Failure>(e.element@)),
                Some(Err(e)) => spec_wait_for_find(reply_view(answer), self.legacy()) == Some(
                    Err::<Seq<char>, Failure>(e@),
                ),
            },
    {
        match answer {
            Ok(res) => Some(self.found(res)),
            Err(CmdError::NoSuchElement(_)) => None,
            Err(e) => Some(Err(e)),
        }
    }

    /// One round of a wait for the browser to leave `current`, the serialization of the
    /// URL it was on: `answer` is the answer to `GetUrl`. The wait is over with `Some`;
    /// with `None` `GetUrl` is sent again.
    pub fn wait_for_navigation(&self, current: &str, answer: Result<Json, CmdError>) -> (over:
        Option<Result<(), CmdError>>)
        ensures
            match over {
                None => spec_wait_for(spec_has_navigated(current@, reply_view(answer))) is None,
                Some(Ok(())) => spec_wait_for(spec_has_navigated(current@, reply_view(answer)))
                    == Some(Ok::<(), Failure>(())),
                Some(Err(e)) => spec_wait_for(spec_has_navigated(current@, reply_view(answer)))
                    == Some(Err::<(), Failure>(e@)),
            },
    {
        let moved = match answer {
            Ok(res) => match self.current_url(res) {
                Ok(now) => Ok(!now.is_text(current)),
                Err(e) => Err(e),
            },
            Err(e) => Err(e),
        };
        self.wait_for(moved)
    }
}

/// A browser that tells no URL is taken to be on `about:blank`: that is what its URL
/// reads as, and what a URL to go to is resolved against.
pub proof fn lemma_empty_url_is_blank(url: Seq<char>)
    ensures
        spec_current_url(JsonValue::String(Seq::empty())) == spec_parse("about:blank"@),
        spec_goto(Ok(JsonValue::String(Seq::empty())), url) == match spec_parse("about:blank"@) {
            Err(e) => Err(e),
            Ok(base) => match spec_join(base, url) {
                Err(e) => Err(e),
                Ok(resolved) => Ok(CommandView::Goto(resolved)),
            },
        },
{
}

/// The view of the answer to a wait's question.
pub open spec fn outcome_view(ready: Result<bool, CmdError>) -> Result<bool, Failure> {
    match ready {
        Ok(b) => Ok(b),
        Err(e) => Err(e@),
    }
}

/// The ids of a list of elements.
pub open spec fn element_ids(elements: Seq<Element>) -> Seq<Seq<char>> {
    Seq::new(elements.len(), |i: int| elements[i].element@)
}

/// Reads the browser's URL out of the reply to `GetUrl`.
pub fn read_current_url(res: Json) -> (url: Result<Url, CmdError>)
    ensures
        match url {
            Ok(u) => spec_current_url(res@) == Ok::<Seq<char>, Failure>(u@),
            Err(e) => spec_current_url(res@) == Err::<Seq<char>, Failure>(e@),
        },
{
    match res {
        Json::String(s) => {
            if s.as_str().is_empty() {
                Url::parse("about:blank")
            } else {
                Url::parse(s.as_str())
            }
        },
        v => Err(CmdError::NotW3C(v)),
    }
}

/// Reads a text that may be unset out of a control command's reply.
pub fn optional_text(res: Json) -> (text: Result<Option<String>, CmdError>)
    ensures
        match text {
            Ok(t) => spec_optional_text(res@) == Ok::<Option<Seq<char>>, Failure>(text_of(t)),
            Err(e) => spec_optional_text(res@) == Err::<Option<Seq<char>>, Failure>(e@),
        },
{
    match res {
        Json::String(s) => Ok(Some(s)),
        Json::Null => Ok(None),
        v => Err(CmdError::NotW3C(v)),
    }
}

} // verus!
