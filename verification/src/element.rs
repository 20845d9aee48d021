//! Handles that the server gives out for elements and windows.

use crate::client::Client;
use crate::json::{distinct, lemma_object_view, members_view, Json, JsonValue};
use vstd::prelude::*;

verus! {

/// The member name under which the W3C dialect carries an element's id.
pub open spec fn w3c_key() -> Seq<char> {
    "element-6066-11e4-a52e-4f735466cecf"@
}

/// Reads `webdriver::common::ELEMENT_KEY`. The crate sets it to the name that the W3C
/// standard gives to the member; the contract says which.
#[verifier::external_body]
fn read_element_key() -> (key: &'static str)
    ensures
        key@ == w3c_key(),
{
    webdriver::common::ELEMENT_KEY
}

/// The member name under which the W3C dialect carries an element's id.
pub fn w3c_element_key() -> (key: &'static str)
    ensures
        key@ == w3c_key(),
{
    read_element_key()
}

/// The member name under which the legacy dialect carries an element's id.
pub const LEGACY_ELEMENT_KEY: &'static str = "ELEMENT";

/// The member name that carries an element's id in the given dialect.
pub open spec fn element_key(legacy: bool) -> Seq<char> {
    if legacy {
        LEGACY_ELEMENT_KEY@
    } else {
        w3c_key()
    }
}

/// The id that the server gave to an element of the page.
#[derive(Debug, PartialEq, Eq)]
pub struct WebElement(pub String);

impl View for WebElement {
    type V = Seq<char>;

    open spec fn view(&self) -> Seq<char> {
        self.0@
    }
}

/// The handle that the server gave to a window or tab.
#[derive(Debug, PartialEq, Eq)]
pub struct WebWindow(pub String);

impl View for WebWindow {
    type V = Seq<char>;

    open spec fn view(&self) -> Seq<char> {
        self.0@
    }
}

/// What the server says of a window it has just opened.
#[derive(Debug, PartialEq, Eq)]
pub struct NewWindowResponse {
    pub handle: String,
    pub typ: String,
}

/// An element of the page, with the handle it was found through.
#[derive(Debug, PartialEq, Eq)]
pub struct Element {
    pub client: Client,
    pub element: WebElement,
}

/// A form of the page, with the handle it was found through.
#[derive(Debug, PartialEq, Eq)]
pub struct Form {
    pub client: Client,
    pub form: WebElement,
}

/// The JSON object that stands for the element `id` among a script's arguments.
pub open spec fn element_value(id: Seq<char>) -> JsonValue {
    JsonValue::Object(seq![(w3c_key(), JsonValue::String(id))])
}

/// The object that stands for an element is well-formed.
pub proof fn lemma_element_value_well_formed(id: Seq<char>)
    ensures
        element_value(id).well_formed(),
{
    let members = seq![(w3c_key(), JsonValue::String(id))];
    assert(distinct(members));
    assert(forall|i: int| 0 <= i < members.len() ==> (#[trigger] members[i]).1.well_formed());
}

impl WebElement {
    /// The element as a script argument: an object with the id under the W3C key.
    pub fn to_json(&self) -> (value: Json)
        ensures
            value@ == element_value(self@),
    {
        let mut members: Vec<(String, Json)> = Vec::new();
        members.push((w3c_element_key().to_owned(), Json::String(self.0.clone())));
        proof {
            lemma_object_view(members);
            assert(members_view(members@) =~= seq![
                (w3c_key(), JsonValue::String(self.0@)),
            ]);
        }
        Json::Object(members)
    }
}

} // verus!
