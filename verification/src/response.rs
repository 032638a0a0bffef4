//! The success envelope an entry point returns to the host environment: an
//! ordered sequence of string-keyed attributes, a sequence of emitted
//! events, opaque follow-up message payloads for the host to dispatch, and
//! optional opaque return data.

use vstd::prelude::*;

verus! {

/// One string-keyed attribute of a success envelope.
#[derive(Debug, Clone)]
pub struct Attribute {
    pub key: String,
    pub value: String,
}

/// Mathematical image of an [`Attribute`].
pub ghost struct AttributeView {
    pub key: Seq<char>,
    pub value: Seq<char>,
}

impl View for Attribute {
    type V = AttributeView;

    open spec fn view(&self) -> AttributeView {
        AttributeView { key: self.key@, value: self.value@ }
    }
}

/// One emitted event: a label and its own attributes.
#[derive(Debug, Clone)]
pub struct Event {
    pub label: String,
    pub attributes: Vec<Attribute>,
}

/// Mathematical image of an [`Event`].
pub ghost struct EventView {
    pub label: Seq<char>,
    pub attributes: Seq<AttributeView>,
}

impl View for Event {
    type V = EventView;

    open spec fn view(&self) -> EventView {
        EventView {
            label: self.label@,
            attributes: self.attributes@.map_values(|a: Attribute| a@),
        }
    }
}

/// The success envelope. `messages` holds opaque payloads the host should
/// dispatch after the call commits; this skeleton never fills it.
#[derive(Debug)]
pub struct Response {
    pub messages: Vec<Vec<u8>>,
    pub attributes: Vec<Attribute>,
    pub events: Vec<Event>,
    pub data: Option<Vec<u8>>,
}

/// Mathematical image of a [`Response`].
pub ghost struct ResponseView {
    pub messages: Seq<Seq<u8>>,
    pub attributes: Seq<AttributeView>,
    pub events: Seq<EventView>,
    pub data: Option<Seq<u8>>,
}

impl View for Response {
    type V = ResponseView;

    open spec fn view(&self) -> ResponseView {
        ResponseView {
            messages: self.messages@.map_values(|m: Vec<u8>| m@),
            attributes: self.attributes@.map_values(|a: Attribute| a@),
            events: self.events@.map_values(|e: Event| e@),
            data: match self.data {
                Some(d) => Some(d@),
                None => None,
            },
        }
    }
}

impl Response {
    /// An empty envelope: no attributes, no events, no messages, no data.
    pub fn new() -> (r: Response)
        ensures
            r@.messages.len() == 0,
            r@.attributes.len() == 0,
            r@.events.len() == 0,
            r@.data is None,
    {
        Response { messages: Vec::new(), attributes: Vec::new(), events: Vec::new(), data: None }
    }

    /// Appends one attribute, builder-style.
    pub fn add_attribute(self, key: &str, value: &str) -> (r: Response)
        ensures
            r@.attributes == self@.attributes.push(AttributeView { key: key@, value: value@ }),
            r@.messages == self@.messages,
            r@.events == self@.events,
            r@.data == self@.data,
    {
        let mut attributes = self.attributes;
        let ghost prior = attributes@;
        attributes.push(Attribute { key: key.to_owned(), value: value.to_owned() });
        proof {
            assert(attributes@.map_values(|a: Attribute| a@) =~= prior.map_values(
                |a: Attribute| a@,
            ).push(AttributeView { key: key@, value: value@ }));
        }
        Response {
            messages: self.messages,
            attributes,
            events: self.events,
            data: self.data,
        }
    }
}

} // verus!
