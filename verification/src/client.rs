//! The capture client: what is sent, and what the caller is told.

use crate::client::options::{ClientOptions, ClientOptionsView};
use crate::error::Error;
use crate::event::envelope::{envelope, is_wire_of, InnerEvent, InnerEventView};
use crate::event::exception::{as_event, Exception};
use crate::event::{Event, EventView, LIB_VERSION};
use crate::json::{items_view, Json, JsonView};
use crate::trusted::semver_triple;
use vstd::prelude::*;

pub mod hook;
pub mod options;
pub mod synthetic;

verus! {

/// How a request is made. Every capture is a `POST`.
#[derive(Clone, Copy, Debug, PartialEq, Eq, Structural)]
pub enum Method {
    Post,
}

/// A request for the transport to perform: one attempt, bounded by the
/// timeout.
#[derive(Debug, PartialEq, Eq)]
pub struct Request {
    pub method: Method,
    pub url: String,
    pub content_type: String,
    pub timeout_seconds: u64,
    pub body: Json,
}

/// The mathematical value of a [`Request`].
pub struct RequestView {
    pub method: Method,
    pub url: Seq<char>,
    pub content_type: Seq<char>,
    pub timeout_seconds: u64,
    pub body: JsonView,
}

impl View for Request {
    type V = RequestView;

    open spec fn view(&self) -> RequestView {
        RequestView {
            method: self.method,
            url: self.url@,
            content_type: self.content_type@,
            timeout_seconds: self.timeout_seconds,
            body: self.body@,
        }
    }
}

/// The request that carries a body to the endpoint of the options.
pub open spec fn post(options: ClientOptionsView, body: JsonView) -> RequestView {
    RequestView {
        method: Method::Post,
        url: options.api_endpoint,
        content_type: "application/json"@,
        timeout_seconds: options.request_timeout_seconds,
        body,
    }
}

/// The envelope in which a client with the options sends the event.
pub open spec fn sent_as(options: ClientOptionsView, event: EventView) -> InnerEventView {
    envelope(event, options.api_key, semver_triple(LIB_VERSION@))
}

/// What became of a request.
#[derive(Debug, PartialEq, Eq)]
pub enum Delivery {
    /// The transport delivered it.
    Delivered,
    /// The body could not be encoded; the message says why.
    NotEncoded(String),
    /// The transport failed or timed out; the message says why.
    NotSent(String),
}

impl Delivery {
    /// What the caller of a capture is told: success, a serialization error
    /// for a body that could not be encoded, a connection error for a
    /// request that the transport did not deliver.
    pub fn outcome(self) -> (told: Result<(), Error>)
        ensures
            match self {
                Delivery::Delivered => told is Ok,
                Delivery::NotEncoded(message) => match told {
                    Err(Error::Serialization(text)) => text@ == message@,
                    _ => false,
                },
                Delivery::NotSent(message) => match told {
                    Err(Error::Connection(text)) => text@ == message@,
                    _ => false,
                },
            },
    {
        match self {
            Delivery::Delivered => Ok(()),
            Delivery::NotEncoded(message) => Err(Error::Serialization(message)),
            Delivery::NotSent(message) => Err(Error::Connection(message)),
        }
    }
}

/// The capture client: it decides what is sent. Each capture is one
/// request; performing it is left to the transport.
#[derive(Debug, PartialEq, Eq)]
pub struct Client {
    options: ClientOptions,
}

impl View for Client {
    type V = ClientOptionsView;

    closed spec fn view(&self) -> ClientOptionsView {
        self.options@
    }
}

/// A client with the options.
pub fn client(options: ClientOptions) -> (made: Client)
    ensures
        made@ == options@,
{
    Client { options }
}

impl Clone for Client {
    /// Copies the client; the copy has the same options.
    fn clone(&self) -> (copy: Client)
        ensures
            copy@ == self@,
    {
        Client { options: self.options.clone() }
    }
}

impl Client {
    /// The options of the client.
    pub fn options(&self) -> (options: &ClientOptions)
        ensures
            options@ == self@,
    {
        &self.options
    }

    /// The request that posts a body to the client's endpoint.
    fn post(&self, body: Json) -> (request: Request)
        ensures
            request@ == post(self@, body@),
    {
        Request {
            method: Method::Post,
            url: self.options.api_endpoint().clone(),
            content_type: "application/json".to_owned(),
            timeout_seconds: self.options.request_timeout_seconds(),
            body,
        }
    }

    /// The request that captures the event: a `POST` of the enveloped event
    /// to the client's endpoint.
    pub fn capture(&self, event: Event) -> (request: Request)
        ensures
            request@ == post(self@, request@.body),
            is_wire_of(request@.body, sent_as(self@, event@)),
    {
        let inner = InnerEvent::new(event, self.options.api_key().clone());
        self.post(inner.to_json())
    }

    /// The request that captures the events: one `POST` whose body is the
    /// array of the enveloped events, in their order.
    pub fn capture_batch(&self, events: Vec<Event>) -> (request: Request)
        ensures
            request@ == post(self@, request@.body),
            request@.body is Array,
            request@.body->Array_0.len() == events@.len(),
            forall|i: int|
                0 <= i < events@.len() ==> is_wire_of(
                    #[trigger] request@.body->Array_0[i],
                    sent_as(self@, events@[i]@),
                ),
    {
        let mut wires: Vec<Json> = Vec::new();
        for event in taken: events
            invariant
                wires@.len() == taken.index(),
                taken.seq() == events@,
                forall|i: int|
                    0 <= i < wires@.len() ==> is_wire_of(
                        #[trigger] wires@[i]@,
                        sent_as(self@, events@[i]@),
                    ),
        {
            let inner = InnerEvent::new(event, self.options.api_key().clone());
            wires.push(inner.to_json());
        }
        let ghost bodies = items_view(wires@);
        assert forall|i: int| 0 <= i < events@.len() implies is_wire_of(
            #[trigger] bodies[i],
            sent_as(self@, events@[i]@),
        ) by {
            assert(bodies[i] == wires@[i]@);
        }
        self.post(Json::array(wires))
    }

    /// The request that captures the exception: that of the event which
    /// stands for it.
    pub fn capture_exception(&self, exception: Exception) -> (request: Request)
        ensures
            request@ == post(self@, request@.body),
            is_wire_of(request@.body, sent_as(self@, as_event(exception@))),
    {
        let event = exception.to_event();
        self.capture(event)
    }

    /// The request that captures the exceptions: that of the events which
    /// stand for them.
    pub fn capture_exception_batch(&self, exceptions: Vec<Exception>) -> (request: Request)
        ensures
            request@ == post(self@, request@.body),
            request@.body is Array,
            request@.body->Array_0.len() == exceptions@.len(),
            forall|i: int|
                0 <= i < exceptions@.len() ==> is_wire_of(
                    #[trigger] request@.body->Array_0[i],
                    sent_as(self@, as_event(exceptions@[i]@)),
                ),
    {
        let mut events: Vec<Event> = Vec::new();
        for exception in taken: exceptions
            invariant
                events@.len() == taken.index(),
                taken.seq() == exceptions@,
                forall|i: int|
                    0 <= i < events@.len() ==> (#[trigger] events@[i])@ == as_event(
                        exceptions@[i]@,
                    ),
        {
            events.push(exception.to_event());
        }
        self.capture_batch(events)
    }
}

} // verus!
