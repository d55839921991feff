//! A capture client for PostHog: events and captured failures are enriched
//! with what is known of the library and the host, wrapped for an account,
//! and laid out as the JSON that goes over the wire. The library decides
//! what is sent; sending is left to a transport.

use vstd::prelude::*;

pub mod client;
pub mod error;
pub mod event;
pub mod json;
pub mod props;
pub mod text;
pub mod trusted;

pub use client::hook::{HookAction, HookEvent, HookState};
pub use client::options::{ClientOptions, ClientOptionsBuilder, ClientOptionsBuilderError};
pub use client::synthetic::SyntheticError;
pub use client::{client, Client, Delivery, Method, Request};
pub use error::Error;
pub use event::envelope::InnerEvent;
pub use event::exception::{Exception, Failure};
pub use event::{Event, EventBase, Properties};
pub use json::{Json, Number};
pub use props::PropertyBag;

verus! {

/// Endpoint that events are posted to unless the options name another.
pub const API_ENDPOINT: &'static str = "https://us.i.posthog.com/capture/";

} // verus!
