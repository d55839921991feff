//! Captured failures.

use crate::error::Error;
use crate::event::{
    fresh_properties, Event, EventBase, EventView, Properties, PropertiesView,
};
use crate::json::{items_view, members_view, Json, JsonView};
use crate::text::{
    is_delimiter, leading_token, lemma_token_before_delimiter, trimmed, type_token, white_space,
};
use crate::trusted::{debug_quote, debug_quoted};
use chrono::NaiveDateTime;
use vstd::prelude::*;

verus! {

/// How a failure prints: with `{:?}` and with `{}`.
#[derive(Debug, PartialEq, Eq)]
pub struct Failure {
    pub debug: String,
    pub display: String,
}

/// The type name read off a debug output, given the display output in
/// quotes. A debug output that is the display output in quotes is a bare
/// message and has the type `Error`; any other has its leading token: what
/// stands before the first white space, `(` or `{`.
pub open spec fn type_from_debug(debug: Seq<char>, quoted_display: Seq<char>) -> Seq<char> {
    if debug == quoted_display {
        "Error"@
    } else {
        trimmed(leading_token(debug))
    }
}

/// The type name read off a failure.
pub open spec fn exception_type(debug: Seq<char>, display: Seq<char>) -> Seq<char> {
    type_from_debug(debug, debug_quoted(display))
}

/// How a captured failure came about: it was handled, and it is a real one.
pub open spec fn mechanism() -> JsonView {
    JsonView::Object(
        seq![("handled"@, JsonView::Bool(true)), ("synthetic"@, JsonView::Bool(false))],
    )
}

/// The descriptor of a failure.
pub open spec fn exception_descriptor(debug: Seq<char>, display: Seq<char>) -> JsonView {
    JsonView::Object(
        seq![
            ("type"@, JsonView::String(exception_type(debug, display))),
            ("value"@, JsonView::String(display)),
            ("mechanism"@, mechanism()),
        ],
    )
}

/// The exception list of a failure: its descriptor and nothing else.
pub open spec fn exception_list(debug: Seq<char>, display: Seq<char>) -> JsonView {
    JsonView::Array(seq![exception_descriptor(debug, display)])
}

/// The properties of an exception made from a failure on a host with the
/// given operating system.
pub open spec fn exception_properties(
    debug: Seq<char>,
    display: Seq<char>,
    distinct_id: Seq<char>,
    os: Seq<char>,
    os_version: Seq<char>,
) -> PropertiesView {
    PropertiesView {
        exception_level: Some("error"@),
        exception_list: Some(exception_list(debug, display)),
        ..fresh_properties(distinct_id, os, os_version)
    }
}

/// An exception as the event that stands for it.
pub open spec fn as_event(exception: ExceptionView) -> EventView {
    EventView {
        event: "$exception"@,
        properties: exception.properties,
        timestamp: exception.timestamp,
    }
}

/// A captured failure.
#[derive(Debug, PartialEq, Eq)]
pub struct Exception {
    properties: Properties,
    timestamp: Option<NaiveDateTime>,
}

/// The mathematical value of an [`Exception`].
pub struct ExceptionView {
    pub properties: PropertiesView,
    pub timestamp: Option<NaiveDateTime>,
}

impl View for Exception {
    type V = ExceptionView;

    closed spec fn view(&self) -> ExceptionView {
        ExceptionView { properties: self.properties@, timestamp: self.timestamp }
    }
}

impl Exception {
    /// An exception for the distinct id from a failure: of level `error`,
    /// with the failure's descriptor as its exception list, without user
    /// properties and without a timestamp.
    pub fn new(failure: &Failure, distinct_id: &str) -> (made: Exception)
        ensures
            made@ == (ExceptionView {
                properties: exception_properties(
                    failure.debug@,
                    failure.display@,
                    distinct_id@,
                    made@.properties.os,
                    made@.properties.os_version,
                ),
                timestamp: None,
            }),
    {
        let bare = Exception { properties: Properties::new(distinct_id), timestamp: None };
        bare.with_exception_level(Some("error".to_owned())).set_exception_list(failure)
    }

    /// The exception with its level replaced, or taken away.
    pub fn with_exception_level(self, exception_level: Option<String>) -> (changed: Exception)
        ensures
            changed@ == (ExceptionView {
                properties: PropertiesView {
                    exception_level: exception_level.deep_view(),
                    ..self@.properties
                },
                ..self@
            }),
    {
        let mut changed = self;
        changed.properties.exception_level = exception_level;
        changed
    }

    /// The exception with the descriptor of the failure as its exception list.
    pub fn set_exception_list(self, failure: &Failure) -> (changed: Exception)
        ensures
            changed@ == (ExceptionView {
                properties: PropertiesView {
                    exception_list: Some(exception_list(failure.debug@, failure.display@)),
                    ..self@.properties
                },
                ..self@
            }),
    {
        let mut mechanism: Vec<(String, Json)> = Vec::new();
        mechanism.push(("handled".to_owned(), Json::Bool(true)));
        mechanism.push(("synthetic".to_owned(), Json::Bool(false)));
        assert(members_view(mechanism@) =~= self::mechanism()->Object_0);
        let mut descriptor: Vec<(String, Json)> = Vec::new();
        let name = Exception::parse_exception_type(failure);
        descriptor.push(("type".to_owned(), Json::String(name)));
        descriptor.push(("value".to_owned(), Json::String(failure.display.clone())));
        descriptor.push(("mechanism".to_owned(), Json::object(mechanism)));
        assert(members_view(descriptor@) =~= exception_descriptor(
            failure.debug@,
            failure.display@,
        )->Object_0);
        let mut list: Vec<Json> = Vec::new();
        list.push(Json::object(descriptor));
        assert(items_view(list@) =~= exception_list(failure.debug@, failure.display@)->Array_0);
        let mut changed = self;
        changed.properties.exception_list = Some(Json::array(list));
        changed
    }

    /// The type name of a failure.
    pub fn parse_exception_type(failure: &Failure) -> (name: String)
        ensures
            name@ == exception_type(failure.debug@, failure.display@),
    {
        let quoted = debug_quote(failure.display.as_str());
        Exception::type_from_debug(failure.debug.as_str(), quoted.as_str())
    }

    /// The type name read off a debug output, given the display output in
    /// quotes.
    pub fn type_from_debug(debug: &str, quoted_display: &str) -> (name: String)
        ensures
            name@ == type_from_debug(debug@, quoted_display@),
    {
        if debug.eq(quoted_display) {
            "Error".to_owned()
        } else {
            type_token(debug)
        }
    }

    /// The exception as an event: under the name `$exception`, with the same
    /// properties and the same timestamp.
    pub fn to_event(&self) -> (event: Event)
        ensures
            event@ == as_event(self@),
    {
        Event {
            event: "$exception".to_owned(),
            properties: self.properties.clone(),
            timestamp: self.timestamp,
        }
    }

    /// The properties of the exception.
    pub fn properties(&self) -> (properties: &Properties)
        ensures
            properties@ == self@.properties,
    {
        &self.properties
    }

    /// When the failure happened, if that was recorded.
    pub fn timestamp(&self) -> (at: Option<NaiveDateTime>)
        ensures
            at == self@.timestamp,
    {
        self.timestamp
    }
}

impl EventBase for Exception {
    open spec fn with_prop(
        record: ExceptionView,
        key: Seq<char>,
        value: JsonView,
    ) -> ExceptionView {
        ExceptionView { properties: record.properties.with_prop(key, value), ..record }
    }

    fn insert_prop(&mut self, key: &str, prop: Result<Json, String>) -> (outcome: Result<
        (),
        Error,
    >) {
        match prop {
            Ok(value) => {
                self.properties.props.insert(key.to_owned(), value);
                Ok(())
            },
            Err(message) => Err(Error::Serialization(message)),
        }
    }
}

/// The event that stands for an exception made from a failure for a
/// distinct id is named `$exception`, is for that id, has the level `error`,
/// and lists exactly one descriptor, whose mechanism is handled and not
/// synthetic.
pub proof fn lemma_exception_event(
    debug: Seq<char>,
    display: Seq<char>,
    distinct_id: Seq<char>,
    os: Seq<char>,
    os_version: Seq<char>,
)
    ensures
        ({
            let event = as_event(
                ExceptionView {
                    properties: exception_properties(debug, display, distinct_id, os, os_version),
                    timestamp: None,
                },
            );
            &&& event.event == "$exception"@
            &&& event.properties.distinct_id == distinct_id
            &&& event.properties.exception_level == Some("error"@)
            &&& event.properties.exception_list matches Some(JsonView::Array(list))
            &&& list.len() == 1
            &&& list[0] matches JsonView::Object(descriptor)
            &&& descriptor.len() == 3
            &&& descriptor[0] == ("type"@, JsonView::String(exception_type(debug, display)))
            &&& descriptor[1] == ("value"@, JsonView::String(display))
            &&& descriptor[2].0 == "mechanism"@
            &&& descriptor[2].1 matches JsonView::Object(mechanism)
            &&& mechanism =~= seq![
                ("handled"@, JsonView::Bool(true)),
                ("synthetic"@, JsonView::Bool(false)),
            ]
        }),
{
}

/// A failure whose debug output is its display output in quotes has the
/// type `Error`.
pub proof fn lemma_bare_message_type(display: Seq<char>)
    ensures
        exception_type(debug_quoted(display), display) == "Error"@,
{
}

/// A debug output that begins with a token followed by `(` or `{` has that
/// token as its type, where the token holds no delimiter and the debug
/// output is not the display output in quotes.
pub proof fn lemma_leading_token_type(
    token: Seq<char>,
    follower: char,
    rest: Seq<char>,
    quoted_display: Seq<char>,
)
    requires
        forall|i: int| 0 <= i < token.len() ==> !is_delimiter(#[trigger] token[i]),
        follower == '(' || follower == '{',
        token + seq![follower] + rest != quoted_display,
    ensures
        type_from_debug(token + seq![follower] + rest, quoted_display) == token,
{
    lemma_token_before_delimiter(token, follower, rest);
}

/// A debug output in which white space of any kind follows the leading
/// token has that token as its type, as one in which a bracket follows it.
pub proof fn lemma_white_space_ends_the_type(
    token: Seq<char>,
    follower: char,
    rest: Seq<char>,
    quoted_display: Seq<char>,
)
    requires
        forall|i: int| 0 <= i < token.len() ==> !is_delimiter(#[trigger] token[i]),
        white_space(follower),
        token + seq![follower] + rest != quoted_display,
    ensures
        type_from_debug(token + seq![follower] + rest, quoted_display) == token,
{
    lemma_token_before_delimiter(token, follower, rest);
}

} // verus!
