//! Events, and the properties that every record carries.

use crate::error::Error;
use crate::json::{as_map, distinct_keys, members_view, Json, JsonView, Members};
use crate::props::{lemma_with_member, with_member, PropertyBag};
use crate::trusted::host_os;
use chrono::NaiveDateTime;
use vstd::prelude::*;

pub mod envelope;
pub mod exception;

verus! {

/// The name under which this library reports itself.
pub const LIB_NAME: &'static str = "posthog-rs";

/// The release of this library.
pub const LIB_VERSION: &'static str = "0.3.5";

/// The enrichment that goes out with every record.
#[derive(Debug, PartialEq, Eq)]
pub struct Properties {
    distinct_id: String,
    props: PropertyBag,
    lib: String,
    lib_version: String,
    os: String,
    os_version: String,
    exception_level: Option<String>,
    exception_list: Option<Json>,
}

/// The mathematical value of [`Properties`]. The user's properties are held
/// as members, in the order in which their keys were first written.
pub struct PropertiesView {
    pub distinct_id: Seq<char>,
    pub props: Members,
    pub lib: Seq<char>,
    pub lib_version: Seq<char>,
    pub os: Seq<char>,
    pub os_version: Seq<char>,
    pub exception_level: Option<Seq<char>>,
    pub exception_list: Option<JsonView>,
}

impl PropertiesView {
    /// The user's properties as a mapping from keys to values.
    pub open spec fn prop_map(self) -> Map<Seq<char>, JsonView> {
        as_map(self.props)
    }

    /// These properties after a value was written under a key.
    pub open spec fn with_prop(self, key: Seq<char>, value: JsonView) -> PropertiesView {
        PropertiesView { props: with_member(self.props, key, value), ..self }
    }
}

impl View for Properties {
    type V = PropertiesView;

    closed spec fn view(&self) -> PropertiesView {
        PropertiesView {
            distinct_id: self.distinct_id@,
            props: self.props.members(),
            lib: self.lib@,
            lib_version: self.lib_version@,
            os: self.os@,
            os_version: self.os_version@,
            exception_level: self.exception_level.deep_view(),
            exception_list: self.exception_list.deep_view(),
        }
    }
}

/// Fresh properties for a distinct id on a host with the given operating
/// system: no user properties, no exception fields.
pub open spec fn fresh_properties(
    distinct_id: Seq<char>,
    os: Seq<char>,
    os_version: Seq<char>,
) -> PropertiesView {
    PropertiesView {
        distinct_id,
        props: Members::empty(),
        lib: LIB_NAME@,
        lib_version: LIB_VERSION@,
        os,
        os_version,
        exception_level: None,
        exception_list: None,
    }
}

/// The member that an optional value contributes to an object: one member
/// where the value is there, none where it is absent.
pub open spec fn optional_member(name: Seq<char>, value: Option<JsonView>) -> Members {
    match value {
        Some(v) => seq![(name, v)],
        None => Members::empty(),
    }
}

/// The JSON string of an optional text.
pub open spec fn optional_string(text: Option<Seq<char>>) -> Option<JsonView> {
    match text {
        Some(t) => Some(JsonView::String(t)),
        None => None,
    }
}

/// Properties as they go over the wire. The exception fields are left out
/// where they are absent.
pub open spec fn wire_properties(properties: PropertiesView) -> JsonView {
    JsonView::Object(
        seq![
            ("distinct_id"@, JsonView::String(properties.distinct_id)),
            ("props"@, JsonView::Object(properties.props)),
            ("$lib"@, JsonView::String(properties.lib)),
            ("$lib_version"@, JsonView::String(properties.lib_version)),
            ("$os"@, JsonView::String(properties.os)),
            ("$os_version"@, JsonView::String(properties.os_version)),
        ] + optional_member("$exception_level"@, optional_string(properties.exception_level))
            + optional_member("$exception_list"@, properties.exception_list),
    )
}

impl Properties {
    /// Properties for the distinct id, with the operating system looked up
    /// on the host. The lookup cannot fail: where the host does not tell,
    /// the two fields hold a placeholder.
    pub fn new(distinct_id: &str) -> (properties: Properties)
        ensures
            properties@ == fresh_properties(
                distinct_id@,
                properties@.os,
                properties@.os_version,
            ),
    {
        let (os, os_version) = host_os();
        Properties::on_host(distinct_id, os, os_version)
    }

    /// Properties for the distinct id on a host whose operating system is
    /// given.
    pub fn on_host(distinct_id: &str, os: String, os_version: String) -> (properties: Properties)
        ensures
            properties@ == fresh_properties(distinct_id@, os@, os_version@),
    {
        Properties {
            distinct_id: distinct_id.to_owned(),
            props: PropertyBag::new(),
            lib: LIB_NAME.to_owned(),
            lib_version: LIB_VERSION.to_owned(),
            os,
            os_version,
            exception_level: None,
            exception_list: None,
        }
    }

    /// The properties as the JSON object that goes over the wire.
    pub fn to_json(&self) -> (wire: Json)
        ensures
            wire@ == wire_properties(self@),
    {
        let mut members: Vec<(String, Json)> = Vec::new();
        members.push(("distinct_id".to_owned(), Json::String(self.distinct_id.clone())));
        members.push(("props".to_owned(), self.props.to_json()));
        members.push(("$lib".to_owned(), Json::String(self.lib.clone())));
        members.push(("$lib_version".to_owned(), Json::String(self.lib_version.clone())));
        members.push(("$os".to_owned(), Json::String(self.os.clone())));
        members.push(("$os_version".to_owned(), Json::String(self.os_version.clone())));
        match &self.exception_level {
            Some(level) => {
                members.push(("$exception_level".to_owned(), Json::String(level.clone())));
            },
            None => {},
        }
        match &self.exception_list {
            Some(list) => {
                members.push(("$exception_list".to_owned(), list.clone()));
            },
            None => {},
        }
        assert(members_view(members@) =~= wire_properties(self@)->Object_0);
        Json::object(members)
    }

    /// The id of the actor or session.
    pub fn distinct_id(&self) -> (id: &String)
        ensures
            id@ == self@.distinct_id,
    {
        &self.distinct_id
    }

    /// The user's properties. Their keys are distinct.
    pub fn props(&self) -> (bag: &PropertyBag)
        ensures
            bag.members() == self@.props,
            bag@ == self@.prop_map(),
            distinct_keys(self@.props),
    {
        proof {
            use_type_invariant(&self.props);
        }
        &self.props
    }

    /// The name of this library.
    pub fn lib(&self) -> (name: &String)
        ensures
            name@ == self@.lib,
    {
        &self.lib
    }

    /// The release of this library.
    pub fn lib_version(&self) -> (release: &String)
        ensures
            release@ == self@.lib_version,
    {
        &self.lib_version
    }

    /// The name of the host's operating system.
    pub fn os(&self) -> (name: &String)
        ensures
            name@ == self@.os,
    {
        &self.os
    }

    /// The version of the host's operating system.
    pub fn os_version(&self) -> (version: &String)
        ensures
            version@ == self@.os_version,
    {
        &self.os_version
    }

    /// The level of the exception, on properties that belong to one.
    pub fn exception_level(&self) -> (level: Option<&String>)
        ensures
            level.deep_view() == self@.exception_level,
    {
        match &self.exception_level {
            Some(level) => Some(level),
            None => None,
        }
    }

    /// The exception list, on properties that belong to an exception.
    pub fn exception_list(&self) -> (list: Option<&Json>)
        ensures
            list.deep_view() == self@.exception_list,
    {
        match &self.exception_list {
            Some(list) => Some(list),
            None => None,
        }
    }
}

impl Clone for Properties {
    /// Copies the properties; the copy has the same view.
    fn clone(&self) -> (copy: Properties)
        ensures
            copy@ == self@,
    {
        Properties {
            distinct_id: self.distinct_id.clone(),
            props: self.props.clone(),
            lib: self.lib.clone(),
            lib_version: self.lib_version.clone(),
            os: self.os.clone(),
            os_version: self.os_version.clone(),
            exception_level: match &self.exception_level {
                Some(level) => Some(level.clone()),
                None => None,
            },
            exception_list: match &self.exception_list {
                Some(list) => Some(list.clone()),
                None => None,
            },
        }
    }
}

/// A record that carries properties which the user may add to.
pub trait EventBase: View {
    /// The record after a value was written under a key of its properties.
    spec fn with_prop(record: Self::V, key: Seq<char>, value: JsonView) -> Self::V;

    /// Takes the outcome of encoding a value as JSON. An encoded value is
    /// written under the key, over a value that the key had. A failed
    /// encoding is reported with its message, and the record stays as it was.
    fn insert_prop(&mut self, key: &str, prop: Result<Json, String>) -> (outcome: Result<
        (),
        Error,
    >)
        ensures
            match prop {
                Ok(value) => outcome is Ok && final(self)@ == Self::with_prop(
                    old(self)@,
                    key@,
                    value@,
                ),
                Err(message) => final(self)@ == old(self)@ && match outcome {
                    Err(Error::Serialization(text)) => text@ == message@,
                    _ => false,
                },
            },
    ;
}

/// A named occurrence.
#[derive(Debug, PartialEq, Eq)]
pub struct Event {
    event: String,
    properties: Properties,
    timestamp: Option<NaiveDateTime>,
}

/// The mathematical value of an [`Event`].
pub struct EventView {
    pub event: Seq<char>,
    pub properties: PropertiesView,
    pub timestamp: Option<NaiveDateTime>,
}

impl View for Event {
    type V = EventView;

    closed spec fn view(&self) -> EventView {
        EventView {
            event: self.event@,
            properties: self.properties@,
            timestamp: self.timestamp,
        }
    }
}

impl Event {
    /// An event of the given name for the distinct id, without user
    /// properties and without a timestamp.
    pub fn new(event: &str, distinct_id: &str) -> (made: Event)
        ensures
            made@ == (EventView {
                event: event@,
                properties: fresh_properties(
                    distinct_id@,
                    made@.properties.os,
                    made@.properties.os_version,
                ),
                timestamp: None,
            }),
    {
        Event {
            event: event.to_owned(),
            properties: Properties::new(distinct_id),
            timestamp: None,
        }
    }

    /// The name of the event.
    pub fn event(&self) -> (name: &String)
        ensures
            name@ == self@.event,
    {
        &self.event
    }

    /// The properties of the event.
    pub fn properties(&self) -> (properties: &Properties)
        ensures
            properties@ == self@.properties,
    {
        &self.properties
    }

    /// When the event happened, if that was recorded.
    pub fn timestamp(&self) -> (at: Option<NaiveDateTime>)
        ensures
            at == self@.timestamp,
    {
        self.timestamp
    }
}

impl EventBase for Event {
    open spec fn with_prop(record: EventView, key: Seq<char>, value: JsonView) -> EventView {
        EventView { properties: record.properties.with_prop(key, value), ..record }
    }

    fn insert_prop(&mut self, key: &str, prop: Result<Json, String>) -> (outcome: Result<
        (),
        Error,
    >) {
        match prop {
            Ok(value) => {
                self.properties.props.insert(key.to_owned(), value);
                Ok(())
            },
            Err(message) => Err(Error::Serialization(message)),
        }
    }
}

/// A value written under a key is the value read back under it, and a
/// second write under the same key replaces the first. The other keys keep
/// their values.
pub proof fn lemma_insert_then_read(
    properties: PropertiesView,
    key: Seq<char>,
    first: JsonView,
    second: JsonView,
)
    requires
        distinct_keys(properties.props),
    ensures
        distinct_keys(properties.with_prop(key, first).props),
        properties.with_prop(key, first).prop_map() == properties.prop_map().insert(key, first),
        properties.with_prop(key, first).prop_map().contains_key(key),
        properties.with_prop(key, first).prop_map()[key] == first,
        properties.with_prop(key, first).with_prop(key, second).prop_map()[key] == second,
        properties.with_prop(key, first).with_prop(key, second).prop_map()
            == properties.with_prop(key, second).prop_map(),
{
    lemma_with_member(properties.props, key, first);
    lemma_with_member(properties.props, key, second);
    lemma_with_member(properties.with_prop(key, first).props, key, second);
    assert(properties.prop_map().insert(key, first).insert(key, second)
        =~= properties.prop_map().insert(key, second));
}

} // verus!
