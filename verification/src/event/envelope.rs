//! The envelope in which an event leaves, and its layout on the wire.

use crate::event::{
    wire_properties, Event, EventView, Properties, PropertiesView, LIB_NAME, LIB_VERSION,
};
use crate::json::{as_map, distinct_keys, members_view, Json, JsonView, Members, Number};
use crate::props::{lemma_with_member, lemma_without_member, with_member, without_member};
use crate::trusted::{parse_semver, semver_triple, timestamp_text};
use chrono::NaiveDateTime;
use vstd::prelude::*;

verus! {

/// The user's properties with the library's own fields written over them:
/// the library's name and its release, and the three numbers of the release
/// where it has them. Where it has none, the three keys of the numbers are
/// taken away, so that nothing the user wrote stands under them.
pub open spec fn enveloped(props: Members, numbers: Option<(u64, u64, u64)>) -> Members {
    let named = with_member(
        with_member(props, "$lib_name"@, JsonView::String(LIB_NAME@)),
        "$lib_version"@,
        JsonView::String(LIB_VERSION@),
    );
    match numbers {
        Some((major, minor, patch)) => with_member(
            with_member(
                with_member(
                    named,
                    "$lib_version__major"@,
                    JsonView::Number(Number::Unsigned(major)),
                ),
                "$lib_version__minor"@,
                JsonView::Number(Number::Unsigned(minor)),
            ),
            "$lib_version__patch"@,
            JsonView::Number(Number::Unsigned(patch)),
        ),
        None => without_member(
            without_member(without_member(named, "$lib_version__major"@), "$lib_version__minor"@),
            "$lib_version__patch"@,
        ),
    }
}

/// The envelope of an event for an account, given the numbers of the
/// library's release.
pub open spec fn envelope(
    event: EventView,
    api_key: Seq<char>,
    numbers: Option<(u64, u64, u64)>,
) -> InnerEventView {
    InnerEventView {
        api_key,
        event: event.event,
        properties: PropertiesView {
            props: enveloped(event.properties.props, numbers),
            ..event.properties
        },
        timestamp: event.timestamp,
    }
}

/// An enveloped event as it goes over the wire, given how its timestamp is
/// written.
pub open spec fn wire_event(event: InnerEventView, timestamp: JsonView) -> JsonView {
    JsonView::Object(
        seq![
            ("api_key"@, JsonView::String(event.api_key)),
            ("event"@, JsonView::String(event.event)),
            ("properties"@, wire_properties(event.properties)),
            ("timestamp"@, timestamp),
        ],
    )
}

/// Whether the JSON value is the enveloped event as it goes over the wire:
/// with `null` for a timestamp that is absent, with a string for one that
/// is there.
pub open spec fn is_wire_of(wire: JsonView, event: InnerEventView) -> bool {
    match event.timestamp {
        None => wire == wire_event(event, JsonView::Null),
        Some(_) => exists|text: Seq<char>| wire == wire_event(event, JsonView::String(text)),
    }
}

/// An event on its way out: with the account's key, and with the library's
/// own fields among its properties.
#[derive(Debug, PartialEq, Eq)]
pub struct InnerEvent {
    api_key: String,
    event: String,
    properties: Properties,
    timestamp: Option<NaiveDateTime>,
}

/// The mathematical value of an [`InnerEvent`].
pub struct InnerEventView {
    pub api_key: Seq<char>,
    pub event: Seq<char>,
    pub properties: PropertiesView,
    pub timestamp: Option<NaiveDateTime>,
}

impl View for InnerEvent {
    type V = InnerEventView;

    closed spec fn view(&self) -> InnerEventView {
        InnerEventView {
            api_key: self.api_key@,
            event: self.event@,
            properties: self.properties@,
            timestamp: self.timestamp,
        }
    }
}

impl InnerEvent {
    /// Wraps the event for the account. The library's name and release are
    /// written over whatever the user put under those keys. The numbers of
    /// the release are written too if the release is a semantic version; if
    /// it is none, nothing is left under their keys.
    pub fn new(event: Event, api_key: String) -> (inner: InnerEvent)
        ensures
            inner@ == envelope(event@, api_key@, semver_triple(LIB_VERSION@)),
    {
        let numbers = parse_semver(LIB_VERSION);
        InnerEvent::with_release_numbers(event, api_key, numbers)
    }

    /// Wraps the event for the account, given what parsing the library's
    /// release as a semantic version came to.
    pub fn with_release_numbers(
        event: Event,
        api_key: String,
        numbers: Option<(u64, u64, u64)>,
    ) -> (inner: InnerEvent)
        ensures
            inner@ == envelope(event@, api_key@, numbers),
    {
        let mut properties = event.properties;
        properties.props.insert("$lib_name".to_owned(), Json::String(LIB_NAME.to_owned()));
        properties.props.insert("$lib_version".to_owned(), Json::String(LIB_VERSION.to_owned()));
        match numbers {
            Some((major, minor, patch)) => {
                properties.props.insert(
                    "$lib_version__major".to_owned(),
                    Json::Number(Number::Unsigned(major)),
                );
                properties.props.insert(
                    "$lib_version__minor".to_owned(),
                    Json::Number(Number::Unsigned(minor)),
                );
                properties.props.insert(
                    "$lib_version__patch".to_owned(),
                    Json::Number(Number::Unsigned(patch)),
                );
            },
            None => {
                properties.props.remove("$lib_version__major");
                properties.props.remove("$lib_version__minor");
                properties.props.remove("$lib_version__patch");
            },
        }
        InnerEvent { api_key, event: event.event, properties, timestamp: event.timestamp }
    }

    /// The enveloped event as the JSON object that goes over the wire. An
    /// event without a timestamp carries `null` in its place; a timestamp
    /// is written as a string.
    pub fn to_json(&self) -> (wire: Json)
        ensures
            is_wire_of(wire@, self@),
    {
        let timestamp = match &self.timestamp {
            Some(at) => Json::String(timestamp_text(at)),
            None => Json::Null,
        };
        self.to_json_at(timestamp)
    }

    /// The enveloped event as the JSON object that goes over the wire, with
    /// the given value in the place of its timestamp.
    pub fn to_json_at(&self, timestamp: Json) -> (wire: Json)
        ensures
            wire@ == wire_event(self@, timestamp@),
    {
        let mut members: Vec<(String, Json)> = Vec::new();
        members.push(("api_key".to_owned(), Json::String(self.api_key.clone())));
        members.push(("event".to_owned(), Json::String(self.event.clone())));
        members.push(("properties".to_owned(), self.properties.to_json()));
        members.push(("timestamp".to_owned(), timestamp));
        assert(members_view(members@) =~= wire_event(self@, timestamp@)->Object_0);
        Json::object(members)
    }

    /// The account's key.
    pub fn api_key(&self) -> (key: &String)
        ensures
            key@ == self@.api_key,
    {
        &self.api_key
    }

    /// The name of the event.
    pub fn event(&self) -> (name: &String)
        ensures
            name@ == self@.event,
    {
        &self.event
    }

    /// The properties of the event, with the library's own among them.
    pub fn properties(&self) -> (properties: &Properties)
        ensures
            properties@ == self@.properties,
    {
        &self.properties
    }

    /// When the event happened, if that was recorded.
    pub fn timestamp(&self) -> (at: Option<NaiveDateTime>)
        ensures
            at == self@.timestamp,
    {
        self.timestamp
    }
}

/// The three keys under which the numbers of the library's release go out.
pub open spec fn is_release_number_key(key: Seq<char>) -> bool {
    key == "$lib_version__major"@ || key == "$lib_version__minor"@ || key
        == "$lib_version__patch"@
}

/// The keys that belong to the envelope: the user's values under them never
/// go out.
pub open spec fn is_envelope_key(key: Seq<char>) -> bool {
    key == "$lib_name"@ || key == "$lib_version"@ || is_release_number_key(key)
}

/// Whatever the event holds, its envelope names the library and its
/// release. Where the release is the semantic version `major.minor.patch`,
/// the envelope holds the three numbers; where it is none, the envelope
/// holds none of the three keys. Every key that does not belong to the
/// envelope is as the user left it: there with the user's value, or absent.
pub proof fn lemma_envelope_properties(props: Members, numbers: Option<(u64, u64, u64)>)
    requires
        distinct_keys(props),
    ensures
        distinct_keys(enveloped(props, numbers)),
        as_map(enveloped(props, numbers)).contains_key("$lib_name"@),
        as_map(enveloped(props, numbers))["$lib_name"@] == JsonView::String(LIB_NAME@),
        as_map(enveloped(props, numbers)).contains_key("$lib_version"@),
        as_map(enveloped(props, numbers))["$lib_version"@] == JsonView::String(LIB_VERSION@),
        numbers matches Some((major, minor, patch)) ==> {
            &&& as_map(enveloped(props, numbers)).contains_key("$lib_version__major"@)
            &&& as_map(enveloped(props, numbers))["$lib_version__major"@] == JsonView::Number(
                Number::Unsigned(major),
            )
            &&& as_map(enveloped(props, numbers)).contains_key("$lib_version__minor"@)
            &&& as_map(enveloped(props, numbers))["$lib_version__minor"@] == JsonView::Number(
                Number::Unsigned(minor),
            )
            &&& as_map(enveloped(props, numbers)).contains_key("$lib_version__patch"@)
            &&& as_map(enveloped(props, numbers))["$lib_version__patch"@] == JsonView::Number(
                Number::Unsigned(patch),
            )
        },
        numbers is None ==> {
            &&& !as_map(enveloped(props, numbers)).contains_key("$lib_version__major"@)
            &&& !as_map(enveloped(props, numbers)).contains_key("$lib_version__minor"@)
            &&& !as_map(enveloped(props, numbers)).contains_key("$lib_version__patch"@)
        },
        forall|key: Seq<char>|
            !is_envelope_key(key) ==> {
                &&& as_map(enveloped(props, numbers)).contains_key(key) == as_map(
                    props,
                ).contains_key(key)
                &&& as_map(props).contains_key(key) ==> as_map(enveloped(props, numbers))[key]
                    == as_map(props)[key]
            },
{
    reveal_strlit("$lib_name");
    reveal_strlit("$lib_version");
    reveal_strlit("$lib_version__major");
    reveal_strlit("$lib_version__minor");
    reveal_strlit("$lib_version__patch");
    assert("$lib_name"@[5] != "$lib_version"@[5]);
    assert("$lib_name"@.len() == 9 && "$lib_version"@.len() == 12);
    assert("$lib_version__major"@.len() == 19 && "$lib_version__minor"@.len() == 19);
    assert("$lib_version__patch"@.len() == 19);
    assert("$lib_version__major"@[15] != "$lib_version__minor"@[15]);
    assert("$lib_version__major"@[14] != "$lib_version__patch"@[14]);
    assert("$lib_version__minor"@[14] != "$lib_version__patch"@[14]);
    let name = JsonView::String(LIB_NAME@);
    let release = JsonView::String(LIB_VERSION@);
    let first = with_member(props, "$lib_name"@, name);
    lemma_with_member(props, "$lib_name"@, name);
    let named = with_member(first, "$lib_version"@, release);
    lemma_with_member(first, "$lib_version"@, release);
    match numbers {
        Some((major, minor, patch)) => {
            let a = JsonView::Number(Number::Unsigned(major));
            let b = JsonView::Number(Number::Unsigned(minor));
            let c = JsonView::Number(Number::Unsigned(patch));
            let with_major = with_member(named, "$lib_version__major"@, a);
            lemma_with_member(named, "$lib_version__major"@, a);
            let with_minor = with_member(with_major, "$lib_version__minor"@, b);
            lemma_with_member(with_major, "$lib_version__minor"@, b);
            lemma_with_member(with_minor, "$lib_version__patch"@, c);
        },
        None => {
            let no_major = without_member(named, "$lib_version__major"@);
            lemma_without_member(named, "$lib_version__major"@);
            let no_minor = without_member(no_major, "$lib_version__minor"@);
            lemma_without_member(no_major, "$lib_version__minor"@);
            lemma_without_member(no_minor, "$lib_version__patch"@);
        },
    }
}

/// Where the release is no semantic version, the envelope holds none of the
/// three number keys, whatever the user wrote.
pub proof fn lemma_envelope_without_numbers(props: Members, key: Seq<char>)
    requires
        distinct_keys(props),
        is_release_number_key(key),
    ensures
        !as_map(enveloped(props, None)).contains_key(key),
{
    lemma_envelope_properties(props, None);
}

/// On the wire no object names a field twice: not the envelope, and not
/// its properties.
pub proof fn lemma_wire_names_distinct(event: InnerEventView, timestamp: JsonView)
    ensures
        distinct_keys(wire_event(event, timestamp)->Object_0),
        distinct_keys(wire_properties(event.properties)->Object_0),
{
    reveal_strlit("api_key");
    reveal_strlit("event");
    reveal_strlit("properties");
    reveal_strlit("timestamp");
    reveal_strlit("distinct_id");
    reveal_strlit("props");
    reveal_strlit("$lib");
    reveal_strlit("$lib_version");
    reveal_strlit("$os");
    reveal_strlit("$os_version");
    reveal_strlit("$exception_level");
    reveal_strlit("$exception_list");
    let outer = wire_event(event, timestamp)->Object_0;
    assert(outer[0].0.len() == 7 && outer[1].0.len() == 5 && outer[2].0.len() == 10
        && outer[3].0.len() == 9);
    let inner = wire_properties(event.properties)->Object_0;
    assert("distinct_id"@[0] != "$os_version"@[0]);
    assert forall|i: int, j: int| 0 <= i < j < inner.len() implies (#[trigger] inner[i]).0 != (
    #[trigger] inner[j]).0 by {
        assert(inner[0].0.len() == 11 && inner[1].0.len() == 5 && inner[2].0.len() == 4);
        assert(inner[3].0.len() == 12 && inner[4].0.len() == 3 && inner[5].0.len() == 11);
        if inner.len() == 7 {
            assert(inner[6].0.len() == 16 || inner[6].0.len() == 15);
        }
        if inner.len() == 8 {
            assert(inner[6].0.len() == 16 && inner[7].0.len() == 15);
        }
    }
}

} // verus!
