use posthog_rs::{Error, Event, EventBase, Json, Number, Properties, PropertyBag};

fn text(value: &str) -> Json {
    Json::String(value.to_string())
}

#[test]
fn new_event_has_name_id_and_library_fields() {
    let event = Event::new("signup", "user-42");
    assert_eq!(event.event(), "signup");
    assert_eq!(event.timestamp(), None);
    let properties = event.properties();
    assert_eq!(properties.distinct_id(), "user-42");
    assert_eq!(properties.lib(), "posthog-rs");
    assert_eq!(properties.lib_version(), "0.3.5");
    assert_eq!(properties.props().len(), 0);
    assert_eq!(properties.exception_level(), None);
    assert_eq!(properties.exception_list(), None);
}

#[test]
fn new_event_knows_the_host() {
    let event = Event::new("signup", "user-42");
    assert!(!event.properties().os().is_empty());
    let again = Event::new("login", "user-7");
    assert_eq!(again.properties().os(), event.properties().os());
    assert_eq!(again.properties().os_version(), event.properties().os_version());
}

#[test]
fn properties_on_a_given_host() {
    let properties = Properties::on_host("id", "Plan 9".to_string(), "4".to_string());
    assert_eq!(properties.distinct_id(), "id");
    assert_eq!(properties.os(), "Plan 9");
    assert_eq!(properties.os_version(), "4");
    assert_eq!(properties.lib(), "posthog-rs");
    assert_eq!(properties.props().len(), 0);
}

#[test]
fn properties_clone_is_equal() {
    let mut event = Event::new("e", "id");
    event.insert_prop("plan", Ok(text("pro"))).unwrap();
    let copy = event.properties().clone();
    assert_eq!(&copy, event.properties());
}

#[test]
fn inserted_property_is_read_back() {
    let mut event = Event::new("e", "id");
    event.insert_prop("plan", Ok(text("pro"))).unwrap();
    assert_eq!(event.properties().props().get("plan"), Some(&text("pro")));
    assert!(event.properties().props().contains_key("plan"));
    assert_eq!(event.properties().props().len(), 1);
}

#[test]
fn second_insert_under_a_key_replaces_the_first() {
    let mut event = Event::new("e", "id");
    event.insert_prop("plan", Ok(text("free"))).unwrap();
    event.insert_prop("plan", Ok(text("pro"))).unwrap();
    assert_eq!(event.properties().props().get("plan"), Some(&text("pro")));
    assert_eq!(event.properties().props().len(), 1);
}

#[test]
fn insert_leaves_the_rest_of_the_event_alone() {
    let mut event = Event::new("signup", "user-42");
    event.insert_prop("plan", Ok(text("pro"))).unwrap();
    assert_eq!(event.event(), "signup");
    assert_eq!(event.properties().distinct_id(), "user-42");
    assert_eq!(event.timestamp(), None);
}

#[test]
fn inserted_values_of_every_kind_are_read_back() {
    let mut event = Event::new("e", "id");
    let nested = Json::Object(vec![
        ("a".to_string(), Json::Array(vec![Json::Null, Json::Bool(true)])),
        ("b".to_string(), Json::Number(Number::Signed(-7))),
        ("c".to_string(), Json::Number(Number::FloatBits(1.5f64.to_bits()))),
    ]);
    event.insert_prop("nested", Ok(nested.clone())).unwrap();
    assert_eq!(event.properties().props().get("nested"), Some(&nested));
}

#[test]
fn failed_encoding_is_reported_and_changes_nothing() {
    let mut event = Event::new("e", "id");
    event.insert_prop("plan", Ok(text("pro"))).unwrap();
    let before = event.properties().clone();
    let outcome = event.insert_prop("seats", Err("key must be a string".to_string()));
    assert_eq!(
        outcome,
        Err(Error::Serialization("key must be a string".to_string()))
    );
    assert_eq!(event.properties(), &before);
    assert!(!event.properties().props().contains_key("seats"));
}

#[test]
fn failed_encoding_under_a_present_key_keeps_its_value() {
    let mut event = Event::new("e", "id");
    event.insert_prop("plan", Ok(text("pro"))).unwrap();
    let outcome = event.insert_prop("plan", Err("no".to_string()));
    assert!(matches!(outcome, Err(Error::Serialization(_))));
    assert_eq!(event.properties().props().get("plan"), Some(&text("pro")));
}

#[test]
fn error_message_is_the_text_it_came_with() {
    assert_eq!(Error::Serialization("a".to_string()).message(), "a");
    assert_eq!(Error::Connection("b".to_string()).message(), "b");
}

#[test]
fn bag_keeps_the_order_of_first_writes() {
    let mut bag = PropertyBag::new();
    bag.insert("b".to_string(), text("1"));
    bag.insert("a".to_string(), text("2"));
    bag.insert("b".to_string(), text("3"));
    assert_eq!(
        bag.to_json(),
        Json::Object(vec![
            ("b".to_string(), text("3")),
            ("a".to_string(), text("2")),
        ])
    );
    assert_eq!(bag.len(), 2);
}

#[test]
fn bag_reads_only_what_was_written() {
    let mut bag = PropertyBag::new();
    assert_eq!(bag.get("a"), None);
    assert!(!bag.contains_key("a"));
    bag.insert("a".to_string(), Json::Null);
    assert_eq!(bag.get("a"), Some(&Json::Null));
    assert_eq!(bag.get("A"), None);
    assert_eq!(bag.get(""), None);
}

#[test]
fn bag_gives_up_a_key_and_keeps_the_rest_in_order() {
    let mut bag = PropertyBag::new();
    bag.insert("a".to_string(), text("1"));
    bag.insert("b".to_string(), text("2"));
    bag.insert("c".to_string(), text("3"));
    assert_eq!(bag.remove("b"), Some(text("2")));
    assert_eq!(bag.remove("b"), None);
    assert_eq!(bag.remove("z"), None);
    assert!(!bag.contains_key("b"));
    assert_eq!(
        bag.to_json(),
        Json::Object(vec![
            ("a".to_string(), text("1")),
            ("c".to_string(), text("3")),
        ])
    );
    assert_eq!(bag.remove("a"), Some(text("1")));
    assert_eq!(bag.remove("c"), Some(text("3")));
    assert_eq!(bag.len(), 0);
    assert_eq!(bag.remove("a"), None);
    bag.insert("b".to_string(), text("4"));
    assert_eq!(bag.get("b"), Some(&text("4")));
}

#[test]
fn bag_clone_is_equal() {
    let mut bag = PropertyBag::new();
    bag.insert("a".to_string(), text("1"));
    bag.insert("b".to_string(), Json::Array(vec![Json::Bool(false)]));
    assert_eq!(bag.clone(), bag);
}

#[test]
fn json_constructors_and_clone() {
    assert_eq!(Json::string("x"), text("x"));
    assert_eq!(
        Json::array(vec![Json::Null, text("x")]),
        Json::Array(vec![Json::Null, text("x")])
    );
    let object = Json::object(vec![("k".to_string(), Json::Bool(true))]);
    assert_eq!(object, Json::Object(vec![("k".to_string(), Json::Bool(true))]));
    assert_eq!(object.clone(), object);
}

#[test]
fn value_that_cannot_be_encoded_is_reported_with_the_encoder_message() {
    let mut unencodable = std::collections::BTreeMap::new();
    unencodable.insert((1, 2), "pair as a key");
    let encoded = serde_json::to_value(&unencodable)
        .map(|_| Json::Null)
        .map_err(|e| e.to_string());
    assert!(encoded.is_err());
    let mut event = Event::new("e", "id");
    let outcome = event.insert_prop("bad", encoded);
    assert_eq!(
        outcome,
        Err(Error::Serialization("key must be a string".to_string()))
    );
    assert_eq!(event.properties().props().len(), 0);
}
