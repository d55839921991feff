use posthog_rs::{Event, EventBase, InnerEvent, Json, Number};

fn text(value: &str) -> Json {
    Json::String(value.to_string())
}

fn member<'a>(object: &'a Json, name: &str) -> Option<&'a Json> {
    match object {
        Json::Object(members) => members.iter().find(|m| m.0 == name).map(|m| &m.1),
        _ => None,
    }
}

fn names(object: &Json) -> Vec<String> {
    match object {
        Json::Object(members) => members.iter().map(|m| m.0.clone()).collect(),
        _ => Vec::new(),
    }
}

#[test]
fn inner_event_adds_lib_properties_correctly() {
    // Arrange
    let mut event = Event::new("unit test event", "1234");
    event
        .insert_prop("key1", Ok(Json::String("value1".to_string())))
        .unwrap();
    let api_key = "test_api_key".to_string();

    // Act
    let inner_event = InnerEvent::new(event, api_key);

    // Assert
    let props = inner_event.properties().props();
    assert_eq!(
        props.get("$lib_name"),
        Some(&Json::String("posthog-rs".to_string()))
    );
}

#[test]
fn envelope_carries_the_event_and_the_key() {
    let event = Event::new("signup", "user-42");
    let inner = InnerEvent::new(event, "phc_key".to_string());
    assert_eq!(inner.api_key(), "phc_key");
    assert_eq!(inner.event(), "signup");
    assert_eq!(inner.properties().distinct_id(), "user-42");
    assert_eq!(inner.timestamp(), None);
}

#[test]
fn envelope_holds_the_release_and_its_numbers() {
    let inner = InnerEvent::new(Event::new("e", "id"), "k".to_string());
    let props = inner.properties().props();
    assert_eq!(props.get("$lib_version"), Some(&text("0.3.5")));
    assert_eq!(
        props.get("$lib_version__major"),
        Some(&Json::Number(Number::Unsigned(0)))
    );
    assert_eq!(
        props.get("$lib_version__minor"),
        Some(&Json::Number(Number::Unsigned(3)))
    );
    assert_eq!(
        props.get("$lib_version__patch"),
        Some(&Json::Number(Number::Unsigned(5)))
    );
    assert_eq!(props.len(), 5);
}

#[test]
fn envelope_release_matches_the_properties_field() {
    let inner = InnerEvent::new(Event::new("e", "id"), "k".to_string());
    let release = inner.properties().lib_version().clone();
    assert_eq!(
        inner.properties().props().get("$lib_version"),
        Some(&Json::String(release))
    );
}

#[test]
fn envelope_writes_over_what_the_user_put_under_its_keys() {
    let mut event = Event::new("e", "id");
    event.insert_prop("$lib_name", Ok(text("mine"))).unwrap();
    event.insert_prop("$lib_version", Ok(text("9.9.9"))).unwrap();
    event
        .insert_prop("$lib_version__major", Ok(text("nine")))
        .unwrap();
    let inner = InnerEvent::new(event, "k".to_string());
    let props = inner.properties().props();
    assert_eq!(props.get("$lib_name"), Some(&text("posthog-rs")));
    assert_eq!(props.get("$lib_version"), Some(&text("0.3.5")));
    assert_eq!(
        props.get("$lib_version__major"),
        Some(&Json::Number(Number::Unsigned(0)))
    );
    assert_eq!(props.len(), 5);
}

#[test]
fn envelope_leaves_the_other_properties_alone() {
    let mut event = Event::new("e", "id");
    event.insert_prop("plan", Ok(text("pro"))).unwrap();
    event
        .insert_prop("seats", Ok(Json::Number(Number::Unsigned(3))))
        .unwrap();
    let inner = InnerEvent::new(event, "k".to_string());
    let props = inner.properties().props();
    assert_eq!(props.get("plan"), Some(&text("pro")));
    assert_eq!(props.get("seats"), Some(&Json::Number(Number::Unsigned(3))));
    assert_eq!(props.len(), 7);
}

#[test]
fn envelope_with_given_numbers_holds_them() {
    let event = Event::new("e", "id");
    let inner = InnerEvent::with_release_numbers(event, "k".to_string(), Some((1, 20, 300)));
    let props = inner.properties().props();
    assert_eq!(
        props.get("$lib_version__major"),
        Some(&Json::Number(Number::Unsigned(1)))
    );
    assert_eq!(
        props.get("$lib_version__minor"),
        Some(&Json::Number(Number::Unsigned(20)))
    );
    assert_eq!(
        props.get("$lib_version__patch"),
        Some(&Json::Number(Number::Unsigned(300)))
    );
}

#[test]
fn envelope_without_numbers_omits_the_three_keys() {
    let inner = InnerEvent::with_release_numbers(Event::new("e", "id"), "k".to_string(), None);
    let props = inner.properties().props();
    assert_eq!(props.get("$lib_name"), Some(&text("posthog-rs")));
    assert_eq!(props.get("$lib_version"), Some(&text("0.3.5")));
    assert!(!props.contains_key("$lib_version__major"));
    assert!(!props.contains_key("$lib_version__minor"));
    assert!(!props.contains_key("$lib_version__patch"));
    assert_eq!(props.len(), 2);
}

#[test]
fn envelope_without_numbers_drops_a_number_key_of_the_user() {
    let mut event = Event::new("e", "id");
    event.insert_prop("plan", Ok(text("pro"))).unwrap();
    event
        .insert_prop("$lib_version__minor", Ok(text("mine")))
        .unwrap();
    event.insert_prop("seats", Ok(text("3"))).unwrap();
    let inner = InnerEvent::with_release_numbers(event, "k".to_string(), None);
    let props = inner.properties().props();
    assert!(!props.contains_key("$lib_version__major"));
    assert!(!props.contains_key("$lib_version__minor"));
    assert!(!props.contains_key("$lib_version__patch"));
    assert_eq!(props.get("$lib_name"), Some(&text("posthog-rs")));
    assert_eq!(props.get("$lib_version"), Some(&text("0.3.5")));
    assert_eq!(
        props.to_json(),
        Json::Object(vec![
            ("plan".to_string(), text("pro")),
            ("seats".to_string(), text("3")),
            ("$lib_name".to_string(), text("posthog-rs")),
            ("$lib_version".to_string(), text("0.3.5")),
        ])
    );
}

#[test]
fn envelope_without_numbers_drops_all_three_keys_of_the_user() {
    let mut event = Event::new("e", "id");
    event
        .insert_prop("$lib_version__patch", Ok(text("c")))
        .unwrap();
    event
        .insert_prop("$lib_version__major", Ok(text("a")))
        .unwrap();
    event
        .insert_prop("$lib_version__minor", Ok(text("b")))
        .unwrap();
    let inner = InnerEvent::with_release_numbers(event, "k".to_string(), None);
    assert_eq!(inner.properties().props().len(), 2);
    assert!(!inner.properties().props().contains_key("$lib_version__major"));
    assert!(!inner.properties().props().contains_key("$lib_version__minor"));
    assert!(!inner.properties().props().contains_key("$lib_version__patch"));
}

#[test]
fn wire_object_has_the_four_fields_in_order() {
    let mut event = Event::new("signup", "user-42");
    event.insert_prop("plan", Ok(text("pro"))).unwrap();
    let wire = InnerEvent::new(event, "phc_key".to_string()).to_json();
    assert_eq!(
        names(&wire),
        vec!["api_key", "event", "properties", "timestamp"]
    );
    assert_eq!(member(&wire, "api_key"), Some(&text("phc_key")));
    assert_eq!(member(&wire, "event"), Some(&text("signup")));
    assert_eq!(member(&wire, "timestamp"), Some(&Json::Null));
}

#[test]
fn wire_properties_use_the_dollar_names_and_omit_absent_exception_fields() {
    let mut event = Event::new("signup", "user-42");
    event.insert_prop("plan", Ok(text("pro"))).unwrap();
    let wire = InnerEvent::new(event, "phc_key".to_string()).to_json();
    let properties = member(&wire, "properties").unwrap();
    assert_eq!(
        names(properties),
        vec![
            "distinct_id",
            "props",
            "$lib",
            "$lib_version",
            "$os",
            "$os_version"
        ]
    );
    assert_eq!(member(properties, "distinct_id"), Some(&text("user-42")));
    assert_eq!(member(properties, "$lib"), Some(&text("posthog-rs")));
    assert_eq!(member(properties, "$lib_version"), Some(&text("0.3.5")));
    let props = member(properties, "props").unwrap();
    assert_eq!(
        names(props),
        vec![
            "plan",
            "$lib_name",
            "$lib_version",
            "$lib_version__major",
            "$lib_version__minor",
            "$lib_version__patch"
        ]
    );
    assert_eq!(member(props, "plan"), Some(&text("pro")));
}

#[test]
fn wire_object_takes_the_given_timestamp() {
    let inner = InnerEvent::new(Event::new("e", "id"), "k".to_string());
    let wire = inner.to_json_at(text("2016-11-15T07:39:24"));
    assert_eq!(
        member(&wire, "timestamp"),
        Some(&text("2016-11-15T07:39:24"))
    );
}
