use posthog_rs::text::{is_white_space, type_token};
use posthog_rs::{Error, EventBase, Exception, Failure, Json};

fn text(value: &str) -> Json {
    Json::String(value.to_string())
}

fn failure(debug: &str, display: &str) -> Failure {
    Failure {
        debug: debug.to_string(),
        display: display.to_string(),
    }
}

fn printed(error: &dyn std::error::Error) -> Failure {
    Failure {
        debug: format!("{:?}", error),
        display: format!("{}", error),
    }
}

fn descriptor(kind: &str, value: &str) -> Json {
    Json::Object(vec![
        ("type".to_string(), text(kind)),
        ("value".to_string(), text(value)),
        (
            "mechanism".to_string(),
            Json::Object(vec![
                ("handled".to_string(), Json::Bool(true)),
                ("synthetic".to_string(), Json::Bool(false)),
            ]),
        ),
    ])
}

#[test]
fn exception_becomes_an_exception_event() {
    let exception = Exception::new(&failure("Broken(7)", "it broke"), "id");
    let event = exception.to_event();
    assert_eq!(event.event(), "$exception");
    assert_eq!(event.properties().distinct_id(), "id");
    assert_eq!(
        event.properties().exception_level(),
        Some(&"error".to_string())
    );
    assert_eq!(
        event.properties().exception_list(),
        Some(&Json::Array(vec![descriptor("Broken", "it broke")]))
    );
    assert_eq!(event.timestamp(), None);
}

#[test]
fn conversion_to_an_event_can_be_repeated() {
    let exception = Exception::new(&failure("Broken(7)", "it broke"), "id");
    assert_eq!(exception.to_event(), exception.to_event());
    assert_eq!(exception.to_event().properties(), exception.properties());
}

#[test]
fn new_exception_has_no_user_properties() {
    let exception = Exception::new(&failure("Broken(7)", "it broke"), "id");
    assert_eq!(exception.properties().props().len(), 0);
    assert_eq!(exception.properties().lib(), "posthog-rs");
    assert_eq!(exception.timestamp(), None);
}

#[test]
fn bare_message_has_the_type_error() {
    let name = Exception::parse_exception_type(&failure("\"boom\"", "boom"));
    assert_eq!(name, "Error");
}

#[test]
fn bare_message_with_escapes_has_the_type_error() {
    let error: Box<dyn std::error::Error> = "a \"quoted\"\nline".into();
    let name = Exception::parse_exception_type(&printed(error.as_ref()));
    assert_eq!(name, "Error");
}

#[test]
fn struct_like_failure_has_its_leading_token() {
    let error = "abc".parse::<i32>().unwrap_err();
    assert_eq!(
        Exception::parse_exception_type(&printed(&error)),
        "ParseIntError"
    );
}

#[test]
fn tuple_like_failure_has_its_leading_token() {
    let name = Exception::parse_exception_type(&failure("Custom(42)", "custom 42"));
    assert_eq!(name, "Custom");
}

#[test]
fn brace_ends_the_token() {
    let name = Exception::parse_exception_type(&failure("Os{code: 2}", "not found"));
    assert_eq!(name, "Os");
}

#[test]
fn failure_without_a_delimiter_is_its_own_type() {
    let name = Exception::parse_exception_type(&failure("Unit", "unit failure"));
    assert_eq!(name, "Unit");
}

#[test]
fn token_ends_at_the_first_delimiter() {
    assert_eq!(type_token("Outer(Inner { a: 1 })"), "Outer");
    assert_eq!(type_token("A B"), "A");
    assert_eq!(type_token("A\nB"), "A");
    assert_eq!(type_token("A\rB"), "A");
    assert_eq!(type_token("A{B"), "A");
    assert_eq!(type_token("(A)"), "");
    assert_eq!(type_token(""), "");
}

#[test]
fn white_space_of_any_kind_ends_the_token() {
    assert_eq!(type_token("Foo\tbar"), "Foo");
    assert_eq!(type_token("A\tB(1)"), "A");
    assert_eq!(type_token("Tabbed\t(1)"), "Tabbed");
    assert_eq!(type_token("Wide\u{3000}{"), "Wide");
    assert_eq!(type_token("Hard\u{a0}space"), "Hard");
    assert_eq!(type_token("Next\u{85}line"), "Next");
    assert_eq!(type_token("Line\u{2028}separator"), "Line");
    assert_eq!(type_token("Form\u{c}feed"), "Form");
}

#[test]
fn text_that_begins_with_white_space_has_an_empty_token() {
    assert_eq!(type_token("\tTabbed(1)"), "");
    assert_eq!(type_token(" Spaced(1)"), "");
    assert_eq!(type_token("\u{a0}Wide\u{3000}{"), "");
    assert_eq!(type_token("\t\t"), "");
}

#[test]
fn tab_after_the_token_ends_the_type() {
    let name = Exception::parse_exception_type(&failure("Foo\tbar", "x"));
    assert_eq!(name, "Foo");
}

#[test]
fn token_keeps_characters_beyond_ascii() {
    assert_eq!(type_token("Größe(1)"), "Größe");
    assert_eq!(type_token("错误 { }"), "错误");
}

#[test]
fn level_can_be_replaced_and_taken_away() {
    let exception = Exception::new(&failure("Broken(7)", "it broke"), "id");
    let warned = exception.with_exception_level(Some("warning".to_string()));
    assert_eq!(
        warned.properties().exception_level(),
        Some(&"warning".to_string())
    );
    assert_eq!(
        warned.properties().exception_list(),
        Some(&Json::Array(vec![descriptor("Broken", "it broke")]))
    );
    let bare = warned.with_exception_level(None);
    assert_eq!(bare.properties().exception_level(), None);
}

#[test]
fn exception_list_can_be_replaced() {
    let exception = Exception::new(&failure("Broken(7)", "it broke"), "id");
    let other = exception.set_exception_list(&failure("\"x\"", "x"));
    assert_eq!(
        other.properties().exception_list(),
        Some(&Json::Array(vec![descriptor("Error", "x")]))
    );
    assert_eq!(
        other.properties().exception_level(),
        Some(&"error".to_string())
    );
}

#[test]
fn exception_takes_properties_like_an_event() {
    let mut exception = Exception::new(&failure("Broken(7)", "it broke"), "id");
    exception.insert_prop("where", Ok(text("checkout"))).unwrap();
    exception.insert_prop("where", Ok(text("cart"))).unwrap();
    assert_eq!(
        exception.properties().props().get("where"),
        Some(&text("cart"))
    );
    let outcome = exception.insert_prop("why", Err("cannot encode".to_string()));
    assert_eq!(
        outcome,
        Err(Error::Serialization("cannot encode".to_string()))
    );
    assert_eq!(exception.properties().props().len(), 1);
    assert_eq!(
        exception.to_event().properties().props().get("where"),
        Some(&text("cart"))
    );
}

fn by_the_standard_library(debug: &str) -> String {
    debug
        .split(|c: char| c.is_whitespace() || c == '(' || c == '{')
        .next()
        .unwrap()
        .trim()
        .to_owned()
}

#[test]
fn white_space_is_what_the_standard_library_takes_for_it() {
    let mut count = 0;
    for code in 0..=0x10ffffu32 {
        if let Some(c) = char::from_u32(code) {
            assert_eq!(is_white_space(c), c.is_whitespace(), "U+{:04X}", code);
            if is_white_space(c) {
                count += 1;
            }
        }
    }
    assert_eq!(count, 25);
}

#[test]
fn token_is_what_split_and_trim_give() {
    let alphabet = [
        ' ', '(', '{', '\r', '\n', '\t', 'A', 'b', '_', '7', '\u{a0}', '\u{3000}', '\u{85}', 'é',
        '错', '"', ')', '}', ':', '\u{b}',
    ];
    let mut state: u64 = 0x2545f4914f6cdd1d;
    for _ in 0..20000 {
        let mut debug = String::new();
        state = state
            .wrapping_mul(6364136223846793005)
            .wrapping_add(1442695040888963407);
        let len = (state >> 33) % 9;
        for _ in 0..len {
            state = state
                .wrapping_mul(6364136223846793005)
                .wrapping_add(1442695040888963407);
            debug.push(alphabet[((state >> 33) % alphabet.len() as u64) as usize]);
        }
        assert_eq!(type_token(&debug), by_the_standard_library(&debug), "{:?}", debug);
    }
}

#[test]
fn type_of_standard_errors_is_what_split_and_trim_give() {
    let parse = "abc".parse::<i32>().unwrap_err();
    let utf8 = String::from_utf8(vec![0xff]).unwrap_err();
    let float = "x".parse::<u8>().unwrap_err();
    let errors: Vec<&dyn std::error::Error> = vec![&parse, &utf8, &float];
    for error in errors {
        let failure = printed(error);
        assert_eq!(
            Exception::parse_exception_type(&failure),
            by_the_standard_library(&failure.debug)
        );
    }
}

#[test]
fn type_given_the_quoted_display() {
    assert_eq!(Exception::type_from_debug("Foo(1)", "\"foo\""), "Foo");
    assert_eq!(Exception::type_from_debug("\"foo\"", "\"foo\""), "Error");
    assert_eq!(Exception::type_from_debug("Foo(1)", "Foo(1)"), "Error");
    assert_eq!(Exception::type_from_debug("\"foo bar\"", "\"other\""), "\"foo");
    assert_eq!(Exception::type_from_debug("Foo\tbar", "\"x\""), "Foo");
    assert_eq!(Exception::type_from_debug("", ""), "Error");
    assert_eq!(Exception::type_from_debug("", "\"\""), "");
}
