use rustc_serialize::json::Json;
use session_auth::json::{
    find_flag, find_member, find_text, object_members, string_literal, JsonValue, Member,
};
use session_auth::scan::{admits, KEY_LIMIT, MAX_NESTING};
use session_auth::pipeline::Request;
use session_auth::result::AppError;
use session_auth::routes::session::{
    credentials_from, frame_session, parse_credentials, parse_session, serialize_session,
    session_from,
};
use session_auth::sessions::{Credentials, UserSession};

fn body_of(text: &str) -> Request {
    Request::new(None, Vec::new(), text.to_owned())
}

fn session(user_id: &str, username: &str, session_id: &str, authenticated: bool) -> UserSession {
    let mut s = UserSession::new(user_id.to_owned(), username.to_owned(), session_id.to_owned());
    s.set_authenticated(authenticated);
    s
}

#[test]
fn string_literal_quotes_plain_text() {
    assert_eq!(string_literal("admin"), Ok("\"admin\"".to_owned()));
    assert_eq!(string_literal(""), Ok("\"\"".to_owned()));
}

#[test]
fn string_literal_escapes_quotes_backslashes_and_controls() {
    assert_eq!(string_literal("a\"b"), Ok("\"a\\\"b\"".to_owned()));
    assert_eq!(string_literal("a\\b"), Ok("\"a\\\\b\"".to_owned()));
    assert_eq!(string_literal("a\nb\tc\r"), Ok("\"a\\nb\\tc\\r\"".to_owned()));
    assert_eq!(string_literal("\u{0}\u{1f}\u{7f}"), Ok("\"\\u0000\\u001f\\u007f\"".to_owned()));
    assert_eq!(string_literal("\u{8}\u{c}"), Ok("\"\\b\\f\"".to_owned()));
}

#[test]
fn string_literal_keeps_other_unicode() {
    assert_eq!(string_literal("héllo ✓"), Ok("\"héllo ✓\"".to_owned()));
}

#[test]
fn frame_session_orders_the_members() {
    assert_eq!(
        frame_session("\"admin\"", "\"1\"", "\"abc\"", true),
        "{\"username\":\"admin\",\"user_id\":\"1\",\"session_id\":\"abc\",\"authenticated\":true}"
    );
    assert_eq!(
        frame_session("U", "I", "S", false),
        "{\"username\":U,\"user_id\":I,\"session_id\":S,\"authenticated\":false}"
    );
}

#[test]
fn serialize_session_exact_text() {
    let s = session("1", "admin", "AAECAwQFBgcICQoLDA0ODw==", true);
    assert_eq!(
        serialize_session(&s),
        Ok("{\"username\":\"admin\",\"user_id\":\"1\",\"session_id\":\"AAECAwQFBgcICQoLDA0ODw==\",\"authenticated\":true}".to_owned())
    );
}

#[test]
fn serialize_session_not_authenticated_and_escaped() {
    let s = session("i\"d", "na\\me", "", false);
    assert_eq!(
        serialize_session(&s),
        Ok("{\"username\":\"na\\\\me\",\"user_id\":\"i\\\"d\",\"session_id\":\"\",\"authenticated\":false}".to_owned())
    );
}

#[test]
fn serialized_session_is_json_with_the_wire_schema() {
    let s = session("1", "admin", "abc+/==", true);
    let text = serialize_session(&s).unwrap();
    let parsed = Json::from_str(&text).unwrap();
    let object = parsed.as_object().unwrap();
    assert_eq!(object.len(), 4);
    assert_eq!(parsed.find("username").unwrap().as_string(), Some("admin"));
    assert_eq!(parsed.find("user_id").unwrap().as_string(), Some("1"));
    assert_eq!(parsed.find("session_id").unwrap().as_string(), Some("abc+/=="));
    assert_eq!(parsed.find("authenticated").unwrap().as_boolean(), Some(true));
}

#[test]
fn session_round_trip_is_field_for_field_equal() {
    let cases = vec![
        session("1", "admin", "AAECAwQFBgcICQoLDA0ODw==", true),
        session("", "", "", false),
        session("4\"2", "na\\me\n", "tab\there", true),
        session("ü", "名前", "\u{0}\u{1f}\u{7f}", false),
        session("{\"username\":\"x\"}", "a,b:c", "}{][", true),
    ];
    for s in cases {
        let text = serialize_session(&s).unwrap();
        let back = parse_session(&text).unwrap();
        assert_eq!(back, s);
        assert_eq!(back.username(), s.username());
        assert_eq!(back.user_id(), s.user_id());
        assert_eq!(back.session_id(), s.session_id());
        assert_eq!(back.authenticated(), s.authenticated());
    }
}

#[test]
fn parse_session_needs_all_four_members() {
    assert_eq!(
        parse_session("{\"username\":\"a\",\"user_id\":\"1\",\"session_id\":\"s\"}"),
        Err(AppError::JsonDecoderError)
    );
    assert_eq!(
        parse_session("{\"username\":\"a\",\"user_id\":\"1\",\"session_id\":\"s\",\"authenticated\":\"true\"}"),
        Err(AppError::JsonDecoderError)
    );
    assert_eq!(
        parse_session("{\"username\":\"a\",\"user_id\":1,\"session_id\":\"s\",\"authenticated\":true}"),
        Err(AppError::JsonDecoderError)
    );
    assert_eq!(parse_session("not json"), Err(AppError::JsonDecoderError));
    assert_eq!(
        parse_session("{\"authenticated\":false,\"session_id\":\"s\",\"user_id\":\"1\",\"username\":\"a\"}"),
        Ok(session("1", "a", "s", false))
    );
}

#[test]
fn parse_credentials_reads_username_and_password() {
    let creds = parse_credentials(&body_of("{\"username\":\"admin\",\"password\":\"admin\"}"));
    assert_eq!(creds, Ok(Credentials::new("admin".to_owned(), "admin".to_owned())));
}

#[test]
fn parse_credentials_ignores_order_space_and_other_members() {
    let creds = parse_credentials(&body_of(
        " { \"remember\" : true, \"password\" : \"p w\" ,\n \"username\" : \"a\\\"b\", \"n\": [1, {\"username\": \"inner\"}] } ",
    ));
    assert_eq!(creds, Ok(Credentials::new("a\"b".to_owned(), "p w".to_owned())));
}

#[test]
fn parse_credentials_unescapes_strings() {
    let creds = parse_credentials(&body_of(
        "{\"username\":\"\\u0061dmin\",\"password\":\"tab\\there\\\\\"}",
    ));
    assert_eq!(creds, Ok(Credentials::new("admin".to_owned(), "tab\there\\".to_owned())));
}

#[test]
fn parse_credentials_rejects_missing_members() {
    assert_eq!(
        parse_credentials(&body_of("{\"username\":\"admin\"}")),
        Err(AppError::JsonDecoderError)
    );
    assert_eq!(
        parse_credentials(&body_of("{\"password\":\"admin\"}")),
        Err(AppError::JsonDecoderError)
    );
    assert_eq!(parse_credentials(&body_of("{}")), Err(AppError::JsonDecoderError));
}

#[test]
fn parse_credentials_rejects_members_that_are_not_strings() {
    assert_eq!(
        parse_credentials(&body_of("{\"username\":\"admin\",\"password\":1234}")),
        Err(AppError::JsonDecoderError)
    );
    assert_eq!(
        parse_credentials(&body_of("{\"username\":null,\"password\":\"x\"}")),
        Err(AppError::JsonDecoderError)
    );
    assert_eq!(
        parse_credentials(&body_of("{\"username\":[\"admin\"],\"password\":\"x\"}")),
        Err(AppError::JsonDecoderError)
    );
    assert_eq!(
        parse_credentials(&body_of("{\"username\":true,\"password\":\"x\"}")),
        Err(AppError::JsonDecoderError)
    );
}

#[test]
fn parse_credentials_rejects_what_is_no_json_object() {
    for text in [
        "",
        "   ",
        "admin",
        "\"admin\"",
        "[\"admin\",\"admin\"]",
        "null",
        "42",
        "{\"username\":\"admin\",\"password\":\"admin\"",
        "{\"username\":\"admin\",\"password\":\"admin\"} trailing",
        "{username:\"admin\",password:\"admin\"}",
        "{\"username\":\"admin\",\"password\":\"admin\",}",
    ] {
        assert_eq!(parse_credentials(&body_of(text)), Err(AppError::JsonDecoderError));
    }
}

#[test]
fn parse_credentials_takes_the_last_of_repeated_members() {
    let creds = parse_credentials(&body_of(
        "{\"username\":\"first\",\"password\":\"p\",\"username\":\"second\"}",
    ));
    assert_eq!(creds, Ok(Credentials::new("second".to_owned(), "p".to_owned())));
}

#[test]
fn object_members_come_sorted_by_key() {
    let members = object_members("{\"b\":\"x\",\"a\":true,\"c\":3,\"d\":null,\"e\":[],\"f\":{},\"g\":1.5}")
        .unwrap();
    let keys: Vec<&str> = members.iter().map(|m| m.key.as_str()).collect();
    assert_eq!(keys, vec!["a", "b", "c", "d", "e", "f", "g"]);
    assert_eq!(members[0].value, JsonValue::Boolean(true));
    assert_eq!(members[1].value, JsonValue::Text("x".to_owned()));
    for m in &members[2..] {
        assert_eq!(m.value, JsonValue::Other);
    }
}

#[test]
fn object_members_of_what_is_no_object() {
    assert_eq!(object_members("[1,2]"), None);
    assert_eq!(object_members("\"text\""), None);
    assert_eq!(object_members("{"), None);
    assert_eq!(object_members(""), None);
    assert_eq!(object_members("{}"), Some(Vec::new()));
}

#[test]
fn find_member_takes_the_first_with_the_key() {
    let members = vec![
        Member { key: "a".to_owned(), value: JsonValue::Text("one".to_owned()) },
        Member { key: "b".to_owned(), value: JsonValue::Boolean(false) },
        Member { key: "a".to_owned(), value: JsonValue::Text("two".to_owned()) },
        Member { key: "c".to_owned(), value: JsonValue::Other },
    ];
    assert_eq!(find_member(&members, "a"), Some(&JsonValue::Text("one".to_owned())));
    assert_eq!(find_member(&members, "c"), Some(&JsonValue::Other));
    assert_eq!(find_member(&members, "d"), None);
    assert_eq!(find_text(&members, "a"), Some("one".to_owned()));
    assert_eq!(find_text(&members, "b"), None);
    assert_eq!(find_text(&members, "c"), None);
    assert_eq!(find_text(&members, "d"), None);
    assert_eq!(find_flag(&members, "b"), Some(false));
    assert_eq!(find_flag(&members, "a"), None);
    assert_eq!(find_flag(&members, "d"), None);
}

#[test]
fn credentials_from_parsed_members() {
    let members = vec![
        Member { key: "password".to_owned(), value: JsonValue::Text("p".to_owned()) },
        Member { key: "username".to_owned(), value: JsonValue::Text("u".to_owned()) },
    ];
    assert_eq!(
        credentials_from(Some(members)),
        Ok(Credentials::new("u".to_owned(), "p".to_owned()))
    );
    assert_eq!(credentials_from(Some(Vec::new())), Err(AppError::JsonDecoderError));
    assert_eq!(credentials_from(None), Err(AppError::JsonDecoderError));
    let flag = vec![
        Member { key: "password".to_owned(), value: JsonValue::Boolean(true) },
        Member { key: "username".to_owned(), value: JsonValue::Text("u".to_owned()) },
    ];
    assert_eq!(credentials_from(Some(flag)), Err(AppError::JsonDecoderError));
}

#[test]
fn session_from_parsed_members() {
    let members = vec![
        Member { key: "authenticated".to_owned(), value: JsonValue::Boolean(true) },
        Member { key: "session_id".to_owned(), value: JsonValue::Text("s".to_owned()) },
        Member { key: "user_id".to_owned(), value: JsonValue::Text("1".to_owned()) },
        Member { key: "username".to_owned(), value: JsonValue::Text("u".to_owned()) },
    ];
    assert_eq!(session_from(Some(members)), Ok(session("1", "u", "s", true)));
    assert_eq!(session_from(None), Err(AppError::JsonDecoderError));
    assert_eq!(session_from(Some(Vec::new())), Err(AppError::JsonDecoderError));
}

fn nested(levels: usize) -> String {
    format!(
        "{{\"username\":\"a\",\"password\":\"b\",\"n\":{}{}}}",
        "[".repeat(levels),
        "]".repeat(levels)
    )
}

fn keyed(key: &str) -> String {
    format!("{{\"{}\":\"v\"}}", key)
}

fn key_len(text: &str) -> Option<usize> {
    object_members(text).map(|members| members[0].key.len())
}

#[test]
fn limits_of_the_scan() {
    assert_eq!(MAX_NESTING, 128);
    assert_eq!(KEY_LIMIT, 65535);
}

#[test]
fn admits_ordinary_texts() {
    for text in [
        "",
        "   ",
        "{}",
        "[]",
        "null",
        "\"text\"",
        "{\"username\":\"admin\",\"password\":\"admin\"}",
        "{\"a\":[1,[2,{\"b\":[]}]],\"c\":{\"d\":true,\"e\":false,\"f\":null}}",
        " { \"a\" : 1.5e10 , \"b\" : -2E-3 , \"c\" : 1e+7 } ",
        "not json at all ]]] }}}",
        "\"unterminated [[[[",
    ] {
        assert!(admits(text), "{}", text);
    }
}

#[test]
fn brackets_inside_strings_are_no_nesting() {
    let brackets = "[{".repeat(1000);
    assert!(admits(&format!("\"{}\"", brackets)));
    assert!(admits(&format!("{{\"a\":\"\\\"{}\"}}", brackets)));
    let body = format!("{{\"username\":\"a\",\"password\":\"{}\"}}", brackets);
    assert_eq!(
        parse_credentials(&body_of(&body)),
        Ok(Credentials::new("a".to_owned(), brackets.clone()))
    );
    let s = session(&brackets, &brackets, &brackets, true);
    assert_eq!(parse_session(&serialize_session(&s).unwrap()), Ok(s));
}

#[test]
fn every_written_session_is_read_back() {
    let odd = [
        "",
        "[",
        "{",
        "}",
        ",}",
        ", }",
        "\":1e99999999999999999999",
        "\\u0041",
        "e+",
        "\\",
        "\"",
        "\u{0}\u{1f}\u{7f}",
        "名前✓𝄞",
    ];
    for a in odd {
        for b in odd {
            let long = b.repeat(300);
            for flag in [true, false] {
                let s = session(a, &long, &format!("{}{}", a, b), flag);
                let text = serialize_session(&s).unwrap();
                assert!(admits(&text));
                assert_eq!(parse_session(&text), Ok(s));
            }
        }
    }
}

#[test]
fn nesting_is_counted_as_open_at_one_time() {
    assert!(admits(&"[]".repeat(10_000)));
    assert!(admits(&format!("[{}]", "{},".repeat(5_000))));
    assert!(admits(&format!("{}{}", "[".repeat(128), "]".repeat(128))));
    assert!(!admits(&format!("{}{}", "[".repeat(129), "]".repeat(129))));
    assert!(!admits(&"[".repeat(129)));
    assert!(!admits(&"{\"a\":".repeat(129)));
    assert!(admits(&"{\"a\":".repeat(128)));
    assert!(admits(&format!("{} {}", "[[]]".repeat(100), "[".repeat(128))));
}

#[test]
fn a_body_at_the_nesting_limit_is_parsed() {
    let text = nested(127);
    assert!(admits(&text));
    assert_eq!(
        parse_credentials(&body_of(&text)),
        Ok(Credentials::new("a".to_owned(), "b".to_owned()))
    );
    assert_eq!(object_members(&text).map(|m| m.len()), Some(3));
}

#[test]
fn a_body_over_the_nesting_limit_is_turned_down() {
    let text = nested(128);
    assert!(!admits(&text));
    assert_eq!(object_members(&text), None);
    assert_eq!(parse_credentials(&body_of(&text)), Err(AppError::JsonDecoderError));
    assert_eq!(parse_session(&text), Err(AppError::JsonDecoderError));
}

#[test]
fn a_body_of_nothing_but_brackets_is_turned_down_unread() {
    let text = "[".repeat(400_000);
    assert_eq!(object_members(&text), None);
    assert_eq!(parse_credentials(&body_of(&text)), Err(AppError::JsonDecoderError));
    let braces = "{\"a\":".repeat(400_000);
    assert_eq!(parse_credentials(&body_of(&braces)), Err(AppError::JsonDecoderError));
}

#[test]
fn a_key_may_have_as_many_bytes_as_sixteen_bits_count() {
    let at = keyed(&"k".repeat(65535));
    assert!(admits(&at));
    assert_eq!(key_len(&at), Some(65535));
    let over = keyed(&"k".repeat(65536));
    assert!(!admits(&over));
    assert_eq!(object_members(&over), None);
    assert!(!admits(&keyed(&"k".repeat(200_000))));
}

#[test]
fn key_bytes_are_counted_in_utf8() {
    let at = keyed(&"€".repeat(21845));
    assert!(admits(&at));
    assert_eq!(key_len(&at), Some(65535));
    let over = keyed(&"€".repeat(21846));
    assert!(!admits(&over));
    assert_eq!(object_members(&over), None);
    assert!(admits(&keyed(&"é".repeat(32767))));
    assert!(!admits(&keyed(&"é".repeat(32768))));
    assert!(admits(&keyed(&"𝄞".repeat(16383))));
    assert!(!admits(&keyed(&"𝄞".repeat(16384))));
}

#[test]
fn key_bytes_are_counted_after_unescaping() {
    let newlines = keyed(&"\\n".repeat(65535));
    assert!(admits(&newlines));
    assert_eq!(key_len(&newlines), Some(65535));
    assert!(!admits(&keyed(&"\\n".repeat(65536))));
    let letters = keyed(&"\\u0041".repeat(65535));
    assert!(admits(&letters));
    assert_eq!(key_len(&letters), Some(65535));
    assert!(!admits(&keyed(&"\\u0041".repeat(65536))));
    let two = keyed(&"\\u00e9".repeat(32767));
    assert!(admits(&two));
    assert_eq!(key_len(&two), Some(65534));
    assert!(!admits(&keyed(&"\\u00E9".repeat(32768))));
    let three = keyed(&"\\u20ac".repeat(21845));
    assert!(admits(&three));
    assert_eq!(key_len(&three), Some(65535));
    assert!(!admits(&keyed(&"\\u20AC".repeat(21846))));
    let pairs = keyed(&"\\ud834\\udd1e".repeat(16383));
    assert!(admits(&pairs));
    assert_eq!(key_len(&pairs), Some(65532));
    assert!(!admits(&keyed(&"\\uD834\\uDD1E".repeat(16384))));
    let quotes = keyed(&"\\\"\\\\".repeat(32767));
    assert!(admits(&quotes));
    assert_eq!(key_len(&quotes), Some(65534));
}

#[test]
fn keys_of_open_objects_count_together() {
    let outer = "a".repeat(40_000);
    let at = format!("{{\"{}\":{{\"{}\":1}}}}", outer, "b".repeat(25_535));
    assert!(admits(&at));
    assert_eq!(key_len(&at), Some(40_000));
    let over = format!("{{\"{}\":{{\"{}\":1}}}}", outer, "b".repeat(25_536));
    assert!(!admits(&over));
    assert_eq!(object_members(&over), None);
    let heavy = format!("{{\"{}\":{{\"{}\":1}}}}", outer, "b".repeat(30_000));
    assert_eq!(object_members(&heavy), None);
    let through_array = format!("{{\"{}\":[[{{\"{}\":1}}]]}}", outer, "b".repeat(25_536));
    assert!(!admits(&through_array));
}

#[test]
fn keys_one_after_the_other_do_not_count_together() {
    let text = format!(
        "{{\"{}\":1,\"{}\":{{\"{}\":[]}},\"{}\":2}}",
        "a".repeat(60_000),
        "b".repeat(30_000),
        "c".repeat(35_535),
        "d".repeat(65_535)
    );
    assert!(admits(&text));
    assert_eq!(object_members(&text).map(|m| m.len()), Some(3));
    let values = format!("{{\"k\":\"{}\",\"l\":[\"{}\"]}}", "v".repeat(200_000), "w".repeat(200_000));
    assert!(admits(&values));
    assert_eq!(object_members(&values).map(|m| m.len()), Some(2));
}

#[test]
fn an_exponent_must_fit_a_usize() {
    let at = format!("{{\"a\":1e{}}}", usize::MAX);
    assert!(admits(&at));
    assert_eq!(object_members(&at).map(|m| m.len()), Some(1));
    let over = format!("{{\"a\":1e{}}}", usize::MAX as u128 + 1);
    assert!(!admits(&over));
    assert_eq!(object_members(&over), None);
    assert!(!admits("{\"a\":1e99999999999999999999}"));
    assert_eq!(object_members("{\"a\":1e99999999999999999999}"), None);
    assert!(!admits("[1.5E-99999999999999999999999]"));
    assert!(!admits("[2e+184467440737095516150]"));
}

#[test]
fn an_exponent_may_have_any_number_of_leading_zeros() {
    let text = format!("{{\"a\":1e{}7,\"b\":2E-{}1}}", "0".repeat(40), "0".repeat(40));
    assert!(admits(&text));
    assert_eq!(object_members(&text).map(|m| m.len()), Some(2));
}

#[test]
fn digits_after_an_e_in_a_string_are_no_exponent() {
    let text = "{\"a\":\"1e99999999999999999999\",\"e99999999999999999999\":true}";
    assert!(admits(text));
    assert_eq!(object_members(text).map(|m| m.len()), Some(2));
}

#[test]
fn a_comma_before_a_closing_brace_is_turned_down() {
    for text in [
        "[{\"x\":{\"a\":1,},\"k\":2}]",
        "{\"y\":{\"x\":{\"a\":1,}}}",
        "[{\"a\":1,}]",
        "{\"a\":1,}",
        "{\"a\":1, \n\t\r }",
        "[{\"x\":{\"a\":1 , } , \"k\":2}]",
    ] {
        assert!(!admits(text), "{}", text);
        assert_eq!(object_members(text), None);
    }
    assert_eq!(
        parse_credentials(&body_of("{\"username\":\"a\",\"password\":\"b\",}")),
        Err(AppError::JsonDecoderError)
    );
}

#[test]
fn a_comma_before_a_closing_brace_inside_a_string_is_text() {
    let text = "{\"username\":\",}\",\"password\":\", }\"}";
    assert!(admits(text));
    assert_eq!(
        parse_credentials(&body_of(text)),
        Ok(Credentials::new(",}".to_owned(), ", }".to_owned()))
    );
}

#[test]
fn every_session_can_be_written() {
    for s in [
        session("", "", "", false),
        session("\u{0}", "\"\\", "\u{7f}\n", true),
        session("名前", "ü", "[{[{", true),
    ] {
        assert!(serialize_session(&s).is_ok());
    }
    assert!(string_literal(&"\"".repeat(1000)).is_ok());
}
