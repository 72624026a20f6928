use launcher_plugins::codec::reader::{decode, request_of, scan, Document, Member};
use launcher_plugins::codec::writer::{
    comma_join, decimal_text, literal, quote_response, render, send_response,
};
use launcher_plugins::protocol::{
    ContextOption, IconSource, PluginResponse, PluginSearchResult, Request,
};

fn row(id: u32, name: &str, description: &str) -> PluginSearchResult {
    PluginSearchResult {
        id,
        name: name.to_string(),
        description: description.to_string(),
        keywords: None,
        icon: None,
        command: None,
    }
}

#[test]
fn decimal_text_writes_numbers_without_leading_zeros() {
    assert_eq!(decimal_text(0), "0");
    assert_eq!(decimal_text(7), "7");
    assert_eq!(decimal_text(10), "10");
    assert_eq!(decimal_text(999), "999");
    assert_eq!(decimal_text(1203), "1203");
    assert_eq!(decimal_text(u32::MAX), "4294967295");
}

#[test]
fn comma_join_puts_commas_between_neighbours() {
    assert_eq!(comma_join(&vec![]), "");
    assert_eq!(comma_join(&vec!["a".to_string()]), "a");
    assert_eq!(comma_join(&vec!["a".to_string(), "b".to_string(), "".to_string()]), "a,b,");
}

#[test]
fn bare_messages_are_json_strings() {
    assert_eq!(send_response(&PluginResponse::Clear), "\"Clear\"\n");
    assert_eq!(send_response(&PluginResponse::Close), "\"Close\"\n");
    assert_eq!(send_response(&PluginResponse::Finished), "\"Finished\"\n");
}

#[test]
fn fill_carries_its_text_as_a_json_string() {
    assert_eq!(
        send_response(&PluginResponse::Fill("bw git".to_string())),
        "{\"Fill\":\"bw git\"}\n"
    );
}

#[test]
fn texts_are_escaped_as_json_requires() {
    assert_eq!(
        send_response(&PluginResponse::Fill("a\"b\\c\nd\u{1}é".to_string())),
        "{\"Fill\":\"a\\\"b\\\\c\\nd\\u0001é\"}\n"
    );
}

#[test]
fn a_row_without_optional_values_has_three_members() {
    assert_eq!(
        send_response(&PluginResponse::Append(row(3, "GitHub", "user"))),
        "{\"Append\":{\"id\":3,\"name\":\"GitHub\",\"description\":\"user\"}}\n"
    );
}

#[test]
fn a_row_with_every_value_lists_them_in_order() {
    let full = PluginSearchResult {
        id: 12,
        name: "n".to_string(),
        description: "d".to_string(),
        keywords: Some(vec!["k1".to_string(), "k\"2".to_string()]),
        icon: Some(IconSource::Mime("text/plain".to_string())),
        command: Some("xdg-open x".to_string()),
    };
    assert_eq!(
        send_response(&PluginResponse::Append(full)),
        "{\"Append\":{\"id\":12,\"name\":\"n\",\"description\":\"d\",\"keywords\":[\"k1\",\"k\\\"2\"],\"icon\":{\"Mime\":\"text/plain\"},\"exec\":\"xdg-open x\"}}\n"
    );
}

#[test]
fn an_error_row_is_written_with_its_icon_name() {
    let error = PluginSearchResult::error("Vault locked", "Run 'bw unlock'");
    assert_eq!(
        send_response(&PluginResponse::Append(error)),
        "{\"Append\":{\"id\":999,\"name\":\"Vault locked\",\"description\":\"Run 'bw unlock'\",\"icon\":{\"Name\":\"dialog-error\"}}}\n"
    );
}

#[test]
fn empty_keywords_are_written_as_an_empty_array() {
    let mut r = row(0, "a", "b");
    r.keywords = Some(vec![]);
    assert_eq!(
        send_response(&PluginResponse::Append(r)),
        "{\"Append\":{\"id\":0,\"name\":\"a\",\"description\":\"b\",\"keywords\":[]}}\n"
    );
}

#[test]
fn a_context_message_lists_its_options() {
    let message = PluginResponse::Context {
        id: 4,
        options: vec![
            ContextOption { id: 0, name: "Copy password".to_string() },
            ContextOption { id: 1, name: "Copy username".to_string() },
        ],
    };
    assert_eq!(
        send_response(&message),
        "{\"Context\":{\"id\":4,\"options\":[{\"id\":0,\"name\":\"Copy password\"},{\"id\":1,\"name\":\"Copy username\"}]}}\n"
    );
    let none = PluginResponse::Context { id: 4, options: vec![] };
    assert_eq!(send_response(&none), "{\"Context\":{\"id\":4,\"options\":[]}}\n");
}

#[test]
fn encoded_lines_are_valid_json_that_serde_reads_back() {
    let full = PluginSearchResult {
        id: 12,
        name: "tab\there".to_string(),
        description: "quote \" and \\ and é".to_string(),
        keywords: Some(vec!["k".to_string()]),
        icon: Some(IconSource::Name("dialog-password".to_string())),
        command: None,
    };
    let line = send_response(&PluginResponse::Append(full));
    assert!(line.ends_with('\n'));
    assert_eq!(line.matches('\n').count(), 1);
    let value: serde_json::Value = serde_json::from_str(&line).unwrap();
    let append = value.get("Append").unwrap();
    assert_eq!(append.get("id").unwrap().as_u64(), Some(12));
    assert_eq!(append.get("name").unwrap().as_str(), Some("tab\there"));
    assert_eq!(append.get("description").unwrap().as_str(), Some("quote \" and \\ and é"));
    assert_eq!(append.get("icon").unwrap().get("Name").unwrap().as_str(), Some("dialog-password"));
    assert!(append.get("exec").is_none());
}

#[test]
fn quote_response_turns_texts_into_literals() {
    assert_eq!(
        quote_response(&PluginResponse::Fill("a\"b".to_string())),
        PluginResponse::Fill("\"a\\\"b\"".to_string())
    );
    assert_eq!(quote_response(&PluginResponse::Clear), PluginResponse::Clear);
    assert_eq!(
        quote_response(&PluginResponse::Append(row(1, "n", "d"))),
        PluginResponse::Append(row(1, "\"n\"", "\"d\""))
    );
}

#[test]
fn render_lays_out_literals_as_given() {
    assert_eq!(render(&PluginResponse::Fill("\"x\"".to_string())), "{\"Fill\":\"x\"}");
    assert_eq!(
        render(&PluginResponse::Append(row(5, "\"n\"", "\"d\""))),
        "{\"Append\":{\"id\":5,\"name\":\"n\",\"description\":\"d\"}}"
    );
    assert_eq!(render(&PluginResponse::Finished), "\"Finished\"");
}

#[test]
fn requests_are_told_apart_by_their_key() {
    assert_eq!(decode("{\"Search\":\"bw git\"}"), Some(Request::Search("bw git".to_string())));
    assert_eq!(decode("{\"Activate\":3}"), Some(Request::Activate(3)));
    assert_eq!(
        decode("{\"ActivateContext\":{\"id\":3,\"context\":1}}"),
        Some(Request::ActivateContext { id: 3, context: 1 })
    );
    assert_eq!(decode("{\"Context\":0}"), Some(Request::Context(0)));
    assert_eq!(decode("{\"Complete\":7}"), Some(Request::Complete(7)));
    assert_eq!(decode("{\"Quit\":4294967295}"), Some(Request::Quit(u32::MAX)));
    assert_eq!(decode("\"Exit\""), Some(Request::Exit));
    assert_eq!(decode("\"Interrupt\""), Some(Request::Interrupt));
}

#[test]
fn requests_may_carry_whitespace_and_escapes() {
    assert_eq!(decode("  { \"Activate\" : 3 }  "), Some(Request::Activate(3)));
    assert_eq!(
        decode("{\"Search\":\"a \\\"b\\\" \\u00e9\"}"),
        Some(Request::Search("a \"b\" é".to_string()))
    );
    assert_eq!(decode(" \"Exit\" "), Some(Request::Exit));
    assert_eq!(
        decode("{\"ActivateContext\":{\"context\":2,\"id\":9,\"extra\":true}}"),
        Some(Request::ActivateContext { id: 9, context: 2 })
    );
}

#[test]
fn lines_that_stand_for_no_request_are_not_decoded() {
    assert_eq!(decode(""), None);
    assert_eq!(decode("not json"), None);
    assert_eq!(decode("{\"Activate\":\"3\"}"), None);
    assert_eq!(decode("{\"Activate\":-1}"), None);
    assert_eq!(decode("{\"Activate\":4294967296}"), None);
    assert_eq!(decode("{\"Activate\":1.5}"), None);
    assert_eq!(decode("{\"Search\":3}"), None);
    assert_eq!(decode("{\"Unknown\":3}"), None);
    assert_eq!(decode("{}"), None);
    assert_eq!(decode("\"Quit\""), None);
    assert_eq!(decode("\"exit\""), None);
    assert_eq!(decode("3"), None);
    assert_eq!(decode("null"), None);
    assert_eq!(decode("{\"ActivateContext\":{\"id\":3}}"), None);
    assert_eq!(decode("{\"ActivateContext\":3}"), None);
    assert_eq!(decode("{\"Activate\":3} trailing"), None);
}

#[test]
fn the_first_request_in_the_fixed_order_wins() {
    assert_eq!(decode("{\"Search\":\"x\",\"Activate\":1}"), Some(Request::Activate(1)));
    assert_eq!(decode("{\"Quit\":2,\"Context\":1}"), Some(Request::Context(1)));
    assert_eq!(
        decode("{\"Activate\":\"bad\",\"Search\":\"x\"}"),
        Some(Request::Search("x".to_string()))
    );
    assert_eq!(decode("{\"Activate\":1,\"other\":[1,2]}"), Some(Request::Activate(1)));
}

#[test]
fn scan_reads_a_member_in_every_way() {
    let doc = scan("{\"Activate\":3,\"Search\":\"q\",\"ActivateContext\":{\"id\":1,\"context\":\"x\"}}");
    assert_eq!(doc.text, None);
    let members = doc.members.unwrap();
    assert_eq!(members.len(), 3);
    assert_eq!(
        members[0],
        Member { key: "Activate".to_string(), number: Some(3), text: None, numbers: None }
    );
    assert_eq!(
        members[1],
        Member {
            key: "ActivateContext".to_string(),
            number: None,
            text: None,
            numbers: Some(vec![("context".to_string(), None), ("id".to_string(), Some(1))]),
        }
    );
    assert_eq!(
        members[2],
        Member { key: "Search".to_string(), number: None, text: Some("q".to_string()), numbers: None }
    );
    let text = scan("\"Exit\"");
    assert_eq!(text, Document { text: Some("Exit".to_string()), members: None });
    assert_eq!(scan("[1]"), Document { text: None, members: None });
}

#[test]
fn request_of_picks_from_a_document() {
    let member = |key: &str, number: Option<u32>, text: Option<&str>| Member {
        key: key.to_string(),
        number,
        text: text.map(|t| t.to_string()),
        numbers: None,
    };
    let object = |members: Vec<Member>| Document { text: None, members: Some(members) };
    assert_eq!(request_of(&object(vec![member("Activate", Some(4), None)])), Some(Request::Activate(4)));
    assert_eq!(request_of(&object(vec![member("Activate", None, Some("4"))])), None);
    assert_eq!(
        request_of(&object(vec![member("Search", None, Some("q"))])),
        Some(Request::Search("q".to_string()))
    );
    assert_eq!(
        request_of(&object(vec![member("Quit", Some(1), None), member("Complete", Some(2), None)])),
        Some(Request::Complete(2))
    );
    assert_eq!(
        request_of(&object(vec![member("Context", None, None), member("Context", Some(2), None)])),
        None
    );
    let selection = Member {
        key: "ActivateContext".to_string(),
        number: None,
        text: None,
        numbers: Some(vec![("id".to_string(), Some(5)), ("context".to_string(), Some(0))]),
    };
    assert_eq!(
        request_of(&object(vec![selection])),
        Some(Request::ActivateContext { id: 5, context: 0 })
    );
    assert_eq!(request_of(&object(vec![])), None);
    assert_eq!(
        request_of(&Document { text: Some("Exit".to_string()), members: None }),
        Some(Request::Exit)
    );
    assert_eq!(
        request_of(&Document { text: Some("Interrupt".to_string()), members: None }),
        Some(Request::Interrupt)
    );
    assert_eq!(request_of(&Document { text: Some("Search".to_string()), members: None }), None);
    assert_eq!(request_of(&Document { text: None, members: None }), None);
}

#[test]
fn every_line_ends_with_its_only_line_feed() {
    let messages = vec![
        PluginResponse::Clear,
        PluginResponse::Close,
        PluginResponse::Finished,
        PluginResponse::Fill("two\nlines\r\nand more".to_string()),
        PluginResponse::Append(PluginSearchResult {
            id: 1,
            name: "a\nb".to_string(),
            description: "\n".to_string(),
            keywords: Some(vec!["k\n".to_string()]),
            icon: Some(IconSource::Name("i\nj".to_string())),
            command: Some("run\nme".to_string()),
        }),
        PluginResponse::Context {
            id: 2,
            options: vec![ContextOption { id: 0, name: "x\ny".to_string() }],
        },
    ];
    for message in &messages {
        let line = send_response(message);
        assert!(line.ends_with('\n'));
        assert_eq!(line.matches('\n').count(), 1);
    }
}

#[test]
fn a_literal_escapes_what_json_requires_and_nothing_else() {
    assert_eq!(literal(""), "\"\"");
    assert_eq!(literal("plain text"), "\"plain text\"");
    assert_eq!(literal("\""), "\"\\\"\"");
    assert_eq!(literal("\\"), "\"\\\\\"");
    assert_eq!(literal("\u{8}"), "\"\\b\"");
    assert_eq!(literal("\t"), "\"\\t\"");
    assert_eq!(literal("\n"), "\"\\n\"");
    assert_eq!(literal("\u{c}"), "\"\\f\"");
    assert_eq!(literal("\r"), "\"\\r\"");
    assert_eq!(literal("\u{0}"), "\"\\u0000\"");
    assert_eq!(literal("\u{1}"), "\"\\u0001\"");
    assert_eq!(literal("\u{b}"), "\"\\u000b\"");
    assert_eq!(literal("\u{1a}"), "\"\\u001a\"");
    assert_eq!(literal("\u{1f}"), "\"\\u001f\"");
    assert_eq!(literal(" "), "\" \"");
    assert_eq!(literal("/"), "\"/\"");
    assert_eq!(literal("\u{7f}"), "\"\u{7f}\"");
    assert_eq!(literal("é\u{2028}日本"), "\"é\u{2028}日本\"");
    assert_eq!(literal("a\"b\\c\nd"), "\"a\\\"b\\\\c\\nd\"");
}

#[test]
fn a_literal_is_the_text_escaped_character_by_character() {
    let hex = ['0', '1', '2', '3', '4', '5', '6', '7', '8', '9', 'a', 'b', 'c', 'd', 'e', 'f'];
    let mut code: u32 = 0;
    while code <= 0x10FFFF {
        if let Some(c) = char::from_u32(code) {
            let mut expected = String::from("\"x");
            match c {
                '"' => expected.push_str("\\\""),
                '\\' => expected.push_str("\\\\"),
                '\u{8}' => expected.push_str("\\b"),
                '\t' => expected.push_str("\\t"),
                '\n' => expected.push_str("\\n"),
                '\u{c}' => expected.push_str("\\f"),
                '\r' => expected.push_str("\\r"),
                _ if code < 0x20 => {
                    expected.push_str("\\u00");
                    expected.push(hex[(code / 16) as usize]);
                    expected.push(hex[(code % 16) as usize]);
                }
                _ => expected.push(c),
            }
            expected.push_str("y\"");
            let text: String = ['x', c, 'y'].iter().collect();
            assert_eq!(literal(&text), expected, "U+{:04X}", code);
        }
        code += if code < 0x3000 { 1 } else { 0x101 };
    }
}

#[test]
fn of_a_key_written_twice_the_last_value_counts() {
    assert_eq!(decode("{\"Activate\":1,\"Activate\":2}"), Some(Request::Activate(2)));
    assert_eq!(decode("{\"Activate\":1,\"Activate\":\"x\"}"), None);
    assert_eq!(
        decode("{\"Search\":\"a\",\"Search\":\"b\"}"),
        Some(Request::Search("b".to_string()))
    );
}
