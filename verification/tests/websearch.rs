use launcher_plugins::protocol::{
    ContextOption, IconSource, PluginResponse, PluginSearchResult, Request,
};
use launcher_plugins::step::{Effect, Next, Step};
use launcher_plugins::websearch::items::{
    display_description, display_title, Config, ExaResult, SearchReply,
};
use launcher_plugins::websearch::plugin::{context_menu, effect_of_selector, Plugin};

fn configured() -> Plugin {
    Plugin::new(Config { api_key: Some("key".to_string()), num_results: Some(5) })
}

fn page(title: Option<&str>, url: &str, text: Option<&str>) -> ExaResult {
    ExaResult {
        title: title.map(|t| t.to_string()),
        url: url.to_string(),
        text: text.map(|t| t.to_string()),
    }
}

fn pages(n: usize) -> Vec<ExaResult> {
    (0..n).map(|i| page(Some(&format!("Page {}", i)), &format!("https://example.com/{}", i), None)).collect()
}

fn error_row(title: &str, message: &str) -> PluginResponse {
    PluginResponse::Append(PluginSearchResult {
        id: 999,
        name: title.to_string(),
        description: message.to_string(),
        keywords: None,
        icon: Some(IconSource::Name("dialog-error".to_string())),
        command: None,
    })
}

fn silent() -> Step {
    Step { effect: None, replies: vec![], next: Next::Done }
}

fn listing(results: Vec<ExaResult>) -> Plugin {
    let mut plugin = configured();
    let step = plugin.handle_search("exa rust");
    assert!(matches!(step.next, Next::SearchWeb { .. }));
    plugin.search_replied(SearchReply::Results(results));
    plugin
}

#[test]
fn the_environment_wins_over_the_stored_configuration() {
    let stored = Config { api_key: Some("file".to_string()), num_results: Some(3) };
    assert_eq!(
        Config::load(Some("env".to_string()), Some(stored.clone())),
        Config { api_key: Some("env".to_string()), num_results: Some(8) }
    );
    assert_eq!(
        Config::load(Some("env".to_string()), None),
        Config { api_key: Some("env".to_string()), num_results: Some(8) }
    );
    assert_eq!(Config::load(None, Some(stored.clone())), stored);
    assert_eq!(Config::load(None, None), Config { api_key: None, num_results: None });
    assert_eq!(Config::default(), Config { api_key: None, num_results: None });
    assert_eq!(stored.requested_results(), 3);
    assert_eq!(Config::default().requested_results(), 8);
}

#[test]
fn a_page_is_shown_by_title_and_snippet() {
    let long: String = "é".repeat(150);
    let shown: String = "é".repeat(97) + "...";
    assert_eq!(display_title(&page(Some("Rust"), "u", None)), "Rust");
    assert_eq!(display_title(&page(None, "u", None)), "Untitled");
    assert_eq!(display_description(&page(None, "https://u", None)), "https://u");
    assert_eq!(display_description(&page(None, "https://u", Some("short"))), "short");
    assert_eq!(display_description(&page(None, "https://u", Some(&long))), shown);
    let exact: String = "x".repeat(100);
    assert_eq!(display_description(&page(None, "u", Some(&exact))), exact);
}

#[test]
fn web_search_with_only_the_keyword_shows_the_placeholder() {
    let mut plugin = configured();
    let step = plugin.handle_search("exa ");
    assert_eq!(
        step,
        Step {
            effect: None,
            replies: vec![
                PluginResponse::Clear,
                PluginResponse::Append(PluginSearchResult {
                    id: 0,
                    name: "Exa Search".to_string(),
                    description: "Type to search the web...".to_string(),
                    keywords: None,
                    icon: Some(IconSource::Name("web-browser".to_string())),
                    command: None,
                }),
                PluginResponse::Finished,
            ],
            next: Next::Done,
        }
    );
    assert_eq!(plugin.search_replied(SearchReply::Results(pages(2))), silent());
    assert_eq!(plugin.result_count(), 0);
}

#[test]
fn web_search_without_a_key_reports_it() {
    let mut plugin = Plugin::new(Config::default());
    let step = plugin.handle_search("exa rust");
    assert_eq!(
        step,
        Step {
            effect: None,
            replies: vec![
                PluginResponse::Clear,
                error_row("Error", "No API key configured"),
                PluginResponse::Finished,
            ],
            next: Next::Done,
        }
    );
    assert_eq!(plugin.search_replied(SearchReply::Results(pages(2))), silent());
}

#[test]
fn web_search_asks_the_service_with_the_configured_limits() {
    let mut plugin = configured();
    assert_eq!(
        plugin.handle_search("exa  verified rust "),
        Step {
            effect: None,
            replies: vec![PluginResponse::Clear],
            next: Next::SearchWeb {
                query: "verified rust".to_string(),
                api_key: "key".to_string(),
                num_results: 5,
                max_characters: 200,
            },
        }
    );
    let mut plugin = Plugin::new(Config { api_key: Some("key".to_string()), num_results: None });
    assert_eq!(
        plugin.handle_search("rust").next,
        Next::SearchWeb {
            query: "rust".to_string(),
            api_key: "key".to_string(),
            num_results: 8,
            max_characters: 200,
        }
    );
    assert_eq!(plugin.config().num_results, None);
}

#[test]
fn web_search_lists_every_page_in_the_order_given() {
    let mut plugin = configured();
    plugin.handle_search("exa rust");
    let results = vec![
        page(Some("Rust"), "https://rust-lang.org", Some("A language")),
        page(None, "https://example.com", None),
    ];
    let step = plugin.search_replied(SearchReply::Results(results));
    let row = |id: u32, name: &str, description: &str| {
        PluginResponse::Append(PluginSearchResult {
            id,
            name: name.to_string(),
            description: description.to_string(),
            keywords: None,
            icon: Some(IconSource::Name("web-browser".to_string())),
            command: None,
        })
    };
    assert_eq!(
        step,
        Step {
            effect: None,
            replies: vec![
                row(0, "Rust", "A language"),
                row(1, "Untitled", "https://example.com"),
                PluginResponse::Finished,
            ],
            next: Next::Done,
        }
    );
    assert_eq!(plugin.result_count(), 2);
    assert_eq!(plugin.result(0), Some(&"https://rust-lang.org".to_string()));
    assert_eq!(plugin.result(1), Some(&"https://example.com".to_string()));
    assert_eq!(plugin.result(2), None);
}

#[test]
fn web_search_keeps_more_than_ten_pages() {
    for n in [1usize, 10, 11, 40] {
        let plugin = listing(pages(n));
        assert_eq!(plugin.result_count(), n);
        for id in 0..n {
            assert_eq!(plugin.result(id as u32), Some(&format!("https://example.com/{}", id)));
        }
        assert_eq!(plugin.result(n as u32), None);
    }
}

#[test]
fn web_search_without_matches_names_the_query() {
    let mut plugin = configured();
    plugin.handle_search("exa rust");
    let step = plugin.search_replied(SearchReply::Results(vec![]));
    assert_eq!(
        step,
        Step {
            effect: None,
            replies: vec![
                error_row("No results", "No results found for 'rust'"),
                PluginResponse::Finished
            ],
            next: Next::Done,
        }
    );
    assert_eq!(plugin.result_count(), 0);
}

#[test]
fn web_search_failures_become_one_error_row() {
    let cases = vec![
        (SearchReply::Unreachable("timed out".to_string()), "Request failed: timed out"),
        (SearchReply::Rejected("401 Unauthorized".to_string()), "API error: 401 Unauthorized"),
        (SearchReply::Malformed("missing field `results`".to_string()), "Parse error: missing field `results`"),
    ];
    for (reply, message) in cases {
        let mut plugin = listing(pages(3));
        plugin.handle_search("exa rust");
        let step = plugin.search_replied(reply);
        assert_eq!(
            step,
            Step {
                effect: None,
                replies: vec![error_row("Error", message), PluginResponse::Finished],
                next: Next::Done,
            }
        );
        assert_eq!(plugin.result_count(), 0);
    }
}

#[test]
fn every_web_search_burst_is_clear_rows_finished() {
    let replies: Vec<SearchReply> = vec![
        SearchReply::Results(vec![]),
        SearchReply::Results(pages(3)),
        SearchReply::Unreachable("x".to_string()),
        SearchReply::Rejected("500".to_string()),
        SearchReply::Malformed("y".to_string()),
    ];
    for config in [Config::default(), Config { api_key: Some("k".to_string()), num_results: None }] {
        for query in ["", "exa ", "exa rust", "rust"] {
            for reply in &replies {
                let mut plugin = Plugin::new(config.clone());
                let mut burst = Vec::new();
                let mut step = plugin.handle_search(query);
                loop {
                    burst.extend(step.replies.iter().cloned());
                    step = match step.next {
                        Next::SearchWeb { .. } => plugin.search_replied(reply.clone()),
                        Next::Done => break,
                        other => panic!("unexpected {:?}", other),
                    };
                }
                assert!(burst.len() >= 2);
                assert_eq!(burst[0], PluginResponse::Clear);
                assert_eq!(burst[burst.len() - 1], PluginResponse::Finished);
                for message in &burst[1..burst.len() - 1] {
                    assert!(matches!(message, PluginResponse::Append(_)));
                }
            }
        }
    }
}

#[test]
fn activating_an_unknown_page_does_nothing() {
    let mut plugin = listing(pages(2));
    assert_eq!(plugin.handle_activate(2), silent());
    assert_eq!(plugin.handle_activate_context(2, 0), silent());
    assert_eq!(plugin.handle_context(2), silent());
    assert_eq!(plugin.result_count(), 2);
}

#[test]
fn activating_a_page_opens_it_and_closes() {
    let mut plugin = listing(pages(2));
    assert_eq!(
        plugin.handle_activate(1),
        Step {
            effect: Some(Effect::OpenUrl("https://example.com/1".to_string())),
            replies: vec![PluginResponse::Close],
            next: Next::Done,
        }
    );
}

#[test]
fn page_context_offers_open_and_copy() {
    let mut plugin = listing(pages(1));
    assert_eq!(
        plugin.handle_context(0),
        Step {
            effect: None,
            replies: vec![PluginResponse::Context {
                id: 0,
                options: vec![
                    ContextOption { id: 0, name: "Open in browser".to_string() },
                    ContextOption { id: 1, name: "Copy URL to clipboard".to_string() },
                ],
            }],
            next: Next::Done,
        }
    );
    assert_eq!(context_menu().len(), 2);
    let url = "https://example.com/0".to_string();
    assert_eq!(effect_of_selector(0, &url), Some(Effect::OpenUrl(url.clone())));
    assert_eq!(effect_of_selector(1, &url), Some(Effect::CopyToClipboard(url.clone())));
    assert_eq!(effect_of_selector(2, &url), None);
    assert_eq!(
        plugin.handle_activate_context(0, 0),
        Step {
            effect: Some(Effect::OpenUrl(url.clone())),
            replies: vec![PluginResponse::Close],
            next: Next::Done,
        }
    );
    assert_eq!(
        plugin.handle_activate_context(0, 1),
        Step {
            effect: Some(Effect::CopyToClipboard(url.clone())),
            replies: vec![PluginResponse::Close],
            next: Next::Done,
        }
    );
    assert_eq!(
        plugin.handle_activate_context(0, 9),
        Step { effect: None, replies: vec![PluginResponse::Close], next: Next::Done }
    );
}

#[test]
fn web_lines_are_decoded_and_dispatched() {
    let mut plugin = configured();
    assert_eq!(plugin.handle_line(""), silent());
    assert_eq!(plugin.handle_line("{bad"), silent());
    let step = plugin.handle_line("{\"Search\":\"exa rust\"}");
    assert!(matches!(step.next, Next::SearchWeb { .. }));
    plugin.search_replied(SearchReply::Results(pages(1)));
    assert_eq!(plugin.handle_line("{\"Activate\":0}").replies, vec![PluginResponse::Close]);
    assert_eq!(plugin.handle_line("{\"Quit\":0}").replies, vec![PluginResponse::Finished]);
    assert_eq!(plugin.handle_line("{\"Complete\":0}").replies, vec![PluginResponse::Finished]);
    assert_eq!(plugin.handle_line("\"Interrupt\"").replies, vec![PluginResponse::Finished]);
    assert_eq!(
        plugin.dispatch(Request::Exit),
        Step { effect: None, replies: vec![], next: Next::Exit }
    );
    plugin.handle_line("{\"Search\":\"exa rust\"}");
    plugin.handle_line("\"Interrupt\"");
    assert_eq!(plugin.search_replied(SearchReply::Results(pages(1))), silent());
}
