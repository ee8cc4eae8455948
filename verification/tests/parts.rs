use agent_browser::fingerprint::{fingerprint_report, read_probe, Probe, Reading};
use agent_browser::launch::{parse_port, plan_launch, LaunchPlan};
use agent_browser::network::{list_requests, NetEntry};
use agent_browser::storage::{count_cookies, load_session, save_session};
use serde_json::Value;

fn value(text: &str) -> Value {
    serde_json::from_str(text).unwrap()
}

fn entry(method: &str, kind: &str, url: &str, status: Option<i64>, failed: bool) -> NetEntry {
    NetEntry {
        url: url.to_string(),
        method: method.to_string(),
        resource_type: kind.to_string(),
        status,
        failed,
    }
}

fn probe(webdriver: Option<&str>, plugins: u64, languages: Option<&str>, chrome: bool, headless: bool) -> Probe {
    let reading = |t: Option<&str>| Reading {
        text: t.map(|t| t.to_string()),
        shown: match t {
            Some(t) => format!("\"{}\"", t),
            None => "null".to_string(),
        },
    };
    Probe {
        webdriver: reading(webdriver),
        plugins,
        languages: reading(languages),
        has_chrome: chrome,
        headless_ua: headless,
    }
}

#[test]
fn a_clean_probe_gets_the_full_score() {
    assert_eq!(
        fingerprint_report(&probe(Some("undefined"), 5, Some("en-US,en"), true, false)),
        "fingerprint check\n  ✓ navigator.webdriver = \"undefined\"\n  ✓ navigator.plugins = 5\n  \
         ✓ navigator.languages = \"en-US,en\"\n  ✓ window.chrome present\n  \
         ✓ headless in UA = false\n\nscore: 5/5 passed"
    );
}

#[test]
fn each_sign_of_automation_costs_one_point() {
    let clean = |n: usize| {
        fingerprint_report(&probe(
            if n == 0 { Some("true") } else { Some("undefined") },
            if n == 1 { 0 } else { 3 },
            if n == 2 { Some("") } else { Some("en") },
            n != 3,
            n == 4,
        ))
    };
    for n in 0..5 {
        let report = clean(n);
        assert!(report.ends_with("\nscore: 4/5 passed"));
        assert_eq!(report.matches('✗').count(), 1);
        assert!(report.lines().nth(n + 1).unwrap().starts_with("  ✗ "));
    }
    assert!(clean(5).ends_with("\nscore: 5/5 passed"));
}

#[test]
fn a_probe_is_read_off_the_text_of_an_object() {
    let raw = Value::String(
        "{\"webdriver\":\"undefined\",\"plugins\":5,\"languages\":\"en-US,\\\"x\\\"\",\
          \"hasChrome\":true,\"headlessUA\":false}"
            .to_string(),
    );
    let p = read_probe(&raw);
    assert_eq!(p.webdriver.text.as_deref(), Some("undefined"));
    assert_eq!(p.webdriver.shown, "\"undefined\"");
    assert_eq!(p.plugins, 5);
    assert_eq!(p.languages.text.as_deref(), Some("en-US,\"x\""));
    assert_eq!(p.languages.shown, "\"en-US,\\\"x\\\"\"");
    assert!(p.has_chrome);
    assert!(!p.headless_ua);
}

#[test]
fn properties_of_another_kind_are_shown_but_do_not_count() {
    let raw = Value::String(
        "{\"webdriver\":false,\"plugins\":-1,\"languages\":[1, 2],\"hasChrome\":\"true\",\
          \"headlessUA\":true}"
            .to_string(),
    );
    let p = read_probe(&raw);
    assert_eq!(p.webdriver.text, None);
    assert_eq!(p.webdriver.shown, "false");
    assert_eq!(p.plugins, 0);
    assert_eq!(p.languages.text, None);
    assert_eq!(p.languages.shown, "[1,2]");
    assert!(!p.has_chrome);
    assert!(p.headless_ua);
    let q = read_probe(&Value::String("{\"plugins\":2.5}".to_string()));
    assert_eq!(q.plugins, 0);
}

#[test]
fn a_probe_of_nothing_fails_but_for_the_user_agent() {
    for raw in [Value::Null, value("7"), Value::String("no json".to_string()), Value::String("[]".to_string())] {
        assert_eq!(
            fingerprint_report(&read_probe(&raw)),
            "fingerprint check\n  ✗ navigator.webdriver = null\n  ✗ navigator.plugins = 0\n  \
             ✗ navigator.languages = null\n  ✗ window.chrome present\n  \
             ✓ headless in UA = false\n\nscore: 1/5 passed"
        );
    }
}

#[test]
fn requests_are_listed_in_columns() {
    assert_eq!(list_requests(&Vec::new()), "(no requests)");
    assert_eq!(
        list_requests(&vec![
            entry("GET", "Document", "https://a.example/", Some(200), false),
            entry("OPTIONS", "XMLHttpRequest", "https://b.example/", None, false),
            entry("POST", "Fetch", "https://c.example/", Some(500), true),
        ]),
        " 200 GET    Document   https://a.example/\n   \
         … OPTIONS XMLHttpRequest https://b.example/\n\
         FAIL POST   Fetch      https://c.example/\n"
    );
    let e = entry("PUT", "é", "u", Some(-7), false);
    assert_eq!(
        list_requests(&vec![entry("PUT", "é", "u", Some(-7), false)]),
        format!("{:>4} {:<6} {:<10} {}\n", "-7", e.method, e.resource_type, e.url)
    );
}

#[test]
fn ports_are_read_as_the_standard_library_does() {
    for s in [
        "9222", "0", "65535", "65536", "+80", "+", "", "-1", "-0", "00080", " 80", "8o", "99999999999999999999",
        "++1", "1+", "٣",
    ] {
        assert_eq!(parse_port(s), s.parse::<u16>().ok(), "{:?}", s);
    }
}

#[test]
fn the_environment_decides_how_the_browser_is_come_by() {
    assert!(matches!(plan_launch(Some(" 9333\n"), true, true), LaunchPlan::Connect(9333)));
    assert!(matches!(plan_launch(Some("chrome"), false, false), LaunchPlan::Connect(9222)));
    assert!(matches!(plan_launch(Some(""), false, false), LaunchPlan::Connect(9222)));
    for headless in [false, true] {
        for stealth in [false, true] {
            match plan_launch(None, headless, stealth) {
                LaunchPlan::Launch { headless: h, inject_stealth: i } => {
                    assert_eq!((h, i), (headless, headless && stealth));
                }
                LaunchPlan::Connect(_) => panic!("nothing to connect to"),
            }
        }
    }
}

#[test]
fn cookies_are_counted() {
    assert_eq!(count_cookies(&value("[{},{},{}]")), 3);
    assert_eq!(count_cookies(&value("[]")), 0);
    assert_eq!(count_cookies(&value("{\"a\":1}")), 0);
}

#[test]
fn a_session_is_written_over_several_lines() {
    let bytes = save_session(value("[{\"name\":\"id\"}]"), Some(value("{\"k\":\"v\"}")));
    assert_eq!(
        String::from_utf8(bytes).unwrap(),
        "{\n  \"cookies\": [\n    {\n      \"name\": \"id\"\n    }\n  ],\n  \"localStorage\": {\n    \
         \"k\": \"v\"\n  }\n}"
    );
    let bytes = save_session(value("[]"), None);
    assert_eq!(
        String::from_utf8(bytes).unwrap(),
        "{\n  \"cookies\": [],\n  \"localStorage\": {}\n}"
    );
}

#[test]
fn a_session_is_restored_as_it_was_saved() {
    let cookies = value("[{\"name\":\"é\\n\\u0001\",\"expires\":-1,\"size\":18446744073709551615,\"x\":1.5}]");
    let local = value("{\"a\":null,\"b\":[true,[\"\"]],\"\":\"\\\"\"}");
    let bytes = save_session(cookies.clone(), Some(local.clone()));
    match load_session(&bytes) {
        Ok(session) => {
            assert_eq!(session.cookies, Some(cookies));
            assert_eq!(session.local, Some(local));
        }
        Err(e) => panic!("{}", e),
    }
}

#[test]
fn nesting_is_followed_to_a_depth() {
    let nested = |levels: usize| value(&format!("{}{}", "[".repeat(levels), "]".repeat(levels)));
    let deepest = nested(126);
    match load_session(&save_session(deepest.clone(), None)) {
        Ok(session) => assert_eq!(session.cookies, Some(deepest)),
        Err(e) => panic!("{}", e),
    }
    assert!(load_session(&save_session(nested(127), None)).is_err());
}

#[test]
fn a_file_may_lack_either_part() {
    match load_session(&b"{\"localStorage\":{}}".to_vec()) {
        Ok(session) => {
            assert_eq!(session.cookies, None);
            assert_eq!(session.local, Some(value("{}")));
        }
        Err(e) => panic!("{}", e),
    }
    match load_session(&b"[1]".to_vec()) {
        Ok(session) => assert!(session.cookies.is_none() && session.local.is_none()),
        Err(e) => panic!("{}", e),
    }
}

#[test]
fn a_file_that_is_no_json_is_refused_with_the_reason() {
    let bytes = b"{oops".to_vec();
    let reason = serde_json::from_slice::<Value>(&bytes).unwrap_err().to_string();
    match load_session(&bytes) {
        Ok(_) => panic!("read"),
        Err(e) => assert_eq!(e, reason),
    }
}
