use agent_browser::calls::{
    BlockArgs, EvalArgs, FillFormArgs, FormField, NavigateArgs, NetArgs, PageArg, PressArgs,
    RefArgs, SelectArgs, StorageArgs, TypeArgs, WaitArgs,
};
use agent_browser::fingerprint::SCRIPT;
use agent_browser::network::NetEntry;
use agent_browser::pages::{Refs, Snapshot, State};
use agent_browser::protocol::{Action, Event, Step, Task};
use agent_browser::server::{restore, select_told};
use agent_browser::storage::Restored;
use serde_json::Value;

type Server = State<&'static str, u32, u8>;
type Call = Step<u32, u8>;
type Outcome = Event<&'static str, u32, u8>;

fn snap(text: &str, refs: &[(&str, i64)]) -> Snapshot {
    let mut table = Refs::new();
    for (handle, node) in refs {
        table.insert(handle.to_string(), *node);
    }
    Snapshot { text: text.to_string(), refs: table }
}

fn asked(step: Call) -> (Action, Task<u32, u8>) {
    match step {
        Step::Perform(action, task) => (action, task),
        Step::Reply(text) => panic!("replied {}", text),
        Step::Refuse(text) => panic!("refused {}", text),
    }
}

fn reply(step: Call) -> String {
    match step {
        Step::Reply(text) => text,
        Step::Refuse(text) => panic!("refused {}", text),
        Step::Perform(_, _) => panic!("goes on"),
    }
}

fn refusal(step: Call) -> String {
    match step {
        Step::Refuse(text) => text,
        Step::Reply(text) => panic!("replied {}", text),
        Step::Perform(_, _) => panic!("goes on"),
    }
}

fn go_on(server: &mut Server, task: Task<u32, u8>, event: Outcome) -> Call {
    assert!(server.accepts(&task, &event));
    server.resume(task, event)
}

fn page(id: &str) -> PageArg {
    PageArg { page: id.to_string() }
}

fn handle(id: &str, handle: &str) -> RefArgs {
    RefArgs { page: id.to_string(), ref_: handle.to_string() }
}

fn file(id: &str, path: &str) -> StorageArgs {
    StorageArgs { page: id.to_string(), path: path.to_string() }
}

fn value(text: &str) -> Value {
    serde_json::from_str(text).unwrap()
}

fn open(server: &mut Server, url: &str, tab: u32, netlog: Option<u8>, first: Snapshot) -> String {
    let (mut action, mut task) = asked(server.browser_navigate(NavigateArgs { url: url.to_string() }));
    if matches!(action, Action::Launch) {
        (action, task) = asked(go_on(server, task, Event::Launched("chrome")));
    }
    assert!(matches!(action, Action::OpenTab(u) if u == "about:blank"));
    let (action, task) = asked(go_on(server, task, Event::Opened(tab)));
    assert!(matches!(action, Action::EnableLog));
    let (action, task) = asked(go_on(server, task, Event::Logged(netlog)));
    assert!(matches!(action, Action::Goto(u) if u == url));
    let (action, task) = asked(go_on(server, task, Event::Done));
    assert!(matches!(action, Action::TakeSnapshot));
    reply(go_on(server, task, Event::Seen(first)))
}

/// A server with one page that has a button, a field and a log.
fn one_page() -> Server {
    let mut server = Server::new();
    open(&mut server, "https://a.example", 7, Some(1), snap("- button\n- field", &[("e1", 11), ("e2", 12)]));
    server
}

/// Lets an action go well and hands in what the page then shows.
fn verify(server: &mut Server, task: Task<u32, u8>, after: Snapshot) -> String {
    let (action, task) = asked(go_on(server, task, Event::Done));
    assert!(matches!(action, Action::Settle));
    let (action, task) = asked(go_on(server, task, Event::Done));
    assert!(matches!(action, Action::TakeSnapshot));
    reply(go_on(server, task, Event::Seen(after)))
}

/// Closes a page and lets the browser close its tab.
fn close(server: &mut Server, id: &str) -> String {
    let (action, task) = asked(server.browser_close_page(page(id)));
    assert!(matches!(action, Action::CloseTab));
    assert!(matches!(&task, Task::Closing { id: closing } if closing == id));
    reply(go_on(server, task, Event::Done))
}

#[test]
fn the_first_navigation_launches_the_browser() {
    let mut server = Server::default();
    assert!(server.browser().is_none());
    let (action, task) = asked(server.browser_navigate(NavigateArgs { url: "u".to_string() }));
    assert!(matches!(action, Action::Launch));
    assert_eq!(refusal(go_on(&mut server, task, Event::Failed("no chrome".to_string()))), "no chrome");
    assert!(server.browser().is_none());
    let told = open(&mut server, "https://a.example/x", 7, None, snap("- tree", &[]));
    assert_eq!(told, "page p1\nurl https://a.example/x\n\n- tree");
    assert_eq!(server.browser(), Some(&"chrome"));
    let (action, _) = asked(server.browser_navigate(NavigateArgs { url: "u".to_string() }));
    assert!(matches!(action, Action::OpenTab(_)));
}

#[test]
fn one_browser_comes_at_most() {
    let mut server = Server::new();
    let go = || NavigateArgs { url: "u".to_string() };
    let (first, one) = asked(server.browser_navigate(go()));
    let (second, two) = asked(server.browser_navigate(go()));
    assert!(matches!(first, Action::Launch) && matches!(second, Action::Launch));
    let (_, opening) = asked(go_on(&mut server, one, Event::Launched("first")));
    assert!(!server.accepts(&two, &Event::Launched("second")));
    assert_eq!(refusal(go_on(&mut server, two, Event::Failed("busy".to_string()))), "busy");
    assert_eq!(refusal(go_on(&mut server, opening, Event::Failed("no tab".to_string()))), "no tab");
    assert_eq!(server.browser(), Some(&"first"));
    open(&mut server, "u", 3, None, snap("t", &[]));
    close(&mut server, "p1");
    assert_eq!(server.browser(), Some(&"first"));
    assert!(matches!(asked(server.browser_navigate(go())).0, Action::OpenTab(_)));
}

#[test]
fn a_page_is_forgotten_before_its_tab_is_closed() {
    let mut server = one_page();
    let (action, task) = asked(server.browser_close_page(page("p1")));
    assert!(matches!(action, Action::CloseTab));
    assert_eq!(reply(server.browser_tabs()), "(no open pages)");
    assert_eq!(refusal(server.browser_close_page(page("p1"))), "unknown page 'p1'");
    assert!(!server.accepts(&task, &Event::Failed("x".to_string())));
    assert_eq!(reply(go_on(&mut server, task, Event::Done)), "closed p1");
}

#[test]
fn a_failed_navigation_opens_no_page() {
    let mut server = one_page();
    let (_, task) = asked(server.browser_navigate(NavigateArgs { url: "u".to_string() }));
    let (_, task) = asked(go_on(&mut server, task, Event::Opened(8)));
    let (_, task) = asked(go_on(&mut server, task, Event::Logged(None)));
    assert_eq!(refusal(go_on(&mut server, task, Event::Failed("net::ERR".to_string()))), "net::ERR");
    assert_eq!(reply(server.browser_tabs()), "p1");
    assert_eq!(server.opened(), 1);
}

#[test]
fn a_snapshot_renews_the_handles() {
    let mut server = one_page();
    let (action, task) = asked(server.browser_snapshot(page("p1")));
    assert!(matches!(action, Action::TakeSnapshot));
    assert_eq!(reply(go_on(&mut server, task, Event::Seen(snap("- link", &[("e3", 33)])))), "page p1\n\n- link");
    assert_eq!(server.last_text("p1"), "- link");
    assert_eq!(server.backend_of("p1", "e3"), Ok(33));
    assert_eq!(server.backend_of("p1", "e1"), Err("unknown ref 'e1' (re-snapshot?)".to_string()));
}

#[test]
fn a_failed_snapshot_keeps_the_old_one() {
    let mut server = one_page();
    let (_, task) = asked(server.browser_snapshot(page("p1")));
    assert_eq!(refusal(go_on(&mut server, task, Event::Failed("gone".to_string()))), "gone");
    assert_eq!(server.last_text("p1"), "- button\n- field");
    assert_eq!(server.backend_of("p1", "e1"), Ok(11));
}

#[test]
fn a_click_is_followed_by_what_changed() {
    let mut server = one_page();
    let (action, task) = asked(server.browser_click(handle("p1", "e1")));
    assert!(matches!(action, Action::Click(11)));
    assert_eq!(
        verify(&mut server, task, snap("- field\n- alert", &[("e9", 19)])),
        "clicked e1 on p1\n\n+ - alert\n- - button\n"
    );
    assert_eq!(server.last_text("p1"), "- field\n- alert");
    assert_eq!(server.backend_of("p1", "e9"), Ok(19));
}

#[test]
fn a_click_without_effect_says_so() {
    let mut server = one_page();
    let (_, task) = asked(server.browser_click(handle("p1", "e2")));
    assert_eq!(
        verify(&mut server, task, snap("  - field\n- button\n", &[])),
        "clicked e2 on p1\n\n(no visible change)"
    );
}

#[test]
fn typing_takes_the_text_and_whether_to_clear() {
    let mut server = one_page();
    let (action, task) = asked(server.browser_type(TypeArgs {
        page: "p1".to_string(),
        ref_: "e2".to_string(),
        text: "hello".to_string(),
        clear: true,
    }));
    assert!(matches!(action, Action::TypeText { node: 12, text, clear: true } if text == "hello"));
    assert_eq!(
        verify(&mut server, task, snap("- button\n- field: hello", &[])),
        "typed into e2 on p1\n\n+ - field: hello\n- - field\n"
    );
}

#[test]
fn the_other_actions_are_verified_too() {
    let mut server = one_page();
    let (action, task) = asked(server.browser_press(PressArgs { page: "p1".to_string(), key: "Enter".to_string() }));
    assert!(matches!(action, Action::Press(k) if k == "Enter"));
    assert_eq!(verify(&mut server, task, snap("a", &[("e1", 1)])), "pressed Enter on p1\n\n+ a\n- - button\n- - field\n");
    let (action, task) = asked(server.browser_hover(handle("p1", "e1")));
    assert!(matches!(action, Action::Hover(1)));
    assert_eq!(verify(&mut server, task, snap("b", &[("e1", 2)])), "hovered e1 on p1\n\n+ b\n- a\n");
    let (action, task) = asked(server.browser_select(SelectArgs {
        page: "p1".to_string(),
        ref_: "e1".to_string(),
        value: "a \"b\"\n".to_string(),
    }));
    assert!(matches!(action, Action::SelectOption { node: 2, value } if value == "a \"b\"\n"));
    assert_eq!(
        verify(&mut server, task, snap("c", &[])),
        "selected \"a \\\"b\\\"\\n\" in e1 on p1\n\n+ c\n- b\n"
    );
    let (action, task) = asked(server.browser_back(page("p1")));
    assert!(matches!(action, Action::GoBack));
    assert_eq!(verify(&mut server, task, snap("c", &[])), "went back on p1\n\n(no visible change)");
    assert_eq!(select_told("<v>", "e4", "p2"), "selected <v> in e4 on p2");
}

#[test]
fn the_change_is_told_since_the_end_of_the_action() {
    let mut server = one_page();
    let (_, task) = asked(server.browser_click(handle("p1", "e1")));
    server.store_snapshot("p1", snap("meanwhile", &[]));
    assert_eq!(
        verify(&mut server, task, snap("now", &[])),
        "clicked e1 on p1\n\n+ now\n- meanwhile\n"
    );
}

#[test]
fn a_page_closed_during_an_action_is_not_opened_again() {
    let mut server = one_page();
    let (_, task) = asked(server.browser_click(handle("p1", "e1")));
    assert_eq!(close(&mut server, "p1"), "closed p1");
    assert_eq!(verify(&mut server, task, snap("x", &[("e1", 5)])), "clicked e1 on p1\n\n+ x\n");
    assert_eq!(reply(server.browser_tabs()), "(no open pages)");
    assert_eq!(server.last_text("p1"), "");
}

#[test]
fn an_unknown_page_is_refused_by_every_tool() {
    let mut server = one_page();
    let unknown = "unknown page 'p9'";
    let id = || "p9".to_string();
    let e = || "e1".to_string();
    assert_eq!(refusal(server.browser_snapshot(page("p9"))), unknown);
    assert_eq!(refusal(server.browser_click(handle("p9", "e1"))), unknown);
    assert_eq!(refusal(server.browser_hover(handle("p9", "e1"))), unknown);
    assert_eq!(
        refusal(server.browser_type(TypeArgs { page: id(), ref_: e(), text: e(), clear: false })),
        unknown
    );
    assert_eq!(refusal(server.browser_press(PressArgs { page: id(), key: e() })), unknown);
    assert_eq!(refusal(server.browser_select(SelectArgs { page: id(), ref_: e(), value: e() })), unknown);
    assert_eq!(refusal(server.browser_back(page("p9"))), unknown);
    assert_eq!(refusal(server.browser_route_block(BlockArgs { page: id(), patterns: vec![e()] })), unknown);
    assert_eq!(refusal(server.browser_storage_save(file("p9", "f"))), unknown);
    assert_eq!(refusal(server.browser_storage_load(file("p9", "f"))), unknown);
    assert_eq!(
        refusal(server.browser_wait(WaitArgs { page: id(), text: None, selector: None, timeout_ms: None })),
        unknown
    );
    assert_eq!(refusal(server.browser_evaluate(EvalArgs { page: id(), expression: e() })), unknown);
    assert_eq!(refusal(server.browser_read(page("p9"))), unknown);
    assert_eq!(refusal(server.browser_fill_form(FillFormArgs { page: id(), fields: Vec::new() })), unknown);
    assert_eq!(refusal(server.browser_pdf(file("p9", "f"))), unknown);
    assert_eq!(refusal(server.browser_get_html(page("p9"))), unknown);
    assert_eq!(refusal(server.browser_screenshot(page("p9"))), unknown);
    assert_eq!(refusal(server.browser_fingerprint_check(page("p9"))), unknown);
    assert_eq!(refusal(server.browser_close_page(page("p9"))), unknown);
    assert_eq!(
        refusal(server.browser_network_requests(NetArgs { page: id(), filter: None, limit: None })),
        "no network log for 'p9'"
    );
    assert_eq!(server.page_of("p9"), Err(unknown.to_string()));
    assert_eq!(server.page_of("p1"), Ok(&7));
    assert_eq!(reply(server.browser_tabs()), "p1");
}

#[test]
fn an_unknown_handle_is_refused() {
    let server = one_page();
    let unknown = "unknown ref 'e7' (re-snapshot?)";
    assert_eq!(refusal(server.browser_click(handle("p1", "e7"))), unknown);
    assert_eq!(refusal(server.browser_hover(handle("p1", "e7"))), unknown);
    assert_eq!(
        refusal(server.browser_type(TypeArgs {
            page: "p1".to_string(),
            ref_: "e7".to_string(),
            text: String::new(),
            clear: false,
        })),
        unknown
    );
    assert_eq!(
        refusal(server.browser_select(SelectArgs {
            page: "p1".to_string(),
            ref_: "e7".to_string(),
            value: String::new(),
        })),
        unknown
    );
}

fn form(fields: &[(&str, &str)]) -> FillFormArgs {
    FillFormArgs {
        page: "p1".to_string(),
        fields: fields
            .iter()
            .map(|(r, v)| FormField { ref_: r.to_string(), value: v.to_string() })
            .collect(),
    }
}

#[test]
fn a_form_is_filled_field_by_field() {
    let mut server = one_page();
    let (action, task) = asked(server.browser_fill_form(form(&[("e2", "x"), ("e1", "y")])));
    assert!(matches!(action, Action::TypeText { node: 12, text, clear: true } if text == "x"));
    let (action, task) = asked(go_on(&mut server, task, Event::Done));
    assert!(matches!(action, Action::TypeText { node: 11, text, clear: true } if text == "y"));
    assert_eq!(
        verify(&mut server, task, snap("- button", &[])),
        "filled 2 field(s) on p1\n\n- - field\n"
    );
}

#[test]
fn a_form_without_fields_is_settled_at_once() {
    let mut server = one_page();
    let (action, task) = asked(server.browser_fill_form(form(&[])));
    assert!(matches!(action, Action::Settle));
    let (_, task) = asked(go_on(&mut server, task, Event::Done));
    assert_eq!(
        reply(go_on(&mut server, task, Event::Seen(snap("- field\n- button", &[])))),
        "filled 0 field(s) on p1\n\n(no visible change)"
    );
}

#[test]
fn a_form_stops_at_a_field_that_is_unknown_or_fails() {
    let mut server = one_page();
    let (_, task) = asked(server.browser_fill_form(form(&[("e1", "x"), ("e5", "y")])));
    assert_eq!(
        refusal(go_on(&mut server, task, Event::Done)),
        "unknown ref 'e5' (re-snapshot?)"
    );
    let (_, task) = asked(server.browser_fill_form(form(&[("e1", "x")])));
    assert_eq!(refusal(go_on(&mut server, task, Event::Failed("detached".to_string()))), "detached");
}

#[test]
fn requests_are_asked_of_the_log() {
    let mut server = one_page();
    let (action, task) = asked(server.browser_network_requests(NetArgs {
        page: "p1".to_string(),
        filter: None,
        limit: None,
    }));
    assert!(matches!(action, Action::RecentRequests { limit: 100, filter: None }));
    assert!(matches!(server.netlog_of("p1"), Some(1)));
    assert_eq!(reply(go_on(&mut server, task, Event::Requests(Vec::new()))), "(no requests)");
    let (action, task) = asked(server.browser_network_requests(NetArgs {
        page: "p1".to_string(),
        filter: Some("api".to_string()),
        limit: Some(3),
    }));
    assert!(matches!(action, Action::RecentRequests { limit: 3, filter: Some(f) } if f == "api"));
    let entry = NetEntry {
        url: "/api".to_string(),
        method: "GET".to_string(),
        resource_type: "Fetch".to_string(),
        status: Some(204),
        failed: false,
    };
    assert_eq!(
        reply(go_on(&mut server, task, Event::Requests(vec![entry]))),
        " 204 GET    Fetch      /api\n"
    );
}

#[test]
fn a_page_without_a_log_has_no_requests_to_tell() {
    let mut server = Server::new();
    open(&mut server, "u", 1, None, snap("", &[]));
    assert_eq!(
        refusal(server.browser_network_requests(NetArgs { page: "p1".to_string(), filter: None, limit: None })),
        "no network log for 'p1'"
    );
}

#[test]
fn patterns_are_blocked_and_told() {
    let mut server = one_page();
    let patterns = vec!["*.png".to_string(), "*ads*".to_string()];
    let (action, task) =
        asked(server.browser_route_block(BlockArgs { page: "p1".to_string(), patterns: patterns.clone() }));
    assert!(matches!(action, Action::BlockUrls(p) if p == patterns));
    assert_eq!(
        reply(go_on(&mut server, task, Event::Done)),
        "blocking 2 pattern(s) on p1: *.png, *ads*"
    );
}

#[test]
fn a_session_is_saved_and_loaded() {
    let mut server = one_page();
    let cookies = value("[{\"name\":\"a\"},{\"name\":\"b\"}]");
    let local = value("{\"k\":\"v\"}");
    let (action, task) = asked(server.browser_storage_save(file("p1", "/s.json")));
    assert!(matches!(action, Action::Cookies));
    let (action, task) = asked(go_on(&mut server, task, Event::Json(cookies.clone())));
    assert!(matches!(action, Action::LocalStorage));
    let (action, task) = asked(go_on(&mut server, task, Event::Json(local.clone())));
    let saved = match action {
        Action::WriteFile { path, bytes } => {
            assert_eq!(path, "/s.json");
            bytes
        }
        _ => panic!("not written"),
    };
    assert_eq!(
        reply(go_on(&mut server, task, Event::Done)),
        "saved 2 cookies + localStorage to /s.json"
    );

    let (action, task) = asked(server.browser_storage_load(file("p1", "/s.json")));
    assert!(matches!(action, Action::ReadFile(p) if p == "/s.json"));
    let (action, task) = asked(go_on(&mut server, task, Event::Bytes(saved)));
    assert!(matches!(action, Action::SetCookies(v) if v == cookies));
    let (action, task) = asked(go_on(&mut server, task, Event::Done));
    assert!(matches!(action, Action::SetLocalStorage(v) if v == local));
    assert_eq!(
        reply(go_on(&mut server, task, Event::Failed("denied".to_string()))),
        "loaded session from /s.json (reload the page to apply)"
    );
}

#[test]
fn a_session_is_saved_without_its_local_storage() {
    let mut server = one_page();
    let (_, task) = asked(server.browser_storage_save(file("p1", "f")));
    let (_, task) = asked(go_on(&mut server, task, Event::Json(value("{}"))));
    let (action, task) = asked(go_on(&mut server, task, Event::Failed("denied".to_string())));
    match action {
        Action::WriteFile { bytes, .. } => assert_eq!(
            serde_json::from_slice::<Value>(&bytes).unwrap(),
            value("{\"cookies\":{},\"localStorage\":{}}")
        ),
        _ => panic!("not written"),
    }
    assert_eq!(refusal(go_on(&mut server, task, Event::Failed("disk full".to_string()))), "disk full");
}

#[test]
fn a_session_file_is_loaded_as_far_as_it_goes() {
    let mut server = one_page();
    let (_, task) = asked(server.browser_storage_load(file("p1", "f")));
    assert_eq!(
        reply(go_on(&mut server, task, Event::Bytes(b"{}".to_vec()))),
        "loaded session from f (reload the page to apply)"
    );
    let (_, task) = asked(server.browser_storage_load(file("p1", "f")));
    let (action, task) = asked(go_on(&mut server, task, Event::Bytes(b"{\"localStorage\":1}".to_vec())));
    assert!(matches!(action, Action::SetLocalStorage(v) if v == value("1")));
    assert!(matches!(go_on(&mut server, task, Event::Done), Step::Reply(_)));
    let (_, task) = asked(server.browser_storage_load(file("p1", "f")));
    let (action, task) = asked(go_on(&mut server, task, Event::Bytes(b"{\"cookies\":[]}".to_vec())));
    assert!(matches!(action, Action::SetCookies(v) if v == value("[]")));
    assert_eq!(refusal(go_on(&mut server, task, Event::Failed("bad cookie".to_string()))), "bad cookie");
    let (_, task) = asked(server.browser_storage_load(file("p1", "f")));
    let reason = serde_json::from_slice::<Value>(b"").unwrap_err().to_string();
    assert_eq!(refusal(go_on(&mut server, task, Event::Bytes(Vec::new()))), reason);
    let nothing: Call = restore(Restored { cookies: None, local: None }, "ok".to_string());
    assert_eq!(reply(nothing), "ok");
}

#[test]
fn a_wait_is_for_a_text_or_else_for_a_selector() {
    let mut server = one_page();
    let wait = |text: Option<&str>, selector: Option<&str>, timeout_ms: Option<u64>| WaitArgs {
        page: "p1".to_string(),
        text: text.map(|t| t.to_string()),
        selector: selector.map(|t| t.to_string()),
        timeout_ms,
    };
    let (action, task) = asked(server.browser_wait(wait(Some("it's \"on\""), Some("#b"), None)));
    assert!(matches!(action, Action::WaitForText { text, ms: 10_000 } if text == "it's \"on\""));
    assert_eq!(
        reply(go_on(&mut server, task, Event::Found(true))),
        "found text \"it's \\\"on\\\"\" on p1"
    );
    let (action, task) = asked(server.browser_wait(wait(None, Some("#b"), Some(5))));
    assert!(matches!(action, Action::WaitForSelector { selector, ms: 5 } if selector == "#b"));
    assert_eq!(
        reply(go_on(&mut server, task, Event::Found(false))),
        "TIMEOUT waiting for selector \"#b\" on p1"
    );
    assert_eq!(refusal(server.browser_wait(wait(None, None, None))), "provide `text` or `selector`");
}

#[test]
fn a_value_is_told_in_one_line() {
    let mut server = one_page();
    let (action, task) = asked(server.browser_evaluate(EvalArgs {
        page: "p1".to_string(),
        expression: "1+1".to_string(),
    }));
    assert!(matches!(action, Action::Evaluate(e) if e == "1+1"));
    assert_eq!(
        reply(go_on(&mut server, task, Event::Json(value("{ \"a\": [1, null, \"x\"] }")))),
        "{\"a\":[1,null,\"x\"]}"
    );
}

#[test]
fn markdown_and_source_are_handed_on() {
    let mut server = one_page();
    let (action, task) = asked(server.browser_read(page("p1")));
    assert!(matches!(action, Action::ReadMarkdown));
    assert_eq!(reply(go_on(&mut server, task, Event::Text("# Title".to_string()))), "# Title");
    let (action, task) = asked(server.browser_get_html(page("p1")));
    assert!(matches!(action, Action::Html));
    assert_eq!(reply(go_on(&mut server, task, Event::Text("<html>é</html>".to_string()))), "<html>é</html>");
}

#[test]
fn a_long_source_is_handed_out_in_full() {
    let mut server = one_page();
    for html in ["a".repeat(200_001), format!("{}é", "a".repeat(199_999)), "✓".repeat(300_000)] {
        let (_, task) = asked(server.browser_get_html(page("p1")));
        assert_eq!(reply(go_on(&mut server, task, Event::Text(html.clone()))), html);
    }
}

#[test]
fn a_pdf_is_written_to_its_path() {
    let mut server = one_page();
    let (action, task) = asked(server.browser_pdf(file("p1", "/x.pdf")));
    assert!(matches!(action, Action::PrintPdf));
    let (action, task) = asked(go_on(&mut server, task, Event::Bytes(vec![1, 2, 3])));
    assert!(matches!(action, Action::WriteFile { path, bytes } if path == "/x.pdf" && bytes == vec![1, 2, 3]));
    assert_eq!(reply(go_on(&mut server, task, Event::Done)), "/x.pdf (3 bytes)");
}

#[test]
fn a_screenshot_is_named_after_its_page() {
    let mut server = one_page();
    let (action, task) = asked(server.browser_screenshot(page("p1")));
    assert!(matches!(action, Action::Screenshot));
    let (action, task) = asked(go_on(&mut server, task, Event::Bytes(vec![0; 12])));
    assert!(matches!(action, Action::WriteTemp { name, bytes } if name == "ab-p1.png" && bytes.len() == 12));
    assert_eq!(
        reply(go_on(&mut server, task, Event::Saved("/tmp/ab-p1.png".to_string()))),
        "/tmp/ab-p1.png (12 bytes)"
    );
}

#[test]
fn fingerprints_are_asked_of_the_page_and_graded() {
    let mut server = one_page();
    let (action, task) = asked(server.browser_fingerprint_check(page("p1")));
    assert!(matches!(action, Action::Evaluate(e) if e == SCRIPT && e.starts_with("JSON.stringify({\n")));
    let raw = Value::String(
        "{\"webdriver\":\"undefined\",\"plugins\":3,\"languages\":\"en\",\"hasChrome\":true,\"headlessUA\":true}"
            .to_string(),
    );
    assert_eq!(
        reply(go_on(&mut server, task, Event::Json(raw))),
        "fingerprint check\n  ✓ navigator.webdriver = \"undefined\"\n  ✓ navigator.plugins = 3\n  \
         ✓ navigator.languages = \"en\"\n  ✓ window.chrome present\n  \
         ✗ headless in UA = true\n\nscore: 4/5 passed"
    );
}

#[test]
fn ids_are_never_given_twice() {
    let mut server = Server::new();
    assert_eq!(reply(server.browser_tabs()), "(no open pages)");
    for n in 1..=11u32 {
        let told = open(&mut server, "u", n, None, snap("t", &[]));
        assert!(told.starts_with(&format!("page p{}\n", n)));
    }
    assert_eq!(reply(server.browser_tabs()), "p1, p2, p3, p4, p5, p6, p7, p8, p9, p10, p11");
    assert_eq!(close(&mut server, "p11"), "closed p11");
    assert_eq!(close(&mut server, "p4"), "closed p4");
    assert_eq!(refusal(server.browser_close_page(page("p4"))), "unknown page 'p4'");
    assert_eq!(server.backend_of("p4", "e1"), Err("unknown page 'p4'".to_string()));
    assert_eq!(server.page_of("p5"), Ok(&5));
    assert!(open(&mut server, "u", 99, None, snap("t", &[])).starts_with("page p12\n"));
    assert_eq!(reply(server.browser_tabs()), "p1, p2, p3, p5, p6, p7, p8, p9, p10, p12");
}

#[test]
fn an_action_leaves_the_other_pages_alone() {
    let mut server = one_page();
    open(&mut server, "u", 8, Some(2), snap("other", &[("e1", 99)]));
    let (action, task) = asked(server.browser_click(handle("p2", "e1")));
    assert!(matches!(action, Action::Click(99)));
    verify(&mut server, task, snap("changed", &[]));
    assert_eq!(server.last_text("p1"), "- button\n- field");
    assert_eq!(server.backend_of("p1", "e1"), Ok(11));
    assert_eq!(server.last_text("p2"), "changed");
    assert!(matches!(server.netlog_of("p2"), Some(2)));
    assert_eq!(server.page_of("p2"), Ok(&8));
}

#[test]
fn an_event_that_answers_nothing_is_not_accepted() {
    let mut server = one_page();
    let (_, task) = asked(server.browser_click(handle("p1", "e1")));
    assert!(!server.accepts(&task, &Event::Found(true)));
    let (_, settling) = asked(go_on(&mut server, task, Event::Done));
    assert!(!server.accepts(&settling, &Event::Failed("x".to_string())));
    assert!(server.accepts(&settling, &Event::Done));
}
