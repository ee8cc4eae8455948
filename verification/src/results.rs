//! What the functions return, for every argument that they can be called with.

use rmcp::model::CallToolResult;
use rmcp::ErrorData;
use serde_json::Value;
use vstd::prelude::*;

use crate::answer;
use crate::diff;
use crate::fingerprint;
use crate::fingerprint::Probe;
use crate::json;
use crate::json::Json;
use crate::launch;
use crate::launch::LaunchPlan;
use crate::network;
use crate::network::NetEntry;
use crate::pages::{PageView, Refs, Snapshot, State};
use crate::protocol::{ActionView, Event, Step, StepView, Task, TaskView};
use crate::rules;
use crate::server;
use crate::storage;
use crate::storage::Restored;
use crate::text;

verus! {

/// A trimmed text is the text without the blanks at its two ends and nothing else
/// less.
pub proof fn trimming(s: &str, r: String)
    requires
        call_ensures(text::trimmed, (s,), r),
    ensures
        exists|i: int, j: int|
            {
                &&& 0 <= i <= j <= s@.len()
                &&& r@ == #[trigger] s@.subrange(i, j)
                &&& forall|k: int|
                    0 <= k < i || j <= k < s@.len() ==> text::is_blank(#[trigger] s@[k])
                &&& i < j ==> !text::is_blank(s@[i]) && !text::is_blank(s@[j - 1])
            },
{
    text::trim_exactly(s@);
}

/// The lines of a text, each in its place, the characters of a text, and whether a
/// character is a blank.
pub proof fn taking_apart(s: &str, ls: Vec<String>, cs: Vec<char>, c: char, b: bool)
    requires
        call_ensures(text::lines_of, (s,), ls),
        call_ensures(text::chars_of, (s,), cs),
        call_ensures(text::blank, (c,), b),
    ensures
        ls@.len() == text::lines(s@).len(),
        forall|i: int| 0 <= i < ls@.len() ==> (#[trigger] ls@[i])@ == text::lines(s@)[i],
        cs@ == s@,
        b == text::is_blank(c),
{
    assert forall|i: int| 0 <= i < ls@.len() implies (#[trigger] ls@[i])@ == text::lines(s@)[i] by {
        assert(text::views(ls@)[i] == ls@[i]@);
    }
}

/// Texts put together hold each text whole, in its place.
pub proof fn putting_together(
    a: &str,
    b: &str,
    c: &str,
    d: &str,
    parts: Vec<String>,
    chars: Vec<char>,
    from: usize,
    to: usize,
    r: (String, String, String, String),
)
    requires
        call_ensures(text::between, (a, b, c), r.0),
        call_ensures(text::pair, (a, b, c, d), r.1),
        call_ensures(text::joined, (&parts, a), r.2),
        from <= to <= chars@.len(),
        call_ensures(text::spell, (&chars, from, to), r.3),
    ensures
        r.0@ == a@ + b@ + c@,
        r.1@ == a@ + b@ + c@ + d@,
        r.2@ == text::join(parts@.map_values(|p: String| p@), a@),
        r.3@ == chars@.subrange(from as int, to as int),
{
    assert(text::views(parts@) =~= parts@.map_values(|p: String| p@));
}

/// A number put behind a text leaves the text as it was, and the number is written
/// in decimal, behind a minus sign where it is negative.
pub proof fn writing_numbers(
    one: &mut String,
    other: &mut String,
    n: u64,
    m: i64,
)
    requires
        call_ensures(text::push_decimal, (one, n), ()),
        call_ensures(text::push_signed, (other, m), ()),
    ensures
        final(one)@ == old(one)@ + text::decimal(n as nat),
        m >= 0 ==> final(other)@ == old(other)@ + text::decimal(m as nat),
        m < 0 ==> final(other)@ == old(other)@ + (seq!['-'] + text::decimal((-m) as nat)),
{
}

/// A column put behind a text leaves the text as it was.
pub proof fn writing_columns(one: &mut String, other: &mut String, s: &str, width: usize)
    requires
        call_ensures(text::push_right, (one, s, width), ()),
        call_ensures(text::push_left, (other, s, width), ()),
    ensures
        final(one)@ == old(one)@ + text::right(s@, width as nat),
        final(other)@ == old(other)@ + text::left(s@, width as nat),
{
}

/// The diff of two snapshots is the report on them. Of one line that became another
/// it tells both, whole, and of a snapshot and itself it tells no change.
pub proof fn comparing(before: &str, after: &str, r: String)
    requires
        call_ensures(diff::snapshot_diff, (before, after), r),
    ensures
        r@ == diff::report(before@, after@),
        before@ == after@ ==> r@ == "(no visible change)"@,
        ({
            &&& before@ != after@
            &&& !before@.contains('\n') && !after@.contains('\n')
            &&& before@.len() > 0 && !text::is_blank(before@[0]) && !text::is_blank(before@.last())
            &&& after@.len() > 0 && !text::is_blank(after@[0]) && !text::is_blank(after@.last())
        }) ==> r@ == "+ "@ + after@ + seq!['\n'] + "- "@ + before@ + seq!['\n'],
{
    diff::same_snapshot_shows_no_change(before@);
    if before@ != after@ && !before@.contains('\n') && !after@.contains('\n') && before@.len() > 0
        && !text::is_blank(before@[0]) && !text::is_blank(before@.last()) && after@.len() > 0
        && !text::is_blank(after@[0]) && !text::is_blank(after@.last()) {
        diff::changed_line_is_told(before@, after@);
    }
}

/// The requests of a page are told in their order. One alone is told as its row.
pub proof fn telling_requests(entries: Vec<NetEntry>, r: String)
    requires
        call_ensures(network::list_requests, (&entries,), r),
    ensures
        r@ == network::listed(entries@),
        entries@.len() == 0 ==> r@ == "(no requests)"@,
        entries@.len() == 1 ==> {
            let e = entries@[0];
            let status = if e.failed {
                "FAIL"@
            } else if e.status is Some {
                text::decimal_signed(e.status->0 as int)
            } else {
                "…"@
            };
            r@ == text::right(status, 4) + " "@ + text::left(e.method@, 6) + " "@ + text::left(
                e.resource_type@,
                10,
            ) + " "@ + e.url@ + seq!['\n']
        },
{
    network::requests_are_told_in_order(entries@, entries@);
    if entries@.len() == 1 {
        network::request_is_told_as_a_row(entries@[0]);
        assert(entries@ =~= seq![entries@[0]]);
    }
}

/// The report on what a page gave ends in the full score exactly if the page gave
/// the text of an object in which webdriver is the text `undefined`, plugins a
/// number above zero, languages a text that is not empty, hasChrome true, and
/// headlessUA anything but true.
pub proof fn grading(raw: Value, p: Probe, r: String, m: Map<Seq<char>, Json>)
    requires
        call_ensures(fingerprint::read_probe, (&raw,), p),
        call_ensures(fingerprint::fingerprint_report, (&p,), r),
        json::json(raw) is Text,
        json::parsed(json::json(raw)->Text_0) == Some(Json::Object(m)),
    ensures
        p@ == fingerprint::probe_of(json::json(raw)),
        r@ == fingerprint::graded(fingerprint::probe_of(json::json(raw))),
        r@.skip(r@.len() - 18) == "\nscore: 5/5 passed"@ <==> {
            &&& m.contains_key("webdriver"@) && m["webdriver"@] == Json::Text("undefined"@)
            &&& m.contains_key("plugins"@) && m["plugins"@] is Int && m["plugins"@]->Int_0 > 0
            &&& m.contains_key("languages"@) && m["languages"@] is Text
                && m["languages"@]->Text_0.len() > 0
            &&& m.contains_key("hasChrome"@) && m["hasChrome"@] == Json::Bool(true)
            &&& !(m.contains_key("headlessUA"@) && m["headlessUA"@] == Json::Bool(true))
        },
        p.has_chrome == (m.contains_key("hasChrome"@) && m["hasChrome"@] == Json::Bool(true)),
        p.headless_ua == (m.contains_key("headlessUA"@) && m["headlessUA"@] == Json::Bool(true)),
        p.plugins == (if m.contains_key("plugins"@) && m["plugins"@] is Int
            && m["plugins"@]->Int_0 > 0 { m["plugins"@]->Int_0 } else { 0 }),
{
    let raw_json = json::json(raw);
    let given = raw_json->Text_0;
    assert(raw_json == Json::Text(given));
    let q = fingerprint::probe_of(raw_json);
    fingerprint::graded_as_given(raw_json);
    fingerprint::full_score_as_given(given, m);
    let cs = fingerprint::checks(q);
    let score = fingerprint::passed(cs);
    reveal_strlit("\nscore: ");
    reveal_strlit("/");
    reveal_strlit(" passed");
    reveal_strlit("\nscore: 5/5 passed");
    reveal_strlit("0123456789");
    text::decimal_digit_by_digit(0, 5);
    text::decimal_digit_by_digit(0, score);
    let head = "fingerprint check\n"@ + fingerprint::rows(cs);
    let tail = "\nscore: "@ + text::decimal(score) + "/"@ + text::decimal(5) + " passed"@;
    assert(r@ =~= head + tail);
    assert(tail.len() == 18);
    assert(r@.skip(r@.len() - 18) =~= tail);
    if score == 5 {
        assert(tail =~= "\nscore: 5/5 passed"@);
    } else {
        assert(tail[8] == "0123456789"@[score as int]);
        assert("\nscore: 5/5 passed"@[8] == '5');
    }
}

/// A port that is set is attached to, read without the blanks around it, or the
/// usual one where it cannot be read. Without one the browser is started, headless
/// exactly if that is asked for, and patched exactly if that is asked for and it
/// runs headless.
pub proof fn planning(
    connect: Option<&str>,
    headless: bool,
    stealth: bool,
    r: LaunchPlan,
    s: &str,
    port: Option<u16>,
)
    requires
        call_ensures(launch::plan_launch, (connect, headless, stealth), r),
        call_ensures(launch::parse_port, (s,), port),
    ensures
        connect is None ==> r == (LaunchPlan::Launch {
            headless,
            inject_stealth: headless && stealth,
        }),
        connect is Some ==> r == LaunchPlan::Connect(
            if launch::port_of(text::trim(connect->0@)) is Some {
                launch::port_of(text::trim(connect->0@))->0
            } else {
                9222
            },
        ),
        port == launch::port_of(s@),
{
}

/// What was saved is what is loaded: the bytes of a session give back its cookies
/// and its local storage, an empty one where there was none. Fractions that do not
/// read back, and nesting deeper than a file is followed, are left out.
pub proof fn saving_and_loading(
    cookies: Value,
    local: Option<Value>,
    bytes: Vec<u8>,
    r: Result<Restored, String>,
)
    requires
        call_ensures(storage::save_session, (cookies, local), bytes),
        call_ensures(storage::load_session, (&bytes,), r),
        json::plain(json::json(cookies), 126),
        local is Some ==> json::plain(json::json(local->0), 126),
    ensures
        r is Ok,
        r->Ok_0.cookies is Some && json::json(r->Ok_0.cookies->0) == json::json(cookies),
        r->Ok_0.local is Some && json::json(r->Ok_0.local->0) == (if local is Some {
            json::json(local->0)
        } else {
            Json::Object(Map::empty())
        }),
{
}

/// A file is loaded by what its object has under the two names. One that is no JSON
/// gives the message of the parser.
pub proof fn loading_by_name(bytes: Vec<u8>, r: Result<Restored, String>, cookies: Value, n: usize)
    requires
        call_ensures(storage::load_session, (&bytes,), r),
        call_ensures(storage::count_cookies, (&cookies,), n),
    ensures
        r is Err <==> json::parsed_bytes(bytes@) is Err,
        r is Err ==> json::parsed_bytes(bytes@) == Err::<Json, Seq<char>>(r->Err_0@),
        r is Ok ==> {
            let j = json::parsed_bytes(bytes@)->Ok_0;
            &&& r->Ok_0.cookies is Some <==> j is Object && j->Object_0.contains_key("cookies"@)
            &&& r->Ok_0.cookies is Some ==> json::json(r->Ok_0.cookies->0)
                == j->Object_0["cookies"@]
            &&& r->Ok_0.local is Some <==> j is Object && j->Object_0.contains_key(
                "localStorage"@,
            )
            &&& r->Ok_0.local is Some ==> json::json(r->Ok_0.local->0)
                == j->Object_0["localStorage"@]
        },
        n == (if json::json(cookies) is Array { json::json(cookies)->Array_0.len() } else { 0 }),
{
}

/// A session is put back cookies first, each of its two parts as far as it is there.
pub proof fn putting_back<P, L>(
    session: Restored,
    told: String,
    r: Step<P, L>,
    quoted: &str,
    handle: &str,
    id: &str,
    selected: String,
)
    requires
        call_ensures(server::restore::<P, L>, (session, told), r),
        call_ensures(server::select_told, (quoted, handle, id), selected),
    ensures
        ({
            let local = if session.local is Some { Some(json::json(session.local->0)) } else {
                None
            };
            r@ == if session.cookies is Some {
                StepView::<P, L>::Perform(
                    ActionView::SetCookies(json::json(session.cookies->0)),
                    TaskView::RestoringCookies { local, told: told@ },
                )
            } else if local is Some {
                StepView::<P, L>::Perform(
                    ActionView::SetLocalStorage(local->0),
                    TaskView::RestoringLocal { told: told@ },
                )
            } else {
                StepView::<P, L>::Reply(told@)
            }
        }),
        selected@ == "selected "@ + quoted@ + " in "@ + handle@ + " on "@ + id@,
{
}

/// A reply reaches the client as one text, whole and not marked as an error, and a
/// refusal as an internal error with its whole message and nothing else.
pub proof fn answering(end: Result<String, String>, r: Result<CallToolResult, ErrorData>)
    requires
        call_ensures(answer::answer, (end,), r),
    ensures
        end is Ok <==> r is Ok,
        end is Ok ==> {
            &&& answer::result_view(r->Ok_0).texts == seq![end->Ok_0@]
            &&& answer::result_view(r->Ok_0).is_error == Some(false)
        },
        end is Err ==> {
            &&& answer::error_view(r->Err_0).code == -32603
            &&& answer::error_view(r->Err_0).message == end->Err_0@
            &&& !answer::error_view(r->Err_0).has_data
        },
{
}

/// What is remembered of the pages is what is answered, and asking changes nothing:
/// the page of an id, the node of a handle, the text of the latest snapshot, and
/// the log.
pub proof fn remembering<B, P, L>(
    s: State<B, P, L>,
    id: &str,
    handle: &str,
    page: Result<&P, String>,
    node: Result<i64, String>,
    last: String,
    log: Option<&L>,
)
    requires
        call_ensures(State::<B, P, L>::page_of, (&s, id), page),
        call_ensures(State::<B, P, L>::backend_of, (&s, id, handle), node),
        call_ensures(State::<B, P, L>::last_text, (&s, id), last),
        call_ensures(State::<B, P, L>::netlog_of, (&s, id), log),
    ensures
        page is Ok <==> s@.pages.contains_key(id@),
        page is Ok ==> *page->Ok_0 == s@.pages[id@].page,
        page is Err ==> page->Err_0@ == "unknown page '"@ + id@ + "'"@,
        node is Ok <==> s@.pages.contains_key(id@) && s@.pages[id@].refs.contains_key(handle@),
        node is Ok ==> node->Ok_0 == s@.pages[id@].refs[handle@],
        node is Err ==> node->Err_0@ == (if s@.pages.contains_key(id@) {
            "unknown ref '"@ + handle@ + "' (re-snapshot?)"@
        } else {
            "unknown page '"@ + id@ + "'"@
        }),
        last@ == (if s@.pages.contains_key(id@) { s@.pages[id@].last_text } else { Seq::empty() }),
        log is Some <==> s@.pages.contains_key(id@) && s@.pages[id@].netlog is Some,
        log is Some ==> Some(*log->0) == s@.pages[id@].netlog,
{
}

/// A page that is taken in is remembered under the next id, which is told, with its
/// log and its first snapshot. Nothing else changes.
pub proof fn taking_in<B, P, L>(
    s: &mut State<B, P, L>,
    page: P,
    netlog: Option<L>,
    snap: Snapshot,
    id: String,
)
    requires
        call_ensures(State::<B, P, L>::open_page, (s, page, netlog, snap), id),
    ensures
        id@ == seq!['p'] + text::decimal(old(s)@.next + 1),
        final(s)@.browser == old(s)@.browser,
        final(s)@.ids == old(s)@.ids.push(id@),
        final(s)@.next == old(s)@.next + 1,
        final(s)@.pages == old(s)@.pages.insert(
            id@,
            (PageView { page, refs: snap.refs@, last_text: snap.text@, netlog }),
        ),
{
}

/// A snapshot that is taken in is the latest of its page, if it is open. Nothing
/// else changes. Where it comes after an action the report on what changed is told.
pub proof fn taking_in_snapshots<B, P, L>(
    one: &mut State<B, P, L>,
    other: &mut State<B, P, L>,
    id: &str,
    before: &str,
    snap: Snapshot,
    r: String,
)
    requires
        call_ensures(State::<B, P, L>::store_snapshot, (one, id, snap), ()),
        call_ensures(State::<B, P, L>::settle_diff, (other, id, before, snap), r),
        old(one)@ == old(other)@,
    ensures
        final(one)@ == final(other)@,
        r@ == diff::report(before@, snap.text@),
        !old(one)@.pages.contains_key(id@) ==> final(one)@ == old(one)@,
        old(one)@.pages.contains_key(id@) ==> {
            &&& final(one)@.browser == old(one)@.browser
            &&& final(one)@.ids == old(one)@.ids
            &&& final(one)@.next == old(one)@.next
            &&& final(one)@.pages == old(one)@.pages.insert(
                id@,
                (PageView {
                    page: old(one)@.pages[id@].page,
                    refs: snap.refs@,
                    last_text: snap.text@,
                    netlog: old(one)@.pages[id@].netlog,
                }),
            )
        },
{
}

/// A page that is forgotten leaves nothing behind. Nothing else changes, and nothing
/// at all where it is not open, which is told by name.
pub proof fn forgetting<B, P, L>(s: &mut State<B, P, L>, id: &str, r: Result<(), String>)
    requires
        call_ensures(State::<B, P, L>::close_page, (s, id), r),
    ensures
        r is Ok <==> old(s)@.pages.contains_key(id@),
        r is Err ==> r->Err_0@ == "unknown page '"@ + id@ + "'"@ && final(s)@ == old(s)@,
        r is Ok ==> {
            &&& final(s)@.pages == old(s)@.pages.remove(id@)
            &&& final(s)@.browser == old(s)@.browser
            &&& final(s)@.next == old(s)@.next
        },
{
}

/// At the start there is no browser and no page, and a browser that is taken in is
/// the one that is there. The ids of the open pages are listed in order.
pub proof fn browser_and_pages<B, P, L>(
    fresh: State<B, P, L>,
    s: &mut State<B, P, L>,
    b: B,
    t: State<B, P, L>,
    seen: Option<&B>,
    count: u64,
    listed: String,
)
    requires
        call_ensures(State::<B, P, L>::new, (), fresh),
        call_ensures(State::<B, P, L>::set_browser, (s, b), ()),
        call_ensures(State::<B, P, L>::browser, (&t,), seen),
        call_ensures(State::<B, P, L>::opened, (&t,), count),
        call_ensures(State::<B, P, L>::tabs, (&t,), listed),
    ensures
        fresh@.browser is None && fresh@.ids.len() == 0 && fresh@.next == 0,
        fresh@.pages == Map::<Seq<char>, PageView<P, L>>::empty(),
        final(s)@.browser == Some(b),
        final(s)@.ids == old(s)@.ids && final(s)@.pages == old(s)@.pages,
        final(s)@.next == old(s)@.next,
        seen is Some <==> t@.browser is Some,
        seen is Some ==> t@.browser == Some(*seen->0),
        count == t@.next,
        listed@ == (if t@.ids.len() == 0 {
            "(no open pages)"@
        } else {
            text::join(t@.ids, ", "@)
        }),
{
}

/// A handle stands for the node that it was last let stand for, and for none before.
pub proof fn standing_for(
    none: Refs,
    refs: &mut Refs,
    handle: String,
    node: i64,
    all: Refs,
    key: &str,
    found: Option<i64>,
)
    requires
        call_ensures(Refs::new, (), none),
        call_ensures(Refs::insert, (refs, handle, node), ()),
        call_ensures(Refs::get, (&all, key), found),
    ensures
        none@ == Map::<Seq<char>, i64>::empty(),
        final(refs)@ == old(refs)@.insert(handle@, node),
        found is Some <==> all@.contains_key(key@),
        found is Some ==> found->0 == all@[key@],
{
}

/// A call goes on by the rules, from its task and what came of its action, and takes
/// exactly the events that can come of it: a browser only where there is none, a
/// page only while an id is left, and for a form only with a field left.
pub proof fn going_on<B, P, L>(
    s: &mut State<B, P, L>,
    t: Task<P, L>,
    e: Event<B, P, L>,
    r: Step<P, L>,
    now: State<B, P, L>,
    accepted: bool,
)
    requires
        call_ensures(State::<B, P, L>::resume, (s, t, e), r),
        call_ensures(State::<B, P, L>::accepts, (&now, &t, &e), accepted),
    ensures
        final(s)@ == rules::resumed(old(s)@, t@, e).0,
        r@ == rules::resumed(old(s)@, t@, e).1,
        rules::restorable(t@, e, r@),
        accepted <==> {
            &&& t matches Task::Filling { fields, done, .. } ==> done < fields@.len()
            &&& match e {
                Event::Failed(_) => t !is Logging && t !is Settling && t !is Listing
                    && t !is Closing,
                Event::Done => t is Loading || t is Acting || t is Filling || t is Settling
                    || t is Confirming || t is RestoringCookies || t is RestoringLocal
                    || t is Closing,
                Event::Launched(_) => t is Launching && now@.browser is None,
                Event::Opened(_) => t is Opening,
                Event::Logged(_) => t is Logging,
                Event::Seen(_) => t is Viewing && now@.next < u64::MAX || t is Refreshing
                    || t is Comparing,
                Event::Requests(_) => t is Listing,
                Event::Found(_) => t is Waiting,
                Event::Text(_) => t is Reading || t is Fetching,
                Event::Json(_) => t is ReadingCookies || t is ReadingLocal || t is Evaluating
                    || t is Probing,
                Event::Bytes(_) => t is ReadingFile || t is Printing || t is Shooting,
                Event::Saved(_) => t is SavingShot,
            }
        },
{
}

/// An opening ends with the id of the page, its address and the whole text of its
/// first snapshot, a look at a page with the whole text of the fresh one, and an
/// action with what was done and the report on what then changed.
pub proof fn ending_with_a_snapshot<B, P, L>(
    one: &mut State<B, P, L>,
    two: &mut State<B, P, L>,
    three: &mut State<B, P, L>,
    url: String,
    page: P,
    netlog: Option<L>,
    id: String,
    told: String,
    before: String,
    snap: Snapshot,
    r: (Step<P, L>, Step<P, L>, Step<P, L>),
)
    requires
        call_ensures(
            State::<B, P, L>::resume,
            (one, (Task::Viewing { url, page, netlog }), Event::Seen(snap)),
            r.0,
        ),
        call_ensures(
            State::<B, P, L>::resume,
            (two, (Task::Refreshing { id }), Event::Seen(snap)),
            r.1,
        ),
        call_ensures(
            State::<B, P, L>::resume,
            (three, (Task::Comparing { id, told, before }), Event::Seen(snap)),
            r.2,
        ),
    ensures
        r.0 is Reply && r.0->Reply_0@ == "page "@ + (seq!['p'] + text::decimal(
            old(one)@.next + 1,
        )) + "\nurl "@ + url@ + "\n\n"@ + snap.text@,
        r.1 is Reply && r.1->Reply_0@ == "page "@ + id@ + "\n\n"@ + snap.text@,
        r.2 is Reply && r.2->Reply_0@ == told@ + "\n\n"@ + diff::report(before@, snap.text@),
{
}

/// What one call saves another loads: the bytes that a session is written to, read
/// from any file on any page of any state, set these cookies and keep this local
/// storage to be set next, an empty one where it was out of reach. Fractions that do
/// not read back, and nesting deeper than a file is followed, are left out.
pub proof fn saving_then_loading<B, P, L>(
    one: &mut State<B, P, L>,
    two: &mut State<B, P, L>,
    to: String,
    from: String,
    cookies: Value,
    e: Event<B, P, L>,
    file: Vec<u8>,
    saved: Step<P, L>,
    loaded: Step<P, L>,
)
    requires
        e is Json || e is Failed,
        json::plain(json::json(cookies), 126),
        e is Json ==> json::plain(json::json(e->Json_0), 126),
        call_ensures(
            State::<B, P, L>::resume,
            (one, (Task::ReadingLocal { path: to, cookies }), e),
            saved,
        ),
        call_ensures(
            State::<B, P, L>::resume,
            (two, (Task::ReadingFile { path: from }), Event::Bytes(file)),
            loaded,
        ),
        saved@ is Perform && saved@->Perform_0 is WriteFile ==> file@
            == saved@->Perform_0->WriteFile_bytes,
    ensures
        saved@ is Perform && saved@->Perform_0 is WriteFile,
        saved@->Perform_0->WriteFile_path == to@,
        loaded@ == StepView::<P, L>::Perform(
            ActionView::SetCookies(json::json(cookies)),
            TaskView::RestoringCookies {
                local: Some(
                    if e is Json { json::json(e->Json_0) } else { Json::Object(Map::empty()) },
                ),
                told: "loaded session from "@ + from@ + " (reload the page to apply)"@,
            },
        ),
{
    let t = (Task::<P, L>::ReadingLocal { path: to, cookies })@;
    assert(rules::restorable(t, e, saved@));
}

} // verus!
