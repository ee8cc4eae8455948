//! The rules of the tools: how each call starts and how it goes on.

use vstd::prelude::*;

use crate::calls::FieldView;
use crate::diff;
use crate::fingerprint;
use crate::json;
use crate::json::Json;
use crate::network;
use crate::pages;
use crate::pages::StateView;
use crate::protocol::{ActionView, Event, StepView, TaskView};
use crate::storage;
use crate::text;

verus! {

/// How many requests are listed where no limit is given.
pub const REQUEST_LIMIT: usize = 100;

/// How many milliseconds are waited where no timeout is given.
pub const WAIT_MS: u64 = 10_000;

/// A step that needs an open page, refused where the page is not open.
pub open spec fn on_page<B, P, L>(
    s: StateView<B, P, L>,
    id: Seq<char>,
    step: StepView<P, L>,
) -> StepView<P, L> {
    if s.pages.contains_key(id) {
        step
    } else {
        StepView::Refuse(pages::unknown_page(id))
    }
}

/// A tab is opened blank, so that its log has the navigation too, and the
/// browser comes first where there is none.
pub open spec fn navigate<B, P, L>(s: StateView<B, P, L>, url: Seq<char>) -> StepView<P, L> {
    if s.browser is None {
        StepView::Perform(ActionView::Launch, TaskView::Launching { url })
    } else {
        open_tab(url)
    }
}

/// A blank tab is asked for.
pub open spec fn open_tab<P, L>(url: Seq<char>) -> StepView<P, L> {
    StepView::Perform(ActionView::OpenTab("about:blank"@), TaskView::Opening { url })
}

/// A fresh snapshot of a page.
pub open spec fn snapshot<B, P, L>(s: StateView<B, P, L>, id: Seq<char>) -> StepView<P, L> {
    on_page(s, id, StepView::Perform(ActionView::TakeSnapshot, TaskView::Refreshing { id }))
}

/// An action on the element that a handle stands for.
pub open spec fn act_on<B, P, L>(
    s: StateView<B, P, L>,
    id: Seq<char>,
    handle: Seq<char>,
    action: spec_fn(i64) -> ActionView,
    told: Seq<char>,
) -> StepView<P, L> {
    match s.backend_of(id, handle) {
        Ok(node) => StepView::Perform(action(node), TaskView::Acting { id, told }),
        Err(message) => StepView::Refuse(message),
    }
}

/// An action on a page as a whole.
pub open spec fn act<B, P, L>(
    s: StateView<B, P, L>,
    id: Seq<char>,
    action: ActionView,
    told: Seq<char>,
) -> StepView<P, L> {
    on_page(s, id, StepView::Perform(action, TaskView::Acting { id, told }))
}

/// A click.
pub open spec fn click<B, P, L>(s: StateView<B, P, L>, id: Seq<char>, handle: Seq<char>) -> StepView<
    P,
    L,
> {
    act_on(
        s,
        id,
        handle,
        |node: i64| ActionView::Click(node),
        "clicked "@ + handle + " on "@ + id,
    )
}

/// A text typed into an element.
pub open spec fn type_text<B, P, L>(
    s: StateView<B, P, L>,
    id: Seq<char>,
    handle: Seq<char>,
    text: Seq<char>,
    clear: bool,
) -> StepView<P, L> {
    act_on(
        s,
        id,
        handle,
        |node: i64| ActionView::TypeText { node, text, clear },
        "typed into "@ + handle + " on "@ + id,
    )
}

/// A key pressed.
pub open spec fn press<B, P, L>(s: StateView<B, P, L>, id: Seq<char>, key: Seq<char>) -> StepView<
    P,
    L,
> {
    act(s, id, ActionView::Press(key), "pressed "@ + key + " on "@ + id)
}

/// The pointer held over an element.
pub open spec fn hover<B, P, L>(s: StateView<B, P, L>, id: Seq<char>, handle: Seq<char>) -> StepView<
    P,
    L,
> {
    act_on(
        s,
        id,
        handle,
        |node: i64| ActionView::Hover(node),
        "hovered "@ + handle + " on "@ + id,
    )
}

/// What is told of a selected option, whose value is given in quotes.
pub open spec fn selected(quoted: Seq<char>, handle: Seq<char>, id: Seq<char>) -> Seq<char> {
    "selected "@ + quoted + " in "@ + handle + " on "@ + id
}

/// An option selected in a dropdown.
pub open spec fn select<B, P, L>(
    s: StateView<B, P, L>,
    id: Seq<char>,
    handle: Seq<char>,
    value: Seq<char>,
) -> StepView<P, L> {
    act_on(
        s,
        id,
        handle,
        |node: i64| ActionView::SelectOption { node, value },
        selected(text::quoted(value), handle, id),
    )
}

/// One entry back in the history of a page.
pub open spec fn back<B, P, L>(s: StateView<B, P, L>, id: Seq<char>) -> StepView<P, L> {
    act(s, id, ActionView::GoBack, "went back on "@ + id)
}

/// The recent requests of a page that has a log.
pub open spec fn network_requests<B, P, L>(
    s: StateView<B, P, L>,
    id: Seq<char>,
    filter: Option<Seq<char>>,
    limit: Option<usize>,
) -> StepView<P, L> {
    match s.netlog_of(id) {
        Some(_) => StepView::Perform(
            ActionView::RecentRequests {
                limit: match limit {
                    Some(n) => n,
                    None => REQUEST_LIMIT,
                },
                filter,
            },
            TaskView::Listing,
        ),
        None => StepView::Refuse("no network log for '"@ + id + "'"@),
    }
}

/// Requests blocked by the patterns of their addresses.
pub open spec fn route_block<B, P, L>(
    s: StateView<B, P, L>,
    id: Seq<char>,
    patterns: Seq<Seq<char>>,
) -> StepView<P, L> {
    on_page(
        s,
        id,
        StepView::Perform(
            ActionView::BlockUrls(patterns),
            TaskView::Confirming {
                told: "blocking "@ + text::decimal(patterns.len()) + " pattern(s) on "@ + id + ": "@
                    + text::join(patterns, ", "@),
            },
        ),
    )
}

/// A session saved to a file.
pub open spec fn storage_save<B, P, L>(
    s: StateView<B, P, L>,
    id: Seq<char>,
    path: Seq<char>,
) -> StepView<P, L> {
    on_page(s, id, StepView::Perform(ActionView::Cookies, TaskView::ReadingCookies { path }))
}

/// A session loaded from a file.
pub open spec fn storage_load<B, P, L>(
    s: StateView<B, P, L>,
    id: Seq<char>,
    path: Seq<char>,
) -> StepView<P, L> {
    on_page(s, id, StepView::Perform(ActionView::ReadFile(path), TaskView::ReadingFile { path }))
}

/// A wait for a text, or else for a selector.
pub open spec fn wait<B, P, L>(
    s: StateView<B, P, L>,
    id: Seq<char>,
    text: Option<Seq<char>>,
    selector: Option<Seq<char>>,
    timeout_ms: Option<u64>,
) -> StepView<P, L> {
    let ms = match timeout_ms {
        Some(ms) => ms,
        None => WAIT_MS,
    };
    on_page(
        s,
        id,
        match (text, selector) {
            (Some(t), _) => StepView::Perform(
                ActionView::WaitForText { text: t, ms },
                TaskView::Waiting { id, what: "text "@ + text::quoted(t) },
            ),
            (None, Some(c)) => StepView::Perform(
                ActionView::WaitForSelector { selector: c, ms },
                TaskView::Waiting { id, what: "selector "@ + text::quoted(c) },
            ),
            (None, None) => StepView::Refuse("provide `text` or `selector`"@),
        },
    )
}

/// An expression evaluated in a page.
pub open spec fn evaluate<B, P, L>(
    s: StateView<B, P, L>,
    id: Seq<char>,
    expression: Seq<char>,
) -> StepView<P, L> {
    on_page(s, id, StepView::Perform(ActionView::Evaluate(expression), TaskView::Evaluating))
}

/// A page read as Markdown.
pub open spec fn read<B, P, L>(s: StateView<B, P, L>, id: Seq<char>) -> StepView<P, L> {
    on_page(s, id, StepView::Perform(ActionView::ReadMarkdown, TaskView::Reading))
}

/// A form filled from a field on, those before it being filled already. Each field
/// is looked up only when its turn comes, and its text takes the place of what the
/// field holds.
pub open spec fn fill<B, P, L>(
    s: StateView<B, P, L>,
    id: Seq<char>,
    fields: Seq<FieldView>,
    done: nat,
) -> StepView<P, L> {
    if done < fields.len() {
        let field = fields[done as int];
        match s.backend_of(id, field.handle) {
            Ok(node) => StepView::Perform(
                ActionView::TypeText { node, text: field.value, clear: true },
                TaskView::Filling { id, fields, done },
            ),
            Err(message) => StepView::Refuse(message),
        }
    } else {
        settle(s, id, "filled "@ + text::decimal(done) + " field(s) on "@ + id)
    }
}

/// A form filled.
pub open spec fn fill_form<B, P, L>(
    s: StateView<B, P, L>,
    id: Seq<char>,
    fields: Seq<FieldView>,
) -> StepView<P, L> {
    on_page(s, id, fill(s, id, fields, 0))
}

/// A page printed to a file.
pub open spec fn pdf<B, P, L>(s: StateView<B, P, L>, id: Seq<char>, path: Seq<char>) -> StepView<
    P,
    L,
> {
    on_page(s, id, StepView::Perform(ActionView::PrintPdf, TaskView::Printing { path }))
}

/// The source of a page, handed out in full.
pub open spec fn get_html<B, P, L>(s: StateView<B, P, L>, id: Seq<char>) -> StepView<P, L> {
    on_page(s, id, StepView::Perform(ActionView::Html, TaskView::Fetching))
}

/// A picture of a page.
pub open spec fn screenshot<B, P, L>(s: StateView<B, P, L>, id: Seq<char>) -> StepView<P, L> {
    on_page(s, id, StepView::Perform(ActionView::Screenshot, TaskView::Shooting { id }))
}

/// The open pages.
pub open spec fn tabs<B, P, L>(s: StateView<B, P, L>) -> StepView<P, L> {
    StepView::Reply(s.tabs())
}

/// A page closed: the browser is asked to close its tab. The page is forgotten at
/// once.
pub open spec fn close_page<B, P, L>(s: StateView<B, P, L>, id: Seq<char>) -> StepView<P, L> {
    on_page(s, id, StepView::Perform(ActionView::CloseTab, TaskView::Closing { id }))
}

/// The fingerprints of a page.
pub open spec fn fingerprint_check<B, P, L>(s: StateView<B, P, L>, id: Seq<char>) -> StepView<P, L> {
    on_page(
        s,
        id,
        StepView::Perform(ActionView::Evaluate(fingerprint::SCRIPT@), TaskView::Probing),
    )
}

/// After an action the page settles, and the text of its latest snapshot is kept
/// to compare with.
pub open spec fn settle<B, P, L>(s: StateView<B, P, L>, id: Seq<char>, told: Seq<char>) -> StepView<
    P,
    L,
> {
    StepView::Perform(ActionView::Settle, TaskView::Settling { id, told, before: s.last_text(id) })
}

/// A size in bytes behind a path.
pub open spec fn sized(path: Seq<char>, size: nat) -> Seq<char> {
    path + " ("@ + text::decimal(size) + " bytes)"@
}

/// What is told of a page that was opened.
pub open spec fn opened(id: Seq<char>, url: Seq<char>, shown: Seq<char>) -> Seq<char> {
    "page "@ + id + "\nurl "@ + url + "\n\n"@ + shown
}

/// What is told of a page that was looked at anew.
pub open spec fn refreshed(id: Seq<char>, shown: Seq<char>) -> Seq<char> {
    "page "@ + id + "\n\n"@ + shown
}

/// What is told of an action: what was done, and what then changed.
pub open spec fn acted(told: Seq<char>, change: Seq<char>) -> Seq<char> {
    told + "\n\n"@ + change
}

/// What is told of a wait.
pub open spec fn waited(found: bool, what: Seq<char>, id: Seq<char>) -> Seq<char> {
    (if found {
        "found"@
    } else {
        "TIMEOUT waiting for"@
    }) + " "@ + what + " on "@ + id
}

/// What is told of a value. One that cannot be written is told as null.
pub open spec fn evaluated(j: Json) -> Seq<char> {
    match json::written(j) {
        Some(t) => t,
        None => "null"@,
    }
}

/// The cookies and the local storage of a session go back to the page, as far as
/// the file has them.
pub open spec fn restore<P, L>(
    cookies: Option<Json>,
    local: Option<Json>,
    told: Seq<char>,
) -> StepView<P, L> {
    match cookies {
        Some(c) => StepView::Perform(
            ActionView::SetCookies(c),
            TaskView::RestoringCookies { local, told },
        ),
        None => restore_local(local, told),
    }
}

/// The local storage of a session goes back to the page, if the file has it.
pub open spec fn restore_local<P, L>(local: Option<Json>, told: Seq<char>) -> StepView<P, L> {
    match local {
        Some(l) => StepView::Perform(
            ActionView::SetLocalStorage(l),
            TaskView::RestoringLocal { told },
        ),
        None => StepView::Reply(told),
    }
}

/// A session is written once its local storage is known, or known to be out of
/// reach.
pub open spec fn save<P, L>(path: Seq<char>, cookies: Json, local: Option<Json>) -> StepView<P, L> {
    StepView::Perform(
        ActionView::WriteFile { path, bytes: storage::session_bytes(cookies, local) },
        TaskView::Confirming {
            told: "saved "@ + text::decimal(storage::cookie_count(cookies))
                + " cookies + localStorage to "@ + path,
        },
    )
}

/// The local storage that an event brings, if it brings one.
pub open spec fn local_of<B, P, L>(e: Event<B, P, L>) -> Option<Json> {
    match e {
        Event::Json(v) => Some(json::json(v)),
        _ => None,
    }
}

/// Where a step writes a session, the bytes give back what was saved: the cookies,
/// and the local storage. Fractions that do not read back, and nesting deeper
/// than a file is followed, are left out.
pub open spec fn restorable<B, P, L>(
    t: TaskView<P, L>,
    e: Event<B, P, L>,
    step: StepView<P, L>,
) -> bool {
    match (t, step) {
        (
            TaskView::ReadingLocal { cookies, .. },
            StepView::Perform(ActionView::WriteFile { bytes, .. }, _),
        ) => storage::plain_session(cookies, local_of(e)) ==> storage::restores(
            bytes,
            cookies,
            local_of(e),
        ),
        _ => true,
    }
}

/// What a loaded session is told as.
pub open spec fn loaded(path: Seq<char>) -> Seq<char> {
    "loaded session from "@ + path + " (reload the page to apply)"@
}

/// Whether an event can come of the action that a task waits for.
pub open spec fn answers<B, P, L>(t: TaskView<P, L>, e: Event<B, P, L>) -> bool {
    match t {
        TaskView::Launching { .. } => e is Launched || e is Failed,
        TaskView::Opening { .. } => e is Opened || e is Failed,
        TaskView::Logging { .. } => e is Logged,
        TaskView::Loading { .. } => e is Done || e is Failed,
        TaskView::Viewing { .. } => e is Seen || e is Failed,
        TaskView::Refreshing { .. } => e is Seen || e is Failed,
        TaskView::Acting { .. } => e is Done || e is Failed,
        TaskView::Filling { .. } => e is Done || e is Failed,
        TaskView::Settling { .. } => e is Done,
        TaskView::Comparing { .. } => e is Seen || e is Failed,
        TaskView::Listing => e is Requests,
        TaskView::Confirming { .. } => e is Done || e is Failed,
        TaskView::ReadingCookies { .. } => e is Json || e is Failed,
        TaskView::ReadingLocal { .. } => e is Json || e is Failed,
        TaskView::ReadingFile { .. } => e is Bytes || e is Failed,
        TaskView::RestoringCookies { .. } => e is Done || e is Failed,
        TaskView::RestoringLocal { .. } => e is Done || e is Failed,
        TaskView::Waiting { .. } => e is Found || e is Failed,
        TaskView::Evaluating => e is Json || e is Failed,
        TaskView::Reading => e is Text || e is Failed,
        TaskView::Printing { .. } => e is Bytes || e is Failed,
        TaskView::Fetching => e is Text || e is Failed,
        TaskView::Shooting { .. } => e is Bytes || e is Failed,
        TaskView::SavingShot { .. } => e is Saved || e is Failed,
        TaskView::Probing => e is Json || e is Failed,
        TaskView::Closing { .. } => e is Done,
    }
}

/// Whether a call can go on: the event answers the task, a browser that comes is
/// the first, a form has a field left, and an id is left for a new page.
pub open spec fn ready<B, P, L>(
    s: StateView<B, P, L>,
    t: TaskView<P, L>,
    e: Event<B, P, L>,
) -> bool {
    &&& answers(t, e)
    &&& match t {
        TaskView::Launching { .. } => e is Launched ==> s.browser is None,
        TaskView::Filling { fields, done, .. } => done < fields.len(),
        TaskView::Viewing { .. } => e is Seen ==> s.next < u64::MAX,
        _ => true,
    }
}

/// Whether a call goes on after its action failed: the local storage may be out
/// of reach when a session is saved, and may refuse to be set when one is loaded.
pub open spec fn tolerates<P, L>(t: TaskView<P, L>) -> bool {
    t is ReadingLocal || t is RestoringLocal
}

/// How a call goes on: the state after the event, and the next step.
pub open spec fn resumed<B, P, L>(
    s: StateView<B, P, L>,
    t: TaskView<P, L>,
    e: Event<B, P, L>,
) -> (StateView<B, P, L>, StepView<P, L>) {
    match (t, e) {
        (TaskView::ReadingLocal { path, cookies }, Event::Failed(_)) => (
            s,
            save(path, cookies, None),
        ),
        (TaskView::RestoringLocal { told }, Event::Failed(_)) => (s, StepView::Reply(told)),
        (_, Event::Failed(message)) => (s, StepView::Refuse(message@)),
        (TaskView::Launching { url }, Event::Launched(b)) => (s.with_browser(b), open_tab(url)),
        (TaskView::Opening { url }, Event::Opened(page)) => (
            s,
            StepView::Perform(ActionView::EnableLog, TaskView::Logging { url, page }),
        ),
        (TaskView::Logging { url, page }, Event::Logged(netlog)) => (
            s,
            StepView::Perform(ActionView::Goto(url), TaskView::Loading { url, page, netlog }),
        ),
        (TaskView::Loading { url, page, netlog }, Event::Done) => (
            s,
            StepView::Perform(ActionView::TakeSnapshot, TaskView::Viewing { url, page, netlog }),
        ),
        (TaskView::Viewing { url, page, netlog }, Event::Seen(snap)) => (
            s.with_page(page, netlog, snap),
            StepView::Reply(opened(pages::page_id(s.next + 1), url, snap.text@)),
        ),
        (TaskView::Refreshing { id }, Event::Seen(snap)) => (
            s.with_snapshot(id, snap),
            StepView::Reply(refreshed(id, snap.text@)),
        ),
        (TaskView::Acting { id, told }, Event::Done) => (s, settle(s, id, told)),
        (TaskView::Filling { id, fields, done }, Event::Done) => (s, fill(s, id, fields, done + 1)),
        (TaskView::Settling { id, told, before }, Event::Done) => (
            s,
            StepView::Perform(ActionView::TakeSnapshot, TaskView::Comparing { id, told, before }),
        ),
        (TaskView::Comparing { id, told, before }, Event::Seen(snap)) => (
            s.with_snapshot(id, snap),
            StepView::Reply(acted(told, diff::report(before, snap.text@))),
        ),
        (TaskView::Listing, Event::Requests(entries)) => (
            s,
            StepView::Reply(network::listed(entries@)),
        ),
        (TaskView::Confirming { told }, Event::Done) => (s, StepView::Reply(told)),
        (TaskView::ReadingCookies { path }, Event::Json(v)) => (
            s,
            StepView::Perform(
                ActionView::LocalStorage,
                TaskView::ReadingLocal { path, cookies: json::json(v) },
            ),
        ),
        (TaskView::ReadingLocal { path, cookies }, Event::Json(v)) => (
            s,
            save(path, cookies, Some(json::json(v))),
        ),
        (TaskView::ReadingFile { path }, Event::Bytes(b)) => (
            s,
            match storage::restored(b@) {
                Ok((cookies, local)) => restore(cookies, local, loaded(path)),
                Err(message) => StepView::Refuse(message),
            },
        ),
        (TaskView::RestoringCookies { local, told }, Event::Done) => (
            s,
            restore_local(local, told),
        ),
        (TaskView::RestoringLocal { told }, Event::Done) => (s, StepView::Reply(told)),
        (TaskView::Waiting { id, what }, Event::Found(found)) => (
            s,
            StepView::Reply(waited(found, what, id)),
        ),
        (TaskView::Evaluating, Event::Json(v)) => (
            s,
            StepView::Reply(evaluated(json::json(v))),
        ),
        (TaskView::Reading, Event::Text(t)) => (s, StepView::Reply(t@)),
        (TaskView::Printing { path }, Event::Bytes(b)) => (
            s,
            StepView::Perform(
                ActionView::WriteFile { path, bytes: b@ },
                TaskView::Confirming { told: sized(path, b@.len()) },
            ),
        ),
        (TaskView::Fetching, Event::Text(t)) => (s, StepView::Reply(t@)),
        (TaskView::Shooting { id }, Event::Bytes(b)) => (
            s,
            StepView::Perform(
                ActionView::WriteTemp { name: "ab-"@ + id + ".png"@, bytes: b@ },
                TaskView::SavingShot { size: b@.len() },
            ),
        ),
        (TaskView::SavingShot { size }, Event::Saved(path)) => (
            s,
            StepView::Reply(sized(path@, size)),
        ),
        (TaskView::Probing, Event::Json(v)) => (
            s,
            StepView::Reply(fingerprint::graded(fingerprint::probe_of(json::json(v)))),
        ),
        (TaskView::Closing { id }, Event::Done) => (s, StepView::Reply("closed "@ + id)),
        _ => arbitrary(),
    }
}

} // verus!
