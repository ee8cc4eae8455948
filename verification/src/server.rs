//! The tools: the first step of each call, and how a call goes on.

use serde_json::Value;
use vstd::prelude::*;

use crate::calls;
use crate::calls::{
    BlockArgs, EvalArgs, FillFormArgs, FormField, NavigateArgs, NetArgs, PageArg, PressArgs, RefArgs,
    SelectArgs, StorageArgs, TypeArgs, WaitArgs,
};
use crate::fingerprint;
use crate::json;
use crate::network;
use crate::pages::{Snapshot, State};
use crate::protocol::{Action, Event, Step, Task};
use crate::rules;
use crate::storage;
use crate::storage::Restored;
use crate::text;

verus! {

/// A blank tab is asked for.
fn open_tab<P, L>(url: String) -> (r: Step<P, L>)
    ensures
        r@ == rules::open_tab::<P, L>(url@),
{
    Step::Perform(Action::OpenTab("about:blank".to_owned()), Task::Opening { url })
}

/// What is told of a selected option, whose value is given in quotes.
pub fn select_told(quoted: &str, handle: &str, id: &str) -> (r: String)
    ensures
        r@ == rules::selected(quoted@, handle@, id@),
{
    let mut out = text::pair("selected ", quoted, " in ", handle);
    out.append(" on ");
    out.append(id);
    out
}

/// A size in bytes behind a path.
fn sized(path: &str, size: usize) -> (r: String)
    ensures
        r@ == rules::sized(path@, size as nat),
{
    let mut out = path.to_owned();
    out.append(" (");
    text::push_decimal(&mut out, size as u64);
    out.append(" bytes)");
    out
}

/// Puts the cookies and the local storage of a session back, as far as there are
/// any.
pub fn restore<P, L>(session: Restored, told: String) -> (r: Step<P, L>)
    ensures
        r@ == rules::restore::<P, L>(
            json::json_option(session.cookies),
            json::json_option(session.local),
            told@,
        ),
{
    match session.cookies {
        Some(c) => Step::Perform(
            Action::SetCookies(c),
            Task::RestoringCookies { local: session.local, told },
        ),
        None => restore_local(session.local, told),
    }
}

/// Puts the local storage of a session back, if there is any.
fn restore_local<P, L>(local: Option<Value>, told: String) -> (r: Step<P, L>)
    ensures
        r@ == rules::restore_local::<P, L>(json::json_option(local), told@),
{
    match local {
        Some(l) => Step::Perform(Action::SetLocalStorage(l), Task::RestoringLocal { told }),
        None => Step::Reply(told),
    }
}

/// Writes a session to its file.
fn save<P, L>(path: String, cookies: Value, local: Option<Value>) -> (r: Step<P, L>)
    ensures
        r@ == rules::save::<P, L>(path@, json::json(cookies), json::json_option(local)),
        storage::plain_session(json::json(cookies), json::json_option(local)) ==> storage::restores(
            storage::session_bytes(json::json(cookies), json::json_option(local)),
            json::json(cookies),
            json::json_option(local),
        ),
{
    let mut told = "saved ".to_owned();
    text::push_decimal(&mut told, storage::count_cookies(&cookies) as u64);
    told.append(" cookies + localStorage to ");
    told.append(path.as_str());
    let bytes: Vec<u8> = storage::save_session(cookies, local);
    Step::Perform(Action::WriteFile { path, bytes }, Task::Confirming { told })
}

impl<B, P, L> State<B, P, L> {
    /// Opens an address in a new tab.
    pub fn browser_navigate(&self, a: NavigateArgs) -> (r: Step<P, L>)
        ensures
            r@ == rules::navigate(self@, a.url@),
    {
        match self.browser() {
            Some(_) => open_tab(a.url),
            None => Step::Perform(Action::Launch, Task::Launching { url: a.url }),
        }
    }

    /// Takes a fresh snapshot of a page, which renews its handles.
    pub fn browser_snapshot(&self, a: PageArg) -> (r: Step<P, L>)
        requires
            self.wf(),
        ensures
            r@ == rules::snapshot(self@, a.page@),
    {
        match self.page_of(a.page.as_str()) {
            Ok(_) => Step::Perform(Action::TakeSnapshot, Task::Refreshing { id: a.page }),
            Err(e) => Step::Refuse(e),
        }
    }

    /// Clicks an element, then tells what changed.
    pub fn browser_click(&self, a: RefArgs) -> (r: Step<P, L>)
        requires
            self.wf(),
        ensures
            r@ == rules::click(self@, a.page@, a.ref_@),
    {
        match self.backend_of(a.page.as_str(), a.ref_.as_str()) {
            Ok(node) => {
                let told = text::pair("clicked ", a.ref_.as_str(), " on ", a.page.as_str());
                Step::Perform(Action::Click(node), Task::Acting { id: a.page, told })
            },
            Err(e) => Step::Refuse(e),
        }
    }

    /// Types a text into an element, then tells what changed.
    pub fn browser_type(&self, a: TypeArgs) -> (r: Step<P, L>)
        requires
            self.wf(),
        ensures
            r@ == rules::type_text(self@, a.page@, a.ref_@, a.text@, a.clear),
    {
        match self.backend_of(a.page.as_str(), a.ref_.as_str()) {
            Ok(node) => {
                let told = text::pair("typed into ", a.ref_.as_str(), " on ", a.page.as_str());
                Step::Perform(
                    Action::TypeText { node, text: a.text, clear: a.clear },
                    Task::Acting { id: a.page, told },
                )
            },
            Err(e) => Step::Refuse(e),
        }
    }

    /// Presses a key, then tells what changed.
    pub fn browser_press(&self, a: PressArgs) -> (r: Step<P, L>)
        requires
            self.wf(),
        ensures
            r@ == rules::press(self@, a.page@, a.key@),
    {
        match self.page_of(a.page.as_str()) {
            Ok(_) => {
                let told = text::pair("pressed ", a.key.as_str(), " on ", a.page.as_str());
                Step::Perform(Action::Press(a.key), Task::Acting { id: a.page, told })
            },
            Err(e) => Step::Refuse(e),
        }
    }

    /// Lists the recent requests of a page.
    pub fn browser_network_requests(&self, a: NetArgs) -> (r: Step<P, L>)
        requires
            self.wf(),
        ensures
            r@ == rules::network_requests(
                self@,
                a.page@,
                calls::option_view(a.filter),
                a.limit,
            ),
    {
        match self.netlog_of(a.page.as_str()) {
            Some(_) => {
                let limit: usize = match a.limit {
                    Some(n) => n,
                    None => rules::REQUEST_LIMIT,
                };
                Step::Perform(Action::RecentRequests { limit, filter: a.filter }, Task::Listing)
            },
            None => Step::Refuse(text::between("no network log for '", a.page.as_str(), "'")),
        }
    }

    /// Blocks requests by patterns of their addresses.
    pub fn browser_route_block(&self, a: BlockArgs) -> (r: Step<P, L>)
        requires
            self.wf(),
        ensures
            r@ == rules::route_block(self@, a.page@, text::views(a.patterns@)),
    {
        match self.page_of(a.page.as_str()) {
            Ok(_) => {
                let mut told = "blocking ".to_owned();
                text::push_decimal(&mut told, a.patterns.len() as u64);
                told.append(" pattern(s) on ");
                told.append(a.page.as_str());
                told.append(": ");
                let listed = text::joined(&a.patterns, ", ");
                told.append(listed.as_str());
                Step::Perform(Action::BlockUrls(a.patterns), Task::Confirming { told })
            },
            Err(e) => Step::Refuse(e),
        }
    }

    /// Saves the cookies and the local storage of a page to a file.
    pub fn browser_storage_save(&self, a: StorageArgs) -> (r: Step<P, L>)
        requires
            self.wf(),
        ensures
            r@ == rules::storage_save(self@, a.page@, a.path@),
    {
        match self.page_of(a.page.as_str()) {
            Ok(_) => Step::Perform(Action::Cookies, Task::ReadingCookies { path: a.path }),
            Err(e) => Step::Refuse(e),
        }
    }

    /// Restores the cookies and the local storage of a page from a file.
    pub fn browser_storage_load(&self, a: StorageArgs) -> (r: Step<P, L>)
        requires
            self.wf(),
        ensures
            r@ == rules::storage_load(self@, a.page@, a.path@),
    {
        match self.page_of(a.page.as_str()) {
            Ok(_) => Step::Perform(
                Action::ReadFile(a.path.clone()),
                Task::ReadingFile { path: a.path },
            ),
            Err(e) => Step::Refuse(e),
        }
    }

    /// Holds the pointer over an element, then tells what changed.
    pub fn browser_hover(&self, a: RefArgs) -> (r: Step<P, L>)
        requires
            self.wf(),
        ensures
            r@ == rules::hover(self@, a.page@, a.ref_@),
    {
        match self.backend_of(a.page.as_str(), a.ref_.as_str()) {
            Ok(node) => {
                let told = text::pair("hovered ", a.ref_.as_str(), " on ", a.page.as_str());
                Step::Perform(Action::Hover(node), Task::Acting { id: a.page, told })
            },
            Err(e) => Step::Refuse(e),
        }
    }

    /// Selects an option of a dropdown, then tells what changed.
    pub fn browser_select(&self, a: SelectArgs) -> (r: Step<P, L>)
        requires
            self.wf(),
        ensures
            r@ == rules::select(self@, a.page@, a.ref_@, a.value@),
    {
        match self.backend_of(a.page.as_str(), a.ref_.as_str()) {
            Ok(node) => {
                let quoted = text::quote(a.value.as_str());
                let told = select_told(quoted.as_str(), a.ref_.as_str(), a.page.as_str());
                Step::Perform(
                    Action::SelectOption { node, value: a.value },
                    Task::Acting { id: a.page, told },
                )
            },
            Err(e) => Step::Refuse(e),
        }
    }

    /// Goes back in the history of a page, then tells what changed.
    pub fn browser_back(&self, a: PageArg) -> (r: Step<P, L>)
        requires
            self.wf(),
        ensures
            r@ == rules::back(self@, a.page@),
    {
        match self.page_of(a.page.as_str()) {
            Ok(_) => {
                let mut told = "went back on ".to_owned();
                told.append(a.page.as_str());
                Step::Perform(Action::GoBack, Task::Acting { id: a.page, told })
            },
            Err(e) => Step::Refuse(e),
        }
    }

    /// Waits until a text appears, or else until a selector matches.
    pub fn browser_wait(&self, a: WaitArgs) -> (r: Step<P, L>)
        requires
            self.wf(),
        ensures
            r@ == rules::wait(
                self@,
                a.page@,
                calls::option_view(a.text),
                calls::option_view(a.selector),
                a.timeout_ms,
            ),
    {
        match self.page_of(a.page.as_str()) {
            Ok(_) => {
                let ms: u64 = match a.timeout_ms {
                    Some(ms) => ms,
                    None => rules::WAIT_MS,
                };
                match a.text {
                    Some(t) => {
                        let mut what = "text ".to_owned();
                        let quoted = text::quote(t.as_str());
                        what.append(quoted.as_str());
                        Step::Perform(
                            Action::WaitForText { text: t, ms },
                            Task::Waiting { id: a.page, what },
                        )
                    },
                    None => match a.selector {
                        Some(c) => {
                            let mut what = "selector ".to_owned();
                            let quoted = text::quote(c.as_str());
                            what.append(quoted.as_str());
                            Step::Perform(
                                Action::WaitForSelector { selector: c, ms },
                                Task::Waiting { id: a.page, what },
                            )
                        },
                        None => Step::Refuse("provide `text` or `selector`".to_owned()),
                    },
                }
            },
            Err(e) => Step::Refuse(e),
        }
    }

    /// Evaluates an expression in a page.
    pub fn browser_evaluate(&self, a: EvalArgs) -> (r: Step<P, L>)
        requires
            self.wf(),
        ensures
            r@ == rules::evaluate(self@, a.page@, a.expression@),
    {
        match self.page_of(a.page.as_str()) {
            Ok(_) => Step::Perform(Action::Evaluate(a.expression), Task::Evaluating),
            Err(e) => Step::Refuse(e),
        }
    }

    /// Reads a page as Markdown.
    pub fn browser_read(&self, a: PageArg) -> (r: Step<P, L>)
        requires
            self.wf(),
        ensures
            r@ == rules::read(self@, a.page@),
    {
        match self.page_of(a.page.as_str()) {
            Ok(_) => Step::Perform(Action::ReadMarkdown, Task::Reading),
            Err(e) => Step::Refuse(e),
        }
    }

    /// Fills the fields of a form, one after the other, then tells what changed.
    pub fn browser_fill_form(&self, a: FillFormArgs) -> (r: Step<P, L>)
        requires
            self.wf(),
        ensures
            r@ == rules::fill_form(self@, a.page@, calls::fields_view(a.fields@)),
    {
        match self.page_of(a.page.as_str()) {
            Ok(_) => self.fill(a.page, a.fields, 0),
            Err(e) => Step::Refuse(e),
        }
    }

    /// Prints a page to a file.
    pub fn browser_pdf(&self, a: StorageArgs) -> (r: Step<P, L>)
        requires
            self.wf(),
        ensures
            r@ == rules::pdf(self@, a.page@, a.path@),
    {
        match self.page_of(a.page.as_str()) {
            Ok(_) => Step::Perform(Action::PrintPdf, Task::Printing { path: a.path }),
            Err(e) => Step::Refuse(e),
        }
    }

    /// Hands out the full source of a page.
    pub fn browser_get_html(&self, a: PageArg) -> (r: Step<P, L>)
        requires
            self.wf(),
        ensures
            r@ == rules::get_html(self@, a.page@),
    {
        match self.page_of(a.page.as_str()) {
            Ok(_) => Step::Perform(Action::Html, Task::Fetching),
            Err(e) => Step::Refuse(e),
        }
    }

    /// Takes a picture of a page.
    pub fn browser_screenshot(&self, a: PageArg) -> (r: Step<P, L>)
        requires
            self.wf(),
        ensures
            r@ == rules::screenshot(self@, a.page@),
    {
        match self.page_of(a.page.as_str()) {
            Ok(_) => Step::Perform(Action::Screenshot, Task::Shooting { id: a.page }),
            Err(e) => Step::Refuse(e),
        }
    }

    /// Lists the open pages.
    pub fn browser_tabs(&self) -> (r: Step<P, L>)
        ensures
            r@ == rules::tabs(self@),
    {
        Step::Reply(self.tabs())
    }

    /// Closes a page: forgets it, and asks the browser to close its tab.
    pub fn browser_close_page(&mut self, a: PageArg) -> (r: Step<P, L>)
        requires
            old(self).wf(),
        ensures
            final(self).wf(),
            final(self)@ == old(self)@.without_page(a.page@),
            r@ == rules::close_page(old(self)@, a.page@),
    {
        match self.close_page(a.page.as_str()) {
            Ok(_) => Step::Perform(Action::CloseTab, Task::Closing { id: a.page }),
            Err(e) => Step::Refuse(e),
        }
    }

    /// Looks at the fingerprints that a page can see.
    pub fn browser_fingerprint_check(&self, a: PageArg) -> (r: Step<P, L>)
        requires
            self.wf(),
        ensures
            r@ == rules::fingerprint_check(self@, a.page@),
    {
        match self.page_of(a.page.as_str()) {
            Ok(_) => Step::Perform(
                Action::Evaluate(fingerprint::SCRIPT.to_owned()),
                Task::Probing,
            ),
            Err(e) => Step::Refuse(e),
        }
    }

    /// Lets a page settle after an action, and keeps the text to compare with.
    fn settle(&self, id: String, told: String) -> (r: Step<P, L>)
        requires
            self.wf(),
        ensures
            r@ == rules::settle(self@, id@, told@),
    {
        let before = self.last_text(id.as_str());
        Step::Perform(Action::Settle, Task::Settling { id, told, before })
    }

    /// Fills a form from a field on, those before it being filled already.
    fn fill(&self, id: String, fields: Vec<FormField>, done: usize) -> (r: Step<P, L>)
        requires
            self.wf(),
        ensures
            r@ == rules::fill(self@, id@, calls::fields_view(fields@), done as nat),
    {
        if done < fields.len() {
            match self.backend_of(id.as_str(), fields[done].ref_.as_str()) {
                Ok(node) => {
                    let text: String = fields[done].value.clone();
                    Step::Perform(
                        Action::TypeText { node, text, clear: true },
                        Task::Filling { id, fields, done },
                    )
                },
                Err(e) => Step::Refuse(e),
            }
        } else {
            let mut told = "filled ".to_owned();
            text::push_decimal(&mut told, done as u64);
            told.append(" field(s) on ");
            told.append(id.as_str());
            self.settle(id, told)
        }
    }

    /// Tells whether a call can go on with what came of its action.
    pub fn accepts(&self, task: &Task<P, L>, event: &Event<B, P, L>) -> (r: bool)
        ensures
            r == rules::ready(self@, task@, *event),
    {
        match (task, event) {
            (Task::Launching { .. }, Event::Launched(_)) => self.browser().is_none(),
            (Task::Opening { .. }, Event::Opened(_)) => true,
            (Task::Logging { .. }, Event::Logged(_)) => true,
            (Task::Loading { .. }, Event::Done) => true,
            (Task::Viewing { .. }, Event::Seen(_)) => self.opened() < u64::MAX,
            (Task::Refreshing { .. }, Event::Seen(_)) => true,
            (Task::Acting { .. }, Event::Done) => true,
            (Task::Filling { fields, done, .. }, Event::Done) => *done < fields.len(),
            (Task::Filling { fields, done, .. }, Event::Failed(_)) => *done < fields.len(),
            (Task::Settling { .. }, Event::Done) => true,
            (Task::Comparing { .. }, Event::Seen(_)) => true,
            (Task::Listing, Event::Requests(_)) => true,
            (Task::Confirming { .. }, Event::Done) => true,
            (Task::ReadingCookies { .. }, Event::Json(_)) => true,
            (Task::ReadingLocal { .. }, Event::Json(_)) => true,
            (Task::ReadingFile { .. }, Event::Bytes(_)) => true,
            (Task::RestoringCookies { .. }, Event::Done) => true,
            (Task::RestoringLocal { .. }, Event::Done) => true,
            (Task::Waiting { .. }, Event::Found(_)) => true,
            (Task::Evaluating, Event::Json(_)) => true,
            (Task::Reading, Event::Text(_)) => true,
            (Task::Printing { .. }, Event::Bytes(_)) => true,
            (Task::Fetching, Event::Text(_)) => true,
            (Task::Shooting { .. }, Event::Bytes(_)) => true,
            (Task::SavingShot { .. }, Event::Saved(_)) => true,
            (Task::Probing, Event::Json(_)) => true,
            (Task::Closing { .. }, Event::Done) => true,
            (Task::Logging { .. }, Event::Failed(_)) => false,
            (Task::Settling { .. }, Event::Failed(_)) => false,
            (Task::Listing, Event::Failed(_)) => false,
            (Task::Closing { .. }, Event::Failed(_)) => false,
            (_, Event::Failed(_)) => true,
            _ => false,
        }
    }

    /// Goes on with a call after its action: takes in what came of it and gives
    /// the next step.
    pub fn resume(&mut self, task: Task<P, L>, event: Event<B, P, L>) -> (r: Step<P, L>)
        requires
            old(self).wf(),
            rules::ready(old(self)@, task@, event),
        ensures
            final(self).wf(),
            (final(self)@, r@) == rules::resumed(old(self)@, task@, event),
            rules::restorable(task@, event, r@),
    {
        match (task, event) {
            (Task::ReadingLocal { path, cookies }, Event::Failed(_)) => save(path, cookies, None),
            (Task::RestoringLocal { told }, Event::Failed(_)) => Step::Reply(told),
            (_, Event::Failed(message)) => Step::Refuse(message),
            (Task::Launching { url }, Event::Launched(b)) => {
                self.set_browser(b);
                open_tab(url)
            },
            (Task::Opening { url }, Event::Opened(page)) => Step::Perform(
                Action::EnableLog,
                Task::Logging { url, page },
            ),
            (Task::Logging { url, page }, Event::Logged(netlog)) => Step::Perform(
                Action::Goto(url.clone()),
                Task::Loading { url, page, netlog },
            ),
            (Task::Loading { url, page, netlog }, Event::Done) => Step::Perform(
                Action::TakeSnapshot,
                Task::Viewing { url, page, netlog },
            ),
            (Task::Viewing { url, page, netlog }, Event::Seen(snap)) => {
                let shown = snap.text.clone();
                let id = self.open_page(page, netlog, snap);
                let mut told = text::pair("page ", id.as_str(), "\nurl ", url.as_str());
                told.append("\n\n");
                told.append(shown.as_str());
                Step::Reply(told)
            },
            (Task::Refreshing { id }, Event::Seen(snap)) => {
                let told = text::pair("page ", id.as_str(), "\n\n", snap.text.as_str());
                self.store_snapshot(id.as_str(), snap);
                Step::Reply(told)
            },
            (Task::Acting { id, told }, Event::Done) => self.settle(id, told),
            (Task::Filling { id, fields, done }, Event::Done) => {
                assert(done < fields.len());
                self.fill(id, fields, done + 1)
            },
            (Task::Settling { id, told, before }, Event::Done) => Step::Perform(
                Action::TakeSnapshot,
                Task::Comparing { id, told, before },
            ),
            (Task::Comparing { id, told, before }, Event::Seen(snap)) => {
                let change = self.settle_diff(id.as_str(), before.as_str(), snap);
                Step::Reply(text::between(told.as_str(), "\n\n", change.as_str()))
            },
            (Task::Listing, Event::Requests(entries)) => Step::Reply(
                network::list_requests(&entries),
            ),
            (Task::Confirming { told }, Event::Done) => Step::Reply(told),
            (Task::ReadingCookies { path }, Event::Json(v)) => Step::Perform(
                Action::LocalStorage,
                Task::ReadingLocal { path, cookies: v },
            ),
            (Task::ReadingLocal { path, cookies }, Event::Json(v)) => save(path, cookies, Some(v)),
            (Task::ReadingFile { path }, Event::Bytes(b)) => match storage::load_session(&b) {
                Ok(session) => restore(
                    session,
                    text::between(
                        "loaded session from ",
                        path.as_str(),
                        " (reload the page to apply)",
                    ),
                ),
                Err(e) => Step::Refuse(e),
            },
            (Task::RestoringCookies { local, told }, Event::Done) => restore_local(local, told),
            (Task::RestoringLocal { told }, Event::Done) => Step::Reply(told),
            (Task::Waiting { id, what }, Event::Found(found)) => {
                let outcome: &str = if found {
                    "found"
                } else {
                    "TIMEOUT waiting for"
                };
                let mut told = text::pair(outcome, " ", what.as_str(), " on ");
                told.append(id.as_str());
                Step::Reply(told)
            },
            (Task::Evaluating, Event::Json(v)) => match json::write(&v) {
                Some(t) => Step::Reply(t),
                None => Step::Reply("null".to_owned()),
            },
            (Task::Reading, Event::Text(t)) => Step::Reply(t),
            (Task::Printing { path }, Event::Bytes(bytes)) => {
                let told = sized(path.as_str(), bytes.len());
                Step::Perform(Action::WriteFile { path, bytes }, Task::Confirming { told })
            },
            (Task::Fetching, Event::Text(t)) => Step::Reply(t),
            (Task::Shooting { id }, Event::Bytes(bytes)) => {
                let size: usize = bytes.len();
                let name = text::between("ab-", id.as_str(), ".png");
                Step::Perform(Action::WriteTemp { name, bytes }, Task::SavingShot { size })
            },
            (Task::SavingShot { size }, Event::Saved(path)) => Step::Reply(
                sized(path.as_str(), size),
            ),
            (Task::Probing, Event::Json(v)) => {
                let probe = fingerprint::read_probe(&v);
                Step::Reply(fingerprint::fingerprint_report(&probe))
            },
            (Task::Closing { id }, Event::Done) => {
                let mut told = "closed ".to_owned();
                told.append(id.as_str());
                Step::Reply(told)
            },
            _ => {
                // No other event answers a task.
                assert(false);
                Step::Refuse(String::new())
            },
        }
    }
}

} // verus!
