//! What is asked of the browser, what comes back, and what follows from it.
//!
//! A tool call starts with a step. A step either ends the call, with a reply or a
//! refusal, or asks for an action and says what the call then waits for. What
//! came of the action is an event, and the task and the event give the next step.

use serde_json::Value;
use vstd::prelude::*;

use crate::calls;
use crate::calls::{FieldView, FormField};
use crate::json;
use crate::json::Json;
use crate::network::NetEntry;
use crate::pages::Snapshot;
use crate::text;

verus! {

/// What is asked of the browser, or of the file system. But for `Launch` and
/// `OpenTab` the browser is asked on the page of the call.
pub enum Action {
    Launch,
    OpenTab(String),
    EnableLog,
    Goto(String),
    TakeSnapshot,
    Click(i64),
    TypeText { node: i64, text: String, clear: bool },
    Press(String),
    Hover(i64),
    SelectOption { node: i64, value: String },
    GoBack,
    Settle,
    RecentRequests { limit: usize, filter: Option<String> },
    BlockUrls(Vec<String>),
    Cookies,
    LocalStorage,
    SetCookies(Value),
    SetLocalStorage(Value),
    WriteFile { path: String, bytes: Vec<u8> },
    WriteTemp { name: String, bytes: Vec<u8> },
    ReadFile(String),
    WaitForText { text: String, ms: u64 },
    WaitForSelector { selector: String, ms: u64 },
    Evaluate(String),
    ReadMarkdown,
    PrintPdf,
    Html,
    Screenshot,
    CloseTab,
}

/// What a call waits for, with what it needs to go on.
pub enum Task<P, L> {
    /// The browser, to open a tab in.
    Launching { url: String },
    /// The tab.
    Opening { url: String },
    /// The log of the tab's requests.
    Logging { url: String, page: P },
    /// The page that was asked for.
    Loading { url: String, page: P, netlog: Option<L> },
    /// The first snapshot of the page.
    Viewing { url: String, page: P, netlog: Option<L> },
    /// A fresh snapshot.
    Refreshing { id: String },
    /// The end of an action on the page. What is told of it is known.
    Acting { id: String, told: String },
    /// The end of typing into a field of a form, so many being filled already.
    Filling { id: String, fields: Vec<FormField>, done: usize },
    /// The page to settle after an action, its text from before being at hand.
    Settling { id: String, told: String, before: String },
    /// The snapshot after an action.
    Comparing { id: String, told: String, before: String },
    /// The requests of the page.
    Listing,
    /// The end of an action. What is then told is known.
    Confirming { told: String },
    /// The cookies to save.
    ReadingCookies { path: String },
    /// The local storage to save.
    ReadingLocal { path: String, cookies: Value },
    /// The file of a session.
    ReadingFile { path: String },
    /// The end of setting the cookies.
    RestoringCookies { local: Option<Value>, told: String },
    /// The end of setting the local storage.
    RestoringLocal { told: String },
    /// Whether what was waited for appeared.
    Waiting { id: String, what: String },
    /// The value of an expression.
    Evaluating,
    /// The page as Markdown.
    Reading,
    /// The page as a PDF.
    Printing { path: String },
    /// The source of the page.
    Fetching,
    /// The picture of the page.
    Shooting { id: String },
    /// The file of the picture.
    SavingShot { size: usize },
    /// The fingerprints of the page.
    Probing,
    /// The end of the tab of a page that is forgotten already.
    Closing { id: String },
}

/// What came of an action.
pub enum Event<B, P, L> {
    /// It failed, with a message.
    Failed(String),
    /// It is done.
    Done,
    Launched(B),
    Opened(P),
    Logged(Option<L>),
    Seen(Snapshot),
    Requests(Vec<NetEntry>),
    Found(bool),
    Text(String),
    Json(Value),
    Bytes(Vec<u8>),
    /// It was written to a file, whose path is given.
    Saved(String),
}

/// How a call goes on.
pub enum Step<P, L> {
    /// It is over, with this answer.
    Reply(String),
    /// It is over, and failed with this message.
    Refuse(String),
    /// The action is to be performed. The call then goes on with the task.
    Perform(Action, Task<P, L>),
}

/// An action, by what it says.
pub enum ActionView {
    Launch,
    OpenTab(Seq<char>),
    EnableLog,
    Goto(Seq<char>),
    TakeSnapshot,
    Click(i64),
    TypeText { node: i64, text: Seq<char>, clear: bool },
    Press(Seq<char>),
    Hover(i64),
    SelectOption { node: i64, value: Seq<char> },
    GoBack,
    Settle,
    RecentRequests { limit: usize, filter: Option<Seq<char>> },
    BlockUrls(Seq<Seq<char>>),
    Cookies,
    LocalStorage,
    SetCookies(Json),
    SetLocalStorage(Json),
    WriteFile { path: Seq<char>, bytes: Seq<u8> },
    WriteTemp { name: Seq<char>, bytes: Seq<u8> },
    ReadFile(Seq<char>),
    WaitForText { text: Seq<char>, ms: u64 },
    WaitForSelector { selector: Seq<char>, ms: u64 },
    Evaluate(Seq<char>),
    ReadMarkdown,
    PrintPdf,
    Html,
    Screenshot,
    CloseTab,
}

/// A task, by what it says.
pub enum TaskView<P, L> {
    Launching { url: Seq<char> },
    Opening { url: Seq<char> },
    Logging { url: Seq<char>, page: P },
    Loading { url: Seq<char>, page: P, netlog: Option<L> },
    Viewing { url: Seq<char>, page: P, netlog: Option<L> },
    Refreshing { id: Seq<char> },
    Acting { id: Seq<char>, told: Seq<char> },
    Filling { id: Seq<char>, fields: Seq<FieldView>, done: nat },
    Settling { id: Seq<char>, told: Seq<char>, before: Seq<char> },
    Comparing { id: Seq<char>, told: Seq<char>, before: Seq<char> },
    Listing,
    Confirming { told: Seq<char> },
    ReadingCookies { path: Seq<char> },
    ReadingLocal { path: Seq<char>, cookies: Json },
    ReadingFile { path: Seq<char> },
    RestoringCookies { local: Option<Json>, told: Seq<char> },
    RestoringLocal { told: Seq<char> },
    Waiting { id: Seq<char>, what: Seq<char> },
    Evaluating,
    Reading,
    Printing { path: Seq<char> },
    Fetching,
    Shooting { id: Seq<char> },
    SavingShot { size: nat },
    Probing,
    Closing { id: Seq<char> },
}

/// A step, by what it says.
pub enum StepView<P, L> {
    Reply(Seq<char>),
    Refuse(Seq<char>),
    Perform(ActionView, TaskView<P, L>),
}

impl View for Action {
    type V = ActionView;

    open spec fn view(&self) -> ActionView {
        match *self {
            Action::Launch => ActionView::Launch,
            Action::OpenTab(url) => ActionView::OpenTab(url@),
            Action::EnableLog => ActionView::EnableLog,
            Action::Goto(url) => ActionView::Goto(url@),
            Action::TakeSnapshot => ActionView::TakeSnapshot,
            Action::Click(node) => ActionView::Click(node),
            Action::TypeText { node, text, clear } => ActionView::TypeText {
                node,
                text: text@,
                clear,
            },
            Action::Press(key) => ActionView::Press(key@),
            Action::Hover(node) => ActionView::Hover(node),
            Action::SelectOption { node, value } => ActionView::SelectOption {
                node,
                value: value@,
            },
            Action::GoBack => ActionView::GoBack,
            Action::Settle => ActionView::Settle,
            Action::RecentRequests { limit, filter } => ActionView::RecentRequests {
                limit,
                filter: calls::option_view(filter),
            },
            Action::BlockUrls(patterns) => ActionView::BlockUrls(text::views(patterns@)),
            Action::Cookies => ActionView::Cookies,
            Action::LocalStorage => ActionView::LocalStorage,
            Action::SetCookies(v) => ActionView::SetCookies(json::json(v)),
            Action::SetLocalStorage(v) => ActionView::SetLocalStorage(json::json(v)),
            Action::WriteFile { path, bytes } => ActionView::WriteFile {
                path: path@,
                bytes: bytes@,
            },
            Action::WriteTemp { name, bytes } => ActionView::WriteTemp {
                name: name@,
                bytes: bytes@,
            },
            Action::ReadFile(path) => ActionView::ReadFile(path@),
            Action::WaitForText { text, ms } => ActionView::WaitForText { text: text@, ms },
            Action::WaitForSelector { selector, ms } => ActionView::WaitForSelector {
                selector: selector@,
                ms,
            },
            Action::Evaluate(expression) => ActionView::Evaluate(expression@),
            Action::ReadMarkdown => ActionView::ReadMarkdown,
            Action::PrintPdf => ActionView::PrintPdf,
            Action::Html => ActionView::Html,
            Action::Screenshot => ActionView::Screenshot,
            Action::CloseTab => ActionView::CloseTab,
        }
    }
}

impl<P, L> View for Task<P, L> {
    type V = TaskView<P, L>;

    open spec fn view(&self) -> TaskView<P, L> {
        match *self {
            Task::Launching { url } => TaskView::Launching { url: url@ },
            Task::Opening { url } => TaskView::Opening { url: url@ },
            Task::Logging { url, page } => TaskView::Logging { url: url@, page },
            Task::Loading { url, page, netlog } => TaskView::Loading { url: url@, page, netlog },
            Task::Viewing { url, page, netlog } => TaskView::Viewing { url: url@, page, netlog },
            Task::Refreshing { id } => TaskView::Refreshing { id: id@ },
            Task::Acting { id, told } => TaskView::Acting { id: id@, told: told@ },
            Task::Filling { id, fields, done } => TaskView::Filling {
                id: id@,
                fields: calls::fields_view(fields@),
                done: done as nat,
            },
            Task::Settling { id, told, before } => TaskView::Settling {
                id: id@,
                told: told@,
                before: before@,
            },
            Task::Comparing { id, told, before } => TaskView::Comparing {
                id: id@,
                told: told@,
                before: before@,
            },
            Task::Listing => TaskView::Listing,
            Task::Confirming { told } => TaskView::Confirming { told: told@ },
            Task::ReadingCookies { path } => TaskView::ReadingCookies { path: path@ },
            Task::ReadingLocal { path, cookies } => TaskView::ReadingLocal {
                path: path@,
                cookies: json::json(cookies),
            },
            Task::ReadingFile { path } => TaskView::ReadingFile { path: path@ },
            Task::RestoringCookies { local, told } => TaskView::RestoringCookies {
                local: json::json_option(local),
                told: told@,
            },
            Task::RestoringLocal { told } => TaskView::RestoringLocal { told: told@ },
            Task::Waiting { id, what } => TaskView::Waiting { id: id@, what: what@ },
            Task::Evaluating => TaskView::Evaluating,
            Task::Reading => TaskView::Reading,
            Task::Printing { path } => TaskView::Printing { path: path@ },
            Task::Fetching => TaskView::Fetching,
            Task::Shooting { id } => TaskView::Shooting { id: id@ },
            Task::SavingShot { size } => TaskView::SavingShot { size: size as nat },
            Task::Probing => TaskView::Probing,
            Task::Closing { id } => TaskView::Closing { id: id@ },
        }
    }
}

impl<P, L> View for Step<P, L> {
    type V = StepView<P, L>;

    open spec fn view(&self) -> StepView<P, L> {
        match *self {
            Step::Reply(text) => StepView::Reply(text@),
            Step::Refuse(message) => StepView::Refuse(message@),
            Step::Perform(action, task) => StepView::Perform(action@, task@),
        }
    }
}

/// An action says what it is and what it holds, all of it.
pub proof fn actions_say_what_they_hold(
    node: i64,
    text: String,
    clear: bool,
    count: usize,
    ms: u64,
    filter: Option<String>,
    patterns: Vec<String>,
    value: Value,
    bytes: Vec<u8>,
)
    ensures
        Action::Launch@ == ActionView::Launch,
        Action::OpenTab(text)@ == ActionView::OpenTab(text@),
        Action::EnableLog@ == ActionView::EnableLog,
        Action::Goto(text)@ == ActionView::Goto(text@),
        Action::TakeSnapshot@ == ActionView::TakeSnapshot,
        Action::Click(node)@ == ActionView::Click(node),
        (Action::TypeText { node, text, clear })@ == (ActionView::TypeText {
            node,
            text: text@,
            clear,
        }),
        Action::Press(text)@ == ActionView::Press(text@),
        Action::Hover(node)@ == ActionView::Hover(node),
        (Action::SelectOption { node, value: text })@ == (ActionView::SelectOption {
            node,
            value: text@,
        }),
        Action::GoBack@ == ActionView::GoBack,
        Action::Settle@ == ActionView::Settle,
        filter is None ==> (Action::RecentRequests { limit: count, filter })@ == (
        ActionView::RecentRequests { limit: count, filter: None }),
        filter is Some ==> (Action::RecentRequests { limit: count, filter })@ == (
        ActionView::RecentRequests { limit: count, filter: Some(filter->0@) }),
        Action::BlockUrls(patterns)@ == ActionView::BlockUrls(
            patterns@.map_values(|p: String| p@),
        ),
        Action::Cookies@ == ActionView::Cookies,
        Action::LocalStorage@ == ActionView::LocalStorage,
        Action::SetCookies(value)@ == ActionView::SetCookies(json::json(value)),
        Action::SetLocalStorage(value)@ == ActionView::SetLocalStorage(json::json(value)),
        (Action::WriteFile { path: text, bytes })@ == (ActionView::WriteFile {
            path: text@,
            bytes: bytes@,
        }),
        (Action::WriteTemp { name: text, bytes })@ == (ActionView::WriteTemp {
            name: text@,
            bytes: bytes@,
        }),
        Action::ReadFile(text)@ == ActionView::ReadFile(text@),
        (Action::WaitForText { text, ms })@ == (ActionView::WaitForText { text: text@, ms }),
        (Action::WaitForSelector { selector: text, ms })@ == (ActionView::WaitForSelector {
            selector: text@,
            ms,
        }),
        Action::Evaluate(text)@ == ActionView::Evaluate(text@),
        Action::ReadMarkdown@ == ActionView::ReadMarkdown,
        Action::PrintPdf@ == ActionView::PrintPdf,
        Action::Html@ == ActionView::Html,
        Action::Screenshot@ == ActionView::Screenshot,
        Action::CloseTab@ == ActionView::CloseTab,
{
}

/// A task says what it waits for and what it holds, all of it. Where it is about
/// opening an address:
pub proof fn openings_say_what_they_hold<P, L>(url: String, page: P, netlog: Option<L>)
    ensures
        (Task::<P, L>::Launching { url })@ == (TaskView::<P, L>::Launching { url: url@ }),
        (Task::<P, L>::Opening { url })@ == (TaskView::<P, L>::Opening { url: url@ }),
        (Task::<P, L>::Logging { url, page })@ == (TaskView::<P, L>::Logging { url: url@, page }),
        (Task::<P, L>::Loading { url, page, netlog })@ == (TaskView::<P, L>::Loading {
            url: url@,
            page,
            netlog,
        }),
        (Task::<P, L>::Viewing { url, page, netlog })@ == (TaskView::<P, L>::Viewing {
            url: url@,
            page,
            netlog,
        }),
{
}

/// A task says what it waits for and what it holds, all of it. Where it is about
/// a page that is open:
pub proof fn tasks_say_what_they_hold<P, L>(
    id: String,
    told: String,
    before: String,
    fields: Vec<FormField>,
    count: usize,
    cookies: Value,
    local: Option<Value>,
)
    ensures
        (Task::<P, L>::Refreshing { id })@ == (TaskView::<P, L>::Refreshing { id: id@ }),
        (Task::<P, L>::Acting { id, told })@ == (TaskView::<P, L>::Acting { id: id@, told: told@ }),
        (Task::<P, L>::Filling { id, fields, done: count })@ == (TaskView::<P, L>::Filling {
            id: id@,
            fields: fields@.map_values(
                |f: FormField| FieldView { handle: f.ref_@, value: f.value@ },
            ),
            done: count as nat,
        }),
        (Task::<P, L>::Settling { id, told, before })@ == (TaskView::<P, L>::Settling {
            id: id@,
            told: told@,
            before: before@,
        }),
        (Task::<P, L>::Comparing { id, told, before })@ == (TaskView::<P, L>::Comparing {
            id: id@,
            told: told@,
            before: before@,
        }),
        Task::<P, L>::Listing@ == TaskView::<P, L>::Listing,
        (Task::<P, L>::Confirming { told })@ == (TaskView::<P, L>::Confirming { told: told@ }),
        (Task::<P, L>::ReadingCookies { path: told })@ == (TaskView::<P, L>::ReadingCookies {
            path: told@,
        }),
        (Task::<P, L>::ReadingLocal { path: told, cookies })@ == (TaskView::<P, L>::ReadingLocal {
            path: told@,
            cookies: json::json(cookies),
        }),
        (Task::<P, L>::ReadingFile { path: told })@ == (TaskView::<P, L>::ReadingFile {
            path: told@,
        }),
        local is None ==> (Task::<P, L>::RestoringCookies { local, told })@ == (TaskView::<
            P,
            L,
        >::RestoringCookies { local: None, told: told@ }),
        local is Some ==> (Task::<P, L>::RestoringCookies { local, told })@ == (TaskView::<
            P,
            L,
        >::RestoringCookies { local: Some(json::json(local->0)), told: told@ }),
        (Task::<P, L>::RestoringLocal { told })@ == (TaskView::<P, L>::RestoringLocal {
            told: told@,
        }),
        (Task::<P, L>::Waiting { id, what: told })@ == (TaskView::<P, L>::Waiting {
            id: id@,
            what: told@,
        }),
        Task::<P, L>::Evaluating@ == TaskView::<P, L>::Evaluating,
        Task::<P, L>::Reading@ == TaskView::<P, L>::Reading,
        (Task::<P, L>::Printing { path: told })@ == (TaskView::<P, L>::Printing { path: told@ }),
        Task::<P, L>::Fetching@ == TaskView::<P, L>::Fetching,
        (Task::<P, L>::Shooting { id })@ == (TaskView::<P, L>::Shooting { id: id@ }),
        (Task::<P, L>::SavingShot { size: count })@ == (TaskView::<P, L>::SavingShot {
            size: count as nat,
        }),
        Task::<P, L>::Probing@ == TaskView::<P, L>::Probing,
        (Task::<P, L>::Closing { id })@ == (TaskView::<P, L>::Closing { id: id@ }),
{
    assert((Task::<P, L>::Filling { id, fields, done: count })@->Filling_fields
        =~= fields@.map_values(|f: FormField| FieldView { handle: f.ref_@, value: f.value@ }));
}

/// A step says how the call goes on, and with what text, action and task.
pub proof fn steps_say_what_they_hold<P, L>(text: String, action: Action, task: Task<P, L>)
    ensures
        Step::<P, L>::Reply(text)@ == StepView::<P, L>::Reply(text@),
        Step::<P, L>::Refuse(text)@ == StepView::<P, L>::Refuse(text@),
        Step::<P, L>::Perform(action, task)@ == StepView::<P, L>::Perform(action@, task@),
{
}

} // verus!
