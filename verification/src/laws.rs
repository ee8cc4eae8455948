//! What holds of the tools together.

use vstd::prelude::*;

use crate::calls::FieldView;
use crate::diff;
use crate::json::Json;
use crate::pages;
use crate::pages::{PageView, Snapshot, StateView};
use crate::protocol::{ActionView, Event, StepView, TaskView};
use crate::rules;
use crate::storage;
use crate::text;

verus! {

/// A page that is not open is refused by every tool that takes one, before
/// anything is asked of the browser. The log of its requests is refused by its
/// own message.
pub proof fn unknown_page_is_refused<B, P, L>(
    s: StateView<B, P, L>,
    id: Seq<char>,
    handle: Seq<char>,
    text: Seq<char>,
    clear: bool,
    patterns: Seq<Seq<char>>,
    fields: Seq<FieldView>,
    choice: (Option<Seq<char>>, Option<Seq<char>>),
    limits: (Option<usize>, Option<u64>),
)
    requires
        !s.pages.contains_key(id),
    ensures
        ({
            let refusal = StepView::<P, L>::Refuse("unknown page '"@ + id + "'"@);
            &&& rules::snapshot(s, id) == refusal
            &&& rules::click(s, id, handle) == refusal
            &&& rules::type_text(s, id, handle, text, clear) == refusal
            &&& rules::press(s, id, text) == refusal
            &&& rules::hover(s, id, handle) == refusal
            &&& rules::select(s, id, handle, text) == refusal
            &&& rules::back(s, id) == refusal
            &&& rules::route_block(s, id, patterns) == refusal
            &&& rules::storage_save(s, id, text) == refusal
            &&& rules::storage_load(s, id, text) == refusal
            &&& rules::wait(s, id, choice.0, choice.1, limits.1) == refusal
            &&& rules::evaluate(s, id, text) == refusal
            &&& rules::read(s, id) == refusal
            &&& rules::fill_form(s, id, fields) == refusal
            &&& rules::pdf(s, id, text) == refusal
            &&& rules::get_html(s, id) == refusal
            &&& rules::screenshot(s, id) == refusal
            &&& rules::fingerprint_check(s, id) == refusal
            &&& rules::close_page(s, id) == refusal
            &&& s.without_page(id) == s
            &&& rules::network_requests(s, id, choice.0, limits.0) == StepView::<P, L>::Refuse(
                "no network log for '"@ + id + "'"@,
            )
        }),
{
}

/// A handle that the latest snapshot of an open page does not show is refused by
/// every tool that takes one, before anything is asked of the browser. In a form
/// that is when the turn of its field comes.
pub proof fn unknown_handle_is_refused<B, P, L>(
    s: StateView<B, P, L>,
    id: Seq<char>,
    handle: Seq<char>,
    text: Seq<char>,
    clear: bool,
    fields: Seq<FieldView>,
    done: nat,
)
    requires
        s.pages.contains_key(id),
        !s.pages[id].refs.contains_key(handle),
    ensures
        ({
            let refusal = StepView::<P, L>::Refuse("unknown ref '"@ + handle + "' (re-snapshot?)"@);
            &&& rules::click(s, id, handle) == refusal
            &&& rules::type_text(s, id, handle, text, clear) == refusal
            &&& rules::hover(s, id, handle) == refusal
            &&& rules::select(s, id, handle, text) == refusal
            &&& done < fields.len() && fields[done as int].handle == handle ==> rules::fill(
                s,
                id,
                fields,
                done,
            ) == refusal
        }),
{
}

/// The handles of an open page are those of its latest snapshot and no others:
/// the ones of earlier snapshots are stale.
pub proof fn handles_are_of_the_latest_snapshot<B, P, L>(
    s: StateView<B, P, L>,
    id: Seq<char>,
    snap: Snapshot,
    handle: Seq<char>,
)
    requires
        s.pages.contains_key(id),
    ensures
        s.with_snapshot(id, snap).last_text(id) == snap.text@,
        s.with_snapshot(id, snap).backend_of(id, handle) == if snap.refs@.contains_key(handle) {
            Ok::<i64, Seq<char>>(snap.refs@[handle])
        } else {
            Err::<i64, Seq<char>>("unknown ref '"@ + handle + "' (re-snapshot?)"@)
        },
{
}

/// After an action the page settles, then a snapshot is taken, and the reply says
/// what was done and what changed since the latest snapshot before, whatever
/// other calls did to the state in between. The snapshot is then the latest.
pub proof fn action_is_verified<B, P, L>(
    s: StateView<B, P, L>,
    later: StateView<B, P, L>,
    last: StateView<B, P, L>,
    id: Seq<char>,
    told: Seq<char>,
    snap: Snapshot,
)
    ensures
        ({
            let before = s.last_text(id);
            let settling = TaskView::<P, L>::Settling { id, told, before };
            let comparing = TaskView::<P, L>::Comparing { id, told, before };
            let done = Event::<B, P, L>::Done;
            &&& rules::resumed(s, TaskView::Acting { id, told }, done) == (
                s,
                StepView::<P, L>::Perform(ActionView::Settle, settling),
            )
            &&& rules::resumed(later, settling, done) == (
                later,
                StepView::<P, L>::Perform(ActionView::TakeSnapshot, comparing),
            )
            &&& rules::resumed(last, comparing, Event::Seen(snap)) == (
                last.with_snapshot(id, snap),
                StepView::<P, L>::Reply(told + "\n\n"@ + diff::report(before, snap.text@)),
            )
        }),
{
}

/// A call whose action failed ends with the message of the failure and leaves
/// the state as it was. The two exceptions are the local storage of a session
/// that is saved or loaded, which may be out of reach; they leave the state as it
/// was too.
pub proof fn failure_changes_nothing<B, P, L>(
    s: StateView<B, P, L>,
    t: TaskView<P, L>,
    message: String,
)
    ensures
        rules::resumed(s, t, Event::Failed(message)).0 == s,
        !rules::tolerates(t) ==> rules::resumed(s, t, Event::Failed(message)).1 == StepView::<
            P,
            L,
        >::Refuse(message@),
{
}

/// An id is given once: the id of a new page differs from every id that was given
/// before, those of closed pages among them.
pub proof fn new_id_is_new<B, P, L>(
    s: StateView<B, P, L>,
    page: P,
    netlog: Option<L>,
    snap: Snapshot,
)
    requires
        s.valid(),
    ensures
        !pages::issued(pages::page_id(s.next + 1), s.next),
        !s.pages.contains_key(pages::page_id(s.next + 1)),
        s.with_page(page, netlog, snap).ids == s.ids.push(pages::page_id(s.next + 1)),
        s.with_page(page, netlog, snap).pages.contains_key(pages::page_id(s.next + 1)),
{
    let id = pages::page_id(s.next + 1);
    if pages::issued(id, s.next) {
        let n = choose|n: nat| 1 <= n <= s.next && id == #[trigger] pages::page_id(n);
        ids_tell_apart(n, s.next + 1);
    }
}

/// Pages opened at different times have different ids.
pub proof fn ids_tell_apart(m: nat, n: nat)
    requires
        pages::page_id(m) == pages::page_id(n),
    ensures
        m == n,
{
    assert(pages::page_id(m).drop_first() =~= text::decimal(m));
    assert(pages::page_id(n).drop_first() =~= text::decimal(n));
    text::decimal_tells_apart(m, n);
}

/// A page that is closed is forgotten at once: its handles, its text and its log
/// are gone, it is listed no more, its id stays used up, and the other pages stay
/// as they are. The browser is asked to close its tab, and once that is done the
/// call ends with a reply, whatever other calls did to the state in between.
pub proof fn closed_page_is_gone<B, P, L>(
    s: StateView<B, P, L>,
    later: StateView<B, P, L>,
    id: Seq<char>,
    handle: Seq<char>,
    other: Seq<char>,
)
    requires
        s.valid(),
        s.pages.contains_key(id),
        other != id,
    ensures
        ({
            let t = s.without_page(id);
            let closing = TaskView::<P, L>::Closing { id };
            &&& rules::close_page(s, id) == StepView::<P, L>::Perform(ActionView::CloseTab, closing)
            &&& rules::resumed(later, closing, Event::Done) == (
                later,
                StepView::<P, L>::Reply("closed "@ + id),
            )
            &&& !t.pages.contains_key(id)
            &&& !t.ids.contains(id)
            &&& pages::issued(id, t.next)
            &&& t.backend_of(id, handle) == Err::<i64, Seq<char>>("unknown page '"@ + id + "'"@)
            &&& t.last_text(id) == Seq::<char>::empty()
            &&& t.netlog_of(id) is None
            &&& t.pages.contains_key(other) == s.pages.contains_key(other)
            &&& t.pages.contains_key(other) ==> t.pages[other] == s.pages[other]
        }),
{
    let t = s.without_page(id);
    let i = s.ids.index_of(id);
    assert(0 <= i < s.ids.len() && s.ids[i] == id);
    if t.ids.contains(id) {
        let j = t.ids.index_of(id);
        if j < i {
            assert(s.ids[j] == id);
        } else {
            assert(s.ids[j + 1] == id);
        }
    }
}

/// An id that was given and is not in use stays out of use, whatever step of
/// whatever call comes next, and whatever page is closed.
pub proof fn used_up_ids_stay_so<B, P, L>(
    s: StateView<B, P, L>,
    t: TaskView<P, L>,
    e: Event<B, P, L>,
    id: Seq<char>,
    closing: Seq<char>,
)
    requires
        s.valid(),
        rules::ready(s, t, e),
        pages::issued(id, s.next),
        !s.pages.contains_key(id),
    ensures
        pages::issued(id, rules::resumed(s, t, e).0.next),
        !rules::resumed(s, t, e).0.pages.contains_key(id),
        pages::issued(id, s.without_page(closing).next),
        !s.without_page(closing).pages.contains_key(id),
{
    let n = choose|n: nat| 1 <= n <= s.next && id == #[trigger] pages::page_id(n);
    if id == pages::page_id(s.next + 1) {
        ids_tell_apart(n, s.next + 1);
    }
    assert(1 <= n <= rules::resumed(s, t, e).0.next && id == pages::page_id(n));
}

/// The page that a call is about, where it is about one that is open already.
pub open spec fn subject<P, L>(t: TaskView<P, L>) -> Option<Seq<char>> {
    match t {
        TaskView::Refreshing { id } => Some(id),
        TaskView::Comparing { id, .. } => Some(id),
        _ => None,
    }
}

/// A step of a call changes what is remembered of one page at most. The other
/// open pages stay as they are, and of that page the page itself and its log.
pub proof fn other_pages_are_untouched<B, P, L>(
    s: StateView<B, P, L>,
    t: TaskView<P, L>,
    e: Event<B, P, L>,
    id: Seq<char>,
)
    requires
        s.valid(),
        rules::ready(s, t, e),
        s.pages.contains_key(id),
    ensures
        ({
            let after = rules::resumed(s, t, e).0;
            &&& after.pages.contains_key(id)
            &&& subject(t) != Some(id) ==> after.pages[id] == s.pages[id]
            &&& after.pages[id].page == s.pages[id].page
            &&& after.pages[id].netlog == s.pages[id].netlog
        }),
{
    if t is Viewing && e is Seen {
        new_id_is_new(s, t->Viewing_page, t->Viewing_netlog, e->Seen_0);
    }
}

/// Opening an address asks for a blank tab first, then for the log of its
/// requests, and only then for the address, so that the log has the navigation
/// too. The page then has a new id, and the handles and the text of its first
/// snapshot.
pub proof fn navigation_is_logged<B, P, L>(
    s: StateView<B, P, L>,
    url: Seq<char>,
    page: P,
    netlog: Option<L>,
    snap: Snapshot,
)
    requires
        s.browser is Some,
    ensures
        ({
            let opening = TaskView::<P, L>::Opening { url };
            let logging = TaskView::<P, L>::Logging { url, page };
            let loading = TaskView::<P, L>::Loading { url, page, netlog };
            let viewing = TaskView::<P, L>::Viewing { url, page, netlog };
            let id = pages::page_id(s.next + 1);
            let after = s.with_page(page, netlog, snap);
            &&& rules::navigate(s, url) == StepView::<P, L>::Perform(
                ActionView::OpenTab("about:blank"@),
                opening,
            )
            &&& rules::resumed(s, opening, Event::Opened(page)) == (
                s,
                StepView::<P, L>::Perform(ActionView::EnableLog, logging),
            )
            &&& rules::resumed(s, logging, Event::Logged(netlog)) == (
                s,
                StepView::<P, L>::Perform(ActionView::Goto(url), loading),
            )
            &&& rules::resumed(s, loading, Event::Done) == (
                s,
                StepView::<P, L>::Perform(ActionView::TakeSnapshot, viewing),
            )
            &&& rules::resumed(s, viewing, Event::Seen(snap)) == (
                after,
                StepView::<P, L>::Reply("page "@ + id + "\nurl "@ + url + "\n\n"@ + snap.text@),
            )
            &&& after.pages[id] == PageView {
                page,
                refs: snap.refs@,
                last_text: snap.text@,
                netlog,
            }
        }),
{
}

/// Opening an address asks for a start of the browser exactly if there is none. No
/// later step asks for one, and once there is a browser it stays that one.
pub proof fn browser_is_launched_once<B, P, L>(
    s: StateView<B, P, L>,
    t: TaskView<P, L>,
    e: Event<B, P, L>,
    url: Seq<char>,
)
    requires
        rules::ready(s, t, e),
    ensures
        rules::navigate(s, url) == StepView::<P, L>::Perform(
            ActionView::Launch,
            TaskView::Launching { url },
        ) <==> s.browser is None,
        s.browser is Some ==> rules::resumed(s, t, e).0.browser == s.browser,
        !asks_to_launch(rules::resumed(s, t, e).1),
{
}

/// Whether a step asks for a start of the browser.
pub open spec fn asks_to_launch<P, L>(step: StepView<P, L>) -> bool {
    step matches StepView::Perform(a, _) && a is Launch
}

/// No tool but the one that opens an address asks for a start of the browser.
pub proof fn only_opening_launches<B, P, L>(
    s: StateView<B, P, L>,
    id: Seq<char>,
    handle: Seq<char>,
    text: Seq<char>,
    clear: bool,
    patterns: Seq<Seq<char>>,
    fields: Seq<FieldView>,
    choice: (Option<Seq<char>>, Option<Seq<char>>),
    limits: (Option<usize>, Option<u64>),
)
    ensures
        !asks_to_launch(rules::snapshot(s, id)),
        !asks_to_launch(rules::click(s, id, handle)),
        !asks_to_launch(rules::type_text(s, id, handle, text, clear)),
        !asks_to_launch(rules::press(s, id, text)),
        !asks_to_launch(rules::hover(s, id, handle)),
        !asks_to_launch(rules::select(s, id, handle, text)),
        !asks_to_launch(rules::back(s, id)),
        !asks_to_launch(rules::route_block(s, id, patterns)),
        !asks_to_launch(rules::storage_save(s, id, text)),
        !asks_to_launch(rules::storage_load(s, id, text)),
        !asks_to_launch(rules::wait(s, id, choice.0, choice.1, limits.1)),
        !asks_to_launch(rules::evaluate(s, id, text)),
        !asks_to_launch(rules::read(s, id)),
        !asks_to_launch(rules::fill_form(s, id, fields)),
        !asks_to_launch(rules::pdf(s, id, text)),
        !asks_to_launch(rules::get_html(s, id)),
        !asks_to_launch(rules::screenshot(s, id)),
        !asks_to_launch(rules::tabs(s)),
        !asks_to_launch(rules::fingerprint_check(s, id)),
        !asks_to_launch(rules::close_page(s, id)),
        !asks_to_launch(rules::network_requests(s, id, choice.0, limits.0)),
{
}

/// What changes the state: a call that goes on, or a page that is closed.
pub enum Move<B, P, L> {
    Resume(TaskView<P, L>, Event<B, P, L>),
    Close(Seq<char>),
}

impl<B, P, L> Move<B, P, L> {
    /// Whether it can be made.
    pub open spec fn possible(self, s: StateView<B, P, L>) -> bool {
        match self {
            Move::Resume(t, e) => rules::ready(s, t, e),
            Move::Close(_) => true,
        }
    }

    /// The state after it.
    pub open spec fn made(self, s: StateView<B, P, L>) -> StateView<B, P, L> {
        match self {
            Move::Resume(t, e) => rules::resumed(s, t, e).0,
            Move::Close(id) => s.without_page(id),
        }
    }

    /// The browser that it brings, if it brings one.
    pub open spec fn brings(self) -> Option<B> {
        match self {
            Move::Resume(TaskView::Launching { .. }, Event::Launched(b)) => Some(b),
            _ => None,
        }
    }
}

/// Whether moves can be made one after the other.
pub open spec fn all_possible<B, P, L>(s: StateView<B, P, L>, moves: Seq<Move<B, P, L>>) -> bool
    decreases moves.len(),
{
    moves.len() > 0 ==> {
        &&& all_possible(s, moves.drop_last())
        &&& moves.last().possible(all_made(s, moves.drop_last()))
    }
}

/// The state after moves that are made one after the other.
pub open spec fn all_made<B, P, L>(
    s: StateView<B, P, L>,
    moves: Seq<Move<B, P, L>>,
) -> StateView<B, P, L>
    decreases moves.len(),
{
    if moves.len() == 0 {
        s
    } else {
        moves.last().made(all_made(s, moves.drop_last()))
    }
}

/// One browser at most ever comes: over any run of moves, however the calls are
/// interleaved, one move at most brings a browser, and none does where there is
/// one already. The browser that comes, or that was there, is the one at the end,
/// whatever failed or was closed in between.
pub proof fn one_browser_at_most<B, P, L>(
    s: StateView<B, P, L>,
    moves: Seq<Move<B, P, L>>,
    i: int,
    j: int,
)
    requires
        all_possible(s, moves),
        0 <= i < moves.len(),
        0 <= j < moves.len(),
    ensures
        s.browser is Some ==> all_made(s, moves).browser == s.browser && moves[i].brings() is None,
        moves[i].brings() is Some ==> all_made(s, moves).browser == moves[i].brings(),
        moves[i].brings() is Some && moves[j].brings() is Some ==> i == j,
    decreases moves.len(),
{
    let n = moves.len() - 1;
    let before = moves.drop_last();
    if i < n {
        one_browser_at_most(s, before, i, i);
    }
    if j < n {
        one_browser_at_most(s, before, j, j);
    }
    if i < n && j < n {
        one_browser_at_most(s, before, i, j);
    }
    if n > 0 {
        one_browser_at_most(s, before, 0, 0);
    }
}

/// What a session's file restores goes back to the page: first the cookies, then
/// the local storage, and whether the latter is taken or not, the call succeeds.
pub proof fn saved_session_goes_back<B, P, L>(
    s: StateView<B, P, L>,
    path: Seq<char>,
    cookies: Json,
    local: Option<Json>,
    file: Vec<u8>,
    message: String,
)
    requires
        storage::restores(file@, cookies, local),
    ensures
        ({
            let told = "loaded session from "@ + path + " (reload the page to apply)"@;
            let kept = if local is Some { local->0 } else { Json::Object(Map::empty()) };
            let first = TaskView::<P, L>::RestoringCookies { local: Some(kept), told };
            let second = TaskView::<P, L>::RestoringLocal { told };
            &&& rules::resumed(s, TaskView::ReadingFile { path }, Event::Bytes(file)) == (
                s,
                StepView::<P, L>::Perform(ActionView::SetCookies(cookies), first),
            )
            &&& rules::resumed(s, first, Event::Done) == (
                s,
                StepView::<P, L>::Perform(ActionView::SetLocalStorage(kept), second),
            )
            &&& rules::resumed(s, second, Event::Done) == (s, StepView::<P, L>::Reply(told))
            &&& rules::resumed(s, second, Event::Failed(message)) == (
                s,
                StepView::<P, L>::Reply(told),
            )
        }),
{
}

/// The step that a call has come to after so many actions that went well, the
/// state being left alone.
pub open spec fn after_done<B, P, L>(
    s: StateView<B, P, L>,
    step: StepView<P, L>,
    count: nat,
) -> StepView<P, L>
    decreases count,
{
    if count == 0 {
        step
    } else {
        match after_done(s, step, (count - 1) as nat) {
            StepView::Perform(_, t) => rules::resumed(s, t, Event::Done).1,
            ended => ended,
        }
    }
}

/// The fields of a form are filled one by one in their order, each in place of
/// what it holds, and after the last the page settles and the number of fields is
/// told.
pub proof fn form_is_filled_in_order<B, P, L>(
    s: StateView<B, P, L>,
    id: Seq<char>,
    fields: Seq<FieldView>,
    count: nat,
)
    requires
        s.pages.contains_key(id),
        count <= fields.len(),
        forall|i: int|
            0 <= i < fields.len() ==> s.pages[id].refs.contains_key(
                (#[trigger] fields[i]).handle,
            ),
    ensures
        count < fields.len() ==> after_done(s, rules::fill_form(s, id, fields), count)
            == StepView::<P, L>::Perform(
            ActionView::TypeText {
                node: s.pages[id].refs[fields[count as int].handle],
                text: fields[count as int].value,
                clear: true,
            },
            TaskView::Filling { id, fields, done: count },
        ),
        count == fields.len() ==> after_done(s, rules::fill_form(s, id, fields), count)
            == StepView::<P, L>::Perform(
            ActionView::Settle,
            TaskView::Settling {
                id,
                told: "filled "@ + text::decimal(fields.len()) + " field(s) on "@ + id,
                before: s.pages[id].last_text,
            },
        ),
    decreases count,
{
    if count > 0 {
        form_is_filled_in_order(s, id, fields, (count - 1) as nat);
    }
}

/// How far a call is from its end.
pub open spec fn distance<P, L>(t: TaskView<P, L>) -> nat {
    match t {
        TaskView::Launching { .. } => 5,
        TaskView::Opening { .. } => 4,
        TaskView::Logging { .. } => 3,
        TaskView::Loading { .. } => 2,
        TaskView::Acting { .. } => 3,
        TaskView::Filling { fields, done, .. } => if done < fields.len() {
            (2 + fields.len() - done) as nat
        } else {
            2
        },
        TaskView::Settling { .. } => 2,
        TaskView::ReadingCookies { .. } => 3,
        TaskView::ReadingLocal { .. } => 2,
        TaskView::ReadingFile { .. } => 3,
        TaskView::RestoringCookies { .. } => 2,
        TaskView::Printing { .. } => 2,
        TaskView::Shooting { .. } => 2,
        _ => 1,
    }
}

/// Every call ends: each step brings it closer to its end, and where it waits for
/// a field of a form there is one.
pub proof fn calls_end<B, P, L>(s: StateView<B, P, L>, t: TaskView<P, L>, e: Event<B, P, L>)
    requires
        rules::ready(s, t, e),
    ensures
        rules::resumed(s, t, e).1 matches StepView::Perform(_, next) ==> {
            &&& distance(next) < distance(t)
            &&& next matches TaskView::Filling { fields, done, .. } ==> done < fields.len()
        },
{
}

} // verus!
