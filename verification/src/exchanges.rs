//! How a call goes on, word for word: what is asked of the browser next, what is
//! remembered, and what the client is told.

use vstd::prelude::*;

use crate::calls::FieldView;
use crate::diff;
use crate::fingerprint;
use crate::json;
use crate::json::Json;
use crate::network;
use crate::network::NetEntry;
use crate::pages;
use crate::pages::{PageView, Snapshot, StateView};
use crate::protocol::{ActionView, Event, StepView, TaskView};
use crate::rules;
use crate::storage;
use crate::text;

verus! {

/// What is told of a selected option has the value as it is quoted, the handle and
/// the page.
pub proof fn selection_word_for_word(quoted: Seq<char>, handle: Seq<char>, id: Seq<char>)
    ensures
        rules::selected(quoted, handle, id) == "selected "@ + quoted + " in "@ + handle + " on "@
            + id,
{
}

/// A form is filled field by field. The first field is typed into at once, and
/// when one is done the next; each by the node that the latest snapshot then has
/// under its handle, with its whole value, in place of what the field holds. A
/// handle that is unknown by then ends the call. After the last field the page
/// settles.
pub proof fn form_field_by_field<B, P, L>(
    s: StateView<B, P, L>,
    id: Seq<char>,
    fields: Seq<FieldView>,
    done: nat,
)
    requires
        s.pages.contains_key(id),
        done < fields.len(),
    ensures
        ({
            let first = rules::fill_form(s, id, fields);
            let next = rules::resumed(s, TaskView::Filling { id, fields, done }, Event::Done);
            let handle = fields[done as int].handle;
            let after = fields[done as int + 1].handle;
            &&& done == 0 && s.pages[id].refs.contains_key(handle) ==> first == StepView::<
                P,
                L,
            >::Perform(
                ActionView::TypeText {
                    node: s.pages[id].refs[handle],
                    text: fields[0].value,
                    clear: true,
                },
                TaskView::Filling { id, fields, done: 0 },
            )
            &&& done == 0 && !s.pages[id].refs.contains_key(handle) ==> first == StepView::<
                P,
                L,
            >::Refuse("unknown ref '"@ + handle + "' (re-snapshot?)"@)
            &&& next.0 == s
            &&& done + 1 < fields.len() && s.pages[id].refs.contains_key(after) ==> next.1
                == StepView::<P, L>::Perform(
                ActionView::TypeText {
                    node: s.pages[id].refs[after],
                    text: fields[done as int + 1].value,
                    clear: true,
                },
                TaskView::Filling { id, fields, done: done + 1 },
            )
            &&& done + 1 < fields.len() && !s.pages[id].refs.contains_key(after) ==> next.1
                == StepView::<P, L>::Refuse("unknown ref '"@ + after + "' (re-snapshot?)"@)
            &&& done + 1 == fields.len() ==> next.1 == StepView::<P, L>::Perform(
                ActionView::Settle,
                TaskView::Settling {
                    id,
                    told: "filled "@ + text::decimal(fields.len()) + " field(s) on "@ + id,
                    before: s.pages[id].last_text,
                },
            )
        }),
{
}

/// A form without fields lets the page settle, and a form whose page is closed
/// meanwhile is refused where a field is left, and else compared with nothing.
pub proof fn form_at_its_ends<B, P, L>(
    s: StateView<B, P, L>,
    id: Seq<char>,
    fields: Seq<FieldView>,
    done: nat,
)
    requires
        done < fields.len(),
    ensures
        s.pages.contains_key(id) ==> rules::fill_form(s, id, Seq::empty()) == StepView::<
            P,
            L,
        >::Perform(
            ActionView::Settle,
            TaskView::Settling {
                id,
                told: "filled "@ + text::decimal(0) + " field(s) on "@ + id,
                before: s.pages[id].last_text,
            },
        ),
        !s.pages.contains_key(id) ==> rules::resumed(
            s,
            TaskView::Filling { id, fields, done },
            Event::Done,
        ) == (
            s,
            if done + 1 < fields.len() {
                StepView::<P, L>::Refuse("unknown page '"@ + id + "'"@)
            } else {
                StepView::<P, L>::Perform(
                    ActionView::Settle,
                    TaskView::Settling {
                        id,
                        told: "filled "@ + text::decimal(fields.len()) + " field(s) on "@ + id,
                        before: Seq::empty(),
                    },
                )
            },
        ),
{
}

/// Opening an address, step by step, whatever other calls do to the state in
/// between: the browser is started where there is none, then a blank tab is
/// opened, its log is asked for, the address is gone to as given, and a snapshot is
/// taken.
pub proof fn opening_step_by_step<B, P, L>(
    s: StateView<B, P, L>,
    url: Seq<char>,
    browser: B,
    page: P,
    netlog: Option<L>,
)
    ensures
        rules::navigate(s, url) == (if s.browser is None {
            StepView::<P, L>::Perform(ActionView::Launch, TaskView::Launching { url })
        } else {
            StepView::<P, L>::Perform(
                ActionView::OpenTab("about:blank"@),
                TaskView::Opening { url },
            )
        }),
        rules::resumed(s, TaskView::Launching { url }, Event::Launched(browser)) == (
            (StateView {
                browser: Some(browser),
                ids: s.ids,
                pages: s.pages,
                next: s.next,
            }),
            StepView::<P, L>::Perform(
                ActionView::OpenTab("about:blank"@),
                TaskView::Opening { url },
            ),
        ),
        rules::resumed(s, TaskView::Opening { url }, Event::Opened(page)) == (
            s,
            StepView::<P, L>::Perform(ActionView::EnableLog, TaskView::Logging { url, page }),
        ),
        rules::resumed(s, TaskView::Logging { url, page }, Event::Logged(netlog)) == (
            s,
            StepView::<P, L>::Perform(
                ActionView::Goto(url),
                TaskView::Loading { url, page, netlog },
            ),
        ),
        rules::resumed(s, TaskView::Loading { url, page, netlog }, Event::Done) == (
            s,
            StepView::<P, L>::Perform(
                ActionView::TakeSnapshot,
                TaskView::Viewing { url, page, netlog },
            ),
        ),
{
}

/// An opening ends with the id of the page, its address and the whole text of its
/// first snapshot. The page is remembered under the next id, with its log and with
/// the handles and the text of that snapshot, behind the pages that are open; they
/// and the browser stay as they are.
pub proof fn opened_page_is_told<B, P, L>(
    s: StateView<B, P, L>,
    url: Seq<char>,
    page: P,
    netlog: Option<L>,
    snap: Snapshot,
)
    ensures
        ({
            let id = seq!['p'] + text::decimal(s.next + 1);
            let told = "page "@ + id + "\nurl "@ + url + "\n\n"@ + snap.text@;
            let after = rules::resumed(
                s,
                TaskView::Viewing { url, page, netlog },
                Event::Seen(snap),
            );
            &&& after.1 == StepView::<P, L>::Reply(told)
            &&& told.skip(told.len() - snap.text@.len()) == snap.text@
            &&& after.0.browser == s.browser
            &&& after.0.ids == s.ids.push(id)
            &&& after.0.next == s.next + 1
            &&& after.0.pages == s.pages.insert(
                id,
                (PageView { page, refs: snap.refs@, last_text: snap.text@, netlog }),
            )
        }),
{
    let id = seq!['p'] + text::decimal(s.next + 1);
    let told = "page "@ + id + "\nurl "@ + url + "\n\n"@ + snap.text@;
    assert(told.skip(told.len() - snap.text@.len()) =~= snap.text@);
}

/// A snapshot that was asked for is told whole, behind the id of its page. Its
/// handles and its text are then those of the page, if it is still open, and
/// nothing else changes.
pub proof fn snapshot_is_told<B, P, L>(s: StateView<B, P, L>, id: Seq<char>, snap: Snapshot)
    ensures
        ({
            let told = "page "@ + id + "\n\n"@ + snap.text@;
            let after = rules::resumed(s, TaskView::Refreshing { id }, Event::Seen(snap));
            &&& after.1 == StepView::<P, L>::Reply(told)
            &&& told.skip(told.len() - snap.text@.len()) == snap.text@
            &&& !s.pages.contains_key(id) ==> after.0 == s
            &&& s.pages.contains_key(id) ==> after.0 == (StateView {
                browser: s.browser,
                ids: s.ids,
                pages: s.pages.insert(
                    id,
                    (PageView {
                        page: s.pages[id].page,
                        refs: snap.refs@,
                        last_text: snap.text@,
                        netlog: s.pages[id].netlog,
                    }),
                ),
                next: s.next,
            })
        }),
{
    let told = "page "@ + id + "\n\n"@ + snap.text@;
    assert(told.skip(told.len() - snap.text@.len()) =~= snap.text@);
}

/// An action ends with what was done, then the report on what changed from the
/// latest snapshot at the end of the action to the one after the page settled,
/// whatever other calls do to the state in between. The handles and the text of
/// the latter are then those of the page, if it is still open, and nothing else
/// changes.
pub proof fn action_is_told<B, P, L>(
    s: StateView<B, P, L>,
    later: StateView<B, P, L>,
    last: StateView<B, P, L>,
    id: Seq<char>,
    told: Seq<char>,
    snap: Snapshot,
)
    ensures
        ({
            let before = if s.pages.contains_key(id) { s.pages[id].last_text } else {
                Seq::<char>::empty()
            };
            let after = rules::resumed(
                last,
                TaskView::Comparing { id, told, before },
                Event::Seen(snap),
            );
            &&& rules::resumed(s, TaskView::Acting { id, told }, Event::Done) == (
                s,
                StepView::<P, L>::Perform(
                    ActionView::Settle,
                    TaskView::Settling { id, told, before },
                ),
            )
            &&& rules::resumed(later, TaskView::Settling { id, told, before }, Event::Done) == (
                later,
                StepView::<P, L>::Perform(
                    ActionView::TakeSnapshot,
                    TaskView::Comparing { id, told, before },
                ),
            )
            &&& after.1 == StepView::<P, L>::Reply(
                told + "\n\n"@ + diff::report(before, snap.text@),
            )
            &&& !last.pages.contains_key(id) ==> after.0 == last
            &&& last.pages.contains_key(id) ==> after.0 == (StateView {
                browser: last.browser,
                ids: last.ids,
                pages: last.pages.insert(
                    id,
                    (PageView {
                        page: last.pages[id].page,
                        refs: snap.refs@,
                        last_text: snap.text@,
                        netlog: last.pages[id].netlog,
                    }),
                ),
                next: last.next,
            })
        }),
{
}

/// What a page was read as is told as it came: its Markdown and its source in
/// full, a value as it is written, and null where it cannot be.
pub proof fn reading_is_told<B, P, L>(s: StateView<B, P, L>, text: String, value: serde_json::Value)
    ensures
        rules::resumed(s, TaskView::Reading, Event::Text(text)) == (
            s,
            StepView::<P, L>::Reply(text@),
        ),
        rules::resumed(s, TaskView::Fetching, Event::Text(text)) == (
            s,
            StepView::<P, L>::Reply(text@),
        ),
        rules::resumed(s, TaskView::Evaluating, Event::Json(value)) == (
            s,
            StepView::<P, L>::Reply(
                if json::written(json::json(value)) is Some {
                    json::written(json::json(value))->0
                } else {
                    "null"@
                },
            ),
        ),
{
}

/// The requests of a page, the fingerprints it gave, the end of an action and the
/// end of a tab are told, and the state stays as it is.
pub proof fn outcome_is_told<B, P, L>(
    s: StateView<B, P, L>,
    id: Seq<char>,
    told: Seq<char>,
    entries: Vec<NetEntry>,
    value: serde_json::Value,
)
    ensures
        rules::resumed(s, TaskView::Listing, Event::Requests(entries)) == (
            s,
            StepView::<P, L>::Reply(network::listed(entries@)),
        ),
        rules::resumed(s, TaskView::Probing, Event::Json(value)) == (
            s,
            StepView::<P, L>::Reply(
                fingerprint::graded(fingerprint::probe_of(json::json(value))),
            ),
        ),
        rules::resumed(s, TaskView::Confirming { told }, Event::Done) == (
            s,
            StepView::<P, L>::Reply(told),
        ),
        rules::resumed(s, TaskView::Closing { id }, Event::Done) == (
            s,
            StepView::<P, L>::Reply("closed "@ + id),
        ),
{
}

/// A wait ends with whether what was waited for appeared, what it was, and on which
/// page.
pub proof fn wait_is_told<B, P, L>(s: StateView<B, P, L>, id: Seq<char>, what: Seq<char>)
    ensures
        rules::resumed(s, TaskView::Waiting { id, what }, Event::Found(true)) == (
            s,
            StepView::<P, L>::Reply("found"@ + " "@ + what + " on "@ + id),
        ),
        rules::resumed(s, TaskView::Waiting { id, what }, Event::Found(false)) == (
            s,
            StepView::<P, L>::Reply("TIMEOUT waiting for"@ + " "@ + what + " on "@ + id),
        ),
{
}

/// What a page was printed or pictured as is written to a file, byte for byte: a
/// print to the path that was given, a picture to a temporary file named after the
/// page. The path and the number of bytes are then told.
pub proof fn bytes_are_written<B, P, L>(
    s: StateView<B, P, L>,
    id: Seq<char>,
    path: Seq<char>,
    bytes: Vec<u8>,
    file: String,
    size: nat,
)
    ensures
        rules::resumed(s, TaskView::Printing { path }, Event::Bytes(bytes)) == (
            s,
            StepView::<P, L>::Perform(
                ActionView::WriteFile { path, bytes: bytes@ },
                TaskView::Confirming {
                    told: path + " ("@ + text::decimal(bytes@.len()) + " bytes)"@,
                },
            ),
        ),
        rules::resumed(s, TaskView::Shooting { id }, Event::Bytes(bytes)) == (
            s,
            StepView::<P, L>::Perform(
                ActionView::WriteTemp { name: "ab-"@ + id + ".png"@, bytes: bytes@ },
                TaskView::SavingShot { size: bytes@.len() },
            ),
        ),
        rules::resumed(s, TaskView::SavingShot { size }, Event::Saved(file)) == (
            s,
            StepView::<P, L>::Reply(file@ + " ("@ + text::decimal(size) + " bytes)"@),
        ),
{
}

/// A session is saved with the cookies and the local storage as they came, or with
/// an empty local storage where it is out of reach, as one object written to the
/// path that was given. The number of cookies and the path are then told.
pub proof fn session_is_saved<B, P, L>(
    s: StateView<B, P, L>,
    path: Seq<char>,
    cookies: serde_json::Value,
    local: serde_json::Value,
    message: String,
)
    ensures
        ({
            let jar = json::json(cookies);
            let count = if jar is Array { jar->Array_0.len() } else { 0 };
            let reading = TaskView::<P, L>::ReadingLocal { path, cookies: jar };
            let told = TaskView::<P, L>::Confirming {
                told: "saved "@ + text::decimal(count) + " cookies + localStorage to "@ + path,
            };
            let full = Json::Object(
                map!["cookies"@ => jar, "localStorage"@ => json::json(local)],
            );
            let bare = Json::Object(
                map!["cookies"@ => jar, "localStorage"@ => Json::Object(Map::empty())],
            );
            &&& rules::resumed(s, TaskView::ReadingCookies { path }, Event::Json(cookies)) == (
                s,
                StepView::<P, L>::Perform(ActionView::LocalStorage, reading),
            )
            &&& rules::resumed(s, reading, Event::Json(local)) == (
                s,
                StepView::<P, L>::Perform(
                    ActionView::WriteFile {
                        path,
                        bytes: if json::written_pretty(full) is Some {
                            json::written_pretty(full)->0
                        } else {
                            Seq::empty()
                        },
                    },
                    told,
                ),
            )
            &&& rules::resumed(s, reading, Event::Failed(message)) == (
                s,
                StepView::<P, L>::Perform(
                    ActionView::WriteFile {
                        path,
                        bytes: if json::written_pretty(bare) is Some {
                            json::written_pretty(bare)->0
                        } else {
                            Seq::empty()
                        },
                    },
                    told,
                ),
            )
        }),
{
    storage::session_is_written_whole(json::json(cookies), Some(json::json(local)));
    storage::session_is_written_whole(json::json(cookies), None);
}

/// A file that parses to an object gives back what the object has under the two
/// names: first the cookies are set, if it has them, then the local storage, if it
/// has that, each as it stands in the file. Then the path is told.
pub proof fn session_is_loaded<B, P, L>(
    s: StateView<B, P, L>,
    path: Seq<char>,
    file: Vec<u8>,
    m: Map<Seq<char>, Json>,
)
    requires
        json::parsed_bytes(file@) == Ok::<Json, Seq<char>>(Json::Object(m)),
    ensures
        ({
            let told = "loaded session from "@ + path + " (reload the page to apply)"@;
            let first = rules::resumed(s, TaskView::ReadingFile { path }, Event::Bytes(file));
            let local = if m.contains_key("localStorage"@) {
                Some(m["localStorage"@])
            } else {
                None
            };
            let rest = if local is Some {
                StepView::<P, L>::Perform(
                    ActionView::SetLocalStorage(local->0),
                    TaskView::RestoringLocal { told },
                )
            } else {
                StepView::<P, L>::Reply(told)
            };
            &&& first.0 == s
            &&& m.contains_key("cookies"@) ==> first.1 == StepView::<P, L>::Perform(
                ActionView::SetCookies(m["cookies"@]),
                TaskView::RestoringCookies { local, told },
            )
            &&& !m.contains_key("cookies"@) ==> first.1 == rest
            &&& rules::resumed(s, TaskView::RestoringCookies { local, told }, Event::Done) == (
                s,
                rest,
            )
        }),
{
}

/// A file that is no JSON ends the call with the message of the parser, one that
/// parses to anything but an object sets nothing, and the local storage may refuse
/// to be set.
pub proof fn session_at_its_ends<B, P, L>(
    s: StateView<B, P, L>,
    path: Seq<char>,
    file: Vec<u8>,
    other: Json,
    refusal: Seq<char>,
    told: Seq<char>,
    message: String,
)
    ensures
        json::parsed_bytes(file@) == Err::<Json, Seq<char>>(refusal) ==> rules::resumed(
            s,
            TaskView::ReadingFile { path },
            Event::Bytes(file),
        ) == (s, StepView::<P, L>::Refuse(refusal)),
        json::parsed_bytes(file@) == Ok::<Json, Seq<char>>(other) && !(other is Object)
            ==> rules::resumed(s, TaskView::ReadingFile { path }, Event::Bytes(file)) == (
            s,
            StepView::<P, L>::Reply(
                "loaded session from "@ + path + " (reload the page to apply)"@,
            ),
        ),
        rules::resumed(s, TaskView::RestoringLocal { told }, Event::Done) == (
            s,
            StepView::<P, L>::Reply(told),
        ),
        rules::resumed(s, TaskView::RestoringLocal { told }, Event::Failed(message)) == (
            s,
            StepView::<P, L>::Reply(told),
        ),
{
}

/// A session put back takes the cookies first, then the local storage, each if it
/// is there, and ends with what is told.
pub proof fn session_is_put_back<P, L>(cookies: Json, local: Json, told: Seq<char>)
    ensures
        rules::restore::<P, L>(Some(cookies), Some(local), told) == StepView::<P, L>::Perform(
            ActionView::SetCookies(cookies),
            TaskView::RestoringCookies { local: Some(local), told },
        ),
        rules::restore::<P, L>(Some(cookies), None, told) == StepView::<P, L>::Perform(
            ActionView::SetCookies(cookies),
            TaskView::RestoringCookies { local: None, told },
        ),
        rules::restore::<P, L>(None, Some(local), told) == StepView::<P, L>::Perform(
            ActionView::SetLocalStorage(local),
            TaskView::RestoringLocal { told },
        ),
        rules::restore::<P, L>(None, None, told) == StepView::<P, L>::Reply(told),
{
}

/// What was saved is what is loaded: the file that a session is saved to, loaded on
/// any page of any state, sets these cookies and then this local storage, an empty
/// one where it was out of reach. Fractions that do not read back, and nesting
/// deeper than a file is followed, are left out.
pub proof fn saved_is_loaded<B, P, L>(
    s: StateView<B, P, L>,
    from: Seq<char>,
    to: Seq<char>,
    cookies: Json,
    e: Event<B, P, L>,
    file: Vec<u8>,
    told: TaskView<P, L>,
)
    requires
        e is Json || e is Failed,
        json::plain(cookies, 126),
        e is Json ==> json::plain(json::json(e->Json_0), 126),
        rules::restorable(
            TaskView::<P, L>::ReadingLocal { path: to, cookies },
            e,
            StepView::Perform(ActionView::WriteFile { path: to, bytes: file@ }, told),
        ),
    ensures
        ({
            let done = "loaded session from "@ + from + " (reload the page to apply)"@;
            let local = if e is Json { json::json(e->Json_0) } else { Json::Object(Map::empty()) };
            let setting = TaskView::<P, L>::RestoringCookies { local: Some(local), told: done };
            &&& rules::resumed(s, TaskView::ReadingFile { path: from }, Event::Bytes(file)) == (
                s,
                StepView::<P, L>::Perform(ActionView::SetCookies(cookies), setting),
            )
            &&& rules::resumed(s, setting, Event::Done) == (
                s,
                StepView::<P, L>::Perform(
                    ActionView::SetLocalStorage(local),
                    TaskView::RestoringLocal { told: done },
                ),
            )
        }),
{
}

/// A failed action ends its call with the whole message of the failure, unless it
/// was about the local storage of a session.
pub proof fn failure_is_told<B, P, L>(s: StateView<B, P, L>, t: TaskView<P, L>, message: String)
    requires
        !(t is ReadingLocal),
        !(t is RestoringLocal),
    ensures
        rules::resumed(s, t, Event::Failed(message)) == (s, StepView::<P, L>::Refuse(message@)),
{
}

/// Which events a call can go on with. Each comes of some actions and of no others:
/// a failure of every action but for asking for a log, settling, listing the
/// requests and closing a tab. A browser comes only where there is none, a page
/// only while an id is left, and a form goes on only with a field left.
pub proof fn events_come_of_their_actions<B, P, L>(
    s: StateView<B, P, L>,
    t: TaskView<P, L>,
    e: Event<B, P, L>,
)
    ensures
        rules::ready(s, t, e) <==> {
            &&& t matches TaskView::Filling { fields, done, .. } ==> done < fields.len()
            &&& match e {
                Event::Failed(_) => t !is Logging && t !is Settling && t !is Listing
                    && t !is Closing,
                Event::Done => t is Loading || t is Acting || t is Filling || t is Settling
                    || t is Confirming || t is RestoringCookies || t is RestoringLocal
                    || t is Closing,
                Event::Launched(_) => t is Launching && s.browser is None,
                Event::Opened(_) => t is Opening,
                Event::Logged(_) => t is Logging,
                Event::Seen(_) => t is Viewing && s.next < u64::MAX || t is Refreshing
                    || t is Comparing,
                Event::Requests(_) => t is Listing,
                Event::Found(_) => t is Waiting,
                Event::Text(_) => t is Reading || t is Fetching,
                Event::Json(_) => t is ReadingCookies || t is ReadingLocal || t is Evaluating
                    || t is Probing,
                Event::Bytes(_) => t is ReadingFile || t is Printing || t is Shooting,
                Event::Saved(_) => t is SavingShot,
            }
        },
{
}

/// A page that is closed leaves the list and the pages that are remembered. The
/// others keep their order and what is remembered of them, and the browser and the
/// number of pages ever opened stay as they are.
pub proof fn closing_forgets_one_page<B, P, L>(s: StateView<B, P, L>, id: Seq<char>)
    requires
        s.valid(),
    ensures
        !s.pages.contains_key(id) ==> s.without_page(id) == s,
        s.pages.contains_key(id) ==> {
            let after = s.without_page(id);
            &&& after.pages == s.pages.remove(id)
            &&& after.browser == s.browser
            &&& after.next == s.next
            &&& exists|k: int|
                0 <= k < s.ids.len() && s.ids[k] == id && after.ids == #[trigger] s.ids.remove(k)
        },
{
    if s.pages.contains_key(id) {
        let k = s.ids.index_of(id);
        assert(0 <= k < s.ids.len() && s.ids[k] == id);
    }
}

/// At the start there is no browser and no page.
pub proof fn nothing_at_the_start<B, P, L>()
    ensures
        StateView::<B, P, L>::fresh().browser is None,
        StateView::<B, P, L>::fresh().ids.len() == 0,
        StateView::<B, P, L>::fresh().pages == Map::<Seq<char>, PageView<P, L>>::empty(),
        StateView::<B, P, L>::fresh().next == 0,
{
}

/// What is remembered of the pages is what is answered: the node of a handle of an
/// open page, its log and the text of its latest snapshot, and of a page that is
/// not open nothing but a refusal.
pub proof fn memory_is_answered<B, P, L>(s: StateView<B, P, L>, id: Seq<char>, handle: Seq<char>)
    ensures
        s.pages.contains_key(id) ==> {
            &&& s.last_text(id) == s.pages[id].last_text
            &&& s.netlog_of(id) == s.pages[id].netlog
            &&& s.pages[id].refs.contains_key(handle) ==> s.backend_of(id, handle) == Ok::<
                i64,
                Seq<char>,
            >(s.pages[id].refs[handle])
            &&& !s.pages[id].refs.contains_key(handle) ==> s.backend_of(id, handle) == Err::<
                i64,
                Seq<char>,
            >("unknown ref '"@ + handle + "' (re-snapshot?)"@)
        },
        !s.pages.contains_key(id) ==> {
            &&& s.last_text(id).len() == 0
            &&& s.netlog_of(id) is None
            &&& s.backend_of(id, handle) == Err::<i64, Seq<char>>("unknown page '"@ + id + "'"@)
        },
        pages::unknown_page(id) == "unknown page '"@ + id + "'"@,
{
}

/// A state that takes in a browser, a page or a snapshot changes in that alone.
pub proof fn memory_takes_in<B, P, L>(
    s: StateView<B, P, L>,
    id: Seq<char>,
    browser: B,
    page: P,
    netlog: Option<L>,
    snap: Snapshot,
)
    ensures
        s.with_browser(browser) == (StateView {
            browser: Some(browser),
            ids: s.ids,
            pages: s.pages,
            next: s.next,
        }),
        ({
            let new = seq!['p'] + text::decimal(s.next + 1);
            &&& pages::page_id(s.next + 1) == new
            &&& s.with_page(page, netlog, snap) == (StateView {
                browser: s.browser,
                ids: s.ids.push(new),
                pages: s.pages.insert(
                    new,
                    (PageView { page, refs: snap.refs@, last_text: snap.text@, netlog }),
                ),
                next: s.next + 1,
            })
        }),
        !s.pages.contains_key(id) ==> s.with_snapshot(id, snap) == s,
        s.pages.contains_key(id) ==> s.with_snapshot(id, snap) == (StateView {
            browser: s.browser,
            ids: s.ids,
            pages: s.pages.insert(
                id,
                (PageView {
                    page: s.pages[id].page,
                    refs: snap.refs@,
                    last_text: snap.text@,
                    netlog: s.pages[id].netlog,
                }),
            ),
            next: s.next,
        }),
{
}

/// What is remembered of a page is all that its entry holds.
pub proof fn entry_says_what_it_holds<P, L>(entry: pages::PageEntry<P, L>)
    ensures
        entry@.page == entry.page,
        entry@.refs == entry.refs@,
        entry@.last_text == entry.last_text@,
        entry@.netlog == entry.netlog,
{
}

} // verus!
