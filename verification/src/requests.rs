//! What each tool first asks of the browser, or refuses, for every argument that it
//! can be called with.

use vstd::prelude::*;

use crate::calls::{
    BlockArgs, EvalArgs, FillFormArgs, NavigateArgs, NetArgs, PageArg, PressArgs, RefArgs,
    SelectArgs, StorageArgs, TypeArgs, WaitArgs,
};
use crate::pages::State;
use crate::protocol::{ActionView, Step, StepView, TaskView};
use crate::text;

verus! {

/// Opening an address asks for a start of the browser where there is none, and else
/// for a blank tab. The address is kept as given.
pub proof fn navigating<B, P, L>(s: State<B, P, L>, a: NavigateArgs, r: Step<P, L>)
    requires
        call_ensures(State::<B, P, L>::browser_navigate, (&s, a), r),
    ensures
        s@.browser is None ==> r@ == StepView::<P, L>::Perform(
            ActionView::Launch,
            TaskView::Launching { url: a.url@ },
        ),
        s@.browser is Some ==> r@ == StepView::<P, L>::Perform(
            ActionView::OpenTab("about:blank"@),
            TaskView::Opening { url: a.url@ },
        ),
{
}

/// A click asks for a click on the node that the latest snapshot of the page has under
/// the handle.
pub proof fn clicking<B, P, L>(s: State<B, P, L>, a: RefArgs, r: Step<P, L>)
    requires
        call_ensures(State::<B, P, L>::browser_click, (&s, a), r),
    ensures
        !s@.pages.contains_key(a.page@) ==> r@ == StepView::<P, L>::Refuse(
            "unknown page '"@ + a.page@ + "'"@,
        ),
        s@.pages.contains_key(a.page@) && !s@.pages[a.page@].refs.contains_key(a.ref_@) ==> r@
            == StepView::<P, L>::Refuse("unknown ref '"@ + a.ref_@ + "' (re-snapshot?)"@),
        s@.pages.contains_key(a.page@) && s@.pages[a.page@].refs.contains_key(a.ref_@) ==> r@
            == StepView::<P, L>::Perform(
            ActionView::Click(s@.pages[a.page@].refs[a.ref_@]),
            TaskView::Acting { id: a.page@, told: "clicked "@ + a.ref_@ + " on "@ + a.page@ },
        ),
{
}

/// Typing asks for the text as given to be typed into the node under the handle, in
/// place of what is there exactly if that is asked for.
pub proof fn typing<B, P, L>(s: State<B, P, L>, a: TypeArgs, r: Step<P, L>)
    requires
        call_ensures(State::<B, P, L>::browser_type, (&s, a), r),
    ensures
        !s@.pages.contains_key(a.page@) ==> r@ == StepView::<P, L>::Refuse(
            "unknown page '"@ + a.page@ + "'"@,
        ),
        s@.pages.contains_key(a.page@) && !s@.pages[a.page@].refs.contains_key(a.ref_@) ==> r@
            == StepView::<P, L>::Refuse("unknown ref '"@ + a.ref_@ + "' (re-snapshot?)"@),
        s@.pages.contains_key(a.page@) && s@.pages[a.page@].refs.contains_key(a.ref_@) ==> r@
            == StepView::<P, L>::Perform(
            ActionView::TypeText { node: s@.pages[a.page@].refs[a.ref_@], text: a.text@, clear: a.clear },
            TaskView::Acting { id: a.page@, told: "typed into "@ + a.ref_@ + " on "@ + a.page@ },
        ),
{
}

/// Hovering asks for the pointer to be held over the node under the handle.
pub proof fn hovering<B, P, L>(s: State<B, P, L>, a: RefArgs, r: Step<P, L>)
    requires
        call_ensures(State::<B, P, L>::browser_hover, (&s, a), r),
    ensures
        !s@.pages.contains_key(a.page@) ==> r@ == StepView::<P, L>::Refuse(
            "unknown page '"@ + a.page@ + "'"@,
        ),
        s@.pages.contains_key(a.page@) && !s@.pages[a.page@].refs.contains_key(a.ref_@) ==> r@
            == StepView::<P, L>::Refuse("unknown ref '"@ + a.ref_@ + "' (re-snapshot?)"@),
        s@.pages.contains_key(a.page@) && s@.pages[a.page@].refs.contains_key(a.ref_@) ==> r@
            == StepView::<P, L>::Perform(
            ActionView::Hover(s@.pages[a.page@].refs[a.ref_@]),
            TaskView::Acting { id: a.page@, told: "hovered "@ + a.ref_@ + " on "@ + a.page@ },
        ),
{
}

/// Selecting asks for the option with the value as given, in the node under the
/// handle.
pub proof fn selecting<B, P, L>(s: State<B, P, L>, a: SelectArgs, r: Step<P, L>)
    requires
        call_ensures(State::<B, P, L>::browser_select, (&s, a), r),
    ensures
        !s@.pages.contains_key(a.page@) ==> r@ == StepView::<P, L>::Refuse(
            "unknown page '"@ + a.page@ + "'"@,
        ),
        s@.pages.contains_key(a.page@) && !s@.pages[a.page@].refs.contains_key(a.ref_@) ==> r@
            == StepView::<P, L>::Refuse("unknown ref '"@ + a.ref_@ + "' (re-snapshot?)"@),
        s@.pages.contains_key(a.page@) && s@.pages[a.page@].refs.contains_key(a.ref_@) ==> r@
            == StepView::<P, L>::Perform(
            ActionView::SelectOption { node: s@.pages[a.page@].refs[a.ref_@], value: a.value@ },
            TaskView::Acting { id: a.page@, told: "selected "@ + text::quoted(a.value@) + " in "@ + a.ref_@ + " on "@ + a.page@ },
        ),
{
}

/// A key is pressed as given.
pub proof fn pressing<B, P, L>(s: State<B, P, L>, a: PressArgs, r: Step<P, L>)
    requires
        call_ensures(State::<B, P, L>::browser_press, (&s, a), r),
    ensures
        !s@.pages.contains_key(a.page@) ==> r@ == StepView::<P, L>::Refuse(
            "unknown page '"@ + a.page@ + "'"@,
        ),
        s@.pages.contains_key(a.page@) ==> r@ == StepView::<P, L>::Perform(
            ActionView::Press(a.key@),
            TaskView::Acting { id: a.page@, told: "pressed "@ + a.key@ + " on "@ + a.page@ },
        ),
{
}

/// Going back asks the page to go back.
pub proof fn going_back<B, P, L>(s: State<B, P, L>, a: PageArg, r: Step<P, L>)
    requires
        call_ensures(State::<B, P, L>::browser_back, (&s, a), r),
    ensures
        !s@.pages.contains_key(a.page@) ==> r@ == StepView::<P, L>::Refuse(
            "unknown page '"@ + a.page@ + "'"@,
        ),
        s@.pages.contains_key(a.page@) ==> r@ == StepView::<P, L>::Perform(
            ActionView::GoBack,
            TaskView::Acting { id: a.page@, told: "went back on "@ + a.page@ },
        ),
{
}

/// A snapshot is taken of the page.
pub proof fn looking<B, P, L>(s: State<B, P, L>, a: PageArg, r: Step<P, L>)
    requires
        call_ensures(State::<B, P, L>::browser_snapshot, (&s, a), r),
    ensures
        !s@.pages.contains_key(a.page@) ==> r@ == StepView::<P, L>::Refuse(
            "unknown page '"@ + a.page@ + "'"@,
        ),
        s@.pages.contains_key(a.page@) ==> r@ == StepView::<P, L>::Perform(
            ActionView::TakeSnapshot,
            TaskView::Refreshing { id: a.page@ },
        ),
{
}

/// An expression is evaluated as given.
pub proof fn evaluating<B, P, L>(s: State<B, P, L>, a: EvalArgs, r: Step<P, L>)
    requires
        call_ensures(State::<B, P, L>::browser_evaluate, (&s, a), r),
    ensures
        !s@.pages.contains_key(a.page@) ==> r@ == StepView::<P, L>::Refuse(
            "unknown page '"@ + a.page@ + "'"@,
        ),
        s@.pages.contains_key(a.page@) ==> r@ == StepView::<P, L>::Perform(
            ActionView::Evaluate(a.expression@),
            TaskView::Evaluating,
        ),
{
}

/// The page is read as Markdown.
pub proof fn reading<B, P, L>(s: State<B, P, L>, a: PageArg, r: Step<P, L>)
    requires
        call_ensures(State::<B, P, L>::browser_read, (&s, a), r),
    ensures
        !s@.pages.contains_key(a.page@) ==> r@ == StepView::<P, L>::Refuse(
            "unknown page '"@ + a.page@ + "'"@,
        ),
        s@.pages.contains_key(a.page@) ==> r@ == StepView::<P, L>::Perform(
            ActionView::ReadMarkdown,
            TaskView::Reading,
        ),
{
}

/// The source of the page is asked for.
pub proof fn fetching<B, P, L>(s: State<B, P, L>, a: PageArg, r: Step<P, L>)
    requires
        call_ensures(State::<B, P, L>::browser_get_html, (&s, a), r),
    ensures
        !s@.pages.contains_key(a.page@) ==> r@ == StepView::<P, L>::Refuse(
            "unknown page '"@ + a.page@ + "'"@,
        ),
        s@.pages.contains_key(a.page@) ==> r@ == StepView::<P, L>::Perform(
            ActionView::Html,
            TaskView::Fetching,
        ),
{
}

/// The page is printed, for the file that is given.
pub proof fn printing<B, P, L>(s: State<B, P, L>, a: StorageArgs, r: Step<P, L>)
    requires
        call_ensures(State::<B, P, L>::browser_pdf, (&s, a), r),
    ensures
        !s@.pages.contains_key(a.page@) ==> r@ == StepView::<P, L>::Refuse(
            "unknown page '"@ + a.page@ + "'"@,
        ),
        s@.pages.contains_key(a.page@) ==> r@ == StepView::<P, L>::Perform(
            ActionView::PrintPdf,
            TaskView::Printing { path: a.path@ },
        ),
{
}

/// A picture is taken of the page.
pub proof fn shooting<B, P, L>(s: State<B, P, L>, a: PageArg, r: Step<P, L>)
    requires
        call_ensures(State::<B, P, L>::browser_screenshot, (&s, a), r),
    ensures
        !s@.pages.contains_key(a.page@) ==> r@ == StepView::<P, L>::Refuse(
            "unknown page '"@ + a.page@ + "'"@,
        ),
        s@.pages.contains_key(a.page@) ==> r@ == StepView::<P, L>::Perform(
            ActionView::Screenshot,
            TaskView::Shooting { id: a.page@ },
        ),
{
}

/// A session is saved from the cookies on, for the file that is given.
pub proof fn saving<B, P, L>(s: State<B, P, L>, a: StorageArgs, r: Step<P, L>)
    requires
        call_ensures(State::<B, P, L>::browser_storage_save, (&s, a), r),
    ensures
        !s@.pages.contains_key(a.page@) ==> r@ == StepView::<P, L>::Refuse(
            "unknown page '"@ + a.page@ + "'"@,
        ),
        s@.pages.contains_key(a.page@) ==> r@ == StepView::<P, L>::Perform(
            ActionView::Cookies,
            TaskView::ReadingCookies { path: a.path@ },
        ),
{
}

/// A session is loaded from the file that is given.
pub proof fn loading<B, P, L>(s: State<B, P, L>, a: StorageArgs, r: Step<P, L>)
    requires
        call_ensures(State::<B, P, L>::browser_storage_load, (&s, a), r),
    ensures
        !s@.pages.contains_key(a.page@) ==> r@ == StepView::<P, L>::Refuse(
            "unknown page '"@ + a.page@ + "'"@,
        ),
        s@.pages.contains_key(a.page@) ==> r@ == StepView::<P, L>::Perform(
            ActionView::ReadFile(a.path@),
            TaskView::ReadingFile { path: a.path@ },
        ),
{
}

/// The fingerprints are read by one expression, which gives the text of an object
/// with the webdriver, the number of plugins, the languages, whether there is a
/// `window.chrome`, and whether the user agent is headless.
pub proof fn probing<B, P, L>(s: State<B, P, L>, a: PageArg, r: Step<P, L>)
    requires
        call_ensures(State::<B, P, L>::browser_fingerprint_check, (&s, a), r),
    ensures
        !s@.pages.contains_key(a.page@) ==> r@ == StepView::<P, L>::Refuse(
            "unknown page '"@ + a.page@ + "'"@,
        ),
        s@.pages.contains_key(a.page@) ==> r@ == StepView::<P, L>::Perform(
            ActionView::Evaluate("JSON.stringify({
            webdriver: navigator.webdriver === undefined ? 'undefined' : String(navigator.webdriver),
            plugins: navigator.plugins.length,
            languages: (navigator.languages || []).join(','),
            hasChrome: !!window.chrome,
            hasChromeRuntime: !!(window.chrome && window.chrome.runtime),
            headlessUA: /headless/i.test(navigator.userAgent),
            userAgent: navigator.userAgent
        })"@),
            TaskView::Probing,
        ),
{
}

/// Requests are blocked by the patterns as given, all of them in their order, and
/// their number and the patterns are told.
pub proof fn blocking<B, P, L>(s: State<B, P, L>, a: BlockArgs, r: Step<P, L>)
    requires
        call_ensures(State::<B, P, L>::browser_route_block, (&s, a), r),
    ensures
        !s@.pages.contains_key(a.page@) ==> r@ == StepView::<P, L>::Refuse(
            "unknown page '"@ + a.page@ + "'"@,
        ),
        s@.pages.contains_key(a.page@) ==> r@ == StepView::<P, L>::Perform(
            ActionView::BlockUrls(a.patterns@.map_values(|p: String| p@)),
            TaskView::Confirming {
                told: "blocking "@ + text::decimal(a.patterns@.len()) + " pattern(s) on "@ + a.page@
                    + ": "@ + text::join(a.patterns@.map_values(|p: String| p@), ", "@),
            },
        ),
{
    assert(text::views(a.patterns@) =~= a.patterns@.map_values(|p: String| p@));
}

/// The log of an open page is asked with the filter as given, whether or not there
/// is a limit, and with the limit as given, or a hundred where there is none. A
/// page without a log, and one that is not open, is refused by name.
pub proof fn listing<B, P, L>(s: State<B, P, L>, a: NetArgs, r: Step<P, L>)
    requires
        call_ensures(State::<B, P, L>::browser_network_requests, (&s, a), r),
    ensures
        s@.pages.contains_key(a.page@) && s@.pages[a.page@].netlog is Some ==> r@ == StepView::<
            P,
            L,
        >::Perform(
            ActionView::RecentRequests {
                limit: if a.limit is Some { a.limit->0 } else { 100 },
                filter: if a.filter is Some { Some(a.filter->0@) } else { None },
            },
            TaskView::Listing,
        ),
        !(s@.pages.contains_key(a.page@) && s@.pages[a.page@].netlog is Some) ==> r@ == StepView::<
            P,
            L,
        >::Refuse("no network log for '"@ + a.page@ + "'"@),
{
}

/// The text is waited for where one is given, else the selector, each as given, for
/// the given time, or ten seconds where none is given. Where neither is given the
/// call is refused.
pub proof fn waiting<B, P, L>(s: State<B, P, L>, a: WaitArgs, r: Step<P, L>)
    requires
        call_ensures(State::<B, P, L>::browser_wait, (&s, a), r),
    ensures
        ({
            let ms: u64 = if a.timeout_ms is Some { a.timeout_ms->0 } else { 10000 };
            r@ == if !s@.pages.contains_key(a.page@) {
                StepView::<P, L>::Refuse("unknown page '"@ + a.page@ + "'"@)
            } else if a.text is Some {
                StepView::<P, L>::Perform(
                    ActionView::WaitForText { text: a.text->0@, ms },
                    TaskView::Waiting {
                        id: a.page@,
                        what: "text "@ + text::quoted(a.text->0@),
                    },
                )
            } else if a.selector is Some {
                StepView::<P, L>::Perform(
                    ActionView::WaitForSelector { selector: a.selector->0@, ms },
                    TaskView::Waiting {
                        id: a.page@,
                        what: "selector "@ + text::quoted(a.selector->0@),
                    },
                )
            } else {
                StepView::<P, L>::Refuse("provide `text` or `selector`"@)
            }
        }),
{
}

/// A form is filled from its first field on: the whole value of that field is typed
/// into the node under its handle, in place of what is there. A form without fields
/// lets the page settle.
pub proof fn filling<B, P, L>(s: State<B, P, L>, a: FillFormArgs, r: Step<P, L>)
    requires
        call_ensures(State::<B, P, L>::browser_fill_form, (&s, a), r),
    ensures
        !s@.pages.contains_key(a.page@) ==> r@ == StepView::<P, L>::Refuse(
            "unknown page '"@ + a.page@ + "'"@,
        ),
        s@.pages.contains_key(a.page@) && a.fields@.len() == 0 ==> r@ == StepView::<P, L>::Perform(
            ActionView::Settle,
            TaskView::Settling {
                id: a.page@,
                told: "filled "@ + text::decimal(0) + " field(s) on "@ + a.page@,
                before: s@.pages[a.page@].last_text,
            },
        ),
        s@.pages.contains_key(a.page@) && a.fields@.len() > 0 ==> {
            let refs = s@.pages[a.page@].refs;
            let handle = a.fields@[0].ref_@;
            &&& !refs.contains_key(handle) ==> r@ == StepView::<P, L>::Refuse(
                "unknown ref '"@ + handle + "' (re-snapshot?)"@,
            )
            &&& refs.contains_key(handle) ==> {
                &&& r@ is Perform
                &&& r@->Perform_0 == (ActionView::TypeText {
                    node: refs[handle],
                    text: a.fields@[0].value@,
                    clear: true,
                })
                &&& r@->Perform_1 is Filling
                &&& r@->Perform_1->Filling_id == a.page@
                &&& r@->Perform_1->Filling_done == 0
                &&& r@->Perform_1->Filling_fields.len() == a.fields@.len()
                &&& forall|i: int|
                    #![trigger a.fields@[i]]
                    0 <= i < a.fields@.len() ==> {
                        let field = r@->Perform_1->Filling_fields[i];
                        field.handle == a.fields@[i].ref_@ && field.value == a.fields@[i].value@
                    }
            }
        },
{
}

/// The open pages are listed by their ids in the order of opening, all of them, and
/// where there are none that is said.
pub proof fn listing_pages<B, P, L>(s: State<B, P, L>, r: Step<P, L>)
    requires
        call_ensures(State::<B, P, L>::browser_tabs, (&s,), r),
    ensures
        r@ == StepView::<P, L>::Reply(
            if s@.ids.len() == 0 {
                "(no open pages)"@
            } else {
                text::join(s@.ids, ", "@)
            },
        ),
{
}

/// An open page that is closed is forgotten, and the browser is asked to close its
/// tab. Nothing else changes, and nothing at all where the page is not open.
pub proof fn closing<B, P, L>(s: &mut State<B, P, L>, a: PageArg, r: Step<P, L>)
    requires
        call_ensures(State::<B, P, L>::browser_close_page, (s, a), r),
    ensures
        !old(s)@.pages.contains_key(a.page@) ==> {
            &&& r@ == StepView::<P, L>::Refuse("unknown page '"@ + a.page@ + "'"@)
            &&& final(s)@ == old(s)@
        },
        old(s)@.pages.contains_key(a.page@) ==> {
            &&& r@ == StepView::<P, L>::Perform(
                ActionView::CloseTab,
                TaskView::Closing { id: a.page@ },
            )
            &&& final(s)@.pages == old(s)@.pages.remove(a.page@)
            &&& final(s)@.browser == old(s)@.browser
            &&& final(s)@.next == old(s)@.next
        },
{
}

} // verus!
