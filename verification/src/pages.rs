//! The open pages and what is remembered of each.

use vstd::hash_map::StringHashMap;
use vstd::prelude::*;

use crate::diff;
use crate::text;

verus! {

/// The handles of a snapshot: for each the node of the page that it stands for.
pub struct Refs {
    map: StringHashMap<i64>,
}

impl View for Refs {
    type V = Map<Seq<char>, i64>;

    closed spec fn view(&self) -> Map<Seq<char>, i64> {
        self.map@
    }
}

impl Refs {
    /// No handles.
    pub fn new() -> (r: Refs)
        ensures
            r@ == Map::<Seq<char>, i64>::empty(),
    {
        Refs { map: StringHashMap::new() }
    }

    /// Lets a handle stand for a node.
    pub fn insert(&mut self, handle: String, node: i64)
        ensures
            final(self)@ == old(self)@.insert(handle@, node),
    {
        self.map.insert(handle, node);
    }

    /// The node that a handle stands for.
    pub fn get(&self, handle: &str) -> (r: Option<i64>)
        ensures
            r == if self@.contains_key(handle@) {
                Some(self@[handle@])
            } else {
                None
            },
    {
        match self.map.get(handle) {
            Some(n) => Some(*n),
            None => None,
        }
    }
}

/// A page as an accessibility tree, with the handles that its text shows.
pub struct Snapshot {
    pub text: String,
    pub refs: Refs,
}

/// An open page: the page itself, what its latest snapshot showed, and the log of
/// its requests, if it has one.
pub struct PageEntry<P, L> {
    pub page: P,
    pub refs: Refs,
    pub last_text: String,
    pub netlog: Option<L>,
}

/// An open page, by what is remembered of it.
pub struct PageView<P, L> {
    pub page: P,
    pub refs: Map<Seq<char>, i64>,
    pub last_text: Seq<char>,
    pub netlog: Option<L>,
}

impl<P, L> View for PageEntry<P, L> {
    type V = PageView<P, L>;

    open spec fn view(&self) -> PageView<P, L> {
        PageView {
            page: self.page,
            refs: self.refs@,
            last_text: self.last_text@,
            netlog: self.netlog,
        }
    }
}

/// An open page under its id.
struct Slot<P, L> {
    id: String,
    entry: PageEntry<P, L>,
}

/// The browser, once there is one, and its open pages.
pub struct State<B, P, L> {
    browser: Option<B>,
    slots: Vec<Slot<P, L>>,
    next: u64,
}

/// The browser and its open pages, by what is remembered of them: the ids of the
/// open pages in the order of opening, the pages by id, and how many pages were
/// ever opened.
pub struct StateView<B, P, L> {
    pub browser: Option<B>,
    pub ids: Seq<Seq<char>>,
    pub pages: Map<Seq<char>, PageView<P, L>>,
    pub next: nat,
}

/// The id of the n-th page that was opened.
pub open spec fn page_id(n: nat) -> Seq<char> {
    seq!['p'] + text::decimal(n)
}

/// Whether an id was given to one of the pages opened so far.
pub open spec fn issued(id: Seq<char>, next: nat) -> bool {
    exists|n: nat| 1 <= n <= next && id == #[trigger] page_id(n)
}

/// What refuses a request for a page that is not open.
pub open spec fn unknown_page(id: Seq<char>) -> Seq<char> {
    "unknown page '"@ + id + "'"@
}

/// What refuses a request for a handle that the latest snapshot does not show.
pub open spec fn unknown_ref(handle: Seq<char>) -> Seq<char> {
    "unknown ref '"@ + handle + "' (re-snapshot?)"@
}

impl<B, P, L> StateView<B, P, L> {
    /// No browser and no pages.
    pub open spec fn fresh() -> Self {
        StateView { browser: None, ids: Seq::empty(), pages: Map::empty(), next: 0 }
    }

    /// What holds of every state: each open page is listed once, under an id that
    /// was given to it.
    pub open spec fn valid(self) -> bool {
        &&& self.ids.no_duplicates()
        &&& forall|id: Seq<char>| #[trigger] self.pages.contains_key(id) <==> self.ids.contains(id)
        &&& forall|id: Seq<char>| #[trigger]
            self.pages.contains_key(id) ==> issued(id, self.next)
    }

    /// With this browser.
    pub open spec fn with_browser(self, browser: B) -> Self {
        StateView { browser: Some(browser), ..self }
    }

    /// With this snapshot as the latest of a page. A page that is not open has
    /// none.
    pub open spec fn with_snapshot(self, id: Seq<char>, snap: Snapshot) -> Self {
        if self.pages.contains_key(id) {
            let page = PageView { refs: snap.refs@, last_text: snap.text@, ..self.pages[id] };
            StateView { pages: self.pages.insert(id, page), ..self }
        } else {
            self
        }
    }

    /// With one more page, under the next id.
    pub open spec fn with_page(self, page: P, netlog: Option<L>, snap: Snapshot) -> Self {
        let id = page_id(self.next + 1);
        let entry = PageView { page, refs: snap.refs@, last_text: snap.text@, netlog };
        StateView {
            browser: self.browser,
            ids: self.ids.push(id),
            pages: self.pages.insert(id, entry),
            next: self.next + 1,
        }
    }

    /// Without a page.
    pub open spec fn without_page(self, id: Seq<char>) -> Self {
        if self.pages.contains_key(id) {
            StateView {
                ids: self.ids.remove(self.ids.index_of(id)),
                pages: self.pages.remove(id),
                ..self
            }
        } else {
            self
        }
    }

    /// What the latest snapshot of a page read. Of a page that is not open,
    /// nothing.
    pub open spec fn last_text(self, id: Seq<char>) -> Seq<char> {
        if self.pages.contains_key(id) {
            self.pages[id].last_text
        } else {
            Seq::empty()
        }
    }

    /// The log of a page's requests, if the page is open and has one.
    pub open spec fn netlog_of(self, id: Seq<char>) -> Option<L> {
        if self.pages.contains_key(id) {
            self.pages[id].netlog
        } else {
            None
        }
    }

    /// The node that a handle of a page stands for, or what refuses the request.
    pub open spec fn backend_of(self, id: Seq<char>, handle: Seq<char>) -> Result<i64, Seq<char>> {
        if !self.pages.contains_key(id) {
            Err(unknown_page(id))
        } else if !self.pages[id].refs.contains_key(handle) {
            Err(unknown_ref(handle))
        } else {
            Ok(self.pages[id].refs[handle])
        }
    }

    /// The ids of the open pages, in the order of opening.
    pub open spec fn tabs(self) -> Seq<char> {
        if self.ids.len() == 0 {
            "(no open pages)"@
        } else {
            text::join(self.ids, ", "@)
        }
    }
}

spec fn slot_ids<P, L>(slots: Seq<Slot<P, L>>) -> Seq<Seq<char>> {
    slots.map_values(|s: Slot<P, L>| s.id@)
}

spec fn slot_pages<P, L>(slots: Seq<Slot<P, L>>) -> Map<Seq<char>, PageView<P, L>> {
    Map::new(
        |id: Seq<char>| slot_ids(slots).contains(id),
        |id: Seq<char>| slots[slot_ids(slots).index_of(id)].entry@,
    )
}

impl<B, P, L> View for State<B, P, L> {
    type V = StateView<B, P, L>;

    closed spec fn view(&self) -> StateView<B, P, L> {
        StateView {
            browser: self.browser,
            ids: slot_ids(self.slots@),
            pages: slot_pages(self.slots@),
            next: self.next as nat,
        }
    }
}

proof fn lemma_slot<P, L>(slots: Seq<Slot<P, L>>, i: int)
    requires
        0 <= i < slots.len(),
        slot_ids(slots).no_duplicates(),
    ensures
        slot_ids(slots).index_of(slots[i].id@) == i,
        slot_pages(slots).contains_key(slots[i].id@),
        slot_pages(slots)[slots[i].id@] == slots[i].entry@,
{
    let ids = slot_ids(slots);
    assert(ids[i] == slots[i].id@);
    assert(ids.contains(ids[i]));
    let j = ids.index_of(ids[i]);
    assert(0 <= j < ids.len() && ids[j] == ids[i]);
}

/// What refuses a request for a page that is not open.
fn no_page(id: &str) -> (r: String)
    ensures
        r@ == unknown_page(id@),
{
    text::between("unknown page '", id, "'")
}

impl<B, P, L> State<B, P, L> {
    /// What holds of every state.
    pub open spec fn wf(self) -> bool {
        self@.valid()
    }

    /// No browser and no pages.
    pub fn new() -> (r: Self)
        ensures
            r.wf(),
            r@ == StateView::<B, P, L>::fresh(),
    {
        let r = State { browser: None, slots: Vec::new(), next: 0 };
        assert(r@.ids =~= Seq::<Seq<char>>::empty());
        assert(r@.pages =~= Map::<Seq<char>, PageView<P, L>>::empty());
        r
    }

    /// The browser, once there is one.
    pub fn browser(&self) -> (r: Option<&B>)
        ensures
            match r {
                Some(b) => self@.browser == Some(*b),
                None => self@.browser is None,
            },
    {
        self.browser.as_ref()
    }

    /// Takes in the browser, where there is none yet.
    pub fn set_browser(&mut self, browser: B)
        requires
            old(self).wf(),
            old(self)@.browser is None,
        ensures
            final(self).wf(),
            final(self)@ == old(self)@.with_browser(browser),
    {
        self.browser = Some(browser);
    }

    /// How many pages were ever opened.
    pub fn opened(&self) -> (r: u64)
        ensures
            r == self@.next,
    {
        self.next
    }

    /// Where the page with this id stands.
    fn position(&self, id: &str) -> (r: Option<usize>)
        requires
            self.wf(),
        ensures
            match r {
                Some(i) => i < self.slots.len() && self.slots@[i as int].id@ == id@
                    && self@.pages.contains_key(id@) && self@.pages[id@]
                    == self.slots@[i as int].entry@,
                None => !self@.pages.contains_key(id@),
            },
    {
        let key = id.to_owned();
        let mut i: usize = 0;
        while i < self.slots.len()
            invariant
                self.wf(),
                i <= self.slots.len(),
                key@ == id@,
                forall|j: int| 0 <= j < i ==> (#[trigger] self.slots@[j]).id@ != id@,
            decreases self.slots.len() - i,
        {
            if self.slots[i].id == key {
                proof {
                    lemma_slot(self.slots@, i as int);
                }
                return Some(i);
            }
            i = i + 1;
        }
        proof {
            let ids = slot_ids(self.slots@);
            if ids.contains(id@) {
                let j = ids.index_of(id@);
                assert(self.slots@[j].id@ == id@);
            }
        }
        None
    }

    /// The page with this id.
    pub fn page_of(&self, id: &str) -> (r: Result<&P, String>)
        requires
            self.wf(),
        ensures
            match r {
                Ok(p) => self@.pages.contains_key(id@) && *p == self@.pages[id@].page,
                Err(e) => !self@.pages.contains_key(id@) && e@ == unknown_page(id@),
            },
    {
        match self.position(id) {
            Some(i) => Ok(&self.slots[i].entry.page),
            None => Err(no_page(id)),
        }
    }

    /// The node that a handle of a page stands for.
    pub fn backend_of(&self, id: &str, handle: &str) -> (r: Result<i64, String>)
        requires
            self.wf(),
        ensures
            match r {
                Ok(n) => self@.backend_of(id@, handle@) == Ok::<i64, Seq<char>>(n),
                Err(e) => self@.backend_of(id@, handle@) == Err::<i64, Seq<char>>(e@),
            },
    {
        match self.position(id) {
            Some(i) => match self.slots[i].entry.refs.get(handle) {
                Some(n) => Ok(n),
                None => Err(text::between("unknown ref '", handle, "' (re-snapshot?)")),
            },
            None => Err(no_page(id)),
        }
    }

    /// Remembers a fresh snapshot, text and handles, as the latest of a page.
    pub fn store_snapshot(&mut self, id: &str, snap: Snapshot)
        requires
            old(self).wf(),
        ensures
            final(self).wf(),
            final(self)@ == old(self)@.with_snapshot(id@, snap),
    {
        match self.position(id) {
            Some(i) => {
                let ghost before = self.slots@;
                self.slots[i].entry.refs = snap.refs;
                self.slots[i].entry.last_text = snap.text;
                proof {
                    let after = self.slots@;
                    assert(slot_ids(after) =~= slot_ids(before));
                    assert(self@.pages =~= old(self)@.with_snapshot(id@, snap).pages) by {
                        lemma_slot(before, i as int);
                        assert forall|k: Seq<char>| slot_ids(before).contains(k) implies
                            slot_pages(after)[k] == old(self)@.with_snapshot(id@, snap).pages[k] by {
                            let j = slot_ids(before).index_of(k);
                            assert(slot_ids(before)[j] == k);
                            lemma_slot(before, j);
                            lemma_slot(after, j);
                        }
                    }
                }
            },
            None => {},
        }
    }

    /// What the latest snapshot of a page read.
    pub fn last_text(&self, id: &str) -> (r: String)
        requires
            self.wf(),
        ensures
            r@ == self@.last_text(id@),
    {
        match self.position(id) {
            Some(i) => self.slots[i].entry.last_text.clone(),
            None => String::new(),
        }
    }

    /// The log of a page's requests.
    pub fn netlog_of(&self, id: &str) -> (r: Option<&L>)
        requires
            self.wf(),
        ensures
            match r {
                Some(l) => self@.netlog_of(id@) == Some(*l),
                None => self@.netlog_of(id@) is None,
            },
    {
        match self.position(id) {
            Some(i) => self.slots[i].entry.netlog.as_ref(),
            None => None,
        }
    }

    /// Takes in the snapshot after an action: tells what changed since the text
    /// from before, and remembers the snapshot as the latest of the page.
    pub fn settle_diff(&mut self, id: &str, before: &str, snap: Snapshot) -> (r: String)
        requires
            old(self).wf(),
        ensures
            final(self).wf(),
            final(self)@ == old(self)@.with_snapshot(id@, snap),
            r@ == diff::report(before@, snap.text@),
    {
        let told = diff::snapshot_diff(before, snap.text.as_str());
        self.store_snapshot(id, snap);
        told
    }

    /// Takes in a page that was opened, under an id of its own.
    pub fn open_page(&mut self, page: P, netlog: Option<L>, snap: Snapshot) -> (r: String)
        requires
            old(self).wf(),
            old(self)@.next < u64::MAX,
        ensures
            final(self).wf(),
            final(self)@ == old(self)@.with_page(page, netlog, snap),
            r@ == page_id(old(self)@.next + 1),
    {
        let ghost before = self.slots@;
        self.next = self.next + 1;
        let mut id = "p".to_owned();
        text::push_decimal(&mut id, self.next);
        proof {
            reveal_strlit("p");
            assert("p"@ =~= seq!['p']);
        }
        let entry = PageEntry { page, refs: snap.refs, last_text: snap.text, netlog };
        self.slots.push(Slot { id: id.clone(), entry });
        proof {
            let after = self.slots@;
            let n = before.len() as int;
            assert(slot_ids(after) =~= slot_ids(before).push(id@));
            lemma_fresh_id(old(self)@);
            assert(!slot_ids(before).contains(id@));
            assert(slot_ids(after).no_duplicates());
            lemma_slot(after, n);
            assert(self@.pages =~= old(self)@.with_page(page, netlog, snap).pages) by {
                assert forall|k: Seq<char>| slot_ids(after).contains(k) <==> k == id@
                    || slot_ids(before).contains(k) by {
                    if slot_ids(before).contains(k) {
                        let j = slot_ids(before).index_of(k);
                        assert(slot_ids(after)[j] == k);
                    }
                    assert(slot_ids(after)[n] == id@);
                    if slot_ids(after).contains(k) {
                        let j = slot_ids(after).index_of(k);
                        if j < n {
                            assert(slot_ids(before)[j] == k);
                        }
                    }
                }
                assert forall|k: Seq<char>| slot_ids(before).contains(k) implies
                    slot_pages(after)[k] == slot_pages(before)[k] by {
                    let j = slot_ids(before).index_of(k);
                    assert(slot_ids(before)[j] == k);
                    lemma_slot(before, j);
                    lemma_slot(after, j);
                }
            }
            lemma_with_page(old(self)@, page, netlog, snap);
        }
        id
    }

    /// Forgets a page: lets go of its handle and of what was remembered of it. The
    /// tab itself is the browser's to close.
    pub fn close_page(&mut self, id: &str) -> (r: Result<(), String>)
        requires
            old(self).wf(),
        ensures
            final(self).wf(),
            final(self)@ == old(self)@.without_page(id@),
            match r {
                Ok(_) => old(self)@.pages.contains_key(id@),
                Err(e) => !old(self)@.pages.contains_key(id@) && e@ == unknown_page(id@),
            },
    {
        match self.position(id) {
            Some(i) => {
                let ghost before = self.slots@;
                let _ = self.slots.remove(i);
                proof {
                    let after = self.slots@;
                    lemma_slot(before, i as int);
                    lemma_without_page(old(self)@, id@);
                    assert(slot_ids(after) =~= slot_ids(before).remove(i as int));
                    assert(slot_ids(after) == old(self)@.without_page(id@).ids);
                    assert(self@.pages =~= old(self)@.without_page(id@).pages) by {
                        assert forall|k: Seq<char>| slot_ids(after).contains(k) implies
                            slot_pages(after)[k] == slot_pages(before)[k] by {
                            let j = slot_ids(after).index_of(k);
                            assert(slot_ids(after)[j] == k);
                            lemma_slot(after, j);
                            if j < i {
                                lemma_slot(before, j);
                            } else {
                                lemma_slot(before, j + 1);
                            }
                        }
                    }
                }
                Ok(())
            },
            None => Err(no_page(id)),
        }
    }

    /// The ids of the open pages, in the order of opening.
    pub fn tabs(&self) -> (r: String)
        ensures
            r@ == self@.tabs(),
    {
        if self.slots.len() == 0 {
            return "(no open pages)".to_owned();
        }
        let mut ids: Vec<String> = Vec::new();
        let mut i: usize = 0;
        while i < self.slots.len()
            invariant
                i <= self.slots.len(),
                text::views(ids@) == slot_ids(self.slots@).take(i as int),
            decreases self.slots.len() - i,
        {
            let ghost before = ids@;
            ids.push(self.slots[i].id.clone());
            assert(text::views(ids@) =~= text::views(before).push(self.slots@[i as int].id@));
            assert(slot_ids(self.slots@).take(i + 1) =~= slot_ids(self.slots@).take(i as int).push(
                self.slots@[i as int].id@,
            ));
            i = i + 1;
        }
        assert(slot_ids(self.slots@).take(i as int) =~= slot_ids(self.slots@));
        text::joined(&ids, ", ")
    }
}

impl<B, P, L> Default for State<B, P, L> {
    /// No browser and no pages.
    fn default() -> (r: Self)
        ensures
            r.wf(),
            r@ == StateView::<B, P, L>::fresh(),
    {
        State::new()
    }
}

/// The next id is not in use.
proof fn lemma_fresh_id<B, P, L>(s: StateView<B, P, L>)
    requires
        s.valid(),
    ensures
        !s.pages.contains_key(page_id(s.next + 1)),
        !s.ids.contains(page_id(s.next + 1)),
{
    let id = page_id(s.next + 1);
    if s.pages.contains_key(id) {
        let n = choose|n: nat| 1 <= n <= s.next && id == #[trigger] page_id(n);
        assert(id.drop_first() =~= text::decimal(n));
        assert(id.drop_first() =~= text::decimal(s.next + 1));
        text::decimal_tells_apart(n, s.next + 1);
    }
}

proof fn lemma_with_page<B, P, L>(s: StateView<B, P, L>, page: P, netlog: Option<L>, snap: Snapshot)
    requires
        s.valid(),
    ensures
        s.with_page(page, netlog, snap).valid(),
{
    let t = s.with_page(page, netlog, snap);
    let id = page_id(s.next + 1);
    lemma_fresh_id(s);
    assert forall|k: Seq<char>| #[trigger] t.pages.contains_key(k) <==> t.ids.contains(k) by {
        assert(t.ids[s.ids.len() as int] == id);
        if s.ids.contains(k) {
            let j = s.ids.index_of(k);
            assert(t.ids[j] == k);
        }
        if t.ids.contains(k) {
            let j = t.ids.index_of(k);
            if j < s.ids.len() {
                assert(s.ids[j] == k);
            }
        }
    }
    assert forall|k: Seq<char>| #[trigger] t.pages.contains_key(k) implies issued(k, t.next) by {
        if k == id {
            assert(k == page_id(t.next));
        } else {
            assert(s.pages.contains_key(k));
            let n = choose|n: nat| 1 <= n <= s.next && k == #[trigger] page_id(n);
            assert(1 <= n <= t.next && k == page_id(n));
        }
    }
}

proof fn lemma_without_page<B, P, L>(s: StateView<B, P, L>, id: Seq<char>)
    requires
        s.valid(),
    ensures
        s.without_page(id).valid(),
{
    if s.pages.contains_key(id) {
        let t = s.without_page(id);
        let i = s.ids.index_of(id);
        assert(0 <= i < s.ids.len() && s.ids[i] == id);
        assert forall|k: Seq<char>| #[trigger] t.pages.contains_key(k) <==> t.ids.contains(k) by {
            if t.pages.contains_key(k) {
                assert(s.pages.contains_key(k));
                let j = s.ids.index_of(k);
                if j < i {
                    assert(t.ids[j] == k);
                } else {
                    assert(t.ids[j - 1] == k);
                }
            }
            if t.ids.contains(k) {
                let j = t.ids.index_of(k);
                if j < i {
                    assert(s.ids[j] == k);
                } else {
                    assert(s.ids[j + 1] == k);
                }
            }
        }
        assert forall|k: Seq<char>| #[trigger] t.pages.contains_key(k) implies issued(k, t.next) by {
            assert(s.pages.contains_key(k));
        }
    }
}

} // verus!
