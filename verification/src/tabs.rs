//! Tabs within a workspace: workspace, tabs, splits.
//!
//! A [`WorkspaceTabs`] owns one split engine per tab (the type parameter `E`)
//! and decides which tab is shown, how tabs are named, and what closing one
//! does. The widgets that present the tabs (a strip of buttons over a stack of
//! pages) are kept by the caller and refreshed from `titles`, `active_index`,
//! `active_page_name` and `strip_visible`.

use vstd::prelude::*;
use vstd::string::*;
use crate::text::{decimal, lemma_prefixed_decimal_injective, prefixed_decimal};

verus! {

/// Pane ids are allocated in blocks so that panes from different tabs never
/// collide: surface bookkeeping keys off the pane id globally, not per tab.
pub const PANE_ID_BLOCK: u64 = 1000;

/// One tab: a split tree plus the label shown in the strip.
pub struct Tab<E> {
    pub engine: E,
    /// Display title, `Tab N`.
    pub title: String,
    /// Name of the tab's page in the workspace's stack of tab pages.
    pub page_name: String,
}

/// The default title `Tab <n>`.
pub open spec fn tab_title(n: nat) -> Seq<char> {
    seq!['T', 'a', 'b', ' '] + decimal(n)
}

/// The page name `tab-<i>`; the tab titled `Tab <n>` has page `tab-<n - 1>`.
pub open spec fn tab_page(i: nat) -> Seq<char> {
    seq!['t', 'a', 'b', '-'] + decimal(i)
}

/// All tabs of a single workspace.
pub struct WorkspaceTabs<E> {
    tabs: Vec<Tab<E>>,
    active: usize,
    /// Next tab number for default naming; never reused, so closing tab 2
    /// and opening another gives `Tab 3` rather than a confusing duplicate.
    next_tab_number: u64,
    /// The number in the title of each tab.
    numbers: Ghost<Seq<nat>>,
}

/// The selection after closing the tab at `index`, leaving `new_len` tabs:
/// it stays on a neighbour rather than jumping to the start.
pub open spec fn tab_after_close(active: int, index: int, new_len: int) -> int {
    let a = if active >= index && active > 0 {
        active - 1
    } else {
        active
    };
    if a >= new_len {
        new_len - 1
    } else {
        a
    }
}

/// The tab after `active` among `len`, wrapping around.
pub open spec fn tab_next(active: int, len: int) -> int {
    (active + 1) % len
}

/// The tab before `active` among `len`, wrapping around.
pub open spec fn tab_prev(active: int, len: int) -> int {
    if active == 0 {
        len - 1
    } else {
        active - 1
    }
}

/// Next and previous tab move the selection by exactly one position, the
/// last tab's next being the first and the first's previous the last, and
/// each undoes the other.
pub proof fn law_tab_next_prev(active: int, len: int)
    requires
        0 <= active < len,
    ensures
        active + 1 < len ==> tab_next(active, len) == active + 1,
        active == len - 1 ==> tab_next(active, len) == 0,
        active > 0 ==> tab_prev(active, len) == active - 1,
        active == 0 ==> tab_prev(active, len) == len - 1,
        tab_prev(tab_next(active, len), len) == active,
        tab_next(tab_prev(active, len), len) == active,
{
    if active + 1 < len {
        vstd::arithmetic::div_mod::lemma_small_mod((active + 1) as nat, len as nat);
    } else {
        vstd::arithmetic::div_mod::lemma_mod_self_0(len);
    }
    if active == 0 {
        vstd::arithmetic::div_mod::lemma_mod_self_0(len);
    } else {
        vstd::arithmetic::div_mod::lemma_small_mod(active as nat, len as nat);
    }
}

/// Closing a tab keeps the selection on a neighbour rather than jumping to
/// the start: a tab shown right of the closed one stays shown, one left of
/// it too, and closing the shown tab shows its left neighbour (the new first
/// tab when the first one was closed).
pub proof fn law_close_tab_selection<T>(tabs: Seq<T>, active: int, index: int)
    requires
        tabs.len() > 1,
        0 <= active < tabs.len(),
        0 <= index < tabs.len(),
    ensures
        0 <= tab_after_close(active, index, tabs.len() - 1) < tabs.len() - 1,
        active > index ==> tab_after_close(active, index, tabs.len() - 1) == active - 1,
        active != index ==> tabs.remove(index)[tab_after_close(active, index, tabs.len() - 1)]
            == tabs[active],
        active < index ==> tab_after_close(active, index, tabs.len() - 1) == active,
        active == index && index > 0 ==> tab_after_close(active, index, tabs.len() - 1) == index - 1,
        active == index && index > 0 ==> tabs.remove(index)[tab_after_close(
            active,
            index,
            tabs.len() - 1,
        )] == tabs[index - 1],
        active == index && index == 0 ==> tab_after_close(active, index, tabs.len() - 1) == 0,
{
    let r = tabs.remove(index);
    if active > index {
        assert(r[active - 1] == tabs[active]);
    } else if active < index {
        assert(r[active] == tabs[active]);
    } else if index > 0 {
        assert(r[index - 1] == tabs[index - 1]);
    }
}

impl<E> WorkspaceTabs<E> {
    /// The tabs, in strip order.
    pub closed spec fn tabs_spec(&self) -> Seq<Tab<E>> {
        self.tabs@
    }

    /// Index of the shown tab.
    pub closed spec fn active_spec(&self) -> int {
        self.active as int
    }

    /// Number the next tab's title gets.
    pub closed spec fn next_number_spec(&self) -> nat {
        self.next_tab_number as nat
    }

    /// Well-formedness: there is always a tab, the shown tab exists, and each
    /// tab is titled `Tab <n>` and shown on page `tab-<n - 1>`, for a number
    /// `n` from 1 up to below the next one, the numbers increasing along the
    /// strip.
    pub closed spec fn wf(&self) -> bool {
        &&& self.tabs@.len() >= 1
        &&& self.active < self.tabs@.len()
        &&& self.numbers@.len() == self.tabs@.len()
        &&& self.next_tab_number >= 2
        &&& forall|i: int|
            0 <= i < self.tabs@.len() ==> (#[trigger] self.tabs@[i]).title@ == tab_title(
                self.numbers@[i],
            )
        &&& forall|i: int|
            0 <= i < self.tabs@.len() ==> {
                &&& #[trigger] self.numbers@[i] >= 1
                &&& self.tabs@[i].page_name@ == tab_page((self.numbers@[i] - 1) as nat)
            }
        &&& forall|i: int, j: int|
            0 <= i < j < self.tabs@.len() ==> #[trigger] self.numbers@[i] < #[trigger] self.numbers@[j]
        &&& forall|i: int|
            0 <= i < self.tabs@.len() ==> #[trigger] self.numbers@[i] < self.next_tab_number
    }

    /// A well-formed tab list has a tab and shows one of its tabs.
    pub proof fn lemma_wf(&self)
        requires
            self.wf(),
        ensures
            self.tabs_spec().len() >= 1,
            0 <= self.active_spec() < self.tabs_spec().len(),
    {
    }

    /// Wraps a workspace's initial split engine as its first tab, `Tab 1`
    /// on page `tab-0`.
    pub fn new(engine: E) -> (t: Self)
        ensures
            t.wf(),
            t.tabs_spec().len() == 1,
            t.tabs_spec()[0].engine == engine,
            t.tabs_spec()[0].title@ == tab_title(1),
            t.tabs_spec()[0].page_name@ == tab_page(0),
            t.active_spec() == 0,
            t.next_number_spec() == 2,
    {
        proof {
            reveal_strlit("Tab ");
            reveal_strlit("tab-");
            assert("Tab "@ =~= seq!['T', 'a', 'b', ' ']);
            assert("tab-"@ =~= seq!['t', 'a', 'b', '-']);
        }
        let mut tabs = Vec::new();
        tabs.push(
            Tab { engine, title: prefixed_decimal("Tab ", 1), page_name: prefixed_decimal("tab-", 0) },
        );
        let numbers: Ghost<Seq<nat>> = Ghost(Seq::<nat>::empty().push(1nat));
        WorkspaceTabs { tabs, active: 0, next_tab_number: 2, numbers }
    }

    /// Number of tabs.
    pub fn len(&self) -> (n: usize)
        ensures
            n == self.tabs_spec().len(),
    {
        self.tabs.len()
    }

    /// Index of the shown tab.
    pub fn active_index(&self) -> (i: usize)
        ensures
            i == self.active_spec(),
    {
        self.active
    }

    /// Number the next tab's title gets.
    pub fn next_tab_number(&self) -> (n: u64)
        ensures
            n == self.next_number_spec(),
    {
        self.next_tab_number
    }

    /// The titles of the tabs, in strip order.
    pub fn titles(&self) -> (titles: Vec<String>)
        ensures
            titles@.len() == self.tabs_spec().len(),
            forall|i: int| 0 <= i < titles@.len() ==> #[trigger] titles@[i] == self.tabs_spec()[i].title,
    {
        let mut titles: Vec<String> = Vec::new();
        let mut i: usize = 0;
        while i < self.tabs.len()
            invariant
                i <= self.tabs@.len(),
                titles@.len() == i,
                forall|j: int| 0 <= j < i ==> #[trigger] titles@[j] == self.tabs@[j].title,
            decreases self.tabs@.len() - i,
        {
            titles.push(self.tabs[i].title.clone());
            i = i + 1;
        }
        titles
    }

    /// The split engine of the shown tab.
    pub fn active_engine(&self) -> (e: &E)
        requires
            self.wf(),
        ensures
            *e == self.tabs_spec()[self.active_spec()].engine,
    {
        &self.tabs[self.active].engine
    }

    /// The split engine of the shown tab, for changing it.
    pub fn active_engine_mut(&mut self) -> (e: &mut E)
        requires
            old(self).wf(),
        ensures
            *e == old(self).tabs_spec()[old(self).active_spec()].engine,
            final(self).wf(),
            final(self).active_spec() == old(self).active_spec(),
            final(self).next_number_spec() == old(self).next_number_spec(),
            final(self).tabs_spec().len() == old(self).tabs_spec().len(),
            forall|i: int|
                0 <= i < old(self).tabs_spec().len() && i != old(self).active_spec()
                    ==> #[trigger] final(self).tabs_spec()[i] == old(self).tabs_spec()[i],
            final(self).tabs_spec()[old(self).active_spec()].engine == *final(e),
            final(self).tabs_spec()[old(self).active_spec()].title == old(self).tabs_spec()[old(self).active_spec()].title,
            final(self).tabs_spec()[old(self).active_spec()].page_name == old(self).tabs_spec()[old(self).active_spec()].page_name,
    {
        let a = self.active;
        &mut self.tabs[a].engine
    }

    /// The split engine of the tab at `index`.
    pub fn engine_at(&self, index: usize) -> (e: &E)
        requires
            index < self.tabs_spec().len(),
        ensures
            *e == self.tabs_spec()[index as int].engine,
    {
        &self.tabs[index].engine
    }

    /// The split engine of the tab at `index`, for changing it.
    pub fn engine_at_mut(&mut self, index: usize) -> (e: &mut E)
        requires
            old(self).wf(),
            index < old(self).tabs_spec().len(),
        ensures
            *e == old(self).tabs_spec()[index as int].engine,
            final(self).wf(),
            final(self).active_spec() == old(self).active_spec(),
            final(self).next_number_spec() == old(self).next_number_spec(),
            final(self).tabs_spec().len() == old(self).tabs_spec().len(),
            forall|i: int|
                0 <= i < old(self).tabs_spec().len() && i != index
                    ==> #[trigger] final(self).tabs_spec()[i] == old(self).tabs_spec()[i],
            final(self).tabs_spec()[index as int].engine == *final(e),
            final(self).tabs_spec()[index as int].title == old(self).tabs_spec()[index as int].title,
            final(self).tabs_spec()[index as int].page_name == old(self).tabs_spec()[index as int].page_name,
    {
        &mut self.tabs[index].engine
    }

    /// Name of the page to show: the shown tab's.
    pub fn active_page_name(&self) -> (name: &str)
        requires
            self.wf(),
        ensures
            name@ == self.tabs_spec()[self.active_spec()].page_name@,
    {
        self.tabs[self.active].page_name.as_str()
    }

    /// A single tab shows no strip at all, so nothing changes visually for
    /// workspaces that never open a second tab.
    pub fn strip_visible(&self) -> (b: bool)
        ensures
            b == (self.tabs_spec().len() >= 2),
    {
        self.tabs.len() >= 2
    }

    /// Appends a tab built around `engine` and makes it the shown one.
    /// Returns the new tab's index. Its title takes the next tab number `n`
    /// and its page is `tab-<n - 1>`: like the numbers, page names are never
    /// reused, so a new tab never lands on the page of a tab still open.
    pub fn push_tab(&mut self, engine: E) -> (index: usize)
        requires
            old(self).wf(),
            old(self).next_number_spec() < u64::MAX,
        ensures
            final(self).wf(),
            index == old(self).tabs_spec().len(),
            final(self).tabs_spec().len() == old(self).tabs_spec().len() + 1,
            final(self).tabs_spec().drop_last() == old(self).tabs_spec(),
            final(self).tabs_spec().last().engine == engine,
            final(self).tabs_spec().last().title@ == tab_title(old(self).next_number_spec()),
            final(self).tabs_spec().last().page_name@ == tab_page(
                (old(self).next_number_spec() - 1) as nat,
            ),
            final(self).active_spec() == index,
            final(self).next_number_spec() == old(self).next_number_spec() + 1,
    {
        proof {
            reveal_strlit("Tab ");
            reveal_strlit("tab-");
            assert("Tab "@ =~= seq!['T', 'a', 'b', ' ']);
            assert("tab-"@ =~= seq!['t', 'a', 'b', '-']);
        }
        let index = self.tabs.len();
        let page_name = prefixed_decimal("tab-", self.next_tab_number - 1);
        let title = prefixed_decimal("Tab ", self.next_tab_number);
        let ghost n = self.next_tab_number as nat;
        self.next_tab_number = self.next_tab_number + 1;
        self.tabs.push(Tab { engine, title, page_name });
        let numbers: Ghost<Seq<nat>> = Ghost(self.numbers@.push(n));
        self.numbers = numbers;
        self.active = index;
        proof {
            assert(self.tabs@.drop_last() =~= old(self).tabs@);
            assert forall|i: int|
                0 <= i < self.tabs@.len() implies (#[trigger] self.tabs@[i]).title@ == tab_title(
                self.numbers@[i],
            ) by {
                if i < index {
                    assert(self.tabs@[i] == old(self).tabs@[i]);
                }
            }
            assert forall|i: int| 0 <= i < self.tabs@.len() implies {
                &&& #[trigger] self.numbers@[i] >= 1
                &&& self.tabs@[i].page_name@ == tab_page((self.numbers@[i] - 1) as nat)
            } by {
                if i < index {
                    assert(self.tabs@[i] == old(self).tabs@[i]);
                    assert(self.numbers@[i] == old(self).numbers@[i]);
                }
            }
        }
        index
    }

    /// Closes the tab at `index` and hands it back, so that the caller can
    /// drop its panes' surfaces and its page. Refuses (returning `None`) to
    /// close the last remaining tab, since a workspace with no tab has no
    /// terminal, and an index out of range. The selection stays on a neighbour.
    pub fn close_tab(&mut self, index: usize) -> (closed: Option<Tab<E>>)
        requires
            old(self).wf(),
        ensures
            final(self).wf(),
            (old(self).tabs_spec().len() <= 1 || index >= old(self).tabs_spec().len()) ==> {
                &&& closed is None
                &&& final(self).tabs_spec() == old(self).tabs_spec()
                &&& final(self).active_spec() == old(self).active_spec()
            },
            (old(self).tabs_spec().len() > 1 && index < old(self).tabs_spec().len()) ==> {
                &&& closed == Some(old(self).tabs_spec()[index as int])
                &&& final(self).tabs_spec() == old(self).tabs_spec().remove(index as int)
                &&& final(self).active_spec() == tab_after_close(
                    old(self).active_spec(),
                    index as int,
                    old(self).tabs_spec().len() - 1,
                )
            },
            final(self).next_number_spec() == old(self).next_number_spec(),
    {
        if self.tabs.len() <= 1 || index >= self.tabs.len() {
            return None;
        }
        let tab = self.tabs.remove(index);
        let numbers: Ghost<Seq<nat>> = Ghost(self.numbers@.remove(index as int));
        self.numbers = numbers;
        if self.active >= index && self.active > 0 {
            self.active = self.active - 1;
        }
        if self.active >= self.tabs.len() {
            self.active = self.tabs.len() - 1;
        }
        proof {
            let o = old(self).tabs@;
            let on = old(self).numbers@;
            assert forall|i: int|
                0 <= i < self.tabs@.len() implies (#[trigger] self.tabs@[i]).title@ == tab_title(
                self.numbers@[i],
            ) by {
                if i < index {
                    assert(self.tabs@[i] == o[i]);
                    assert(self.numbers@[i] == on[i]);
                } else {
                    assert(self.tabs@[i] == o[i + 1]);
                    assert(self.numbers@[i] == on[i + 1]);
                }
            }
            assert forall|i: int| 0 <= i < self.tabs@.len() implies {
                &&& #[trigger] self.numbers@[i] >= 1
                &&& self.tabs@[i].page_name@ == tab_page((self.numbers@[i] - 1) as nat)
            } by {
                let i2 = if i < index { i } else { i + 1 };
                assert(self.tabs@[i] == o[i2]);
                assert(self.numbers@[i] == on[i2]);
            }
            assert forall|i: int, j: int|
                0 <= i < j < self.tabs@.len() implies #[trigger] self.numbers@[i]
                < #[trigger] self.numbers@[j] by {
                let i2 = if i < index { i } else { i + 1 };
                let j2 = if j < index { j } else { j + 1 };
                assert(self.numbers@[i] == on[i2]);
                assert(self.numbers@[j] == on[j2]);
            }
            assert forall|i: int| 0 <= i < self.tabs@.len() implies #[trigger] self.numbers@[i]
                < self.next_tab_number by {
                let i2 = if i < index { i } else { i + 1 };
                assert(self.numbers@[i] == on[i2]);
            }
        }
        Some(tab)
    }

    /// Closes the shown tab; see `close_tab`.
    pub fn close_active(&mut self) -> (closed: Option<Tab<E>>)
        requires
            old(self).wf(),
        ensures
            final(self).wf(),
            old(self).tabs_spec().len() <= 1 ==> {
                &&& closed is None
                &&& final(self).tabs_spec() == old(self).tabs_spec()
                &&& final(self).active_spec() == old(self).active_spec()
            },
            old(self).tabs_spec().len() > 1 ==> {
                &&& closed == Some(old(self).tabs_spec()[old(self).active_spec()])
                &&& final(self).tabs_spec() == old(self).tabs_spec().remove(old(self).active_spec())
                &&& final(self).active_spec() == tab_after_close(
                    old(self).active_spec(),
                    old(self).active_spec(),
                    old(self).tabs_spec().len() - 1,
                )
            },
            final(self).next_number_spec() == old(self).next_number_spec(),
    {
        let a = self.active;
        self.close_tab(a)
    }

    /// Shows the tab at `index`; does nothing when it is out of range.
    pub fn switch_to(&mut self, index: usize)
        requires
            old(self).wf(),
        ensures
            final(self).wf(),
            final(self).tabs_spec() == old(self).tabs_spec(),
            final(self).next_number_spec() == old(self).next_number_spec(),
            final(self).active_spec() == (if index < old(self).tabs_spec().len() {
                index as int
            } else {
                old(self).active_spec()
            }),
    {
        if index >= self.tabs.len() {
            return;
        }
        self.active = index;
    }

    /// Shows the next tab, wrapping around; does nothing with a single tab.
    pub fn next_tab(&mut self)
        requires
            old(self).wf(),
        ensures
            final(self).wf(),
            final(self).tabs_spec() == old(self).tabs_spec(),
            final(self).next_number_spec() == old(self).next_number_spec(),
            final(self).active_spec() == (if old(self).tabs_spec().len() < 2 {
                old(self).active_spec()
            } else {
                tab_next(old(self).active_spec(), old(self).tabs_spec().len() as int)
            }),
    {
        if self.tabs.len() < 2 {
            return;
        }
        let next = (self.active + 1) % self.tabs.len();
        self.switch_to(next);
    }

    /// Shows the previous tab, wrapping around; does nothing with a single tab.
    pub fn prev_tab(&mut self)
        requires
            old(self).wf(),
        ensures
            final(self).wf(),
            final(self).tabs_spec() == old(self).tabs_spec(),
            final(self).next_number_spec() == old(self).next_number_spec(),
            final(self).active_spec() == (if old(self).tabs_spec().len() < 2 {
                old(self).active_spec()
            } else {
                tab_prev(old(self).active_spec(), old(self).tabs_spec().len() as int)
            }),
    {
        if self.tabs.len() < 2 {
            return;
        }
        let prev = if self.active == 0 {
            self.tabs.len() - 1
        } else {
            self.active - 1
        };
        self.switch_to(prev);
    }

    /// No two tabs of a workspace ever carry the same title: tab numbers are
    /// never reused, also after closing tabs.
    pub proof fn law_titles_distinct(&self)
        requires
            self.wf(),
        ensures
            forall|i: int, j: int|
                0 <= i < self.tabs_spec().len() && 0 <= j < self.tabs_spec().len() && i != j
                    ==> (#[trigger] self.tabs_spec()[i]).title@ != (#[trigger] self.tabs_spec()[j]).title@,
    {
        assert forall|i: int, j: int|
            0 <= i < self.tabs_spec().len() && 0 <= j < self.tabs_spec().len() && i != j implies (
            #[trigger] self.tabs_spec()[i]).title@ != (#[trigger] self.tabs_spec()[j]).title@ by {
            if self.tabs@[i].title@ == self.tabs@[j].title@ {
                lemma_prefixed_decimal_injective(
                    seq!['T', 'a', 'b', ' '],
                    self.numbers@[i],
                    self.numbers@[j],
                );
                if i < j {
                    assert(self.numbers@[i] < self.numbers@[j]);
                } else {
                    assert(self.numbers@[j] < self.numbers@[i]);
                }
            }
        }
    }

    /// No two tabs of a workspace ever share a page, so showing a tab never
    /// shows another: page names are never reused, also after closing tabs.
    pub proof fn law_page_names_distinct(&self)
        requires
            self.wf(),
        ensures
            forall|i: int, j: int|
                0 <= i < self.tabs_spec().len() && 0 <= j < self.tabs_spec().len() && i != j
                    ==> (#[trigger] self.tabs_spec()[i]).page_name@ != (#[trigger] self.tabs_spec()[j]).page_name@,
    {
        assert forall|i: int, j: int|
            0 <= i < self.tabs_spec().len() && 0 <= j < self.tabs_spec().len() && i != j implies (
            #[trigger] self.tabs_spec()[i]).page_name@ != (#[trigger] self.tabs_spec()[j]).page_name@ by {
            assert(self.numbers@[i] >= 1 && self.numbers@[j] >= 1);
            if self.tabs@[i].page_name@ == self.tabs@[j].page_name@ {
                lemma_prefixed_decimal_injective(
                    seq!['t', 'a', 'b', '-'],
                    (self.numbers@[i] - 1) as nat,
                    (self.numbers@[j] - 1) as nat,
                );
                if i < j {
                    assert(self.numbers@[i] < self.numbers@[j]);
                } else {
                    assert(self.numbers@[j] < self.numbers@[i]);
                }
            }
        }
    }

    /// The page the next tab gets differs from the page of every open tab.
    pub proof fn law_new_page_is_fresh(&self)
        requires
            self.wf(),
        ensures
            forall|i: int|
                0 <= i < self.tabs_spec().len() ==> (#[trigger] self.tabs_spec()[i]).page_name@
                    != tab_page((self.next_number_spec() - 1) as nat),
    {
        assert forall|i: int| 0 <= i < self.tabs_spec().len() implies (
        #[trigger] self.tabs_spec()[i]).page_name@ != tab_page((self.next_number_spec() - 1) as nat) by {
            assert(self.numbers@[i] >= 1);
            if self.tabs@[i].page_name@ == tab_page((self.next_number_spec() - 1) as nat) {
                lemma_prefixed_decimal_injective(
                    seq!['t', 'a', 'b', '-'],
                    (self.numbers@[i] - 1) as nat,
                    (self.next_number_spec() - 1) as nat,
                );
            }
        }
    }

    /// A new tab's title differs from every title the workspace has.
    pub proof fn law_new_title_is_fresh(&self)
        requires
            self.wf(),
        ensures
            forall|i: int|
                0 <= i < self.tabs_spec().len() ==> (#[trigger] self.tabs_spec()[i]).title@
                    != tab_title(self.next_number_spec()),
    {
        assert forall|i: int| 0 <= i < self.tabs_spec().len() implies (
        #[trigger] self.tabs_spec()[i]).title@ != tab_title(self.next_number_spec()) by {
            if self.tabs@[i].title@ == tab_title(self.next_number_spec()) {
                lemma_prefixed_decimal_injective(
                    seq!['T', 'a', 'b', ' '],
                    self.numbers@[i],
                    self.next_number_spec(),
                );
            }
        }
    }
}

/// The highest pane id among `pane_ids` (those of every tab's split tree),
/// 0 when there is none. The next tab's pane block is allocated above it.
pub fn max_pane_id(pane_ids: &Vec<u64>) -> (m: u64)
    ensures
        forall|i: int| 0 <= i < pane_ids@.len() ==> #[trigger] pane_ids@[i] <= m,
        pane_ids@.len() == 0 ==> m == 0,
        pane_ids@.len() > 0 ==> exists|i: int| 0 <= i < pane_ids@.len() && #[trigger] pane_ids@[i] == m,
{
    let mut m: u64 = 0;
    let mut i: usize = 0;
    while i < pane_ids.len()
        invariant
            i <= pane_ids@.len(),
            forall|j: int| 0 <= j < i ==> #[trigger] pane_ids@[j] <= m,
            i == 0 ==> m == 0,
            i > 0 ==> exists|j: int| 0 <= j < i && #[trigger] pane_ids@[j] == m,
        decreases pane_ids@.len() - i,
    {
        if i == 0 || pane_ids[i] > m {
            m = pane_ids[i];
        }
        i = i + 1;
    }
    m
}

} // verus!
