//! The editor's state: an ordered list of open tabs, the selected-tab
//! index, and the file-picker session flag, together with every operation
//! the update loop performs on them.

use vstd::prelude::*;

verus! {

use crate::markdown::html_of;
use crate::markdown::render_markdown;
use crate::tab::EditMode;
use crate::tab::Tab;
use crate::tab::TabView;
use crate::tab::loaded_tab;

/// The mathematical content of a [`Medit`]: what the editor shows.
#[verifier::ext_equal]
pub struct MeditView {
    /// Whether a file-picker session is awaiting a selection.
    pub picker_open: bool,
    /// The position in the tab list currently displayed for editing.
    pub selected_tab: int,
    /// The open documents, in the order they were opened.
    pub tabs: Seq<TabView>,
}

impl MeditView {
    /// The selected index stays inside the tab list whenever the list is
    /// non-empty, and rests at zero when the list is empty.
    pub open spec fn wf(self) -> bool {
        &&& 0 <= self.selected_tab
        &&& self.tabs.len() == 0 ==> self.selected_tab == 0
        &&& self.tabs.len() > 0 ==> self.selected_tab < self.tabs.len()
    }

    /// The state before anything was opened.
    pub open spec fn initial() -> MeditView {
        MeditView { picker_open: false, selected_tab: 0, tabs: Seq::<TabView>::empty() }
    }

    /// Start a file-picker session.
    pub open spec fn open_picker(self) -> MeditView {
        MeditView { picker_open: true, ..self }
    }

    /// Append one freshly opened tab; nothing else moves, in particular the
    /// selection stays where it was.
    pub open spec fn open_tab(self, tab: TabView) -> MeditView {
        MeditView { tabs: self.tabs.push(tab), ..self }
    }

    /// End the picker session with a chosen file, appending its tab.
    pub open spec fn resolve_picker(self, tab: TabView) -> MeditView {
        MeditView { picker_open: false, tabs: self.tabs.push(tab), ..self }
    }

    /// Select the tab at position `i`; a position outside the list changes
    /// nothing.
    pub open spec fn select_tab(self, i: int) -> MeditView {
        if 0 <= i < self.tabs.len() {
            MeditView { selected_tab: i, ..self }
        } else {
            self
        }
    }

    /// Close the tab at position `i`; a position outside the list changes
    /// nothing. A surviving selected tab stays selected (its position slides
    /// down when it sat behind the closed one); closing the selected tab
    /// moves the selection to its successor, or to the new last tab when the
    /// closed one was last; closing the only tab resets the selection to
    /// zero.
    pub open spec fn close_tab(self, i: int) -> MeditView {
        if 0 <= i < self.tabs.len() {
            let tabs = self.tabs.remove(i);
            let selected = if tabs.len() == 0 {
                0
            } else if self.selected_tab > i {
                self.selected_tab - 1
            } else if self.selected_tab < tabs.len() {
                self.selected_tab
            } else {
                tabs.len() - 1
            };
            MeditView { selected_tab: selected, tabs, ..self }
        } else {
            self
        }
    }

    /// Replace the text of the selected tab; every other tab keeps its
    /// content. With no tab open nothing changes.
    pub open spec fn edit_active(self, text: Seq<char>) -> MeditView {
        if self.tabs.len() == 0 {
            self
        } else {
            MeditView {
                tabs: self.tabs.update(
                    self.selected_tab,
                    TabView { text, ..self.tabs[self.selected_tab] },
                ),
                ..self
            }
        }
    }

    /// Put the selected tab into `Insert` mode. With no tab open nothing
    /// changes.
    pub open spec fn press_insert(self) -> MeditView {
        if self.tabs.len() == 0 {
            self
        } else {
            MeditView {
                tabs: self.tabs.update(
                    self.selected_tab,
                    TabView { mode: EditMode::Insert, ..self.tabs[self.selected_tab] },
                ),
                ..self
            }
        }
    }

    /// Flip the selected tab's markdown-preview toggle. With no tab open
    /// nothing changes.
    pub open spec fn toggle_markdown_view(self) -> MeditView {
        if self.tabs.len() == 0 {
            self
        } else {
            MeditView {
                tabs: self.tabs.update(
                    self.selected_tab,
                    TabView {
                        markdown_view: !self.tabs[self.selected_tab].markdown_view,
                        ..self.tabs[self.selected_tab]
                    },
                ),
                ..self
            }
        }
    }
}

/// The editor's state.
pub struct Medit {
    picker_open: bool,
    selected_tab: usize,
    tabs: Vec<Tab>,
}

impl View for Medit {
    type V = MeditView;

    closed spec fn view(&self) -> MeditView {
        MeditView {
            picker_open: self.picker_open,
            selected_tab: self.selected_tab as int,
            tabs: self.tabs@.map_values(|t: Tab| t@),
        }
    }
}

impl Medit {
    /// An editor with no tabs and no picker session.
    pub fn new() -> (m: Medit)
        ensures
            m@ == MeditView::initial(),
            m@.wf(),
    {
        let m = Medit { picker_open: false, selected_tab: 0, tabs: Vec::new() };
        proof {
            assert(m@.tabs =~= Seq::<TabView>::empty());
            assert(m@ =~= MeditView::initial());
        }
        m
    }

    /// How many tabs are open.
    pub fn tab_count(&self) -> (n: usize)
        ensures
            n == self@.tabs.len(),
    {
        self.tabs.len()
    }

    /// The position of the selected tab.
    pub fn selected_tab(&self) -> (i: usize)
        ensures
            i == self@.selected_tab,
    {
        self.selected_tab
    }

    /// Whether a file-picker session is awaiting a selection.
    pub fn picker_open(&self) -> (b: bool)
        ensures
            b == self@.picker_open,
    {
        self.picker_open
    }

    /// Start a file-picker session, as the "open file" control does.
    pub fn request_open(&mut self)
        ensures
            final(self)@ == old(self)@.open_picker(),
    {
        self.picker_open = true;
    }

    /// Append an already-built tab to the tab list.
    pub fn new_tab(&mut self, tab: Tab)
        requires
            old(self)@.wf(),
        ensures
            final(self)@ == old(self)@.open_tab(tab@),
            final(self)@.wf(),
    {
        let ghost prev = self@;
        self.tabs.push(tab);
        proof {
            assert(self@.tabs =~= prev.tabs.push(tab@));
            assert(self@ =~= prev.open_tab(tab@));
        }
    }

    /// End the picker session with the chosen file's name and raw contents:
    /// decode the bytes and append the new tab.
    pub fn open_file(&mut self, name: String, bytes: Vec<u8>)
        requires
            old(self)@.wf(),
        ensures
            final(self)@ == old(self)@.resolve_picker(loaded_tab(name@, bytes@)),
            final(self)@.wf(),
    {
        let ghost prev = self@;
        self.picker_open = false;
        let tab = Tab::from_file(name, bytes);
        self.new_tab(tab);
        proof {
            assert(self@ =~= prev.resolve_picker(tab@));
        }
    }

    /// Select the tab at position `i`, as clicking its button does. The tab
    /// list itself is untouched.
    pub fn select_tab(&mut self, i: usize)
        requires
            old(self)@.wf(),
        ensures
            final(self)@ == old(self)@.select_tab(i as int),
            final(self)@.wf(),
            final(self)@.tabs == old(self)@.tabs,
            i < old(self)@.tabs.len() ==> final(self)@.selected_tab == i,
    {
        if i < self.tabs.len() {
            self.selected_tab = i;
        }
    }

    /// Close the tab at position `i`, keeping the selection on a live tab.
    pub fn close_tab(&mut self, i: usize)
        requires
            old(self)@.wf(),
        ensures
            final(self)@ == old(self)@.close_tab(i as int),
            final(self)@.wf(),
            i < old(self)@.tabs.len() ==> final(self)@.tabs.len() == old(
                self,
            )@.tabs.len() - 1,
            old(self)@.tabs.len() == 1 && i == 0 ==> final(self)@.tabs.len() == 0
                && final(self)@.selected_tab == 0,
    {
        let ghost prev = self@;
        if i < self.tabs.len() {
            self.tabs.remove(i);
            let remaining: usize = self.tabs.len();
            if remaining == 0 {
                self.selected_tab = 0;
            } else if self.selected_tab > i {
                self.selected_tab = self.selected_tab - 1;
            } else if self.selected_tab >= remaining {
                self.selected_tab = remaining - 1;
            }
            proof {
                assert(self@.tabs =~= prev.tabs.remove(i as int));
                assert(self@ =~= prev.close_tab(i as int));
            }
        }
    }

    /// Replace the selected tab's text with what the edit surface holds, as
    /// typing into the editor does. Only the selected tab is touched.
    pub fn set_active_text(&mut self, text: String)
        requires
            old(self)@.wf(),
        ensures
            final(self)@ == old(self)@.edit_active(text@),
            final(self)@.wf(),
            old(self)@.tabs.len() > 0 ==> final(self)@.tabs[old(self)@.selected_tab].text
                == text@,
            forall|k: int|
                0 <= k < old(self)@.tabs.len() && k != old(self)@.selected_tab
                    ==> final(self)@.tabs[k] == old(self)@.tabs[k],
    {
        let ghost prev = self@;
        if !self.tabs.is_empty() {
            self.tabs[self.selected_tab].text = text;
            proof {
                assert(self@.tabs =~= prev.edit_active(text@).tabs);
                assert(self@ =~= prev.edit_active(text@));
            }
        }
    }

    /// Put the selected tab into `Insert` mode, as pressing the insert key
    /// does.
    pub fn press_insert(&mut self)
        requires
            old(self)@.wf(),
        ensures
            final(self)@ == old(self)@.press_insert(),
            final(self)@.wf(),
    {
        let ghost prev = self@;
        if !self.tabs.is_empty() {
            self.tabs[self.selected_tab].mode = EditMode::Insert;
            proof {
                assert(self@.tabs =~= prev.press_insert().tabs);
                assert(self@ =~= prev.press_insert());
            }
        }
    }

    /// Flip the selected tab's markdown-preview toggle, as the "markdown
    /// view" control does.
    pub fn toggle_markdown_view(&mut self)
        requires
            old(self)@.wf(),
        ensures
            final(self)@ == old(self)@.toggle_markdown_view(),
            final(self)@.wf(),
    {
        let ghost prev = self@;
        if !self.tabs.is_empty() {
            let flipped: bool = !self.tabs[self.selected_tab].markdown_view;
            self.tabs[self.selected_tab].markdown_view = flipped;
            proof {
                assert(self@.tabs =~= prev.toggle_markdown_view().tabs);
                assert(self@ =~= prev.toggle_markdown_view());
            }
        }
    }

    /// The display name of the tab at position `i`.
    pub fn tab_name(&self, i: usize) -> (name: &String)
        requires
            i < self@.tabs.len(),
        ensures
            name@ == self@.tabs[i as int].name,
    {
        &self.tabs[i].name
    }

    /// The text buffer of the tab at position `i`.
    pub fn tab_text(&self, i: usize) -> (text: &String)
        requires
            i < self@.tabs.len(),
        ensures
            text@ == self@.tabs[i as int].text,
    {
        &self.tabs[i].text
    }

    /// The edit mode of the tab at position `i`.
    pub fn tab_mode(&self, i: usize) -> (mode: EditMode)
        requires
            i < self@.tabs.len(),
        ensures
            mode == self@.tabs[i as int].mode,
    {
        self.tabs[i].mode
    }

    /// The markdown-preview toggle of the tab at position `i`.
    pub fn tab_markdown_view(&self, i: usize) -> (b: bool)
        requires
            i < self@.tabs.len(),
        ensures
            b == self@.tabs[i as int].markdown_view,
    {
        self.tabs[i].markdown_view
    }

    /// The selected tab's text, or nothing when no tab is open.
    pub fn active_text(&self) -> (text: Option<&String>)
        requires
            self@.wf(),
        ensures
            text is Some <==> self@.tabs.len() > 0,
            text matches Some(t) ==> t@ == self@.tabs[self@.selected_tab].text,
    {
        if self.tabs.is_empty() {
            None
        } else {
            Some(&self.tabs[self.selected_tab].text)
        }
    }

    /// The HTML preview of the selected tab, when a tab is open and its
    /// markdown view is switched on.
    pub fn preview_html(&self) -> (html: Option<String>)
        requires
            self@.wf(),
        ensures
            html is Some <==> self@.tabs.len() > 0
                && self@.tabs[self@.selected_tab].markdown_view,
            html matches Some(h) ==> h@ == html_of(self@.tabs[self@.selected_tab].text),
    {
        if !self.tabs.is_empty() && self.tabs[self.selected_tab].markdown_view {
            Some(render_markdown(self.tabs[self.selected_tab].text.as_str()))
        } else {
            None
        }
    }
}

/// The state after opening the tabs of `ts`, one after another, starting
/// from `v`.
pub open spec fn open_all(v: MeditView, ts: Seq<TabView>) -> MeditView
    decreases ts.len(),
{
    if ts.len() == 0 {
        v
    } else {
        open_all(v.open_tab(ts[0]), ts.subrange(1, ts.len() as int))
    }
}

/// Opening files in sequence appends their tabs in open order: starting
/// from `v`, after opening each tab of `ts` in turn the tab list is
/// `v.tabs + ts` — in particular it grew by `ts.len()`, and from an empty
/// editor it is exactly `ts` — while the selection and the picker flag did
/// not move, and a well-formed state stays well-formed.
pub proof fn lemma_open_in_sequence(v: MeditView, ts: Seq<TabView>)
    ensures
        open_all(v, ts).tabs == v.tabs + ts,
        open_all(v, ts).tabs.len() == v.tabs.len() + ts.len(),
        open_all(v, ts).selected_tab == v.selected_tab,
        open_all(v, ts).picker_open == v.picker_open,
        v.wf() ==> open_all(v, ts).wf(),
    decreases ts.len(),
{
    if ts.len() == 0 {
        assert(v.tabs + ts =~= v.tabs);
    } else {
        let rest = ts.subrange(1, ts.len() as int);
        lemma_open_in_sequence(v.open_tab(ts[0]), rest);
        assert(v.tabs.push(ts[0]) + rest =~= v.tabs + ts);
    }
}

/// Editing the selected tab touches only that tab, and switching to any
/// other tab and back afterwards preserves the edit and every tab's
/// content, with the original selection restored.
pub proof fn lemma_edits_survive_switching(v: MeditView, text: Seq<char>, j: int)
    requires
        v.wf(),
        v.tabs.len() > 0,
    ensures
        v.edit_active(text).tabs[v.selected_tab].text == text,
        forall|k: int|
            0 <= k < v.tabs.len() && k != v.selected_tab ==> v.edit_active(text).tabs[k]
                == v.tabs[k],
        v.edit_active(text).select_tab(j).select_tab(v.selected_tab).tabs == v.edit_active(
            text,
        ).tabs,
        v.edit_active(text).select_tab(j).select_tab(v.selected_tab).selected_tab
            == v.selected_tab,
{
}

impl Default for Medit {
    /// The same state as [`Medit::new`].
    fn default() -> (m: Medit)
        ensures
            m@ == MeditView::initial(),
            m@.wf(),
    {
        Medit::new()
    }
}

} // verus!
