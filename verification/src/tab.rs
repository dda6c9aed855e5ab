//! One open document: its display name, text buffer, edit mode and
//! markdown-preview toggle.

use vstd::prelude::*;

verus! {

use vstd::utf8::decode_utf8;
use vstd::utf8::valid_utf8;
use crate::text::decode_text;

/// The two-state editing affectation of a tab. `Insert` is entered when the
/// insert key is pressed; no transition leads back to `Normal`.
#[derive(Clone, Copy, Debug, PartialEq, Eq, Structural)]
pub enum EditMode {
    Insert,
    Normal,
}

/// One open document.
#[derive(Clone, Debug)]
pub struct Tab {
    pub name: String,
    pub text: String,
    pub mode: EditMode,
    pub markdown_view: bool,
}

/// The mathematical content of a [`Tab`].
pub struct TabView {
    pub name: Seq<char>,
    pub text: Seq<char>,
    pub mode: EditMode,
    pub markdown_view: bool,
}

impl View for Tab {
    type V = TabView;

    open spec fn view(&self) -> TabView {
        TabView {
            name: self.name@,
            text: self.text@,
            mode: self.mode,
            markdown_view: self.markdown_view,
        }
    }
}

/// The tab that opening a file with the given name and raw contents yields:
/// the bytes decoded as UTF-8 (or the empty buffer when they are not valid
/// UTF-8), in `Normal` mode, with the markdown preview off.
pub open spec fn loaded_tab(name: Seq<char>, bytes: Seq<u8>) -> TabView {
    TabView {
        name,
        text: if valid_utf8(bytes) {
            decode_utf8(bytes)
        } else {
            Seq::<char>::empty()
        },
        mode: EditMode::Normal,
        markdown_view: false,
    }
}

impl Tab {
    /// Build the tab for a file just read from disk.
    pub fn from_file(name: String, bytes: Vec<u8>) -> (tab: Tab)
        ensures
            tab@ == loaded_tab(name@, bytes@),
    {
        Tab {
            name,
            text: decode_text(bytes),
            mode: EditMode::Normal,
            markdown_view: false,
        }
    }
}

} // verus!
