//! Menus of the selectors for audio track, subtitles and quality.

use crate::media::views;
use vstd::prelude::*;
use vstd::string::*;

verus! {

/// The scope under which the controls register their actions.
pub const ACTION_SCOPE: &'static str = "player";

/// The name by which a menu entry refers to the action `name` of the scope.
pub open spec fn scoped(name: Seq<char>) -> Seq<char> {
    ACTION_SCOPE@ + seq!['.'] + name
}

/// The scoped name of an action, as a menu entry carries it.
pub fn scoped_name(name: &String) -> (full: String)
    ensures
        full@ == scoped(name@),
{
    let mut full = String::from_str(ACTION_SCOPE);
    proof {
        reveal_strlit(".");
    }
    full.append(".");
    full.append(name.as_str());
    assert(full@ =~= scoped(name@));
    full
}

/// One line of a menu.
#[derive(Debug)]
pub struct MenuEntry {
    pub label: String,
    /// The scoped name of the action that the entry triggers; a placeholder has none.
    pub action: Option<String>,
}

/// A menu entry as contracts see it.
pub struct MenuEntryView {
    pub label: Seq<char>,
    pub action: Option<Seq<char>>,
}

impl View for MenuEntry {
    type V = MenuEntryView;

    open spec fn view(&self) -> MenuEntryView {
        MenuEntryView {
            label: self.label@,
            action: match self.action {
                Some(name) => Some(name@),
                None => None,
            },
        }
    }
}

/// A selector of the controls: its menu, and whether it can be used.
#[derive(Debug)]
pub struct Selector {
    pub entries: Vec<MenuEntry>,
    pub enabled: bool,
}

/// A selector as contracts see it.
pub struct SelectorView {
    pub entries: Seq<MenuEntryView>,
    pub enabled: bool,
}

impl View for Selector {
    type V = SelectorView;

    open spec fn view(&self) -> SelectorView {
        SelectorView { entries: views(self.entries@), enabled: self.enabled }
    }
}

/// A menu that holds nothing but a line of text, for a selector with nothing to select.
pub open spec fn placeholder_menu(text: Seq<char>) -> Seq<MenuEntryView> {
    seq![MenuEntryView { label: text, action: None }]
}

} // verus!
