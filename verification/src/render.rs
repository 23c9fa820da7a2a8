//! What one frame of the menu shows: the list of labels in their original
//! order with exactly the selected entry emphasized, a title, and a footer
//! holding the quit-key hint. Drawing these styled lines into the terminal
//! is left to the caller; this module fixes the content of the frame.

use vstd::prelude::*;
use crate::state::App;

verus! {

/// One displayed menu entry: its label, and whether it is drawn in the
/// emphasis style reserved for the selected entry.
#[derive(Clone, Copy, Debug)]
pub struct MenuLine {
    pub label: &'static str,
    pub emphasized: bool,
}

impl App {
    /// The rows of the menu body, top to bottom: every label in its original
    /// order, with exactly the entry at the selected index emphasized.
    pub fn menu_lines(&self) -> (r: Vec<MenuLine>)
        requires
            self.wf(),
        ensures
            r@.len() == self.menu_items@.len(),
            forall|i: int|
                0 <= i < r@.len() ==> (#[trigger] r@[i]).label == self.menu_items@[i],
            forall|i: int|
                0 <= i < r@.len() ==> ((#[trigger] r@[i]).emphasized <==> i
                    == self.active_menu_item),
    {
        let mut lines: Vec<MenuLine> = Vec::new();
        let mut i: usize = 0;
        while i < self.menu_items.len()
            invariant
                self.wf(),
                i <= self.menu_items@.len(),
                lines@.len() == i,
                forall|j: int|
                    0 <= j < lines@.len() ==> (#[trigger] lines@[j]).label
                        == self.menu_items@[j],
                forall|j: int|
                    0 <= j < lines@.len() ==> ((#[trigger] lines@[j]).emphasized <==> j
                        == self.active_menu_item),
            decreases self.menu_items@.len() - i,
        {
            let line = MenuLine {
                label: self.menu_items[i],
                emphasized: i == self.active_menu_item,
            };
            lines.push(line);
            i = i + 1;
        }
        lines
    }
}

/// The title shown centered on the top border; the caller styles it bold.
pub fn title_text() -> (r: &'static str)
    ensures
        r@ == "Main Menu"@,
{
    "Main Menu"
}

/// The plain part of the footer instruction line.
pub fn quit_label() -> (r: &'static str)
    ensures
        r@ == " Quit "@,
{
    " Quit "
}

/// The styled quit-key hint shown beside the quit label in the footer.
pub fn quit_hint() -> (r: &'static str)
    ensures
        r@ == "<Q> "@,
{
    "<Q> "
}

} // verus!
