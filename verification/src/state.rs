//! Menu state and key dispatch: a fixed list of labels, a selected index
//! that wraps circularly under Up/Down keys, and an exit latch set by `q`.

use vstd::prelude::*;

verus! {

/// The keys the menu reacts to. Input events arrive from the terminal as a
/// key code; anything the menu does not react to is mapped to `Other`.
#[derive(Clone, Copy, Debug)]
pub enum KeyCode {
    Up,
    Down,
    Char(char),
    Other,
}

/// `q` sets the exit latch.
pub open spec fn is_quit_key(key: KeyCode) -> bool {
    key == KeyCode::Char('q')
}

/// Up and `j` move the selection one entry up, wrapping to the bottom.
pub open spec fn is_up_key(key: KeyCode) -> bool {
    key == KeyCode::Up || key == KeyCode::Char('j')
}

/// Down and `k` move the selection one entry down, wrapping to the top.
pub open spec fn is_down_key(key: KeyCode) -> bool {
    key == KeyCode::Down || key == KeyCode::Char('k')
}

/// The index one step up from `i` in a list of `n` entries, wrapping from
/// the top entry to the bottom one.
pub open spec fn up_index(i: int, n: int) -> int {
    if i == 0 {
        n - 1
    } else {
        i - 1
    }
}

/// The index one step down from `i` in a list of `n` entries, wrapping from
/// the bottom entry to the top one.
pub open spec fn down_index(i: int, n: int) -> int {
    if i == n - 1 {
        0
    } else {
        i + 1
    }
}

/// The index reached from `i` after `k` steps down in a list of `n` entries.
pub open spec fn down_steps(i: int, n: int, k: nat) -> int
    decreases k,
{
    if k == 0 {
        i
    } else {
        down_index(down_steps(i, n, (k - 1) as nat), n)
    }
}

/// Each wrapping step keeps the index inside the list.
proof fn lemma_down_steps_in_range(i: int, n: int, k: nat)
    requires
        0 <= i < n,
    ensures
        0 <= down_steps(i, n, k) < n,
    decreases k,
{
    if k > 0 {
        lemma_down_steps_in_range(i, n, (k - 1) as nat);
    }
}

/// Stepping down is addition modulo the list length.
proof fn lemma_down_steps_mod(i: int, n: int, k: nat)
    requires
        0 <= i < n,
    ensures
        down_steps(i, n, k) == (i + k) % n,
    decreases k,
{
    if k == 0 {
        vstd::arithmetic::div_mod::lemma_small_mod(i as nat, n as nat);
    } else {
        lemma_down_steps_mod(i, n, (k - 1) as nat);
        lemma_down_steps_in_range(i, n, (k - 1) as nat);
        let j = down_steps(i, n, (k - 1) as nat);
        vstd::arithmetic::div_mod::lemma_fundamental_div_mod(i + k - 1, n);
        let q = (i + k - 1) / n;
        assert(i + k == n * q + (j + 1));
        vstd::arithmetic::div_mod::lemma_mod_multiples_vanish(q, j + 1, n);
        if j == n - 1 {
            vstd::arithmetic::div_mod::lemma_mod_self_0(n);
        } else {
            vstd::arithmetic::div_mod::lemma_small_mod((j + 1) as nat, n as nat);
        }
    }
}

/// Pressing Down as many times as the menu has entries returns the selection
/// to where it started, whatever the starting state.
pub proof fn lemma_down_full_cycle(app: App)
    requires
        app.wf(),
    ensures
        down_steps(
            app.active_menu_item as int,
            app.menu_items@.len() as int,
            app.menu_items@.len(),
        ) == app.active_menu_item,
{
    let i = app.active_menu_item as int;
    let n = app.menu_items@.len() as int;
    lemma_down_steps_mod(i, n, n as nat);
    vstd::arithmetic::div_mod::lemma_mod_multiples_vanish(1, i, n);
    vstd::arithmetic::div_mod::lemma_small_mod(i as nat, n as nat);
    assert(n * 1 + i == i + n);
}

/// Up undoes Down and Down undoes Up: from any index in a list of `n`
/// entries, one step in one direction followed by one step in the other
/// returns to the same index.
pub proof fn lemma_up_down_inverse(i: int, n: int)
    requires
        0 <= i < n,
    ensures
        up_index(down_index(i, n), n) == i,
        down_index(up_index(i, n), n) == i,
{
}

/// The menu: a fixed ordered list of labels, the index of the highlighted
/// entry, and a latch that ends the application loop once set.
#[derive(Debug)]
pub struct App {
    pub exit: bool,
    pub menu_items: Vec<&'static str>,
    pub active_menu_item: usize,
}

impl App {
    /// The menu is never empty and the selection always points at an entry.
    pub open spec fn wf(self) -> bool {
        1 <= self.menu_items@.len() && self.active_menu_item < self.menu_items@.len()
    }

    /// Move the selection one entry up, wrapping from the first entry to the
    /// last. The labels and the exit latch are untouched.
    pub fn menu_up(&mut self)
        requires
            old(self).wf(),
        ensures
            final(self).wf(),
            final(self).active_menu_item == up_index(
                old(self).active_menu_item as int,
                old(self).menu_items@.len() as int,
            ),
            final(self).menu_items == old(self).menu_items,
            final(self).exit == old(self).exit,
    {
        if self.active_menu_item == 0 {
            self.active_menu_item = self.menu_items.len() - 1;
        } else {
            self.active_menu_item = self.active_menu_item - 1;
        }
    }

    /// Move the selection one entry down, wrapping from the last entry to the
    /// first. The labels and the exit latch are untouched.
    pub fn menu_down(&mut self)
        requires
            old(self).wf(),
        ensures
            final(self).wf(),
            final(self).active_menu_item == down_index(
                old(self).active_menu_item as int,
                old(self).menu_items@.len() as int,
            ),
            final(self).menu_items == old(self).menu_items,
            final(self).exit == old(self).exit,
    {
        if self.active_menu_item == self.menu_items.len() - 1 {
            self.active_menu_item = 0;
        } else {
            self.active_menu_item = self.active_menu_item + 1;
        }
    }

    /// Set the exit latch; nothing else changes.
    pub fn exit(&mut self)
        ensures
            final(self).exit == true,
            final(self).menu_items == old(self).menu_items,
            final(self).active_menu_item == old(self).active_menu_item,
    {
        self.exit = true;
    }

    /// Dispatch one pressed key: `q` sets the exit latch, Up/`j` and Down/`k`
    /// move the selection with wrap-around, and every other key leaves the
    /// whole state unchanged.
    pub fn handle_key_event(&mut self, key: KeyCode)
        requires
            old(self).wf(),
        ensures
            final(self).wf(),
            final(self).menu_items == old(self).menu_items,
            is_quit_key(key) ==> final(self).exit == true && final(self).active_menu_item
                == old(self).active_menu_item,
            is_up_key(key) ==> final(self).exit == old(self).exit
                && final(self).active_menu_item == up_index(
                old(self).active_menu_item as int,
                old(self).menu_items@.len() as int,
            ),
            is_down_key(key) ==> final(self).exit == old(self).exit
                && final(self).active_menu_item == down_index(
                old(self).active_menu_item as int,
                old(self).menu_items@.len() as int,
            ),
            !is_quit_key(key) && !is_up_key(key) && !is_down_key(key)
                ==> *final(self) == *old(self),
    {
        match key {
            KeyCode::Char('q') => self.exit(),
            KeyCode::Up | KeyCode::Char('j') => self.menu_up(),
            KeyCode::Down | KeyCode::Char('k') => self.menu_down(),
            _ => {},
        }
    }
}

impl Default for App {
    /// The startup state: three labels, the first entry selected, the exit
    /// latch unset.
    fn default() -> (r: Self)
        ensures
            r.wf(),
            r.exit == false,
            r.active_menu_item == 0,
            r.menu_items@.len() == 3,
            r.menu_items@[0]@ == "One"@,
            r.menu_items@[1]@ == "Two"@,
            r.menu_items@[2]@ == "Three"@,
    {
        App { exit: false, menu_items: vec!["One", "Two", "Three"], active_menu_item: 0 }
    }
}

} // verus!
