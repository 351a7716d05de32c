//! Keyboard dispatcher: maps one keystroke to a change of the navigation
//! state or to an action for the surrounding program.

use vstd::prelude::*;

use crate::state::{jump_down, jump_up, wrap_down, wrap_up, App};

verus! {

/// Base of the page that shows a network member's profile; the member's
/// identifier follows it.
pub const PROFILE_URL_BASE: &'static str = "https://stats.vatsim.net/stats/";

/// The keys that the interface recognises.
#[derive(Debug, Clone, Copy, PartialEq, Eq, Structural)]
pub enum Key {
    Quit,
    Up,
    Down,
    Tab,
    PageUp,
    PageDown,
    Enter,
    Escape,
    OpenExternal,
    /// Any other key.
    Other,
}

/// What the surrounding program is to do after a keystroke.
#[derive(Debug, PartialEq, Eq)]
pub enum Action {
    /// Draw the next frame and wait for the next key.
    Continue,
    /// Leave the interface.
    Quit,
    /// Open this address in a browser; the outcome does not matter.
    OpenUrl(String),
}

/// The dispatcher's state.
#[derive(Debug, Clone, Copy, PartialEq, Eq, Structural)]
pub enum Mode {
    /// The table has the keys.
    Browsing,
    /// The detail popup is open.
    DetailOpen,
}

/// The character of a decimal digit.
pub open spec fn digit_char(d: nat) -> char {
    ((d + 48) as u8) as char
}

/// The decimal digits of a natural number, most significant first.
pub open spec fn decimal_digits(n: nat) -> Seq<char>
    decreases n,
{
    if n < 10 {
        seq![digit_char(n)]
    } else {
        decimal_digits(n / 10).push(digit_char(n % 10))
    }
}

/// The decimal text of an integer, with a leading `-` where it is negative.
pub open spec fn decimal_text(n: int) -> Seq<char> {
    if n < 0 {
        seq!['-'] + decimal_digits((-n) as nat)
    } else {
        decimal_digits(n as nat)
    }
}

/// The profile address of the member with identifier `cid`.
pub open spec fn profile_url_of(cid: i64) -> Seq<char> {
    PROFILE_URL_BASE@ + decimal_text(cid as int)
}

/// Relies on `i64`'s `to_string` (its `Display`): the decimal text of the
/// value.
#[verifier::external_body]
fn int_text(n: i64) -> (r: String)
    ensures
        r@ == decimal_text(n as int),
{
    n.to_string()
}

/// The address of the profile page of the member with identifier `cid`.
pub fn profile_url(cid: i64) -> (r: String)
    ensures
        r@ == profile_url_of(cid),
{
    let base = String::from_str(PROFILE_URL_BASE);
    let digits = int_text(cid);
    base.concat(digits.as_str())
}

/// A navigation key: one that moves a cursor or switches tabs.
pub open spec fn is_navigation(key: Key) -> bool {
    key == Key::Up || key == Key::Down || key == Key::Tab || key == Key::PageUp || key
        == Key::PageDown
}

impl App {
    /// The dispatcher's state.
    pub open spec fn spec_mode(&self) -> Mode {
        if self.popup() {
            Mode::DetailOpen
        } else {
            Mode::Browsing
        }
    }

    /// The dispatcher's state: `DetailOpen` while the popup is open.
    pub fn mode(&self) -> (r: Mode)
        requires
            self.wf(),
        ensures
            r == self.spec_mode(),
    {
        if self.popup_open() {
            Mode::DetailOpen
        } else {
            Mode::Browsing
        }
    }

    /// Holds when `other` has the same tab, cursors and snapshot as `self`.
    pub open spec fn same_place(&self, other: &App) -> bool {
        &&& other.tab() == self.tab()
        &&& other.cursor(0) == self.cursor(0)
        &&& other.cursor(1) == self.cursor(1)
        &&& other.snapshot() == self.snapshot()
    }

    /// The effect of `key` on `old`: the new state `new` and the action `act`.
    pub open spec fn key_step(old: App, new: App, key: Key, act: Action) -> bool {
        if !old.popup() {
            match key {
                Key::Quit => act == Action::Quit && new == old,
                Key::Down => act == Action::Continue && old.moved_to(
                    &new,
                    wrap_down(old.active_cursor(), old.active_rows()),
                ),
                Key::Up => act == Action::Continue && old.moved_to(
                    &new,
                    wrap_up(old.active_cursor(), old.active_rows()),
                ),
                Key::PageDown => act == Action::Continue && old.moved_to(
                    &new,
                    jump_down(old.active_cursor(), old.active_rows()),
                ),
                Key::PageUp => act == Action::Continue && old.moved_to(
                    &new,
                    jump_up(old.active_cursor()),
                ),
                Key::Tab => {
                    &&& act == Action::Continue
                    &&& new.tab() == 1 - old.tab()
                    &&& new.cursor(0) == 0
                    &&& new.cursor(1) == 0
                    &&& new.popup() == old.popup()
                    &&& new.snapshot() == old.snapshot()
                },
                Key::Enter => {
                    &&& act == Action::Continue
                    &&& old.same_place(&new)
                    &&& new.popup() == (old.active_rows() > 0)
                },
                _ => act == Action::Continue && new == old,
            }
        } else {
            match key {
                Key::Escape => act == Action::Continue && old.same_place(&new) && !new.popup(),
                Key::OpenExternal => {
                    &&& new == old
                    &&& old.active_rows() > 0 ==> match act {
                        Action::OpenUrl(u) => u@ == profile_url_of(old.highlighted_cid()),
                        _ => false,
                    }
                    &&& old.active_rows() == 0 ==> act == Action::Continue
                },
                _ => act == Action::Continue && new == old,
            }
        }
    }

    /// Handle one keystroke.
    ///
    /// While browsing, the navigation keys move the cursor or switch tabs,
    /// `Enter` opens the popup (not over an empty list) and `Quit` asks to
    /// leave. While the popup is open, `Escape` closes it, `OpenExternal`
    /// asks to open the highlighted member's profile page, and every other
    /// key is ignored.
    pub fn handle_key(&mut self, key: Key) -> (r: Action)
        requires
            old(self).wf(),
        ensures
            final(self).wf(),
            App::key_step(*old(self), *final(self), key, r),
    {
        if !self.popup_open() {
            match key {
                Key::Quit => Action::Quit,
                Key::Down => {
                    self.down();
                    Action::Continue
                },
                Key::Up => {
                    self.up();
                    Action::Continue
                },
                Key::PageDown => {
                    self.page_down();
                    Action::Continue
                },
                Key::PageUp => {
                    self.page_up();
                    Action::Continue
                },
                Key::Tab => {
                    self.tab_over();
                    Action::Continue
                },
                Key::Enter => {
                    if self.row_count() > 0 {
                        self.toggle_popup(true);
                    }
                    Action::Continue
                },
                _ => Action::Continue,
            }
        } else {
            match key {
                Key::Escape => {
                    self.toggle_popup(false);
                    Action::Continue
                },
                Key::OpenExternal => match self.selected_cid() {
                    Some(cid) => Action::OpenUrl(profile_url(cid)),
                    None => Action::Continue,
                },
                _ => Action::Continue,
            }
        }
    }
}

/// While the popup is open a navigation key changes nothing: not the tab,
/// not a cursor, not the mode.
pub proof fn lemma_navigation_ignored_in_detail(a: App, b: App, key: Key, act: Action)
    requires
        a.spec_mode() == Mode::DetailOpen,
        is_navigation(key),
        App::key_step(a, b, key, act),
    ensures
        b == a,
        act == Action::Continue,
{
}

/// Opening the popup over a non-empty list enters `DetailOpen`; navigation
/// keys pressed there are suppressed; `Escape` returns to `Browsing` with the
/// tab and both cursors as they were before the popup opened.
pub proof fn lemma_popup_round_trip(
    a0: App,
    a1: App,
    a2: App,
    a3: App,
    nav: Key,
    x1: Action,
    x2: Action,
    x3: Action,
)
    requires
        a0.wf(),
        a0.spec_mode() == Mode::Browsing,
        a0.active_rows() > 0,
        App::key_step(a0, a1, Key::Enter, x1),
        is_navigation(nav),
        App::key_step(a1, a2, nav, x2),
        App::key_step(a2, a3, Key::Escape, x3),
    ensures
        a1.spec_mode() == Mode::DetailOpen,
        a2.same_place(&a0),
        a2.spec_mode() == Mode::DetailOpen,
        a3.spec_mode() == Mode::Browsing,
        a3.same_place(&a0),
{
}

} // verus!
