//! Navigation state of the interface: the active tab, one cursor per tab and
//! whether the detail popup is open.

use vstd::prelude::*;

use crate::api::{label_of, Vatsim};
use crate::models::{Controller, FlightPlan, Pilot, V3ResponseData};

verus! {

/// Information from the V3 API data for the current interface view.
pub struct ViewData {
    /// Border title of the table.
    pub title: &'static str,
    /// Column headers of the table.
    pub headers: Vec<&'static str>,
    /// One row of cells per entity of the active tab, in snapshot order.
    pub data: Vec<Vec<String>>,
    /// Whether the detail popup is open.
    pub show_popup: bool,
    /// The highlighted row; `None` for an empty list.
    pub selected_index: Option<usize>,
    /// A copy of the highlighted entity; `None` for an empty list.
    pub selected_row_data: Option<SelectedRow>,
}

/// The data for a selected row in the interface.
#[derive(Debug)]
pub enum SelectedRow {
    Pilot(Pilot),
    Controller(Controller),
}

/// The text of each string of a sequence.
pub open spec fn texts(v: Seq<String>) -> Seq<Seq<char>> {
    v.map_values(|s: String| s@)
}

/// The text of each string slice of a sequence.
pub open spec fn str_texts(v: Seq<&str>) -> Seq<Seq<char>> {
    v.map_values(|s: &str| s@)
}

/// Column headers of the pilots tab.
pub open spec fn pilot_headers() -> Seq<Seq<char>> {
    seq!["Callsign"@, "Name"@, "Aircraft"@, "Lat"@, "Long"@]
}

/// Column headers of the controllers tab.
pub open spec fn controller_headers() -> Seq<Seq<char>> {
    seq!["Callsign"@, "Name"@, "Frequency"@, "Rating"@]
}

/// Placeholder for an aircraft type that the flight plan does not give.
pub open spec fn unknown_aircraft() -> Seq<char> {
    "???"@
}

/// The aircraft cell of a pilot: the FAA aircraft code of the flight plan,
/// else its short aircraft code, else the placeholder; the placeholder
/// where no flight plan was filed.
pub open spec fn aircraft_text(fp: Option<FlightPlan>) -> Seq<char> {
    match fp {
        None => unknown_aircraft(),
        Some(f) => if f.aircraft_faa@.len() > 0 {
            f.aircraft_faa@
        } else if f.aircraft_short@.len() > 0 {
            f.aircraft_short@
        } else {
            unknown_aircraft()
        },
    }
}

/// The cells of a pilot's row.
pub open spec fn pilot_row(p: Pilot) -> Seq<Seq<char>> {
    seq![p.callsign@, p.name@, aircraft_text(p.flight_plan), p.latitude@, p.longitude@]
}

/// The cells of a controller's row, the rating looked up in `data`.
pub open spec fn controller_row(data: V3ResponseData, c: Controller) -> Seq<Seq<char>> {
    seq![c.callsign@, c.name@, c.frequency@, label_of(data.ratings@, c.rating)]
}

/// The rows of the pilots tab, one per pilot, in snapshot order.
pub open spec fn rows_match_pilots(rows: Seq<Vec<String>>, data: V3ResponseData) -> bool {
    &&& rows.len() == data.pilots@.len()
    &&& forall|i: int| 0 <= i < rows.len() ==> #[trigger] texts(rows[i]@) == pilot_row(data.pilots@[i])
}

/// The rows of the controllers tab, one per controller, in snapshot order.
pub open spec fn rows_match_controllers(rows: Seq<Vec<String>>, data: V3ResponseData) -> bool {
    &&& rows.len() == data.controllers@.len()
    &&& forall|i: int|
        0 <= i < rows.len() ==> #[trigger] texts(rows[i]@) == controller_row(data, data.controllers@[i])
}

/// The title of tab `t`.
pub open spec fn title_of(t: int) -> Seq<char> {
    if t == 0 {
        "Pilots"@
    } else {
        "Controllers"@
    }
}

/// The aircraft cell of a pilot.
fn aircraft_cell(fp: &Option<FlightPlan>) -> (r: String)
    ensures
        r@ == aircraft_text(*fp),
{
    match fp {
        None => String::from_str("???"),
        Some(f) => {
            if !f.aircraft_faa.as_str().is_empty() {
                f.aircraft_faa.clone()
            } else if !f.aircraft_short.as_str().is_empty() {
                f.aircraft_short.clone()
            } else {
                String::from_str("???")
            }
        },
    }
}

/// Number of rows that a page jump moves the cursor by.
pub const PAGE_SIZE: usize = 10;

/// The cursor after one step down in a list of `len` rows: wraps from the last
/// row to the first; unchanged in an empty list.
pub open spec fn wrap_down(c: int, len: int) -> int {
    if len <= 0 {
        c
    } else {
        (c + 1) % len
    }
}

/// The cursor after one step up in a list of `len` rows: wraps from the first
/// row to the last; unchanged in an empty list.
pub open spec fn wrap_up(c: int, len: int) -> int {
    if len <= 0 {
        c
    } else {
        (c + len - 1) % len
    }
}

/// The cursor after a page jump down: `PAGE_SIZE` rows on, held at the last
/// row; unchanged in an empty list.
pub open spec fn jump_down(c: int, len: int) -> int {
    if len <= 0 {
        c
    } else if c + PAGE_SIZE < len {
        c + PAGE_SIZE
    } else {
        len - 1
    }
}

/// The cursor after a page jump up: to the first row when the cursor is
/// within one page of it, else `PAGE_SIZE` rows back.
pub open spec fn jump_up(c: int) -> int {
    if c <= PAGE_SIZE {
        0
    } else {
        c - PAGE_SIZE
    }
}

/// The cursor after `k` steps down from `c` in a list of `len` rows.
pub open spec fn downs(c: int, len: int, k: nat) -> int
    decreases k,
{
    if k == 0 {
        c
    } else {
        wrap_down(downs(c, len, (k - 1) as nat), len)
    }
}

/// `k` steps down from `c` land on row `(c + k) mod len`.
proof fn lemma_downs_mod(c: int, len: int, k: nat)
    requires
        0 <= c < len,
    ensures
        downs(c, len, k) == (c + k) % len,
    decreases k,
{
    if k == 0 {
        vstd::arithmetic::div_mod::lemma_small_mod(c as nat, len as nat);
    } else {
        lemma_downs_mod(c, len, (k - 1) as nat);
        vstd::arithmetic::div_mod::lemma_add_mod_noop(c + k - 1, 1, len);
        if len > 1 {
            vstd::arithmetic::div_mod::lemma_small_mod(1, len as nat);
        } else {
            assert((c + k) % len == 0);
            assert((c + k - 1) % len == 0);
        }
    }
}

/// Wrap-around closure: in a non-empty list of `len` rows, `len` steps down
/// bring the cursor back to where it started.
pub proof fn lemma_down_full_cycle(c: int, len: int)
    requires
        0 <= c < len,
    ensures
        downs(c, len, len as nat) == c,
{
    lemma_downs_mod(c, len, len as nat);
    vstd::arithmetic::div_mod::lemma_mod_add_multiples_vanish(c, len);
    vstd::arithmetic::div_mod::lemma_small_mod(c as nat, len as nat);
}

/// In a non-empty list, a step up from the first row lands on the last.
pub proof fn lemma_up_from_first(len: int)
    requires
        len > 0,
    ensures
        wrap_up(0, len) == len - 1,
{
    vstd::arithmetic::div_mod::lemma_small_mod((len - 1) as nat, len as nat);
}

/// State of the interface.
pub struct App {
    tab_index: usize,
    cursors: [usize; 2],
    data: V3ResponseData,
    show_popup: bool,
}

impl App {
    /// The active tab: 0 for pilots, 1 for controllers.
    pub closed spec fn tab(&self) -> int {
        self.tab_index as int
    }

    /// The cursor of tab `t`.
    pub closed spec fn cursor(&self, t: int) -> int {
        self.cursors[t] as int
    }

    /// Whether the detail popup is open.
    pub closed spec fn popup(&self) -> bool {
        self.show_popup
    }

    /// The snapshot being browsed.
    pub closed spec fn snapshot(&self) -> &V3ResponseData {
        &self.data
    }

    /// Number of rows of tab `t`.
    pub open spec fn rows_of(&self, t: int) -> int {
        if t == 0 {
            self.snapshot().pilots@.len() as int
        } else {
            self.snapshot().controllers@.len() as int
        }
    }

    /// The cursor of the active tab.
    pub open spec fn active_cursor(&self) -> int {
        self.cursor(self.tab())
    }

    /// Number of rows of the active tab.
    pub open spec fn active_rows(&self) -> int {
        self.rows_of(self.tab())
    }

    /// The cursor of tab `t` is on one of its rows, or 0 where it has none.
    pub open spec fn cursor_in_range(&self, t: int) -> bool {
        ||| 0 <= self.cursor(t) < self.rows_of(t)
        ||| self.rows_of(t) == 0 && self.cursor(t) == 0
    }

    /// Well-formedness: a valid tab, and each cursor in range.
    pub open spec fn wf(&self) -> bool {
        &&& 0 <= self.tab() < 2
        &&& self.cursor_in_range(0)
        &&& self.cursor_in_range(1)
    }

    /// Holds when `other` is `self` with only the active tab's cursor moved
    /// to `c`.
    pub open spec fn moved_to(&self, other: &App, c: int) -> bool {
        &&& other.tab() == self.tab()
        &&& other.popup() == self.popup()
        &&& other.snapshot() == self.snapshot()
        &&& other.cursor(self.tab()) == c
        &&& other.cursor(1 - self.tab()) == self.cursor(1 - self.tab())
    }

    /// New interface state over a snapshot: pilots tab, both cursors on the
    /// first row, popup closed.
    pub fn new(data: V3ResponseData) -> (r: Self)
        ensures
            r.wf(),
            r.tab() == 0,
            r.cursor(0) == 0,
            r.cursor(1) == 0,
            !r.popup(),
            *r.snapshot() == data,
    {
        App { tab_index: 0, cursors: [0, 0], data, show_popup: false }
    }

    fn active_len(&self) -> (r: usize)
        requires
            self.wf(),
        ensures
            r == self.active_rows(),
    {
        if self.tab_index == 0 {
            self.data.pilots.len()
        } else {
            self.data.controllers.len()
        }
    }

    /// Switch between the pilots and the controllers tab. Both cursors go
    /// back to the first row.
    pub fn tab_over(&mut self)
        requires
            old(self).wf(),
        ensures
            final(self).wf(),
            final(self).tab() == 1 - old(self).tab(),
            final(self).cursor(0) == 0,
            final(self).cursor(1) == 0,
            final(self).popup() == old(self).popup(),
            final(self).snapshot() == old(self).snapshot(),
    {
        self.tab_index = if self.tab_index == 0 { 1 } else { 0 };
        self.cursors = [0, 0];
    }

    /// Scroll down one row, wrapping from the last row to the first.
    pub fn down(&mut self)
        requires
            old(self).wf(),
        ensures
            final(self).wf(),
            old(self).moved_to(
                final(self),
                wrap_down(old(self).active_cursor(), old(self).active_rows()),
            ),
    {
        let t = self.tab_index;
        let sel = self.cursors[t];
        let length = self.active_len();
        if length == 0 {
            return;
        }
        let next = if sel >= length - 1 { 0 } else { sel + 1 };
        assert(next as int == (sel + 1) % (length as int)) by (nonlinear_arith)
            requires sel < length, next == (if sel >= length - 1 { 0 } else { sel + 1 }) {};
        self.cursors[t] = next;
    }

    /// Scroll up one row, wrapping from the first row to the last.
    pub fn up(&mut self)
        requires
            old(self).wf(),
        ensures
            final(self).wf(),
            old(self).moved_to(
                final(self),
                wrap_up(old(self).active_cursor(), old(self).active_rows()),
            ),
    {
        let t = self.tab_index;
        let sel = self.cursors[t];
        let length = self.active_len();
        if length == 0 {
            return;
        }
        let next = if sel == 0 { length - 1 } else { sel - 1 };
        assert(next as int == (sel + length - 1) % (length as int)) by (nonlinear_arith)
            requires sel < length, next == (if sel == 0 { length - 1 } else { sel - 1 }) {};
        self.cursors[t] = next;
    }

    /// Scroll down one page, held at the last row.
    pub fn page_down(&mut self)
        requires
            old(self).wf(),
        ensures
            final(self).wf(),
            old(self).moved_to(
                final(self),
                jump_down(old(self).active_cursor(), old(self).active_rows()),
            ),
    {
        let t = self.tab_index;
        let sel = self.cursors[t];
        let length = self.active_len();
        if length == 0 {
            return;
        }
        let next = if length - sel <= PAGE_SIZE { length - 1 } else { sel + PAGE_SIZE };
        self.cursors[t] = next;
    }

    /// Scroll up one page, held at the first row.
    pub fn page_up(&mut self)
        requires
            old(self).wf(),
        ensures
            final(self).wf(),
            old(self).moved_to(final(self), jump_up(old(self).active_cursor())),
    {
        let t = self.tab_index;
        let sel = self.cursors[t];
        let next = if sel <= PAGE_SIZE { 0 } else { sel - PAGE_SIZE };
        self.cursors[t] = next;
    }

    /// Open or close the detail popup.
    pub fn toggle_popup(&mut self, open: bool)
        requires
            old(self).wf(),
        ensures
            final(self).wf(),
            final(self).popup() == open,
            final(self).tab() == old(self).tab(),
            final(self).cursor(0) == old(self).cursor(0),
            final(self).cursor(1) == old(self).cursor(1),
            final(self).snapshot() == old(self).snapshot(),
    {
        self.show_popup = open;
    }

    /// The active tab: 0 for pilots, 1 for controllers.
    pub fn tab_index(&self) -> (r: usize)
        ensures
            r == self.tab(),
    {
        self.tab_index
    }

    /// Whether the detail popup is open.
    pub fn popup_open(&self) -> (r: bool)
        ensures
            r == self.popup(),
    {
        self.show_popup
    }

    /// Number of rows of the active tab.
    pub fn row_count(&self) -> (r: usize)
        requires
            self.wf(),
        ensures
            r == self.active_rows(),
    {
        self.active_len()
    }

    /// The highlighted row of the active tab; `None` where it is empty.
    pub fn selected_index(&self) -> (r: Option<usize>)
        requires
            self.wf(),
        ensures
            r == self.highlighted(),
    {
        if self.active_len() == 0 {
            None
        } else {
            Some(self.cursors[self.tab_index])
        }
    }

    /// The identifier of the highlighted entity; `None` where the active tab
    /// is empty.
    pub fn selected_cid(&self) -> (r: Option<i64>)
        requires
            self.wf(),
        ensures
            self.active_rows() == 0 ==> r is None,
            self.active_rows() > 0 ==> r == Some(self.highlighted_cid()),
    {
        let row = self.cursors[self.tab_index];
        if self.tab_index == 0 {
            if row < self.data.pilots.len() {
                Some(self.data.pilots[row].cid)
            } else {
                None
            }
        } else {
            if row < self.data.controllers.len() {
                Some(self.data.controllers[row].cid)
            } else {
                None
            }
        }
    }

    /// The identifier of the highlighted entity; meaningful where the active
    /// tab has rows.
    pub open spec fn highlighted_cid(&self) -> i64 {
        if self.tab() == 0 {
            self.snapshot().pilots@[self.active_cursor()].cid
        } else {
            self.snapshot().controllers@[self.active_cursor()].cid
        }
    }

    /// Get data from the selected "tab" for the table.
    fn get_tab_data(&self) -> (r: Vec<Vec<String>>)
        requires
            self.wf(),
        ensures
            self.tab() == 0 ==> rows_match_pilots(r@, *self.snapshot()),
            self.tab() == 1 ==> rows_match_controllers(r@, *self.snapshot()),
    {
        let mut rows: Vec<Vec<String>> = Vec::new();
        if self.tab_index == 0 {
            let pilots = &self.data.pilots;
            let mut i: usize = 0;
            while i < pilots.len()
                invariant
                    pilots == &self.data.pilots,
                    i <= pilots@.len(),
                    rows@.len() == i,
                    forall|j: int| 0 <= j < i ==> #[trigger] texts(rows@[j]@) == pilot_row(pilots@[j]),
                decreases pilots@.len() - i,
            {
                let p = &pilots[i];
                let row = vec![
                    p.callsign.clone(),
                    p.name.clone(),
                    aircraft_cell(&p.flight_plan),
                    p.latitude.clone(),
                    p.longitude.clone(),
                ];
                assert(texts(row@) =~= pilot_row(*p));
                rows.push(row);
                i = i + 1;
            }
        } else {
            let controllers = &self.data.controllers;
            let mut i: usize = 0;
            while i < controllers.len()
                invariant
                    controllers == &self.data.controllers,
                    i <= controllers@.len(),
                    rows@.len() == i,
                    forall|j: int|
                        0 <= j < i ==> #[trigger] texts(rows@[j]@) == controller_row(
                            self.data,
                            controllers@[j],
                        ),
                decreases controllers@.len() - i,
            {
                let c = &controllers[i];
                let row = vec![
                    c.callsign.clone(),
                    c.name.clone(),
                    c.frequency.clone(),
                    Vatsim::controller_rating_lookup(&self.data, c.rating),
                ];
                assert(texts(row@) =~= controller_row(self.data, *c));
                rows.push(row);
                i = i + 1;
            }
        }
        rows
    }

    /// Get table headers for the selected "tab".
    fn get_headers(&self) -> (r: Vec<&'static str>)
        requires
            self.wf(),
        ensures
            self.tab() == 0 ==> str_texts(r@) == pilot_headers(),
            self.tab() == 1 ==> str_texts(r@) == controller_headers(),
    {
        let r = if self.tab_index == 0 {
            vec!["Callsign", "Name", "Aircraft", "Lat", "Long"]
        } else {
            vec!["Callsign", "Name", "Frequency", "Rating"]
        };
        assert(self.tab() == 0 ==> str_texts(r@) =~= pilot_headers());
        assert(self.tab() == 1 ==> str_texts(r@) =~= controller_headers());
        r
    }

    /// Get the table border title for the selected "tab".
    fn get_selected_title(&self) -> (r: &'static str)
        requires
            self.wf(),
        ensures
            r@ == title_of(self.tab()),
    {
        if self.tab_index == 0 {
            "Pilots"
        } else {
            "Controllers"
        }
    }

    /// The highlighted row of the active tab; `None` where it is empty.
    pub open spec fn highlighted(&self) -> Option<usize> {
        if self.active_rows() == 0 {
            None
        } else {
            Some(self.active_cursor() as usize)
        }
    }

    /// Holds when `sel` is a copy of the highlighted entity, or `None` where
    /// the active tab is empty.
    pub open spec fn is_selection(&self, sel: Option<SelectedRow>) -> bool {
        if self.active_rows() == 0 {
            sel is None
        } else if self.tab() == 0 {
            sel == Some(SelectedRow::Pilot(self.snapshot().pilots@[self.active_cursor()]))
        } else {
            match sel {
                Some(SelectedRow::Controller(c)) => c.same_as(
                    &self.snapshot().controllers@[self.active_cursor()],
                ),
                _ => false,
            }
        }
    }

    /// Get the currently selected row's data.
    fn get_selected_row_data(&self) -> (r: Option<SelectedRow>)
        requires
            self.wf(),
        ensures
            self.is_selection(r),
    {
        let row = self.cursors[self.tab_index];
        if self.tab_index == 0 {
            if row < self.data.pilots.len() {
                Some(SelectedRow::Pilot(self.data.pilots[row].clone()))
            } else {
                None
            }
        } else {
            if row < self.data.controllers.len() {
                Some(SelectedRow::Controller(self.data.controllers[row].clone()))
            } else {
                None
            }
        }
    }

    /// Get data to render in the interface.
    pub fn get_view_data(&self) -> (r: ViewData)
        requires
            self.wf(),
        ensures
            r.title@ == title_of(self.tab()),
            self.tab() == 0 ==> str_texts(r.headers@) == pilot_headers(),
            self.tab() == 1 ==> str_texts(r.headers@) == controller_headers(),
            self.tab() == 0 ==> rows_match_pilots(r.data@, *self.snapshot()),
            self.tab() == 1 ==> rows_match_controllers(r.data@, *self.snapshot()),
            forall|i: int| 0 <= i < r.data@.len() ==> #[trigger] r.data@[i]@.len() == r.headers@.len(),
            r.show_popup == self.popup(),
            r.selected_index == self.highlighted(),
            self.is_selection(r.selected_row_data),
    {
        let headers = self.get_headers();
        let data = self.get_tab_data();
        assert forall|i: int| 0 <= i < data@.len() implies #[trigger] data@[i]@.len() == headers@.len() by {
            assert(texts(data@[i]@).len() == data@[i]@.len());
            assert(str_texts(headers@).len() == headers@.len());
        }
        ViewData {
            title: self.get_selected_title(),
            headers,
            data,
            show_popup: self.show_popup,
            selected_index: self.selected_index(),
            selected_row_data: self.get_selected_row_data(),
        }
    }
}

} // verus!
