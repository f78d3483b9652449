//! Session state shared by the front ends: the selected zone, the simulated
//! time offset, the search filter and the display toggles.
//!
//! `App` is the terminal session (keyboard navigation over a filtered list);
//! `AppState` is the browser session (cards, an add/edit dialog, a theme).

use vstd::prelude::*;

use crate::clock::{get_timezone_offset, zone_offset};
use crate::config::{Config, TimezoneConfig};
use crate::filter::{count_matching, filter_timezones, filtered};
use crate::text::{format_offset, offset_label, string_of};

verus! {

/// Relies on std's `String::push`: the character is appended.
#[verifier::external_body]
fn push_char(s: &mut String, c: char)
    ensures
        final(s)@ == old(s)@.push(c),
{
    s.push(c)
}

/// Relies on std's `String::pop`: the last character is removed and returned,
/// and an empty string gives `None` and stays empty.
#[verifier::external_body]
fn pop_char(s: &mut String) -> (r: Option<char>)
    ensures
        old(s)@.len() == 0 ==> r is None && final(s)@ == old(s)@,
        old(s)@.len() > 0 ==> r == Some(old(s)@.last()) && final(s)@ == old(s)@.drop_last(),
{
    s.pop()
}

/// Index after moving one step forward in a list of `n` entries, wrapping.
pub open spec fn next_index(s: int, n: int) -> int {
    (s + 1) % n
}

/// Index after moving one step back in a list of `n` entries, wrapping.
pub open spec fn previous_index(s: int, n: int) -> int {
    (s + n - 1) % n
}

/// The time offset, in seconds, after an adjustment by `minutes`.
pub open spec fn shifted_offset(offset: int, minutes: int) -> int {
    offset + minutes * 60
}

/// The simulated instant: wall-clock `now` plus the offset, when it fits.
pub open spec fn simulated_instant(now: i64, offset: i64) -> Option<i64> {
    if i64::MIN <= now + offset && now + offset <= i64::MAX {
        Some((now + offset) as i64)
    } else {
        None
    }
}

/// The offset of the zone at `now`, or 0 for an unknown zone.
pub open spec fn offset_or_zero(id: Seq<char>, now: i64) -> i32 {
    match zone_offset(id, now) {
        Some(o) => o,
        None => 0,
    }
}

fn simulated(now: i64, offset: i64) -> (r: Option<i64>)
    ensures
        r == simulated_instant(now, offset),
{
    now.checked_add(offset)
}

fn offset_or_zero_of(id: &str, now: i64) -> (r: i32)
    ensures
        r == offset_or_zero(id@, now),
{
    match get_timezone_offset(now, id) {
        Some(o) => o,
        None => 0,
    }
}

/// A key press as the terminal front end reports it.
#[derive(Debug, Clone, Copy, PartialEq, Eq)]
pub enum Key {
    Up,
    Down,
    Left,
    Right,
    Enter,
    Esc,
    Backspace,
    Char(char),
    Other,
}

/// Minutes that one press of Left or Right moves the simulated time.
pub const TIME_STEP_MINUTES: i64 = 15;

/// Terminal session.
#[derive(Debug)]
pub struct App {
    /// The configuration the session was made with; the session only reads it.
    pub config: Config,
    /// Position of the selected zone in the filtered list.
    pub selected: usize,
    /// Simulated shift from the wall clock, in seconds.
    pub time_offset: i64,
    /// Whether the help panel is open.
    pub show_help: bool,
    /// Search text that filters the list.
    pub search_query: String,
    /// Whether keys are being typed into the search text.
    pub is_searching: bool,
    /// Whether times are shown in 12-hour format.
    pub use_12h_format: bool,
}

impl App {
    /// Indices into the configuration of the entries that pass the search text.
    pub open spec fn visible(&self) -> Seq<int> {
        filtered(self.config.timezones@, self.search_query@)
    }

    /// A fresh session: first entry selected, no offset, no search, help
    /// closed, clock format from the configuration.
    pub fn new(config: Config) -> (r: App)
        ensures
            r.config == config,
            r.selected == 0,
            r.time_offset == 0,
            !r.show_help,
            r.search_query@.len() == 0,
            !r.is_searching,
            r.use_12h_format == config.use_12h_format,
    {
        let use_12h_format = config.use_12h_format;
        App {
            config,
            selected: 0,
            time_offset: 0,
            show_help: false,
            search_query: String::new(),
            is_searching: false,
            use_12h_format,
        }
    }

    /// The configuration.
    pub fn config(&self) -> (r: &Config)
        ensures
            *r == self.config,
    {
        &self.config
    }

    /// The entries that pass the search text, each with its index in the configuration.
    pub fn get_filtered_timezones(&self) -> (r: Vec<(usize, &TimezoneConfig)>)
        ensures
            r@.len() == self.visible().len(),
            forall|k: int|
                0 <= k < r@.len() ==> {
                    &&& r@[k].0 == self.visible()[k]
                    &&& *r@[k].1 == self.config.timezones@[r@[k].0 as int]
                },
    {
        filter_timezones(&self.config.timezones, self.search_query.as_str())
    }

    /// How many entries pass the search text.
    pub fn timezone_count(&self) -> (r: usize)
        ensures
            r == self.visible().len(),
    {
        count_matching(&self.config.timezones, self.search_query.as_str())
    }

    /// The simulated instant for wall-clock `now` (seconds since the epoch);
    /// `None` when the sum leaves the `i64` range.
    pub fn current_time(&self, now: i64) -> (r: Option<i64>)
        ensures
            r == simulated_instant(now, self.time_offset),
    {
        simulated(now, self.time_offset)
    }

    /// Opens or closes the help panel.
    pub fn toggle_help(&mut self)
        ensures
            final(self).show_help == !old(self).show_help,
            *final(self) == (App { show_help: final(self).show_help, ..*old(self) }),
    {
        self.show_help = !self.show_help;
    }

    /// Switches between the 24-hour and the 12-hour clock.
    pub fn toggle_format(&mut self)
        ensures
            final(self).use_12h_format == !old(self).use_12h_format,
            *final(self) == (App { use_12h_format: final(self).use_12h_format, ..*old(self) }),
    {
        self.use_12h_format = !self.use_12h_format;
    }

    /// Starts typing into the search text; closes the help panel.
    pub fn enter_search(&mut self)
        ensures
            *final(self) == (App { is_searching: true, show_help: false, ..*old(self) }),
    {
        self.is_searching = true;
        self.show_help = false;
    }

    /// Stops typing into the search text; the text stays.
    pub fn exit_search(&mut self)
        ensures
            *final(self) == (App { is_searching: false, ..*old(self) }),
    {
        self.is_searching = false;
    }

    /// Empties the search text and selects the first entry.
    pub fn clear_search(&mut self)
        ensures
            final(self).search_query@.len() == 0,
            *final(self) == (App { search_query: final(self).search_query, selected: 0, ..*old(self) }),
    {
        self.search_query = String::new();
        self.selected = 0;
    }

    /// Replaces the search text and selects the first entry.
    pub fn set_search(&mut self, query: String)
        ensures
            final(self).search_query@ == query@,
            *final(self) == (App { search_query: final(self).search_query, selected: 0, ..*old(self) }),
    {
        self.search_query = query;
        self.selected = 0;
    }

    /// Adds a character to the search text and selects the first entry.
    pub fn append_search(&mut self, c: char)
        ensures
            final(self).search_query@ == old(self).search_query@.push(c),
            *final(self) == (App { search_query: final(self).search_query, selected: 0, ..*old(self) }),
    {
        push_char(&mut self.search_query, c);
        self.selected = 0;
    }

    /// Removes the last character of the search text, if any, and selects the first entry.
    pub fn backspace_search(&mut self)
        ensures
            old(self).search_query@.len() > 0 ==> final(self).search_query@ == old(
                self,
            ).search_query@.drop_last(),
            old(self).search_query@.len() == 0 ==> final(self).search_query@ == old(self).search_query@,
            *final(self) == (App { search_query: final(self).search_query, selected: 0, ..*old(self) }),
    {
        let _ = pop_char(&mut self.search_query);
        self.selected = 0;
    }

    /// Moves the simulated time forward by `minutes`.
    pub fn adjust_time_forward(&mut self, minutes: i64)
        requires
            i64::MIN <= shifted_offset(old(self).time_offset as int, minutes as int) <= i64::MAX,
            i64::MIN <= minutes * 60 <= i64::MAX,
        ensures
            final(self).time_offset == shifted_offset(old(self).time_offset as int, minutes as int),
            *final(self) == (App { time_offset: final(self).time_offset, ..*old(self) }),
    {
        self.time_offset = self.time_offset + minutes * 60;
    }

    /// Moves the simulated time backward by `minutes`.
    pub fn adjust_time_backward(&mut self, minutes: i64)
        requires
            i64::MIN <= shifted_offset(old(self).time_offset as int, -minutes) <= i64::MAX,
            i64::MIN <= minutes * 60 <= i64::MAX,
        ensures
            final(self).time_offset == shifted_offset(old(self).time_offset as int, -minutes),
            *final(self) == (App { time_offset: final(self).time_offset, ..*old(self) }),
    {
        self.time_offset = self.time_offset - minutes * 60;
    }

    /// Returns to the wall clock.
    pub fn reset_time(&mut self)
        ensures
            *final(self) == (App { time_offset: 0, ..*old(self) }),
    {
        self.time_offset = 0;
    }

    /// Selects the next entry of the filtered list, wrapping to the first;
    /// nothing changes when the list is empty.
    pub fn next(&mut self)
        ensures
            old(self).visible().len() > 0 ==> final(self).selected == next_index(
                old(self).selected as int,
                old(self).visible().len() as int,
            ),
            old(self).visible().len() == 0 ==> final(self).selected == old(self).selected,
            *final(self) == (App { selected: final(self).selected, ..*old(self) }),
    {
        let len = self.timezone_count();
        if len > 0 {
            let s = self.selected % len;
            proof {
                vstd::arithmetic::div_mod::lemma_add_mod_noop_right(1, self.selected as int, len as int);
                if s + 1 < len {
                    vstd::arithmetic::div_mod::lemma_small_mod((1 + s) as nat, len as nat);
                } else {
                    vstd::arithmetic::div_mod::lemma_mod_self_0(len as int);
                }
            }
            self.selected = if s + 1 == len { 0 } else { s + 1 };
        }
    }

    /// Selects the previous entry of the filtered list, wrapping to the last;
    /// nothing changes when the list is empty.
    pub fn previous(&mut self)
        ensures
            old(self).visible().len() > 0 ==> final(self).selected == previous_index(
                old(self).selected as int,
                old(self).visible().len() as int,
            ),
            old(self).visible().len() == 0 ==> final(self).selected == old(self).selected,
            *final(self) == (App { selected: final(self).selected, ..*old(self) }),
    {
        let len = self.timezone_count();
        if len > 0 {
            let s = self.selected % len;
            proof {
                vstd::arithmetic::div_mod::lemma_add_mod_noop_right(
                    len as int - 1,
                    self.selected as int,
                    len as int,
                );
            }
            self.selected = if s == 0 { len - 1 } else { s - 1 };
            assert((len - 1 + s) % (len as int) == if s == 0 { len - 1 } else { s - 1 }) by {
                if s == 0 {
                    vstd::arithmetic::div_mod::lemma_small_mod((len - 1) as nat, len as nat);
                } else {
                    vstd::arithmetic::div_mod::lemma_mod_add_multiples_vanish((s - 1) as int, len as int);
                    vstd::arithmetic::div_mod::lemma_small_mod((s - 1) as nat, len as nat);
                }
            }
        }
    }

    /// Offset, in seconds, of the selected entry of the filtered list at `now`:
    /// the zero point of the shown differences. 0 when the list is empty or
    /// the selected zone is unknown.
    pub fn reference_offset(&self, now: i64) -> (r: i32)
        ensures
            self.visible().len() == 0 ==> r == 0,
            self.visible().len() > 0 ==> r == offset_or_zero(
                self.config.timezones@[self.visible()[self.selected as int
                    % self.visible().len() as int]].timezone@,
                now,
            ),
    {
        let shown = self.get_filtered_timezones();
        if shown.len() == 0 {
            return 0;
        }
        let idx = self.selected % shown.len();
        let (_, entry) = shown[idx];
        offset_or_zero_of(entry.timezone.as_str(), now)
    }
}

/// Browser session.
#[derive(Debug)]
pub struct AppState {
    /// The configuration, edited through the session.
    pub config: Config,
    /// Simulated shift from the wall clock, in seconds.
    pub time_offset: i64,
    /// Whether the clock follows the wall clock.
    pub is_running: bool,
    /// Whether the add/edit dialog is open.
    pub show_config_modal: bool,
    /// Entry being edited in the dialog; `None` while adding one.
    pub editing_index: Option<usize>,
    /// Index of the reference entry in the configuration.
    pub selected_index: usize,
    /// Dark (true) or light theme.
    pub dark_mode: bool,
}

impl AppState {
    /// A fresh session over `config`: running, no offset, dialog closed, first
    /// entry as reference, and the theme the user chose before.
    pub fn new(config: Config, dark_mode: bool) -> (r: AppState)
        ensures
            r == (AppState {
                config,
                time_offset: 0,
                is_running: true,
                show_config_modal: false,
                editing_index: None,
                selected_index: 0,
                dark_mode,
            }),
    {
        AppState {
            config,
            time_offset: 0,
            is_running: true,
            show_config_modal: false,
            editing_index: None,
            selected_index: 0,
            dark_mode,
        }
    }

    /// The simulated instant for wall-clock `now` (seconds since the epoch);
    /// `None` when the sum leaves the `i64` range.
    pub fn current_time(&self, now: i64) -> (r: Option<i64>)
        ensures
            r == simulated_instant(now, self.time_offset),
    {
        simulated(now, self.time_offset)
    }

    /// Shifts the simulated time by `minutes` (negative goes back).
    pub fn adjust_time(&mut self, minutes: i64)
        requires
            i64::MIN <= shifted_offset(old(self).time_offset as int, minutes as int) <= i64::MAX,
            i64::MIN <= minutes * 60 <= i64::MAX,
        ensures
            final(self).time_offset == shifted_offset(old(self).time_offset as int, minutes as int),
            *final(self) == (AppState { time_offset: final(self).time_offset, ..*old(self) }),
    {
        self.time_offset = self.time_offset + minutes * 60;
    }

    /// Returns to the wall clock.
    pub fn reset_time(&mut self)
        ensures
            *final(self) == (AppState { time_offset: 0, ..*old(self) }),
    {
        self.time_offset = 0;
    }

    /// Pauses or resumes the clock.
    pub fn toggle_running(&mut self)
        ensures
            *final(self) == (AppState { is_running: !old(self).is_running, ..*old(self) }),
    {
        self.is_running = !self.is_running;
    }

    /// Opens the dialog to add an entry.
    pub fn open_add_modal(&mut self)
        ensures
            *final(self) == (AppState { editing_index: None, show_config_modal: true, ..*old(self) }),
    {
        self.editing_index = None;
        self.show_config_modal = true;
    }

    /// Opens the dialog to edit the entry at `index`.
    pub fn open_edit_modal(&mut self, index: usize)
        ensures
            *final(self) == (AppState {
                editing_index: Some(index),
                show_config_modal: true,
                ..*old(self)
            }),
    {
        self.editing_index = Some(index);
        self.show_config_modal = true;
    }

    /// Closes the dialog.
    pub fn close_modal(&mut self)
        ensures
            *final(self) == (AppState { editing_index: None, show_config_modal: false, ..*old(self) }),
    {
        self.show_config_modal = false;
        self.editing_index = None;
    }

    /// Saves the dialog's entry: it replaces the edited entry (if that index
    /// is still in the list) or is appended when adding; then closes the dialog.
    pub fn submit_timezone(&mut self, entry: TimezoneConfig)
        ensures
            old(self).editing_index is None ==> final(self).config.timezones@ == old(
                self,
            ).config.timezones@.push(entry),
            old(self).editing_index matches Some(i) ==> (if i < old(self).config.timezones@.len() {
                final(self).config.timezones@ == old(self).config.timezones@.update(i as int, entry)
            } else {
                final(self).config.timezones@ == old(self).config.timezones@
            }),
            final(self).config.use_12h_format == old(self).config.use_12h_format,
            !final(self).show_config_modal,
            final(self).editing_index is None,
            final(self).time_offset == old(self).time_offset,
            final(self).selected_index == old(self).selected_index,
    {
        match self.editing_index {
            Some(i) => self.config.update_timezone(i, entry),
            None => self.config.add_timezone(entry),
        }
        self.close_modal();
    }

    /// Removes the entry at `index`; an index past the end changes nothing.
    pub fn delete_timezone(&mut self, index: usize)
        ensures
            index < old(self).config.timezones@.len() ==> final(self).config.timezones@ == old(
                self,
            ).config.timezones@.remove(index as int),
            index >= old(self).config.timezones@.len() ==> final(self).config.timezones@ == old(
                self,
            ).config.timezones@,
            final(self).config.use_12h_format == old(self).config.use_12h_format,
            *final(self) == (AppState { config: final(self).config, ..*old(self) }),
    {
        self.config.remove_timezone(index);
    }

    /// Switches the configuration between the 24-hour and the 12-hour clock.
    pub fn toggle_format(&mut self)
        ensures
            final(self).config.use_12h_format == !old(self).config.use_12h_format,
            final(self).config.timezones == old(self).config.timezones,
            *final(self) == (AppState { config: final(self).config, ..*old(self) }),
    {
        self.config.use_12h_format = !self.config.use_12h_format;
    }

    /// Switches between the dark and the light theme.
    pub fn toggle_theme(&mut self)
        ensures
            *final(self) == (AppState { dark_mode: !old(self).dark_mode, ..*old(self) }),
    {
        self.dark_mode = !self.dark_mode;
    }

    /// Makes the entry at `index` the reference for the shown differences.
    pub fn select(&mut self, index: usize)
        ensures
            *final(self) == (AppState { selected_index: index, ..*old(self) }),
    {
        self.selected_index = index;
    }

    /// Offset, in seconds, of the reference entry at `now`; 0 when the index
    /// is past the end or the zone is unknown.
    pub fn reference_offset(&self, now: i64) -> (r: i32)
        ensures
            self.selected_index >= self.config.timezones@.len() ==> r == 0,
            self.selected_index < self.config.timezones@.len() ==> r == offset_or_zero(
                self.config.timezones@[self.selected_index as int].timezone@,
                now,
            ),
    {
        if self.selected_index < self.config.timezones.len() {
            offset_or_zero_of(self.config.timezones[self.selected_index].timezone.as_str(), now)
        } else {
            0
        }
    }
}

/// The selection after `k` steps forward from `s` in a list of `n` entries.
pub open spec fn next_repeated(s: int, n: int, k: nat) -> int
    decreases k,
{
    if k == 0 {
        s
    } else {
        next_index(next_repeated(s, n, (k - 1) as nat), n)
    }
}

proof fn lemma_next_repeated_is_sum(s: int, n: int, k: nat)
    requires
        0 < n,
        0 <= s < n,
    ensures
        next_repeated(s, n, k) == (s + k) % n,
    decreases k,
{
    if k == 0 {
        vstd::arithmetic::div_mod::lemma_small_mod(s as nat, n as nat);
    } else {
        lemma_next_repeated_is_sum(s, n, (k - 1) as nat);
        vstd::arithmetic::div_mod::lemma_add_mod_noop_right(1, s + k - 1, n);
    }
}

/// Navigation wraps: `n` steps forward in a list of `n` entries come back to
/// the entry where they started.
pub proof fn lemma_next_wraps_around(s: int, n: int)
    requires
        0 < n,
        0 <= s < n,
    ensures
        next_repeated(s, n, n as nat) == s,
{
    lemma_next_repeated_is_sum(s, n, n as nat);
    vstd::arithmetic::div_mod::lemma_mod_add_multiples_vanish(s, n);
    vstd::arithmetic::div_mod::lemma_small_mod(s as nat, n as nat);
}

/// Offset adjustments add up: shifting by `a` and then by `b` minutes is one
/// shift by `a + b` minutes.
pub proof fn lemma_adjustments_add_up(offset: int, a: int, b: int)
    ensures
        shifted_offset(shifted_offset(offset, a), b) == shifted_offset(offset, a + b),
{
    assert((a + b) * 60 == a * 60 + b * 60) by (nonlinear_arith);
}

/// What a key press does to a terminal session: `new` is the session after
/// it and `quit` whether it ends the session.
///
/// While typing a search: Esc or Enter stops typing, Backspace and characters
/// edit the search text (and select the first entry); other keys do nothing.
/// Otherwise: `q` quits, Up/Down move the selection, Left/Right move the
/// simulated time by the step, `r` resets it, `?` toggles help, `/` starts
/// typing a search, `t` toggles the clock format, Esc closes help or else
/// clears a non-empty search; other keys do nothing.
pub open spec fn key_effect(old: App, key: Key, new: App, quit: bool) -> bool {
    let n = old.visible().len() as int;
    if old.is_searching {
        !quit && match key {
            Key::Esc | Key::Enter => new == (App { is_searching: false, ..old }),
            Key::Backspace => new == (App {
                search_query: new.search_query,
                selected: 0,
                ..old
            }) && new.search_query@ == if old.search_query@.len() > 0 {
                old.search_query@.drop_last()
            } else {
                old.search_query@
            },
            Key::Char(c) => new == (App { search_query: new.search_query, selected: 0, ..old })
                && new.search_query@ == old.search_query@.push(c),
            _ => new == old,
        }
    } else {
        match key {
            Key::Char('q') => quit && new == old,
            Key::Up => !quit && new == (App {
                selected: if n > 0 {
                    previous_index(old.selected as int, n) as usize
                } else {
                    old.selected
                },
                ..old
            }),
            Key::Down => !quit && new == (App {
                selected: if n > 0 {
                    next_index(old.selected as int, n) as usize
                } else {
                    old.selected
                },
                ..old
            }),
            Key::Right => !quit && new == (App {
                time_offset: shifted_offset(old.time_offset as int, TIME_STEP_MINUTES as int) as i64,
                ..old
            }),
            Key::Left => !quit && new == (App {
                time_offset: shifted_offset(old.time_offset as int, -TIME_STEP_MINUTES) as i64,
                ..old
            }),
            Key::Char('r') => !quit && new == (App { time_offset: 0, ..old }),
            Key::Char('?') => !quit && new == (App { show_help: !old.show_help, ..old }),
            Key::Char('/') => !quit && new == (App { is_searching: true, show_help: false, ..old }),
            Key::Char('t') => !quit && new == (App { use_12h_format: !old.use_12h_format, ..old }),
            Key::Esc => !quit && if old.show_help {
                new == (App { show_help: false, ..old })
            } else if old.search_query@.len() > 0 {
                new == (App { search_query: new.search_query, selected: 0, ..old })
                    && new.search_query@.len() == 0
            } else {
                new == old
            },
            _ => !quit && new == old,
        }
    }
}

impl App {
    /// Applies one key press; returns whether it asks to quit.
    pub fn handle_key(&mut self, key: Key) -> (quit: bool)
        requires
            key is Left || key is Right ==> i64::MIN + 60 * TIME_STEP_MINUTES <= old(self).time_offset
                <= i64::MAX - 60 * TIME_STEP_MINUTES,
        ensures
            key_effect(*old(self), key, *final(self), quit),
    {
        if self.is_searching {
            match key {
                Key::Esc | Key::Enter => self.exit_search(),
                Key::Backspace => self.backspace_search(),
                Key::Char(c) => self.append_search(c),
                _ => {},
            }
            return false;
        }
        match key {
            Key::Char('q') => {
                return true;
            },
            Key::Up => self.previous(),
            Key::Down => self.next(),
            Key::Right => self.adjust_time_forward(TIME_STEP_MINUTES),
            Key::Left => self.adjust_time_backward(TIME_STEP_MINUTES),
            Key::Char('r') => self.reset_time(),
            Key::Char('?') => self.toggle_help(),
            Key::Char('/') => self.enter_search(),
            Key::Char('t') => self.toggle_format(),
            Key::Esc => {
                if self.show_help {
                    self.toggle_help();
                } else if !self.search_query.as_str().is_empty() {
                    self.clear_search();
                }
            },
            _ => {},
        }
        false
    }
}

/// What a key press does to a browser session when no text field has the
/// focus (`typing` is false); `handled` tells whether the page should not
/// act on the key itself.
///
/// Escape closes an open dialog. While no dialog is open, Left or `h` and
/// Right or `l` move the simulated time by the step, `r` resets it and the
/// space bar pauses or resumes the clock. While typing in a field only
/// Escape counts; every other key leaves the session as it is.
pub open spec fn web_key_effect(old: AppState, key: Key, typing: bool, new: AppState, handled: bool) -> bool {
    if typing && !(key is Esc) {
        !handled && new == old
    } else if key is Esc {
        if old.show_config_modal {
            handled && new == (AppState { show_config_modal: false, editing_index: None, ..old })
        } else {
            !handled && new == old
        }
    } else if old.show_config_modal {
        !handled && new == old
    } else {
        match key {
            Key::Left | Key::Char('h') => handled && new == (AppState {
                time_offset: shifted_offset(old.time_offset as int, -TIME_STEP_MINUTES) as i64,
                ..old
            }),
            Key::Right | Key::Char('l') => handled && new == (AppState {
                time_offset: shifted_offset(old.time_offset as int, TIME_STEP_MINUTES as int) as i64,
                ..old
            }),
            Key::Char('r') => handled && new == (AppState { time_offset: 0, ..old }),
            Key::Char(' ') => handled && new == (AppState { is_running: !old.is_running, ..old }),
            _ => !handled && new == old,
        }
    }
}

impl AppState {
    /// Applies one key press of the page; returns whether it was handled.
    pub fn handle_key(&mut self, key: Key, typing: bool) -> (handled: bool)
        requires
            i64::MIN + 60 * TIME_STEP_MINUTES <= old(self).time_offset <= i64::MAX - 60
                * TIME_STEP_MINUTES,
        ensures
            web_key_effect(*old(self), key, typing, *final(self), handled),
    {
        let escape = match key {
            Key::Esc => true,
            _ => false,
        };
        if typing && !escape {
            return false;
        }
        if escape {
            if self.show_config_modal {
                self.close_modal();
                return true;
            }
            return false;
        }
        if self.show_config_modal {
            return false;
        }
        match key {
            Key::Left | Key::Char('h') => {
                self.adjust_time(-TIME_STEP_MINUTES);
                true
            },
            Key::Right | Key::Char('l') => {
                self.adjust_time(TIME_STEP_MINUTES);
                true
            },
            Key::Char('r') => {
                self.reset_time();
                true
            },
            Key::Char(' ') => {
                self.toggle_running();
                true
            },
            _ => false,
        }
    }

    /// The simulated-time offset as shown beside the controls, such as
    /// `[ NOW ]` or `[-1h 30m]`.
    pub fn offset_display(&self) -> (r: String)
        requires
            self.time_offset > i64::MIN,
        ensures
            r@ == offset_label(self.time_offset as int),
    {
        string_of(format_offset(self.time_offset).as_slice())
    }
}

} // verus!
