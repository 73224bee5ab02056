//! The view state of the log viewer: the entry buffer, the scroll offset,
//! the selection and the auto-follow flag, and the transitions between them.
//!
//! The height of the viewport is not part of the state: the terminal can be
//! resized between two cycles, so every transition that depends on it takes
//! the current `visible_height` as an argument.
use vstd::prelude::*;
use crate::log_entry::LogEntry;

verus! {

/// Rows of the terminal taken by borders and titles around the entry list.
pub const CHROME_ROWS: usize = 4;

/// Lines moved by one page-up or page-down.
pub const PAGE_SIZE: usize = 10;

/// A key press, as far as the view distinguishes keys.
#[derive(Clone, Copy, Debug, PartialEq, Eq)]
pub enum Key {
    /// A printable character.
    Char(char),
    /// The arrow keys and the paging keys.
    Up,
    Down,
    PageUp,
    PageDown,
    Home,
    End,
    Esc,
    /// Any key that the view does not map.
    Other,
}

/// The abstract state of the view.
pub struct ViewModel {
    /// The buffer, in arrival order.
    pub entries: Seq<LogEntry>,
    /// The index of the first entry shown.
    pub scroll_offset: nat,
    /// The highlighted entry, if any.
    pub selected_index: Option<nat>,
    /// Whether the view keeps the newest entry visible.
    pub auto_follow: bool,
}

/// The largest scroll offset for `len` entries shown `h` at a time.
pub open spec fn max_scroll_of(len: nat, h: nat) -> nat {
    if len > h {
        (len - h) as nat
    } else {
        0
    }
}

/// The smaller of two numbers.
pub open spec fn min_nat(a: nat, b: nat) -> nat {
    if a <= b {
        a
    } else {
        b
    }
}

/// The key stops the viewer.
pub open spec fn is_quit_key(key: Key) -> bool {
    key == Key::Char('q') || key == Key::Esc
}

impl ViewModel {
    /// The largest scroll offset with `h` visible rows.
    pub open spec fn max_scroll(self, h: nat) -> nat {
        max_scroll_of(self.entries.len(), h)
    }

    /// The last entry is visible: the buffer is empty, all entries fit, or the
    /// offset has reached the largest one.
    pub open spec fn is_at_bottom(self, h: nat) -> bool {
        self.entries.len() == 0 || self.entries.len() <= h || self.scroll_offset >= self.entries.len()
            - h
    }

    /// The offset lies between 0 and the largest one.
    pub open spec fn offset_in_range(self, h: nat) -> bool {
        self.scroll_offset <= self.max_scroll(h)
    }

    /// A buffer replaced by a first load, shown from its start, not following.
    pub open spec fn loaded(self, entries: Seq<LogEntry>) -> ViewModel {
        ViewModel { entries, scroll_offset: 0, auto_follow: false, ..self }
    }

    /// New entries added at the end. The view follows them when it followed
    /// and showed the last entry before they came; otherwise the offset stays,
    /// clamped to the new range.
    pub open spec fn appended(self, new_entries: Seq<LogEntry>, h: nat) -> ViewModel {
        let entries = self.entries + new_entries;
        let max = max_scroll_of(entries.len(), h);
        if self.auto_follow && self.is_at_bottom(h) {
            ViewModel { entries, scroll_offset: max, ..self }
        } else {
            ViewModel { entries, scroll_offset: min_nat(self.scroll_offset, max), ..self }
        }
    }

    /// An empty buffer, shown from the start, following.
    pub open spec fn cleared(self) -> ViewModel {
        ViewModel {
            entries: Seq::empty(),
            scroll_offset: 0,
            selected_index: None,
            auto_follow: true,
        }
    }

    /// The offset moved to show the last `h` entries.
    pub open spec fn at_end(self, h: nat) -> ViewModel {
        ViewModel { scroll_offset: self.max_scroll(h), ..self }
    }

    /// The offset moved up by `step`, clamped; following stops.
    pub open spec fn moved_up(self, step: nat, h: nat) -> ViewModel {
        let up = if self.scroll_offset >= step {
            (self.scroll_offset - step) as nat
        } else {
            0
        };
        ViewModel { scroll_offset: min_nat(up, self.max_scroll(h)), auto_follow: false, ..self }
    }

    /// The offset moved down by `step`, clamped; reaching the end starts following.
    pub open spec fn moved_down(self, step: nat, h: nat) -> ViewModel {
        let offset = min_nat(self.scroll_offset + step, self.max_scroll(h));
        ViewModel {
            scroll_offset: offset,
            auto_follow: self.auto_follow || offset == self.max_scroll(h),
            ..self
        }
    }

    /// The follow flag flipped; when it turns on, the view jumps to the end.
    pub open spec fn follow_toggled(self, h: nat) -> ViewModel {
        if self.auto_follow {
            ViewModel { auto_follow: false, ..self }
        } else {
            ViewModel { auto_follow: true, ..self.at_end(h) }
        }
    }

    /// The state after a key press with `h` visible rows.
    pub open spec fn key_applied(self, key: Key, h: nat) -> ViewModel {
        match key {
            Key::Up => self.moved_up(1, h),
            Key::Char('k') => self.moved_up(1, h),
            Key::Down => self.moved_down(1, h),
            Key::Char('j') => self.moved_down(1, h),
            Key::PageUp => self.moved_up(PAGE_SIZE as nat, h),
            Key::PageDown => self.moved_down(PAGE_SIZE as nat, h),
            Key::Home => ViewModel { scroll_offset: 0, auto_follow: false, ..self },
            Key::End => ViewModel { auto_follow: true, ..self.at_end(h) },
            Key::Char('c') => self.cleared(),
            Key::Char('f') => self.follow_toggled(h),
            _ => self,
        }
    }
}

/// The state after appending each batch of `batches` in turn.
pub open spec fn appended_all(v: ViewModel, batches: Seq<Seq<LogEntry>>, h: nat) -> ViewModel
    decreases batches.len(),
{
    if batches.len() == 0 {
        v
    } else {
        appended_all(v, batches.drop_last(), h).appended(batches.last(), h)
    }
}

/// After any append, and so after any nonempty sequence of appends, the
/// scroll offset lies between 0 and the largest offset; an offset already in
/// that range stays in it whatever is appended.
pub proof fn appends_keep_offset_in_range(v: ViewModel, batches: Seq<Seq<LogEntry>>, h: nat)
    ensures
        batches.len() > 0 ==> appended_all(v, batches, h).offset_in_range(h),
        v.offset_in_range(h) ==> appended_all(v, batches, h).offset_in_range(h),
    decreases batches.len(),
{
    if batches.len() > 0 {
        appends_keep_offset_in_range(v, batches.drop_last(), h);
    }
}

/// A view that follows and shows the last entry still shows it after an append.
pub proof fn following_view_stays_at_bottom(v: ViewModel, new_entries: Seq<LogEntry>, h: nat)
    requires
        v.auto_follow,
        v.is_at_bottom(h),
    ensures
        v.appended(new_entries, h).is_at_bottom(h),
{
}

/// Scrolling up, by a line or a page, always stops following.
pub proof fn scroll_up_stops_following(v: ViewModel, h: nat)
    ensures
        !v.key_applied(Key::Up, h).auto_follow,
        !v.key_applied(Key::Char('k'), h).auto_follow,
        !v.key_applied(Key::PageUp, h).auto_follow,
{
}

/// Scrolling down, by a line or a page, to the largest offset always starts
/// following.
pub proof fn scroll_down_to_end_follows(v: ViewModel, h: nat)
    ensures
        v.key_applied(Key::Down, h).scroll_offset == v.max_scroll(h) ==> v.key_applied(
            Key::Down,
            h,
        ).auto_follow,
        v.key_applied(Key::Char('j'), h).scroll_offset == v.max_scroll(h) ==> v.key_applied(
            Key::Char('j'),
            h,
        ).auto_follow,
        v.key_applied(Key::PageDown, h).scroll_offset == v.max_scroll(h) ==> v.key_applied(
            Key::PageDown,
            h,
        ).auto_follow,
{
}

/// The rows of the entry list in a terminal of `terminal_rows` rows.
pub fn content_height(terminal_rows: usize) -> (r: usize)
    ensures
        r == if terminal_rows >= CHROME_ROWS {
            terminal_rows - CHROME_ROWS
        } else {
            0
        },
{
    terminal_rows.saturating_sub(CHROME_ROWS)
}

/// The state of the terminal view of a log.
pub struct Tui {
    /// The entries in the buffer, in the order they arrived.
    log_entries: Vec<LogEntry>,
    /// The index of the first entry shown.
    scroll_offset: usize,
    /// The highlighted entry, if any.
    selected_index: Option<usize>,
    /// Keeps the newest entry visible as entries arrive.
    auto_scroll: bool,
}

impl View for Tui {
    type V = ViewModel;

    closed spec fn view(&self) -> ViewModel {
        ViewModel {
            entries: self.log_entries@,
            scroll_offset: self.scroll_offset as nat,
            selected_index: match self.selected_index {
                Some(i) => Some(i as nat),
                None => None,
            },
            auto_follow: self.auto_scroll,
        }
    }
}

impl Tui {
    /// An empty view that follows new entries.
    pub fn new() -> (r: Self)
        ensures
            r@ == (ViewModel {
                entries: Seq::empty(),
                scroll_offset: 0,
                selected_index: None,
                auto_follow: true,
            }),
    {
        Tui { log_entries: Vec::new(), scroll_offset: 0, selected_index: None, auto_scroll: true }
    }

    fn max_scroll(&self, visible_height: usize) -> (r: usize)
        ensures
            r == self@.max_scroll(visible_height as nat),
    {
        let len = self.log_entries.len();
        if len > visible_height {
            len - visible_height
        } else {
            0
        }
    }

    /// Replaces the buffer on the first load; the view starts at the top and
    /// does not follow.
    pub fn set_log_entries(&mut self, entries: Vec<LogEntry>)
        ensures
            final(self)@ == old(self)@.loaded(entries@),
    {
        self.log_entries = entries;
        self.auto_scroll = false;
        self.scroll_offset = 0;
    }

    /// Adds entries read after the first load.
    pub fn append_new_log_entries(&mut self, new_entries: Vec<LogEntry>, visible_height: usize)
        ensures
            final(self)@ == old(self)@.appended(new_entries@, visible_height as nat),
    {
        // Whether the view is at the bottom must be known before the buffer
        // grows, since growing it moves the bottom.
        let should_follow = self.auto_scroll && self.is_at_bottom(visible_height);
        let mut new_entries = new_entries;
        self.log_entries.append(&mut new_entries);
        let max = self.max_scroll(visible_height);
        if should_follow {
            self.scroll_offset = max;
        } else if self.scroll_offset > max {
            self.scroll_offset = max;
        }
    }

    /// Whether the last entry is visible with `visible_height` rows.
    pub fn is_at_bottom(&self, visible_height: usize) -> (r: bool)
        ensures
            r == self@.is_at_bottom(visible_height as nat),
    {
        if self.log_entries.len() == 0 {
            return true;
        }
        if self.log_entries.len() <= visible_height {
            return true;
        }
        self.scroll_offset >= self.log_entries.len() - visible_height
    }

    /// Empties the buffer and starts following again.
    pub fn clear_log_entries(&mut self)
        ensures
            final(self)@ == old(self)@.cleared(),
    {
        self.log_entries.clear();
        self.scroll_offset = 0;
        self.selected_index = None;
        self.auto_scroll = true;
    }

    /// Moves the offset so that the last `visible_height` entries are shown.
    pub fn scroll_to_bottom(&mut self, visible_height: usize)
        ensures
            final(self)@ == old(self)@.at_end(visible_height as nat),
    {
        self.scroll_offset = self.max_scroll(visible_height);
    }

    fn scroll_up(&mut self, step: usize, visible_height: usize)
        ensures
            final(self)@ == old(self)@.moved_up(step as nat, visible_height as nat),
    {
        let max = self.max_scroll(visible_height);
        let up = self.scroll_offset.saturating_sub(step);
        self.scroll_offset = if up <= max {
            up
        } else {
            max
        };
        self.auto_scroll = false;
    }

    fn scroll_down(&mut self, step: usize, visible_height: usize)
        ensures
            final(self)@ == old(self)@.moved_down(step as nat, visible_height as nat),
    {
        let max = self.max_scroll(visible_height);
        self.scroll_offset = if self.scroll_offset >= max || max - self.scroll_offset <= step {
            max
        } else {
            self.scroll_offset + step
        };
        if self.scroll_offset == max {
            self.auto_scroll = true;
        }
    }

    /// Applies a key press with `visible_height` visible rows. Returns `false`
    /// for a quit key, which leaves the state alone; unmapped keys change nothing.
    pub fn handle_input(&mut self, key: Key, visible_height: usize) -> (r: bool)
        ensures
            r == !is_quit_key(key),
            final(self)@ == if is_quit_key(key) {
                old(self)@
            } else {
                old(self)@.key_applied(key, visible_height as nat)
            },
    {
        match key {
            Key::Char('q') | Key::Esc => {
                return false;
            },
            Key::Up | Key::Char('k') => {
                self.scroll_up(1, visible_height);
            },
            Key::Down | Key::Char('j') => {
                self.scroll_down(1, visible_height);
            },
            Key::PageUp => {
                self.scroll_up(PAGE_SIZE, visible_height);
            },
            Key::PageDown => {
                self.scroll_down(PAGE_SIZE, visible_height);
            },
            Key::Home => {
                self.scroll_offset = 0;
                self.auto_scroll = false;
            },
            Key::End => {
                self.scroll_to_bottom(visible_height);
                self.auto_scroll = true;
            },
            Key::Char('c') => {
                self.clear_log_entries();
            },
            Key::Char('f') => {
                self.auto_scroll = !self.auto_scroll;
                if self.auto_scroll {
                    self.scroll_to_bottom(visible_height);
                }
            },
            _ => {},
        }
        true
    }
    /// The entries in the buffer.
    pub fn log_entries(&self) -> (r: &Vec<LogEntry>)
        ensures
            r@ == self@.entries,
    {
        &self.log_entries
    }

    /// The index of the first entry shown.
    pub fn scroll_offset(&self) -> (r: usize)
        ensures
            r == self@.scroll_offset,
    {
        self.scroll_offset
    }

    /// The highlighted entry, if any.
    pub fn selected_index(&self) -> (r: Option<usize>)
        ensures
            r matches Some(i) ==> self@.selected_index == Some(i as nat),
            r is None ==> self@.selected_index is None,
    {
        self.selected_index
    }

    /// Whether the view follows new entries.
    pub fn auto_follow(&self) -> (r: bool)
        ensures
            r == self@.auto_follow,
    {
        self.auto_scroll
    }

    /// The entries shown with `visible_height` rows: from `r.0` up to, not
    /// including, `r.1`.
    pub fn visible_range(&self, visible_height: usize) -> (r: (usize, usize))
        ensures
            r.0 == min_nat(self@.scroll_offset, self@.entries.len()),
            r.1 == min_nat(self@.scroll_offset + visible_height as nat, self@.entries.len()),
    {
        let len = self.log_entries.len();
        let start = if self.scroll_offset <= len {
            self.scroll_offset
        } else {
            len
        };
        let end = if len - start <= visible_height {
            len
        } else {
            start + visible_height
        };
        (start, end)
    }
}

} // verus!
