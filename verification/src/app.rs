//! The terminal interface's state machine: the card list, the selection, the
//! filter, the input modes, and what each key press does to them.
//!
//! Work that needs the database is not done here: a key press only records it
//! (`needs_refresh`, `pending_action`), and the caller performs it on the next
//! tick, reporting back with `mark_fake_done` and `show_cards`.
use vstd::prelude::*;

use crate::card::{Card, Confidence};
use crate::db::CardFilter;
use crate::dedup::opt_view;
use crate::text::{copy_str, pop_char, push_char, trim, trim_spec};

verus! {

/// A key press, as far as the interface tells keys apart.
#[derive(Clone, Copy, Debug, PartialEq, Eq, Structural)]
pub enum Key {
    Char(char),
    Esc,
    Enter,
    Up,
    Down,
    Backspace,
    Other,
}

/// What the interface is doing.
#[derive(Clone, Copy, Debug, PartialEq, Eq, Structural)]
pub enum AppMode {
    /// Browsing the card list.
    Normal,
    /// Typing a search text.
    Search,
    /// Changing the filter.
    Filter,
    /// Looking at one card.
    Detail,
    /// Asked to confirm that the selected card is fake.
    MarkingFake,
}

/// Database work that a key press asked for.
#[derive(Debug)]
pub enum PendingAction {
    /// Mark the card with this id as fake (or not).
    MarkFake(String, bool),
}

/// Database work the interface needs done on a tick.
pub enum TickWork {
    /// Mark the card with this id as fake (or not), then report `mark_fake_done`.
    MarkFake(String, bool),
    /// Reload the list with the current filter, then report `refresh`.
    Reload,
    /// Nothing to do.
    Idle,
}

/// The state of the interface.
pub struct App {
    pub cards: Vec<Card>,
    pub selected_index: usize,
    pub filter: CardFilter,
    pub mode: AppMode,
    pub search_input: String,
    pub should_quit: bool,
    /// The card list must be reloaded on the next tick.
    pub needs_refresh: bool,
    /// Database work to perform on the next tick.
    pub pending_action: Option<PendingAction>,
    /// The message shown in the footer.
    pub status_message: Option<String>,
}

/// The state of the interface as plain values.
pub struct AppView {
    pub card_ids: Seq<Seq<char>>,
    pub selected: int,
    pub mode: AppMode,
    pub search_input: Seq<char>,
    pub confidence: Option<Confidence>,
    pub set_code: Option<Seq<char>>,
    pub hide_fake: bool,
    pub search: Option<Seq<char>>,
    pub should_quit: bool,
    pub needs_refresh: bool,
    pub pending: Option<(Seq<char>, bool)>,
    pub status: Option<Seq<char>>,
}

impl View for App {
    type V = AppView;

    open spec fn view(&self) -> AppView {
        AppView {
            card_ids: self.cards@.map_values(|c: Card| c.id@),
            selected: self.selected_index as int,
            mode: self.mode,
            search_input: self.search_input@,
            confidence: self.filter.confidence,
            set_code: opt_view(self.filter.set_code),
            hide_fake: self.filter.hide_fake,
            search: opt_view(self.filter.search),
            should_quit: self.should_quit,
            needs_refresh: self.needs_refresh,
            pending: match self.pending_action {
                Some(PendingAction::MarkFake(id, f)) => Some((id@, f)),
                None => None,
            },
            status: opt_view(self.status_message),
        }
    }
}

/// The selection is on a card, or at the top of an empty list.
pub open spec fn selection_ok(v: AppView) -> bool {
    v.selected == 0 || (0 <= v.selected < v.card_ids.len())
}

/// One step down the list, stopping at the last card.
pub open spec fn step_down(v: AppView) -> AppView {
    if v.card_ids.len() > 0 {
        AppView {
            selected: if v.selected + 1 < v.card_ids.len() {
                v.selected + 1
            } else {
                v.card_ids.len() - 1
            },
            ..v
        }
    } else {
        v
    }
}

/// One step up the list, stopping at the top.
pub open spec fn step_up(v: AppView) -> AppView {
    AppView { selected: if v.selected > 0 { v.selected - 1 } else { 0 }, ..v }
}

/// A key pressed while browsing.
pub open spec fn normal_key(v: AppView, key: Key) -> AppView {
    match key {
        Key::Char('q') | Key::Esc => AppView { should_quit: true, ..v },
        Key::Char('j') | Key::Down => step_down(v),
        Key::Char('k') | Key::Up => step_up(v),
        Key::Char('g') => AppView { selected: 0, ..v },
        Key::Char('G') => AppView {
            selected: if v.card_ids.len() > 0 { v.card_ids.len() - 1 } else { 0 },
            ..v
        },
        Key::Char('/') => AppView {
            search_input: match v.search {
                Some(s) => s,
                None => Seq::empty(),
            },
            mode: AppMode::Search,
            ..v
        },
        Key::Char('f') => AppView { mode: AppMode::Filter, ..v },
        Key::Enter => if v.card_ids.len() > 0 {
            AppView { mode: AppMode::Detail, ..v }
        } else {
            v
        },
        Key::Char('x') => if v.card_ids.len() > 0 {
            AppView { mode: AppMode::MarkingFake, ..v }
        } else {
            v
        },
        Key::Char('r') => AppView { needs_refresh: true, status: Some("Refreshing..."@), ..v },
        Key::Char('c') => AppView { search: None, needs_refresh: true, ..v },
        _ => v,
    }
}

/// A key pressed while typing a search.
pub open spec fn search_key(v: AppView, key: Key) -> AppView {
    match key {
        Key::Esc => AppView { mode: AppMode::Normal, search_input: Seq::empty(), ..v },
        Key::Enter => {
            let t = trim_spec(v.search_input);
            AppView {
                search: if t.len() == 0 {
                    None
                } else {
                    Some(t)
                },
                search_input: Seq::empty(),
                mode: AppMode::Normal,
                needs_refresh: true,
                ..v
            }
        },
        Key::Char(c) => AppView { search_input: v.search_input.push(c), ..v },
        Key::Backspace => AppView {
            search_input: if v.search_input.len() > 0 {
                v.search_input.drop_last()
            } else {
                v.search_input
            },
            ..v
        },
        _ => v,
    }
}

/// The next confidence filter in the cycle: any, Verified, Unverified, any.
pub open spec fn next_confidence(c: Option<Confidence>) -> Option<Confidence> {
    match c {
        None => Some(Confidence::Verified),
        Some(Confidence::Verified) => Some(Confidence::Unverified),
        Some(Confidence::Unverified) => None,
    }
}

/// A key pressed while changing the filter.
pub open spec fn filter_key(v: AppView, key: Key) -> AppView {
    match key {
        Key::Esc => AppView { mode: AppMode::Normal, ..v },
        Key::Char('c') => AppView {
            confidence: next_confidence(v.confidence),
            needs_refresh: true,
            ..v
        },
        Key::Char('h') => AppView { hide_fake: !v.hide_fake, needs_refresh: true, ..v },
        _ => v,
    }
}

/// A key pressed while looking at one card.
pub open spec fn detail_key(v: AppView, key: Key) -> AppView {
    match key {
        Key::Esc | Key::Char('q') => AppView { mode: AppMode::Normal, ..v },
        Key::Char('j') | Key::Down => step_down(v),
        Key::Char('k') | Key::Up => step_up(v),
        _ => v,
    }
}

/// A key pressed while asked to confirm a fake: `y` asks to mark the selected
/// card fake; any key leaves the question.
pub open spec fn marking_fake_key(v: AppView, key: Key) -> AppView {
    match key {
        Key::Char('y') => if 0 <= v.selected < v.card_ids.len() {
            AppView {
                pending: Some((v.card_ids[v.selected], true)),
                mode: AppMode::Normal,
                ..v
            }
        } else {
            AppView { mode: AppMode::Normal, ..v }
        },
        _ => AppView { mode: AppMode::Normal, ..v },
    }
}

/// The effect of a key press: the footer message is cleared, then the key is
/// handled according to the mode.
pub open spec fn on_key_spec(v: AppView, key: Key) -> AppView {
    let v = AppView { status: None, ..v };
    match v.mode {
        AppMode::Normal => normal_key(v, key),
        AppMode::Search => search_key(v, key),
        AppMode::Filter => filter_key(v, key),
        AppMode::Detail => detail_key(v, key),
        AppMode::MarkingFake => marking_fake_key(v, key),
    }
}

/// The state after one tick took its work: the pending action if there is
/// one, else the reload request.
pub open spec fn tick_view(v: AppView) -> AppView {
    if v.pending is Some {
        AppView { pending: None, ..v }
    } else if v.needs_refresh {
        AppView { needs_refresh: false, ..v }
    } else {
        v
    }
}

/// The state after the mark-fake work was reported done.
pub open spec fn marked_view(v: AppView, is_fake: bool) -> AppView {
    AppView {
        status: Some(if is_fake { "Marked as fake."@ } else { "Unmarked."@ }),
        needs_refresh: true,
        ..v
    }
}

/// The footer help of a mode.
pub open spec fn help_text_spec(mode: AppMode) -> Seq<char> {
    match mode {
        AppMode::Normal => "j/k: Navigate | Enter: Details | /: Search | f: Filter | x: Mark Fake | r: Refresh | q: Quit"@,
        AppMode::Search => "Type to search | Enter: Confirm | Esc: Cancel"@,
        AppMode::Filter => "c: Confidence | s: Set | h: Hide Fake | Esc: Back"@,
        AppMode::Detail => "Esc: Back | o: Open URL"@,
        AppMode::MarkingFake => "y: Confirm Fake | n: Cancel"@,
    }
}

impl AppMode {
    /// The keys the footer lists in this mode.
    pub fn help_text(&self) -> (r: &'static str)
        ensures
            r@ == help_text_spec(*self),
    {
        match self {
            AppMode::Normal => "j/k: Navigate | Enter: Details | /: Search | f: Filter | x: Mark Fake | r: Refresh | q: Quit",
            AppMode::Search => "Type to search | Enter: Confirm | Esc: Cancel",
            AppMode::Filter => "c: Confidence | s: Set | h: Hide Fake | Esc: Back",
            AppMode::Detail => "Esc: Back | o: Open URL",
            AppMode::MarkingFake => "y: Confirm Fake | n: Cancel",
        }
    }
}

impl App {
    /// The filter the interface starts with: everything but cards marked fake.
    pub fn initial_filter() -> (r: CardFilter)
        ensures
            r.confidence is None,
            r.set_code is None,
            r.hide_fake,
            r.search is None,
    {
        CardFilter { confidence: None, set_code: None, hide_fake: true, search: None }
    }

    /// The interface showing `cards` (as loaded with `initial_filter`), browsing
    /// from the top, with nothing pending.
    pub fn new(cards: Vec<Card>) -> (r: Self)
        ensures
            r.cards == cards,
            r.selected_index == 0,
            r.filter.confidence is None,
            r.filter.set_code is None,
            r.filter.hide_fake,
            r.filter.search is None,
            r.mode == AppMode::Normal,
            r.search_input@ == Seq::<char>::empty(),
            !r.should_quit,
            !r.needs_refresh,
            r.pending_action is None,
            r.status_message is None,
            selection_ok(r@),
    {
        App {
            cards,
            selected_index: 0,
            filter: Self::initial_filter(),
            mode: AppMode::Normal,
            search_input: String::new(),
            should_quit: false,
            needs_refresh: false,
            pending_action: None,
            status_message: None,
        }
    }

    /// Handles a key press.
    pub fn on_key(&mut self, key: Key)
        ensures
            final(self)@ == on_key_spec(old(self)@, key),
            final(self).cards == old(self).cards,
    {
        self.status_message = None;
        match self.mode {
            AppMode::Normal => self.handle_normal(key),
            AppMode::Search => self.handle_search(key),
            AppMode::Filter => self.handle_filter(key),
            AppMode::Detail => self.handle_detail(key),
            AppMode::MarkingFake => self.handle_marking_fake(key),
        }
    }

    fn move_down(&mut self)
        ensures
            final(self)@ == step_down(old(self)@),
            final(self).cards == old(self).cards,
    {
        let n = self.cards.len();
        if n > 0 {
            self.selected_index = if self.selected_index < n - 1 {
                self.selected_index + 1
            } else {
                n - 1
            };
        }
    }

    fn move_up(&mut self)
        ensures
            final(self)@ == step_up(old(self)@),
            final(self).cards == old(self).cards,
    {
        if self.selected_index > 0 {
            self.selected_index = self.selected_index - 1;
        }
    }

    fn handle_normal(&mut self, key: Key)
        ensures
            final(self)@ == normal_key(old(self)@, key),
            final(self).cards == old(self).cards,
    {
        match key {
            Key::Char('q') | Key::Esc => self.should_quit = true,
            Key::Char('j') | Key::Down => self.move_down(),
            Key::Char('k') | Key::Up => self.move_up(),
            Key::Char('g') => self.selected_index = 0,
            Key::Char('G') => {
                self.selected_index = if self.cards.len() > 0 {
                    self.cards.len() - 1
                } else {
                    0
                };
            },
            Key::Char('/') => {
                self.search_input = match &self.filter.search {
                    Some(s) => s.clone(),
                    None => String::new(),
                };
                self.mode = AppMode::Search;
            },
            Key::Char('f') => self.mode = AppMode::Filter,
            Key::Enter => {
                if self.cards.len() > 0 {
                    self.mode = AppMode::Detail;
                }
            },
            Key::Char('x') => {
                if self.cards.len() > 0 {
                    self.mode = AppMode::MarkingFake;
                }
            },
            Key::Char('r') => {
                self.needs_refresh = true;
                self.status_message = Some(copy_str("Refreshing..."));
            },
            Key::Char('c') => {
                self.filter.search = None;
                self.needs_refresh = true;
            },
            _ => {},
        }
    }

    fn handle_search(&mut self, key: Key)
        ensures
            final(self)@ == search_key(old(self)@, key),
            final(self).cards == old(self).cards,
    {
        match key {
            Key::Esc => {
                self.mode = AppMode::Normal;
                self.search_input = String::new();
            },
            Key::Enter => {
                let trimmed = trim(self.search_input.as_str());
                self.filter.search = if trimmed.as_str().is_empty() {
                    None
                } else {
                    Some(trimmed)
                };
                self.search_input = String::new();
                self.mode = AppMode::Normal;
                self.needs_refresh = true;
            },
            Key::Char(c) => push_char(&mut self.search_input, c),
            Key::Backspace => {
                pop_char(&mut self.search_input);
            },
            _ => {},
        }
    }

    fn handle_filter(&mut self, key: Key)
        ensures
            final(self)@ == filter_key(old(self)@, key),
            final(self).cards == old(self).cards,
    {
        match key {
            Key::Esc => self.mode = AppMode::Normal,
            Key::Char('c') => {
                self.filter.confidence = match self.filter.confidence {
                    None => Some(Confidence::Verified),
                    Some(Confidence::Verified) => Some(Confidence::Unverified),
                    Some(Confidence::Unverified) => None,
                };
                self.needs_refresh = true;
            },
            Key::Char('h') => {
                self.filter.hide_fake = !self.filter.hide_fake;
                self.needs_refresh = true;
            },
            _ => {},
        }
    }

    fn handle_detail(&mut self, key: Key)
        ensures
            final(self)@ == detail_key(old(self)@, key),
            final(self).cards == old(self).cards,
    {
        match key {
            Key::Esc | Key::Char('q') => self.mode = AppMode::Normal,
            Key::Char('j') | Key::Down => self.move_down(),
            Key::Char('k') | Key::Up => self.move_up(),
            _ => {},
        }
    }

    fn handle_marking_fake(&mut self, key: Key)
        ensures
            final(self)@ == marking_fake_key(old(self)@, key),
            final(self).cards == old(self).cards,
    {
        match key {
            Key::Char('y') => {
                if self.selected_index < self.cards.len() {
                    let card_id = self.cards[self.selected_index].id.clone();
                    self.pending_action = Some(PendingAction::MarkFake(card_id, true));
                }
                self.mode = AppMode::Normal;
            },
            _ => self.mode = AppMode::Normal,
        }
    }

    /// The selected card, if the selection is on one.
    pub fn selected_card(&self) -> (r: Option<&Card>)
        ensures
            match r {
                Some(c) => self.selected_index < self.cards@.len() && *c == self.cards@[self.selected_index as int],
                None => self.selected_index >= self.cards@.len(),
            },
    {
        if self.selected_index < self.cards.len() {
            Some(&self.cards[self.selected_index])
        } else {
            None
        }
    }

    /// Records that the pending mark-fake action was carried out: the footer
    /// says so and the list is to be reloaded.
    pub fn mark_fake_done(&mut self, is_fake: bool)
        ensures
            final(self)@ == marked_view(old(self)@, is_fake),
            final(self).cards == old(self).cards,
            final(self).filter == old(self).filter,
    {
        self.status_message = Some(if is_fake {
            copy_str("Marked as fake.")
        } else {
            copy_str("Unmarked.")
        });
        self.needs_refresh = true;
    }

    /// The next piece of database work, taken from the state: a pending
    /// mark-fake action first, then a reload of the list if one was asked
    /// for, else nothing.  The caller performs it and reports back with
    /// `mark_fake_done` or `refresh`, then ticks again until `Idle`.
    pub fn tick(&mut self) -> (r: TickWork)
        ensures
            final(self)@ == tick_view(old(self)@),
            match r {
                TickWork::MarkFake(id, f) => old(self)@.pending == Some((id@, f)),
                TickWork::Reload => old(self)@.pending is None && old(self)@.needs_refresh,
                TickWork::Idle => old(self)@.pending is None && !old(self)@.needs_refresh,
            },
            final(self).cards == old(self).cards,
            final(self).filter == old(self).filter,
    {
        match self.pending_action.take() {
            Some(PendingAction::MarkFake(card_id, is_fake)) => TickWork::MarkFake(card_id, is_fake),
            None => {
                if self.needs_refresh {
                    self.needs_refresh = false;
                    TickWork::Reload
                } else {
                    TickWork::Idle
                }
            },
        }
    }

    /// Shows a freshly loaded card list; a selection past its end moves to the
    /// last card (or the top of an empty list).
    pub fn refresh(&mut self, cards: Vec<Card>)
        ensures
            final(self).cards == cards,
            final(self).selected_index == if old(self).selected_index >= cards@.len() {
                if cards@.len() > 0 {
                    (cards@.len() - 1) as usize
                } else {
                    0
                }
            } else {
                old(self).selected_index
            },
            final(self).mode == old(self).mode,
            final(self).filter == old(self).filter,
            final(self).search_input == old(self).search_input,
            final(self).should_quit == old(self).should_quit,
            final(self).needs_refresh == old(self).needs_refresh,
            final(self).pending_action == old(self).pending_action,
            final(self).status_message == old(self).status_message,
            selection_ok(final(self)@),
    {
        self.cards = cards;
        if self.selected_index >= self.cards.len() {
            self.selected_index = if self.cards.len() > 0 {
                self.cards.len() - 1
            } else {
                0
            };
        }
    }
}

/// A key press never moves the selection off the list.
pub proof fn law_key_keeps_selection_on_list(v: AppView, key: Key)
    requires
        selection_ok(v),
    ensures
        selection_ok(on_key_spec(v, key)),
{
}

/// Two ticks with nothing reported in between leave nothing to do.
pub proof fn law_two_ticks_drain(v: AppView)
    ensures
        tick_view(tick_view(v)).pending is None,
        !tick_view(tick_view(v)).needs_refresh,
{
}

/// Once a mark-fake is carried out and reported, the next tick reloads the list.
pub proof fn law_mark_fake_is_followed_by_reload(v: AppView, id: Seq<char>, is_fake: bool)
    requires
        v.pending == Some((id, is_fake)),
    ensures
        tick_view(v).pending is None,
        marked_view(tick_view(v), is_fake).pending is None,
        marked_view(tick_view(v), is_fake).needs_refresh,
        !tick_view(marked_view(tick_view(v), is_fake)).needs_refresh,
{
}

/// A key press never changes the card list itself.
pub proof fn law_key_keeps_cards(v: AppView, key: Key)
    ensures
        on_key_spec(v, key).card_ids == v.card_ids,
{
}

/// Pressing `c` three times in the filter view brings the confidence filter
/// back to where it was.
pub proof fn law_confidence_cycle_has_period_three(v: AppView)
    requires
        v.mode == AppMode::Filter,
    ensures
        on_key_spec(on_key_spec(on_key_spec(v, Key::Char('c')), Key::Char('c')), Key::Char('c')).confidence
            == v.confidence,
        on_key_spec(v, Key::Char('c')).mode == AppMode::Filter,
{
}

/// Pressing `h` twice in the filter view leaves hiding of fakes as it was.
pub proof fn law_hide_fake_toggle_twice(v: AppView)
    requires
        v.mode == AppMode::Filter,
    ensures
        on_key_spec(on_key_spec(v, Key::Char('h')), Key::Char('h')).hide_fake == v.hide_fake,
{
}

/// Esc leaves every mode but browsing, and browsing it quits.
pub proof fn law_escape_goes_back(v: AppView)
    ensures
        v.mode != AppMode::Normal ==> on_key_spec(v, Key::Esc).mode == AppMode::Normal,
        v.mode == AppMode::Normal ==> on_key_spec(v, Key::Esc).should_quit,
{
}

/// A confirmed search is offered again for editing: after Enter, `/` puts the
/// trimmed search text back in the input.
pub proof fn law_search_round_trip(v: AppView)
    requires
        v.mode == AppMode::Search,
    ensures
        on_key_spec(on_key_spec(v, Key::Enter), Key::Char('/')).search_input == trim_spec(
            v.search_input,
        ),
        on_key_spec(on_key_spec(v, Key::Enter), Key::Char('/')).mode == AppMode::Search,
{
}

/// Typing a character and erasing it leaves the search input as it was.
pub proof fn law_type_then_erase(v: AppView, c: char)
    requires
        v.mode == AppMode::Search,
    ensures
        on_key_spec(on_key_spec(v, Key::Char(c)), Key::Backspace).search_input == v.search_input,
{
    assert(v.search_input.push(c).drop_last() =~= v.search_input);
}

/// Confirming a fake only asks for the selected card to be marked, and only
/// when the selection is on a card.
pub proof fn law_mark_fake_targets_selection(v: AppView)
    requires
        v.mode == AppMode::MarkingFake,
        v.pending is None,
    ensures
        on_key_spec(v, Key::Char('y')).pending == if 0 <= v.selected < v.card_ids.len() {
            Some((v.card_ids[v.selected], true))
        } else {
            None
        },
        on_key_spec(v, Key::Char('y')).mode == AppMode::Normal,
{
}

/// The filter view's keys: `c` steps the confidence filter through any,
/// Verified, Unverified and back to any, `h` flips the hiding of fakes, both
/// ask for a reload and stay in the filter view; Esc goes back to browsing.
pub proof fn law_filter_view_keys(v: AppView)
    requires
        v.mode == AppMode::Filter,
    ensures
        on_key_spec(v, Key::Char('c')).confidence == next_confidence(v.confidence),
        on_key_spec(v, Key::Char('c')).needs_refresh,
        on_key_spec(v, Key::Char('c')).mode == AppMode::Filter,
        next_confidence(None) == Some(Confidence::Verified),
        next_confidence(Some(Confidence::Verified)) == Some(Confidence::Unverified),
        next_confidence(Some(Confidence::Unverified)) == None::<Confidence>,
        on_key_spec(v, Key::Char('h')).hide_fake == !v.hide_fake,
        on_key_spec(v, Key::Char('h')).needs_refresh,
        on_key_spec(v, Key::Char('h')).mode == AppMode::Filter,
        on_key_spec(v, Key::Esc).mode == AppMode::Normal,
{
}

/// Looking at one card: `k` and Up show the previous card (staying on the
/// first), `j` and Down the next one (staying on the last), and the view stays
/// on the card; Esc and `q` go back to the list with the selection kept.  Any
/// other character leaves everything but the footer as it was.
pub proof fn law_detail_view_keys(v: AppView, c: char)
    requires
        v.mode == AppMode::Detail,
    ensures
        on_key_spec(v, Key::Char('k')).selected == if v.selected > 0 {
            v.selected - 1
        } else {
            0
        },
        on_key_spec(v, Key::Up).selected == if v.selected > 0 {
            v.selected - 1
        } else {
            0
        },
        on_key_spec(v, Key::Char('k')).mode == AppMode::Detail,
        on_key_spec(v, Key::Up).mode == AppMode::Detail,
        on_key_spec(v, Key::Char('j')).selected == if v.card_ids.len() == 0 {
            v.selected
        } else if v.selected + 1 < v.card_ids.len() {
            v.selected + 1
        } else {
            v.card_ids.len() - 1
        },
        on_key_spec(v, Key::Down).selected == on_key_spec(v, Key::Char('j')).selected,
        on_key_spec(v, Key::Char('j')).mode == AppMode::Detail,
        on_key_spec(v, Key::Down).mode == AppMode::Detail,
        on_key_spec(v, Key::Esc).mode == AppMode::Normal,
        on_key_spec(v, Key::Char('q')).mode == AppMode::Normal,
        on_key_spec(v, Key::Esc).selected == v.selected,
        on_key_spec(v, Key::Char('q')).selected == v.selected,
        !on_key_spec(v, Key::Char('q')).should_quit || v.should_quit,
        c != 'j' && c != 'k' && c != 'q' ==> on_key_spec(v, Key::Char(c)) == (AppView {
            status: None,
            ..v
        }),
{
}

/// Browsing the list: `j`/Down and `k`/Up move one card (stopping at the ends),
/// `g` and `G` jump to the first and last card, `/` starts editing the current
/// search, `f` opens the filter, Enter and `x` open the card view and the fake
/// question when there is a card, `r` asks for a reload and says so, `c` drops
/// the search and asks for a reload, and `q` and Esc quit.
pub proof fn law_normal_view_keys(v: AppView)
    requires
        v.mode == AppMode::Normal,
    ensures
        on_key_spec(v, Key::Char('j')).selected == if v.card_ids.len() == 0 {
            v.selected
        } else if v.selected + 1 < v.card_ids.len() {
            v.selected + 1
        } else {
            v.card_ids.len() - 1
        },
        on_key_spec(v, Key::Down).selected == on_key_spec(v, Key::Char('j')).selected,
        on_key_spec(v, Key::Char('k')).selected == if v.selected > 0 {
            v.selected - 1
        } else {
            0
        },
        on_key_spec(v, Key::Up).selected == on_key_spec(v, Key::Char('k')).selected,
        on_key_spec(v, Key::Char('j')).mode == AppMode::Normal,
        on_key_spec(v, Key::Char('k')).mode == AppMode::Normal,
        on_key_spec(v, Key::Char('g')).selected == 0,
        on_key_spec(v, Key::Char('G')).selected == if v.card_ids.len() > 0 {
            v.card_ids.len() - 1
        } else {
            0
        },
        on_key_spec(v, Key::Char('/')).mode == AppMode::Search,
        on_key_spec(v, Key::Char('/')).search_input == (match v.search {
            Some(s) => s,
            None => Seq::<char>::empty(),
        }),
        on_key_spec(v, Key::Char('f')).mode == AppMode::Filter,
        on_key_spec(v, Key::Enter).mode == if v.card_ids.len() > 0 {
            AppMode::Detail
        } else {
            AppMode::Normal
        },
        on_key_spec(v, Key::Enter).selected == v.selected,
        on_key_spec(v, Key::Char('x')).mode == if v.card_ids.len() > 0 {
            AppMode::MarkingFake
        } else {
            AppMode::Normal
        },
        on_key_spec(v, Key::Char('x')).pending == v.pending,
        on_key_spec(v, Key::Char('r')).needs_refresh,
        on_key_spec(v, Key::Char('r')).status == Some("Refreshing..."@),
        on_key_spec(v, Key::Char('r')).search == v.search,
        on_key_spec(v, Key::Char('c')).search is None,
        on_key_spec(v, Key::Char('c')).needs_refresh,
        on_key_spec(v, Key::Char('c')).confidence == v.confidence,
        on_key_spec(v, Key::Char('q')).should_quit,
        on_key_spec(v, Key::Esc).should_quit,
        !on_key_spec(v, Key::Char('j')).should_quit || v.should_quit,
{
}

/// Typing a search: every character, `q` and `j` included, is added to the
/// input and the view stays in search mode with the filter untouched;
/// Backspace removes the last character; Esc drops the input and goes back to
/// the list; Enter makes the trimmed input the search (none if it is blank),
/// empties the input, goes back to the list and asks for a reload.
pub proof fn law_search_view_keys(v: AppView, c: char)
    requires
        v.mode == AppMode::Search,
    ensures
        on_key_spec(v, Key::Char(c)).search_input == v.search_input.push(c),
        on_key_spec(v, Key::Char(c)).mode == AppMode::Search,
        on_key_spec(v, Key::Char(c)).search == v.search,
        on_key_spec(v, Key::Char(c)).needs_refresh == v.needs_refresh,
        on_key_spec(v, Key::Char(c)).should_quit == v.should_quit,
        on_key_spec(v, Key::Char(c)).selected == v.selected,
        on_key_spec(v, Key::Backspace).search_input == if v.search_input.len() > 0 {
            v.search_input.subrange(0, v.search_input.len() - 1)
        } else {
            v.search_input
        },
        on_key_spec(v, Key::Backspace).mode == AppMode::Search,
        on_key_spec(v, Key::Esc).mode == AppMode::Normal,
        on_key_spec(v, Key::Esc).search_input.len() == 0,
        on_key_spec(v, Key::Esc).search == v.search,
        on_key_spec(v, Key::Enter).search == if trim_spec(v.search_input).len() == 0 {
            None
        } else {
            Some(trim_spec(v.search_input))
        },
        on_key_spec(v, Key::Enter).search_input.len() == 0,
        on_key_spec(v, Key::Enter).mode == AppMode::Normal,
        on_key_spec(v, Key::Enter).needs_refresh,
{
}

/// Any answer but `y` to the fake question goes back to the list and asks for
/// nothing.
pub proof fn law_fake_question_declined(v: AppView, key: Key)
    requires
        v.mode == AppMode::MarkingFake,
        key != Key::Char('y'),
    ensures
        on_key_spec(v, key).mode == AppMode::Normal,
        on_key_spec(v, key).pending == v.pending,
        on_key_spec(v, key).selected == v.selected,
{
}

} // verus!
