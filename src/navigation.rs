//! Navigation state: which configured station is selected, the column focus
//! flag and the exit flag, driven by key presses.
use vstd::prelude::*;

verus! {

/// A cursor movement.
#[derive(Clone, Copy, Debug, PartialEq, Eq, Structural)]
pub enum NavEvent {
    MoveUp,
    MoveDown,
}

/// A key press, as far as the dashboard tells keys apart.
#[derive(Clone, Copy, Debug, PartialEq, Eq, Structural)]
pub enum Key {
    Char(char),
    Left,
    Right,
    Up,
    Down,
    Other,
}

/// The cursor after `event`, over a list of `count` stations: up saturates at
/// the first index, down at the last.
pub open spec fn step_of(cursor: nat, count: nat, event: NavEvent) -> nat {
    match event {
        NavEvent::MoveUp => if cursor > 0 {
            (cursor - 1) as nat
        } else {
            0
        },
        NavEvent::MoveDown => if cursor + 1 < count {
            cursor + 1
        } else {
            cursor
        },
    }
}

/// The cursor after each of `events` in turn, starting at `cursor`.
pub open spec fn run_of(cursor: nat, count: nat, events: Seq<NavEvent>) -> nat
    decreases events.len(),
{
    if events.len() == 0 {
        cursor
    } else {
        step_of(run_of(cursor, count, events.drop_last()), count, events.last())
    }
}

/// The dashboard's interactive state.
#[derive(Clone, Copy, Debug, PartialEq, Eq, Structural)]
pub struct App {
    /// Number of configured stations.
    pub station_count: usize,
    /// Index of the selected station.
    pub selected: usize,
    /// Column focus flag, toggled by the side arrows.
    pub selected_column: bool,
    /// Set once the user asked to quit.
    pub exit: bool,
}

impl App {
    /// The selected index names one of the stations; so there is at least
    /// one.
    pub open spec fn wf(&self) -> bool {
        self.selected < self.station_count
    }

    /// The state at startup: first station selected.
    pub fn new(station_count: usize) -> (r: App)
        requires
            station_count > 0,
        ensures
            r.wf(),
            r.station_count == station_count,
            r.selected == 0,
            !r.selected_column,
            !r.exit,
    {
        App { station_count, selected: 0, selected_column: false, exit: false }
    }

    /// Asks the render loop to stop.
    pub fn exit(&mut self)
        ensures
            *final(self) == (App { exit: true, ..*old(self) }),
    {
        self.exit = true;
    }

    /// Toggles the column focus flag.
    pub fn switch_column(&mut self)
        ensures
            *final(self) == (App { selected_column: !old(self).selected_column, ..*old(self) }),
    {
        self.selected_column = !self.selected_column;
    }

    /// Moves the cursor one station up, staying at the first one.
    pub fn scroll_up(&mut self)
        requires
            old(self).wf(),
        ensures
            final(self).wf(),
            final(self).selected == step_of(
                old(self).selected as nat,
                old(self).station_count as nat,
                NavEvent::MoveUp,
            ),
            *final(self) == (App { selected: final(self).selected, ..*old(self) }),
    {
        if self.selected > 0 {
            self.selected = self.selected - 1;
        }
    }

    /// Moves the cursor one station down, staying at the last one.
    pub fn scroll_down(&mut self)
        requires
            old(self).wf(),
        ensures
            final(self).wf(),
            final(self).selected == step_of(
                old(self).selected as nat,
                old(self).station_count as nat,
                NavEvent::MoveDown,
            ),
            *final(self) == (App { selected: final(self).selected, ..*old(self) }),
    {
        if self.selected + 1 < self.station_count {
            self.selected = self.selected + 1;
        }
    }

    /// Applies one cursor movement.
    pub fn navigate(&mut self, event: NavEvent)
        requires
            old(self).wf(),
        ensures
            final(self).wf(),
            final(self).selected == step_of(
                old(self).selected as nat,
                old(self).station_count as nat,
                event,
            ),
            *final(self) == (App { selected: final(self).selected, ..*old(self) }),
    {
        match event {
            NavEvent::MoveUp => self.scroll_up(),
            NavEvent::MoveDown => self.scroll_down(),
        }
    }

    /// Reacts to a key press: `q` quits, the side arrows toggle the column
    /// flag, up and down move the cursor; any other key changes nothing.
    pub fn handle_key_event(&mut self, key: Key)
        requires
            old(self).wf(),
        ensures
            final(self).wf(),
            key == Key::Char('q') ==> *final(self) == (App { exit: true, ..*old(self) }),
            (key == Key::Left || key == Key::Right) ==> *final(self) == (App {
                selected_column: !old(self).selected_column,
                ..*old(self)
            }),
            key == Key::Up ==> *final(self) == (App {
                selected: step_of(
                    old(self).selected as nat,
                    old(self).station_count as nat,
                    NavEvent::MoveUp,
                ) as usize,
                ..*old(self)
            }),
            key == Key::Down ==> *final(self) == (App {
                selected: step_of(
                    old(self).selected as nat,
                    old(self).station_count as nat,
                    NavEvent::MoveDown,
                ) as usize,
                ..*old(self)
            }),
            (key != Key::Char('q') && key != Key::Left && key != Key::Right && key != Key::Up
                && key != Key::Down) ==> *final(self) == *old(self),
    {
        match key {
            Key::Char(c) => {
                if c == 'q' {
                    self.exit();
                }
            },
            Key::Left => self.switch_column(),
            Key::Right => self.switch_column(),
            Key::Up => self.scroll_up(),
            Key::Down => self.scroll_down(),
            Key::Other => {},
        }
    }
}

/// Over a non-empty list of stations, every sequence of movements from a valid
/// index keeps the cursor on a station.
pub proof fn lemma_cursor_in_bounds(count: nat, start: nat, events: Seq<NavEvent>)
    requires
        count > 0,
        start < count,
    ensures
        run_of(start, count, events) < count,
    decreases events.len(),
{
    if events.len() > 0 {
        lemma_cursor_in_bounds(count, start, events.drop_last());
    }
}

/// `k` moves down from the first station reach index `k`, or the last
/// station if there are fewer.
pub proof fn lemma_moves_down(count: nat, k: nat)
    requires
        count > 0,
    ensures
        run_of(0, count, Seq::new(k, |i: int| NavEvent::MoveDown)) == if k < count {
            k
        } else {
            (count - 1) as nat
        },
    decreases k,
{
    let events = Seq::new(k, |i: int| NavEvent::MoveDown);
    if k > 0 {
        assert(events.drop_last() =~= Seq::new((k - 1) as nat, |i: int| NavEvent::MoveDown));
        lemma_moves_down(count, (k - 1) as nat);
    }
}

/// The cursor laws: it stays on a station under any movements from the first
/// station, `count` moves down from the first station end on the last one,
/// and a move up from the first station stays there.
pub proof fn lemma_navigation_laws(count: nat, events: Seq<NavEvent>)
    requires
        count > 0,
    ensures
        run_of(0, count, events) < count,
        run_of(0, count, Seq::new(count, |i: int| NavEvent::MoveDown)) == count - 1,
        step_of(0, count, NavEvent::MoveUp) == 0,
{
    lemma_cursor_in_bounds(count, 0, events);
    lemma_moves_down(count, count);
}

} // verus!
