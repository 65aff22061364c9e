use vstd::prelude::*;

verus! {

/// The panels of the dashboard, in the order in which the menu bar lists them.
#[derive(Clone, Copy, Debug, PartialEq, Eq, Structural)]
pub enum MenuItem {
    Home,
    Issue,
    Verify,
}

/// Position of a panel's tab in the menu bar.
pub open spec fn menu_index(m: MenuItem) -> nat {
    match m {
        MenuItem::Home => 0,
        MenuItem::Issue => 1,
        MenuItem::Verify => 2,
    }
}

/// Label of a panel's tab.
pub open spec fn title_of(m: MenuItem) -> Seq<char> {
    match m {
        MenuItem::Home => "Home"@,
        MenuItem::Issue => "Issue"@,
        MenuItem::Verify => "Verify"@,
    }
}

impl MenuItem {
    /// Label of this panel's tab.
    pub fn title(self) -> (r: &'static str)
        ensures
            r@ == title_of(self),
    {
        match self {
            MenuItem::Home => "Home",
            MenuItem::Issue => "Issue",
            MenuItem::Verify => "Verify",
        }
    }
}

impl From<MenuItem> for usize {
    fn from(input: MenuItem) -> usize {
        match input {
            MenuItem::Home => 0,
            MenuItem::Issue => 1,
            MenuItem::Verify => 2,
        }
    }
}

impl vstd::std_specs::convert::FromSpecImpl<MenuItem> for usize {
    open spec fn obeys_from_spec() -> bool {
        true
    }

    open spec fn from_spec(v: MenuItem) -> usize {
        menu_index(v) as usize
    }
}

/// A key press, reduced to what the dashboard reads of it.
#[derive(Clone, Copy, Debug, PartialEq, Eq, Structural)]
pub enum Key {
    Char(char),
    Other,
}

/// What the background producer hands to the render loop.
#[derive(Clone, Copy, Debug, PartialEq, Eq, Structural)]
pub enum Event {
    Input(Key),
    Tick,
}

/// What the render loop does after an event.
#[derive(Clone, Copy, Debug, PartialEq, Eq, Structural)]
pub enum Outcome {
    /// Keep running and draw this panel.
    Show(MenuItem),
    /// Restore the terminal and leave the loop.
    Quit,
}

/// The panel a navigation key selects, if the event is one.
pub open spec fn nav_target(e: Event) -> Option<MenuItem> {
    if e == Event::Input(Key::Char('h')) {
        Some(MenuItem::Home)
    } else if e == Event::Input(Key::Char('i')) {
        Some(MenuItem::Issue)
    } else if e == Event::Input(Key::Char('v')) {
        Some(MenuItem::Verify)
    } else {
        None
    }
}

pub open spec fn is_quit(e: Event) -> bool {
    e == Event::Input(Key::Char('q'))
}

/// One step of the menu state machine.
pub open spec fn next_outcome(active: MenuItem, e: Event) -> Outcome {
    if is_quit(e) {
        Outcome::Quit
    } else {
        match nav_target(e) {
            Some(m) => Outcome::Show(m),
            None => Outcome::Show(active),
        }
    }
}

pub fn transition(active: MenuItem, event: Event) -> (r: Outcome)
    ensures
        r == next_outcome(active, event),
{
    match event {
        Event::Tick => Outcome::Show(active),
        Event::Input(Key::Other) => Outcome::Show(active),
        Event::Input(Key::Char(c)) => {
            if c == 'q' {
                Outcome::Quit
            } else if c == 'h' {
                Outcome::Show(MenuItem::Home)
            } else if c == 'i' {
                Outcome::Show(MenuItem::Issue)
            } else if c == 'v' {
                Outcome::Show(MenuItem::Verify)
            } else {
                Outcome::Show(active)
            }
        },
    }
}


/// The menu after applying one event; a quit leaves the panel as it was.
pub open spec fn apply_event(active: MenuItem, e: Event) -> MenuItem {
    match next_outcome(active, e) {
        Outcome::Show(m) => m,
        Outcome::Quit => active,
    }
}

/// The menu after applying every event of `events` in order.
pub open spec fn menu_after(start: MenuItem, events: Seq<Event>) -> MenuItem
    decreases events.len(),
{
    if events.len() == 0 {
        start
    } else {
        apply_event(menu_after(start, events.drop_last()), events.last())
    }
}

/// The panel named by the last navigation key of `events`, or `start` if none.
pub open spec fn last_nav(start: MenuItem, events: Seq<Event>) -> MenuItem
    decreases events.len(),
{
    if events.len() == 0 {
        start
    } else {
        match nav_target(events.last()) {
            Some(m) => m,
            None => last_nav(start, events.drop_last()),
        }
    }
}

/// Position of the first quit key in `events`, or its length if there is none.
pub open spec fn quit_index(events: Seq<Event>) -> nat
    decreases events.len(),
{
    if events.len() == 0 {
        0
    } else if is_quit(events.first()) {
        0
    } else {
        1 + quit_index(events.drop_first())
    }
}

/// Which panel is active, and whether the loop still takes events.
#[derive(Clone, Copy, Debug, PartialEq, Eq, Structural)]
pub struct MenuState {
    pub active: MenuItem,
    pub running: bool,
}

impl MenuState {
    /// A running menu on the home panel.
    pub fn new() -> (r: MenuState)
        ensures
            r.active == MenuItem::Home,
            r.running,
    {
        MenuState { active: MenuItem::Home, running: true }
    }

    /// Applies one event. Once a quit key has been seen nothing changes and
    /// every later event asks the loop to quit again.
    pub fn handle(&mut self, event: Event) -> (r: Outcome)
        ensures
            old(self).running ==> r == next_outcome(old(self).active, event),
            old(self).running ==> final(self).active == apply_event(old(self).active, event),
            old(self).running ==> final(self).running == !is_quit(event),
            !old(self).running ==> r == Outcome::Quit && *final(self) == *old(self),
    {
        if !self.running {
            return Outcome::Quit;
        }
        let r = transition(self.active, event);
        match r {
            Outcome::Show(m) => {
                self.active = m;
            },
            Outcome::Quit => {
                self.running = false;
            },
        }
        r
    }

    /// Applies `events` in order up to and including the first quit key, and
    /// returns the active panel after each event before it.
    pub fn feed(&mut self, events: &Vec<Event>) -> (trace: Vec<MenuItem>)
        requires
            old(self).running,
        ensures
            trace@.len() == quit_index(events@),
            forall|i: int|
                0 <= i < trace@.len() ==> trace@[i] == menu_after(
                    old(self).active,
                    #[trigger] events@.take(i + 1),
                ),
            final(self).active == menu_after(old(self).active, events@.take(quit_index(events@) as int)),
            final(self).running == (quit_index(events@) == events@.len()),
    {
        let ghost start = self.active;
        let mut trace: Vec<MenuItem> = Vec::new();
        let mut i: usize = 0;
        proof {
            lemma_quit_index_bounds(events@);
        }
        while i < events.len() && self.running
            invariant
                i <= events@.len(),
                self.running ==> i <= quit_index(events@),
                !self.running ==> i == quit_index(events@) + 1,
                quit_index(events@) <= events@.len(),
                self.running ==> trace@.len() == i,
                !self.running ==> trace@.len() == quit_index(events@),
                forall|k: int|
                    0 <= k < trace@.len() ==> trace@[k] == menu_after(start, #[trigger] events@.take(k + 1)),
                self.active == menu_after(start, events@.take(if self.running { i as int } else { quit_index(events@) as int })),
            decreases events@.len() - i,
        {
            let e = events[i];
            proof {
                lemma_quit_index_step(events@, i as int);
                assert(events@.take(i + 1).drop_last() =~= events@.take(i as int));
            }
            let r = self.handle(e);
            match r {
                Outcome::Show(m) => {
                    trace.push(m);
                },
                Outcome::Quit => {},
            }
            i = i + 1;
        }
        trace
    }
}

proof fn lemma_quit_index_bounds(events: Seq<Event>)
    ensures
        quit_index(events) <= events.len(),
        quit_index(events) < events.len() ==> is_quit(events[quit_index(events) as int]),
    decreases events.len(),
{
    if events.len() > 0 && !is_quit(events.first()) {
        lemma_quit_index_bounds(events.drop_first());
    }
}

/// Before the first quit key no event is a quit; at it, the next one is.
proof fn lemma_quit_index_step(events: Seq<Event>, i: int)
    requires
        0 <= i <= quit_index(events),
        i < events.len(),
    ensures
        is_quit(events[i]) == (i == quit_index(events)),
    decreases events.len(),
{
    lemma_quit_index_bounds(events);
    if i > 0 {
        assert(!is_quit(events.first()));
        lemma_quit_index_step(events.drop_first(), i - 1);
    } else if !is_quit(events.first()) {
        assert(quit_index(events) > 0);
    }
}

/// Up to the first quit key, the active panel is the one that the last
/// navigation key named (`h`, `i`, `v`), or the starting panel if there was
/// none; other keys and ticks leave it alone.
pub proof fn lemma_menu_follows_last_nav(start: MenuItem, events: Seq<Event>)
    ensures
        menu_after(start, events.take(quit_index(events) as int)) == last_nav(
            start,
            events.take(quit_index(events) as int),
        ),
{
    let q = quit_index(events) as int;
    lemma_quit_index_bounds(events);
    assert forall|i: int| 0 <= i < q implies !is_quit(#[trigger] events.take(q)[i]) by {
        lemma_quit_index_step(events, i);
    }
    lemma_no_quit_follows_last_nav(start, events.take(q));
}

proof fn lemma_no_quit_follows_last_nav(start: MenuItem, events: Seq<Event>)
    requires
        forall|i: int| 0 <= i < events.len() ==> !is_quit(#[trigger] events[i]),
    ensures
        menu_after(start, events) == last_nav(start, events),
    decreases events.len(),
{
    if events.len() > 0 {
        let prefix = events.drop_last();
        assert forall|i: int| 0 <= i < prefix.len() implies !is_quit(#[trigger] prefix[i]) by {
            assert(prefix[i] == events[i]);
        }
        lemma_no_quit_follows_last_nav(start, prefix);
        assert(!is_quit(events[events.len() - 1]));
    }
}

} // verus!
