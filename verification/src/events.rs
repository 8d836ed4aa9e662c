use vstd::prelude::*;

verus! {

/// A raw signal from the event source: a key press translated to a command,
/// or one of the two cadence signals (`Render` redraws the screen, `Tick`
/// drains the pending-action queue).
#[derive(Clone, Copy, Debug, PartialEq, Eq, Structural)]
pub enum Event {
    Quit,
    Render,
    ChangeColor,
    Down,
    Up,
    Tick,
    ConnectDevice,
    DisconnectDevice,
}

/// The event that a pressed key translates to, if any: `q`/`Q` quit, `r`
/// rotates the status color, `j`/`k` move the selection, `c`/`d` request a
/// connect/disconnect of the selected device.
pub open spec fn key_event(key: char) -> Option<Event> {
    if key == 'q' || key == 'Q' {
        Some(Event::Quit)
    } else if key == 'r' {
        Some(Event::ChangeColor)
    } else if key == 'j' {
        Some(Event::Down)
    } else if key == 'k' {
        Some(Event::Up)
    } else if key == 'c' {
        Some(Event::ConnectDevice)
    } else if key == 'd' {
        Some(Event::DisconnectDevice)
    } else {
        None
    }
}

/// The decision-making half of the event source. An unverified polling thread
/// owns the terminal input and the channel; every cycle it asks this state how
/// long to wait for input, what event a key maps to, and whether a `Tick` is
/// due, and sends the answers down the channel unchanged.
pub struct EventHandler {
    /// Milliseconds between two `Tick` events, and the upper bound of one
    /// input poll.
    tick_rate: u64,
    /// Set once the quit key has been seen; never reset.
    should_quit: bool,
}

impl EventHandler {
    /// Milliseconds between two `Tick` events.
    pub closed spec fn spec_tick_rate(&self) -> u64 {
        self.tick_rate
    }

    /// Whether the quit key has been seen.
    pub closed spec fn spec_should_quit(&self) -> bool {
        self.should_quit
    }

    pub fn new(tick_rate: u64) -> (r: EventHandler)
        ensures
            r.spec_tick_rate() == tick_rate,
            !r.spec_should_quit(),
    {
        EventHandler { tick_rate, should_quit: false }
    }

    /// Records that the user asked to quit and yields the `Quit` event.
    pub fn quit(&mut self) -> (r: Option<Event>)
        ensures
            final(self).spec_should_quit(),
            final(self).spec_tick_rate() == old(self).spec_tick_rate(),
            r == Some(Event::Quit),
    {
        self.should_quit = true;
        Some(Event::Quit)
    }

    /// Translates one pressed key to at most one event, per the fixed
    /// key-to-event map; the quit keys additionally latch the quit flag.
    pub fn handle_crossterm_key_event(&mut self, key: char) -> (r: Option<Event>)
        ensures
            r == key_event(key),
            final(self).spec_tick_rate() == old(self).spec_tick_rate(),
            final(self).spec_should_quit() == (old(self).spec_should_quit() || key == 'q'
                || key == 'Q'),
    {
        if key == 'q' || key == 'Q' {
            self.quit()
        } else if key == 'r' {
            Some(Event::ChangeColor)
        } else if key == 'j' {
            Some(Event::Down)
        } else if key == 'k' {
            Some(Event::Up)
        } else if key == 'c' {
            Some(Event::ConnectDevice)
        } else if key == 'd' {
            Some(Event::DisconnectDevice)
        } else {
            None
        }
    }

    /// How long the polling thread may wait for input before it must check
    /// the tick cadence again: the remainder of the current tick interval.
    pub fn poll_timeout_ms(&self, elapsed_ms: u64) -> (r: u64)
        ensures
            r == if elapsed_ms < self.spec_tick_rate() {
                self.spec_tick_rate() - elapsed_ms
            } else {
                0int
            },
    {
        if elapsed_ms < self.tick_rate {
            self.tick_rate - elapsed_ms
        } else {
            0
        }
    }

    /// Whether a full tick interval has elapsed since the last `Tick`, so the
    /// polling thread must emit the next one. Independent of whether any
    /// input was seen in the meantime.
    pub fn tick_due(&self, elapsed_ms: u64) -> (r: bool)
        ensures
            r == (elapsed_ms >= self.spec_tick_rate()),
    {
        elapsed_ms >= self.tick_rate
    }
}

} // verus!
