//! When a changed configuration is applied: the watcher's events are
//! debounced into single reload requests, requests wait in a bounded place
//! that drops what does not fit, and a waiting request goes before a tick.
//!
//! None of this touches the widgets: it only decides when the manager is
//! asked to reload.

use vstd::prelude::*;
use vstd::string::*;
use crate::text::str_eq;

verus! {

/// What happened to a file, as the watcher tells it.
#[derive(Debug, Clone, Copy, PartialEq, Eq, Structural)]
pub enum EventKind {
    Create,
    Modify,
    Remove,
    Access,
    Other,
}

/// One event of the watcher: what happened, and to which path first.
#[derive(Debug, PartialEq, Eq)]
pub struct FileEvent {
    pub kind: EventKind,
    pub path: Option<String>,
}

/// Turns the watcher's events on the configuration file into reload
/// requests: one request for each burst of events, once the file has been
/// quiet for the length of the debounce window.
#[derive(Debug)]
pub struct ReloadCoordinator {
    config_path: String,
    window: u64,
    last_event: Option<u64>,
}

/// Whether an event of this kind on this path concerns the file at
/// `config_path`: the file was created or modified.
pub open spec fn concerns(config_path: Seq<char>, kind: EventKind, path: Option<Seq<char>>) -> bool {
    (kind == EventKind::Create || kind == EventKind::Modify) && path == Some(config_path)
}

/// Whether a request is due at `now`: there was an event, and the window
/// has gone by since the last one.
pub open spec fn fires(last_event: Option<u64>, window: u64, now: u64) -> bool {
    last_event matches Some(at) && now >= at && now - at >= window
}

/// What is remembered after an event at `now`: the time, where the event
/// concerns the file.
pub open spec fn observed(last_event: Option<u64>, relevant: bool, now: u64) -> Option<u64> {
    if relevant {
        Some(now)
    } else {
        last_event
    }
}

/// What is remembered after being asked at `now`: nothing, where the
/// request went out.
pub open spec fn polled(last_event: Option<u64>, window: u64, now: u64) -> Option<u64> {
    if fires(last_event, window, now) {
        None
    } else {
        last_event
    }
}

impl ReloadCoordinator {
    /// The path of the configuration file.
    pub closed spec fn path(self) -> Seq<char> {
        self.config_path@
    }

    /// The length of the debounce window.
    pub closed spec fn window(self) -> u64 {
        self.window
    }

    /// The time of the last event that is still waiting for its request.
    pub closed spec fn last_event(self) -> Option<u64> {
        self.last_event
    }

    /// A coordinator for the file at `config_path` that has seen no event.
    pub fn new(config_path: String, window: u64) -> (r: Self)
        ensures
            r.path() == config_path@,
            r.window() == window,
            r.last_event() is None,
    {
        ReloadCoordinator { config_path, window, last_event: None }
    }

    /// Whether the event concerns the configuration file.
    pub fn concerns(&self, event: &FileEvent) -> (r: bool)
        ensures
            r == concerns(self.path(), event.kind, event.path.deep_view()),
    {
        let kind_fits = match event.kind {
            EventKind::Create => true,
            EventKind::Modify => true,
            _ => false,
        };
        match &event.path {
            Some(path) => kind_fits && str_eq(path.as_str(), self.config_path.as_str()),
            None => false,
        }
    }

    /// Takes in an event of the watcher, seen at `now`. An event that
    /// concerns the configuration file starts the window anew.
    pub fn observe(&mut self, event: &FileEvent, now: u64)
        ensures
            final(self).path() == old(self).path(),
            final(self).window() == old(self).window(),
            final(self).last_event() == observed(
                old(self).last_event(),
                concerns(old(self).path(), event.kind, event.path.deep_view()),
                now,
            ),
    {
        if self.concerns(event) {
            self.last_event = Some(now);
        }
    }

    /// Asks at `now` whether a reload request is due. It is due once, when
    /// the window has gone by since the last event.
    pub fn poll(&mut self, now: u64) -> (r: bool)
        ensures
            final(self).path() == old(self).path(),
            final(self).window() == old(self).window(),
            r == fires(old(self).last_event(), old(self).window(), now),
            final(self).last_event() == polled(old(self).last_event(), old(self).window(), now),
    {
        match self.last_event {
            Some(at) => {
                if now >= at && now - at >= self.window {
                    self.last_event = None;
                    true
                } else {
                    false
                }
            },
            None => false,
        }
    }

    /// The time at which the waiting request becomes due, if one is waiting.
    pub fn deadline(&self) -> (r: Option<u64>)
        ensures
            match self.last_event() {
                Some(at) => r == Some(if at + self.window() <= u64::MAX {
                    (at + self.window()) as u64
                } else {
                    u64::MAX
                }),
                None => r is None,
            },
    {
        match self.last_event {
            Some(at) => Some(if at <= u64::MAX - self.window {
                at + self.window
            } else {
                u64::MAX
            }),
            None => None,
        }
    }
}

/// Two events on the configuration file that come within the window give
/// exactly one reload request: asking between them (at `between`), or before
/// the window has gone by after the second (at `early`), gives none; the
/// first asking after that (at `due`) gives one; asking again (at `late`)
/// gives none.
pub proof fn lemma_burst_gives_one_request(
    window: u64,
    first: u64,
    between: u64,
    second: u64,
    early: u64,
    due: u64,
    late: u64,
)
    requires
        first <= between <= second,
        second - first < window,
        second <= early,
        early - second < window,
        second <= due,
        due - second >= window,
        due <= late,
    ensures
        ({
            let after_first = observed(None, true, first);
            let after_second = observed(polled(after_first, window, between), true, second);
            let still_waiting = polled(after_second, window, early);
            &&& !fires(after_first, window, between)
            &&& !fires(after_second, window, early)
            &&& fires(still_waiting, window, due)
            &&& !fires(polled(still_waiting, window, due), window, late)
        }),
{
}

/// Without an event on the configuration file no request ever goes out.
pub proof fn lemma_no_event_no_request(window: u64, now: u64)
    ensures
        !fires(None, window, now),
        forall|at: u64| polled(observed(None, false, at), window, now) is None,
{
}

/// The place where reload requests wait for the main loop. It holds up to
/// `capacity` requests; one that does not fit is dropped.
#[derive(Debug)]
pub struct ReloadSignal {
    pending: usize,
    capacity: usize,
}

impl ReloadSignal {
    /// The number of requests that wait.
    pub closed spec fn pending(self) -> nat {
        self.pending as nat
    }

    /// The number of requests that fit.
    pub closed spec fn capacity(self) -> nat {
        self.capacity as nat
    }

    /// No more requests wait than fit.
    #[verifier::type_invariant]
    closed spec fn bounded(self) -> bool {
        self.pending <= self.capacity
    }

    /// An empty place for up to `capacity` requests.
    pub fn new(capacity: usize) -> (r: Self)
        ensures
            r.pending() == 0,
            r.capacity() == capacity,
    {
        ReloadSignal { pending: 0, capacity }
    }

    /// Puts a request in. Gives `false`, and changes nothing, where the
    /// place is full: the request is dropped.
    pub fn offer(&mut self) -> (r: bool)
        ensures
            final(self).capacity() == old(self).capacity(),
            r == (old(self).pending() < old(self).capacity()),
            final(self).pending() == if r {
                old(self).pending() + 1
            } else {
                old(self).pending()
            },
    {
        proof {
            use_type_invariant(&*self);
        }
        if self.pending < self.capacity {
            self.pending = self.pending + 1;
            true
        } else {
            false
        }
    }

    /// Takes a request out. Gives `false` where none waits.
    pub fn take(&mut self) -> (r: bool)
        ensures
            final(self).capacity() == old(self).capacity(),
            r == (old(self).pending() > 0),
            final(self).pending() == if r {
                (old(self).pending() - 1) as nat
            } else {
                old(self).pending()
            },
    {
        proof {
            use_type_invariant(&*self);
        }
        if self.pending > 0 {
            self.pending = self.pending - 1;
            true
        } else {
            false
        }
    }

    /// Whether a request waits.
    pub fn is_pending(&self) -> (r: bool)
        ensures
            r == (self.pending() > 0),
    {
        self.pending > 0
    }
}

/// What the main loop does next.
#[derive(Debug, Clone, Copy, PartialEq, Eq, Structural)]
pub enum Step {
    /// Apply the changed configuration.
    Reload,
    /// Refresh the widgets and draw.
    Tick,
    /// Nothing is ready.
    Wait,
}

/// The step that is taken when a reload request waits, the ticker has
/// fired, both or neither. A waiting reload goes first, so that a changed
/// configuration shows on the very next frame.
pub open spec fn next_step(reload_pending: bool, tick_due: bool) -> Step {
    if reload_pending {
        Step::Reload
    } else if tick_due {
        Step::Tick
    } else {
        Step::Wait
    }
}

/// Decides the main loop's next step.
pub fn arbitrate(reload_pending: bool, tick_due: bool) -> (r: Step)
    ensures
        r == next_step(reload_pending, tick_due),
{
    if reload_pending {
        Step::Reload
    } else if tick_due {
        Step::Tick
    } else {
        Step::Wait
    }
}

/// A key of the keyboard, as far as the bar tells keys apart.
#[derive(Debug, Clone, Copy, PartialEq, Eq, Structural)]
pub enum Key {
    Esc,
    Char(char),
    Other,
}

/// Whether a key press ends the bar: escape or `q` with any modifiers, or
/// `c` in either case with exactly the control key held.
pub open spec fn quits(key: Key, only_control: bool) -> bool {
    key == Key::Esc || key == Key::Char('q') || (only_control && (key == Key::Char('c') || key == Key::Char('C')))
}

/// Whether a key press ends the bar.
pub fn is_quit_key(key: Key, only_control: bool) -> (r: bool)
    ensures
        r == quits(key, only_control),
{
    match key {
        Key::Esc => true,
        Key::Char(c) => c == 'q' || (only_control && (c == 'c' || c == 'C')),
        Key::Other => false,
    }
}

} // verus!
