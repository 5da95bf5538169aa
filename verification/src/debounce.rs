//! The debounced watcher model: bursts of filesystem events are coalesced
//! into a single rebuild signal.
//!
//! Create, modify, and remove events under the watched root arm the
//! debouncer; everything else is ignored. The first relevant event of a
//! burst sets a deadline one quiescence window later, further events within
//! the window change nothing, and the signal fires once when the deadline is
//! polled past — so a burst of any size yields exactly one signal, while
//! events spaced beyond the window each yield their own.

use vstd::prelude::*;

verus! {

/// The kinds of filesystem notifications the watcher reports.
#[derive(Clone, Copy, PartialEq, Eq, Structural, Debug)]
pub enum FsEventKind {
    /// A file or directory was created.
    Create,
    /// A file or directory was modified.
    Modify,
    /// A file or directory was removed.
    Remove,
    /// Any other notification (access, metadata, unknown).
    Other,
}

/// Whether an event kind triggers a rebuild.
pub open spec fn is_relevant_spec(k: FsEventKind) -> bool {
    k == FsEventKind::Create || k == FsEventKind::Modify || k == FsEventKind::Remove
}

/// Decides whether an event kind triggers a rebuild.
pub fn is_relevant(k: FsEventKind) -> (r: bool)
    ensures
        r == is_relevant_spec(k),
{
    match k {
        FsEventKind::Create => true,
        FsEventKind::Modify => true,
        FsEventKind::Remove => true,
        FsEventKind::Other => false,
    }
}

/// The debouncer's state, at the specification level. Times are abstract
/// instants in milliseconds.
pub struct DebState {
    /// A burst is pending: a signal will fire once the deadline is polled.
    pub pending: bool,
    /// The instant from which a poll fires the pending signal.
    pub deadline: int,
}

/// A relevant event at instant `t` arms an idle debouncer with a deadline
/// one window later; everything else changes nothing.
pub open spec fn deb_on_event(s: DebState, window: int, t: int, k: FsEventKind) -> DebState {
    if is_relevant_spec(k) && !s.pending {
        DebState { pending: true, deadline: t + window }
    } else {
        s
    }
}

/// A poll at instant `t`: fires (second component 1) and disarms when a
/// pending deadline has been reached; otherwise nothing happens.
pub open spec fn deb_on_poll(s: DebState, t: int) -> (DebState, int) {
    if s.pending && t >= s.deadline {
        (DebState { pending: false, deadline: s.deadline }, 1)
    } else {
        (s, 0)
    }
}

/// Feeds a sequence of relevant events at the given instants, with no poll
/// in between.
pub open spec fn deb_feed(s: DebState, window: int, times: Seq<int>) -> DebState
    decreases times.len(),
{
    if times.len() == 0 {
        s
    } else {
        deb_feed(deb_on_event(s, window, times[0], FsEventKind::Modify), window, times.skip(1))
    }
}

/// Feeds each event at its instant and polls one window after it; the
/// second component counts the signals fired.
pub open spec fn deb_cycles(s: DebState, window: int, times: Seq<int>) -> (DebState, int)
    decreases times.len(),
{
    if times.len() == 0 {
        (s, 0)
    } else {
        let armed = deb_on_event(s, window, times[0], FsEventKind::Modify);
        let polled = deb_on_poll(armed, times[0] + window);
        let rest = deb_cycles(polled.0, window, times.skip(1));
        (rest.0, polled.1 + rest.1)
    }
}

/// Coalescing: any number of relevant events falling within one quiescence
/// window of the first, delivered to an idle debouncer, arm exactly one
/// pending signal with the deadline one window after the first event; the
/// first poll at or past that deadline fires exactly once and disarms, so
/// the burst yields one rebuild signal, not one per event.
pub proof fn lemma_debounce_coalesces(s: DebState, window: int, times: Seq<int>)
    requires
        !s.pending,
        times.len() >= 1,
        forall|i: int| 0 <= i < times.len() ==> times[0] <= #[trigger] times[i] < times[0] + window,
    ensures
        deb_feed(s, window, times).pending,
        deb_feed(s, window, times).deadline == times[0] + window,
        forall|t: int|
            t >= times[0] + window ==> deb_on_poll(deb_feed(s, window, times), t).1 == 1
                && !deb_on_poll(deb_feed(s, window, times), t).0.pending,
{
    let armed = deb_on_event(s, window, times[0], FsEventKind::Modify);
    assert(armed.pending && armed.deadline == times[0] + window);
    lemma_feed_keeps_armed(armed, window, times.skip(1));
}

/// Further events never change an armed debouncer.
proof fn lemma_feed_keeps_armed(s: DebState, window: int, times: Seq<int>)
    requires
        s.pending,
    ensures
        deb_feed(s, window, times) == s,
    decreases times.len(),
{
    if times.len() == 0 {
    } else {
        assert(deb_on_event(s, window, times[0], FsEventKind::Modify) == s);
        lemma_feed_keeps_armed(s, window, times.skip(1));
    }
}

/// Separation: events each followed by a poll one window later (so each
/// burst is over before the next event arrives) fire one signal per event.
pub proof fn lemma_debounce_spaced(s: DebState, window: int, times: Seq<int>)
    requires
        !s.pending,
    ensures
        deb_cycles(s, window, times).1 == times.len(),
        !deb_cycles(s, window, times).0.pending,
    decreases times.len(),
{
    if times.len() == 0 {
    } else {
        let armed = deb_on_event(s, window, times[0], FsEventKind::Modify);
        let polled = deb_on_poll(armed, times[0] + window);
        assert(polled.1 == 1 && !polled.0.pending);
        lemma_debounce_spaced(polled.0, window, times.skip(1));
    }
}

/// The running debouncer: a fixed quiescence window over instant values in
/// milliseconds.
pub struct Debouncer {
    /// The quiescence window, in milliseconds.
    pub window: u64,
    /// A burst is pending.
    pub pending: bool,
    /// The instant from which a poll fires, meaningful while pending.
    pub deadline: u64,
}

impl Debouncer {
    /// This debouncer's state, at the specification level.
    pub open spec fn state(self) -> DebState {
        DebState { pending: self.pending, deadline: self.deadline as int }
    }

    /// An idle debouncer with the given quiescence window.
    pub fn new(window: u64) -> (r: Debouncer)
        ensures
            r.window == window,
            !r.pending,
    {
        Debouncer { window, pending: false, deadline: 0 }
    }

    /// Reports one filesystem event at instant `now`.
    pub fn on_event(&mut self, kind: FsEventKind, now: u64)
        requires
            now + old(self).window <= u64::MAX,
        ensures
            final(self).window == old(self).window,
            final(self).state() == deb_on_event(
                old(self).state(),
                old(self).window as int,
                now as int,
                kind,
            ),
    {
        if is_relevant(kind) && !self.pending {
            self.pending = true;
            self.deadline = now + self.window;
        }
    }

    /// Polls at instant `now`: reports whether the coalesced rebuild signal
    /// fires.
    pub fn poll(&mut self, now: u64) -> (fire: bool)
        ensures
            final(self).window == old(self).window,
            fire == (deb_on_poll(old(self).state(), now as int).1 == 1),
            final(self).state() == deb_on_poll(old(self).state(), now as int).0,
    {
        if self.pending && now >= self.deadline {
            self.pending = false;
            true
        } else {
            false
        }
    }
}

} // verus!
