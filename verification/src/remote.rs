//! The input side of a remote session: raw bytes and window-size changes
//! as the transport delivers them, turned into session events, and the
//! decisions of a wait for the next event. Waiting on the transport and
//! probing for data changes are the host's part.

use vstd::prelude::*;

use std::collections::VecDeque;

use crate::input::{Parser, key_events, parse_all, plain};
use crate::keys::{KeyCode, KeyEvent};
use crate::session::SessionEvent;

verus! {

/// Input as the transport delivers it: raw terminal bytes plus out-of-band
/// resizes.
#[derive(Debug, Clone)]
pub enum RemoteInput {
    Bytes(Vec<u8>),
    Resize(u16, u16),
}

/// A terminal dimension as the session uses it: never zero.
pub open spec fn at_least_one(d: u16) -> u16 {
    if d == 0 {
        1
    } else {
        d
    }
}

/// Where a wait for the next event stands.
#[derive(Debug, Clone, Copy, PartialEq, Eq, Structural)]
pub enum WaitPhase {
    /// Nothing asked yet: a pending data change comes before anything.
    Fresh,
    /// Waiting on the transport.
    Listening,
    /// The wait ran out with nothing to deliver: one last look for a data
    /// change before the tick.
    Idle,
}

/// What the host does next in a wait.
#[derive(Debug, Clone, Copy)]
pub enum WaitAction {
    /// Ask the data-change probe, and report its answer.
    ProbeDirty,
    /// Wait on the transport until the deadline, and report what came.
    Listen,
    /// The wait is over with this event.
    Deliver(SessionEvent),
}

/// What the host reports back.
#[derive(Debug, Clone)]
pub enum WaitEvent {
    /// The probe's answer: did the data change?
    Probed(bool),
    /// The transport delivered this.
    Received(RemoteInput),
    /// The deadline passed with nothing delivered.
    TimedOut,
}

/// The parser, the queue of a remote session's events, and where the
/// current wait stands.
#[derive(Debug, Clone)]
pub struct ChannelCore {
    parser: Parser,
    queue: VecDeque<SessionEvent>,
    phase: WaitPhase,
}

impl ChannelCore {
    /// The events waiting, oldest first.
    pub closed spec fn queued(&self) -> Seq<SessionEvent> {
        self.queue@
    }

    /// The bytes the parser holds back.
    pub closed spec fn pending(&self) -> Seq<u8> {
        self.parser@
    }

    /// Where the current wait stands.
    pub closed spec fn phase(&self) -> WaitPhase {
        self.phase
    }

    pub fn new() -> (r: Self)
        ensures
            r.queued().len() == 0,
            r.pending().len() == 0,
    {
        ChannelCore { parser: Parser::new(), queue: VecDeque::new(), phase: WaitPhase::Fresh }
    }

    /// The oldest queued event, if any.
    pub fn pop_queued(&mut self) -> (r: Option<SessionEvent>)
        ensures
            old(self).queued().len() > 0 ==> r == Some(old(self).queued()[0])
                && final(self).queued() == old(self).queued().drop_first(),
            old(self).queued().len() == 0 ==> r is None && final(self).queued().len() == 0,
            final(self).pending() == old(self).pending(),
            final(self).phase() == old(self).phase(),
    {
        let r = self.queue.pop_front();
        proof {
            if old(self).queue@.len() > 0 {
                assert(self.queue@ =~= old(self).queue@.drop_first());
            }
        }
        r
    }

    /// Takes one delivery: bytes queue their completed keys (and yield
    /// nothing yet, since a partial escape sequence may complete later); a
    /// resize yields the new size at once, each side at least one cell.
    pub fn receive(&mut self, input: RemoteInput) -> (r: Option<SessionEvent>)
        ensures
            match input {
                RemoteInput::Bytes(b) => {
                    &&& r is None
                    &&& final(self).queued() == old(self).queued() + key_events(
                        parse_all(old(self).pending() + b@).0,
                    )
                    &&& final(self).pending() == parse_all(old(self).pending() + b@).1
                },
                RemoteInput::Resize(w, h) => {
                    &&& r == Some(SessionEvent::Resize(at_least_one(w), at_least_one(h)))
                    &&& final(self).queued() == old(self).queued()
                    &&& final(self).pending() == old(self).pending()
                },
            },
            final(self).phase() == old(self).phase(),
    {
        match input {
            RemoteInput::Bytes(b) => {
                let keys = self.parser.feed(b.as_slice());
                let ghost start = self.queue@;
                let ghost after = self.parser;
                let ghost ph = self.phase;
                for i in 0..keys.len()
                    invariant
                        self.queue@ == start + key_events(keys@.take(i as int)),
                        self.parser == after,
                        self.phase == ph,
                {
                    self.queue.push_back(SessionEvent::Key(keys[i]));
                    proof {
                        assert(key_events(keys@.take(i + 1)) =~= key_events(
                            keys@.take(i as int),
                        ).push(SessionEvent::Key(keys@[i as int])));
                    }
                }
                proof {
                    assert(keys@.take(keys@.len() as int) =~= keys@);
                }
                None
            },
            RemoteInput::Resize(w, h) => {
                let w = if w == 0 {
                    1
                } else {
                    w
                };
                let h = if h == 0 {
                    1
                } else {
                    h
                };
                Some(SessionEvent::Resize(w, h))
            },
        }
    }

    /// On an idle wait: a buffered lone ESC is a real Esc press.
    pub fn flush_idle(&mut self) -> (r: Option<SessionEvent>)
        ensures
            old(self).pending() == seq![0x1bu8] ==> r == Some(SessionEvent::Key(plain(KeyCode::Esc)))
                && final(self).pending().len() == 0,
            old(self).pending() != seq![0x1bu8] ==> r is None && final(self).pending() == old(
                self,
            ).pending(),
            final(self).queued() == old(self).queued(),
            final(self).phase() == old(self).phase(),
    {
        match self.parser.flush() {
            Some(k) => Some(SessionEvent::Key(k)),
            None => None,
        }
    }

    /// Takes the oldest queued event if there is one (the wait is then
    /// over); otherwise keeps listening.
    fn deliver_or_listen(&mut self) -> (r: WaitAction)
        ensures
            old(self).queued().len() > 0 ==> r == WaitAction::Deliver(old(self).queued()[0])
                && final(self).queued() == old(self).queued().drop_first() && final(self).phase()
                == WaitPhase::Fresh,
            old(self).queued().len() == 0 ==> r == WaitAction::Listen && final(self).queued()
                == old(self).queued() && final(self).phase() == WaitPhase::Listening,
            final(self).pending() == old(self).pending(),
    {
        match self.pop_queued() {
            Some(ev) => {
                self.phase = WaitPhase::Fresh;
                WaitAction::Deliver(ev)
            },
            None => {
                self.phase = WaitPhase::Listening;
                proof {
                    assert(self.queue@ =~= old(self).queue@);
                }
                WaitAction::Listen
            },
        }
    }

    /// Begins a wait for the next event: a pending data change comes
    /// before anything queued, so the probe is asked first.
    pub fn start_wait(&mut self) -> (r: WaitAction)
        ensures
            r == WaitAction::ProbeDirty,
            final(self).phase() == WaitPhase::Fresh,
            final(self).queued() == old(self).queued(),
            final(self).pending() == old(self).pending(),
    {
        self.phase = WaitPhase::Fresh;
        WaitAction::ProbeDirty
    }

    /// One step of a wait. A changed store is answered with a refresh,
    /// before queued keys (which stay queued); otherwise queued events go
    /// first, then what the transport delivers (bytes queue their keys, a
    /// resize is answered at once). When the deadline passes, a buffered
    /// lone ESC is an Esc press; failing that the probe is asked once more,
    /// and an unchanged store means a tick.
    pub fn advance(&mut self, ev: WaitEvent) -> (r: WaitAction)
        ensures
            match ev {
                WaitEvent::Probed(true) => {
                    &&& r == WaitAction::Deliver(SessionEvent::Refresh)
                    &&& final(self).queued() == old(self).queued()
                    &&& final(self).pending() == old(self).pending()
                    &&& final(self).phase() == WaitPhase::Fresh
                },
                WaitEvent::Probed(false) => if old(self).phase() == WaitPhase::Idle {
                    &&& r == WaitAction::Deliver(SessionEvent::Tick)
                    &&& final(self).queued() == old(self).queued()
                    &&& final(self).pending() == old(self).pending()
                    &&& final(self).phase() == WaitPhase::Fresh
                } else {
                    &&& old(self).queued().len() > 0 ==> r == WaitAction::Deliver(old(self).queued()[0])
                        && final(self).queued() == old(self).queued().drop_first()
                        && final(self).phase() == WaitPhase::Fresh
                    &&& old(self).queued().len() == 0 ==> r == WaitAction::Listen
                        && final(self).queued() == old(self).queued()
                        && final(self).phase() == WaitPhase::Listening
                    &&& final(self).pending() == old(self).pending()
                },
                WaitEvent::Received(RemoteInput::Resize(w, h)) => {
                    &&& r == WaitAction::Deliver(SessionEvent::Resize(at_least_one(w), at_least_one(h)))
                    &&& final(self).queued() == old(self).queued()
                    &&& final(self).pending() == old(self).pending()
                    &&& final(self).phase() == WaitPhase::Fresh
                },
                WaitEvent::Received(RemoteInput::Bytes(b)) => {
                    let q = old(self).queued() + key_events(parse_all(old(self).pending() + b@).0);
                    &&& final(self).pending() == parse_all(old(self).pending() + b@).1
                    &&& q.len() > 0 ==> r == WaitAction::Deliver(q[0]) && final(self).queued() == q.drop_first()
                        && final(self).phase() == WaitPhase::Fresh
                    &&& q.len() == 0 ==> r == WaitAction::Listen && final(self).queued() == q
                        && final(self).phase() == WaitPhase::Listening
                },
                WaitEvent::TimedOut => if old(self).pending() == seq![0x1bu8] {
                    &&& r == WaitAction::Deliver(SessionEvent::Key(plain(KeyCode::Esc)))
                    &&& final(self).pending().len() == 0
                    &&& final(self).queued() == old(self).queued()
                    &&& final(self).phase() == WaitPhase::Fresh
                } else {
                    &&& r == WaitAction::ProbeDirty
                    &&& final(self).pending() == old(self).pending()
                    &&& final(self).queued() == old(self).queued()
                    &&& final(self).phase() == WaitPhase::Idle
                },
            },
    {
        match ev {
            WaitEvent::Probed(dirty) => {
                if dirty {
                    self.phase = WaitPhase::Fresh;
                    WaitAction::Deliver(SessionEvent::Refresh)
                } else {
                    let idle = match self.phase {
                        WaitPhase::Idle => true,
                        _ => false,
                    };
                    if idle {
                        self.phase = WaitPhase::Fresh;
                        WaitAction::Deliver(SessionEvent::Tick)
                    } else {
                        self.deliver_or_listen()
                    }
                }
            },
            WaitEvent::Received(input) => match self.receive(input) {
                Some(e) => {
                    self.phase = WaitPhase::Fresh;
                    WaitAction::Deliver(e)
                },
                None => self.deliver_or_listen(),
            },
            WaitEvent::TimedOut => match self.flush_idle() {
                Some(k) => {
                    self.phase = WaitPhase::Fresh;
                    WaitAction::Deliver(k)
                },
                None => {
                    self.phase = WaitPhase::Idle;
                    WaitAction::ProbeDirty
                },
            },
        }
    }
}

} // verus!
