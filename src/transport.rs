//! The transport's decisions as a state machine. The caller performs each
//! action (a probe, opening the stream, reading it, a wait, a poll) and
//! reports how it went; the machine answers with the next action. Discovery
//! probes the candidate ports in order; the stream is preferred and polling
//! is the fallback; a failed poll re-probes the other candidates first; an
//! ended stream is followed by a cooldown and a fresh discovery.

use vstd::prelude::*;

verus! {

/// How a performed action went.
#[derive(Clone, Copy, Debug, PartialEq, Eq, Structural)]
pub enum Outcome {
    /// The request was answered with a success status (and, for a poll, a
    /// JSON body).
    Success,
    /// The request was answered, but not with success.
    Failure,
    /// The request could not be made: no connection, a timeout.
    Unreachable,
    /// A wait elapsed, or a stream came to its end.
    Done,
}

/// What the caller is to do next.
#[derive(Clone, Copy, Debug, PartialEq, Eq, Structural)]
pub enum Action {
    /// Request the status endpoint on this port, to see whether it answers.
    Probe(u16),
    /// Open the streaming endpoint on this port.
    OpenStream(u16),
    /// Read the open stream to its end, decoding and reconciling its records.
    ReadStream,
    /// Sleep this many milliseconds.
    Wait(u64),
    /// Request the status endpoint on this port and reconcile its JSON body.
    Poll(u16),
}

/// Where the transport stands.
#[derive(Clone, Copy, Debug, PartialEq, Eq, Structural)]
pub enum Phase {
    /// Probing the candidate at this index.
    Discovering(usize),
    /// Opening the stream on the current port.
    Opening,
    /// Reading the stream.
    Streaming,
    /// Waiting before a new discovery.
    Cooldown,
    /// Waiting before the next poll.
    PollWait,
    /// Polling the current port.
    Polling,
    /// Probing the candidate at this index after a failed poll.
    Failover(usize),
}

pub struct TransportView {
    pub ports: Seq<u16>,
    pub fallback: u16,
    pub poll_ms: u64,
    pub cooldown_ms: u64,
    pub current: u16,
    pub phase: Phase,
}

/// The transport's state.
pub struct Transport {
    ports: Vec<u16>,
    fallback: u16,
    poll_ms: u64,
    cooldown_ms: u64,
    current: u16,
    phase: Phase,
}

impl View for Transport {
    type V = TransportView;

    closed spec fn view(&self) -> TransportView {
        TransportView {
            ports: self.ports@,
            fallback: self.fallback,
            poll_ms: self.poll_ms,
            cooldown_ms: self.cooldown_ms,
            current: self.current,
            phase: self.phase,
        }
    }
}

/// The phase's index, if any, names a candidate.
pub open spec fn transport_ok(t: TransportView) -> bool {
    match t.phase {
        Phase::Discovering(i) => i < t.ports.len(),
        Phase::Failover(i) => i < t.ports.len(),
        _ => true,
    }
}

/// The first candidate at or after `from` other than `port`.
pub open spec fn next_other(ports: Seq<u16>, port: u16, from: int) -> Option<int>
    decreases ports.len() - from,
{
    if from < 0 || from >= ports.len() {
        None
    } else if ports[from] != port {
        Some(from)
    } else {
        next_other(ports, port, from + 1)
    }
}

/// A fresh discovery: probe the first candidate, or open the stream on the
/// fallback port when there is none.
pub open spec fn restarted(t: TransportView) -> (TransportView, Action) {
    if t.ports.len() == 0 {
        (
            TransportView { current: t.fallback, phase: Phase::Opening, ..t },
            Action::OpenStream(t.fallback),
        )
    } else {
        (TransportView { phase: Phase::Discovering(0), ..t }, Action::Probe(t.ports[0]))
    }
}

/// Wait, then poll the current port.
pub open spec fn poll_later(t: TransportView) -> (TransportView, Action) {
    (TransportView { phase: Phase::PollWait, ..t }, Action::Wait(t.poll_ms))
}

/// Probe the candidate at `next` in failover, or go back to polling when
/// there is none left.
pub open spec fn fail_over(t: TransportView, next: Option<int>) -> (TransportView, Action) {
    match next {
        Some(j) => (
            TransportView { phase: Phase::Failover(j as usize), ..t },
            Action::Probe(t.ports[j]),
        ),
        None => poll_later(t),
    }
}

/// The next state and action after `o`, the outcome of the last action.
pub open spec fn stepped(t: TransportView, o: Outcome) -> (TransportView, Action) {
    match t.phase {
        Phase::Discovering(i) => if o == Outcome::Success {
            (
                TransportView { current: t.ports[i as int], phase: Phase::Opening, ..t },
                Action::OpenStream(t.ports[i as int]),
            )
        } else if i + 1 < t.ports.len() {
            (
                TransportView { phase: Phase::Discovering((i + 1) as usize), ..t },
                Action::Probe(t.ports[i + 1]),
            )
        } else {
            (
                TransportView { current: t.fallback, phase: Phase::Opening, ..t },
                Action::OpenStream(t.fallback),
            )
        },
        Phase::Opening => if o == Outcome::Success {
            (TransportView { phase: Phase::Streaming, ..t }, Action::ReadStream)
        } else {
            poll_later(t)
        },
        Phase::Streaming => (
            TransportView { phase: Phase::Cooldown, ..t },
            Action::Wait(t.cooldown_ms),
        ),
        Phase::Cooldown => restarted(t),
        Phase::PollWait => (TransportView { phase: Phase::Polling, ..t }, Action::Poll(t.current)),
        Phase::Polling => if o == Outcome::Unreachable {
            fail_over(t, next_other(t.ports, t.current, 0))
        } else {
            poll_later(t)
        },
        Phase::Failover(j) => if o == Outcome::Success {
            poll_later(TransportView { current: t.ports[j as int], ..t })
        } else {
            fail_over(t, next_other(t.ports, t.current, j + 1))
        },
    }
}

fn next_other_exec(ports: &Vec<u16>, port: u16, from: usize) -> (r: Option<usize>)
    ensures
        match r {
            Some(j) => next_other(ports@, port, from as int) == Some(j as int) && j
                < ports@.len(),
            None => next_other(ports@, port, from as int) is None,
        },
{
    let mut k: usize = from;
    while k < ports.len()
        invariant
            from <= k,
            next_other(ports@, port, from as int) == next_other(ports@, port, k as int),
        decreases ports.len() - k,
    {
        if ports[k] != port {
            return Some(k);
        }
        k = k + 1;
    }
    None
}

impl Transport {
    #[verifier::type_invariant]
    closed spec fn inv(self) -> bool {
        transport_ok(self@)
    }

    /// A transport over the candidate ports, in order of preference, with the
    /// port to use when none answers, the polling interval and the cooldown
    /// after a stream ends. It starts waiting for [`Transport::start`].
    pub fn new(ports: Vec<u16>, fallback: u16, poll_ms: u64, cooldown_ms: u64) -> (r: Transport)
        ensures
            r@ == (TransportView {
                ports: ports@,
                fallback,
                poll_ms,
                cooldown_ms,
                current: fallback,
                phase: Phase::Cooldown,
            }),
            transport_ok(r@),
    {
        Transport { ports, fallback, poll_ms, cooldown_ms, current: fallback, phase: Phase::Cooldown }
    }

    pub fn current_port(&self) -> (r: u16)
        ensures
            r == self@.current,
    {
        self.current
    }

    pub fn phase(&self) -> (r: Phase)
        ensures
            r == self@.phase,
    {
        self.phase
    }

    /// Begins a discovery from scratch.
    pub fn start(&mut self) -> (r: Action)
        ensures
            (final(self)@, r) == restarted(old(self)@),
            transport_ok(final(self)@),
    {
        proof {
            use_type_invariant(&*self);
        }
        if self.ports.len() == 0 {
            self.current = self.fallback;
            self.phase = Phase::Opening;
            Action::OpenStream(self.fallback)
        } else {
            self.phase = Phase::Discovering(0);
            Action::Probe(self.ports[0])
        }
    }

    fn poll_later_exec(&mut self) -> (r: Action)
        ensures
            (final(self)@, r) == poll_later(old(self)@),
    {
        self.phase = Phase::PollWait;
        Action::Wait(self.poll_ms)
    }

    /// Takes the outcome of the last action and returns the next one.
    pub fn step(&mut self, o: Outcome) -> (r: Action)
        ensures
            (final(self)@, r) == stepped(old(self)@, o),
            transport_ok(final(self)@),
    {
        proof {
            use_type_invariant(&*self);
        }
        let n = self.ports.len();
        match self.phase {
            Phase::Discovering(i) => {
                if o == Outcome::Success {
                    let p = self.ports[i];
                    self.current = p;
                    self.phase = Phase::Opening;
                    Action::OpenStream(p)
                } else if i + 1 < n {
                    self.phase = Phase::Discovering(i + 1);
                    Action::Probe(self.ports[i + 1])
                } else {
                    self.current = self.fallback;
                    self.phase = Phase::Opening;
                    Action::OpenStream(self.fallback)
                }
            },
            Phase::Opening => {
                if o == Outcome::Success {
                    self.phase = Phase::Streaming;
                    Action::ReadStream
                } else {
                    self.poll_later_exec()
                }
            },
            Phase::Streaming => {
                self.phase = Phase::Cooldown;
                Action::Wait(self.cooldown_ms)
            },
            Phase::Cooldown => self.start(),
            Phase::PollWait => {
                self.phase = Phase::Polling;
                Action::Poll(self.current)
            },
            Phase::Polling => {
                if o == Outcome::Unreachable {
                    match next_other_exec(&self.ports, self.current, 0) {
                        Some(j) => {
                            self.phase = Phase::Failover(j);
                            Action::Probe(self.ports[j])
                        },
                        None => self.poll_later_exec(),
                    }
                } else {
                    self.poll_later_exec()
                }
            },
            Phase::Failover(j) => {
                if o == Outcome::Success {
                    self.current = self.ports[j];
                    self.poll_later_exec()
                } else {
                    match next_other_exec(&self.ports, self.current, j + 1) {
                        Some(k) => {
                            self.phase = Phase::Failover(k);
                            Action::Probe(self.ports[k])
                        },
                        None => self.poll_later_exec(),
                    }
                }
            },
        }
    }
}

} // verus!
