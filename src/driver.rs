//! The lifecycle driver: the decisions of the consumer loop as a state
//! machine. The caller performs each returned action (opening channels,
//! registering them with the readiness multiplexer, waiting, draining,
//! forwarding to the log) and hands the outcome back as the next event.
use vstd::prelude::*;
use crate::record::{decode_frames, records_of};
use crate::registry::ChannelError;

verus! {

/// How long one wait for readiness may block, in milliseconds.
pub const WAIT_TIMEOUT_MS: u64 = 100;

/// Capacity of the scratch buffer that one frame is drained into, in bytes.
pub const FRAME_CAPACITY: usize = 1024;

/// Failure of the readiness multiplexer itself.
#[derive(Debug, Clone, Copy, PartialEq, Eq, Structural)]
pub enum FatalError {
    Poll,
}

/// Where the driver stands.
#[derive(Debug, Clone, Copy, PartialEq, Eq, Structural)]
pub enum Phase {
    /// Nothing has happened yet.
    Idle,
    /// Channels are being opened and registered.
    Registering,
    /// Waiting for channels to become readable.
    Polling,
    /// Draining the channels of one wait result.
    Draining,
    /// Setup or a drain failed; the process is to exit.
    Aborted,
    /// The multiplexer failed; the process is to exit.
    Fatal,
}

/// What the caller reports back after performing an action.
#[derive(Debug, PartialEq, Eq)]
pub enum Event {
    /// The process has started.
    Started,
    /// The channels were opened: their number, or why they were not.
    Opened(Result<usize, ChannelError>),
    /// The channel of the last `Register` action was registered, or not.
    Registered(Result<(), ChannelError>),
    /// A wait returned the tokens of the ready channels, or failed.
    Woke(Result<Vec<usize>, FatalError>),
    /// The channel of the last `Drain` action yielded these frames, in the
    /// order they were written, or could not be read.
    Drained(Result<Vec<Vec<u8>>, ChannelError>),
    /// The records of the last `Forward` action were handed to the log.
    Forwarded,
}

/// What the caller is to do next.
#[derive(Debug, PartialEq, Eq)]
pub enum Action {
    /// Open one channel per processing unit.
    OpenChannels,
    /// Register the channel of this token for readable events.
    Register(usize),
    /// Wait for readiness for at most this many milliseconds.
    Wait(u64),
    /// Drain the channel of this token.
    Drain(usize),
    /// Log each of these records, in order, at informational severity.
    Forward(Vec<String>),
    /// Log this failure at critical severity and exit non-zero.
    Abort(ChannelError),
    /// Log this failure once at critical severity and terminate.
    Critical(FatalError),
    /// Nothing: the event did not fit the current phase, or the driver has
    /// stopped.
    Nothing,
}

/// What a driver is, abstractly.
pub struct DriverView {
    pub phase: Phase,
    /// The number of channels, hence of tokens, once they are open.
    pub channels: nat,
    /// How many channels have been registered so far.
    pub registered: nat,
    /// Whether channels have been opened.
    pub opened: bool,
    /// Ready tokens still to be drained in this cycle, in order.
    pub pending: Seq<usize>,
    /// Whether a `Forward` action awaits its acknowledgement.
    pub forwarding: bool,
}

pub struct Driver {
    phase: Phase,
    channels: usize,
    registered: usize,
    opened: bool,
    pending: Vec<usize>,
    forwarding: bool,
}

impl View for Driver {
    type V = DriverView;

    closed spec fn view(&self) -> DriverView {
        DriverView {
            phase: self.phase,
            channels: self.channels as nat,
            registered: self.registered as nat,
            opened: self.opened,
            pending: self.pending@,
            forwarding: self.forwarding,
        }
    }
}

/// The tokens of `ready` that name one of `channels` channels, in order.
pub open spec fn known_tokens(ready: Seq<usize>, channels: nat) -> Seq<usize> {
    ready.filter(|t: usize| t < channels)
}

impl DriverView {
    /// The driver's own consistency: counters in range, pending tokens
    /// known, and the phase agreeing with the bookkeeping.
    pub open spec fn wf(self) -> bool {
        &&& self.registered <= self.channels
        &&& forall|i: int| 0 <= i < self.pending.len() ==> self.pending[i] < self.channels
        &&& (self.phase == Phase::Idle ==> !self.opened)
        &&& (self.phase == Phase::Idle || self.phase == Phase::Registering ==> self.pending.len()
            == 0)
        &&& (self.phase == Phase::Polling ==> self.opened && self.registered == self.channels
            && self.pending.len() == 0 && !self.forwarding)
        &&& (self.phase == Phase::Draining ==> self.opened && self.registered == self.channels
            && (self.pending.len() > 0 || self.forwarding))
        &&& (self.phase != Phase::Draining ==> !self.forwarding)
    }
}

impl Driver {
    /// A driver that has not started.
    pub fn new() -> (r: Driver)
        ensures
            r@.wf(),
            r@.phase == Phase::Idle,
            r@.channels == 0,
            r@.registered == 0,
            !r@.opened,
            r@.pending.len() == 0,
            !r@.forwarding,
    {
        Driver {
            phase: Phase::Idle,
            channels: 0,
            registered: 0,
            opened: false,
            pending: Vec::new(),
            forwarding: false,
        }
    }

    /// The current phase.
    pub fn phase(&self) -> (r: Phase)
        ensures
            r == self@.phase,
    {
        self.phase
    }

    /// The tokens of `ready` that name a registered channel, in order.
    fn keep_known(&self, ready: &Vec<usize>) -> (r: Vec<usize>)
        ensures
            r@ == known_tokens(ready@, self@.channels),
    {
        let mut r: Vec<usize> = Vec::new();
        let mut i: usize = 0;
        while i < ready.len()
            invariant
                i <= ready@.len(),
                r@ == known_tokens(ready@.subrange(0, i as int), self@.channels),
            decreases ready@.len() - i,
        {
            let ghost seen = ready@.subrange(0, i as int);
            assert(ready@.subrange(0, i + 1).drop_last() =~= seen);
            reveal(Seq::filter);
            if ready[i] < self.channels {
                r.push(ready[i]);
            }
            i = i + 1;
        }
        assert(ready@.subrange(0, ready@.len() as int) =~= ready@);
        r
    }

    /// Drains the next pending token, or goes back to waiting when none is
    /// left.
    fn resume(&mut self) -> (r: Action)
        requires
            old(self)@.opened,
            old(self)@.registered == old(self)@.channels,
            !old(self)@.forwarding,
            forall|i: int|
                0 <= i < old(self)@.pending.len() ==> old(self)@.pending[i] < old(self)@.channels,
        ensures
            final(self)@.wf(),
            old(self)@.pending.len() == 0 ==> final(self)@ == (DriverView {
                phase: Phase::Polling,
                ..old(self)@
            }) && r == Action::Wait(WAIT_TIMEOUT_MS),
            old(self)@.pending.len() > 0 ==> final(self)@ == (DriverView {
                phase: Phase::Draining,
                ..old(self)@
            }) && r == Action::Drain(old(self)@.pending[0]),
    {
        if self.pending.len() == 0 {
            self.phase = Phase::Polling;
            Action::Wait(WAIT_TIMEOUT_MS)
        } else {
            self.phase = Phase::Draining;
            Action::Drain(self.pending[0])
        }
    }

    /// Takes one event and returns the next action.
    ///
    /// Once the driver has stopped (`Aborted` or `Fatal`) every event is
    /// answered with `Nothing`; an event that does not fit the phase leaves
    /// the driver unchanged and is answered with `Nothing` too.
    pub fn step(&mut self, event: Event) -> (r: Action)
        requires
            old(self)@.wf(),
        ensures
            final(self)@.wf(),
            (old(self)@.phase == Phase::Aborted || old(self)@.phase == Phase::Fatal) ==> (
            final(self)@ == old(self)@ && r == Action::Nothing),
            r is Critical ==> old(self)@.phase == Phase::Polling && final(self)@.phase
                == Phase::Fatal,
            r is Nothing ==> final(self)@ == old(self)@,
            match event {
                Event::Started => if (old(self)@.phase == Phase::Idle) {
                    final(self)@ == (DriverView { phase: Phase::Registering, ..old(self)@ })
                        && r == Action::OpenChannels
                } else {
                    r == Action::Nothing
                },
                Event::Opened(res) => if (old(self)@.phase == Phase::Registering
                    && !old(self)@.opened) {
                    match res {
                        Err(e) => final(self)@ == (DriverView {
                            phase: Phase::Aborted,
                            ..old(self)@
                        }) && r == Action::Abort(e),
                        Ok(n) => {
                            &&& final(self)@.opened
                            &&& final(self)@.channels == n
                            &&& final(self)@.registered == 0
                            &&& final(self)@.pending == old(self)@.pending
                            &&& !final(self)@.forwarding
                            &&& n == 0 ==> final(self)@.phase == Phase::Polling && r
                                == Action::Wait(WAIT_TIMEOUT_MS)
                            &&& n > 0 ==> final(self)@.phase == Phase::Registering && r
                                == Action::Register(0)
                        },
                    }
                } else {
                    r == Action::Nothing
                },
                Event::Registered(res) => if (old(self)@.phase == Phase::Registering
                    && old(self)@.opened && old(self)@.registered < old(self)@.channels) {
                    match res {
                        Err(e) => final(self)@ == (DriverView {
                            phase: Phase::Aborted,
                            ..old(self)@
                        }) && r == Action::Abort(e),
                        Ok(_) => {
                            let done = old(self)@.registered + 1;
                            &&& final(self)@ == (DriverView {
                                phase: final(self)@.phase,
                                registered: done,
                                ..old(self)@
                            })
                            &&& done == old(self)@.channels ==> final(self)@.phase
                                == Phase::Polling && r == Action::Wait(WAIT_TIMEOUT_MS)
                            &&& done < old(self)@.channels ==> final(self)@.phase
                                == Phase::Registering && r == Action::Register(done as usize)
                        },
                    }
                } else {
                    r == Action::Nothing
                },
                Event::Woke(res) => if (old(self)@.phase == Phase::Polling) {
                    match res {
                        Err(e) => final(self)@ == (DriverView {
                            phase: Phase::Fatal,
                            ..old(self)@
                        }) && r == Action::Critical(e),
                        Ok(ready) => {
                            let due = known_tokens(ready@, old(self)@.channels);
                            &&& due.len() == 0 ==> final(self)@ == old(self)@ && r
                                == Action::Wait(WAIT_TIMEOUT_MS)
                            &&& due.len() > 0 ==> final(self)@ == (DriverView {
                                phase: Phase::Draining,
                                pending: due,
                                ..old(self)@
                            }) && r == Action::Drain(due[0])
                        },
                    }
                } else {
                    r == Action::Nothing
                },
                Event::Drained(res) => if (old(self)@.phase == Phase::Draining
                    && !old(self)@.forwarding) {
                    match res {
                        Err(e) => final(self)@ == (DriverView {
                            phase: Phase::Aborted,
                            ..old(self)@
                        }) && r == Action::Abort(e),
                        Ok(frames) => {
                            &&& final(self)@ == (DriverView {
                                pending: old(self)@.pending.drop_first(),
                                forwarding: true,
                                ..old(self)@
                            })
                            &&& r matches Action::Forward(records) && records.deep_view()
                                == records_of(frames.deep_view())
                        },
                    }
                } else {
                    r == Action::Nothing
                },
                Event::Forwarded => if (old(self)@.phase == Phase::Draining
                    && old(self)@.forwarding) {
                    &&& old(self)@.pending.len() == 0 ==> final(self)@ == (DriverView {
                        phase: Phase::Polling,
                        forwarding: false,
                        ..old(self)@
                    }) && r == Action::Wait(WAIT_TIMEOUT_MS)
                    &&& old(self)@.pending.len() > 0 ==> final(self)@ == (DriverView {
                        forwarding: false,
                        ..old(self)@
                    }) && r == Action::Drain(old(self)@.pending[0])
                } else {
                    r == Action::Nothing
                },
            },
    {
        match event {
            Event::Started => {
                if self.phase == Phase::Idle {
                    self.phase = Phase::Registering;
                    Action::OpenChannels
                } else {
                    Action::Nothing
                }
            },
            Event::Opened(res) => {
                if self.phase == Phase::Registering && !self.opened {
                    match res {
                        Err(e) => {
                            self.phase = Phase::Aborted;
                            Action::Abort(e)
                        },
                        Ok(n) => {
                            self.opened = true;
                            self.channels = n;
                            self.registered = 0;
                            if n == 0 {
                                self.phase = Phase::Polling;
                                Action::Wait(WAIT_TIMEOUT_MS)
                            } else {
                                Action::Register(0)
                            }
                        },
                    }
                } else {
                    Action::Nothing
                }
            },
            Event::Registered(res) => {
                if self.phase == Phase::Registering && self.opened && self.registered
                    < self.channels {
                    match res {
                        Err(e) => {
                            self.phase = Phase::Aborted;
                            Action::Abort(e)
                        },
                        Ok(_) => {
                            self.registered = self.registered + 1;
                            if self.registered == self.channels {
                                self.phase = Phase::Polling;
                                Action::Wait(WAIT_TIMEOUT_MS)
                            } else {
                                Action::Register(self.registered)
                            }
                        },
                    }
                } else {
                    Action::Nothing
                }
            },
            Event::Woke(res) => {
                if self.phase == Phase::Polling {
                    match res {
                        Err(e) => {
                            self.phase = Phase::Fatal;
                            Action::Critical(e)
                        },
                        Ok(ready) => {
                            let due = self.keep_known(&ready);
                            proof {
                                broadcast use vstd::seq_lib::group_filter_ensures;

                                assert(due@.len() == 0 ==> due@ =~= self.pending@);
                            }
                            self.pending = due;
                            self.resume()
                        },
                    }
                } else {
                    Action::Nothing
                }
            },
            Event::Drained(res) => {
                if self.phase == Phase::Draining && !self.forwarding {
                    match res {
                        Err(e) => {
                            self.phase = Phase::Aborted;
                            Action::Abort(e)
                        },
                        Ok(frames) => {
                            let records = decode_frames(&frames);
                            self.pending.remove(0);
                            assert(self.pending@ =~= old(self)@.pending.drop_first());
                            self.forwarding = true;
                            Action::Forward(records)
                        },
                    }
                } else {
                    Action::Nothing
                }
            },
            Event::Forwarded => {
                if self.phase == Phase::Draining && self.forwarding {
                    self.forwarding = false;
                    self.resume()
                } else {
                    Action::Nothing
                }
            },
        }
    }
}

} // verus!
