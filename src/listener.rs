use crate::backoff::{backoff_delay, delay_after};
use crate::config::ServerConfig;
use crate::frame::{extract_payload, payload_of};
use vstd::prelude::*;

verus! {

/// Where a listener stands between two events.
#[derive(Clone, Copy, Debug, PartialEq, Eq, Structural)]
pub enum Phase {
    /// Not started.
    Idle,
    /// A connection attempt is in flight.
    Connecting,
    /// Connected; waiting for the next chunk of the stream.
    Streaming,
    /// A payload was handed out for decoding.
    Decoding,
    /// Waiting out the delay before the next attempt.
    Backoff,
    /// The stream ended cleanly.
    Done,
    /// Listening stopped on an error.
    Failed,
}

/// Why listening stopped.
#[derive(Clone, Copy, Debug, PartialEq, Eq, Structural)]
pub enum ListenError {
    /// The HTTP client could not be built.
    ClientBuild,
    /// Every allowed connection attempt failed.
    RetriesExhausted,
    /// Reading from an established stream failed.
    Stream,
}

/// What the outside world reports to a listener.
#[derive(Debug, PartialEq)]
pub enum Event {
    /// Listening begins.
    Start,
    /// The connection attempt succeeded with a success status.
    Connected,
    /// The connection attempt failed, or answered with a non-success status.
    ConnectFailed,
    /// A chunk of bytes arrived on the stream.
    Chunk(Vec<u8>),
    /// Reading the next chunk failed.
    ReadFailed,
    /// The stream ended without error.
    StreamEnded,
    /// The payload handed out was decoded into this configuration.
    Decoded(ServerConfig),
    /// The payload handed out could not be decoded.
    DecodeFailed,
    /// The backoff delay has passed.
    Slept,
}

/// What a listener asks the outside world to do next.
#[derive(Debug, PartialEq)]
pub enum Action {
    /// Open the stream; this is attempt number `.0`.
    Connect(u32),
    /// Read the next chunk of the stream.
    Read,
    /// Decode this payload as a configuration.
    Decode(String),
    /// Hand this configuration to the handler, then read the next chunk.
    Deliver(ServerConfig),
    /// Wait this many seconds.
    Sleep(u64),
    /// Stop listening with this result.
    Finish(Result<(), ListenError>),
}

/// The mathematical form of an `Action`.
pub enum ActionView {
    Connect(u32),
    Read,
    Decode(Seq<char>),
    Deliver(ServerConfig),
    Sleep(u64),
    Finish(Result<(), ListenError>),
}

impl View for Action {
    type V = ActionView;

    open spec fn view(&self) -> ActionView {
        match self {
            Action::Connect(n) => ActionView::Connect(*n),
            Action::Read => ActionView::Read,
            Action::Decode(p) => ActionView::Decode(p@),
            Action::Deliver(c) => ActionView::Deliver(*c),
            Action::Sleep(s) => ActionView::Sleep(*s),
            Action::Finish(r) => ActionView::Finish(*r),
        }
    }
}

/// The decisions of one listening session: when to connect, read, decode,
/// deliver, back off, and stop. The caller performs each action and reports
/// its outcome as the next event.
#[derive(Clone, Copy, Debug, PartialEq, Eq, Structural)]
pub struct Listener {
    /// Connection attempts made so far, the current one included.
    pub attempt: u32,
    /// The number of attempts after which a failed connect ends listening.
    pub max_retries: u32,
    /// Whether a read error on an established stream is retried like a
    /// failed connect, rather than ending listening.
    pub retry_on_stream_error: bool,
    /// Where the session stands.
    pub phase: Phase,
}

impl Listener {
    /// The listener's invariant.
    pub open spec fn wf(self) -> bool {
        &&& (self.phase == Phase::Idle <==> self.attempt == 0)
        &&& (self.phase == Phase::Backoff ==> self.attempt < self.max_retries)
    }

    /// Whether the listener, in its phase, waits for event `e`.
    pub open spec fn accepts(self, e: Event) -> bool {
        match self.phase {
            Phase::Idle => e is Start,
            Phase::Connecting => e is Connected || e is ConnectFailed,
            Phase::Streaming => e is Chunk || e is ReadFailed || e is StreamEnded,
            Phase::Decoding => e is Decoded || e is DecodeFailed,
            Phase::Backoff => e is Slept,
            Phase::Done | Phase::Failed => false,
        }
    }

    /// What follows a failed attempt: give up once `max_retries` attempts
    /// were made, else wait `BASE_DELAY^attempt` seconds.
    pub open spec fn after_failure(self) -> (Listener, ActionView) {
        if self.attempt >= self.max_retries {
            (
                Listener { phase: Phase::Failed, ..self },
                ActionView::Finish(Err(ListenError::RetriesExhausted)),
            )
        } else {
            (
                Listener { phase: Phase::Backoff, ..self },
                ActionView::Sleep(delay_after(self.attempt as nat) as u64),
            )
        }
    }

    /// The next state and the action that follow event `e`.
    pub open spec fn transition(self, e: Event) -> (Listener, ActionView) {
        match e {
            Event::Start => (
                Listener { phase: Phase::Connecting, attempt: 1, ..self },
                ActionView::Connect(1),
            ),
            Event::Connected => (Listener { phase: Phase::Streaming, ..self }, ActionView::Read),
            Event::ConnectFailed => self.after_failure(),
            Event::Chunk(b) => match payload_of(b@) {
                Some(p) => (Listener { phase: Phase::Decoding, ..self }, ActionView::Decode(p)),
                None => (Listener { phase: Phase::Streaming, ..self }, ActionView::Read),
            },
            Event::ReadFailed => if self.retry_on_stream_error {
                self.after_failure()
            } else {
                (
                    Listener { phase: Phase::Failed, ..self },
                    ActionView::Finish(Err(ListenError::Stream)),
                )
            },
            Event::StreamEnded => (
                Listener { phase: Phase::Done, ..self },
                ActionView::Finish(Ok(())),
            ),
            Event::Decoded(c) => (
                Listener { phase: Phase::Streaming, ..self },
                ActionView::Deliver(c),
            ),
            Event::DecodeFailed => (Listener { phase: Phase::Streaming, ..self }, ActionView::Read),
            Event::Slept => (
                Listener { phase: Phase::Connecting, attempt: (self.attempt + 1) as u32, ..self },
                ActionView::Connect((self.attempt + 1) as u32),
            ),
        }
    }

    /// The listener that `new` returns.
    pub open spec fn new_spec(max_retries: u32, retry_on_stream_error: bool) -> Listener {
        Listener { attempt: 0, max_retries, retry_on_stream_error, phase: Phase::Idle }
    }

    /// A listener that has not started, allowing `max_retries` connection
    /// attempts.
    pub fn new(max_retries: u32, retry_on_stream_error: bool) -> (r: Listener)
        ensures
            r.wf(),
            r == Listener::new_spec(max_retries, retry_on_stream_error),
    {
        Listener { attempt: 0, max_retries, retry_on_stream_error, phase: Phase::Idle }
    }

    /// Whether the listener, in its phase, waits for event `e`.
    pub fn is_expected(&self, e: &Event) -> (r: bool)
        ensures
            r == self.accepts(*e),
    {
        match self.phase {
            Phase::Idle => matches!(e, Event::Start),
            Phase::Connecting => matches!(e, Event::Connected | Event::ConnectFailed),
            Phase::Streaming => matches!(e, Event::Chunk(_) | Event::ReadFailed | Event::StreamEnded),
            Phase::Decoding => matches!(e, Event::Decoded(_) | Event::DecodeFailed),
            Phase::Backoff => matches!(e, Event::Slept),
            Phase::Done | Phase::Failed => false,
        }
    }

    /// Whether listening has stopped.
    pub fn is_finished(&self) -> (r: bool)
        ensures
            r == (self.phase == Phase::Done || self.phase == Phase::Failed),
    {
        self.phase == Phase::Done || self.phase == Phase::Failed
    }

    fn fail_attempt(&mut self) -> (r: Action)
        requires
            old(self).wf(),
            old(self).phase != Phase::Idle,
        ensures
            (*final(self), r@) == old(self).after_failure(),
    {
        if self.attempt >= self.max_retries {
            self.phase = Phase::Failed;
            Action::Finish(Err(ListenError::RetriesExhausted))
        } else {
            self.phase = Phase::Backoff;
            Action::Sleep(backoff_delay(self.attempt))
        }
    }

    /// Takes event `e`, moves to the next phase, and says what to do next.
    pub fn step(&mut self, e: Event) -> (r: Action)
        requires
            old(self).wf(),
            old(self).accepts(e),
        ensures
            final(self).wf(),
            (*final(self), r@) == old(self).transition(e),
    {
        match e {
            Event::Start => {
                self.phase = Phase::Connecting;
                self.attempt = 1;
                Action::Connect(1)
            },
            Event::Connected => {
                self.phase = Phase::Streaming;
                Action::Read
            },
            Event::ConnectFailed => self.fail_attempt(),
            Event::Chunk(b) => match extract_payload(b.as_slice()) {
                Some(p) => {
                    self.phase = Phase::Decoding;
                    Action::Decode(p)
                },
                None => {
                    self.phase = Phase::Streaming;
                    Action::Read
                },
            },
            Event::ReadFailed => {
                if self.retry_on_stream_error {
                    self.fail_attempt()
                } else {
                    self.phase = Phase::Failed;
                    Action::Finish(Err(ListenError::Stream))
                }
            },
            Event::StreamEnded => {
                self.phase = Phase::Done;
                Action::Finish(Ok(()))
            },
            Event::Decoded(c) => {
                self.phase = Phase::Streaming;
                Action::Deliver(c)
            },
            Event::DecodeFailed => {
                self.phase = Phase::Streaming;
                Action::Read
            },
            Event::Slept => {
                self.attempt = self.attempt + 1;
                self.phase = Phase::Connecting;
                Action::Connect(self.attempt)
            },
        }
    }
}

} // verus!
