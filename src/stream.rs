//! The continuous log capture: one long-lived subprocess at a time, and its output buffer.
use vstd::prelude::*;

verus! {

#[derive(Debug, Clone, Copy, PartialEq, Eq, Structural)]
pub enum StreamState {
    Idle,
    Running,
    /// A termination signal was sent; the reader has not yet seen the end of the stream.
    Stopping,
}

/// What the supervisor has to do after a decision of the session.
#[derive(Debug, Clone, Copy, PartialEq, Eq, Structural)]
pub enum StreamAction {
    /// Start the capture process and its reader.
    Spawn,
    /// Send the capture process a termination signal.
    Terminate,
    Nothing,
}

/// A start request: accepted only when idle.
pub open spec fn start_step(s: StreamState) -> (StreamState, StreamAction) {
    match s {
        StreamState::Idle => (StreamState::Running, StreamAction::Spawn),
        _ => (s, StreamAction::Nothing),
    }
}

/// A stop request: a running capture is told to terminate; otherwise nothing happens.
pub open spec fn stop_step(s: StreamState) -> (StreamState, StreamAction) {
    match s {
        StreamState::Running => (StreamState::Stopping, StreamAction::Terminate),
        _ => (s, StreamAction::Nothing),
    }
}

/// The reader saw the end of the stream, after a stop or because the process died.
pub open spec fn ended_step(s: StreamState) -> (StreamState, StreamAction) {
    (StreamState::Idle, StreamAction::Nothing)
}

pub struct StreamView {
    pub state: StreamState,
    pub log: Seq<char>,
}

/// The log capture session. The buffer only grows: each line that the reader forwards is
/// appended with a line feed, in the order received.
pub struct StreamSession {
    state: StreamState,
    log: String,
}

impl View for StreamSession {
    type V = StreamView;

    closed spec fn view(&self) -> StreamView {
        StreamView { state: self.state, log: self.log@ }
    }
}

impl StreamSession {
    pub fn new() -> (r: StreamSession)
        ensures
            r@.state == StreamState::Idle,
            r@.log == Seq::<char>::empty(),
    {
        StreamSession { state: StreamState::Idle, log: String::new() }
    }

    pub fn state(&self) -> (r: StreamState)
        ensures
            r == self@.state,
    {
        self.state
    }

    /// Everything captured so far.
    pub fn log(&self) -> (r: &str)
        ensures
            r@ == self@.log,
    {
        self.log.as_str()
    }

    pub fn start(&mut self) -> (r: StreamAction)
        ensures
            (final(self)@.state, r) == start_step(old(self)@.state),
            final(self)@.log == old(self)@.log,
    {
        let (next, action) = match self.state {
            StreamState::Idle => (StreamState::Running, StreamAction::Spawn),
            _ => (self.state, StreamAction::Nothing),
        };
        self.state = next;
        action
    }

    /// Never an error: stopping a session that is not running does nothing.
    pub fn stop(&mut self) -> (r: StreamAction)
        ensures
            (final(self)@.state, r) == stop_step(old(self)@.state),
            final(self)@.log == old(self)@.log,
    {
        let (next, action) = match self.state {
            StreamState::Running => (StreamState::Stopping, StreamAction::Terminate),
            _ => (self.state, StreamAction::Nothing),
        };
        self.state = next;
        action
    }

    pub fn stream_ended(&mut self)
        ensures
            final(self)@.state == ended_step(old(self)@.state).0,
            final(self)@.log == old(self)@.log,
    {
        self.state = StreamState::Idle;
    }

    /// Appends one line of the capture's output.
    pub fn push_line(&mut self, line: &str)
        ensures
            final(self)@.state == old(self)@.state,
            final(self)@.log == old(self)@.log + line@ + seq!['\n'],
    {
        self.log.append(line);
        self.log.append("\n");
        proof {
            reveal_strlit("\n");
        }
    }
}

/// Stopping is idempotent: a second stop right after the first changes nothing and asks
/// for nothing; from an idle session both stops leave it idle.
pub proof fn lemma_stop_twice(s: StreamState)
    ensures
        stop_step(stop_step(s).0) == (stop_step(s).0, StreamAction::Nothing),
        s == StreamState::Idle ==> stop_step(s) == (StreamState::Idle, StreamAction::Nothing),
{
}

/// At most one capture runs: a start while one is running or stopping spawns nothing.
pub proof fn lemma_single_capture(s: StreamState)
    ensures
        s != StreamState::Idle ==> start_step(s) == (s, StreamAction::Nothing),
        start_step(start_step(s).0).1 == StreamAction::Nothing,
{
}

} // verus!
