use vstd::prelude::*;

verus! {

/// The role of this process, fixed once at startup: the client dials out
/// and sends the local byte source; the server binds, waits for the one
/// inbound connection, and receives into the local byte sink.
#[derive(Debug, Clone, Copy, PartialEq, Eq, Structural)]
pub enum PiperMode {
    Server,
    Client,
}

impl PiperMode {
    /// The dialing role is the sending role.
    pub fn sends(&self) -> (b: bool)
        ensures
            b <==> *self is Client,
    {
        match self {
            PiperMode::Client => true,
            PiperMode::Server => false,
        }
    }
}

/// Liveness of the one session a process drives.
#[derive(Debug, Clone, Copy, PartialEq, Eq, Structural)]
pub enum SessionState {
    Connecting,
    Established,
    Draining,
    Closed,
}

/// State of the session's single unidirectional data channel.
#[derive(Debug, Clone, Copy, PartialEq, Eq, Structural)]
pub enum ChannelState {
    Open,
    Finished,
    Closed,
}

/// The session and channel lifecycle that the driving loop must follow:
/// a session becomes established exactly once before any channel exists,
/// the channel is finished exactly once before the session may drain, and
/// no bytes may be written once the channel is finished.
#[derive(Debug, Clone, Copy)]
pub struct SessionLifecycle {
    pub state: SessionState,
    pub channel: Option<ChannelState>,
}

impl SessionLifecycle {
    /// The lifecycle's invariant: no channel exists before the session is
    /// established, and a draining or closed session has no open channel.
    pub open spec fn wf(self) -> bool {
        &&& (self.state is Connecting ==> self.channel is None)
        &&& ((self.state is Draining || self.state is Closed) ==> match self.channel {
            Some(c) => !(c is Open),
            None => true,
        })
    }

    /// A fresh session: connecting, no channel yet.
    pub fn new() -> (s: SessionLifecycle)
        ensures
            s.state is Connecting,
            s.channel is None,
            s.wf(),
    {
        SessionLifecycle { state: SessionState::Connecting, channel: None }
    }

    /// Both handshakes completed: the session is established.  This happens
    /// exactly once, before any channel is created.
    pub fn establish(&mut self)
        requires
            old(self).wf(),
            old(self).state is Connecting,
        ensures
            final (self).state is Established,
            final (self).channel is None,
            final (self).wf(),
    {
        self.state = SessionState::Established;
    }

    /// The one data channel is opened (sending side) or accepted
    /// (receiving side) on the established session.
    pub fn open_channel(&mut self)
        requires
            old(self).wf(),
            old(self).state is Established,
            old(self).channel is None,
        ensures
            final (self).state is Established,
            final (self).channel == Some(ChannelState::Open),
            final (self).wf(),
    {
        self.channel = Some(ChannelState::Open);
    }

    /// The end-of-stream signal is sent on the channel.  This happens
    /// exactly once; no bytes may be written afterwards.
    pub fn finish_channel(&mut self)
        requires
            old(self).wf(),
            old(self).state is Established,
            old(self).channel == Some(ChannelState::Open),
        ensures
            final (self).state is Established,
            final (self).channel == Some(ChannelState::Finished),
            final (self).wf(),
    {
        self.channel = Some(ChannelState::Finished);
    }

    /// The session starts quiescing.  Only allowed once the channel has
    /// been finished, so no buffered data can be lost.
    pub fn begin_drain(&mut self)
        requires
            old(self).wf(),
            old(self).state is Established,
            old(self).channel == Some(ChannelState::Finished),
        ensures
            final (self).state is Draining,
            final (self).channel == old(self).channel,
            final (self).wf(),
    {
        self.state = SessionState::Draining;
    }

    /// All resources are released.  Only allowed when no channel is still
    /// open, so unflushed channel data cannot be dropped silently.
    pub fn close(&mut self)
        requires
            old(self).wf(),
            match old(self).channel {
                Some(c) => !(c is Open),
                None => true,
            },
        ensures
            final (self).state is Closed,
            final (self).channel == if old(self).channel is Some {
                Some(ChannelState::Closed)
            } else {
                None
            },
            final (self).wf(),
    {
        self.state = SessionState::Closed;
        if self.channel.is_some() {
            self.channel = Some(ChannelState::Closed);
        }
    }

    /// Whether the pump may still write bytes to the channel.
    pub fn may_write(&self) -> (b: bool)
        ensures
            b <==> self.channel == Some(ChannelState::Open),
    {
        match self.channel {
            Some(ChannelState::Open) => true,
            _ => false,
        }
    }
}

} // verus!
