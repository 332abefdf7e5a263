use vstd::prelude::*;

verus! {

/// A frame read from a client's transport.
pub enum Inbound {
    /// A text frame: one request.
    Text(String),
    /// A liveness probe from the peer, with its data.
    Ping(Vec<u8>),
    /// The peer closed the connection.
    Close,
    /// Any other frame (binary data, a pong); it carries no request.
    Other,
    /// The transport failed, or ended without a close frame.
    Broken,
}

/// What a connection's subscription to the change feed delivered.
pub enum Notice {
    /// A new full list, as wire text.
    Update(String),
    /// Older lists were dropped because this connection fell behind; a later
    /// one will follow.
    Missed,
}

/// What a connection does in answer to an event.
pub enum Action {
    /// Decode this text as a request and serve it.
    Serve(String),
    /// Send this text to the client.
    Forward(String),
    /// Answer a liveness probe with this data.
    Pong(Vec<u8>),
    /// Nothing; wait for the next event.
    Wait,
    /// Close the connection and release its subscription.
    Stop,
}

/// The state of one client connection: whether it still runs.
pub struct Session {
    open: bool,
}

impl Session {
    pub closed spec fn is_open_spec(&self) -> bool {
        self.open
    }

    /// A connection that has just been accepted.
    pub fn new() -> (r: Session)
        ensures
            r.is_open_spec(),
    {
        Session { open: true }
    }

    /// Whether the connection still runs.
    pub fn is_open(&self) -> (r: bool)
        ensures
            r == self.is_open_spec(),
    {
        self.open
    }

    /// Handles a frame from the client. A text frame is served, a probe is
    /// answered, a close or a broken transport ends the connection, and any
    /// other frame is passed over. A connection that has ended does nothing.
    pub fn on_frame(&mut self, f: Inbound) -> (a: Action)
        ensures
            !old(self).is_open_spec() ==> a is Stop && !final(self).is_open_spec(),
            old(self).is_open_spec() ==> match f {
                Inbound::Text(t) => (a matches Action::Serve(u) && u@ == t@)
                    && final(self).is_open_spec(),
                Inbound::Ping(d) => (a matches Action::Pong(e) && e@ == d@)
                    && final(self).is_open_spec(),
                Inbound::Other => a is Wait && final(self).is_open_spec(),
                Inbound::Close => a is Stop && !final(self).is_open_spec(),
                Inbound::Broken => a is Stop && !final(self).is_open_spec(),
            },
    {
        if !self.open {
            return Action::Stop;
        }
        match f {
            Inbound::Text(t) => Action::Serve(t),
            Inbound::Ping(d) => Action::Pong(d),
            Inbound::Other => Action::Wait,
            Inbound::Close | Inbound::Broken => {
                self.open = false;
                Action::Stop
            },
        }
    }

    /// Handles what the change feed delivered: a new list is forwarded to the
    /// client, and lists that were missed are not waited for.
    pub fn on_notice(&mut self, n: Notice) -> (a: Action)
        ensures
            final(self).is_open_spec() == old(self).is_open_spec(),
            !old(self).is_open_spec() ==> a is Stop,
            old(self).is_open_spec() ==> match n {
                Notice::Update(t) => a matches Action::Forward(u) && u@ == t@,
                Notice::Missed => a is Wait,
            },
    {
        if !self.open {
            return Action::Stop;
        }
        match n {
            Notice::Update(t) => Action::Forward(t),
            Notice::Missed => Action::Wait,
        }
    }

    /// Records the outcome of a write to the client: a failed write ends the
    /// connection. Returns whether the connection still runs.
    pub fn on_sent(&mut self, ok: bool) -> (r: bool)
        ensures
            final(self).is_open_spec() == (old(self).is_open_spec() && ok),
            r == final(self).is_open_spec(),
    {
        if !ok {
            self.open = false;
        }
        self.open
    }
}

} // verus!
