use crate::return_code::ReturnCode;
use vstd::prelude::*;

verus! {

/// Where a session stands in its life. `Closed` and `Faulted` are final.
#[derive(Clone, Copy, Debug, PartialEq, Eq, Structural)]
pub enum SessionState {
    /// Nothing has been exchanged with the device.
    Unauthenticated,
    /// The device has sent its challenge and the session keys are derived;
    /// its proof of knowing them has not been checked yet.
    Authenticating,
    /// Both sides have proved that they hold the same keys.
    Established,
    /// The session was closed by its owner.
    Closed,
    /// A check failed or a request was abandoned: the session is dead.
    Faulted,
}

/// The keys of one session, derived from the device's challenge and the
/// long-term key. They live as long as the session and no longer.
#[derive(Clone, Copy, Debug, PartialEq, Eq)]
pub struct SessionKeys {
    pub encryption: [u8; 16],
    pub mac: [u8; 16],
    pub response_mac: [u8; 16],
}

/// How the transport failed.
#[derive(Clone, Copy, Debug, PartialEq, Eq, Structural)]
pub enum TransportError {
    /// The network failed.
    Net,
    /// The connector failed.
    Connector,
}

/// What happens to a session, as its owner reports it.
#[derive(Clone, Copy, Debug, PartialEq, Eq)]
pub enum SessionEvent {
    /// The device answered the request for a session with its challenge, and
    /// these keys were derived from it.
    Opened(SessionKeys),
    /// The device answered the authentication; the flag says whether the
    /// MAC on its answer verified under the session's keys.
    Authenticated { mac_verified: bool },
    /// The device reported that it does not accept the authentication of
    /// this session.
    Rejected,
    /// The owner wants to send a command.
    Send,
    /// A response arrived, carrying this sequence number; the flag says
    /// whether its MAC verified under the session's keys.
    Response { sequence: u32, mac_verified: bool },
    /// The owner closes the session.
    Close,
    /// A request timed out or was cancelled.
    Abort,
    /// The transport failed to carry a request or a response.
    TransportFailed(TransportError),
}

/// What the owner of a session is to do after an event.
#[derive(Clone, Copy, Debug, PartialEq, Eq, Structural)]
pub enum SessionAction {
    /// Nothing more: the session has taken note.
    Proceed,
    /// Send the command under this sequence number, with a MAC over the
    /// number and the command's bytes.
    Transmit(u32),
    /// The response is genuine and in order: its payload can be trusted.
    Accept,
}

/// Why a session refused an event.
#[derive(Clone, Copy, Debug, PartialEq, Eq, Structural)]
pub enum SessionError {
    /// The device's answer to the authentication did not verify, or the
    /// device reported that it does not accept the authentication.
    AuthenticationFailed,
    /// The MAC of a response did not verify.
    MacMismatch,
    /// A response carried another sequence number than the one awaited.
    SequenceMismatch,
    /// A request timed out or was cancelled.
    Aborted,
    /// The transport failed; the session is as it was and the request can
    /// be tried again.
    Transport(TransportError),
    /// The session has used every sequence number; it can only be closed.
    SequenceExhausted,
    /// The event makes no sense in the state the session is in.
    InvalidState,
}

/// What a session holds, as plain values.
pub struct SessionView {
    pub state: SessionState,
    /// The sequence number of the next command, and of the response to it.
    pub sequence: u32,
    /// Whether a command has been sent and its response not yet accepted.
    pub pending: bool,
    pub keys: Option<SessionKeys>,
}

/// One authenticated conversation with the device: a state, a sequence
/// counter that starts at 0 when the session is established, and the
/// session keys, owned by one caller.
#[derive(Debug)]
pub struct Session {
    state: SessionState,
    sequence: u32,
    pending: bool,
    keys: Option<SessionKeys>,
}

impl TransportError {
    /// The status under which the failure is reported.
    pub open spec fn spec_code(self) -> ReturnCode {
        match self {
            TransportError::Net => ReturnCode::NetError,
            TransportError::Connector => ReturnCode::ConnectorError,
        }
    }

    /// The status under which the failure is reported.
    pub fn code(self) -> (rc: ReturnCode)
        ensures
            rc == self.spec_code(),
    {
        match self {
            TransportError::Net => ReturnCode::NetError,
            TransportError::Connector => ReturnCode::ConnectorError,
        }
    }
}

impl SessionError {
    /// Whether the error ends the session: every error of integrity does,
    /// and so does an abandoned request.
    pub open spec fn fatal(self) -> bool {
        match self {
            SessionError::AuthenticationFailed => true,
            SessionError::MacMismatch => true,
            SessionError::SequenceMismatch => true,
            SessionError::Aborted => true,
            SessionError::Transport(_) => false,
            SessionError::SequenceExhausted => false,
            SessionError::InvalidState => false,
        }
    }

    /// Whether the error ends the session.
    pub fn is_fatal(self) -> (b: bool)
        ensures
            b == self.fatal(),
    {
        match self {
            SessionError::AuthenticationFailed => true,
            SessionError::MacMismatch => true,
            SessionError::SequenceMismatch => true,
            SessionError::Aborted => true,
            SessionError::Transport(_) => false,
            SessionError::SequenceExhausted => false,
            SessionError::InvalidState => false,
        }
    }

    /// Whether the same request can be tried again on the same session:
    /// only after a failure of the transport.
    pub fn is_retryable(self) -> (b: bool)
        ensures
            b == (self is Transport),
    {
        match self {
            SessionError::Transport(_) => true,
            _ => false,
        }
    }
}

impl SessionView {
    /// What holds of every session: it has keys exactly while it is
    /// authenticating or established, and a command can be pending only in
    /// an established session that has a sequence number left after it.
    pub open spec fn wf(self) -> bool {
        &&& self.keys is Some <==> (self.state == SessionState::Authenticating || self.state
            == SessionState::Established)
        &&& self.pending ==> self.state == SessionState::Established && self.sequence < u32::MAX
    }

    /// A session that has exchanged nothing yet.
    pub open spec fn fresh() -> SessionView {
        SessionView {
            state: SessionState::Unauthenticated,
            sequence: 0,
            pending: false,
            keys: None,
        }
    }

    /// Whether the session is in a final state.
    pub open spec fn ended(self) -> bool {
        self.state == SessionState::Closed || self.state == SessionState::Faulted
    }

    /// The session after a fault: dead, its keys gone, its counter kept.
    pub open spec fn faulted(self) -> SessionView {
        SessionView {
            state: SessionState::Faulted,
            sequence: self.sequence,
            pending: false,
            keys: None,
        }
    }

    /// The sequence number that the next response must carry: that of the
    /// pending command, if there is one.
    pub open spec fn awaited(self) -> Option<u32> {
        if self.state == SessionState::Established && self.pending {
            Some(self.sequence)
        } else {
            None
        }
    }

    /// The session after an event, and what its owner is told.
    pub open spec fn step(self, event: SessionEvent) -> (
        SessionView,
        Result<SessionAction, SessionError>,
    ) {
        if self.ended() {
            (self, Err(SessionError::InvalidState))
        } else {
            match event {
                SessionEvent::Opened(keys) => if self.state == SessionState::Unauthenticated {
                    (
                        SessionView {
                            state: SessionState::Authenticating,
                            sequence: 0,
                            pending: false,
                            keys: Some(keys),
                        },
                        Ok(SessionAction::Proceed),
                    )
                } else {
                    (self, Err(SessionError::InvalidState))
                },
                SessionEvent::Authenticated { mac_verified } => if self.state
                    != SessionState::Authenticating {
                    (self, Err(SessionError::InvalidState))
                } else if mac_verified {
                    (
                        SessionView {
                            state: SessionState::Established,
                            sequence: 0,
                            pending: false,
                            keys: self.keys,
                        },
                        Ok(SessionAction::Proceed),
                    )
                } else {
                    (self.faulted(), Err(SessionError::AuthenticationFailed))
                },
                SessionEvent::Rejected => (
                    self.faulted(),
                    Err(SessionError::AuthenticationFailed),
                ),
                SessionEvent::Send => if self.state != SessionState::Established || self.pending {
                    (self, Err(SessionError::InvalidState))
                } else if self.sequence == u32::MAX {
                    (self, Err(SessionError::SequenceExhausted))
                } else {
                    (
                        SessionView {
                            state: self.state,
                            sequence: self.sequence,
                            pending: true,
                            keys: self.keys,
                        },
                        Ok(SessionAction::Transmit(self.sequence)),
                    )
                },
                SessionEvent::Response { sequence, mac_verified } => if self.state
                    != SessionState::Established {
                    (self, Err(SessionError::InvalidState))
                } else if !mac_verified {
                    (self.faulted(), Err(SessionError::MacMismatch))
                } else if self.awaited() != Some(sequence) {
                    (self.faulted(), Err(SessionError::SequenceMismatch))
                } else {
                    (
                        SessionView {
                            state: self.state,
                            sequence: (self.sequence + 1) as u32,
                            pending: false,
                            keys: self.keys,
                        },
                        Ok(SessionAction::Accept),
                    )
                },
                SessionEvent::Close => if self.state == SessionState::Established {
                    (
                        SessionView {
                            state: SessionState::Closed,
                            sequence: self.sequence,
                            pending: false,
                            keys: None,
                        },
                        Ok(SessionAction::Proceed),
                    )
                } else {
                    (self, Err(SessionError::InvalidState))
                },
                SessionEvent::Abort => (self.faulted(), Err(SessionError::Aborted)),
                SessionEvent::TransportFailed(how) => (self, Err(SessionError::Transport(how))),
            }
        }
    }
}

impl View for Session {
    type V = SessionView;

    closed spec fn view(&self) -> SessionView {
        SessionView {
            state: self.state,
            sequence: self.sequence,
            pending: self.pending,
            keys: self.keys,
        }
    }
}

impl Session {
    #[verifier::type_invariant]
    spec fn inv(self) -> bool {
        self@.wf()
    }

    /// A session that has exchanged nothing yet.
    pub fn new() -> (s: Session)
        ensures
            s@ == SessionView::fresh(),
            s@.wf(),
    {
        Session { state: SessionState::Unauthenticated, sequence: 0, pending: false, keys: None }
    }

    /// The state of the session.
    pub fn state(&self) -> (state: SessionState)
        ensures
            state == self@.state,
    {
        self.state
    }

    /// The keys of the session: there are some exactly while it is
    /// authenticating or established.
    pub fn keys(&self) -> (keys: Option<SessionKeys>)
        ensures
            keys == self@.keys,
            keys is Some <==> (self@.state == SessionState::Authenticating || self@.state
                == SessionState::Established),
    {
        proof {
            use_type_invariant(self);
        }
        self.keys
    }

    /// The sequence number that the next response must carry, where a
    /// command is pending.
    pub fn awaited(&self) -> (n: Option<u32>)
        ensures
            n == self@.awaited(),
    {
        if self.state == SessionState::Established && self.pending {
            Some(self.sequence)
        } else {
            None
        }
    }

    /// Takes one event: moves the session on and tells its owner what to do
    /// or why the event was refused. The session never leaves `Closed` or
    /// `Faulted`; it drops its keys when it enters either.
    pub fn handle(&mut self, event: SessionEvent) -> (r: Result<SessionAction, SessionError>)
        ensures
            (final(self)@, r) == old(self)@.step(event),
            final(self)@.wf(),
    {
        proof {
            use_type_invariant(&*self);
        }
        if self.state == SessionState::Closed || self.state == SessionState::Faulted {
            return Err(SessionError::InvalidState);
        }
        match event {
            SessionEvent::Opened(keys) => {
                if self.state == SessionState::Unauthenticated {
                    *self = Session {
                        state: SessionState::Authenticating,
                        sequence: 0,
                        pending: false,
                        keys: Some(keys),
                    };
                    Ok(SessionAction::Proceed)
                } else {
                    Err(SessionError::InvalidState)
                }
            },
            SessionEvent::Authenticated { mac_verified } => {
                if self.state != SessionState::Authenticating {
                    Err(SessionError::InvalidState)
                } else if mac_verified {
                    *self = Session {
                        state: SessionState::Established,
                        sequence: 0,
                        pending: false,
                        keys: self.keys,
                    };
                    Ok(SessionAction::Proceed)
                } else {
                    self.fault();
                    Err(SessionError::AuthenticationFailed)
                }
            },
            SessionEvent::Rejected => {
                self.fault();
                Err(SessionError::AuthenticationFailed)
            },
            SessionEvent::Send => {
                if self.state != SessionState::Established || self.pending {
                    Err(SessionError::InvalidState)
                } else if self.sequence == u32::MAX {
                    Err(SessionError::SequenceExhausted)
                } else {
                    let sequence: u32 = self.sequence;
                    *self = Session {
                        state: SessionState::Established,
                        sequence,
                        pending: true,
                        keys: self.keys,
                    };
                    Ok(SessionAction::Transmit(sequence))
                }
            },
            SessionEvent::Response { sequence, mac_verified } => {
                if self.state != SessionState::Established {
                    Err(SessionError::InvalidState)
                } else if !mac_verified {
                    self.fault();
                    Err(SessionError::MacMismatch)
                } else if !self.pending || self.sequence != sequence {
                    self.fault();
                    Err(SessionError::SequenceMismatch)
                } else {
                    *self = Session {
                        state: SessionState::Established,
                        sequence: sequence + 1,
                        pending: false,
                        keys: self.keys,
                    };
                    Ok(SessionAction::Accept)
                }
            },
            SessionEvent::Close => {
                if self.state == SessionState::Established {
                    *self = Session {
                        state: SessionState::Closed,
                        sequence: self.sequence,
                        pending: false,
                        keys: None,
                    };
                    Ok(SessionAction::Proceed)
                } else {
                    Err(SessionError::InvalidState)
                }
            },
            SessionEvent::Abort => {
                self.fault();
                Err(SessionError::Aborted)
            },
            SessionEvent::TransportFailed(how) => Err(SessionError::Transport(how)),
        }
    }

    fn fault(&mut self)
        ensures
            final(self)@ == old(self)@.faulted(),
    {
        *self = Session {
            state: SessionState::Faulted,
            sequence: self.sequence,
            pending: false,
            keys: None,
        };
    }
}

/// What holds of every session holds after every event.
pub proof fn lemma_step_keeps_wf(s: SessionView, event: SessionEvent)
    requires
        s.wf(),
    ensures
        s.step(event).0.wf(),
{
}

/// A closed or faulted session stays as it is, whatever happens: every
/// event is refused and nothing in the session changes.
pub proof fn lemma_ended_is_final(s: SessionView, event: SessionEvent)
    requires
        s.ended(),
    ensures
        s.step(event).0 == s,
        s.step(event).1 == Err::<SessionAction, SessionError>(SessionError::InvalidState),
{
}

/// A session that ends has no keys left.
pub proof fn lemma_ended_has_no_keys(s: SessionView, event: SessionEvent)
    requires
        s.wf(),
        s.step(event).0.ended(),
    ensures
        s.step(event).0.keys is None,
{
}

/// In an established session, a response whose MAC does not verify is
/// rejected and the session faults, whatever sequence number the response
/// carries and whether or not a command is pending.
pub proof fn lemma_bad_mac_faults(s: SessionView, sequence: u32)
    requires
        s.wf(),
        s.state == SessionState::Established,
    ensures
        s.step(SessionEvent::Response { sequence, mac_verified: false }).1 == Err::<
            SessionAction,
            SessionError,
        >(SessionError::MacMismatch),
        s.step(SessionEvent::Response { sequence, mac_verified: false }).0.state
            == SessionState::Faulted,
        s.step(SessionEvent::Response { sequence, mac_verified: false }).0.keys is None,
{
}

/// In an established session, a response whose MAC verifies but which
/// carries another sequence number than the awaited one is rejected and the
/// session faults: the session does not skip ahead, nor back.
pub proof fn lemma_wrong_sequence_faults(s: SessionView, sequence: u32)
    requires
        s.wf(),
        s.state == SessionState::Established,
        s.awaited() != Some(sequence),
    ensures
        s.step(SessionEvent::Response { sequence, mac_verified: true }).1 == Err::<
            SessionAction,
            SessionError,
        >(SessionError::SequenceMismatch),
        s.step(SessionEvent::Response { sequence, mac_verified: true }).0.state
            == SessionState::Faulted,
        s.step(SessionEvent::Response { sequence, mac_verified: true }).0.keys is None,
{
}

/// A response is accepted only in an established session, with a verified
/// MAC and the awaited sequence number; the counter then moves on by one.
pub proof fn lemma_accept(s: SessionView, event: SessionEvent)
    requires
        s.wf(),
        s.step(event).1 == Ok::<SessionAction, SessionError>(SessionAction::Accept),
    ensures
        s.state == SessionState::Established,
        event matches SessionEvent::Response { sequence, mac_verified } && mac_verified
            && s.awaited() == Some(sequence),
        s.step(event).0.sequence == s.sequence + 1,
        s.step(event).0.state == SessionState::Established,
{
}

/// The sequence counter never goes down while a session is established,
/// and a command is sent under the counter as it stands.
pub proof fn lemma_sequence_rises(s: SessionView, event: SessionEvent)
    requires
        s.wf(),
        s.state == SessionState::Established,
    ensures
        s.step(event).0.sequence >= s.sequence,
        s.step(event).1 matches Ok(SessionAction::Transmit(n)) ==> n == s.sequence && s.step(
            event,
        ).0.awaited() == Some(n),
{
}

/// An error that ends the session is returned exactly when the session
/// faults: a fatal error leaves the session faulted, and any other leaves
/// it as it was.
pub proof fn lemma_fatal_faults(s: SessionView, event: SessionEvent)
    requires
        s.wf(),
        !s.ended(),
    ensures
        s.step(event).1 matches Err(e) ==> (e.fatal() <==> s.step(event).0.state
            == SessionState::Faulted),
        s.step(event).1 matches Err(e) ==> (!e.fatal() ==> s.step(event).0 == s),
{
}

} // verus!
