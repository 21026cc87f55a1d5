//! The keep-alive session: what to do about each thing that happens on the
//! socket.
//!
//! The simulator streams to whoever sent it a keep-alive datagram, and stops
//! unless one comes again before too long. A `Session` holds no socket. Its
//! owner binds and reads the socket, tells the session what happened, and
//! does what the session answers.

use crate::datagram::{decode_datagram, decode_datagram_spec};
use crate::errors::DatagramError;
use crate::packet::Packet;
use vstd::prelude::*;

verus! {

/// Local port on which the datagrams arrive.
pub const RECEIVE_PORT: u16 = 33740;

/// Port of the simulator, to which the keep-alive datagram goes.
pub const SEND_PORT: u16 = 33739;

/// Number of decoded datagrams after which the keep-alive datagram is sent
/// again.
pub const KEEPALIVE_INTERVAL: u8 = 100;

/// Where a session stands. It moves forward only: from `Unstarted` to
/// `Streaming` to `Stopped`, or from `Unstarted` to `Stopped`.
#[derive(Debug, Clone, Copy, PartialEq, Eq)]
pub enum SessionState {
    /// No socket yet, nothing sent.
    Unstarted,
    /// The first keep-alive has been asked for; datagrams are taken.
    Streaming,
    /// Over. Nothing is taken any more.
    Stopped,
}

/// What happened.
#[derive(Debug, Clone, Copy, PartialEq, Eq)]
pub enum Input {
    /// The local endpoint is bound and the destination is known.
    SocketReady,
    /// The local endpoint could not be bound or configured, or the
    /// destination address is no address.
    SetupFailed,
    /// Something was received and went through the cipher and the decoder,
    /// with this result.
    Decoded(Result<Packet, DatagramError>),
    /// Nothing was there to receive.
    WouldBlock,
    /// Receiving or sending failed in some other way.
    IoError,
    /// The owner asks the session to end.
    Stop,
}

/// What the owner of the session is to do next.
#[derive(Debug, Clone, Copy, PartialEq, Eq)]
pub enum Action {
    /// Send the keep-alive datagram.
    SendKeepalive,
    /// Hand the record to the consumer and, where `keepalive` is set, send
    /// the keep-alive datagram after that.
    Deliver { record: Packet, keepalive: bool },
    /// Drop the datagram. The error is for the log.
    Discard(DatagramError),
    /// Nothing to do: receive again.
    Wait,
    /// Note the failure in the log and receive again.
    Report,
    /// Close the socket.
    Close,
    /// Give up: the session cannot start. The failure goes to the caller.
    Abort,
    /// The input means nothing where the session stands. Nothing to do.
    Ignore,
}

/// A session as the contracts see it.
pub struct SessionView {
    pub state: SessionState,
    /// Number of records delivered since the session began.
    pub received: nat,
}

/// The session before anything has happened.
pub open spec fn initial() -> SessionView {
    SessionView { state: SessionState::Unstarted, received: 0 }
}

/// The session after `input`, and what is to be done.
pub open spec fn step_spec(session: SessionView, input: Input) -> (SessionView, Action) {
    match session.state {
        SessionState::Unstarted => match input {
            Input::SocketReady => (
                SessionView { state: SessionState::Streaming, ..session },
                Action::SendKeepalive,
            ),
            Input::SetupFailed => (
                SessionView { state: SessionState::Stopped, ..session },
                Action::Abort,
            ),
            Input::Stop => (SessionView { state: SessionState::Stopped, ..session }, Action::Close),
            _ => (session, Action::Ignore),
        },
        SessionState::Streaming => match input {
            Input::Decoded(Ok(record)) => (
                SessionView { received: session.received + 1, ..session },
                Action::Deliver {
                    record,
                    keepalive: (session.received + 1) % (KEEPALIVE_INTERVAL as nat) == 0,
                },
            ),
            Input::Decoded(Err(error)) => (session, Action::Discard(error)),
            Input::WouldBlock => (session, Action::Wait),
            Input::IoError => (session, Action::Report),
            Input::Stop => (SessionView { state: SessionState::Stopped, ..session }, Action::Close),
            _ => (session, Action::Ignore),
        },
        SessionState::Stopped => (session, Action::Ignore),
    }
}

/// Number of keep-alive datagrams that an action has sent.
pub open spec fn keepalives_of(action: Action) -> nat {
    match action {
        Action::SendKeepalive => 1,
        Action::Deliver { keepalive: true, .. } => 1,
        _ => 0,
    }
}

/// Number of records that an action hands to the consumer.
pub open spec fn records_of(action: Action) -> nat {
    match action {
        Action::Deliver { .. } => 1,
        _ => 0,
    }
}

/// The session after a run of inputs.
pub open spec fn run(session: SessionView, inputs: Seq<Input>) -> SessionView
    decreases inputs.len(),
{
    if inputs.len() == 0 {
        session
    } else {
        run(step_spec(session, inputs[0]).0, inputs.drop_first())
    }
}

/// Number of keep-alive datagrams sent over a run of inputs.
pub open spec fn keepalives_sent(session: SessionView, inputs: Seq<Input>) -> nat
    decreases inputs.len(),
{
    if inputs.len() == 0 {
        0
    } else {
        let (next, action) = step_spec(session, inputs[0]);
        keepalives_of(action) + keepalives_sent(next, inputs.drop_first())
    }
}

/// Number of records delivered over a run of inputs.
pub open spec fn records_delivered(session: SessionView, inputs: Seq<Input>) -> nat
    decreases inputs.len(),
{
    if inputs.len() == 0 {
        0
    } else {
        let (next, action) = step_spec(session, inputs[0]);
        records_of(action) + records_delivered(next, inputs.drop_first())
    }
}

/// The state of one keep-alive session.
pub struct Session {
    state: SessionState,
    /// Records delivered since the keep-alive datagram was last due.
    cycle: u8,
    /// Records delivered in all.
    received: Ghost<nat>,
}

impl View for Session {
    type V = SessionView;

    closed spec fn view(&self) -> SessionView {
        SessionView { state: self.state, received: self.received@ }
    }
}

impl Session {
    #[verifier::type_invariant]
    spec fn well_formed(self) -> bool {
        self.cycle < KEEPALIVE_INTERVAL && self.cycle == self.received@ % (KEEPALIVE_INTERVAL as nat)
    }

    /// A session that has not started.
    pub fn new() -> (session: Session)
        ensures
            session@ == initial(),
    {
        Session { state: SessionState::Unstarted, cycle: 0, received: Ghost(0) }
    }

    /// Where the session stands.
    pub fn state(&self) -> (state: SessionState)
        ensures
            state == self@.state,
    {
        self.state
    }

    /// Number of records delivered since the keep-alive datagram was last
    /// due.
    pub fn since_keepalive(&self) -> (count: u8)
        ensures
            count == self@.received % (KEEPALIVE_INTERVAL as nat),
    {
        proof {
            use_type_invariant(self);
        }
        self.cycle
    }

    /// Takes note of what happened and says what is to be done.
    pub fn step(&mut self, input: Input) -> (action: Action)
        ensures
            (final(self)@, action) == step_spec(old(self)@, input),
    {
        proof {
            use_type_invariant(&*self);
        }
        match self.state {
            SessionState::Unstarted => match input {
                Input::SocketReady => {
                    *self = Session {
                        state: SessionState::Streaming,
                        cycle: self.cycle,
                        received: self.received,
                    };
                    Action::SendKeepalive
                },
                Input::SetupFailed => {
                    *self = Session {
                        state: SessionState::Stopped,
                        cycle: self.cycle,
                        received: self.received,
                    };
                    Action::Abort
                },
                Input::Stop => {
                    *self = Session {
                        state: SessionState::Stopped,
                        cycle: self.cycle,
                        received: self.received,
                    };
                    Action::Close
                },
                _ => Action::Ignore,
            },
            SessionState::Streaming => match input {
                Input::Decoded(Ok(record)) => {
                    let due = self.cycle + 1 == KEEPALIVE_INTERVAL;
                    *self = Session {
                        state: SessionState::Streaming,
                        cycle: if due {
                            0
                        } else {
                            self.cycle + 1
                        },
                        received: Ghost(self.received@ + 1),
                    };
                    Action::Deliver { record, keepalive: due }
                },
                Input::Decoded(Err(error)) => Action::Discard(error),
                Input::WouldBlock => Action::Wait,
                Input::IoError => Action::Report,
                Input::Stop => {
                    *self = Session {
                        state: SessionState::Stopped,
                        cycle: self.cycle,
                        received: self.received,
                    };
                    Action::Close
                },
                _ => Action::Ignore,
            },
            SessionState::Stopped => Action::Ignore,
        }
    }

    /// Decrypts and decodes what was received, takes note of the result and
    /// says what is to be done.
    pub fn receive(&mut self, received: &[u8]) -> (action: Action)
        ensures
            (final(self)@, action) == step_spec(
                old(self)@,
                Input::Decoded(decode_datagram_spec(received@)),
            ),
    {
        self.step(Input::Decoded(decode_datagram(received)))
    }
}

/// How far a session has come.
pub open spec fn rank(state: SessionState) -> nat {
    match state {
        SessionState::Unstarted => 0,
        SessionState::Streaming => 1,
        SessionState::Stopped => 2,
    }
}

/// A session never goes back, and a stopped one stays as it is. Its count
/// goes up by one with each record delivered and is left alone by everything
/// else: a datagram that was dropped does not bring the next keep-alive
/// nearer.
pub proof fn lemma_step_moves_forward(session: SessionView, input: Input)
    ensures
        rank(step_spec(session, input).0.state) >= rank(session.state),
        session.state == SessionState::Stopped ==> step_spec(session, input) == (
            session,
            Action::Ignore,
        ),
        step_spec(session, input).0.received == session.received + records_of(
            step_spec(session, input).1,
        ),
        step_spec(session, input).1 is Deliver <==> session.state == SessionState::Streaming
            && input matches Input::Decoded(Ok(_)),
{
}

/// Over any run of inputs the count goes up by the number of records
/// delivered.
pub proof fn lemma_run_counts_records(session: SessionView, inputs: Seq<Input>)
    ensures
        run(session, inputs).received == session.received + records_delivered(session, inputs),
    decreases inputs.len(),
{
    if inputs.len() > 0 {
        lemma_run_counts_records(step_spec(session, inputs[0]).0, inputs.drop_first());
    }
}

/// Once a session has started, the keep-alive datagram is sent each time the
/// count of delivered records reaches a multiple of `KEEPALIVE_INTERVAL`, and
/// at no other time, whatever else arrives in between.
pub proof fn lemma_keepalive_cadence(session: SessionView, inputs: Seq<Input>)
    requires
        session.state != SessionState::Unstarted,
    ensures
        keepalives_sent(session, inputs) == (session.received + records_delivered(session, inputs))
            / (KEEPALIVE_INTERVAL as nat) - session.received / (KEEPALIVE_INTERVAL as nat),
    decreases inputs.len(),
{
    if inputs.len() > 0 {
        lemma_keepalive_cadence(step_spec(session, inputs[0]).0, inputs.drop_first());
    }
}

/// A session that starts with its first input sends one keep-alive datagram
/// then and one more for every `KEEPALIVE_INTERVAL` records delivered.
pub proof fn lemma_keepalives_from_start(inputs: Seq<Input>)
    requires
        inputs.len() > 0,
        inputs[0] == Input::SocketReady,
    ensures
        keepalives_sent(initial(), inputs) == 1 + records_delivered(initial(), inputs) / (
        KEEPALIVE_INTERVAL as nat),
{
    let started = step_spec(initial(), inputs[0]).0;
    lemma_keepalive_cadence(started, inputs.drop_first());
}

/// A streaming session that is given nothing but decoded records delivers
/// every one of them.
pub proof fn lemma_decoded_records_are_delivered(session: SessionView, inputs: Seq<Input>)
    requires
        session.state == SessionState::Streaming,
        forall|i: int| 0 <= i < inputs.len() ==> #[trigger] inputs[i] matches Input::Decoded(Ok(_)),
    ensures
        records_delivered(session, inputs) == inputs.len(),
        run(session, inputs).state == SessionState::Streaming,
    decreases inputs.len(),
{
    if inputs.len() > 0 {
        let rest = inputs.drop_first();
        assert forall|i: int| 0 <= i < rest.len() implies #[trigger] rest[i] matches Input::Decoded(
            Ok(_),
        ) by {
            assert(rest[i] == inputs[i + 1]);
        }
        lemma_decoded_records_are_delivered(step_spec(session, inputs[0]).0, rest);
    }
}

/// The inputs of a session that starts and is then given these records, one
/// after another, all of them decoded.
pub open spec fn start_then(records: Seq<Packet>) -> Seq<Input> {
    seq![Input::SocketReady] + Seq::new(records.len(), |i: int| Input::Decoded(Ok(records[i])))
}

/// A session that starts and then decodes `n` datagrams in a row sends the
/// keep-alive datagram once at the start and once after each full
/// `KEEPALIVE_INTERVAL` of them: `1 + n / 100` times.
pub proof fn lemma_keepalives_of_consecutive_records(records: Seq<Packet>)
    ensures
        keepalives_sent(initial(), start_then(records)) == 1 + records.len() / (
        KEEPALIVE_INTERVAL as nat),
        records_delivered(initial(), start_then(records)) == records.len(),
{
    let inputs = start_then(records);
    let rest = inputs.drop_first();
    let started = step_spec(initial(), inputs[0]).0;
    assert(rest.len() == records.len());
    assert forall|i: int| 0 <= i < rest.len() implies #[trigger] rest[i] matches Input::Decoded(
        Ok(_),
    ) by {
        assert(rest[i] == inputs[i + 1]);
    }
    lemma_decoded_records_are_delivered(started, rest);
    lemma_keepalives_from_start(inputs);
}

} // verus!
