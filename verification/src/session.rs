//! The decisions of a running client: what it announces, what it does with
//! each message from the channel, and when it stops reconnecting.
use crate::model::Message;
use crate::model::Op;
use vstd::prelude::*;

verus! {

/// How many retries, in balance, may come faster than the threshold before
/// the client gives up connecting.
pub const MAX_RETRIES: usize = 5;

/// Retries closer together than this many seconds count as fast.
pub const RETRY_THRESHOLD_SECS: u64 = 3;

/// What the client does with a message from the channel.
#[derive(Clone, Copy, Debug, PartialEq, Eq, Structural)]
pub enum Reaction {
    /// Another client pressed the toggle key: toggle the local player.
    TogglePlayback,
    /// This client's own toggle came back: only measure the round trip from
    /// the local press; the player here is not toggled.
    RoundTrip,
    /// Note that a peer has joined.
    PeerJoined,
}

/// The reaction to a message with this operation and sender, on the client
/// with this identifier.
pub open spec fn reaction_to(op: Op, sender: Seq<char>, client_id: Seq<char>) -> Reaction {
    match op {
        Op::TogglePlay => if sender == client_id {
            Reaction::RoundTrip
        } else {
            Reaction::TogglePlayback
        },
        Op::Introduce => Reaction::PeerJoined,
    }
}

/// A client on the channel, known by its identifier.
pub struct Session {
    pub client_id: String,
}

impl Session {
    pub fn new(client_id: String) -> (s: Session)
        ensures
            s.client_id@ == client_id@,
    {
        Session { client_id }
    }

    /// The message announcing this client when it joins.
    pub fn introduction(&self) -> (m: Message)
        ensures
            m.sender@ == self.client_id@,
            m.op == Op::Introduce,
    {
        Message { sender: self.client_id.clone(), op: Op::Introduce }
    }

    /// The message broadcast when the toggle key is pressed here.
    pub fn toggle_request(&self) -> (m: Message)
        ensures
            m.sender@ == self.client_id@,
            m.op == Op::TogglePlay,
    {
        Message { sender: self.client_id.clone(), op: Op::TogglePlay }
    }

    /// What to do with a message from the channel. A toggle from this client
    /// comes back after a local press, whose time `pressed` says is known.
    pub fn react(&self, msg: &Message, pressed: bool) -> (r: Reaction)
        requires
            msg.op == Op::TogglePlay && msg.sender@ == self.client_id@ ==> pressed,
        ensures
            r == reaction_to(msg.op, msg.sender@, self.client_id@),
    {
        match msg.op {
            Op::TogglePlay => if msg.sender == self.client_id {
                Reaction::RoundTrip
            } else {
                Reaction::TogglePlayback
            },
            Op::Introduce => Reaction::PeerJoined,
        }
    }
}

/// A toggle toggles the player of every other client and not that of the
/// client that sent it, which only measures the round trip; an
/// introduction toggles no player.
pub proof fn lemma_toggles_reach_other_players(op: Op, sender: Seq<char>, client_id: Seq<char>)
    ensures
        op == Op::TogglePlay && sender != client_id ==> reaction_to(op, sender, client_id)
            == Reaction::TogglePlayback,
        op == Op::TogglePlay && sender == client_id ==> reaction_to(op, sender, client_id)
            == Reaction::RoundTrip,
        op == Op::Introduce ==> reaction_to(op, sender, client_id) == Reaction::PeerJoined,
        reaction_to(op, sender, client_id) == Reaction::TogglePlayback <==> (op == Op::TogglePlay
            && sender != client_id),
{
}

/// How a connection attempt failed on the pub-sub server's side.
#[derive(Clone, Copy, Debug, PartialEq, Eq, Structural)]
pub enum ServerFailure {
    /// The server's reply could not be parsed.
    Parse,
    /// The server refused the credentials.
    AuthenticationFailed,
    /// The server refused a write: it is read-only.
    ReadOnly,
    /// Anything else: lost connections, timeouts, other server errors.
    Other,
}

/// How a connection attempt ended.
#[derive(Clone, Copy, Debug, PartialEq, Eq, Structural)]
pub enum ConnectFailure {
    /// An error of the pub-sub client.
    Server(ServerFailure),
    /// Any other error: a message that is not valid JSON, a failed
    /// simulation, a clock that went backwards.
    Local,
}

/// What the client does after a connection attempt.
#[derive(Clone, Copy, Debug, PartialEq, Eq, Structural)]
pub enum AfterAttempt {
    /// Try again, if the retry budget allows.
    Retry,
    /// Stop with the attempt's error.
    GiveUp,
}

/// A failure that no retry can mend.
pub open spec fn is_permanent(f: ConnectFailure) -> bool {
    match f {
        ConnectFailure::Local => true,
        ConnectFailure::Server(k) => k == ServerFailure::Parse || k
            == ServerFailure::AuthenticationFailed || k == ServerFailure::ReadOnly,
    }
}

/// Whether to try again after an attempt that ended with `outcome`: after a
/// session that ended without error, and after a failure that a retry may
/// mend.
pub fn after_attempt(outcome: &Result<(), ConnectFailure>) -> (a: AfterAttempt)
    ensures
        a == (match outcome {
            Ok(()) => AfterAttempt::Retry,
            Err(f) => if is_permanent(*f) {
                AfterAttempt::GiveUp
            } else {
                AfterAttempt::Retry
            },
        }),
{
    match outcome {
        Ok(()) => AfterAttempt::Retry,
        Err(ConnectFailure::Local) => AfterAttempt::GiveUp,
        Err(ConnectFailure::Server(kind)) => match kind {
            ServerFailure::Parse | ServerFailure::AuthenticationFailed | ServerFailure::ReadOnly => {
                AfterAttempt::GiveUp
            },
            ServerFailure::Other => AfterAttempt::Retry,
        },
    }
}

/// The text of the error once the retry budget is spent.
pub fn retries_exhausted_message() -> (s: String)
    ensures
        s@ == "Connection failed after 5 consecutive retries"@,
{
    String::from_str("Connection failed after 5 consecutive retries")
}

} // verus!
