//! What peers broadcast, the states a node passes through, and the name of
//! a session's topic.

use vstd::prelude::*;
use vstd::string::StringExecFns;

verus! {

/// A message on the global topic.
#[derive(Clone, Copy, Debug, PartialEq, Eq, Structural)]
pub enum SessionMessage {
    /// A peer proposes a new session.
    Join(u64),
    /// The leader confirms the session; recipients subscribe to its topic.
    Create(u64),
    /// A peer has subscribed to the session's topic.
    Joined(u64),
}

impl SessionMessage {
    /// The session that the message speaks of.
    pub open spec fn session(self) -> u64 {
        match self {
            SessionMessage::Join(s) => s,
            SessionMessage::Create(s) => s,
            SessionMessage::Joined(s) => s,
        }
    }

    /// The session that the message speaks of.
    pub fn session_id(&self) -> (s: u64)
        ensures
            s == self.session(),
    {
        match *self {
            SessionMessage::Join(s) => s,
            SessionMessage::Create(s) => s,
            SessionMessage::Joined(s) => s,
        }
    }
}

/// Where a node stands in a session.
#[derive(Clone, Copy, Debug, PartialEq, Eq, Structural)]
pub enum NodeState {
    /// A `Join` was sent or seen; no `Create` yet.
    Joining(u64),
    /// Subscribed to the session's topic; `Joined` was broadcast.
    JoinedSession(u64),
    /// Membership is closed; key generation was commanded to start.
    KeyGenRound1(u64),
    /// The worker delivered the threshold key.
    ReadyForSigning(u64),
}

impl NodeState {
    /// The session that the state belongs to.
    pub open spec fn session(self) -> u64 {
        match self {
            NodeState::Joining(s) => s,
            NodeState::JoinedSession(s) => s,
            NodeState::KeyGenRound1(s) => s,
            NodeState::ReadyForSigning(s) => s,
        }
    }

    /// How far the state is along the session: 0 for `Joining`, 3 for
    /// `ReadyForSigning`.
    pub open spec fn rank(self) -> nat {
        match self {
            NodeState::Joining(_) => 0,
            NodeState::JoinedSession(_) => 1,
            NodeState::KeyGenRound1(_) => 2,
            NodeState::ReadyForSigning(_) => 3,
        }
    }

    /// The session that the state belongs to.
    pub fn session_id(&self) -> (s: u64)
        ensures
            s == self.session(),
    {
        match *self {
            NodeState::Joining(s) => s,
            NodeState::JoinedSession(s) => s,
            NodeState::KeyGenRound1(s) => s,
            NodeState::ReadyForSigning(s) => s,
        }
    }

    /// How far the state is along the session.
    pub fn progress(&self) -> (r: u8)
        ensures
            r == self.rank(),
    {
        match *self {
            NodeState::Joining(_) => 0,
            NodeState::JoinedSession(_) => 1,
            NodeState::KeyGenRound1(_) => 2,
            NodeState::ReadyForSigning(_) => 3,
        }
    }
}

/// The character of a decimal digit.
pub open spec fn digit(d: nat) -> char {
    if d == 0 {
        '0'
    } else if d == 1 {
        '1'
    } else if d == 2 {
        '2'
    } else if d == 3 {
        '3'
    } else if d == 4 {
        '4'
    } else if d == 5 {
        '5'
    } else if d == 6 {
        '6'
    } else if d == 7 {
        '7'
    } else if d == 8 {
        '8'
    } else {
        '9'
    }
}

/// A number in decimal, without leading zeros.
pub open spec fn decimal(n: nat) -> Seq<char>
    decreases n,
{
    if n < 10 {
        seq![digit(n)]
    } else {
        decimal(n / 10).push(digit(n % 10))
    }
}

/// The prefix of every session topic.
pub open spec fn topic_prefix() -> Seq<char> {
    "tss_session_"@
}

/// The name of the topic of the session `id`: the prefix, then `id` in decimal.
pub open spec fn topic_name(id: u64) -> Seq<char> {
    topic_prefix() + decimal(id as nat)
}

fn digit_str(d: u64) -> (s: &'static str)
    requires
        d < 10,
    ensures
        s@ == seq![digit(d as nat)],
{
    proof {
        reveal_strlit("0");
        reveal_strlit("1");
        reveal_strlit("2");
        reveal_strlit("3");
        reveal_strlit("4");
        reveal_strlit("5");
        reveal_strlit("6");
        reveal_strlit("7");
        reveal_strlit("8");
        reveal_strlit("9");
    }
    let s: &'static str = if d == 0 {
        "0"
    } else if d == 1 {
        "1"
    } else if d == 2 {
        "2"
    } else if d == 3 {
        "3"
    } else if d == 4 {
        "4"
    } else if d == 5 {
        "5"
    } else if d == 6 {
        "6"
    } else if d == 7 {
        "7"
    } else if d == 8 {
        "8"
    } else {
        "9"
    };
    assert(s@ =~= seq![digit(d as nat)]);
    s
}

fn append_decimal(out: &mut String, n: u64)
    ensures
        final(out)@ == old(out)@ + decimal(n as nat),
    decreases n,
{
    if n >= 10 {
        append_decimal(out, n / 10);
    }
    out.append(digit_str(n % 10));
    proof {
        if n >= 10 {
            assert(out@ =~= old(out)@ + decimal((n / 10) as nat).push(digit((n % 10) as nat)));
        } else {
            assert(out@ =~= old(out)@ + seq![digit(n as nat)]);
        }
    }
}

/// The name of the topic on which the members of the session `id` meet.
pub fn session_topic(id: u64) -> (name: String)
    ensures
        name@ == topic_name(id),
{
    let mut name = String::from_str("tss_session_");
    append_decimal(&mut name, id);
    name
}

} // verus!
