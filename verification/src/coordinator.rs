//! The session coordinator: which session this node is in, whether it leads
//! it, who its members are, and when key generation starts.
//!
//! Every operation takes one event and answers with what the caller has to
//! do on the messaging bus and towards the worker.

use crate::identity::{be_value, leader_of, outranks, outranks_spec};
use crate::message::{session_topic, topic_name, NodeState, SessionMessage};
use crate::worker::KeyGenThreadOutput;
use vstd::prelude::*;

verus! {

/// What the caller does after an event, in this order: subscribe, publish
/// on the global topic, command the worker to start.
#[derive(Debug, PartialEq, Eq)]
pub struct Outcome {
    /// The topic to subscribe to.
    pub subscribe: Option<String>,
    /// The message to broadcast on the global topic.
    pub publish: Option<SessionMessage>,
    /// Threshold, total and own index of the ceremony to start.
    pub start: Option<(u16, u16, u16)>,
}

/// An `Outcome` as a mathematical value.
pub struct OutcomeView {
    pub subscribe: Option<Seq<char>>,
    pub publish: Option<SessionMessage>,
    pub start: Option<(u16, u16, u16)>,
}

impl View for Outcome {
    type V = OutcomeView;

    open spec fn view(&self) -> OutcomeView {
        OutcomeView {
            subscribe: match self.subscribe {
                Some(t) => Some(t@),
                None => None,
            },
            publish: self.publish,
            start: self.start,
        }
    }
}

impl OutcomeView {
    /// Nothing to do.
    pub open spec fn nothing() -> OutcomeView {
        OutcomeView { subscribe: None, publish: None, start: None }
    }
}

/// The coordinator as a mathematical value.
pub struct CoordinatorView {
    pub local_id: Seq<u8>,
    /// How many shares sign.
    pub threshold: u16,
    /// How many members a session waits for.
    pub expected: u16,
    pub state: NodeState,
    /// Whether this node has won a leader race.
    pub is_leader: bool,
    /// The session whose topic this node remembers, as its leader or by a
    /// `Create` that it applied.
    pub bound: Option<u64>,
    /// Who has joined the session, in the order of arrival.
    pub members: Seq<Seq<u8>>,
    /// The completed threshold key.
    pub key: Option<Seq<u8>>,
    /// Whether the session's ceremony failed. A failed session is over.
    pub failed: bool,
}

impl CoordinatorView {
    /// A node that has just proposed the session `session`.
    pub open spec fn initial(local_id: Seq<u8>, threshold: u16, expected: u16, session: u64) -> CoordinatorView {
        CoordinatorView {
            local_id,
            threshold,
            expected,
            state: NodeState::Joining(session),
            is_leader: false,
            bound: None,
            members: Seq::empty(),
            key: None,
            failed: false,
        }
    }

    /// No member is listed twice; a bound node is in the session it is bound
    /// to; an open membership is short of the expected count, a closed one
    /// has exactly that count and holds this node; the key is there exactly
    /// when the node is ready for signing.
    pub open spec fn wf(self) -> bool {
        &&& self.members.no_duplicates()
        &&& (self.bound is None ==> self.state is Joining && !self.is_leader)
        &&& (self.bound is Some ==> self.state.session() == self.bound->0)
        &&& (self.state is Joining ==> self.members.len() == 0)
        &&& (self.state is JoinedSession ==> self.expected == 0 || self.members.len()
            < self.expected)
        &&& (self.state is KeyGenRound1 || self.state is ReadyForSigning ==> self.members.len()
            == self.expected && self.members.contains(self.local_id))
        &&& (self.key is Some <==> self.state is ReadyForSigning)
        &&& (self.failed ==> self.state is KeyGenRound1)
    }

    /// Whether a `Join` from `sender` makes this node the leader: it holds
    /// the larger identity and is bound to no session.
    pub open spec fn eligible(self, sender: Seq<u8>) -> bool {
        outranks_spec(self.local_id, sender) && self.bound is None
    }

    /// The state after a `Join`: the leader of `session`, bound to it, where
    /// this node is eligible; unchanged otherwise.
    pub open spec fn after_join(self, session: u64, sender: Seq<u8>) -> CoordinatorView {
        if self.eligible(sender) {
            CoordinatorView {
                is_leader: true,
                state: NodeState::Joining(session),
                bound: Some(session),
                ..self
            }
        } else {
            self
        }
    }

    /// What a `Join` asks for: `Create(session)` from the node that became
    /// the leader, nothing from any other.
    pub open spec fn join_outcome(self, session: u64, sender: Seq<u8>) -> OutcomeView {
        if self.eligible(sender) {
            OutcomeView {
                subscribe: None,
                publish: Some(SessionMessage::Create(session)),
                start: None,
            }
        } else {
            OutcomeView::nothing()
        }
    }

    /// Whether a `Create` is applied: the node has not joined a session yet,
    /// and does not lead another one.
    pub open spec fn accepts_create(self, session: u64) -> bool {
        self.state is Joining && (self.bound is None || self.bound == Some(session))
    }

    /// The state after a `Create`: joined to `session` where it is applied;
    /// unchanged otherwise.
    pub open spec fn after_create(self, session: u64) -> CoordinatorView {
        if self.accepts_create(session) {
            CoordinatorView {
                state: NodeState::JoinedSession(session),
                bound: Some(session),
                ..self
            }
        } else {
            self
        }
    }

    /// What a `Create` asks for where it is applied: to subscribe to the
    /// session's topic and to broadcast `Joined(session)`.
    pub open spec fn create_outcome(self, session: u64) -> OutcomeView {
        if self.accepts_create(session) {
            OutcomeView {
                subscribe: Some(topic_name(session)),
                publish: Some(SessionMessage::Joined(session)),
                start: None,
            }
        } else {
            OutcomeView::nothing()
        }
    }

    /// Whether a `Joined` adds a member: the node has joined that session,
    /// membership is open, the sender is new, and the sender does not take
    /// the last place while this node itself is not yet listed.
    pub open spec fn accepts_joined(self, session: u64, sender: Seq<u8>) -> bool {
        &&& self.state == NodeState::JoinedSession(session)
        &&& !self.members.contains(sender)
        &&& !(self.members.len() + 1 == self.expected && sender != self.local_id
            && !self.members.contains(self.local_id))
    }

    /// Whether a `Joined` closes the membership and starts the ceremony.
    pub open spec fn completes(self, session: u64, sender: Seq<u8>) -> bool {
        self.accepts_joined(session, sender) && self.members.len() + 1 == self.expected
    }

    /// The state after a `Joined`: the sender is the next member where the
    /// message is accepted, and key generation begins where it completes
    /// the membership.
    pub open spec fn after_joined(self, session: u64, sender: Seq<u8>) -> CoordinatorView {
        if self.completes(session, sender) {
            CoordinatorView {
                state: NodeState::KeyGenRound1(session),
                members: self.members.push(sender),
                ..self
            }
        } else if self.accepts_joined(session, sender) {
            CoordinatorView { members: self.members.push(sender), ..self }
        } else {
            self
        }
    }

    /// The place of this node among the members, counted from 1.
    pub open spec fn own_index(self) -> int {
        self.members.index_of(self.local_id) + 1
    }

    /// What a `Joined` asks for: to start the ceremony with the threshold,
    /// the total and this node's own index where it completes the
    /// membership, nothing otherwise.
    pub open spec fn joined_outcome(self, session: u64, sender: Seq<u8>) -> OutcomeView {
        if self.completes(session, sender) {
            OutcomeView {
                subscribe: None,
                publish: None,
                start: Some(
                    (
                        self.threshold,
                        self.expected,
                        self.after_joined(session, sender).own_index() as u16,
                    ),
                ),
            }
        } else {
            OutcomeView::nothing()
        }
    }

    /// The state after the message `msg` from `sender`.
    pub open spec fn after(self, msg: SessionMessage, sender: Seq<u8>) -> CoordinatorView {
        match msg {
            SessionMessage::Join(s) => self.after_join(s, sender),
            SessionMessage::Create(s) => self.after_create(s),
            SessionMessage::Joined(s) => self.after_joined(s, sender),
        }
    }

    /// What the caller does after the message `msg` from `sender`.
    pub open spec fn outcome(self, msg: SessionMessage, sender: Seq<u8>) -> OutcomeView {
        match msg {
            SessionMessage::Join(s) => self.join_outcome(s, sender),
            SessionMessage::Create(s) => self.create_outcome(s),
            SessionMessage::Joined(s) => self.joined_outcome(s, sender),
        }
    }

    /// Whether a result of the worker completes the session: it is the key,
    /// and key generation is under way.
    pub open spec fn takes_key(self, result: KeyGenThreadOutput) -> bool {
        result is Key && self.state is KeyGenRound1 && !self.failed
    }

    /// The state after the worker reported that the ceremony failed: a
    /// session in key generation is marked as failed and stays as it is from
    /// then on; a new session takes a new proposal.
    pub open spec fn after_worker_failure(self) -> CoordinatorView {
        if self.state is KeyGenRound1 {
            CoordinatorView { failed: true, ..self }
        } else {
            self
        }
    }

    /// The state after a result of the worker: ready for signing, with the
    /// key, where the key is taken; unchanged otherwise.
    pub open spec fn after_worker_result(self, result: KeyGenThreadOutput) -> CoordinatorView {
        if self.takes_key(result) {
            CoordinatorView {
                state: NodeState::ReadyForSigning(self.state.session()),
                key: Some(result->Key_0@),
                ..self
            }
        } else {
            self
        }
    }
}

/// The identities of a list of members.
pub open spec fn ids(v: Seq<Vec<u8>>) -> Seq<Seq<u8>> {
    v.map_values(|x: Vec<u8>| x@)
}

/// The node's view of the session it is in and the part it plays.
pub struct SessionCoordinator {
    local_id: Vec<u8>,
    threshold: u16,
    expected: u16,
    state: NodeState,
    is_leader: bool,
    bound: Option<u64>,
    members: Vec<Vec<u8>>,
    key: Option<Vec<u8>>,
    failed: bool,
}

impl View for SessionCoordinator {
    type V = CoordinatorView;

    closed spec fn view(&self) -> CoordinatorView {
        CoordinatorView {
            local_id: self.local_id@,
            threshold: self.threshold,
            expected: self.expected,
            state: self.state,
            is_leader: self.is_leader,
            bound: self.bound,
            members: ids(self.members@),
            key: match self.key {
                Some(k) => Some(k@),
                None => None,
            },
            failed: self.failed,
        }
    }
}

/// Draws a session identifier with `rand::random::<u64>()`. Nothing is
/// claimed of the value that comes back. `rand` stops the program where
/// the system's source of randomness cannot be read.
#[verifier::external_body]
fn fresh_session_id() -> (id: u64) {
    rand::random::<u64>()
}

fn same_bytes(a: &Vec<u8>, b: &Vec<u8>) -> (r: bool)
    ensures
        r == (a@ == b@),
{
    if a.len() != b.len() {
        return false;
    }
    let mut k: usize = 0;
    while k < a.len()
        invariant
            k <= a.len(),
            a.len() == b.len(),
            forall|j: int| 0 <= j < k ==> a@[j] == b@[j],
        decreases a.len() - k,
    {
        if a[k] != b[k] {
            return false;
        }
        k += 1;
    }
    assert(a@ =~= b@);
    true
}

fn find(members: &Vec<Vec<u8>>, id: &Vec<u8>) -> (r: Option<usize>)
    ensures
        r is Some <==> ids(members@).contains(id@),
        r is Some ==> r->0 < members.len() && ids(members@)[r->0 as int] == id@,
{
    let mut k: usize = 0;
    while k < members.len()
        invariant
            k <= members.len(),
            forall|j: int| 0 <= j < k ==> ids(members@)[j] != id@,
        decreases members.len() - k,
    {
        if same_bytes(&members[k], id) {
            assert(ids(members@)[k as int] == id@);
            return Some(k);
        }
        k += 1;
    }
    None
}

impl SessionCoordinator {
    /// A node that proposes the session `session`: it is in `Joining`, leads
    /// nothing and knows no member.
    pub fn new(local_id: Vec<u8>, threshold: u16, expected: u16, session: u64) -> (c:
        SessionCoordinator)
        ensures
            c@ == CoordinatorView::initial(local_id@, threshold, expected, session),
            c@.wf(),
    {
        let c = SessionCoordinator {
            local_id,
            threshold,
            expected,
            state: NodeState::Joining(session),
            is_leader: false,
            bound: None,
            members: Vec::new(),
            key: None,
            failed: false,
        };
        assert(ids(c.members@) =~= Seq::<Seq<u8>>::empty());
        c
    }

    /// Proposes a session under a freshly drawn identifier: the node that
    /// `new` gives for it, and the `Join` to broadcast.
    pub fn propose(local_id: Vec<u8>, threshold: u16, expected: u16) -> (r: (
        SessionCoordinator,
        SessionMessage,
    ))
        ensures
            r.1 is Join,
            r.0@ == CoordinatorView::initial(local_id@, threshold, expected, r.1.session()),
            r.0@.wf(),
    {
        let session = fresh_session_id();
        (SessionCoordinator::new(local_id, threshold, expected, session), SessionMessage::Join(session))
    }

    /// Where the node stands.
    pub fn state(&self) -> (s: NodeState)
        ensures
            s == self@.state,
    {
        self.state
    }

    /// Whether this node has won a leader race.
    pub fn is_leader(&self) -> (b: bool)
        ensures
            b == self@.is_leader,
    {
        self.is_leader
    }

    /// Whether the session's ceremony failed.
    pub fn has_failed(&self) -> (b: bool)
        ensures
            b == self@.failed,
    {
        self.failed
    }

    /// How many members have joined.
    pub fn member_count(&self) -> (n: usize)
        ensures
            n == self@.members.len(),
    {
        self.members.len()
    }

    /// This node's index in the ceremony, counted from 1 in the order in
    /// which the members joined; known once the membership is closed.
    pub fn own_index(&self) -> (r: Option<u16>)
        requires
            self@.wf(),
        ensures
            r is Some <==> (self@.state is KeyGenRound1 || self@.state is ReadyForSigning),
            r is Some ==> r->0 == self@.own_index() && 1 <= r->0 <= self@.expected,
    {
        let closed = match self.state {
            NodeState::KeyGenRound1(_) => true,
            NodeState::ReadyForSigning(_) => true,
            _ => false,
        };
        if !closed {
            return None;
        }
        match find(&self.members, &self.local_id) {
            Some(j) => {
                proof {
                    let m = ids(self.members@);
                    let k = m.index_of(self.local_id@);
                    assert(0 <= k < m.len() && m[k] == self.local_id@);
                    assert(k == j);
                }
                Some((j + 1) as u16)
            },
            None => None,
        }
    }

    /// The topic of the session that this node is bound to.
    pub fn topic(&self) -> (t: Option<String>)
        ensures
            t is Some <==> self@.bound is Some,
            t is Some ==> t->0@ == topic_name(self@.bound->0),
    {
        match self.bound {
            Some(s) => Some(session_topic(s)),
            None => None,
        }
    }

    /// The threshold key, once the node is ready for signing.
    pub fn key(&self) -> (k: Option<&Vec<u8>>)
        ensures
            k is Some <==> self@.key is Some,
            k is Some ==> k->0@ == self@.key->0,
    {
        self.key.as_ref()
    }

    /// A peer proposed the session `session`.
    ///
    /// Where this node holds the larger identity and is bound to no session,
    /// it becomes the leader, is in `Joining(session)`, remembers the
    /// session's topic and broadcasts `Create(session)`. Otherwise nothing
    /// changes and nothing is sent.
    pub fn on_join(&mut self, session: u64, sender: Vec<u8>) -> (out: Outcome)
        requires
            old(self)@.wf(),
        ensures
            final(self)@ == old(self)@.after_join(session, sender@),
            final(self)@.wf(),
            out@ == old(self)@.join_outcome(session, sender@),
    {
        if self.bound.is_none() && outranks(self.local_id.as_slice(), sender.as_slice()) {
            self.is_leader = true;
            self.state = NodeState::Joining(session);
            self.bound = Some(session);
            Outcome { subscribe: None, publish: Some(SessionMessage::Create(session)), start: None }
        } else {
            Outcome { subscribe: None, publish: None, start: None }
        }
    }

    /// The leader confirmed the session `session`.
    ///
    /// A node that has not joined a session, and leads no other, subscribes
    /// to the session's topic, broadcasts `Joined(session)` and is in
    /// `JoinedSession(session)`. A second `Create` finds the node joined and
    /// changes and sends nothing.
    pub fn on_create(&mut self, session: u64) -> (out: Outcome)
        requires
            old(self)@.wf(),
        ensures
            final(self)@ == old(self)@.after_create(session),
            final(self)@.wf(),
            out@ == old(self)@.create_outcome(session),
    {
        let joining = match self.state {
            NodeState::Joining(_) => true,
            _ => false,
        };
        let free = match self.bound {
            None => true,
            Some(b) => b == session,
        };
        if joining && free {
            self.state = NodeState::JoinedSession(session);
            self.bound = Some(session);
            Outcome {
                subscribe: Some(session_topic(session)),
                publish: Some(SessionMessage::Joined(session)),
                start: None,
            }
        } else {
            Outcome { subscribe: None, publish: None, start: None }
        }
    }

    /// The peer `sender` joined the session `session`.
    ///
    /// While this node is in `JoinedSession(session)`, a new sender becomes
    /// the next member. When that brings the count to the expected total,
    /// membership is closed, the node is in `KeyGenRound1(session)`, and the
    /// ceremony starts with the threshold, the total and this node's place
    /// among the members. The last place goes to this node itself or to a
    /// sender that arrives after it, so that a closed membership always
    /// holds this node. A known sender, another session, or a closed
    /// membership changes nothing.
    pub fn on_joined(&mut self, session: u64, sender: Vec<u8>) -> (out: Outcome)
        requires
            old(self)@.wf(),
        ensures
            final(self)@ == old(self)@.after_joined(session, sender@),
            final(self)@.wf(),
            out@ == old(self)@.joined_outcome(session, sender@),
    {
        let nothing = Outcome { subscribe: None, publish: None, start: None };
        let here = match self.state {
            NodeState::JoinedSession(s) => s == session,
            _ => false,
        };
        if !here {
            return nothing;
        }
        if find(&self.members, &sender).is_some() {
            return nothing;
        }
        let count: usize = self.members.len();
        let last: bool = self.expected > 0 && count == (self.expected - 1) as usize;
        let sender_is_local = same_bytes(&sender, &self.local_id);
        let local_listed = find(&self.members, &self.local_id).is_some();
        if last && !sender_is_local && !local_listed {
            return nothing;
        }
        let ghost before = ids(self.members@);
        self.members.push(sender);
        proof {
            assert(ids(self.members@) =~= before.push(sender@));
            assert forall|i: int, j: int|
                0 <= i < before.len() + 1 && 0 <= j < before.len() + 1 && i != j implies before.push(
                sender@,
            )[i] != before.push(sender@)[j] by {
                if i < before.len() && j < before.len() {
                    assert(before[i] != before[j]);
                } else if i < before.len() {
                    assert(before.contains(before[i]));
                } else {
                    assert(before.contains(before[j]));
                }
            }
        }
        if !last {
            return nothing;
        }
        self.state = NodeState::KeyGenRound1(session);
        let at = find(&self.members, &self.local_id);
        proof {
            let m = ids(self.members@);
            if sender@ == self.local_id@ {
                assert(m[before.len() as int] == self.local_id@);
            } else {
                let j = choose|j: int| 0 <= j < before.len() && before[j] == self.local_id@;
                assert(m[j] == self.local_id@);
            }
            assert(m.contains(self.local_id@));
        }
        match at {
            Some(j) => {
                proof {
                    let m = ids(self.members@);
                    let k = m.index_of(self.local_id@);
                    assert(0 <= k < m.len() && m[k] == self.local_id@);
                    assert(k == j);
                }
                let own: u16 = (j + 1) as u16;
                Outcome {
                    subscribe: None,
                    publish: None,
                    start: Some((self.threshold, self.expected, own)),
                }
            },
            None => nothing,
        }
    }

    /// Takes one message from the global topic, sent by `sender`.
    pub fn handle(&mut self, msg: SessionMessage, sender: Vec<u8>) -> (out: Outcome)
        requires
            old(self)@.wf(),
        ensures
            final(self)@ == old(self)@.after(msg, sender@),
            final(self)@.wf(),
            out@ == old(self)@.outcome(msg, sender@),
    {
        match msg {
            SessionMessage::Join(s) => self.on_join(s, sender),
            SessionMessage::Create(s) => self.on_create(s),
            SessionMessage::Joined(s) => self.on_joined(s, sender),
        }
    }

    /// Takes one result of the worker.
    ///
    /// The key, while key generation is under way, is stored, and the node
    /// is ready for signing; nothing is handed back. Any other result, or a
    /// key at another time, leaves the node as it is and is handed back to
    /// the caller, who routes it to the peers.
    pub fn on_worker_result(&mut self, result: KeyGenThreadOutput) -> (rest: Option<
        KeyGenThreadOutput,
    >)
        requires
            old(self)@.wf(),
        ensures
            final(self)@ == old(self)@.after_worker_result(result),
            final(self)@.wf(),
            rest == if old(self)@.takes_key(result) {
                None
            } else {
                Some(result)
            },
    {
        let running = match self.state {
            NodeState::KeyGenRound1(_) => !self.failed,
            _ => false,
        };
        match result {
            KeyGenThreadOutput::Key(k) => {
                if running {
                    self.state = NodeState::ReadyForSigning(self.state.session_id());
                    self.key = Some(k);
                    None
                } else {
                    Some(KeyGenThreadOutput::Key(k))
                }
            },
            other => Some(other),
        }
    }
}

impl SessionCoordinator {
    /// The worker ended the ceremony without a key.
    ///
    /// A session in key generation is marked as failed; it takes no key any
    /// more. At any other time nothing changes.
    pub fn on_worker_failure(&mut self)
        requires
            old(self)@.wf(),
        ensures
            final(self)@ == old(self)@.after_worker_failure(),
            final(self)@.wf(),
    {
        match self.state {
            NodeState::KeyGenRound1(_) => {
                self.failed = true;
            },
            _ => {},
        }
    }
}

/// A session only moves forward: whatever message arrives, a node that is
/// in the same session afterwards is at least as far along it as before.
pub proof fn lemma_state_monotonic(c: CoordinatorView, msg: SessionMessage, sender: Seq<u8>)
    requires
        c.wf(),
    ensures
        c.after(msg, sender).wf(),
        c.after(msg, sender).state.session() == c.state.session() ==> c.state.rank() <= c.after(
            msg,
            sender,
        ).state.rank(),
        c.after(msg, sender).state.rank() <= c.state.rank() + 1,
{
    lemma_after_wf(c, msg, sender);
}

/// A result of the worker never moves a session back, nor to another session.
pub proof fn lemma_worker_result_monotonic(c: CoordinatorView, result: KeyGenThreadOutput)
    requires
        c.wf(),
    ensures
        c.after_worker_result(result).wf(),
        c.after_worker_result(result).state.session() == c.state.session(),
        c.state.rank() <= c.after_worker_result(result).state.rank(),
        c.after_worker_failure().wf(),
        c.after_worker_failure().state == c.state,
{
}

/// Two peers that race with a `Join` each, both bound to no session, elect
/// one leader: where their identities denote different numbers, exactly
/// one of them becomes the leader when it sees the other's `Join`, and it
/// is the one with the larger identity.
pub proof fn lemma_one_leader(a: CoordinatorView, b: CoordinatorView, sa: u64, sb: u64)
    requires
        a.wf(),
        b.wf(),
        a.bound is None,
        b.bound is None,
        be_value(a.local_id) != be_value(b.local_id),
    ensures
        a.after_join(sb, b.local_id).is_leader != b.after_join(sa, a.local_id).is_leader,
        a.after_join(sb, b.local_id).is_leader <==> leader_of(a.local_id, b.local_id)
            == a.local_id,
        b.after_join(sa, a.local_id).is_leader <==> leader_of(a.local_id, b.local_id)
            == b.local_id,
        a.after_join(sb, b.local_id).is_leader ==> a.join_outcome(sb, b.local_id).publish == Some(
            SessionMessage::Create(sb),
        ) && b.join_outcome(sa, a.local_id) == OutcomeView::nothing(),
{
}

proof fn lemma_after_wf(c: CoordinatorView, msg: SessionMessage, sender: Seq<u8>)
    requires
        c.wf(),
    ensures
        c.after(msg, sender).wf(),
{
    match msg {
        SessionMessage::Joined(s) => {
            if c.accepts_joined(s, sender) {
                let m = c.members.push(sender);
                assert forall|i: int, j: int| 0 <= i < m.len() && 0 <= j < m.len() && i != j implies m[i]
                    != m[j] by {
                    if i < c.members.len() && j < c.members.len() {
                        assert(c.members[i] != c.members[j]);
                    } else if i < c.members.len() {
                        assert(c.members.contains(c.members[i]));
                    } else {
                        assert(c.members.contains(c.members[j]));
                    }
                }
                if c.completes(s, sender) {
                    if sender == c.local_id {
                        assert(m[c.members.len() as int] == c.local_id);
                    } else {
                        let j = choose|j: int| 0 <= j < c.members.len() && c.members[j] == c.local_id;
                        assert(m[j] == c.local_id);
                    }
                }
            }
        },
        _ => {},
    }
}

/// Key generation starts exactly when the membership reaches the expected
/// total. A `Joined` starts it if and only if it adds a member and that
/// member is the last one expected; until then an open membership is short
/// of the total, and once key generation has started no `Joined` adds a
/// member or starts it again.
pub proof fn lemma_membership_freeze(c: CoordinatorView, session: u64, sender: Seq<u8>)
    requires
        c.wf(),
    ensures
        ({
            let after = c.after_joined(session, sender);
            let out = c.joined_outcome(session, sender);
            &&& (out.start is Some <==> c.accepts_joined(session, sender) && after.members.len()
                == c.expected)
            &&& (out.start is Some <==> c.state is JoinedSession && after.state is KeyGenRound1)
            &&& (out.start is Some ==> {
                let (t, n, i) = out.start->0;
                t == c.threshold && n == c.expected && 1 <= i <= n && after.members[i - 1]
                    == c.local_id
            })
            &&& (after.state is JoinedSession ==> after.members.len() != c.expected
                || c.expected == 0)
            &&& (c.state is KeyGenRound1 || c.state is ReadyForSigning ==> after == c
                && out.start is None)
            &&& (c.members.len() <= after.members.len() <= c.members.len() + 1)
        }),
{
    lemma_after_wf(c, SessionMessage::Joined(session), sender);
    if c.completes(session, sender) {
        let after = c.after_joined(session, sender);
        let k = after.members.index_of(c.local_id);
        assert(after.members.contains(c.local_id));
        assert(0 <= k < after.members.len() && after.members[k] == c.local_id);
    }
}

/// A failed session is over: no message, no result of the worker and no
/// further failure changes the node.
pub proof fn lemma_failed_is_terminal(
    c: CoordinatorView,
    msg: SessionMessage,
    sender: Seq<u8>,
    result: KeyGenThreadOutput,
)
    requires
        c.wf(),
        c.failed,
    ensures
        c.after(msg, sender) == c,
        c.outcome(msg, sender) == OutcomeView::nothing(),
        c.after_worker_result(result) == c,
        c.after_worker_failure() == c,
{
}

/// `Create` is applied once: after a `Create` for a session, the same
/// `Create` again changes nothing, and no second `Joined` is broadcast.
pub proof fn lemma_create_idempotent(c: CoordinatorView, session: u64)
    requires
        c.wf(),
    ensures
        ({
            let once = c.after_create(session);
            &&& once.wf()
            &&& once.after_create(session) == once
            &&& once.create_outcome(session) == OutcomeView::nothing()
        }),
{
}

} // verus!
