//! Peer identities and the leader tie-break.
//!
//! An identity is a byte string. Two peers racing to lead a session compare
//! their identities as unsigned big-endian integers; the larger one leads.

use vstd::prelude::*;

verus! {

/// The number that a byte string denotes when read as an unsigned
/// big-endian integer. The empty string denotes zero.
pub open spec fn be_value(s: Seq<u8>) -> nat
    decreases s.len(),
{
    if s.len() == 0 {
        0
    } else {
        be_value(s.drop_last()) * 256 + s.last() as nat
    }
}

/// The value of the first `k` bytes of `s`; zero where `k` is not positive.
pub open spec fn prefix_value(s: Seq<u8>, k: int) -> nat {
    if k <= 0 {
        0
    } else {
        be_value(s.take(k))
    }
}

/// Whether the peer `a` wins the tie-break against the peer `b`.
pub open spec fn outranks_spec(a: Seq<u8>, b: Seq<u8>) -> bool {
    be_value(a) > be_value(b)
}

/// The leader that a race between `a` and `b` elects.
pub open spec fn leader_of(a: Seq<u8>, b: Seq<u8>) -> Seq<u8> {
    if be_value(a) > be_value(b) {
        a
    } else {
        b
    }
}

proof fn lemma_prefix_step(s: Seq<u8>, k: int)
    requires
        k < s.len(),
    ensures
        prefix_value(s, k + 1) == if k < 0 {
            0
        } else {
            prefix_value(s, k) * 256 + s[k] as nat
        },
{
    if k >= 0 {
        let t = s.take(k + 1);
        assert(t.drop_last() =~= s.take(k));
        assert(t.last() == s[k]);
        assert(be_value(t) == be_value(t.drop_last()) * 256 + t.last() as nat);
        if k == 0 {
            assert(be_value(s.take(0)) == 0);
        }
    }
}

/// Decides the tie-break: `true` exactly when `a`, read as an unsigned
/// big-endian integer, is strictly larger than `b`.
pub fn outranks(a: &[u8], b: &[u8]) -> (r: bool)
    ensures
        r == outranks_spec(a@, b@),
{
    let la: usize = a.len();
    let lb: usize = b.len();
    let total: usize = if la > lb { la } else { lb };
    let pad_a: usize = total - la;
    let pad_b: usize = total - lb;
    let mut ahead = false;
    let mut behind = false;
    let mut p: usize = 0;
    while p < total
        invariant
            p <= total,
            la == a@.len(),
            lb == b@.len(),
            pad_a == total - la,
            pad_b == total - lb,
            !(ahead && behind),
            ahead ==> prefix_value(a@, p - pad_a) > prefix_value(b@, p - pad_b),
            behind ==> prefix_value(a@, p - pad_a) < prefix_value(b@, p - pad_b),
            !ahead && !behind ==> prefix_value(a@, p - pad_a) == prefix_value(b@, p - pad_b),
        decreases total - p,
    {
        let x: u8 = if p < pad_a { 0 } else { a[p - pad_a] };
        let y: u8 = if p < pad_b { 0 } else { b[p - pad_b] };
        proof {
            lemma_prefix_step(a@, p - pad_a);
            lemma_prefix_step(b@, p - pad_b);
        }
        if !ahead && !behind {
            if x > y {
                ahead = true;
            } else if x < y {
                behind = true;
            }
        }
        p += 1;
    }
    proof {
        assert(a@.take(la as int) =~= a@);
        assert(b@.take(lb as int) =~= b@);
    }
    ahead
}

/// Two identities of the same length that denote the same number are the
/// same identity.
pub proof fn lemma_value_injective(a: Seq<u8>, b: Seq<u8>)
    requires
        a.len() == b.len(),
        be_value(a) == be_value(b),
    ensures
        a == b,
    decreases a.len(),
{
    if a.len() > 0 {
        lemma_value_injective(a.drop_last(), b.drop_last());
        assert(a =~= a.drop_last().push(a.last()));
        assert(b =~= b.drop_last().push(b.last()));
    } else {
        assert(a =~= b);
    }
}

/// The tie-break is symmetric: two peers whose identities denote different
/// numbers each compute the same leader from the other's identity, exactly
/// one of them outranks the other, and the leader is the one that does.
pub proof fn lemma_tie_break_symmetric(a: Seq<u8>, b: Seq<u8>)
    requires
        be_value(a) != be_value(b),
    ensures
        leader_of(a, b) == leader_of(b, a),
        outranks_spec(a, b) != outranks_spec(b, a),
        outranks_spec(a, b) <==> leader_of(a, b) == a,
        outranks_spec(b, a) <==> leader_of(a, b) == b,
{
}

/// For distinct identities of one length the tie-break always elects
/// exactly one leader, and both peers agree on it.
pub proof fn lemma_tie_break_total(a: Seq<u8>, b: Seq<u8>)
    requires
        a.len() == b.len(),
        a != b,
    ensures
        leader_of(a, b) == leader_of(b, a),
        outranks_spec(a, b) != outranks_spec(b, a),
{
    if be_value(a) == be_value(b) {
        lemma_value_injective(a, b);
    }
}

} // verus!
