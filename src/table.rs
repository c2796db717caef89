//! The correlation table: which tokens still wait for a response, and the
//! single-use completion slot of each.

use vstd::prelude::*;
use crate::echo::{decimal, lemma_decimal_injective};
use vstd::arithmetic::div_mod::lemma_mod_add_multiples_vanish;
use crate::response::OneBotResponse;
use dashmap::DashMap;
use tokio::sync::oneshot::Sender;

verus! {

#[verifier::external_type_specification]
#[verifier::external_body]
#[verifier::reject_recursive_types(K)]
#[verifier::reject_recursive_types(V)]
#[verifier::reject_recursive_types(S)]
pub struct ExDashMap<K, V, S>(DashMap<K, V, S>);

#[verifier::external_type_specification]
#[verifier::external_body]
#[verifier::reject_recursive_types(T)]
pub struct ExSender<T>(Sender<T>);

/// What a map of completion slots holds: the slot filed under each token.
pub uninterp spec fn slot_map(m: DashMap<u64, Sender<OneBotResponse>>) -> Map<u64, Sender<OneBotResponse>>;

/// Relies on `DashMap::with_capacity`: a new map has no entries.
#[verifier::external_body]
fn new_slot_map() -> (r: DashMap<u64, Sender<OneBotResponse>>)
    ensures
        slot_map(r).dom() == Set::<u64>::empty(),
{
    DashMap::with_capacity(128)
}

/// Relies on `DashMap::insert`: afterwards `v` is filed under `k`, the other
/// entries are untouched, and the old value for `k`, if any, comes back.
#[verifier::external_body]
fn slot_insert(
    m: &mut DashMap<u64, Sender<OneBotResponse>>,
    k: u64,
    v: Sender<OneBotResponse>,
) -> (r: Option<Sender<OneBotResponse>>)
    ensures
        slot_map(*final(m)) == slot_map(*old(m)).insert(k, v),
        r is Some == slot_map(*old(m)).contains_key(k),
        r matches Some(w) ==> w == slot_map(*old(m))[k],
{
    m.insert(k, v)
}

/// Relies on `DashMap::remove`: afterwards `k` has no entry, the other
/// entries are untouched, and the value that was filed under `k` comes back
/// when there was one.
#[verifier::external_body]
fn slot_remove(m: &mut DashMap<u64, Sender<OneBotResponse>>, k: u64) -> (r: Option<
    Sender<OneBotResponse>,
>)
    ensures
        slot_map(*final(m)) == slot_map(*old(m)).remove(k),
        r is Some == slot_map(*old(m)).contains_key(k),
        r matches Some(w) ==> w == slot_map(*old(m))[k],
{
    m.remove(&k).map(|(_, v)| v)
}

/// Relies on `DashMap::contains_key`.
#[verifier::external_body]
fn slot_contains(m: &DashMap<u64, Sender<OneBotResponse>>, k: u64) -> (r: bool)
    ensures
        r == slot_map(*m).contains_key(k),
{
    m.contains_key(&k)
}

/// Relies on `oneshot::Sender::send`: hands the response to the waiting
/// caller; `false` when that caller has stopped waiting.
#[verifier::external_body]
fn slot_send(s: Sender<OneBotResponse>, resp: OneBotResponse) -> (r: bool) {
    s.send(resp).is_ok()
}

/// Pending calls of one connection, and the counter that names new calls.
pub struct CorrelationTable {
    slots: DashMap<u64, Sender<OneBotResponse>>,
    next: u64,
    stride: u64,
    issued: Ghost<Set<u64>>,
    handed: Ghost<Seq<(Sender<OneBotResponse>, OneBotResponse)>>,
}

impl CorrelationTable {
    /// The completion slot filed under each outstanding token.
    pub closed spec fn slots(&self) -> Map<u64, Sender<OneBotResponse>> {
        slot_map(self.slots)
    }

    /// Tokens of the calls that are still outstanding.
    pub open spec fn pending(&self) -> Set<u64> {
        self.slots().dom()
    }

    /// The slot filed under `token`.
    pub open spec fn slot_of(&self, token: u64) -> Sender<OneBotResponse> {
        self.slots()[token]
    }

    /// Every token this table has handed out so far.
    pub closed spec fn issued(&self) -> Set<u64> {
        self.issued@
    }

    /// Every response handed over so far, with the slot it was handed to, in
    /// the order the hand-overs happened.
    pub closed spec fn handed(&self) -> Seq<(Sender<OneBotResponse>, OneBotResponse)> {
        self.handed@
    }

    /// The token the next registration will receive.
    pub closed spec fn next_token(&self) -> u64 {
        self.next
    }

    /// Distance between successive tokens of this table.
    pub closed spec fn stride(&self) -> u64 {
        self.stride
    }

    /// Every token of this table leaves this remainder when divided by the stride.
    pub open spec fn residue(&self) -> u64 {
        (self.next_token() % self.stride()) as u64
    }

    /// Outstanding tokens were all handed out; handed-out tokens are all below
    /// the counter and share its remainder modulo the stride.
    pub closed spec fn wf(&self) -> bool {
        &&& 1 <= self.stride
        &&& self.pending().subset_of(self.issued@)
        &&& forall|t: u64| #[trigger] self.issued@.contains(t) ==> t < self.next && t % self.stride == self.next % self.stride
    }

    /// A table whose tokens are 1, 2, 3, ...
    pub fn new() -> (r: Self)
        ensures
            r.wf(),
            r.slots() == Map::<u64, Sender<OneBotResponse>>::empty(),
            r.issued() == Set::<u64>::empty(),
            r.handed() == Seq::<(Sender<OneBotResponse>, OneBotResponse)>::empty(),
            r.next_token() == 1,
            r.stride() == 1,
    {
        Self::sharded(0, 1)
    }

    /// Shard `shard` of `shards` tables that share one connection: its tokens
    /// are the positive numbers that leave remainder `shard` when divided by
    /// `shards`, so no two shards ever issue the same token.
    pub fn sharded(shard: u64, shards: u64) -> (r: Self)
        requires
            shard < shards,
        ensures
            r.wf(),
            r.slots() == Map::<u64, Sender<OneBotResponse>>::empty(),
            r.issued() == Set::<u64>::empty(),
            r.handed() == Seq::<(Sender<OneBotResponse>, OneBotResponse)>::empty(),
            r.next_token() == if shard == 0 { shards } else { shard },
            r.stride() == shards,
            r.residue() == shard,
    {
        let first = if shard == 0 { shards } else { shard };
        proof {
            if shard == 0 {
                assert(shards % shards == 0) by (nonlinear_arith) requires shards >= 1;
            } else {
                assert(shard % shards == shard) by (nonlinear_arith) requires shard < shards;
            }
        }
        let r = CorrelationTable {
            slots: new_slot_map(),
            next: first,
            stride: shards,
            issued: Ghost(Set::empty()),
            handed: Ghost(Seq::empty()),
        };
        assert(r.slots() =~= Map::<u64, Sender<OneBotResponse>>::empty());
        r
    }

    /// Allocates a fresh token and files `slot` under it. `None` only when the
    /// counter has run out, and then nothing changes.
    pub fn register(&mut self, slot: Sender<OneBotResponse>) -> (r: Option<u64>)
        requires
            old(self).wf(),
        ensures
            final(self).wf(),
            final(self).handed() == old(self).handed(),
            final(self).stride() == old(self).stride(),
            final(self).residue() == old(self).residue(),
            match r {
                Some(t) => {
                    &&& t == old(self).next_token()
                    &&& t % old(self).stride() == old(self).residue()
                    &&& !old(self).issued().contains(t)
                    &&& !old(self).pending().contains(t)
                    &&& final(self).slots() == old(self).slots().insert(t, slot)
                    &&& final(self).slot_of(t) == slot
                    &&& final(self).issued() == old(self).issued().insert(t)
                    &&& final(self).next_token() == t + old(self).stride()
                },
                None => {
                    &&& old(self).next_token() > u64::MAX - old(self).stride()
                    &&& final(self).slots() == old(self).slots()
                    &&& final(self).issued() == old(self).issued()
                    &&& final(self).next_token() == old(self).next_token()
                },
            },
    {
        if self.next > u64::MAX - self.stride {
            return None;
        }
        let t = self.next;
        let ghost s = slot;
        let _ = slot_insert(&mut self.slots, t, slot);
        self.next = t + self.stride;
        proof {
            lemma_mod_add_multiples_vanish(t as int, self.stride as int);
        }
        self.issued = Ghost(self.issued@.insert(t));
        assert(self.pending() =~= old(self).pending().insert(t));
        assert(slot_map(self.slots)[t] == s);
        Some(t)
    }

    /// Whether `token` still waits for its response.
    pub fn is_pending(&self, token: u64) -> (r: bool)
        ensures
            r == self.pending().contains(token),
    {
        slot_contains(&self.slots, token)
    }

    /// Hands `resp` to the slot filed under `token` and removes the entry.
    /// `true` exactly when `token` was outstanding; otherwise nothing changes
    /// and nothing is handed over.
    pub fn complete(&mut self, token: u64, resp: OneBotResponse) -> (r: bool)
        requires
            old(self).wf(),
        ensures
            final(self).wf(),
            r == old(self).pending().contains(token),
            final(self).slots() == old(self).slots().remove(token),
            r ==> final(self).handed() == old(self).handed().push((old(self).slot_of(token), resp)),
            !r ==> final(self).handed() == old(self).handed(),
            final(self).issued() == old(self).issued(),
            final(self).next_token() == old(self).next_token(),
            final(self).stride() == old(self).stride(),
    {
        match slot_remove(&mut self.slots, token) {
            Some(slot) => {
                let ghost pair = (slot, resp);
                self.handed = Ghost(self.handed@.push(pair));
                assert(self.pending() =~= old(self).pending().remove(token));
                let _ = slot_send(slot, resp);
                true
            },
            None => {
                assert(self.pending() =~= old(self).pending().remove(token));
                false
            },
        }
    }

    /// Removes the entry for `token` without completing it (timeout, failed
    /// send). `true` exactly when `token` was outstanding.
    pub fn cancel(&mut self, token: u64) -> (r: bool)
        requires
            old(self).wf(),
        ensures
            final(self).wf(),
            r == old(self).pending().contains(token),
            final(self).slots() == old(self).slots().remove(token),
            final(self).handed() == old(self).handed(),
            final(self).issued() == old(self).issued(),
            final(self).next_token() == old(self).next_token(),
            final(self).stride() == old(self).stride(),
    {
        let r = slot_remove(&mut self.slots, token).is_some();
        assert(self.pending() =~= old(self).pending().remove(token));
        r
    }
}

/// A token is completed at most once: once `complete` or `cancel` has
/// removed `token` (leaving `pending.remove(token)`), a later `complete` or
/// `cancel` of it finds no entry, reports `false`, and changes nothing.
pub proof fn lemma_complete_at_most_once(pending: Set<u64>, token: u64)
    ensures
        !pending.remove(token).contains(token),
        pending.remove(token).remove(token) == pending.remove(token),
{
    assert(pending.remove(token).remove(token) =~= pending.remove(token));
}

proof fn lemma_issued_stays(tokens: Seq<u64>, issued: Seq<Set<u64>>, i: int, j: int)
    requires
        issued.len() == tokens.len() + 1,
        forall|k: int| 0 <= k < tokens.len() ==> #[trigger] issued[k + 1] == issued[k].insert(tokens[k]),
        0 <= i < j <= tokens.len(),
    ensures
        issued[j].contains(tokens[i]),
    decreases j - i,
{
    if j > i + 1 {
        lemma_issued_stays(tokens, issued, i, j - 1);
        assert(issued[(j - 1) + 1] == issued[j - 1].insert(tokens[j - 1]));
    } else {
        assert(issued[i + 1] == issued[i].insert(tokens[i]));
    }
}

/// Tokens handed out by successive registrations are pairwise distinct, and
/// so are their echo texts: each registration returns a token missing from
/// the set issued before it, and adds it to that set.
pub proof fn lemma_tokens_pairwise_distinct(tokens: Seq<u64>, issued: Seq<Set<u64>>)
    requires
        issued.len() == tokens.len() + 1,
        forall|k: int| 0 <= k < tokens.len() ==> !(#[trigger] issued[k]).contains(tokens[k]),
        forall|k: int| 0 <= k < tokens.len() ==> #[trigger] issued[k + 1] == issued[k].insert(tokens[k]),
    ensures
        forall|i: int, j: int| 0 <= i < j < tokens.len() ==> {
            &&& tokens[i] != tokens[j]
            &&& decimal(tokens[i] as nat) != decimal(tokens[j] as nat)
        },
{
    assert forall|i: int, j: int| 0 <= i < j < tokens.len() implies {
        &&& tokens[i] != tokens[j]
        &&& decimal(tokens[i] as nat) != decimal(tokens[j] as nat)
    } by {
        lemma_issued_stays(tokens, issued, i, j);
        assert(!issued[j].contains(tokens[j]));
        lemma_decimal_injective(tokens[i] as nat, tokens[j] as nat);
    }
}

/// Shards of one connection never issue the same token: tokens of shards
/// with different remainders modulo the shard count differ, and so do their
/// echo texts.
pub proof fn lemma_shard_tokens_distinct(a: u64, b: u64, shards: u64)
    requires
        shards >= 1,
        a % shards != b % shards,
    ensures
        a != b,
        decimal(a as nat) != decimal(b as nat),
{
    lemma_decimal_injective(a as nat, b as nat);
}

} // verus!
