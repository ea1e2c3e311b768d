use vstd::prelude::*;

use crate::model::PendingAuthorization;

verus! {

/// A pending authorization together with the instant after which it is gone.
pub struct Pending {
    pub auth: PendingAuthorization,
    /// `None`: the entry never expires.
    pub expires_at: Option<u64>,
}

/// An entry is observable at `now` if it has no deadline or the deadline lies ahead.
pub open spec fn is_live(e: Pending, now: u64) -> bool {
    match e.expires_at {
        None => true,
        Some(d) => now < d,
    }
}

/// The deadline of an entry inserted at `now` with time to live `ttl`,
/// capped at the largest instant that can be written.
pub open spec fn deadline(now: u64, ttl: Option<u64>) -> Option<u64> {
    match ttl {
        None => None,
        Some(t) => Some(
            if now + t > u64::MAX {
                u64::MAX
            } else {
                (now + t) as u64
            },
        ),
    }
}

/// Whether the contents `m` hold an entry under `token` that is observable at `now`.
pub open spec fn live_in(m: Map<Seq<char>, Pending>, token: Seq<char>, now: u64) -> bool {
    m.contains_key(token) && is_live(m[token], now)
}

/// How many of a run of `take(token)` calls, made at the instants `nows` one
/// after the other on contents `m`, hand out an authorization.
pub open spec fn take_successes(m: Map<Seq<char>, Pending>, token: Seq<char>, nows: Seq<u64>) -> nat
    decreases nows.len(),
{
    if nows.len() == 0 {
        0
    } else {
        (if live_in(m, token, nows[0]) {
            1nat
        } else {
            0nat
        }) + take_successes(m.remove(token), token, nows.drop_first())
    }
}

proof fn lemma_absent_never_taken(m: Map<Seq<char>, Pending>, token: Seq<char>, nows: Seq<u64>)
    requires
        !m.contains_key(token),
    ensures
        take_successes(m, token, nows) == 0,
    decreases nows.len(),
{
    if nows.len() > 0 {
        assert(m.remove(token) =~= m);
        lemma_absent_never_taken(m.remove(token), token, nows.drop_first());
    }
}

/// Consume-once: of any run of takes of one token, at most one succeeds, and
/// exactly one does when the token was live at the first of them; every
/// take after the first finds nothing. A token that is absent or expired at
/// the first take is never handed out. Calls that race on a shared store are serialised
/// by its exclusive borrow, so they form such a run.
pub proof fn lemma_consume_once(m: Map<Seq<char>, Pending>, token: Seq<char>, nows: Seq<u64>)
    ensures
        take_successes(m, token, nows) <= 1,
        nows.len() > 0 && live_in(m, token, nows[0]) ==> take_successes(m, token, nows) == 1,
        nows.len() > 0 && !live_in(m, token, nows[0]) ==> take_successes(m, token, nows) == 0,
        nows.len() > 0 ==> take_successes(m.remove(token), token, nows.drop_first()) == 0,
{
    if nows.len() > 0 {
        lemma_absent_never_taken(m.remove(token), token, nows.drop_first());
    }
}

/// The sum of the code points of `s`.
pub open spec fn char_sum(s: Seq<char>) -> nat
    decreases s.len(),
{
    if s.len() == 0 {
        0
    } else {
        char_sum(s.drop_last()) + (s.last() as u32) as nat
    }
}

/// The shard, of `shards` stores that share the load, that holds `token`.
/// The same token always lands in the same shard, so each token is guarded
/// by one lock and unrelated tokens mostly by different ones.
pub fn shard_for(token: &String, shards: usize) -> (r: usize)
    requires
        shards > 0,
    ensures
        r < shards,
        r == char_sum(token@) % (shards as nat),
{
    let s = token.as_str();
    let n = s.unicode_len();
    let mut acc: usize = 0;
    let mut i: usize = 0;
    assert(char_sum(token@.subrange(0, 0)) == 0);
    assert(0nat % (shards as nat) == 0) by {
        vstd::arithmetic::div_mod::lemma_small_mod(0, shards as nat);
    }
    while i < n
        invariant
            s@ == token@,
            n == token@.len(),
            i <= n,
            shards > 0,
            acc < shards,
            acc == char_sum(token@.subrange(0, i as int)) % (shards as nat),
        decreases n - i,
    {
        let c = s.get_char(i);
        let cm = (c as u32 as usize) % shards;
        let ghost before = acc;
        acc = if acc >= shards - cm {
            acc - (shards - cm)
        } else {
            acc + cm
        };
        proof {
            let p = token@.subrange(0, i + 1);
            assert(p.drop_last() =~= token@.subrange(0, i as int));
            assert(p.last() == c);
            let x = char_sum(token@.subrange(0, i as int)) as int;
            let y = (c as u32) as int;
            let m = shards as int;
            vstd::arithmetic::div_mod::lemma_add_mod_noop(x, y, m);
            vstd::arithmetic::div_mod::lemma_mod_twice(x, m);
            vstd::arithmetic::div_mod::lemma_mod_twice(y, m);
            let t = before as int + cm as int;
            if t >= m {
                vstd::arithmetic::div_mod::lemma_mod_sub_multiples_vanish(t, m);
                vstd::arithmetic::div_mod::lemma_small_mod((t - m) as nat, m as nat);
            } else {
                vstd::arithmetic::div_mod::lemma_small_mod(t as nat, m as nat);
            }
            assert(acc as int == t % m);
        }
        i = i + 1;
    }
    assert(token@.subrange(0, n as int) =~= token@);
    acc
}

#[derive(Debug, PartialEq, Eq, Structural)]
pub enum StoreError {
    /// A live entry already holds this correlation token.
    DuplicateToken,
}

/// The store of pending authorizations, keyed by correlation token.
pub struct PendingStore {
    entries: Vec<Pending>,
    contents: Ghost<Map<Seq<char>, Pending>>,
}

pub open spec fn key_of(e: Pending) -> Seq<char> {
    e.auth.correlation_token@
}

impl PendingStore {
    /// Every stored entry, live or expired, by correlation token.
    pub closed spec fn view(&self) -> Map<Seq<char>, Pending> {
        self.contents@
    }

    pub closed spec fn wf(&self) -> bool {
        &&& forall|i: int|
            0 <= i < self.entries@.len() ==> #[trigger] self.contents@.contains_key(
                key_of(self.entries@[i]),
            ) && self.contents@[key_of(self.entries@[i])] == self.entries@[i]
        &&& forall|k: Seq<char>| #[trigger]
            self.contents@.contains_key(k) ==> exists|i: int|
                0 <= i < self.entries@.len() && key_of(#[trigger] self.entries@[i]) == k
        &&& forall|i: int, j: int|
            0 <= i < self.entries@.len() && 0 <= j < self.entries@.len() && key_of(
                #[trigger] self.entries@[i],
            ) == key_of(#[trigger] self.entries@[j]) ==> i == j
    }

    /// Whether `token` names an entry that can still be taken at `now`.
    pub open spec fn live(&self, token: Seq<char>, now: u64) -> bool {
        live_in(self@, token, now)
    }

    pub fn new() -> (r: PendingStore)
        ensures
            r.wf(),
            r@ == Map::<Seq<char>, Pending>::empty(),
    {
        PendingStore { entries: Vec::new(), contents: Ghost(Map::empty()) }
    }

    /// The position of the entry keyed by `token`, if any.
    fn find(&self, token: &String) -> (r: Option<usize>)
        requires
            self.wf(),
        ensures
            match r {
                None => !self@.contains_key(token@),
                Some(i) => i < self.entries@.len() && key_of(self.entries@[i as int]) == token@,
            },
    {
        let mut i: usize = 0;
        while i < self.entries.len()
            invariant
                self.wf(),
                i <= self.entries@.len(),
                forall|j: int| 0 <= j < i ==> key_of(#[trigger] self.entries@[j]) != token@,
            decreases self.entries@.len() - i,
        {
            if self.entries[i].auth.correlation_token == *token {
                return Some(i);
            }
            i = i + 1;
        }
        None
    }

    /// Removes the entry at position `i`.
    fn remove_at(&mut self, i: usize) -> (r: Pending)
        requires
            old(self).wf(),
            i < old(self).entries@.len(),
        ensures
            final(self).wf(),
            r == old(self).entries@[i as int],
            old(self)@.contains_key(key_of(r)),
            r == old(self)@[key_of(r)],
            final(self)@ == old(self)@.remove(key_of(r)),
    {
        let ghost old_entries = self.entries@;
        let ghost old_map = self.contents@;
        let e = self.entries.remove(i);
        let ghost k = key_of(e);
        self.contents = Ghost(old_map.remove(k));
        assert(old_map.contains_key(key_of(old_entries[i as int])));
        proof {
            let n = self.entries@;
            assert forall|j: int| 0 <= j < n.len() implies #[trigger] self.contents@.contains_key(
                key_of(n[j]),
            ) && self.contents@[key_of(n[j])] == n[j] by {
                if j < i {
                    assert(n[j] == old_entries[j]);
                    assert(key_of(old_entries[j]) != k);
                } else {
                    assert(n[j] == old_entries[j + 1]);
                    assert(key_of(old_entries[j + 1]) != k);
                }
            }
            assert forall|k2: Seq<char>| #[trigger]
                self.contents@.contains_key(k2) implies exists|j: int|
                0 <= j < n.len() && key_of(#[trigger] n[j]) == k2 by {
                let j0 = choose|j0: int|
                    0 <= j0 < old_entries.len() && key_of(#[trigger] old_entries[j0]) == k2;
                if j0 < i {
                    assert(n[j0] == old_entries[j0]);
                } else {
                    assert(j0 != i);
                    assert(n[j0 - 1] == old_entries[j0]);
                }
            }
            assert forall|a: int, b: int|
                0 <= a < n.len() && 0 <= b < n.len() && key_of(#[trigger] n[a]) == key_of(
                    #[trigger] n[b],
                ) implies a == b by {
                let a0 = if a < i { a } else { a + 1 };
                let b0 = if b < i { b } else { b + 1 };
                assert(n[a] == old_entries[a0]);
                assert(n[b] == old_entries[b0]);
            }
        }
        e
    }

    /// Adds an entry whose key is not stored yet.
    fn push_new(&mut self, e: Pending)
        requires
            old(self).wf(),
            !old(self)@.contains_key(key_of(e)),
        ensures
            final(self).wf(),
            final(self)@ == old(self)@.insert(key_of(e), e),
    {
        let ghost old_entries = self.entries@;
        let ghost k = key_of(e);
        self.contents = Ghost(self.contents@.insert(k, e));
        self.entries.push(e);
        proof {
            let n = self.entries@;
            assert(n[old_entries.len() as int] == e);
            assert forall|j: int| 0 <= j < n.len() implies #[trigger] self.contents@.contains_key(
                key_of(n[j]),
            ) && self.contents@[key_of(n[j])] == n[j] by {
                if j < old_entries.len() {
                    assert(n[j] == old_entries[j]);
                }
            }
            assert forall|k2: Seq<char>| #[trigger]
                self.contents@.contains_key(k2) implies exists|j: int|
                0 <= j < n.len() && key_of(#[trigger] n[j]) == k2 by {
                if k2 != k {
                    let j0 = choose|j0: int|
                        0 <= j0 < old_entries.len() && key_of(#[trigger] old_entries[j0]) == k2;
                    assert(n[j0] == old_entries[j0]);
                }
            }
            assert forall|a: int, b: int|
                0 <= a < n.len() && 0 <= b < n.len() && key_of(#[trigger] n[a]) == key_of(
                    #[trigger] n[b],
                ) implies a == b by {
                if a < old_entries.len() {
                    assert(n[a] == old_entries[a]);
                }
                if b < old_entries.len() {
                    assert(n[b] == old_entries[b]);
                }
            }
        }
    }

    /// Inserts a pending authorization under its correlation token, to expire
    /// `ttl` milliseconds after `now` (never, for `None`). A token that is
    /// still live is refused; an expired entry under the same token is replaced.
    pub fn put(&mut self, auth: PendingAuthorization, ttl: Option<u64>, now: u64) -> (r: Result<
        (),
        StoreError,
    >)
        requires
            old(self).wf(),
        ensures
            final(self).wf(),
            old(self).live(auth.correlation_token@, now) ==> r == Err::<(), StoreError>(
                StoreError::DuplicateToken,
            ) && final(self)@ == old(self)@,
            !old(self).live(auth.correlation_token@, now) ==> r is Ok && final(self)@ == old(
                self,
            )@.insert(
                auth.correlation_token@,
                Pending { auth, expires_at: deadline(now, ttl) },
            ),
    {
        let expires_at = match ttl {
            None => None,
            Some(t) => Some(now.saturating_add(t)),
        };
        match self.find(&auth.correlation_token) {
            Some(i) => {
                assert(self@.contains_key(key_of(self.entries@[i as int])));
                let live = match self.entries[i].expires_at {
                    None => true,
                    Some(d) => now < d,
                };
                if live {
                    return Err(StoreError::DuplicateToken);
                }
                self.remove_at(i);
            },
            None => {},
        }
        let ghost a = auth;
        self.push_new(Pending { auth, expires_at });
        assert(Pending { auth: a, expires_at } == Pending { auth: a, expires_at: deadline(now, ttl) });
        Ok(())
    }

    /// Removes the entry keyed by `token` and hands it out if it is still live
    /// at `now`. An expired entry is dropped and reported as absent.
    pub fn take(&mut self, token: &String, now: u64) -> (r: Option<PendingAuthorization>)
        requires
            old(self).wf(),
        ensures
            final(self).wf(),
            final(self)@ == old(self)@.remove(token@),
            r == (if old(self).live(token@, now) {
                Some(old(self)@[token@].auth)
            } else {
                None::<PendingAuthorization>
            }),
    {
        match self.find(token) {
            None => {
                assert(self@.remove(token@) =~= self@);
                None
            },
            Some(i) => {
                let e = self.remove_at(i);
                match e.expires_at {
                    None => Some(e.auth),
                    Some(d) => if now < d {
                        Some(e.auth)
                    } else {
                        None
                    },
                }
            },
        }
    }
}

} // verus!
