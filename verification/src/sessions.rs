//! Session bookkeeping: the hashes of issued refresh and one-time tokens,
//! each with its expiry, and the keys under which they are stored.

use vstd::prelude::*;

use crate::credentials::{argon2_verify, hash_encoded, random_salt, utf8_bytes, verifies, verify_encoded};
use crate::error::Error;

verus! {

/// The earliest Unix time, in seconds, that `time` represents: the start of
/// the year -9999, UTC.
pub const EARLIEST_UNIX_TIME: i64 = -377705203200;

/// The latest Unix time, in seconds, that `time` represents: the last second
/// of the year 9999, UTC.
pub const LATEST_UNIX_TIME: i64 = 253402300799;

/// Whether a value can be a reading of the system clock in Unix seconds.
pub open spec fn clock_seconds(t: i64) -> bool {
    EARLIEST_UNIX_TIME <= t <= LATEST_UNIX_TIME
}

/// `OffsetDateTime::now_utc().unix_timestamp()`: the Unix time of the
/// system clock, in whole seconds. What the clock reads is not promised.
/// `time` represents only the years -9999 to 9999 (the crate does not enable
/// its `large-dates` feature), and `now_utc` adds the clock's offset from the
/// Unix epoch with an addition that panics outside that range, so a reading
/// that is returned lies in it.
#[verifier::external_body]
pub(crate) fn now_unix_timestamp() -> (t: i64)
    ensures
        clock_seconds(t),
{
    time::OffsetDateTime::now_utc().unix_timestamp()
}

/// The abstract contents of a session table: token hash and expiry, in the
/// order the entries were first stored.
pub open spec fn entry_views(v: Seq<(String, i64)>) -> Seq<(Seq<char>, i64)> {
    v.map_values(|e: (String, i64)| (e.0@, e.1))
}

/// No hash occurs twice.
pub open spec fn distinct_hashes(s: Seq<(Seq<char>, i64)>) -> bool {
    forall|i: int, j: int| 0 <= i < s.len() && 0 <= j < s.len() && i != j ==> s[i].0 != s[j].0
}

/// The position of a hash in a table, if stored.
pub open spec fn position_of(s: Seq<(Seq<char>, i64)>, h: Seq<char>) -> Option<int> {
    if exists|i: int| 0 <= i < s.len() && s[i].0 == h {
        Some(choose|i: int| 0 <= i < s.len() && s[i].0 == h)
    } else {
        None
    }
}

/// A table after storing `h` with expiry `exp`: a stored hash gets the new
/// expiry in place, a new hash is added at the end.
pub open spec fn stored(s: Seq<(Seq<char>, i64)>, h: Seq<char>, exp: i64) -> Seq<(Seq<char>, i64)> {
    match position_of(s, h) {
        Some(i) => s.update(i, (h, exp)),
        None => s.push((h, exp)),
    }
}

/// The entries of a table that expire after `now`.
pub open spec fn unexpired(s: Seq<(Seq<char>, i64)>, now: i64) -> Seq<(Seq<char>, i64)> {
    s.filter(|e: (Seq<char>, i64)| e.1 > now)
}

/// Whether a stored hash verifies a token.
pub open spec fn matches_token(e: (Seq<char>, i64), token: Seq<u8>) -> bool {
    argon2_verify(e.0, token) == Some(true)
}

/// Whether some stored hash verifies a token.
pub open spec fn holds_token(s: Seq<(Seq<char>, i64)>, token: Seq<u8>) -> bool {
    exists|i: int| 0 <= i < s.len() && matches_token(s[i], token)
}

/// `i` is the first position whose hash verifies the token.
pub open spec fn first_match_at(s: Seq<(Seq<char>, i64)>, token: Seq<u8>, i: int) -> bool {
    &&& 0 <= i < s.len()
    &&& matches_token(s[i], token)
    &&& forall|j: int| 0 <= j < i ==> !matches_token(#[trigger] s[j], token)
}

/// One step of the filter: the last entry is kept iff it has not expired.
proof fn lemma_unexpired_step(s: Seq<(Seq<char>, i64)>, now: i64)
    requires
        s.len() > 0,
    ensures
        unexpired(s, now) == (if s.last().1 > now {
            unexpired(s.drop_last(), now).push(s.last())
        } else {
            unexpired(s.drop_last(), now)
        }),
{
    reveal_with_fuel(Seq::<(Seq<char>, i64)>::filter, 1);
}

/// Every entry kept by the filter is an entry of the table.
proof fn lemma_unexpired_from(s: Seq<(Seq<char>, i64)>, now: i64, k: int)
    requires
        0 <= k < unexpired(s, now).len(),
    ensures
        exists|j: int| 0 <= j < s.len() && s[j] == unexpired(s, now)[k],
    decreases s.len(),
{
    let t = s.drop_last();
    let f = unexpired(t, now);
    assert(s.len() > 0);
    lemma_unexpired_step(s, now);
    if k < f.len() {
        lemma_unexpired_from(t, now, k);
        let j = choose|j: int| 0 <= j < t.len() && t[j] == f[k];
        assert(s[j] == t[j]);
    } else {
        assert(s[s.len() - 1] == unexpired(s, now)[k]);
    }
}

/// Filtering keeps hashes distinct.
proof fn lemma_filter_distinct(s: Seq<(Seq<char>, i64)>, now: i64)
    requires
        distinct_hashes(s),
    ensures
        distinct_hashes(unexpired(s, now)),
    decreases s.len(),
{
    if s.len() > 0 {
        let t = s.drop_last();
        assert(distinct_hashes(t));
        lemma_filter_distinct(t, now);
        lemma_unexpired_step(s, now);
        if s.last().1 > now {
            let f = unexpired(t, now);
            assert forall|k: int| 0 <= k < f.len() implies f[k].0 != s.last().0 by {
                lemma_unexpired_from(t, now, k);
                let j = choose|j: int| 0 <= j < t.len() && t[j] == f[k];
                assert(s[j] == t[j]);
                assert(j != s.len() - 1);
            }
        }
    }
}

/// Every entry kept by the filter has not expired, and filtering twice at
/// the same time keeps what filtering once kept.
pub proof fn law_clearing_expired_is_idempotent(s: Seq<(Seq<char>, i64)>, now: i64)
    ensures
        forall|k: int| 0 <= k < unexpired(s, now).len() ==> #[trigger] unexpired(s, now)[k].1 > now,
        unexpired(unexpired(s, now), now) == unexpired(s, now),
{
    let f = unexpired(s, now);
    assert forall|k: int| 0 <= k < f.len() implies #[trigger] f[k].1 > now by {
        lemma_unexpired_from(s, now, k);
    }
    lemma_unexpired_keeps_all(f, now);
}

/// Filtering a table whose entries all expire after `now` keeps it whole.
proof fn lemma_unexpired_keeps_all(s: Seq<(Seq<char>, i64)>, now: i64)
    requires
        forall|k: int| 0 <= k < s.len() ==> #[trigger] s[k].1 > now,
    ensures
        unexpired(s, now) == s,
    decreases s.len(),
{
    if s.len() > 0 {
        lemma_unexpired_step(s, now);
        let t = s.drop_last();
        assert forall|k: int| 0 <= k < t.len() implies #[trigger] t[k].1 > now by {
            assert(t[k] == s[k]);
        }
        lemma_unexpired_keeps_all(t, now);
        assert(t.push(s.last()) =~= s);
    } else {
        assert(unexpired(s, now) =~= s);
    }
}

/// If no entry of a table verifies a token, no entry of the table after
/// dropping expired entries does.
proof fn lemma_unexpired_no_match(s: Seq<(Seq<char>, i64)>, now: i64, token: Seq<u8>)
    requires
        !holds_token(s, token),
    ensures
        !holds_token(unexpired(s, now), token),
{
    let f = unexpired(s, now);
    assert forall|k: int| 0 <= k < f.len() implies !matches_token(#[trigger] f[k], token) by {
        lemma_unexpired_from(s, now, k);
        let j = choose|j: int| 0 <= j < s.len() && s[j] == f[k];
        assert(!matches_token(s[j], token));
    }
}

/// Every entry of `s` that expires after the latest time the clock can read
/// is still in `t`.
pub open spec fn keeps_lasting(s: Seq<(Seq<char>, i64)>, t: Seq<(Seq<char>, i64)>) -> bool {
    forall|i: int| 0 <= i < s.len() && s[i].1 > LATEST_UNIX_TIME ==> #[trigger] t.contains(s[i])
}

/// Every entry of `t` is an entry of `s` that expires after the earliest
/// time the clock can read.
pub open spec fn keeps_only_live(s: Seq<(Seq<char>, i64)>, t: Seq<(Seq<char>, i64)>) -> bool {
    forall|e: (Seq<char>, i64)| #[trigger] t.contains(e) ==> s.contains(e) && e.1 > EARLIEST_UNIX_TIME
}

/// Some entry of `s` that expires after the latest time the clock can read
/// verifies the token.
pub open spec fn lasting_match(s: Seq<(Seq<char>, i64)>, token: Seq<u8>) -> bool {
    exists|i: int| 0 <= i < s.len() && s[i].1 > LATEST_UNIX_TIME && matches_token(#[trigger] s[i], token)
}

/// Some entry of `s` that expires after the earliest time the clock can
/// read verifies the token.
pub open spec fn live_match(s: Seq<(Seq<char>, i64)>, token: Seq<u8>) -> bool {
    exists|i: int| 0 <= i < s.len() && s[i].1 > EARLIEST_UNIX_TIME && matches_token(#[trigger] s[i], token)
}

/// Dropping the entries expired at a reading of the clock keeps every entry
/// that outlasts every reading, and keeps only entries of the table that
/// outlast the earliest reading; so a token that such a lasting entry
/// verifies is still held, and a token still held was verified by a live
/// entry.
pub proof fn law_clock_filter(s: Seq<(Seq<char>, i64)>, now: i64, token: Seq<u8>)
    requires
        clock_seconds(now),
    ensures
        keeps_lasting(s, unexpired(s, now)),
        keeps_only_live(s, unexpired(s, now)),
        lasting_match(s, token) ==> holds_token(unexpired(s, now), token),
        holds_token(unexpired(s, now), token) ==> live_match(s, token),
{
    let f = unexpired(s, now);
    s.filter_lemma(|e: (Seq<char>, i64)| e.1 > now);
    assert forall|e: (Seq<char>, i64)| #[trigger] f.contains(e) implies s.contains(e) && e.1 > EARLIEST_UNIX_TIME by {
        let k = choose|k: int| 0 <= k < f.len() && f[k] == e;
        lemma_unexpired_from(s, now, k);
    }
    if lasting_match(s, token) {
        let i = choose|i: int| 0 <= i < s.len() && s[i].1 > LATEST_UNIX_TIME && matches_token(s[i], token);
        assert(f.contains(s[i]));
        let k = choose|k: int| 0 <= k < f.len() && f[k] == s[i];
        assert(matches_token(f[k], token));
    }
    if holds_token(f, token) {
        let k = choose|k: int| 0 <= k < f.len() && matches_token(f[k], token);
        assert(f.contains(f[k]));
        let j = choose|j: int| 0 <= j < s.len() && s[j] == f[k];
        assert(matches_token(s[j], token));
    }
}

/// A session opened for a token accepts that token: once a hash that
/// verifies the token is stored, some stored hash verifies it.
pub proof fn law_opened_session_accepts_token(
    s: Seq<(Seq<char>, i64)>,
    h: Seq<char>,
    token: Seq<char>,
    expiration: i64,
)
    requires
        verifies(h, token),
    ensures
        holds_token(stored(s, h, expiration), utf8_bytes(token)),
{
    let t = stored(s, h, expiration);
    match position_of(s, h) {
        Some(i) => {
            assert(0 <= i < s.len() && s[i].0 == h);
            assert(matches_token(t[i], utf8_bytes(token)));
        },
        None => {
            assert(matches_token(t[s.len() as int], utf8_bytes(token)));
        },
    }
}

/// Once all sessions are revoked, no refresh token is accepted.
pub proof fn law_revoked_sessions_accept_nothing(token: Seq<u8>)
    ensures
        !holds_token(Seq::<(Seq<char>, i64)>::empty(), token),
{
}

/// A one-time token is good for one use: where no stored hash verifies a
/// token, storing a fresh hash of it with an expiry after `now` makes
/// redeeming it at `now` succeed, and after that redemption, redeeming it
/// again at any time fails.
pub proof fn law_one_time_token_single_use(
    s: Seq<(Seq<char>, i64)>,
    h: Seq<char>,
    token: Seq<char>,
    expiration: i64,
    now: i64,
    later: i64,
)
    requires
        !holds_token(s, utf8_bytes(token)),
        verifies(h, token),
        expiration > now,
    ensures
        holds_token(unexpired(stored(s, h, expiration), now), utf8_bytes(token)),
        forall|i: int|
            first_match_at(unexpired(stored(s, h, expiration), now), utf8_bytes(token), i)
                ==> !holds_token(
                unexpired(#[trigger] unexpired(stored(s, h, expiration), now).remove(i), later),
                utf8_bytes(token),
            ),
{
    let b = utf8_bytes(token);
    if position_of(s, h) is Some {
        let p = position_of(s, h)->0;
        assert(0 <= p < s.len() && s[p].0 == h);
        assert(matches_token(s[p], b));
        assert(false);
    }
    let t = stored(s, h, expiration);
    assert(t == s.push((h, expiration)));
    let f = unexpired(t, now);
    lemma_unexpired_step(t, now);
    assert(t.drop_last() =~= s);
    assert(f == unexpired(s, now).push((h, expiration)));
    let m = unexpired(s, now).len() as int;
    assert(matches_token(f[m], b));
    lemma_unexpired_no_match(s, now, b);
    assert forall|i: int| first_match_at(f, b, i) implies !holds_token(
        unexpired(#[trigger] f.remove(i), later),
        b,
    ) by {
        if i < m {
            assert(f[i] == unexpired(s, now)[i]);
            assert(!matches_token(unexpired(s, now)[i], b));
        }
        assert(i == m);
        assert(f.remove(i) =~= unexpired(s, now));
        lemma_unexpired_no_match(unexpired(s, now), later, b);
    }
}

/// A table of token hashes mapped to their expiry (Unix seconds). It is a
/// map kept as a vector in which no hash occurs twice: the vector's contents
/// can be stated and proved entry by entry, which a `HashMap` keyed by
/// `String` does not allow here.
pub struct SessionTable {
    entries: Vec<(String, i64)>,
}

impl SessionTable {
    #[verifier::type_invariant]
    spec fn well_formed(self) -> bool {
        distinct_hashes(entry_views(self.entries@))
    }

    /// The stored hashes with their expiry.
    pub closed spec fn view_entries(&self) -> Seq<(Seq<char>, i64)> {
        entry_views(self.entries@)
    }

    /// An empty table.
    pub fn new() -> (t: Self)
        ensures
            t.view_entries() == Seq::<(Seq<char>, i64)>::empty(),
    {
        let t = SessionTable { entries: Vec::new() };
        assert(t.view_entries() =~= Seq::<(Seq<char>, i64)>::empty());
        t
    }

    /// Stores a hash with its expiry.
    pub fn insert(&mut self, hash: String, expiration: i64)
        ensures
            final(self).view_entries() == stored(old(self).view_entries(), hash@, expiration),
    {
        proof {
            use_type_invariant(&*self);
        }
        let ghost old_s = self.view_entries();
        let n = self.entries.len();
        let mut out: Vec<(String, i64)> = Vec::new();
        let mut found = false;
        let mut i: usize = 0;
        while i < n
            invariant
                n == self.entries.len(),
                old_s == entry_views(self.entries@),
                distinct_hashes(old_s),
                i <= n,
                entry_views(out@) == (if found {
                    old_s.take(i as int).update(
                        position_of(old_s, hash@)->0,
                        (hash@, expiration),
                    )
                } else {
                    old_s.take(i as int)
                }),
                found <==> (exists|k: int| 0 <= k < i && old_s[k].0 == hash@),
                found ==> position_of(old_s, hash@) is Some && position_of(old_s, hash@)->0 < i,
            decreases n - i,
        {
            let e = &self.entries[i];
            let k = e.0.clone();
            let ghost prev = entry_views(out@);
            let ghost was_found = found;
            if k == hash {
                proof {
                    assert(old_s[i as int].0 == hash@);
                    assert(exists|k: int| 0 <= k < old_s.len() && old_s[k].0 == hash@);
                    if was_found {
                        let p = position_of(old_s, hash@)->0;
                        assert(old_s[p].0 == hash@);
                        assert(false);
                    }
                    let p = position_of(old_s, hash@)->0;
                    assert(p == i as int);
                }
                out.push((hash.clone(), expiration));
                found = true;
                proof {
                    assert(entry_views(out@) =~= prev.push((hash@, expiration)));
                    assert(entry_views(out@) =~= old_s.take(i + 1).update(i as int, (hash@, expiration)));
                }
            } else {
                out.push((k, e.1));
                proof {
                    assert(entry_views(out@) =~= prev.push(old_s[i as int]));
                    if was_found {
                        let p = position_of(old_s, hash@)->0;
                        assert(entry_views(out@) =~= old_s.take(i + 1).update(p, (hash@, expiration)));
                    } else {
                        assert(entry_views(out@) =~= old_s.take(i + 1));
                    }
                }
            }
            i = i + 1;
        }
        proof {
            assert(old_s.take(n as int) =~= old_s);
        }
        if !found {
            out.push((hash, expiration));
            proof {
                assert(position_of(old_s, hash@) is None);
                assert(entry_views(out@) =~= old_s.push((hash@, expiration)));
            }
        }
        proof {
            let s = entry_views(out@);
            assert(s == stored(old_s, hash@, expiration));
            assert forall|a: int, b: int| 0 <= a < s.len() && 0 <= b < s.len() && a != b implies s[a].0 != s[b].0 by {
                if found {
                    let p = position_of(old_s, hash@)->0;
                    if a == p {
                        assert(old_s[p].0 == hash@);
                        assert(old_s[b].0 != old_s[p].0);
                    } else if b == p {
                        assert(old_s[a].0 != old_s[p].0);
                    }
                } else {
                    if a == old_s.len() {
                        assert(!(old_s[b].0 == hash@));
                    } else if b == old_s.len() {
                        assert(!(old_s[a].0 == hash@));
                    }
                }
            }
        }
        self.entries = out;
    }

    /// Forgets every stored hash.
    pub fn clear(&mut self)
        ensures
            final(self).view_entries() == Seq::<(Seq<char>, i64)>::empty(),
    {
        self.entries = Vec::new();
        assert(self.view_entries() =~= Seq::<(Seq<char>, i64)>::empty());
    }

    /// Keeps exactly the entries that expire after `now`, in order.
    pub fn retain_unexpired(&mut self, now: i64)
        ensures
            final(self).view_entries() == unexpired(old(self).view_entries(), now),
    {
        proof {
            use_type_invariant(&*self);
        }
        let ghost old_s = self.view_entries();
        let n = self.entries.len();
        let mut out: Vec<(String, i64)> = Vec::new();
        let mut i: usize = 0;
        while i < n
            invariant
                n == self.entries.len(),
                old_s == entry_views(self.entries@),
                distinct_hashes(old_s),
                i <= n,
                entry_views(out@) == unexpired(old_s.take(i as int), now),
            decreases n - i,
        {
            let e = &self.entries[i];
            let ghost prev = entry_views(out@);
            proof {
                assert(old_s.take(i + 1).drop_last() =~= old_s.take(i as int));
                lemma_unexpired_step(old_s.take(i + 1), now);
            }
            if e.1 > now {
                out.push((e.0.clone(), e.1));
                proof {
                    assert(entry_views(out@) =~= prev.push(old_s[i as int]));
                }
            } else {
                proof {
                    assert(entry_views(out@) =~= prev);
                }
            }
            i = i + 1;
        }
        proof {
            assert(old_s.take(n as int) =~= old_s);
            let s = entry_views(out@);
            assert forall|a: int, b: int| 0 <= a < s.len() && 0 <= b < s.len() && a != b implies s[a].0 != s[b].0 by {
                lemma_filter_distinct(old_s, now);
            }
        }
        self.entries = out;
    }

    /// Whether some stored hash verifies `token`.
    pub fn holds(&self, token: &[u8]) -> (r: bool)
        ensures
            r == holds_token(self.view_entries(), token@),
    {
        let n = self.entries.len();
        let mut i: usize = 0;
        while i < n
            invariant
                n == self.entries.len(),
                i <= n,
                forall|j: int| 0 <= j < i ==> !matches_token(#[trigger] self.view_entries()[j], token@),
            decreases n - i,
        {
            if verify_encoded(self.entries[i].0.as_str(), token) == Some(true) {
                assert(matches_token(self.view_entries()[i as int], token@));
                return true;
            }
            i = i + 1;
        }
        false
    }

    /// Removes the first stored hash that verifies `token` and says whether
    /// there was one.
    pub fn take_first_match(&mut self, token: &[u8]) -> (r: bool)
        ensures
            r == holds_token(old(self).view_entries(), token@),
            r ==> exists|i: int|
                first_match_at(old(self).view_entries(), token@, i)
                && final(self).view_entries() == old(self).view_entries().remove(i),
            !r ==> final(self).view_entries() == old(self).view_entries(),
    {
        proof {
            use_type_invariant(&*self);
        }
        let ghost old_s = self.view_entries();
        let n = self.entries.len();
        let mut i: usize = 0;
        while i < n
            invariant
                n == self.entries.len(),
                old_s == entry_views(self.entries@),
                old_s == old(self).view_entries(),
                distinct_hashes(old_s),
                i <= n,
                forall|j: int| 0 <= j < i ==> !matches_token(#[trigger] old_s[j], token@),
            decreases n - i,
        {
            if verify_encoded(self.entries[i].0.as_str(), token) == Some(true) {
                let mut out: Vec<(String, i64)> = Vec::new();
                let mut k: usize = 0;
                while k < n
                    invariant
                        n == self.entries.len(),
                        old_s == entry_views(self.entries@),
                        distinct_hashes(old_s),
                        i < n,
                        k <= n,
                        entry_views(out@) == (if k <= i {
                            old_s.take(k as int)
                        } else {
                            old_s.take(k as int).remove(i as int)
                        }),
                    decreases n - k,
                {
                    let ghost prev = entry_views(out@);
                    if k != i {
                        out.push((self.entries[k].0.clone(), self.entries[k].1));
                        proof {
                            assert(entry_views(out@) =~= prev.push(old_s[k as int]));
                        }
                    }
                    proof {
                        if k < i {
                            assert(entry_views(out@) =~= old_s.take(k + 1));
                        } else if k == i {
                            assert(entry_views(out@) =~= old_s.take(k + 1).remove(i as int));
                        } else {
                            assert(entry_views(out@) =~= old_s.take(k + 1).remove(i as int));
                        }
                    }
                    k = k + 1;
                }
                proof {
                    assert(old_s.take(n as int) =~= old_s);
                    assert(matches_token(old_s[i as int], token@));
                    assert(first_match_at(old_s, token@, i as int));
                    let s = entry_views(out@);
                    assert forall|a: int, b: int| 0 <= a < s.len() && 0 <= b < s.len() && a != b implies s[a].0 != s[b].0 by {
                        let a1 = if a < i { a } else { a + 1 };
                        let b1 = if b < i { b } else { b + 1 };
                        assert(s[a] == old_s[a1]);
                        assert(s[b] == old_s[b1]);
                    }
                }
                self.entries = out;
                return true;
            }
            i = i + 1;
        }
        false
    }

    /// The stored hashes with their expiry, in order.
    pub fn to_vec(&self) -> (v: Vec<(String, i64)>)
        ensures
            entry_views(v@) == self.view_entries(),
    {
        let n = self.entries.len();
        let mut out: Vec<(String, i64)> = Vec::new();
        let mut i: usize = 0;
        while i < n
            invariant
                n == self.entries.len(),
                i <= n,
                entry_views(out@) == self.view_entries().take(i as int),
            decreases n - i,
        {
            let ghost prev = entry_views(out@);
            out.push((self.entries[i].0.clone(), self.entries[i].1));
            proof {
                assert(entry_views(out@) =~= prev.push(self.view_entries()[i as int]));
                assert(self.view_entries().take(i + 1) =~= self.view_entries().take(i as int).push(self.view_entries()[i as int]));
            }
            i = i + 1;
        }
        proof {
            assert(self.view_entries().take(n as int) =~= self.view_entries());
        }
        out
    }
}

/// A table after storing, in order, each of the given entries.
pub open spec fn stored_all(s: Seq<(Seq<char>, i64)>, es: Seq<(Seq<char>, i64)>) -> Seq<(Seq<char>, i64)>
    decreases es.len(),
{
    if es.len() == 0 {
        s
    } else {
        stored(stored_all(s, es.drop_last()), es.last().0, es.last().1)
    }
}

impl SessionTable {
    /// A table holding the given entries; where a hash repeats, the later
    /// expiry wins, as when the entries are collected into a map.
    pub fn from_entries(entries: Vec<(String, i64)>) -> (t: Self)
        ensures
            t.view_entries() == stored_all(Seq::empty(), entry_views(entries@)),
    {
        let mut t = SessionTable::new();
        let n = entries.len();
        let mut i: usize = 0;
        let ghost es = entry_views(entries@);
        while i < n
            invariant
                n == entries.len(),
                es == entry_views(entries@),
                i <= n,
                t.view_entries() == stored_all(Seq::empty(), es.take(i as int)),
            decreases n - i,
        {
            t.insert(entries[i].0.clone(), entries[i].1);
            proof {
                assert(es.take(i + 1).drop_last() =~= es.take(i as int));
            }
            i = i + 1;
        }
        proof {
            assert(es.take(n as int) =~= es);
        }
        t
    }

    /// Hashes `token` with a fresh random salt and stores the hash with the
    /// token's expiry. On success the stored hash verifies the token; hashing
    /// fails only for a token of more than `u32::MAX` bytes, and then nothing
    /// changes.
    pub fn open(&mut self, token: &str, expiration: i64) -> (r: Result<(), Error>)
        ensures
            r is Ok ==> exists|h: Seq<char>|
                verifies(h, token@) && final(self).view_entries() == stored(
                    old(self).view_entries(),
                    h,
                    expiration,
                ),
            r is Err ==> final(self).view_entries() == old(self).view_entries()
                && utf8_bytes(token@).len() > u32::MAX,
    {
        let salt = random_salt();
        match hash_encoded(token.as_bytes(), &salt) {
            Some(h) => {
                let ghost hv = h@;
                self.insert(h, expiration);
                assert(verifies(hv, token@));
                Ok(())
            },
            None => Err(Error::Internal),
        }
    }

    /// Drops the entries that have expired by the system clock.
    pub fn clear_expired(&mut self)
        ensures
            exists|now: i64| clock_seconds(now) && final(self).view_entries() == unexpired(old(self).view_entries(), now),
            keeps_lasting(old(self).view_entries(), final(self).view_entries()),
            keeps_only_live(old(self).view_entries(), final(self).view_entries()),
    {
        let now = now_unix_timestamp();
        proof {
            law_clock_filter(self.view_entries(), now, Seq::empty());
        }
        self.retain_unexpired(now);
    }

    /// Drops the entries expired at `now`, then removes the first hash that
    /// verifies `token`; says whether there was one. A token is accepted at
    /// most as often as it was stored.
    pub fn redeem_at(&mut self, token: &[u8], now: i64) -> (r: bool)
        ensures
            r == holds_token(unexpired(old(self).view_entries(), now), token@),
            r ==> exists|i: int|
                first_match_at(unexpired(old(self).view_entries(), now), token@, i)
                && final(self).view_entries() == unexpired(old(self).view_entries(), now).remove(i),
            !r ==> final(self).view_entries() == unexpired(old(self).view_entries(), now),
    {
        self.retain_unexpired(now);
        self.take_first_match(token)
    }
}

/// The refresh-token sessions of one user.
pub struct Sessions {
    pub sessions: SessionTable,
}

impl Sessions {
    /// A user without sessions.
    pub fn new() -> (s: Self)
        ensures
            s.sessions.view_entries() == Seq::<(Seq<char>, i64)>::empty(),
    {
        Sessions { sessions: SessionTable::new() }
    }

    /// Opens a new session for a refresh token expiring at `expiration`:
    /// stores a salted hash of the token.
    pub fn open(&mut self, refresh_token: &str, expiration: i64) -> (r: Result<(), Error>)
        ensures
            r is Ok ==> exists|h: Seq<char>|
                verifies(h, refresh_token@) && final(self).sessions.view_entries() == stored(
                    old(self).sessions.view_entries(),
                    h,
                    expiration,
                ),
            r is Err ==> final(self).sessions.view_entries() == old(self).sessions.view_entries()
                && utf8_bytes(refresh_token@).len() > u32::MAX,
    {
        self.sessions.open(refresh_token, expiration)
    }

    /// Revokes all sessions.
    pub fn revoke_all(&mut self)
        ensures
            final(self).sessions.view_entries() == Seq::<(Seq<char>, i64)>::empty(),
    {
        self.sessions.clear();
    }

    /// Clears all sessions that have expired by the system clock.
    pub fn clear_expired(&mut self)
        ensures
            exists|now: i64|
                clock_seconds(now) && final(self).sessions.view_entries() == unexpired(old(self).sessions.view_entries(), now),
            keeps_lasting(old(self).sessions.view_entries(), final(self).sessions.view_entries()),
            keeps_only_live(old(self).sessions.view_entries(), final(self).sessions.view_entries()),
    {
        self.sessions.clear_expired();
    }

    /// The sessions: token hash and expiry.
    pub fn iter(&self) -> (v: Vec<(String, i64)>)
        ensures
            entry_views(v@) == self.sessions.view_entries(),
    {
        self.sessions.to_vec()
    }

    /// Whether some session's hash verifies the given encoded refresh token.
    pub fn accepts(&self, token: &[u8]) -> (r: bool)
        ensures
            r == holds_token(self.sessions.view_entries(), token@),
    {
        self.sessions.holds(token)
    }
}

/// The one-time-token sessions of one user for one purpose.
pub struct OneTimeSessions {
    pub sessions: SessionTable,
}

impl OneTimeSessions {
    /// A user without one-time sessions.
    pub fn new() -> (s: Self)
        ensures
            s.sessions.view_entries() == Seq::<(Seq<char>, i64)>::empty(),
    {
        OneTimeSessions { sessions: SessionTable::new() }
    }

    /// Opens a one-time session for a token expiring at `expiration`.
    pub fn open(&mut self, one_time_token: &str, expiration: i64) -> (r: Result<(), Error>)
        ensures
            r is Ok ==> exists|h: Seq<char>|
                verifies(h, one_time_token@) && final(self).sessions.view_entries() == stored(
                    old(self).sessions.view_entries(),
                    h,
                    expiration,
                ),
            r is Err ==> final(self).sessions.view_entries() == old(self).sessions.view_entries()
                && utf8_bytes(one_time_token@).len() > u32::MAX,
    {
        self.sessions.open(one_time_token, expiration)
    }

    /// Clears all one-time sessions that have expired by the system clock.
    pub fn clear_expired(&mut self)
        ensures
            exists|now: i64|
                clock_seconds(now) && final(self).sessions.view_entries() == unexpired(old(self).sessions.view_entries(), now),
            keeps_lasting(old(self).sessions.view_entries(), final(self).sessions.view_entries()),
            keeps_only_live(old(self).sessions.view_entries(), final(self).sessions.view_entries()),
    {
        self.sessions.clear_expired();
    }

    /// The one-time sessions: token hash and expiry.
    pub fn iter(&self) -> (v: Vec<(String, i64)>)
        ensures
            entry_views(v@) == self.sessions.view_entries(),
    {
        self.sessions.to_vec()
    }

    /// Checks a one-time token at time `now` and uses it up: expired
    /// sessions are dropped, and the first session whose hash verifies the
    /// token is removed. Says whether there was one.
    pub fn redeem_at(&mut self, token: &[u8], now: i64) -> (r: bool)
        ensures
            r == holds_token(unexpired(old(self).sessions.view_entries(), now), token@),
            r ==> exists|i: int|
                first_match_at(unexpired(old(self).sessions.view_entries(), now), token@, i)
                && final(self).sessions.view_entries() == unexpired(
                    old(self).sessions.view_entries(),
                    now,
                ).remove(i),
            !r ==> final(self).sessions.view_entries() == unexpired(
                old(self).sessions.view_entries(),
                now,
            ),
    {
        self.sessions.redeem_at(token, now)
    }

    /// Checks a one-time token against the system clock and uses it up.
    pub fn redeem(&mut self, token: &[u8]) -> (r: bool)
        ensures
            exists|now: i64| {
                &&& clock_seconds(now)
                &&& r == holds_token(unexpired(old(self).sessions.view_entries(), now), token@)
                &&& r ==> exists|i: int|
                    first_match_at(unexpired(old(self).sessions.view_entries(), now), token@, i)
                    && final(self).sessions.view_entries() == unexpired(
                        old(self).sessions.view_entries(),
                        now,
                    ).remove(i)
                &&& !r ==> final(self).sessions.view_entries() == unexpired(
                    old(self).sessions.view_entries(),
                    now,
                )
            },
            lasting_match(old(self).sessions.view_entries(), token@) ==> r,
            r ==> live_match(old(self).sessions.view_entries(), token@),
    {
        let now = now_unix_timestamp();
        proof {
            law_clock_filter(self.sessions.view_entries(), now, token@);
        }
        self.redeem_at(token, now)
    }
}

/// Name of the Dapr state store.
pub const STATE_STORE: &'static str = "state_store";

/// Category under which refresh-token sessions are stored.
pub const SESSION_CATEGORY: &'static str = "sessions";

/// The state-store key of an item: category, two dashes, key.
pub fn state_key(category: &str, key: &str) -> (k: String)
    ensures
        k@ == category@ + "--"@ + key@,
{
    let mut k = String::from_str(category);
    k.append("--");
    k.append(key);
    k
}

/// The category under which one-time sessions of a token audience are
/// stored.
pub fn one_time_session_category(audience: &str) -> (c: String)
    ensures
        c@ == "one_time_"@ + audience@,
{
    let mut c = String::from_str("one_time_");
    c.append(audience);
    c
}

} // verus!
