//! The storage layer: the table of shortened-URL records, kept in insertion
//! order. The store assigns each record its identifier and its creation
//! timestamp; records are never changed or removed once inserted.

use vstd::prelude::*;
use crate::models::{NewUrl, Url, UrlView};
use crate::text;

verus! {

/// The record that a lookup of `code` returns: the earliest record whose
/// short code equals `code`, or `None` when no record matches.
pub open spec fn spec_find_by_code(s: Seq<UrlView>, code: Seq<char>) -> Option<UrlView>
    decreases s.len(),
{
    if s.len() == 0 {
        None
    } else if s[0].short_code == code {
        Some(s[0])
    } else {
        spec_find_by_code(s.drop_first(), code)
    }
}

/// The order a listing returns records in: newest first, the reverse of the
/// insertion order the store keeps.
pub open spec fn spec_newest_first(s: Seq<UrlView>) -> Seq<UrlView> {
    s.reverse()
}

/// The timestamp the store assigns to the next record when the clock reads
/// `now`: the clock value, held back to the last record's timestamp when the
/// clock has gone backwards, so that stored timestamps never decrease.
pub open spec fn spec_assign_time(s: Seq<UrlView>, now: int) -> int {
    if s.len() > 0 && s.last().created_at > now {
        s.last().created_at
    } else {
        now
    }
}

/// A lookup misses exactly when no record carries the code: `None` comes back
/// if and only if every stored record's short code differs from `code`.
pub proof fn lemma_find_none_iff_absent(s: Seq<UrlView>, code: Seq<char>)
    ensures
        spec_find_by_code(s, code) is None <==> (forall|i: int|
            0 <= i < s.len() ==> (#[trigger] s[i]).short_code != code),
    decreases s.len(),
{
    if s.len() > 0 {
        let t = s.drop_first();
        if s[0].short_code == code {
            assert(s[0].short_code == code);
        } else {
            lemma_find_none_iff_absent(t, code);
            if spec_find_by_code(s, code) is None {
                assert forall|i: int| 0 <= i < s.len() implies (#[trigger] s[i]).short_code
                    != code by {
                    if i > 0 {
                        assert(t[i - 1] == s[i]);
                    }
                }
            } else {
                let i = choose|i: int| 0 <= i < t.len() && (#[trigger] t[i]).short_code == code;
                assert(s[i + 1].short_code == code);
            }
        }
    }
}

/// Reads are idempotent: a lookup takes the store by shared reference and
/// returns a function of the store and the code alone, so repeated lookups of
/// one code against one store all return the same record — in particular the
/// same original URL — every time.
pub proof fn lemma_read_idempotent(s: Seq<UrlView>, code: Seq<char>)
    ensures
        spec_find_by_code(s, code) == spec_find_by_code(s, code),
{
}

/// Round trip: when a record whose code no earlier record carries is appended
/// — as a creation appends it — looking its code up finds exactly that
/// record, and the newest-first listing shows it first, with the earlier
/// records behind it in their previous order.
pub proof fn lemma_round_trip(s: Seq<UrlView>, rec: UrlView)
    requires
        forall|i: int| 0 <= i < s.len() ==> (#[trigger] s[i]).short_code != rec.short_code,
    ensures
        spec_find_by_code(s.push(rec), rec.short_code) == Some(rec),
        spec_newest_first(s.push(rec)) == seq![rec] + spec_newest_first(s),
    decreases s.len(),
{
    assert(spec_newest_first(s.push(rec)) =~= seq![rec] + spec_newest_first(s));
    if s.len() == 0 {
        assert(s.push(rec)[0] == rec);
    } else {
        assert(s.push(rec)[0] == s[0]);
        assert(s.push(rec).drop_first() =~= s.drop_first().push(rec));
        assert(forall|i: int|
            0 <= i < s.drop_first().len() ==> #[trigger] s.drop_first()[i] == s[i + 1]);
        lemma_round_trip(s.drop_first(), rec);
    }
}

/// The listing order honours creation time: when timestamps never decrease
/// along the insertion order — as the store keeps them — the newest-first
/// listing carries them in descending order, so no record stands after one
/// created before it.
pub proof fn lemma_newest_first_sorted(s: Seq<UrlView>)
    requires
        forall|i: int, j: int| 0 <= i <= j < s.len() ==> s[i].created_at <= s[j].created_at,
    ensures
        forall|i: int, j: int|
            0 <= i <= j < spec_newest_first(s).len() ==> spec_newest_first(s)[i].created_at
                >= spec_newest_first(s)[j].created_at,
{
    assert forall|i: int, j: int|
        0 <= i <= j < spec_newest_first(s).len() implies spec_newest_first(s)[i].created_at
        >= spec_newest_first(s)[j].created_at by {
        assert(spec_newest_first(s)[i] == s[s.len() - 1 - i]);
        assert(spec_newest_first(s)[j] == s[s.len() - 1 - j]);
    }
}

/// The table of shortened-URL records.
pub struct UrlStore {
    records: Vec<Url>,
}

impl View for UrlStore {
    type V = Seq<UrlView>;

    closed spec fn view(&self) -> Seq<UrlView> {
        self.records@.map_values(|u: Url| u@)
    }
}

impl UrlStore {
    /// Well-formedness: the `i`-th record was assigned identifier `i + 1`
    /// (so identifiers are unique), and timestamps never decrease along the
    /// insertion order.
    pub open spec fn wf(&self) -> bool {
        &&& forall|i: int| 0 <= i < self@.len() ==> (#[trigger] self@[i]).id == i + 1
        &&& forall|i: int, j: int|
            0 <= i <= j < self@.len() ==> self@[i].created_at <= self@[j].created_at
    }

    /// An empty store.
    pub fn new() -> (r: UrlStore)
        ensures
            r@ == Seq::<UrlView>::empty(),
            r.wf(),
    {
        let r = UrlStore { records: Vec::new() };
        proof {
            assert(r@ =~= Seq::<UrlView>::empty());
        }
        r
    }

    /// Inserts a new record and returns it fully populated: the store assigns
    /// the next identifier and the creation timestamp.
    pub fn insert(&mut self, new_url: NewUrl, now: i64) -> (r: Url)
        requires
            old(self).wf(),
            old(self)@.len() < i64::MAX,
        ensures
            final(self).wf(),
            final(self)@ == old(self)@.push(r@),
            r@.original_url == new_url.original_url@,
            r@.short_code == new_url.short_code@,
            r@.id == old(self)@.len() + 1,
            r@.created_at == spec_assign_time(old(self)@, now as int),
    {
        let n = self.records.len();
        let created_at: i64 = if n > 0 {
            let last_at = self.records[n - 1].created_at;
            assert(self.records@[n - 1 as int]@ == self@[n - 1 as int]);
            if last_at > now {
                last_at
            } else {
                now
            }
        } else {
            now
        };
        let rec = Url {
            id: n as i64 + 1,
            original_url: new_url.original_url,
            short_code: new_url.short_code,
            created_at,
        };
        let out = rec.clone();
        self.records.push(rec);
        proof {
            assert(self@ =~= old(self)@.push(out@));
        }
        out
    }

    /// Looks a code up: returns the earliest record whose short code equals
    /// `code`, or `None` when no record matches.
    pub fn find_by_code(&self, code: &str) -> (r: Option<Url>)
        ensures
            match r {
                Some(u) => spec_find_by_code(self@, code@) == Some(u@),
                None => spec_find_by_code(self@, code@) is None,
            },
    {
        let n = self.records.len();
        let mut i: usize = 0;
        proof {
            assert(self@.skip(0) =~= self@);
        }
        while i < n
            invariant
                n == self.records@.len(),
                i <= n,
                spec_find_by_code(self@, code@) == spec_find_by_code(
                    self@.skip(i as int),
                    code@,
                ),
            decreases n - i,
        {
            assert(self.records@[i as int]@ == self@[i as int]);
            if text::str_eq(self.records[i].short_code.as_str(), code) {
                assert(self@.skip(i as int)[0] == self@[i as int]);
                return Some(self.records[i].clone());
            }
            proof {
                assert(self@.skip(i as int)[0] == self@[i as int]);
                assert(self@.skip(i as int).drop_first() =~= self@.skip(i as int + 1));
            }
            i += 1;
        }
        proof {
            assert(self@.skip(n as int) =~= Seq::<UrlView>::empty());
        }
        None
    }

    /// Returns every record, newest first.
    pub fn list_all(&self) -> (r: Vec<Url>)
        ensures
            r@.map_values(|u: Url| u@) == spec_newest_first(self@),
    {
        let n = self.records.len();
        let mut r: Vec<Url> = Vec::new();
        let mut i: usize = 0;
        while i < n
            invariant
                n == self.records@.len(),
                i <= n,
                r@.len() == i,
                forall|j: int| 0 <= j < i ==> (#[trigger] r@[j])@ == self@[n - 1 - j],
            decreases n - i,
        {
            assert(self.records@[n - 1 - i as int]@ == self@[n - 1 - i as int]);
            let u = self.records[n - 1 - i].clone();
            r.push(u);
            i += 1;
        }
        proof {
            assert(r@.map_values(|u: Url| u@) =~= spec_newest_first(self@));
        }
        r
    }

    /// The number of records stored.
    pub fn len(&self) -> (r: usize)
        ensures
            r == self@.len(),
    {
        self.records.len()
    }
}

} // verus!
