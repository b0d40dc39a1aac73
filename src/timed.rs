//! Archives named after the time of their rotation: `<file>.<timestamp>`,
//! with `.<n>` added when two rotations fall on the same timestamp.
use vstd::prelude::*;
use file_rotate::suffix::{AppendTimestamp, FileLimit, SuffixScheme, TimestampSuffix};

use crate::rotation::DateFrom;

verus! {

/// Lexicographic order of character sequences (that of `String`).
pub open spec fn lex_lt(a: Seq<char>, b: Seq<char>) -> bool
    decreases a.len(),
{
    if a.len() == 0 {
        b.len() > 0
    } else if b.len() == 0 {
        false
    } else if a[0] != b[0] {
        a[0] < b[0]
    } else {
        lex_lt(a.drop_first(), b.drop_first())
    }
}

pub open spec fn opt_lt(a: Option<usize>, b: Option<usize>) -> bool {
    match (a, b) {
        (None, Some(_)) => true,
        (Some(x), Some(y)) => x < y,
        _ => false,
    }
}

/// One archive of the timestamp scheme.
pub struct TimedArchive {
    pub timestamp: String,
    pub number: Option<usize>,
    pub compressed: bool,
}

pub struct TimedView {
    pub timestamp: Seq<char>,
    pub number: Option<usize>,
    pub compressed: bool,
}

impl View for TimedArchive {
    type V = TimedView;

    open spec fn view(&self) -> TimedView {
        TimedView { timestamp: self.timestamp@, number: self.number, compressed: self.compressed }
    }
}

/// `a` is older than `b`: an earlier timestamp, or the same with a lower number.
pub open spec fn older(a: TimedView, b: TimedView) -> bool {
    lex_lt(a.timestamp, b.timestamp) || (a.timestamp == b.timestamp && opt_lt(a.number, b.number))
}

pub open spec fn same_name(a: TimedView, b: TimedView) -> bool {
    a.timestamp == b.timestamp && a.number == b.number
}

/// Most recent first, no two with the same name.
pub open spec fn timed_wf(s: Seq<TimedView>) -> bool {
    forall|i: int, k: int| 0 <= i < k < s.len() ==> older(s[k], s[i])
}

proof fn lemma_lex_irreflexive(a: Seq<char>)
    ensures
        !lex_lt(a, a),
    decreases a.len(),
{
    if a.len() > 0 {
        lemma_lex_irreflexive(a.drop_first());
    }
}

proof fn lemma_lex_transitive(a: Seq<char>, b: Seq<char>, c: Seq<char>)
    requires
        lex_lt(a, b),
        lex_lt(b, c),
    ensures
        lex_lt(a, c),
    decreases a.len(),
{
    if a.len() > 0 && b.len() > 0 && c.len() > 0 && a[0] == b[0] && b[0] == c[0] {
        lemma_lex_transitive(a.drop_first(), b.drop_first(), c.drop_first());
    }
}

proof fn lemma_lex_total(a: Seq<char>, b: Seq<char>)
    requires
        a != b,
    ensures
        lex_lt(a, b) || lex_lt(b, a),
    decreases a.len(),
{
    if a.len() > 0 && b.len() > 0 && a[0] == b[0] {
        if a.drop_first() == b.drop_first() {
            assert(a =~= seq![a[0]] + a.drop_first());
            assert(b =~= seq![b[0]] + b.drop_first());
        }
        lemma_lex_total(a.drop_first(), b.drop_first());
    } else if a.len() == 0 && b.len() == 0 {
        assert(a =~= b);
    }
}

/// `older` is a strict total order on names.
pub proof fn lemma_older_order()
    ensures
        forall|a: TimedView| !older(a, a),
        forall|a: TimedView, b: TimedView, c: TimedView|
            older(a, b) && older(b, c) ==> older(a, c),
        forall|a: TimedView, b: TimedView|
            !same_name(a, b) ==> older(a, b) || older(b, a),
{
    assert forall|a: TimedView| !older(a, a) by {
        lemma_lex_irreflexive(a.timestamp);
    }
    assert forall|a: TimedView, b: TimedView, c: TimedView|
        older(a, b) && older(b, c) implies older(a, c) by {
        if lex_lt(a.timestamp, b.timestamp) && lex_lt(b.timestamp, c.timestamp) {
            lemma_lex_transitive(a.timestamp, b.timestamp, c.timestamp);
        }
    }
    assert forall|a: TimedView, b: TimedView| !same_name(a, b) implies older(a, b) || older(b, a) by {
        if a.timestamp != b.timestamp {
            lemma_lex_total(a.timestamp, b.timestamp);
        }
    }
}

/// `lex_lt` on what follows a common prefix of length i.
proof fn lemma_lex_skip(a: Seq<char>, b: Seq<char>, i: int)
    requires
        0 <= i <= a.len(),
        i <= b.len(),
        a.take(i) == b.take(i),
    ensures
        lex_lt(a, b) == lex_lt(a.skip(i), b.skip(i)),
    decreases i,
{
    if i > 0 {
        assert(a[0] == a.take(i)[0]);
        assert(b[0] == b.take(i)[0]);
        assert(a.drop_first().take(i - 1) =~= a.take(i).drop_first());
        assert(b.drop_first().take(i - 1) =~= b.take(i).drop_first());
        lemma_lex_skip(a.drop_first(), b.drop_first(), i - 1);
        assert(a.drop_first().skip(i - 1) =~= a.skip(i));
        assert(b.drop_first().skip(i - 1) =~= b.skip(i));
    } else {
        assert(a.skip(0) =~= a);
        assert(b.skip(0) =~= b);
    }
}

/// Lexicographic comparison of two strings.
pub fn lex_less(a: &str, b: &str) -> (r: bool)
    ensures
        r == lex_lt(a@, b@),
{
    let la = a.unicode_len();
    let lb = b.unicode_len();
    let mut i: usize = 0;
    while i < la && i < lb && a.get_char(i) == b.get_char(i)
        invariant
            i <= la,
            i <= lb,
            la == a@.len(),
            lb == b@.len(),
            a@.take(i as int) =~= b@.take(i as int),
        decreases la - i,
    {
        proof {
            assert(a@.take(i + 1) =~= a@.take(i as int).push(a@[i as int]));
            assert(b@.take(i + 1) =~= b@.take(i as int).push(b@[i as int]));
        }
        i += 1;
    }
    proof {
        lemma_lex_skip(a@, b@, i as int);
    }
    if i == la {
        i < lb
    } else if i == lb {
        false
    } else {
        a.get_char(i) < b.get_char(i)
    }
}

fn opt_less(a: Option<usize>, b: Option<usize>) -> (r: bool)
    ensures
        r == opt_lt(a, b),
{
    match (a, b) {
        (None, Some(_)) => true,
        (Some(x), Some(y)) => x < y,
        _ => false,
    }
}

fn is_older(a: &TimedArchive, b: &TimedArchive) -> (r: bool)
    ensures
        r == older(a@, b@),
{
    if lex_less(a.timestamp.as_str(), b.timestamp.as_str()) {
        true
    } else {
        crate::console::str_eq(a.timestamp.as_str(), b.timestamp.as_str()) && opt_less(
            a.number,
            b.number,
        )
    }
}

/// Whether chrono reads a strftime format without meeting an unknown or
/// malformed specifier.
pub uninterp spec fn strftime_valid(format: Seq<char>) -> bool;

/// Relies on chrono's `StrftimeItems::parse`: it fails exactly when reading
/// `format` yields an error item, which depends on the format alone.
#[verifier::external_body]
fn time_format_valid(format: &str) -> (r: bool)
    ensures
        r == strftime_valid(format@),
{
    chrono::format::StrftimeItems::new(format).parse().is_ok()
}

/// Relies on file-rotate's `AppendTimestamp::rotate_file` for the live file:
/// it formats the local time now (a day or an hour earlier, as `date_from`
/// says) with `format`, and when the newest archive has that same timestamp
/// numbers the new suffix one past that archive's number (0 for none). The
/// formatting is chrono's `to_string` of a local date and time, which fails
/// (and panics there) only on an error item of the format, which
/// `strftime_valid` excludes.
#[verifier::external_body]
fn next_suffix(format: &'static str, date_from: DateFrom, newest: Option<&TimedArchive>) -> (r: (
    String,
    Option<usize>,
))
    requires
        strftime_valid(format@),
        newest matches Some(n) ==> (n.number matches Some(k) ==> k < usize::MAX),
    ensures
        r.1 == match newest {
            Some(n) => if n.timestamp@ == r.0@ {
                Some(((match n.number {
                    Some(k) => k,
                    None => 0usize,
                }) + 1) as usize)
            } else {
                None::<usize>
            },
            None => None,
        },
{
    let df = match date_from {
        DateFrom::Now => file_rotate::suffix::DateFrom::Now,
        DateFrom::Yesterday => file_rotate::suffix::DateFrom::DateYesterday,
        DateFrom::HourAgo => file_rotate::suffix::DateFrom::DateHourAgo,
    };
    let mut scheme = AppendTimestamp::with_format(format, FileLimit::Unlimited, df);
    let newest = match newest {
        Some(n) => Some(TimestampSuffix { timestamp: n.timestamp.clone(), number: n.number }),
        None => None,
    };
    let s = scheme.rotate_file(std::path::Path::new(""), newest.as_ref(), &None).unwrap();
    (s.timestamp, s.number)
}

pub open spec fn views(s: Seq<TimedArchive>) -> Seq<TimedView> {
    s.map_values(|a: TimedArchive| a@)
}

pub open spec fn timed_compressed_beyond(s: Seq<TimedView>, exclude: nat) -> Seq<TimedView> {
    Seq::new(
        s.len(),
        |i: int|
            TimedView {
                timestamp: s[i].timestamp,
                number: s[i].number,
                compressed: s[i].compressed || i >= exclude,
            },
    )
}

/// The archives that still need compressing, oldest first.
pub open spec fn timed_pending(s: Seq<TimedView>, exclude: nat) -> Seq<TimedView>
    decreases s.len(),
{
    if s.len() <= exclude {
        Seq::empty()
    } else {
        let rest = timed_pending(s.drop_last(), exclude);
        if s.last().compressed {
            rest
        } else {
            seq![s.last()] + rest
        }
    }
}

fn copy_archive(a: &TimedArchive, compressed: bool) -> (r: TimedArchive)
    ensures
        r@ == (TimedView { compressed, ..a@ }),
{
    TimedArchive { timestamp: a.timestamp.clone(), number: a.number, compressed }
}

/// The archives of the timestamp scheme next to one log file, most recent first.
pub struct TimedArchiveSet {
    pub entries: Vec<TimedArchive>,
}

impl TimedArchiveSet {
    pub open spec fn wf(&self) -> bool {
        timed_wf(views(self.entries@))
    }

    pub fn new() -> (r: Self)
        ensures
            r.wf(),
            r.entries@.len() == 0,
    {
        TimedArchiveSet { entries: Vec::new() }
    }

    /// Takes the archives found on disk, most recent first; one that is not
    /// older than the last one kept is left out, so that a set already in
    /// order is taken whole.
    pub fn from_scan(found: &Vec<TimedArchive>) -> (r: Self)
        ensures
            r.wf(),
            timed_wf(views(found@)) ==> views(r.entries@) == views(found@),
    {
        let mut kept: Vec<TimedArchive> = Vec::new();
        let mut i: usize = 0;
        while i < found.len()
            invariant
                i <= found@.len(),
                timed_wf(views(kept@)),
                timed_wf(views(found@)) ==> views(kept@) =~= views(found@.take(i as int)),
            decreases found@.len() - i,
        {
            let n = kept.len();
            if n == 0 || is_older(&found[i], &kept[n - 1]) {
                let a = copy_archive(&found[i], found[i].compressed);
                proof {
                    lemma_older_order();
                    let kv = views(kept@.push(a));
                    assert(kv =~= views(kept@).push(a@));
                    assert forall|x: int, k: int| 0 <= x < k < kv.len() implies older(
                        kv[k],
                        kv[x],
                    ) by {
                        if k == n && x < n - 1 {
                            assert(older(views(kept@)[n - 1], views(kept@)[x]));
                        }
                    }
                }
                kept.push(a);
            } else {
                proof {
                    if timed_wf(views(found@)) && n > 0 {
                        assert(views(kept@)[n - 1] == views(found@)[n - 1]);
                        assert(older(views(found@)[i as int], views(found@)[n - 1]));
                    }
                }
            }
            proof {
                if timed_wf(views(found@)) {
                    assert(views(kept@) =~= views(found@.take(i + 1)));
                }
            }
            i += 1;
        }
        proof {
            assert(found@.take(found@.len() as int) =~= found@);
        }
        TimedArchiveSet { entries: kept }
    }
}

impl TimedArchiveSet {
    /// Puts `a` in its place by age; refused (None, nothing changed) when an
    /// archive of that name is already there.
    pub fn insert(&mut self, a: TimedArchive) -> (pos: Option<usize>)
        requires
            old(self).wf(),
        ensures
            final(self).wf(),
            match pos {
                Some(p) => {
                    &&& p <= old(self).entries@.len()
                    &&& views(final(self).entries@) == views(old(self).entries@).insert(p as int, a@)
                    &&& forall|i: int| 0 <= i < p ==> older(a@, views(old(self).entries@)[i])
                    &&& forall|i: int|
                        p <= i < old(self).entries@.len() ==> older(views(old(self).entries@)[i], a@)
                },
                None => {
                    &&& views(final(self).entries@) == views(old(self).entries@)
                    &&& exists|i: int|
                        0 <= i < old(self).entries@.len() && same_name(
                            #[trigger] views(old(self).entries@)[i],
                            a@,
                        )
                },
            },
    {
        let ghost s = views(self.entries@);
        let n = self.entries.len();
        proof {
            lemma_older_order();
        }
        let mut p: usize = 0;
        while p < n && !is_older(&self.entries[p], &a)
            invariant
                p <= n,
                n == s.len(),
                s == views(self.entries@),
                forall|i: int| 0 <= i < p ==> !older(s[i], a@),
            decreases n - p,
        {
            p += 1;
        }
        if p > 0 && !is_older(&a, &self.entries[p - 1]) {
            proof {
                assert(same_name(s[p - 1], a@));
            }
            return None;
        }
        proof {
            assert forall|i: int| 0 <= i < p implies older(a@, s[i]) by {
                if i < p - 1 {
                    assert(older(s[p - 1], s[i]));
                }
            }
            assert forall|i: int| p <= i < n implies older(s[i], a@) by {
                if i > p {
                    assert(older(s[i], s[p as int]));
                }
            }
        }
        self.entries.insert(p, a);
        proof {
            let t = views(self.entries@);
            assert(t =~= s.insert(p as int, a@));
            assert forall|x: int, k: int| 0 <= x < k < t.len() implies older(t[k], t[x]) by {
                if k < p {
                } else if k == p {
                } else if x < p {
                    assert(t[k] == s[k - 1]);
                } else if x == p {
                    assert(t[k] == s[k - 1]);
                } else {
                    assert(t[k] == s[k - 1] && t[x] == s[x - 1]);
                }
            }
        }
        Some(p)
    }

    /// Archives the live file: names it with the time now (see `next_suffix`)
    /// and records it. None, with nothing changed, when chrono cannot read
    /// `format`, when the newest archive's number cannot be followed, or when
    /// the name is already taken (which needs an archive newer than the clock).
    pub fn archive_live(&mut self, format: &'static str, date_from: DateFrom) -> (r: Option<
        TimedArchive,
    >)
        requires
            old(self).wf(),
        ensures
            final(self).wf(),
            match r {
                Some(a) => {
                    &&& !a.compressed
                    &&& exists|p: int|
                        0 <= p <= old(self).entries@.len() && views(final(self).entries@) == views(
                            old(self).entries@,
                        ).insert(p, a@)
                },
                None => views(final(self).entries@) == views(old(self).entries@),
            },
            old(self).entries@.len() > 0 && r is Some ==> ({
                let newest = old(self).entries@[0];
                r.unwrap().number == if newest.timestamp@ == r.unwrap().timestamp@ {
                    Some(
                        ((match newest.number {
                            Some(k) => k,
                            None => 0usize,
                        }) + 1) as usize,
                    )
                } else {
                    None::<usize>
                }
            }),
            old(self).entries@.len() == 0 && r is Some ==> r.unwrap().number is None,
            old(self).entries@.len() == 0 && strftime_valid(format@) ==> r is Some,
            !strftime_valid(format@) ==> r is None,
            old(self).entries@.len() > 0 && old(self).entries@[0].number == Some(usize::MAX) ==> r is None,
            r is None ==> !strftime_valid(format@) || old(self).entries@.len() > 0,
    {
        if !time_format_valid(format) {
            return None;
        }
        let n = self.entries.len();
        let (ts, number) = if n == 0 {
            next_suffix(format, date_from, None)
        } else {
            if let Some(k) = self.entries[0].number {
                if k == usize::MAX {
                    return None;
                }
            }
            next_suffix(format, date_from, Some(&self.entries[0]))
        };
        let a = TimedArchive { timestamp: ts, number, compressed: false };
        let copy = copy_archive(&a, false);
        match self.insert(a) {
            Some(p) => Some(copy),
            None => None,
        }
    }

    /// Keep-N retention: drops all but the `keep` most recent archives and
    /// returns the dropped ones.
    pub fn retain_count(&mut self, keep: usize) -> (deleted: Vec<TimedArchive>)
        requires
            old(self).wf(),
        ensures
            final(self).wf(),
            views(final(self).entries@) == if keep < old(self).entries@.len() {
                views(old(self).entries@).take(keep as int)
            } else {
                views(old(self).entries@)
            },
            views(deleted@) == views(old(self).entries@).skip(final(self).entries@.len() as int),
    {
        if keep < self.entries.len() {
            let deleted = self.entries.split_off(keep);
            proof {
                assert(views(self.entries@) =~= views(old(self).entries@).take(keep as int));
                assert(views(deleted@) =~= views(old(self).entries@).skip(keep as int));
            }
            deleted
        } else {
            assert(views(old(self).entries@).skip(old(self).entries@.len() as int) =~= Seq::<
                TimedView,
            >::empty());
            let v: Vec<TimedArchive> = Vec::new();
            assert(views(v@) =~= Seq::<TimedView>::empty());
            v
        }
    }

    /// Age retention: going from the oldest archive towards the newest, drops
    /// each one whose timestamp sorts before `threshold` (the time limit,
    /// formatted as the archives' names are), and stops at the first that
    /// does not. Returns the dropped ones.
    pub fn retain_newer_than(&mut self, threshold: &str) -> (deleted: Vec<TimedArchive>)
        requires
            old(self).wf(),
        ensures
            final(self).wf(),
            ({
                let s = views(old(self).entries@);
                let j = final(self).entries@.len() as int;
                &&& j <= s.len()
                &&& views(final(self).entries@) == s.take(j)
                &&& views(deleted@) == s.skip(j)
                &&& forall|i: int| j <= i < s.len() ==> lex_lt(s[i].timestamp, threshold@)
                &&& j == 0 || !lex_lt(s[j - 1].timestamp, threshold@)
            }),
    {
        let ghost s = views(self.entries@);
        let mut j: usize = self.entries.len();
        while j > 0 && lex_less(self.entries[j - 1].timestamp.as_str(), threshold)
            invariant
                j <= s.len(),
                s == views(self.entries@),
                forall|i: int| j <= i < s.len() ==> lex_lt(s[i].timestamp, threshold@),
            decreases j,
        {
            j -= 1;
        }
        let deleted = self.entries.split_off(j);
        proof {
            assert(views(self.entries@) =~= s.take(j as int));
            assert(views(deleted@) =~= s.skip(j as int));
        }
        deleted
    }

    /// Marks every archive past the first `exclude` as compressed and returns
    /// those that were not compressed yet, oldest first.
    pub fn compress_beyond(&mut self, exclude: usize) -> (pending: Vec<TimedArchive>)
        requires
            old(self).wf(),
        ensures
            final(self).wf(),
            views(final(self).entries@) == timed_compressed_beyond(
                views(old(self).entries@),
                exclude as nat,
            ),
            views(pending@) == timed_pending(views(old(self).entries@), exclude as nat),
    {
        let ghost s = views(self.entries@);
        let n = self.entries.len();
        let mut pending: Vec<TimedArchive> = Vec::new();
        let mut i: usize = n;
        assert(s.take(n as int) == s);
        while i > exclude
            invariant
                exclude <= i <= n || i == n,
                n == s.len(),
                self.entries@.len() == n,
                forall|q: int| 0 <= q < i ==> views(self.entries@)[q] == s[q],
                forall|q: int|
                    i <= q < n ==> views(self.entries@)[q] == timed_compressed_beyond(
                        s,
                        exclude as nat,
                    )[q],
                timed_pending(s, exclude as nat) == views(pending@) + timed_pending(
                    s.take(i as int),
                    exclude as nat,
                ),
            decreases i,
        {
            proof {
                assert(s.take(i as int).drop_last() == s.take(i - 1));
                assert(s.take(i as int).last() == s[i - 1]);
                assert(views(self.entries@)[i - 1] == s[i - 1]);
            }
            if !self.entries[i - 1].compressed {
                let e = copy_archive(&self.entries[i - 1], false);
                let c = copy_archive(&self.entries[i - 1], true);
                pending.push(e);
                self.entries.set(i - 1, c);
                proof {
                    assert(views(pending@) =~= views(pending@.drop_last()).push(s[i - 1]));
                    assert(timed_pending(s, exclude as nat) =~= views(pending@) + timed_pending(
                        s.take(i - 1),
                        exclude as nat,
                    ));
                }
            }
            i -= 1;
        }
        proof {
            assert(timed_pending(s.take(i as int), exclude as nat) == Seq::<TimedView>::empty());
            assert(views(pending@) =~= timed_pending(s, exclude as nat));
            assert(views(self.entries@) =~= timed_compressed_beyond(s, exclude as nat));
            let t = views(self.entries@);
            assert forall|x: int, k: int| 0 <= x < k < t.len() implies older(t[k], t[x]) by {
                assert(older(s[k], s[x]));
            }
        }
        pending
    }
}

} // verus!
