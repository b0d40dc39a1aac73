use vstd::prelude::*;

verus! {

/// One archived file of the numeric naming scheme: `<base>.<suffix>`, with a
/// further `.gz` when it has been compressed. Suffix 1 is the most recent.
#[derive(Clone, Copy, Debug, PartialEq, Eq, Structural)]
pub struct ArchiveEntry {
    pub suffix: u64,
    pub compressed: bool,
}

/// One rename of a rotation: `from == None` names the live file.
#[derive(Clone, Copy, Debug, PartialEq, Eq, Structural)]
pub struct Rename {
    pub from: Option<u64>,
    pub to: u64,
    pub compressed: bool,
}

/// Suffixes strictly increase (most recent first) and start at 1 or above.
pub open spec fn entries_wf(s: Seq<ArchiveEntry>) -> bool {
    &&& forall|i: int| 0 <= i < s.len() ==> s[i].suffix >= 1
    &&& forall|i: int, k: int| 0 <= i < k < s.len() ==> s[i].suffix < s[k].suffix
}

/// Length of the leading run `1, 2, 3, ...` of suffixes: the files that a
/// rotation has to move out of the way, each to the next number.
pub open spec fn run_len(s: Seq<ArchiveEntry>) -> nat
    decreases s.len(),
{
    if s.len() == 0 {
        0
    } else if s.last().suffix == s.len() {
        s.len()
    } else {
        run_len(s.drop_last())
    }
}

pub open spec fn bumped(e: ArchiveEntry) -> ArchiveEntry {
    ArchiveEntry { suffix: (e.suffix + 1) as u64, compressed: e.compressed }
}

pub open spec fn fresh_archive() -> ArchiveEntry {
    ArchiveEntry { suffix: 1, compressed: false }
}

/// The archive set after the live file has been archived: it takes suffix 1,
/// the leading run moves up by one, everything else keeps its name.
pub open spec fn after_rotation(s: Seq<ArchiveEntry>) -> Seq<ArchiveEntry> {
    seq![fresh_archive()] + Seq::new(
        s.len(),
        |i: int| if i < run_len(s) { bumped(s[i]) } else { s[i] },
    )
}

/// The renames of a rotation, in the order in which they are performed: the
/// oldest file of the run first, the live file last, so that no rename
/// overwrites an existing file.
pub open spec fn cascade(s: Seq<ArchiveEntry>) -> Seq<Rename> {
    let j = run_len(s);
    Seq::new(
        j,
        |k: int|
            Rename {
                from: Some((j - k) as u64),
                to: (j - k + 1) as u64,
                compressed: s[j - 1 - k].compressed,
            },
    ).push(Rename { from: None, to: 1, compressed: false })
}

/// Keep-N retention: the N most recent archives stay.
pub open spec fn retained(s: Seq<ArchiveEntry>, keep: nat) -> Seq<ArchiveEntry> {
    if keep < s.len() {
        s.take(keep as int)
    } else {
        s
    }
}

/// Every archive past the first `exclude` ones ends up compressed.
pub open spec fn compressed_beyond(s: Seq<ArchiveEntry>, exclude: nat) -> Seq<ArchiveEntry> {
    Seq::new(
        s.len(),
        |i: int| ArchiveEntry { suffix: s[i].suffix, compressed: s[i].compressed || i >= exclude },
    )
}

/// The archives that still need compressing, oldest first.
pub open spec fn pending_compression(s: Seq<ArchiveEntry>, exclude: nat) -> Seq<ArchiveEntry>
    decreases s.len(),
{
    if s.len() <= exclude {
        Seq::empty()
    } else {
        let rest = pending_compression(s.drop_last(), exclude);
        if s.last().compressed {
            rest
        } else {
            seq![s.last()] + rest
        }
    }
}

pub proof fn lemma_run_len(s: Seq<ArchiveEntry>)
    requires
        entries_wf(s),
    ensures
        run_len(s) <= s.len(),
        forall|i: int| 0 <= i < run_len(s) ==> s[i].suffix == i + 1,
        forall|i: int| run_len(s) <= i < s.len() ==> s[i].suffix > i + 1,
    decreases s.len(),
{
    if s.len() == 0 {
    } else {
        lemma_suffix_lower_bound(s);
        if s.last().suffix == s.len() {
            assert forall|i: int| 0 <= i < s.len() implies s[i].suffix == i + 1 by {
                lemma_suffix_gap(s, i, s.len() - 1);
            }
        } else {
            let t = s.drop_last();
            assert(entries_wf(t));
            lemma_run_len(t);
            assert forall|i: int| 0 <= i < run_len(s) implies s[i].suffix == i + 1 by {
                assert(t[i] == s[i]);
            }
            assert forall|i: int| run_len(s) <= i < s.len() implies s[i].suffix > i + 1 by {
                if i < s.len() - 1 {
                    assert(t[i] == s[i]);
                }
            }
        }
    }
}

/// In a well-formed set the suffix at position i is at least i + 1.
proof fn lemma_suffix_lower_bound(s: Seq<ArchiveEntry>)
    requires
        entries_wf(s),
    ensures
        forall|i: int| 0 <= i < s.len() ==> s[i].suffix >= i + 1,
    decreases s.len(),
{
    if s.len() > 0 {
        let t = s.drop_last();
        lemma_suffix_lower_bound(t);
        assert forall|i: int| 0 <= i < s.len() implies s[i].suffix >= i + 1 by {
            if i < s.len() - 1 {
                assert(t[i] == s[i]);
            } else if i > 0 {
                assert(t[i - 1] == s[i - 1]);
            }
        }
    }
}

/// Between positions i and k suffixes grow by at least k - i.
proof fn lemma_suffix_gap(s: Seq<ArchiveEntry>, i: int, k: int)
    requires
        entries_wf(s),
        0 <= i <= k < s.len(),
    ensures
        s[k].suffix >= s[i].suffix + (k - i),
    decreases k - i,
{
    if i < k {
        lemma_suffix_gap(s, i, k - 1);
    }
}


/// What survives of a scan of the archive directory: entries in ascending
/// order of suffix, where one that does not come after the last kept one, or
/// has suffix 0, is not an archive of this scheme.
pub open spec fn scan_kept(s: Seq<ArchiveEntry>) -> Seq<ArchiveEntry>
    decreases s.len(),
{
    if s.len() == 0 {
        Seq::empty()
    } else {
        let k = scan_kept(s.drop_last());
        if s.last().suffix >= 1 && (k.len() == 0 || k.last().suffix < s.last().suffix) {
            k.push(s.last())
        } else {
            k
        }
    }
}

/// The archived files next to one log file, most recent first.
pub struct ArchiveSet {
    pub entries: Vec<ArchiveEntry>,
}

impl ArchiveSet {
    pub open spec fn wf(&self) -> bool {
        entries_wf(self.entries@)
    }

    pub fn new() -> (r: Self)
        ensures
            r.wf(),
            r.entries@ == Seq::<ArchiveEntry>::empty(),
    {
        ArchiveSet { entries: Vec::new() }
    }

    /// Takes the suffixes found on disk, in ascending order.
    pub fn from_scan(found: &Vec<ArchiveEntry>) -> (r: Self)
        ensures
            r.wf(),
            r.entries@ == scan_kept(found@),
    {
        let mut kept: Vec<ArchiveEntry> = Vec::new();
        let mut i: usize = 0;
        while i < found.len()
            invariant
                i <= found@.len(),
                kept@ == scan_kept(found@.take(i as int)),
                entries_wf(kept@),
            decreases found@.len() - i,
        {
            let e = found[i];
            proof {
                assert(found@.take(i as int + 1).drop_last() == found@.take(i as int));
            }
            let n = kept.len();
            if e.suffix >= 1 && (n == 0 || kept[n - 1].suffix < e.suffix) {
                kept.push(e);
            }
            i += 1;
        }
        proof {
            assert(found@.take(found@.len() as int) == found@);
        }
        ArchiveSet { entries: kept }
    }

    pub fn len(&self) -> (r: usize)
        ensures
            r == self.entries@.len(),
    {
        self.entries.len()
    }

    /// Archives the live file under suffix 1, first moving each file of the
    /// leading run to the next number; returns the renames to perform, in order.
    pub fn rotate(&mut self) -> (renames: Vec<Rename>)
        requires
            old(self).wf(),
            old(self).entries@.len() + 1 < u64::MAX,
        ensures
            final(self).wf(),
            final(self).entries@ == after_rotation(old(self).entries@),
            renames@ == cascade(old(self).entries@),
    {
        let ghost s = self.entries@;
        let n = self.entries.len();
        proof {
            lemma_run_len(s);
        }
        let mut j: usize = 0;
        while j < n && self.entries[j].suffix == j as u64 + 1
            invariant
                j <= n,
                n == s.len(),
                self.entries@ == s,
                forall|k: int| 0 <= k < j ==> s[k].suffix == k + 1,
                run_len(s) <= s.len(),
                forall|i: int| 0 <= i < run_len(s) ==> s[i].suffix == i + 1,
                forall|i: int| run_len(s) <= i < s.len() ==> s[i].suffix > i + 1,
            decreases n - j,
        {
            j += 1;
        }
        assert(j == run_len(s)) by {
            if j < run_len(s) {
                assert(s[j as int].suffix == j + 1);
            } else if j > run_len(s) {
                let r = run_len(s) as int;
                assert(s[r].suffix == r + 1);
            }
        }
        let mut renames: Vec<Rename> = Vec::new();
        let mut k: usize = j;
        while k > 0
            invariant
                k <= j,
                j == run_len(s),
                j <= n,
                n == s.len(),
                n + 1 < u64::MAX,
                self.entries@ == s,
                renames@ == cascade(s).take(j - k),
            decreases k,
        {
            let e = self.entries[k - 1];
            renames.push(Rename { from: Some(k as u64), to: k as u64 + 1, compressed: e.compressed });
            proof {
                assert(renames@ =~= cascade(s).take(j - k + 1));
            }
            k -= 1;
        }
        renames.push(Rename { from: None, to: 1, compressed: false });
        assert(renames@ =~= cascade(s));
        let mut next: Vec<ArchiveEntry> = Vec::new();
        next.push(ArchiveEntry { suffix: 1, compressed: false });
        let mut i: usize = 0;
        while i < n
            invariant
                i <= n,
                j == run_len(s),
                j <= n,
                n == s.len(),
                n + 1 < u64::MAX,
                self.entries@ == s,
                forall|q: int| 0 <= q < j ==> s[q].suffix == q + 1,
                next@ =~= after_rotation(s).take(i as int + 1),
            decreases n - i,
        {
            let e = self.entries[i];
            if i < j {
                next.push(ArchiveEntry { suffix: e.suffix + 1, compressed: e.compressed });
            } else {
                next.push(e);
            }
            i += 1;
        }
        assert(next@ =~= after_rotation(s));
        proof {
            lemma_rotation_wf(s);
        }
        self.entries = next;
        renames
    }

    /// Keep-N retention: drops all but the `keep` most recent archives and
    /// returns the dropped ones, whose files are to be deleted.
    pub fn retain(&mut self, keep: usize) -> (deleted: Vec<ArchiveEntry>)
        requires
            old(self).wf(),
        ensures
            final(self).wf(),
            final(self).entries@ == retained(old(self).entries@, keep as nat),
            deleted@ == old(self).entries@.skip(
                final(self).entries@.len() as int,
            ),
    {
        if keep < self.entries.len() {
            let deleted = self.entries.split_off(keep);
            proof {
                assert(self.entries@ =~= retained(old(self).entries@, keep as nat));
            }
            deleted
        } else {
            assert(old(self).entries@.skip(old(self).entries@.len() as int) =~= Seq::<
                ArchiveEntry,
            >::empty());
            Vec::new()
        }
    }

    /// Marks every archive past the first `exclude` as compressed and returns
    /// those that were not compressed yet, oldest first.
    pub fn compress_beyond(&mut self, exclude: usize) -> (pending: Vec<ArchiveEntry>)
        requires
            old(self).wf(),
        ensures
            final(self).wf(),
            final(self).entries@ == compressed_beyond(old(self).entries@, exclude as nat),
            pending@ == pending_compression(old(self).entries@, exclude as nat),
    {
        let ghost s = self.entries@;
        let n = self.entries.len();
        let mut pending: Vec<ArchiveEntry> = Vec::new();
        let mut i: usize = n;
        assert(s.take(n as int) == s);
        while i > exclude
            invariant
                exclude <= i <= n || i == n,
                n == s.len(),
                self.entries@.len() == n,
                forall|q: int| 0 <= q < i ==> self.entries@[q] == s[q],
                forall|q: int|
                    i <= q < n ==> self.entries@[q] == compressed_beyond(s, exclude as nat)[q],
                pending_compression(s, exclude as nat) == pending@ + pending_compression(
                    s.take(i as int),
                    exclude as nat,
                ),
            decreases i,
        {
            let e = self.entries[i - 1];
            proof {
                assert(s.take(i as int).drop_last() == s.take(i - 1));
                assert(s.take(i as int).last() == e);
            }
            if !e.compressed {
                pending.push(e);
                self.entries.set(i - 1, ArchiveEntry { suffix: e.suffix, compressed: true });
                proof {
                    assert(pending_compression(s, exclude as nat) =~= pending@ + pending_compression(
                        s.take(i - 1),
                        exclude as nat,
                    ));
                }
            }
            i -= 1;
        }
        proof {
            assert(pending_compression(s.take(i as int), exclude as nat) == Seq::<
                ArchiveEntry,
            >::empty());
            assert(pending@ =~= pending_compression(s, exclude as nat));
            assert(self.entries@ =~= compressed_beyond(s, exclude as nat));
        }
        pending
    }
}

proof fn lemma_rotation_wf(s: Seq<ArchiveEntry>)
    requires
        entries_wf(s),
        s.len() + 1 < u64::MAX,
    ensures
        entries_wf(after_rotation(s)),
{
    lemma_run_len(s);
    let r = after_rotation(s);
    assert forall|i: int, k: int| 0 <= i < k < r.len() implies r[i].suffix < r[k].suffix by {
        if i > 0 {
            assert(s[i - 1].suffix < s[k - 1].suffix);
        }
    }
}


/// One rotation cycle: the live file is archived, then keep-N retention
/// (when configured), then compression past the boundary (when configured).
pub open spec fn cycle(s: Seq<ArchiveEntry>, keep: Option<nat>, exclude: Option<nat>) -> Seq<
    ArchiveEntry,
> {
    let r = after_rotation(s);
    let k = match keep {
        Some(n) => retained(r, n),
        None => r,
    };
    match exclude {
        Some(x) => compressed_beyond(k, x),
        None => k,
    }
}

/// `m` rotation cycles in a row.
pub open spec fn cycles(s: Seq<ArchiveEntry>, m: nat, keep: Option<nat>, exclude: Option<nat>) -> Seq<
    ArchiveEntry,
>
    decreases m,
{
    if m == 0 {
        s
    } else {
        cycle(cycles(s, (m - 1) as nat, keep, exclude), keep, exclude)
    }
}

pub open spec fn kept_after(m: nat, keep: Option<nat>) -> nat {
    match keep {
        Some(n) => if m < n { m } else { n },
        None => m,
    }
}

proof fn lemma_cycles_from_empty(m: nat, keep: Option<nat>, exclude: Option<nat>)
    requires
        m + 1 < u64::MAX,
    ensures
        ({
            let r = cycles(Seq::empty(), m, keep, exclude);
            &&& r.len() == kept_after(m, keep)
            &&& forall|i: int|
                0 <= i < r.len() ==> r[i].suffix == i + 1 && r[i].compressed == match exclude {
                    Some(x) => i >= x,
                    None => false,
                }
        }),
    decreases m,
{
    if m > 0 {
        let p = cycles(Seq::empty(), (m - 1) as nat, keep, exclude);
        lemma_cycles_from_empty((m - 1) as nat, keep, exclude);
        if p.len() > 0 {
            assert(p.last().suffix == p.len());
        }
        assert(run_len(p) == p.len());
        let r = after_rotation(p);
        let xc = |i: int|
            match exclude {
                Some(x) => i >= x,
                None => false,
            };
        assert forall|i: int| 0 <= i < r.len() implies r[i].suffix == i + 1 && (r[i].compressed
            == (i > 0 && xc(i - 1))) by {
            if i > 0 {
                assert(r[i] == bumped(p[i - 1]));
                assert(p[i - 1].suffix == i);
                assert(p[i - 1].compressed == xc(i - 1));
            } else {
                assert(r[0] == fresh_archive());
            }
        }
        let k = match keep {
            Some(n) => retained(r, n),
            None => r,
        };
        assert(k.len() == kept_after(m, keep));
        assert forall|i: int| 0 <= i < k.len() implies k[i] == r[i] by {}
        let f = cycles(Seq::empty(), m, keep, exclude);
        assert(f == match exclude {
            Some(x) => compressed_beyond(k, x),
            None => k,
        });
        assert forall|i: int| 0 <= i < f.len() implies f[i].suffix == i + 1 && f[i].compressed
            == xc(i) by {
            assert(k[i] == r[i]);
        }
    }
}

/// Keep-N retention: after more than N rotations, starting from no archives,
/// exactly N archives remain, and they are the N most recent. Each rotation
/// puts the newly archived file first and moves the older ones back by one
/// place, so the archive at suffix i + 1 is the one made i rotations before
/// the last, and retention drops from the oldest end only.
pub proof fn lemma_retention_keeps_most_recent(m: nat, keep: nat, exclude: Option<nat>)
    requires
        m > keep,
        m + 1 < u64::MAX,
    ensures
        cycles(Seq::empty(), m, Some(keep), exclude).len() == keep,
        forall|i: int|
            0 <= i < keep ==> #[trigger] cycles(Seq::empty(), m, Some(keep), exclude)[i].suffix == i
                + 1,
        forall|s: Seq<ArchiveEntry>|
            #![trigger cycle(s, Some(keep), exclude)]
            entries_wf(s) ==> cycle(s, Some(keep), exclude).len() == if s.len() + 1 < keep {
                s.len() + 1
            } else {
                keep
            },
        forall|s: Seq<ArchiveEntry>, i: int|
            #![trigger cycle(s, Some(keep), exclude)[i]]
            entries_wf(s) && 0 < i < cycle(s, Some(keep), exclude).len() ==> cycle(
                s,
                Some(keep),
                exclude,
            )[i].suffix == after_rotation(s)[i].suffix,
{
    lemma_cycles_from_empty(m, Some(keep), exclude);
}

/// Compression boundary: with the `exclude` most recent archives left as they
/// are, after more than `exclude` rotations, starting from no archives and
/// with retention keeping at least `exclude` of them, exactly the `exclude`
/// most recent archives are uncompressed and all the others are compressed.
pub proof fn lemma_compression_boundary(m: nat, keep: Option<nat>, exclude: nat)
    requires
        m > exclude,
        m + 1 < u64::MAX,
        match keep {
            Some(n) => n >= exclude,
            None => true,
        },
    ensures
        cycles(Seq::empty(), m, keep, Some(exclude)).len() >= exclude,
        forall|i: int|
            0 <= i < exclude ==> !(#[trigger] cycles(Seq::empty(), m, keep, Some(exclude))[i].compressed),
        forall|i: int|
            exclude <= i < cycles(Seq::empty(), m, keep, Some(exclude)).len() ==> (#[trigger] cycles(
                Seq::empty(),
                m,
                keep,
                Some(exclude),
            )[i].compressed),
{
    lemma_cycles_from_empty(m, keep, Some(exclude));
}

} // verus!
