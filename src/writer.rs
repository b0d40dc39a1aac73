use vstd::prelude::*;
use vstd::seq_lib::lemma_flatten_concat;

use crate::rotation::{rotation_due, LogRotate};

verus! {

/// Flushes stay within 4 KiB by default, so that a restart or a reload
/// cannot split a line.
pub const FLUSH_SIZE_DEFAULT: usize = 4096;

/// Messages that may wait in a writer's queue before producers block.
pub const QUEUE_CAPACITY: usize = 100;

/// The longest timed-flush interval, in milliseconds.
pub const FLUSH_MILLIS_MAX: usize = 1000;

/// The flush interval in force: 0 stays 0 (flush when the queue drains),
/// anything else is clamped to at most one second.
pub fn effective_flush_millis(flush_millis: usize) -> (r: usize)
    ensures
        r == if flush_millis > FLUSH_MILLIS_MAX {
            FLUSH_MILLIS_MAX
        } else {
            flush_millis
        },
{
    if flush_millis > FLUSH_MILLIS_MAX {
        FLUSH_MILLIS_MAX
    } else {
        flush_millis
    }
}

/// The flush threshold in force: 0 means the default.
pub fn effective_flush_size(flush_size: usize) -> (r: usize)
    ensures
        r == if flush_size == 0 {
            FLUSH_SIZE_DEFAULT
        } else {
            flush_size
        },
        r > 0,
{
    if flush_size == 0 {
        FLUSH_SIZE_DEFAULT
    } else {
        flush_size
    }
}

/// The contents of a run of byte buffers.
pub open spec fn byte_views(ws: Seq<Vec<u8>>) -> Seq<Seq<u8>> {
    ws.map_values(|w: Vec<u8>| w@)
}

/// One appended line: the writes it causes, and the buffer left behind.
/// When the line would overflow a non-empty buffer, the buffer is written
/// first; when the buffer then reaches the threshold, it is written at once.
pub open spec fn append_step(buf: Seq<u8>, line: Seq<u8>, threshold: nat) -> (Seq<Seq<u8>>, Seq<u8>) {
    let first: Seq<Seq<u8>> = if buf.len() + line.len() > threshold && buf.len() > 0 {
        seq![buf]
    } else {
        Seq::empty()
    };
    let kept = if buf.len() + line.len() > threshold && buf.len() > 0 {
        line
    } else {
        buf + line
    };
    if kept.len() >= threshold {
        (first.push(kept), Seq::empty())
    } else {
        (first, kept)
    }
}

/// A run of lines appended one after the other.
pub open spec fn append_all(buf: Seq<u8>, lines: Seq<Seq<u8>>, threshold: nat) -> (Seq<Seq<u8>>, Seq<u8>)
    decreases lines.len(),
{
    if lines.len() == 0 {
        (Seq::empty(), buf)
    } else {
        let (w, b) = append_all(buf, lines.drop_last(), threshold);
        let (w2, b2) = append_step(b, lines.last(), threshold);
        (w + w2, b2)
    }
}

/// The pending bytes of a buffered sink, written in batches.
pub struct BatchBuffer {
    pub buf: Vec<u8>,
    pub threshold: usize,
}

impl BatchBuffer {
    pub open spec fn wf(&self) -> bool {
        0 < self.threshold && self.buf@.len() < self.threshold
    }

    pub fn new(threshold: usize) -> (r: Self)
        requires
            threshold > 0,
        ensures
            r.wf(),
            r.buf@.len() == 0,
            r.threshold == threshold,
    {
        BatchBuffer { buf: Vec::new(), threshold }
    }

    /// Appends one line; returns the buffers to write now, in order.
    pub fn append(&mut self, line: Vec<u8>) -> (writes: Vec<Vec<u8>>)
        requires
            old(self).wf(),
            line@.len() <= usize::MAX - old(self).threshold,
        ensures
            final(self).wf(),
            final(self).threshold == old(self).threshold,
            (byte_views(writes@), final(self).buf@) == append_step(
                old(self).buf@,
                line@,
                old(self).threshold as nat,
            ),
    {
        let ghost b0 = self.buf@;
        let mut line = line;
        let ghost l0 = line@;
        let mut writes: Vec<Vec<u8>> = Vec::new();
        if self.buf.len() + line.len() > self.threshold && self.buf.len() > 0 {
            let mut full: Vec<u8> = Vec::new();
            std::mem::swap(&mut full, &mut self.buf);
            writes.push(full);
        }
        self.buf.append(&mut line);
        if self.buf.len() >= self.threshold {
            let mut full: Vec<u8> = Vec::new();
            std::mem::swap(&mut full, &mut self.buf);
            writes.push(full);
        }
        proof {
            let (w, b) = append_step(b0, l0, self.threshold as nat);
            assert(byte_views(writes@) =~= w);
            assert(self.buf@ =~= b);
        }
        writes
    }

    /// Hands out everything pending, leaving the buffer empty.
    pub fn take(&mut self) -> (r: Vec<u8>)
        requires
            old(self).wf(),
        ensures
            final(self).wf(),
            final(self).threshold == old(self).threshold,
            r@ == old(self).buf@,
            final(self).buf@.len() == 0,
    {
        let mut full: Vec<u8> = Vec::new();
        std::mem::swap(&mut full, &mut self.buf);
        full
    }
}

/// Batching: with threshold S, over any run of appended lines no write is
/// longer than S or than the longest line (so never more than S plus one
/// line), and the bytes written followed by those still pending are exactly
/// the bytes appended, in order.
pub proof fn lemma_batching(lines: Seq<Seq<u8>>, threshold: nat, max_line: nat)
    requires
        threshold > 0,
        forall|i: int| 0 <= i < lines.len() ==> (#[trigger] lines[i]).len() <= max_line,
    ensures
        ({
            let (w, b) = append_all(Seq::empty(), lines, threshold);
            &&& w.flatten() + b == lines.flatten()
            &&& b.len() < threshold
            &&& forall|i: int|
                0 <= i < w.len() ==> (#[trigger] w[i]).len() <= threshold || w[i].len()
                    <= max_line
        }),
    decreases lines.len(),
{
    if lines.len() == 0 {
        assert(Seq::<Seq<u8>>::empty().flatten() + Seq::<u8>::empty() =~= Seq::<u8>::empty());
    } else {
        let init = lines.drop_last();
        lemma_batching(init, threshold, max_line);
        let (w, b) = append_all(Seq::empty(), init, threshold);
        let line = lines.last();
        let (w2, b2) = append_step(b, line, threshold);
        lemma_flatten_concat(w, w2);
        lemma_flatten_concat(init, seq![line]);
        seq![line].lemma_flatten_one_element();
        assert(init + seq![line] =~= lines);
        if b.len() + line.len() > threshold && b.len() > 0 {
            seq![b].lemma_flatten_one_element();
            if line.len() >= threshold {
                seq![b, line].lemma_flatten_one_element();
                assert(seq![b, line] =~= seq![b] + seq![line]);
                lemma_flatten_concat(seq![b], seq![line]);
                assert(w2 =~= seq![b, line]);
            } else {
                assert(w2 =~= seq![b]);
            }
        } else {
            if (b + line).len() >= threshold {
                seq![b + line].lemma_flatten_one_element();
                assert(w2 =~= seq![b + line]);
            } else {
                assert(w2 =~= Seq::<Seq<u8>>::empty());
            }
        }
        assert(w2.flatten() + b2 =~= b + line);
        assert((w + w2).flatten() + b2 =~= w.flatten() + (w2.flatten() + b2));
        assert forall|i: int| 0 <= i < (w + w2).len() implies (#[trigger] (w + w2)[i]).len()
            <= threshold || (w + w2)[i].len() <= max_line by {
            if i >= w.len() {
                assert(lines[lines.len() - 1] == line);
            }
        }
    }
}

/// The writer side of a buffered file sink: what its dedicated thread
/// decides. The thread owns the file; it tells this state what became of
/// its opens and writes.
pub struct WriterCore {
    pub batch: BatchBuffer,
    /// Bytes written since the file was opened (with its size at opening).
    pub size: u64,
    /// Creation time of the file, in milliseconds since the Unix epoch (the
    /// modification time where the platform has no creation time).
    pub created: i64,
    /// Whether a file is open: without one, writes are dropped.
    pub has_file: bool,
    pub rotate: Option<LogRotate>,
    /// Flush interval in force, in milliseconds; 0 flushes whenever the
    /// queue runs empty.
    pub flush_millis: usize,
}

/// A byte count that stays at the largest `u64` rather than wrap.
pub open spec fn saturated(size: u64, n: nat) -> u64 {
    if size + n > u64::MAX {
        u64::MAX
    } else {
        (size + n) as u64
    }
}

/// What one flush of `n` bytes at time `now` means for the size count and
/// the rotation test.
pub open spec fn flush_rotates(core: &WriterCore, n: nat, now: i64) -> bool {
    core.has_file && match core.rotate {
        Some(r) => rotation_due(
            r.size_limit,
            r.age_limit,
            saturated(core.size, n),
            core.created,
            now,
        ),
        None => false,
    }
}

impl WriterCore {
    pub open spec fn wf(&self) -> bool {
        self.batch.wf()
    }

    /// `flush_size` 0 means the default threshold; `flush_millis` is clamped
    /// as `effective_flush_millis` says.
    pub fn new(flush_size: usize, flush_millis: usize, rotate: Option<LogRotate>) -> (r: Self)
        ensures
            r.flush_millis == if flush_millis > FLUSH_MILLIS_MAX {
                FLUSH_MILLIS_MAX
            } else {
                flush_millis
            },
            r.wf(),
            r.batch.buf@.len() == 0,
            r.batch.threshold == if flush_size == 0 {
                FLUSH_SIZE_DEFAULT
            } else {
                flush_size
            },
            r.size == 0,
            !r.has_file,
            r.rotate == rotate,
    {
        WriterCore {
            batch: BatchBuffer::new(effective_flush_size(flush_size)),
            size: 0,
            created: 0,
            has_file: false,
            rotate,
            flush_millis: effective_flush_millis(flush_millis),
        }
    }

    /// The file was (re)opened: it holds `size` bytes and was created at `created`.
    pub fn opened(&mut self, size: u64, created: i64)
        ensures
            final(self).has_file,
            final(self).size == size,
            final(self).created == created,
            final(self).batch == old(self).batch,
            final(self).rotate == old(self).rotate,
            final(self).flush_millis == old(self).flush_millis,
    {
        self.has_file = true;
        self.size = size;
        self.created = created;
    }

    /// Opening the file failed: writes are dropped until the next successful open.
    pub fn open_failed(&mut self)
        ensures
            !final(self).has_file,
            final(self).size == old(self).size,
            final(self).created == old(self).created,
            final(self).batch == old(self).batch,
            final(self).rotate == old(self).rotate,
            final(self).flush_millis == old(self).flush_millis,
    {
        self.has_file = false;
    }

    /// Appends a formatted line; returns the buffers to flush now, in order.
    pub fn append(&mut self, line: Vec<u8>) -> (writes: Vec<Vec<u8>>)
        requires
            old(self).wf(),
            line@.len() <= usize::MAX - old(self).batch.threshold,
        ensures
            final(self).wf(),
            (byte_views(writes@), final(self).batch.buf@) == append_step(
                old(self).batch.buf@,
                line@,
                old(self).batch.threshold as nat,
            ),
            final(self).batch.threshold == old(self).batch.threshold,
            final(self).size == old(self).size,
            final(self).created == old(self).created,
            final(self).has_file == old(self).has_file,
            final(self).rotate == old(self).rotate,
            final(self).flush_millis == old(self).flush_millis,
    {
        self.batch.append(line)
    }

    /// Hands out everything pending, for a timed, idle or explicit flush.
    pub fn take_pending(&mut self) -> (r: Vec<u8>)
        requires
            old(self).wf(),
        ensures
            final(self).wf(),
            r@ == old(self).batch.buf@,
            final(self).batch.buf@.len() == 0,
            final(self).batch.threshold == old(self).batch.threshold,
            final(self).size == old(self).size,
            final(self).created == old(self).created,
            final(self).has_file == old(self).has_file,
            final(self).rotate == old(self).rotate,
            final(self).flush_millis == old(self).flush_millis,
    {
        self.batch.take()
    }

    /// Records one flush of `n` bytes at time `now` (a flush of nothing
    /// too); returns whether the file is now to be rotated. Without an open
    /// file the bytes were dropped and nothing changes.
    pub fn flushed(&mut self, n: usize, now: i64) -> (rotate: bool)
        ensures
            rotate == flush_rotates(old(self), n as nat, now),
            final(self).size == if old(self).has_file {
                saturated(old(self).size, n as nat)
            } else {
                old(self).size
            },
            final(self).batch == old(self).batch,
            final(self).created == old(self).created,
            final(self).has_file == old(self).has_file,
            final(self).rotate == old(self).rotate,
            final(self).flush_millis == old(self).flush_millis,
    {
        if !self.has_file {
            return false;
        }
        self.size = self.size.saturating_add(n as u64);
        match &self.rotate {
            Some(r) => r.check(self.size, self.created, now),
            None => false,
        }
    }
}

/// What reaches the writer thread.
pub enum WriterEvent {
    /// A formatted line from a producer.
    Line(Vec<u8>),
    /// Reopen the file (a signal, or an outside log-rotate tool).
    Reopen,
    /// An explicit flush (shutdown, or a caller's request).
    Flush,
    /// No message within the flush interval.
    TimedOut,
    /// The queue ran empty after a batch of messages (flush interval 0).
    Drained,
    /// Every producer is gone.
    Closed,
}

/// What the writer thread does, in order. After each `Write` it reports the
/// bytes with `WriterCore::flushed`, and rotates when that says so.
pub enum WriterAction {
    /// Write these bytes with one write call (dropped without an open file).
    Write(Vec<u8>),
    /// Open the file again by its path.
    Reopen,
    /// Wait for the background upkeep of the last rotation to finish.
    WaitUpkeep,
    /// Leave the loop.
    Stop,
}

pub enum ActionView {
    Write(Seq<u8>),
    Reopen,
    WaitUpkeep,
    Stop,
}

pub open spec fn action_view(a: WriterAction) -> ActionView {
    match a {
        WriterAction::Write(b) => ActionView::Write(b@),
        WriterAction::Reopen => ActionView::Reopen,
        WriterAction::WaitUpkeep => ActionView::WaitUpkeep,
        WriterAction::Stop => ActionView::Stop,
    }
}

/// The actions for one event, given the pending bytes before it.
pub open spec fn actions_for(buf: Seq<u8>, threshold: nat, ev: WriterEvent) -> (Seq<ActionView>, Seq<u8>) {
    match ev {
        WriterEvent::Line(l) => {
            let (w, b) = append_step(buf, l@, threshold);
            (w.map_values(|x: Seq<u8>| ActionView::Write(x)), b)
        },
        WriterEvent::Reopen => (seq![ActionView::Reopen], buf),
        WriterEvent::Flush => (seq![ActionView::Write(buf), ActionView::WaitUpkeep], Seq::empty()),
        WriterEvent::TimedOut => (seq![ActionView::Write(buf)], Seq::empty()),
        WriterEvent::Drained => (seq![ActionView::Write(buf)], Seq::empty()),
        WriterEvent::Closed => (
            seq![ActionView::Write(buf), ActionView::WaitUpkeep, ActionView::Stop],
            Seq::empty(),
        ),
    }
}

impl WriterCore {
    /// Decides what one event means for the file.
    pub fn on_event(&mut self, ev: WriterEvent) -> (actions: Vec<WriterAction>)
        requires
            old(self).wf(),
            ev matches WriterEvent::Line(l) ==> l@.len() <= usize::MAX - old(self).batch.threshold,
        ensures
            final(self).wf(),
            (actions@.map_values(|a: WriterAction| action_view(a)), final(self).batch.buf@)
                == actions_for(old(self).batch.buf@, old(self).batch.threshold as nat, ev),
            final(self).batch.threshold == old(self).batch.threshold,
            final(self).size == old(self).size,
            final(self).created == old(self).created,
            final(self).has_file == old(self).has_file,
            final(self).rotate == old(self).rotate,
            final(self).flush_millis == old(self).flush_millis,
    {
        let ghost b0 = self.batch.buf@;
        let ghost ev0 = ev;
        let mut actions: Vec<WriterAction> = Vec::new();
        match ev {
            WriterEvent::Line(l) => {
                let writes = self.append(l);
                let ghost wv = byte_views(writes@);
                // buffers are moved out from the end, so they pass through a
                // reversed vector to keep their order
                let mut ws = writes;
                let mut rev: Vec<Vec<u8>> = Vec::new();
                while ws.len() > 0
                    invariant
                        byte_views(ws@) + byte_views(rev@).reverse() == wv,
                    decreases ws@.len(),
                {
                    let w = ws.pop().unwrap();
                    rev.push(w);
                    proof {
                        assert(byte_views(ws@) + byte_views(rev@).reverse() =~= wv);
                    }
                }
                while rev.len() > 0
                    invariant
                        actions@.map_values(|a: WriterAction| action_view(a)) + byte_views(
                            rev@,
                        ).reverse().map_values(|x: Seq<u8>| ActionView::Write(x)) =~= wv.map_values(
                            |x: Seq<u8>| ActionView::Write(x),
                        ),
                    decreases rev@.len(),
                {
                    let w = rev.pop().unwrap();
                    actions.push(WriterAction::Write(w));
                }
            },
            WriterEvent::Reopen => {
                actions.push(WriterAction::Reopen);
            },
            WriterEvent::Flush => {
                actions.push(WriterAction::Write(self.take_pending()));
                actions.push(WriterAction::WaitUpkeep);
            },
            WriterEvent::TimedOut => {
                actions.push(WriterAction::Write(self.take_pending()));
            },
            WriterEvent::Drained => {
                actions.push(WriterAction::Write(self.take_pending()));
            },
            WriterEvent::Closed => {
                actions.push(WriterAction::Write(self.take_pending()));
                actions.push(WriterAction::WaitUpkeep);
                actions.push(WriterAction::Stop);
            },
        }
        proof {
            let (av, bv) = actions_for(b0, self.batch.threshold as nat, ev0);
            assert(actions@.map_values(|a: WriterAction| action_view(a)) =~= av);
            assert(self.batch.buf@ =~= bv);
        }
        actions
    }
}

/// Rotation by size: with size limit L and an open file, a flush that brings
/// the bytes counted since the file was opened to L or more reports that the
/// file is to be rotated, even one of zero bytes once L has been reached;
/// without an age limit, one that stays below L does not. A flush reports
/// one decision, so at most one rotation; a file reopened empty after it
/// counts from zero again.
pub proof fn lemma_rotation_by_size(core: WriterCore, n: nat, now: i64, limit: u64)
    requires
        core.has_file,
        core.rotate matches Some(r) && r.size_limit == Some(
            crate::rotation::LimiterSize { limit },
        ),
    ensures
        saturated(core.size, n) >= limit ==> flush_rotates(&core, n, now),
        core.rotate matches Some(r) && r.age_limit is None ==> (saturated(core.size, n) < limit
            ==> !flush_rotates(&core, n, now)),
        core.size >= limit ==> flush_rotates(&core, 0, now),
        ({
            let reopened = WriterCore { size: 0, created: now, has_file: true, ..core };
            core.rotate matches Some(r) && r.age_limit is None && n < limit ==> !flush_rotates(
                &reopened,
                n,
                now,
            )
        }),
{
}

/// Rotation by age: with an age limit and an open file, once the time of a
/// flush is past the file's creation time by more than the limit (or the
/// clock went back before it), that flush reports that the file is to be
/// rotated, also when it writes no byte.
pub proof fn lemma_rotation_by_age(core: WriterCore, now: i64, limit_millis: u64)
    requires
        core.has_file,
        core.rotate matches Some(r) && r.age_limit == Some(
            crate::rotation::LimiterAge { limit_millis },
        ),
        now < core.created || now - core.created > limit_millis,
    ensures
        flush_rotates(&core, 0, now),
{
}

} // verus!
