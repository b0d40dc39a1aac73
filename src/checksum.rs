//! The configuration checksum: every field of a configuration goes to the
//! hasher as one chunk of bytes, in an order and a shape that determine the
//! configuration.
use vstd::prelude::*;
use std::collections::hash_map::DefaultHasher;
use std::hash::Hasher;
use vstd::bytes::{
    lemma_auto_spec_u64_to_from_le_bytes, spec_u64_to_le_bytes, u64_to_le_bytes,
};
use vstd::std_specs::hash::DefaultHasherAdditionalSpecFns;
use vstd::utf8::{encode_utf8, encode_utf8_decode_utf8};

use crate::config::{
    Builder, BuilderView, FormatKind, FormatView, LogBufFile, LogConsole, LogFormat, LogRawFile,
    RotationView, SinkConfigTrait, SinkView,
};
use crate::console::ConsoleTarget;
use crate::level::Level;
use crate::rotation::{Age, ByAge, Rotation, Upkeep};

verus! {

pub open spec fn word(x: u64) -> Seq<u8> {
    spec_u64_to_le_bytes(x)
}

pub open spec fn text(s: Seq<char>) -> Seq<u8> {
    encode_utf8(s)
}

pub open spec fn flag(b: bool) -> u64 {
    if b {
        1
    } else {
        0
    }
}

/// A signed value moved into the unsigned range, order kept.
pub open spec fn signed(x: i64) -> u64 {
    (x + 0x8000_0000_0000_0000) as u64
}

pub open spec fn level_word(l: Level) -> u64 {
    l.rank() as u64
}

pub open spec fn kind_word(k: FormatKind) -> u64 {
    match k {
        FormatKind::Debug => 0,
        FormatKind::Prod => 1,
        FormatKind::Custom(n) => (n + 2) as u64,
    }
}

pub open spec fn target_word(t: ConsoleTarget) -> u64 {
    match t {
        ConsoleTarget::Stdout => 1,
        ConsoleTarget::Stderr => 2,
    }
}

pub open spec fn age_word(a: Age) -> u64 {
    match a {
        Age::Day => 0,
        Age::Hour => 1,
    }
}

pub open spec fn upkeep_tag(u: Upkeep) -> u64 {
    match u {
        Upkeep::Age(_) => 0,
        Upkeep::Count(_) => 1,
        Upkeep::All => 2,
    }
}

pub open spec fn upkeep_value(u: Upkeep) -> u64 {
    match u {
        Upkeep::Age(d) => signed(d),
        Upkeep::Count(n) => n as u64,
        Upkeep::All => 0,
    }
}

/// Fourteen chunks, whether a rotation is configured or not.
pub open spec fn rotation_chunks(r: Option<RotationView>) -> Seq<Seq<u8>> {
    match r {
        None => seq![
            word(0),
            word(0),
            word(0),
            word(0),
            word(0),
            word(0),
            word(0),
            text(Seq::empty()),
            word(0),
            word(0),
            word(0),
            text(Seq::empty()),
            word(0),
            word(0),
        ],
        Some(r) => seq![
            word(1),
            word(flag(r.by_age is Some)),
            word(
                match r.by_age {
                    Some(b) => age_word(b.age_type),
                    None => 0,
                },
            ),
            word(
                match r.by_age {
                    Some(b) => flag(b.use_last_time),
                    None => 0,
                },
            ),
            word(flag(r.by_size is Some)),
            word(
                match r.by_size {
                    Some(n) => n,
                    None => 0,
                },
            ),
            word(flag(r.time_fmt is Some)),
            text(
                match r.time_fmt {
                    Some(f) => f,
                    None => Seq::empty(),
                },
            ),
            word(upkeep_tag(r.upkeep)),
            word(upkeep_value(r.upkeep)),
            word(flag(r.archive_dir is Some)),
            text(
                match r.archive_dir {
                    Some(d) => d,
                    None => Seq::empty(),
                },
            ),
            word(flag(r.compress_exclude is Some)),
            word(
                match r.compress_exclude {
                    Some(n) => n as u64,
                    None => 0,
                },
            ),
        ],
    }
}

pub open spec fn format_chunks(f: FormatView) -> Seq<Seq<u8>> {
    seq![text(f.time_fmt), word(kind_word(f.kind))]
}

/// The fields of a sink before its rotation policy: kind, level, format,
/// console target, path, flush interval and flush size, each set to zero
/// where the kind of sink has no such field.
pub open spec fn sink_head(s: SinkView) -> (u64, Level, FormatView, u64, Seq<char>, u64, u64) {
    match s {
        SinkView::RawFile { level, format, path } => (0, level, format, 0, path, 0, 0),
        SinkView::BufFile { level, format, path, flush_millis, flush_size, .. } => (
            1,
            level,
            format,
            0,
            path,
            flush_millis as u64,
            flush_size as u64,
        ),
        SinkView::Console { target, level, format } => (
            2,
            level,
            format,
            target_word(target),
            Seq::empty(),
            0,
            0,
        ),
    }
}

pub open spec fn sink_rotation(s: SinkView) -> Option<RotationView> {
    match s {
        SinkView::BufFile { rotation, .. } => rotation,
        _ => None,
    }
}

pub open spec fn head_chunks(h: (u64, Level, FormatView, u64, Seq<char>, u64, u64)) -> Seq<Seq<u8>> {
    seq![
        word(h.0),
        word(level_word(h.1)),
        text(h.2.time_fmt),
        word(kind_word(h.2.kind)),
        word(h.3),
        text(h.4),
        word(h.5),
        word(h.6),
    ]
}

/// Twenty-two chunks for every kind of sink.
pub open spec fn sink_chunks(s: SinkView) -> Seq<Seq<u8>> {
    head_chunks(sink_head(s)) + rotation_chunks(sink_rotation(s))
}

pub open spec fn sinks_chunks(s: Seq<SinkView>) -> Seq<Seq<u8>>
    decreases s.len(),
{
    if s.len() == 0 {
        Seq::empty()
    } else {
        sink_chunks(s[0]) + sinks_chunks(s.drop_first())
    }
}

pub open spec fn signal_chunks(s: Seq<i32>) -> Seq<Seq<u8>> {
    s.map_values(|x: i32| word(signed(x as i64)))
}

/// Everything that a configuration feeds the hasher, in order.
pub open spec fn config_chunks(b: BuilderView) -> Seq<Seq<u8>> {
    seq![
        word(flag(b.dynamic)),
        word(flag(b.panic)),
        word(flag(b.continue_when_panic)),
        word(b.rotation_signals.len() as u64),
    ] + signal_chunks(b.rotation_signals) + seq![word(b.sinks.len() as u64)] + sinks_chunks(
        b.sinks,
    )
}

/// The configuration checksum.
pub open spec fn checksum_of(b: BuilderView) -> u64 {
    DefaultHasher::spec_finish(config_chunks(b))
}

fn put_word(h: &mut DefaultHasher, x: u64)
    ensures
        final(h)@ == old(h)@.push(word(x)),
{
    let v = u64_to_le_bytes(x);
    h.write(v.as_slice());
}

fn put_text(h: &mut DefaultHasher, s: &str)
    ensures
        final(h)@ == old(h)@.push(text(s@)),
{
    h.write(s.as_bytes());
}

fn put_empty_text(h: &mut DefaultHasher)
    ensures
        final(h)@ == old(h)@.push(text(Seq::empty())),
{
    let v: Vec<u8> = Vec::new();
    h.write(v.as_slice());
}

fn put_flag(h: &mut DefaultHasher, b: bool)
    ensures
        final(h)@ == old(h)@.push(word(flag(b))),
{
    put_word(h, if b { 1 } else { 0 });
}

fn level_code(l: Level) -> (r: u64)
    ensures
        r == level_word(l),
{
    l.as_usize() as u64
}

fn put_format(h: &mut DefaultHasher, f: &LogFormat)
    ensures
        final(h)@ == old(h)@ + format_chunks(f@),
{
    put_text(h, f.time_fmt);
    put_word(
        h,
        match f.kind {
            FormatKind::Debug => 0,
            FormatKind::Prod => 1,
            FormatKind::Custom(n) => n as u64 + 2,
        },
    );
    assert(final(h)@ =~= old(h)@ + format_chunks(f@));
}

fn put_by_age(h: &mut DefaultHasher, b: &Option<ByAge>)
    ensures
        final(h)@ == old(h)@ + seq![
            word(flag(b is Some)),
            word(
                match b {
                    Some(b) => age_word(b.age_type),
                    None => 0,
                },
            ),
            word(
                match b {
                    Some(b) => flag(b.use_last_time),
                    None => 0,
                },
            ),
        ],
{
    match b {
        Some(b) => {
            put_word(h, 1);
            put_word(
                h,
                match b.age_type {
                    Age::Day => 0,
                    Age::Hour => 1,
                },
            );
            put_flag(h, b.use_last_time);
        },
        None => {
            put_word(h, 0);
            put_word(h, 0);
            put_word(h, 0);
        },
    }
    assert(final(h)@ =~= old(h)@ + seq![
        word(flag(b is Some)),
        word(
            match b {
                Some(b) => age_word(b.age_type),
                None => 0,
            },
        ),
        word(
            match b {
                Some(b) => flag(b.use_last_time),
                None => 0,
            },
        ),
    ]);
}

fn put_opt_u64(h: &mut DefaultHasher, v: Option<u64>)
    ensures
        final(h)@ == old(h)@ + seq![
            word(flag(v is Some)),
            word(
                match v {
                    Some(n) => n,
                    None => 0,
                },
            ),
        ],
{
    match v {
        Some(n) => {
            put_word(h, 1);
            put_word(h, n);
        },
        None => {
            put_word(h, 0);
            put_word(h, 0);
        },
    }
    assert(final(h)@ =~= old(h)@ + seq![
        word(flag(v is Some)),
        word(
            match v {
                Some(n) => n,
                None => 0,
            },
        ),
    ]);
}

fn put_opt_text(h: &mut DefaultHasher, v: Option<&str>)
    ensures
        final(h)@ == old(h)@ + seq![
            word(flag(v is Some)),
            text(
                match v {
                    Some(t) => t@,
                    None => Seq::empty(),
                },
            ),
        ],
{
    match v {
        Some(t) => {
            put_word(h, 1);
            put_text(h, t);
        },
        None => {
            put_word(h, 0);
            put_empty_text(h);
        },
    }
    assert(final(h)@ =~= old(h)@ + seq![
        word(flag(v is Some)),
        text(
            match v {
                Some(t) => t@,
                None => Seq::empty(),
            },
        ),
    ]);
}

fn put_upkeep(h: &mut DefaultHasher, u: Upkeep)
    ensures
        final(h)@ == old(h)@ + seq![word(upkeep_tag(u)), word(upkeep_value(u))],
{
    match u {
        Upkeep::Age(d) => {
            put_word(h, 0);
            put_word(h, (d as i128 + 0x8000_0000_0000_0000i128) as u64);
        },
        Upkeep::Count(n) => {
            put_word(h, 1);
            put_word(h, n as u64);
        },
        Upkeep::All => {
            put_word(h, 2);
            put_word(h, 0);
        },
    }
    assert(final(h)@ =~= old(h)@ + seq![word(upkeep_tag(u)), word(upkeep_value(u))]);
}

fn put_rotation(h: &mut DefaultHasher, r: &Option<Rotation>)
    ensures
        final(h)@ == old(h)@ + rotation_chunks(
            match r {
                Some(r) => Some(r@),
                None => None,
            },
        ),
{
    match r {
        None => {
            let mut i: usize = 0;
            while i < 14
                invariant
                    i <= 14,
                    h@ =~= old(h)@ + rotation_chunks(None).take(i as int),
                decreases 14 - i,
            {
                if i == 7 || i == 11 {
                    put_empty_text(h);
                } else {
                    put_word(h, 0);
                }
                i += 1;
            }
            assert(rotation_chunks(None).take(14) =~= rotation_chunks(None));
        },
        Some(r) => {
            let ghost h0 = h@;
            put_word(h, 1);
            put_by_age(h, &r.by_age);
            put_opt_u64(h, r.by_size);
            put_opt_text(h, r.time_fmt);
            put_upkeep(h, r.upkeep);
            let dir = match &r.archive_dir {
                Some(d) => Some(d.as_str()),
                None => None,
            };
            put_opt_text(h, dir);
            let ce = match r.compress_exclude {
                Some(n) => Some(n as u64),
                None => None,
            };
            put_opt_u64(h, ce);
            assert(final(h)@ =~= h0 + rotation_chunks(Some(r@)));
        },
    }
}

/// Feeds the chunks of a raw file sink to the hasher.
pub fn write_raw_file_hash(h: &mut DefaultHasher, c: &LogRawFile)
    ensures
        final(h)@ == old(h)@ + sink_chunks(c.sink_view()),
{
    put_word(h, 0);
    put_word(h, level_code(c.level));
    put_format(h, &c.format);
    put_word(h, 0);
    put_text(h, c.file_path.as_str());
    put_word(h, 0);
    put_word(h, 0);
    put_rotation(h, &None);
    assert(final(h)@ =~= old(h)@ + sink_chunks(c.sink_view()));
}

/// Feeds the chunks of a buffered file sink to the hasher.
pub fn write_buf_file_hash(h: &mut DefaultHasher, c: &LogBufFile)
    ensures
        final(h)@ == old(h)@ + sink_chunks(c.sink_view()),
{
    put_word(h, 1);
    put_word(h, level_code(c.level));
    put_format(h, &c.format);
    put_word(h, 0);
    put_text(h, c.file_path.as_str());
    put_word(h, c.flush_millis as u64);
    put_word(h, c.flush_size as u64);
    put_rotation(h, &c.rotation);
    assert(final(h)@ =~= old(h)@ + sink_chunks(c.sink_view()));
}

/// Feeds the chunks of a console sink to the hasher.
pub fn write_console_hash(h: &mut DefaultHasher, c: &LogConsole)
    ensures
        final(h)@ == old(h)@ + sink_chunks(c.sink_view()),
{
    put_word(h, 2);
    put_word(h, level_code(c.level));
    put_format(h, &c.format);
    put_word(
        h,
        match c.target {
            ConsoleTarget::Stdout => 1,
            ConsoleTarget::Stderr => 2,
        },
    );
    put_empty_text(h);
    put_word(h, 0);
    put_word(h, 0);
    put_rotation(h, &None);
    assert(final(h)@ =~= old(h)@ + sink_chunks(c.sink_view()));
}

impl Builder {
    /// The checksum of the whole configuration, for telling a repeated setup
    /// from a changed one.
    pub fn cal_checksum(&self) -> (r: u64)
        ensures
            r == checksum_of(self@),
    {
        let mut h = DefaultHasher::new();
        put_flag(&mut h, self.dynamic);
        put_flag(&mut h, self.panic);
        put_flag(&mut h, self.continue_when_panic);
        let n = self.rotation_signals.len();
        put_word(&mut h, n as u64);
        let mut i: usize = 0;
        while i < n
            invariant
                i <= n,
                n == self@.rotation_signals.len(),
                h@ =~= seq![
                    word(flag(self.dynamic)),
                    word(flag(self.panic)),
                    word(flag(self.continue_when_panic)),
                    word(n as u64),
                ] + signal_chunks(self@.rotation_signals.take(i as int)),
            decreases n - i,
        {
            let x = self.rotation_signals[i];
            put_word(&mut h, (x as i128 + 0x8000_0000_0000_0000i128) as u64);
            proof {
                assert(signal_chunks(self@.rotation_signals.take(i + 1)) =~= signal_chunks(
                    self@.rotation_signals.take(i as int),
                ).push(word(signed(x as i64))));
            }
            i += 1;
        }
        assert(self@.rotation_signals.take(n as int) =~= self@.rotation_signals);
        let ghost head = h@;
        let m = self.sinks.len();
        put_word(&mut h, m as u64);
        let mut j: usize = 0;
        while j < m
            invariant
                j <= m,
                m == self@.sinks.len(),
                h@ =~= head + seq![word(m as u64)] + sinks_chunks(self@.sinks.take(j as int)),
            decreases m - j,
        {
            self.sinks[j].write_hash(&mut h);
            proof {
                lemma_sinks_chunks_push(self@.sinks.take(j as int), self@.sinks[j as int]);
                assert(self@.sinks.take(j + 1) =~= self@.sinks.take(j as int).push(
                    self@.sinks[j as int],
                ));
            }
            j += 1;
        }
        assert(self@.sinks.take(m as int) =~= self@.sinks);
        assert(h@ =~= config_chunks(self@));
        h.finish()
    }
}

proof fn lemma_sinks_chunks_push(s: Seq<SinkView>, x: SinkView)
    ensures
        sinks_chunks(s.push(x)) =~= sinks_chunks(s) + sink_chunks(x),
    decreases s.len(),
{
    if s.len() == 0 {
        assert(s.push(x).drop_first() =~= Seq::<SinkView>::empty());
        assert(s.push(x)[0] == x);
        assert(sinks_chunks(s.push(x).drop_first()) == Seq::<Seq<u8>>::empty());
        assert(sinks_chunks(s) == Seq::<Seq<u8>>::empty());
    } else {
        assert(s.push(x).drop_first() =~= s.drop_first().push(x));
        assert(s.push(x)[0] == s[0]);
        lemma_sinks_chunks_push(s.drop_first(), x);
        assert(sinks_chunks(s.push(x)) =~= sink_chunks(s[0]) + (sinks_chunks(s.drop_first())
            + sink_chunks(x)));
    }
}

proof fn lemma_word_injective(a: u64, b: u64)
    requires
        word(a) == word(b),
    ensures
        a == b,
{
    lemma_auto_spec_u64_to_from_le_bytes();
}

proof fn lemma_text_injective(a: Seq<char>, b: Seq<char>)
    requires
        text(a) == text(b),
    ensures
        a == b,
{
    encode_utf8_decode_utf8(a);
    encode_utf8_decode_utf8(b);
}

proof fn lemma_rotation_chunks_injective(a: Option<RotationView>, b: Option<RotationView>)
    requires
        rotation_chunks(a) == rotation_chunks(b),
    ensures
        a == b,
{
    let ca = rotation_chunks(a);
    let cb = rotation_chunks(b);
    lemma_auto_spec_u64_to_from_le_bytes();
    assert(ca[0] == cb[0]);
    assert(word(0) != word(1)) by {
        if word(0) == word(1) {
            lemma_word_injective(0, 1);
        }
    }
    if let (Some(x), Some(y)) = (a, b) {
        assert(ca[1] == cb[1] && ca[2] == cb[2] && ca[3] == cb[3]);
        lemma_word_injective(flag(x.by_age is Some), flag(y.by_age is Some));
        assert(x.by_age == y.by_age);
        assert(ca[4] == cb[4] && ca[5] == cb[5]);
        lemma_word_injective(flag(x.by_size is Some), flag(y.by_size is Some));
        assert(x.by_size == y.by_size);
        assert(ca[6] == cb[6] && ca[7] == cb[7]);
        lemma_word_injective(flag(x.time_fmt is Some), flag(y.time_fmt is Some));
        lemma_text_injective(
            match x.time_fmt {
                Some(f) => f,
                None => Seq::empty(),
            },
            match y.time_fmt {
                Some(f) => f,
                None => Seq::empty(),
            },
        );
        assert(x.time_fmt == y.time_fmt);
        assert(ca[8] == cb[8] && ca[9] == cb[9]);
        lemma_word_injective(upkeep_tag(x.upkeep), upkeep_tag(y.upkeep));
        lemma_word_injective(upkeep_value(x.upkeep), upkeep_value(y.upkeep));
        assert(x.upkeep == y.upkeep);
        assert(ca[10] == cb[10] && ca[11] == cb[11]);
        lemma_word_injective(flag(x.archive_dir is Some), flag(y.archive_dir is Some));
        lemma_text_injective(
            match x.archive_dir {
                Some(d) => d,
                None => Seq::empty(),
            },
            match y.archive_dir {
                Some(d) => d,
                None => Seq::empty(),
            },
        );
        assert(x.archive_dir == y.archive_dir);
        assert(ca[12] == cb[12] && ca[13] == cb[13]);
        lemma_word_injective(flag(x.compress_exclude is Some), flag(y.compress_exclude is Some));
        assert(x.compress_exclude == y.compress_exclude);
    }
}

proof fn lemma_head_chunks_injective(
    a: (u64, Level, FormatView, u64, Seq<char>, u64, u64),
    b: (u64, Level, FormatView, u64, Seq<char>, u64, u64),
)
    requires
        head_chunks(a) == head_chunks(b),
    ensures
        a == b,
{
    let ca = head_chunks(a);
    let cb = head_chunks(b);
    assert(ca[0] == cb[0] && ca[1] == cb[1] && ca[2] == cb[2] && ca[3] == cb[3]);
    assert(ca[4] == cb[4] && ca[5] == cb[5] && ca[6] == cb[6] && ca[7] == cb[7]);
    lemma_word_injective(a.0, b.0);
    lemma_word_injective(level_word(a.1), level_word(b.1));
    lemma_text_injective(a.2.time_fmt, b.2.time_fmt);
    lemma_word_injective(kind_word(a.2.kind), kind_word(b.2.kind));
    lemma_word_injective(a.3, b.3);
    lemma_text_injective(a.4, b.4);
    lemma_word_injective(a.5, b.5);
    lemma_word_injective(a.6, b.6);
    assert(a.2 == b.2);
}

proof fn lemma_sink_determined(a: SinkView, b: SinkView)
    requires
        sink_head(a) == sink_head(b),
        sink_rotation(a) == sink_rotation(b),
    ensures
        a == b,
{
}

proof fn lemma_sink_chunks_injective(a: SinkView, b: SinkView)
    requires
        sink_chunks(a) == sink_chunks(b),
    ensures
        a == b,
{
    let ca = sink_chunks(a);
    let cb = sink_chunks(b);
    assert(ca.take(8) =~= head_chunks(sink_head(a)));
    assert(cb.take(8) =~= head_chunks(sink_head(b)));
    lemma_head_chunks_injective(sink_head(a), sink_head(b));
    assert(ca.skip(8) =~= rotation_chunks(sink_rotation(a)));
    assert(cb.skip(8) =~= rotation_chunks(sink_rotation(b)));
    lemma_rotation_chunks_injective(sink_rotation(a), sink_rotation(b));
    lemma_sink_determined(a, b);
}

proof fn lemma_sinks_chunks_injective(a: Seq<SinkView>, b: Seq<SinkView>)
    requires
        a.len() == b.len(),
        sinks_chunks(a) == sinks_chunks(b),
    ensures
        a == b,
    decreases a.len(),
{
    if a.len() == 0 {
        assert(a =~= b);
    } else {
        let x = sinks_chunks(a);
        assert(x.take(22) =~= sink_chunks(a[0]));
        assert(sinks_chunks(b).take(22) =~= sink_chunks(b[0]));
        lemma_sink_chunks_injective(a[0], b[0]);
        assert(x.skip(22) =~= sinks_chunks(a.drop_first()));
        assert(sinks_chunks(b).skip(22) =~= sinks_chunks(b.drop_first()));
        lemma_sinks_chunks_injective(a.drop_first(), b.drop_first());
        assert forall|i: int| 0 <= i < a.len() implies a[i] == b[i] by {
            if i > 0 {
                assert(a.drop_first()[i - 1] == b.drop_first()[i - 1]);
            }
        }
        assert(a =~= b);
    }
}

/// Checksum sensitivity: two configurations feed the hasher the same input
/// exactly when they are equal in every field, the order of their sinks
/// included. So identical configurations get identical checksums, and two
/// that differ anywhere (a path, a level, a flush interval, a rotation
/// policy) are hashed from different input.
pub proof fn lemma_checksum_input_exact(a: BuilderView, b: BuilderView)
    requires
        a.rotation_signals.len() < u64::MAX,
        b.rotation_signals.len() < u64::MAX,
        a.sinks.len() < u64::MAX,
        b.sinks.len() < u64::MAX,
    ensures
        (config_chunks(a) == config_chunks(b)) <==> (a == b),
        a == b ==> checksum_of(a) == checksum_of(b),
{
    if config_chunks(a) == config_chunks(b) {
        let ca = config_chunks(a);
        let cb = config_chunks(b);
        lemma_auto_spec_u64_to_from_le_bytes();
        assert(ca[0] == cb[0] && ca[1] == cb[1] && ca[2] == cb[2] && ca[3] == cb[3]);
        lemma_word_injective(flag(a.dynamic), flag(b.dynamic));
        lemma_word_injective(flag(a.panic), flag(b.panic));
        lemma_word_injective(flag(a.continue_when_panic), flag(b.continue_when_panic));
        lemma_word_injective(a.rotation_signals.len() as u64, b.rotation_signals.len() as u64);
        let n = a.rotation_signals.len() as int;
        assert forall|i: int| 0 <= i < n implies a.rotation_signals[i] == b.rotation_signals[i] by {
            assert(ca[4 + i] == cb[4 + i]);
            assert(ca[4 + i] == word(signed(a.rotation_signals[i] as i64)));
            assert(cb[4 + i] == word(signed(b.rotation_signals[i] as i64)));
            lemma_word_injective(
                signed(a.rotation_signals[i] as i64),
                signed(b.rotation_signals[i] as i64),
            );
        }
        assert(a.rotation_signals =~= b.rotation_signals);
        assert(ca[4 + n] == cb[4 + n]);
        assert(ca[4 + n] == word(a.sinks.len() as u64));
        assert(cb[4 + n] == word(b.sinks.len() as u64));
        lemma_word_injective(a.sinks.len() as u64, b.sinks.len() as u64);
        assert(ca.skip(5 + n) =~= sinks_chunks(a.sinks));
        assert(cb.skip(5 + n) =~= sinks_chunks(b.sinks));
        lemma_sinks_chunks_injective(a.sinks, b.sinks);
    }
}

} // verus!
