use vstd::prelude::*;

verus! {

/// Where a console sink writes.
#[derive(Clone, Copy, Debug, PartialEq, Eq, Hash, Structural)]
pub enum ConsoleTarget {
    Stdout,
    Stderr,
}

/// What `str::to_lowercase` gives for a string.
pub uninterp spec fn lower_of(s: Seq<char>) -> Seq<char>;

/// Relies on `str::to_lowercase`: the result depends on the characters alone,
/// and the empty string stays empty.
#[verifier::external_body]
fn lowercase(s: &str) -> (r: String)
    ensures
        r@ == lower_of(s@),
        s@.len() == 0 ==> r@.len() == 0,
{
    s.to_lowercase()
}

/// Character-wise equality of two strings.
pub fn str_eq(a: &str, b: &str) -> (r: bool)
    ensures
        r == (a@ == b@),
{
    let n = a.unicode_len();
    if n != b.unicode_len() {
        return false;
    }
    let mut i: usize = 0;
    while i < n
        invariant
            i <= n,
            n == a@.len(),
            n == b@.len(),
            forall|k: int| 0 <= k < i ==> a@[k] == b@[k],
        decreases n - i,
    {
        if a.get_char(i) != b.get_char(i) {
            return false;
        }
        i += 1;
    }
    assert(a@ =~= b@);
    true
}

/// The console target that an already lower-cased name stands for.
pub open spec fn console_target_of(v: Seq<char>) -> Option<ConsoleTarget> {
    if v == "stdout"@ || v == "out"@ || v == "1"@ {
        Some(ConsoleTarget::Stdout)
    } else if v == "stderr"@ || v == "err"@ || v == "2"@ {
        Some(ConsoleTarget::Stderr)
    } else {
        None
    }
}

impl ConsoleTarget {
    /// Reads an already lower-cased name: `stdout`, `out` or `1`; `stderr`,
    /// `err` or `2`.
    pub fn from_lowercase(v: &str) -> (r: Result<ConsoleTarget, ()>)
        ensures
            r == match console_target_of(v@) {
                Some(t) => Ok::<ConsoleTarget, ()>(t),
                None => Err(()),
            },
    {
        if str_eq(v, "stdout") || str_eq(v, "out") || str_eq(v, "1") {
            Ok(ConsoleTarget::Stdout)
        } else if str_eq(v, "stderr") || str_eq(v, "err") || str_eq(v, "2") {
            Ok(ConsoleTarget::Stderr)
        } else {
            Err(())
        }
    }

    /// Reads a console target name, ignoring case.
    pub fn parse(s: &str) -> (r: Result<ConsoleTarget, ()>)
        ensures
            r == match console_target_of(lower_of(s@)) {
                Some(t) => Ok::<ConsoleTarget, ()>(t),
                None => Err(()),
            },
    {
        let v = lowercase(s);
        ConsoleTarget::from_lowercase(v.as_str())
    }

    /// The file descriptor it writes to.
    pub fn fd(self) -> (r: i32)
        ensures
            r == match self {
                ConsoleTarget::Stdout => 1i32,
                ConsoleTarget::Stderr => 2i32,
            },
    {
        match self {
            ConsoleTarget::Stdout => 1,
            ConsoleTarget::Stderr => 2,
        }
    }
}

impl std::str::FromStr for ConsoleTarget {
    type Err = ();

    fn from_str(s: &str) -> Result<ConsoleTarget, ()> {
        ConsoleTarget::parse(s)
    }
}

} // verus!
