use vstd::prelude::*;

verus! {

/// Position of the last `/` in `s`, if any.
pub open spec fn last_slash(s: Seq<char>) -> Option<int>
    decreases s.len(),
{
    if s.len() == 0 {
        None
    } else if s.last() == '/' {
        Some(s.len() - 1)
    } else {
        last_slash(s.drop_last())
    }
}

/// The directory part of a path: what precedes the last `/` (`/` itself for
/// a file at the root), or the empty path when there is no `/`.
pub open spec fn parent_of(s: Seq<char>) -> Seq<char> {
    match last_slash(s) {
        None => Seq::empty(),
        Some(p) => if p == 0 {
            seq!['/']
        } else {
            s.take(p)
        },
    }
}

/// The file name part of a path: what follows the last `/`.
pub open spec fn file_name_of(s: Seq<char>) -> Seq<char> {
    match last_slash(s) {
        None => s,
        Some(p) => s.skip(p + 1),
    }
}

/// `dir/name`, or `name` alone when `dir` is empty.
pub open spec fn joined(dir: Seq<char>, name: Seq<char>) -> Seq<char> {
    if dir.len() == 0 {
        name
    } else if dir.last() == '/' {
        dir + name
    } else {
        dir + seq!['/'] + name
    }
}

proof fn lemma_last_slash(s: Seq<char>)
    ensures
        match last_slash(s) {
            None => forall|i: int| 0 <= i < s.len() ==> s[i] != '/',
            Some(p) => 0 <= p < s.len() && s[p] == '/' && forall|i: int|
                p < i < s.len() ==> s[i] != '/',
        },
    decreases s.len(),
{
    if s.len() > 0 && s.last() != '/' {
        lemma_last_slash(s.drop_last());
        assert forall|i: int| 0 <= i < s.len() - 1 implies s.drop_last()[i] == s[i] by {}
    }
}

pub fn find_last_slash(s: &str) -> (r: Option<usize>)
    ensures
        match r {
            None => last_slash(s@) is None,
            Some(p) => last_slash(s@) == Some(p as int),
        },
{
    let n = s.unicode_len();
    let mut i: usize = n;
    proof {
        lemma_last_slash(s@);
    }
    while i > 0
        invariant
            i <= n,
            n == s@.len(),
            forall|k: int| i <= k < n ==> s@[k] != '/',
        decreases i,
    {
        if s.get_char(i - 1) == '/' {
            proof {
                lemma_last_slash_at(s@, i - 1);
            }
            return Some(i - 1);
        }
        i -= 1;
    }
    proof {
        lemma_no_slash(s@);
    }
    None
}

proof fn lemma_last_slash_at(s: Seq<char>, p: int)
    requires
        0 <= p < s.len(),
        s[p] == '/',
        forall|k: int| p < k < s.len() ==> s[k] != '/',
    ensures
        last_slash(s) == Some(p),
    decreases s.len(),
{
    if s.last() != '/' {
        lemma_last_slash_at(s.drop_last(), p);
    }
}

proof fn lemma_no_slash(s: Seq<char>)
    requires
        forall|k: int| 0 <= k < s.len() ==> s[k] != '/',
    ensures
        last_slash(s) is None,
    decreases s.len(),
{
    if s.len() > 0 {
        lemma_no_slash(s.drop_last());
    }
}

pub fn parent_dir(path: &str) -> (r: String)
    ensures
        r@ == parent_of(path@),
{
    proof {
        lemma_last_slash(path@);
    }
    match find_last_slash(path) {
        None => String::new(),
        Some(p) => {
            if p == 0 {
                proof {
                    reveal_strlit("/");
                }
                let r = "/".to_string();
                assert(r@ =~= seq!['/']);
                r
            } else {
                path.substring_char(0, p).to_string()
            }
        },
    }
}

pub fn file_name(path: &str) -> (r: String)
    ensures
        r@ == file_name_of(path@),
{
    proof {
        lemma_last_slash(path@);
    }
    let n = path.unicode_len();
    match find_last_slash(path) {
        None => path.to_string(),
        Some(p) => path.substring_char(p + 1, n).to_string(),
    }
}

pub fn join(dir: &str, name: &str) -> (r: String)
    ensures
        r@ == joined(dir@, name@),
{
    let n = dir.unicode_len();
    if n == 0 {
        name.to_string()
    } else if dir.get_char(n - 1) == '/' {
        let mut r = dir.to_string();
        r.push_str(name);
        r
    } else {
        let mut r = dir.to_string();
        r.push('/');
        r.push_str(name);
        r
    }
}

} // verus!
