//! Path strings and the two operations the launcher needs on them: joining a
//! directory with a file name, and taking the directory that contains a path.
//! Paths are plain character sequences; the separator convention is `/`.

use vstd::prelude::*;
use vstd::string::*;

verus! {

/// Joining an empty directory yields the bare name, as the platform's own
/// path join does; otherwise a single separator stands between the parts.
pub open spec fn spec_join_path(dir: Seq<char>, name: Seq<char>) -> Seq<char> {
    if dir.len() == 0 {
        name
    } else {
        dir + "/"@ + name
    }
}

pub fn join_path(dir: &str, name: &str) -> (r: String)
    ensures
        r@ == spec_join_path(dir@, name@),
{
    if dir.unicode_len() == 0 {
        name.to_owned()
    } else {
        let mut s = dir.to_owned();
        s.append("/");
        s.append(name);
        s
    }
}

/// Index of the last separator in `s`, or `-1` when `s` holds none.
pub open spec fn last_slash_at(s: Seq<char>) -> int
    decreases s.len(),
{
    if s.len() == 0 {
        -1
    } else if s[s.len() - 1] == '/' {
        s.len() - 1
    } else {
        last_slash_at(s.drop_last())
    }
}

/// The directory that contains `s`: everything before the last separator,
/// empty when `s` is a bare name.
pub open spec fn spec_parent_dir(s: Seq<char>) -> Seq<char> {
    if last_slash_at(s) < 0 {
        Seq::empty()
    } else {
        s.take(last_slash_at(s))
    }
}

pub fn parent_dir(path: &str) -> (r: String)
    ensures
        r@ == spec_parent_dir(path@),
{
    let n = path.unicode_len();
    let mut i = n;
    proof {
        assert(path@.take(n as int) =~= path@);
    }
    while i > 0
        invariant
            i <= n,
            n == path@.len(),
            last_slash_at(path@) == last_slash_at(path@.take(i as int)),
        decreases i,
    {
        let c = path.get_char(i - 1);
        if c == '/' {
            proof {
                assert(path@.take(i as int).len() == i);
                assert(path@.take(i as int)[i - 1] == path@[i - 1]);
                assert(last_slash_at(path@.take(i as int)) == i - 1);
            }
            let prefix = path.substring_char(0, i - 1);
            return prefix.to_owned();
        }
        proof {
            assert(path@.take(i as int).drop_last() =~= path@.take(i - 1));
            assert(path@.take(i as int)[i - 1] == path@[i - 1]);
        }
        i = i - 1;
    }
    proof {
        assert(path@.take(0) =~= Seq::<char>::empty());
    }
    String::new()
}

} // verus!
