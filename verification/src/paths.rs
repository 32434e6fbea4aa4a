//! Path text: `~` expansion, joining and trailing slashes.  The home and
//! current directories are read by the program and handed in.
use crate::text::{chars_to_string, concat2, str_chars, with_lit};
use vstd::prelude::*;

verus! {

/// `rel` joined onto `base` (as `Path::join` does): an absolute `rel`
/// replaces `base`, otherwise one `/` separates them.
pub open spec fn join_path(base: Seq<char>, rel: Seq<char>) -> Seq<char> {
    if (rel.len() > 0 && rel[0] == '/') || base.len() == 0 {
        rel
    } else if base.last() == '/' {
        base + rel
    } else {
        base + seq!['/'] + rel
    }
}

/// `~` and a leading `~/` stand for the home directory, when it is known.
pub open spec fn expand_tilde(path: Seq<char>, home: Option<Seq<char>>) -> Seq<char> {
    match home {
        None => path,
        Some(h) => if path == seq!['~'] {
            h
        } else if path.len() >= 2 && path[0] == '~' && path[1] == '/' {
            join_path(h, path.skip(2))
        } else {
            path
        },
    }
}

/// `s` without its trailing slashes.
pub open spec fn trim_trailing_slashes(s: Seq<char>) -> Seq<char>
    decreases s.len(),
{
    if s.len() > 0 && s.last() == '/' {
        trim_trailing_slashes(s.drop_last())
    } else {
        s
    }
}

pub fn join_path_chars(base: &[char], rel: &[char]) -> (r: Vec<char>)
    ensures
        r@ == join_path(base@, rel@),
{
    if (rel.len() > 0 && rel[0] == '/') || base.len() == 0 {
        concat2(rel, &[])
    } else if base[base.len() - 1] == '/' {
        concat2(base, rel)
    } else {
        let b = with_lit(base, "/");
        proof {
            reveal_strlit("/");
            assert(b@ =~= base@ + seq!['/']);
        }
        concat2(b.as_slice(), rel)
    }
}

pub fn expand_tilde_chars(path: &[char], home: Option<&str>) -> (r: Vec<char>)
    ensures
        r@ == expand_tilde(path@, match home {
            Some(h) => Some(h@),
            None => None,
        }),
{
    match home {
        None => concat2(path, &[]),
        Some(h) => {
            let hc = str_chars(h);
            if path.len() == 1 && path[0] == '~' {
                assert(path@ =~= seq!['~']);
                hc
            } else if path.len() >= 2 && path[0] == '~' && path[1] == '/' {
                let mut rest: Vec<char> = Vec::new();
                let mut i: usize = 2;
                while i < path.len()
                    invariant
                        2 <= i <= path.len(),
                        rest@ == path@.subrange(2, i as int),
                    decreases path.len() - i,
                {
                    rest.push(path[i]);
                    assert(rest@ =~= path@.subrange(2, i + 1));
                    i += 1;
                }
                assert(rest@ =~= path@.skip(2));
                join_path_chars(hc.as_slice(), rest.as_slice())
            } else {
                proof {
                    if path@ == seq!['~'] {
                        assert(path@.len() == 1);
                    }
                }
                concat2(path, &[])
            }
        },
    }
}

/// `~` expansion of a path, given the home directory when it is known.
pub fn expand_tilde_str(path: &str, home: Option<&str>) -> (r: String)
    ensures
        r@ == expand_tilde(path@, match home {
            Some(h) => Some(h@),
            None => None,
        }),
{
    let p = str_chars(path);
    chars_to_string(expand_tilde_chars(p.as_slice(), home).as_slice())
}

pub fn trim_trailing_slashes_chars(s: &[char]) -> (r: &[char])
    ensures
        r@ == trim_trailing_slashes(s@),
{
    let mut n: usize = s.len();
    assert(s@.take(n as int) =~= s@);
    while n > 0 && s[n - 1] == '/'
        invariant
            n <= s.len(),
            trim_trailing_slashes(s@) == trim_trailing_slashes(s@.take(n as int)),
        decreases n,
    {
        assert(s@.take(n as int).drop_last() =~= s@.take(n - 1));
        n -= 1;
    }
    let r = &s[0..n];
    assert(r@ =~= s@.take(n as int));
    r
}

} // verus!
