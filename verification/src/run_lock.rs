//! The lock that keeps two Codex runs of one session or project apart: its
//! file name, its content, and reading the owner's pid back.
use crate::config::WecodeConfig;
use crate::diagnostics::{decimal_digits, decimal_string, decimal_value, all_digits, digit_value};
use crate::paths::{expand_tilde, expand_tilde_chars, join_path, join_path_chars};
use crate::text::{
    char_is_ascii_digit, chars_to_string, concat2, is_ascii_digit, lit_then, starts_with,
    str_chars, strip_prefix_slice, trim, trim_slice, with_lit,
};
use vstd::prelude::*;
use vstd::string::StringSliceAdditionalSpecFns;

verus! {

/// A held run lock: the lock file, when one could be created.  The program
/// removes the file when it lets the lock go.
#[derive(Debug, Clone, PartialEq, Eq)]
pub struct CodexRunLock {
    pub path: Option<String>,
}

// ---------------------------------------------------------------------------
// A stable name for a key
// ---------------------------------------------------------------------------

pub open spec fn fnv_step(h: u64, b: u8) -> u64 {
    (h ^ (b as u64)).wrapping_mul(0x100000001b3u64)
}

/// 64-bit FNV-1a of `bytes`.
pub open spec fn fnv1a(bytes: Seq<u8>) -> u64
    decreases bytes.len(),
{
    if bytes.len() == 0 {
        0xcbf29ce484222325u64
    } else {
        fnv_step(fnv1a(bytes.drop_last()), bytes.last())
    }
}

pub open spec fn hex_char(d: nat) -> char {
    if d < 10 {
        (d + 48) as char
    } else {
        (d - 10 + 97) as char
    }
}

/// The last `width` lowercase hexadecimal digits of `n`, zero-padded.
pub open spec fn hex_fixed(n: nat, width: nat) -> Seq<char>
    decreases width,
{
    if width == 0 {
        Seq::empty()
    } else {
        hex_fixed(n / 16, (width - 1) as nat).push(hex_char(n % 16))
    }
}

fn hex_digit(d: u64) -> (c: char)
    requires
        d < 16,
    ensures
        c == hex_char(d as nat),
{
    if d < 10 {
        ((d as u8) + 48) as char
    } else {
        ((d as u8) - 10 + 97) as char
    }
}

fn hex_fixed_exec(n: u64, width: u64) -> (v: Vec<char>)
    ensures
        v@ == hex_fixed(n as nat, width as nat),
    decreases width,
{
    if width == 0 {
        Vec::new()
    } else {
        let mut v = hex_fixed_exec(n / 16, width - 1);
        v.push(hex_digit(n % 16));
        v
    }
}

/// The FNV-1a hash of the key's UTF-8 bytes as 16 hexadecimal digits.
pub fn stable_key_hash(value: &str) -> (r: String)
    ensures
        r@ == hex_fixed(fnv1a(value.spec_bytes()) as nat, 16),
{
    let bytes = value.as_bytes();
    let mut hash: u64 = 0xcbf29ce484222325u64;
    let mut i: usize = 0;
    assert(bytes@.take(0) =~= Seq::<u8>::empty());
    while i < bytes.len()
        invariant
            i <= bytes.len(),
            bytes@ == value.spec_bytes(),
            hash == fnv1a(bytes@.take(i as int)),
        decreases bytes.len() - i,
    {
        assert(bytes@.take(i + 1).drop_last() =~= bytes@.take(i as int));
        assert(bytes@.take(i + 1).last() == bytes@[i as int]);
        hash = (hash ^ (bytes[i] as u64)).wrapping_mul(0x100000001b3u64);
        i += 1;
    }
    assert(bytes@.take(bytes.len() as int) =~= bytes@);
    chars_to_string(hex_fixed_exec(hash, 16).as_slice())
}

// ---------------------------------------------------------------------------
// The lock file
// ---------------------------------------------------------------------------

pub open spec fn lock_path(c: WecodeConfig, home: Option<Seq<char>>, key: &str) -> Seq<char> {
    join_path(
        join_path(expand_tilde(c.openclaw.state_dir@, home), "locks"@),
        "codex-run-"@ + hex_fixed(fnv1a(key.spec_bytes()) as nat, 16) + ".lock"@,
    )
}

/// `<state dir>/locks/codex-run-<hash of key>.lock`.
pub fn run_lock_path(config: &WecodeConfig, home: Option<&str>, key: &str) -> (r: String)
    ensures
        r@ == lock_path(*config, crate::backend::opt_str(home), key),
{
    let state = str_chars(config.openclaw.state_dir.as_str());
    let base = expand_tilde_chars(state.as_slice(), home);
    let locks = str_chars("locks");
    let dir = join_path_chars(base.as_slice(), locks.as_slice());
    let hash = stable_key_hash(key);
    let h = str_chars(hash.as_str());
    let name = with_lit(lit_then("codex-run-", h.as_slice()).as_slice(), ".lock");
    chars_to_string(join_path_chars(dir.as_slice(), name.as_slice()).as_slice())
}

/// What the lock file says: `pid=<pid>` and `key=<key>` lines.
pub fn lock_content(pid: u32, key: &str) -> (r: String)
    ensures
        r@ == "pid="@ + decimal_digits(pid as nat) + "\nkey="@ + key@ + "\n"@,
{
    let p = decimal_string(pid as u64);
    let k = str_chars(key);
    let a = with_lit(lit_then("pid=", p.as_slice()).as_slice(), "\nkey=");
    chars_to_string(with_lit(concat2(a.as_slice(), k.as_slice()).as_slice(), "\n").as_slice())
}

/// The refusal when another run holds the lock.
pub fn lock_busy_message(path: &str, cause: &str) -> (r: String)
    ensures
        r@ == "Codex is already running for this session or project. Try again after the current turn finishes, or approve/deny any pending Codex approval. Lock: "@
            + path@ + ". Cause: "@ + cause@,
{
    let p = str_chars(path);
    let c = str_chars(cause);
    let a = with_lit(
        lit_then(
            "Codex is already running for this session or project. Try again after the current turn finishes, or approve/deny any pending Codex approval. Lock: ",
            p.as_slice(),
        ).as_slice(),
        ". Cause: ",
    );
    chars_to_string(concat2(a.as_slice(), c.as_slice()).as_slice())
}

// ---------------------------------------------------------------------------
// Reading the owner back
// ---------------------------------------------------------------------------

/// `str::parse::<u32>`: an optional `+`, then at least one decimal digit,
/// with a value that fits.
pub open spec fn parse_u32(s: Seq<char>) -> Option<u32> {
    let ds = if s.len() > 0 && s[0] == '+' {
        s.drop_first()
    } else {
        s
    };
    if ds.len() > 0 && all_digits(ds) && decimal_value(ds) <= u32::MAX {
        Some(decimal_value(ds) as u32)
    } else {
        None
    }
}

/// The text after `pid=` on the first line that starts with it, scanning
/// the lines of `s[i..]`.
pub open spec fn pid_line(s: Seq<char>, i: int) -> Option<Seq<char>>
    decreases s.len() - i,
{
    if i < 0 || i >= s.len() {
        None
    } else {
        let e = crate::text::line_end(s, i);
        let line = s.subrange(i, e);
        if starts_with(line, "pid="@) {
            Some(line.skip(4))
        } else if e < s.len() {
            proof {
                crate::text::lemma_line_end(s, i);
            }
            pid_line(s, e + 1)
        } else {
            None
        }
    }
}

/// The positive pid that the lock file names.
pub open spec fn lock_owner(content: Seq<char>) -> Option<u32> {
    match pid_line(content, 0) {
        Some(rest) => match parse_u32(trim(rest)) {
            Some(p) => if p > 0 {
                Some(p)
            } else {
                None
            },
            None => None,
        },
        None => None,
    }
}

pub(crate) fn parse_u32_chars(s: &[char]) -> (r: Option<u32>)
    ensures
        r == parse_u32(s@),
{
    let ds: &[char] = if s.len() > 0 && s[0] == '+' {
        let d = &s[1..s.len()];
        assert(d@ =~= s@.drop_first());
        d
    } else {
        s
    };
    if ds.len() == 0 {
        return None;
    }
    let mut i: usize = 0;
    let mut v: u64 = 0;
    while i < ds.len()
        invariant
            i <= ds.len(),
            ds.len() > 0,
            ds@ == (if s@.len() > 0 && s@[0] == '+' {
                s@.drop_first()
            } else {
                s@
            }),
            all_digits(ds@.take(i as int)),
            v == decimal_value(ds@.take(i as int)),
            v <= u32::MAX,
        decreases ds.len() - i,
    {
        assert(ds@.take(i + 1).drop_last() =~= ds@.take(i as int));
        if !char_is_ascii_digit(ds[i]) {
            assert(!all_digits(ds@));
            return None;
        }
        let d = (ds[i] as u32 - 0x30) as u64;
        assert(d == digit_value(ds@[i as int]));
        let nv = v * 10 + d;
        assert(decimal_value(ds@.take(i + 1)) == nv);
        assert(all_digits(ds@.take(i + 1))) by {
            assert forall|k: int| 0 <= k < i + 1 implies is_ascii_digit(#[trigger] ds@.take(i + 1)[k]) by {
                if k < i {
                    assert(ds@.take(i + 1)[k] == ds@.take(i as int)[k]);
                }
            }
        }
        if nv > 0xffff_ffff {
            proof {
                lemma_digits_grow(ds@, i + 1);
            }
            return None;
        }
        v = nv;
        i += 1;
    }
    assert(ds@.take(ds.len() as int) =~= ds@);
    Some(v as u32)
}

proof fn lemma_digits_grow(ds: Seq<char>, k: int)
    requires
        0 <= k <= ds.len(),
        all_digits(ds.take(k)),
    ensures
        all_digits(ds) ==> decimal_value(ds.take(k)) <= decimal_value(ds),
    decreases ds.len() - k,
{
    if k < ds.len() {
        if all_digits(ds) {
            assert(all_digits(ds.take(k + 1))) by {
                assert forall|j: int| 0 <= j < k + 1 implies is_ascii_digit(#[trigger] ds.take(k + 1)[j]) by {
                    assert(ds.take(k + 1)[j] == ds[j]);
                }
            }
            lemma_digits_grow(ds, k + 1);
            assert(ds.take(k + 1).drop_last() =~= ds.take(k));
        }
    } else {
        assert(ds.take(k) =~= ds);
    }
}

/// The pid of the process that holds a lock, read from the lock file.
pub fn lock_pid(content: &str) -> (r: Option<u32>)
    ensures
        r == lock_owner(content@),
{
    let s = str_chars(content);
    let n = s.len();
    let mut i: usize = 0;
    while i < n
        invariant
            i <= n,
            n == s@.len(),
            s@ == content@,
            pid_line(s@, 0) == pid_line(s@, i as int),
        decreases n - i,
    {
        let e = crate::text::line_end_exec(s.as_slice(), i);
        let line = &s.as_slice()[i..e];
        assert(line@ =~= s@.subrange(i as int, e as int));
        match crate::text::lit_strip(line, "pid=") {
            Some(rest) => {
                proof {
                    reveal_strlit("pid=");
                }
                let t = trim_slice(rest);
                return match parse_u32_chars(t) {
                    Some(p) => if p > 0 {
                        Some(p)
                    } else {
                        None
                    },
                    None => None,
                };
            },
            None => {},
        }
        if e < n {
            i = e + 1;
        } else {
            i = n;
        }
    }
    None
}

/// What the lock file says is read back: the pid that wrote it (for any
/// positive pid and any key).
pub proof fn law_lock_content_names_its_owner(pid: u32, key: Seq<char>)
    requires
        pid > 0,
    ensures
        lock_owner("pid="@ + decimal_digits(pid as nat) + "\nkey="@ + key + "\n"@) == Some(pid),
{
    reveal_strlit("pid=");
    reveal_strlit("\nkey=");
    reveal_strlit("\n");
    let d = decimal_digits(pid as nat);
    crate::diagnostics::lemma_decimal_digits(pid as nat);
    let s = "pid="@ + d + "\nkey="@ + key + "\n"@;
    let q: int = 4 + d.len() as int;
    assert(s.subrange(0, q) =~= "pid="@ + d);
    assert(s[q] == '\n');
    assert forall|k: int| 0 <= k < q implies s[k] != '\n' by {
        if k >= 4 {
            assert(s[k] == d[k - 4]);
            assert(is_ascii_digit(d[k - 4]));
        }
    }
    crate::text::lemma_line_end(s, 0);
    let e = crate::text::line_end(s, 0);
    if e < q {
        assert(s[e] == '\n');
    }
    if e > q {
        assert(s[q] != '\n');
    }
    assert(e == q);
    let line = s.subrange(0, e);
    assert(starts_with(line, "pid="@)) by {
        assert(line.take(4) =~= "pid="@);
    }
    assert(line.skip(4) =~= d);
    assert(pid_line(s, 0) == Some(d));
    assert(!crate::text::is_ws(d[0]));
    assert(!crate::text::is_ws(d.last()));
    crate::text::lemma_trim_start_fixed(d);
    assert(trim(d) == d);
    assert(d[0] != '+');
    assert(parse_u32(d) == Some(pid));
}

/// Whether a lock file that already exists is taken over: only when it
/// could be read, names its owner, and that owner is no longer running.
/// (`owner_alive` is whether the process that the file names runs.)
pub open spec fn lock_reclaimed(content: Option<Seq<char>>, owner_alive: bool) -> bool {
    match content {
        Some(c) => lock_owner(c) is Some && !owner_alive,
        None => false,
    }
}

pub fn reclaims_lock(content: Option<&str>, owner_alive: bool) -> (r: bool)
    ensures
        r == lock_reclaimed(crate::backend::opt_str(content), owner_alive),
{
    match content {
        Some(c) => lock_pid(c).is_some() && !owner_alive,
        None => false,
    }
}

/// A running owner keeps its lock; a lock that wecode wrote for an owner
/// that is gone is taken over.
pub proof fn law_live_owner_blocks_dead_owner_reclaimed(pid: u32, key: Seq<char>, content: Option<Seq<char>>)
    requires
        pid > 0,
    ensures
        !lock_reclaimed(content, true),
        lock_reclaimed(Some("pid="@ + decimal_digits(pid as nat) + "\nkey="@ + key + "\n"@), false),
{
    law_lock_content_names_its_owner(pid, key);
}

} // verus!
