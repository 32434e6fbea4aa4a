//! `wecode doctor`: reading tool versions and judging whether the machine can
//! run the bridge.
use crate::text::{char_is_ascii_digit, chars_to_string, concat2, is_ascii_digit, lit_then, str_chars, with_lit};
use vstd::prelude::*;

verus! {

/// What was found on the machine (probed by the program, outside this crate).
#[derive(Debug, Clone, PartialEq, Eq)]
pub struct ToolSnapshot {
    pub node_version: Option<String>,
    pub npm_found: bool,
    pub npx_found: bool,
    pub openclaw_version: Option<String>,
    pub codex_version: Option<String>,
}

#[derive(Debug, Clone, PartialEq, Eq)]
pub struct ToolReport {
    pub ok: bool,
    pub items: Vec<ToolCheck>,
}

#[derive(Debug, Clone, PartialEq, Eq)]
pub struct ToolCheck {
    pub name: String,
    pub ok: bool,
    pub message: String,
}

// ---------------------------------------------------------------------------
// Decimal numbers
// ---------------------------------------------------------------------------

pub open spec fn digit_value(c: char) -> nat {
    ((c as u32) - 0x30) as nat
}

/// The number written by the decimal digits `ds`.
pub open spec fn decimal_value(ds: Seq<char>) -> nat
    decreases ds.len(),
{
    if ds.len() == 0 {
        0
    } else {
        decimal_value(ds.drop_last()) * 10 + digit_value(ds.last())
    }
}

pub open spec fn digit_char(d: nat) -> char {
    (d + '0' as int) as char
}

/// The decimal digits of `n`, without leading zeros.
pub open spec fn decimal_digits(n: nat) -> Seq<char>
    decreases n,
{
    if n < 10 {
        seq![digit_char(n)]
    } else {
        decimal_digits(n / 10).push(digit_char(n % 10))
    }
}

pub open spec fn all_digits(s: Seq<char>) -> bool {
    forall|k: int| 0 <= k < s.len() ==> is_ascii_digit(#[trigger] s[k])
}

proof fn lemma_decimal_value_grows(ds: Seq<char>, k: int)
    requires
        0 <= k <= ds.len(),
        all_digits(ds),
    ensures
        decimal_value(ds.take(k)) <= decimal_value(ds),
    decreases ds.len() - k,
{
    if k < ds.len() {
        lemma_decimal_value_grows(ds, k + 1);
        assert(ds.take(k + 1).drop_last() =~= ds.take(k));
    } else {
        assert(ds.take(k) =~= ds);
    }
}

/// The value of a run of decimal digits, or `None` where it does not fit in
/// a `u64` (`str::parse::<u64>` on such a run).
fn parse_digits(ds: &[char]) -> (r: Option<u64>)
    requires
        all_digits(ds@),
    ensures
        r == (if decimal_value(ds@) <= u64::MAX {
            Some(decimal_value(ds@) as u64)
        } else {
            None
        }),
{
    let mut v: u64 = 0;
    let mut i: usize = 0;
    while i < ds.len()
        invariant
            i <= ds.len(),
            all_digits(ds@),
            v == decimal_value(ds@.take(i as int)),
        decreases ds.len() - i,
    {
        assert(ds@.take(i + 1).drop_last() =~= ds@.take(i as int));
        assert(is_ascii_digit(ds@[i as int]));
        let d = (ds[i] as u32 - 0x30) as u64;
        assert(d == digit_value(ds@[i as int]));
        assert(decimal_value(ds@.take(i + 1)) == decimal_value(ds@.take(i as int)) * 10 + d);
        match v.checked_mul(10) {
            None => {
                proof {
                    lemma_decimal_value_grows(ds@, i + 1);
                }
                return None;
            },
            Some(t) => match t.checked_add(d) {
                None => {
                    proof {
                        lemma_decimal_value_grows(ds@, i + 1);
                    }
                    return None;
                },
                Some(n) => {
                    v = n;
                },
            },
        }
        i += 1;
    }
    assert(ds@.take(ds.len() as int) =~= ds@);
    Some(v)
}

fn digit_to_char(d: u64) -> (c: char)
    requires
        d < 10,
    ensures
        c == digit_char(d as nat),
{
    let b: u8 = 0x30u8 + d as u8;
    b as char
}

/// The decimal digits of `n` (`u64`'s `Display`).
pub fn decimal_string(n: u64) -> (v: Vec<char>)
    ensures
        v@ == decimal_digits(n as nat),
    decreases n,
{
    if n < 10 {
        let mut v: Vec<char> = Vec::new();
        v.push(digit_to_char(n));
        assert(v@ =~= seq![digit_char(n as nat)]);
        v
    } else {
        let mut v = decimal_string(n / 10);
        v.push(digit_to_char(n % 10));
        v
    }
}

// ---------------------------------------------------------------------------
// Node versions
// ---------------------------------------------------------------------------

pub open spec fn number_of(cur: Seq<char>) -> Option<u64> {
    if decimal_value(cur) <= u64::MAX {
        Some(decimal_value(cur) as u64)
    } else {
        None
    }
}

/// The numbers read when the text ends (or a number has just ended): the
/// pending digits count only while fewer than three numbers were read.
pub open spec fn version_finish(nums: Seq<u64>, cur: Seq<char>) -> Option<Seq<u64>> {
    if cur.len() > 0 && nums.len() < 3 {
        match number_of(cur) {
            Some(n) => Some(nums.push(n)),
            None => None,
        }
    } else {
        Some(nums)
    }
}

/// Reads dot-separated numbers from `s[i..]`: runs of digits are numbers, a
/// dot ends one (a dot with no digits before it, or a number that does not
/// fit in a `u64`, gives `None`), the first other character after a number
/// ends the scan, and other characters before any digit are skipped.
pub open spec fn version_scan(s: Seq<char>, i: int, nums: Seq<u64>, cur: Seq<char>) -> Option<
    Seq<u64>,
>
    decreases s.len() - i,
{
    if i < 0 || i >= s.len() {
        version_finish(nums, cur)
    } else if is_ascii_digit(s[i]) {
        version_scan(s, i + 1, nums, cur.push(s[i]))
    } else if s[i] == '.' {
        if cur.len() == 0 {
            None
        } else {
            match number_of(cur) {
                Some(n) => version_scan(s, i + 1, nums.push(n), Seq::empty()),
                None => None,
            }
        }
    } else if cur.len() > 0 {
        match number_of(cur) {
            Some(n) => version_finish(nums.push(n), cur),
            None => None,
        }
    } else {
        version_scan(s, i + 1, nums, cur)
    }
}

/// The first three numbers of a version output such as `node v22.19.1`.
pub open spec fn node_version(s: Seq<char>) -> Option<(u64, u64, u64)> {
    match version_scan(s, 0, Seq::empty(), Seq::empty()) {
        Some(n) => if n.len() >= 3 {
            Some((n[0], n[1], n[2]))
        } else {
            None
        },
        None => None,
    }
}

fn push_number(nums: &mut Vec<u64>, cur: &[char]) -> (ok: bool)
    requires
        all_digits(cur@),
    ensures
        ok == number_of(cur@) is Some,
        ok ==> final(nums)@ == old(nums)@.push(number_of(cur@)->0),
{
    match parse_digits(cur) {
        Some(n) => {
            nums.push(n);
            true
        },
        None => false,
    }
}

/// Reads a version such as `v24.1.0` or `node v22.19.1` out of a tool's
/// output.
pub fn parse_node_version(output: &str) -> (r: Option<(u64, u64, u64)>)
    ensures
        r == node_version(output@),
{
    let s = str_chars(output);
    let ghost sv = s@;
    let mut numbers: Vec<u64> = Vec::new();
    let mut current: Vec<char> = Vec::new();
    let mut i: usize = 0;
    let mut ended = false;
    while i < s.len()
        invariant
            i <= s.len(),
            sv == s@,
            sv == output@,
            all_digits(current@),
            !ended ==> version_scan(sv, 0, Seq::empty(), Seq::empty()) == version_scan(
                sv,
                i as int,
                numbers@,
                current@,
            ),
            ended ==> i == s.len() && version_scan(sv, 0, Seq::empty(), Seq::empty())
                == version_finish(numbers@, current@),
        decreases s.len() - i,
    {
        let ch = s[i];
        if char_is_ascii_digit(ch) {
            current.push(ch);
            i += 1;
        } else if ch == '.' {
            if current.len() == 0 {
                return None;
            }
            if !push_number(&mut numbers, current.as_slice()) {
                return None;
            }
            current = Vec::new();
            i += 1;
        } else if current.len() > 0 {
            if !push_number(&mut numbers, current.as_slice()) {
                return None;
            }
            ended = true;
            i = s.len();
        } else {
            i += 1;
        }
    }
    if current.len() > 0 && numbers.len() < 3 {
        if !push_number(&mut numbers, current.as_slice()) {
            return None;
        }
    }
    if numbers.len() >= 3 {
        Some((numbers[0], numbers[1], numbers[2]))
    } else {
        None
    }
}

// ---------------------------------------------------------------------------
// Diagnosis
// ---------------------------------------------------------------------------

/// The oldest Node release that OpenClaw's latest version supports.
pub open spec fn node_supported(v: (u64, u64, u64)) -> bool {
    v.0 > 22 || (v.0 == 22 && (v.1 > 19 || (v.1 == 19 && v.2 >= 0)))
}

pub open spec fn version_text(v: (u64, u64, u64)) -> Seq<char> {
    "v"@ + decimal_digits(v.0 as nat) + "."@ + decimal_digits(v.1 as nat) + "."@ + decimal_digits(
        v.2 as nat,
    )
}

/// A check as (tool name, passed, message).
pub open spec fn check_view(c: ToolCheck) -> (Seq<char>, bool, Seq<char>) {
    (c.name@, c.ok, c.message@)
}

pub open spec fn node_check(node: Option<String>) -> (Seq<char>, bool, Seq<char>) {
    match node {
        Some(text) => match node_version(text@) {
            Some(v) => if node_supported(v) {
                ("node"@, true, "found "@ + text@)
            } else {
                (
                    "node"@,
                    false,
                    "found "@ + version_text(v)
                        + ". wecode requires Node >=22.19.0 for OpenClaw/latest"@,
                )
            },
            None => ("node"@, false, "not found. Install Node 24 or Node >=22.19.0"@),
        },
        None => ("node"@, false, "not found. Install Node 24 or Node >=22.19.0"@),
    }
}

pub open spec fn npm_check(found: bool) -> (Seq<char>, bool, Seq<char>) {
    if found {
        ("npm"@, true, "found npm"@)
    } else {
        ("npm"@, false, "not found. Install Node with npm"@)
    }
}

pub open spec fn openclaw_check(version: Option<String>) -> (Seq<char>, bool, Seq<char>) {
    match version {
        Some(v) => ("openclaw"@, true, "found "@ + v@),
        None => (
            "openclaw"@,
            false,
            "not found in wecode private runtime. Run `wecode bootstrap`"@,
        ),
    }
}

pub open spec fn codex_check(version: Option<String>) -> (Seq<char>, bool, Seq<char>) {
    match version {
        Some(v) => ("codex"@, true, "found "@ + v@),
        None => (
            "codex"@,
            false,
            "not found. Install and log in to Codex CLI before using local smoke tests"@,
        ),
    }
}

/// The checks that `wecode doctor` reports, in order.
pub open spec fn expected_checks(s: ToolSnapshot) -> Seq<(Seq<char>, bool, Seq<char>)> {
    seq![
        node_check(s.node_version),
        npm_check(s.npm_found),
        openclaw_check(s.openclaw_version),
        codex_check(s.codex_version),
    ]
}

impl ToolCheck {
    fn ok(name: &str, message: String) -> (c: Self)
        ensures
            c.name@ == name@,
            c.ok,
            c.message@ == message@,
    {
        ToolCheck { name: name.to_owned(), ok: true, message }
    }

    fn fail(name: &str, message: &str) -> (c: Self)
        ensures
            c.name@ == name@,
            !c.ok,
            c.message@ == message@,
    {
        ToolCheck { name: name.to_owned(), ok: false, message: message.to_owned() }
    }
}

fn format_version(version: (u64, u64, u64)) -> (v: Vec<char>)
    ensures
        v@ == version_text(version),
{
    let a = lit_then("v", decimal_string(version.0).as_slice());
    let b = concat2(with_lit(a.as_slice(), ".").as_slice(), decimal_string(version.1).as_slice());
    concat2(with_lit(b.as_slice(), ".").as_slice(), decimal_string(version.2).as_slice())
}

fn found(text: &str) -> (s: String)
    ensures
        s@ == "found "@ + text@,
{
    let t = str_chars(text);
    chars_to_string(lit_then("found ", t.as_slice()).as_slice())
}

fn check_node(node: &Option<String>) -> (c: ToolCheck)
    ensures
        check_view(c) == node_check(*node),
{
    match node {
        Some(text) => match parse_node_version(text.as_str()) {
            Some(v) => {
                if v.0 > 22 || (v.0 == 22 && (v.1 > 19 || (v.1 == 19 && v.2 >= 0))) {
                    ToolCheck::ok("node", found(text.as_str()))
                } else {
                    let t = with_lit(
                        lit_then("found ", format_version(v).as_slice()).as_slice(),
                        ". wecode requires Node >=22.19.0 for OpenClaw/latest",
                    );
                    ToolCheck { name: "node".to_owned(), ok: false, message: chars_to_string(t.as_slice()) }
                }
            },
            None => ToolCheck::fail("node", "not found. Install Node 24 or Node >=22.19.0"),
        },
        None => ToolCheck::fail("node", "not found. Install Node 24 or Node >=22.19.0"),
    }
}

/// Judges the probed tools: Node (at least 22.19.0), npm, OpenClaw in the
/// private runtime and the Codex CLI.  The report is ok when every check is.
pub fn diagnose_tools(snapshot: &ToolSnapshot) -> (r: ToolReport)
    ensures
        r.items@.map_values(|c: ToolCheck| check_view(c)) == expected_checks(*snapshot),
        r.ok == (forall|k: int| 0 <= k < r.items@.len() ==> (#[trigger] r.items@[k]).ok),
{
    let mut items: Vec<ToolCheck> = Vec::new();
    items.push(check_node(&snapshot.node_version));
    items.push(
        if snapshot.npm_found {
            ToolCheck::ok("npm", "found npm".to_owned())
        } else {
            ToolCheck::fail("npm", "not found. Install Node with npm")
        },
    );
    items.push(
        match &snapshot.openclaw_version {
            Some(v) => ToolCheck::ok("openclaw", found(v.as_str())),
            None => ToolCheck::fail(
                "openclaw",
                "not found in wecode private runtime. Run `wecode bootstrap`",
            ),
        },
    );
    items.push(
        match &snapshot.codex_version {
            Some(v) => ToolCheck::ok("codex", found(v.as_str())),
            None => ToolCheck::fail(
                "codex",
                "not found. Install and log in to Codex CLI before using local smoke tests",
            ),
        },
    );
    let ok = items[0].ok && items[1].ok && items[2].ok && items[3].ok;
    assert(ok == (forall|k: int| 0 <= k < items@.len() ==> (#[trigger] items@[k]).ok)) by {
        if !ok {
            if !items@[0].ok {
            } else if !items@[1].ok {
            } else if !items@[2].ok {
            } else {
                assert(!items@[3].ok);
            }
        }
    }
    assert(items@.map_values(|c: ToolCheck| check_view(c)) =~= expected_checks(*snapshot));
    let r = ToolReport { ok, items };
    assert(r.items@ == items@);
    r
}

// ---------------------------------------------------------------------------
// Laws
// ---------------------------------------------------------------------------

pub proof fn lemma_digit_char(d: nat)
    requires
        d < 10,
    ensures
        is_ascii_digit(digit_char(d)),
        digit_value(digit_char(d)) == d,
{
    assert(((d + '0' as int) as char) as u32 == d + 48);
}

/// The decimal digits of `n` are digits, and they are worth `n`.
pub proof fn lemma_decimal_digits(n: nat)
    ensures
        decimal_digits(n).len() >= 1,
        all_digits(decimal_digits(n)),
        decimal_value(decimal_digits(n)) == n,
    decreases n,
{
    if n < 10 {
        lemma_digit_char(n);
        assert(decimal_digits(n).drop_last() =~= Seq::<char>::empty());
        assert(decimal_digits(n).last() == digit_char(n));
        assert(decimal_value(Seq::<char>::empty()) == 0);
    } else {
        lemma_decimal_digits(n / 10);
        lemma_digit_char(n % 10);
        let s = decimal_digits(n / 10);
        assert(decimal_digits(n).drop_last() =~= s);
        assert(decimal_digits(n).last() == digit_char(n % 10));
        assert((n / 10) * 10 + n % 10 == n);
        assert forall|k: int| 0 <= k < decimal_digits(n).len() implies is_ascii_digit(
            #[trigger] decimal_digits(n)[k],
        ) by {
            if k < s.len() {
                assert(decimal_digits(n)[k] == s[k]);
            }
        }
    }
}

proof fn lemma_scan_digits(s: Seq<char>, i: int, nums: Seq<u64>, cur: Seq<char>, k: int)
    requires
        0 <= i,
        0 <= k,
        i + k <= s.len(),
        forall|j: int| i <= j < i + k ==> is_ascii_digit(#[trigger] s[j]),
    ensures
        version_scan(s, i, nums, cur) == version_scan(s, i + k, nums, cur + s.subrange(i, i + k)),
    decreases k,
{
    if k == 0 {
        assert(cur + s.subrange(i, i) =~= cur);
    } else {
        assert(is_ascii_digit(s[i]));
        lemma_scan_digits(s, i + 1, nums, cur.push(s[i]), k - 1);
        assert(cur.push(s[i]) + s.subrange(i + 1, i + k) =~= cur + s.subrange(i, i + k));
    }
}

/// A version printed as `vX.Y.Z` (as doctor reports it) reads back as the
/// same version.
pub proof fn law_version_text_reads_back(v: (u64, u64, u64))
    ensures
        node_version(version_text(v)) == Some(v),
{
    reveal_strlit("v");
    reveal_strlit(".");
    let d0 = decimal_digits(v.0 as nat);
    let d1 = decimal_digits(v.1 as nat);
    let d2 = decimal_digits(v.2 as nat);
    lemma_decimal_digits(v.0 as nat);
    lemma_decimal_digits(v.1 as nat);
    lemma_decimal_digits(v.2 as nat);
    let s = version_text(v);
    let a: int = 1 + d0.len() as int;
    let b: int = a + 1 + d1.len() as int;
    assert(s =~= seq!['v'] + d0 + seq!['.'] + d1 + seq!['.'] + d2);
    assert(s.len() == b + 1 + d2.len());
    assert(s.subrange(1, a) =~= d0);
    assert(s.subrange(a + 1, b) =~= d1);
    assert(s.subrange(b + 1, s.len() as int) =~= d2);
    assert(s[0] == 'v');
    assert(s[a] == '.');
    assert(s[b] == '.');
    assert(!is_ascii_digit('v'));
    assert(!is_ascii_digit('.'));
    let e = Seq::<u64>::empty();
    let ec = Seq::<char>::empty();
    assert(version_scan(s, 0, e, ec) == version_scan(s, 1, e, ec));
    assert forall|j: int| 1 <= j < a implies is_ascii_digit(#[trigger] s[j]) by {
        assert(s[j] == d0[j - 1]);
    }
    lemma_scan_digits(s, 1, e, ec, d0.len() as int);
    assert(ec + s.subrange(1, a) =~= d0);
    assert(number_of(d0) == Some(v.0));
    assert(version_scan(s, a, e, d0) == version_scan(s, a + 1, e.push(v.0), ec));
    assert forall|j: int| a + 1 <= j < b implies is_ascii_digit(#[trigger] s[j]) by {
        assert(s[j] == d1[j - a - 1]);
    }
    lemma_scan_digits(s, a + 1, e.push(v.0), ec, d1.len() as int);
    assert(ec + s.subrange(a + 1, b) =~= d1);
    assert(number_of(d1) == Some(v.1));
    assert(version_scan(s, b, e.push(v.0), d1) == version_scan(s, b + 1, e.push(v.0).push(v.1), ec));
    assert forall|j: int| b + 1 <= j < s.len() implies is_ascii_digit(#[trigger] s[j]) by {
        assert(s[j] == d2[j - b - 1]);
    }
    lemma_scan_digits(s, b + 1, e.push(v.0).push(v.1), ec, d2.len() as int);
    assert(ec + s.subrange(b + 1, s.len() as int) =~= d2);
    assert(number_of(d2) == Some(v.2));
    let fin = e.push(v.0).push(v.1).push(v.2);
    assert(version_scan(s, s.len() as int, e.push(v.0).push(v.1), d2) == Some(fin));
    assert(fin[0] == v.0 && fin[1] == v.1 && fin[2] == v.2);
}

// ---------------------------------------------------------------------------
// The report as printed
// ---------------------------------------------------------------------------

/// `s` padded with spaces on the right to `width` characters.
pub open spec fn pad_right(s: Seq<char>, width: nat) -> Seq<char> {
    if s.len() < width {
        s + Seq::new((width - s.len()) as nat, |i: int| ' ')
    } else {
        s
    }
}

fn pad_right_exec(s: &[char], width: usize) -> (r: Vec<char>)
    ensures
        r@ == pad_right(s@, width as nat),
{
    let mut out = concat2(s, &[]);
    while out.len() < width
        invariant
            out@.len() >= s@.len(),
            out@.subrange(0, s@.len() as int) == s@,
            forall|i: int| s@.len() <= i < out@.len() ==> out@[i] == ' ',
            s@.len() < width ==> out@.len() <= width,
            s@.len() >= width ==> out@ == s@,
        decreases width - out.len(),
    {
        out.push(' ');
    }
    proof {
        if s@.len() < width {
            assert(out@ =~= s@ + Seq::new((width - s@.len()) as nat, |i: int| ' '));
        }
    }
    out
}

/// One line of `wecode doctor`: the tool's name in nine columns, `ok` or
/// `fail` in seven, then the message.
pub fn report_line(check: &ToolCheck) -> (r: String)
    ensures
        r@ == pad_right(check.name@, 9) + " "@ + pad_right(
            if check.ok {
                "ok"@
            } else {
                "fail"@
            },
            7,
        ) + " "@ + check.message@,
{
    let name = str_chars(check.name.as_str());
    let status = if check.ok {
        str_chars("ok")
    } else {
        str_chars("fail")
    };
    let msg = str_chars(check.message.as_str());
    let a = with_lit(pad_right_exec(name.as_slice(), 9).as_slice(), " ");
    let b = with_lit(concat2(a.as_slice(), pad_right_exec(status.as_slice(), 7).as_slice()).as_slice(), " ");
    chars_to_string(concat2(b.as_slice(), msg.as_slice()).as_slice())
}

/// The version order: `w` is the same release as `v` or a later one.
pub open spec fn version_at_least(w: (u64, u64, u64), v: (u64, u64, u64)) -> bool {
    w.0 > v.0 || (w.0 == v.0 && (w.1 > v.1 || (w.1 == v.1 && w.2 >= v.2)))
}

/// `wecode doctor` accepts the installed Node exactly when its reported
/// version is 22.19.0 or later; a missing or unreadable version fails.
pub proof fn law_node_check_is_minimum_version(snapshot: ToolSnapshot)
    ensures
        expected_checks(snapshot)[0].1 == match snapshot.node_version {
            Some(text) => match node_version(text@) {
                Some(v) => version_at_least(v, (22, 19, 0)),
                None => false,
            },
            None => false,
        },
{
}

/// A Node release later than an accepted one is accepted too.
pub proof fn law_node_support_is_monotone(v: (u64, u64, u64), w: (u64, u64, u64))
    requires
        node_supported(v),
        version_at_least(w, v),
    ensures
        node_supported(w),
{
}

} // verus!
