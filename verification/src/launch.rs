//! Launch options: the command-line arguments `--max-ticks`, `--seed`, `--tui`
//! and `--tps`, and the frame interval they lead to.
use vstd::prelude::*;

verus! {

/// The settings that the command line can change.
#[derive(Debug, Clone, Copy, PartialEq, Eq, Structural)]
pub struct LaunchOptions {
    /// Last tick of the simulation.
    pub max_ticks: u64,
    /// Seed of the deterministic random numbers.
    pub seed: u64,
    /// Start the terminal dashboard instead of the command-line log.
    pub tui_mode: bool,
    /// Ticks per second to aim at, if limited.
    pub max_tps: Option<u64>,
}

impl Default for LaunchOptions {
    /// 50 ticks, seed 42, command-line log, no tick rate limit.
    fn default() -> (o: Self)
        ensures
            o == (LaunchOptions { max_ticks: 50, seed: 42, tui_mode: false, max_tps: None }),
    {
        LaunchOptions { max_ticks: 50, seed: 42, tui_mode: false, max_tps: None }
    }
}

/// Value of an ASCII digit.
pub open spec fn digit_value(c: char) -> int {
    c as u32 - 48
}

pub open spec fn is_digit(c: char) -> bool {
    48 <= (c as u32) && (c as u32) <= 57
}

/// Every character is a decimal digit.
pub open spec fn all_digits(s: Seq<char>) -> bool {
    forall|i: int| 0 <= i < s.len() ==> is_digit(#[trigger] s[i])
}

/// Decimal value of a sequence of digits.
pub open spec fn decimal_value(s: Seq<char>) -> int
    decreases s.len(),
{
    if s.len() == 0 {
        0
    } else {
        10 * decimal_value(s.drop_last()) + digit_value(s.last())
    }
}

/// The unsigned integer that a string denotes, as `u64::from_str` reads it:
/// an optional `+` followed by at least one decimal digit and nothing else,
/// with a value that fits in 64 bits.
pub open spec fn spec_parse_u64(s: Seq<char>) -> Option<u64> {
    let digits = if s.len() > 0 && s[0] == '+' { s.drop_first() } else { s };
    if digits.len() == 0 || !all_digits(digits) {
        None
    } else if decimal_value(digits) > u64::MAX {
        None
    } else {
        Some(decimal_value(digits) as u64)
    }
}

proof fn lemma_decimal_value_grows(s: Seq<char>, c: char)
    requires
        forall|i: int| 0 <= i < s.len() ==> is_digit(#[trigger] s[i]),
        is_digit(c),
    ensures
        decimal_value(s.push(c)) == 10 * decimal_value(s) + digit_value(c),
        decimal_value(s.push(c)) >= decimal_value(s),
        decimal_value(s) >= 0,
{
    assert(s.push(c).drop_last() =~= s);
    lemma_decimal_value_nonneg(s);
}

proof fn lemma_decimal_value_nonneg(s: Seq<char>)
    requires
        forall|i: int| 0 <= i < s.len() ==> is_digit(#[trigger] s[i]),
    ensures
        decimal_value(s) >= 0,
    decreases s.len(),
{
    if s.len() > 0 {
        lemma_decimal_value_nonneg(s.drop_last());
    }
}

proof fn lemma_decimal_value_prefix_mono(s: Seq<char>, n: int)
    requires
        0 <= n <= s.len(),
        forall|i: int| 0 <= i < s.len() ==> is_digit(#[trigger] s[i]),
    ensures
        decimal_value(s.take(n)) <= decimal_value(s),
    decreases s.len() - n,
{
    if n < s.len() {
        lemma_decimal_value_prefix_mono(s, n + 1);
        assert(s.take(n + 1) =~= s.take(n).push(s[n]));
        lemma_decimal_value_grows(s.take(n), s[n]);
    } else {
        assert(s.take(n) =~= s);
    }
}

/// Read an unsigned 64-bit integer the way `str::parse::<u64>` does.
pub fn parse_u64(s: &str) -> (r: Option<u64>)
    ensures
        r == spec_parse_u64(s@),
{
    let len = s.unicode_len();
    let mut start: usize = 0;
    if len > 0 && s.get_char(0) == '+' {
        start = 1;
    }
    let ghost digits = if s@.len() > 0 && s@[0] == '+' { s@.drop_first() } else { s@ };
    assert(digits =~= s@.subrange(start as int, len as int));
    if start >= len {
        return None;
    }
    let mut value: u64 = 0;
    let mut i: usize = start;
    while i < len
        invariant
            start <= i <= len,
            len == s@.len(),
            start < len,
            digits =~= s@.subrange(start as int, len as int),
            digits == (if s@.len() > 0 && s@[0] == '+' { s@.drop_first() } else { s@ }),
            forall|k: int| start <= k < i ==> is_digit(#[trigger] s@[k]),
            value == decimal_value(s@.subrange(start as int, i as int)),
        decreases len - i,
    {
        let c = s.get_char(i);
        let code = c as u32;
        if code < 48 || code > 57 {
            proof {
                assert(digits[i - start] == c);
                assert(!is_digit(digits[i - start]));
                assert(!all_digits(digits));
            }
            return None;
        }
        let d = (code - 48) as u64;
        proof {
            let pre = s@.subrange(start as int, i as int);
            assert(s@.subrange(start as int, i as int + 1) =~= pre.push(c));
            assert forall|k: int| 0 <= k < pre.len() implies is_digit(#[trigger] pre[k]) by {
                assert(pre[k] == s@[start + k]);
            }
            lemma_decimal_value_grows(pre, c);
        }
        if value > (u64::MAX - d) / 10 {
            proof {
                assert(value * 10 + d > u64::MAX) by (nonlinear_arith)
                    requires
                        value > (u64::MAX - d) / 10,
                        d <= 9,
                ;
                let pre = s@.subrange(start as int, i as int + 1);
                assert forall|k: int| 0 <= k < digits.len() implies is_digit(#[trigger] digits[k]) || k >= i + 1 - start by {
                    if k < i + 1 - start {
                        assert(digits[k] == s@[start + k]);
                    }
                }
                if all_digits(digits) {
                    assert(digits.take(i + 1 - start) =~= pre);
                    lemma_decimal_value_prefix_mono(digits, i + 1 - start);
                }
            }
            return None;
        }
        value = value * 10 + d;
        i = i + 1;
    }
    proof {
        assert(s@.subrange(start as int, len as int) =~= digits);
        assert forall|k: int| 0 <= k < digits.len() implies is_digit(#[trigger] digits[k]) by {
            assert(digits[k] == s@[start + k]);
        }
    }
    Some(value)
}

/// Whether two strings hold the same characters.
fn same_text(a: &str, b: &str) -> (r: bool)
    ensures
        r == (a@ == b@),
{
    let n = a.unicode_len();
    if n != b.unicode_len() {
        return false;
    }
    let mut i: usize = 0;
    while i < n
        invariant
            0 <= i <= n,
            n == a@.len(),
            n == b@.len(),
            forall|k: int| 0 <= k < i ==> a@[k] == b@[k],
        decreases n - i,
    {
        if a.get_char(i) != b.get_char(i) {
            return false;
        }
        i = i + 1;
    }
    assert(a@ =~= b@);
    true
}

/// The options after reading the arguments from position `i` on.
pub open spec fn apply_args(args: Seq<Seq<char>>, i: int, o: LaunchOptions) -> LaunchOptions
    decreases args.len() - i,
{
    if i < 0 || i >= args.len() {
        o
    } else {
        let a = args[i];
        let has_value = i + 1 < args.len();
        if a == "--max-ticks"@ {
            if has_value {
                let v = args[i + 1];
                let m = if v == "-1"@ {
                    u64::MAX
                } else {
                    match spec_parse_u64(v) {
                        Some(n) => n,
                        None => o.max_ticks,
                    }
                };
                apply_args(args, i + 2, LaunchOptions { max_ticks: m, ..o })
            } else {
                apply_args(args, i + 1, o)
            }
        } else if a == "--seed"@ {
            if has_value {
                let seed = match spec_parse_u64(args[i + 1]) {
                    Some(n) => n,
                    None => o.seed,
                };
                apply_args(args, i + 2, LaunchOptions { seed, ..o })
            } else {
                apply_args(args, i + 1, o)
            }
        } else if a == "--tui"@ {
            apply_args(args, i + 1, LaunchOptions { tui_mode: true, ..o })
        } else if a == "--tps"@ {
            if has_value {
                apply_args(args, i + 2, LaunchOptions { max_tps: spec_parse_u64(args[i + 1]), ..o })
            } else {
                apply_args(args, i + 1, o)
            }
        } else {
            apply_args(args, i + 1, o)
        }
    }
}

/// The text of each argument.
pub open spec fn arg_texts(args: Seq<String>) -> Seq<Seq<char>> {
    args.map_values(|s: String| s@)
}

/// Read the command line (`args[0]` is the program name): `--max-ticks N`
/// sets the last tick (`-1` for no limit, an unreadable number keeps the
/// current value), `--seed N` sets the seed (likewise), `--tui` turns the
/// dashboard on, `--tps N` sets the tick-rate limit (none when unreadable);
/// other arguments, and options missing their value, are ignored.
pub fn parse_launch_args(args: &Vec<String>, defaults: LaunchOptions) -> (o: LaunchOptions)
    ensures
        o == apply_args(arg_texts(args@), 1, defaults),
{
    let ghost texts = arg_texts(args@);
    let mut o = defaults;
    let mut i: usize = 1;
    while i < args.len()
        invariant
            1 <= i,
            texts == arg_texts(args@),
            texts.len() == args@.len(),
            i <= args@.len() + 1,
            apply_args(texts, i as int, o) == apply_args(texts, 1, defaults),
        decreases args@.len() + 1 - i,
    {
        let a = args[i].as_str();
        let has_value = i + 1 < args.len();
        assert(texts[i as int] == a@);
        if same_text(a, "--max-ticks") {
            if has_value {
                let v = args[i + 1].as_str();
                assert(texts[i + 1] == v@);
                if same_text(v, "-1") {
                    o.max_ticks = u64::MAX;
                } else {
                    match parse_u64(v) {
                        Some(n) => {
                            o.max_ticks = n;
                        },
                        None => {},
                    }
                }
                i = i + 1;
            }
        } else if same_text(a, "--seed") {
            if has_value {
                let v = args[i + 1].as_str();
                assert(texts[i + 1] == v@);
                match parse_u64(v) {
                    Some(n) => {
                        o.seed = n;
                    },
                    None => {},
                }
                i = i + 1;
            }
        } else if same_text(a, "--tui") {
            o.tui_mode = true;
        } else if same_text(a, "--tps") {
            if has_value {
                let v = args[i + 1].as_str();
                assert(texts[i + 1] == v@);
                o.max_tps = parse_u64(v);
                i = i + 1;
            }
        }
        i = i + 1;
    }
    o
}

/// Milliseconds between frames: `1000 / tps` for a positive tick-rate limit,
/// no wait for a limit of 0, and without a limit 16 ms (about 60 frames per
/// second) for the dashboard or no wait for the command-line log.
pub fn frame_interval_ms(max_tps: Option<u64>, tui_mode: bool) -> (ms: u64)
    ensures
        ms == match max_tps {
            Some(tps) => if tps > 0 { 1000u64 / tps } else { 0u64 },
            None => if tui_mode { 16u64 } else { 0u64 },
        },
{
    match max_tps {
        Some(tps) => {
            if tps > 0 {
                1000 / tps
            } else {
                0
            }
        },
        None => {
            if tui_mode {
                16
            } else {
                0
            }
        },
    }
}

} // verus!
