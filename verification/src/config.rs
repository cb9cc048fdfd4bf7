//! The one-shot transport's configuration: listen port, artifact root and
//! external tool paths, resolved from optionally present setting strings
//! with fixed defaults, including a verified decimal port parser.

use vstd::prelude::*;
use vstd::string::StrSliceExecFns;
use vstd::string::StringExecFns;

verus! {

/// Runtime configuration of the one-shot transport and its pipeline.
#[derive(Debug)]
pub struct VsockConfig {
    pub port: u32,
    pub circuits_dir: String,
    pub nargo_path: String,
    pub bb_path: String,
}

/// Whether a character is a decimal digit.
pub open spec fn is_dec_digit(c: char) -> bool {
    48 <= c as int <= 57
}

/// The numeric value of one decimal digit character.
pub open spec fn digit_val(c: char) -> int {
    c as int - 48
}

/// The value of a digit string, most significant first.
pub open spec fn dec_val(s: Seq<char>) -> int
    decreases s.len(),
{
    if s.len() == 0 {
        0
    } else {
        dec_val(s.drop_last()) * 10 + digit_val(s.last())
    }
}

/// A string parses as a `u32` when it is nonempty, all digits, and its
/// value fits.
pub open spec fn parses_as_u32(s: Seq<char>) -> bool {
    s.len() > 0 && (forall|i: int| 0 <= i < s.len() ==> is_dec_digit(#[trigger] s[i])) && dec_val(s)
        <= u32::MAX
}

/// A digit string's value only grows as digits are appended.
proof fn lemma_dec_val_monotone(s: Seq<char>, i: int, j: int)
    requires
        0 <= i <= j <= s.len(),
        forall|k: int| 0 <= k < s.len() ==> digit_val(#[trigger] s[k]) >= 0,
    ensures
        dec_val(s.take(i)) <= dec_val(s.take(j)),
        dec_val(s.take(i)) >= 0,
    decreases j - i,
{
    if i == j {
        lemma_dec_val_nonneg(s.take(i), s);
    } else {
        lemma_dec_val_monotone(s, i, j - 1);
        assert(s.take(j).drop_last() =~= s.take(j - 1));
        assert(dec_val(s.take(j)) == dec_val(s.take(j - 1)) * 10 + digit_val(s[j - 1]));
    }
}

/// A digit string's value is not negative.
proof fn lemma_dec_val_nonneg(t: Seq<char>, s: Seq<char>)
    requires
        t.len() <= s.len(),
        forall|k: int| 0 <= k < t.len() ==> t[k] == s[k],
        forall|k: int| 0 <= k < s.len() ==> digit_val(#[trigger] s[k]) >= 0,
    ensures
        dec_val(t) >= 0,
    decreases t.len(),
{
    if t.len() > 0 {
        lemma_dec_val_nonneg(t.drop_last(), s);
    }
}

/// Parses a nonempty all-digit decimal string into a `u32`; anything else,
/// and any value that does not fit, yields `None`.
pub fn parse_u32_decimal(s: &str) -> (r: Option<u32>)
    ensures
        parses_as_u32(s@) ==> (r matches Some(v) && v == dec_val(s@)),
        !parses_as_u32(s@) ==> r is None,
{
    let n = s.unicode_len();
    if n == 0 {
        return None;
    }
    let mut acc: u64 = 0;
    let mut i: usize = 0;
    while i < n
        invariant
            n == s@.len(),
            0 < n,
            i <= n,
            forall|k: int| 0 <= k < i ==> is_dec_digit(#[trigger] s@[k]),
            acc == dec_val(s@.take(i as int)),
            acc <= u32::MAX,
        decreases n - i,
    {
        let c = s.get_char(i);
        let code: u32 = c as u32;
        if code < 48 || code > 57 {
            return None;
        }
        let d: u64 = (code - 48) as u64;
        let next: u64 = acc * 10 + d;
        proof {
            assert(s@.take(i + 1).drop_last() =~= s@.take(i as int));
            assert(s@.take(i + 1).last() == s@[i as int]);
        }
        if next > 0xFFFF_FFFF {
            proof {
                if parses_as_u32(s@) {
                    assert forall|k: int| 0 <= k < s@.len() implies digit_val(#[trigger] s@[k])
                        >= 0 by {
                        assert(is_dec_digit(s@[k]));
                    }
                    assert(dec_val(s@.take(i + 1)) == next);
                    lemma_dec_val_monotone(s@, i + 1, s@.len() as int);
                    assert(s@.take(s@.len() as int) =~= s@);
                    assert(false);
                }
            }
            return None;
        }
        acc = next;
        i = i + 1;
    }
    proof {
        assert(s@.take(n as int) =~= s@);
    }
    Some(acc as u32)
}

/// Resolves the configuration from optionally present setting strings: a
/// missing or unparsable port falls back to 5000, the artifact root to
/// `/app/circuits`, and the tool paths to the bare tool names.
pub fn resolve_config(
    port: Option<String>,
    circuits_dir: Option<String>,
    nargo_path: Option<String>,
    bb_path: Option<String>,
) -> (r: VsockConfig)
    ensures
        r.port == (match port {
            Some(p) => if parses_as_u32(p@) {
                dec_val(p@) as u32
            } else {
                5000u32
            },
            None => 5000u32,
        }),
        r.circuits_dir@ == (match circuits_dir {
            Some(d) => d@,
            None => "/app/circuits"@,
        }),
        r.nargo_path@ == (match nargo_path {
            Some(p) => p@,
            None => "nargo"@,
        }),
        r.bb_path@ == (match bb_path {
            Some(p) => p@,
            None => "bb"@,
        }),
{
    let port_num: u32 = match port {
        Some(p) => match parse_u32_decimal(p.as_str()) {
            Some(v) => v,
            None => 5000,
        },
        None => 5000,
    };
    let circuits_dir_s: String = match circuits_dir {
        Some(d) => d,
        None => String::from_str("/app/circuits"),
    };
    let nargo_s: String = match nargo_path {
        Some(p) => p,
        None => String::from_str("nargo"),
    };
    let bb_s: String = match bb_path {
        Some(p) => p,
        None => String::from_str("bb"),
    };
    VsockConfig { port: port_num, circuits_dir: circuits_dir_s, nargo_path: nargo_s, bb_path: bb_s }
}

} // verus!
