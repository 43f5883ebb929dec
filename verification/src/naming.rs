//! Names of persisted artifacts: a fixed directory and stem, the time of
//! writing in whole seconds, and the suffix of the format.

use vstd::prelude::*;
use vstd::string::StringExecFns;
use crate::format::{suffix_of, AudioFormat};

verus! {

/// The character for a single decimal digit.
pub open spec fn digit_char(d: nat) -> char {
    if d == 0 {
        '0'
    } else if d == 1 {
        '1'
    } else if d == 2 {
        '2'
    } else if d == 3 {
        '3'
    } else if d == 4 {
        '4'
    } else if d == 5 {
        '5'
    } else if d == 6 {
        '6'
    } else if d == 7 {
        '7'
    } else if d == 8 {
        '8'
    } else {
        '9'
    }
}

/// The decimal numeral of `n`, without leading zeros.
pub open spec fn decimal(n: nat) -> Seq<char>
    decreases n,
{
    if n < 10 {
        seq![digit_char(n)]
    } else {
        decimal(n / 10).push(digit_char(n % 10))
    }
}

/// What every artifact's path starts with.
pub open spec fn path_stem() -> Seq<char> {
    "tmp/output_"@
}

/// The path of the artifact written at `stamp` seconds in the given format.
pub open spec fn path_for(stamp: u64, format: AudioFormat) -> Seq<char> {
    path_stem() + decimal(stamp as nat) + suffix_of(format)
}

/// The one-character text of a decimal digit.
fn digit_text(d: u64) -> (r: &'static str)
    requires
        d < 10,
    ensures
        r@ == seq![digit_char(d as nat)],
{
    proof {
        reveal_strlit("0");
        reveal_strlit("1");
        reveal_strlit("2");
        reveal_strlit("3");
        reveal_strlit("4");
        reveal_strlit("5");
        reveal_strlit("6");
        reveal_strlit("7");
        reveal_strlit("8");
        reveal_strlit("9");
    }
    let r = if d == 0 {
        "0"
    } else if d == 1 {
        "1"
    } else if d == 2 {
        "2"
    } else if d == 3 {
        "3"
    } else if d == 4 {
        "4"
    } else if d == 5 {
        "5"
    } else if d == 6 {
        "6"
    } else if d == 7 {
        "7"
    } else if d == 8 {
        "8"
    } else {
        "9"
    };
    assert(r@ =~= seq![digit_char(d as nat)]);
    r
}

/// Appends the decimal numeral of `n` to `out`.
fn append_decimal(out: &mut String, n: u64)
    ensures
        final(out)@ == old(out)@ + decimal(n as nat),
    decreases n,
{
    if n >= 10 {
        append_decimal(out, n / 10);
    }
    let ghost before = out@;
    out.append(digit_text(n % 10));
    assert(before + seq![digit_char((n % 10) as nat)] =~= old(out)@ + decimal(n as nat));
}

/// The path under which the artifact of a request served at `stamp` seconds
/// since the epoch is written.
pub fn output_path(stamp: u64, format: AudioFormat) -> (path: String)
    ensures
        path@ == path_for(stamp, format),
{
    let mut path = String::from_str("tmp/output_");
    append_decimal(&mut path, stamp);
    path.append(format.suffix());
    path
}

/// A numeral has at least one digit, and each of its characters is a digit.
pub proof fn decimal_is_digits(n: nat)
    ensures
        decimal(n).len() >= 1,
        n >= 10 ==> decimal(n).len() >= 2,
        forall|i: int| 0 <= i < decimal(n).len() ==> '0' <= #[trigger] decimal(n)[i] <= '9',
    decreases n,
{
    if n >= 10 {
        decimal_is_digits(n / 10);
    }
}

/// Different numbers have different numerals.
pub proof fn decimal_is_injective(a: nat, b: nat)
    requires
        decimal(a) == decimal(b),
    ensures
        a == b,
    decreases a,
{
    decimal_is_digits(a);
    decimal_is_digits(b);
    if a < 10 && b < 10 {
        assert(decimal(a)[0] == decimal(b)[0]);
    } else if a >= 10 && b >= 10 {
        let da = decimal(a / 10);
        let db = decimal(b / 10);
        assert(da =~= decimal(a).drop_last());
        assert(db =~= decimal(b).drop_last());
        assert(decimal(a).last() == digit_char(a % 10));
        assert(decimal(b).last() == digit_char(b % 10));
        decimal_is_injective(a / 10, b / 10);
    } else {
        assert(decimal(a).len() != decimal(b).len());
    }
}

/// A path ends with the suffix of its format.
pub proof fn path_ends_with_suffix(stamp: u64, format: AudioFormat)
    ensures
        path_for(stamp, format).len() >= suffix_of(format).len(),
        path_for(stamp, format).subrange(
            path_for(stamp, format).len() - suffix_of(format).len(),
            path_for(stamp, format).len() as int,
        ) == suffix_of(format),
{
    let p = path_for(stamp, format);
    let s = suffix_of(format);
    assert(p.subrange(p.len() - s.len(), p.len() as int) =~= s);
}

/// Two artifacts share a path only if they were written in the same second
/// and in the same format.
pub proof fn path_collision(s1: u64, f1: AudioFormat, s2: u64, f2: AudioFormat)
    ensures
        path_for(s1, f1) == path_for(s2, f2) <==> s1 == s2 && f1 == f2,
{
    if path_for(s1, f1) == path_for(s2, f2) {
        crate::format::suffix_identifies_format(f1, f2);
        crate::format::suffix_identifies_format(f2, f1);
        let p1 = path_for(s1, f1);
        let p2 = path_for(s2, f2);
        let k = path_stem().len() as int;
        let d1 = decimal(s1 as nat);
        let d2 = decimal(s2 as nat);
        assert(p1.len() == k + d1.len() + 4);
        assert(p2.len() == k + d2.len() + 4);
        assert(d1.len() == d2.len());
        assert(p1.subrange(k, k + d1.len()) =~= d1);
        assert(p2.subrange(k, k + d2.len()) =~= d2);
        decimal_is_injective(s1 as nat, s2 as nat);
        assert(p1.subrange(k + d1.len(), p1.len() as int) =~= suffix_of(f1));
        assert(p2.subrange(k + d2.len(), p2.len() as int) =~= suffix_of(f2));
    }
}

} // verus!
