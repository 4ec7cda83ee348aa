//! Small verified helpers on strings: equality, substring search, and
//! decimal rendering of integers.
use vstd::prelude::*;
use vstd::string::StrSliceExecFns;
use vstd::string::StringExecFns;

verus! {

/// Character-wise equality of two string slices.
pub fn str_eq(a: &str, b: &str) -> (r: bool)
    ensures
        r == (a@ == b@),
{
    let n = a.unicode_len();
    if n != b.unicode_len() {
        return false;
    }
    let mut i: usize = 0;
    while i < n
        invariant
            n == a@.len(),
            n == b@.len(),
            0 <= i <= n,
            forall|k: int| 0 <= k < i ==> a@[k] == b@[k],
        decreases n - i,
    {
        if a.get_char(i) != b.get_char(i) {
            return false;
        }
        i = i + 1;
    }
    proof {
        assert(a@ =~= b@);
    }
    true
}

/// `p` occurs as a contiguous run of characters inside `h`.
pub open spec fn has_sub(h: Seq<char>, p: Seq<char>) -> bool {
    exists|i: int| 0 <= i && i + p.len() <= h.len() && #[trigger] h.subrange(i, i + p.len() as int)
        == p
}

/// Substring search by direct comparison at every position.
pub fn contains_sub(hay: &str, pat: &str) -> (r: bool)
    ensures
        r == has_sub(hay@, pat@),
{
    let hn = hay.unicode_len();
    let pn = pat.unicode_len();
    if pn > hn {
        return false;
    }
    let mut i: usize = 0;
    while i <= hn - pn
        invariant
            hn == hay@.len(),
            pn == pat@.len(),
            pn <= hn,
            0 <= i <= hn - pn + 1,
            forall|k: int|
                0 <= k < i ==> #[trigger] hay@.subrange(k, k + pat@.len() as int) != pat@,
        decreases hn + 1 - pn - i,
    {
        let mut j: usize = 0;
        let mut ok: bool = true;
        while j < pn
            invariant
                hn == hay@.len(),
                pn == pat@.len(),
                0 <= i <= hn - pn,
                0 <= j <= pn,
                ok <==> forall|k: int| 0 <= k < j ==> hay@[i + k] == pat@[k],
            decreases pn - j,
        {
            if hay.get_char(i + j) != pat.get_char(j) {
                ok = false;
                proof {
                    assert(!(forall|k: int| 0 <= k < j + 1 ==> hay@[i + k] == pat@[k])) by {
                        assert(hay@[i + j as int] != pat@[j as int]);
                    }
                }
            }
            j = j + 1;
        }
        if ok {
            proof {
                assert(hay@.subrange(i as int, i + pat@.len() as int) =~= pat@);
            }
            return true;
        }
        proof {
            assert(hay@.subrange(i as int, i + pat@.len() as int) != pat@) by {
                let k = choose|k: int| 0 <= k < pn && hay@[i + k] != pat@[k];
                assert(hay@.subrange(i as int, i + pat@.len() as int)[k] == hay@[i + k]);
            }
        }
        i = i + 1;
    }
    proof {
        assert(!has_sub(hay@, pat@)) by {
            assert(forall|k: int|
                0 <= k && k + pat@.len() <= hay@.len() ==> #[trigger] hay@.subrange(
                    k,
                    k + pat@.len() as int,
                ) != pat@);
        }
    }
    false
}

/// The character for one decimal digit.
pub open spec fn digit_char(d: int) -> char {
    if d == 0 { '0' }
    else if d == 1 { '1' }
    else if d == 2 { '2' }
    else if d == 3 { '3' }
    else if d == 4 { '4' }
    else if d == 5 { '5' }
    else if d == 6 { '6' }
    else if d == 7 { '7' }
    else if d == 8 { '8' }
    else { '9' }
}

/// Decimal representation of a non-negative integer, most significant
/// digit first.
pub open spec fn dec_str(n: int) -> Seq<char>
    decreases n,
{
    if n < 10 {
        seq![digit_char(n)]
    } else {
        dec_str(n / 10).push(digit_char(n % 10))
    }
}

fn digit_slice(d: u64) -> (r: &'static str)
    requires
        d < 10,
    ensures
        r@ =~= seq![digit_char(d as int)],
{
    proof {
        reveal_strlit("0");
        reveal_strlit("1");
        reveal_strlit("2");
        reveal_strlit("3");
        reveal_strlit("4");
        reveal_strlit("5");
        reveal_strlit("6");
        reveal_strlit("7");
        reveal_strlit("8");
        reveal_strlit("9");
    }
    if d == 0 { "0" }
    else if d == 1 { "1" }
    else if d == 2 { "2" }
    else if d == 3 { "3" }
    else if d == 4 { "4" }
    else if d == 5 { "5" }
    else if d == 6 { "6" }
    else if d == 7 { "7" }
    else if d == 8 { "8" }
    else { "9" }
}

/// Appends the decimal digits of `n` to `out`.
pub fn push_dec(n: u64, out: &mut String)
    ensures
        final(out)@ == old(out)@ + dec_str(n as int),
    decreases n,
{
    if n < 10 {
        out.append(digit_slice(n));
    } else {
        proof {
            assert(n / 10 < n) by (nonlinear_arith)
                requires n >= 10;
        }
        push_dec(n / 10, out);
        out.append(digit_slice(n % 10));
        proof {
            assert(old(out)@ + dec_str(n as int / 10) + seq![digit_char(n as int % 10)]
                =~= old(out)@ + dec_str(n as int));
        }
    }
}

/// Decimal representation of a signed integer.
pub open spec fn dec_str_signed(n: int) -> Seq<char> {
    if n < 0 {
        seq!['-'] + dec_str(-n)
    } else {
        dec_str(n)
    }
}

/// Appends the decimal digits of `n`, with a leading minus sign when
/// negative, to `out`.
pub fn push_dec_signed(n: i64, out: &mut String)
    ensures
        final(out)@ == old(out)@ + dec_str_signed(n as int),
{
    if n >= 0 {
        push_dec(n as u64, out);
    } else {
        out.append("-");
        let m: u64 = if n == i64::MIN {
            9223372036854775808u64
        } else {
            (-n) as u64
        };
        push_dec(m, out);
        proof {
            reveal_strlit("-");
            assert(old(out)@ + "-"@ + dec_str(m as int) =~= old(out)@ + dec_str_signed(
                n as int,
            ));
        }
    }
}

} // verus!
