//! Decimal parsing and formatting for the task identifier.
use vstd::prelude::*;
use vstd::string::StrSliceExecFns;

verus! {

/// `c` is an ASCII decimal digit.
pub open spec fn is_digit(c: char) -> bool {
    48 <= c as u32 <= 57
}

/// Numeric value of a decimal digit character.
pub open spec fn digit_val(c: char) -> int {
    c as u32 - 48
}

/// Every character of `s` is a decimal digit.
pub open spec fn all_digits(s: Seq<char>) -> bool {
    forall|i: int| 0 <= i < s.len() ==> is_digit(#[trigger] s[i])
}

/// Value of a string of decimal digits, most significant first.
pub open spec fn digits_val(s: Seq<char>) -> int
    decreases s.len(),
{
    if s.len() == 0 {
        0
    } else {
        digits_val(s.drop_last()) * 10 + digit_val(s.last())
    }
}

/// The integer denoted by `s` under the grammar `str::parse::<i32>` accepts:
/// an optional sign, one or more decimal digits, and a value within the
/// range of `i32`; anything else denotes nothing.
pub open spec fn parse_i32_spec(s: Seq<char>) -> Option<int> {
    if s.len() == 0 {
        None
    } else {
        let neg = s[0] == '-';
        let ds = if s[0] == '-' || s[0] == '+' {
            s.drop_first()
        } else {
            s
        };
        if ds.len() == 0 || !all_digits(ds) {
            None
        } else {
            let v = if neg {
                -digits_val(ds)
            } else {
                digits_val(ds)
            };
            if -2147483648 <= v <= 2147483647 {
                Some(v)
            } else {
                None
            }
        }
    }
}

proof fn lemma_digits_val_nonneg(s: Seq<char>)
    requires
        all_digits(s),
    ensures
        digits_val(s) >= 0,
    decreases s.len(),
{
    if s.len() > 0 {
        assert(all_digits(s.drop_last()));
        lemma_digits_val_nonneg(s.drop_last());
    }
}

proof fn lemma_digits_val_prefix_le(s: Seq<char>, k: int)
    requires
        all_digits(s),
        0 <= k <= s.len(),
    ensures
        digits_val(s.subrange(0, k)) <= digits_val(s),
    decreases s.len() - k,
{
    if k == s.len() {
        assert(s.subrange(0, k) =~= s);
    } else {
        let t = s.subrange(0, k + 1);
        assert(t.drop_last() =~= s.subrange(0, k));
        assert(all_digits(t.drop_last()));
        lemma_digits_val_nonneg(t.drop_last());
        assert(digits_val(t) == digits_val(s.subrange(0, k)) * 10 + digit_val(s[k]));
        lemma_digits_val_prefix_le(s, k + 1);
    }
}

/// Parses `s` as an `i32` exactly where `parse_i32_spec` gives a value.
pub fn parse_i32(s: &str) -> (r: Option<i32>)
    ensures
        r matches Some(v) ==> parse_i32_spec(s@) == Some(v as int),
        r is None ==> parse_i32_spec(s@) is None,
{
    let n = s.unicode_len();
    if n == 0 {
        return None;
    }
    let c0 = s.get_char(0);
    let neg = c0 == '-';
    let start: usize = if c0 == '-' || c0 == '+' {
        1
    } else {
        0
    };
    let ghost ds: Seq<char> = s@.subrange(start as int, n as int);
    proof {
        if start == 1 {
            assert(ds =~= s@.drop_first());
        } else {
            assert(ds =~= s@);
        }
    }
    if n == start {
        return None;
    }
    let bound: u64 = if neg {
        2147483648
    } else {
        2147483647
    };
    let mut acc: u64 = 0;
    let mut i: usize = start;
    while i < n
        invariant
            start <= i <= n,
            1 <= n == s@.len(),
            start == (if s@[0] == '-' || s@[0] == '+' {
                1int
            } else {
                0int
            }),
            neg == (s@[0] == '-'),
            bound == (if neg {
                2147483648u64
            } else {
                2147483647u64
            }),
            ds == s@.subrange(start as int, n as int),
            ds == (if s@[0] == '-' || s@[0] == '+' {
                s@.drop_first()
            } else {
                s@
            }),
            ds.len() == n - start,
            all_digits(s@.subrange(start as int, i as int)),
            acc == digits_val(s@.subrange(start as int, i as int)),
            acc <= bound,
        decreases n - i,
    {
        let c = s.get_char(i);
        let u = c as u32;
        if u < 48 || u > 57 {
            proof {
                assert(ds[i - start] == s@[i as int]);
                assert(!is_digit(ds[i - start]));
            }
            return None;
        }
        let d: u64 = (u - 48) as u64;
        let ghost pre = s@.subrange(start as int, i as int);
        let ghost ext = s@.subrange(start as int, i + 1);
        proof {
            assert(ext.drop_last() =~= pre);
            assert(ext.last() == s@[i as int]);
            assert(digits_val(ext) == digits_val(pre) * 10 + digit_val(s@[i as int]));
            assert(forall|j: int| 0 <= j < ext.len() ==> is_digit(#[trigger] ext[j]));
        }
        let next: u64 = acc * 10 + d;
        if next > bound {
            proof {
                if all_digits(ds) {
                    assert(ext =~= ds.subrange(0, i + 1 - start));
                    lemma_digits_val_prefix_le(ds, i + 1 - start);
                    assert(digits_val(ds) >= next);
                }
            }
            return None;
        }
        acc = next;
        i += 1;
    }
    proof {
        assert(s@.subrange(start as int, i as int) =~= ds);
        assert(ds.len() > 0);
    }
    if neg {
        let v: i32 = (-(acc as i64)) as i32;
        proof {
            assert(v as int == -(acc as int));
        }
        Some(v)
    } else {
        Some(acc as i32)
    }
}

/// The character of a single decimal digit.
pub open spec fn digit_char(d: int) -> char {
    if d == 0 {
        '0'
    } else if d == 1 {
        '1'
    } else if d == 2 {
        '2'
    } else if d == 3 {
        '3'
    } else if d == 4 {
        '4'
    } else if d == 5 {
        '5'
    } else if d == 6 {
        '6'
    } else if d == 7 {
        '7'
    } else if d == 8 {
        '8'
    } else {
        '9'
    }
}

/// Decimal digits of a non-negative integer, most significant first.
pub open spec fn dec_nat(n: int) -> Seq<char>
    recommends
        n >= 0,
    decreases n,
    when n >= 0
{
    if n < 10 {
        seq![digit_char(n)]
    } else {
        dec_nat(n / 10).push(digit_char(n % 10))
    }
}

/// Decimal rendering of an `i32` value, with a leading minus sign when negative.
pub open spec fn dec_i32(v: int) -> Seq<char> {
    if v < 0 {
        seq!['-'] + dec_nat(-v)
    } else {
        dec_nat(v)
    }
}

fn digit_char_exec(d: u32) -> (c: char)
    requires
        d < 10,
    ensures
        c == digit_char(d as int),
{
    if d == 0 {
        '0'
    } else if d == 1 {
        '1'
    } else if d == 2 {
        '2'
    } else if d == 3 {
        '3'
    } else if d == 4 {
        '4'
    } else if d == 5 {
        '5'
    } else if d == 6 {
        '6'
    } else if d == 7 {
        '7'
    } else if d == 8 {
        '8'
    } else {
        '9'
    }
}

/// Appends the decimal rendering of `v` to `out`.
pub fn push_i32_decimal(out: &mut Vec<char>, v: i32)
    ensures
        final(out)@ == old(out)@ + dec_i32(v as int),
{
    let m: u32 = if v < 0 {
        out.push('-');
        (-(v as i64)) as u32
    } else {
        v as u32
    };
    let ghost base = out@;
    let mut rev: Vec<char> = Vec::new();
    let mut cur: u32 = m;
    proof {
        assert(rev@.reverse() =~= Seq::<char>::empty());
    }
    while cur >= 10
        invariant
            dec_nat(m as int) == dec_nat(cur as int) + rev@.reverse(),
        decreases cur,
    {
        let d = cur % 10;
        let ghost rev0 = rev@;
        rev.push(digit_char_exec(d));
        proof {
            assert(rev@.reverse() =~= seq![digit_char(d as int)] + rev0.reverse());
            assert(dec_nat(cur as int) == dec_nat(cur as int / 10).push(
                digit_char(cur as int % 10),
            ));
            assert(dec_nat(cur as int / 10) + rev@.reverse() =~= dec_nat(cur as int)
                + rev0.reverse());
        }
        cur = cur / 10;
    }
    let ghost rev1 = rev@;
    rev.push(digit_char_exec(cur));
    proof {
        assert(rev@.reverse() =~= seq![digit_char(cur as int)] + rev1.reverse());
        assert(dec_nat(cur as int) == seq![digit_char(cur as int)]);
        assert(rev@.reverse() =~= dec_nat(m as int));
    }
    let k = rev.len();
    let mut j: usize = 0;
    while j < k
        invariant
            j <= k,
            k == rev@.len(),
            rev@.reverse() == dec_nat(m as int),
            out@ == base + rev@.reverse().subrange(0, j as int),
        decreases k - j,
    {
        out.push(rev[k - 1 - j]);
        proof {
            assert(rev@.reverse()[j as int] == rev@[k - 1 - j]);
            assert(rev@.reverse().subrange(0, j + 1) =~= rev@.reverse().subrange(
                0,
                j as int,
            ).push(rev@.reverse()[j as int]));
        }
        j += 1;
    }
    proof {
        assert(rev@.reverse().subrange(0, k as int) =~= rev@.reverse());
        if v < 0 {
            assert(out@ =~= old(out)@ + dec_i32(v as int));
        } else {
            assert(out@ =~= old(out)@ + dec_i32(v as int));
        }
    }
}

} // verus!
