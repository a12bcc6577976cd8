use vstd::prelude::*;
use vstd::string::StringSliceAdditionalSpecFns;

verus! {

/// Whether `b` is the ASCII code of a decimal digit.
pub open spec fn is_digit(b: u8) -> bool {
    48 <= b <= 57
}

/// Every byte of `d` is a decimal digit.
pub open spec fn all_digits(d: Seq<u8>) -> bool {
    forall|i: int| 0 <= i < d.len() ==> is_digit(#[trigger] d[i])
}

/// The value of a run of decimal digits, most significant first.
pub open spec fn digits_value(d: Seq<u8>) -> int
    decreases d.len(),
{
    if d.len() == 0 {
        0
    } else {
        digits_value(d.drop_last()) * 10 + (d.last() - 48)
    }
}

/// The integer that `b` spells in base ten: an optional `+` or `-`, then one
/// or more digits, and nothing else (no blanks, no separators).
pub open spec fn decimal_of(b: Seq<u8>) -> Option<int> {
    let signed = b.len() > 0 && (b[0] == 45 || b[0] == 43);
    let d = if signed { b.drop_first() } else { b };
    if d.len() > 0 && all_digits(d) {
        if signed && b[0] == 45 {
            Some(-digits_value(d))
        } else {
            Some(digits_value(d))
        }
    } else {
        None
    }
}

/// The integer that `b` spells, where it lies within `lo ..= hi`.
pub open spec fn decimal_within(b: Seq<u8>, lo: int, hi: int) -> Option<int> {
    match decimal_of(b) {
        Some(v) => if lo <= v && v <= hi {
            Some(v)
        } else {
            None
        },
        None => None,
    }
}

proof fn lemma_digits_value_nonneg(d: Seq<u8>)
    requires
        all_digits(d),
    ensures
        digits_value(d) >= 0,
    decreases d.len(),
{
    if d.len() > 0 {
        lemma_digits_value_nonneg(d.drop_last());
    }
}

/// Reads the integer that `s` spells in base ten, strictly: an optional sign,
/// then digits only. `None` where `s` is no such text or its value falls
/// outside `lo ..= hi`.
pub fn parse_decimal(s: &str, lo: i64, hi: i64) -> (r: Option<i64>)
    ensures
        r matches Some(v) ==> decimal_within(s.spec_bytes(), lo as int, hi as int) == Some(
            v as int,
        ),
        r is None ==> decimal_within(s.spec_bytes(), lo as int, hi as int) is None,
{
    let b = s.as_bytes();
    let ghost bs = b@;
    let n = b.len();
    let negative = n > 0 && b[0] == 45u8;
    let signed = n > 0 && (b[0] == 45u8 || b[0] == 43u8);
    let start: usize = if signed { 1 } else { 0 };
    let ghost d = if signed { bs.drop_first() } else { bs };
    assert(d == (if bs.len() > 0 && (bs[0] == 45 || bs[0] == 43) {
        bs.drop_first()
    } else {
        bs
    }));
    if start >= n {
        return None;
    }
    let mut mag: u64 = 0;
    let mut too_big = false;
    let mut i: usize = start;
    while i < n
        invariant
            b@ == bs,
            n == bs.len(),
            start <= i <= n,
            d == bs.subrange(start as int, n as int),
            d == (if bs.len() > 0 && (bs[0] == 45 || bs[0] == 43) {
                bs.drop_first()
            } else {
                bs
            }),
            negative == (bs.len() > 0 && bs[0] == 45),
            bs == s.spec_bytes(),
            all_digits(d.subrange(0, i - start)),
            !too_big ==> mag as int == digits_value(d.subrange(0, i - start)),
            too_big ==> digits_value(d.subrange(0, i - start)) > u64::MAX,
        decreases n - i,
    {
        let c = b[i];
        if !(48u8 <= c && c <= 57u8) {
            proof {
                assert(d[i - start] == c);
                assert(!is_digit(d[i - start]));
                assert(!all_digits(d));
                assert(decimal_of(bs) is None);
            }
            return None;
        }
        let ghost prev = d.subrange(0, i - start);
        let ghost next = d.subrange(0, i - start + 1);
        proof {
            assert(next.drop_last() =~= prev);
            assert(next.last() == c);
            lemma_digits_value_nonneg(prev);
        }
        if !too_big {
            match mag.checked_mul(10) {
                Some(m) => match m.checked_add((c - 48u8) as u64) {
                    Some(v) => {
                        mag = v;
                    },
                    None => {
                        too_big = true;
                    },
                },
                None => {
                    too_big = true;
                },
            }
        }
        i = i + 1;
    }
    proof {
        assert(d.subrange(0, n - start) =~= d);
    }
    if too_big {
        return None;
    }
    let value: i64 = if negative {
        if mag > 9223372036854775808u64 {
            return None;
        } else if mag == 9223372036854775808u64 {
            i64::MIN
        } else {
            -(mag as i64)
        }
    } else {
        if mag > 9223372036854775807u64 {
            return None;
        }
        mag as i64
    };
    if value < lo || value > hi {
        return None;
    }
    Some(value)
}

} // verus!
