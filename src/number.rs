//! Reading a signed integer written in a given radix.
use vstd::prelude::*;

verus! {

/// The value of `c` as a digit in `radix`: `0`-`9`, then `a`-`z` or `A`-`Z`
/// for ten and up; `None` for any other character or a value not below `radix`.
pub open spec fn digit_of(c: char, radix: u32) -> Option<nat> {
    let u = c as u32;
    let v: int = if '0' as u32 <= u <= '9' as u32 {
        u - '0' as u32
    } else if 'a' as u32 <= u <= 'z' as u32 {
        u - 'a' as u32 + 10
    } else if 'A' as u32 <= u <= 'Z' as u32 {
        u - 'A' as u32 + 10
    } else {
        36
    };
    if v < radix {
        Some(v as nat)
    } else {
        None
    }
}

/// Every character of `s` is a digit in `radix`.
pub open spec fn all_digits(s: Seq<char>, radix: u32) -> bool {
    forall|i: int| 0 <= i < s.len() ==> (#[trigger] digit_of(s[i], radix)) is Some
}

/// The number that the digits `s` write in `radix`, most significant first.
pub open spec fn digits_value(s: Seq<char>, radix: u32) -> int
    decreases s.len(),
{
    if s.len() == 0 {
        0
    } else {
        digits_value(s.drop_last(), radix) * radix + match digit_of(s.last(), radix) {
            Some(d) => d as int,
            None => 0,
        }
    }
}

/// The `i128` that `s` writes in `radix`: an optional `+` or `-`, then one or
/// more digits, with a value in the range of `i128`. `None` for anything else.
pub open spec fn parse_integer(s: Seq<char>, radix: u32) -> Option<i128> {
    let signed = s.len() > 0 && (s[0] == '-' || s[0] == '+');
    let body = if signed {
        s.drop_first()
    } else {
        s
    };
    let v = if s.len() > 0 && s[0] == '-' {
        -digits_value(body, radix)
    } else {
        digits_value(body, radix)
    };
    if body.len() > 0 && all_digits(body, radix) && i128::MIN <= v <= i128::MAX {
        Some(v as i128)
    } else {
        None
    }
}

proof fn lemma_digits_value_nonneg(s: Seq<char>, radix: u32)
    requires
        radix >= 2,
    ensures
        digits_value(s, radix) >= 0,
    decreases s.len(),
{
    if s.len() > 0 {
        lemma_digits_value_nonneg(s.drop_last(), radix);
        let p = digits_value(s.drop_last(), radix);
        assert(p * radix >= 0) by (nonlinear_arith)
            requires
                p >= 0,
                radix >= 2,
        ;
    }
}

/// A prefix of a run of digits never writes a larger number than the whole run.
proof fn lemma_prefix_value_le(s: Seq<char>, i: int, radix: u32)
    requires
        radix >= 2,
        0 <= i <= s.len(),
    ensures
        digits_value(s.take(i), radix) <= digits_value(s, radix),
    decreases s.len(),
{
    if i == s.len() {
        assert(s.take(i) =~= s);
    } else {
        let t = s.drop_last();
        lemma_prefix_value_le(t, i, radix);
        assert(t.take(i) =~= s.take(i));
        lemma_digits_value_nonneg(t, radix);
        let p = digits_value(t, radix);
        assert(p * radix >= p) by (nonlinear_arith)
            requires
                p >= 0,
                radix >= 2,
        ;
    }
}

/// The value of `c` as a digit in `radix`.
pub fn digit_value(c: char, radix: u32) -> (r: Option<u32>)
    requires
        2 <= radix <= 36,
    ensures
        r == match digit_of(c, radix) {
            Some(d) => Some(d as u32),
            None => None::<u32>,
        },
{
    let u = c as u32;
    let v: u32 = if '0' as u32 <= u && u <= '9' as u32 {
        u - '0' as u32
    } else if 'a' as u32 <= u && u <= 'z' as u32 {
        u - 'a' as u32 + 10
    } else if 'A' as u32 <= u && u <= 'Z' as u32 {
        u - 'A' as u32 + 10
    } else {
        36
    };
    if v < radix {
        Some(v)
    } else {
        None
    }
}

/// Reads the `i128` that the characters `s` write in `radix`.
pub fn parse_integer_chars(s: &Vec<char>, radix: u32) -> (r: Option<i128>)
    requires
        2 <= radix <= 36,
    ensures
        r == parse_integer(s@, radix),
{
    let n = s.len();
    let neg = n > 0 && s[0] == '-';
    let start: usize = if n > 0 && (s[0] == '-' || s[0] == '+') {
        1
    } else {
        0
    };
    let ghost body = s@.subrange(start as int, n as int);
    assert(body =~= if start == 1 {
        s@.drop_first()
    } else {
        s@
    });
    if start == n {
        return None;
    }
    let mut acc: i128 = 0;
    let mut k: usize = start;
    while k < n
        invariant
            start <= k <= n == s.len(),
            body == s@.subrange(start as int, n as int),
            body == (if n > 0 && (s@[0] == '-' || s@[0] == '+') {
                s@.drop_first()
            } else {
                s@
            }),
            all_digits(body.take(k - start), radix),
            acc == (if neg {
                -digits_value(body.take(k - start), radix)
            } else {
                digits_value(body.take(k - start), radix)
            }),
            neg == (n > 0 && s@[0] == '-'),
            2 <= radix <= 36,
        decreases n - k,
    {
        let ghost j: int = k - start;
        let ghost pre = body.take(j);
        let ghost next = body.take(j + 1);
        assert(next.drop_last() =~= pre);
        assert(next.last() == s@[k as int]);
        match digit_value(s[k], radix) {
            None => {
                assert(body[j] == s@[k as int]);
                assert(digit_of(body[j], radix) is None);
                assert(!all_digits(body, radix));
                return None;
            },
            Some(d) => {
                assert(digits_value(next, radix) == digits_value(pre, radix) * radix + d);
                let step = match acc.checked_mul(radix as i128) {
                    Some(m) => if neg {
                        m.checked_sub(d as i128)
                    } else {
                        m.checked_add(d as i128)
                    },
                    None => None,
                };
                match step {
                    Some(a) => {
                        proof {
                            let p = digits_value(pre, radix);
                            assert((-p) * radix == -(p * radix)) by (nonlinear_arith);
                        }
                        acc = a;
                        assert(all_digits(next, radix)) by {
                            assert forall|i: int| 0 <= i < next.len() implies (#[trigger] digit_of(
                                next[i],
                                radix,
                            )) is Some by {
                                if i < j {
                                    assert(next[i] == pre[i]);
                                }
                            }
                        }
                    },
                    None => {
                        proof {
                            lemma_digits_value_nonneg(pre, radix);
                            let p = digits_value(pre, radix);
                            let v = digits_value(next, radix);
                            assert(p * radix >= 0) by (nonlinear_arith)
                                requires
                                    p >= 0,
                                    radix >= 2,
                            ;
                            assert((-p) * radix == -(p * radix)) by (nonlinear_arith);
                            if neg {
                                assert(-v < i128::MIN);
                            } else {
                                assert(v > i128::MAX);
                            }
                            if all_digits(body, radix) {
                                lemma_prefix_value_le(body, j + 1, radix);
                                assert(body.len() > 0);
                            }
                            assert(parse_integer(s@, radix) is None);
                        }
                        return None;
                    },
                }
            },
        }
        k = k + 1;
    }
    assert(body.take(n - start) =~= body);
    Some(acc)
}

} // verus!
