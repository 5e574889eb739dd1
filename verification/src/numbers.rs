//! Decimal integers in text: reading them as `str::parse` does for the integer
//! types, and writing an unsigned integer as `to_string` does.
use vstd::prelude::*;

verus! {

pub open spec fn is_ascii_digit(c: char) -> bool {
    '0' <= c && c <= '9'
}

pub open spec fn all_digits(s: Seq<char>) -> bool {
    forall|i: int| 0 <= i < s.len() ==> is_ascii_digit(#[trigger] s[i])
}

pub open spec fn digit_value(c: char) -> int {
    (c as int) - ('0' as int)
}

/// The number that a sequence of decimal digits denotes.
pub open spec fn digits_value(s: Seq<char>) -> int
    decreases s.len(),
{
    if s.len() == 0 {
        0
    } else {
        digits_value(s.drop_last()) * 10 + digit_value(s.last())
    }
}

/// What `str::parse` reads into an unsigned integer, before the range check:
/// an optional `+` followed by at least one ASCII digit.
pub open spec fn unsigned_decimal(s: Seq<char>) -> Option<int> {
    let body = if s.len() > 0 && s[0] == '+' {
        s.drop_first()
    } else {
        s
    };
    if body.len() > 0 && all_digits(body) {
        Some(digits_value(body))
    } else {
        None
    }
}

/// What `str::parse` reads into a signed integer, before the range check:
/// an optional `+` or `-` followed by at least one ASCII digit.
pub open spec fn signed_decimal(s: Seq<char>) -> Option<int> {
    if s.len() > 0 && s[0] == '-' {
        let body = s.drop_first();
        if body.len() > 0 && all_digits(body) {
            Some(-digits_value(body))
        } else {
            None
        }
    } else {
        unsigned_decimal(s)
    }
}

/// The value of `v` when it lies in `lo..=hi`.
pub open spec fn in_range(v: Option<int>, lo: int, hi: int) -> Option<int> {
    match v {
        Some(x) if lo <= x <= hi => Some(x),
        _ => None,
    }
}

proof fn lemma_digits_value_nonneg(s: Seq<char>)
    requires
        all_digits(s),
    ensures
        digits_value(s) >= 0,
    decreases s.len(),
{
    if s.len() > 0 {
        lemma_digits_value_nonneg(s.drop_last());
    }
}

proof fn lemma_digits_value_grows(s: Seq<char>, j: int, k: int)
    requires
        all_digits(s),
        0 <= j <= k <= s.len(),
    ensures
        digits_value(s.take(j)) <= digits_value(s.take(k)),
    decreases k - j,
{
    if j < k {
        lemma_digits_value_grows(s, j, k - 1);
        assert(s.take(k).drop_last() =~= s.take(k - 1));
        lemma_digits_value_nonneg(s.take(k - 1));
    }
}

/// Reads the digits `s[start..]` as a `u64`; `None` when a character is not a
/// digit or the value exceeds `u64::MAX`.
fn parse_digits(s: &[char], start: usize) -> (r: Option<u64>)
    requires
        start <= s@.len(),
    ensures
        r == (if all_digits(s@.skip(start as int)) && digits_value(s@.skip(start as int))
            <= u64::MAX {
            Some(digits_value(s@.skip(start as int)) as u64)
        } else {
            None
        }),
{
    let ghost body = s@.skip(start as int);
    let n = s.len();
    let mut value: u64 = 0;
    let mut i: usize = start;
    assert(body.take(0) =~= Seq::<char>::empty());
    while i < n
        invariant
            start <= i <= n,
            n == s@.len(),
            body == s@.skip(start as int),
            all_digits(body.take(i - start)),
            value as int == digits_value(body.take(i - start)),
        decreases n - i,
    {
        let c = s[i];
        assert(body[i - start] == c);
        if !('0' <= c && c <= '9') {
            assert(!is_ascii_digit(body[i - start]));
            return None;
        }
        let d = ((c as u32) - ('0' as u32)) as u64;
        assert(body.take(i - start + 1).drop_last() =~= body.take(i - start));
        assert(all_digits(body.take(i - start + 1)));
        match value.checked_mul(10) {
            Some(m) => match m.checked_add(d) {
                Some(v) => {
                    value = v;
                },
                None => {
                    proof {
                        assert(digits_value(body.take(i - start + 1)) > u64::MAX);
                        if all_digits(body) {
                            lemma_digits_value_grows(body, i - start + 1, body.len() as int);
                            assert(body.take(body.len() as int) =~= body);
                        }
                    }
                    return None;
                },
            },
            None => {
                proof {
                    assert(digits_value(body.take(i - start + 1)) > u64::MAX);
                    if all_digits(body) {
                        lemma_digits_value_grows(body, i - start + 1, body.len() as int);
                        assert(body.take(body.len() as int) =~= body);
                    }
                }
                return None;
            },
        }
        i = i + 1;
    }
    assert(body.take(n - start) =~= body);
    Some(value)
}

/// Reads `s` as a `u64`, as `str::parse::<u64>` does.
pub fn parse_u64_chars(s: &[char]) -> (r: Option<u64>)
    ensures
        r == (match in_range(unsigned_decimal(s@), 0, u64::MAX as int) {
            Some(v) => Some(v as u64),
            None => None,
        }),
{
    let start: usize = if s.len() > 0 && s[0] == '+' {
        1
    } else {
        0
    };
    assert(s@.skip(start as int) =~= (if s@.len() > 0 && s@[0] == '+' {
        s@.drop_first()
    } else {
        s@
    }));
    if start >= s.len() {
        return None;
    }
    let r = parse_digits(s, start);
    proof {
        if all_digits(s@.skip(start as int)) {
            lemma_digits_value_nonneg(s@.skip(start as int));
        }
    }
    r
}

/// Reads `s` as a `u32`, as `str::parse::<u32>` does.
pub fn parse_u32_chars(s: &[char]) -> (r: Option<u32>)
    ensures
        r == (match in_range(unsigned_decimal(s@), 0, u32::MAX as int) {
            Some(v) => Some(v as u32),
            None => None,
        }),
{
    match parse_u64_chars(s) {
        Some(v) => if v <= (u32::MAX as u64) {
            Some(v as u32)
        } else {
            None
        },
        None => {
            proof {
                match unsigned_decimal(s@) {
                    Some(v) => {
                        let body = if s@.len() > 0 && s@[0] == '+' {
                            s@.drop_first()
                        } else {
                            s@
                        };
                        lemma_digits_value_nonneg(body);
                    },
                    None => {},
                }
            }
            None
        },
    }
}

/// Reads `s` as an `i64`, as `str::parse::<i64>` does.
pub fn parse_i64_chars(s: &[char]) -> (r: Option<i64>)
    ensures
        r == (match in_range(signed_decimal(s@), i64::MIN as int, i64::MAX as int) {
            Some(v) => Some(v as i64),
            None => None,
        }),
{
    if s.len() > 0 && s[0] == '-' {
        if s.len() == 1 {
            return None;
        }
        let m = parse_digits(s, 1);
        assert(s@.skip(1) =~= s@.drop_first());
        let ghost body = s@.drop_first();
        assert(signed_decimal(s@) == (if all_digits(body) {
            Some(-digits_value(body))
        } else {
            None::<int>
        }));
        match m {
            Some(v) => {
                proof {
                    lemma_digits_value_nonneg(body);
                }
                assert(v as int == digits_value(body));
                if v <= 9223372036854775807u64 {
                    let x = v as i64;
                    assert(-x == -digits_value(body));
                    Some(-x)
                } else if v == 9223372036854775808u64 {
                    assert(i64::MIN == -digits_value(body));
                    Some(i64::MIN)
                } else {
                    None
                }
            },
            None => None,
        }
    } else {
        match parse_u64_chars(s) {
            Some(v) => if v <= (i64::MAX as u64) {
                Some(v as i64)
            } else {
                None
            },
            None => {
                proof {
                    match unsigned_decimal(s@) {
                        Some(v) => {
                            let body = if s@.len() > 0 && s@[0] == '+' {
                                s@.drop_first()
                            } else {
                                s@
                            };
                            lemma_digits_value_nonneg(body);
                        },
                        None => {},
                    }
                }
                None
            },
        }
    }
}

/// The decimal digit for `d < 10`.
pub open spec fn digit_char(d: nat) -> char {
    ((d + ('0' as nat)) as u32) as char
}

/// The decimal representation of `n`, without leading zeros.
pub open spec fn decimal(n: nat) -> Seq<char>
    decreases n,
{
    if n < 10 {
        seq![digit_char(n)]
    } else {
        decimal(n / 10) + seq![digit_char(n % 10)]
    }
}

/// The decimal representation of `n`, as `u64::to_string` writes it.
pub fn decimal_chars(n: u64) -> (r: Vec<char>)
    ensures
        r@ == decimal(n as nat),
    decreases n,
{
    let d = (n % 10) as u32;
    let c = char_from_digit(d);
    if n < 10 {
        let mut v: Vec<char> = Vec::new();
        v.push(c);
        v
    } else {
        let mut v = decimal_chars(n / 10);
        v.push(c);
        v
    }
}

fn char_from_digit(d: u32) -> (c: char)
    requires
        d < 10,
    ensures
        c == digit_char(d as nat),
{
    match d {
        0 => '0',
        1 => '1',
        2 => '2',
        3 => '3',
        4 => '4',
        5 => '5',
        6 => '6',
        7 => '7',
        8 => '8',
        _ => '9',
    }
}

/// The decimal representation of `n` is a non-empty run of digits, without a
/// sign, that denotes `n`.
pub proof fn lemma_decimal(n: nat)
    ensures
        decimal(n).len() > 0,
        all_digits(decimal(n)),
        digits_value(decimal(n)) == n,
        unsigned_decimal(decimal(n)) == Some(n as int),
    decreases n,
{
    let d = decimal(n);
    if n < 10 {
        assert(is_ascii_digit(digit_char(n)));
        assert(d.drop_last() =~= Seq::<char>::empty());
        assert(digit_value(digit_char(n)) == n);
        assert(digits_value(d) == digits_value(d.drop_last()) * 10 + digit_value(d.last()));
        assert(digits_value(d) == n);
    } else {
        lemma_decimal(n / 10);
        let k = (n % 10) as nat;
        assert(d.drop_last() =~= decimal(n / 10));
        assert(d.last() == digit_char(k));
        assert(digit_value(digit_char(k)) == k);
        assert(n == (n / 10) * 10 + k);
        assert(digits_value(d) == digits_value(d.drop_last()) * 10 + digit_value(d.last()));
        assert(digits_value(d) == n);
        assert forall|i: int| 0 <= i < d.len() implies is_ascii_digit(#[trigger] d[i]) by {
            if i < d.len() - 1 {
                assert(d[i] == decimal(n / 10)[i]);
            }
        }
    }
    assert(d[0] != '+');
}

} // verus!
