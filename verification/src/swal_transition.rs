use vstd::prelude::*;
use vstd::string::StrSliceExecFns;

verus! {

/// Whether a character is a decimal digit.
pub open spec fn spec_is_digit(c: char) -> bool {
    48 <= c as int && c as int <= 57
}

/// The numeric value of a decimal digit character.
pub open spec fn spec_digit_val(c: char) -> int {
    c as int - 48
}

/// Whether every character of the sequence is a decimal digit.
pub open spec fn spec_all_digits(s: Seq<char>) -> bool {
    forall|i: int| 0 <= i < s.len() ==> spec_is_digit(#[trigger] s[i])
}

/// The value of a sequence of decimal digits, most significant first.
pub open spec fn spec_digits_val(s: Seq<char>) -> int
    decreases s.len(),
{
    if s.len() == 0 {
        0
    } else {
        spec_digits_val(s.drop_last()) * 10 + spec_digit_val(s.last())
    }
}

/// The contribution of the fractional digits of a seconds value to its
/// value in milliseconds; digits beyond the third stand for less than a
/// millisecond and are dropped.
pub open spec fn spec_frac_millis(s: Seq<char>) -> int {
    (if s.len() > 0 {
        100 * spec_digit_val(s[0])
    } else {
        0
    }) + (if s.len() > 1 {
        10 * spec_digit_val(s[1])
    } else {
        0
    }) + (if s.len() > 2 {
        spec_digit_val(s[2])
    } else {
        0
    })
}

/// The position of the first '.' at or after `i`, or the length of the
/// sequence if there is none.
pub open spec fn spec_first_dot(s: Seq<char>, i: int) -> int
    decreases s.len() - i,
{
    if i < 0 || i >= s.len() {
        s.len() as int
    } else if s[i] == '.' {
        i
    } else {
        spec_first_dot(s, i + 1)
    }
}

/// The integer digits of a CSS seconds string (everything before the
/// first '.', with the trailing unit already removed).
pub open spec fn spec_int_part(num: Seq<char>) -> Seq<char> {
    num.take(spec_first_dot(num, 0))
}

/// The fractional digits of a CSS seconds string (everything after the
/// first '.', with the trailing unit already removed).
pub open spec fn spec_frac_part(num: Seq<char>) -> Seq<char> {
    if spec_first_dot(num, 0) < num.len() {
        num.subrange(spec_first_dot(num, 0) + 1, num.len() as int)
    } else {
        Seq::empty()
    }
}

/// Whether a string is a well-formed CSS seconds value as a computed
/// style reports it: a non-negative decimal number — digits with at most
/// one decimal point and at least one digit — followed by the unit 's'.
pub open spec fn spec_css_seconds_wf(s: Seq<char>) -> bool {
    &&& s.len() >= 2
    &&& s.last() == 's'
    &&& spec_all_digits(spec_int_part(s.drop_last()))
    &&& spec_all_digits(spec_frac_part(s.drop_last()))
    &&& spec_int_part(s.drop_last()).len() + spec_frac_part(s.drop_last()).len() > 0
}

/// The value of a well-formed CSS seconds string in milliseconds,
/// truncated below the millisecond.
pub open spec fn spec_css_millis(s: Seq<char>) -> int {
    spec_digits_val(spec_int_part(s.drop_last())) * 1000 + spec_frac_millis(
        spec_frac_part(s.drop_last()),
    )
}

/// What parsing a CSS transition-duration value yields: its length in
/// whole milliseconds, or nothing if the string is not a well-formed
/// seconds value or its value does not fit.
pub open spec fn spec_parse_css_seconds(s: Seq<char>) -> Option<u64> {
    if spec_css_seconds_wf(s) && spec_css_millis(s) <= u64::MAX {
        Some(spec_css_millis(s) as u64)
    } else {
        None
    }
}

/// The digit value of every well-formed digit sequence is non-negative.
proof fn lemma_digits_val_nonneg(s: Seq<char>)
    requires
        spec_all_digits(s),
    ensures
        spec_digits_val(s) >= 0,
    decreases s.len(),
{
    if s.len() > 0 {
        assert(spec_all_digits(s.drop_last()));
        lemma_digits_val_nonneg(s.drop_last());
    }
}

/// Parses a computed CSS time value such as "0.3s" into whole
/// milliseconds. Returns nothing when the string is not a plain decimal
/// seconds value or when its value does not fit into the result type.
pub fn parse_css_seconds(s: &str) -> (r: Option<u64>)
    ensures
        r == spec_parse_css_seconds(s@),
{
    let n = s.unicode_len();
    if n < 2 {
        return None;
    }
    if s.get_char(n - 1) != 's' {
        return None;
    }
    let m = n - 1;
    let ghost num = s@.drop_last();
    proof {
        assert(num.len() == m);
        assert(forall|j: int| 0 <= j < m ==> num[j] == s@[j]);
    }

    // Find the first decimal point among the numeric characters.
    let mut dot: usize = m;
    let mut i: usize = 0;
    while i < m
        invariant
            i <= m,
            m < n == s@.len(),
            num == s@.drop_last(),
            num.len() == m,
            dot == m || (dot < i && dot as int == spec_first_dot(num, 0)),
            dot == m ==> spec_first_dot(num, i as int) == spec_first_dot(num, 0),
        decreases m - i,
    {
        let c = s.get_char(i);
        proof {
            assert(num[i as int] == s@[i as int]);
        }
        if dot == m {
            if c == '.' {
                proof {
                    assert(spec_first_dot(num, i as int) == i as int);
                }
                dot = i;
            } else {
                proof {
                    assert(spec_first_dot(num, i as int) == spec_first_dot(num, i + 1 as int));
                }
            }
        }
        i = i + 1;
    }
    proof {
        assert(spec_first_dot(num, m as int) == m as int);
        assert(dot as int == spec_first_dot(num, 0));
    }
    let ghost ip = spec_int_part(num);
    let ghost fp = spec_frac_part(num);
    proof {
        assert(ip.len() == dot as int);
        assert(forall|j: int| 0 <= j < ip.len() ==> ip[j] == num[j]);
    }

    if dot == m && m == 0 {
        // No numeric characters at all.
        return None;
    }
    if dot < m && m == dot + 1 && dot == 0 {
        // A lone decimal point.
        proof {
            assert(ip.len() == 0 && fp.len() == 0);
        }
        return None;
    }

    // Accumulate the integer part, tracking whether its value has already
    // outgrown the result type.
    let mut acc: u64 = 0;
    let mut over: bool = false;
    i = 0;
    while i < dot
        invariant
            i <= dot,
            dot <= m,
            m < n == s@.len(),
            num == s@.drop_last(),
            num.len() == m,
            ip == spec_int_part(num),
            ip.len() == dot as int,
            forall|j: int| 0 <= j < ip.len() ==> ip[j] == num[j],
            spec_all_digits(ip.take(i as int)),
            !over ==> acc as int == spec_digits_val(ip.take(i as int)),
            over ==> spec_digits_val(ip.take(i as int)) > u64::MAX as int,
        decreases dot - i,
    {
        let c = s.get_char(i);
        proof {
            assert(num[i as int] == s@[i as int]);
            assert(ip[i as int] == num[i as int]);
        }
        let u = c as u32;
        if u < 48 || u > 57 {
            proof {
                assert(!spec_is_digit(ip[i as int]));
            }
            return None;
        }
        let d: u64 = (u - 48) as u64;
        proof {
            assert(ip.take(i + 1 as int).drop_last() =~= ip.take(i as int));
            assert(ip.take(i + 1 as int).last() == ip[i as int]);
            assert(spec_digits_val(ip.take(i + 1 as int)) == spec_digits_val(ip.take(i as int))
                * 10 + spec_digit_val(ip[i as int]));
        }
        if over {
            proof {
                assert(spec_digits_val(ip.take(i + 1 as int)) > u64::MAX as int);
            }
        } else if acc > (u64::MAX - d) / 10 {
            proof {
                let t = u64::MAX as int;
                let q = (t - d) / 10;
                assert(q * 10 + 10 > t - d) by (nonlinear_arith)
                    requires
                        q == (t - d) / 10 && 0 <= d <= 9 && t == u64::MAX as int,
                ;
                assert(acc as int >= q + 1);
                assert(acc as int * 10 >= (q + 1) * 10) by (nonlinear_arith)
                    requires
                        acc as int >= q + 1,
                ;
                assert(spec_digits_val(ip.take(i + 1 as int)) > t);
            }
            over = true;
        } else {
            proof {
                let t = u64::MAX as int;
                let q = (t - d) / 10;
                assert(q * 10 <= t - d) by (nonlinear_arith)
                    requires
                        q == (t - d) / 10 && 0 <= d <= 9 && t == u64::MAX as int,
                ;
                assert(acc as int <= q);
                assert(acc as int * 10 <= q * 10) by (nonlinear_arith)
                    requires
                        acc as int <= q,
                ;
            }
            acc = acc * 10 + d;
        }
        i = i + 1;
    }
    proof {
        assert(ip.take(dot as int) =~= ip);
    }

    // Accumulate the fractional part: the first three digits weigh in at
    // the millisecond scale, later ones are dropped, but every character
    // must still be a digit.
    let fstart = if dot < m {
        dot + 1
    } else {
        m
    };
    proof {
        if dot < m {
            assert(fp.len() == m - dot - 1);
            assert(forall|j: int| 0 <= j < fp.len() ==> fp[j] == num[j + dot + 1]);
        } else {
            assert(fp.len() == 0);
        }
    }
    let mut f: u64 = 0;
    let mut j: usize = 0;
    while fstart + j < m
        invariant
            fstart as int == (if dot < m {
                dot + 1
            } else {
                m as int
            }),
            dot <= m,
            m < n == s@.len(),
            num == s@.drop_last(),
            num.len() == m,
            fp == spec_frac_part(num),
            dot as int == spec_first_dot(num, 0),
            fp.len() == (if dot < m {
                m - dot - 1
            } else {
                0
            }),
            forall|k: int| 0 <= k < fp.len() ==> fp[k] == num[k + dot + 1],
            j <= fp.len(),
            spec_all_digits(fp.take(j as int)),
            f as int == spec_frac_millis(fp.take(j as int)),
            f <= 999,
        decreases m - fstart - j,
    {
        let c = s.get_char(fstart + j);
        proof {
            assert(num[fstart + j as int] == s@[fstart + j as int]);
            assert(fp[j as int] == num[j + dot + 1]);
        }
        let u = c as u32;
        if u < 48 || u > 57 {
            proof {
                assert(!spec_is_digit(fp[j as int]));
            }
            return None;
        }
        let d: u64 = (u - 48) as u64;
        proof {
            assert(fp.take(j + 1 as int)[j as int] == fp[j as int]);
            assert(forall|k: int| 0 <= k < j ==> fp.take(j + 1 as int)[k] == fp.take(j as int)[k]);
        }
        if j == 0 {
            f = 100 * d;
        } else if j == 1 {
            f = f + 10 * d;
        } else if j == 2 {
            f = f + d;
        }
        j = j + 1;
    }
    proof {
        assert(fp.take(fp.len() as int) =~= fp);
        assert(spec_css_seconds_wf(s@));
        lemma_digits_val_nonneg(ip);
    }

    // Combine, watching for the scaled integer part outgrowing the result
    // type.
    if over {
        proof {
            assert(spec_digits_val(ip) * 1000 >= spec_digits_val(ip)) by (nonlinear_arith)
                requires
                    spec_digits_val(ip) > 0,
            ;
        }
        return None;
    }
    if acc > (u64::MAX - f) / 1000 {
        proof {
            let t = u64::MAX as int;
            let q = (t - f) / 1000;
            assert(q * 1000 + 1000 > t - f) by (nonlinear_arith)
                requires
                    q == (t - f) / 1000 && 0 <= f <= 999 && t == u64::MAX as int,
            ;
            assert(acc as int * 1000 >= (q + 1) * 1000) by (nonlinear_arith)
                requires
                    acc as int >= q + 1,
            ;
        }
        return None;
    }
    proof {
        let t = u64::MAX as int;
        let q = (t - f) / 1000;
        assert(q * 1000 <= t - f) by (nonlinear_arith)
            requires
                q == (t - f) / 1000 && 0 <= f <= 999 && t == u64::MAX as int,
        ;
        assert(acc as int * 1000 <= q * 1000) by (nonlinear_arith)
            requires
                acc as int <= q,
        ;
    }
    Some(acc * 1000 + f)
}

} // verus!
