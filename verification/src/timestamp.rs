//! Session creation timestamps: the provider reports epoch seconds in
//! decimal; they are parsed exactly as a 64-bit signed count and rendered
//! in local time, with an explicit placeholder for anything malformed.

use vstd::prelude::*;
use vstd::string::StrSliceExecFns;

verus! {

/// Decimal digit.
pub open spec fn is_ascii_digit_char(c: char) -> bool {
    ('0' as u32) <= (c as u32) <= ('9' as u32)
}

/// Every character of `s` is a decimal digit.
pub open spec fn all_ascii_digits(s: Seq<char>) -> bool {
    forall|t: int| 0 <= t < s.len() ==> is_ascii_digit_char(s[t])
}

/// Numeric value of a sequence of decimal digits, most significant first.
pub open spec fn digits_value(s: Seq<char>) -> int
    decreases s.len(),
{
    if s.len() == 0 {
        0
    } else {
        digits_value(s.drop_last()) * 10 + ((s.last() as u32) - ('0' as u32))
    }
}

/// What parsing a decimal 64-bit count means: an optional sign, then at
/// least one digit and nothing else, and a value within the type's range.
pub open spec fn parse_i64_of(s: Seq<char>) -> Option<int> {
    let negative = s.len() > 0 && s[0] == '-';
    let mag = if s.len() > 0 && (s[0] == '-' || s[0] == '+') {
        s.drop_first()
    } else {
        s
    };
    if mag.len() == 0 || !all_ascii_digits(mag) {
        None
    } else {
        let v = if negative {
            -digits_value(mag)
        } else {
            digits_value(mag)
        };
        if i64::MIN <= v <= i64::MAX {
            Some(v)
        } else {
            None
        }
    }
}

proof fn lemma_digits_value_nonneg(s: Seq<char>)
    requires
        all_ascii_digits(s),
    ensures
        digits_value(s) >= 0,
    decreases s.len(),
{
    if s.len() > 0 {
        assert(all_ascii_digits(s.drop_last()));
        lemma_digits_value_nonneg(s.drop_last());
    }
}

/// Appending digits never shrinks the value: the value of a prefix bounds
/// the value of the whole from below.
proof fn lemma_digits_value_prefix(s: Seq<char>, k: int)
    requires
        all_ascii_digits(s),
        0 <= k <= s.len(),
    ensures
        digits_value(s.take(k)) <= digits_value(s),
    decreases s.len() - k,
{
    if k < s.len() {
        assert(all_ascii_digits(s.take(k + 1)));
        assert(s.take(k + 1).drop_last() =~= s.take(k));
        lemma_digits_value_nonneg(s.take(k));
        lemma_digits_value_prefix(s, k + 1);
    } else {
        assert(s.take(k) =~= s);
    }
}

/// Parse a decimal 64-bit signed count, with exactly the accepted inputs
/// and values of `parse_i64_of`.
pub fn parse_epoch_seconds(s: &str) -> (r: Option<i64>)
    ensures
        match r {
            Some(v) => parse_i64_of(s@) == Some(v as int),
            None => parse_i64_of(s@) is None,
        },
{
    let n = s.unicode_len();
    if n == 0 {
        return None;
    }
    let c0 = s.get_char(0);
    let negative = c0 == '-';
    let signed = negative || c0 == '+';
    let start: usize = if signed {
        1
    } else {
        0
    };
    let ghost mag = if signed {
        s@.drop_first()
    } else {
        s@
    };
    proof {
        assert(mag.len() == n - start);
        assert(forall|t: int| 0 <= t < mag.len() ==> mag[t] == s@[t + start]);
    }
    if start == n {
        return None;
    }
    let limit_rem: u32 = if negative {
        8
    } else {
        7
    };
    let ghost bound: int = if negative {
        9223372036854775808
    } else {
        9223372036854775807
    };
    let mut acc: u64 = 0;
    let mut i = start;
    while i < n
        invariant
            start <= i <= n,
            0 < n == s@.len(),
            start == 0 || start == 1,
            signed == (start == 1),
            negative == (s@[0] == '-'),
            signed == (s@[0] == '-' || s@[0] == '+'),
            mag == (if signed {
                s@.drop_first()
            } else {
                s@
            }),
            limit_rem == (if negative {
                8u32
            } else {
                7u32
            }),
            bound == (if negative {
                9223372036854775808int
            } else {
                9223372036854775807int
            }),
            forall|t: int| start <= t < i ==> is_ascii_digit_char(s@[t]),
            acc == digits_value(s@.subrange(start as int, i as int)),
            acc <= bound,
        decreases n - i,
    {
        let c = s.get_char(i);
        let d32 = c as u32;
        let ghost pre = s@.subrange(start as int, i as int);
        let ghost pre2 = s@.subrange(start as int, i + 1);
        proof {
            assert(pre2.drop_last() =~= pre);
            assert(pre2.last() == s@[i as int]);
            assert(forall|t: int| 0 <= t < mag.len() ==> mag[t] == s@[t + start]);
        }
        if d32 < 48 || d32 > 57 {
            proof {
                assert(mag[i - start] == s@[i as int]);
                assert(!is_ascii_digit_char(mag[i - start]));
            }
            return None;
        }
        let d = d32 - 48;
        if acc > 922337203685477580u64 || (acc == 922337203685477580u64 && d > limit_rem) {
            proof {
                assert(digits_value(pre2) == acc * 10 + d);
                assert(digits_value(pre2) > bound);
                if all_ascii_digits(mag) {
                    assert(pre2 =~= mag.take(i + 1 - start));
                    lemma_digits_value_prefix(mag, i + 1 - start);
                    assert(digits_value(mag) > bound);
                }
            }
            return None;
        }
        acc = acc * 10 + (d as u64);
        proof {
            assert(digits_value(pre2) == digits_value(pre) * 10 + d);
        }
        i = i + 1;
    }
    proof {
        assert(s@.subrange(start as int, n as int) =~= mag);
        assert(forall|t: int| 0 <= t < mag.len() ==> mag[t] == s@[t + start]);
        assert(all_ascii_digits(mag));
        assert(acc == digits_value(mag));
    }
    if negative {
        if acc == 9223372036854775808u64 {
            Some(i64::MIN)
        } else {
            Some(-(acc as i64))
        }
    } else {
        Some(acc as i64)
    }
}

/// Relies on chrono: `DateTime::<Utc>::from_timestamp(epoch, 0)` returns a
/// date for every epoch whose day count fits chrono's calendar — in
/// particular all of 1970 through 9999 — and `None` outside that range;
/// `with_timezone(&chrono::Local)` and `format("%Y-%m-%d %H:%M:%S")` then
/// render it in the machine's local time zone. The text depends on the
/// environment, so its characters are not stated — except that this format
/// writes only digits and the `-`, ` `, `:` separators (a `-` sign at
/// most), so it never spells out the placeholder word.
#[verifier::external_body]
fn format_local_timestamp(epoch: i64) -> (r: Option<String>)
    ensures
        0 <= epoch < 253402300800i64 ==> r is Some,
        r matches Some(s) ==> s@ != "Invalid timestamp"@,
{
    match chrono::DateTime::<chrono::Utc>::from_timestamp(epoch, 0) {
        Some(dt) => Some(
            dt.with_timezone(&chrono::Local).format("%Y-%m-%d %H:%M:%S").to_string(),
        ),
        None => None,
    }
}

/// Display text for an optionally rendered timestamp: the rendered text
/// itself, or the explicit placeholder when there is none.
pub fn timestamp_display(formatted: Option<String>) -> (r: String)
    ensures
        r@ == match formatted {
            Some(s) => s@,
            None => "Invalid timestamp"@,
        },
{
    match formatted {
        Some(s) => s,
        None => "Invalid timestamp".to_owned(),
    }
}

/// Parse a session provider timestamp field — epoch seconds in decimal —
/// and render it for display in local time. A field that does not parse as
/// a 64-bit count, or an epoch the formatter cannot represent, renders as
/// the explicit placeholder rather than failing; a well-formed epoch from
/// 1970 through the year 9999 renders as the formatter's text, never as
/// the placeholder.
pub fn parse_tmux_timestamp(ts: &str) -> (r: String)
    ensures
        parse_i64_of(ts@) is None ==> r@ == "Invalid timestamp"@,
        parse_i64_of(ts@) matches Some(v) && 0 <= v < 253402300800 ==> r@ != "Invalid timestamp"@,
{
    match parse_epoch_seconds(ts) {
        Some(epoch) => timestamp_display(format_local_timestamp(epoch)),
        None => "Invalid timestamp".to_owned(),
    }
}

} // verus!
