use vstd::prelude::*;

verus! {

/// A length of time: whole seconds and the nanoseconds beyond them.
#[derive(Clone, Copy, Debug, PartialEq, Eq, Structural)]
pub struct TimeSpan {
    pub secs: u64,
    pub nanos: u32,
}

/// What the `humantime` crate reads `text` as, taken as a duration:
/// `Some((seconds, nanoseconds beyond them))`, or `None` where it refuses
/// the text.
pub uninterp spec fn humantime_duration(text: Seq<char>) -> Option<(u64, u32)>;

/// The span that `text` stands for in `humantime`'s notation (such as
/// `2h 37min` or `32ms`), if any.
pub open spec fn span_of(text: Seq<char>) -> Option<TimeSpan> {
    match humantime_duration(text) {
        Some((secs, nanos)) => Some(TimeSpan { secs, nanos }),
        None => None,
    }
}

/// The number of ASCII digits `0`..`9` in `text`.
pub open spec fn ascii_digits(text: Seq<char>) -> nat
    decreases text.len(),
{
    if text.len() == 0 {
        0
    } else {
        ascii_digits(text.drop_last()) + if '0' <= text.last() && text.last() <= '9' {
            1nat
        } else {
            0nat
        }
    }
}

/// A character that `humantime`'s parser reads as part of a unit name.
pub open spec fn unit_letter(c: char) -> bool {
    ('a' <= c && c <= 'z') || ('A' <= c && c <= 'Z') || c == 'µ'
}

/// The letters of the units `ns`, `nsec`, `nanos`, `us`, `usec`, `µs`, `s`,
/// `sec` and `secs`; no unit longer than a second is spelt with them alone.
pub open spec fn sub_second_letter(c: char) -> bool {
    c == 'n' || c == 'a' || c == 'o' || c == 's' || c == 'e' || c == 'c' || c == 'u' || c == 'µ'
}

/// The letters above together with those of `ms`, `msec`, `millis`, `m`,
/// `min`, `mins`, `minute` and `minutes`; no unit longer than a minute is
/// spelt with them alone.
pub open spec fn sub_minute_letter(c: char) -> bool {
    sub_second_letter(c) || c == 'm' || c == 'i' || c == 'l' || c == 't'
}

/// Every unit letter of `text` is one of the sub-second letters.
pub open spec fn letters_sub_second(text: Seq<char>) -> bool {
    forall|i: int| 0 <= i < text.len() && unit_letter(text[i]) ==> sub_second_letter(text[i])
}

/// Every unit letter of `text` is one of the sub-minute letters.
pub open spec fn letters_sub_minute(text: Seq<char>) -> bool {
    forall|i: int| 0 <= i < text.len() && unit_letter(text[i]) ==> sub_minute_letter(text[i])
}

/// The texts on which `humantime`'s parser is sure to return: at most 11
/// digits whatever the units, at most 17 where no unit is longer than a
/// minute, at most 19 where no unit is longer than a second (see
/// `parse_humantime` for why).
pub open spec fn in_parser_range(text: Seq<char>) -> bool {
    ||| ascii_digits(text) <= 11
    ||| ascii_digits(text) <= 17 && letters_sub_minute(text)
    ||| ascii_digits(text) <= 19 && letters_sub_second(text)
}

/// The value of a run of ASCII digits, read in base ten.
pub open spec fn decimal_value(digits: Seq<char>) -> nat
    decreases digits.len(),
{
    if digits.len() == 0 {
        0
    } else {
        decimal_value(digits.drop_last()) * 10 + ((digits.last() as int) - ('0' as int)) as nat
    }
}

/// The seconds in one of `humantime`'s units of a second or longer, as its
/// documentation lists them (a month is 30.44 days, a year 365.25 days).
pub open spec fn unit_seconds(unit: Seq<char>) -> Option<nat> {
    if unit == "s"@ || unit == "sec"@ || unit == "secs"@ || unit == "second"@ || unit
        == "seconds"@ {
        Some(1)
    } else if unit == "m"@ || unit == "min"@ || unit == "mins"@ || unit == "minute"@ || unit
        == "minutes"@ {
        Some(60)
    } else if unit == "h"@ || unit == "hr"@ || unit == "hrs"@ || unit == "hour"@ || unit
        == "hours"@ {
        Some(3600)
    } else if unit == "d"@ || unit == "day"@ || unit == "days"@ {
        Some(86400)
    } else if unit == "w"@ || unit == "wk"@ || unit == "wks"@ || unit == "week"@ || unit
        == "weeks"@ {
        Some(604800)
    } else if unit == "M"@ || unit == "month"@ || unit == "months"@ {
        Some(2_630_016)
    } else if unit == "y"@ || unit == "yr"@ || unit == "yrs"@ || unit == "year"@ || unit
        == "years"@ {
        Some(31_557_600)
    } else {
        None
    }
}

/// `text` is a number of ASCII digits (its first `k` characters) followed
/// directly by one unit of a second or longer, such as `90s` or `12h`.
pub open spec fn number_and_unit(text: Seq<char>, k: int) -> bool {
    &&& 0 < k < text.len()
    &&& forall|i: int| 0 <= i < k ==> '0' <= #[trigger] text[i] && text[i] <= '9'
    &&& unit_seconds(text.skip(k)) is Some
}

/// The seconds that a number followed by a unit stands for: the number
/// times the unit's seconds.
pub open spec fn number_and_unit_seconds(text: Seq<char>, k: int) -> nat {
    decimal_value(text.take(k)) * unit_seconds(text.skip(k))->0
}

/// Parses `text` with `humantime::Duration`'s `FromStr` impl (which calls
/// `humantime::parse_duration`) and hands back the seconds and the
/// sub-second nanoseconds of the `std::time::Duration` inside.
/// Claimed: the result is `humantime_duration(text@)`, a function of the
/// text alone; its nanoseconds are below one billion, as
/// `Duration::subsec_nanos` documents; and a text that is one number
/// followed by one unit of a second or longer reads as that number times the
/// unit's seconds, with no nanoseconds, where that fits in a `u64`. (The
/// parser reads the digits, then the run of letters as the unit, looks the
/// unit up in `Unit::from_str`, multiplies with `checked_mul` and adds the
/// product to a zero duration.)
///
/// Why the `requires`: the parser's arithmetic is checked (an overflow is an
/// error, not a panic), except that each span ends in
/// `Duration::new(secs, nanos)` with `nanos` at most one billion, which
/// panics when that carries past `u64::MAX` seconds. A unit is a run of
/// unit letters, and an unknown unit is an error. Each span starts with its
/// integer part, a number of `k` digits, below `10^k`; with at most `D`
/// digits in all there are at most `D` spans and the sum of the `10^k` is at
/// most `10^D`. The span's seconds are at most its number times its unit,
/// plus less than one unit from a fractional part, plus at most 62 s carried
/// from nanoseconds. So the total stays below:
/// - `31_557_600 * (10^11 + 11) + 11 * 62` (a year, the longest unit, with
///   11 digits), about `3.2 * 10^18`;
/// - `60 * (10^17 + 17) + 17 * 62` (a minute, 17 digits), about `6 * 10^18`;
/// - `10^19 + 19 * 62` (a second, 19 digits);
/// all below `u64::MAX` (about `1.8 * 10^19`), so the parser returns.
#[verifier::external_body]
fn parse_humantime(text: &str) -> (r: Option<(u64, u32)>)
    requires
        in_parser_range(text@),
    ensures
        r == humantime_duration(text@),
        r matches Some((_, nanos)) ==> nanos < 1_000_000_000,
        forall|k: int|
            #[trigger] number_and_unit(text@, k) && number_and_unit_seconds(text@, k)
                <= u64::MAX ==> r == Some((number_and_unit_seconds(text@, k) as u64, 0u32)),
{
    match <humantime::Duration as std::str::FromStr>::from_str(text) {
        Ok(d) => Some((d.as_secs(), d.subsec_nanos())),
        Err(_) => None,
    }
}

impl TimeSpan {
    /// A span is normalised: its nanoseconds are below one second.
    pub open spec fn wf(self) -> bool {
        self.nanos < 1_000_000_000
    }

    /// Tells whether `text` lies in the range on which `TimeSpan::parse` may
    /// be called (see `in_parser_range`).
    pub fn fits_parser(text: &str) -> (r: bool)
        ensures
            r == in_parser_range(text@),
    {
        let n = text.unicode_len();
        let mut digits: usize = 0;
        let mut sub_second = true;
        let mut sub_minute = true;
        let mut i: usize = 0;
        while i < n
            invariant
                n == text@.len(),
                i <= n,
                digits <= i,
                digits == ascii_digits(text@.take(i as int)),
                sub_second == letters_sub_second(text@.take(i as int)),
                sub_minute == letters_sub_minute(text@.take(i as int)),
            decreases n - i,
        {
            let ghost before = text@.take(i as int);
            let ghost after = text@.take(i + 1);
            proof {
                assert(after.drop_last() =~= before);
                assert(after =~= before.push(text@[i as int]));
            }
            let c = text.get_char(i);
            if '0' <= c && c <= '9' {
                digits = digits + 1;
            }
            let letter = ('a' <= c && c <= 'z') || ('A' <= c && c <= 'Z') || c == 'µ';
            let second_letter = c == 'n' || c == 'a' || c == 'o' || c == 's' || c == 'e' || c
                == 'c' || c == 'u' || c == 'µ';
            let minute_letter = second_letter || c == 'm' || c == 'i' || c == 'l' || c == 't';
            proof {
                if sub_second && !(letter && !second_letter) {
                    assert forall|j: int|
                        0 <= j < after.len() && unit_letter(after[j]) implies sub_second_letter(
                        after[j],
                    ) by {
                        if j < before.len() {
                            assert(after[j] == before[j]);
                        }
                    }
                }
                if !sub_second {
                    let j = choose|j: int|
                        0 <= j < before.len() && unit_letter(before[j]) && !sub_second_letter(
                            before[j],
                        );
                    assert(after[j] == before[j]);
                }
                if letter && !second_letter {
                    assert(after[i as int] == c);
                }
                if sub_minute && !(letter && !minute_letter) {
                    assert forall|j: int|
                        0 <= j < after.len() && unit_letter(after[j]) implies sub_minute_letter(
                        after[j],
                    ) by {
                        if j < before.len() {
                            assert(after[j] == before[j]);
                        }
                    }
                }
                if !sub_minute {
                    let j = choose|j: int|
                        0 <= j < before.len() && unit_letter(before[j]) && !sub_minute_letter(
                            before[j],
                        );
                    assert(after[j] == before[j]);
                }
                if letter && !minute_letter {
                    assert(after[i as int] == c);
                }
            }
            if letter && !second_letter {
                sub_second = false;
            }
            if letter && !minute_letter {
                sub_minute = false;
            }
            i = i + 1;
        }
        assert(text@.take(n as int) =~= text@);
        digits <= 11 || (digits <= 17 && sub_minute) || (digits <= 19 && sub_second)
    }

    /// Reads a span written in `humantime`'s notation; `None` where that
    /// notation refuses the text. The text must lie in the parser's range
    /// (`in_parser_range`, tested by `fits_parser`).
    pub fn parse(text: &str) -> (r: Option<TimeSpan>)
        requires
            in_parser_range(text@),
        ensures
            r == span_of(text@),
            r matches Some(s) ==> s.wf(),
            forall|k: int|
                #[trigger] number_and_unit(text@, k) && number_and_unit_seconds(text@, k)
                    <= u64::MAX ==> r == Some(
                    TimeSpan { secs: number_and_unit_seconds(text@, k) as u64, nanos: 0 },
                ),
    {
        match parse_humantime(text) {
            Some((secs, nanos)) => Some(TimeSpan { secs, nanos }),
            None => None,
        }
    }
}

} // verus!
