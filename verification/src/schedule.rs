//! Schedule rules: whether the reminder is in effect at a given local time,
//! from an optional daily window (`HH:MM`–`HH:MM`, possibly across midnight)
//! and an optional set of weekdays, combined with AND or OR.

use vstd::prelude::*;
use crate::clock::{self, LocalClock};
use crate::text;

verus! {

broadcast use vstd::string::group_string_axioms;

/// The schedule checker.
pub struct ScheduleChecker;

/// An ASCII decimal digit.
pub open spec fn spec_is_digit(c: char) -> bool {
    '0' <= c && c <= '9'
}

/// The number a run of decimal digits denotes.
pub open spec fn spec_digits_value(s: Seq<char>) -> nat
    decreases s.len(),
{
    if s.len() == 0 {
        0
    } else {
        spec_digits_value(s.drop_last()) * 10 + ((s.last() as int) - ('0' as int)) as nat
    }
}

/// Every character is a decimal digit.
pub open spec fn spec_all_digits(s: Seq<char>) -> bool {
    forall|i: int| 0 <= i < s.len() ==> spec_is_digit(#[trigger] s[i])
}

/// `str::parse::<u32>`: an optional `+`, then one or more decimal digits
/// whose value fits in a `u32`.
pub open spec fn spec_parse_u32(s: Seq<char>) -> Option<u32> {
    let d = if s.len() > 0 && s[0] == '+' { s.drop_first() } else { s };
    if d.len() > 0 && spec_all_digits(d) && spec_digits_value(d) <= u32::MAX {
        Some(spec_digits_value(d) as u32)
    } else {
        None
    }
}

/// `k` is the position of the only `:` in `s`.
pub open spec fn spec_sole_colon(s: Seq<char>, k: int) -> bool {
    &&& 0 <= k < s.len()
    &&& s[k] == ':'
    &&& forall|j: int| 0 <= j < s.len() && j != k ==> #[trigger] s[j] != ':'
}

/// Minutes since midnight of an `HH:MM` time: exactly one `:`, both parts
/// numbers, hour at most 23 and minute at most 59.
pub open spec fn spec_parse_time(s: Seq<char>) -> Option<u32> {
    if exists|k: int| spec_sole_colon(s, k) {
        let k = choose|k: int| spec_sole_colon(s, k);
        match (spec_parse_u32(s.take(k)), spec_parse_u32(s.skip(k + 1))) {
            (Some(h), Some(m)) => if h > 23 || m > 59 {
                None
            } else {
                Some((h * 60 + m) as u32)
            },
            _ => None,
        }
    } else {
        None
    }
}

/// Whether the minute of the day lies in the window from `start` to `end`
/// (inclusive; a window whose start is after its end runs across midnight).
pub open spec fn spec_in_window(current: u32, start: u32, end: u32) -> bool {
    if start <= end {
        start <= current && current <= end
    } else {
        current >= start || current <= end
    }
}

/// The time-window rule: a window that does not parse lets every time pass.
pub open spec fn spec_time_match(current: u32, start: Seq<char>, end: Seq<char>) -> bool {
    match (spec_parse_time(start), spec_parse_time(end)) {
        (Some(s), Some(e)) => spec_in_window(current, s, e),
        _ => true,
    }
}

/// Whether the rules are in effect at the given minute of the day and weekday.
pub open spec fn spec_effective(
    current_minutes: u32,
    weekday: u32,
    time_enabled: bool,
    start_time: Seq<char>,
    end_time: Seq<char>,
    weekday_enabled: bool,
    weekdays: Seq<u32>,
    logic: Seq<char>,
) -> bool {
    let time_match = !time_enabled || spec_time_match(current_minutes, start_time, end_time);
    let weekday_match = !weekday_enabled || weekdays.contains(weekday);
    if logic == "OR"@ {
        time_match || weekday_match
    } else {
        time_match && weekday_match
    }
}

proof fn lemma_digits_value_prefix(s: Seq<char>, i: int)
    requires
        0 <= i <= s.len(),
    ensures
        spec_digits_value(s.take(i)) <= spec_digits_value(s),
    decreases s.len() - i,
{
    if i < s.len() {
        lemma_digits_value_prefix(s, i + 1);
        assert(s.take(i + 1).drop_last() =~= s.take(i));
    } else {
        assert(s.take(i) =~= s);
    }
}

/// `str::parse::<u32>` written out over the characters.
fn parse_u32(s: &str) -> (r: Option<u32>)
    ensures
        r == spec_parse_u32(s@),
{
    let n = s.unicode_len();
    let start: usize = if n > 0 && s.get_char(0) == '+' { 1 } else { 0 };
    let ghost d = if s@.len() > 0 && s@[0] == '+' { s@.drop_first() } else { s@ };
    assert(d =~= s@.skip(start as int));
    if start >= n {
        return None;
    }
    let mut acc: u64 = 0;
    let mut i: usize = start;
    while i < n
        invariant
            n == s@.len(),
            start <= i <= n,
            d =~= s@.skip(start as int),
            d == (if s@.len() > 0 && s@[0] == '+' { s@.drop_first() } else { s@ }),
            forall|j: int| 0 <= j < i - start ==> spec_is_digit(#[trigger] d[j]),
            acc == spec_digits_value(d.take(i - start)),
            acc <= u32::MAX,
        decreases n - i,
    {
        let c = s.get_char(i);
        assert(d[i - start] == c);
        if c < '0' || c > '9' {
            assert(!spec_is_digit(d[i - start]));
            assert(!spec_all_digits(d));
            return None;
        }
        let digit: u64 = (c as u64) - ('0' as u64);
        assert(d.take(i + 1 - start).drop_last() =~= d.take(i - start));
        assert(d.take(i + 1 - start).last() == c);
        acc = acc * 10 + digit;
        assert(acc == spec_digits_value(d.take(i + 1 - start)));
        if acc > 0xffff_ffff {
            proof {
                if spec_all_digits(d) {
                    lemma_digits_value_prefix(d, i + 1 - start);
                }
            }
            return None;
        }
        i = i + 1;
    }
    assert(d.take(n - start) =~= d);
    Some(acc as u32)
}

impl ScheduleChecker {
    /// Minutes since midnight of an `HH:MM` time, or `None` when it is not one.
    pub fn parse_time(time_str: &str) -> (r: Option<u32>)
        ensures
            r == spec_parse_time(time_str@),
    {
        let s = time_str;
        let n = s.unicode_len();
        let mut first: Option<usize> = None;
        let mut second: Option<usize> = None;
        let mut i: usize = 0;
        while i < n
            invariant
                n == s@.len(),
                i <= n,
                first is None ==> second is None && forall|j: int| 0 <= j < i ==> s@[j] != ':',
                first matches Some(k) ==> k < i && s@[k as int] == ':',
                (first is Some && second is None) ==> forall|j: int| 0 <= j < i && j != first->0 ==> s@[j] != ':',
                second matches Some(k2) ==> k2 < i && s@[k2 as int] == ':' && first is Some && first->0 != k2,
            decreases n - i,
        {
            if s.get_char(i) == ':' {
                if first.is_none() {
                    first = Some(i);
                } else if second.is_none() {
                    second = Some(i);
                }
            }
            i = i + 1;
        }
        match (first, second) {
            (Some(k), None) => {
                assert(spec_sole_colon(s@, k as int));
                let ghost kk = choose|k: int| spec_sole_colon(s@, k);
                assert(kk == k);
                let hour_part = s.substring_char(0, k);
                let minute_part = s.substring_char(k + 1, n);
                assert(hour_part@ =~= s@.take(k as int));
                assert(minute_part@ =~= s@.skip(k + 1));
                let hour = parse_u32(hour_part);
                let minute = parse_u32(minute_part);
                match (hour, minute) {
                    (Some(h), Some(m)) => {
                        if h > 23 || m > 59 {
                            None
                        } else {
                            Some(h * 60 + m)
                        }
                    },
                    _ => None,
                }
            },
            _ => {
                assert(!exists|k: int| spec_sole_colon(s@, k));
                None
            },
        }
    }

    /// Whether a minute of the day lies in the window `start`–`end`.
    pub fn check_time_range(current_minutes: u32, start: &str, end: &str) -> (r: bool)
        ensures
            r == spec_time_match(current_minutes, start@, end@),
    {
        match (Self::parse_time(start), Self::parse_time(end)) {
            (Some(start_min), Some(end_min)) => {
                if start_min <= end_min {
                    current_minutes >= start_min && current_minutes <= end_min
                } else {
                    current_minutes >= start_min || current_minutes <= end_min
                }
            },
            _ => true,
        }
    }

    /// Whether the weekday (Monday = 1 ... Sunday = 7) is among the allowed ones.
    pub fn check_weekday(weekday: u32, allowed: &[u32]) -> (r: bool)
        ensures
            r == allowed@.contains(weekday),
    {
        let mut i: usize = 0;
        while i < allowed.len()
            invariant
                i <= allowed@.len(),
                forall|j: int| 0 <= j < i ==> allowed@[j] != weekday,
            decreases allowed@.len() - i,
        {
            if allowed[i] == weekday {
                assert(allowed@[i as int] == weekday);
                return true;
            }
            i = i + 1;
        }
        false
    }

    /// Whether the rules are in effect at the given local time.
    pub fn is_effective_at(
        now: &LocalClock,
        time_enabled: bool,
        start_time: &str,
        end_time: &str,
        weekday_enabled: bool,
        weekdays: &[u32],
        logic: &str,
    ) -> (r: bool)
        requires
            now.hour < 24,
            now.minute < 60,
        ensures
            r == spec_effective(
                (now.hour * 60 + now.minute) as u32,
                now.weekday,
                time_enabled,
                start_time@,
                end_time@,
                weekday_enabled,
                weekdays@,
                logic@,
            ),
    {
        let current_minutes = now.hour * 60 + now.minute;
        let time_match = if time_enabled {
            Self::check_time_range(current_minutes, start_time, end_time)
        } else {
            true
        };
        let weekday_match = if weekday_enabled {
            Self::check_weekday(now.weekday, weekdays)
        } else {
            true
        };
        if text::str_eq(logic, "OR") {
            time_match || weekday_match
        } else {
            time_match && weekday_match
        }
    }

    /// Whether the rules are in effect now (local time).
    pub fn is_effective(
        time_enabled: bool,
        start_time: &str,
        end_time: &str,
        weekday_enabled: bool,
        weekdays: &[u32],
        logic: &str,
    ) -> (r: bool)
        ensures
            exists|minutes: u32, weekday: u32| #![trigger spec_effective(minutes, weekday, time_enabled, start_time@, end_time@, weekday_enabled, weekdays@, logic@)]
                minutes < 1440 && 1 <= weekday <= 7
                && r == spec_effective(minutes, weekday, time_enabled, start_time@, end_time@, weekday_enabled, weekdays@, logic@),
    {
        let now = clock::local_clock();
        let r = Self::is_effective_at(&now, time_enabled, start_time, end_time, weekday_enabled, weekdays, logic);
        assert(spec_effective((now.hour * 60 + now.minute) as u32, now.weekday, time_enabled, start_time@, end_time@, weekday_enabled, weekdays@, logic@) == r);
        r
    }
}

/// With both rules switched off the action is always in effect.
pub proof fn law_rules_off_always_effective(
    current_minutes: u32,
    weekday: u32,
    start_time: Seq<char>,
    end_time: Seq<char>,
    weekdays: Seq<u32>,
    logic: Seq<char>,
)
    ensures
        spec_effective(current_minutes, weekday, false, start_time, end_time, false, weekdays, logic),
{
}

/// A window across midnight holds exactly the minutes that a window of the
/// rest of the day does not.
pub proof fn law_overnight_window(current: u32, start: u32, end: u32)
    requires
        start > end + 1,
    ensures
        spec_in_window(current, start, end) == !spec_in_window(current, (end + 1) as u32, (start - 1) as u32),
{
}

proof fn lemma_pad2_digits(n: nat)
    requires
        n < 100,
    ensures
        text::spec_pad2(n).len() == 2,
        spec_all_digits(text::spec_pad2(n)),
        spec_digits_value(text::spec_pad2(n)) == n,
        text::spec_pad2(n)[0] != '+',
{
    let p = text::spec_pad2(n);
    if n < 10 {
        assert(text::spec_decimal(n) == seq![text::spec_digit(n)]);
        assert('0' == text::spec_digit(0));
        assert(p =~= seq![text::spec_digit(0), text::spec_digit(n)]);
    } else {
        assert(text::spec_decimal(n / 10) == seq![text::spec_digit(n / 10)]);
        assert(p =~= seq![text::spec_digit(n / 10), text::spec_digit(n % 10)]);
    }
    let hi: nat = if n < 10 { 0 } else { n / 10 };
    let lo: nat = if n < 10 { n } else { n % 10 };
    assert(p[0] == text::spec_digit(hi));
    assert(p[1] == text::spec_digit(lo));
    assert((text::spec_digit(hi) as int) - ('0' as int) == hi);
    assert((text::spec_digit(lo) as int) - ('0' as int) == lo);
    assert(p.drop_last() =~= seq![p[0]]);
    let one = seq![p[0]];
    assert(one.drop_last() =~= Seq::<char>::empty());
    assert(spec_digits_value(one.drop_last()) == 0);
    assert(one.last() == p[0]);
    assert(spec_digits_value(one) == hi);
    assert(spec_digits_value(p) == hi * 10 + lo);
}

/// A time written `HH:MM` (two digits each, hour below 24, minute below 60)
/// parses to its minutes since midnight.
pub proof fn law_parse_hh_mm(hour: nat, minute: nat)
    requires
        hour < 24,
        minute < 60,
    ensures
        spec_parse_time(text::spec_pad2(hour) + ":"@ + text::spec_pad2(minute)) == Some((hour * 60 + minute) as u32),
{
    reveal_strlit(":");
    lemma_pad2_digits(hour);
    lemma_pad2_digits(minute);
    let h = text::spec_pad2(hour);
    let m = text::spec_pad2(minute);
    let s = h + ":"@ + m;
    assert(s.len() == 5);
    assert(s[2] == ':');
    assert forall|j: int| 0 <= j < s.len() && j != 2 implies #[trigger] s[j] != ':' by {
        if j < 2 {
            assert(s[j] == h[j]);
            assert(spec_is_digit(h[j]));
        } else {
            assert(s[j] == m[j - 3]);
            assert(spec_is_digit(m[j - 3]));
        }
    }
    assert(spec_sole_colon(s, 2));
    let k = choose|k: int| spec_sole_colon(s, k);
    assert(k == 2) by {
        if k != 2 {
            assert(s[k] != ':');
        }
    }
    assert(s.take(2) =~= h);
    assert(s.skip(3) =~= m);
}

/// With only the weekday rule on, AND puts the action in effect exactly on
/// the listed weekdays (Monday = 1 ... Sunday = 7), whatever the time; under
/// OR the switched-off time rule already counts as met.
pub proof fn law_weekday_rule_alone(
    current_minutes: u32,
    weekday: u32,
    start_time: Seq<char>,
    end_time: Seq<char>,
    weekdays: Seq<u32>,
    logic: Seq<char>,
)
    ensures
        spec_effective(current_minutes, weekday, false, start_time, end_time, true, weekdays, logic)
            == (logic != "OR"@ ==> weekdays.contains(weekday)),
{
}

} // verus!
