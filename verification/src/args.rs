//! Typed command arguments: a span of time with its unit, and the way a
//! message is pinned.

use vstd::prelude::*;
use vstd::string::*;
use crate::text::{
    after_first_space, decimal, find, parse_u64, read_u64, scan, write_decimal,
};

verus! {

/// Whether two texts hold the same characters.
pub fn same_text(a: &str, b: &str) -> (r: bool)
    ensures
        r == (a@ == b@),
{
    let n = a.unicode_len();
    if n != b.unicode_len() {
        return false;
    }
    let mut i: usize = 0;
    while i < n
        invariant
            n == a@.len(),
            n == b@.len(),
            i <= n,
            forall|j: int| 0 <= j < i ==> a@[j] == b@[j],
        decreases n - i,
    {
        if a.get_char(i) != b.get_char(i) {
            return false;
        }
        i = i + 1;
    }
    assert(a@ =~= b@);
    true
}

/// A span of time as the user wrote it: a count and its unit.
#[derive(Clone, Copy, Debug, PartialEq, Eq, Structural)]
pub enum UnitOfTime {
    Seconds(u64),
    Minutes(u64),
    Hours(u64),
    Days(u64),
}

/// The span that a count and a one-letter unit describe.
pub open spec fn unit_by_letter(letter: char, count: u64) -> Option<UnitOfTime> {
    if letter == 'h' {
        Some(UnitOfTime::Hours(count))
    } else if letter == 'm' {
        Some(UnitOfTime::Minutes(count))
    } else if letter == 's' {
        Some(UnitOfTime::Seconds(count))
    } else if letter == 'd' {
        Some(UnitOfTime::Days(count))
    } else {
        None
    }
}

/// The span that a count and a unit written apart from it describe.
pub open spec fn unit_by_word(word: Seq<char>, count: u64) -> Option<UnitOfTime> {
    if word == "h"@ || word == "hours"@ {
        Some(UnitOfTime::Hours(count))
    } else if word == "m"@ || word == "minutes"@ {
        Some(UnitOfTime::Minutes(count))
    } else if word == "s"@ || word == "seconds"@ {
        Some(UnitOfTime::Seconds(count))
    } else if word == "d"@ || word == "days"@ {
        Some(UnitOfTime::Days(count))
    } else {
        None
    }
}

/// The span that `s` writes. Without white space `s` is a number directly
/// followed by one of the letters `h`, `m`, `s`, `d`. With white space, the
/// number stands before the first white-space character and the unit, as a
/// letter or a full word, is all that follows it.
pub open spec fn parse_unit_of_time(s: Seq<char>) -> Option<UnitOfTime> {
    match after_first_space(s) {
        None => {
            if s.len() >= 2 {
                match parse_u64(s.drop_last()) {
                    Some(count) => unit_by_letter(s.last(), count),
                    None => None,
                }
            } else {
                None
            }
        },
        Some(word) => match parse_u64(s.take(scan(s, true) as int)) {
            Some(count) => unit_by_word(word, count),
            None => None,
        },
    }
}

/// The number of seconds in a span.
pub open spec fn seconds_of(unit: UnitOfTime) -> nat {
    match unit {
        UnitOfTime::Seconds(t) => t as nat,
        UnitOfTime::Minutes(t) => t as nat * 60,
        UnitOfTime::Hours(t) => t as nat * 3600,
        UnitOfTime::Days(t) => t as nat * 86400,
    }
}

/// A span as it is shown to the user.
pub open spec fn unit_text(unit: UnitOfTime) -> Seq<char> {
    match unit {
        UnitOfTime::Seconds(t) => decimal(t as nat) + " second(s)"@,
        UnitOfTime::Minutes(t) => decimal(t as nat) + " minute(s)"@,
        UnitOfTime::Hours(t) => decimal(t as nat) + " hour(s)"@,
        UnitOfTime::Days(t) => decimal(t as nat) + " day(s)"@,
    }
}

fn by_letter(letter: char, count: u64) -> (r: Option<UnitOfTime>)
    ensures
        r == unit_by_letter(letter, count),
{
    if letter == 'h' {
        Some(UnitOfTime::Hours(count))
    } else if letter == 'm' {
        Some(UnitOfTime::Minutes(count))
    } else if letter == 's' {
        Some(UnitOfTime::Seconds(count))
    } else if letter == 'd' {
        Some(UnitOfTime::Days(count))
    } else {
        None
    }
}

fn by_word(word: &str, count: u64) -> (r: Option<UnitOfTime>)
    ensures
        r == unit_by_word(word@, count),
{
    if same_text(word, "h") || same_text(word, "hours") {
        Some(UnitOfTime::Hours(count))
    } else if same_text(word, "m") || same_text(word, "minutes") {
        Some(UnitOfTime::Minutes(count))
    } else if same_text(word, "s") || same_text(word, "seconds") {
        Some(UnitOfTime::Seconds(count))
    } else if same_text(word, "d") || same_text(word, "days") {
        Some(UnitOfTime::Days(count))
    } else {
        None
    }
}

impl UnitOfTime {
    /// Reads a span such as `90s`, `2h` or `3 days`. Anything else is
    /// answered with the list of units.
    pub fn from_str(s: &str) -> (r: Result<UnitOfTime, &'static str>)
        ensures
            match r {
                Ok(unit) => parse_unit_of_time(s@) == Some(unit),
                Err(hint) => parse_unit_of_time(s@) is None && hint@ == "Allowed units: h, m, s, d"@,
            },
    {
        let n = s.unicode_len();
        let k = find(s, true);
        let parsed = if k < n {
            let word = s.substring_char(k + 1, n);
            assert(word@ =~= s@.skip(k + 1));
            let number = s.substring_char(0, k);
            assert(number@ =~= s@.take(k as int));
            match read_u64(number) {
                Some(count) => by_word(word, count),
                None => None,
            }
        } else if n >= 2 {
            let number = s.substring_char(0, n - 1);
            assert(number@ =~= s@.drop_last());
            match read_u64(number) {
                Some(count) => by_letter(s.get_char(n - 1), count),
                None => None,
            }
        } else {
            None
        };
        match parsed {
            Some(unit) => Ok(unit),
            None => Err("Allowed units: h, m, s, d"),
        }
    }

    /// The span as it is shown to the user, such as `2 hour(s)`.
    pub fn to_string(&self) -> (r: String)
        ensures
            r@ == unit_text(*self),
    {
        match self {
            UnitOfTime::Seconds(t) => {
                let mut r = write_decimal(*t);
                r.append(" second(s)");
                r
            },
            UnitOfTime::Minutes(t) => {
                let mut r = write_decimal(*t);
                r.append(" minute(s)");
                r
            },
            UnitOfTime::Hours(t) => {
                let mut r = write_decimal(*t);
                r.append(" hour(s)");
                r
            },
            UnitOfTime::Days(t) => {
                let mut r = write_decimal(*t);
                r.append(" day(s)");
                r
            },
        }
    }
}

/// Lets `str::parse` read a span; the reading is `UnitOfTime::from_str`.
impl std::str::FromStr for UnitOfTime {
    type Err = &'static str;

    fn from_str(s: &str) -> (r: Result<Self, Self::Err>)
        ensures
            match r {
                Ok(unit) => parse_unit_of_time(s@) == Some(unit),
                Err(hint) => parse_unit_of_time(s@) is None && hint@ == "Allowed units: h, m, s, d"@,
            },
    {
        UnitOfTime::from_str(s)
    }
}

/// The number of seconds in `unit`, for a span short enough to count them in
/// 64 bits.
pub fn extract_time(unit: &UnitOfTime) -> (r: u64)
    requires
        seconds_of(*unit) <= u64::MAX,
    ensures
        r == seconds_of(*unit),
{
    match unit {
        UnitOfTime::Hours(t) => *t * 3600,
        UnitOfTime::Minutes(t) => *t * 60,
        UnitOfTime::Seconds(t) => *t,
        UnitOfTime::Days(t) => *t * 86400,
    }
}

/// The number of seconds in `unit`, or `None` for a span too long to count
/// them in 64 bits.
pub fn checked_time(unit: &UnitOfTime) -> (r: Option<u64>)
    ensures
        r == (if seconds_of(*unit) <= u64::MAX {
            Some(seconds_of(*unit) as u64)
        } else {
            None
        }),
{
    let fits = match unit {
        UnitOfTime::Hours(t) => *t <= u64::MAX / 3600,
        UnitOfTime::Minutes(t) => *t <= u64::MAX / 60,
        UnitOfTime::Seconds(_) => true,
        UnitOfTime::Days(t) => *t <= u64::MAX / 86400,
    };
    if fits {
        Some(extract_time(unit))
    } else {
        None
    }
}

/// Whether pinning a message notifies the chat.
#[derive(Clone, Copy, Debug, PartialEq, Eq, Structural)]
pub enum PinMode {
    Silent,
    Loud,
}

/// The pin mode that a word asks for: loud for `notify`, `loud` and
/// `violent`, silent for anything else.
pub open spec fn pin_mode_of(word: Seq<char>) -> PinMode {
    if word == "notify"@ || word == "loud"@ || word == "violent"@ {
        PinMode::Loud
    } else {
        PinMode::Silent
    }
}

impl PinMode {
    pub fn is_silent(&self) -> (r: bool)
        ensures
            r == (*self == PinMode::Silent),
    {
        match self {
            PinMode::Silent => true,
            PinMode::Loud => false,
        }
    }

    /// Reads the pin mode from the command's argument; every word is
    /// accepted.
    pub fn from_str(s: &str) -> (r: Result<PinMode, &'static str>)
        ensures
            r == Ok::<PinMode, &'static str>(pin_mode_of(s@)),
    {
        if same_text(s, "notify") || same_text(s, "loud") || same_text(s, "violent") {
            Ok(PinMode::Loud)
        } else {
            Ok(PinMode::Silent)
        }
    }
}

/// Lets `str::parse` read a pin mode; the reading is `PinMode::from_str`.
impl std::str::FromStr for PinMode {
    type Err = &'static str;

    fn from_str(s: &str) -> (r: Result<Self, Self::Err>)
        ensures
            r == Ok::<PinMode, &'static str>(pin_mode_of(s@)),
    {
        PinMode::from_str(s)
    }
}

} // verus!
