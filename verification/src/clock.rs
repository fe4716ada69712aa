use std::fmt::Write;

use vstd::prelude::*;

use crate::text::decimal_pad2;

verus! {

/// The text that `chrono` writes for the instant `timestamp` (seconds since
/// the Unix epoch) at the fixed UTC offset `offset_secs`, with the format
/// `pattern`; `None` where the offset or the instant is out of chrono's
/// range or the pattern cannot be written.
pub uninterp spec fn time_text(timestamp: i64, offset_secs: i32, pattern: Seq<char>) -> Option<Seq<char>>;

/// The seconds since local midnight of the instant `timestamp` at the UTC
/// offset `offset_secs`.
pub open spec fn local_second_of_day(timestamp: i64, offset_secs: i32) -> int {
    (timestamp + offset_secs) % 86400
}

/// The days since 1970-01-01 (local) of the instant at the offset.
pub open spec fn local_day(timestamp: i64, offset_secs: i32) -> int {
    (timestamp + offset_secs) / 86400
}

/// `hh:mm:ss` on a 24-hour clock for `t` seconds after midnight.
pub open spec fn time_24h_text(t: int) -> Seq<char> {
    decimal_pad2((t / 3600) as nat) + seq![':'] + decimal_pad2(((t % 3600) / 60) as nat) + seq![':']
        + decimal_pad2((t % 60) as nat)
}

/// `hh:mm:ss AM` or `hh:mm:ss PM` on a 12-hour clock (hours 01 to 12) for
/// `t` seconds after midnight.
pub open spec fn time_12h_text(t: int) -> Seq<char> {
    let h = t / 3600;
    let h12: nat = if h % 12 == 0 {
        12
    } else {
        (h % 12) as nat
    };
    decimal_pad2(h12) + seq![':'] + decimal_pad2(((t % 3600) / 60) as nat) + seq![':']
        + decimal_pad2((t % 60) as nat) + if h < 12 {
        seq![' ', 'A', 'M']
    } else {
        seq![' ', 'P', 'M']
    }
}

/// The English name of day `d` of the week, counted from Monday as 0.
pub open spec fn weekday_name(d: int) -> Seq<char> {
    if d == 0 {
        "Monday"@
    } else if d == 1 {
        "Tuesday"@
    } else if d == 2 {
        "Wednesday"@
    } else if d == 3 {
        "Thursday"@
    } else if d == 4 {
        "Friday"@
    } else if d == 5 {
        "Saturday"@
    } else {
        "Sunday"@
    }
}

/// The weekday of the local day `day` since 1970-01-01, a Thursday.
pub open spec fn weekday_of_day(day: int) -> Seq<char> {
    weekday_name((day + 3) % 7)
}

/// The offsets and instants for which chrono gives every text the clock
/// asks for: an offset of less than a day and an instant within some 30,000
/// years of 1970.
pub open spec fn clock_in_range(timestamp: i64, offset_secs: i32) -> bool {
    -86400 < offset_secs < 86400 && -1_000_000_000_000 <= timestamp <= 1_000_000_000_000
}

/// `chrono::FixedOffset::east_opt`, `DateTime::from_timestamp`, then
/// `DateTime::format` written into a string. The contract names the text
/// ([`time_text`]), and says what chrono documents of the patterns the clock
/// uses: the local time is the instant shifted by the offset, `%H`, `%M`,
/// `%S` are its zero-padded hour, minute and second, `%I` the hour on a
/// 12-hour clock (01 to 12) and `%p` `AM` or `PM`, and `%A` the full English
/// weekday name. The rest of the date's text is left to chrono.
#[verifier::external_body]
fn format_time(timestamp: i64, offset_secs: i32, pattern: &str) -> (r: Option<String>)
    ensures
        match r {
            Some(s) => time_text(timestamp, offset_secs, pattern@) == Some(s@),
            None => time_text(timestamp, offset_secs, pattern@) is None,
        },
        clock_in_range(timestamp, offset_secs) && (pattern@ == "%H:%M:%S"@ || pattern@
            == "%I:%M:%S %p"@ || pattern@ == "%A, %B %d"@) ==> r is Some,
        r matches Some(s) ==> (pattern@ == "%H:%M:%S"@ ==> s@ == time_24h_text(
            local_second_of_day(timestamp, offset_secs),
        )),
        r matches Some(s) ==> (pattern@ == "%I:%M:%S %p"@ ==> s@ == time_12h_text(
            local_second_of_day(timestamp, offset_secs),
        )),
        r matches Some(s) ==> (pattern@ == "%A, %B %d"@ ==> s@.len() >= weekday_of_day(
            local_day(timestamp, offset_secs),
        ).len() + 2 && s@.subrange(0, weekday_of_day(local_day(timestamp, offset_secs)).len() as int)
            == weekday_of_day(local_day(timestamp, offset_secs))),
{
    let offset = chrono::FixedOffset::east_opt(offset_secs)?;
    let time = chrono::DateTime::from_timestamp(timestamp, 0)?.with_timezone(&offset);
    let mut text = String::new();
    write!(text, "{}", time.format(pattern)).ok()?;
    Some(text)
}

/// The `chrono` format of the clock's time: `%H:%M:%S` on a 24-hour clock,
/// `%I:%M:%S %p` otherwise.
pub fn clock_pattern(time_24h: bool) -> (r: &'static str)
    ensures
        r@ == (if time_24h {
            "%H:%M:%S"@
        } else {
            "%I:%M:%S %p"@
        }),
{
    if time_24h {
        "%H:%M:%S"
    } else {
        "%I:%M:%S %p"
    }
}

/// The two lines of the clock for the local time given as `timestamp` and
/// `offset_secs`: the time in the clock's pattern, and the date as
/// `%A, %B %d`. `None` where chrono gives no text for either.
pub fn clock_texts(time_24h: bool, timestamp: i64, offset_secs: i32) -> (r: Option<(String, String)>)
    ensures
        ({
            let pattern = if time_24h {
                "%H:%M:%S"@
            } else {
                "%I:%M:%S %p"@
            };
            match r {
                Some((time, date)) => time_text(timestamp, offset_secs, pattern) == Some(time@)
                    && time_text(timestamp, offset_secs, "%A, %B %d"@) == Some(date@),
                None => time_text(timestamp, offset_secs, pattern) is None || time_text(
                    timestamp,
                    offset_secs,
                    "%A, %B %d"@,
                ) is None,
            }
        }),
        clock_in_range(timestamp, offset_secs) ==> r is Some,
        r matches Some((time, date)) ==> {
            &&& time@ == if time_24h {
                time_24h_text(local_second_of_day(timestamp, offset_secs))
            } else {
                time_12h_text(local_second_of_day(timestamp, offset_secs))
            }
            &&& date@.subrange(0, weekday_of_day(local_day(timestamp, offset_secs)).len() as int)
                == weekday_of_day(local_day(timestamp, offset_secs))
        },
{
    let time = format_time(timestamp, offset_secs, clock_pattern(time_24h));
    let date = format_time(timestamp, offset_secs, "%A, %B %d");
    match (time, date) {
        (Some(t), Some(d)) => Some((t, d)),
        _ => None,
    }
}

} // verus!
