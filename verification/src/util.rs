//! Task identifiers, and the times that an archive keeps of its entries.

use std::time::{Duration, SystemTime};
use vstd::prelude::*;
use vstd::string::{StrSliceExecFns, StringExecFns};

verus! {

/// The lower-case hexadecimal digit of value `d`.
pub open spec fn hex_digit(d: int) -> char
    recommends
        0 <= d < 16,
{
    "0123456789abcdef"@[d]
}

/// `n` in lower-case hexadecimal, without leading zeros.
pub open spec fn hex_digits(n: nat) -> Seq<char>
    decreases n,
{
    if n < 16 {
        seq![hex_digit(n as int)]
    } else {
        hex_digits(n / 16).push(hex_digit((n % 16) as int))
    }
}

/// `n` as four lower-case hexadecimal digits.
pub open spec fn hex_padded(n: u16) -> Seq<char> {
    seq![
        hex_digit(n as int / 4096),
        hex_digit(n as int / 256 % 16),
        hex_digit(n as int / 16 % 16),
        hex_digit(n as int % 16),
    ]
}

/// The identifier made of `prefix`, a time in milliseconds and a 16-bit
/// number: the three joined by `_`, the numbers in hexadecimal, the last one
/// in four digits.
pub open spec fn task_id_text(prefix: Seq<char>, millis: u128, random: u16) -> Seq<char> {
    prefix + seq!['_'] + hex_digits(millis as nat) + seq!['_'] + hex_padded(random)
}

/// The digit of value `d` as a string.
fn hex_digit_str(d: usize) -> (s: &'static str)
    requires
        d < 16,
    ensures
        s@ == seq![hex_digit(d as int)],
{
    proof {
        reveal_strlit("0123456789abcdef");
    }
    let s = "0123456789abcdef".substring_ascii(d, d + 1);
    s
}

/// Appends `n` in hexadecimal to `out`.
fn push_hex(out: &mut String, n: u128)
    ensures
        final(out)@ == old(out)@ + hex_digits(n as nat),
    decreases n,
{
    if n >= 16 {
        push_hex(out, n / 16);
    }
    out.append(hex_digit_str((n % 16) as usize));
}

/// The identifier of a task that began `millis` milliseconds after the Unix
/// epoch, told apart from others of that millisecond by `random`.
pub fn task_id_from(prefix: &str, millis: u128, random: u16) -> (id: String)
    ensures
        id@ == task_id_text(prefix@, millis, random),
{
    let mut id = String::from_str(prefix);
    proof {
        reveal_strlit("_");
    }
    id.append("_");
    push_hex(&mut id, millis);
    id.append("_");
    let r = random as usize;
    id.append(hex_digit_str(r / 4096));
    id.append(hex_digit_str(r / 256 % 16));
    id.append(hex_digit_str(r / 16 % 16));
    id.append(hex_digit_str(r % 16));
    id
}

/// `std::time::SystemTime`: carried through as it is; nothing of it is
/// known.
#[verifier::external_type_specification]
#[verifier::external_body]
pub struct ExSystemTime(SystemTime);

/// The reading of the system clock, by `SystemTime::now`. Nothing is
/// claimed of it.
#[verifier::external_body]
fn system_now() -> (now: SystemTime) {
    SystemTime::now()
}

/// The time from the Unix epoch to `time`, by `SystemTime::duration_since`;
/// `None` where `time` lies before the epoch. Nothing is claimed of it.
#[verifier::external_body]
fn since_unix_epoch(time: &SystemTime) -> (elapsed: Option<Duration>) {
    time.duration_since(std::time::UNIX_EPOCH).ok()
}

/// The whole milliseconds of a duration, by `Duration::as_millis`. Nothing
/// is claimed of them.
#[verifier::external_body]
fn whole_millis(elapsed: &Duration) -> (millis: u128) {
    elapsed.as_millis()
}

/// The nanoseconds of a duration beyond its whole seconds, by
/// `Duration::subsec_nanos`. They are a part of one second, as the
/// documentation of `subsec_nanos` says: fewer than one billion. Nothing
/// else is claimed of them.
#[verifier::external_body]
fn nanos_of_second(elapsed: &Duration) -> (nanos: u32)
    ensures
        nanos < 1_000_000_000,
{
    elapsed.subsec_nanos()
}

/// The whole seconds of a duration, by `Duration::as_secs`. Nothing is
/// claimed of them.
#[verifier::external_body]
fn whole_secs(elapsed: &Duration) -> (secs: u64) {
    elapsed.as_secs()
}

/// The milliseconds that have passed since the Unix epoch; `None` where
/// the clock is set before it.
fn unix_millis() -> Option<u128> {
    match since_unix_epoch(&system_now()) {
        Some(elapsed) => Some(whole_millis(&elapsed)),
        None => None,
    }
}

/// The nanoseconds of the running second, which are fewer than one
/// billion; `None` where the clock is set before the Unix epoch.
fn unix_nanos_of_second() -> (nanos: Option<u32>)
    ensures
        nanos matches Some(n) ==> n < 1_000_000_000,
{
    match since_unix_epoch(&system_now()) {
        Some(elapsed) => Some(nanos_of_second(&elapsed)),
        None => None,
    }
}

/// One reading of the system clock: the whole seconds since the Unix epoch
/// and the nanoseconds of the running second, which are fewer than one
/// billion. `None` where the clock is set before the epoch.
pub fn unix_time() -> (reading: Option<(u64, u32)>)
    ensures
        reading matches Some(r) ==> r.1 < 1_000_000_000,
{
    let now = system_now();
    match since_unix_epoch(&now) {
        Some(elapsed) => Some((whole_secs(&elapsed), nanos_of_second(&elapsed))),
        None => None,
    }
}

/// The identifier that [`task_id_at`] makes of `prefix` and two readings of
/// the clock.
pub open spec fn task_id_of_readings(
    prefix: Seq<char>,
    millis: Option<u128>,
    nanos: Option<u32>,
) -> Seq<char> {
    task_id_text(prefix, millis.unwrap_or(0), (nanos.unwrap_or(0) % 0x1_0000) as u16)
}

/// The identifier of a task, made from two readings of the clock: the
/// milliseconds since the Unix epoch, and the nanoseconds of the running
/// second, of which the low 16 bits tell tasks of one millisecond apart. A
/// reading that is missing, because the clock is set before the epoch,
/// counts as 0.
pub fn task_id_at(prefix: &str, millis: Option<u128>, nanos: Option<u32>) -> (id: String)
    ensures
        id@ == task_id_of_readings(prefix@, millis, nanos),
{
    let millis = match millis {
        Some(m) => m,
        None => 0,
    };
    let nanos = match nanos {
        Some(n) => n,
        None => 0,
    };
    task_id_from(prefix, millis, (nanos % 0x1_0000) as u16)
}

/// A fresh identifier for a task: what [`task_id_at`] makes of `prefix`
/// and two readings of the system clock, the first for the milliseconds,
/// the second for the nanoseconds.
pub fn generate_task_id(prefix: &str) -> (id: String)
    ensures
        exists|millis: Option<u128>, nanos: Option<u32>|
            id@ == #[trigger] task_id_of_readings(prefix@, millis, nanos),
{
    let millis = unix_millis();
    let nanos = unix_nanos_of_second();
    task_id_at(prefix, millis, nanos)
}

/// The time that an archive keeps of an entry: a calendar date and a time
/// of day, field by field as the archive packs them. The fields need not
/// make up a date that exists.
#[derive(Debug, Clone, Copy, PartialEq, Eq, Structural)]
pub struct ZipDateTime {
    pub year: u16,
    pub month: u8,
    pub day: u8,
    pub hour: u8,
    pub minute: u8,
    pub second: u8,
}

/// Whether `year` has a 29th of February.
pub open spec fn is_leap_year(year: int) -> bool {
    year % 4 == 0 && (year % 100 != 0 || year % 400 == 0)
}

/// The number of days of a month.
pub open spec fn days_in_month(year: int, month: int) -> int {
    if month == 2 {
        if is_leap_year(year) {
            29
        } else {
            28
        }
    } else if month == 4 || month == 6 || month == 9 || month == 11 {
        30
    } else {
        31
    }
}

/// Whether the calendar has this day.
pub open spec fn is_calendar_date(year: int, month: int, day: int) -> bool {
    1 <= month <= 12 && 1 <= day <= days_in_month(year, month)
}

/// Whether the clock shows this time of day.
pub open spec fn is_time_of_day(hour: int, minute: int, second: int) -> bool {
    0 <= hour < 24 && 0 <= minute < 60 && 0 <= second < 60
}

impl ZipDateTime {
    /// An archive packs the year into seven bits, counted from 1980.
    pub open spec fn wf(self) -> bool {
        1980 <= self.year <= 2107
    }

    /// Whether the fields make up a day that the calendar has and a time
    /// of day that the clock shows.
    pub open spec fn is_valid(self) -> bool {
        &&& is_calendar_date(self.year as int, self.month as int, self.day as int)
        &&& is_time_of_day(self.hour as int, self.minute as int, self.second as int)
    }
}

/// The system time that stands for a calendar date and a time of day in
/// UTC, as the `chrono` crate converts them.
pub uninterp spec fn utc_time_of(
    year: int,
    month: int,
    day: int,
    hour: int,
    minute: int,
    second: int,
) -> SystemTime;

/// Makes a date with `chrono::NaiveDate::from_ymd_opt`, a time on that day
/// with `NaiveDate::and_hms_opt`, takes it as UTC with
/// `DateTime::from_naive_utc_and_offset` and converts it into a
/// `SystemTime`.
///
/// The contract says when there is a result: `from_ymd_opt` refuses a day
/// that the calendar lacks, `and_hms_opt` an hour from 24, a minute or a
/// second from 60 on. To the time itself it only gives a name: the time
/// depends on the six numbers alone. The years are kept to those that every
/// platform's `SystemTime` can hold, so that the conversion cannot fail.
#[verifier::external_body]
fn utc_system_time(
    year: i32,
    month: u32,
    day: u32,
    hour: u32,
    minute: u32,
    second: u32,
) -> (r: Option<SystemTime>)
    requires
        1970 <= year <= 9999,
    ensures
        r is Some <==> (is_calendar_date(year as int, month as int, day as int) && is_time_of_day(
            hour as int,
            minute as int,
            second as int,
        )),
        r matches Some(t) ==> t == utc_time_of(
            year as int,
            month as int,
            day as int,
            hour as int,
            minute as int,
            second as int,
        ),
{
    let date = chrono::NaiveDate::from_ymd_opt(year, month, day)?;
    let time = date.and_hms_opt(hour, minute, second)?;
    Some(chrono::DateTime::<chrono::Utc>::from_naive_utc_and_offset(time, chrono::Utc).into())
}

/// The time of an archive entry as a system time: the time that its
/// fields name, read as UTC. There is none where the fields make up no
/// date or no time of day.
pub fn datetime_to_systemtime(datetime: &ZipDateTime) -> (t: Option<SystemTime>)
    requires
        datetime.wf(),
    ensures
        t is Some <==> datetime.is_valid(),
        t matches Some(time) ==> time == utc_time_of(
            datetime.year as int,
            datetime.month as int,
            datetime.day as int,
            datetime.hour as int,
            datetime.minute as int,
            datetime.second as int,
        ),
{
    utc_system_time(
        datetime.year as i32,
        datetime.month as u32,
        datetime.day as u32,
        datetime.hour as u32,
        datetime.minute as u32,
        datetime.second as u32,
    )
}

} // verus!
