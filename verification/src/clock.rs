//! Readings of the clocks.
//!
//! What a clock shows depends on the machine, so of the numbers nothing is
//! claimed, and of the texts only their form. The logic takes a [`ClockReading`]
//! as an argument. `chrono` panics where the system time is before 1970.
use vstd::prelude::*;

verus! {

/// A moment of the monotonic clock.
#[verifier::external_type_specification]
#[verifier::external_body]
pub struct ExInstant(std::time::Instant);

/// Whether a character is a decimal digit.
pub open spec fn is_digit(c: char) -> bool {
    '0' <= c && c <= '9'
}

/// Whether a text is a year: four digits or more, which a sign may precede.
pub open spec fn is_year(s: Seq<char>) -> bool {
    let signed = s.len() > 0 && (s[0] == '+' || s[0] == '-');
    let first: int = if signed {
        1
    } else {
        0
    };
    s.len() >= first + 4 && forall|i: int| first <= i < s.len() ==> is_digit(#[trigger] s[i])
}

/// Whether a text is a mark and two digits.
pub open spec fn is_part(s: Seq<char>, mark: char) -> bool {
    s.len() == 3 && s[0] == mark && is_digit(s[1]) && is_digit(s[2])
}

/// Whether a text is a date: the year, the month and the day, with hyphens
/// between them.
pub open spec fn is_date(s: Seq<char>) -> bool {
    let n = s.len() as int;
    &&& n >= 6
    &&& is_year(s.subrange(0, n - 6))
    &&& is_part(s.subrange(n - 6, n - 3), '-')
    &&& is_part(s.subrange(n - 3, n), '-')
}

/// Whether a text is a date, a space, and the hour, the minute and the second,
/// with colons between them.
pub open spec fn is_date_time(s: Seq<char>) -> bool {
    let n = s.len() as int;
    &&& n >= 9
    &&& is_date(s.subrange(0, n - 9))
    &&& is_part(s.subrange(n - 9, n - 6), ' ')
    &&& is_part(s.subrange(n - 6, n - 3), ':')
    &&& is_part(s.subrange(n - 3, n), ':')
}

/// `chrono::Utc::now` and `DateTime::timestamp_nanos_opt`: the nanoseconds since
/// the epoch, where they fit.
#[verifier::external_body]
fn utc_nanos() -> (r: Option<i64>)
{
    chrono::Utc::now().timestamp_nanos_opt()
}

/// `chrono::Utc::now` and `DateTime::timestamp_millis`: the milliseconds since
/// the epoch.
#[verifier::external_body]
fn utc_millis() -> (r: i64)
{
    chrono::Utc::now().timestamp_millis()
}

/// `chrono::Utc::now` and `DateTime::timestamp`: the seconds since the epoch.
#[verifier::external_body]
fn utc_seconds() -> (r: i64)
{
    chrono::Utc::now().timestamp()
}

/// `chrono::Local::now` and `DateTime::format`: the local date and time. Their
/// form is fixed; which they are is not said.
#[verifier::external_body]
fn local_date_time() -> (r: String)
    ensures
        is_date_time(r@),
{
    chrono::Local::now().format("%Y-%m-%d %H:%M:%S").to_string()
}

/// `chrono::Utc::now` and `DateTime::format`: the date. Its form is fixed; which
/// it is is not said.
#[verifier::external_body]
fn utc_date() -> (r: String)
    ensures
        is_date(r@),
{
    chrono::Utc::now().format("%Y-%m-%d").to_string()
}

/// `std::time::Instant::now`: the present moment.
#[verifier::external_body]
fn present() -> (r: std::time::Instant)
{
    std::time::Instant::now()
}

/// `std::time::Instant::elapsed`: the nanoseconds since a moment.
#[verifier::external_body]
fn elapsed_nanos(since: &std::time::Instant) -> (r: u64)
{
    u64::try_from(since.elapsed().as_nanos()).unwrap_or(u64::MAX)
}

/// What the clocks show at one moment.
#[derive(Debug)]
pub struct ClockReading<S = String> {
    /// Nanoseconds since the epoch.
    pub nanos: i64,
    /// Milliseconds since the epoch.
    pub millis: i64,
    /// Seconds since the epoch.
    pub seconds: i64,
    /// Nanoseconds of the monotonic clock.
    pub moment: u64,
    /// The local date and time.
    pub local_time: S,
}

impl View for ClockReading<String> {
    type V = ClockReading<Seq<char>>;

    open spec fn view(&self) -> ClockReading<Seq<char>> {
        ClockReading {
            nanos: self.nanos,
            millis: self.millis,
            seconds: self.seconds,
            moment: self.moment,
            local_time: self.local_time@,
        }
    }
}

/// What is read of clocks that show these values: nanoseconds that do not fit
/// count as zero.
pub fn reading(
    nanos: Option<i64>,
    millis: i64,
    seconds: i64,
    moment: u64,
    local_time: String,
) -> (r: ClockReading)
    ensures
        r@ == (ClockReading {
            nanos: match nanos {
                Some(n) => n,
                None => 0,
            },
            millis,
            seconds,
            moment,
            local_time: local_time@,
        }),
{
    ClockReading {
        nanos: match nanos {
            Some(n) => n,
            None => 0,
        },
        millis,
        seconds,
        moment,
        local_time,
    }
}

/// The clocks of the machine.
pub struct Clock {
    started: std::time::Instant,
}

impl Clock {
    /// Starts the monotonic clock.
    pub fn new() -> Self {
        Clock { started: present() }
    }

    /// The present date.
    pub fn today(&self) -> (r: String)
        ensures
            is_date(r@),
    {
        utc_date()
    }

    /// Reads all clocks.
    pub fn read(&self) -> (r: ClockReading)
        ensures
            is_date_time(r.local_time@),
    {
        reading(
            utc_nanos(),
            utc_millis(),
            utc_seconds(),
            elapsed_nanos(&self.started),
            local_date_time(),
        )
    }
}

} // verus!
