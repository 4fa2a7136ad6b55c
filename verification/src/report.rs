//! What the process writes about itself: log lines and notices.

use vstd::prelude::*;

verus! {

/// How the time stamp of a log line is laid out.
pub const STAMP_PATTERN: &'static str = "[%Y-%m-%d][%H:%M:%S]";

/// The severity of a log record.
#[derive(Clone, Copy, Debug, PartialEq, Eq, Structural)]
pub enum Severity {
    Error,
    Warn,
    Info,
    Debug,
    Trace,
}

/// A moment as a clock on the wall and a calendar show it.
pub struct LocalTime {
    pub year: nat,
    pub month: nat,
    pub day: nat,
    pub hour: nat,
    pub minute: nat,
    pub second: nat,
}

impl LocalTime {
    /// A moment that a clock can show at or after the epoch, in any time zone.
    pub open spec fn wf(self) -> bool {
        &&& 1969 <= self.year
        &&& 1 <= self.month <= 12
        &&& 1 <= self.day <= 31
        &&& self.hour < 24
        &&& self.minute < 60
        &&& self.second < 60
    }
}

/// The last decimal digit of `n`.
pub open spec fn digit(n: nat) -> char {
    (48 + n % 10) as char
}

/// `n` in decimal, without leading zeros.
pub open spec fn decimal(n: nat) -> Seq<char>
    decreases n,
{
    if n < 10 {
        seq![digit(n)]
    } else {
        decimal(n / 10).push(digit(n))
    }
}

/// A number below a hundred, with a leading zero where it needs one.
pub open spec fn two_digits(n: nat) -> Seq<char> {
    seq![digit(n / 10), digit(n)]
}

/// A year of our times has four digits; one that needs more has a sign too.
pub open spec fn year_text(year: nat) -> Seq<char> {
    if year < 10_000 {
        decimal(year)
    } else {
        seq!['+'] + decimal(year)
    }
}

/// The time stamp of a moment.
pub open spec fn stamp(t: LocalTime) -> Seq<char> {
    seq!['['] + year_text(t.year) + seq!['-'] + two_digits(t.month) + seq!['-'] + two_digits(t.day)
        + seq![']', '['] + two_digits(t.hour) + seq![':'] + two_digits(t.minute) + seq![':']
        + two_digits(t.second) + seq![']']
}

/// The text is the time stamp of some moment.
pub open spec fn is_stamp(text: Seq<char>) -> bool {
    exists|t: LocalTime| t.wf() && text == #[trigger] stamp(t)
}

/// The name of a severity.
pub open spec fn severity_text(severity: Severity) -> Seq<char> {
    match severity {
        Severity::Error => "ERROR"@,
        Severity::Warn => "WARN"@,
        Severity::Info => "INFO"@,
        Severity::Debug => "DEBUG"@,
        Severity::Trace => "TRACE"@,
    }
}

/// The time now, in the local time zone, as the pattern lays it out.
///
/// Calls `now` of `chrono::Local`, `format` of the `chrono::DateTime` it gives,
/// and `to_string` of what that gives. With this pattern the text is the year,
/// month, day, hour, minute and second of one moment, each number padded with
/// zeros to its usual width. Which moment it is depends on the clock and the
/// time zone, and nothing is claimed of it but that it is a moment of the
/// calendar, at or after the epoch. The state of the machine can make `now`
/// panic: a clock that stands before the epoch, or a time zone whose offset at
/// that moment cannot be told or is a day or more.
#[verifier::external_body]
fn local_now(pattern: &str) -> (text: String)
    requires
        pattern@ == STAMP_PATTERN@,
    ensures
        is_stamp(text@),
{
    chrono::Local::now().format(pattern).to_string()
}

/// The name of a severity, as log records carry it.
///
/// Calls `as_str` of `log::Level`, which gives the name in capitals.
#[verifier::external_body]
fn severity_name(severity: Severity) -> (name: String)
    ensures
        name@ == severity_text(severity),
{
    let level = match severity {
        Severity::Error => log::Level::Error,
        Severity::Warn => log::Level::Warn,
        Severity::Info => log::Level::Info,
        Severity::Debug => log::Level::Debug,
        Severity::Trace => log::Level::Trace,
    };
    level.as_str().to_string()
}

/// A log line: time stamp, target, severity and message, without anything
/// between them but the brackets.
pub open spec fn log_text(
    stamp: Seq<char>,
    target: Seq<char>,
    severity: Severity,
    message: Seq<char>,
) -> Seq<char> {
    stamp + seq!['['] + target + seq![']', '['] + severity_text(severity) + seq![']'] + message
}

/// The log line of a record, with a time stamp that is given.
pub fn log_line_at(stamp: &str, target: &str, severity: Severity, message: &str) -> (line: String)
    ensures
        line@ == log_text(stamp@, target@, severity, message@),
{
    let name = severity_name(severity);
    let mut line = String::new();
    line.append(stamp);
    line.append("[");
    line.append(target);
    line.append("][");
    line.append(name.as_str());
    line.append("]");
    line.append(message);
    proof {
        reveal_strlit("[");
        reveal_strlit("][");
        reveal_strlit("]");
        assert("["@ =~= seq!['[']);
        assert("]["@ =~= seq![']', '[']);
        assert("]"@ =~= seq![']']);
    }
    assert(line@ =~= log_text(stamp@, target@, severity, message@));
    line
}

/// The log line of a record that is written now.
///
/// Reading the local time can panic, as `chrono` does it. There is no time to
/// stamp the line with where the system clock stands before the epoch, nor where
/// the local time zone gives no offset or one of a day or more, as a zone does
/// that lies over 23 hours ahead and adds an hour in summer.
pub fn log_line(target: &str, severity: Severity, message: &str) -> (line: String)
    ensures
        exists|t: LocalTime|
            t.wf() && line@ == log_text(#[trigger] stamp(t), target@, severity, message@),
{
    let now = local_now(STAMP_PATTERN);
    log_line_at(now.as_str(), target, severity, message)
}

/// A log record: how grave it is, and what it says.
#[derive(Debug, PartialEq, Eq)]
pub struct Record {
    pub severity: Severity,
    pub message: String,
}

/// A log record with its message as characters.
pub struct RecordView {
    pub severity: Severity,
    pub message: Seq<char>,
}

impl View for Record {
    type V = RecordView;

    open spec fn view(&self) -> RecordView {
        RecordView { severity: self.severity, message: self.message@ }
    }
}

fn digit_text(n: u64) -> (text: &'static str)
    requires
        n < 10,
    ensures
        text@ == seq![digit(n as nat)],
{
    proof {
        reveal_strlit("0");
        reveal_strlit("1");
        reveal_strlit("2");
        reveal_strlit("3");
        reveal_strlit("4");
        reveal_strlit("5");
        reveal_strlit("6");
        reveal_strlit("7");
        reveal_strlit("8");
        reveal_strlit("9");
    }
    let text = match n {
        0 => "0",
        1 => "1",
        2 => "2",
        3 => "3",
        4 => "4",
        5 => "5",
        6 => "6",
        7 => "7",
        8 => "8",
        _ => "9",
    };
    assert(text@ =~= seq![digit(n as nat)]);
    text
}

/// Appends `n` in decimal.
fn append_decimal(line: &mut String, n: u64)
    ensures
        final(line)@ == old(line)@ + decimal(n as nat),
    decreases n,
{
    if n >= 10 {
        append_decimal(line, n / 10);
    }
    line.append(digit_text(n % 10));
    proof {
        assert(digit((n % 10) as nat) == digit(n as nat));
        assert(line@ =~= old(line)@ + decimal(n as nat));
    }
}

/// A delay as text, in milliseconds.
pub open spec fn delay_text(delay_ms: nat) -> Seq<char> {
    decimal(delay_ms) + "ms"@
}

/// How a delay is written.
pub fn show_delay(delay_ms: u64) -> (text: String)
    ensures
        text@ == delay_text(delay_ms as nat),
{
    let mut text = String::new();
    append_decimal(&mut text, delay_ms);
    text.append("ms");
    assert(text@ =~= delay_text(delay_ms as nat));
    text
}

/// The message on a failed attempt to bind that is followed by another one.
pub open spec fn bind_retried_text(
    laddr: Seq<char>,
    attempts: nat,
    limit: nat,
    error: Seq<char>,
    delay: Seq<char>,
) -> Seq<char> {
    "[tcp]failed to bind "@ + laddr + " (attempt "@ + decimal(attempts) + "/"@ + decimal(limit)
        + "): "@ + error + ", retry in "@ + delay
}

/// A warning: an attempt to bind failed and another one follows.
pub fn bind_retried(laddr: &str, attempts: u32, limit: u32, error: &str, delay: &str) -> (record:
    Record)
    ensures
        record@ == (RecordView {
            severity: Severity::Warn,
            message: bind_retried_text(laddr@, attempts as nat, limit as nat, error@, delay@),
        }),
{
    let mut message = String::new();
    message.append("[tcp]failed to bind ");
    message.append(laddr);
    message.append(" (attempt ");
    append_decimal(&mut message, attempts as u64);
    message.append("/");
    append_decimal(&mut message, limit as u64);
    message.append("): ");
    message.append(error);
    message.append(", retry in ");
    message.append(delay);
    assert(message@ =~= bind_retried_text(
        laddr@,
        attempts as nat,
        limit as nat,
        error@,
        delay@,
    ));
    Record { severity: Severity::Warn, message }
}

/// The message on the last failed attempt to bind.
pub open spec fn bind_given_up_text(laddr: Seq<char>, attempts: nat, error: Seq<char>) -> Seq<
    char,
> {
    "[tcp]failed to bind "@ + laddr + " after "@ + decimal(attempts) + " attempt(s): "@ + error
}

/// An error: the last attempt to bind failed.
pub fn bind_given_up(laddr: &str, attempts: u32, error: &str) -> (record: Record)
    ensures
        record@ == (RecordView {
            severity: Severity::Error,
            message: bind_given_up_text(laddr@, attempts as nat, error@),
        }),
{
    let mut message = String::new();
    message.append("[tcp]failed to bind ");
    message.append(laddr);
    message.append(" after ");
    append_decimal(&mut message, attempts as u64);
    message.append(" attempt(s): ");
    message.append(error);
    assert(message@ =~= bind_given_up_text(laddr@, attempts as nat, error@));
    Record { severity: Severity::Error, message }
}

/// The message on a failure to accept a connection.
pub open spec fn accept_failed_text(error: Seq<char>) -> Seq<char> {
    "[tcp]failed to accept: "@ + error
}

/// A failure to accept: a warning if the relay goes on, an error if it ends.
pub fn accept_failed(goes_on: bool, error: &str) -> (record: Record)
    ensures
        record@ == (RecordView {
            severity: if goes_on {
                Severity::Warn
            } else {
                Severity::Error
            },
            message: accept_failed_text(error@),
        }),
{
    let mut message = String::new();
    message.append("[tcp]failed to accept: ");
    message.append(error);
    assert(message@ =~= accept_failed_text(error@));
    let severity = if goes_on {
        Severity::Warn
    } else {
        Severity::Error
    };
    Record { severity, message }
}

/// The message on a relayed connection that is over.
pub open spec fn relay_ended_text(
    peer: Seq<char>,
    raddr: Seq<char>,
    error: Option<Seq<char>>,
) -> Seq<char> {
    "[tcp]"@ + peer + " => "@ + raddr + (match error {
        None => ", finish"@,
        Some(e) => ", error: "@ + e,
    })
}

/// The record on a relayed connection that is over.
pub open spec fn relay_ended_record(
    peer: Seq<char>,
    raddr: Seq<char>,
    error: Option<Seq<char>>,
) -> RecordView {
    RecordView {
        severity: match error {
            None => Severity::Debug,
            Some(_) => Severity::Error,
        },
        message: relay_ended_text(peer, raddr, error),
    }
}

/// A relayed connection is over: of use for debugging if it went well, an error
/// if it did not.
pub fn relay_ended(peer: &str, raddr: &str, error: Option<&str>) -> (record: Record)
    ensures
        match error {
            None => record@ == relay_ended_record(peer@, raddr@, None),
            Some(e) => record@ == relay_ended_record(peer@, raddr@, Some(e@)),
        },
{
    let mut message = String::new();
    message.append("[tcp]");
    message.append(peer);
    message.append(" => ");
    message.append(raddr);
    match error {
        None => {
            message.append(", finish");
            assert(message@ =~= relay_ended_text(peer@, raddr@, None));
            Record { severity: Severity::Debug, message }
        },
        Some(e) => {
            message.append(", error: ");
            message.append(e);
            assert(message@ =~= relay_ended_text(peer@, raddr@, Some(e@)));
            Record { severity: Severity::Error, message }
        },
    }
}

/// The message on a round of relaying datagrams that failed.
pub open spec fn round_failed_text(error: Seq<char>) -> Seq<char> {
    "[udp]error: "@ + error
}

/// An error: a round of relaying datagrams failed.
pub fn round_failed(error: &str) -> (record: Record)
    ensures
        record@ == (RecordView {
            severity: Severity::Error,
            message: round_failed_text(error@),
        }),
{
    let mut message = String::new();
    message.append("[udp]error: ");
    message.append(error);
    assert(message@ =~= round_failed_text(error@));
    Record { severity: Severity::Error, message }
}

/// What the process panics with when a UDP relay cannot bind.
pub open spec fn udp_bind_panic_text(laddr: Seq<char>, error: Seq<char>) -> Seq<char> {
    "[udp]failed to bind "@ + laddr + ": "@ + error
}

/// The words of the panic that a failure to bind a UDP relay leads to.
pub fn udp_bind_panic(laddr: &str, error: &str) -> (text: String)
    ensures
        text@ == udp_bind_panic_text(laddr@, error@),
{
    let mut text = String::new();
    text.append("[udp]failed to bind ");
    text.append(laddr);
    text.append(": ");
    text.append(error);
    assert(text@ =~= udp_bind_panic_text(laddr@, error@));
    text
}

/// What the process panics with when the logger cannot be installed.
pub open spec fn logger_panic_text(error: Seq<char>) -> Seq<char> {
    "failed to setup logger: "@ + error
}

/// The words of the panic that a logger which cannot be installed leads to.
pub fn logger_panic(error: &str) -> (text: String)
    ensures
        text@ == logger_panic_text(error@),
{
    let mut text = String::new();
    text.append("failed to setup logger: ");
    text.append(error);
    assert(text@ =~= logger_panic_text(error@));
    text
}

/// What the process panics with when a hang-up cannot be listened for.
pub open spec fn hangup_panic_text(error: Seq<char>) -> Seq<char> {
    "failed to install SIGHUP handler: "@ + error
}

/// The words of the panic that a hang-up handler which cannot be installed leads
/// to. `error` is the error as it is shown for debugging.
pub fn hangup_panic(error: &str) -> (text: String)
    ensures
        text@ == hangup_panic_text(error@),
{
    let mut text = String::new();
    text.append("failed to install SIGHUP handler: ");
    text.append(error);
    assert(text@ =~= hangup_panic_text(error@));
    text
}

/// What a notice is about.
#[derive(Clone, Copy, Debug, PartialEq, Eq, Structural)]
pub enum Topic {
    /// How logging is set up.
    Log,
    /// How names are resolved.
    Dns,
    /// An endpoint that is ready to be served.
    Inited,
    /// The file that is read again.
    Reload,
}

/// The word that a notice begins with.
pub open spec fn topic_text(topic: Topic) -> Seq<char> {
    match topic {
        Topic::Log => "log: "@,
        Topic::Dns => "dns: "@,
        Topic::Inited => "inited: "@,
        Topic::Reload => "reload: "@,
    }
}

/// The notice that says `what` on the topic.
pub open spec fn notice_text(topic: Topic, what: Seq<char>) -> Seq<char> {
    topic_text(topic) + what
}

/// The notice, for standard output, that says `what` on the topic.
pub fn notice(topic: Topic, what: &str) -> (line: String)
    ensures
        line@ == notice_text(topic, what@),
{
    let mut line = String::new();
    match topic {
        Topic::Log => line.append("log: "),
        Topic::Dns => line.append("dns: "),
        Topic::Inited => line.append("inited: "),
        Topic::Reload => line.append("reload: "),
    }
    line.append(what);
    assert(line@ =~= notice_text(topic, what@));
    line
}

/// The number that a text of decimal digits stands for.
pub open spec fn number_of(text: Seq<char>) -> int
    decreases text.len(),
{
    if text.len() == 0 {
        0
    } else {
        10 * number_of(text.drop_last()) + (text.last() as int - '0' as int)
    }
}

/// The text is made of decimal digits, and stands for `n`.
pub open spec fn reads(text: Seq<char>, n: nat) -> bool {
    &&& number_of(text) == n
    &&& forall|i: int| 0 <= i < text.len() ==> '0' <= #[trigger] text[i] <= '9'
}

/// What is written in decimal can be read back: the digits stand for the number,
/// and there are no more of them than it takes.
pub proof fn decimals_read_back(n: nat)
    ensures
        reads(decimal(n), n),
        decimal(n).len() > 0,
        decimal(n)[0] == '0' <==> n == 0,
        n < 10 <==> decimal(n).len() == 1,
    decreases n,
{
    reveal_with_fuel(number_of, 2);
    if n >= 10 {
        decimals_read_back(n / 10);
        assert(decimal(n).drop_last() =~= decimal(n / 10));
    }
}

proof fn two_digits_read_back(n: nat)
    requires
        n < 100,
    ensures
        reads(two_digits(n), n),
{
    reveal_with_fuel(number_of, 3);
    assert(two_digits(n).drop_last() =~= seq![digit(n / 10)]);
    assert(two_digits(n).drop_last().drop_last() =~= seq![]);
}

/// Delays differ as texts if they differ, and each can be read back from its
/// text: the number of milliseconds, and the unit.
pub proof fn delays_read_back(delay_ms: nat)
    ensures
        ({
            let text = delay_text(delay_ms);
            &&& text.len() == decimal(delay_ms).len() + 2
            &&& text.subrange(text.len() - 2, text.len() as int) == seq!['m', 's']
            &&& reads(text.take(text.len() - 2), delay_ms)
            &&& text[0] == '0' <==> delay_ms == 0
        }),
{
    reveal_strlit("ms");
    decimals_read_back(delay_ms);
    let text = delay_text(delay_ms);
    assert(text.take(text.len() - 2) =~= decimal(delay_ms));
    assert(text.subrange(text.len() - 2, text.len() as int) =~= seq!['m', 's']);
}

/// A time stamp can be read back: from its end to its beginning it shows the
/// second, minute, hour, day, month and year of the moment, two digits each but
/// for the year, with its brackets, dashes and colons in their places. A year of
/// five digits or more has a sign before it.
pub proof fn stamps_read_back(t: LocalTime)
    requires
        t.wf(),
    ensures
        ({
            let text = stamp(t);
            let n = text.len() as int;
            let year_from: int = if t.year < 10_000 {
                1
            } else {
                2
            };
            &&& n >= 22
            &&& text[0] == '[' && text[n - 1] == ']'
            &&& reads(text.subrange(n - 3, n - 1), t.second)
            &&& text[n - 4] == ':'
            &&& reads(text.subrange(n - 6, n - 4), t.minute)
            &&& text[n - 7] == ':'
            &&& reads(text.subrange(n - 9, n - 7), t.hour)
            &&& text[n - 10] == '[' && text[n - 11] == ']'
            &&& reads(text.subrange(n - 13, n - 11), t.day)
            &&& text[n - 14] == '-'
            &&& reads(text.subrange(n - 16, n - 14), t.month)
            &&& text[n - 17] == '-'
            &&& reads(text.subrange(year_from, n - 17), t.year)
            &&& t.year >= 10_000 ==> text[1] == '+'
        }),
{
    let text = stamp(t);
    let n = text.len() as int;
    two_digits_read_back(t.second);
    two_digits_read_back(t.minute);
    two_digits_read_back(t.hour);
    two_digits_read_back(t.day);
    two_digits_read_back(t.month);
    decimals_read_back(t.year);
    if t.year < 10_000 {
        stamps_have_one_width(t);
        assert(text.subrange(1, n - 17) =~= decimal(t.year));
    } else {
        long_years(t.year);
        assert(text.subrange(2, n - 17) =~= decimal(t.year));
    }
    assert(text.subrange(n - 3, n - 1) =~= two_digits(t.second));
    assert(text.subrange(n - 6, n - 4) =~= two_digits(t.minute));
    assert(text.subrange(n - 9, n - 7) =~= two_digits(t.hour));
    assert(text.subrange(n - 13, n - 11) =~= two_digits(t.day));
    assert(text.subrange(n - 16, n - 14) =~= two_digits(t.month));
}

proof fn long_years(year: nat)
    requires
        year >= 10_000,
    ensures
        decimal(year).len() >= 5,
{
    reveal_with_fuel(decimal, 5);
}

/// Every time stamp shows a moment that there can be: a month of the year, a day
/// of a month, an hour, minute and second of a day, and no year before the one
/// in which the epoch begins somewhere on earth. Every such moment has one.
pub proof fn stamps_show_moments(t: LocalTime)
    ensures
        t.wf() <==> t.year >= 1969 && 1 <= t.month <= 12 && 1 <= t.day <= 31 && t.hour <= 23
            && t.minute <= 59 && t.second <= 59,
        t.wf() ==> is_stamp(stamp(t)),
{
}

/// Each severity has a name of its own, in capitals.
pub proof fn severities_have_names(severity: Severity)
    ensures
        severity_text(severity) == match severity {
            Severity::Error => seq!['E', 'R', 'R', 'O', 'R'],
            Severity::Warn => seq!['W', 'A', 'R', 'N'],
            Severity::Info => seq!['I', 'N', 'F', 'O'],
            Severity::Debug => seq!['D', 'E', 'B', 'U', 'G'],
            Severity::Trace => seq!['T', 'R', 'A', 'C', 'E'],
        },
{
    reveal_strlit("ERROR");
    reveal_strlit("WARN");
    reveal_strlit("INFO");
    reveal_strlit("DEBUG");
    reveal_strlit("TRACE");
    match severity {
        Severity::Error => assert("ERROR"@ =~= seq!['E', 'R', 'R', 'O', 'R']),
        Severity::Warn => assert("WARN"@ =~= seq!['W', 'A', 'R', 'N']),
        Severity::Info => assert("INFO"@ =~= seq!['I', 'N', 'F', 'O']),
        Severity::Debug => assert("DEBUG"@ =~= seq!['D', 'E', 'B', 'U', 'G']),
        Severity::Trace => assert("TRACE"@ =~= seq!['T', 'R', 'A', 'C', 'E']),
    }
}

/// A log line holds all its parts, whatever the severity: it begins with the
/// stamp and ends with the message, and between them stand the target and the
/// severity's name, each in brackets, and nothing else.
pub proof fn log_lines_hold_all_parts(
    stamp: Seq<char>,
    target: Seq<char>,
    severity: Severity,
    message: Seq<char>,
)
    ensures
        ({
            let line = log_text(stamp, target, severity, message);
            let name = severity_text(severity);
            let target_from: int = 1int + stamp.len();
            let name_from: int = target_from + target.len() + 2;
            &&& line.len() == stamp.len() + target.len() + name.len() + message.len() + 4
            &&& line.take(stamp.len() as int) == stamp
            &&& line[target_from - 1] == '['
            &&& line.subrange(target_from, target_from + target.len()) == target
            &&& line[name_from - 2] == ']'
            &&& line[name_from - 1] == '['
            &&& line.subrange(name_from, name_from + name.len()) == name
            &&& line[name_from + name.len()] == ']'
            &&& line.skip(line.len() - message.len()) == message
        }),
{
    let line = log_text(stamp, target, severity, message);
    let name = severity_text(severity);
    let target_from: int = 1int + stamp.len();
    let name_from: int = target_from + target.len() + 2;
    assert(line.take(stamp.len() as int) =~= stamp);
    assert(line.subrange(target_from, target_from + target.len()) =~= target);
    assert(line.subrange(name_from, name_from + name.len()) =~= name);
    assert(line.skip(line.len() - message.len()) =~= message);
}

/// No two records that differ in one of their parts have the same log line.
pub proof fn log_lines_tell_records_apart(
    stamp: Seq<char>,
    target: Seq<char>,
    severity: Severity,
    message: Seq<char>,
    other_target: Seq<char>,
    other_severity: Severity,
    other_message: Seq<char>,
)
    ensures
        log_text(stamp, target, severity, message) == log_text(
            stamp,
            target,
            severity,
            other_message,
        ) ==> message == other_message,
        log_text(stamp, target, severity, message) == log_text(
            stamp,
            other_target,
            severity,
            message,
        ) ==> target == other_target,
        log_text(stamp, target, severity, message) == log_text(
            stamp,
            target,
            other_severity,
            message,
        ) ==> severity == other_severity,
{
    log_lines_hold_all_parts(stamp, target, severity, message);
    log_lines_hold_all_parts(stamp, target, severity, other_message);
    log_lines_hold_all_parts(stamp, other_target, severity, message);
    log_lines_hold_all_parts(stamp, target, other_severity, message);
    severities_have_names(severity);
    severities_have_names(other_severity);
    let line = log_text(stamp, target, severity, message);
    let other = log_text(stamp, target, other_severity, message);
    if line == other {
        assert(severity_text(severity) == severity_text(other_severity));
        let a = severity_text(severity);
        let b = severity_text(other_severity);
        assert(a[0] == b[0] && a.len() == b.len());
    }
}

/// The warning on a retried bind names the address, counts the attempt out of
/// those that may be made, and says what went wrong and how long the wait is;
/// the address and the count come first, the error and the delay last.
pub proof fn retries_are_told_in_full(
    laddr: Seq<char>,
    attempts: nat,
    limit: nat,
    error: Seq<char>,
    delay: Seq<char>,
)
    ensures
        ({
            let text = bind_retried_text(laddr, attempts, limit, error, delay);
            let head = "[tcp]failed to bind "@ + laddr + " (attempt "@;
            let tail = "): "@ + error + ", retry in "@ + delay;
            let count = text.subrange(head.len() as int, text.len() - tail.len());
            let slash = decimal(attempts).len() as int;
            &&& head.is_prefix_of(text)
            &&& tail.is_suffix_of(text)
            &&& count.len() == decimal(attempts).len() + 1 + decimal(limit).len()
            &&& reads(count.take(slash), attempts)
            &&& count[slash] == '/'
            &&& reads(count.skip(slash + 1), limit)
        }),
{
    let text = bind_retried_text(laddr, attempts, limit, error, delay);
    let head = "[tcp]failed to bind "@ + laddr + " (attempt "@;
    let tail = "): "@ + error + ", retry in "@ + delay;
    let count = text.subrange(head.len() as int, text.len() - tail.len());
    let slash = decimal(attempts).len() as int;
    reveal_strlit("/");
    decimals_read_back(attempts);
    decimals_read_back(limit);
    assert(text =~= head + (decimal(attempts) + "/"@ + decimal(limit)) + tail);
    assert(count =~= decimal(attempts) + "/"@ + decimal(limit));
    assert(count.take(slash) =~= decimal(attempts));
    assert(count.skip(slash + 1) =~= decimal(limit));
}

/// The error on a bind that is given up names the address, counts the attempts
/// that were made, and says what went wrong at the last one.
pub proof fn given_up_binds_are_told_in_full(laddr: Seq<char>, attempts: nat, error: Seq<char>)
    ensures
        ({
            let text = bind_given_up_text(laddr, attempts, error);
            let head = "[tcp]failed to bind "@ + laddr + " after "@;
            let tail = " attempt(s): "@ + error;
            &&& head.is_prefix_of(text)
            &&& tail.is_suffix_of(text)
            &&& text.len() == head.len() + decimal(attempts).len() + tail.len()
            &&& reads(text.subrange(head.len() as int, text.len() - tail.len()), attempts)
        }),
{
    let text = bind_given_up_text(laddr, attempts, error);
    let head = "[tcp]failed to bind "@ + laddr + " after "@;
    let tail = " attempt(s): "@ + error;
    decimals_read_back(attempts);
    assert(text =~= head + decimal(attempts) + tail);
    assert(text.subrange(head.len() as int, text.len() - tail.len()) =~= decimal(attempts));
}

/// A relayed connection that is over is told of with both its ends, and with
/// the error if there was one, in which case it is an error and not a mere
/// detail.
pub proof fn ended_relays_are_told_in_full(
    peer: Seq<char>,
    raddr: Seq<char>,
    error: Option<Seq<char>>,
)
    ensures
        ({
            let record = relay_ended_record(peer, raddr, error);
            let head = "[tcp]"@ + peer + " => "@ + raddr;
            let tail = match error {
                None => ", finish"@,
                Some(e) => ", error: "@ + e,
            };
            &&& head.is_prefix_of(record.message)
            &&& tail.is_suffix_of(record.message)
            &&& record.message.len() == head.len() + tail.len()
            &&& record.severity == Severity::Error <==> error is Some
            &&& record.severity == Severity::Debug <==> error is None
        }),
{
    let text = relay_ended_text(peer, raddr, error);
    let head = "[tcp]"@ + peer + " => "@ + raddr;
    let tail = match error {
        None => ", finish"@,
        Some(e) => ", error: "@ + e,
    };
    assert(text =~= head + tail);
    assert(text.subrange(0, head.len() as int) =~= head);
    assert(text.subrange(text.len() - tail.len(), text.len() as int) =~= tail);
}

/// Every message on a single failure, and every panic, ends with what went wrong
/// and begins with words that say where; nothing is left out and nothing put
/// between.
pub proof fn failures_are_told_in_full(laddr: Seq<char>, error: Seq<char>)
    ensures
        told(accept_failed_text(error), "[tcp]failed to accept: "@, error),
        told(round_failed_text(error), "[udp]error: "@, error),
        told(udp_bind_panic_text(laddr, error), "[udp]failed to bind "@ + laddr + ": "@, error),
        told(logger_panic_text(error), "failed to setup logger: "@, error),
        told(hangup_panic_text(error), "failed to install SIGHUP handler: "@, error),
{
    told_apart("[tcp]failed to accept: "@, error);
    told_apart("[udp]error: "@, error);
    told_apart("[udp]failed to bind "@ + laddr + ": "@, error);
    told_apart("failed to setup logger: "@, error);
    told_apart("failed to install SIGHUP handler: "@, error);
}

/// The text begins with the words, ends with the rest, and is no longer.
pub open spec fn told(text: Seq<char>, words: Seq<char>, rest: Seq<char>) -> bool {
    &&& text.len() == words.len() + rest.len()
    &&& words.is_prefix_of(text)
    &&& rest.is_suffix_of(text)
}

proof fn told_apart(words: Seq<char>, rest: Seq<char>)
    ensures
        told(words + rest, words, rest),
{
    let text = words + rest;
    assert(text.subrange(0, words.len() as int) =~= words);
    assert(text.subrange(text.len() - rest.len(), text.len() as int) =~= rest);
}

/// A notice begins with the word of its topic and then says all there is to say,
/// and nothing else; so no two notices that differ in what they say on a topic
/// are the same, nor two that say the same on different ones.
pub proof fn notices_say_it_all(
    topic: Topic,
    what: Seq<char>,
    other_topic: Topic,
    other_what: Seq<char>,
)
    ensures
        told(notice_text(topic, what), topic_text(topic), what),
        notice_text(topic, what) == notice_text(topic, other_what) ==> what == other_what,
        notice_text(topic, what) == notice_text(other_topic, what) ==> topic == other_topic,
{
    told_apart(topic_text(topic), what);
    told_apart(topic_text(topic), other_what);
    told_apart(topic_text(other_topic), what);
    topics_have_words(topic);
    topics_have_words(other_topic);
    if notice_text(topic, what) == notice_text(other_topic, what) {
        assert(topic_text(topic)[0] == notice_text(topic, what)[0]);
        assert(topic_text(other_topic)[0] == notice_text(other_topic, what)[0]);
    }
}

/// Each topic has a word of its own, which a colon and a space set off from what
/// the notice says.
pub proof fn topics_have_words(topic: Topic)
    ensures
        topic_text(topic) == match topic {
            Topic::Log => seq!['l', 'o', 'g', ':', ' '],
            Topic::Dns => seq!['d', 'n', 's', ':', ' '],
            Topic::Inited => seq!['i', 'n', 'i', 't', 'e', 'd', ':', ' '],
            Topic::Reload => seq!['r', 'e', 'l', 'o', 'a', 'd', ':', ' '],
        },
{
    reveal_strlit("log: ");
    reveal_strlit("dns: ");
    reveal_strlit("inited: ");
    reveal_strlit("reload: ");
    match topic {
        Topic::Log => assert("log: "@ =~= seq!['l', 'o', 'g', ':', ' ']),
        Topic::Dns => assert("dns: "@ =~= seq!['d', 'n', 's', ':', ' ']),
        Topic::Inited => assert("inited: "@ =~= seq!['i', 'n', 'i', 't', 'e', 'd', ':', ' ']),
        Topic::Reload => assert("reload: "@ =~= seq!['r', 'e', 'l', 'o', 'a', 'd', ':', ' ']),
    }
}

/// The view of a record leaves nothing out.
pub proof fn record_view_keeps_all(record: Record)
    ensures
        record@.severity == record.severity,
        record@.message == record.message@,
{
}

/// Within the years of four digits every time stamp takes the same room, so the
/// targets of log lines stand in one column.
pub proof fn stamps_have_one_width(t: LocalTime)
    requires
        t.wf(),
        t.year < 10_000,
    ensures
        stamp(t).len() == 22,
{
    reveal_with_fuel(decimal, 4);
    assert(decimal(t.year).len() == 4);
}

} // verus!
