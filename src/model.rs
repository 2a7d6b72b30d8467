use crate::date::{valid_date, Timestamp};
use chrono::{Datelike, Timelike};
use crate::path::{optional_paths_view, FsPath, PathView};
use vstd::prelude::*;

verus! {

/// The calendar periods that files can be grouped by.
#[derive(Clone, Copy, Debug, PartialEq, Eq, Structural)]
pub enum GroupBy {
    /// Group by ISO week (e.g., 2025-W49)
    Week,
    /// Group by biweekly period (e.g., 2025-BW01 through 2025-BW26)
    Biweekly,
    /// Group by month (e.g., 2025-11)
    Month,
    /// Group by trimester/quarter (e.g., 2025-Q1 through 2025-Q4)
    Trimester,
    /// Group by quadrimester (e.g., 2025-QD1 through 2025-QD3)
    Quadrimester,
    /// Group by semester/half-year (e.g., 2025-H1, 2025-H2)
    Semester,
    /// Group by year (e.g., 2025)
    Year,
}

/// The timestamps of a file that its date can be taken from.
#[derive(Clone, Copy, Debug, PartialEq, Eq, Structural)]
pub enum FileDateType {
    Created,
    Modified,
    Accessed,
}

} // verus!

verus! {

/// The settings of one run.
#[derive(Debug)]
pub struct Args {
    /// Source directory containing files to organize
    pub source: FsPath,
    /// Destination directory where files will be moved
    pub destination: FsPath,
    /// Optional grouping strategy
    pub group_by: Option<GroupBy>,
    /// Only move files from previous periods (not current period); only has an effect with `group_by`
    pub previous_period_only: bool,
    /// Only move files dated strictly before this instant
    pub older_than: Option<Timestamp>,
    /// Which timestamps to check; a file's date is the latest of them
    pub file_date_types: Vec<FileDateType>,
    /// Files and folders to leave alone
    pub ignored_paths: Option<Vec<FsPath>>,
    /// Minimum directory depth to search
    pub min_depth: Option<usize>,
    /// Maximum directory depth to search
    pub max_depth: Option<usize>,
    /// Keep empty folders after moving files
    pub keep_empty_folders: bool,
    /// Follow symbolic links while traversing
    pub follow_symbolic_links: bool,
    /// Preview what would be moved without actually moving files
    pub dry_run: bool,
}

impl Args {
    pub open spec fn wf(&self) -> bool {
        self.older_than matches Some(c) ==> c.wf()
    }

    /// The ignored paths, none where the list is absent.
    pub open spec fn ignored_view(&self) -> Seq<PathView> {
        optional_paths_view(self.ignored_paths)
    }
}

} // verus!

verus! {

/// A character with ASCII upper case letters mapped to lower case.
pub open spec fn ascii_lower_char(c: char) -> char {
    if 'A' <= c && c <= 'Z' {
        ((c as u8) + 32) as char
    } else {
        c
    }
}

/// A string with ASCII upper case letters mapped to lower case, as `to_ascii_lowercase` does.
pub open spec fn ascii_lower(s: Seq<char>) -> Seq<char> {
    Seq::new(s.len(), |i: int| ascii_lower_char(s[i]))
}

/// The timestamp type that a trimmed name stands for: its full name or its first
/// letter, in any ASCII case.
pub open spec fn date_type_named(trimmed: Seq<char>) -> Option<FileDateType> {
    let l = ascii_lower(trimmed);
    if l == seq!['c'] || l == seq!['c', 'r', 'e', 'a', 't', 'e', 'd'] {
        Some(FileDateType::Created)
    } else if l == seq!['m'] || l == seq!['m', 'o', 'd', 'i', 'f', 'i', 'e', 'd'] {
        Some(FileDateType::Modified)
    } else if l == seq!['a'] || l == seq!['a', 'c', 'c', 'e', 's', 's', 'e', 'd'] {
        Some(FileDateType::Accessed)
    } else {
        None
    }
}

/// The message for a name that stands for no timestamp type.
pub open spec fn unsupported_date_type_message(trimmed: Seq<char>) -> Seq<char> {
    "Unsupported file date type: "@ + trimmed
        + ". Please use one of the following: created (c), modified (m), accessed (a)"@
}

/// Whether a character has Unicode's White_Space property, as `char::is_whitespace` tells.
pub open spec fn is_white_space(c: char) -> bool {
    let u = c as u32;
    ||| 0x9 <= u <= 0xD
    ||| u == 0x20 || u == 0x85 || u == 0xA0 || u == 0x1680
    ||| 0x2000 <= u <= 0x200A
    ||| u == 0x2028 || u == 0x2029 || u == 0x202F || u == 0x205F || u == 0x3000
}

/// The string with leading and trailing white space removed, as `str::trim` gives it.
pub open spec fn trim_of(s: Seq<char>) -> Seq<char>
    decreases s.len(),
{
    if s.len() > 0 && is_white_space(s[0]) {
        trim_of(s.drop_first())
    } else if s.len() > 0 && is_white_space(s.last()) {
        trim_of(s.drop_last())
    } else {
        s
    }
}

/// Relies on `str::trim`: the slice without its leading and trailing white space, as
/// Unicode's White_Space property (`char::is_whitespace`) defines it.
#[verifier::external_body]
fn trim<'a>(s: &'a str) -> (r: &'a str)
    ensures
        r@ == trim_of(s@),
{
    s.trim()
}

/// Whether `s` equals the lower-case ASCII text `lower` when its ASCII letters are
/// taken in lower case.
fn matches_ignoring_ascii_case(s: &str, lower: &str) -> (r: bool)
    ensures
        r == (ascii_lower(s@) == lower@),
{
    let n = s.unicode_len();
    if n != lower.unicode_len() {
        proof {
            if ascii_lower(s@) == lower@ {
                assert(ascii_lower(s@).len() == s@.len());
            }
        }
        return false;
    }
    let mut i: usize = 0;
    while i < n
        invariant
            n == s@.len(),
            n == lower@.len(),
            i <= n,
            forall|j: int| 0 <= j < i ==> ascii_lower_char(s@[j]) == lower@[j],
        decreases n - i,
    {
        let c = s.get_char(i);
        let d = lower.get_char(i);
        let lc = if 'A' <= c && c <= 'Z' {
            ((c as u8) + 32) as char
        } else {
            c
        };
        if lc != d {
            proof {
                assert(ascii_lower(s@)[i as int] != lower@[i as int]);
            }
            return false;
        }
        i = i + 1;
    }
    proof {
        assert(ascii_lower(s@) =~= lower@);
    }
    true
}

/// Reads a timestamp type from a name that has already been trimmed.
pub fn parse_trimmed_date_type(trimmed: &str) -> (r: Result<FileDateType, String>)
    ensures
        r matches Ok(t) ==> date_type_named(trimmed@) == Some(t),
        r matches Err(msg) ==> date_type_named(trimmed@) is None && msg@
            == unsupported_date_type_message(trimmed@),
{
    proof {
        reveal_strlit("c");
        reveal_strlit("created");
        reveal_strlit("m");
        reveal_strlit("modified");
        reveal_strlit("a");
        reveal_strlit("accessed");
        assert("c"@ =~= seq!['c']);
        assert("created"@ =~= seq!['c', 'r', 'e', 'a', 't', 'e', 'd']);
        assert("m"@ =~= seq!['m']);
        assert("modified"@ =~= seq!['m', 'o', 'd', 'i', 'f', 'i', 'e', 'd']);
        assert("a"@ =~= seq!['a']);
        assert("accessed"@ =~= seq!['a', 'c', 'c', 'e', 's', 's', 'e', 'd']);
    }
    if matches_ignoring_ascii_case(trimmed, "c") || matches_ignoring_ascii_case(
        trimmed,
        "created",
    ) {
        return Ok(FileDateType::Created);
    }
    if matches_ignoring_ascii_case(trimmed, "m") || matches_ignoring_ascii_case(
        trimmed,
        "modified",
    ) {
        return Ok(FileDateType::Modified);
    }
    if matches_ignoring_ascii_case(trimmed, "a") || matches_ignoring_ascii_case(
        trimmed,
        "accessed",
    ) {
        return Ok(FileDateType::Accessed);
    }
    let mut msg = String::from_str("Unsupported file date type: ");
    msg.append(trimmed);
    msg.append(". Please use one of the following: created (c), modified (m), accessed (a)");
    Err(msg)
}

/// Parse file date type from string: surrounding white space is ignored, and the
/// name is either the full name or its first letter, in any ASCII case.
pub fn file_date_type_parser(value: &str) -> (r: Result<FileDateType, String>)
    ensures
        r matches Ok(t) ==> date_type_named(trim_of(value@)) == Some(t),
        r matches Err(msg) ==> date_type_named(trim_of(value@)) is None && msg@
            == unsupported_date_type_message(trim_of(value@)),
{
    let trimmed = trim(value);
    parse_trimmed_date_type(trimmed)
}

} // verus!

verus! {

/// Why the settings of a run are refused.
#[derive(Clone, Copy, Debug, PartialEq, Eq, Structural)]
pub enum ArgumentError {
    /// Source directory does not exist.
    SourceMissing,
    /// Source path is not a directory.
    SourceNotDirectory,
    /// Destination path is not a directory.
    DestinationNotDirectory,
    /// Source and destination directories are the same.
    SameSourceAndDestination,
    /// The minimum depth exceeds the maximum depth.
    DepthRange { min_depth: usize, max_depth: usize },
}

/// The verdict on the settings of a run, given what the file system says of the source
/// and of the destination (after a missing destination was created).
pub open spec fn argument_check(
    args: Args,
    source_exists: bool,
    source_is_dir: bool,
    destination_is_dir: bool,
) -> Result<(), ArgumentError> {
    if !source_exists {
        Err(ArgumentError::SourceMissing)
    } else if !source_is_dir {
        Err(ArgumentError::SourceNotDirectory)
    } else if !destination_is_dir {
        Err(ArgumentError::DestinationNotDirectory)
    } else if args.source@ == args.destination@ {
        Err(ArgumentError::SameSourceAndDestination)
    } else if args.min_depth is Some && args.max_depth is Some && args.min_depth->Some_0
        > args.max_depth->Some_0 {
        Err(
            ArgumentError::DepthRange {
                min_depth: args.min_depth->Some_0,
                max_depth: args.max_depth->Some_0,
            },
        )
    } else {
        Ok(())
    }
}

/// Checks the settings of a run, given what the file system says of the source and of
/// the destination (after a missing destination was created).
pub fn validate_arguments(
    args: &Args,
    source_exists: bool,
    source_is_dir: bool,
    destination_is_dir: bool,
) -> (r: Result<(), ArgumentError>)
    ensures
        r == argument_check(*args, source_exists, source_is_dir, destination_is_dir),
{
    if !source_exists {
        return Err(ArgumentError::SourceMissing);
    }
    if !source_is_dir {
        return Err(ArgumentError::SourceNotDirectory);
    }
    if !destination_is_dir {
        return Err(ArgumentError::DestinationNotDirectory);
    }
    if args.source.same_as(&args.destination) {
        return Err(ArgumentError::SameSourceAndDestination);
    }
    match (args.min_depth, args.max_depth) {
        (Some(min_depth), Some(max_depth)) => {
            if min_depth > max_depth {
                return Err(ArgumentError::DepthRange { min_depth, max_depth });
            }
        },
        _ => {},
    }
    Ok(())
}

impl Args {
    /// Whether only previous periods are asked for without a grouping, which leaves
    /// that filter without effect.
    pub fn period_filter_is_inert(&self) -> (r: bool)
        ensures
            r == (self.previous_period_only && self.group_by is None),
    {
        self.previous_period_only && self.group_by.is_none()
    }

    /// Whether folders left empty after a run are removed: only on a real run, and
    /// unless they are to be kept.
    pub fn removes_empty_folders(&self) -> (r: bool)
        ensures
            r == (!self.dry_run && !self.keep_empty_folders),
    {
        !self.dry_run && !self.keep_empty_folders
    }
}

} // verus!

verus! {

/// The local date and time that a text of the form `2025-01-15T06:30:53` holds.
pub uninterp spec fn datetime_in_text(s: Seq<char>) -> Option<Timestamp>;

/// The date that a text of the form `2025-01-15` holds.
pub uninterp spec fn date_in_text(s: Seq<char>) -> Option<(int, int, int)>;

/// The number of ASCII digits in a text.
pub open spec fn digit_count(s: Seq<char>) -> nat
    decreases s.len(),
{
    if s.len() == 0 {
        0
    } else {
        digit_count(s.drop_last()) + if '0' <= s.last() && s.last() <= '9' {
            1nat
        } else {
            0nat
        }
    }
}

/// The local date and time `t`, in a zone `local_offset` seconds ahead of UTC, as a UTC
/// instant, where chrono can hold it.
pub uninterp spec fn utc_of_local(t: Timestamp, local_offset: int) -> Option<Timestamp>;

/// The length, in seconds and nanoseconds, of a duration written as `30d` or `1y6M`.
pub uninterp spec fn duration_in_text(s: Seq<char>) -> Option<(int, int)>;

/// The instant `seconds` and `nanos` before `t`, where chrono can hold it.
pub uninterp spec fn shifted_back(t: Timestamp, seconds: int, nanos: int) -> Option<Timestamp>;

/// Relies on chrono's `NaiveDateTime::parse_from_str` with the format
/// `%Y-%m-%dT%H:%M:%S`, and on `Datelike` and `Timelike` to read the fields back;
/// chrono only holds valid dates and times.
#[verifier::external_body]
fn parse_iso_datetime(value: &str) -> (r: Option<Timestamp>)
    ensures
        r == datetime_in_text(value@),
        r matches Some(t) ==> t.wf(),
{
    match chrono::NaiveDateTime::parse_from_str(value, "%Y-%m-%dT%H:%M:%S") {
        Ok(dt) => Some(Timestamp {
            year: dt.year(),
            month: dt.month(),
            day: dt.day(),
            hour: dt.hour(),
            minute: dt.minute(),
            second: dt.second(),
            nanosecond: dt.nanosecond(),
        }),
        Err(_) => None,
    }
}

/// Relies on chrono's `NaiveDate::parse_from_str` with the format `%Y-%m-%d`, and on
/// `Datelike` to read the fields back; chrono only holds valid dates.
#[verifier::external_body]
fn parse_iso_date(value: &str) -> (r: Option<(i32, u32, u32)>)
    ensures
        r matches Some(d) ==> valid_date(d.0 as int, d.1 as int, d.2 as int),
        match r {
            Some(d) => date_in_text(value@) == Some((d.0 as int, d.1 as int, d.2 as int)),
            None => date_in_text(value@) is None,
        },
{
    match chrono::NaiveDate::parse_from_str(value, "%Y-%m-%d") {
        Ok(d) => Some((d.year(), d.month(), d.day())),
        Err(_) => None,
    }
}

/// Relies on humantime's `parse_duration`, read back through `Duration::as_secs` and
/// `Duration::subsec_nanos`, which is always below a billion. humantime panics when its
/// total reaches `u64::MAX` seconds, which the bound on digits rules out.
/// A text with at most this many ASCII digits adds up to less than `u64::MAX` seconds
/// in humantime, whose largest unit is a year of 31,557,600 seconds.
pub const MAX_DURATION_DIGITS: usize = 11;

#[verifier::external_body]
fn parse_duration(value: &str) -> (r: Option<(u64, u32)>)
    requires
        digit_count(value@) <= MAX_DURATION_DIGITS,
    ensures
        match r {
            Some(d) => duration_in_text(value@) == Some((d.0 as int, d.1 as int)),
            None => duration_in_text(value@) is None,
        },
        r matches Some(d) ==> d.1 < 1_000_000_000,
{
    match humantime::parse_duration(value) {
        Ok(d) => Some((d.as_secs(), d.subsec_nanos())),
        Err(_) => None,
    }
}

/// Relies on chrono's `TimeDelta::new` and `NaiveDateTime::checked_sub_signed`: `None`
/// where the span or the result is out of chrono's range, and a valid date and time
/// otherwise.
#[verifier::external_body]
fn checked_shift_back(t: Timestamp, seconds: i64, nanos: u32) -> (r: Option<Timestamp>)
    requires
        t.wf(),
    ensures
        r == shifted_back(t, seconds as int, nanos as int),
        r matches Some(u) ==> u.wf(),
{
    let start = chrono::NaiveDate::from_ymd_opt(t.year, t.month, t.day)?
        .and_hms_nano_opt(t.hour, t.minute, t.second, t.nanosecond)?;
    let dt = start.checked_sub_signed(chrono::TimeDelta::new(seconds, nanos)?)?;
    Some(Timestamp {
        year: dt.year(),
        month: dt.month(),
        day: dt.day(),
        hour: dt.hour(),
        minute: dt.minute(),
        second: dt.second(),
        nanosecond: dt.nanosecond(),
    })
}

} // verus!

verus! {

/// Relies on chrono's `FixedOffset::east_opt` (an offset under a day either way),
/// `NaiveDateTime::and_local_timezone`, which for a fixed offset subtracts it and keeps
/// a leap second (`checked_sub_offset`), and `DateTime::to_utc`; `None` where the offset
/// or the result is out of chrono's range, and a valid date and time otherwise.
#[verifier::external_body]
fn local_to_utc(t: Timestamp, local_offset: i32) -> (r: Option<Timestamp>)
    requires
        t.wf(),
    ensures
        r == utc_of_local(t, local_offset as int),
        r matches Some(u) ==> u.wf(),
{
    let offset = chrono::FixedOffset::east_opt(local_offset)?;
    let local = chrono::NaiveDate::from_ymd_opt(t.year, t.month, t.day)?
        .and_hms_nano_opt(t.hour, t.minute, t.second, t.nanosecond)?;
    let dt = local.and_local_timezone(offset).single()?.to_utc();
    Some(Timestamp {
        year: dt.year(),
        month: dt.month(),
        day: dt.day(),
        hour: dt.hour(),
        minute: dt.minute(),
        second: dt.second(),
        nanosecond: dt.nanosecond(),
    })
}

/// The number of ASCII digits in `s`.
pub fn count_ascii_digits(s: &str) -> (r: usize)
    ensures
        r == digit_count(s@),
{
    let n = s.unicode_len();
    let mut count: usize = 0;
    let mut i: usize = 0;
    while i < n
        invariant
            n == s@.len(),
            i <= n,
            count <= i,
            count == digit_count(s@.subrange(0, i as int)),
        decreases n - i,
    {
        let c = s.get_char(i);
        proof {
            assert(s@.subrange(0, i as int + 1).drop_last() =~= s@.subrange(0, i as int));
        }
        if '0' <= c && c <= '9' {
            count = count + 1;
        }
        i = i + 1;
    }
    proof {
        assert(s@.subrange(0, i as int) =~= s@);
    }
    count
}

/// Why an `--older-than` value is refused.
#[derive(Clone, Copy, Debug, PartialEq, Eq, Structural)]
pub enum OlderThanError {
    /// The value is neither a date and time, a date, nor a duration that leads to an
    /// instant chrono can hold.
    InvalidFormat,
}

impl OlderThanError {
    /// The message that explains the accepted forms.
    pub fn message(&self) -> (r: String)
        ensures
            r@ == "Invalid format. Use duration (e.g., '30d', '1y6M'), ISO date ('2025-01-15'), or ISO datetime ('2025-01-15T10:30:00')"@,
    {
        String::from_str(
            "Invalid format. Use duration (e.g., '30d', '1y6M'), ISO date ('2025-01-15'), or ISO datetime ('2025-01-15T10:30:00')",
        )
    }
}

/// The start of a day.
pub open spec fn midnight(date: (int, int, int)) -> Timestamp {
    Timestamp {
        year: date.0 as i32,
        month: date.1 as u32,
        day: date.2 as u32,
        hour: 0,
        minute: 0,
        second: 0,
        nanosecond: 0,
    }
}

/// The UTC instant of a local date and time in a zone `local_offset` seconds ahead of UTC.
pub open spec fn optional_utc_of_local(local: Option<Timestamp>, local_offset: int) -> Option<
    Timestamp,
> {
    match local {
        Some(t) => utc_of_local(t, local_offset),
        None => None,
    }
}

/// The cutoff that an `--older-than` value stands for: a local date and time, else a
/// local date at midnight, else a duration back from `now` (written with at most
/// `MAX_DURATION_DIGITS` digits); the first that applies.
pub open spec fn older_than_cutoff(text: Seq<char>, local_offset: int, now: Timestamp) -> Option<
    Timestamp,
> {
    let from_datetime = optional_utc_of_local(datetime_in_text(text), local_offset);
    let from_date = match date_in_text(text) {
        Some(d) => utc_of_local(midnight(d), local_offset),
        None => None,
    };
    let from_duration = if digit_count(text) > MAX_DURATION_DIGITS {
        None
    } else {
        match duration_in_text(text) {
            Some(d) => if d.0 <= i64::MAX {
                shifted_back(now, d.0, d.1)
            } else {
                None
            },
            None => None,
        }
    };
    if from_datetime is Some {
        from_datetime
    } else if from_date is Some {
        from_date
    } else {
        from_duration
    }
}

/// Parse --older-than argument (duration or ISO date/datetime). A date and time, or a
/// date, is read in the zone `local_offset_seconds` ahead of UTC; a duration counts back
/// from `now`.
pub fn parse_older_than(value: &str, local_offset_seconds: i32, now: Timestamp) -> (r: Result<
    Timestamp,
    OlderThanError,
>)
    requires
        now.wf(),
    ensures
        match older_than_cutoff(value@, local_offset_seconds as int, now) {
            Some(t) => r == Ok::<Timestamp, OlderThanError>(t),
            None => r == Err::<Timestamp, OlderThanError>(OlderThanError::InvalidFormat),
        },
        r matches Ok(t) ==> t.wf(),
{
    match parse_iso_datetime(value) {
        Some(local) => match local_to_utc(local, local_offset_seconds) {
            Some(t) => {
                return Ok(t);
            },
            None => {},
        },
        None => {},
    }
    match parse_iso_date(value) {
        Some(d) => {
            let local = Timestamp {
                year: d.0,
                month: d.1,
                day: d.2,
                hour: 0,
                minute: 0,
                second: 0,
                nanosecond: 0,
            };
            assert(local == midnight((d.0 as int, d.1 as int, d.2 as int)));
            match local_to_utc(local, local_offset_seconds) {
                Some(t) => {
                    return Ok(t);
                },
                None => {},
            }
        },
        None => {},
    }
    if count_ascii_digits(value) > MAX_DURATION_DIGITS {
        return Err(OlderThanError::InvalidFormat);
    }
    match parse_duration(value) {
        Some(d) => {
            if d.0 <= i64::MAX as u64 {
                match checked_shift_back(now, d.0 as i64, d.1) {
                    Some(t) => {
                        return Ok(t);
                    },
                    None => {},
                }
            }
        },
        None => {},
    }
    Err(OlderThanError::InvalidFormat)
}

} // verus!
