//! The name of the output file.
//!
//! An output file is named after the second in which it is planned, in
//! UTC. Where a file of that name stands already, the name gets a number
//! behind its stamp, and the next number where that one is taken too, so
//! that no run writes where another has written. The caller reads the
//! clock; the calendar date of the reading is written by `chrono`.

use vstd::prelude::*;
use chrono::DateTime;
use crate::error::{ErrorKind, ErrorView, PipelineError};
use crate::text::{decimal_text, lemma_decimal_round_trip, push_decimal};

verus! {

/// `c` is one of the date and time items that a stamp may hold: year,
/// month, day, hour, minute or second, each as a number padded with zeros.
pub open spec fn is_stamp_item(c: char) -> bool {
    c == 'Y' || c == 'm' || c == 'd' || c == 'H' || c == 'M' || c == 'S'
}

/// `pattern` holds nothing but such items, each behind a `%`.
pub open spec fn is_stamp_pattern(pattern: Seq<char>) -> bool {
    &&& pattern.len() % 2 == 0
    &&& forall|i: int|
        0 <= i < pattern.len() ==> if i % 2 == 0 {
            #[trigger] pattern[i] == '%'
        } else {
            is_stamp_item(pattern[i])
        }
}

/// The pattern of the stamp in an output file's name: year, month, day,
/// hour, minute and second, with nothing between them.
pub open spec fn stamp_pattern() -> Seq<char> {
    "%Y%m%d%H%M%S"@
}

/// What `DateTime::from_timestamp` and then `DateTime::format` give for a
/// count of seconds since 1970 and a pattern: the date and time in UTC,
/// written as the pattern says, or `None` where the count stands for no
/// date that `chrono` can hold.
pub uninterp spec fn utc_text(seconds: int, pattern: Seq<char>) -> Option<Seq<char>>;

/// `DateTime::from_timestamp`, with no nanoseconds, and `DateTime::format`
/// on the moment that it gives, turned into a string. The first returns
/// `None` for a count that is out of range. The second fails only on a
/// pattern that it cannot read or that asks for what the moment lacks; a
/// pattern of the six numeric items is neither. Both depend on their
/// arguments alone: the time zone is UTC and no locale is read.
#[verifier::external_body]
fn format_utc(seconds: i64, pattern: &str) -> (text: Option<String>)
    requires
        is_stamp_pattern(pattern@),
    ensures
        match text {
            Some(stamp) => utc_text(seconds as int, pattern@) == Some(stamp@),
            None => utc_text(seconds as int, pattern@) is None,
        },
{
    DateTime::from_timestamp(seconds, 0).map(|moment| moment.format(pattern).to_string())
}

/// The name of the output file that is stamped `stamp`, at the given
/// attempt: the stamp alone at the first, which is attempt 0, and the stamp
/// with the number of the attempt behind it at every later one.
pub open spec fn output_name(stamp: Seq<char>, attempt: nat) -> Seq<char> {
    if attempt == 0 {
        "trimmed_"@ + stamp + ".mp4"@
    } else {
        "trimmed_"@ + stamp + "_"@ + decimal_text(attempt) + ".mp4"@
    }
}

/// The error for a clock reading that stands for no date.
pub open spec fn clock_error() -> ErrorView {
    ErrorView { kind: ErrorKind::ClockOutOfRange, detail: Seq::empty() }
}

/// The stamp for a clock reading, in seconds since 1970.
pub open spec fn stamp_at(seconds: int) -> Result<Seq<char>, ErrorView> {
    match utc_text(seconds, stamp_pattern()) {
        Some(stamp) => Ok(stamp),
        None => Err(clock_error()),
    }
}

/// The stamp for the clock reading `seconds`, in seconds since 1970.
///
/// Fails with `ClockOutOfRange` where the reading stands for no date.
pub fn output_stamp(seconds: i64) -> (r: Result<String, PipelineError>)
    ensures
        match stamp_at(seconds as int) {
            Ok(stamp) => r matches Ok(s) && s@ == stamp,
            Err(error) => r matches Err(e) && e@ == error,
        },
{
    proof {
        reveal_strlit("%Y%m%d%H%M%S");
    }
    match format_utc(seconds, "%Y%m%d%H%M%S") {
        Some(stamp) => Ok(stamp),
        None => Err(PipelineError::bare(ErrorKind::ClockOutOfRange)),
    }
}

/// The name of the output file that is stamped `stamp`, at the given
/// attempt.
pub fn output_file_name(stamp: &str, attempt: u64) -> (name: String)
    ensures
        name@ == output_name(stamp@, attempt as nat),
{
    let mut name = String::from_str("trimmed_");
    name.append(stamp);
    if attempt != 0 {
        name.append("_");
        push_decimal(&mut name, attempt as u128);
    }
    name.append(".mp4");
    name
}

/// Two different stamps never give the same first name.
pub proof fn lemma_output_names_differ(first: Seq<char>, second: Seq<char>)
    requires
        first != second,
    ensures
        output_name(first, 0) != output_name(second, 0),
{
    reveal_strlit("trimmed_");
    reveal_strlit(".mp4");
    let a = output_name(first, 0);
    let b = output_name(second, 0);
    if a == b {
        assert(a.len() == first.len() + 12);
        assert(b.len() == second.len() + 12);
        assert(a.subrange(8, 8 + first.len() as int) =~= first);
        assert(b.subrange(8, 8 + second.len() as int) =~= second);
        assert(first =~= second);
    }
}

/// Two different attempts under one stamp never give the same name.
pub proof fn lemma_attempts_differ(stamp: Seq<char>, first: nat, second: nat)
    requires
        first != second,
    ensures
        output_name(stamp, first) != output_name(stamp, second),
{
    reveal_strlit("trimmed_");
    reveal_strlit(".mp4");
    reveal_strlit("_");
    let a = output_name(stamp, first);
    let b = output_name(stamp, second);
    let at = 8 + stamp.len() as int;
    if first == 0 {
        assert(a[at] == '.');
        assert(b[at] == '_');
    } else if second == 0 {
        assert(a[at] == '_');
        assert(b[at] == '.');
    } else if a == b {
        let m = decimal_text(first);
        let n = decimal_text(second);
        lemma_decimal_round_trip(first);
        lemma_decimal_round_trip(second);
        assert(a.len() == at + 1 + m.len() + 4);
        assert(b.len() == at + 1 + n.len() + 4);
        assert(a.subrange(at + 1, at + 1 + m.len() as int) =~= m);
        assert(b.subrange(at + 1, at + 1 + n.len() as int) =~= n);
        assert(m =~= n);
    }
}

} // verus!
