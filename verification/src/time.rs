//! Time offsets written as `HH:MM:SS`.
//!
//! A time string holds three fields separated by colons: hours, minutes and
//! seconds. Each field is a number written with decimal digits and at most
//! one decimal point, with a digit on at least one side of the point. An
//! offset is counted in whole milliseconds; digits past the third decimal
//! place are dropped.

use vstd::prelude::*;
use crate::error::{ErrorKind, ErrorView, PipelineError};
use crate::text::{
    all_digits, chars_of, decimal_string, decimal_text, decimal_value, digit_char, digit_of,
    digit_text, digit_value, is_digit, joined, lemma_decimal_prefix, lemma_decimal_round_trip,
    lemma_decimal_step, nul_free,
};

verus! {

/// The fields of `s`: the pieces between its colons, in order. A string
/// without a colon is one field; two neighbouring colons hold an empty
/// field between them.
pub open spec fn split_fields(s: Seq<char>) -> Seq<Seq<char>>
    decreases s.len(),
{
    if s.len() == 0 {
        seq![Seq::empty()]
    } else {
        let before = split_fields(s.drop_last());
        if s.last() == ':' {
            before.push(Seq::empty())
        } else {
            before.drop_last().push(before.last().push(s.last()))
        }
    }
}

/// How many colons `s` holds.
pub open spec fn colon_count(s: Seq<char>) -> nat
    decreases s.len(),
{
    if s.len() == 0 {
        0
    } else {
        colon_count(s.drop_last()) + if s.last() == ':' {
            1nat
        } else {
            0nat
        }
    }
}

/// `s` holds no colon.
pub open spec fn colon_free(s: Seq<char>) -> bool {
    forall|i: int| 0 <= i < s.len() ==> #[trigger] s[i] != ':'
}

/// Where the first decimal point of `f` stands; the length of `f` if it has
/// none.
pub open spec fn point_position(f: Seq<char>) -> int
    decreases f.len(),
{
    if f.len() == 0 || f[0] == '.' {
        0
    } else {
        1 + point_position(f.drop_first())
    }
}

/// What stands before the decimal point of `f`.
pub open spec fn whole_part(f: Seq<char>) -> Seq<char> {
    f.take(point_position(f))
}

/// What stands behind the decimal point of `f`; empty if it has none.
pub open spec fn fraction_part(f: Seq<char>) -> Seq<char> {
    if point_position(f) < f.len() {
        f.skip(point_position(f) + 1)
    } else {
        Seq::empty()
    }
}

/// `f` is written as a number: digits, at most one decimal point, and at
/// least one digit.
pub open spec fn is_number(f: Seq<char>) -> bool {
    &&& all_digits(whole_part(f))
    &&& all_digits(fraction_part(f))
    &&& whole_part(f).len() + fraction_part(f).len() >= 1
}

/// The digit at place `i` of `s`, 0 where `s` has ended.
pub open spec fn digit_at(s: Seq<char>, i: int) -> int {
    if 0 <= i < s.len() {
        digit_of(s[i])
    } else {
        0
    }
}

/// The thousandths that the decimal places `fraction` stand for.
pub open spec fn fraction_millis(fraction: Seq<char>) -> int {
    digit_at(fraction, 0) * 100 + digit_at(fraction, 1) * 10 + digit_at(fraction, 2)
}

/// The number `f` in thousandths, rounded down.
pub open spec fn field_millis(f: Seq<char>) -> nat {
    (decimal_value(whole_part(f)) * 1000 + fraction_millis(fraction_part(f))) as nat
}

/// `f` is a number whose thousandths fit in 64 bits.
pub open spec fn is_field(f: Seq<char>) -> bool {
    is_number(f) && field_millis(f) <= u64::MAX
}

/// The milliseconds of an offset of the given hours, minutes and seconds,
/// each in thousandths.
pub open spec fn total_millis(hours: nat, minutes: nat, seconds: nat) -> nat {
    hours * 3600 + minutes * 60 + seconds
}

/// The error for a time string without exactly three fields.
pub open spec fn format_error() -> ErrorView {
    ErrorView { kind: ErrorKind::InvalidTimeFormat, detail: Seq::empty() }
}

/// The error for a time string whose field `name` is no number.
pub open spec fn component_error(name: Seq<char>) -> ErrorView {
    ErrorView { kind: ErrorKind::InvalidTimeComponent, detail: name }
}

/// What a time string stands for: its offset in milliseconds, or the error
/// of the first thing wrong with it.
pub open spec fn parse_time_spec(s: Seq<char>) -> Result<nat, ErrorView> {
    let fields = split_fields(s);
    if fields.len() != 3 {
        Err(format_error())
    } else if !is_field(fields[0]) {
        Err(component_error("hours"@))
    } else if !is_field(fields[1]) {
        Err(component_error("minutes"@))
    } else if !is_field(fields[2]) {
        Err(component_error("seconds"@))
    } else {
        Ok(
            total_millis(
                field_millis(fields[0]),
                field_millis(fields[1]),
                field_millis(fields[2]),
            ),
        )
    }
}

/// A string has one field more than it has colons, and no field holds a
/// colon.
pub proof fn lemma_split_fields(s: Seq<char>)
    ensures
        split_fields(s).len() == colon_count(s) + 1,
        forall|i: int| 0 <= i < split_fields(s).len() ==> colon_free(#[trigger] split_fields(s)[i]),
    decreases s.len(),
{
    if s.len() > 0 {
        lemma_split_fields(s.drop_last());
    }
}

/// The fields of a string, joined by colons, are the string again.
pub proof fn lemma_split_joins_back(s: Seq<char>)
    ensures
        joined(split_fields(s), seq![':']) == s,
    decreases s.len(),
{
    let colon = seq![':'];
    if s.len() == 0 {
        assert(joined(split_fields(s), colon) =~= s);
    } else {
        let rest = s.drop_last();
        let before = split_fields(rest);
        let fields = split_fields(s);
        lemma_split_joins_back(rest);
        lemma_split_fields(rest);
        assert(s =~= rest.push(s.last()));
        if s.last() == ':' {
            assert(fields.drop_last() =~= before);
            assert(joined(fields, colon) =~= joined(before, colon) + colon);
        } else if before.len() == 1 {
            assert(joined(fields, colon) =~= before[0].push(s.last()));
        } else {
            assert(fields.drop_last() =~= before.drop_last());
            assert(joined(fields, colon) =~= joined(before, colon).push(s.last()));
        }
    }
}

/// A string without exactly two colons is no time string.
pub proof fn lemma_time_needs_two_colons(s: Seq<char>)
    ensures
        colon_count(s) != 2 <==> parse_time_spec(s) == Err::<nat, ErrorView>(format_error()),
{
    lemma_split_fields(s);
}

/// Text without a colon, put behind a string, lengthens its last field.
pub proof fn lemma_split_extend(a: Seq<char>, t: Seq<char>)
    requires
        colon_free(t),
    ensures
        split_fields(a + t) == split_fields(a).drop_last().push(split_fields(a).last() + t),
    decreases t.len(),
{
    lemma_split_fields(a);
    let base = split_fields(a);
    if t.len() == 0 {
        assert(a + t =~= a);
        assert(base.last() + t =~= base.last());
        assert(base.drop_last().push(base.last()) =~= base);
    } else {
        let shorter = t.drop_last();
        assert(colon_free(shorter)) by {
            assert forall|i: int| 0 <= i < shorter.len() implies #[trigger] shorter[i] != ':' by {
                assert(shorter[i] == t[i]);
            }
        }
        lemma_split_extend(a, shorter);
        assert((a + t).drop_last() =~= a + shorter);
        assert((a + t).last() == t.last());
        assert(t.last() == t[t.len() - 1]);
        let before = split_fields(a + shorter);
        assert(before.drop_last() =~= base.drop_last());
        assert(before.last().push(t.last()) =~= base.last() + t);
    }
}

/// A colon put behind a string opens a new, empty field.
pub proof fn lemma_split_colon(a: Seq<char>)
    ensures
        split_fields(a + seq![':']) == split_fields(a).push(Seq::empty()),
{
    assert((a + seq![':']).drop_last() =~= a);
}

/// Three colon-free texts joined by colons are the three fields of the
/// result.
pub proof fn lemma_split_three(h: Seq<char>, m: Seq<char>, s: Seq<char>)
    requires
        colon_free(h),
        colon_free(m),
        colon_free(s),
    ensures
        split_fields(h + seq![':'] + m + seq![':'] + s) == seq![h, m, s],
{
    let empty = Seq::<char>::empty();
    lemma_split_extend(empty, h);
    assert(split_fields(empty) =~= seq![empty]);
    assert(empty + h =~= h);
    assert(split_fields(h) =~= seq![h]);
    lemma_split_colon(h);
    let a1 = h + seq![':'];
    assert(split_fields(a1) =~= seq![h, empty]);
    lemma_split_extend(a1, m);
    let a2 = a1 + m;
    assert(empty + m =~= m);
    assert(split_fields(a2) =~= seq![h, m]);
    lemma_split_colon(a2);
    let a3 = a2 + seq![':'];
    assert(split_fields(a3) =~= seq![h, m, empty]);
    lemma_split_extend(a3, s);
    assert(empty + s =~= s);
    assert(split_fields(a3 + s) =~= seq![h, m, s]);
}

/// A field holds no colon.
pub proof fn lemma_number_is_colon_free(f: Seq<char>)
    requires
        is_number(f),
    ensures
        colon_free(f),
{
    let p = point_position(f);
    lemma_point_position(f);
    assert forall|i: int| 0 <= i < f.len() implies #[trigger] f[i] != ':' by {
        if i < p {
            assert(whole_part(f)[i] == f[i]);
        } else if i > p {
            assert(fraction_part(f)[i - p - 1] == f[i]);
        }
    }
}

/// `c` may stand in a time string: a digit, a colon or a decimal point.
pub open spec fn is_time_char(c: char) -> bool {
    is_digit(c) || c == ':' || c == '.'
}

/// A number holds digits and decimal points only.
pub proof fn lemma_number_chars(f: Seq<char>)
    requires
        is_number(f),
    ensures
        forall|i: int| 0 <= i < f.len() ==> is_time_char(#[trigger] f[i]),
{
    let p = point_position(f);
    lemma_point_position(f);
    assert forall|i: int| 0 <= i < f.len() implies is_time_char(#[trigger] f[i]) by {
        if i < p {
            assert(whole_part(f)[i] == f[i]);
        } else if i > p {
            assert(fraction_part(f)[i - p - 1] == f[i]);
        }
    }
}

/// A string holds nothing but colons and what its fields hold.
pub proof fn lemma_chars_of_fields(s: Seq<char>)
    requires
        forall|k: int, j: int|
            0 <= k < split_fields(s).len() && 0 <= j < split_fields(s)[k].len() ==> is_time_char(
                #[trigger] split_fields(s)[k][j],
            ),
    ensures
        forall|i: int| 0 <= i < s.len() ==> is_time_char(#[trigger] s[i]),
    decreases s.len(),
{
    if s.len() > 0 {
        let rest = s.drop_last();
        let before = split_fields(rest);
        let fields = split_fields(s);
        lemma_split_fields(rest);
        assert forall|k: int, j: int|
            0 <= k < before.len() && 0 <= j < before[k].len() implies is_time_char(
            #[trigger] before[k][j],
        ) by {
            if s.last() == ':' {
                assert(fields[k] == before[k]);
            } else if k < before.len() - 1 {
                assert(fields[k] == before[k]);
            } else {
                assert(fields[k][j] == before[k][j]);
            }
        }
        lemma_chars_of_fields(rest);
        assert forall|i: int| 0 <= i < s.len() implies is_time_char(#[trigger] s[i]) by {
            if i < s.len() - 1 {
                assert(rest[i] == s[i]);
            } else if s.last() != ':' {
                let k = fields.len() - 1;
                let j = fields[k].len() - 1;
                assert(fields[k][j] == s.last());
            }
        }
    }
}

/// A time string holds digits, colons and decimal points only, and so no
/// NUL character.
pub proof fn lemma_time_string_chars(s: Seq<char>)
    requires
        parse_time_spec(s) is Ok,
    ensures
        forall|i: int| 0 <= i < s.len() ==> is_time_char(#[trigger] s[i]),
        nul_free(s),
{
    let fields = split_fields(s);
    lemma_number_chars(fields[0]);
    lemma_number_chars(fields[1]);
    lemma_number_chars(fields[2]);
    lemma_chars_of_fields(s);
    assert forall|i: int| 0 <= i < s.len() implies #[trigger] s[i] != '\0' by {
        assert(is_time_char(s[i]));
    }
}

/// The first decimal point stands where no point stands before it.
pub proof fn lemma_point_position(f: Seq<char>)
    ensures
        0 <= point_position(f) <= f.len(),
        forall|i: int| 0 <= i < point_position(f) ==> #[trigger] f[i] != '.',
        point_position(f) < f.len() ==> f[point_position(f)] == '.',
    decreases f.len(),
{
    if f.len() == 0 || f[0] == '.' {
    } else {
        let rest = f.drop_first();
        lemma_point_position(rest);
        assert forall|i: int| 0 <= i < point_position(f) implies #[trigger] f[i] != '.' by {
            if i > 0 {
                assert(rest[i - 1] == f[i]);
            }
        }
    }
}

/// The place `p` is the first decimal point of `f` if a point or the end of
/// `f` stands there and no point stands before it.
pub proof fn lemma_point_found(f: Seq<char>, p: int)
    requires
        0 <= p <= f.len(),
        forall|i: int| 0 <= i < p ==> #[trigger] f[i] != '.',
        p < f.len() ==> f[p] == '.',
    ensures
        point_position(f) == p,
{
    lemma_point_position(f);
    let q = point_position(f);
    if q < p {
        assert(f[q] != '.');
    } else if q > p {
        assert(f[p] != '.');
    }
}

/// Three numbers joined by colons stand for their hours, minutes and
/// seconds together.
pub proof fn lemma_parse_time_of_fields(h: Seq<char>, m: Seq<char>, s: Seq<char>)
    requires
        is_field(h),
        is_field(m),
        is_field(s),
    ensures
        parse_time_spec(h + seq![':'] + m + seq![':'] + s) == Ok::<nat, ErrorView>(
            total_millis(field_millis(h), field_millis(m), field_millis(s)),
        ),
{
    lemma_number_is_colon_free(h);
    lemma_number_is_colon_free(m);
    lemma_number_is_colon_free(s);
    lemma_split_three(h, m, s);
}

/// A whole number written in base ten is a field worth a thousand times the
/// number.
pub proof fn lemma_whole_number_field(n: nat)
    requires
        n * 1000 <= u64::MAX,
    ensures
        is_field(decimal_text(n)),
        field_millis(decimal_text(n)) == n * 1000,
{
    let f = decimal_text(n);
    lemma_decimal_round_trip(n);
    assert forall|i: int| 0 <= i < f.len() implies #[trigger] f[i] != '.' by {
        assert(is_digit(f[i]));
    }
    lemma_point_found(f, f.len() as int);
    assert(whole_part(f) =~= f);
    assert(fraction_part(f) =~= Seq::<char>::empty());
}

/// Hours, minutes and seconds written as whole numbers and joined by colons
/// read back as the seconds they add up to.
pub proof fn lemma_parse_time_round_trip(hours: nat, minutes: nat, seconds: nat)
    requires
        hours * 1000 <= u64::MAX,
        minutes * 1000 <= u64::MAX,
        seconds * 1000 <= u64::MAX,
    ensures
        parse_time_spec(
            decimal_text(hours) + seq![':'] + decimal_text(minutes) + seq![':'] + decimal_text(
                seconds,
            ),
        ) == Ok::<nat, ErrorView>((hours * 3600 + minutes * 60 + seconds) * 1000),
{
    lemma_whole_number_field(hours);
    lemma_whole_number_field(minutes);
    lemma_whole_number_field(seconds);
    lemma_parse_time_of_fields(decimal_text(hours), decimal_text(minutes), decimal_text(seconds));
    assert(total_millis(hours * 1000, minutes * 1000, seconds * 1000) == (hours * 3600 + minutes
        * 60 + seconds) * 1000) by (nonlinear_arith);
}

/// The thousandths that `r`, below a thousand and not 0, is written with
/// behind a decimal point: three digits without the zeros at their end.
pub open spec fn fraction_text(r: nat) -> Seq<char> {
    let tenths = digit_char((r / 100) as int);
    let hundredths = digit_char(((r / 10) % 10) as int);
    let thousandths = digit_char((r % 10) as int);
    if r % 100 == 0 {
        seq![tenths]
    } else if r % 10 == 0 {
        seq![tenths, hundredths]
    } else {
        seq![tenths, hundredths, thousandths]
    }
}

/// An offset of `millis` milliseconds written in seconds: a whole number
/// where it is one, else with the decimal places that are needed.
pub open spec fn seconds_text(millis: nat) -> Seq<char> {
    if millis % 1000 == 0 {
        decimal_text(millis / 1000)
    } else {
        decimal_text(millis / 1000) + seq!['.'] + fraction_text(millis % 1000)
    }
}

/// The digit for a number below ten is a digit and stands for the number.
pub proof fn lemma_digit_char(d: int)
    requires
        0 <= d <= 9,
    ensures
        is_digit(digit_char(d)),
        digit_of(digit_char(d)) == d,
{
}

/// The decimal places written for a number of thousandths are digits and
/// stand for that number.
pub proof fn lemma_fraction_text(r: nat)
    requires
        0 < r < 1000,
    ensures
        1 <= fraction_text(r).len() <= 3,
        all_digits(fraction_text(r)),
        fraction_millis(fraction_text(r)) == r,
{
    let tenths = (r / 100) as int;
    let hundredths = ((r / 10) % 10) as int;
    let thousandths = (r % 10) as int;
    lemma_digit_char(tenths);
    lemma_digit_char(hundredths);
    lemma_digit_char(thousandths);
    assert(r == tenths * 100 + hundredths * 10 + thousandths);
    let text = fraction_text(r);
    assert(text[0] == digit_char(tenths));
    if r % 100 == 0 {
        assert(hundredths == 0 && thousandths == 0);
    } else if r % 10 == 0 {
        assert(text[1] == digit_char(hundredths));
        assert(thousandths == 0);
    } else {
        assert(text[1] == digit_char(hundredths));
        assert(text[2] == digit_char(thousandths));
    }
}

/// An offset written in seconds is a number, and it reads back as the
/// offset.
pub proof fn lemma_seconds_text_reads_back(millis: nat)
    ensures
        is_number(seconds_text(millis)),
        field_millis(seconds_text(millis)) == millis,
{
    let whole = decimal_text(millis / 1000);
    let f = seconds_text(millis);
    lemma_decimal_round_trip(millis / 1000);
    assert forall|i: int| 0 <= i < whole.len() implies #[trigger] f[i] != '.' by {
        assert(f[i] == whole[i]);
        assert(is_digit(whole[i]));
    }
    lemma_point_found(f, whole.len() as int);
    assert(whole_part(f) =~= whole);
    if millis % 1000 == 0 {
        assert(fraction_part(f) =~= Seq::<char>::empty());
        assert(fraction_millis(fraction_part(f)) == 0);
    } else {
        let r = millis % 1000;
        lemma_fraction_text(r);
        assert(fraction_part(f) =~= fraction_text(r));
    }
    assert(millis == (millis / 1000) * 1000 + millis % 1000);
}

/// The fields of `chars`.
fn split_at_colons(chars: &Vec<char>) -> (fields: Vec<Vec<char>>)
    ensures
        fields@.len() == split_fields(chars@).len(),
        forall|i: int| 0 <= i < fields@.len() ==> (#[trigger] fields@[i])@ == split_fields(chars@)[i],
{
    let mut done: Vec<Vec<char>> = Vec::new();
    let mut current: Vec<char> = Vec::new();
    let mut i: usize = 0;
    while i < chars.len()
        invariant
            i <= chars.len(),
            split_fields(chars@.take(i as int)).len() == done@.len() + 1,
            forall|j: int|
                0 <= j < done@.len() ==> (#[trigger] done@[j])@ == split_fields(
                    chars@.take(i as int),
                )[j],
            current@ == split_fields(chars@.take(i as int)).last(),
        decreases chars.len() - i,
    {
        assert(chars@.take(i + 1).drop_last() =~= chars@.take(i as int));
        let c = chars[i];
        if c == ':' {
            done.push(current);
            current = Vec::new();
        } else {
            current.push(c);
        }
        i += 1;
    }
    assert(chars@.take(chars.len() as int) =~= chars@);
    done.push(current);
    done
}

/// The number that the field `f` stands for, in thousandths, if it is a
/// number that fits.
fn parse_field(f: &Vec<char>) -> (r: Option<u64>)
    ensures
        r is Some <==> is_field(f@),
        r matches Some(v) ==> v == field_millis(f@),
{
    let n = f.len();
    let mut p: usize = 0;
    while p < n && f[p] != '.'
        invariant
            p <= n,
            n == f.len(),
            forall|i: int| 0 <= i < p ==> #[trigger] f@[i] != '.',
        decreases n - p,
    {
        p += 1;
    }
    proof {
        lemma_point_found(f@, p as int);
    }
    let ghost whole = whole_part(f@);
    let ghost fraction = fraction_part(f@);

    let start: usize = if p < n {
        p + 1
    } else {
        n
    };
    let mut thousandths: u64 = 0;
    let mut place: u64 = 100;
    let mut j: usize = start;
    while j < n
        invariant
            start <= j <= n,
            n == f.len(),
            fraction == fraction_part(f@),
            fraction.len() == n - start,
            forall|i: int| 0 <= i < fraction.len() ==> fraction[i] == f@[start + i],
            all_digits(fraction.take(j - start)),
            thousandths == fraction_millis(fraction.take(j - start)),
            place == (if j - start == 0 {
                100int
            } else if j - start == 1 {
                10int
            } else if j - start == 2 {
                1int
            } else {
                0int
            }),
            thousandths <= 999,
        decreases n - j,
    {
        let ghost k = j - start;
        match digit_value(f[j]) {
            None => {
                assert(!is_digit(fraction[k]));
                return None;
            },
            Some(d) => {
                assert(is_digit(fraction[k]));
                assert(fraction.take(k + 1)[k] == fraction[k]);
                assert forall|i: int| 0 <= i < k + 1 implies is_digit(
                    #[trigger] fraction.take(k + 1)[i],
                ) by {
                    if i < k {
                        assert(fraction.take(k)[i] == fraction[i]);
                    }
                }
                assert(forall|i: int|
                    0 <= i < k ==> digit_at(fraction.take(k + 1), i) == digit_at(
                        fraction.take(k),
                        i,
                    ));
                if place > 0 {
                    thousandths = thousandths + (d as u64) * place;
                    place = place / 10;
                }
            },
        }
        j += 1;
    }
    assert(fraction.take(n - start) =~= fraction);

    let mut value: u64 = 0;
    let mut i: usize = 0;
    while i < p
        invariant
            i <= p <= n,
            n == f.len(),
            whole == f@.take(p as int),
            all_digits(whole.take(i as int)),
            value == decimal_value(whole.take(i as int)),
            all_digits(fraction),
            thousandths == fraction_millis(fraction),
            whole == whole_part(f@),
            fraction == fraction_part(f@),
        decreases p - i,
    {
        proof {
            lemma_decimal_step(whole, i as int);
        }
        match digit_value(f[i]) {
            None => {
                assert(!is_digit(whole[i as int]));
                return None;
            },
            Some(d) => {
                assert forall|k: int| 0 <= k < i + 1 implies is_digit(
                    #[trigger] whole.take(i + 1)[k],
                ) by {
                    if k < i {
                        assert(whole.take(i as int)[k] == whole[k]);
                    }
                }
                if value > (u64::MAX - d as u64) / 10 {
                    proof {
                        if all_digits(whole) {
                            lemma_decimal_prefix(whole, i + 1);
                        }
                    }
                    return None;
                }
                value = value * 10 + d as u64;
            },
        }
        i += 1;
    }
    assert(whole.take(p as int) =~= whole);
    if p + (n - start) < 1 {
        return None;
    }
    if value > (u64::MAX - thousandths) / 1000 {
        return None;
    }
    Some(value * 1000 + thousandths)
}

/// The mathematical content of a [`TimeOffset`].
pub ghost struct TimeView {
    /// The time string as it was given.
    pub text: Seq<char>,
    /// The offset it stands for, in milliseconds.
    pub millis: nat,
}

/// A time offset read from a time string.
pub struct TimeOffset {
    text: String,
    millis: u128,
}

impl View for TimeOffset {
    type V = TimeView;

    closed spec fn view(&self) -> TimeView {
        TimeView { text: self.text@, millis: self.millis as nat }
    }
}

impl TimeOffset {
    #[verifier::type_invariant]
    spec fn parsed(self) -> bool {
        parse_time_spec(self.text@) == Ok::<nat, ErrorView>(self.millis as nat)
    }

    /// The offset in milliseconds: what its time string stands for.
    pub fn millis(&self) -> (m: u128)
        ensures
            m == self@.millis,
            parse_time_spec(self@.text) == Ok::<nat, ErrorView>(self@.millis),
    {
        proof {
            use_type_invariant(self);
        }
        self.millis
    }

    /// The time string that the offset was read from.
    pub fn text(&self) -> (t: &str)
        ensures
            t@ == self@.text,
            parse_time_spec(self@.text) == Ok::<nat, ErrorView>(self@.millis),
            nul_free(t@),
    {
        proof {
            use_type_invariant(self);
            lemma_time_string_chars(self.text@);
        }
        self.text.as_str()
    }

    /// The offset written in seconds.
    pub fn seconds(&self) -> (s: String)
        ensures
            s@ == seconds_text(self@.millis),
    {
        let mut s = decimal_string(self.millis / 1000);
        let r: u16 = (self.millis % 1000) as u16;
        if r != 0 {
            s.append(".");
            s.append(digit_text((r / 100) as u8));
            if r % 100 != 0 {
                s.append(digit_text(((r / 10) % 10) as u8));
                if r % 10 != 0 {
                    s.append(digit_text((r % 10) as u8));
                }
            }
        }
        proof {
            reveal_strlit(".");
            assert(s@ =~= seconds_text(self@.millis));
        }
        s
    }

    /// A copy of this offset.
    pub fn duplicate(&self) -> (t: TimeOffset)
        ensures
            t@ == self@,
    {
        proof {
            use_type_invariant(self);
        }
        TimeOffset { text: self.text.clone(), millis: self.millis }
    }
}

/// Reads a time string `HH:MM:SS`.
///
/// Fails with `InvalidTimeFormat` unless the string has exactly three
/// fields, and with `InvalidTimeComponent` about the first field, of
/// `hours`, `minutes` and `seconds`, that is not a number whose thousandths
/// fit in 64 bits.
pub fn parse_time(s: &str) -> (r: Result<TimeOffset, PipelineError>)
    ensures
        match parse_time_spec(s@) {
            Ok(millis) => r matches Ok(t) && t@ == (TimeView { text: s@, millis }),
            Err(error) => r matches Err(e) && e@ == error,
        },
{
    let chars = chars_of(s);
    let fields = split_at_colons(&chars);
    if fields.len() != 3 {
        return Err(PipelineError::bare(ErrorKind::InvalidTimeFormat));
    }
    let hours = match parse_field(&fields[0]) {
        Some(v) => v,
        None => {
            return Err(PipelineError::about(ErrorKind::InvalidTimeComponent, "hours"));
        },
    };
    let minutes = match parse_field(&fields[1]) {
        Some(v) => v,
        None => {
            return Err(PipelineError::about(ErrorKind::InvalidTimeComponent, "minutes"));
        },
    };
    let seconds = match parse_field(&fields[2]) {
        Some(v) => v,
        None => {
            return Err(PipelineError::about(ErrorKind::InvalidTimeComponent, "seconds"));
        },
    };
    let millis: u128 = (hours as u128) * 3600 + (minutes as u128) * 60 + (seconds as u128);
    Ok(TimeOffset { text: String::from_str(s), millis })
}

/// The mathematical content of a [`TimeRange`].
pub ghost struct RangeView {
    pub start: TimeView,
    pub end: TimeView,
}

/// The part of a video between two offsets. Nothing asks that the end
/// follows the start.
pub struct TimeRange {
    pub start: TimeOffset,
    pub end: TimeOffset,
}

impl View for TimeRange {
    type V = RangeView;

    open spec fn view(&self) -> RangeView {
        RangeView { start: self.start@, end: self.end@ }
    }
}

/// What two time strings stand for as a range: both offsets, or the error of
/// the start, or else that of the end.
pub open spec fn parse_range_spec(start: Seq<char>, end: Seq<char>) -> Result<RangeView, ErrorView> {
    match parse_time_spec(start) {
        Err(error) => Err(error),
        Ok(from) => match parse_time_spec(end) {
            Err(error) => Err(error),
            Ok(to) => Ok(
                RangeView {
                    start: TimeView { text: start, millis: from },
                    end: TimeView { text: end, millis: to },
                },
            ),
        },
    }
}

impl TimeRange {
    /// Reads the two time strings of a range, the start first.
    pub fn parse(start: &str, end: &str) -> (r: Result<TimeRange, PipelineError>)
        ensures
            match parse_range_spec(start@, end@) {
                Ok(range) => r matches Ok(t) && t@ == range,
                Err(error) => r matches Err(e) && e@ == error,
            },
    {
        let from = match parse_time(start) {
            Ok(t) => t,
            Err(e) => {
                return Err(e);
            },
        };
        let to = match parse_time(end) {
            Ok(t) => t,
            Err(e) => {
                return Err(e);
            },
        };
        Ok(TimeRange { start: from, end: to })
    }

    /// A copy of this range.
    pub fn duplicate(&self) -> (r: TimeRange)
        ensures
            r@ == self@,
    {
        TimeRange { start: self.start.duplicate(), end: self.end.duplicate() }
    }
}


} // verus!
