use vstd::prelude::*;
use vstd::string::*;

use crate::text::{
    absent, digit_char, find_from, is_decimal_digit, lemma_find_from_spec, lemma_padded_width,
    lemma_replace_all_absent, lemma_replace_first_structure, occurs_at, pow10, replace_all,
    replace_first, spec_padded, spec_replace_all, spec_replace_first, format_padded, contains_pattern,
};

verus! {

// Archive name templates hold date placeholders. On the backup side each
// placeholder is resolved against one calendar date; on the restore side a
// weekday placeholder is expanded into the seven possible names instead.

/// One calendar date, reduced to what the templates consume.
pub struct Date {
    pub year: u16,
    pub month: u8,
    pub day: u8,
    /// Days since Monday: 0 is Monday, 6 is Sunday.
    pub weekday: u8,
}

impl Date {
    pub open spec fn wf(&self) -> bool {
        &&& self.year <= 9999
        &&& 1 <= self.month <= 12
        &&& 1 <= self.day <= 31
        &&& self.weekday < 7
    }

    /// Builds a date from calendar parts, refusing parts no calendar date
    /// has (or a year past four digits).
    pub fn from_calendar(year: i32, month: u32, day: u32, weekday: u32) -> (r: Option<Date>)
        ensures
            match r {
                Some(d) => d.wf() && 0 <= year && d.year == year && d.month == month && d.day
                    == day && d.weekday == weekday,
                None => !(0 <= year <= 9999 && 1 <= month <= 12 && 1 <= day <= 31 && weekday < 7),
            },
    {
        if 0 <= year && year <= 9999 && 1 <= month && month <= 12 && 1 <= day && day <= 31
            && weekday < 7 {
            Some(
                Date {
                    year: year as u16,
                    month: month as u8,
                    day: day as u8,
                    weekday: weekday as u8,
                },
            )
        } else {
            None
        }
    }
}

/// The three-letter name of a weekday, Monday first.
pub open spec fn weekday_name(w: int) -> Seq<char> {
    if w == 0 {
        "Mon"@
    } else if w == 1 {
        "Tue"@
    } else if w == 2 {
        "Wed"@
    } else if w == 3 {
        "Thu"@
    } else if w == 4 {
        "Fri"@
    } else if w == 5 {
        "Sat"@
    } else {
        "Sun"@
    }
}

pub fn weekday_str(w: u8) -> (r: &'static str)
    requires
        w < 7,
    ensures
        r@ == weekday_name(w as int),
{
    if w == 0 {
        "Mon"
    } else if w == 1 {
        "Tue"
    } else if w == 2 {
        "Wed"
    } else if w == 3 {
        "Thu"
    } else if w == 4 {
        "Fri"
    } else if w == 5 {
        "Sat"
    } else {
        "Sun"
    }
}

/// A template after resolution against a date: every year placeholder
/// becomes the four-digit year, month and day placeholders the two-digit
/// month and day, and weekday placeholders the weekday's name.
pub open spec fn spec_resolved(s: Seq<char>, d: Date) -> Seq<char> {
    spec_replace_all(
        spec_replace_all(
            spec_replace_all(
                spec_replace_all(s, "{date:year}"@, spec_padded(d.year as int, 4)),
                "{date:month}"@,
                spec_padded(d.month as int, 2),
            ),
            "{date:day}"@,
            spec_padded(d.day as int, 2),
        ),
        "{date:weekday}"@,
        weekday_name(d.weekday as int),
    )
}

/// Resolves every date placeholder in `name` against `date`.
pub fn resolve(name: &str, date: &Date) -> (r: String)
    requires
        date.wf(),
    ensures
        r@ == spec_resolved(name@, *date),
{
    proof {
        reveal_strlit("{date:year}");
        reveal_strlit("{date:month}");
        reveal_strlit("{date:day}");
        reveal_strlit("{date:weekday}");
    }
    let year = format_padded(date.year as u64, 4);
    let month = format_padded(date.month as u64, 2);
    let day = format_padded(date.day as u64, 2);
    let step1 = replace_all(name, "{date:year}", year.as_str());
    let step2 = replace_all(step1.as_str(), "{date:month}", month.as_str());
    let step3 = replace_all(step2.as_str(), "{date:day}", day.as_str());
    let step4 = replace_all(step3.as_str(), "{date:weekday}", weekday_str(date.weekday));
    step4
}

/// The template holds a weekday placeholder, so its restore candidates are
/// ambiguous.
pub open spec fn has_weekday_placeholder(s: Seq<char>) -> bool {
    find_from(s, "{date:weekday}"@, 0) is Some
}

/// Expands a template into the archive names a restore should look for:
/// the seven weekday expansions when a weekday placeholder is present
/// (Monday first, each name distinct), the template itself otherwise.
/// Other placeholders are left as they stand: restore matches stored
/// names, it does not re-derive a date.
pub fn candidates(name: &str) -> (r: Vec<String>)
    ensures
        has_weekday_placeholder(name@) ==> {
            &&& r@.len() == 7
            &&& (forall|i: int|
                0 <= i < 7 ==> r@[i]@ == spec_replace_first(
                    name@,
                    "{date:weekday}"@,
                    weekday_name(i),
                ))
            &&& (forall|i: int, j: int| 0 <= i < j < 7 ==> r@[i]@ != r@[j]@)
        },
        !has_weekday_placeholder(name@) ==> r@.len() == 1 && r@[0]@ == name@,
{
    proof {
        reveal_strlit("{date:weekday}");
    }
    let mut out: Vec<String> = Vec::new();
    if contains_pattern(name, "{date:weekday}") {
        let mut w: u8 = 0;
        while w < 7
            invariant
                has_weekday_placeholder(name@),
                w <= 7,
                out@.len() == w,
                forall|i: int|
                    0 <= i < w ==> out@[i]@ == spec_replace_first(
                        name@,
                        "{date:weekday}"@,
                        weekday_name(i),
                    ),
            decreases 7 - w,
        {
            proof {
                reveal_strlit("{date:weekday}");
            }
            out.push(replace_first(name, "{date:weekday}", weekday_str(w)));
            w = w + 1;
        }
        proof {
            lemma_weekday_candidates_distinct(name@);
            assert forall|i: int, j: int| 0 <= i < j < 7 implies out@[i]@ != out@[j]@ by {
                assert(out@[i]@ == spec_replace_first(name@, "{date:weekday}"@, weekday_name(i)));
                assert(out@[j]@ == spec_replace_first(name@, "{date:weekday}"@, weekday_name(j)));
            }
        }
    } else {
        out.push(String::from_str(name));
    }
    out
}

/// A template of literal text alone: no date placeholder occurs in it.
pub open spec fn is_literal_template(s: Seq<char>) -> bool {
    &&& absent(s, "{date:year}"@)
    &&& absent(s, "{date:month}"@)
    &&& absent(s, "{date:day}"@)
    &&& absent(s, "{date:weekday}"@)
}

/// A template of literal text only resolves to itself, whatever the date,
/// and is its own single restore candidate.
pub proof fn lemma_literal_template_unchanged(s: Seq<char>, d: Date)
    requires
        is_literal_template(s),
    ensures
        spec_resolved(s, d) == s,
        !has_weekday_placeholder(s),
{
    reveal_strlit("{date:year}");
    reveal_strlit("{date:month}");
    reveal_strlit("{date:day}");
    reveal_strlit("{date:weekday}");
    lemma_replace_all_absent(s, "{date:year}"@, spec_padded(d.year as int, 4), 0);
    assert(s.subrange(0, s.len() as int) =~= s);
    lemma_replace_all_absent(s, "{date:month}"@, spec_padded(d.month as int, 2), 0);
    lemma_replace_all_absent(s, "{date:day}"@, spec_padded(d.day as int, 2), 0);
    lemma_replace_all_absent(s, "{date:weekday}"@, weekday_name(d.weekday as int), 0);
    lemma_find_from_spec(s, "{date:weekday}"@, 0);
}

/// No placeholder occurs in a run of decimal digits, since every
/// placeholder opens with a brace.
proof fn lemma_digits_hold_no_placeholder(s: Seq<char>, p: Seq<char>)
    requires
        p.len() > 0,
        p[0] == '{',
        forall|i: int| 0 <= i < s.len() ==> is_decimal_digit(#[trigger] s[i]),
    ensures
        absent(s, p),
{
    assert forall|i: int| !occurs_at(s, p, i) by {
        if occurs_at(s, p, i) {
            assert(s.subrange(i, i + p.len() as int)[0] == s[i]);
            assert(is_decimal_digit('{'));
            let d = choose|d: int| 0 <= d < 10 && '{' == digit_char(d);
            assert(false);
        }
    }
}

/// Resolving a template that is one date placeholder yields exactly the
/// zero-padded field: four digit characters for the year, two for the
/// month, two for the day.
pub proof fn lemma_resolved_date_fields(d: Date)
    requires
        d.wf(),
    ensures
        spec_resolved("{date:year}"@, d) == spec_padded(d.year as int, 4),
        spec_resolved("{date:month}"@, d) == spec_padded(d.month as int, 2),
        spec_resolved("{date:day}"@, d) == spec_padded(d.day as int, 2),
        spec_padded(d.year as int, 4).len() == 4,
        spec_padded(d.month as int, 2).len() == 2,
        spec_padded(d.day as int, 2).len() == 2,
        forall|i: int|
            0 <= i < 4 ==> is_decimal_digit(#[trigger] spec_padded(d.year as int, 4)[i]),
        forall|i: int|
            0 <= i < 2 ==> is_decimal_digit(#[trigger] spec_padded(d.month as int, 2)[i]),
        forall|i: int| 0 <= i < 2 ==> is_decimal_digit(#[trigger] spec_padded(d.day as int, 2)[i]),
{
    reveal_strlit("{date:year}");
    reveal_strlit("{date:month}");
    reveal_strlit("{date:day}");
    reveal_strlit("{date:weekday}");
    assert(pow10(4) == 10000) by {
        reveal_with_fuel(crate::text::pow10, 5);
    }
    assert(pow10(2) == 100) by {
        reveal_with_fuel(crate::text::pow10, 5);
    }
    lemma_padded_width(d.year as int, 4);
    lemma_padded_width(d.month as int, 2);
    lemma_padded_width(d.day as int, 2);
    let yp = "{date:year}"@;
    let mp = "{date:month}"@;
    let dp = "{date:day}"@;
    let wp = "{date:weekday}"@;
    let ypad = spec_padded(d.year as int, 4);
    let mpad = spec_padded(d.month as int, 2);
    let dpad = spec_padded(d.day as int, 2);
    lemma_whole_pattern_replaced(yp, ypad);
    lemma_whole_pattern_replaced(mp, mpad);
    lemma_whole_pattern_replaced(dp, dpad);
    // The year template: the year replacement leaves digits, in which the
    // later patterns cannot occur.
    lemma_digits_hold_no_placeholder(ypad, mp);
    lemma_digits_hold_no_placeholder(ypad, dp);
    lemma_digits_hold_no_placeholder(ypad, wp);
    lemma_replace_all_absent(ypad, mp, mpad, 0);
    lemma_replace_all_absent(ypad, dp, dpad, 0);
    lemma_replace_all_absent(ypad, wp, weekday_name(d.weekday as int), 0);
    assert(ypad.subrange(0, ypad.len() as int) =~= ypad);
    // The month template: the year pattern does not occur in it.
    lemma_year_absent_from_month_template();
    lemma_replace_all_absent(mp, yp, ypad, 0);
    assert(mp.subrange(0, mp.len() as int) =~= mp);
    lemma_digits_hold_no_placeholder(mpad, dp);
    lemma_digits_hold_no_placeholder(mpad, wp);
    lemma_replace_all_absent(mpad, dp, dpad, 0);
    lemma_replace_all_absent(mpad, wp, weekday_name(d.weekday as int), 0);
    assert(mpad.subrange(0, mpad.len() as int) =~= mpad);
    // The day template is shorter than the year and month patterns, so
    // neither occurs in it.
    assert(absent(dp, yp));
    assert(absent(dp, mp));
    lemma_replace_all_absent(dp, yp, ypad, 0);
    lemma_replace_all_absent(dp, mp, mpad, 0);
    assert(dp.subrange(0, dp.len() as int) =~= dp);
    lemma_digits_hold_no_placeholder(dpad, wp);
    lemma_replace_all_absent(dpad, wp, weekday_name(d.weekday as int), 0);
    assert(dpad.subrange(0, dpad.len() as int) =~= dpad);
}

/// Replacing a pattern inside the pattern itself yields the replacement.
proof fn lemma_whole_pattern_replaced(p: Seq<char>, rep: Seq<char>)
    requires
        p.len() > 0,
    ensures
        spec_replace_all(p, p, rep) == rep,
{
    assert(p.subrange(0, p.len() as int) =~= p);
    assert(crate::text::replace_all_from(p, p, rep, p.len() as int) =~= Seq::<char>::empty());
    assert(rep + Seq::<char>::empty() =~= rep);
}

/// The year pattern occurs nowhere in the month pattern.
proof fn lemma_year_absent_from_month_template()
    ensures
        absent("{date:month}"@, "{date:year}"@),
{
    reveal_strlit("{date:year}");
    reveal_strlit("{date:month}");
    let s = "{date:month}"@;
    let p = "{date:year}"@;
    assert forall|i: int| !occurs_at(s, p, i) by {
        if occurs_at(s, p, i) {
            if i == 0 {
                assert(s.subrange(0, p.len() as int)[6] == s[6]);
                assert(false);
            } else {
                assert(i == 1);
                assert(s.subrange(1, 1 + p.len() as int)[0] == s[1]);
                assert(false);
            }
        }
    }
}

/// Two distinct weekdays have distinct names.
proof fn lemma_weekday_names_distinct(i: int, j: int)
    requires
        0 <= i < 7,
        0 <= j < 7,
        i != j,
    ensures
        weekday_name(i) != weekday_name(j),
{
    reveal_strlit("Mon");
    reveal_strlit("Tue");
    reveal_strlit("Wed");
    reveal_strlit("Thu");
    reveal_strlit("Fri");
    reveal_strlit("Sat");
    reveal_strlit("Sun");
    assert(weekday_name(i)[0] != weekday_name(j)[0] || weekday_name(i)[1] != weekday_name(j)[1]);
}

/// On a template with a weekday placeholder, the seven per-weekday
/// expansions are pairwise distinct: each replaces the same leftmost
/// occurrence with a different three-letter name.
pub proof fn lemma_weekday_candidates_distinct(s: Seq<char>)
    requires
        has_weekday_placeholder(s),
    ensures
        forall|i: int, j: int|
            0 <= i < 7 && 0 <= j < 7 && i != j ==> spec_replace_first(
                s,
                "{date:weekday}"@,
                weekday_name(i),
            ) != spec_replace_first(s, "{date:weekday}"@, weekday_name(j)),
{
    reveal_strlit("{date:weekday}");
    reveal_strlit("Mon");
    reveal_strlit("Tue");
    reveal_strlit("Wed");
    reveal_strlit("Thu");
    reveal_strlit("Fri");
    reveal_strlit("Sat");
    reveal_strlit("Sun");
    let wp = "{date:weekday}"@;
    let k = find_from(s, wp, 0)->0;
    lemma_find_from_spec(s, wp, 0);
    assert forall|i: int, j: int| 0 <= i < 7 && 0 <= j < 7 && i != j implies spec_replace_first(
        s,
        wp,
        weekday_name(i),
    ) != spec_replace_first(s, wp, weekday_name(j)) by {
        lemma_replace_first_structure(s, wp, weekday_name(i), 0, k);
        lemma_replace_first_structure(s, wp, weekday_name(j), 0, k);
        lemma_weekday_names_distinct(i, j);
        let ri = spec_replace_first(s, wp, weekday_name(i));
        let rj = spec_replace_first(s, wp, weekday_name(j));
        if ri == rj {
            assert(weekday_name(i).len() == 3 && weekday_name(j).len() == 3);
            assert forall|t: int| 0 <= t < 3 implies weekday_name(i)[t] == weekday_name(j)[t] by {
                assert(ri[k + t] == weekday_name(i)[t]);
                assert(rj[k + t] == weekday_name(j)[t]);
            }
            assert(weekday_name(i) =~= weekday_name(j));
            assert(false);
        }
    }
}

} // verus!
