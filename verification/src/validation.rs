//! Field rules that incoming requests must satisfy, and how failures are reported.
use vstd::prelude::*;
use vstd::string::{StrSliceExecFns, StringExecFns};
use crate::error::AppError;
use crate::text::{join_strings, join_with, owned, views};

verus! {

/// Whether `validator::validate_email` accepts `s`.
pub uninterp spec fn email_accepted(s: Seq<char>) -> bool;

/// Checks an email address with `validator::validate_email`.
/// Trusted: the answer is what `email_accepted` names, and an accepted
/// address is never empty and holds an `@`.
#[verifier::external_body]
fn check_email(s: &str) -> (ok: bool)
    ensures
        ok == email_accepted(s@),
        ok ==> s@.len() > 0 && s@.contains('@'),
{
    validator::validate_email(s)
}

/// Whether the number of characters of `s` is at least `min` and at most `max`.
pub open spec fn length_within(s: Seq<char>, min: Option<nat>, max: Option<nat>) -> bool {
    &&& (min matches Some(m) ==> s.len() >= m)
    &&& (max matches Some(m) ==> s.len() <= m)
}

/// The line that reports one failed field: its name, a colon and the message.
pub open spec fn failure_line(field: Seq<char>, msg: Seq<char>) -> Seq<char> {
    field + ": "@ + msg
}

/// A single report line when `failed` holds, none otherwise.
pub open spec fn line_if(failed: bool, line: Seq<char>) -> Seq<Seq<char>> {
    if failed {
        seq![line]
    } else {
        Seq::empty()
    }
}

/// `r` is the outcome of a validation whose failed fields produced `lines`:
/// success when there are none, else a validation error listing them one per line.
pub open spec fn reports(r: Result<(), AppError>, lines: Seq<Seq<char>>) -> bool {
    match r {
        Ok(()) => lines.len() == 0,
        Err(e) => lines.len() > 0 && e is ValidationError && e.detail() == join_with(lines, "\n"@),
    }
}

/// Whether the number of characters of `s` lies within the bounds.
pub fn length_ok(s: &str, min: Option<u64>, max: Option<u64>) -> (ok: bool)
    ensures
        ok == length_within(
            s@,
            match min { Some(m) => Some(m as nat), None => None },
            match max { Some(m) => Some(m as nat), None => None },
        ),
{
    let n = s.unicode_len() as u64;
    let above = match min {
        Some(m) => n >= m,
        None => true,
    };
    let below = match max {
        Some(m) => n <= m,
        None => true,
    };
    above && below
}

/// Whether `s` is an acceptable email address.
pub fn email_ok(s: &str) -> (ok: bool)
    ensures
        ok == email_accepted(s@),
        ok ==> s@.len() > 0 && s@.contains('@'),
{
    check_email(s)
}

/// The report line for a failed field.
pub fn failure(field: &str, msg: &str) -> (s: String)
    ensures
        s@ == failure_line(field@, msg@),
{
    owned(field).concat(": ").concat(msg)
}

/// Adds a report line to `lines` when `failed` holds.
pub fn note_if(lines: &mut Vec<String>, failed: bool, field: &str, msg: &str)
    ensures
        views(final(lines)@) == views(old(lines)@) + line_if(failed, failure_line(field@, msg@)),
{
    if failed {
        lines.push(failure(field, msg));
        assert(views(lines@) =~= views(old(lines)@) + line_if(failed, failure_line(field@, msg@)));
    } else {
        assert(views(lines@) =~= views(old(lines)@) + line_if(failed, failure_line(field@, msg@)));
    }
}

/// Turns the collected report lines into the outcome of a validation.
pub fn finish(lines: Vec<String>) -> (r: Result<(), AppError>)
    ensures
        reports(r, views(lines@)),
{
    if lines.len() == 0 {
        Ok(())
    } else {
        Err(AppError::ValidationError(join_strings(&lines, "\n")))
    }
}

/// `r` is a validation failure whose report lists `line` among its lines.
pub open spec fn lists_line(r: Result<(), AppError>, line: Seq<char>) -> bool {
    r matches Err(e) && e is ValidationError && exists|ls: Seq<Seq<char>>|
        #![trigger join_with(ls, "\n"@)]
        ls.contains(line) && e.detail() == join_with(ls, "\n"@)
}

/// A reported line is listed in the failure that reports it.
pub proof fn lemma_reported_line(r: Result<(), AppError>, lines: Seq<Seq<char>>, line: Seq<char>)
    requires
        reports(r, lines),
        lines.contains(line),
    ensures
        lists_line(r, line),
{
    assert(lines.len() > 0);
}

/// The line of a failed check is among its report lines.
pub proof fn lemma_line_if_contains(failed: bool, line: Seq<char>)
    ensures
        failed ==> line_if(failed, line).contains(line),
{
    if failed {
        assert(line_if(failed, line)[0] == line);
    }
}

/// A line in either part of a report is in the whole.
pub proof fn lemma_concat_contains(a: Seq<Seq<char>>, b: Seq<Seq<char>>, x: Seq<char>)
    ensures
        a.contains(x) || b.contains(x) ==> (a + b).contains(x),
{
    if a.contains(x) {
        let i = choose|i: int| 0 <= i < a.len() && a[i] == x;
        assert((a + b)[i] == x);
    } else if b.contains(x) {
        let i = choose|i: int| 0 <= i < b.len() && b[i] == x;
        assert((a + b)[a.len() + i] == x);
    }
}

} // verus!
