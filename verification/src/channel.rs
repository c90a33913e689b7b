//! The error channel: how the outcome of a call crosses the boundary as a
//! status code and caller-owned, nul-terminated strings.
//!
//! The functions here decide what is written into each output slot. Turning
//! a [`SlotWrite`] into an allocation, and handing the allocation over, is
//! left to the caller of this module.

use crate::error::Error;
use vstd::prelude::*;

verus! {

/// Status of a call that succeeded.
pub const SUCCESS: i32 = 0;

/// Status of a call that failed.
pub const FAILURE: i32 = -1;

/// What is done to one output slot.
#[derive(Debug, PartialEq, Eq)]
pub enum SlotWrite {
    /// The slot is left as the caller passed it.
    Untouched,
    /// The slot is set to the marker for "no value".
    Absent,
    /// The slot receives a new string with this text, owned by the caller
    /// from then on. The text holds no nul character.
    Text(String),
}

/// A [`SlotWrite`] with its text as a sequence of characters.
pub enum SlotContent {
    Untouched,
    Absent,
    Text(Seq<char>),
}

impl View for SlotWrite {
    type V = SlotContent;

    open spec fn view(&self) -> SlotContent {
        match self {
            SlotWrite::Untouched => SlotContent::Untouched,
            SlotWrite::Absent => SlotContent::Absent,
            SlotWrite::Text(text) => SlotContent::Text(text@),
        }
    }
}

/// What a call hands back across the boundary.
#[derive(Debug, PartialEq, Eq)]
pub struct Report {
    /// [`SUCCESS`] or [`FAILURE`].
    pub status: i32,
    /// What the result slot receives.
    pub result_slot: SlotWrite,
    /// What the error slot receives.
    pub error_slot: SlotWrite,
}

/// A [`Report`] with its texts as sequences of characters.
pub struct ReportView {
    pub status: int,
    pub result_slot: SlotContent,
    pub error_slot: SlotContent,
}

impl View for Report {
    type V = ReportView;

    open spec fn view(&self) -> ReportView {
        ReportView {
            status: self.status as int,
            result_slot: self.result_slot@,
            error_slot: self.error_slot@,
        }
    }
}

/// True if `text` holds a nul character, so that no nul-terminated string
/// can carry it.
pub open spec fn has_nul(text: Seq<char>) -> bool {
    exists|i: int| 0 <= i < text.len() && text[i] == '\0'
}

/// What a slot receives when `text` is to be written into it: the text, if
/// the slot was supplied and a nul-terminated string can carry the text;
/// nothing otherwise.
pub open spec fn text_write(slot_present: bool, text: Seq<char>) -> SlotContent {
    if slot_present && !has_nul(text) {
        SlotContent::Text(text)
    } else {
        SlotContent::Untouched
    }
}

/// The report of a failure: the description goes to the error slot and the
/// result slot is not touched.
pub open spec fn failure_spec(error: Error, error_slot: bool) -> ReportView {
    ReportView {
        status: FAILURE as int,
        result_slot: SlotContent::Untouched,
        error_slot: text_write(error_slot, error.message_spec()),
    }
}

/// The report of a success with this result slot.
pub open spec fn success_spec(result_slot: SlotContent) -> ReportView {
    ReportView { status: SUCCESS as int, result_slot, error_slot: SlotContent::Untouched }
}

/// The report of a call that returns nothing.
pub open spec fn report_status_spec(outcome: Result<(), Error>, error_slot: bool) -> ReportView {
    match outcome {
        Ok(_) => success_spec(SlotContent::Untouched),
        Err(error) => failure_spec(error, error_slot),
    }
}

/// The report of a call that returns a text.
pub open spec fn report_text_spec(
    outcome: Result<String, Error>,
    result_slot: bool,
    error_slot: bool,
) -> ReportView {
    match outcome {
        Ok(text) => success_spec(text_write(result_slot, text@)),
        Err(error) => failure_spec(error, error_slot),
    }
}

/// The report of a call that returns a text or nothing.
pub open spec fn report_optional_text_spec(
    outcome: Result<Option<String>, Error>,
    result_slot: bool,
    error_slot: bool,
) -> ReportView {
    match outcome {
        Ok(Some(text)) => success_spec(text_write(result_slot, text@)),
        Ok(None) => success_spec(
            if result_slot {
                SlotContent::Absent
            } else {
                SlotContent::Untouched
            },
        ),
        Err(error) => failure_spec(error, error_slot),
    }
}

/// True if a nul-terminated string can carry `text`, that is, if `text`
/// holds no nul character.
pub fn transferable(text: &str) -> (ok: bool)
    ensures
        ok == !has_nul(text@),
{
    let mut ok: bool = true;
    for c in it: text.chars()
        invariant
            it.seq() == text@,
            ok == !has_nul(text@.take(it.index() as int)),
    {
        proof {
            let i = it.index() as int;
            assert(c == text@[i]);
            assert(text@.take(i + 1) =~= text@.take(i).push(c));
            lemma_has_nul_push(text@.take(i), c);
        }
        if c == '\0' {
            ok = false;
        }
    }
    proof {
        assert(text@.take(text@.len() as int) =~= text@);
    }
    ok
}

/// A text with one more character holds a nul if it held one before or the
/// new character is one.
proof fn lemma_has_nul_push(text: Seq<char>, c: char)
    ensures
        has_nul(text.push(c)) == (has_nul(text) || c == '\0'),
{
    let longer = text.push(c);
    if has_nul(text) {
        let j = choose|j: int| 0 <= j < text.len() && text[j] == '\0';
        assert(longer[j] == '\0');
    }
    if c == '\0' {
        assert(longer[text.len() as int] == '\0');
    }
    if has_nul(longer) {
        let j = choose|j: int| 0 <= j < longer.len() && longer[j] == '\0';
        if j < text.len() {
            assert(text[j] == '\0');
        }
    }
}

/// Decides what a slot receives when `text` is to be written into it.
pub fn write_text(slot_present: bool, text: String) -> (write: SlotWrite)
    ensures
        write@ == text_write(slot_present, text@),
{
    if slot_present && transferable(text.as_str()) {
        SlotWrite::Text(text)
    } else {
        SlotWrite::Untouched
    }
}

/// The report of a failure.
pub fn report_failure(error: &Error, error_slot: bool) -> (report: Report)
    ensures
        report@ == failure_spec(*error, error_slot),
{
    Report {
        status: FAILURE,
        result_slot: SlotWrite::Untouched,
        error_slot: write_text(error_slot, error.message()),
    }
}

/// The report of a call that returns nothing. `error_slot` says whether
/// the caller supplied a slot for the description of a failure.
pub fn report_status(outcome: Result<(), Error>, error_slot: bool) -> (report: Report)
    ensures
        report@ == report_status_spec(outcome, error_slot),
{
    match outcome {
        Ok(_) => Report {
            status: SUCCESS,
            result_slot: SlotWrite::Untouched,
            error_slot: SlotWrite::Untouched,
        },
        Err(error) => report_failure(&error, error_slot),
    }
}

/// The report of a call that returns a text. `result_slot` and
/// `error_slot` say which slots the caller supplied.
pub fn report_text(outcome: Result<String, Error>, result_slot: bool, error_slot: bool) -> (report:
    Report)
    ensures
        report@ == report_text_spec(outcome, result_slot, error_slot),
{
    match outcome {
        Ok(text) => Report {
            status: SUCCESS,
            result_slot: write_text(result_slot, text),
            error_slot: SlotWrite::Untouched,
        },
        Err(error) => report_failure(&error, error_slot),
    }
}

/// The report of a call that returns a text or nothing. A success with
/// nothing to report sets a supplied result slot to the marker for "no
/// value".
pub fn report_optional_text(
    outcome: Result<Option<String>, Error>,
    result_slot: bool,
    error_slot: bool,
) -> (report: Report)
    ensures
        report@ == report_optional_text_spec(outcome, result_slot, error_slot),
{
    match outcome {
        Ok(Some(text)) => Report {
            status: SUCCESS,
            result_slot: write_text(result_slot, text),
            error_slot: SlotWrite::Untouched,
        },
        Ok(None) => Report {
            status: SUCCESS,
            result_slot: if result_slot {
                SlotWrite::Absent
            } else {
                SlotWrite::Untouched
            },
            error_slot: SlotWrite::Untouched,
        },
        Err(error) => report_failure(&error, error_slot),
    }
}

/// Whatever the outcome and the slots supplied: the status tells success
/// from failure, a success never touches the error slot, a failure never
/// touches the result slot, and no slot receives a text with a nul
/// character in it.
pub proof fn lemma_report_shape(
    outcome: Result<Option<String>, Error>,
    result_slot: bool,
    error_slot: bool,
)
    ensures
        ({
            let report = report_optional_text_spec(outcome, result_slot, error_slot);
            &&& report.status == SUCCESS <==> outcome is Ok
            &&& report.status == FAILURE <==> outcome is Err
            &&& outcome is Ok ==> report.error_slot is Untouched
            &&& outcome is Err ==> report.result_slot is Untouched
            &&& !result_slot ==> report.result_slot is Untouched
            &&& !error_slot ==> report.error_slot is Untouched
            &&& report.result_slot matches SlotContent::Text(text) ==> !has_nul(text)
            &&& report.error_slot matches SlotContent::Text(text) ==> !has_nul(text)
        }),
{
}

/// The three kinds of report agree: a call that returns a text reports as
/// one that returns a text or nothing and has a text, and a call that
/// returns nothing reports as one that has nothing and no result slot.
pub proof fn lemma_reports_agree(error: Error, text: String, result_slot: bool, error_slot: bool)
    ensures
        report_text_spec(Ok(text), result_slot, error_slot) == report_optional_text_spec(
            Ok(Some(text)),
            result_slot,
            error_slot,
        ),
        report_text_spec(Err(error), result_slot, error_slot) == report_optional_text_spec(
            Err(error),
            result_slot,
            error_slot,
        ),
        report_status_spec(Ok(()), error_slot) == report_optional_text_spec(
            Ok(None),
            false,
            error_slot,
        ),
        report_status_spec(Err(error), error_slot) == report_optional_text_spec(
            Err(error),
            false,
            error_slot,
        ),
{
}

} // verus!
