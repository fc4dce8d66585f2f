//! The capture pipeline: one attempt to turn the platform's raw answers
//! into a classified, tagged payload, or a typed failure.

use vstd::prelude::*;
use vstd::string::StringExecFns;
use crate::classifier::{is_likely_code, is_likely_code_spec};
use crate::platform::{get_active_app, get_platform, platform_id_spec, OsFamily};
use crate::text::{all_ws, lemma_trim_empty, str_is_blank, trim_seq};

verus! {

/// Why a capture attempt failed.
#[derive(Clone, Copy, Debug, PartialEq, Eq, Structural)]
pub enum CaptureError {
    /// The platform's selection query yielded nothing at all.
    NoSelection,
    /// The selection was retrieved but is blank after trimming.
    EmptySelection,
}

/// The human-readable message for each failure kind.
pub open spec fn error_message_spec(e: CaptureError) -> Seq<char> {
    match e {
        CaptureError::NoSelection => "No text selected or clipboard is empty"@,
        CaptureError::EmptySelection => "Selected text is empty"@,
    }
}

impl CaptureError {
    /// The human-readable description of this failure kind.
    pub fn message(&self) -> (r: String)
        ensures
            r@ == error_message_spec(*self),
    {
        match self {
            CaptureError::NoSelection => String::from_str(
                "No text selected or clipboard is empty",
            ),
            CaptureError::EmptySelection => String::from_str("Selected text is empty"),
        }
    }
}

/// One character of a decimal number.
pub open spec fn is_digit_char(c: char) -> bool {
    48 <= c as u32 && c as u32 <= 57
}

/// Every character of `s` with index in `[a, b)` is a decimal digit.
pub open spec fn digits_between(s: Seq<char>, a: int, b: int) -> bool {
    forall|j: int| a <= j < b ==> is_digit_char(#[trigger] s[j])
}

/// The date and clock part of an RFC 3339 date-time string whose `T`
/// stands at position `t`: a year of four or more digits (a sign allowed
/// in front), two-digit month, day, hour, minute and second fields with
/// their separators, and an optional digit fraction before the closing
/// six-character offset.
pub open spec fn rfc3339_shape_at(s: Seq<char>, t: int) -> bool {
    &&& 10 <= t
    &&& t + 15 <= s.len()
    &&& s[t] == 'T'
    &&& (is_digit_char(s[0]) || s[0] == '+' || s[0] == '-')
    &&& digits_between(s, 1, t - 6)
    &&& s[t - 6] == '-'
    &&& digits_between(s, t - 5, t - 3)
    &&& s[t - 3] == '-'
    &&& digits_between(s, t - 2, t)
    &&& digits_between(s, t + 1, t + 3)
    &&& s[t + 3] == ':'
    &&& digits_between(s, t + 4, t + 6)
    &&& s[t + 6] == ':'
    &&& digits_between(s, t + 7, t + 9)
    &&& (t + 9 == s.len() - 6 || (s[t + 9] == '.' && t + 10 <= s.len() - 6 && digits_between(
        s,
        t + 10,
        s.len() - 6,
    )))
}

/// An RFC 3339 date-time string carrying the UTC offset "+00:00".
pub open spec fn is_rfc3339_utc(s: Seq<char>) -> bool {
    &&& s.len() >= 25
    &&& s.subrange(s.len() - 6, s.len() as int) == "+00:00"@
    &&& exists|t: int| rfc3339_shape_at(s, t)
}

/// Relies on chrono's `Utc::now` and `DateTime::to_rfc3339`: whatever the
/// clock reads, the result is written as `%Y-%m-%dT%H:%M:%S%.f%:z`, which
/// for UTC ends in the offset "+00:00". Note that `Utc::now` itself
/// aborts on a system clock set before the Unix epoch; this wrapper
/// inherits that condition, as no argument could exclude a clock state.
#[verifier::external_body]
fn now_rfc3339() -> (r: String)
    ensures
        is_rfc3339_utc(r@),
{
    chrono::Utc::now().to_rfc3339()
}

/// The payload of one successful capture.
#[derive(Clone, Debug)]
pub struct CapturePayload {
    /// The captured selection, exactly as read.
    pub text: String,
    /// The classifier's verdict on `text`, computed fresh at capture time.
    pub is_code: bool,
    /// The foreground application name, when the platform could tell it.
    pub source_app: Option<String>,
    /// The capture time, an RFC 3339 date-time in UTC.
    pub timestamp: String,
    /// The platform identifier.
    pub platform: String,
}

impl CapturePayload {
    /// What holds of every payload a successful capture hands out:
    /// visible text, a verdict that is the classifier's, and a
    /// well-formed timestamp.
    pub open spec fn wf(&self) -> bool {
        &&& self.text@.len() > 0
        &&& !all_ws(self.text@)
        &&& trim_seq(self.text@).len() > 0
        &&& self.is_code == is_likely_code_spec(self.text@)
        &&& is_rfc3339_utc(self.timestamp@)
    }
}

/// One capture attempt, from the platform's raw answers: fails with
/// `NoSelection` when the selection query yielded nothing, with
/// `EmptySelection` when it yielded only white space, and otherwise
/// builds the payload — text as read, fresh classification, trimmed
/// application name when one is visible, current UTC timestamp, and the
/// platform identifier.
pub fn capture_selection(
    selection: Option<String>,
    app_query: Option<String>,
    family: OsFamily,
) -> (r: Result<CapturePayload, CaptureError>)
    ensures
        ((r matches Err(e) && e == CaptureError::NoSelection) <==> selection is None),
        ((r matches Err(e) && e == CaptureError::EmptySelection) <==> (selection matches Some(t)
            && all_ws(t@))),
        ((r is Ok) <==> (selection matches Some(t) && !all_ws(t@))),
        r matches Ok(p) ==> p.wf(),
        r matches Ok(p) ==> (selection matches Some(t) && p.text == t),
        r matches Ok(p) ==> p.is_code == is_likely_code_spec(p.text@),
        r matches Ok(p) ==> ((p.source_app is Some) <==> (app_query matches Some(a) && trim_seq(
            a@,
        ).len() > 0)),
        r matches Ok(p) ==> (p.source_app matches Some(name) ==> (app_query matches Some(a)
            && name@ == trim_seq(a@))),
        r matches Ok(p) ==> p.platform@ == platform_id_spec(family),
{
    match selection {
        Option::None => Result::Err(CaptureError::NoSelection),
        Option::Some(text) => {
            if str_is_blank(text.as_str()) {
                Result::Err(CaptureError::EmptySelection)
            } else {
                proof {
                    lemma_trim_empty(text@);
                }
                let is_code = is_likely_code(text.as_str());
                let source_app = get_active_app(app_query);
                let timestamp = now_rfc3339();
                let platform = get_platform(family);
                Result::Ok(CapturePayload { text, is_code, source_app, timestamp, platform })
            }
        },
    }
}

} // verus!
