//! Asking a unit for the record it keeps, and wording what went wrong.

use vstd::prelude::*;
use vstd::string::*;
use crate::app_state::{AppState, AppStateView};
use crate::identity::{Destination, DestinationView, UnitIdentity};
use crate::rejection::{Rejection, RejectionCode, RejectionView};

verus! {

/// A text as the standard library's `Debug` formatting of strings writes it:
/// between double quotes, with the characters that need it escaped.
pub uninterp spec fn debug_form(text: Seq<char>) -> Seq<char>;

/// `<str as core::fmt::Debug>::fmt`, reached through `format!("{:?}", ..)`.
/// The contract gives its output a name and says nothing more of it.
#[verifier::external_body]
fn debug_quoted(text: &str) -> (quoted: String)
    ensures
        quoted@ == debug_form(text@),
{
    format!("{:?}", text)
}

/// Where a lookup goes: to the `get_user` of the unit that is asked.
pub fn lookup_destination(unit: UnitIdentity) -> (destination: Destination)
    ensures
        destination@ == (DestinationView { unit: unit@, method: "get_user"@ }),
{
    Destination { unit, method: "get_user" }
}

/// How every failed lookup begins.
pub open spec fn lookup_failure_prefix() -> Seq<char> {
    "Error calling get_period_range_realized_volatility: "@
}

/// The wording of a lookup that the unit itself refused, given the unit's
/// words in quoted form.
pub open spec fn refusal_text(quoted: Seq<char>) -> Seq<char> {
    lookup_failure_prefix() + quoted
}

/// The wording of a lookup whose call was rejected, given the message in
/// quoted form: the name of the code and the message, as a pair.
pub open spec fn rejection_text(code: RejectionCode, quoted: Seq<char>) -> Seq<char> {
    lookup_failure_prefix() + "("@ + code.name_text() + ", "@ + quoted + ")"@
}

/// What the reply to a lookup amounts to for the caller: the record, or the
/// wording of what went wrong.
pub open spec fn looked_up(reply: Result<Result<AppStateView, Seq<char>>, RejectionView>)
    -> Result<AppStateView, Seq<char>> {
    match reply {
        Ok(Ok(user)) => Ok(user),
        Ok(Err(refusal)) => Err(refusal_text(debug_form(refusal))),
        Err(rejection) => Err(rejection_text(rejection.code, debug_form(rejection.message))),
    }
}

/// The reply to a lookup as a plain value.
pub open spec fn lookup_reply_view(reply: Result<Result<AppState, String>, Rejection>) -> Result<
    Result<AppStateView, Seq<char>>,
    RejectionView,
> {
    match reply {
        Ok(Ok(user)) => Ok(Ok(user@)),
        Ok(Err(refusal)) => Ok(Err(refusal@)),
        Err(rejection) => Err(rejection@),
    }
}

/// Words a lookup that the unit refused.
pub fn describe_refusal(quoted: &str) -> (text: String)
    ensures
        text@ == refusal_text(quoted@),
{
    let mut text = String::from_str("Error calling get_period_range_realized_volatility: ");
    text.append(quoted);
    text
}

/// Words a lookup whose call was rejected.
pub fn describe_rejection(code: RejectionCode, quoted: &str) -> (text: String)
    ensures
        text@ == rejection_text(code, quoted@),
{
    let mut text = String::from_str("Error calling get_period_range_realized_volatility: ");
    text.append("(");
    text.append(code.name());
    text.append(", ");
    text.append(quoted);
    text.append(")");
    text
}

/// Reads the reply to a lookup.
pub fn lookup_outcome(reply: Result<Result<AppState, String>, Rejection>) -> (outcome:
    Result<AppState, String>)
    ensures
        match looked_up(lookup_reply_view(reply)) {
            Ok(user) => outcome is Ok && outcome->Ok_0@ == user,
            Err(text) => outcome is Err && outcome->Err_0@ == text,
        },
{
    match reply {
        Ok(Ok(user)) => Ok(user),
        Ok(Err(refusal)) => {
            let quoted = debug_quoted(refusal.as_str());
            Err(describe_refusal(quoted.as_str()))
        },
        Err(rejection) => {
            let quoted = debug_quoted(rejection.message.as_str());
            Err(describe_rejection(rejection.code, quoted.as_str()))
        },
    }
}

} // verus!
