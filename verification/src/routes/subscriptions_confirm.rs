use vstd::prelude::*;

use crate::error_chain::{ErrorReport, ErrorReportView};

verus! {

/// The query of a confirmation link.
pub struct Parameters {
    pub subscription_token: String,
}

/// What the service must do next for a confirmation.
pub enum ConfirmAction {
    /// Mark the subscriber with this id as confirmed.
    MarkConfirmed(u128),
    /// Answer with this status.
    Respond(u16),
    /// Answer 500 Internal Server Error with this error.
    Fail(ErrorReport),
}

/// The mathematical content of a [`ConfirmAction`].
#[verifier::ext_equal]
pub enum ConfirmActionView {
    MarkConfirmed(u128),
    Respond(u16),
    Fail(ErrorReportView),
}

impl View for ConfirmAction {
    type V = ConfirmActionView;

    open spec fn view(&self) -> ConfirmActionView {
        match self {
            ConfirmAction::MarkConfirmed(id) => ConfirmActionView::MarkConfirmed(*id),
            ConfirmAction::Respond(s) => ConfirmActionView::Respond(*s),
            ConfirmAction::Fail(e) => ConfirmActionView::Fail(e@),
        }
    }
}

/// The decision once the token was looked up: a failed lookup fails the
/// request, an unknown token is answered 401 Unauthorized, and a known one
/// leads to confirming the subscriber it belongs to.
pub open spec fn confirm_lookup_decision(lookup: Result<Option<u128>, ErrorReportView>) -> ConfirmActionView {
    match lookup {
        Err(e) => ConfirmActionView::Fail(e),
        Ok(None) => ConfirmActionView::Respond(401),
        Ok(Some(id)) => ConfirmActionView::MarkConfirmed(id),
    }
}

/// Decides what follows the lookup of a confirmation token.
pub fn confirm_on_lookup(lookup: Result<Option<u128>, ErrorReport>) -> (a: ConfirmAction)
    ensures
        a@ == confirm_lookup_decision(
            match lookup {
                Ok(id) => Ok(id),
                Err(e) => Err(e@),
            },
        ),
{
    match lookup {
        Err(e) => ConfirmAction::Fail(e),
        Ok(None) => ConfirmAction::Respond(401),
        Ok(Some(id)) => ConfirmAction::MarkConfirmed(id),
    }
}

/// Decides how a confirmation is answered once the subscriber was marked: 200
/// when the update went through, a failure otherwise.
pub fn confirm_on_marked(outcome: Result<(), ErrorReport>) -> (a: ConfirmAction)
    ensures
        a@ == match outcome {
            Ok(()) => ConfirmActionView::Respond(200),
            Err(e) => ConfirmActionView::Fail(e@),
        },
{
    match outcome {
        Ok(()) => ConfirmAction::Respond(200),
        Err(e) => ConfirmAction::Fail(e),
    }
}

/// The status with which a confirmation is answered once it is decided: the
/// given status, 500 for a failure, and none while a subscriber is still to be
/// marked.
pub open spec fn confirm_status_view(a: ConfirmActionView) -> Option<u16> {
    match a {
        ConfirmActionView::MarkConfirmed(_) => None,
        ConfirmActionView::Respond(status) => Some(status),
        ConfirmActionView::Fail(_) => Some(500),
    }
}

/// The status of the answer that an action calls for.
pub fn confirm_response_status(a: &ConfirmAction) -> (status: Option<u16>)
    ensures
        status == confirm_status_view(a@),
{
    match a {
        ConfirmAction::MarkConfirmed(_) => None,
        ConfirmAction::Respond(status) => Some(*status),
        ConfirmAction::Fail(_) => Some(500),
    }
}

} // verus!
