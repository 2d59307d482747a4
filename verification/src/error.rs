//! What a request is refused with.

use vstd::prelude::*;
use vstd::string::*;

use crate::refusal::PriceRefusal;

verus! {

/// Why a request fails.
#[derive(Debug)]
pub enum AppError {
    /// The request itself is wrong.
    Validation(String),
    /// There is no such thing.
    NotFound(String),
    /// It collides with what is stored.
    Conflict(String),
    /// The credentials do not hold.
    Unauthorized(String),
    /// The principal may not do this.
    Forbidden(String),
    /// A price breaks a price rule.
    PriceRefused(PriceRefusal),
    /// Something that is not the caller's doing.
    Internal(String),
}

impl AppError {
    /// The HTTP status that the error is answered with.
    pub open spec fn answers_with(self) -> int {
        match self {
            AppError::Validation(_) | AppError::PriceRefused(_) => 400,
            AppError::Unauthorized(_) => 401,
            AppError::Forbidden(_) => 403,
            AppError::NotFound(_) => 404,
            AppError::Conflict(_) => 409,
            AppError::Internal(_) => 500,
        }
    }

    /// The text that the error is answered with. A price refusal that nobody worded for
    /// an operator says the rule in English.
    pub open spec fn says(self) -> Seq<char> {
        match self {
            AppError::Validation(m) | AppError::NotFound(m) | AppError::Conflict(m)
            | AppError::Unauthorized(m) | AppError::Forbidden(m) | AppError::Internal(m) => m@,
            AppError::PriceRefused(r) => r.api_text(),
        }
    }

    /// The HTTP status that the error is answered with.
    pub fn status(&self) -> (status: u16)
        ensures
            status == self.answers_with(),
    {
        match self {
            AppError::Validation(_) | AppError::PriceRefused(_) => 400,
            AppError::Unauthorized(_) => 401,
            AppError::Forbidden(_) => 403,
            AppError::NotFound(_) => 404,
            AppError::Conflict(_) => 409,
            AppError::Internal(_) => 500,
        }
    }

    /// The text that the error is answered with.
    pub fn message(&self) -> (message: String)
        ensures
            message@ == self.says(),
    {
        match self {
            AppError::Validation(m) => m.clone(),
            AppError::NotFound(m) => m.clone(),
            AppError::Conflict(m) => m.clone(),
            AppError::Unauthorized(m) => m.clone(),
            AppError::Forbidden(m) => m.clone(),
            AppError::Internal(m) => m.clone(),
            AppError::PriceRefused(r) => r.as_str().to_owned(),
        }
    }
}

/// An error with its message as text.
pub enum ErrorView {
    Validation(Seq<char>),
    NotFound(Seq<char>),
    Conflict(Seq<char>),
    Unauthorized(Seq<char>),
    Forbidden(Seq<char>),
    PriceRefused(PriceRefusal),
    Internal(Seq<char>),
}

impl View for AppError {
    type V = ErrorView;

    open spec fn view(&self) -> ErrorView {
        match *self {
            AppError::Validation(m) => ErrorView::Validation(m@),
            AppError::NotFound(m) => ErrorView::NotFound(m@),
            AppError::Conflict(m) => ErrorView::Conflict(m@),
            AppError::Unauthorized(m) => ErrorView::Unauthorized(m@),
            AppError::Forbidden(m) => ErrorView::Forbidden(m@),
            AppError::PriceRefused(r) => ErrorView::PriceRefused(r),
            AppError::Internal(m) => ErrorView::Internal(m@),
        }
    }
}

/// The status of each error, and its text: the message that it carries, or the rule that
/// a price breaks.
pub proof fn each_error_answers_with_its_own_status(error: AppError)
    ensures
        error matches AppError::Validation(m) ==> error.answers_with() == 400 && error.says() == m@,
        error matches AppError::PriceRefused(r) ==> error.answers_with() == 400 && error.says()
            == r.api_text(),
        error matches AppError::Unauthorized(m) ==> error.answers_with() == 401 && error.says()
            == m@,
        error matches AppError::Forbidden(m) ==> error.answers_with() == 403 && error.says() == m@,
        error matches AppError::NotFound(m) ==> error.answers_with() == 404 && error.says() == m@,
        error matches AppError::Conflict(m) ==> error.answers_with() == 409 && error.says() == m@,
        error matches AppError::Internal(m) ==> error.answers_with() == 500 && error.says() == m@,
{
}

} // verus!
