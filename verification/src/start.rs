//! The switches that the application starts with.

use vstd::prelude::*;

verus! {

/// What the business allows, and whether requests wait for it to be set up.
#[derive(Clone, Copy, Debug, PartialEq, Eq, Structural)]
pub struct StartFlags {
    /// Whether an account may go below zero.
    pub allow_negative: bool,
    /// Whether a stock may go below zero.
    pub allow_negative_stock: bool,
    /// Whether a sale on credit beyond the customer's limit is refused.
    pub enforce_credit_limit: bool,
    /// Whether the business still has to be set up. Nothing waits until that was read.
    pub setup_required: bool,
}

impl StartFlags {
    /// The switches, with the credit limit enforced.
    pub fn new(allow_negative: bool, allow_negative_stock: bool) -> (flags: Self)
        ensures
            flags == (StartFlags {
                allow_negative,
                allow_negative_stock,
                enforce_credit_limit: true,
                setup_required: false,
            }),
    {
        Self::new_with_credit_limit(allow_negative, allow_negative_stock, true)
    }

    /// The switches, with the credit limit enforced or not.
    pub fn new_with_credit_limit(
        allow_negative: bool,
        allow_negative_stock: bool,
        enforce_credit_limit: bool,
    ) -> (flags: Self)
        ensures
            flags == (StartFlags {
                allow_negative,
                allow_negative_stock,
                enforce_credit_limit,
                setup_required: false,
            }),
    {
        StartFlags {
            allow_negative,
            allow_negative_stock,
            enforce_credit_limit,
            setup_required: false,
        }
    }
}

/// The switches are those that were given, each in its own place; the credit limit is
/// enforced where nothing else was said, and nothing waits for the set-up.
pub proof fn switches_stay_where_they_were_put(
    allow_negative: bool,
    allow_negative_stock: bool,
    enforce_credit_limit: bool,
    plain: StartFlags,
    full: StartFlags,
)
    requires
        call_ensures(StartFlags::new, (allow_negative, allow_negative_stock), plain),
        call_ensures(
            StartFlags::new_with_credit_limit,
            (allow_negative, allow_negative_stock, enforce_credit_limit),
            full,
        ),
    ensures
        plain.allow_negative == allow_negative,
        plain.allow_negative_stock == allow_negative_stock,
        plain.enforce_credit_limit,
        !plain.setup_required,
        full.allow_negative == allow_negative,
        full.allow_negative_stock == allow_negative_stock,
        full.enforce_credit_limit == enforce_credit_limit,
        !full.setup_required,
{
}

} // verus!
