//! Price refusals: what each is called, and how the operator reads it.

use vstd::prelude::*;
use vstd::string::*;

use crate::error::{AppError, ErrorView};
use crate::localization;
use crate::localization::{LocalizationContext, MessageKey};

verus! {

/// A price rule that a product breaks.
#[derive(Clone, Copy, Debug, PartialEq, Eq, Structural)]
pub enum PriceRefusal {
    MarkupNotAboveMinus100,
    MarkupNeedsPositiveCost,
    DerivationOverflow,
    SalePriceNotPositiveForProduct,
    SalePriceNegative,
    CostPriceNegative,
    SalePriceRequired,
}

impl PriceRefusal {
    /// Every refusal, once.
    pub open spec fn every() -> Seq<PriceRefusal> {
        seq![
            PriceRefusal::MarkupNotAboveMinus100,
            PriceRefusal::MarkupNeedsPositiveCost,
            PriceRefusal::DerivationOverflow,
            PriceRefusal::SalePriceNotPositiveForProduct,
            PriceRefusal::SalePriceNegative,
            PriceRefusal::CostPriceNegative,
            PriceRefusal::SalePriceRequired,
        ]
    }

    /// Every refusal, once.
    pub fn all() -> (refusals: Vec<PriceRefusal>)
        ensures
            refusals@ == PriceRefusal::every(),
    {
        let mut refusals: Vec<PriceRefusal> = Vec::new();
        refusals.push(PriceRefusal::MarkupNotAboveMinus100);
        refusals.push(PriceRefusal::MarkupNeedsPositiveCost);
        refusals.push(PriceRefusal::DerivationOverflow);
        refusals.push(PriceRefusal::SalePriceNotPositiveForProduct);
        refusals.push(PriceRefusal::SalePriceNegative);
        refusals.push(PriceRefusal::CostPriceNegative);
        refusals.push(PriceRefusal::SalePriceRequired);
        refusals
    }

    /// The text that the JSON API answers with.
    pub open spec fn api_text(self) -> Seq<char> {
        match self {
            PriceRefusal::MarkupNotAboveMinus100 => "markup_pct must be > -100"@,
            PriceRefusal::MarkupNeedsPositiveCost =>
                "cost_price must be > 0 when markup_pct is set"@,
            PriceRefusal::DerivationOverflow =>
                "markup_pct or cost_price is too large to derive a sale_price"@,
            PriceRefusal::SalePriceNotPositiveForProduct => "sale_price must be > 0 for products"@,
            PriceRefusal::SalePriceNegative => "sale_price cannot be negative"@,
            PriceRefusal::CostPriceNegative => "cost_price cannot be negative"@,
            PriceRefusal::SalePriceRequired => "sale_price is required"@,
        }
    }

    /// The text that the JSON API answers with.
    pub fn as_str(&self) -> (text: &'static str)
        ensures
            text@ == self.api_text(),
    {
        match self {
            PriceRefusal::MarkupNotAboveMinus100 => "markup_pct must be > -100",
            PriceRefusal::MarkupNeedsPositiveCost =>
                "cost_price must be > 0 when markup_pct is set",
            PriceRefusal::DerivationOverflow =>
                "markup_pct or cost_price is too large to derive a sale_price",
            PriceRefusal::SalePriceNotPositiveForProduct => "sale_price must be > 0 for products",
            PriceRefusal::SalePriceNegative => "sale_price cannot be negative",
            PriceRefusal::CostPriceNegative => "cost_price cannot be negative",
            PriceRefusal::SalePriceRequired => "sale_price is required",
        }
    }
}

/// The sentence that words a refusal.
pub open spec fn refusal_key(refusal: PriceRefusal) -> MessageKey {
    match refusal {
        PriceRefusal::MarkupNotAboveMinus100 => MessageKey::PriceRefusalMarkupNotAboveMinus100,
        PriceRefusal::MarkupNeedsPositiveCost => MessageKey::PriceRefusalMarkupNeedsPositiveCost,
        PriceRefusal::DerivationOverflow => MessageKey::PriceRefusalDerivationOverflow,
        PriceRefusal::SalePriceNotPositiveForProduct =>
            MessageKey::PriceRefusalSalePriceNotPositiveForProduct,
        PriceRefusal::SalePriceNegative => MessageKey::PriceRefusalSalePriceNegative,
        PriceRefusal::CostPriceNegative => MessageKey::PriceRefusalCostPriceNegative,
        PriceRefusal::SalePriceRequired => MessageKey::PriceRefusalSalePriceRequired,
    }
}

/// The one mapping from a price refusal to a sentence. Every surface that states a
/// refusal goes through it, so no two of them can word one differently.
pub fn price_refusal_key(refusal: &PriceRefusal) -> (key: MessageKey)
    ensures
        key == refusal_key(*refusal),
{
    match refusal {
        PriceRefusal::MarkupNotAboveMinus100 => MessageKey::PriceRefusalMarkupNotAboveMinus100,
        PriceRefusal::MarkupNeedsPositiveCost => MessageKey::PriceRefusalMarkupNeedsPositiveCost,
        PriceRefusal::DerivationOverflow => MessageKey::PriceRefusalDerivationOverflow,
        PriceRefusal::SalePriceNotPositiveForProduct =>
            MessageKey::PriceRefusalSalePriceNotPositiveForProduct,
        PriceRefusal::SalePriceNegative => MessageKey::PriceRefusalSalePriceNegative,
        PriceRefusal::CostPriceNegative => MessageKey::PriceRefusalCostPriceNegative,
        PriceRefusal::SalePriceRequired => MessageKey::PriceRefusalSalePriceRequired,
    }
}

/// The refusal in the language of the request.
pub fn price_refusal_message(
    refusal: &PriceRefusal,
    localization: &LocalizationContext,
) -> (message: String)
    ensures
        message@ == localization.sentence(refusal_key(*refusal)),
{
    localization.tr(price_refusal_key(refusal)).to_owned()
}

/// `error`, with a price refusal turned into the sentence that the operator reads.
pub open spec fn localized(error: ErrorView, localization: LocalizationContext) -> ErrorView {
    match error {
        ErrorView::PriceRefused(refusal) => ErrorView::Validation(
            localization.sentence(refusal_key(refusal)),
        ),
        other => other,
    }
}

/// Turns a price refusal into the sentence that the operator reads; any other error
/// travels untouched.
pub fn localized_refusal_error(
    error: AppError,
    localization: &LocalizationContext,
) -> (localized_error: AppError)
    ensures
        localized_error@ == localized(error@, *localization),
        !(error is PriceRefused) ==> localized_error == error,
{
    match error {
        AppError::PriceRefused(refusal) => AppError::Validation(
            price_refusal_message(&refusal, localization),
        ),
        other => other,
    }
}

/// Every refusal is in the list of all refusals.
pub proof fn every_refusal_is_listed(refusal: PriceRefusal)
    ensures
        PriceRefusal::every().contains(refusal),
{
    let all = PriceRefusal::every();
    match refusal {
        PriceRefusal::MarkupNotAboveMinus100 => assert(all[0] == refusal),
        PriceRefusal::MarkupNeedsPositiveCost => assert(all[1] == refusal),
        PriceRefusal::DerivationOverflow => assert(all[2] == refusal),
        PriceRefusal::SalePriceNotPositiveForProduct => assert(all[3] == refusal),
        PriceRefusal::SalePriceNegative => assert(all[4] == refusal),
        PriceRefusal::CostPriceNegative => assert(all[5] == refusal),
        PriceRefusal::SalePriceRequired => assert(all[6] == refusal),
    }
}

/// Two refusals never share a sentence of the catalog.
pub proof fn refusals_keep_apart(a: PriceRefusal, b: PriceRefusal)
    ensures
        refusal_key(a) == refusal_key(b) ==> a == b,
{
}

/// The English sentence of a refusal is the very text that the JSON API answers
/// with, and the Spanish one is a translation of its own.
pub proof fn english_is_the_api_text(refusal: PriceRefusal, localization: LocalizationContext)
    ensures
        localization::english(refusal_key(refusal)) == refusal.api_text(),
        localization.speaks_spanish() <==> localization.sentence(refusal_key(refusal))
            != refusal.api_text(),
{
    localization::catalogs_never_agree(refusal_key(refusal));
}

/// Wording an error for the operator twice changes nothing more.
pub proof fn localizing_is_idempotent(error: ErrorView, localization: LocalizationContext)
    ensures
        localized(localized(error, localization), localization) == localized(error, localization),
        !(localized(error, localization) is PriceRefused),
{
}

/// Wording a refusal for the operator keeps the status that it is answered with.
pub proof fn wording_keeps_the_status(
    error: AppError,
    worded: AppError,
    localization: LocalizationContext,
)
    requires
        worded@ == localized(error@, localization),
    ensures
        worded.answers_with() == error.answers_with(),
{
}

/// How the operator reads each refusal, in Spanish and in any other language, and how
/// the JSON API answers it.
pub proof fn each_refusal_has_its_own_words(refusal: PriceRefusal, context: LocalizationContext)
    ensures
        ({
            let (es, en) = match refusal {
                PriceRefusal::MarkupNotAboveMinus100 => (
                    "El margen debe ser mayor que -100."@,
                    "markup_pct must be > -100"@,
                ),
                PriceRefusal::MarkupNeedsPositiveCost => (
                    "El costo debe ser mayor que 0 cuando se indica un margen."@,
                    "cost_price must be > 0 when markup_pct is set"@,
                ),
                PriceRefusal::DerivationOverflow => (
                    "El margen o el costo son demasiado grandes para derivar el precio de venta."@,
                    "markup_pct or cost_price is too large to derive a sale_price"@,
                ),
                PriceRefusal::SalePriceNotPositiveForProduct => (
                    "El precio de venta debe ser mayor que 0 en los productos."@,
                    "sale_price must be > 0 for products"@,
                ),
                PriceRefusal::SalePriceNegative => (
                    "El precio de venta no puede ser negativo."@,
                    "sale_price cannot be negative"@,
                ),
                PriceRefusal::CostPriceNegative => (
                    "El costo no puede ser negativo."@,
                    "cost_price cannot be negative"@,
                ),
                PriceRefusal::SalePriceRequired => (
                    "El precio de venta es obligatorio."@,
                    "sale_price is required"@,
                ),
            };
            &&& refusal.api_text() == en
            &&& context.language_code@ == "es"@ ==> context.sentence(refusal_key(refusal)) == es
            &&& context.language_code@ != "es"@ ==> context.sentence(refusal_key(refusal)) == en
        }),
{
}

/// Wording an error for the operator turns a price refusal into its sentence, as an
/// error of the request, and leaves every other error as it is.
pub proof fn only_refusals_are_reworded(error: ErrorView, context: LocalizationContext)
    ensures
        error matches ErrorView::PriceRefused(r) ==> localized(error, context)
            == ErrorView::Validation(context.sentence(refusal_key(r))),
        !(error is PriceRefused) ==> localized(error, context) == error,
{
}

} // verus!
