//! The language that a request is answered in, and the catalog of price refusals.

use vstd::prelude::*;
use vstd::string::*;

use crate::text::same_text;

verus! {

/// The presentation settings of a request.
pub struct LocalizationContext {
    pub locale_code: String,
    pub language_code: String,
    pub currency_code: String,
    pub timezone: String,
}

/// A sentence of the catalog.
#[derive(Clone, Copy, Debug, PartialEq, Eq, Structural)]
pub enum MessageKey {
    PriceRefusalMarkupNotAboveMinus100,
    PriceRefusalMarkupNeedsPositiveCost,
    PriceRefusalDerivationOverflow,
    PriceRefusalSalePriceNotPositiveForProduct,
    PriceRefusalSalePriceNegative,
    PriceRefusalCostPriceNegative,
    PriceRefusalSalePriceRequired,
}

/// The English sentence.
pub open spec fn english(key: MessageKey) -> Seq<char> {
    match key {
        MessageKey::PriceRefusalMarkupNotAboveMinus100 => "markup_pct must be > -100"@,
        MessageKey::PriceRefusalMarkupNeedsPositiveCost =>
            "cost_price must be > 0 when markup_pct is set"@,
        MessageKey::PriceRefusalDerivationOverflow =>
            "markup_pct or cost_price is too large to derive a sale_price"@,
        MessageKey::PriceRefusalSalePriceNotPositiveForProduct =>
            "sale_price must be > 0 for products"@,
        MessageKey::PriceRefusalSalePriceNegative => "sale_price cannot be negative"@,
        MessageKey::PriceRefusalCostPriceNegative => "cost_price cannot be negative"@,
        MessageKey::PriceRefusalSalePriceRequired => "sale_price is required"@,
    }
}

/// The Spanish sentence.
pub open spec fn spanish(key: MessageKey) -> Seq<char> {
    match key {
        MessageKey::PriceRefusalMarkupNotAboveMinus100 => "El margen debe ser mayor que -100."@,
        MessageKey::PriceRefusalMarkupNeedsPositiveCost =>
            "El costo debe ser mayor que 0 cuando se indica un margen."@,
        MessageKey::PriceRefusalDerivationOverflow =>
            "El margen o el costo son demasiado grandes para derivar el precio de venta."@,
        MessageKey::PriceRefusalSalePriceNotPositiveForProduct =>
            "El precio de venta debe ser mayor que 0 en los productos."@,
        MessageKey::PriceRefusalSalePriceNegative => "El precio de venta no puede ser negativo."@,
        MessageKey::PriceRefusalCostPriceNegative => "El costo no puede ser negativo."@,
        MessageKey::PriceRefusalSalePriceRequired => "El precio de venta es obligatorio."@,
    }
}

impl LocalizationContext {
    /// Whether the request is answered in Spanish.
    pub open spec fn speaks_spanish(self) -> bool {
        self.language_code@ == "es"@
    }

    /// The sentence in the language of the request: Spanish, or else English.
    pub open spec fn sentence(self, key: MessageKey) -> Seq<char> {
        if self.speaks_spanish() {
            spanish(key)
        } else {
            english(key)
        }
    }

    /// The sentence in the language of the request.
    pub fn tr(&self, key: MessageKey) -> (sentence: &'static str)
        ensures
            sentence@ == self.sentence(key),
    {
        if same_text(self.language_code.as_str(), "es") {
            match key {
                MessageKey::PriceRefusalMarkupNotAboveMinus100 =>
                    "El margen debe ser mayor que -100.",
                MessageKey::PriceRefusalMarkupNeedsPositiveCost =>
                    "El costo debe ser mayor que 0 cuando se indica un margen.",
                MessageKey::PriceRefusalDerivationOverflow =>
                    "El margen o el costo son demasiado grandes para derivar el precio de venta.",
                MessageKey::PriceRefusalSalePriceNotPositiveForProduct =>
                    "El precio de venta debe ser mayor que 0 en los productos.",
                MessageKey::PriceRefusalSalePriceNegative =>
                    "El precio de venta no puede ser negativo.",
                MessageKey::PriceRefusalCostPriceNegative => "El costo no puede ser negativo.",
                MessageKey::PriceRefusalSalePriceRequired => "El precio de venta es obligatorio.",
            }
        } else {
            match key {
                MessageKey::PriceRefusalMarkupNotAboveMinus100 => "markup_pct must be > -100",
                MessageKey::PriceRefusalMarkupNeedsPositiveCost =>
                    "cost_price must be > 0 when markup_pct is set",
                MessageKey::PriceRefusalDerivationOverflow =>
                    "markup_pct or cost_price is too large to derive a sale_price",
                MessageKey::PriceRefusalSalePriceNotPositiveForProduct =>
                    "sale_price must be > 0 for products",
                MessageKey::PriceRefusalSalePriceNegative => "sale_price cannot be negative",
                MessageKey::PriceRefusalCostPriceNegative => "cost_price cannot be negative",
                MessageKey::PriceRefusalSalePriceRequired => "sale_price is required",
            }
        }
    }
}

/// No sentence of the catalog is the same in both languages.
pub proof fn catalogs_never_agree(key: MessageKey)
    ensures
        english(key) != spanish(key),
{
    reveal_strlit("markup_pct must be > -100");
    reveal_strlit("El margen debe ser mayor que -100.");
    reveal_strlit("cost_price must be > 0 when markup_pct is set");
    reveal_strlit("El costo debe ser mayor que 0 cuando se indica un margen.");
    reveal_strlit("markup_pct or cost_price is too large to derive a sale_price");
    reveal_strlit("El margen o el costo son demasiado grandes para derivar el precio de venta.");
    reveal_strlit("sale_price must be > 0 for products");
    reveal_strlit("El precio de venta debe ser mayor que 0 en los productos.");
    reveal_strlit("sale_price cannot be negative");
    reveal_strlit("El precio de venta no puede ser negativo.");
    reveal_strlit("cost_price cannot be negative");
    reveal_strlit("El costo no puede ser negativo.");
    reveal_strlit("sale_price is required");
    reveal_strlit("El precio de venta es obligatorio.");
    assert(english(key)[0] != spanish(key)[0]);
}

/// The language alone decides the sentence: neither the locale, nor the currency, nor
/// the time zone does.
pub proof fn only_the_language_decides(
    a: LocalizationContext,
    b: LocalizationContext,
    key: MessageKey,
)
    requires
        a.language_code@ == b.language_code@,
    ensures
        a.sentence(key) == b.sentence(key),
{
}

} // verus!
