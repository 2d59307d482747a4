use roya_routes::error::AppError;
use roya_routes::localization::{LocalizationContext, MessageKey};
use roya_routes::prices::ladder_refusal_message;
use roya_routes::refusal::{
    localized_refusal_error, price_refusal_key, price_refusal_message, PriceRefusal,
};

/// The two catalogs as an operator's request resolves them.
fn catalog_contexts() -> (LocalizationContext, LocalizationContext) {
    let english = LocalizationContext {
        locale_code: "en-US".to_string(),
        language_code: "en".to_string(),
        currency_code: "USD".to_string(),
        timezone: "UTC".to_string(),
    };
    let spanish = LocalizationContext {
        locale_code: "en-US".to_string(),
        language_code: "es".to_string(),
        currency_code: "USD".to_string(),
        timezone: "UTC".to_string(),
    };
    (english, spanish)
}

#[test]
fn every_price_refusal_is_translated_in_both_catalogs_and_keeps_its_api_text() {
    let (english, spanish) = catalog_contexts();
    let all = PriceRefusal::all();
    assert_eq!(all.len(), 7);
    for refusal in &all {
        let key = price_refusal_key(refusal);
        let en = english.tr(key);
        let es = spanish.tr(key);
        assert_ne!(
            en, "Translation unavailable",
            "{refusal:?} is missing from the English catalog"
        );
        assert_ne!(
            es, "Translation unavailable",
            "{refusal:?} is missing from the Spanish catalog"
        );
        assert_ne!(
            es, en,
            "{refusal:?} falls back to English in the Spanish catalog"
        );
        assert_eq!(
            en,
            refusal.as_str(),
            "{refusal:?}: the English catalog is the API body, byte for byte"
        );
    }
}

#[test]
fn every_refusal_has_its_two_sentences() {
    let (english, spanish) = catalog_contexts();
    let expected = [
        (
            PriceRefusal::MarkupNotAboveMinus100,
            "markup_pct must be > -100",
            "El margen debe ser mayor que -100.",
        ),
        (
            PriceRefusal::MarkupNeedsPositiveCost,
            "cost_price must be > 0 when markup_pct is set",
            "El costo debe ser mayor que 0 cuando se indica un margen.",
        ),
        (
            PriceRefusal::DerivationOverflow,
            "markup_pct or cost_price is too large to derive a sale_price",
            "El margen o el costo son demasiado grandes para derivar el precio de venta.",
        ),
        (
            PriceRefusal::SalePriceNotPositiveForProduct,
            "sale_price must be > 0 for products",
            "El precio de venta debe ser mayor que 0 en los productos.",
        ),
        (
            PriceRefusal::SalePriceNegative,
            "sale_price cannot be negative",
            "El precio de venta no puede ser negativo.",
        ),
        (
            PriceRefusal::CostPriceNegative,
            "cost_price cannot be negative",
            "El costo no puede ser negativo.",
        ),
        (
            PriceRefusal::SalePriceRequired,
            "sale_price is required",
            "El precio de venta es obligatorio.",
        ),
    ];
    for (refusal, en, es) in expected {
        assert_eq!(price_refusal_message(&refusal, &english), en);
        assert_eq!(price_refusal_message(&refusal, &spanish), es);
        assert_eq!(
            ladder_refusal_message(&Some(refusal), &spanish),
            Some(es.to_string())
        );
    }
    assert_eq!(ladder_refusal_message(&None, &english), None);
}

#[test]
fn no_two_refusals_share_a_sentence() {
    let all = PriceRefusal::all();
    for a in &all {
        for b in &all {
            assert_eq!(a == b, price_refusal_key(a) == price_refusal_key(b));
        }
    }
    assert_eq!(
        price_refusal_key(&PriceRefusal::CostPriceNegative),
        MessageKey::PriceRefusalCostPriceNegative
    );
}

#[test]
fn an_unknown_language_reads_english() {
    let (mut context, _) = catalog_contexts();
    context.language_code = "pt".to_string();
    assert_eq!(
        context.tr(MessageKey::PriceRefusalSalePriceRequired),
        "sale_price is required"
    );
}

#[test]
fn only_a_price_refusal_is_reworded() {
    let (_, spanish) = catalog_contexts();
    let reworded = localized_refusal_error(
        AppError::PriceRefused(PriceRefusal::SalePriceNegative),
        &spanish,
    );
    match &reworded {
        AppError::Validation(m) => assert_eq!(m, "El precio de venta no puede ser negativo."),
        other => panic!("{other:?}"),
    }
    match localized_refusal_error(reworded, &spanish) {
        AppError::Validation(m) => assert_eq!(m, "El precio de venta no puede ser negativo."),
        other => panic!("{other:?}"),
    }
    match localized_refusal_error(AppError::Conflict("sku taken".to_string()), &spanish) {
        AppError::Conflict(m) => assert_eq!(m, "sku taken"),
        other => panic!("{other:?}"),
    }
    match localized_refusal_error(AppError::NotFound("product 3".to_string()), &spanish) {
        AppError::NotFound(m) => assert_eq!(m, "product 3"),
        other => panic!("{other:?}"),
    }
}
