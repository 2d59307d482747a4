use std::collections::BTreeMap;

use roya_routes::amount::Amount;
use roya_routes::answer::is_from_drawer;
use roya_routes::customers::parse_required_decimal;
use roya_routes::date::Date;
use roya_routes::error::AppError;
use roya_routes::html::{category_options, html_escape, product_options, OptionItem, ProductItem};
use roya_routes::inventory::{
    category_not_found, default_true, double_option, movement_from_request,
    new_product_from_request, product_update_from_request, CreateMovementRequest,
    CreateProductRequest, UpdateProductRequest,
};
use roya_routes::localization::LocalizationContext;
use roya_routes::prices::{
    form_price_fields, ladder_input, ladder_input_from, read_price_field, resolve_price_fields,
    resolved_form_prices, LadderInput, PriceField, PriceFieldError, PriceFields, PriceLadderQuery,
    PriceReadings, ProductKind, ResolvedPrices,
};
use roya_routes::product_detail::{
    echoed_query, product_detail, search_row, stale_cost, stock_actor_ids, stock_rows,
    supplier_costs, LocalizedFigures, Product, ProductFacts, ProductStock, ProductSupplierCost,
    Supplier,
};
use roya_routes::product_filter::{
    after_creating_category, after_creating_product, after_editing_product, after_recording_cost,
    after_recording_movement, body_filter, body_filter_is_active, creation_body,
    hidden_by_filter_notice_html, is_hidden_by_filter, product_lifecycle_response,
    product_tax_mutation_response, render_product_list, resolve_search_query, ProductAnswer, ProductSearchQuery, WebProductFilter,
};
use roya_routes::product_forms::{
    checkbox, cost_from_form, movement_from_form, new_product_from_form, parse_form_date,
    parse_opt_decimal, parse_opt_i64, product_update_from_form, CreateCategoryForm,
    CreateMovementForm, CreateProductForm, EditProductForm, MovementReadings, ProductReadings,
    RecordProductCostForm,
};
use roya_routes::refusal::PriceRefusal;

fn amount(text: &str) -> Amount {
    parse_required_decimal(text, "amount").unwrap()
}

fn date(year: i32, month: u32, day: u32) -> Date {
    Date::from_ymd_opt(year, month, day).unwrap()
}

fn validation(error: AppError) -> String {
    match error {
        AppError::Validation(m) => m,
        other => panic!("a validation error was expected, not {other:?}"),
    }
}

fn spanish() -> LocalizationContext {
    LocalizationContext {
        locale_code: "es-AR".to_string(),
        language_code: "es".to_string(),
        currency_code: "ARS".to_string(),
        timezone: "UTC".to_string(),
    }
}

fn readings(sale: Option<&str>, cost: Option<&str>, markup: Option<&str>) -> PriceReadings {
    PriceReadings {
        sale_price: sale.map(amount),
        cost_price: cost.map(amount),
        markup_pct: markup.map(amount),
    }
}

fn fields(sale: PriceField, cost: PriceField, markup: PriceField) -> PriceFields {
    PriceFields {
        sale_price: sale,
        cost_price: cost,
        markup_pct: markup,
    }
}

fn value(text: &str) -> PriceField {
    PriceField::Value(amount(text))
}

fn product(id: i64, created_by: i64, updated_by: Option<i64>) -> Product {
    Product {
        id,
        sku: format!("SKU-{id}"),
        name: format!("Producto {id}"),
        kind: ProductKind::Product,
        category_id: None,
        unit: "un".to_string(),
        sale_price: amount("10"),
        cost_price: amount("8"),
        markup_pct: None,
        track_stock: true,
        min_stock: None,
        max_stock: None,
        location: None,
        notes: None,
        is_active: true,
        created_by,
        updated_by,
    }
}

fn stocked(id: i64, created_by: i64, updated_by: Option<i64>) -> ProductStock {
    ProductStock {
        product: product(id, created_by, updated_by),
        stock: amount("3"),
        suggested: Some(amount("2")),
    }
}

fn supplier_cost(supplier_id: i64) -> ProductSupplierCost {
    ProductSupplierCost {
        supplier_id,
        cost: amount("7"),
        date: date(2026, 1, 2),
        is_preferred: false,
    }
}

fn create_form() -> CreateProductForm {
    CreateProductForm {
        sku: "A-1".to_string(),
        name: "Yerba".to_string(),
        kind: " ".to_string(),
        q: "arroz".to_string(),
        category_id: "9".to_string(),
        product_category_id: " 4 ".to_string(),
        unit: " ".to_string(),
        sale_price: "10".to_string(),
        cost_price: "".to_string(),
        markup_pct: "".to_string(),
        track_stock: Some("on".to_string()),
        min_stock: "1".to_string(),
        max_stock: "".to_string(),
        location: " ".to_string(),
        notes: " n ".to_string(),
    }
}

fn create_readings() -> ProductReadings {
    ProductReadings {
        kind: Err("unknown kind".to_string()),
        prices: readings(Some("10"), None, None),
        min_stock: Some(amount("1")),
        max_stock: None,
    }
}

fn edit_form() -> EditProductForm {
    EditProductForm {
        id: 3,
        sku: "A-1".to_string(),
        name: "Yerba".to_string(),
        kind: "Service".to_string(),
        category_id: "".to_string(),
        unit: "kg".to_string(),
        sale_price: "".to_string(),
        cost_price: "8".to_string(),
        markup_pct: "25".to_string(),
        track_stock: None,
        min_stock: "".to_string(),
        max_stock: "".to_string(),
        location: "P1".to_string(),
        notes: "".to_string(),
    }
}

fn edit_readings() -> ProductReadings {
    ProductReadings {
        kind: Ok(ProductKind::Service),
        prices: readings(None, Some("8"), Some("25")),
        min_stock: None,
        max_stock: None,
    }
}

fn movement_form(qty: &str, reason: &str, on: &str) -> CreateMovementForm {
    CreateMovementForm {
        product_id: 5,
        kind: "In".to_string(),
        qty: qty.to_string(),
        reason: reason.to_string(),
        reference: " r ".to_string(),
        date: on.to_string(),
        q: "".to_string(),
        category_id: "".to_string(),
    }
}

fn movement_readings(qty: Option<&str>) -> MovementReadings {
    MovementReadings {
        movement_type: Ok("In".to_string()),
        qty: qty.map(amount),
        reason: Ok("Purchase".to_string()),
    }
}

#[test]
fn a_field_is_empty_unreadable_or_a_value() {
    assert!(matches!(read_price_field(" ", Some(amount("1"))), PriceField::Empty));
    assert!(matches!(read_price_field("x", None), PriceField::Unreadable));
    match read_price_field("1,5", Some(amount("1.5"))) {
        PriceField::Value(v) => assert_eq!(v.text(), "1.5"),
        _ => panic!("a value was expected"),
    }
}

#[test]
fn a_markup_excuses_an_empty_sale_price() {
    let prices =
        resolve_price_fields(fields(PriceField::Empty, value("8"), value("25"))).unwrap();
    assert_eq!(prices.sale_price.text(), "0");
    assert_eq!(prices.cost_price.text(), "8");
    assert_eq!(prices.markup_pct.unwrap().text(), "25");
    let prices =
        resolve_price_fields(fields(value("10"), PriceField::Empty, PriceField::Empty)).unwrap();
    assert_eq!(prices.sale_price.text(), "10");
    assert_eq!(prices.cost_price.text(), "0");
    assert!(prices.markup_pct.is_none());
}

#[test]
fn the_first_wrong_price_field_is_named() {
    let named = |f: PriceFields| match resolve_price_fields(f) {
        Err(PriceFieldError::Unreadable(m)) => m,
        _ => panic!("an unreadable field was expected"),
    };
    let typo = PriceField::Unreadable;
    assert_eq!(named(fields(typo, typo, typo)), "invalid markup_pct");
    assert_eq!(named(fields(typo, typo, PriceField::Empty)), "invalid sale_price");
    assert_eq!(named(fields(value("1"), typo, PriceField::Empty)), "invalid cost_price");
    match resolve_price_fields(fields(PriceField::Empty, typo, PriceField::Empty)) {
        Err(PriceFieldError::Refusal(r)) => assert_eq!(r, PriceRefusal::SalePriceRequired),
        _ => panic!("a refusal was expected"),
    }
    assert_eq!(
        validation(PriceFieldError::Unreadable("invalid cost_price").into_app_error()),
        "invalid cost_price"
    );
    assert!(matches!(
        PriceFieldError::Refusal(PriceRefusal::SalePriceRequired).into_app_error(),
        AppError::PriceRefused(PriceRefusal::SalePriceRequired)
    ));
}

#[test]
fn a_save_words_its_refusal_for_the_operator() {
    let refused = resolved_form_prices("", "8", "", &readings(None, Some("8"), None), &spanish());
    assert_eq!(validation(refused.err().unwrap()), "El precio de venta es obligatorio.");
    let typo = resolved_form_prices("x", "8", "", &readings(None, Some("8"), None), &spanish());
    assert_eq!(validation(typo.err().unwrap()), "invalid sale_price");
    let made = resolved_form_prices(
        "10",
        "8",
        "",
        &readings(Some("10"), Some("8"), None),
        &spanish(),
    )
    .unwrap();
    assert_eq!(made.sale_price.text(), "10");
    let read = form_price_fields("", "8", "?", &readings(None, Some("8"), None));
    assert!(matches!(read.sale_price, PriceField::Empty));
    assert!(matches!(read.cost_price, PriceField::Value(_)));
    assert!(matches!(read.markup_pct, PriceField::Unreadable));
}

#[test]
fn a_preview_says_what_a_save_would_do() {
    let query = |sale: Option<&str>, cost: Option<&str>, markup: Option<&str>| PriceLadderQuery {
        id: 1,
        kind: None,
        sale_price: sale.map(|s| s.to_string()),
        cost_price: cost.map(|s| s.to_string()),
        markup_pct: markup.map(|s| s.to_string()),
    };
    let none = readings(None, None, None);
    assert!(ladder_input(&query(None, None, None), &none, None).is_none());
    match ladder_input(&query(Some(""), Some("8"), None), &readings(None, Some("8"), None), None) {
        Some(LadderInput::Refused { refusal, cost_price }) => {
            assert_eq!(refusal, PriceRefusal::SalePriceRequired);
            assert_eq!(cost_price.text(), "8");
        }
        _ => panic!("a refusal was expected"),
    }
    assert!(matches!(
        ladder_input(&query(Some(""), Some("x"), None), &none, None),
        Some(LadderInput::Unreadable)
    ));
    let mut marked_up = query(Some(""), Some("8"), Some("25"));
    marked_up.kind = Some(" Service ".to_string());
    match ladder_input(
        &marked_up,
        &readings(None, Some("8"), Some("25")),
        Some(ProductKind::Service),
    ) {
        Some(LadderInput::Form { kind, sale_price, cost_price, markup_pct }) => {
            assert_eq!(kind, Some(ProductKind::Service));
            assert_eq!(sale_price.text(), "0");
            assert_eq!(cost_price.text(), "8");
            assert_eq!(markup_pct.unwrap().text(), "25");
        }
        _ => panic!("a form was expected"),
    }
    let mut only_kind = query(None, None, None);
    only_kind.kind = Some("Service".to_string());
    assert!(matches!(
        ladder_input(&only_kind, &none, Some(ProductKind::Service)),
        Some(LadderInput::Refused { .. })
    ));
    assert!(matches!(
        ladder_input_from(
            ResolvedPrices {
                sale_price: amount("1"),
                cost_price: amount("2"),
                markup_pct: None
            },
            None
        ),
        LadderInput::Form { kind: None, markup_pct: None, .. }
    ));
}

#[test]
fn an_emptied_price_is_not_an_absent_one() {
    let emptied = PriceLadderQuery {
        id: 1,
        kind: None,
        sale_price: Some("".to_string()),
        cost_price: None,
        markup_pct: None,
    };
    assert!(ladder_input(&emptied, &readings(None, None, None), None).is_some());
}

#[test]
fn escaped_text_holds_no_markup() {
    assert_eq!(
        html_escape("<b class=\"x\">a & b's</b>"),
        "&lt;b class=&quot;x&quot;&gt;a &amp; b's&lt;/b&gt;"
    );
    assert_eq!(html_escape("&amp;"), "&amp;amp;");
    assert_eq!(html_escape("ñandú"), "ñandú");
    assert_eq!(html_escape(""), "");
}

#[test]
fn options_are_listed_under_their_empty_choice() {
    let categories = [
        OptionItem { id: 1, name: "A & B".to_string() },
        OptionItem { id: 2, name: "C".to_string() },
    ];
    let listed = |empty: Option<&str>| {
        category_options(
            &categories,
            &empty.map(|e| e.to_string()),
            "Sin categoría",
            "Todas",
        )
    };
    let rest = "<option value=\"1\">A &amp; B</option><option value=\"2\">C</option>";
    assert_eq!(listed(None), format!("<option value=\"\">Todas</option>{rest}"));
    assert_eq!(listed(Some(" ")), format!("<option value=\"\">Todas</option>{rest}"));
    assert_eq!(listed(Some(" none ")), format!("<option value=\"\">Sin categoría</option>{rest}"));
    assert_eq!(listed(Some("<x>")), format!("<option value=\"\">&lt;x&gt;</option>{rest}"));
    assert_eq!(
        product_options(&[ProductItem { id: 7, sku: "\"q\"".to_string(), name: "<n>".to_string() }]),
        "<option value=\"7\">&quot;q&quot; — &lt;n&gt;</option>"
    );
    assert_eq!(product_options(&[]), "");
}

#[test]
fn a_filter_reads_the_same_wherever_it_travels() {
    for (q, category) in [("", ""), (" arroz ", " 4 "), ("x", "abc"), ("", "-2")] {
        let filter = WebProductFilter {
            category_id: Some(category.to_string()),
            q: Some(q.to_string()),
        };
        let (query, id) = filter.parsed();
        assert_eq!((query.clone(), id), body_filter(q, category));
        assert_eq!(!query.is_empty() || id.is_some(), body_filter_is_active(q, category));
        assert_eq!(filter.category_field(), category.trim());
    }
    let absent = WebProductFilter { category_id: None, q: None };
    assert_eq!(absent.parsed(), ("".to_string(), None));
    assert_eq!(absent.category_field(), "");
    assert_eq!(body_filter(" arroz ", " 4 "), ("arroz".to_string(), Some(4)));
    assert!(!body_filter_is_active(" ", "abc"));
}

#[test]
fn only_an_active_filter_hides_a_creation() {
    assert!(!is_hidden_by_filter("", "", &[], 5));
    assert!(!is_hidden_by_filter("", "abc", &[], 5));
    assert!(is_hidden_by_filter("x", "", &[1, 2], 5));
    assert!(!is_hidden_by_filter("x", "", &[1, 5], 5));
    assert_eq!(creation_body(&Some("N".to_string()), "L"), "NL");
    assert_eq!(creation_body(&None, "L"), "L");
}

#[test]
fn a_list_that_fails_to_render_is_an_internal_error() {
    assert_eq!(render_product_list(Ok("l".to_string())).unwrap(), "l");
    assert_eq!(hidden_by_filter_notice_html(Ok("n".to_string())).unwrap(), "n");
    assert!(matches!(
        render_product_list(Err("x".to_string())),
        Err(AppError::Internal(_))
    ));
    assert!(matches!(
        hidden_by_filter_notice_html(Err("x".to_string())),
        Err(AppError::Internal(_))
    ));
}

#[test]
fn both_search_names_reach_the_search() {
    let query = |q: &str, product: &str| ProductSearchQuery {
        q: q.to_string(),
        product: product.to_string(),
    };
    assert_eq!(resolve_search_query(&query(" ", " yerba ")), " yerba ");
    assert_eq!(resolve_search_query(&query("mate ", "yerba")), "mate ");
    assert_eq!(echoed_query(" yerba "), "yerba");
}

#[test]
fn product_answers_follow_the_caller() {
    assert!(matches!(after_creating_category(true), ProductAnswer::Event("category-created")));
    match after_creating_product(true, " a ", "x") {
        ProductAnswer::List { query, category, trigger } => {
            assert_eq!((query.as_str(), category, trigger), ("a", None, "product-created"));
        }
        _ => panic!("a list was expected"),
    }
    let filter = WebProductFilter { category_id: Some("3".to_string()), q: None };
    match after_editing_product(true, true, 8, &filter) {
        ProductAnswer::Detail { product_id, trigger, after_settle } => {
            assert_eq!(product_id, 8);
            assert_eq!(trigger, "product-changed");
            assert_eq!(after_settle, Some("product-saved"));
        }
        _ => panic!("a detail was expected"),
    }
    match after_editing_product(true, false, 8, &filter) {
        ProductAnswer::List { query, category, trigger } => {
            assert_eq!((query.as_str(), category, trigger), ("", Some(3), "product-changed"));
        }
        _ => panic!("a list was expected"),
    }
    assert!(matches!(
        after_recording_movement(true, true, 8, "", ""),
        ProductAnswer::Detail { product_id: 8, trigger: "movement-created", after_settle: None }
    ));
    assert!(matches!(
        after_recording_movement(true, false, 8, "", ""),
        ProductAnswer::List { trigger: "movement-created", .. }
    ));
    assert!(matches!(
        after_recording_cost(true, true, 8, "", ""),
        ProductAnswer::Detail { trigger: "product-cost-recorded", .. }
    ));
    assert!(matches!(
        after_recording_cost(true, false, 8, "", "2"),
        ProductAnswer::List { category: Some(2), trigger: "product-cost-recorded", .. }
    ));
    assert!(matches!(
        product_lifecycle_response(true, "q", ""),
        ProductAnswer::List { trigger: "product-changed", .. }
    ));
    assert!(matches!(
        product_tax_mutation_response(true, 8),
        ProductAnswer::Detail { product_id: 8, trigger: "product-taxes-changed", after_settle: None }
    ));
    for answer in [
        after_creating_category(false),
        after_creating_product(false, "", ""),
        after_editing_product(false, true, 8, &filter),
        after_recording_movement(false, true, 8, "", ""),
        after_recording_cost(false, true, 8, "", ""),
        product_lifecycle_response(false, "", ""),
        product_tax_mutation_response(false, 8),
    ] {
        assert!(matches!(answer, ProductAnswer::Redirect("/products")));
    }
    assert!(is_from_drawer(Some("#product-drawer-body")));
}

#[test]
fn a_product_is_read_from_the_creation_form() {
    let made = new_product_from_form(create_form(), &create_readings(), &spanish()).unwrap();
    assert_eq!(made.sku, "A-1");
    assert_eq!(made.kind, ProductKind::Product);
    assert_eq!(made.category_id, Some(4));
    assert_eq!(made.unit, "un");
    assert_eq!(made.sale_price.text(), "10");
    assert_eq!(made.cost_price.text(), "0");
    assert!(made.track_stock);
    assert_eq!(made.min_stock.unwrap().text(), "1");
    assert!(made.max_stock.is_none());
    assert_eq!(made.location, None);
    assert_eq!(made.notes, Some(" n ".to_string()));
    assert!(made.markup_pct.is_none());
}

#[test]
fn the_filter_is_not_the_category_of_the_product() {
    let mut form = create_form();
    form.category_id = "77".to_string();
    let made = new_product_from_form(form, &create_readings(), &spanish()).unwrap();
    assert_eq!(made.category_id, Some(4));
}

#[test]
fn a_creation_form_names_its_first_error() {
    let error = |change: fn(&mut CreateProductForm), r: ProductReadings| {
        let mut form = create_form();
        change(&mut form);
        validation(new_product_from_form(form, &r, &spanish()).err().unwrap())
    };
    assert_eq!(error(|f| f.kind = "x".to_string(), create_readings()), "unknown kind");
    let mut r = create_readings();
    r.prices.sale_price = None;
    assert_eq!(error(|_| {}, r), "invalid sale_price");
    assert_eq!(
        error(|f| f.sale_price = "".to_string(), create_readings()),
        "El precio de venta es obligatorio."
    );
    assert_eq!(
        error(|f| f.product_category_id = " z".to_string(), create_readings()),
        "invalid id:  z"
    );
    let mut r = create_readings();
    r.min_stock = None;
    assert_eq!(error(|_| {}, r), "invalid decimal: 1");
    assert_eq!(
        error(|f| f.max_stock = "?".to_string(), create_readings()),
        "invalid decimal: ?"
    );
}

#[test]
fn an_edit_sends_every_field() {
    let update = product_update_from_form(edit_form(), &edit_readings(), &spanish()).unwrap();
    assert_eq!(update.sku, Some("A-1".to_string()));
    assert_eq!(update.kind, Some(ProductKind::Service));
    assert_eq!(update.category_id, Some(None));
    assert_eq!(update.unit, Some("kg".to_string()));
    assert_eq!(update.sale_price.unwrap().text(), "0");
    assert_eq!(update.cost_price.unwrap().text(), "8");
    assert_eq!(update.track_stock, Some(false));
    assert!(matches!(update.min_stock, Some(None)));
    assert!(matches!(update.max_stock, Some(None)));
    assert_eq!(update.location, Some(Some("P1".to_string())));
    assert_eq!(update.notes, Some(None));
    assert_eq!(update.markup_pct.unwrap().unwrap().text(), "25");
    let mut refused = edit_form();
    refused.markup_pct = "".to_string();
    assert_eq!(
        validation(
            product_update_from_form(refused, &edit_readings(), &spanish()).err().unwrap()
        ),
        "El precio de venta es obligatorio."
    );
}

#[test]
fn small_fields_are_read_alike() {
    assert!(!checkbox(&None));
    for (raw, checked) in [("1", true), ("ON", true), ("True", true), ("yes", false), ("", false)] {
        assert_eq!(checkbox(&Some(raw.to_string())), checked);
    }
    assert!(parse_opt_decimal(" ", None).unwrap().is_none());
    assert_eq!(parse_opt_decimal("2", Some(amount("2"))).unwrap().unwrap().text(), "2");
    assert_eq!(parse_opt_i64(" 6 ").unwrap(), Some(6));
    let category = |parent: &str| CreateCategoryForm {
        name: "n".to_string(),
        parent_id: parent.to_string(),
    };
    assert_eq!(category("").parent().unwrap(), None);
    assert_eq!(category("6").parent().unwrap(), Some(6));
    assert_eq!(validation(category("a").parent().err().unwrap()), "invalid id: a");
}

#[test]
fn a_movement_is_read_from_its_form() {
    let made =
        movement_from_form(movement_form("3", "", ""), movement_readings(Some("3")), "2026-05-06")
            .unwrap();
    assert_eq!(made.product_id, 5);
    assert_eq!(made.qty.text(), "3");
    assert_eq!(made.movement_type, "In");
    assert_eq!(made.reason, "Initial");
    assert_eq!(made.reference, "r");
    assert_eq!(made.date.text(), "2026-05-06");
    let made = movement_from_form(
        movement_form("3", "Purchase", " 2026-01-02 "),
        movement_readings(Some("3")),
        "2026-05-06",
    )
    .unwrap();
    assert_eq!(made.reason, "Purchase");
    assert_eq!(made.date.text(), "2026-01-02");
}

#[test]
fn a_movement_form_names_its_first_error() {
    let error = |form: CreateMovementForm, r: MovementReadings, today: &str| {
        movement_from_form(form, r, today).err().unwrap()
    };
    let mut r = movement_readings(None);
    r.movement_type = Err("bad type".to_string());
    assert_eq!(validation(error(movement_form("x", "", ""), r, "2026-05-06")), "bad type");
    assert_eq!(
        validation(error(movement_form("x", "", ""), movement_readings(None), "2026-05-06")),
        "invalid qty"
    );
    let mut r = movement_readings(Some("3"));
    r.reason = Err("bad reason".to_string());
    assert_eq!(validation(error(movement_form("3", "z", ""), r, "2026-05-06")), "bad reason");
    assert_eq!(
        validation(error(movement_form("3", "", "z"), movement_readings(Some("3")), "2026-05-06")),
        "invalid date (YYYY-MM-DD)"
    );
    match error(movement_form("3", "", ""), movement_readings(Some("3")), "today") {
        AppError::Internal(m) => assert_eq!(m, "invalid localized date"),
        other => panic!("an internal error was expected, not {other:?}"),
    }
    assert_eq!(parse_form_date("2026-01-02", "today").unwrap().text(), "2026-01-02");
}

#[test]
fn a_cost_is_read_from_its_form() {
    let form = |on: &str| RecordProductCostForm {
        product_id: 5,
        supplier_id: 6,
        q: "".to_string(),
        category_id: "".to_string(),
        cost: "7".to_string(),
        date: on.to_string(),
    };
    let made = cost_from_form(&form(""), Some(amount("7")), "2026-05-06").unwrap();
    assert_eq!((made.product_id, made.supplier_id), (5, 6));
    assert_eq!(made.cost.text(), "7");
    assert_eq!(made.date.text(), "2026-05-06");
    assert_eq!(
        validation(cost_from_form(&form("z"), None, "2026-05-06").err().unwrap()),
        "invalid cost"
    );
    assert_eq!(
        validation(cost_from_form(&form("z"), Some(amount("7")), "2026-05-06").err().unwrap()),
        "invalid date (YYYY-MM-DD)"
    );
}

#[test]
fn stock_rows_show_who_touched_them() {
    let items = || vec![stocked(1, 10, None), stocked(2, 11, Some(12)), stocked(3, 10, Some(99))];
    assert_eq!(stock_actor_ids(&items()), vec![10, 11, 10, 12, 99]);
    let mut names = BTreeMap::new();
    names.insert(10, "Ana".to_string());
    names.insert(12, "Caro".to_string());
    let rows = stock_rows(items(), &names);
    assert_eq!(rows[0].created_by_name, Some("Ana".to_string()));
    assert_eq!(rows[0].updated_by_name, None);
    assert_eq!(rows[1].created_by_name, None);
    assert_eq!(rows[1].updated_by_name, Some("Caro".to_string()));
    assert_eq!(rows[2].updated_by_name, None);
    assert_eq!(rows[2].ps.product.id, 3);
}

#[test]
fn a_search_row_carries_both_prices() {
    let row = search_row(
        stocked(1, 10, None),
        LocalizedFigures {
            sale_price: "$ 10".to_string(),
            cost_price: "$ 8".to_string(),
            stock: "3".to_string(),
        },
    );
    assert_eq!((row.id, row.name.as_str(), row.sku.as_str()), (1, "Producto 1", "SKU-1"));
    assert_eq!((row.sale_price.as_str(), row.cost_price.as_str()), ("$ 10", "$ 8"));
    assert_eq!(row.stock, "3");
}

#[test]
fn only_a_cost_that_disagrees_is_stale() {
    assert!(stale_cost(None, amount("8")).is_none());
    assert!(stale_cost(Some(amount("8.00")), amount("8")).is_none());
    assert!(stale_cost(Some(amount("9")), amount("0.00")).is_none());
    let stale = stale_cost(Some(amount("9")), amount("8")).unwrap();
    assert_eq!((stale.reference.text(), stale.stored.text()), ("9".to_string(), "8".to_string()));
}

#[test]
fn the_product_drawer_names_its_suppliers() {
    let suppliers = [
        Supplier { id: 6, name: "Sur".to_string() },
        Supplier { id: 6, name: "Otro".to_string() },
    ];
    let shown = supplier_costs(vec![supplier_cost(6), supplier_cost(7)], &suppliers, "Proveedor");
    assert_eq!(shown[0].supplier_name, "Sur");
    assert_eq!(shown[1].supplier_name, "Proveedor #7");
    assert_eq!(shown[1].cost.supplier_id, 7);
    let mut names = BTreeMap::new();
    names.insert(10, "Ana".to_string());
    let detail = product_detail(
        ProductFacts {
            ps: stocked(1, 10, Some(11)),
            suppliers: vec![Supplier { id: 6, name: "Sur".to_string() }],
            costs: vec![supplier_cost(6)],
            reference_cost: Some(amount("9")),
            net_refusal: Some(PriceRefusal::SalePriceRequired),
        },
        &names,
        "Proveedor",
        &spanish(),
    );
    assert_eq!(detail.product.id, 1);
    assert_eq!(detail.stock.text(), "3");
    assert_eq!(detail.suggested.unwrap().text(), "2");
    assert_eq!(detail.created_by_name, Some("Ana".to_string()));
    assert_eq!(detail.updated_by_name, None);
    assert_eq!(detail.supplier_costs[0].supplier_name, "Sur");
    assert_eq!(detail.suppliers.len(), 1);
    assert_eq!(detail.stale_cost.unwrap().reference.text(), "9");
    assert_eq!(
        detail.net_refusal_message,
        Some("El precio de venta es obligatorio.".to_string())
    );
}

#[test]
fn requests_become_what_the_service_takes() {
    let made = new_product_from_request(CreateProductRequest {
        sku: "A".to_string(),
        name: "B".to_string(),
        kind: ProductKind::Service,
        category_id: Some(1),
        unit: "h".to_string(),
        sale_price: amount("5"),
        cost_price: None,
        track_stock: false,
        min_stock: None,
        max_stock: Some(amount("9")),
        location: None,
        notes: Some("n".to_string()),
        markup_pct: Some(amount("3")),
    });
    assert_eq!(made.cost_price.text(), "0");
    assert_eq!(made.kind, ProductKind::Service);
    assert_eq!(made.max_stock.unwrap().text(), "9");
    assert_eq!(made.markup_pct.unwrap().text(), "3");
    let update = product_update_from_request(UpdateProductRequest {
        sku: None,
        name: Some("B".to_string()),
        kind: None,
        category_id: Some(None),
        unit: None,
        sale_price: None,
        cost_price: Some(amount("2")),
        track_stock: None,
        min_stock: None,
        max_stock: None,
        location: Some(Some("L".to_string())),
        notes: None,
        markup_pct: Some(None),
    });
    assert_eq!(update.sku, None);
    assert_eq!(update.category_id, Some(None));
    assert_eq!(update.cost_price.unwrap().text(), "2");
    assert_eq!(update.location, Some(Some("L".to_string())));
    assert!(matches!(update.markup_pct, Some(None)));
    let movement = movement_from_request(CreateMovementRequest {
        product_id: 5,
        qty: amount("1"),
        movement_type: "Out".to_string(),
        reason: "Sale".to_string(),
        reference: None,
        date: date(2026, 1, 2),
    });
    assert_eq!(movement.reference, "");
    assert_eq!(movement.movement_type, "Out");
}

#[test]
fn a_null_that_was_sent_is_not_a_key_that_was_left_out() {
    assert_eq!(double_option::<i64>(None), Some(None));
    assert_eq!(double_option(Some(4)), Some(Some(4)));
    assert!(default_true());
}

#[test]
fn a_missing_category_is_named() {
    match category_not_found(9) {
        AppError::NotFound(m) => assert_eq!(m, "category 9 not found"),
        other => panic!("a miss was expected, not {other:?}"),
    }
}
