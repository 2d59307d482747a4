use std::collections::BTreeMap;

use roya_routes::amount::Amount;
use roya_routes::customers::parse_required_decimal;
use roya_routes::date::Date;
use roya_routes::documents::{DocumentKind, KindLabels};
use roya_routes::drawer::{
    actor_fact_ids, actor_facts, document_title, edit_affordance_link, edit_affordance_notice,
    DrawerFact,
};
use roya_routes::error::AppError;
use roya_routes::movements::{
    movements_of_all, sorted_movements, stock_movement_drawer, MovedProduct, StockMovement,
};
use roya_routes::payments::{
    find_listed_payment, purchase_payment_drawer, sale_payment_drawer, LedgerEntry, Payment,
};
use roya_routes::permission::Principal;
use roya_routes::receipts::{receipt_drawer, Allocation, ReceiptDetail};
use roya_routes::records::{
    products_to_look_up, purchase_actions, purchase_drawer, record_href, sale_actions, sale_drawer,
    DocumentStatus, LineProduct, Record, RecordLine, RecordPayment, Side,
};

fn amount(text: &str) -> Amount {
    parse_required_decimal(text, "amount").unwrap()
}

fn date(year: i32, month: u32, day: u32) -> Date {
    Date::from_ymd_opt(year, month, day).unwrap()
}

fn principal(codes: &[&str]) -> Principal {
    Principal {
        user_id: 1,
        codes: codes.iter().map(|c| c.to_string()).collect(),
    }
}

fn labels() -> KindLabels {
    KindLabels {
        sale: "Venta".to_string(),
        sale_payment: "Pago de venta".to_string(),
        purchase: "Compra".to_string(),
        purchase_payment: "Pago de compra".to_string(),
        stock_movement: "Movimiento".to_string(),
        receipt: "Recibo".to_string(),
    }
}

fn names() -> BTreeMap<i64, String> {
    let mut names = BTreeMap::new();
    names.insert(1, "Ana".to_string());
    names
}

fn line(product_id: i64, name: &str, tracks_stock: bool) -> RecordLine {
    RecordLine {
        product_id,
        product_name: name.to_string(),
        product_sku: format!("SKU-{product_id}"),
        qty: amount("2"),
        unit_value: amount("5.00"),
        subtotal: amount("10.00"),
        tracks_stock,
    }
}

fn record(status: DocumentStatus) -> Record {
    Record {
        id: 12,
        number: Some("V-0001".to_string()),
        party_id: 4,
        party_name: "Cliente Uno".to_string(),
        payment_type: "Credit".to_string(),
        date: date(2026, 1, 2),
        due_date: None,
        reference_no: None,
        notes: "".to_string(),
        cancel_reason: None,
        status,
        created_by: 1,
        updated_by: None,
        lines: vec![line(1, "Yerba", true), line(2, "Flete", false), line(3, "Azucar", true)],
        payments: vec![RecordPayment {
            id: 31,
            date: date(2026, 1, 3),
            account_name: "Caja".to_string(),
            method_name: "Efectivo".to_string(),
            amount: amount("4.00"),
        }],
        total: amount("30.00"),
        paid: amount("4.00"),
        due: amount("26.00"),
        payment_status: "Partial".to_string(),
    }
}

fn product(name: &str, is_active: bool) -> LineProduct {
    LineProduct {
        name: name.to_string(),
        is_active,
    }
}

fn payment(id: i64) -> Payment {
    Payment {
        id,
        amount: amount("4.00"),
        date: date(2026, 1, 3),
        original: Some(LedgerEntry {
            account_id: 6,
            kind: "Income".to_string(),
            amount: amount("4.00"),
            date: date(2026, 1, 3),
        }),
        refund: None,
        receipt_id: None,
        created_by: 1,
        updated_by: Some(2),
    }
}

fn movement(id: i64, day: u32) -> StockMovement {
    StockMovement {
        id,
        product_id: 5,
        movement_type: "In".to_string(),
        reason: "Purchase".to_string(),
        qty: amount("3"),
        reference: format!("m{id}"),
        date: date(2026, 1, day),
        created_by: 1,
        updated_by: None,
    }
}

fn shown(facts: &[DrawerFact]) -> Vec<(&str, &str)> {
    facts.iter().map(|f| (f.label, f.value.as_str())).collect()
}

#[test]
fn a_document_answers_by_its_number_or_as_a_draft() {
    assert_eq!(document_title(Some("V-0001"), 12), "V-0001");
    assert_eq!(document_title(None, 12), "Draft #12");
}

#[test]
fn optional_facts_vanish_where_they_are_empty() {
    assert!(DrawerFact::when_non_empty("Notas", None).is_none());
    assert!(DrawerFact::when_non_empty("Notas", Some("".to_string())).is_none());
    let fact = DrawerFact::when_non_empty("Notas", Some(" ".to_string())).unwrap();
    assert_eq!((fact.label, fact.value.as_str()), ("Notas", " "));
}

#[test]
fn the_edit_affordance_follows_the_state() {
    assert_eq!(
        edit_affordance_link("Draft", "/sales/1".to_string()).label,
        "Editar cabecera"
    );
    let link = edit_affordance_link("Confirmed", "/sales/1".to_string());
    assert_eq!((link.label.as_str(), link.href.as_str()), ("Abrir el documento", "/sales/1"));
    assert_eq!(
        edit_affordance_notice("Draft"),
        "Para editar la cabecera, agregar líneas, confirmar o registrar pagos, abrí el documento."
    );
    assert_eq!(
        edit_affordance_notice("Confirmed"),
        "Para registrar pagos o ver el detalle completo, abrí el documento."
    );
    assert_eq!(
        edit_affordance_notice("Cancelled"),
        "El documento está anulado. Para ver el detalle completo y su historia, abrí el documento."
    );
}

#[test]
fn an_unknown_actor_is_marked() {
    assert_eq!(actor_fact_ids(1, None), vec![1]);
    assert_eq!(actor_fact_ids(1, Some(2)), vec![1, 2]);
    let (created, updated) = actor_facts(&names(), 1, Some(2));
    assert_eq!((created.label, created.value.as_str()), ("Registrado por", "Ana"));
    let updated = updated.unwrap();
    assert_eq!((updated.label, updated.value.as_str()), ("Actualizado por", "(sistema)"));
    assert!(actor_facts(&names(), 1, None).1.is_none());
}

#[test]
fn a_draft_can_be_deleted_and_discarded() {
    let mut draft = record(DocumentStatus::Draft);
    draft.number = None;
    let actions = sale_actions(
        &principal(&["sales.create", "sales.cancel"]),
        &draft,
        &[],
        true,
    );
    assert_eq!(actions.len(), 2);
    assert_eq!(actions[0].label, "Eliminar borrador");
    assert_eq!(actions[0].method, "delete");
    assert_eq!(actions[0].path, "/web/sales/12");
    assert!(actions[0].fields.is_empty());
    assert!(!actions[0].reason);
    assert_eq!(
        actions[0].impact,
        vec![
            "Se elimina el borrador y sus 3 líneas (listadas arriba).".to_string(),
            "Nunca se confirmó: no dejó movimientos de stock, ni pagos, ni asientos de caja."
                .to_string(),
        ]
    );
    assert_eq!(
        actions[0].confirm.as_deref(),
        Some("¿Eliminar el borrador y sus 3 líneas? Esta acción no se puede deshacer.")
    );
    assert_eq!(actions[1].label, "Descartar");
    assert_eq!(actions[1].method, "post");
    assert_eq!(actions[1].path, "/web/sales/cancel");
    assert_eq!(actions[1].fields, vec![("sale_id".to_string(), "12".to_string())]);
    assert!(actions[1].reason);
    assert_eq!(
        actions[1].impact,
        vec![
            "El borrador pasa a Anulado y deja de aparecer como editable.".to_string(),
            "No hay stock, ni pagos, ni asientos que revertir.".to_string(),
        ]
    );
    assert_eq!(actions[1].confirm, None);

    let only_delete = purchase_actions(&principal(&["purchases.create"]), &draft, &[], true);
    assert_eq!(only_delete.len(), 1);
    assert_eq!(only_delete[0].path, "/web/purchases/12");
    let only_discard = purchase_actions(&principal(&["purchases.cancel"]), &draft, &[], true);
    assert_eq!(only_discard[0].path, "/web/purchases/cancel");
    assert_eq!(
        only_discard[0].fields,
        vec![("purchase_id".to_string(), "12".to_string())]
    );
}

#[test]
fn an_annulment_previews_every_effect() {
    let confirmed = record(DocumentStatus::Confirmed);
    let who = principal(&["sales.cancel"]);
    assert_eq!(products_to_look_up(Side::Sale, &who, &confirmed), vec![1, 3]);
    let products = [product("Yerba", true), product("Azucar", false)];
    let actions = sale_actions(&who, &confirmed, &products, false);
    assert_eq!(actions.len(), 1);
    assert_eq!(actions[0].label, "Anular");
    assert_eq!(actions[0].method, "post");
    assert_eq!(actions[0].path, "/web/sales/cancel");
    assert!(actions[0].reason);
    assert_eq!(
        actions[0].confirm.as_deref(),
        Some("¿Anular este documento? Esta acción no se puede deshacer.")
    );
    assert_eq!(
        actions[0].impact,
        vec![
            "Se devuelve el stock de «Yerba» (2) con un movimiento In · Sale-return.".to_string(),
            "No se puede anular: el producto «Azucar» está inactivo.".to_string(),
            "Se reembolsa «4.00» en «Caja» con un asiento Expense.".to_string(),
            "El documento pasa a Anulado y deja de contar como deuda del cliente.".to_string(),
            "Si algún reembolso dejaría una cuenta en negativo, la anulación se rechaza y verás el motivo."
                .to_string(),
        ]
    );
    let lenient = sale_actions(&who, &confirmed, &products, true);
    assert_eq!(lenient[0].impact.len(), 4);

    let buyer = principal(&["purchases.cancel"]);
    let actions = purchase_actions(&buyer, &confirmed, &products, false);
    assert_eq!(
        actions[0].impact,
        vec![
            "Se devuelve el stock de «Yerba» (2) con un movimiento Out · Purchase-return."
                .to_string(),
            "No se puede anular: el producto «Azucar» está inactivo.".to_string(),
            "Se reembolsa «4.00» en «Caja» con un asiento Income.".to_string(),
            "El documento pasa a Anulado y deja de contar como deuda con el proveedor."
                .to_string(),
        ]
    );
}

#[test]
fn nothing_is_looked_up_where_nothing_is_offered() {
    let reader = principal(&["sales.read"]);
    let confirmed = record(DocumentStatus::Confirmed);
    assert!(products_to_look_up(Side::Sale, &reader, &confirmed).is_empty());
    assert!(sale_actions(&reader, &confirmed, &[], true).is_empty());
    let canceller = principal(&["sales.cancel", "sales.create"]);
    let draft = record(DocumentStatus::Draft);
    assert!(products_to_look_up(Side::Sale, &canceller, &draft).is_empty());
    let cancelled = record(DocumentStatus::Cancelled);
    assert!(products_to_look_up(Side::Sale, &canceller, &cancelled).is_empty());
    assert!(sale_actions(&canceller, &cancelled, &[], true).is_empty());
    let seller = principal(&["sales.cancel"]);
    assert!(products_to_look_up(Side::Purchase, &seller, &confirmed).is_empty());
}

#[test]
fn a_sale_drawer_shows_the_whole_record() {
    let mut sale = record(DocumentStatus::Confirmed);
    sale.due_date = Some(date(2026, 2, 1));
    sale.reference_no = Some("0001-5".to_string());
    sale.notes = "frágil".to_string();
    sale.updated_by = Some(2);
    let detail = sale_drawer(&principal(&["sales.read"]), &sale, &[], true, &names(), &labels());
    assert_eq!(detail.kind_token, DocumentKind::Sale.token());
    assert_eq!(detail.kind_label, "Venta");
    assert_eq!(detail.title, "V-0001");
    assert_eq!(detail.status_line, "Confirmed");
    assert_eq!(
        shown(&detail.facts),
        vec![
            ("Cliente", "Cliente Uno"),
            ("Tipo de pago", "Credit"),
            ("Fecha", "2026-01-02"),
            ("Vencimiento", "2026-02-01"),
            ("Recibo", "0001-5"),
            ("Notas", "frágil"),
            ("Total", "30.00"),
            ("Pagado", "4.00"),
            ("Saldo", "26.00"),
            ("Estado de pago", "Partial"),
            ("Registrado por", "Ana"),
            ("Actualizado por", "(sistema)"),
        ]
    );
    assert_eq!(detail.tables.len(), 2);
    assert_eq!(detail.tables[0].title, "Líneas");
    assert_eq!(
        detail.tables[0].headers,
        vec!["Producto", "SKU", "Cant.", "Precio unit.", "Subtotal"]
    );
    assert_eq!(detail.tables[0].rows.len(), 3);
    assert_eq!(
        detail.tables[0].rows[0].cells,
        vec!["Yerba", "SKU-1", "2", "5.00", "10.00"]
    );
    assert_eq!(detail.tables[0].rows[0].href, None);
    assert_eq!(detail.tables[1].title, "Pagos");
    assert_eq!(detail.tables[1].headers, vec!["Fecha", "Cuenta", "Medio", "Monto"]);
    assert_eq!(
        detail.tables[1].rows[0].cells,
        vec!["2026-01-03", "Caja", "Efectivo", "4.00"]
    );
    assert!(detail.parent.is_none());
    assert!(detail.actions.is_empty());
    assert_eq!(
        detail.notice.as_deref(),
        Some("Para registrar pagos o ver el detalle completo, abrí el documento.")
    );
    assert_eq!(detail.links.len(), 1);
    assert_eq!(detail.links[0].label, "Abrir el documento");
    assert_eq!(detail.links[0].href, "/sales/12");
}

#[test]
fn a_purchase_drawer_mirrors_the_sale() {
    let mut purchase = record(DocumentStatus::Cancelled);
    purchase.number = None;
    purchase.reference_no = Some("F-9".to_string());
    purchase.cancel_reason = Some("duplicada".to_string());
    let detail = purchase_drawer(
        &principal(&["purchases.read", "purchases.cancel"]),
        &purchase,
        &[],
        false,
        &names(),
        &labels(),
    );
    assert_eq!(detail.kind_label, "Compra");
    assert_eq!(detail.title, "Draft #12");
    assert_eq!(detail.status_line, "Cancelled");
    let facts = shown(&detail.facts);
    assert_eq!(facts[0], ("Proveedor", "Cliente Uno"));
    assert_eq!(facts[3], ("Factura del proveedor", "F-9"));
    assert_eq!(facts[4], ("Motivo de anulación", "duplicada"));
    assert_eq!(detail.tables[0].headers[3], "Costo unit.");
    assert!(detail.actions.is_empty());
    assert_eq!(detail.links[0].href, "/purchases/12");
    assert_eq!(record_href(Side::Purchase, 12), "/purchases/12");
}

#[test]
fn a_sale_payment_shows_its_money_and_its_sale() {
    let sale = record(DocumentStatus::Cancelled);
    let mut paid = payment(31);
    paid.refund = Some(LedgerEntry {
        account_id: 7,
        kind: "Expense".to_string(),
        amount: amount("4.00"),
        date: date(2026, 1, 9),
    });
    paid.receipt_id = Some(55);
    let detail = sale_payment_drawer(&paid, &sale, &names(), &labels()).unwrap();
    assert_eq!(detail.kind_label, "Pago de venta");
    assert_eq!(detail.title, "Pago de V-0001");
    assert_eq!(detail.status_line, "Pago · 2026-01-03 · Cancelled");
    assert_eq!(
        shown(&detail.facts),
        vec![
            ("Monto", "4.00"),
            ("Fecha", "2026-01-03"),
            ("Cuenta", "Caja"),
            ("Medio", "Efectivo"),
            ("Asiento", "Income · 4.00 · 2026-01-03"),
            ("Reembolso", "Expense · 4.00 · 2026-01-09"),
            ("Recibo", "Recibo #55"),
            ("Registrado por", "Ana"),
            ("Actualizado por", "(sistema)"),
        ]
    );
    let links: Vec<(&str, &str)> = detail
        .links
        .iter()
        .map(|l| (l.label.as_str(), l.href.as_str()))
        .collect();
    assert_eq!(
        links,
        vec![
            ("Ver asiento en Caja", "/accounts/6"),
            ("Ver reembolso en Caja", "/accounts/7"),
            ("Ver recibo del cliente", "/customers/4"),
            ("Abrir en Ventas", "/sales/12"),
        ]
    );
    let parent = detail.parent.unwrap();
    assert_eq!(parent.label, "Venta");
    assert_eq!(parent.title, "V-0001");
    assert_eq!(parent.status_line, "Cancelled");
    assert_eq!(
        shown(&parent.facts),
        vec![("Total", "30.00"), ("Pagado", "4.00"), ("Saldo", "26.00")]
    );
    assert_eq!(parent.href, "/sales/12");
    assert!(detail.actions.is_empty() && detail.tables.is_empty());
    assert_eq!(
        detail.notice.as_deref(),
        Some("El pago no se edita ni se elimina: el dinero ya está en la caja y el asiento queda. Si el documento se anula, el reembolso lo registra la anulación, no una edición manual.")
    );
}

#[test]
fn a_purchase_payment_has_no_receipt() {
    let mut paid = payment(31);
    paid.original = None;
    paid.receipt_id = Some(55);
    let detail = purchase_payment_drawer(
        &paid,
        &record(DocumentStatus::Confirmed),
        &names(),
        &labels(),
    )
    .unwrap();
    assert_eq!(detail.links.len(), 1);
    assert_eq!(detail.links[0].label, "Abrir en Compras");
    assert_eq!(detail.links[0].href, "/purchases/12");
    assert_eq!(
        shown(&detail.facts),
        vec![
            ("Monto", "4.00"),
            ("Fecha", "2026-01-03"),
            ("Cuenta", "Caja"),
            ("Medio", "Efectivo"),
            ("Registrado por", "Ana"),
            ("Actualizado por", "(sistema)"),
        ]
    );
}

#[test]
fn a_payment_that_its_document_does_not_list_is_a_fault() {
    let confirmed = record(DocumentStatus::Confirmed);
    assert_eq!(find_listed_payment(Side::Sale, &confirmed, 31).unwrap(), 0);
    match sale_payment_drawer(&payment(99), &confirmed, &names(), &labels()) {
        Err(AppError::Internal(m)) => {
            assert_eq!(m, "payment 99 missing from its own sale's record")
        }
        _ => panic!("an internal error was expected"),
    }
    match purchase_payment_drawer(&payment(99), &confirmed, &names(), &labels()) {
        Err(AppError::Internal(m)) => {
            assert_eq!(m, "payment 99 missing from its own purchase's record")
        }
        _ => panic!("an internal error was expected"),
    }
}

#[test]
fn a_movement_drawer_says_that_history_is_kept() {
    let detail = stock_movement_drawer(
        &movement(8, 2),
        &MovedProduct {
            name: "Yerba".to_string(),
            sku: "Y-1".to_string(),
            stock: amount("7.5"),
        },
        &names(),
        &labels(),
    );
    assert_eq!(detail.title, "Movimiento #8");
    assert_eq!(detail.status_line, "In · Purchase");
    assert_eq!(
        shown(&detail.facts),
        vec![
            ("Producto", "Yerba (Y-1)"),
            ("Tipo", "In"),
            ("Motivo", "Purchase"),
            ("Cantidad", "3"),
            ("Referencia", "m8"),
            ("Fecha", "2026-01-02"),
            ("Stock actual", "7.5"),
            ("Registrado por", "Ana"),
        ]
    );
    assert_eq!(
        detail.notice.as_deref(),
        Some("El movimiento es historia append-only: no se edita ni se elimina. Para compensarlo, registrá un ajuste en el producto.")
    );
    assert_eq!(detail.links[0].label, "Ver producto");
    assert_eq!(detail.links[0].href, "/products#product-5");
}

#[test]
fn a_receipt_drawer_names_each_sale() {
    let detail = receipt_drawer(
        &ReceiptDetail {
            id: 55,
            customer_id: 4,
            customer_name: "Cliente Uno".to_string(),
            date: date(2026, 1, 3),
            notes: Some("".to_string()),
            account_name: "Caja".to_string(),
            method_name: "Efectivo".to_string(),
            total: amount("9.00"),
            allocations: vec![
                Allocation {
                    sale_id: 12,
                    sale_number: Some("V-0001".to_string()),
                    date: date(2026, 1, 3),
                    amount: amount("4.00"),
                },
                Allocation {
                    sale_id: 13,
                    sale_number: None,
                    date: date(2026, 1, 4),
                    amount: amount("5.00"),
                },
            ],
            created_by: 9,
            updated_by: None,
        },
        &names(),
        &labels(),
    );
    assert_eq!(detail.title, "Recibo #55");
    assert_eq!(detail.status_line, "Cobro");
    assert_eq!(
        shown(&detail.facts),
        vec![
            ("Cliente", "Cliente Uno"),
            ("Fecha", "2026-01-03"),
            ("Cuenta", "Caja"),
            ("Medio", "Efectivo"),
            ("Total", "9.00"),
            ("Asignaciones", "2"),
            ("Registrado por", "(sistema)"),
        ]
    );
    assert_eq!(detail.tables[0].title, "Asignaciones");
    assert_eq!(detail.tables[0].headers, vec!["Venta", "Fecha", "Monto"]);
    assert_eq!(detail.tables[0].rows[0].cells, vec!["V-0001", "2026-01-03", "4.00"]);
    assert_eq!(detail.tables[0].rows[0].href.as_deref(), Some("/sales/12"));
    assert_eq!(detail.tables[0].rows[1].cells, vec!["Venta #13", "2026-01-04", "5.00"]);
    assert_eq!(
        detail.notice.as_deref(),
        Some("El recibo agrupa los pagos de un cobro: mientras los explique, la base rechaza eliminarlo.")
    );
    assert_eq!(detail.links[0].label, "Abrir en Clientes");
    assert_eq!(detail.links[0].href, "/customers/4");
}

#[test]
fn movements_are_listed_by_day_and_then_by_id() {
    let ids = |list: &[StockMovement]| list.iter().map(|m| m.id).collect::<Vec<i64>>();
    let sorted = sorted_movements(vec![movement(3, 5), movement(9, 1), movement(1, 5), movement(4, 3)]);
    let again = sorted_movements(sorted_movements(vec![
        movement(4, 3),
        movement(1, 5),
        movement(9, 1),
        movement(3, 5),
    ]));
    assert_eq!(ids(&sorted), vec![9, 4, 1, 3]);
    assert_eq!(ids(&again), ids(&sorted));
    let all = movements_of_all(vec![
        vec![movement(3, 5), movement(4, 3)],
        vec![],
        vec![movement(9, 1), movement(1, 5)],
    ]);
    assert_eq!(ids(&all), ids(&sorted));
    assert!(sorted_movements(vec![]).is_empty());
}

#[test]
fn movements_of_one_key_keep_their_order() {
    let mut a = movement(2, 1);
    a.reference = "first".to_string();
    let mut b = movement(2, 1);
    b.reference = "second".to_string();
    let sorted = sorted_movements(vec![a, b]);
    assert_eq!(sorted[0].reference, "first");
    assert_eq!(sorted[1].reference, "second");
}
