use std::collections::BTreeMap;

use roya_routes::actors::{
    actor_names_from_rows, actor_names_query, distinct_ids, matching_actor_ids, typed_actor,
    SearchableUser,
};
use roya_routes::date::Date;
use roya_routes::documents::{
    document_filter, document_href, documents_model, documents_page, group_options, openable_kind,
    permitted_kinds, requested_group, resolve_views, row_actor_ids, selected_kinds, DocumentFeed,
    DocumentGroup, DocumentKind, DocumentListQuery, DocumentRow, KindLabels,
};
use roya_routes::error::AppError;
use roya_routes::permission::{Permission, Principal};

fn principal(codes: &[&str]) -> Principal {
    Principal {
        user_id: 1,
        codes: codes.iter().map(|c| c.to_string()).collect(),
    }
}

fn group(token: &str, kinds: &[DocumentKind]) -> DocumentGroup {
    DocumentGroup {
        token: token.to_string(),
        label: format!("Grupo {token}"),
        kinds: kinds.to_vec(),
    }
}

fn groups() -> Vec<DocumentGroup> {
    vec![
        group("ventas", &[DocumentKind::Sale, DocumentKind::SalePayment]),
        group("compras", &[DocumentKind::Purchase, DocumentKind::PurchasePayment]),
        group("stock", &[DocumentKind::StockMovement]),
        group("cobros", &[DocumentKind::Receipt, DocumentKind::SalePayment]),
    ]
}

fn labels() -> KindLabels {
    KindLabels {
        sale: "Venta".to_string(),
        sale_payment: "Pago de venta".to_string(),
        purchase: "Compra".to_string(),
        purchase_payment: "Pago de compra".to_string(),
        stock_movement: "Movimiento".to_string(),
        receipt: "Recibo".to_string(),
    }
}

fn row(kind: DocumentKind, id: i64, owner_id: i64, created_by: i64) -> DocumentRow {
    DocumentRow {
        kind,
        id,
        owner_id,
        reference: format!("R-{id}"),
        party: "Ana".to_string(),
        date: Date::from_ymd_opt(2026, 1, 2).unwrap(),
        detail: "detalle".to_string(),
        amount: None,
        quantity: None,
        created_by,
    }
}

fn query(group: &str) -> DocumentListQuery {
    DocumentListQuery {
        group: group.to_string(),
        ..DocumentListQuery::default()
    }
}

#[test]
fn each_read_code_opens_its_own_families() {
    assert_eq!(
        permitted_kinds(&principal(&["sales.read"])),
        vec![DocumentKind::Sale, DocumentKind::SalePayment]
    );
    assert_eq!(
        permitted_kinds(&principal(&["customers.read", "purchases.read"])),
        vec![
            DocumentKind::Purchase,
            DocumentKind::PurchasePayment,
            DocumentKind::Receipt
        ]
    );
    assert_eq!(
        permitted_kinds(&principal(&["inventory.read"])),
        vec![DocumentKind::StockMovement]
    );
    assert!(permitted_kinds(&principal(&["sales.create"])).is_empty());
}

#[test]
fn a_choice_narrows_and_no_choice_reads_everything_readable() {
    let permitted = permitted_kinds(&principal(&["sales.read", "customers.read"]));
    assert_eq!(selected_kinds(&permitted, None), permitted);
    let all = groups();
    assert_eq!(
        selected_kinds(&permitted, Some(&all[3])),
        vec![DocumentKind::SalePayment, DocumentKind::Receipt]
    );
    assert!(selected_kinds(&permitted, Some(&all[1])).is_empty());
    let twice = group("x", &[DocumentKind::Sale, DocumentKind::Sale]);
    assert_eq!(
        selected_kinds(&permitted, Some(&twice)),
        vec![DocumentKind::Sale]
    );
}

#[test]
fn only_groups_with_a_readable_family_are_offered() {
    let permitted = permitted_kinds(&principal(&["sales.read"]));
    let options = group_options(&permitted, &groups(), Some(3));
    let tokens: Vec<&str> = options.iter().map(|o| o.token.as_str()).collect();
    assert_eq!(tokens, vec!["ventas", "cobros"]);
    assert_eq!(options[0].label, "Grupo ventas");
    assert!(!options[0].selected);
    assert!(options[1].selected);
    assert!(group_options(&permitted, &groups(), None).iter().all(|o| !o.selected));
}

#[test]
fn a_group_is_asked_for_by_its_token() {
    assert_eq!(requested_group(&groups(), &query(" compras ")), Some(1));
    assert_eq!(requested_group(&groups(), &query("")), None);
    assert_eq!(requested_group(&groups(), &query("nada")), None);
}

#[test]
fn the_filter_reads_what_the_query_says() {
    let permitted = permitted_kinds(&principal(&["sales.read"]));
    let filter = document_filter(
        &DocumentListQuery {
            group: "ventas".to_string(),
            user: "ana".to_string(),
            from: " 2026-01-01 ".to_string(),
            to: "never".to_string(),
            q: " fac ".to_string(),
        },
        &permitted,
        &groups(),
        Some(vec![]),
    );
    assert_eq!(filter.kinds, vec![DocumentKind::Sale, DocumentKind::SalePayment]);
    assert_eq!(filter.actor_ids, Some(vec![]));
    assert_eq!(filter.from.unwrap().text(), "2026-01-01");
    assert!(filter.to.is_none());
    assert_eq!(filter.search, Some("fac".to_string()));
    let filter = document_filter(&query("unknown"), &permitted, &groups(), None);
    assert_eq!(filter.kinds, permitted);
    assert_eq!(filter.actor_ids, None);
    assert_eq!(filter.search, None);
}

#[test]
fn rows_open_the_page_that_owns_them() {
    for (kind, href) in [
        (DocumentKind::Sale, "/sales/7"),
        (DocumentKind::SalePayment, "/sales/7"),
        (DocumentKind::Purchase, "/purchases/7"),
        (DocumentKind::PurchasePayment, "/purchases/7"),
        (DocumentKind::Receipt, "/customers/7"),
        (DocumentKind::StockMovement, "/products#product-7"),
    ] {
        assert_eq!(document_href(kind, 7), href);
    }
}

#[test]
fn rows_are_resolved_with_their_actor() {
    let rows = [
        row(DocumentKind::SalePayment, 5, 9, 2),
        row(DocumentKind::Receipt, 6, 4, 3),
    ];
    assert_eq!(row_actor_ids(&rows), vec![2, 3]);
    let mut names = BTreeMap::new();
    names.insert(2, "Ana".to_string());
    let shown = resolve_views(&rows, &names, &labels());
    assert_eq!(shown[0].kind, DocumentKind::SalePayment);
    assert_eq!(shown[0].id, 5);
    assert_eq!(shown[0].kind_label, "Pago de venta");
    assert_eq!(shown[0].kind_token, DocumentKind::SalePayment.token());
    assert_eq!(shown[0].href, "/sales/9");
    assert_eq!(shown[0].reference, "R-5");
    assert_eq!(shown[0].party, "Ana");
    assert_eq!(shown[0].detail, "detalle");
    assert_eq!(shown[0].date.text(), "2026-01-02");
    assert_eq!(shown[0].actor_name, Some("Ana".to_string()));
    assert_eq!(shown[1].href, "/customers/4");
    assert_eq!(shown[1].actor_name, None);
}

#[test]
fn the_model_carries_the_feed_and_the_choices() {
    let permitted = permitted_kinds(&principal(&["sales.read"]));
    let feed = DocumentFeed {
        rows: vec![row(DocumentKind::Sale, 1, 1, 1)],
        truncated: true,
        limit: 200,
    };
    let model = documents_model(
        &query("ventas"),
        &feed,
        &BTreeMap::new(),
        &labels(),
        &permitted,
        &groups(),
    );
    assert_eq!(model.rows.len(), 1);
    assert!(model.truncated);
    assert_eq!(model.limit, 200);
    assert!(model.groups[0].selected);
    assert!(!model.groups[1].selected);
}

#[test]
fn the_filter_form_repeats_the_query() {
    let page = documents_page(&DocumentListQuery {
        group: "ventas".to_string(),
        user: " ana ".to_string(),
        from: "x".to_string(),
        to: " ".to_string(),
        q: "q ".to_string(),
    });
    assert_eq!(page.title, "All documents");
    assert_eq!(page.nav_key, "documents");
    assert_eq!(page.filter_user, "ana");
    assert_eq!(page.filter_from, "x");
    assert_eq!(page.filter_to, "");
    assert_eq!(page.filter_q, "q");
}

#[test]
fn a_drawer_opens_exactly_what_the_index_lists() {
    let everyone = [
        principal(&["sales.read"]),
        principal(&["purchases.read"]),
        principal(&["inventory.read"]),
        principal(&["customers.read"]),
        principal(&[]),
    ];
    for who in &everyone {
        let permitted = permitted_kinds(who);
        for kind in DocumentKind::all() {
            assert_eq!(DocumentKind::parse(kind.token()), Some(kind));
            assert_eq!(
                openable_kind(who, kind.token()).is_ok(),
                permitted.contains(&kind)
            );
        }
    }
}

#[test]
fn a_closed_family_names_the_code_it_needs() {
    match openable_kind(&principal(&["sales.read"]), "receipt") {
        Err(AppError::Forbidden(m)) => assert_eq!(
            m,
            "Se necesita el permiso «customers.read» para ver este documento"
        ),
        other => panic!("a refusal was expected, not {other:?}"),
    }
}

#[test]
fn an_unknown_family_is_not_found() {
    match openable_kind(&principal(&["sales.read"]), "invoice") {
        Err(AppError::NotFound(m)) => {
            let tokens: Vec<&str> = DocumentKind::all().iter().map(|k| k.token()).collect();
            assert_eq!(
                m,
                format!(
                    "unknown document kind \"invoice\": the index knows {}",
                    tokens.join(", ")
                )
            );
        }
        other => panic!("a miss was expected, not {other:?}"),
    }
    assert_eq!(DocumentKind::parse("Sale"), None);
}

#[test]
fn codes_are_held_by_name() {
    let who = principal(&["sales.read", "settings.manage"]);
    assert!(who.has(Permission::SalesRead));
    assert!(who.has(Permission::SettingsManage));
    assert!(!who.has(Permission::SalesCreate));
    assert_eq!(Permission::CustomersCollect.code(), "customers.collect");
}

#[test]
fn names_are_asked_for_once_each() {
    assert_eq!(distinct_ids(&[3, 1, 3, 2, 1]), vec![3, 1, 2]);
    assert_eq!(distinct_ids(&[1, 2, 3]), vec![1, 2, 3]);
    assert!(actor_names_query(&[]).is_none());
    let query = actor_names_query(&[3, 1, 3]).unwrap();
    assert_eq!(query.sql, "SELECT id, display_name FROM users WHERE id IN (?,?)");
    assert_eq!(query.ids, vec![3, 1]);
    let one = actor_names_query(&[7]).unwrap();
    assert_eq!(one.sql, "SELECT id, display_name FROM users WHERE id IN (?)");
    let names = actor_names_from_rows(&[(1, "Ana".to_string()), (2, "Beto".to_string())]);
    assert_eq!(names.get(&1), Some(&"Ana".to_string()));
    assert_eq!(names.len(), 2);
}

#[test]
fn a_typed_actor_matches_either_name() {
    assert_eq!(typed_actor("  "), None);
    assert_eq!(typed_actor(" Ana "), Some("Ana".to_string()));
    let user = |id: i64, display_name: &str, username: &str| SearchableUser {
        id,
        display_name: display_name.to_string(),
        username: username.to_string(),
    };
    let users = [
        user(1, "ana perez", "aperez"),
        user(2, "beto", "susana"),
        user(3, "caro", "caro"),
    ];
    assert_eq!(matching_actor_ids(&users, "ana"), vec![1, 2]);
    assert!(matching_actor_ids(&users, "zz").is_empty());
}
