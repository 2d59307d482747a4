use roya_routes::amount::Amount;
use roya_routes::answer::{is_from_drawer, is_htmx, rendered_or_internal, CustomerAnswer};
use roya_routes::customers::{
    after_changing, after_collecting, after_creating, collection_from_form, customer_ageing,
    customer_rows, customer_statement_page, customer_update_from_form,
    customer_update_from_request, customer_view, customer_views, customers_page,
    duplicate_name_warning, new_customer_from_form, over_limit, parse_date_or_today,
    parse_required_decimal, Ageing,
    AgeingRow, AsOfQuery, CollectForm, CreateCustomerForm, Customer, EditCustomerForm,
    ListCustomersQuery, ReceiptListQuery, UpdateCustomerRequest,
};
use roya_routes::date::Date;
use roya_routes::error::AppError;

fn amount(text: &str) -> Amount {
    parse_required_decimal(text, "amount").unwrap()
}

fn date(year: i32, month: u32, day: u32) -> Date {
    Date::from_ymd_opt(year, month, day).unwrap()
}

fn validation(error: AppError) -> String {
    match error {
        AppError::Validation(m) => m,
        other => panic!("a validation error was expected, not {other:?}"),
    }
}

fn customer(id: i64, name: &str, limit: Option<&str>) -> Customer {
    Customer {
        id,
        name: name.to_string(),
        phone: None,
        address: None,
        tax_id: None,
        notes: None,
        is_walkin: false,
        is_active: true,
        credit_limit: limit.map(amount),
        payment_days: None,
    }
}

fn ageing_row(customer_id: i64, balance: &str) -> AgeingRow {
    AgeingRow {
        customer_id,
        balance: amount(balance),
        ageing: Ageing {
            current: amount("1"),
            overdue_1_30: amount("2"),
            overdue_31_60: amount("3"),
            overdue_61_plus: amount("4"),
        },
    }
}

fn create_form(credit_limit: &str, payment_days: &str) -> CreateCustomerForm {
    CreateCustomerForm {
        name: " Ana ".to_string(),
        phone: " 555 ".to_string(),
        address: "  ".to_string(),
        tax_id: "".to_string(),
        notes: "vip".to_string(),
        credit_limit: credit_limit.to_string(),
        payment_days: payment_days.to_string(),
    }
}

#[test]
fn without_a_limit_nobody_is_over_it() {
    assert!(!over_limit(&customer(1, "Ana", None), amount("1000000")));
}

#[test]
fn owing_exactly_the_limit_is_not_over_it() {
    let ana = customer(1, "Ana", Some("100"));
    assert!(!over_limit(&ana, amount("100.00")));
    assert!(over_limit(&ana, amount("100.01")));
    assert!(!over_limit(&ana, amount("-5")));
}

#[test]
fn customers_without_debt_read_zero() {
    let rows = customer_rows(
        &[ageing_row(2, "150")],
        vec![customer(1, "Ana", Some("10")), customer(2, "Beto", Some("100"))],
    );
    assert_eq!(rows.len(), 2);
    assert_eq!(rows[0].customer.name, "Ana");
    assert_eq!(rows[0].balance.text(), "0");
    assert_eq!(rows[0].ageing.current.text(), "0");
    assert_eq!(rows[0].ageing.overdue_61_plus.text(), "0");
    assert!(!rows[0].over_limit);
    assert_eq!(rows[1].balance.text(), "150");
    assert_eq!(rows[1].ageing.overdue_1_30.text(), "2");
    assert_eq!(rows[1].ageing.overdue_31_60.text(), "3");
    assert!(rows[1].over_limit);
}

#[test]
fn the_last_balance_read_for_a_customer_counts() {
    let ageings = [ageing_row(1, "5"), ageing_row(1, "7")];
    let rows = customer_rows(&ageings, vec![customer(1, "Ana", None)]);
    assert_eq!(rows[0].balance.text(), "7");
    let views = customer_views(&ageings, vec![customer(1, "Ana", None)]);
    assert_eq!(views[0].balance.text(), "7");
}

#[test]
fn the_list_and_the_receivables_agree_on_who_is_over_the_limit() {
    let ageings = [ageing_row(2, "150"), ageing_row(3, "20")];
    let customers = || vec![customer(2, "Beto", Some("100")), customer(3, "Caro", Some("30"))];
    let rows = customer_rows(&ageings, customers());
    let views = customer_views(&ageings, customers());
    let lines = customer_ageing(&ageings, &customers());
    for i in 0..2 {
        assert_eq!(rows[i].over_limit, views[i].over_limit);
        assert_eq!(rows[i].over_limit, lines[i].over_limit);
        assert_eq!(lines[i].customer_id, rows[i].customer.id);
        assert_eq!(lines[i].name, rows[i].customer.name);
    }
    assert!(rows[0].over_limit);
    assert!(!rows[1].over_limit);
    let view = customer_view(customer(9, "Dani", Some("1")), amount("2"));
    assert!(view.over_limit);
    assert_eq!(view.balance.text(), "2");
}

#[test]
fn a_receivable_of_nobody_known_has_no_line() {
    assert!(customer_ageing(&[ageing_row(7, "1")], &[customer(1, "Ana", None)]).is_empty());
}

#[test]
fn a_new_customer_is_read_from_the_form() {
    let made = new_customer_from_form(create_form("50.5", " 30 ")).unwrap();
    assert_eq!(made.name, " Ana ");
    assert_eq!(made.phone, Some("555".to_string()));
    assert_eq!(made.address, None);
    assert_eq!(made.tax_id, None);
    assert_eq!(made.notes, Some("vip".to_string()));
    assert!(!made.is_walkin);
    assert_eq!(made.credit_limit.unwrap().text(), "50.5");
    assert_eq!(made.payment_days, Some(30));
}

#[test]
fn a_customer_form_names_its_first_wrong_field() {
    assert_eq!(
        validation(new_customer_from_form(create_form("x", "y")).err().unwrap()),
        "invalid credit_limit"
    );
    assert_eq!(
        validation(new_customer_from_form(create_form("", "y")).err().unwrap()),
        "invalid payment_days"
    );
}

#[test]
fn editing_replaces_every_field_and_empties_the_blank_ones() {
    let form = |credit_limit: &str| EditCustomerForm {
        customer_id: 4,
        name: "Ana".to_string(),
        phone: "".to_string(),
        address: " Calle 1 ".to_string(),
        tax_id: " ".to_string(),
        notes: "".to_string(),
        credit_limit: credit_limit.to_string(),
        payment_days: "".to_string(),
    };
    let update = customer_update_from_form(form("")).unwrap();
    assert_eq!(update.name, Some("Ana".to_string()));
    assert_eq!(update.phone, Some(None));
    assert_eq!(update.address, Some(Some("Calle 1".to_string())));
    assert_eq!(update.tax_id, Some(None));
    assert_eq!(update.notes, Some(None));
    assert!(update.credit_limit.unwrap().is_none());
    assert_eq!(update.payment_days, Some(None));
    assert_eq!(
        validation(customer_update_from_form(form("?")).err().unwrap()),
        "invalid credit_limit"
    );
}

#[test]
fn a_partial_update_keeps_absent_and_null_apart() {
    let update = customer_update_from_request(UpdateCustomerRequest {
        name: None,
        phone: Some(None),
        address: None,
        tax_id: Some(Some("T".to_string())),
        notes: None,
        credit_limit: Some(None),
        payment_days: None,
    });
    assert_eq!(update.name, None);
    assert_eq!(update.phone, Some(None));
    assert_eq!(update.address, None);
    assert_eq!(update.tax_id, Some(Some("T".to_string())));
    assert!(matches!(update.credit_limit, Some(None)));
    assert_eq!(update.payment_days, None);
}

#[test]
fn a_collection_needs_an_amount_and_falls_back_to_today() {
    let form = |amount: &str, date: &str| CollectForm {
        customer_id: 1,
        method_id: 2,
        amount: amount.to_string(),
        date: date.to_string(),
        notes: " parcial ".to_string(),
    };
    let today = date(2026, 5, 6);
    let made = collection_from_form(form("12.30", ""), today).unwrap();
    assert_eq!((made.customer_id, made.method_id), (1, 2));
    assert_eq!(made.amount.text(), "12.30");
    assert_eq!(made.date.text(), "2026-05-06");
    assert_eq!(made.notes, Some("parcial".to_string()));
    let made = collection_from_form(form("1", "2026-01-02"), today).unwrap();
    assert_eq!(made.date.text(), "2026-01-02");
    assert_eq!(
        validation(collection_from_form(form("", "x"), today).err().unwrap()),
        "invalid amount"
    );
    assert_eq!(
        validation(collection_from_form(form("1", "x"), today).err().unwrap()),
        "invalid date (YYYY-MM-DD)"
    );
}

#[test]
fn a_duplicate_name_is_a_warning() {
    assert_eq!(duplicate_name_warning("Ana", &[]), None);
    assert_eq!(
        duplicate_name_warning("Ana", &[customer(3, "Ana", None), customer(8, "ana", None)]),
        Some(
            "A customer named \"Ana\" already exists: #3 Ana, #8 ana. Duplicate names are allowed."
                .to_string()
        )
    );
}

#[test]
fn fragments_answer_htmx_and_redirects_answer_browsers() {
    assert!(is_htmx(Some("true")));
    assert!(!is_htmx(Some("false")));
    assert!(!is_htmx(Some("TRUE")));
    assert!(!is_htmx(None));
    match after_creating(true, Some("w".to_string())) {
        CustomerAnswer::List { warning, trigger } => {
            assert_eq!(warning, Some("w".to_string()));
            assert_eq!(trigger, "customer-created");
        }
        _ => panic!("a list was expected"),
    }
    match after_changing(true) {
        CustomerAnswer::List { warning, trigger } => {
            assert_eq!(warning, None);
            assert_eq!(trigger, "customer-changed");
        }
        _ => panic!("a list was expected"),
    }
    assert!(matches!(after_collecting(true, 5), CustomerAnswer::Detail(5)));
    for (answer, to) in [
        (after_creating(false, Some("w".to_string())), "/customers"),
        (after_changing(false), "/customers"),
        (after_collecting(false, 5), "/customers/5"),
    ] {
        match answer {
            CustomerAnswer::Redirect(path) => assert_eq!(path, to),
            _ => panic!("a redirect was expected"),
        }
    }
}

#[test]
fn the_drawer_is_told_by_its_target() {
    assert!(!is_from_drawer(None));
    assert!(!is_from_drawer(Some("product-list")));
}

#[test]
fn a_page_that_fails_to_render_is_an_internal_error() {
    assert_eq!(rendered_or_internal(Ok("<p>".to_string())).unwrap(), "<p>");
    match rendered_or_internal(Err("boom".to_string())) {
        Err(AppError::Internal(m)) => assert_eq!(m, "boom"),
        _ => panic!("an internal error was expected"),
    }
}

#[test]
fn queries_have_their_defaults() {
    assert!(ListCustomersQuery { only_active: Some(true) }.leaves_inactive_out());
    assert!(!ListCustomersQuery { only_active: Some(false) }.leaves_inactive_out());
    let today = date(2026, 5, 6);
    assert_eq!(AsOfQuery { as_of: None }.day(today).text(), "2026-05-06");
    assert_eq!(
        AsOfQuery { as_of: Some(date(2020, 1, 1)) }.day(today).text(),
        "2020-01-01"
    );
    assert_eq!(ReceiptListQuery { customer_id: Some(4) }.required_customer().unwrap(), 4);
    assert_eq!(
        validation(ReceiptListQuery { customer_id: None }.required_customer().err().unwrap()),
        "customer_id is required"
    );
}

#[test]
fn the_statement_page_opens_its_drawer() {
    let list = customers_page();
    assert_eq!(list.title, "Roya — Customers");
    assert_eq!(list.nav_key, "customers");
    assert_eq!(list.today, "");
    assert!(!list.drawer_open && !list.over_limit && list.warning.is_none());
    let page = customer_statement_page(
        &customer(1, "Ana", Some("5")),
        amount("6"),
        date(2026, 5, 6),
    );
    assert_eq!(page.title, "Roya — Statement: Ana");
    assert_eq!(page.today, "2026-05-06");
    assert_eq!(
        parse_date_or_today(&page.today, date(2026, 5, 7)).unwrap().ymd(),
        (2026, 5, 6)
    );
    assert!(page.drawer_open && page.over_limit && page.warning.is_none());
}
