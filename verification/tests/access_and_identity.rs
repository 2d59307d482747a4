use roya_routes::access::{authorize, Operation};
use roya_routes::accounts::{catalog_json, PaymentMethodOption};
use roya_routes::currency::currency_options;
use roya_routes::error::AppError;
use roya_routes::identity::{
    before_changing_password, create_session, delete_session, login_name, login_page,
    login_submit, logout, next_value, password_submit, password_validation_message, render_login,
    render_password, IdentityAnswer, PasswordForm, PasswordTexts, SessionCheck,
};
use roya_routes::permission::{Permission, Principal};
use roya_routes::refusal::PriceRefusal;
use roya_routes::start::StartFlags;

fn principal(codes: &[&str]) -> Principal {
    Principal {
        user_id: 1,
        codes: codes.iter().map(|c| c.to_string()).collect(),
    }
}

fn texts() -> PasswordTexts {
    PasswordTexts {
        mismatch: "no coinciden".to_string(),
        current_incorrect: "actual incorrecta".to_string(),
        minimum_length: "muy corta".to_string(),
        must_differ: "igual a la actual".to_string(),
    }
}

fn password_form(new: &str, confirm: &str) -> PasswordForm {
    PasswordForm {
        current_password: "old".to_string(),
        new_password: new.to_string(),
        confirm_password: confirm.to_string(),
    }
}

fn unauthorized() -> AppError {
    AppError::Unauthorized("Usuario o contraseña incorrectos".to_string())
}

#[test]
fn errors_are_answered_with_their_status() {
    for (error, status, message) in [
        (AppError::Validation("a".to_string()), 400, "a"),
        (AppError::Unauthorized("b".to_string()), 401, "b"),
        (AppError::Forbidden("c".to_string()), 403, "c"),
        (AppError::NotFound("d".to_string()), 404, "d"),
        (AppError::Conflict("e".to_string()), 409, "e"),
        (AppError::Internal("f".to_string()), 500, "f"),
        (
            AppError::PriceRefused(PriceRefusal::SalePriceRequired),
            400,
            "sale_price is required",
        ),
    ] {
        assert_eq!(error.status(), status);
        assert_eq!(error.message(), message);
    }
}

#[test]
fn each_operation_asks_for_its_permissions() {
    let reader = principal(&["customers.read", "inventory.read"]);
    assert_eq!(authorize(&reader, Operation::BrowseCustomers), Ok(()));
    assert_eq!(authorize(&reader, Operation::BrowseInventory), Ok(()));
    assert_eq!(
        authorize(&reader, Operation::OpenProductDrawer),
        Err(Permission::PurchasesCostsRead)
    );
    for (operation, missing) in [
        (Operation::ChangeCustomer, Permission::CustomersWrite),
        (Operation::CollectReceipt, Permission::CustomersCollect),
        (Operation::ChangeInventory, Permission::InventoryWrite),
        (Operation::RecordMovement, Permission::InventoryStockWrite),
        (Operation::RecordSupplierCost, Permission::PurchasesCostsWrite),
        (Operation::DefineTax, Permission::SettingsManage),
    ] {
        assert_eq!(authorize(&reader, operation), Err(missing));
        let holder = principal(&[missing.code()]);
        assert_eq!(authorize(&holder, operation), Ok(()));
    }
    let deposito = principal(&["inventory.read", "purchases.costs.read"]);
    assert_eq!(authorize(&deposito, Operation::OpenProductDrawer), Ok(()));
}

#[test]
fn any_reader_opens_the_index() {
    for code in ["sales.read", "purchases.read", "inventory.read", "customers.read"] {
        assert_eq!(authorize(&principal(&[code]), Operation::BrowseDocuments), Ok(()));
    }
    assert_eq!(
        authorize(&principal(&["sales.create"]), Operation::BrowseDocuments),
        Err(Permission::SalesRead)
    );
    assert_eq!(Operation::BrowseDocuments.permissions().len(), 4);
}

#[test]
fn a_visitor_with_a_session_leaves_the_login_form() {
    match login_page(SessionCheck::Live, Some("/sales"), true).unwrap() {
        IdentityAnswer::Redirect(to) => assert_eq!(to, "/"),
        _ => panic!("a redirect was expected"),
    }
    match login_page(SessionCheck::Absent, Some("/sales"), true).unwrap() {
        IdentityAnswer::LoginForm { next, error, status } => {
            assert_eq!((next.as_str(), error, status), ("/sales", None, 200));
        }
        _ => panic!("the form was expected"),
    }
    match login_page(SessionCheck::Failed("db".to_string()), None, false) {
        Err(AppError::Internal(m)) => assert_eq!(m, "session check failed: db"),
        _ => panic!("an internal error was expected"),
    }
}

#[test]
fn a_login_leads_to_a_local_page_only() {
    assert_eq!(login_name(" ana "), "ana");
    for (next, is_local, held, target) in [
        (Some("/sales"), true, "/sales", "/sales"),
        (Some("/products?q=a&b=c"), true, "/products?q=a&b=c", "/products?q=a&b=c"),
        (Some("http://evil.example.com"), false, "", "/"),
        (Some("//evil.com"), false, "", "/"),
        (Some(""), true, "", "/"),
        (Some(""), false, "", "/"),
        (None, true, "", "/"),
        (None, false, "", "/"),
    ] {
        let hidden = next_value(next, is_local);
        assert_eq!(hidden, held);
        match login_submit(Ok("sid=1".to_string()), next, is_local, "no").unwrap() {
            IdentityAnswer::RedirectWithCookie { to, cookie } => {
                assert_eq!((to.as_str(), cookie.as_str()), (target, "sid=1"));
            }
            _ => panic!("a redirect was expected"),
        }
        // What the form held is posted back and stays what it was.
        assert_eq!(next_value(Some(&hidden), is_local), hidden);
    }
}

#[test]
fn a_refused_login_keeps_a_local_destination() {
    for (next, is_local, held) in [("/purchases", true, "/purchases"), ("//evil.com", false, "")] {
        let refused = login_submit(Err(unauthorized()), Some(next), is_local, "no").unwrap();
        match refused {
            IdentityAnswer::LoginForm { next, .. } => assert_eq!(next, held),
            _ => panic!("the form was expected"),
        }
    }
}

#[test]
fn the_credit_limit_is_enforced_unless_told_otherwise() {
    let flags = StartFlags::new(true, false);
    assert!(flags.allow_negative && !flags.allow_negative_stock);
    assert!(flags.enforce_credit_limit && !flags.setup_required);
    let lenient = StartFlags::new_with_credit_limit(false, true, false);
    assert!(!lenient.allow_negative && lenient.allow_negative_stock);
    assert!(!lenient.enforce_credit_limit && !lenient.setup_required);
}

#[test]
fn every_refused_login_looks_the_same() {
    for cause in ["unknown user", "wrong password", "throttled"] {
        match login_submit(Err(AppError::Unauthorized(cause.to_string())), Some("/a"), true, "no")
            .unwrap()
        {
            IdentityAnswer::LoginForm { next, error, status } => {
                assert_eq!(next, "/a");
                assert_eq!(error, Some("no".to_string()));
                assert_eq!(status, 401);
            }
            _ => panic!("the form was expected"),
        }
    }
    assert!(matches!(
        login_submit(Err(AppError::Internal("db".to_string())), None, false, "no"),
        Err(AppError::Internal(_))
    ));
}

#[test]
fn signing_out_always_clears_the_cookie() {
    for revoked in [None, Some(Ok(()))] {
        match logout(revoked, "sid=; Max-Age=0".to_string()).unwrap() {
            IdentityAnswer::RedirectWithCookie { to, cookie } => {
                assert_eq!((to.as_str(), cookie.as_str()), ("/login", "sid=; Max-Age=0"));
            }
            _ => panic!("a redirect was expected"),
        }
    }
    match logout(Some(Err("db".to_string())), "c".to_string()) {
        Err(AppError::Internal(m)) => assert_eq!(m, "logout failed: db"),
        _ => panic!("an internal error was expected"),
    }
}

#[test]
fn sessions_are_answered_without_a_body() {
    let made = create_session(Ok("sid=1".to_string())).unwrap();
    assert_eq!((made.status, made.cookie.as_str()), (204, "sid=1"));
    assert!(matches!(create_session(Err(unauthorized())), Err(AppError::Unauthorized(_))));
    for revoked in [None, Some(Ok(()))] {
        let gone = delete_session(revoked, "clear".to_string()).unwrap();
        assert_eq!((gone.status, gone.cookie.as_str()), (204, "clear"));
    }
    assert!(matches!(
        delete_session(Some(Err(AppError::Internal("db".to_string()))), "c".to_string()),
        Err(AppError::Internal(_))
    ));
}

#[test]
fn only_a_confirmed_password_is_tried() {
    assert!(before_changing_password(SessionCheck::Live, &password_form("a", "a"), &texts())
        .is_none());
    match before_changing_password(SessionCheck::Live, &password_form("a", "b"), &texts()) {
        Some(Ok(IdentityAnswer::PasswordForm { error, status })) => {
            assert_eq!((error, status), (Some("no coinciden".to_string()), 400));
        }
        _ => panic!("the form was expected"),
    }
    match before_changing_password(SessionCheck::Absent, &password_form("a", "b"), &texts()) {
        Some(Ok(IdentityAnswer::Redirect(to))) => assert_eq!(to, "/login"),
        _ => panic!("a redirect was expected"),
    }
    assert!(matches!(
        before_changing_password(
            SessionCheck::Failed("db".to_string()),
            &password_form("a", "a"),
            &texts()
        ),
        Some(Err(AppError::Internal(_)))
    ));
}

#[test]
fn a_password_change_says_why_it_was_refused() {
    match password_submit(Ok(()), &texts()).unwrap() {
        IdentityAnswer::Redirect(to) => assert_eq!(to, "/"),
        _ => panic!("a redirect was expected"),
    }
    for (error, sentence, code) in [
        (unauthorized(), "actual incorrecta", 401),
        (
            AppError::Validation(
                "La nueva contraseña debe tener al menos 12 caracteres.".to_string(),
            ),
            "muy corta",
            400,
        ),
        (
            AppError::Validation("La nueva contraseña debe ser distinta de la actual.".to_string()),
            "igual a la actual",
            400,
        ),
        (AppError::Validation("otra".to_string()), "otra", 400),
    ] {
        match password_submit(Err(error), &texts()).unwrap() {
            IdentityAnswer::PasswordForm { error, status } => {
                assert_eq!((error, status), (Some(sentence.to_string()), code));
            }
            _ => panic!("the form was expected"),
        }
    }
    assert!(matches!(
        password_submit(Err(AppError::Conflict("c".to_string())), &texts()),
        Err(AppError::Conflict(_))
    ));
    assert_eq!(password_validation_message(&texts(), "otra"), "otra");
}

#[test]
fn identity_pages_render_or_fail_loudly() {
    assert_eq!(render_login(Ok("a".to_string())).unwrap(), "a");
    assert!(matches!(render_login(Err("x".to_string())), Err(AppError::Internal(_))));
    assert_eq!(render_password(Ok("a".to_string())).unwrap(), "a");
    assert!(matches!(render_password(Err("x".to_string())), Err(AppError::Internal(_))));
}

#[test]
fn the_current_currency_is_always_offered_once() {
    let known = currency_options("ARS");
    assert_eq!(known.len(), 10);
    assert_eq!(known[0].code, "ARS");
    assert_eq!(known[0].display_name, "Argentine Peso");
    assert_eq!(known[9].code, "UYU");
    assert_eq!(known.iter().filter(|o| o.code == "ARS").count(), 1);
    let own = currency_options("XAU");
    assert_eq!(own.len(), 11);
    assert_eq!(own[10].code, "XAU");
    assert_eq!(own[10].display_name, "XAU");
}

#[test]
fn the_allowed_methods_stand_beside_the_catalog() {
    let method = |id: i64, allowed: bool| PaymentMethodOption {
        id,
        name: format!("m{id}"),
        allowed,
    };
    let catalog = catalog_json(4, vec![method(1, true), method(2, false), method(3, true)]);
    assert_eq!(catalog.account_id, 4);
    assert_eq!(catalog.allowed_method_ids, vec![1, 3]);
    assert_eq!(catalog.methods.len(), 3);
    assert!(!catalog.methods[1].allowed);
}
