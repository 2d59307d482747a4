//! Signing in and out, and changing the password.

use vstd::prelude::*;
use vstd::string::*;

use crate::answer;
use crate::answer::rendered_or_internal;
use crate::error::{AppError, ErrorView};
use crate::text;
use crate::text::{concat2, same_text, trim};
use crate::views;

verus! {

/// The credentials of a JSON sign-in. What the body leaves out is empty, and fails
/// like any wrong password.
pub struct CreateSessionRequest {
    pub username: String,
    pub password: String,
}

impl Default for CreateSessionRequest {
    fn default() -> (request: Self)
        ensures
            request.username@.len() == 0,
            request.password@.len() == 0,
    {
        CreateSessionRequest { username: String::new(), password: String::new() }
    }
}

/// The sign-in form.
pub struct LoginForm {
    pub username: String,
    pub password: String,
    pub next: Option<String>,
}

/// The password form.
pub struct PasswordForm {
    pub current_password: String,
    pub new_password: String,
    pub confirm_password: String,
}

/// Whether the request carries a session that still resolves.
pub enum SessionCheck {
    Live,
    Absent,
    /// The check itself failed.
    Failed(String),
}

/// The user name that credentials are checked for: without white space around it. A
/// password is taken as it is.
pub fn login_name(username: &str) -> (name: String)
    ensures
        name@ == text::trimmed(username@),
{
    trim(username).to_owned()
}

/// The requested destination, as far as it is honoured: the very text that was asked for
/// where it names a path of this application, and nothing otherwise. `is_local` is what
/// the check of the destination says; an empty one names no path.
pub open spec fn honoured(next: Option<Seq<char>>, is_local: bool) -> Option<Seq<char>> {
    match next {
        Some(path) => if is_local && path.len() > 0 {
            Some(path)
        } else {
            None
        },
        None => None,
    }
}

/// The hidden destination of the sign-in form: the honoured path, or no text.
pub open spec fn hidden(local: Option<Seq<char>>) -> Seq<char> {
    match local {
        Some(path) => path,
        None => Seq::empty(),
    }
}

/// Where a sign-in leads: the honoured path, or the root of the application.
pub open spec fn destination(local: Option<Seq<char>>) -> Seq<char> {
    match local {
        Some(path) => path,
        None => "/"@,
    }
}

fn honoured_path(next: Option<&str>, is_local: bool) -> (local: Option<&str>)
    ensures
        views::opt_view(local) == honoured(views::opt_view(next), is_local),
{
    match next {
        Some(path) => {
            if is_local && !path.is_empty() {
                Some(path)
            } else {
                None
            }
        },
        None => None,
    }
}

/// The hidden destination of the sign-in form. `is_local` is whether the requested one
/// is a path of this application; any other is dropped.
pub fn next_value(next: Option<&str>, is_local: bool) -> (value: String)
    ensures
        value@ == hidden(honoured(views::opt_view(next), is_local)),
{
    match honoured_path(next, is_local) {
        Some(path) => path.to_owned(),
        None => String::new(),
    }
}

/// The answer of the sign-in and password pages.
pub enum IdentityAnswer {
    /// Another page.
    Redirect(String),
    /// Another page, with a session cookie.
    RedirectWithCookie { to: String, cookie: String },
    /// The sign-in form, with what went wrong.
    LoginForm { next: String, error: Option<String>, status: u16 },
    /// The password form, with what went wrong.
    PasswordForm { error: Option<String>, status: u16 },
}

/// The answer of the sign-in and password pages, as text.
pub enum IdentityAnswerView {
    Redirect(Seq<char>),
    RedirectWithCookie { to: Seq<char>, cookie: Seq<char> },
    LoginForm { next: Seq<char>, error: Option<Seq<char>>, status: int },
    PasswordForm { error: Option<Seq<char>>, status: int },
}

impl View for IdentityAnswer {
    type V = IdentityAnswerView;

    open spec fn view(&self) -> IdentityAnswerView {
        match *self {
            IdentityAnswer::Redirect(to) => IdentityAnswerView::Redirect(to@),
            IdentityAnswer::RedirectWithCookie { to, cookie } =>
                IdentityAnswerView::RedirectWithCookie { to: to@, cookie: cookie@ },
            IdentityAnswer::LoginForm { next, error, status } => IdentityAnswerView::LoginForm {
                next: next@,
                error: views::opt_view(error),
                status: status as int,
            },
            IdentityAnswer::PasswordForm { error, status } => IdentityAnswerView::PasswordForm {
                error: views::opt_view(error),
                status: status as int,
            },
        }
    }
}

/// The error for a session check that failed.
pub open spec fn check_failed(message: Seq<char>) -> ErrorView {
    ErrorView::Internal("session check failed: "@ + message)
}

/// What the sign-in page answers: whoever is signed in already has no business there.
pub open spec fn login_page_outcome(session: SessionCheck, local: Option<Seq<char>>) -> Result<
    IdentityAnswerView,
    ErrorView,
> {
    match session {
        SessionCheck::Live => Ok(IdentityAnswerView::Redirect("/"@)),
        SessionCheck::Absent => Ok(
            IdentityAnswerView::LoginForm {
                next: hidden(local),
                error: None,
                status: 200,
            },
        ),
        SessionCheck::Failed(message) => Err(check_failed(message@)),
    }
}

/// The sign-in page. `is_local` is whether the requested destination is a path of this
/// application.
pub fn login_page(session: SessionCheck, next: Option<&str>, is_local: bool) -> (page: Result<
    IdentityAnswer,
    AppError,
>)
    ensures
        match page {
            Ok(a) => login_page_outcome(session, honoured(views::opt_view(next), is_local)) == Ok::<
                IdentityAnswerView,
                ErrorView,
            >(a@),
            Err(e) => login_page_outcome(session, honoured(views::opt_view(next), is_local))
                == Err::<IdentityAnswerView, ErrorView>(e@),
        },
{
    match session {
        SessionCheck::Live => Ok(IdentityAnswer::Redirect("/".to_owned())),
        SessionCheck::Absent => Ok(
            IdentityAnswer::LoginForm {
                next: next_value(next, is_local),
                error: None,
                status: 200,
            },
        ),
        SessionCheck::Failed(message) => Err(
            AppError::Internal(concat2("session check failed: ", message.as_str())),
        ),
    }
}

/// What a sign-in answers: `result` is the cookie of the new session, or why there is
/// none. A refusal shows the form again with one generic sentence, whatever the cause,
/// and keeps the destination; any other error travels on.
pub open spec fn login_outcome(
    result: Result<String, AppError>,
    local: Option<Seq<char>>,
    invalid_credentials: Seq<char>,
) -> Result<IdentityAnswerView, ErrorView> {
    match result {
        Ok(cookie) => Ok(
            IdentityAnswerView::RedirectWithCookie { to: destination(local), cookie: cookie@ },
        ),
        Err(AppError::Unauthorized(_)) => Ok(
            IdentityAnswerView::LoginForm {
                next: hidden(local),
                error: Some(invalid_credentials),
                status: 401,
            },
        ),
        Err(other) => Err(other@),
    }
}

/// The answer to a sign-in. `is_local` is whether the requested destination is a path of
/// this application; `invalid_credentials` is the sentence for a refusal in the language
/// of the request.
pub fn login_submit(
    result: Result<String, AppError>,
    next: Option<&str>,
    is_local: bool,
    invalid_credentials: &str,
) -> (answer: Result<IdentityAnswer, AppError>)
    ensures
        match answer {
            Ok(a) => login_outcome(
                result,
                honoured(views::opt_view(next), is_local),
                invalid_credentials@,
            ) == Ok::<IdentityAnswerView, ErrorView>(a@),
            Err(e) => {
                &&& result == Err::<String, AppError>(e)
                &&& login_outcome(
                    result,
                    honoured(views::opt_view(next), is_local),
                    invalid_credentials@,
                ) == Err::<IdentityAnswerView, ErrorView>(e@)
            },
        },
{
    match result {
        Ok(cookie) => {
            let to = match honoured_path(next, is_local) {
                Some(path) => path.to_owned(),
                None => "/".to_owned(),
            };
            Ok(IdentityAnswer::RedirectWithCookie { to, cookie })
        },
        Err(AppError::Unauthorized(_)) => Ok(
            IdentityAnswer::LoginForm {
                next: next_value(next, is_local),
                error: Some(invalid_credentials.to_owned()),
                status: 401,
            },
        ),
        Err(other) => Err(other),
    }
}

/// What signing out answers. `revoked` is none where the request carried no token:
/// that is a success too, and the cookie is cleared all the same.
pub open spec fn logout_outcome(
    revoked: Option<Result<(), String>>,
    clear_cookie: Seq<char>,
) -> Result<IdentityAnswerView, ErrorView> {
    match revoked {
        Some(Err(message)) => Err(ErrorView::Internal("logout failed: "@ + message@)),
        _ => Ok(IdentityAnswerView::RedirectWithCookie { to: "/login"@, cookie: clear_cookie }),
    }
}

/// The answer to signing out. `revoked` is what came of revoking the token of the
/// request, where it carried one.
pub fn logout(revoked: Option<Result<(), String>>, clear_cookie: String) -> (answer: Result<
    IdentityAnswer,
    AppError,
>)
    ensures
        match answer {
            Ok(a) => logout_outcome(revoked, clear_cookie@) == Ok::<IdentityAnswerView, ErrorView>(
                a@,
            ),
            Err(e) => logout_outcome(revoked, clear_cookie@) == Err::<
                IdentityAnswerView,
                ErrorView,
            >(e@),
        },
{
    match revoked {
        Some(Err(message)) => Err(
            AppError::Internal(concat2("logout failed: ", message.as_str())),
        ),
        _ => Ok(
            IdentityAnswer::RedirectWithCookie { to: "/login".to_owned(), cookie: clear_cookie },
        ),
    }
}

/// The answer of the JSON session surface: no content, with a cookie.
pub struct SessionAnswer {
    pub status: u16,
    pub cookie: String,
}

/// The answer to a JSON sign-in. A refusal travels on as it is, and sets no cookie.
pub fn create_session(result: Result<String, AppError>) -> (answer: Result<
    SessionAnswer,
    AppError,
>)
    ensures
        match answer {
            Ok(a) => result == Ok::<String, AppError>(a.cookie) && a.status == 204,
            Err(e) => result == Err::<String, AppError>(e),
        },
{
    match result {
        Ok(cookie) => Ok(SessionAnswer { status: 204, cookie }),
        Err(e) => Err(e),
    }
}

/// The answer to a JSON sign-out: a request without a token succeeds too.
pub fn delete_session(revoked: Option<Result<(), AppError>>, clear_cookie: String) -> (answer: Result<
    SessionAnswer,
    AppError,
>)
    ensures
        match answer {
            Ok(a) => !(revoked matches Some(Err(_))) && a.status == 204 && a.cookie == clear_cookie,
            Err(e) => revoked == Some(Err::<(), AppError>(e)),
        },
{
    match revoked {
        Some(Err(e)) => Err(e),
        _ => Ok(SessionAnswer { status: 204, cookie: clear_cookie }),
    }
}

/// The sentences of the password form, in the language of the request.
pub struct PasswordTexts {
    pub mismatch: String,
    pub current_incorrect: String,
    pub minimum_length: String,
    pub must_differ: String,
}

/// What a rule of the credentials says to the operator: the two known rules in the
/// language of the request, anything else as it is.
pub open spec fn rule_sentence(texts: PasswordTexts, message: Seq<char>) -> Seq<char> {
    if message == "La nueva contraseña debe tener al menos 12 caracteres."@ {
        texts.minimum_length@
    } else if message == "La nueva contraseña debe ser distinta de la actual."@ {
        texts.must_differ@
    } else {
        message
    }
}

/// What a rule of the credentials says to the operator.
pub fn password_validation_message(texts: &PasswordTexts, message: &str) -> (sentence: String)
    ensures
        sentence@ == rule_sentence(*texts, message@),
{
    if same_text(message, "La nueva contraseña debe tener al menos 12 caracteres.") {
        texts.minimum_length.clone()
    } else if same_text(message, "La nueva contraseña debe ser distinta de la actual.") {
        texts.must_differ.clone()
    } else {
        message.to_owned()
    }
}

/// The password form again, with a reason.
pub open spec fn password_refusal(reason: Seq<char>, status: int) -> IdentityAnswerView {
    IdentityAnswerView::PasswordForm { error: Some(reason), status }
}

/// What the password form comes to before the credentials are looked at: nothing where
/// the change may be tried.
pub open spec fn password_gate(
    session: SessionCheck,
    form: PasswordForm,
    texts: PasswordTexts,
) -> Option<Result<IdentityAnswerView, ErrorView>> {
    match session {
        SessionCheck::Absent => Some(Ok(IdentityAnswerView::Redirect("/login"@))),
        SessionCheck::Failed(message) => Some(Err(check_failed(message@))),
        SessionCheck::Live => if form.new_password@ != form.confirm_password@ {
            Some(Ok(password_refusal(texts.mismatch@, 400)))
        } else {
            None
        },
    }
}

/// The answer to a password form that is settled without looking at the credentials:
/// without a session, and where the two new passwords differ.
pub fn before_changing_password(
    session: SessionCheck,
    form: &PasswordForm,
    texts: &PasswordTexts,
) -> (settled: Option<Result<IdentityAnswer, AppError>>)
    ensures
        match settled {
            Some(Ok(a)) => password_gate(session, *form, *texts) == Some(
                Ok::<IdentityAnswerView, ErrorView>(a@),
            ),
            Some(Err(e)) => password_gate(session, *form, *texts) == Some(
                Err::<IdentityAnswerView, ErrorView>(e@),
            ),
            None => password_gate(session, *form, *texts) is None,
        },
{
    match session {
        SessionCheck::Absent => Some(Ok(IdentityAnswer::Redirect("/login".to_owned()))),
        SessionCheck::Failed(message) => Some(
            Err(AppError::Internal(concat2("session check failed: ", message.as_str()))),
        ),
        SessionCheck::Live => {
            if !same_text(form.new_password.as_str(), form.confirm_password.as_str()) {
                Some(
                    Ok(
                        IdentityAnswer::PasswordForm {
                            error: Some(texts.mismatch.clone()),
                            status: 400,
                        },
                    ),
                )
            } else {
                None
            }
        },
    }
}

/// What a tried change answers: back to the application, the form with the reason, or
/// any other error as it is.
pub open spec fn password_outcome(result: Result<(), AppError>, texts: PasswordTexts) -> Result<
    IdentityAnswerView,
    ErrorView,
> {
    match result {
        Ok(()) => Ok(IdentityAnswerView::Redirect("/"@)),
        Err(AppError::Unauthorized(_)) => Ok(password_refusal(texts.current_incorrect@, 401)),
        Err(AppError::Validation(message)) => Ok(
            password_refusal(rule_sentence(texts, message@), 400),
        ),
        Err(other) => Err(other@),
    }
}

/// The answer to a password form once the change was tried.
pub fn password_submit(result: Result<(), AppError>, texts: &PasswordTexts) -> (answer: Result<
    IdentityAnswer,
    AppError,
>)
    ensures
        match answer {
            Ok(a) => password_outcome(result, *texts) == Ok::<IdentityAnswerView, ErrorView>(a@),
            Err(e) => {
                &&& result == Err::<(), AppError>(e)
                &&& password_outcome(result, *texts) == Err::<IdentityAnswerView, ErrorView>(e@)
            },
        },
{
    match result {
        Ok(()) => Ok(IdentityAnswer::Redirect("/".to_owned())),
        Err(AppError::Unauthorized(_)) => Ok(
            IdentityAnswer::PasswordForm {
                error: Some(texts.current_incorrect.clone()),
                status: 401,
            },
        ),
        Err(AppError::Validation(message)) => Ok(
            IdentityAnswer::PasswordForm {
                error: Some(password_validation_message(texts, message.as_str())),
                status: 400,
            },
        ),
        Err(other) => Err(other),
    }
}

/// The sign-in page, from what rendering it gave.
pub fn render_login(rendered: Result<String, String>) -> (html: Result<String, AppError>)
    ensures
        match html {
            Ok(h) => answer::rendering(rendered) == Ok::<Seq<char>, ErrorView>(h@),
            Err(e) => answer::rendering(rendered) == Err::<Seq<char>, ErrorView>(e@),
        },
{
    rendered_or_internal(rendered)
}

/// The password page, from what rendering it gave.
pub fn render_password(rendered: Result<String, String>) -> (html: Result<String, AppError>)
    ensures
        match html {
            Ok(h) => answer::rendering(rendered) == Ok::<Seq<char>, ErrorView>(h@),
            Err(e) => answer::rendering(rendered) == Err::<Seq<char>, ErrorView>(e@),
        },
{
    rendered_or_internal(rendered)
}

/// A refused sign-in never sets a cookie, and every refusal looks the same: what the
/// service said of the cause does not show.
pub proof fn refused_logins_look_alike(
    a: String,
    b: String,
    local: Option<Seq<char>>,
    invalid_credentials: Seq<char>,
)
    ensures
        login_outcome(Err(AppError::Unauthorized(a)), local, invalid_credentials) == login_outcome(
            Err(AppError::Unauthorized(b)),
            local,
            invalid_credentials,
        ),
        !(login_outcome(Err(AppError::Unauthorized(a)), local, invalid_credentials) matches Ok(
            IdentityAnswerView::RedirectWithCookie { to: _, cookie: _ },
        )),
{
}

/// Signing out without a token answers just as signing out with a live one.
pub proof fn signing_out_twice_is_one_success(clear_cookie: Seq<char>)
    ensures
        logout_outcome(None, clear_cookie) == logout_outcome(Some(Ok(())), clear_cookie),
        logout_outcome(None, clear_cookie) is Ok,
{
}

/// A destination that is no path of this application is dropped from the form and leads
/// to the root.
pub proof fn foreign_destinations_lead_home(
    next: Option<Seq<char>>,
    cookie: String,
    invalid_credentials: Seq<char>,
)
    ensures
        hidden(honoured(next, false)).len() == 0,
        login_outcome(Ok(cookie), honoured(next, false), invalid_credentials) == Ok::<
            IdentityAnswerView,
            ErrorView,
        >(IdentityAnswerView::RedirectWithCookie { to: "/"@, cookie: cookie@ }),
{
}

/// The form's hidden destination and the sign-in's redirect come from one decision: the
/// sign-in leads to what the form holds, or to the root where the form holds nothing.
pub proof fn form_and_login_agree(local: Option<Seq<char>>)
    requires
        local matches Some(path) ==> path.len() > 0,
    ensures
        destination(local) == (if hidden(local).len() == 0 {
            "/"@
        } else {
            hidden(local)
        }),
{
}

/// A requested destination is kept letter for letter or dropped whole, never rewritten:
/// the form holds one exactly where it is a path of this application, and the redirect
/// of a sign-in with the same request is what the form holds, or else the root.
pub proof fn destinations_are_kept_or_dropped(
    next: Option<Seq<char>>,
    is_local: bool,
    cookie: String,
    invalid_credentials: Seq<char>,
)
    ensures
        ({
            let held = hidden(honoured(next, is_local));
            &&& held.len() == 0 || next == Some(held)
            &&& held.len() > 0 <==> is_local && next is Some && next->0.len() > 0
            &&& login_outcome(Ok(cookie), honoured(next, is_local), invalid_credentials) == Ok::<
                IdentityAnswerView,
                ErrorView,
            >(
                IdentityAnswerView::RedirectWithCookie {
                    to: if held.len() == 0 {
                        "/"@
                    } else {
                        held
                    },
                    cookie: cookie@,
                },
            )
        }),
{
    form_and_login_agree(honoured(next, is_local));
}

/// What `check` says of a requested destination, where there is one.
pub open spec fn verdict(check: spec_fn(Seq<char>) -> bool, next: Option<Seq<char>>) -> bool {
    match next {
        Some(path) => check(path),
        None => false,
    }
}

/// Whatever the check of destinations accepts, the value that the form held comes back as
/// the same value, and signing in with it leads where the first request asked to go.
pub proof fn posted_back_destinations_stay(
    check: spec_fn(Seq<char>) -> bool,
    next: Option<Seq<char>>,
)
    ensures
        ({
            let first = honoured(next, verdict(check, next));
            let posted = Some(hidden(first));
            let second = honoured(posted, verdict(check, posted));
            &&& hidden(second) == hidden(first)
            &&& destination(second) == destination(first)
        }),
{
}

/// A password is only ever changed where the two new ones agree.
pub proof fn only_confirmed_passwords_are_tried(
    session: SessionCheck,
    form: PasswordForm,
    texts: PasswordTexts,
)
    requires
        password_gate(session, form, texts) is None,
    ensures
        session is Live,
        form.new_password@ == form.confirm_password@,
{
}

/// The sign-in page: whoever is signed in goes to the root, whatever destination was
/// asked for; whoever is not gets the form, without an error; and a check that failed is
/// never taken for either.
pub proof fn only_strangers_see_the_login_form(
    session: SessionCheck,
    next: Option<&str>,
    is_local: bool,
    page: Result<IdentityAnswer, AppError>,
)
    requires
        call_ensures(login_page, (session, next, is_local), page),
    ensures
        session is Live ==> page is Ok && page->Ok_0@ == IdentityAnswerView::Redirect("/"@),
        session is Absent ==> page is Ok && page->Ok_0@ == (IdentityAnswerView::LoginForm {
            next: if is_local && next is Some {
                next->0@
            } else {
                Seq::empty()
            },
            error: None,
            status: 200,
        }),
        session matches SessionCheck::Failed(m) ==> page is Err && page->Err_0@
            == ErrorView::Internal("session check failed: "@ + m@),
{
    if next is Some && next->0@.len() == 0 {
        assert(next->0@ =~= Seq::empty());
    }
}

/// A sign-in: with a session, its cookie and the local destination or else the root; with
/// the credentials refused, the form with the generic sentence and the same destination,
/// and no cookie; and any other error as it is.
pub proof fn sign_ins_lead_where_they_were_asked_to(
    result: Result<String, AppError>,
    next: Option<&str>,
    is_local: bool,
    invalid_credentials: &str,
    answer: Result<IdentityAnswer, AppError>,
)
    requires
        call_ensures(login_submit, (result, next, is_local, invalid_credentials), answer),
    ensures
        result matches Ok(cookie) ==> answer is Ok && answer->Ok_0@ == (
        IdentityAnswerView::RedirectWithCookie {
            to: if is_local && next is Some && next->0@.len() > 0 {
                next->0@
            } else {
                "/"@
            },
            cookie: cookie@,
        }),
        result matches Err(AppError::Unauthorized(_)) ==> answer is Ok && answer->Ok_0@ == (
        IdentityAnswerView::LoginForm {
            next: if is_local && next is Some {
                next->0@
            } else {
                Seq::empty()
            },
            error: Some(invalid_credentials@),
            status: 401,
        }),
        result matches Err(e) ==> !(e is Unauthorized) ==> answer == Err::<
            IdentityAnswer,
            AppError,
        >(e),
{
    if next is Some && next->0@.len() == 0 {
        assert(next->0@ =~= Seq::empty());
    }
}

/// Signing out leads to the sign-in page and clears the cookie, with a token or without;
/// only a token that could not be revoked is an error.
pub proof fn signing_out_clears_the_cookie(
    revoked: Option<Result<(), String>>,
    clear_cookie: String,
    answer: Result<IdentityAnswer, AppError>,
)
    requires
        call_ensures(logout, (revoked, clear_cookie), answer),
    ensures
        revoked is None || revoked->0 is Ok ==> answer is Ok && answer->Ok_0@ == (
        IdentityAnswerView::RedirectWithCookie { to: "/login"@, cookie: clear_cookie@ }),
        revoked matches Some(Err(m)) ==> answer is Err && answer->Err_0@ == ErrorView::Internal(
            "logout failed: "@ + m@,
        ),
{
}

/// The JSON session surface: no content with the cookie where it succeeds, and the error
/// as it is where it does not; a request without a token succeeds too.
pub proof fn json_sessions_answer_with_a_cookie(
    result: Result<String, AppError>,
    created: Result<SessionAnswer, AppError>,
    revoked: Option<Result<(), AppError>>,
    clear_cookie: String,
    deleted: Result<SessionAnswer, AppError>,
)
    requires
        call_ensures(create_session, (result,), created),
        call_ensures(delete_session, (revoked, clear_cookie), deleted),
    ensures
        result matches Ok(cookie) ==> created is Ok && created->Ok_0.status == 204
            && created->Ok_0.cookie@ == cookie@,
        result matches Err(e) ==> created == Err::<SessionAnswer, AppError>(e),
        revoked is None || revoked->0 is Ok ==> deleted is Ok && deleted->Ok_0.status == 204
            && deleted->Ok_0.cookie@ == clear_cookie@,
        revoked matches Some(Err(e)) ==> deleted == Err::<SessionAnswer, AppError>(e),
{
}

/// A password form is settled before the credentials are looked at only without a session,
/// which leads to the sign-in page, where the check of it failed, and where the two new
/// passwords differ, whatever the current one is.
pub proof fn password_forms_are_settled_early(
    session: SessionCheck,
    form: &PasswordForm,
    texts: &PasswordTexts,
    settled: Option<Result<IdentityAnswer, AppError>>,
)
    requires
        call_ensures(before_changing_password, (session, form, texts), settled),
    ensures
        settled is None <==> session is Live && form.new_password@ == form.confirm_password@,
        session is Absent ==> settled->0 is Ok && settled->0->Ok_0@
            == IdentityAnswerView::Redirect("/login"@),
        session matches SessionCheck::Failed(m) ==> settled->0 is Err && settled->0->Err_0@
            == ErrorView::Internal("session check failed: "@ + m@),
        session is Live && form.new_password@ != form.confirm_password@ ==> settled->0 is Ok
            && settled->0->Ok_0@ == (IdentityAnswerView::PasswordForm {
            error: Some(texts.mismatch@),
            status: 400,
        }),
{
}

/// A tried password change: to the root where it went through; the form with its own
/// sentence where the current password is wrong or a rule is broken; and any other error
/// as it is.
pub proof fn password_changes_tell_what_went_wrong(
    result: Result<(), AppError>,
    texts: &PasswordTexts,
    answer: Result<IdentityAnswer, AppError>,
)
    requires
        call_ensures(password_submit, (result, texts), answer),
    ensures
        result is Ok ==> answer is Ok && answer->Ok_0@ == IdentityAnswerView::Redirect("/"@),
        result matches Err(AppError::Unauthorized(_)) ==> answer is Ok && answer->Ok_0@ == (
        IdentityAnswerView::PasswordForm { error: Some(texts.current_incorrect@), status: 401 }),
        result matches Err(AppError::Validation(m)) ==> answer is Ok && answer->Ok_0@ == (
        IdentityAnswerView::PasswordForm { error: Some(rule_sentence(*texts, m@)), status: 400 }),
        result matches Err(e) ==> !(e is Unauthorized) && !(e is Validation) ==> answer == Err::<
            IdentityAnswer,
            AppError,
        >(e),
{
}

/// The two known rules of the credentials are said in the language of the request, each in
/// its own sentence; any other message is said as it is.
pub proof fn known_rules_are_said_in_the_language(texts: PasswordTexts, message: Seq<char>)
    ensures
        rule_sentence(texts, "La nueva contraseña debe tener al menos 12 caracteres."@)
            == texts.minimum_length@,
        rule_sentence(texts, "La nueva contraseña debe ser distinta de la actual."@)
            == texts.must_differ@,
        message != "La nueva contraseña debe tener al menos 12 caracteres."@ && message
            != "La nueva contraseña debe ser distinta de la actual."@ ==> rule_sentence(
            texts,
            message,
        ) == message,
{
    reveal_strlit("La nueva contraseña debe tener al menos 12 caracteres.");
    reveal_strlit("La nueva contraseña debe ser distinta de la actual.");
    assert("La nueva contraseña debe tener al menos 12 caracteres."@.len()
        != "La nueva contraseña debe ser distinta de la actual."@.len());
}

/// Credentials are checked for the user name without the white space around it.
pub proof fn user_names_are_trimmed(username: &str, name: String)
    requires
        call_ensures(login_name, (username,), name),
    ensures
        name@ == text::trimmed(username@),
{
}

/// The hidden destination of the form is the requested one, letter for letter, where it is
/// a path of this application, and empty otherwise.
pub proof fn forms_hold_local_destinations(next: Option<&str>, is_local: bool, value: String)
    requires
        call_ensures(next_value, (next, is_local), value),
    ensures
        is_local && next is Some ==> value@ == next->0@,
        !is_local || next is None ==> value@.len() == 0,
{
    if next is Some && next->0@.len() == 0 {
        assert(next->0@ =~= Seq::empty());
    }
}

} // verus!
