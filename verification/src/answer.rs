//! What a form is answered with, once the work is done.

use vstd::prelude::*;
use vstd::string::*;

use crate::error::{AppError, ErrorView};
use crate::text;
use crate::text::{contains_text, same_text};

verus! {

/// Whether the request came from htmx, by the value of its `HX-Request` header.
pub fn is_htmx(hx_request: Option<&str>) -> (htmx: bool)
    ensures
        htmx == (hx_request matches Some(v) && v@ == "true"@),
{
    match hx_request {
        Some(v) => same_text(v, "true"),
        None => false,
    }
}

/// Whether the request came from the product drawer, by the value of its `HX-Target`
/// header.
pub fn is_from_drawer(hx_target: Option<&str>) -> (from_drawer: bool)
    ensures
        from_drawer == (hx_target matches Some(v) && text::occurs_in(
            "product-drawer-body"@,
            v@,
        )),
{
    match hx_target {
        Some(v) => contains_text(v, "product-drawer-body"),
        None => false,
    }
}

/// What a render comes to: a template that fails to render is never an empty answer.
pub open spec fn rendering(rendered: Result<String, String>) -> Result<Seq<char>, ErrorView> {
    match rendered {
        Ok(html) => Ok(html@),
        Err(message) => Err(ErrorView::Internal(message@)),
    }
}

/// The page that rendering gave, or the error that stands for a failed render.
pub fn rendered_or_internal(rendered: Result<String, String>) -> (html: Result<String, AppError>)
    ensures
        match html {
            Ok(h) => rendering(rendered) == Ok::<Seq<char>, ErrorView>(h@),
            Err(e) => rendering(rendered) == Err::<Seq<char>, ErrorView>(e@),
        },
{
    match rendered {
        Ok(html) => Ok(html),
        Err(message) => Err(AppError::Internal(message)),
    }
}

/// The answer to a customer form.
pub enum CustomerAnswer {
    /// The list fragment, with an event for the page.
    List { warning: Option<String>, trigger: &'static str },
    /// The detail fragment of one customer.
    Detail(i64),
    /// Another page, for a plain browser.
    Redirect(String),
}

/// The answer to a customer form, as text.
pub enum CustomerAnswerView {
    List { warning: Option<Seq<char>>, trigger: Seq<char> },
    Detail(i64),
    Redirect(Seq<char>),
}

impl View for CustomerAnswer {
    type V = CustomerAnswerView;

    open spec fn view(&self) -> CustomerAnswerView {
        match *self {
            CustomerAnswer::List { warning, trigger } => CustomerAnswerView::List {
                warning: crate::views::opt_view(warning),
                trigger: trigger@,
            },
            CustomerAnswer::Detail(id) => CustomerAnswerView::Detail(id),
            CustomerAnswer::Redirect(to) => CustomerAnswerView::Redirect(to@),
        }
    }
}

/// A page that rendered is answered as it is, and one that did not is an error of ours
/// with its message, never an empty page.
pub proof fn failed_pages_are_never_empty(
    rendered: Result<String, String>,
    html: Result<String, AppError>,
)
    requires
        call_ensures(rendered_or_internal, (rendered,), html),
    ensures
        rendered matches Ok(page) ==> html is Ok && html->Ok_0@ == page@,
        rendered matches Err(m) ==> html is Err && html->Err_0@ == ErrorView::Internal(m@),
{
}

/// A request is told by its headers: one from htmx says `true`, and one from the product
/// drawer names the body of the drawer somewhere in its target.
pub proof fn requests_are_told_by_their_headers(
    hx_request: Option<&str>,
    htmx: bool,
    hx_target: Option<&str>,
    from_drawer: bool,
)
    requires
        call_ensures(is_htmx, (hx_request,), htmx),
        call_ensures(is_from_drawer, (hx_target,), from_drawer),
    ensures
        htmx <==> hx_request is Some && hx_request->0@ == "true"@,
        from_drawer <==> hx_target is Some && exists|a: Seq<char>, b: Seq<char>|
            hx_target->0@ == #[trigger] (a + "product-drawer-body"@ + b),
{
    if hx_target is Some {
        text::occurring_is_standing_between("product-drawer-body"@, hx_target->0@);
    }
}

} // verus!
