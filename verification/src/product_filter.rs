//! The catalogue filter: what it constrains, and what a product form is answered with
//! while it is on.

use vstd::prelude::*;
use vstd::string::*;

use crate::answer;
use crate::answer::rendered_or_internal;
use crate::error::{AppError, ErrorView};
use crate::text;
use crate::text::{concat2, read_i64, trim};
use crate::views;

verus! {

/// The filter of the catalogue, as it arrives: a text over name, SKU and barcode, and
/// a category.
pub struct WebProductFilter {
    pub category_id: Option<String>,
    pub q: Option<String>,
}

impl Default for WebProductFilter {
    fn default() -> (filter: Self)
        ensures
            filter.category_id is None,
            filter.q is None,
    {
        WebProductFilter { category_id: None, q: None }
    }
}

/// What a filter asks for.
pub struct Constraint {
    pub query: Seq<char>,
    pub category: Option<i64>,
}

impl Constraint {
    /// Whether it constrains the list at all: by a text, or by a category.
    pub open spec fn constrains(self) -> bool {
        self.query.len() > 0 || self.category is Some
    }
}

/// The text that an option holds, without surrounding white space.
pub open spec fn trimmed_or_empty(value: Option<String>) -> Seq<char> {
    match value {
        Some(v) => text::trimmed(v@),
        None => Seq::empty(),
    }
}

/// The category that a text names. One that is empty or unreadable names none, so a
/// stray value never turns a bookmark into an error.
pub open spec fn category_named(value: Option<String>) -> Option<i64> {
    match value {
        Some(v) => if text::trimmed(v@).len() > 0 {
            text::i64_reading(text::trimmed(v@))
        } else {
            None
        },
        None => None,
    }
}

impl WebProductFilter {
    /// What the filter asks for.
    pub open spec fn constraint(self) -> Constraint {
        Constraint {
            query: trimmed_or_empty(self.q),
            category: category_named(self.category_id),
        }
    }

    /// The search text and the category.
    pub fn parsed(&self) -> (parsed: (String, Option<i64>))
        ensures
            parsed.0@ == self.constraint().query,
            parsed.1 == self.constraint().category,
    {
        let query = match &self.q {
            Some(q) => trim(q.as_str()).to_owned(),
            None => String::new(),
        };
        let category = match &self.category_id {
            Some(c) => {
                let t = trim(c.as_str());
                if t.is_empty() {
                    None
                } else {
                    read_i64(t)
                }
            },
            None => None,
        };
        (query, category)
    }

    /// The category as the filter form shows it again.
    pub fn category_field(&self) -> (field: String)
        ensures
            field@ == trimmed_or_empty(self.category_id),
    {
        match &self.category_id {
            Some(c) => trim(c.as_str()).to_owned(),
            None => String::new(),
        }
    }
}

/// What a filter in the body of a form asks for.
pub open spec fn body_constraint(q: Seq<char>, category_id: Seq<char>) -> Constraint {
    Constraint {
        query: text::trimmed(q),
        category: if text::trimmed(category_id).len() > 0 {
            text::i64_reading(text::trimmed(category_id))
        } else {
            None
        },
    }
}

/// The search text and the category of a filter in the body of a form.
pub fn body_filter(q: &str, category_id: &str) -> (parsed: (String, Option<i64>))
    ensures
        parsed.0@ == body_constraint(q@, category_id@).query,
        parsed.1 == body_constraint(q@, category_id@).category,
{
    let filter = WebProductFilter {
        q: Some(q.to_owned()),
        category_id: Some(category_id.to_owned()),
    };
    filter.parsed()
}

/// Whether the filter in the body of a form constrains the list at all: a text, or a
/// category that can be read.
pub fn body_filter_is_active(q: &str, category_id: &str) -> (active: bool)
    ensures
        active == body_constraint(q@, category_id@).constrains(),
{
    let category = trim(category_id);
    !trim(q).is_empty() || (!category.is_empty() && read_i64(category).is_some())
}

/// Whether a product that was just created is missing from the list that answers,
/// because of the filter.
pub fn is_hidden_by_filter(q: &str, category_id: &str, listed: &[i64], created: i64) -> (hidden:
    bool)
    ensures
        hidden == (body_constraint(q@, category_id@).constrains() && !listed@.contains(created)),
{
    if !body_filter_is_active(q, category_id) {
        return false;
    }
    let mut i: usize = 0;
    while i < listed.len()
        invariant
            i <= listed.len(),
            forall|k: int| 0 <= k < i ==> listed@[k] != created,
        decreases listed.len() - i,
    {
        if listed[i] == created {
            return false;
        }
        i = i + 1;
    }
    true
}

/// The body that answers a creation: the list, and before it the notice that the new
/// product is hidden, where it is.
pub fn creation_body(notice: &Option<String>, list: &str) -> (body: String)
    ensures
        body@ == (match *notice {
            Some(n) => n@ + list@,
            None => list@,
        }),
{
    match notice {
        Some(n) => concat2(n.as_str(), list),
        None => list.to_owned(),
    }
}

/// The product list, from what rendering it gave.
pub fn render_product_list(rendered: Result<String, String>) -> (html: Result<String, AppError>)
    ensures
        match html {
            Ok(h) => answer::rendering(rendered) == Ok::<Seq<char>, ErrorView>(h@),
            Err(e) => answer::rendering(rendered) == Err::<Seq<char>, ErrorView>(e@),
        },
{
    rendered_or_internal(rendered)
}

/// The notice that a new product is hidden, from what rendering it gave.
pub fn hidden_by_filter_notice_html(rendered: Result<String, String>) -> (html: Result<
    String,
    AppError,
>)
    ensures
        match html {
            Ok(h) => answer::rendering(rendered) == Ok::<Seq<char>, ErrorView>(h@),
            Err(e) => answer::rendering(rendered) == Err::<Seq<char>, ErrorView>(e@),
        },
{
    rendered_or_internal(rendered)
}

/// What the category list is asked for: the words of its empty choice.
pub struct CategoryOptionsQuery {
    pub empty: Option<String>,
}

impl Default for CategoryOptionsQuery {
    fn default() -> (query: Self)
        ensures
            query.empty is None,
    {
        CategoryOptionsQuery { empty: None }
    }
}

/// What the product search is asked for. The picker sends `product`, because the same
/// field feeds the line form; `q` is the documented name.
pub struct ProductSearchQuery {
    pub q: String,
    pub product: String,
}

impl Default for ProductSearchQuery {
    fn default() -> (query: Self)
        ensures
            query.q@.len() == 0,
            query.product@.len() == 0,
    {
        ProductSearchQuery { q: String::new(), product: String::new() }
    }
}

/// The text that is searched for: `q`, or `product` where `q` is blank.
pub open spec fn searched(params: ProductSearchQuery) -> Seq<char> {
    if text::trimmed(params.q@).len() == 0 {
        params.product@
    } else {
        params.q@
    }
}

/// The text that is searched for, under either name.
pub fn resolve_search_query(params: &ProductSearchQuery) -> (raw: String)
    ensures
        raw@ == searched(*params),
{
    if trim(params.q.as_str()).is_empty() {
        params.product.clone()
    } else {
        params.q.clone()
    }
}

/// The answer to a product form.
pub enum ProductAnswer {
    /// The detail fragment of a product, with an event before the swap and perhaps one
    /// after it.
    Detail { product_id: i64, trigger: &'static str, after_settle: Option<&'static str> },
    /// The list that the operator is looking at, with an event.
    List { query: String, category: Option<i64>, trigger: &'static str },
    /// Nothing but an event.
    Event(&'static str),
    /// Another page, for a plain browser.
    Redirect(&'static str),
}

/// The answer to a product form, as text.
pub enum ProductAnswerView {
    Detail { product_id: i64, trigger: Seq<char>, after_settle: Option<Seq<char>> },
    List { shown: Constraint, trigger: Seq<char> },
    Event(Seq<char>),
    Redirect(Seq<char>),
}

impl View for ProductAnswer {
    type V = ProductAnswerView;

    open spec fn view(&self) -> ProductAnswerView {
        match *self {
            ProductAnswer::Detail { product_id, trigger, after_settle } =>
                ProductAnswerView::Detail {
                    product_id,
                    trigger: trigger@,
                    after_settle: views::opt_view(after_settle),
                },
            ProductAnswer::List { query, category, trigger } => ProductAnswerView::List {
                shown: Constraint { query: query@, category },
                trigger: trigger@,
            },
            ProductAnswer::Event(trigger) => ProductAnswerView::Event(trigger@),
            ProductAnswer::Redirect(to) => ProductAnswerView::Redirect(to@),
        }
    }
}

fn shown_list(filter: (String, Option<i64>), trigger: &'static str) -> (answer: ProductAnswer)
    ensures
        answer@ == (ProductAnswerView::List {
            shown: Constraint { query: filter.0@, category: filter.1 },
            trigger: trigger@,
        }),
{
    ProductAnswer::List { query: filter.0, category: filter.1, trigger }
}

/// The answer once a category was created.
pub fn after_creating_category(htmx: bool) -> (answer: ProductAnswer)
    ensures
        answer@ == (if htmx {
            ProductAnswerView::Event("category-created"@)
        } else {
            ProductAnswerView::Redirect("/products"@)
        }),
{
    if htmx {
        ProductAnswer::Event("category-created")
    } else {
        ProductAnswer::Redirect("/products")
    }
}

/// The answer once a product was created: the list under the filter of the body.
pub fn after_creating_product(htmx: bool, q: &str, category_id: &str) -> (answer: ProductAnswer)
    ensures
        answer@ == (if htmx {
            ProductAnswerView::List {
                shown: body_constraint(q@, category_id@),
                trigger: "product-created"@,
            }
        } else {
            ProductAnswerView::Redirect("/products"@)
        }),
{
    if htmx {
        shown_list(body_filter(q, category_id), "product-created")
    } else {
        ProductAnswer::Redirect("/products")
    }
}

/// The answer once a product was edited: to the drawer its own fragment, and the event
/// that closes it only after the swap; to another htmx caller the list under the filter
/// of the URL.
pub fn after_editing_product(
    htmx: bool,
    from_drawer: bool,
    id: i64,
    filter: &WebProductFilter,
) -> (answer: ProductAnswer)
    ensures
        answer@ == (if !htmx {
            ProductAnswerView::Redirect("/products"@)
        } else if from_drawer {
            ProductAnswerView::Detail {
                product_id: id,
                trigger: "product-changed"@,
                after_settle: Some("product-saved"@),
            }
        } else {
            ProductAnswerView::List { shown: filter.constraint(), trigger: "product-changed"@ }
        }),
{
    if !htmx {
        ProductAnswer::Redirect("/products")
    } else if from_drawer {
        ProductAnswer::Detail {
            product_id: id,
            trigger: "product-changed",
            after_settle: Some("product-saved"),
        }
    } else {
        shown_list(filter.parsed(), "product-changed")
    }
}

/// The answer to a drawer action with this event: to the drawer its own fragment, to
/// another htmx caller the list under the filter of the body.
pub open spec fn drawer_action_answer(
    htmx: bool,
    from_drawer: bool,
    product_id: i64,
    shown: Constraint,
    trigger: Seq<char>,
) -> ProductAnswerView {
    if !htmx {
        ProductAnswerView::Redirect("/products"@)
    } else if from_drawer {
        ProductAnswerView::Detail { product_id, trigger, after_settle: None }
    } else {
        ProductAnswerView::List { shown, trigger }
    }
}

/// The answer once a stock movement was recorded.
pub fn after_recording_movement(
    htmx: bool,
    from_drawer: bool,
    product_id: i64,
    q: &str,
    category_id: &str,
) -> (answer: ProductAnswer)
    ensures
        answer@ == drawer_action_answer(
            htmx,
            from_drawer,
            product_id,
            body_constraint(q@, category_id@),
            "movement-created"@,
        ),
{
    if !htmx {
        ProductAnswer::Redirect("/products")
    } else if from_drawer {
        ProductAnswer::Detail { product_id, trigger: "movement-created", after_settle: None }
    } else {
        shown_list(body_filter(q, category_id), "movement-created")
    }
}

/// The answer once a supplier's cost was recorded or made the preferred one.
pub fn after_recording_cost(
    htmx: bool,
    from_drawer: bool,
    product_id: i64,
    q: &str,
    category_id: &str,
) -> (answer: ProductAnswer)
    ensures
        answer@ == drawer_action_answer(
            htmx,
            from_drawer,
            product_id,
            body_constraint(q@, category_id@),
            "product-cost-recorded"@,
        ),
{
    if !htmx {
        ProductAnswer::Redirect("/products")
    } else if from_drawer {
        ProductAnswer::Detail { product_id, trigger: "product-cost-recorded", after_settle: None }
    } else {
        shown_list(body_filter(q, category_id), "product-cost-recorded")
    }
}

/// The answer once a product was activated, deactivated or deleted: the list under the
/// filter of the body.
pub fn product_lifecycle_response(htmx: bool, q: &str, category_id: &str) -> (answer: ProductAnswer)
    ensures
        answer@ == (if htmx {
            ProductAnswerView::List {
                shown: body_constraint(q@, category_id@),
                trigger: "product-changed"@,
            }
        } else {
            ProductAnswerView::Redirect("/products"@)
        }),
{
    if htmx {
        shown_list(body_filter(q, category_id), "product-changed")
    } else {
        ProductAnswer::Redirect("/products")
    }
}

/// The answer once a tax was linked to a product or unlinked from it.
pub fn product_tax_mutation_response(htmx: bool, product_id: i64) -> (answer: ProductAnswer)
    ensures
        answer@ == (if htmx {
            ProductAnswerView::Detail {
                product_id,
                trigger: "product-taxes-changed"@,
                after_settle: None,
            }
        } else {
            ProductAnswerView::Redirect("/products"@)
        }),
{
    if htmx {
        ProductAnswer::Detail { product_id, trigger: "product-taxes-changed", after_settle: None }
    } else {
        ProductAnswer::Redirect("/products")
    }
}

/// The filter in the body of a form and the same filter in the URL ask for the same.
pub proof fn filters_agree_wherever_they_travel(filter: WebProductFilter, q: String, c: String)
    requires
        filter.q == Some(q),
        filter.category_id == Some(c),
    ensures
        filter.constraint() == body_constraint(q@, c@),
{
}

/// Without a search text, a category that cannot be read constrains nothing.
pub proof fn a_category_that_cannot_be_read_is_inert(q: Seq<char>, category_id: Seq<char>)
    requires
        text::trimmed(q).len() == 0,
        text::i64_reading(text::trimmed(category_id)) is None,
    ensures
        !body_constraint(q, category_id).constrains(),
{
}

/// What a filter asks for: the text of its own field without the white space around it,
/// and the category that its own field reads as. A field that is absent, blank or no
/// number asks for nothing.
pub proof fn filters_ask_for_their_own_fields(
    filter: WebProductFilter,
    q: Seq<char>,
    category_id: Seq<char>,
)
    ensures
        filter.q is None ==> filter.constraint().query.len() == 0,
        filter.q matches Some(v) ==> filter.constraint().query == text::trimmed(v@),
        filter.category_id is None ==> filter.constraint().category is None,
        filter.category_id matches Some(v) ==> filter.constraint().category == text::i64_reading(
            text::trimmed(v@),
        ),
        body_constraint(q, category_id).query == text::trimmed(q),
        body_constraint(q, category_id).category == text::i64_reading(text::trimmed(category_id)),
{
    text::what_is_no_number_is_not_read(text::trimmed(category_id), 0);
    match filter.category_id {
        Some(v) => text::what_is_no_number_is_not_read(text::trimmed(v@), 0),
        None => {},
    }
}

/// A filter constrains the list exactly where there is a text to search for or a category
/// that reads.
pub proof fn filters_constrain_by_either_field(q: Seq<char>, category_id: Seq<char>)
    ensures
        body_constraint(q, category_id).constrains() <==> text::trimmed(q).len() > 0
            || text::i64_reading(text::trimmed(category_id)) is Some,
{
    text::what_is_no_number_is_not_read(text::trimmed(category_id), 0);
}

/// A new product is said to be hidden exactly where the filter constrains the list and the
/// list does not show it: never where it is listed, and never without a filter.
pub proof fn only_unlisted_products_are_hidden(
    q: &str,
    category_id: &str,
    listed: &[i64],
    created: i64,
    hidden: bool,
)
    requires
        call_ensures(is_hidden_by_filter, (q, category_id, listed, created), hidden),
    ensures
        hidden <==> !listed@.contains(created) && (text::trimmed(q@).len() > 0
            || text::i64_reading(text::trimmed(category_id@)) is Some),
{
    filters_constrain_by_either_field(q@, category_id@);
}

/// The text that is searched for is `q` wherever it is not blank, and `product` only where
/// it is.
pub proof fn the_documented_name_comes_first(params: ProductSearchQuery)
    ensures
        text::trimmed(params.q@).len() > 0 ==> searched(params) == params.q@,
        text::trimmed(params.q@).len() == 0 ==> searched(params) == params.product@,
{
}

/// A creation answers with the list, behind the notice where there is one.
pub proof fn notices_come_before_the_list(notice: &Option<String>, list: &str, body: String)
    requires
        call_ensures(creation_body, (notice, list), body),
    ensures
        notice is None ==> body@ == list@,
        notice matches Some(n) ==> body@ == n@ + list@,
{
}

/// A plain browser is led back to the products after every form.
pub proof fn plain_browsers_are_led_to_the_products(
    q: &str,
    category_id: &str,
    filter: &WebProductFilter,
    from_drawer: bool,
    id: i64,
    answers: Seq<ProductAnswer>,
)
    requires
        answers.len() == 7,
        call_ensures(after_creating_category, (false,), answers[0]),
        call_ensures(after_creating_product, (false, q, category_id), answers[1]),
        call_ensures(after_editing_product, (false, from_drawer, id, filter), answers[2]),
        call_ensures(
            after_recording_movement,
            (false, from_drawer, id, q, category_id),
            answers[3],
        ),
        call_ensures(after_recording_cost, (false, from_drawer, id, q, category_id), answers[4]),
        call_ensures(product_lifecycle_response, (false, q, category_id), answers[5]),
        call_ensures(product_tax_mutation_response, (false, id), answers[6]),
    ensures
        forall|i: int|
            0 <= i < 7 ==> (#[trigger] answers[i])@ == ProductAnswerView::Redirect("/products"@),
{
}

/// The list that answers a form is the one under the filter that came with it: the search
/// text and the category of the body, or those of the URL after an edit.
pub proof fn lists_stay_under_their_filter(
    q: &str,
    category_id: &str,
    filter: &WebProductFilter,
    id: i64,
    answers: Seq<ProductAnswer>,
)
    requires
        answers.len() == 5,
        call_ensures(after_creating_product, (true, q, category_id), answers[0]),
        call_ensures(product_lifecycle_response, (true, q, category_id), answers[1]),
        call_ensures(after_recording_movement, (true, false, id, q, category_id), answers[2]),
        call_ensures(after_recording_cost, (true, false, id, q, category_id), answers[3]),
        call_ensures(after_editing_product, (true, false, id, filter), answers[4]),
    ensures
        forall|i: int|
            0 <= i < 4 ==> ((#[trigger] answers[i])@ matches ProductAnswerView::List {
                shown,
                trigger: _,
            } && shown.query == text::trimmed(q@) && shown.category == text::i64_reading(
                text::trimmed(category_id@),
            )),
        answers[4]@ matches ProductAnswerView::List { shown, trigger: _ } && shown
            == filter.constraint(),
        answers[0]@->List_trigger == "product-created"@,
        answers[1]@->List_trigger == "product-changed"@,
        answers[2]@->List_trigger == "movement-created"@,
        answers[3]@->List_trigger == "product-cost-recorded"@,
        answers[4]@->List_trigger == "product-changed"@,
{
    text::what_is_no_number_is_not_read(text::trimmed(category_id@), 0);
}

/// The drawer is answered with the fragment of the product that it is open on. Only an
/// edit closes it, and only once the swap is over.
pub proof fn drawers_get_their_own_product(
    q: &str,
    category_id: &str,
    filter: &WebProductFilter,
    id: i64,
    answers: Seq<ProductAnswer>,
)
    requires
        answers.len() == 4,
        call_ensures(after_editing_product, (true, true, id, filter), answers[0]),
        call_ensures(after_recording_movement, (true, true, id, q, category_id), answers[1]),
        call_ensures(after_recording_cost, (true, true, id, q, category_id), answers[2]),
        call_ensures(product_tax_mutation_response, (true, id), answers[3]),
    ensures
        forall|i: int|
            0 <= i < 4 ==> ((#[trigger] answers[i])@ matches ProductAnswerView::Detail {
                product_id,
                trigger: _,
                after_settle,
            } && product_id == id && after_settle == (if i == 0 {
                Some("product-saved"@)
            } else {
                None
            })),
        answers[0]@->Detail_trigger == "product-changed"@,
        answers[1]@->Detail_trigger == "movement-created"@,
        answers[2]@->Detail_trigger == "product-cost-recorded"@,
        answers[3]@->Detail_trigger == "product-taxes-changed"@,
{
}

/// A new category is announced, and shows nothing else.
pub proof fn new_categories_are_announced(answer: ProductAnswer)
    requires
        call_ensures(after_creating_category, (true,), answer),
    ensures
        answer@ == ProductAnswerView::Event("category-created"@),
{
}

/// The filter form shows the category that was asked for, without the white space around
/// it, and nothing where none was.
pub proof fn the_filter_form_shows_its_category(filter: &WebProductFilter, field: String)
    requires
        call_ensures(WebProductFilter::category_field, (filter,), field),
    ensures
        filter.category_id is None ==> field@.len() == 0,
        filter.category_id matches Some(c) ==> field@ == text::trimmed(c@),
{
}

} // verus!
