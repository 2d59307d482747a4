//! The three price fields of a product form: how they read, what a save makes of
//! them, and what the price ladder previews before one.

use vstd::prelude::*;
use vstd::string::*;

use crate::amount;
use crate::amount::{Amount, AmountView};
use crate::error::{AppError, ErrorView};
use crate::localization::LocalizationContext;
use crate::refusal;
use crate::refusal::{localized_refusal_error, price_refusal_message, PriceRefusal};
use crate::text;
use crate::text::trim;
use crate::views;

verus! {

/// What a product is.
#[derive(Clone, Copy, Debug, PartialEq, Eq, Structural)]
pub enum ProductKind {
    Product,
    Service,
}

/// How one price field reads. An emptied field is a value of its own; a field that is
/// not a number is a typo.
#[derive(Clone, Copy)]
pub enum PriceField {
    Empty,
    Unreadable,
    Value(Amount),
}

/// How one price field reads, over numbers.
pub enum FieldView {
    Empty,
    Unreadable,
    Value(AmountView),
}

impl View for PriceField {
    type V = FieldView;

    open spec fn view(&self) -> FieldView {
        match *self {
            PriceField::Empty => FieldView::Empty,
            PriceField::Unreadable => FieldView::Unreadable,
            PriceField::Value(v) => FieldView::Value(v@),
        }
    }
}

impl FieldView {
    /// The number in the field, or zero where there is none.
    pub open spec fn or_zero(self) -> AmountView {
        match self {
            FieldView::Value(v) => v,
            _ => amount::zero_amount(),
        }
    }
}

/// How the three price fields of a form read.
#[derive(Clone, Copy)]
pub struct PriceFields {
    pub sale_price: PriceField,
    pub cost_price: PriceField,
    pub markup_pct: PriceField,
}

/// How the three price fields read, over numbers.
pub struct FieldsView {
    pub sale_price: FieldView,
    pub cost_price: FieldView,
    pub markup_pct: FieldView,
}

impl View for PriceFields {
    type V = FieldsView;

    open spec fn view(&self) -> FieldsView {
        FieldsView {
            sale_price: self.sale_price@,
            cost_price: self.cost_price@,
            markup_pct: self.markup_pct@,
        }
    }
}

impl FieldsView {
    /// Whether any of the fields is a typo.
    pub open spec fn has_a_typo(self) -> bool {
        self.sale_price is Unreadable || self.cost_price is Unreadable
            || self.markup_pct is Unreadable
    }
}

/// What the locale of the request reads in each price field, once white space around
/// it is gone: nothing where it is not a number there.
pub struct PriceReadings {
    pub sale_price: Option<Amount>,
    pub cost_price: Option<Amount>,
    pub markup_pct: Option<Amount>,
}

/// How a field with this text reads, given what the locale makes of the text.
pub open spec fn field_of(raw: Seq<char>, parsed: Option<AmountView>) -> FieldView {
    if text::trimmed(raw).len() == 0 {
        FieldView::Empty
    } else {
        match parsed {
            Some(value) => FieldView::Value(value),
            None => FieldView::Unreadable,
        }
    }
}

/// How one form value reads. `parsed` is what the locale of the request reads in it.
pub fn read_price_field(raw: &str, parsed: Option<Amount>) -> (field: PriceField)
    ensures
        field@ == field_of(raw@, views::opt_view(parsed)),
{
    let trimmed = trim(raw);
    if trimmed.is_empty() {
        return PriceField::Empty;
    }
    match parsed {
        Some(value) => PriceField::Value(value),
        None => PriceField::Unreadable,
    }
}

/// How the three fields of a form read.
pub open spec fn fields_of(
    sale_price: Seq<char>,
    cost_price: Seq<char>,
    markup_pct: Seq<char>,
    readings: PriceReadings,
) -> FieldsView {
    FieldsView {
        sale_price: field_of(sale_price, views::opt_view(readings.sale_price)),
        cost_price: field_of(cost_price, views::opt_view(readings.cost_price)),
        markup_pct: field_of(markup_pct, views::opt_view(readings.markup_pct)),
    }
}

/// The three raw form values, read the one way that every caller reads them.
pub fn form_price_fields(
    sale_price: &str,
    cost_price: &str,
    markup_pct: &str,
    readings: &PriceReadings,
) -> (fields: PriceFields)
    ensures
        fields@ == fields_of(sale_price@, cost_price@, markup_pct@, *readings),
{
    PriceFields {
        sale_price: read_price_field(sale_price, readings.sale_price),
        cost_price: read_price_field(cost_price, readings.cost_price),
        markup_pct: read_price_field(markup_pct, readings.markup_pct),
    }
}

/// Why the price fields of a form do not make prices.
#[derive(Debug)]
pub enum PriceFieldError {
    /// A field is not a number; the message names it.
    Unreadable(&'static str),
    /// The form breaks a price rule.
    Refusal(PriceRefusal),
}

/// Why the price fields do not make prices, as text.
pub enum FieldErrorView {
    Unreadable(Seq<char>),
    Refusal(PriceRefusal),
}

impl View for PriceFieldError {
    type V = FieldErrorView;

    open spec fn view(&self) -> FieldErrorView {
        match *self {
            PriceFieldError::Unreadable(m) => FieldErrorView::Unreadable(m@),
            PriceFieldError::Refusal(r) => FieldErrorView::Refusal(r),
        }
    }
}

/// The error that a save answers with.
pub open spec fn app_error_of(error: FieldErrorView) -> ErrorView {
    match error {
        FieldErrorView::Unreadable(message) => ErrorView::Validation(message),
        FieldErrorView::Refusal(refusal) => ErrorView::PriceRefused(refusal),
    }
}

impl PriceFieldError {
    /// The error that a save answers with.
    pub fn into_app_error(self) -> (error: AppError)
        ensures
            error@ == app_error_of(self@),
    {
        match self {
            PriceFieldError::Unreadable(message) => AppError::Validation(message.to_owned()),
            PriceFieldError::Refusal(refusal) => AppError::PriceRefused(refusal),
        }
    }
}

/// The prices that a product form submits.
#[derive(Clone, Copy)]
pub struct ResolvedPrices {
    pub sale_price: Amount,
    pub cost_price: Amount,
    pub markup_pct: Option<Amount>,
}

/// The prices that a product form submits, over numbers.
pub struct PricesView {
    pub sale_price: AmountView,
    pub cost_price: AmountView,
    pub markup_pct: Option<AmountView>,
}

impl View for ResolvedPrices {
    type V = PricesView;

    open spec fn view(&self) -> PricesView {
        PricesView {
            sale_price: self.sale_price@,
            cost_price: self.cost_price@,
            markup_pct: views::opt_view(self.markup_pct),
        }
    }
}

/// What a save makes of the three fields. The markup is read first, because it
/// decides whether an empty sale price is missing or yet to be derived; an empty
/// cost is a cost of zero.
pub open spec fn resolution(fields: FieldsView) -> Result<PricesView, FieldErrorView> {
    if fields.markup_pct is Unreadable {
        Err(FieldErrorView::Unreadable("invalid markup_pct"@))
    } else if fields.sale_price is Unreadable {
        Err(FieldErrorView::Unreadable("invalid sale_price"@))
    } else if fields.sale_price is Empty && fields.markup_pct is Empty {
        Err(FieldErrorView::Refusal(PriceRefusal::SalePriceRequired))
    } else if fields.cost_price is Unreadable {
        Err(FieldErrorView::Unreadable("invalid cost_price"@))
    } else {
        Ok(
            PricesView {
                sale_price: fields.sale_price.or_zero(),
                cost_price: fields.cost_price.or_zero(),
                markup_pct: match fields.markup_pct {
                    FieldView::Value(v) => Some(v),
                    _ => None,
                },
            },
        )
    }
}

/// The prices that the three fields make, or why they make none.
pub fn resolve_price_fields(fields: PriceFields) -> (prices: Result<
    ResolvedPrices,
    PriceFieldError,
>)
    ensures
        match prices {
            Ok(p) => resolution(fields@) == Ok::<PricesView, FieldErrorView>(p@),
            Err(e) => resolution(fields@) == Err::<PricesView, FieldErrorView>(e@),
        },
        prices is Ok <==> !(fields.sale_price is Unreadable) && !(fields.cost_price is Unreadable)
            && !(fields.markup_pct is Unreadable) && (fields.sale_price is Value
            || fields.markup_pct is Value),
        prices matches Ok(p) ==> (fields.sale_price matches PriceField::Value(v) ==> p.sale_price
            == v),
        prices matches Ok(p) ==> (fields.cost_price matches PriceField::Value(v) ==> p.cost_price
            == v),
        prices matches Ok(p) ==> (fields.markup_pct matches PriceField::Value(v) ==> p.markup_pct
            == Some(v)),
        prices matches Ok(p) ==> (fields.markup_pct is Empty ==> p.markup_pct is None),
{
    let markup_pct = match fields.markup_pct {
        PriceField::Value(value) => Some(value),
        PriceField::Empty => None,
        PriceField::Unreadable => {
            return Err(PriceFieldError::Unreadable("invalid markup_pct"));
        },
    };
    let sale_price = match fields.sale_price {
        PriceField::Value(value) => value,
        PriceField::Empty => {
            if markup_pct.is_none() {
                return Err(PriceFieldError::Refusal(PriceRefusal::SalePriceRequired));
            }
            Amount::zero()
        },
        PriceField::Unreadable => {
            return Err(PriceFieldError::Unreadable("invalid sale_price"));
        },
    };
    let cost_price = match fields.cost_price {
        PriceField::Value(value) => value,
        PriceField::Empty => Amount::zero(),
        PriceField::Unreadable => {
            return Err(PriceFieldError::Unreadable("invalid cost_price"));
        },
    };
    Ok(ResolvedPrices { sale_price, cost_price, markup_pct })
}

/// What a save answers to the three fields, in the language of the request.
pub open spec fn form_outcome(
    fields: FieldsView,
    localization: LocalizationContext,
) -> Result<PricesView, ErrorView> {
    match resolution(fields) {
        Ok(prices) => Ok(prices),
        Err(e) => Err(refusal::localized(app_error_of(e), localization)),
    }
}

/// The prices that a form submits, or the answer that a save gives in the language of
/// the request.
pub fn resolved_form_prices(
    sale_price: &str,
    cost_price: &str,
    markup_pct: &str,
    readings: &PriceReadings,
    localization: &LocalizationContext,
) -> (prices: Result<ResolvedPrices, AppError>)
    ensures
        match prices {
            Ok(p) => form_outcome(
                fields_of(sale_price@, cost_price@, markup_pct@, *readings),
                *localization,
            ) == Ok::<PricesView, ErrorView>(p@),
            Err(e) => form_outcome(
                fields_of(sale_price@, cost_price@, markup_pct@, *readings),
                *localization,
            ) == Err::<PricesView, ErrorView>(e@),
        },
        prices matches Ok(p) ==> (text::trimmed(sale_price@).len() > 0
            ==> readings.sale_price is Some
            && p.sale_price@ == readings.sale_price->0@),
        prices matches Ok(p) ==> (text::trimmed(cost_price@).len() > 0
            ==> readings.cost_price is Some
            && p.cost_price@ == readings.cost_price->0@),
        prices matches Ok(p) ==> (text::trimmed(markup_pct@).len() > 0
            ==> readings.markup_pct is Some
            && p.markup_pct is Some && p.markup_pct->0@ == readings.markup_pct->0@),
        prices matches Ok(p) ==> (text::trimmed(markup_pct@).len() == 0 ==> p.markup_pct is None),
{
    match resolve_price_fields(form_price_fields(sale_price, cost_price, markup_pct, readings)) {
        Ok(prices) => Ok(prices),
        Err(error) => Err(localized_refusal_error(error.into_app_error(), localization)),
    }
}

/// What the price ladder is computed from, when it is not the stored product.
pub enum LadderInput {
    /// A field is not a number: there is nothing to preview.
    Unreadable,
    /// A save would be refused; the cost that the form holds still shows.
    Refused { refusal: PriceRefusal, cost_price: Amount },
    /// The very values that a save would submit. The kind is none where the form
    /// names none that can be read.
    Form {
        kind: Option<ProductKind>,
        sale_price: Amount,
        cost_price: Amount,
        markup_pct: Option<Amount>,
    },
}

/// What the price ladder is computed from, over numbers.
pub enum LadderView {
    Unreadable,
    Refused { refusal: PriceRefusal, cost_price: AmountView },
    Form { kind: Option<ProductKind>, prices: PricesView },
}

impl View for LadderInput {
    type V = LadderView;

    open spec fn view(&self) -> LadderView {
        match *self {
            LadderInput::Unreadable => LadderView::Unreadable,
            LadderInput::Refused { refusal, cost_price } => LadderView::Refused {
                refusal,
                cost_price: cost_price@,
            },
            LadderInput::Form { kind, sale_price, cost_price, markup_pct } => LadderView::Form {
                kind,
                prices: PricesView {
                    sale_price: sale_price@,
                    cost_price: cost_price@,
                    markup_pct: views::opt_view(markup_pct),
                },
            },
        }
    }
}

/// The ladder's input from prices that a save would submit.
pub fn ladder_input_from(prices: ResolvedPrices, kind: Option<ProductKind>) -> (input: LadderInput)
    ensures
        input@ == (LadderView::Form { kind, prices: prices@ }),
{
    LadderInput::Form {
        kind,
        sale_price: prices.sale_price,
        cost_price: prices.cost_price,
        markup_pct: prices.markup_pct,
    }
}

/// What the drawer sends for a preview. A key that is absent is not the same as a
/// field that was emptied: without any of them the request carries no form.
pub struct PriceLadderQuery {
    pub id: i64,
    pub kind: Option<String>,
    pub sale_price: Option<String>,
    pub cost_price: Option<String>,
    pub markup_pct: Option<String>,
}

impl PriceLadderQuery {
    /// Whether the request carries a form.
    pub open spec fn carries_a_form(self) -> bool {
        self.sale_price is Some || self.cost_price is Some || self.markup_pct is Some
            || self.kind is Some
    }

    /// How the price fields of the request read; an absent key reads as an empty one.
    pub open spec fn fields(self, readings: PriceReadings) -> FieldsView {
        fields_of(
            or_empty(self.sale_price),
            or_empty(self.cost_price),
            or_empty(self.markup_pct),
            readings,
        )
    }
}

/// The text that an option holds, or no text.
pub open spec fn or_empty(value: Option<String>) -> Seq<char> {
    match value {
        Some(v) => v@,
        None => Seq::empty(),
    }
}

/// What the preview is computed from: nothing but the stored product where the
/// request carries no form. A typo anywhere stops the preview before any rule on the
/// form is looked at; otherwise the preview is of what a save would do.
pub open spec fn preview(
    query: PriceLadderQuery,
    readings: PriceReadings,
    kind: Option<ProductKind>,
) -> Option<LadderView> {
    let fields = query.fields(readings);
    if !query.carries_a_form() {
        None
    } else if fields.has_a_typo() {
        Some(LadderView::Unreadable)
    } else {
        match resolution(fields) {
            Ok(prices) => Some(
                LadderView::Form {
                    kind: if query.kind is Some {
                        kind
                    } else {
                        None
                    },
                    prices,
                },
            ),
            Err(FieldErrorView::Refusal(refusal)) => Some(
                LadderView::Refused { refusal, cost_price: fields.cost_price.or_zero() },
            ),
            Err(FieldErrorView::Unreadable(_)) => Some(LadderView::Unreadable),
        }
    }
}

fn is_typo(field: &PriceField) -> (typo: bool)
    ensures
        typo == (field@ is Unreadable),
{
    match field {
        PriceField::Unreadable => true,
        _ => false,
    }
}

fn text_or_empty(value: &Option<String>) -> (t: &str)
    ensures
        t@ == or_empty(*value),
{
    match value {
        Some(v) => v.as_str(),
        None => {
            proof {
                reveal_strlit("");
                assert(""@ =~= Seq::empty());
            }
            ""
        },
    }
}

/// What the price ladder is computed from. `readings` and `kind` are what the locale
/// and the kinds make of the fields that the request carries.
pub fn ladder_input(
    query: &PriceLadderQuery,
    readings: &PriceReadings,
    kind: Option<ProductKind>,
) -> (input: Option<LadderInput>)
    ensures
        views::opt_view(input) == preview(*query, *readings, kind),
{
    let carries_a_form = query.sale_price.is_some() || query.cost_price.is_some()
        || query.markup_pct.is_some() || query.kind.is_some();
    if !carries_a_form {
        return None;
    }
    let fields = form_price_fields(
        text_or_empty(&query.sale_price),
        text_or_empty(&query.cost_price),
        text_or_empty(&query.markup_pct),
        readings,
    );
    if is_typo(&fields.sale_price) || is_typo(&fields.cost_price) || is_typo(&fields.markup_pct) {
        return Some(LadderInput::Unreadable);
    }
    let kind = if query.kind.is_some() {
        kind
    } else {
        None
    };
    match resolve_price_fields(fields) {
        Ok(prices) => Some(ladder_input_from(prices, kind)),
        Err(PriceFieldError::Refusal(refusal)) => {
            let cost_price = match fields.cost_price {
                PriceField::Value(value) => value,
                _ => Amount::zero(),
            };
            Some(LadderInput::Refused { refusal, cost_price })
        },
        Err(PriceFieldError::Unreadable(_)) => Some(LadderInput::Unreadable),
    }
}

/// The refusal that a ladder states, in the language of the request; a ladder with a
/// price has none to state.
pub fn ladder_refusal_message(
    net_refusal: &Option<PriceRefusal>,
    localization: &LocalizationContext,
) -> (message: Option<String>)
    ensures
        views::opt_view(message) == (match *net_refusal {
            Some(r) => Some(localization.sentence(refusal::refusal_key(r))),
            None => None,
        }),
{
    match net_refusal {
        Some(refusal) => Some(price_refusal_message(refusal, localization)),
        None => None,
    }
}

/// The preview never disagrees with the save: on a form without a typo it shows the
/// prices exactly where the save takes them, and it states a refusal exactly where
/// the save refuses, in the sentence that the save answers.
pub proof fn previews_say_what_saves_do(
    query: PriceLadderQuery,
    readings: PriceReadings,
    kind: Option<ProductKind>,
    localization: LocalizationContext,
)
    requires
        query.carries_a_form(),
        !query.fields(readings).has_a_typo(),
    ensures
        match form_outcome(query.fields(readings), localization) {
            Ok(prices) => preview(query, readings, kind) matches Some(LadderView::Form {
                kind: _,
                prices: shown,
            }) && shown == prices,
            Err(error) => preview(query, readings, kind) matches Some(LadderView::Refused {
                refusal: stated,
                cost_price: _,
            }) && error == ErrorView::Validation(
                localization.sentence(refusal::refusal_key(stated)),
            ),
        },
{
}

/// Where a field is a typo the preview says that it cannot be read, and the save
/// never goes through.
pub proof fn typos_are_never_saved(
    query: PriceLadderQuery,
    readings: PriceReadings,
    kind: Option<ProductKind>,
    localization: LocalizationContext,
)
    requires
        query.carries_a_form(),
        query.fields(readings).has_a_typo(),
    ensures
        preview(query, readings, kind) == Some(LadderView::Unreadable),
        form_outcome(query.fields(readings), localization) is Err,
{
}

/// With a markup, an empty sale price is no refusal: it is submitted as zero, for the
/// derived price to replace.
pub proof fn a_markup_excuses_the_sale_price(fields: FieldsView)
    requires
        fields.markup_pct is Value,
        fields.sale_price is Empty,
        !(fields.cost_price is Unreadable),
    ensures
        resolution(fields) matches Ok(prices) && prices.sale_price == amount::zero_amount()
            && prices.markup_pct is Some,
{
}

/// A save takes the fields exactly where none is a typo and there is a price or a
/// markup.
pub proof fn saves_take_what_can_be_priced(fields: FieldsView)
    ensures
        resolution(fields) is Ok <==> !fields.has_a_typo() && (fields.sale_price is Value
            || fields.markup_pct is Value),
{
}

/// Emptying a field is not the same as not sending it: a request without any key
/// reports the stored product, one with an emptied price reports the refusal.
pub proof fn an_emptied_price_is_not_an_absent_one(
    query: PriceLadderQuery,
    readings: PriceReadings,
    kind: Option<ProductKind>,
)
    requires
        query.sale_price is Some,
        text::trimmed(or_empty(query.sale_price)).len() == 0,
        query.markup_pct is None,
        !query.fields(readings).has_a_typo(),
    ensures
        preview(query, readings, kind) matches Some(LadderView::Refused { refusal: r, cost_price: _ })
            && r == PriceRefusal::SalePriceRequired,
{
    assert(text::trimmed(or_empty(query.markup_pct)).len() == 0);
}

/// Wherever a save takes the fields, each price it makes is the number of its own field,
/// whatever the others hold, and the field that holds none makes none: a price of zero,
/// or no markup.
pub proof fn each_price_is_its_own_field(fields: FieldsView, prices: PricesView)
    requires
        resolution(fields) == Ok::<PricesView, FieldErrorView>(prices),
    ensures
        fields.markup_pct matches FieldView::Value(v) ==> prices.markup_pct == Some(v),
        prices.markup_pct matches Some(v) ==> fields.markup_pct == FieldView::Value(v),
        fields.sale_price matches FieldView::Value(v) ==> prices.sale_price == v,
        fields.sale_price is Empty ==> prices.sale_price.magnitude == 0 && prices.sale_price.scale
            == 0 && !prices.sale_price.negative,
        fields.cost_price matches FieldView::Value(v) ==> prices.cost_price == v,
        fields.cost_price is Empty ==> prices.cost_price.magnitude == 0 && prices.cost_price.scale
            == 0 && !prices.cost_price.negative,
        fields.markup_pct is Empty <==> prices.markup_pct is None,
{
}

/// Changing one field changes no price but its own.
pub proof fn prices_do_not_mix(
    a: FieldsView,
    b: FieldsView,
    from_a: PricesView,
    from_b: PricesView,
)
    requires
        resolution(a) == Ok::<PricesView, FieldErrorView>(from_a),
        resolution(b) == Ok::<PricesView, FieldErrorView>(from_b),
    ensures
        a.sale_price == b.sale_price ==> from_a.sale_price == from_b.sale_price,
        a.cost_price == b.cost_price ==> from_a.cost_price == from_b.cost_price,
        a.markup_pct == b.markup_pct ==> from_a.markup_pct == from_b.markup_pct,
{
}

/// What a save refuses, and in which order: a markup that is no number, a sale price
/// that is none, a form with neither of the two, and a cost that is no number. The
/// answer names the field, or says in the language of the request that the price is
/// required.
pub proof fn saves_refuse_the_first_field_that_fails(
    fields: FieldsView,
    localization: LocalizationContext,
)
    ensures
        ({
            let outcome = form_outcome(fields, localization);
            if fields.markup_pct is Unreadable {
                outcome == Err::<PricesView, ErrorView>(
                    ErrorView::Validation("invalid markup_pct"@),
                )
            } else if fields.sale_price is Unreadable {
                outcome == Err::<PricesView, ErrorView>(
                    ErrorView::Validation("invalid sale_price"@),
                )
            } else if fields.sale_price is Empty && fields.markup_pct is Empty {
                outcome == Err::<PricesView, ErrorView>(
                    ErrorView::Validation(
                        if localization.language_code@ == "es"@ {
                            "El precio de venta es obligatorio."@
                        } else {
                            "sale_price is required"@
                        },
                    ),
                )
            } else if fields.cost_price is Unreadable {
                outcome == Err::<PricesView, ErrorView>(
                    ErrorView::Validation("invalid cost_price"@),
                )
            } else {
                outcome is Ok
            }
        }),
{
}

/// How a field reads: empty where its text is blank, the number that the locale reads in
/// it where it reads one, and a typo where it does not. Each field goes by its own text
/// and its own reading.
pub proof fn price_fields_read_their_own_text(
    sale_price: Seq<char>,
    cost_price: Seq<char>,
    markup_pct: Seq<char>,
    readings: PriceReadings,
)
    ensures
        ({
            let fields = fields_of(sale_price, cost_price, markup_pct, readings);
            &&& fields.sale_price is Empty <==> text::trimmed(sale_price).len() == 0
            &&& fields.cost_price is Empty <==> text::trimmed(cost_price).len() == 0
            &&& fields.markup_pct is Empty <==> text::trimmed(markup_pct).len() == 0
            &&& text::trimmed(sale_price).len() > 0 ==> match readings.sale_price {
                Some(v) => fields.sale_price == FieldView::Value(v@),
                None => fields.sale_price is Unreadable,
            }
            &&& text::trimmed(cost_price).len() > 0 ==> match readings.cost_price {
                Some(v) => fields.cost_price == FieldView::Value(v@),
                None => fields.cost_price is Unreadable,
            }
            &&& text::trimmed(markup_pct).len() > 0 ==> match readings.markup_pct {
                Some(v) => fields.markup_pct == FieldView::Value(v@),
                None => fields.markup_pct is Unreadable,
            }
        }),
{
}

/// What a request for a preview is answered with: the stored product where it carries no
/// key at all; that nothing can be read where a field is a typo; the refusal with the
/// cost of the form where there is neither a price nor a markup; and otherwise the
/// numbers of its fields, with the kind where it names one.
pub proof fn previews_show_the_fields_of_the_request(
    query: PriceLadderQuery,
    readings: PriceReadings,
    kind: Option<ProductKind>,
)
    ensures
        ({
            let shown = preview(query, readings, kind);
            let sale = if query.sale_price is Some && text::trimmed(
                query.sale_price->0@,
            ).len() > 0 {
                Some(readings.sale_price)
            } else {
                None
            };
            let cost = if query.cost_price is Some && text::trimmed(
                query.cost_price->0@,
            ).len() > 0 {
                Some(readings.cost_price)
            } else {
                None
            };
            let markup = if query.markup_pct is Some && text::trimmed(
                query.markup_pct->0@,
            ).len() > 0 {
                Some(readings.markup_pct)
            } else {
                None
            };
            let typo = sale == Some(None::<Amount>) || cost == Some(None::<Amount>) || markup
                == Some(None::<Amount>);
            &&& shown is None <==> query.sale_price is None && query.cost_price is None
                && query.markup_pct is None && query.kind is None
            &&& shown is Some && typo ==> shown == Some(LadderView::Unreadable)
            &&& shown is Some && !typo && sale is None && markup is None ==> (
            shown matches Some(LadderView::Refused { refusal: r, cost_price: c })
                && r is SalePriceRequired && (match cost {
                Some(Some(v)) => c == v@,
                _ => c == amount::zero_amount(),
            }))
            &&& shown is Some && !typo && (sale is Some || markup is Some) ==> (
            shown matches Some(LadderView::Form { kind: k, prices: p }) && {
                &&& k == if query.kind is Some {
                    kind
                } else {
                    None
                }
                &&& match sale {
                    Some(Some(v)) => p.sale_price == v@,
                    _ => p.sale_price == amount::zero_amount(),
                }
                &&& match cost {
                    Some(Some(v)) => p.cost_price == v@,
                    _ => p.cost_price == amount::zero_amount(),
                }
                &&& match markup {
                    Some(Some(v)) => p.markup_pct == Some(v@),
                    _ => p.markup_pct is None,
                }
            })
        }),
{
    let none = Seq::<char>::empty();
    assert(text::trimmed(none).len() == 0);
}

/// What a contract says of price fields and prices is said of their own fields.
pub proof fn prices_are_what_their_fields_hold(
    fields: PriceFields,
    prices: ResolvedPrices,
    field: PriceField,
)
    ensures
        fields@.sale_price == fields.sale_price@,
        fields@.cost_price == fields.cost_price@,
        fields@.markup_pct == fields.markup_pct@,
        prices@.sale_price == prices.sale_price@,
        prices@.cost_price == prices.cost_price@,
        prices@.markup_pct is Some <==> prices.markup_pct is Some,
        prices.markup_pct is Some ==> prices@.markup_pct->0 == prices.markup_pct->0@,
        field is Empty <==> field@ is Empty,
        field is Unreadable <==> field@ is Unreadable,
        field matches PriceField::Value(v) ==> field@ == FieldView::Value(v@),
{
}

/// The ladder is computed from the very prices that a save would submit, each in its own
/// place, and from the kind that goes with them.
pub proof fn ladders_start_from_the_submitted_prices(
    prices: ResolvedPrices,
    kind: Option<ProductKind>,
    input: LadderInput,
)
    requires
        call_ensures(ladder_input_from, (prices, kind), input),
    ensures
        input@ matches LadderView::Form { kind: k, prices: p } && k == kind && p.sale_price
            == prices.sale_price@ && p.cost_price == prices.cost_price@ && p.markup_pct
            == views::opt_view(prices.markup_pct),
{
}

/// The refusal that a ladder states is the one that it holds, in the language of the
/// request, and a ladder with a price states none.
pub proof fn ladders_state_their_own_refusal(
    net_refusal: &Option<PriceRefusal>,
    localization: &LocalizationContext,
    message: Option<String>,
)
    requires
        call_ensures(ladder_refusal_message, (net_refusal, localization), message),
    ensures
        message is Some <==> net_refusal is Some,
        net_refusal is Some && localization.language_code@ != "es"@ ==> message->0@
            == net_refusal->0.api_text(),
        net_refusal is Some && localization.language_code@ == "es"@ ==> message->0@
            == localization.sentence(refusal::refusal_key(net_refusal->0)),
{
    if net_refusal is Some {
        refusal::each_refusal_has_its_own_words(net_refusal->0, *localization);
    }
}

/// A save answers a field that is no number with that as an error of the request, and a
/// broken rule with the rule.
pub proof fn field_errors_become_answers(error: PriceFieldError, answer: AppError)
    requires
        call_ensures(PriceFieldError::into_app_error, (error,), answer),
    ensures
        error matches PriceFieldError::Unreadable(m) ==> answer@ == ErrorView::Validation(m@),
        error matches PriceFieldError::Refusal(r) ==> answer@ == ErrorView::PriceRefused(r),
{
}

} // verus!
