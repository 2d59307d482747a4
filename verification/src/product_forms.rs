//! The forms of the products screen, and what each submits.

use vstd::prelude::*;
use vstd::string::*;

use crate::amount::{Amount, AmountView};
use crate::date;
use crate::date::{date_from_str, Date, DateView};
use crate::error::{AppError, ErrorView};
use crate::localization::LocalizationContext;
use crate::prices;
use crate::prices::{resolved_form_prices, PriceReadings, PricesView, ProductKind, ResolvedPrices};
use crate::text;
use crate::text::{concat2, eq_ignore_ascii_case, read_i64, same_text, trim};
use crate::views;

verus! {

/// What an optional number reads as, given what the locale makes of the text: nothing
/// where the field is empty.
pub open spec fn optional_number(raw: Seq<char>, parsed: Option<AmountView>) -> Result<
    Option<AmountView>,
    ErrorView,
> {
    if text::trimmed(raw).len() == 0 {
        Ok(None)
    } else {
        match parsed {
            Some(value) => Ok(Some(value)),
            None => Err(ErrorView::Validation("invalid decimal: "@ + raw)),
        }
    }
}

/// An optional number. `parsed` is what the locale of the request reads in it.
pub fn parse_opt_decimal(s: &str, parsed: Option<Amount>) -> (value: Result<
    Option<Amount>,
    AppError,
>)
    ensures
        match value {
            Ok(v) => optional_number(s@, views::opt_view(parsed)) == Ok::<
                Option<AmountView>,
                ErrorView,
            >(views::opt_view(v)),
            Err(e) => optional_number(s@, views::opt_view(parsed)) == Err::<
                Option<AmountView>,
                ErrorView,
            >(e@),
        },
{
    if trim(s).is_empty() {
        return Ok(None);
    }
    match parsed {
        Some(value) => Ok(Some(value)),
        None => Err(AppError::Validation(concat2("invalid decimal: ", s))),
    }
}

/// What an optional id reads as: nothing where the field is empty.
pub open spec fn optional_id(raw: Seq<char>) -> Result<Option<i64>, ErrorView> {
    if text::trimmed(raw).len() == 0 {
        Ok(None)
    } else {
        match text::i64_reading(text::trimmed(raw)) {
            Some(id) => Ok(Some(id)),
            None => Err(ErrorView::Validation("invalid id: "@ + raw)),
        }
    }
}

/// An optional id.
pub fn parse_opt_i64(s: &str) -> (value: Result<Option<i64>, AppError>)
    ensures
        match value {
            Ok(v) => optional_id(s@) == Ok::<Option<i64>, ErrorView>(v),
            Err(e) => optional_id(s@) == Err::<Option<i64>, ErrorView>(e@),
        },
{
    let t = trim(s);
    if t.is_empty() {
        return Ok(None);
    }
    match read_i64(t) {
        Some(id) => Ok(Some(id)),
        None => Err(AppError::Validation(concat2("invalid id: ", s))),
    }
}

/// The form that creates a category.
pub struct CreateCategoryForm {
    pub name: String,
    pub parent_id: String,
}

impl CreateCategoryForm {
    /// The category that the new one stands under, if any.
    pub fn parent(&self) -> (parent: Result<Option<i64>, AppError>)
        ensures
            match parent {
                Ok(v) => optional_id(self.parent_id@) == Ok::<Option<i64>, ErrorView>(v),
                Err(e) => optional_id(self.parent_id@) == Err::<Option<i64>, ErrorView>(e@),
            },
    {
        parse_opt_i64(self.parent_id.as_str())
    }
}

/// The form that creates a product. The catalogue filter rides along under `q` and
/// `category_id`, so the product's own category has a name of its own.
pub struct CreateProductForm {
    pub sku: String,
    pub name: String,
    pub kind: String,
    pub q: String,
    pub category_id: String,
    pub product_category_id: String,
    pub unit: String,
    pub sale_price: String,
    pub cost_price: String,
    pub markup_pct: String,
    pub track_stock: Option<String>,
    pub min_stock: String,
    pub max_stock: String,
    pub location: String,
    pub notes: String,
}

/// The form that edits a product. It always sends every field.
pub struct EditProductForm {
    pub id: i64,
    pub sku: String,
    pub name: String,
    pub kind: String,
    pub category_id: String,
    pub unit: String,
    pub sale_price: String,
    pub cost_price: String,
    pub markup_pct: String,
    pub track_stock: Option<String>,
    pub min_stock: String,
    pub max_stock: String,
    pub location: String,
    pub notes: String,
}

/// What the locale and the product kinds read in the fields of a product form. The
/// kind comes with the message of its parser where it cannot be read.
pub struct ProductReadings {
    pub kind: Result<ProductKind, String>,
    pub prices: PriceReadings,
    pub min_stock: Option<Amount>,
    pub max_stock: Option<Amount>,
}

/// A product to be created.
pub struct NewProduct {
    pub sku: String,
    pub name: String,
    pub kind: ProductKind,
    pub category_id: Option<i64>,
    pub unit: String,
    pub sale_price: Amount,
    pub cost_price: Amount,
    pub track_stock: bool,
    pub min_stock: Option<Amount>,
    pub max_stock: Option<Amount>,
    pub location: Option<String>,
    pub notes: Option<String>,
    pub markup_pct: Option<Amount>,
}

/// A change to a product: what is absent stays as it is, and an inner absence clears.
pub struct UpdateProduct {
    pub sku: Option<String>,
    pub name: Option<String>,
    pub kind: Option<ProductKind>,
    pub category_id: Option<Option<i64>>,
    pub unit: Option<String>,
    pub sale_price: Option<Amount>,
    pub cost_price: Option<Amount>,
    pub track_stock: Option<bool>,
    pub min_stock: Option<Option<Amount>>,
    pub max_stock: Option<Option<Amount>>,
    pub location: Option<Option<String>>,
    pub notes: Option<Option<String>>,
    pub markup_pct: Option<Option<Amount>>,
}

/// What a form names as the kind: a product where the field is blank.
pub open spec fn kind_of(raw: Seq<char>, parsed: Result<ProductKind, String>) -> Result<
    ProductKind,
    ErrorView,
> {
    if text::trimmed(raw).len() == 0 {
        Ok(ProductKind::Product)
    } else {
        match parsed {
            Ok(kind) => Ok(kind),
            Err(message) => Err(ErrorView::Validation(message@)),
        }
    }
}

/// Whether a checkbox is checked: it is sent, and with one of the values that mean so.
pub open spec fn is_checked(value: Option<String>) -> bool {
    match value {
        Some(v) => v@ == "1"@ || text::same_ascii_folded(v@, "on"@) || text::same_ascii_folded(
            v@,
            "true"@,
        ),
        None => false,
    }
}

/// The unit of a product: `un` where the field is blank.
pub open spec fn unit_of(raw: Seq<char>) -> Seq<char> {
    if text::trimmed(raw).len() == 0 {
        "un"@
    } else {
        raw
    }
}

/// A text as it was typed, or nothing where it is blank.
pub open spec fn unless_blank(raw: Seq<char>) -> Option<Seq<char>> {
    if text::trimmed(raw).len() == 0 {
        None
    } else {
        Some(raw)
    }
}

/// The values of a product form that had to be read.
pub struct FormValues {
    pub kind: ProductKind,
    pub prices: PricesView,
    pub category_id: Option<i64>,
    pub min_stock: Option<AmountView>,
    pub max_stock: Option<AmountView>,
}

/// What reading a product form comes to. The first field that fails decides: the kind,
/// the prices, the category, the minimum and the maximum, in this order.
pub open spec fn form_reading(
    kind: Result<ProductKind, ErrorView>,
    prices: Result<PricesView, ErrorView>,
    category: Result<Option<i64>, ErrorView>,
    min_stock: Result<Option<AmountView>, ErrorView>,
    max_stock: Result<Option<AmountView>, ErrorView>,
) -> Result<FormValues, ErrorView> {
    match (kind, prices, category, min_stock, max_stock) {
        (Err(e), _, _, _, _) => Err(e),
        (_, Err(e), _, _, _) => Err(e),
        (_, _, Err(e), _, _) => Err(e),
        (_, _, _, Err(e), _) => Err(e),
        (_, _, _, _, Err(e)) => Err(e),
        (Ok(kind), Ok(prices), Ok(category_id), Ok(min_stock), Ok(max_stock)) => Ok(
            FormValues { kind, prices, category_id, min_stock, max_stock },
        ),
    }
}

/// The texts of a product form that have to be read.
pub struct ReadableFields {
    pub kind: Seq<char>,
    pub sale_price: Seq<char>,
    pub cost_price: Seq<char>,
    pub markup_pct: Seq<char>,
    pub category: Seq<char>,
    pub min_stock: Seq<char>,
    pub max_stock: Seq<char>,
}

impl ReadableFields {
    /// What reading the fields comes to.
    pub open spec fn reading(
        self,
        readings: ProductReadings,
        localization: LocalizationContext,
    ) -> Result<FormValues, ErrorView> {
        form_reading(
            kind_of(self.kind, readings.kind),
            prices::form_outcome(
                prices::fields_of(
                    self.sale_price,
                    self.cost_price,
                    self.markup_pct,
                    readings.prices,
                ),
                localization,
            ),
            optional_id(self.category),
            optional_number(self.min_stock, views::opt_view(readings.min_stock)),
            optional_number(self.max_stock, views::opt_view(readings.max_stock)),
        )
    }
}

impl CreateProductForm {
    /// The fields that have to be read.
    pub open spec fn readable(self) -> ReadableFields {
        ReadableFields {
            kind: self.kind@,
            sale_price: self.sale_price@,
            cost_price: self.cost_price@,
            markup_pct: self.markup_pct@,
            category: self.product_category_id@,
            min_stock: self.min_stock@,
            max_stock: self.max_stock@,
        }
    }
}

impl EditProductForm {
    /// The fields that have to be read.
    pub open spec fn readable(self) -> ReadableFields {
        ReadableFields {
            kind: self.kind@,
            sale_price: self.sale_price@,
            cost_price: self.cost_price@,
            markup_pct: self.markup_pct@,
            category: self.category_id@,
            min_stock: self.min_stock@,
            max_stock: self.max_stock@,
        }
    }
}

impl NewProduct {
    /// The values that had to be read.
    pub open spec fn values(self) -> FormValues {
        FormValues {
            kind: self.kind,
            prices: PricesView {
                sale_price: self.sale_price@,
                cost_price: self.cost_price@,
                markup_pct: views::opt_view(self.markup_pct),
            },
            category_id: self.category_id,
            min_stock: views::opt_view(self.min_stock),
            max_stock: views::opt_view(self.max_stock),
        }
    }
}

fn read_kind(raw: &str, parsed: &Result<ProductKind, String>) -> (kind: Result<
    ProductKind,
    AppError,
>)
    ensures
        match kind {
            Ok(k) => kind_of(raw@, *parsed) == Ok::<ProductKind, ErrorView>(k),
            Err(e) => kind_of(raw@, *parsed) == Err::<ProductKind, ErrorView>(e@),
        },
{
    if trim(raw).is_empty() {
        return Ok(ProductKind::Product);
    }
    match parsed {
        Ok(kind) => Ok(*kind),
        Err(message) => Err(AppError::Validation(message.clone())),
    }
}

/// Whether a checkbox is checked.
pub fn checkbox(value: &Option<String>) -> (checked: bool)
    ensures
        checked == is_checked(*value),
{
    match value {
        Some(v) => same_text(v.as_str(), "1") || eq_ignore_ascii_case(v.as_str(), "on")
            || eq_ignore_ascii_case(v.as_str(), "true"),
        None => false,
    }
}

fn unit_or_default(unit: String) -> (u: String)
    ensures
        u@ == unit_of(unit@),
{
    if trim(unit.as_str()).is_empty() {
        "un".to_owned()
    } else {
        unit
    }
}

fn typed_or_none(value: String) -> (v: Option<String>)
    ensures
        views::opt_view(v) == unless_blank(value@),
{
    if trim(value.as_str()).is_empty() {
        None
    } else {
        Some(value)
    }
}

/// The values of a product form that had to be read.
struct ReadValues {
    kind: ProductKind,
    prices: ResolvedPrices,
    category_id: Option<i64>,
    min_stock: Option<Amount>,
    max_stock: Option<Amount>,
}

impl View for ReadValues {
    type V = FormValues;

    closed spec fn view(&self) -> FormValues {
        FormValues {
            kind: self.kind,
            prices: self.prices@,
            category_id: self.category_id,
            min_stock: views::opt_view(self.min_stock),
            max_stock: views::opt_view(self.max_stock),
        }
    }
}

/// The raw texts of a product form that have to be read.
struct RawFields<'a> {
    kind: &'a str,
    sale_price: &'a str,
    cost_price: &'a str,
    markup_pct: &'a str,
    category: &'a str,
    min_stock: &'a str,
    max_stock: &'a str,
}

impl<'a> RawFields<'a> {
    spec fn readable(self) -> ReadableFields {
        ReadableFields {
            kind: self.kind@,
            sale_price: self.sale_price@,
            cost_price: self.cost_price@,
            markup_pct: self.markup_pct@,
            category: self.category@,
            min_stock: self.min_stock@,
            max_stock: self.max_stock@,
        }
    }

    fn read(
        &self,
        readings: &ProductReadings,
        localization: &LocalizationContext,
    ) -> (values: Result<ReadValues, AppError>)
        ensures
            match values {
                Ok(v) => self.readable().reading(*readings, *localization) == Ok::<
                    FormValues,
                    ErrorView,
                >(v@),
                Err(e) => self.readable().reading(*readings, *localization) == Err::<
                    FormValues,
                    ErrorView,
                >(e@),
            },
    {
        let kind = match read_kind(self.kind, &readings.kind) {
            Ok(v) => v,
            Err(e) => {
                return Err(e);
            },
        };
        let prices = match resolved_form_prices(
            self.sale_price,
            self.cost_price,
            self.markup_pct,
            &readings.prices,
            localization,
        ) {
            Ok(v) => v,
            Err(e) => {
                return Err(e);
            },
        };
        let category_id = match parse_opt_i64(self.category) {
            Ok(v) => v,
            Err(e) => {
                return Err(e);
            },
        };
        let min_stock = match parse_opt_decimal(self.min_stock, readings.min_stock) {
            Ok(v) => v,
            Err(e) => {
                return Err(e);
            },
        };
        let max_stock = match parse_opt_decimal(self.max_stock, readings.max_stock) {
            Ok(v) => v,
            Err(e) => {
                return Err(e);
            },
        };
        Ok(ReadValues { kind, prices, category_id, min_stock, max_stock })
    }
}

/// The product that the form creates.
pub fn new_product_from_form(
    form: CreateProductForm,
    readings: &ProductReadings,
    localization: &LocalizationContext,
) -> (product: Result<NewProduct, AppError>)
    ensures
        match product {
            Ok(p) => {
                &&& form.readable().reading(*readings, *localization) == Ok::<
                    FormValues,
                    ErrorView,
                >(p.values())
                &&& p.sku == form.sku
                &&& p.name == form.name
                &&& p.unit@ == unit_of(form.unit@)
                &&& p.track_stock == is_checked(form.track_stock)
                &&& views::opt_view(p.location) == unless_blank(form.location@)
                &&& views::opt_view(p.notes) == unless_blank(form.notes@)
            },
            Err(e) => form.readable().reading(*readings, *localization) == Err::<
                FormValues,
                ErrorView,
            >(e@),
        },
        product matches Ok(p) ==> (text::trimmed(form.kind@).len() == 0 ==> p.kind
            == ProductKind::Product),
        product matches Ok(p) ==> (text::trimmed(form.kind@).len() > 0 ==> readings.kind == Ok::<
            ProductKind,
            String,
        >(p.kind)),
        product matches Ok(p) ==> (text::trimmed(form.product_category_id@).len() == 0
            ==> p.category_id is None),
        product matches Ok(p) ==> (text::trimmed(form.product_category_id@).len() > 0
            ==> p.category_id is Some && p.category_id == text::i64_reading(
            text::trimmed(form.product_category_id@),
        )),
        product matches Ok(p) ==> (text::trimmed(form.min_stock@).len() == 0
            ==> p.min_stock is None),
        product matches Ok(p) ==> (text::trimmed(form.min_stock@).len() > 0
            ==> p.min_stock is Some && readings.min_stock is Some
            && p.min_stock->0@ == readings.min_stock->0@),
        product matches Ok(p) ==> (text::trimmed(form.max_stock@).len() == 0
            ==> p.max_stock is None),
        product matches Ok(p) ==> (text::trimmed(form.max_stock@).len() > 0
            ==> p.max_stock is Some && readings.max_stock is Some
            && p.max_stock->0@ == readings.max_stock->0@),
        product matches Ok(p) ==> (text::trimmed(form.markup_pct@).len() == 0
            ==> p.markup_pct is None),
        product matches Ok(p) ==> (text::trimmed(form.markup_pct@).len() > 0
            ==> p.markup_pct is Some && readings.prices.markup_pct is Some
            && p.markup_pct->0@ == readings.prices.markup_pct->0@),
        product matches Ok(p) ==> (text::trimmed(form.sale_price@).len() > 0
            ==> readings.prices.sale_price is Some && p.sale_price@
            == readings.prices.sale_price->0@),
        product matches Ok(p) ==> (text::trimmed(form.cost_price@).len() > 0
            ==> readings.prices.cost_price is Some && p.cost_price@
            == readings.prices.cost_price->0@),
{
    let raw = RawFields {
        kind: form.kind.as_str(),
        sale_price: form.sale_price.as_str(),
        cost_price: form.cost_price.as_str(),
        markup_pct: form.markup_pct.as_str(),
        category: form.product_category_id.as_str(),
        min_stock: form.min_stock.as_str(),
        max_stock: form.max_stock.as_str(),
    };
    let values = match raw.read(readings, localization) {
        Ok(v) => v,
        Err(e) => {
            return Err(e);
        },
    };
    let track_stock = checkbox(&form.track_stock);
    Ok(
        NewProduct {
            sku: form.sku,
            name: form.name,
            kind: values.kind,
            category_id: values.category_id,
            unit: unit_or_default(form.unit),
            sale_price: values.prices.sale_price,
            cost_price: values.prices.cost_price,
            track_stock,
            min_stock: values.min_stock,
            max_stock: values.max_stock,
            location: typed_or_none(form.location),
            notes: typed_or_none(form.notes),
            markup_pct: values.prices.markup_pct,
        },
    )
}

/// Whether the change sets every field of a product, leaving none as it was, and sets
/// those that had to be read to `values`.
pub open spec fn sets_everything(update: UpdateProduct, values: FormValues) -> bool {
    &&& update.kind == Some(values.kind)
    &&& update.category_id == Some(values.category_id)
    &&& update.sale_price matches Some(p) && p@ == values.prices.sale_price
    &&& update.cost_price matches Some(p) && p@ == values.prices.cost_price
    &&& update.markup_pct matches Some(m) && views::opt_view(m) == values.prices.markup_pct
    &&& update.min_stock matches Some(m) && views::opt_view(m) == values.min_stock
    &&& update.max_stock matches Some(m) && views::opt_view(m) == values.max_stock
}

/// The change that the edit form makes. The form always sends every field, so a blank
/// optional one clears, and an emptied markup goes back to a price by hand.
pub fn product_update_from_form(
    form: EditProductForm,
    readings: &ProductReadings,
    localization: &LocalizationContext,
) -> (update: Result<UpdateProduct, AppError>)
    ensures
        match update {
            Ok(u) => {
                &&& form.readable().reading(*readings, *localization) matches Ok(values)
                &&& sets_everything(u, values)
                &&& u.sku == Some(form.sku)
                &&& u.name == Some(form.name)
                &&& u.unit matches Some(unit) && unit@ == unit_of(form.unit@)
                &&& u.track_stock == Some(is_checked(form.track_stock))
                &&& u.location matches Some(l) && views::opt_view(l) == unless_blank(
                    form.location@,
                )
                &&& u.notes matches Some(n) && views::opt_view(n) == unless_blank(form.notes@)
            },
            Err(e) => form.readable().reading(*readings, *localization) == Err::<
                FormValues,
                ErrorView,
            >(e@),
        },
        update matches Ok(u) ==> (text::trimmed(form.kind@).len() == 0 ==> u.kind == Some(
            ProductKind::Product,
        )),
        update matches Ok(u) ==> (text::trimmed(form.kind@).len() > 0 ==> u.kind is Some
            && readings.kind == Ok::<ProductKind, String>(u.kind->0)),
        update matches Ok(u) ==> (text::trimmed(form.category_id@).len() == 0 ==> u.category_id
            == Some(None::<i64>)),
        update matches Ok(u) ==> (text::trimmed(form.category_id@).len() > 0
            ==> u.category_id is Some
            && u.category_id->0 is Some && u.category_id->0 == text::i64_reading(
            text::trimmed(form.category_id@),
        )),
        update matches Ok(u) ==> (text::trimmed(form.min_stock@).len() == 0
            ==> u.min_stock is Some && u.min_stock->0 is None),
        update matches Ok(u) ==> (text::trimmed(form.min_stock@).len() > 0
            ==> u.min_stock is Some && u.min_stock->0 is Some
            && readings.min_stock is Some && u.min_stock->0->0@ == readings.min_stock->0@),
        update matches Ok(u) ==> (text::trimmed(form.max_stock@).len() == 0
            ==> u.max_stock is Some && u.max_stock->0 is None),
        update matches Ok(u) ==> (text::trimmed(form.max_stock@).len() > 0
            ==> u.max_stock is Some && u.max_stock->0 is Some
            && readings.max_stock is Some && u.max_stock->0->0@ == readings.max_stock->0@),
        update matches Ok(u) ==> (text::trimmed(form.markup_pct@).len() == 0
            ==> u.markup_pct is Some && u.markup_pct->0 is None),
        update matches Ok(u) ==> (text::trimmed(form.markup_pct@).len() > 0
            ==> u.markup_pct is Some && u.markup_pct->0 is Some
            && readings.prices.markup_pct is Some && u.markup_pct->0->0@ == readings.prices.markup_pct->0@),
        update matches Ok(u) ==> (text::trimmed(form.sale_price@).len() > 0 ==> u.sale_price is Some
            && readings.prices.sale_price is Some && u.sale_price->0@
            == readings.prices.sale_price->0@),
        update matches Ok(u) ==> (text::trimmed(form.cost_price@).len() > 0 ==> u.cost_price is Some
            && readings.prices.cost_price is Some && u.cost_price->0@
            == readings.prices.cost_price->0@),
{
    let raw = RawFields {
        kind: form.kind.as_str(),
        sale_price: form.sale_price.as_str(),
        cost_price: form.cost_price.as_str(),
        markup_pct: form.markup_pct.as_str(),
        category: form.category_id.as_str(),
        min_stock: form.min_stock.as_str(),
        max_stock: form.max_stock.as_str(),
    };
    let values = match raw.read(readings, localization) {
        Ok(v) => v,
        Err(e) => {
            return Err(e);
        },
    };
    let track_stock = checkbox(&form.track_stock);
    Ok(
        UpdateProduct {
            sku: Some(form.sku),
            name: Some(form.name),
            kind: Some(values.kind),
            category_id: Some(values.category_id),
            unit: Some(unit_or_default(form.unit)),
            sale_price: Some(values.prices.sale_price),
            cost_price: Some(values.prices.cost_price),
            track_stock: Some(track_stock),
            min_stock: Some(values.min_stock),
            max_stock: Some(values.max_stock),
            location: Some(typed_or_none(form.location)),
            notes: Some(typed_or_none(form.notes)),
            markup_pct: Some(values.prices.markup_pct),
        },
    )
}

/// The form that records a supplier's cost.
pub struct RecordProductCostForm {
    pub product_id: i64,
    pub supplier_id: i64,
    pub q: String,
    pub category_id: String,
    pub cost: String,
    pub date: String,
}

/// The form that makes a supplier's cost the preferred one.
pub struct PreferredCostForm {
    pub product_id: i64,
    pub supplier_id: i64,
    pub q: String,
    pub category_id: String,
}

/// The form that names a product, with the catalogue filter beside it.
pub struct ProductIdForm {
    pub product_id: i64,
    pub q: String,
    pub category_id: String,
}

/// The form that links a tax to a product, or unlinks it.
pub struct ProductTaxForm {
    pub product_id: i64,
    pub tax_id: i64,
}

/// The form that records a stock movement.
pub struct CreateMovementForm {
    pub product_id: i64,
    pub kind: String,
    pub qty: String,
    pub reason: String,
    pub reference: String,
    pub date: String,
    pub q: String,
    pub category_id: String,
}

/// The date that a form names, or the day that it is in the business's own time zone.
pub open spec fn form_date(raw: Seq<char>, today_iso: Seq<char>) -> Result<DateView, ErrorView> {
    if text::trimmed(raw).len() == 0 {
        match date::date_reading(today_iso) {
            Some(d) => Ok(d),
            None => Err(ErrorView::Internal("invalid localized date"@)),
        }
    } else {
        match date::date_reading(text::trimmed(raw)) {
            Some(d) => Ok(d),
            None => Err(ErrorView::Validation("invalid date (YYYY-MM-DD)"@)),
        }
    }
}

/// The date that a form names, or today's, written `today_iso`, where it names none.
pub fn parse_form_date(raw: &str, today_iso: &str) -> (date: Result<Date, AppError>)
    ensures
        match date {
            Ok(d) => form_date(raw@, today_iso@) == Ok::<DateView, ErrorView>(d@),
            Err(e) => form_date(raw@, today_iso@) == Err::<DateView, ErrorView>(e@),
        },
{
    let t = trim(raw);
    if t.is_empty() {
        match date_from_str(today_iso) {
            Some(d) => Ok(d),
            None => Err(AppError::Internal("invalid localized date".to_owned())),
        }
    } else {
        match date_from_str(t) {
            Some(d) => Ok(d),
            None => Err(AppError::Validation("invalid date (YYYY-MM-DD)".to_owned())),
        }
    }
}

/// A stock movement to be recorded.
pub struct NewMovement {
    pub product_id: i64,
    pub qty: Amount,
    pub movement_type: String,
    pub reason: String,
    pub reference: String,
    pub date: Date,
}

/// What is read in the fields of a movement form: the names of its type and reason, or
/// the message of their parsers, and the quantity.
pub struct MovementReadings {
    pub movement_type: Result<String, String>,
    pub qty: Option<Amount>,
    pub reason: Result<String, String>,
}

/// The values of a movement form that had to be read.
pub struct MovementValues {
    pub movement_type: Seq<char>,
    pub qty: AmountView,
    pub reason: Seq<char>,
    pub date: DateView,
}

/// What a name reads as, with the message of its parser where it cannot be read.
pub open spec fn named(parsed: Result<String, String>) -> Result<Seq<char>, ErrorView> {
    match parsed {
        Ok(name) => Ok(name@),
        Err(message) => Err(ErrorView::Validation(message@)),
    }
}

/// The reason of a movement: `Initial` where the field is blank.
pub open spec fn reason_of(raw: Seq<char>, parsed: Result<String, String>) -> Result<
    Seq<char>,
    ErrorView,
> {
    if text::trimmed(raw).len() == 0 {
        Ok("Initial"@)
    } else {
        named(parsed)
    }
}

/// What reading a movement form comes to. The first field that fails decides: the
/// type, the quantity, the reason and the date, in this order.
pub open spec fn movement_reading(
    form: CreateMovementForm,
    readings: MovementReadings,
    today_iso: Seq<char>,
) -> Result<MovementValues, ErrorView> {
    match (
        named(readings.movement_type),
        readings.qty,
        reason_of(form.reason@, readings.reason),
        form_date(form.date@, today_iso),
    ) {
        (Err(e), _, _, _) => Err(e),
        (_, None, _, _) => Err(ErrorView::Validation("invalid qty"@)),
        (_, _, Err(e), _) => Err(e),
        (_, _, _, Err(e)) => Err(e),
        (Ok(movement_type), Some(qty), Ok(reason), Ok(date)) => Ok(
            MovementValues { movement_type, qty: qty@, reason, date },
        ),
    }
}

/// The movement that the form records.
pub fn movement_from_form(
    form: CreateMovementForm,
    readings: MovementReadings,
    today_iso: &str,
) -> (movement: Result<NewMovement, AppError>)
    ensures
        match movement {
            Ok(m) => {
                &&& movement_reading(form, readings, today_iso@) == Ok::<
                    MovementValues,
                    ErrorView,
                >(
                    MovementValues {
                        movement_type: m.movement_type@,
                        qty: m.qty@,
                        reason: m.reason@,
                        date: m.date@,
                    },
                )
                &&& m.product_id == form.product_id
                &&& m.reference@ == text::trimmed(form.reference@)
            },
            Err(e) => movement_reading(form, readings, today_iso@) == Err::<
                MovementValues,
                ErrorView,
            >(e@),
        },
{
    let movement_type = match readings.movement_type {
        Ok(name) => name,
        Err(message) => {
            return Err(AppError::Validation(message));
        },
    };
    let qty = match readings.qty {
        Some(qty) => qty,
        None => {
            return Err(AppError::Validation("invalid qty".to_owned()));
        },
    };
    let reason = if trim(form.reason.as_str()).is_empty() {
        "Initial".to_owned()
    } else {
        match readings.reason {
            Ok(name) => name,
            Err(message) => {
                return Err(AppError::Validation(message));
            },
        }
    };
    let date = match parse_form_date(form.date.as_str(), today_iso) {
        Ok(d) => d,
        Err(e) => {
            return Err(e);
        },
    };
    Ok(
        NewMovement {
            product_id: form.product_id,
            qty,
            movement_type,
            reason,
            reference: trim(form.reference.as_str()).to_owned(),
            date,
        },
    )
}

/// A supplier's cost to be recorded.
pub struct NewProductCost {
    pub product_id: i64,
    pub supplier_id: i64,
    pub cost: Amount,
    pub date: Date,
}

/// What reading a cost form comes to: the cost first, then the date.
pub open spec fn cost_reading(
    form: RecordProductCostForm,
    cost: Option<AmountView>,
    today_iso: Seq<char>,
) -> Result<(AmountView, DateView), ErrorView> {
    match (cost, form_date(form.date@, today_iso)) {
        (None, _) => Err(ErrorView::Validation("invalid cost"@)),
        (_, Err(e)) => Err(e),
        (Some(cost), Ok(date)) => Ok((cost, date)),
    }
}

/// The cost that the form records. `cost` is what the locale of the request reads in
/// the field, once white space around it is gone.
pub fn cost_from_form(form: &RecordProductCostForm, cost: Option<Amount>, today_iso: &str) -> (made:
    Result<NewProductCost, AppError>)
    ensures
        match made {
            Ok(c) => {
                &&& cost_reading(*form, views::opt_view(cost), today_iso@) == Ok::<
                    (AmountView, DateView),
                    ErrorView,
                >((c.cost@, c.date@))
                &&& c.product_id == form.product_id
                &&& c.supplier_id == form.supplier_id
            },
            Err(e) => cost_reading(*form, views::opt_view(cost), today_iso@) == Err::<
                (AmountView, DateView),
                ErrorView,
            >(e@),
        },
{
    let cost = match cost {
        Some(cost) => cost,
        None => {
            return Err(AppError::Validation("invalid cost".to_owned()));
        },
    };
    let date = match parse_form_date(form.date.as_str(), today_iso) {
        Ok(d) => d,
        Err(e) => {
            return Err(e);
        },
    };
    Ok(NewProductCost { product_id: form.product_id, supplier_id: form.supplier_id, cost, date })
}

/// Creating a product and editing one read the same fields the same way.
pub proof fn creating_and_editing_read_alike(
    create: CreateProductForm,
    edit: EditProductForm,
    readings: ProductReadings,
    localization: LocalizationContext,
)
    requires
        create.kind@ == edit.kind@,
        create.sale_price@ == edit.sale_price@,
        create.cost_price@ == edit.cost_price@,
        create.markup_pct@ == edit.markup_pct@,
        create.product_category_id@ == edit.category_id@,
        create.min_stock@ == edit.min_stock@,
        create.max_stock@ == edit.max_stock@,
    ensures
        create.readable().reading(readings, localization) == edit.readable().reading(
            readings,
            localization,
        ),
{
}

/// The catalogue filter in the body never changes the product that is created.
pub proof fn the_filter_is_not_the_category(a: CreateProductForm, b: CreateProductForm)
    requires
        b == (CreateProductForm { q: b.q, category_id: b.category_id, ..a }),
    ensures
        a.readable() == b.readable(),
{
}

/// A form that is refused over its prices is refused in the language of the request,
/// never with the bare rule.
pub proof fn refusals_are_worded_for_the_operator(
    fields: ReadableFields,
    readings: ProductReadings,
    localization: LocalizationContext,
)
    ensures
        !(fields.reading(readings, localization) matches Err(e) && e is PriceRefused),
{
}

/// The texts of a form that have to be read are its own fields, each under its own name.
/// The category of a product to be created is the one named for the product.
pub proof fn forms_hand_over_their_own_fields(create: CreateProductForm, edit: EditProductForm)
    ensures
        create.readable().kind == create.kind@,
        create.readable().sale_price == create.sale_price@,
        create.readable().cost_price == create.cost_price@,
        create.readable().markup_pct == create.markup_pct@,
        create.readable().category == create.product_category_id@,
        create.readable().min_stock == create.min_stock@,
        create.readable().max_stock == create.max_stock@,
        edit.readable().kind == edit.kind@,
        edit.readable().sale_price == edit.sale_price@,
        edit.readable().cost_price == edit.cost_price@,
        edit.readable().markup_pct == edit.markup_pct@,
        edit.readable().category == edit.category_id@,
        edit.readable().min_stock == edit.min_stock@,
        edit.readable().max_stock == edit.max_stock@,
{
}

/// Where a product form is taken, each value that had to be read is what its own field
/// reads as, and an optional one is absent exactly where its field is blank.
pub proof fn each_value_is_read_in_its_own_field(
    fields: ReadableFields,
    readings: ProductReadings,
    localization: LocalizationContext,
    values: FormValues,
)
    requires
        fields.reading(readings, localization) == Ok::<FormValues, ErrorView>(values),
    ensures
        text::trimmed(fields.kind).len() == 0 ==> values.kind == ProductKind::Product,
        text::trimmed(fields.kind).len() > 0 ==> readings.kind == Ok::<ProductKind, String>(
            values.kind,
        ),
        values.category_id is None <==> text::trimmed(fields.category).len() == 0,
        values.category_id matches Some(id) ==> text::i64_reading(text::trimmed(fields.category))
            == Some(id),
        values.min_stock is None <==> text::trimmed(fields.min_stock).len() == 0,
        values.min_stock matches Some(v) ==> readings.min_stock is Some && readings.min_stock->0@
            == v,
        values.max_stock is None <==> text::trimmed(fields.max_stock).len() == 0,
        values.max_stock matches Some(v) ==> readings.max_stock is Some && readings.max_stock->0@
            == v,
        text::trimmed(fields.sale_price).len() > 0 ==> readings.prices.sale_price is Some
            && values.prices.sale_price == readings.prices.sale_price->0@,
        text::trimmed(fields.cost_price).len() > 0 ==> readings.prices.cost_price is Some
            && values.prices.cost_price == readings.prices.cost_price->0@,
        values.prices.markup_pct is None <==> text::trimmed(fields.markup_pct).len() == 0,
        values.prices.markup_pct matches Some(v) ==> readings.prices.markup_pct is Some
            && readings.prices.markup_pct->0@ == v,
        text::trimmed(fields.sale_price).len() == 0 ==> values.prices.sale_price.magnitude == 0
            && text::trimmed(fields.markup_pct).len() > 0,
        text::trimmed(fields.cost_price).len() == 0 ==> values.prices.cost_price.magnitude == 0,
{
}

/// A product form is taken exactly where every field reads: a blank kind or one that is
/// known, prices that a save takes, and an id and two quantities that are blank or read.
pub proof fn forms_are_taken_where_every_field_reads(
    fields: ReadableFields,
    readings: ProductReadings,
    localization: LocalizationContext,
)
    ensures
        fields.reading(readings, localization) is Ok <==> {
            &&& text::trimmed(fields.kind).len() == 0 || readings.kind is Ok
            &&& text::trimmed(fields.sale_price).len() == 0 || readings.prices.sale_price is Some
            &&& text::trimmed(fields.cost_price).len() == 0 || readings.prices.cost_price is Some
            &&& text::trimmed(fields.markup_pct).len() == 0 || readings.prices.markup_pct is Some
            &&& text::trimmed(fields.sale_price).len() > 0 || text::trimmed(fields.markup_pct).len()
                > 0
            &&& text::trimmed(fields.category).len() == 0 || text::i64_reading(
                text::trimmed(fields.category),
            ) is Some
            &&& text::trimmed(fields.min_stock).len() == 0 || readings.min_stock is Some
            &&& text::trimmed(fields.max_stock).len() == 0 || readings.max_stock is Some
        },
{
}

/// Which refusal a product form gets: that of its kind, else that of its prices, else
/// the category, the minimum or the maximum as it was typed.
pub proof fn refused_forms_name_the_first_field_that_fails(
    fields: ReadableFields,
    readings: ProductReadings,
    localization: LocalizationContext,
)
    ensures
        ({
            let reading = fields.reading(readings, localization);
            let priced = prices::form_outcome(
                prices::fields_of(
                    fields.sale_price,
                    fields.cost_price,
                    fields.markup_pct,
                    readings.prices,
                ),
                localization,
            );
            if text::trimmed(fields.kind).len() > 0 && readings.kind is Err {
                reading == Err::<FormValues, ErrorView>(
                    ErrorView::Validation(readings.kind->Err_0@),
                )
            } else if priced is Err {
                reading == Err::<FormValues, ErrorView>(priced->Err_0)
            } else if text::trimmed(fields.category).len() > 0 && text::i64_reading(
                text::trimmed(fields.category),
            ) is None {
                reading == Err::<FormValues, ErrorView>(
                    ErrorView::Validation("invalid id: "@ + fields.category),
                )
            } else if text::trimmed(fields.min_stock).len() > 0 && readings.min_stock is None {
                reading == Err::<FormValues, ErrorView>(
                    ErrorView::Validation("invalid decimal: "@ + fields.min_stock),
                )
            } else if text::trimmed(fields.max_stock).len() > 0 && readings.max_stock is None {
                reading == Err::<FormValues, ErrorView>(
                    ErrorView::Validation("invalid decimal: "@ + fields.max_stock),
                )
            } else {
                reading is Ok
            }
        }),
{
}

/// The change that the edit form makes sets every field, so that nothing of the product
/// stays as it was: a value that had to be read to that value.
pub proof fn edits_set_every_field(update: UpdateProduct, values: FormValues)
    requires
        sets_everything(update, values),
    ensures
        update.kind == Some(values.kind),
        update.category_id == Some(values.category_id),
        update.sale_price is Some && update.sale_price->0@ == values.prices.sale_price,
        update.cost_price is Some && update.cost_price->0@ == values.prices.cost_price,
        update.markup_pct is Some && (update.markup_pct->0 is Some
            <==> values.prices.markup_pct is Some),
        values.prices.markup_pct matches Some(v) ==> update.markup_pct->0->0@ == v,
        update.min_stock is Some && (update.min_stock->0 is Some <==> values.min_stock is Some),
        values.min_stock matches Some(v) ==> update.min_stock->0->0@ == v,
        update.max_stock is Some && (update.max_stock->0 is Some <==> values.max_stock is Some),
        values.max_stock matches Some(v) ==> update.max_stock->0->0@ == v,
{
}

/// What the fields of a product form that need no reading come to: a checkbox is checked
/// by `1`, and by `on` or `true` in any case; a blank unit is `un`; a blank text is none;
/// and what is not blank is kept as it was typed.
pub proof fn typed_texts_are_kept(raw: Seq<char>, sent: Option<String>)
    ensures
        text::trimmed(raw).len() == 0 ==> unit_of(raw) == "un"@ && unless_blank(raw) is None,
        text::trimmed(raw).len() > 0 ==> unit_of(raw) == raw && unless_blank(raw) == Some(raw),
        sent is None ==> !is_checked(sent),
        sent matches Some(v) ==> (is_checked(sent) <==> v@ == "1"@ || text::same_ascii_folded(
            v@,
            "on"@,
        ) || text::same_ascii_folded(v@, "true"@)),
{
}

/// The date of a form is the one that it names, and today where it names none.
pub proof fn forms_without_a_date_mean_today(raw: Seq<char>, today_iso: Seq<char>)
    ensures
        text::trimmed(raw).len() > 0 ==> form_date(raw, today_iso) == (match date::date_reading(
            text::trimmed(raw),
        ) {
            Some(d) => Ok::<DateView, ErrorView>(d),
            None => Err(ErrorView::Validation("invalid date (YYYY-MM-DD)"@)),
        }),
        text::trimmed(raw).len() == 0 ==> form_date(raw, today_iso) == (match date::date_reading(
            today_iso,
        ) {
            Some(d) => Ok::<DateView, ErrorView>(d),
            None => Err(ErrorView::Internal("invalid localized date"@)),
        }),
{
}

/// Where a movement form is taken, each value is what its own field reads as: the type,
/// the quantity, the reason or `Initial` where it is blank, and the date or today's.
pub proof fn movements_are_read_field_by_field(
    form: CreateMovementForm,
    readings: MovementReadings,
    today_iso: Seq<char>,
    values: MovementValues,
)
    requires
        movement_reading(form, readings, today_iso) == Ok::<MovementValues, ErrorView>(values),
    ensures
        readings.movement_type is Ok && readings.movement_type->Ok_0@ == values.movement_type,
        readings.qty is Some && readings.qty->0@ == values.qty,
        text::trimmed(form.reason@).len() == 0 ==> values.reason == "Initial"@,
        text::trimmed(form.reason@).len() > 0 ==> readings.reason is Ok && readings.reason->Ok_0@
            == values.reason,
        text::trimmed(form.date@).len() > 0 ==> date::date_reading(text::trimmed(form.date@))
            == Some(values.date),
        text::trimmed(form.date@).len() == 0 ==> date::date_reading(today_iso) == Some(
            values.date,
        ),
{
}

/// Which refusal a movement form gets: that of its type, its quantity, its reason or its
/// date, whichever comes first; and it is taken where there is none.
pub proof fn refused_movements_name_the_first_field_that_fails(
    form: CreateMovementForm,
    readings: MovementReadings,
    today_iso: Seq<char>,
)
    ensures
        ({
            let reading = movement_reading(form, readings, today_iso);
            let dated = form_date(form.date@, today_iso);
            if readings.movement_type is Err {
                reading == Err::<MovementValues, ErrorView>(
                    ErrorView::Validation(readings.movement_type->Err_0@),
                )
            } else if readings.qty is None {
                reading == Err::<MovementValues, ErrorView>(ErrorView::Validation("invalid qty"@))
            } else if text::trimmed(form.reason@).len() > 0 && readings.reason is Err {
                reading == Err::<MovementValues, ErrorView>(
                    ErrorView::Validation(readings.reason->Err_0@),
                )
            } else if dated is Err {
                reading == Err::<MovementValues, ErrorView>(dated->Err_0)
            } else {
                reading is Ok
            }
        }),
{
}

/// The cost that a form records is the one that its field reads as, on the date that it
/// names or today; a cost that cannot be read is refused before the date is looked at.
pub proof fn costs_are_read_field_by_field(
    form: RecordProductCostForm,
    cost: Option<AmountView>,
    today_iso: Seq<char>,
)
    ensures
        cost is None ==> cost_reading(form, cost, today_iso) == Err::<
            (AmountView, DateView),
            ErrorView,
        >(ErrorView::Validation("invalid cost"@)),
        cost matches Some(c) ==> (match form_date(form.date@, today_iso) {
            Ok(d) => cost_reading(form, cost, today_iso) == Ok::<(AmountView, DateView), ErrorView>(
                (c, d),
            ),
            Err(e) => cost_reading(form, cost, today_iso) == Err::<
                (AmountView, DateView),
                ErrorView,
            >(e),
        }),
{
}

/// An optional id and an optional number: absent where the field is blank, read where it
/// is not, and refused with what was typed where it cannot be.
pub proof fn optional_fields_are_absent_or_read(raw: Seq<char>, parsed: Option<AmountView>)
    ensures
        text::trimmed(raw).len() == 0 ==> optional_id(raw) == Ok::<Option<i64>, ErrorView>(None)
            && optional_number(raw, parsed) == Ok::<Option<AmountView>, ErrorView>(None),
        text::trimmed(raw).len() > 0 ==> (match text::i64_reading(text::trimmed(raw)) {
            Some(id) => optional_id(raw) == Ok::<Option<i64>, ErrorView>(Some(id)),
            None => optional_id(raw) == Err::<Option<i64>, ErrorView>(
                ErrorView::Validation("invalid id: "@ + raw),
            ),
        }),
        text::trimmed(raw).len() > 0 ==> (match parsed {
            Some(v) => optional_number(raw, parsed) == Ok::<Option<AmountView>, ErrorView>(
                Some(v),
            ),
            None => optional_number(raw, parsed) == Err::<Option<AmountView>, ErrorView>(
                ErrorView::Validation("invalid decimal: "@ + raw),
            ),
        }),
{
}

/// The texts of a product that is created stand each in its own place: the SKU and the name
/// as they were typed, the unit or `un`, the location and the notes where they are not
/// blank; and the stock is kept exactly where its box is checked.
pub proof fn created_products_keep_their_own_texts(
    form: CreateProductForm,
    readings: &ProductReadings,
    localization: &LocalizationContext,
    made: Result<NewProduct, AppError>,
)
    requires
        call_ensures(new_product_from_form, (form, readings, localization), made),
        made is Ok,
    ensures
        ({
            let p = made->Ok_0;
            &&& p.sku@ == form.sku@
            &&& p.name@ == form.name@
            &&& p.unit@ == if text::trimmed(form.unit@).len() == 0 {
                "un"@
            } else {
                form.unit@
            }
            &&& p.track_stock == is_checked(form.track_stock)
            &&& p.location is None <==> text::trimmed(form.location@).len() == 0
            &&& p.location is Some ==> p.location->0@ == form.location@
            &&& p.notes is None <==> text::trimmed(form.notes@).len() == 0
            &&& p.notes is Some ==> p.notes->0@ == form.notes@
            &&& p.max_stock is None <==> text::trimmed(form.max_stock@).len() == 0
            &&& p.min_stock is None <==> text::trimmed(form.min_stock@).len() == 0
        }),
{
}

/// The texts of a product that is edited are all set, each from its own field.
pub proof fn edited_products_keep_their_own_texts(
    form: EditProductForm,
    readings: &ProductReadings,
    localization: &LocalizationContext,
    made: Result<UpdateProduct, AppError>,
)
    requires
        call_ensures(product_update_from_form, (form, readings, localization), made),
        made is Ok,
    ensures
        ({
            let u = made->Ok_0;
            &&& u.sku is Some && u.sku->0@ == form.sku@
            &&& u.name is Some && u.name->0@ == form.name@
            &&& u.unit is Some && u.unit->0@ == if text::trimmed(form.unit@).len() == 0 {
                "un"@
            } else {
                form.unit@
            }
            &&& u.track_stock == Some(is_checked(form.track_stock))
            &&& u.location is Some && (u.location->0 is None <==> text::trimmed(
                form.location@,
            ).len() == 0)
            &&& u.location->0 is Some ==> u.location->0->0@ == form.location@
            &&& u.notes is Some && (u.notes->0 is None <==> text::trimmed(form.notes@).len() == 0)
            &&& u.notes->0 is Some ==> u.notes->0->0@ == form.notes@
            &&& u.max_stock is Some && (u.max_stock->0 is None <==> text::trimmed(
                form.max_stock@,
            ).len() == 0)
            &&& u.min_stock is Some && (u.min_stock->0 is None <==> text::trimmed(
                form.min_stock@,
            ).len() == 0)
        }),
{
}

/// A movement is recorded for the product that its form names, under the reference without
/// the white space around it, with the quantity and the date of its own fields.
pub proof fn movements_keep_their_own_fields(
    form: CreateMovementForm,
    readings: MovementReadings,
    today_iso: &str,
    made: Result<NewMovement, AppError>,
)
    requires
        call_ensures(movement_from_form, (form, readings, today_iso), made),
        made is Ok,
    ensures
        ({
            let m = made->Ok_0;
            &&& m.product_id == form.product_id
            &&& m.reference@ == text::trimmed(form.reference@)
            &&& readings.movement_type is Ok && m.movement_type@ == readings.movement_type->Ok_0@
            &&& readings.qty is Some && m.qty@ == readings.qty->0@
            &&& m.reason@ == if text::trimmed(form.reason@).len() == 0 {
                "Initial"@
            } else {
                readings.reason->Ok_0@
            }
            &&& date::date_reading(
                if text::trimmed(form.date@).len() == 0 {
                    today_iso@
                } else {
                    text::trimmed(form.date@)
                },
            ) == Some(m.date@)
        }),
{
}

/// A cost is recorded for the product and the supplier that its form names, with the cost
/// and the date of its own fields.
pub proof fn costs_keep_their_own_fields(
    form: &RecordProductCostForm,
    cost: Option<Amount>,
    today_iso: &str,
    made: Result<NewProductCost, AppError>,
)
    requires
        call_ensures(cost_from_form, (form, cost, today_iso), made),
        made is Ok,
    ensures
        ({
            let c = made->Ok_0;
            &&& c.product_id == form.product_id
            &&& c.supplier_id == form.supplier_id
            &&& cost is Some && c.cost@ == cost->0@
            &&& date::date_reading(
                if text::trimmed(form.date@).len() == 0 {
                    today_iso@
                } else {
                    text::trimmed(form.date@)
                },
            ) == Some(c.date@)
        }),
{
}

/// A new category stands under the one that its form names, and under none where the field
/// is blank.
pub proof fn categories_stand_under_what_is_named(
    form: &CreateCategoryForm,
    parent: Result<Option<i64>, AppError>,
)
    requires
        call_ensures(CreateCategoryForm::parent, (form,), parent),
    ensures
        text::trimmed(form.parent_id@).len() == 0 ==> parent == Ok::<Option<i64>, AppError>(None),
        text::trimmed(form.parent_id@).len() > 0 && text::i64_reading(
            text::trimmed(form.parent_id@),
        ) is Some ==> parent == Ok::<Option<i64>, AppError>(
            text::i64_reading(text::trimmed(form.parent_id@)),
        ),
        text::trimmed(form.parent_id@).len() > 0 && text::i64_reading(
            text::trimmed(form.parent_id@),
        ) is None ==> parent is Err && parent->Err_0@ == ErrorView::Validation(
            "invalid id: "@ + form.parent_id@,
        ),
{
}

} // verus!
