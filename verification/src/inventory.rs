//! The inventory JSON API: what its requests hold, and what each submits.

use vstd::prelude::*;
use vstd::string::*;

use crate::amount;
use crate::amount::Amount;
use crate::date::Date;
use crate::error::{AppError, ErrorView};
use crate::prices::ProductKind;
use crate::product_forms::{NewMovement, NewProduct, UpdateProduct};
use crate::text;
use crate::text::{concat3, id_text};

verus! {

/// The request that creates a category.
pub struct CreateCategoryRequest {
    pub name: String,
    pub parent_id: Option<i64>,
}

/// The request that changes a category.
pub struct UpdateCategoryRequest {
    pub name: Option<String>,
    pub parent_id: Option<Option<i64>>,
}

/// The request that creates a product.
pub struct CreateProductRequest {
    pub sku: String,
    pub name: String,
    pub kind: ProductKind,
    pub category_id: Option<i64>,
    pub unit: String,
    pub sale_price: Amount,
    pub cost_price: Option<Amount>,
    pub track_stock: bool,
    pub min_stock: Option<Amount>,
    pub max_stock: Option<Amount>,
    pub location: Option<String>,
    pub notes: Option<String>,
    /// With a markup, the sale price is derived from the cost and the one that the
    /// request holds is ignored.
    pub markup_pct: Option<Amount>,
}

/// The request that changes a product: an absent key leaves what is stored, `null`
/// clears it.
pub struct UpdateProductRequest {
    pub sku: Option<String>,
    pub name: Option<String>,
    pub kind: Option<ProductKind>,
    pub category_id: Option<Option<i64>>,
    pub unit: Option<String>,
    pub sale_price: Option<Amount>,
    pub cost_price: Option<Amount>,
    pub track_stock: Option<bool>,
    pub min_stock: Option<Option<Amount>>,
    pub max_stock: Option<Option<Amount>>,
    pub location: Option<Option<String>>,
    pub notes: Option<Option<String>>,
    pub markup_pct: Option<Option<Amount>>,
}

/// The value of a key that a request holds: `null` is a value, and only an absent key
/// is none.
pub fn double_option<T>(value: Option<T>) -> (held: Option<Option<T>>)
    ensures
        held == Some(value),
{
    Some(value)
}

impl Default for UpdateProductRequest {
    fn default() -> (request: Self)
        ensures
            request.sku is None,
            request.name is None,
            request.kind is None,
            request.category_id is None,
            request.unit is None,
            request.sale_price is None,
            request.cost_price is None,
            request.track_stock is None,
            request.min_stock is None,
            request.max_stock is None,
            request.location is None,
            request.notes is None,
            request.markup_pct is None,
    {
        UpdateProductRequest {
            sku: None,
            name: None,
            kind: None,
            category_id: None,
            unit: None,
            sale_price: None,
            cost_price: None,
            track_stock: None,
            min_stock: None,
            max_stock: None,
            location: None,
            notes: None,
            markup_pct: None,
        }
    }
}

/// The request that records a stock movement.
pub struct CreateMovementRequest {
    pub product_id: i64,
    pub qty: Amount,
    pub movement_type: String,
    pub reason: String,
    pub reference: Option<String>,
    pub date: Date,
}

/// The request that adds a barcode.
pub struct AddBarcodeRequest {
    pub code: String,
}

/// Which products to list.
pub struct ProductListQuery {
    pub category_id: Option<i64>,
}

impl Default for ProductListQuery {
    fn default() -> (query: Self)
        ensures
            query.category_id is None,
    {
        ProductListQuery { category_id: None }
    }
}

/// The request that creates a tax.
pub struct CreateTaxRequest {
    pub code: String,
    pub name: String,
    pub rate: Amount,
    pub is_active: bool,
}

/// The request that changes a tax.
pub struct UpdateTaxRequest {
    pub code: Option<String>,
    pub name: Option<String>,
    pub rate: Option<Amount>,
    pub is_active: Option<bool>,
}

impl Default for UpdateTaxRequest {
    fn default() -> (request: Self)
        ensures
            request.code is None,
            request.name is None,
            request.rate is None,
            request.is_active is None,
    {
        UpdateTaxRequest { code: None, name: None, rate: None, is_active: None }
    }
}

/// The request that links a tax to a product.
pub struct LinkProductTaxRequest {
    pub tax_id: i64,
}

/// Which movements to list.
pub struct MovementListQuery {
    pub product_id: Option<i64>,
}

impl Default for MovementListQuery {
    fn default() -> (query: Self)
        ensures
            query.product_id is None,
    {
        MovementListQuery { product_id: None }
    }
}

/// A tax is active unless the request says otherwise.
pub fn default_true() -> (active: bool)
    ensures
        active,
{
    true
}

/// The error for a category that there is none of.
pub fn category_not_found(id: i64) -> (error: AppError)
    ensures
        error@ == ErrorView::NotFound("category "@ + text::int_text(id as int) + " not found"@),
{
    AppError::NotFound(concat3("category ", id_text(id).as_str(), " not found"))
}

/// The product that the request creates: without a cost, at a cost of zero.
pub fn new_product_from_request(request: CreateProductRequest) -> (product: NewProduct)
    ensures
        product.sku == request.sku,
        product.name == request.name,
        product.kind == request.kind,
        product.category_id == request.category_id,
        product.unit == request.unit,
        product.sale_price == request.sale_price,
        request.cost_price matches Some(c) ==> product.cost_price == c,
        request.cost_price is None ==> product.cost_price@ == amount::zero_amount(),
        product.track_stock == request.track_stock,
        product.min_stock == request.min_stock,
        product.max_stock == request.max_stock,
        product.location == request.location,
        product.notes == request.notes,
        product.markup_pct == request.markup_pct,
{
    let cost_price = match request.cost_price {
        Some(cost) => cost,
        None => Amount::zero(),
    };
    NewProduct {
        sku: request.sku,
        name: request.name,
        kind: request.kind,
        category_id: request.category_id,
        unit: request.unit,
        sale_price: request.sale_price,
        cost_price,
        track_stock: request.track_stock,
        min_stock: request.min_stock,
        max_stock: request.max_stock,
        location: request.location,
        notes: request.notes,
        markup_pct: request.markup_pct,
    }
}

/// The change that the request makes: every key that it holds, and none that it does
/// not.
pub fn product_update_from_request(request: UpdateProductRequest) -> (update: UpdateProduct)
    ensures
        update.sku == request.sku,
        update.name == request.name,
        update.kind == request.kind,
        update.category_id == request.category_id,
        update.unit == request.unit,
        update.sale_price == request.sale_price,
        update.cost_price == request.cost_price,
        update.track_stock == request.track_stock,
        update.min_stock == request.min_stock,
        update.max_stock == request.max_stock,
        update.location == request.location,
        update.notes == request.notes,
        update.markup_pct == request.markup_pct,
{
    UpdateProduct {
        sku: request.sku,
        name: request.name,
        kind: request.kind,
        category_id: request.category_id,
        unit: request.unit,
        sale_price: request.sale_price,
        cost_price: request.cost_price,
        track_stock: request.track_stock,
        min_stock: request.min_stock,
        max_stock: request.max_stock,
        location: request.location,
        notes: request.notes,
        markup_pct: request.markup_pct,
    }
}

/// The movement that the request records: without a reference, an empty one.
pub fn movement_from_request(request: CreateMovementRequest) -> (movement: NewMovement)
    ensures
        movement.product_id == request.product_id,
        movement.qty == request.qty,
        movement.movement_type == request.movement_type,
        movement.reason == request.reason,
        request.reference matches Some(r) ==> movement.reference == r,
        request.reference is None ==> movement.reference@.len() == 0,
        movement.date == request.date,
{
    let reference = match request.reference {
        Some(reference) => reference,
        None => String::new(),
    };
    NewMovement {
        product_id: request.product_id,
        qty: request.qty,
        movement_type: request.movement_type,
        reason: request.reason,
        reference,
        date: request.date,
    }
}

/// The product that a request creates holds every value of the request, each in its own
/// place; only a cost that the request leaves out is zero.
pub proof fn requests_create_what_they_hold(request: CreateProductRequest, product: NewProduct)
    requires
        call_ensures(new_product_from_request, (request,), product),
    ensures
        product.sku@ == request.sku@,
        product.name@ == request.name@,
        product.kind == request.kind,
        product.category_id == request.category_id,
        product.unit@ == request.unit@,
        product.sale_price@ == request.sale_price@,
        request.cost_price is Some ==> product.cost_price@ == request.cost_price->0@,
        request.cost_price is None ==> product.cost_price@.magnitude == 0,
        product.track_stock == request.track_stock,
        product.min_stock == request.min_stock,
        product.max_stock == request.max_stock,
        product.location == request.location,
        product.notes == request.notes,
        product.markup_pct == request.markup_pct,
{
}

/// The change that a request makes to a product is the request, key by key: what it leaves
/// out stays out, and what it clears is cleared.
pub proof fn requests_change_what_they_name(request: UpdateProductRequest, update: UpdateProduct)
    requires
        call_ensures(product_update_from_request, (request,), update),
    ensures
        update.sku == request.sku,
        update.name == request.name,
        update.kind == request.kind,
        update.category_id == request.category_id,
        update.unit == request.unit,
        update.sale_price == request.sale_price,
        update.cost_price == request.cost_price,
        update.track_stock == request.track_stock,
        update.min_stock == request.min_stock,
        update.max_stock == request.max_stock,
        update.location == request.location,
        update.notes == request.notes,
        update.markup_pct == request.markup_pct,
{
}

/// The movement that a request records holds every value of the request, each in its own
/// place; only a reference that the request leaves out is empty.
pub proof fn requests_record_what_they_hold(
    request: CreateMovementRequest,
    movement: NewMovement,
)
    requires
        call_ensures(movement_from_request, (request,), movement),
    ensures
        movement.product_id == request.product_id,
        movement.qty@ == request.qty@,
        movement.movement_type@ == request.movement_type@,
        movement.reason@ == request.reason@,
        request.reference is Some ==> movement.reference@ == request.reference->0@,
        request.reference is None ==> movement.reference@.len() == 0,
        movement.date@ == request.date@,
{
}

/// A key that holds `null` is held, and clears; whatever it holds is kept.
pub proof fn a_null_key_is_no_absent_one<T>(value: Option<T>, held: Option<Option<T>>)
    requires
        call_ensures(double_option::<T>, (value,), held),
    ensures
        held is Some,
        held->0 == value,
{
}

/// A category that there is none of is not found, and the answer names its id.
pub proof fn missing_categories_are_named(id: i64, error: AppError)
    requires
        call_ensures(category_not_found, (id,), error),
    ensures
        error@ == ErrorView::NotFound("category "@ + text::int_text(id as int) + " not found"@),
{
}

} // verus!
