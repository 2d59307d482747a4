//! Products as the screen shows them: the stock rows, the search rows, and the drawer
//! with its supplier costs.

use std::collections::BTreeMap;

use vstd::prelude::*;
use vstd::string::*;

use crate::actors;
use crate::actors::lookup_name;
use crate::amount;
use crate::amount::{Amount, AmountView};
use crate::date::Date;
use crate::localization::LocalizationContext;
use crate::prices::{ladder_refusal_message, ProductKind};
use crate::refusal;
use crate::refusal::PriceRefusal;
use crate::text;
use crate::text::{concat3, id_text, trim};
use crate::views;

verus! {

broadcast use crate::views::group_views;

/// A product.
pub struct Product {
    pub id: i64,
    pub sku: String,
    pub name: String,
    pub kind: ProductKind,
    pub category_id: Option<i64>,
    pub unit: String,
    pub sale_price: Amount,
    pub cost_price: Amount,
    pub markup_pct: Option<Amount>,
    pub track_stock: bool,
    pub min_stock: Option<Amount>,
    pub max_stock: Option<Amount>,
    pub location: Option<String>,
    pub notes: Option<String>,
    pub is_active: bool,
    pub created_by: i64,
    pub updated_by: Option<i64>,
}

/// A product with its stock.
pub struct ProductStock {
    pub product: Product,
    pub stock: Amount,
    pub suggested: Option<Amount>,
}

/// The display name of whoever last changed a record, where anybody did.
pub open spec fn editor_name(names: Map<i64, String>, updated_by: Option<i64>) -> Option<
    Seq<char>,
> {
    match updated_by {
        Some(id) => actors::name_of(names, id),
        None => None,
    }
}

fn lookup_editor(names: &BTreeMap<i64, String>, updated_by: Option<i64>) -> (name: Option<String>)
    ensures
        views::opt_view(name) == editor_name(names@, updated_by),
{
    match updated_by {
        Some(id) => lookup_name(names, id),
        None => None,
    }
}

/// One row of the low or negative stock list, with the names resolved.
pub struct StockRow {
    pub ps: ProductStock,
    pub created_by_name: Option<String>,
    pub updated_by_name: Option<String>,
}

/// Whoever last changed each item, as far as anybody did.
pub open spec fn editors(items: Seq<ProductStock>) -> Seq<i64> {
    items.filter_map(|ps: ProductStock| ps.product.updated_by)
}

/// The users that a stock list names: whoever recorded each product, then whoever last
/// changed one.
pub open spec fn stock_actors(items: Seq<ProductStock>) -> Seq<i64> {
    items.map_values(|ps: ProductStock| ps.product.created_by) + editors(items)
}

/// The users that a stock list names.
pub fn stock_actor_ids(items: &[ProductStock]) -> (ids: Vec<i64>)
    ensures
        ids@ == stock_actors(items@),
{
    let ghost creators = items@.map_values(|ps: ProductStock| ps.product.created_by);
    let mut ids: Vec<i64> = Vec::new();
    let mut i: usize = 0;
    while i < items.len()
        invariant
            i <= items.len(),
            creators == items@.map_values(|ps: ProductStock| ps.product.created_by),
            ids@ == creators.take(i as int),
        decreases items.len() - i,
    {
        ids.push(items[i].product.created_by);
        i = i + 1;
        proof {
            assert(ids@ =~= creators.take(i as int));
        }
    }
    let mut j: usize = 0;
    proof {
        assert(creators.take(i as int) =~= creators);
        assert(editors(items@.take(0)) =~= Seq::empty());
        assert(ids@ =~= creators + editors(items@.take(0)));
    }
    while j < items.len()
        invariant
            j <= items.len(),
            ids@ == creators + editors(items@.take(j as int)),
        decreases items.len() - j,
    {
        match items[j].product.updated_by {
            Some(id) => {
                ids.push(id);
            },
            None => {},
        }
        j = j + 1;
        proof {
            assert(items@.take(j as int).drop_last() =~= items@.take(j - 1));
            assert(ids@ =~= creators + editors(items@.take(j as int)));
        }
    }
    proof {
        assert(items@.take(j as int) =~= items@);
    }
    ids
}

/// Whether `row` is what the list shows of an item.
pub open spec fn is_stock_row(row: StockRow, item: ProductStock, names: Map<i64, String>) -> bool {
    &&& row.ps == item
    &&& views::opt_view(row.created_by_name) == actors::name_of(names, item.product.created_by)
    &&& views::opt_view(row.updated_by_name) == editor_name(names, item.product.updated_by)
}

/// The rows of a stock list, in the order of the items.
pub fn stock_rows(items: Vec<ProductStock>, names: &BTreeMap<i64, String>) -> (rows: Vec<StockRow>)
    ensures
        rows@.len() == items@.len(),
        forall|i: int|
            0 <= i < rows@.len() ==> is_stock_row(#[trigger] rows@[i], items@[i], names@),
{
    let ghost all = items@;
    let mut rows: Vec<StockRow> = Vec::new();
    for ps in it: items
        invariant
            it.seq() == all,
            rows@.len() == it.index(),
            forall|i: int|
                0 <= i < rows@.len() ==> is_stock_row(#[trigger] rows@[i], all[i], names@),
    {
        let created_by_name = lookup_name(names, ps.product.created_by);
        let updated_by_name = lookup_editor(names, ps.product.updated_by);
        rows.push(StockRow { ps, created_by_name, updated_by_name });
    }
    rows
}

/// The figures of a product, written in the locale of the request.
pub struct LocalizedFigures {
    pub sale_price: String,
    pub cost_price: String,
    pub stock: String,
}

/// One row of the product picker.
pub struct ProductSearchRow {
    pub id: i64,
    pub name: String,
    pub sku: String,
    pub sale_price: String,
    pub cost_price: String,
    pub stock: String,
}

/// The row of the picker for a product: exactly what the picker shows, with the
/// figures as the locale writes them.
pub fn search_row(ps: ProductStock, figures: LocalizedFigures) -> (row: ProductSearchRow)
    ensures
        row.id == ps.product.id,
        row.name == ps.product.name,
        row.sku == ps.product.sku,
        row.sale_price == figures.sale_price,
        row.cost_price == figures.cost_price,
        row.stock == figures.stock,
{
    ProductSearchRow {
        id: ps.product.id,
        name: ps.product.name,
        sku: ps.product.sku,
        sale_price: figures.sale_price,
        cost_price: figures.cost_price,
        stock: figures.stock,
    }
}

/// The search text as the picker is told it.
pub fn echoed_query(raw: &str) -> (query: String)
    ensures
        query@ == text::trimmed(raw@),
{
    trim(raw).to_owned()
}

/// What a supplier asks for a product.
pub struct ProductSupplierCost {
    pub supplier_id: i64,
    pub cost: Amount,
    pub date: Date,
    pub is_preferred: bool,
}

/// A supplier.
pub struct Supplier {
    pub id: i64,
    pub name: String,
}

/// A supplier's cost, with the supplier's name.
pub struct ProductCostView {
    pub cost: ProductSupplierCost,
    pub supplier_name: String,
}

/// The supplier with this id, the first of several.
pub open spec fn supplier_of(suppliers: Seq<Supplier>, id: i64) -> Option<Supplier>
    decreases suppliers.len(),
{
    if suppliers.len() == 0 {
        None
    } else if suppliers[0].id == id {
        Some(suppliers[0])
    } else {
        supplier_of(suppliers.drop_first(), id)
    }
}

/// The name of a supplier, or the word for one with the id.
pub open spec fn supplier_name(suppliers: Seq<Supplier>, id: i64, word: Seq<char>) -> Seq<char> {
    match supplier_of(suppliers, id) {
        Some(supplier) => supplier.name@,
        None => word + " #"@ + text::int_text(id as int),
    }
}

fn name_supplier(suppliers: &[Supplier], id: i64, word: &str) -> (name: String)
    ensures
        name@ == supplier_name(suppliers@, id, word@),
{
    let mut i: usize = 0;
    proof {
        assert(suppliers@.skip(0) =~= suppliers@);
    }
    while i < suppliers.len()
        invariant
            i <= suppliers.len(),
            supplier_of(suppliers@, id) == supplier_of(suppliers@.skip(i as int), id),
        decreases suppliers.len() - i,
    {
        proof {
            assert(suppliers@.skip(i as int)[0] == suppliers@[i as int]);
            assert(suppliers@.skip(i as int).drop_first() =~= suppliers@.skip(i + 1));
        }
        if suppliers[i].id == id {
            return suppliers[i].name.clone();
        }
        i = i + 1;
    }
    concat3(word, " #", id_text(id).as_str())
}

/// The costs with the names of their suppliers, in the same order. `word` is the
/// locale's word for a supplier.
pub fn supplier_costs(costs: Vec<ProductSupplierCost>, suppliers: &[Supplier], word: &str) -> (shown:
    Vec<ProductCostView>)
    ensures
        shown@.len() == costs@.len(),
        forall|i: int|
            0 <= i < shown@.len() ==> {
                &&& (#[trigger] shown@[i]).cost == costs@[i]
                &&& shown@[i].supplier_name@ == supplier_name(
                    suppliers@,
                    costs@[i].supplier_id,
                    word@,
                )
            },
{
    let ghost all = costs@;
    let mut shown: Vec<ProductCostView> = Vec::new();
    for cost in it: costs
        invariant
            it.seq() == all,
            shown@.len() == it.index(),
            forall|i: int|
                0 <= i < shown@.len() ==> {
                    &&& (#[trigger] shown@[i]).cost == all[i]
                    &&& shown@[i].supplier_name@ == supplier_name(
                        suppliers@,
                        all[i].supplier_id,
                        word@,
                    )
                },
    {
        let name = name_supplier(suppliers, cost.supplier_id, word);
        shown.push(ProductCostView { cost, supplier_name: name });
    }
    shown
}

/// A stored cost that no longer is what the suppliers ask.
#[derive(Clone, Copy)]
pub struct StaleCostView {
    pub reference: Amount,
    pub stored: Amount,
}

/// Whether a stored cost is stale: there is a reference to compare with, a cost was
/// ever recorded (zero is none), and the two differ.
pub open spec fn is_stale(reference: Option<AmountView>, stored: AmountView) -> bool {
    match reference {
        Some(r) => !stored.equals(amount::zero_amount()) && !r.equals(stored),
        None => false,
    }
}

/// The stored cost against the reference of the suppliers, where it is stale.
pub fn stale_cost(reference: Option<Amount>, stored: Amount) -> (stale: Option<StaleCostView>)
    ensures
        stale is Some <==> is_stale(views::opt_view(reference), stored@),
        stale matches Some(s) ==> Some(s.reference) == reference && s.stored == stored,
{
    match reference {
        Some(r) => {
            if !stored.equals(&Amount::zero()) && !r.equals(&stored) {
                Some(StaleCostView { reference: r, stored })
            } else {
                None
            }
        },
        None => None,
    }
}

/// What the product drawer shows, besides what it is given whole.
pub struct ProductDetail {
    pub product: Product,
    pub stock: Amount,
    pub suggested: Option<Amount>,
    pub created_by_name: Option<String>,
    pub updated_by_name: Option<String>,
    pub supplier_costs: Vec<ProductCostView>,
    pub suppliers: Vec<Supplier>,
    pub stale_cost: Option<StaleCostView>,
    pub net_refusal_message: Option<String>,
}

/// What a product drawer is made from: the product, its suppliers' costs, the reference
/// among them, and the refusal that its price ladder states.
pub struct ProductFacts {
    pub ps: ProductStock,
    pub suppliers: Vec<Supplier>,
    pub costs: Vec<ProductSupplierCost>,
    pub reference_cost: Option<Amount>,
    pub net_refusal: Option<PriceRefusal>,
}

/// The product drawer. `supplier_word` is the locale's word for a supplier.
pub fn product_detail(
    facts: ProductFacts,
    names: &BTreeMap<i64, String>,
    supplier_word: &str,
    localization: &LocalizationContext,
) -> (detail: ProductDetail)
    ensures
        detail.product == facts.ps.product,
        detail.stock == facts.ps.stock,
        detail.suggested == facts.ps.suggested,
        views::opt_view(detail.created_by_name) == actors::name_of(
            names@,
            facts.ps.product.created_by,
        ),
        views::opt_view(detail.updated_by_name) == editor_name(
            names@,
            facts.ps.product.updated_by,
        ),
        detail.supplier_costs@.len() == facts.costs@.len(),
        forall|i: int|
            0 <= i < detail.supplier_costs@.len() ==> {
                &&& (#[trigger] detail.supplier_costs@[i]).cost == facts.costs@[i]
                &&& detail.supplier_costs@[i].supplier_name@ == supplier_name(
                    facts.suppliers@,
                    facts.costs@[i].supplier_id,
                    supplier_word@,
                )
            },
        detail.suppliers == facts.suppliers,
        detail.stale_cost is Some <==> is_stale(
            views::opt_view(facts.reference_cost),
            facts.ps.product.cost_price@,
        ),
        detail.stale_cost matches Some(s) ==> Some(s.reference) == facts.reference_cost && s.stored
            == facts.ps.product.cost_price,
        views::opt_view(detail.net_refusal_message) == (match facts.net_refusal {
            Some(r) => Some(localization.sentence(refusal::refusal_key(r))),
            None => None,
        }),
{
    let created_by_name = lookup_name(names, facts.ps.product.created_by);
    let updated_by_name = lookup_editor(names, facts.ps.product.updated_by);
    let stale = stale_cost(facts.reference_cost, facts.ps.product.cost_price);
    let message = ladder_refusal_message(&facts.net_refusal, localization);
    let named_costs = supplier_costs(facts.costs, &facts.suppliers, supplier_word);
    ProductDetail {
        product: facts.ps.product,
        stock: facts.ps.stock,
        suggested: facts.ps.suggested,
        created_by_name,
        updated_by_name,
        supplier_costs: named_costs,
        suppliers: facts.suppliers,
        stale_cost: stale,
        net_refusal_message: message,
    }
}

/// A cost is fresh where no supplier gives a reference, where none was ever recorded,
/// and where it is the reference.
pub proof fn fresh_costs_are_never_flagged(reference: Option<AmountView>, stored: AmountView)
    requires
        reference is None || stored.equals(amount::zero_amount()) || reference == Some(stored),
    ensures
        !is_stale(reference, stored),
{
}

/// A stored cost is stale exactly where the suppliers give a reference, the stored cost is
/// not zero, and one of the two is the larger number.
pub proof fn stale_costs_differ_from_the_reference(
    reference: Option<AmountView>,
    stored: AmountView,
)
    ensures
        is_stale(reference, stored) <==> reference is Some && stored.magnitude != 0 && (
        amount::larger(reference->0, stored) || amount::larger(stored, reference->0)),
{
    let zero = amount::zero_amount();
    assert(amount::pow10(0) == 1);
    let n = stored.numerator();
    let p = amount::pow10(stored.scale) as int;
    assert(n * 1 == n && 0 * p == 0) by (nonlinear_arith);
    assert(stored.equals(zero) <==> stored.magnitude == 0);
    if reference is Some {
        amount::amounts_compare_as_numbers(reference->0, stored);
    }
}

/// What is shown of a stale cost is the reference and the stored cost, each in its place.
pub proof fn stale_costs_show_both_numbers(
    reference: Option<Amount>,
    stored: Amount,
    shown: Option<StaleCostView>,
)
    requires
        call_ensures(stale_cost, (reference, stored), shown),
    ensures
        shown is Some <==> reference is Some && stored@.magnitude != 0 && (amount::larger(
            reference->0@,
            stored@,
        ) || amount::larger(stored@, reference->0@)),
        shown is Some ==> shown->0.reference == reference->0 && shown->0.stored == stored,
{
    stale_costs_differ_from_the_reference(views::opt_view(reference), stored@);
}

proof fn lemma_supplier_of(suppliers: Seq<Supplier>, id: i64)
    ensures
        match supplier_of(suppliers, id) {
            Some(found) => exists|k: int|
                0 <= k < suppliers.len() && #[trigger] suppliers[k] == found && found.id == id
                    && forall|h: int| 0 <= h < k ==> (#[trigger] suppliers[h]).id != id,
            None => forall|h: int| 0 <= h < suppliers.len() ==> (#[trigger] suppliers[h]).id != id,
        },
    decreases suppliers.len(),
{
    if suppliers.len() > 0 {
        if suppliers[0].id == id {
            assert(suppliers[0] == supplier_of(suppliers, id)->0);
        } else {
            let rest = suppliers.drop_first();
            lemma_supplier_of(rest, id);
            match supplier_of(rest, id) {
                Some(found) => {
                    let k = choose|k: int|
                        0 <= k < rest.len() && #[trigger] rest[k] == found && found.id == id
                            && forall|h: int| 0 <= h < k ==> (#[trigger] rest[h]).id != id;
                    assert(suppliers[k + 1] == found);
                    assert forall|h: int| 0 <= h < k + 1 implies (#[trigger] suppliers[h]).id
                        != id by {
                        if h > 0 {
                            assert(rest[h - 1].id != id);
                        }
                    }
                },
                None => {
                    assert forall|h: int| 0 <= h < suppliers.len() implies (
                    #[trigger] suppliers[h]).id != id by {
                        if h > 0 {
                            assert(rest[h - 1].id != id);
                        }
                    }
                },
            }
        }
    }
}

/// A supplier goes by the name of the first one with the id, and by the word and the id
/// where there is none.
pub proof fn suppliers_go_by_their_name(suppliers: Seq<Supplier>, id: i64, word: Seq<char>, at: int)
    ensures
        0 <= at < suppliers.len() && suppliers[at].id == id && (forall|h: int|
            0 <= h < at ==> (#[trigger] suppliers[h]).id != id) ==> supplier_name(
            suppliers,
            id,
            word,
        ) == suppliers[at].name@,
        (forall|h: int| 0 <= h < suppliers.len() ==> (#[trigger] suppliers[h]).id != id)
            ==> supplier_name(suppliers, id, word) == word + " #"@ + text::int_text(id as int),
{
    lemma_supplier_of(suppliers, id);
}

/// What a stock list shows of an item: the item, and the names of whoever recorded it and
/// of whoever last changed it, each where it is known.
pub proof fn stock_rows_name_their_writers(
    row: StockRow,
    item: ProductStock,
    names: Map<i64, String>,
)
    requires
        is_stock_row(row, item, names),
    ensures
        row.ps == item,
        row.created_by_name is Some <==> names.contains_key(item.product.created_by),
        row.created_by_name is Some ==> row.created_by_name->0@
            == names[item.product.created_by]@,
        row.updated_by_name is Some <==> item.product.updated_by is Some && names.contains_key(
            item.product.updated_by->0,
        ),
        row.updated_by_name is Some ==> row.updated_by_name->0@
            == names[item.product.updated_by->0]@,
{
}

/// How many of the first `n` items were ever changed.
pub open spec fn changed_before(items: Seq<ProductStock>, n: int) -> int
    decreases n,
{
    if n <= 0 {
        0
    } else {
        changed_before(items, n - 1) + (if items[n - 1].product.updated_by is Some {
            1int
        } else {
            0
        })
    }
}

proof fn lemma_editors(items: Seq<ProductStock>, n: int)
    requires
        0 <= n <= items.len(),
    ensures
        editors(items.take(n)).len() == changed_before(items, n),
        forall|i: int|
            #![trigger items[i]]
            0 <= i < n && items[i].product.updated_by is Some ==> 0 <= changed_before(items, i)
                < changed_before(items, n) && editors(items.take(n))[changed_before(items, i)]
                == items[i].product.updated_by->0,
    decreases n,
{
    if n == 0 {
        assert(items.take(0) =~= Seq::empty());
    } else {
        lemma_editors(items, n - 1);
        assert(items.take(n).drop_last() =~= items.take(n - 1));
        assert(items.take(n).last() == items[n - 1]);
        let before = editors(items.take(n - 1));
        let all = editors(items.take(n));
        assert forall|i: int|
            #![trigger items[i]]
            0 <= i < n && items[i].product.updated_by is Some implies 0 <= changed_before(items, i)
            < changed_before(items, n) && all[changed_before(items, i)]
            == items[i].product.updated_by->0 by {
            if i < n - 1 {
                assert(all[changed_before(items, i)] == before[changed_before(items, i)]);
            }
        }
    }
}

/// The users that a stock list names: whoever recorded each item, in the order of the
/// items, and behind them whoever changed one, in the same order.
pub proof fn stock_lists_name_every_writer(items: Seq<ProductStock>)
    ensures
        stock_actors(items).len() == items.len() + changed_before(items, items.len() as int),
        forall|i: int|
            #![trigger items[i]]
            0 <= i < items.len() ==> stock_actors(items)[i] == items[i].product.created_by,
        forall|i: int|
            #![trigger items[i]]
            0 <= i < items.len() && items[i].product.updated_by is Some ==> stock_actors(
                items,
            )[items.len() + changed_before(items, i)] == items[i].product.updated_by->0,
{
    lemma_editors(items, items.len() as int);
    assert(items.take(items.len() as int) =~= items);
}

/// A row of the picker shows the product's own id, name and SKU, and each figure as the
/// locale writes it.
pub proof fn picker_rows_are_their_product(
    ps: ProductStock,
    figures: LocalizedFigures,
    row: ProductSearchRow,
)
    requires
        call_ensures(search_row, (ps, figures), row),
    ensures
        row.id == ps.product.id,
        row.name@ == ps.product.name@,
        row.sku@ == ps.product.sku@,
        row.sale_price@ == figures.sale_price@,
        row.cost_price@ == figures.cost_price@,
        row.stock@ == figures.stock@,
{
}

/// The product drawer shows the product that it is about: its figures, the names of its
/// writers, every supplier's cost in order under the supplier's name, whether the stored
/// cost is stale, and the refusal of its price ladder in the language of the request.
pub proof fn product_drawers_show_their_product(
    facts: ProductFacts,
    names: &BTreeMap<i64, String>,
    supplier_word: &str,
    localization: &LocalizationContext,
    detail: ProductDetail,
)
    requires
        call_ensures(product_detail, (facts, names, supplier_word, localization), detail),
    ensures
        detail.product == facts.ps.product,
        detail.stock@ == facts.ps.stock@,
        detail.suggested == facts.ps.suggested,
        detail.created_by_name is Some <==> names@.contains_key(facts.ps.product.created_by),
        detail.created_by_name is Some ==> detail.created_by_name->0@
            == names@[facts.ps.product.created_by]@,
        detail.updated_by_name is Some <==> facts.ps.product.updated_by is Some
            && names@.contains_key(facts.ps.product.updated_by->0),
        detail.updated_by_name is Some ==> detail.updated_by_name->0@
            == names@[facts.ps.product.updated_by->0]@,
        detail.suppliers@ == facts.suppliers@,
        detail.supplier_costs@.len() == facts.costs@.len(),
        forall|i: int|
            0 <= i < facts.costs@.len() ==> (#[trigger] detail.supplier_costs@[i]).cost
                == facts.costs@[i],
        forall|i: int, k: int|
            #![trigger detail.supplier_costs@[i], facts.suppliers@[k]]
            0 <= i < facts.costs@.len() && 0 <= k < facts.suppliers@.len()
                && facts.suppliers@[k].id == facts.costs@[i].supplier_id && (forall|h: int|
                0 <= h < k ==> (#[trigger] facts.suppliers@[h]).id != facts.costs@[i].supplier_id)
                ==> detail.supplier_costs@[i].supplier_name@ == facts.suppliers@[k].name@,
        detail.stale_cost is Some <==> facts.reference_cost is Some
            && facts.ps.product.cost_price@.magnitude != 0 && (amount::larger(
            facts.reference_cost->0@,
            facts.ps.product.cost_price@,
        ) || amount::larger(facts.ps.product.cost_price@, facts.reference_cost->0@)),
        detail.stale_cost is Some ==> detail.stale_cost->0.reference == facts.reference_cost->0
            && detail.stale_cost->0.stored == facts.ps.product.cost_price,
        detail.net_refusal_message is Some <==> facts.net_refusal is Some,
        facts.net_refusal is Some ==> detail.net_refusal_message->0@ == localization.sentence(
            refusal::refusal_key(facts.net_refusal->0),
        ),
{
    stale_costs_differ_from_the_reference(
        views::opt_view(facts.reference_cost),
        facts.ps.product.cost_price@,
    );
    assert forall|i: int, k: int|
        #![trigger detail.supplier_costs@[i], facts.suppliers@[k]]
        0 <= i < facts.costs@.len() && 0 <= k < facts.suppliers@.len() && facts.suppliers@[k].id
            == facts.costs@[i].supplier_id && (forall|h: int|
            0 <= h < k ==> (#[trigger] facts.suppliers@[h]).id
                != facts.costs@[i].supplier_id) implies detail.supplier_costs@[i].supplier_name@
        == facts.suppliers@[k].name@ by {
        suppliers_go_by_their_name(
            facts.suppliers@,
            facts.costs@[i].supplier_id,
            supplier_word@,
            k,
        );
    }
}

/// The search text that the picker is told is the one that was typed, without the white
/// space around it.
pub proof fn the_picker_hears_what_was_typed(raw: &str, query: String)
    requires
        call_ensures(echoed_query, (raw,), query),
    ensures
        query@ == text::trimmed(raw@),
{
}

} // verus!
