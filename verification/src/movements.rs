//! Stock movements: the list over all products, and the drawer of one.

use std::collections::BTreeMap;

use vstd::prelude::*;
use vstd::string::*;

use crate::amount::Amount;
use crate::date::{Date, DateView};
use crate::documents;
use crate::documents::{DocumentKind, KindLabels};
use crate::drawer;
use crate::drawer::{
    actor_facts, first_fact, push_fact, push_optional_fact, DetailView, DocumentDetail, DrawerLink,
    FactView,
};
use crate::text;
use crate::text::{concat2, concat3, id_text};
use crate::views;

verus! {

broadcast use crate::views::group_views;

/// One movement of a product's stock. It is history: nothing edits or deletes it.
pub struct StockMovement {
    pub id: i64,
    pub product_id: i64,
    pub movement_type: String,
    pub reason: String,
    pub qty: Amount,
    pub reference: String,
    pub date: Date,
    pub created_by: i64,
    pub updated_by: Option<i64>,
}

/// What movements are ordered by: the date, and the id within a day.
pub struct MovementKey {
    pub date: DateView,
    pub id: i64,
}

impl StockMovement {
    /// What the movement is ordered by.
    pub open spec fn key(self) -> MovementKey {
        MovementKey { date: self.date@, id: self.id }
    }
}

/// Whether a movement with key `a` may stand before one with key `b`.
pub open spec fn in_order(a: MovementKey, b: MovementKey) -> bool {
    a.date.before(b.date) || (a.date == b.date && a.id <= b.id)
}

/// Whether the movements stand in order.
pub open spec fn is_ordered(movements: Seq<StockMovement>) -> bool {
    forall|i: int, j: int|
        0 <= i <= j < movements.len() ==> in_order(
            (#[trigger] movements[i]).key(),
            (#[trigger] movements[j]).key(),
        )
}

/// The movements with the key `key`, in the order that they stand.
pub open spec fn with_key(movements: Seq<StockMovement>, key: MovementKey) -> Seq<StockMovement> {
    movements.filter(|m: StockMovement| m.key() == key)
}

/// Whether the two hold the same movements, those of one key in the same order.
pub open spec fn same_movements(a: Seq<StockMovement>, b: Seq<StockMovement>) -> bool {
    forall|key: MovementKey| #[trigger] with_key(a, key) == with_key(b, key)
}

proof fn lemma_with_key_add(a: Seq<StockMovement>, b: Seq<StockMovement>, key: MovementKey)
    ensures
        with_key(a + b, key) == with_key(a, key) + with_key(b, key),
{
    Seq::filter_distributes_over_add(a, b, |m: StockMovement| m.key() == key);
}

proof fn lemma_with_key_none(a: Seq<StockMovement>, key: MovementKey)
    requires
        forall|i: int| 0 <= i < a.len() ==> (#[trigger] a[i]).key() != key,
    ensures
        with_key(a, key) == Seq::<StockMovement>::empty(),
    decreases a.len(),
{
    reveal(Seq::filter);
    if a.len() > 0 {
        lemma_with_key_none(a.drop_last(), key);
    }
    assert(with_key(a, key) =~= Seq::empty());
}

proof fn lemma_with_key_one(m: StockMovement, key: MovementKey)
    ensures
        with_key(seq![m], key) == (if m.key() == key {
            seq![m]
        } else {
            Seq::empty()
        }),
{
    reveal_with_fuel(Seq::<_>::filter, 2);
    assert(seq![m].drop_last() =~= Seq::empty());
    assert(with_key(seq![m], key) =~= (if m.key() == key {
        seq![m]
    } else {
        Seq::empty()
    }));
}

fn may_precede(a: &StockMovement, b: &StockMovement) -> (ordered: bool)
    ensures
        ordered == in_order(a.key(), b.key()),
{
    if a.date.before(&b.date) {
        true
    } else if b.date.before(&a.date) {
        false
    } else {
        a.id <= b.id
    }
}

/// The movements in the opposite order.
fn reversed(movements: Vec<StockMovement>) -> (r: Vec<StockMovement>)
    ensures
        r@ == movements@.reverse(),
{
    let mut rest = movements;
    let mut r: Vec<StockMovement> = Vec::new();
    let ghost all = movements@;
    while rest.len() > 0
        invariant
            rest@ == all.take(rest@.len() as int),
            rest@.len() <= all.len(),
            r@ == all.skip(rest@.len() as int).reverse(),
        decreases rest.len(),
    {
        let ghost before = rest@;
        match rest.pop() {
            Some(m) => {
                r.push(m);
            },
            None => {},
        }
        proof {
            assert(rest@ =~= all.take(rest@.len() as int));
            assert(r@ =~= all.skip(rest@.len() as int).reverse());
        }
    }
    proof {
        assert(all.skip(0) =~= all);
    }
    r
}

/// Moving the last movement of `a` past `b` keeps those of each key in order, where
/// nothing in `b` has its key.
proof fn lemma_take_from_first(
    a: Seq<StockMovement>,
    b: Seq<StockMovement>,
    done: Seq<StockMovement>,
    key: MovementKey,
)
    requires
        a.len() > 0,
        forall|i: int| 0 <= i < b.len() ==> (#[trigger] b[i]).key() != a.last().key(),
    ensures
        with_key(a.drop_last(), key) + with_key(b, key) + with_key(seq![a.last()] + done, key)
            == with_key(a, key) + with_key(b, key) + with_key(done, key),
{
    let x = a.last();
    lemma_with_key_add(seq![x], done, key);
    lemma_with_key_one(x, key);
    lemma_with_key_add(a.drop_last(), seq![x], key);
    assert(a.drop_last() + seq![x] =~= a);
    if x.key() == key {
        lemma_with_key_none(b, key);
    }
    assert(with_key(a.drop_last(), key) + with_key(b, key) + with_key(seq![x] + done, key)
        =~= with_key(a, key) + with_key(b, key) + with_key(done, key));
}

/// Moving the last movement of `b` to the front of `done` keeps those of each key in
/// order.
proof fn lemma_take_from_second(
    a: Seq<StockMovement>,
    b: Seq<StockMovement>,
    done: Seq<StockMovement>,
    key: MovementKey,
)
    requires
        b.len() > 0,
    ensures
        with_key(a, key) + with_key(b.drop_last(), key) + with_key(seq![b.last()] + done, key)
            == with_key(a, key) + with_key(b, key) + with_key(done, key),
{
    let x = b.last();
    lemma_with_key_add(seq![x], done, key);
    lemma_with_key_add(b.drop_last(), seq![x], key);
    assert(b.drop_last() + seq![x] =~= b);
    assert(with_key(a, key) + with_key(b.drop_last(), key) + with_key(seq![x] + done, key)
        =~= with_key(a, key) + with_key(b, key) + with_key(done, key));
}

/// Whether every movement of `a` may stand before every one of `b`.
spec fn all_precede(a: Seq<StockMovement>, b: Seq<StockMovement>) -> bool {
    forall|i: int, j: int|
        0 <= i < a.len() && 0 <= j < b.len() ==> in_order(
            (#[trigger] a[i]).key(),
            (#[trigger] b[j]).key(),
        )
}

/// Whether the lists still to be merged and the one merged so far, backwards, hold
/// together what the two lists held at first.
spec fn merge_holds(
    a: Seq<StockMovement>,
    b: Seq<StockMovement>,
    out: Seq<StockMovement>,
    first: Seq<StockMovement>,
    second: Seq<StockMovement>,
) -> bool {
    forall|key: MovementKey|
        #![trigger with_key(first, key)]
        with_key(a, key) + with_key(b, key) + with_key(out.reverse(), key) == with_key(first, key)
            + with_key(second, key)
}

/// Taking the last movement of `x`, which every other may precede, keeps the order.
proof fn lemma_merge_order(
    x: Seq<StockMovement>,
    y: Seq<StockMovement>,
    out: Seq<StockMovement>,
)
    requires
        x.len() > 0,
        is_ordered(x),
        is_ordered(y),
        is_ordered(out.reverse()),
        all_precede(x, out),
        all_precede(y, out),
        y.len() > 0 ==> in_order(y.last().key(), x.last().key()),
    ensures
        is_ordered(x.drop_last()),
        is_ordered(out.push(x.last()).reverse()),
        all_precede(x.drop_last(), out.push(x.last())),
        all_precede(y, out.push(x.last())),
{
    let m = x.last();
    let longer = out.push(m);
    let r0 = out.reverse();
    let r1 = longer.reverse();
    assert(r1 =~= seq![m] + r0);
    assert forall|i: int, j: int| 0 <= i <= j < r1.len() implies in_order(
        (#[trigger] r1[i]).key(),
        (#[trigger] r1[j]).key(),
    ) by {
        if i == 0 && j > 0 {
            assert(r1[j] == r0[j - 1]);
            assert(r0[j - 1] == out[out.len() - j]);
            assert(x[x.len() - 1] == m);
        } else if i > 0 {
            assert(r1[i] == r0[i - 1] && r1[j] == r0[j - 1]);
        }
    }
    let rest = x.drop_last();
    assert forall|i: int, j: int| 0 <= i < rest.len() && 0 <= j < longer.len() implies in_order(
        (#[trigger] rest[i]).key(),
        (#[trigger] longer[j]).key(),
    ) by {
        assert(rest[i] == x[i]);
        if j == out.len() {
            assert(in_order(x[i].key(), x[x.len() - 1].key()));
        } else {
            assert(longer[j] == out[j]);
        }
    }
    assert forall|i: int, j: int| 0 <= i < y.len() && 0 <= j < longer.len() implies in_order(
        (#[trigger] y[i]).key(),
        (#[trigger] longer[j]).key(),
    ) by {
        if j == out.len() {
            assert(in_order(y[i].key(), y[y.len() - 1].key()));
        } else {
            assert(longer[j] == out[j]);
        }
    }
    assert forall|i: int, j: int| 0 <= i <= j < rest.len() implies in_order(
        (#[trigger] rest[i]).key(),
        (#[trigger] rest[j]).key(),
    ) by {
        assert(rest[i] == x[i] && rest[j] == x[j]);
    }
}

/// Taking the last movement of either list keeps what they hold together.
proof fn lemma_merge_holds(
    a: Seq<StockMovement>,
    b: Seq<StockMovement>,
    out: Seq<StockMovement>,
    first: Seq<StockMovement>,
    second: Seq<StockMovement>,
    from_second: bool,
)
    requires
        merge_holds(a, b, out, first, second),
        from_second ==> b.len() > 0,
        !from_second ==> a.len() > 0,
        !from_second ==> is_ordered(b),
        !from_second && b.len() > 0 ==> !in_order(a.last().key(), b.last().key()),
    ensures
        from_second ==> merge_holds(a, b.drop_last(), out.push(b.last()), first, second),
        !from_second ==> merge_holds(a.drop_last(), b, out.push(a.last()), first, second),
{
    if from_second {
        let longer = out.push(b.last());
        assert(longer.reverse() =~= seq![b.last()] + out.reverse());
        assert forall|key: MovementKey|
            #![trigger with_key(first, key)]
            with_key(a, key) + with_key(b.drop_last(), key) + with_key(longer.reverse(), key)
                == with_key(first, key) + with_key(second, key) by {
            lemma_take_from_second(a, b, out.reverse(), key);
        }
    } else {
        let longer = out.push(a.last());
        assert(longer.reverse() =~= seq![a.last()] + out.reverse());
        assert forall|i: int| 0 <= i < b.len() implies (#[trigger] b[i]).key() != a.last().key() by {
            assert(in_order(b[i].key(), b[b.len() - 1].key()));
        }
        assert forall|key: MovementKey|
            #![trigger with_key(first, key)]
            with_key(a.drop_last(), key) + with_key(b, key) + with_key(longer.reverse(), key)
                == with_key(first, key) + with_key(second, key) by {
            lemma_take_from_first(a, b, out.reverse(), key);
        }
    }
}

/// Merges two ordered lists into one; of equal keys, those of `a` come first.
fn merged(a: Vec<StockMovement>, b: Vec<StockMovement>) -> (r: Vec<StockMovement>)
    requires
        is_ordered(a@),
        is_ordered(b@),
    ensures
        is_ordered(r@),
        same_movements(r@, a@ + b@),
{
    let ghost first = a@;
    let ghost second = b@;
    let mut a = a;
    let mut b = b;
    let mut out: Vec<StockMovement> = Vec::new();
    proof {
        assert(out@.reverse() =~= Seq::empty());
        assert forall|key: MovementKey|
            #![trigger with_key(first, key)]
            with_key(a@, key) + with_key(b@, key) + with_key(out@.reverse(), key) == with_key(
                first,
                key,
            ) + with_key(second, key) by {
            lemma_with_key_none(out@.reverse(), key);
            assert(with_key(a@, key) + with_key(b@, key) + with_key(out@.reverse(), key)
                =~= with_key(first, key) + with_key(second, key));
        }
    }
    while a.len() > 0 || b.len() > 0
        invariant
            is_ordered(a@),
            is_ordered(b@),
            is_ordered(out@.reverse()),
            all_precede(a@, out@),
            all_precede(b@, out@),
            merge_holds(a@, b@, out@, first, second),
        decreases a.len() + b.len(),
    {
        let ghost a0 = a@;
        let ghost b0 = b@;
        let ghost out0 = out@;
        let from_second = if b.len() == 0 {
            false
        } else if a.len() == 0 {
            true
        } else {
            may_precede(&a[a.len() - 1], &b[b.len() - 1])
        };
        let taken = if from_second {
            b.pop()
        } else {
            a.pop()
        };
        match taken {
            Some(m) => {
                out.push(m);
                proof {
                    lemma_merge_holds(a0, b0, out0, first, second, from_second);
                    if from_second {
                        lemma_merge_order(b0, a0, out0);
                        assert(b@ =~= b0.drop_last());
                    } else {
                        lemma_merge_order(a0, b0, out0);
                        assert(a@ =~= a0.drop_last());
                    }
                }
            },
            None => {},
        }
    }
    proof {
        assert forall|key: MovementKey| #[trigger]
            with_key(out@.reverse(), key) == with_key(first + second, key) by {
            lemma_with_key_none(a@, key);
            lemma_with_key_none(b@, key);
            lemma_with_key_add(first, second, key);
            assert(with_key(first, key) + with_key(second, key) =~= with_key(
                out@.reverse(),
                key,
            ));
        }
    }
    reversed(out)
}

/// The movements in the order of their dates, and of their ids within a day; equal
/// ones keep their order.
pub fn sorted_movements(movements: Vec<StockMovement>) -> (r: Vec<StockMovement>)
    ensures
        is_ordered(r@),
        same_movements(r@, movements@),
    decreases movements@.len(),
{
    if movements.len() <= 1 {
        return movements;
    }
    let ghost all = movements@;
    let mut first = movements;
    let half: usize = first.len() / 2;
    let second = first.split_off(half);
    proof {
        assert(first@ + second@ =~= all);
    }
    let a = sorted_movements(first);
    let b = sorted_movements(second);
    let r = merged(a, b);
    proof {
        assert forall|key: MovementKey| #[trigger] with_key(r@, key) == with_key(all, key) by {
            lemma_with_key_add(a@, b@, key);
            lemma_with_key_add(first@, second@, key);
            assert(with_key(a@, key) == with_key(first@, key));
            assert(with_key(b@, key) == with_key(second@, key));
        }
    }
    r
}

/// Two movements that may stand in either order have the same key.
proof fn lemma_keys_antisymmetric(a: MovementKey, b: MovementKey)
    requires
        in_order(a, b),
        in_order(b, a),
    ensures
        a == b,
{
}

proof fn lemma_with_key_last(s: Seq<StockMovement>, key: MovementKey)
    requires
        s.len() > 0,
    ensures
        with_key(s, key) == (if s.last().key() == key {
            with_key(s.drop_last(), key).push(s.last())
        } else {
            with_key(s.drop_last(), key)
        }),
{
    reveal(Seq::filter);
}

proof fn lemma_with_key_found(s: Seq<StockMovement>, key: MovementKey) -> (at: int)
    requires
        with_key(s, key).len() > 0,
    ensures
        0 <= at < s.len(),
        s[at].key() == key,
    decreases s.len(),
{
    if forall|i: int| 0 <= i < s.len() ==> (#[trigger] s[i]).key() != key {
        lemma_with_key_none(s, key);
    }
    choose|i: int| 0 <= i < s.len() && (#[trigger] s[i]).key() == key
}

/// There is only one way to order movements: two ordered lists of the same movements
/// are the same list.
pub proof fn ordered_lists_are_unique(a: Seq<StockMovement>, b: Seq<StockMovement>)
    requires
        is_ordered(a),
        is_ordered(b),
        same_movements(a, b),
    ensures
        a == b,
    decreases a.len() + b.len(),
{
    if a.len() > 0 && b.len() > 0 {
        let k = a.last().key();
        let l = b.last().key();
        lemma_with_key_last(a, k);
        lemma_with_key_last(b, l);
        assert(with_key(b, k) == with_key(a, k));
        assert(with_key(a, l) == with_key(b, l));
        let i = lemma_with_key_found(b, k);
        let j = lemma_with_key_found(a, l);
        assert(in_order(b[i].key(), b[b.len() - 1].key()));
        assert(in_order(a[j].key(), a[a.len() - 1].key()));
        lemma_keys_antisymmetric(k, l);
        assert(with_key(a, k).last() == a.last());
        assert(with_key(b, k).last() == b.last());
        assert forall|key: MovementKey| #[trigger]
            with_key(a.drop_last(), key) == with_key(b.drop_last(), key) by {
            lemma_with_key_last(a, key);
            lemma_with_key_last(b, key);
            assert(with_key(a, key) == with_key(b, key));
            if key == k {
                assert(with_key(a.drop_last(), key) =~= with_key(a, key).drop_last());
                assert(with_key(b.drop_last(), key) =~= with_key(b, key).drop_last());
            }
        }
        ordered_lists_are_unique(a.drop_last(), b.drop_last());
        assert(a.drop_last().push(a.last()) =~= a);
        assert(b.drop_last().push(b.last()) =~= b);
    } else if a.len() > 0 {
        lemma_with_key_last(a, a.last().key());
        assert(with_key(b, a.last().key()) == with_key(a, a.last().key()));
        let i = lemma_with_key_found(b, a.last().key());
    } else if b.len() > 0 {
        lemma_with_key_last(b, b.last().key());
        assert(with_key(a, b.last().key()) == with_key(b, b.last().key()));
        let i = lemma_with_key_found(a, b.last().key());
    } else {
        assert(a =~= b);
    }
}

/// A list that is already in order is left as it is.
pub proof fn sorting_keeps_an_ordered_list(a: Seq<StockMovement>, sorted: Seq<StockMovement>)
    requires
        is_ordered(a),
        is_ordered(sorted),
        same_movements(sorted, a),
    ensures
        sorted == a,
{
    ordered_lists_are_unique(sorted, a);
}

proof fn lemma_count_with_key(s: Seq<StockMovement>, m: StockMovement)
    ensures
        s.to_multiset().count(m) == with_key(s, m.key()).to_multiset().count(m),
    decreases s.len(),
{
    broadcast use vstd::seq_lib::group_to_multiset_ensures;

    if s.len() == 0 {
        lemma_with_key_none(s, m.key());
        assert(s =~= Seq::empty());
    } else {
        let rest = s.drop_last();
        lemma_count_with_key(rest, m);
        lemma_with_key_last(s, m.key());
        assert(s =~= rest.push(s.last()));
    }
}

/// Ordering loses no movement and invents none.
pub proof fn sorting_permutes(a: Seq<StockMovement>, b: Seq<StockMovement>)
    requires
        same_movements(a, b),
    ensures
        a.to_multiset() == b.to_multiset(),
{
    assert forall|m: StockMovement| a.to_multiset().count(m) == b.to_multiset().count(m) by {
        lemma_count_with_key(a, m);
        lemma_count_with_key(b, m);
        assert(with_key(a, m.key()) == with_key(b, m.key()));
    }
    assert(a.to_multiset() =~= b.to_multiset());
}

/// The movements of several products, one product after the other.
pub open spec fn all_of(by_product: Seq<Vec<StockMovement>>) -> Seq<StockMovement>
    decreases by_product.len(),
{
    if by_product.len() == 0 {
        Seq::empty()
    } else {
        all_of(by_product.drop_last()) + by_product.last()@
    }
}

/// The movements of all products in one list, ordered by date and id.
pub fn movements_of_all(by_product: Vec<Vec<StockMovement>>) -> (r: Vec<StockMovement>)
    ensures
        is_ordered(r@),
        same_movements(r@, all_of(by_product@)),
{
    let mut rest = by_product;
    let mut all: Vec<StockMovement> = Vec::new();
    let ghost given = by_product@;
    proof {
        assert(given.take(given.len() as int) =~= given);
        assert(all_of(given) + all@ =~= all_of(given));
    }
    while rest.len() > 0
        invariant
            all_of(rest@) + all@ == all_of(given),
        decreases rest.len(),
    {
        let ghost before = rest@;
        let ghost collected = all@;
        match rest.pop() {
            Some(last) => {
                let mut joined = last;
                joined.append(&mut all);
                all = joined;
                proof {
                    assert(rest@ =~= before.drop_last());
                    assert(all_of(rest@) + all@ =~= all_of(before) + collected);
                }
            },
            None => {},
        }
    }
    proof {
        assert(all@ =~= all_of(given));
    }
    sorted_movements(all)
}

/// The product that a movement moves, as it is now.
pub struct MovedProduct {
    pub name: String,
    pub sku: String,
    pub stock: Amount,
}

/// The facts of a movement, in the order that the drawer lists them.
pub open spec fn movement_facts(
    movement: StockMovement,
    product: MovedProduct,
    names: Map<i64, String>,
) -> Seq<FactView> {
    drawer::one(
        drawer::fact("Producto"@, product.name@ + " ("@ + product.sku@ + ")"@),
    ) + drawer::one(drawer::fact("Tipo"@, movement.movement_type@)) + drawer::one(
        drawer::fact("Motivo"@, movement.reason@),
    ) + drawer::one(drawer::fact("Cantidad"@, movement.qty@.text())) + drawer::one(
        drawer::fact("Referencia"@, movement.reference@),
    ) + drawer::one(drawer::fact("Fecha"@, movement.date@.text())) + drawer::one(
        drawer::fact("Stock actual"@, product.stock@.text()),
    ) + drawer::one(drawer::created_fact(names, movement.created_by)) + views::opt_seq(
        drawer::updated_fact(names, movement.updated_by),
    )
}

/// What the drawer shows of a movement. It offers no action: the history is
/// append-only.
pub open spec fn movement_detail(
    movement: StockMovement,
    product: MovedProduct,
    names: Map<i64, String>,
    labels: KindLabels,
) -> DetailView {
    DetailView {
        kind_token: DocumentKind::StockMovement.url_token(),
        kind_label: labels.of(DocumentKind::StockMovement),
        title: "Movimiento #"@ + text::int_text(movement.id as int),
        status_line: movement.movement_type@ + " · "@ + movement.reason@,
        facts: movement_facts(movement, product, names),
        tables: Seq::empty(),
        parent: None,
        actions: Seq::empty(),
        notice: Some(
            "El movimiento es historia append-only: no se edita ni se elimina. Para compensarlo, registrá un ajuste en el producto."@,
        ),
        links: seq![
            drawer::link(
                "Ver producto"@,
                "/products#product-"@ + text::int_text(movement.product_id as int),
            ),
        ],
    }
}

/// The drawer of a stock movement.
pub fn stock_movement_drawer(
    movement: &StockMovement,
    product: &MovedProduct,
    names: &BTreeMap<i64, String>,
    labels: &KindLabels,
) -> (detail: DocumentDetail)
    ensures
        detail@ == movement_detail(*movement, *product, names@, *labels),
{
    let (created, updated) = actor_facts(names, movement.created_by, movement.updated_by);
    let mut facts = first_fact(
        "Producto",
        concat2(concat3(product.name.as_str(), " (", product.sku.as_str()).as_str(), ")"),
    );
    push_fact(&mut facts, "Tipo", movement.movement_type.clone());
    push_fact(&mut facts, "Motivo", movement.reason.clone());
    push_fact(&mut facts, "Cantidad", movement.qty.text());
    push_fact(&mut facts, "Referencia", movement.reference.clone());
    push_fact(&mut facts, "Fecha", movement.date.text());
    push_fact(&mut facts, "Stock actual", product.stock.text());
    facts.push(created);
    push_optional_fact(&mut facts, updated);
    let mut links: Vec<DrawerLink> = Vec::new();
    links.push(
        DrawerLink {
            label: "Ver producto".to_owned(),
            href: concat2("/products#product-", id_text(movement.product_id).as_str()),
        },
    );
    proof {
        assert(views::views(links@) =~= movement_detail(
            *movement,
            *product,
            names@,
            *labels,
        ).links);
    }
    let tables: Vec<drawer::DrawerTable> = Vec::new();
    let actions: Vec<drawer::DrawerAction> = Vec::new();
    DocumentDetail {
        kind_token: DocumentKind::StockMovement.token().to_owned(),
        kind_label: labels.label(DocumentKind::StockMovement),
        title: concat2("Movimiento #", id_text(movement.id).as_str()),
        status_line: concat3(movement.movement_type.as_str(), " · ", movement.reason.as_str()),
        facts,
        tables,
        parent: None,
        actions,
        notice: Some(
            "El movimiento es historia append-only: no se edita ni se elimina. Para compensarlo, registrá un ajuste en el producto.".to_owned(),
        ),
        links,
    }
}

/// The page that a movement's drawer leads to is one that whoever opened the drawer
/// may open.
pub proof fn movement_drawers_lead_to_readable_pages(
    movement: StockMovement,
    product: MovedProduct,
    names: Map<i64, String>,
    labels: KindLabels,
)
    ensures
        movement_detail(movement, product, names, labels).links.len() == 1,
        movement_detail(movement, product, names, labels).links[0].href == documents::page_address(
            DocumentKind::StockMovement.owner_page(),
            movement.product_id,
        ),
        documents::page_reader(DocumentKind::StockMovement.owner_page())
            == DocumentKind::StockMovement.reader(),
{
}

/// The labels of a movement's facts are all different.
proof fn lemma_movement_labels_differ()
    ensures
        seq![
            "Producto"@,
            "Tipo"@,
            "Motivo"@,
            "Cantidad"@,
            "Referencia"@,
            "Fecha"@,
            "Stock actual"@,
            "Registrado por"@,
            "Actualizado por"@,
        ].no_duplicates(),
{
    reveal_strlit("Producto");
    reveal_strlit("Tipo");
    reveal_strlit("Motivo");
    reveal_strlit("Cantidad");
    reveal_strlit("Referencia");
    reveal_strlit("Fecha");
    reveal_strlit("Stock actual");
    reveal_strlit("Registrado por");
    reveal_strlit("Actualizado por");
    let all = seq![
        "Producto"@,
        "Tipo"@,
        "Motivo"@,
        "Cantidad"@,
        "Referencia"@,
        "Fecha"@,
        "Stock actual"@,
        "Registrado por"@,
        "Actualizado por"@,
    ];
    assert forall|i: int, j: int| 0 <= i < all.len() && 0 <= j < all.len() && i != j implies all[i]
        != all[j] by {
        assert(all[i].len() != all[j].len() || all[i][0] != all[j][0] || all[i][1] != all[j][1]);
    }
}

/// The facts of a movement: what it moved and how much of it, as the movement says, and
/// the product as it is now; each under its own label, once, in this order.
pub proof fn movements_say_what_was_moved(
    movement: StockMovement,
    product: MovedProduct,
    names: Map<i64, String>,
    labels: KindLabels,
)
    ensures
        ({
            let facts = movement_detail(movement, product, names, labels).facts;
            &&& drawer::says_once(
                facts,
                "Producto"@,
                product.name@ + " ("@ + product.sku@ + ")"@,
            )
            &&& drawer::says_once(facts, "Tipo"@, movement.movement_type@)
            &&& drawer::says_once(facts, "Motivo"@, movement.reason@)
            &&& drawer::says_once(facts, "Cantidad"@, movement.qty@.text())
            &&& drawer::says_once(facts, "Referencia"@, movement.reference@)
            &&& drawer::says_once(facts, "Fecha"@, movement.date@.text())
            &&& drawer::says_once(facts, "Stock actual"@, product.stock@.text())
            &&& drawer::says_once(
                facts,
                "Registrado por"@,
                if names.contains_key(movement.created_by) {
                    names[movement.created_by]@
                } else {
                    "(sistema)"@
                },
            )
            &&& movement.updated_by matches Some(id) ==> drawer::says_once(
                facts,
                "Actualizado por"@,
                if names.contains_key(id) {
                    names[id]@
                } else {
                    "(sistema)"@
                },
            )
            &&& drawer::labels_of(facts) == seq!["Producto"@] + seq!["Tipo"@] + seq!["Motivo"@]
                + seq!["Cantidad"@] + seq!["Referencia"@] + seq!["Fecha"@] + seq!["Stock actual"@]
                + seq!["Registrado por"@] + drawer::label_if(
                movement.updated_by is Some,
                "Actualizado por"@,
            )
        }),
{
    broadcast use drawer::group_facts;

    lemma_movement_labels_differ();
}

/// The head and the foot of a movement's drawer: its number, its type and reason, why it
/// cannot be changed, and the product that it moved.
pub proof fn movement_drawers_name_their_movement(
    movement: StockMovement,
    product: MovedProduct,
    names: Map<i64, String>,
    labels: KindLabels,
)
    ensures
        ({
            let detail = movement_detail(movement, product, names, labels);
            &&& detail.kind_token == "stock_movement"@
            &&& detail.kind_label == labels.stock_movement@
            &&& detail.title == "Movimiento #"@ + text::int_text(movement.id as int)
            &&& detail.status_line == movement.movement_type@ + " · "@ + movement.reason@
            &&& detail.tables.len() == 0
            &&& detail.parent is None
            &&& detail.actions.len() == 0
            &&& detail.notice == Some(
                "El movimiento es historia append-only: no se edita ni se elimina. Para compensarlo, registrá un ajuste en el producto."@,
            )
            &&& detail.links.len() == 1
            &&& detail.links[0].label == "Ver producto"@
            &&& detail.links[0].href == "/products#product-"@ + text::int_text(
                movement.product_id as int,
            )
        }),
{
}

/// A day as one number that grows from day to day.
pub open spec fn day_number(d: DateView) -> int {
    10000 * d.year + 100 * d.month + d.day
}

/// The list is by day, and by id within a day.
pub proof fn movements_come_by_day_and_id(
    movements: Vec<StockMovement>,
    sorted: Vec<StockMovement>,
    i: int,
    j: int,
)
    requires
        call_ensures(sorted_movements, (movements,), sorted),
        0 <= i < j < sorted@.len(),
        sorted@[i].date@.exists_in_calendar(),
        sorted@[j].date@.exists_in_calendar(),
    ensures
        day_number(sorted@[i].date@) <= day_number(sorted@[j].date@),
        day_number(sorted@[i].date@) == day_number(sorted@[j].date@) ==> sorted@[i].id
            <= sorted@[j].id,
{
    assert(in_order(sorted@[i].key(), sorted@[j].key()));
}

/// Ordering keeps every movement as often as it was there, brings in no other, and leaves
/// movements of the same day and id as they stood.
pub proof fn ordering_keeps_every_movement(
    movements: Vec<StockMovement>,
    sorted: Vec<StockMovement>,
)
    requires
        call_ensures(sorted_movements, (movements,), sorted),
    ensures
        sorted@.to_multiset() == movements@.to_multiset(),
        sorted@.len() == movements@.len(),
        (forall|i: int, j: int|
            0 <= i < movements@.len() && 0 <= j < movements@.len() ==> (
            #[trigger] movements@[i]).date@ == (#[trigger] movements@[j]).date@
                && movements@[i].id == movements@[j].id) ==> sorted@ == movements@,
{
    broadcast use vstd::seq_lib::group_to_multiset_ensures;

    sorting_permutes(sorted@, movements@);
    assert(sorted@.to_multiset().len() == movements@.to_multiset().len());
    if forall|i: int, j: int|
        0 <= i < movements@.len() && 0 <= j < movements@.len() ==> (
        #[trigger] movements@[i]).date@ == (#[trigger] movements@[j]).date@ && movements@[i].id
            == movements@[j].id {
        sorting_keeps_an_ordered_list(movements@, sorted@);
    }
}

/// The list over all products holds the movements of each: those of one more product come
/// behind the others before all are ordered.
pub proof fn the_list_is_over_all_products(
    by_product: Seq<Vec<StockMovement>>,
    more: Vec<StockMovement>,
)
    ensures
        all_of(Seq::empty()).len() == 0,
        all_of(by_product.push(more)) == all_of(by_product) + more@,
{
    assert(by_product.push(more).drop_last() =~= by_product);
}

/// The list over all products holds every movement of every product, by day and id.
pub proof fn no_movement_is_left_out(
    by_product: Vec<Vec<StockMovement>>,
    listed: Vec<StockMovement>,
    i: int,
    j: int,
)
    requires
        call_ensures(movements_of_all, (by_product,), listed),
        0 <= i < j < listed@.len(),
        listed@[i].date@.exists_in_calendar(),
        listed@[j].date@.exists_in_calendar(),
    ensures
        listed@.to_multiset() == all_of(by_product@).to_multiset(),
        day_number(listed@[i].date@) <= day_number(listed@[j].date@),
        day_number(listed@[i].date@) == day_number(listed@[j].date@) ==> listed@[i].id
            <= listed@[j].id,
{
    sorting_permutes(listed@, all_of(by_product@));
    assert(in_order(listed@[i].key(), listed@[j].key()));
}

} // verus!
