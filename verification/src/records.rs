//! Sales and purchases in the drawer: their facts, their tables, and the actions
//! that their state and the principal's permissions allow.

use std::collections::BTreeMap;

use vstd::prelude::*;
use vstd::string::*;

use crate::amount::Amount;
use crate::date::Date;
use crate::documents;
use crate::documents::{DocumentKind, KindLabels};
use crate::drawer;
use crate::drawer::{
    actor_facts, cells4, cells5, document_title, edit_affordance_link, edit_affordance_notice,
    first_fact, push_fact, push_optional_fact, ActionView, DetailView, DocumentDetail, DrawerAction,
    DrawerFact, DrawerTable, DrawerTableRow, FactView, TableRowView, TableView,
};
use crate::permission::{Permission, Principal};
use crate::text;
use crate::text::{concat2, concat3, concat5, count_text, id_text};
use crate::views;

verus! {

broadcast use crate::views::group_views;

/// Where a sale or a purchase stands.
#[derive(Clone, Copy, Debug, PartialEq, Eq, Structural)]
pub enum DocumentStatus {
    Draft,
    Confirmed,
    Cancelled,
}

impl DocumentStatus {
    /// The name of the status.
    pub open spec fn text(self) -> Seq<char> {
        match self {
            DocumentStatus::Draft => "Draft"@,
            DocumentStatus::Confirmed => "Confirmed"@,
            DocumentStatus::Cancelled => "Cancelled"@,
        }
    }

    /// The name of the status.
    pub fn name(self) -> (name: &'static str)
        ensures
            name@ == self.text(),
    {
        match self {
            DocumentStatus::Draft => "Draft",
            DocumentStatus::Confirmed => "Confirmed",
            DocumentStatus::Cancelled => "Cancelled",
        }
    }
}

/// One line of a sale or a purchase, with the names resolved. The unit value is the
/// price of a sale and the cost of a purchase.
pub struct RecordLine {
    pub product_id: i64,
    pub product_name: String,
    pub product_sku: String,
    pub qty: Amount,
    pub unit_value: Amount,
    pub subtotal: Amount,
    /// Whether confirming and cancelling the line move stock.
    pub tracks_stock: bool,
}

/// One payment of a sale or a purchase, with the names resolved.
pub struct RecordPayment {
    pub id: i64,
    pub date: Date,
    pub account_name: String,
    pub method_name: String,
    pub amount: Amount,
}

/// A sale or a purchase with its lines, its payments and what they come to. The
/// party is the customer or the supplier; the reference is the receipt number or the
/// supplier's invoice number.
pub struct Record {
    pub id: i64,
    pub number: Option<String>,
    pub party_id: i64,
    pub party_name: String,
    pub payment_type: String,
    pub date: Date,
    pub due_date: Option<Date>,
    pub reference_no: Option<String>,
    pub notes: String,
    pub cancel_reason: Option<String>,
    pub status: DocumentStatus,
    pub created_by: i64,
    pub updated_by: Option<i64>,
    pub lines: Vec<RecordLine>,
    pub payments: Vec<RecordPayment>,
    pub total: Amount,
    pub paid: Amount,
    pub due: Amount,
    pub payment_status: String,
}

/// Which of the two a record is.
#[derive(Clone, Copy, Debug, PartialEq, Eq, Structural)]
pub enum Side {
    Sale,
    Purchase,
}

impl Side {
    /// The family of documents.
    pub open spec fn kind(self) -> DocumentKind {
        match self {
            Side::Sale => DocumentKind::Sale,
            Side::Purchase => DocumentKind::Purchase,
        }
    }

    /// The permission to make drafts, and so to delete one.
    pub open spec fn creator(self) -> Permission {
        match self {
            Side::Sale => Permission::SalesCreate,
            Side::Purchase => Permission::PurchasesCreate,
        }
    }

    /// The permission to cancel.
    pub open spec fn canceller(self) -> Permission {
        match self {
            Side::Sale => Permission::SalesCancel,
            Side::Purchase => Permission::PurchasesCancel,
        }
    }

    /// The address under which a draft is deleted.
    pub open spec fn delete_prefix(self) -> Seq<char> {
        match self {
            Side::Sale => "/web/sales/"@,
            Side::Purchase => "/web/purchases/"@,
        }
    }

    /// The address that cancels.
    pub open spec fn cancel_path(self) -> Seq<char> {
        match self {
            Side::Sale => "/web/sales/cancel"@,
            Side::Purchase => "/web/purchases/cancel"@,
        }
    }

    /// The field that carries the id to the cancel address.
    pub open spec fn id_field(self) -> Seq<char> {
        match self {
            Side::Sale => "sale_id"@,
            Side::Purchase => "purchase_id"@,
        }
    }

    /// The address of the record page.
    pub open spec fn page_prefix(self) -> Seq<char> {
        match self {
            Side::Sale => "/sales/"@,
            Side::Purchase => "/purchases/"@,
        }
    }

    /// How the sentence on a returned line ends.
    pub open spec fn return_ending(self) -> Seq<char> {
        match self {
            Side::Sale => ") con un movimiento In · Sale-return."@,
            Side::Purchase => ") con un movimiento Out · Purchase-return."@,
        }
    }

    /// How the sentence on a refunded payment ends.
    pub open spec fn refund_ending(self) -> Seq<char> {
        match self {
            Side::Sale => "» con un asiento Expense."@,
            Side::Purchase => "» con un asiento Income."@,
        }
    }

    /// What cancelling does to the debt.
    pub open spec fn debt_sentence(self) -> Seq<char> {
        match self {
            Side::Sale => "El documento pasa a Anulado y deja de contar como deuda del cliente."@,
            Side::Purchase =>
                "El documento pasa a Anulado y deja de contar como deuda con el proveedor."@,
        }
    }

    /// The label of the party.
    pub open spec fn party_label(self) -> Seq<char> {
        match self {
            Side::Sale => "Cliente"@,
            Side::Purchase => "Proveedor"@,
        }
    }

    /// The label of the reference number.
    pub open spec fn reference_label(self) -> Seq<char> {
        match self {
            Side::Sale => "Recibo"@,
            Side::Purchase => "Factura del proveedor"@,
        }
    }

    /// The header of the unit values.
    pub open spec fn unit_header(self) -> Seq<char> {
        match self {
            Side::Sale => "Precio unit."@,
            Side::Purchase => "Costo unit."@,
        }
    }
}

/// A product as it is now: the one that a tracked line moves.
pub struct LineProduct {
    pub name: String,
    pub is_active: bool,
}

/// The lines that move stock.
pub open spec fn stocked(lines: Seq<RecordLine>) -> Seq<RecordLine> {
    lines.filter(|line: RecordLine| line.tracks_stock)
}

/// Whether the preview of a cancellation is shown.
pub open spec fn previews_cancellation(side: Side, principal: Principal, record: Record) -> bool {
    record.status is Confirmed && principal.holds(side.canceller())
}

/// The products whose present state the preview of a cancellation needs, line by line.
pub open spec fn needed_products(side: Side, principal: Principal, record: Record) -> Seq<i64> {
    if previews_cancellation(side, principal, record) {
        stocked(record.lines@).map_values(|line: RecordLine| line.product_id)
    } else {
        Seq::empty()
    }
}

/// The action that deletes a draft.
pub open spec fn delete_action(side: Side, record: Record) -> ActionView {
    let n = text::nat_text(record.lines@.len());
    ActionView {
        label: "Eliminar borrador"@,
        method: "delete"@,
        path: side.delete_prefix() + text::int_text(record.id as int),
        fields: Seq::empty(),
        reason: false,
        impact: seq![
            "Se elimina el borrador y sus "@ + n + " líneas (listadas arriba)."@,
            "Nunca se confirmó: no dejó movimientos de stock, ni pagos, ni asientos de caja."@,
        ],
        confirm: Some(
            "¿Eliminar el borrador y sus "@ + n
                + " líneas? Esta acción no se puede deshacer."@,
        ),
    }
}

/// The action that cancels a draft.
pub open spec fn discard_action(side: Side, record: Record) -> ActionView {
    ActionView {
        label: "Descartar"@,
        method: "post"@,
        path: side.cancel_path(),
        fields: seq![(side.id_field(), text::int_text(record.id as int))],
        reason: true,
        impact: seq![
            "El borrador pasa a Anulado y deja de aparecer como editable."@,
            "No hay stock, ni pagos, ni asientos que revertir."@,
        ],
        confirm: None,
    }
}

/// What cancelling does to one tracked line: its stock comes back, or the product is
/// inactive and the cancellation will be refused.
pub open spec fn line_impact(side: Side, line: RecordLine, product: LineProduct) -> Seq<char> {
    if product.is_active {
        "Se devuelve el stock de «"@ + line.product_name@ + "» ("@ + line.qty@.text()
            + side.return_ending()
    } else {
        "No se puede anular: el producto «"@ + product.name@ + "» está inactivo."@
    }
}

/// What cancelling does to one payment.
pub open spec fn payment_impact(side: Side, payment: RecordPayment) -> Seq<char> {
    "Se reembolsa «"@ + payment.amount@.text() + "» en «"@ + payment.account_name@
        + side.refund_ending()
}

/// The caveat on accounts that a refund would leave negative. Only a sale's refund
/// takes money out.
pub open spec fn balance_caveat(side: Side, allow_negative: bool) -> Seq<Seq<char>> {
    if side is Sale && !allow_negative {
        seq![
            "Si algún reembolso dejaría una cuenta en negativo, la anulación se rechaza y verás el motivo."@,
        ]
    } else {
        Seq::empty()
    }
}

/// The whole preview of a cancellation: one line for each tracked line, one for each
/// payment, the change of state, and the caveat.
pub open spec fn cancellation_impact(
    side: Side,
    record: Record,
    products: Seq<LineProduct>,
    allow_negative: bool,
) -> Seq<Seq<char>> {
    Seq::new(
        stocked(record.lines@).len(),
        |i: int| line_impact(side, stocked(record.lines@)[i], products[i]),
    ) + record.payments@.map_values(|payment: RecordPayment| payment_impact(side, payment))
        + drawer::one(side.debt_sentence()) + balance_caveat(side, allow_negative)
}

/// The action that cancels a confirmed document.
pub open spec fn annul_action(
    side: Side,
    record: Record,
    products: Seq<LineProduct>,
    allow_negative: bool,
) -> ActionView {
    ActionView {
        label: "Anular"@,
        method: "post"@,
        path: side.cancel_path(),
        fields: seq![(side.id_field(), text::int_text(record.id as int))],
        reason: true,
        impact: cancellation_impact(side, record, products, allow_negative),
        confirm: Some("¿Anular este documento? Esta acción no se puede deshacer."@),
    }
}

/// The actions that the drawer offers, by the document's state and the principal's
/// permissions.
pub open spec fn actions_of(
    side: Side,
    principal: Principal,
    record: Record,
    products: Seq<LineProduct>,
    allow_negative: bool,
) -> Seq<ActionView> {
    match record.status {
        DocumentStatus::Draft => {
            let delete = if principal.holds(side.creator()) {
                seq![delete_action(side, record)]
            } else {
                Seq::empty()
            };
            let discard = if principal.holds(side.canceller()) {
                seq![discard_action(side, record)]
            } else {
                Seq::empty()
            };
            delete + discard
        },
        DocumentStatus::Confirmed => if principal.holds(side.canceller()) {
            seq![annul_action(side, record, products, allow_negative)]
        } else {
            Seq::empty()
        },
        DocumentStatus::Cancelled => Seq::empty(),
    }
}

fn creator_of(side: Side) -> (permission: Permission)
    ensures
        permission == side.creator(),
{
    match side {
        Side::Sale => Permission::SalesCreate,
        Side::Purchase => Permission::PurchasesCreate,
    }
}

fn canceller_of(side: Side) -> (permission: Permission)
    ensures
        permission == side.canceller(),
{
    match side {
        Side::Sale => Permission::SalesCancel,
        Side::Purchase => Permission::PurchasesCancel,
    }
}

fn cancel_path_of(side: Side) -> (path: &'static str)
    ensures
        path@ == side.cancel_path(),
{
    match side {
        Side::Sale => "/web/sales/cancel",
        Side::Purchase => "/web/purchases/cancel",
    }
}

fn id_fields(side: Side, id: i64) -> (fields: Vec<(String, String)>)
    ensures
        views::views(fields@) == seq![(side.id_field(), text::int_text(id as int))],
{
    let name = match side {
        Side::Sale => "sale_id",
        Side::Purchase => "purchase_id",
    };
    let mut fields: Vec<(String, String)> = Vec::new();
    fields.push((name.to_owned(), id_text(id)));
    proof {
        assert(views::views(fields@) =~= seq![(side.id_field(), text::int_text(id as int))]);
    }
    fields
}

fn two_lines(a: String, b: String) -> (lines: Vec<String>)
    ensures
        views::views(lines@) == seq![a@, b@],
{
    let mut lines: Vec<String> = Vec::new();
    lines.push(a);
    lines.push(b);
    proof {
        assert(views::views(lines@) =~= seq![a@, b@]);
    }
    lines
}

/// The action that deletes a draft: a draft never moved stock, money or debt, so
/// nothing dangles.
fn delete_draft(side: Side, record: &Record) -> (action: DrawerAction)
    ensures
        action@ == delete_action(side, *record),
{
    let n = count_text(record.lines.len());
    let prefix = match side {
        Side::Sale => "/web/sales/",
        Side::Purchase => "/web/purchases/",
    };
    let fields: Vec<(String, String)> = Vec::new();
    DrawerAction {
        label: "Eliminar borrador".to_owned(),
        method: "delete".to_owned(),
        path: concat2(prefix, id_text(record.id).as_str()),
        fields,
        reason: false,
        impact: two_lines(
            concat3("Se elimina el borrador y sus ", n.as_str(), " líneas (listadas arriba)."),
            "Nunca se confirmó: no dejó movimientos de stock, ni pagos, ni asientos de caja.".to_owned(),
        ),
        confirm: Some(
            concat3(
                "¿Eliminar el borrador y sus ",
                n.as_str(),
                " líneas? Esta acción no se puede deshacer.",
            ),
        ),
    }
}

fn discard_draft(side: Side, record: &Record) -> (action: DrawerAction)
    ensures
        action@ == discard_action(side, *record),
{
    DrawerAction {
        label: "Descartar".to_owned(),
        method: "post".to_owned(),
        path: cancel_path_of(side).to_owned(),
        fields: id_fields(side, record.id),
        reason: true,
        impact: two_lines(
            "El borrador pasa a Anulado y deja de aparecer como editable.".to_owned(),
            "No hay stock, ni pagos, ni asientos que revertir.".to_owned(),
        ),
        confirm: None,
    }
}

fn line_sentence(side: Side, line: &RecordLine, product: &LineProduct) -> (sentence: String)
    ensures
        sentence@ == line_impact(side, *line, *product),
{
    if !product.is_active {
        return concat3(
            "No se puede anular: el producto «",
            product.name.as_str(),
            "» está inactivo.",
        );
    }
    let ending = match side {
        Side::Sale => ") con un movimiento In · Sale-return.",
        Side::Purchase => ") con un movimiento Out · Purchase-return.",
    };
    concat5(
        "Se devuelve el stock de «",
        line.product_name.as_str(),
        "» (",
        line.qty.text().as_str(),
        ending,
    )
}

fn payment_sentence(side: Side, payment: &RecordPayment) -> (sentence: String)
    ensures
        sentence@ == payment_impact(side, *payment),
{
    let ending = match side {
        Side::Sale => "» con un asiento Expense.",
        Side::Purchase => "» con un asiento Income.",
    };
    concat5(
        "Se reembolsa «",
        payment.amount.text().as_str(),
        "» en «",
        payment.account_name.as_str(),
        ending,
    )
}

/// The preview of a cancellation.
fn impact_lines(
    side: Side,
    record: &Record,
    products: &[LineProduct],
    allow_negative: bool,
) -> (impact: Vec<String>)
    requires
        products@.len() == stocked(record.lines@).len(),
    ensures
        views::views(impact@) == cancellation_impact(side, *record, products@, allow_negative),
{
    let ghost all = stocked(record.lines@);
    let ghost by_line = Seq::new(
        all.len(),
        |i: int| line_impact(side, stocked(record.lines@)[i], products@[i]),
    );
    let mut impact: Vec<String> = Vec::new();
    let mut i: usize = 0;
    proof {
        reveal(Seq::filter);
        assert(stocked(record.lines@.take(0)) =~= Seq::empty());
    }
    while i < record.lines.len()
        invariant
            i <= record.lines.len(),
            all == stocked(record.lines@),
            products@.len() == all.len(),
            impact@.len() == stocked(record.lines@.take(i as int)).len(),
            impact@.len() <= all.len(),
            forall|k: int|
                0 <= k < impact@.len() ==> (#[trigger] impact@[k])@ == line_impact(
                    side,
                    all[k],
                    products@[k],
                ),
        decreases record.lines.len() - i,
    {
        let line = &record.lines[i];
        proof {
            lemma_stocked_prefix(record.lines@, i as int);
        }
        if line.tracks_stock {
            let at: usize = impact.len();
            impact.push(line_sentence(side, line, &products[at]));
        }
        i = i + 1;
    }
    proof {
        assert(record.lines@.take(i as int) =~= record.lines@);
        assert(views::views(impact@) =~= by_line);
    }
    let ghost by_payment = record.payments@.map_values(
        |payment: RecordPayment| payment_impact(side, payment),
    );
    let mut p: usize = 0;
    proof {
        assert(by_line + by_payment.take(0) =~= by_line);
    }
    while p < record.payments.len()
        invariant
            p <= record.payments.len(),
            by_payment == record.payments@.map_values(
                |payment: RecordPayment| payment_impact(side, payment),
            ),
            views::views(impact@) == by_line + by_payment.take(p as int),
        decreases record.payments.len() - p,
    {
        impact.push(payment_sentence(side, &record.payments[p]));
        p = p + 1;
        proof {
            assert(views::views(impact@) =~= by_line + by_payment.take(p as int));
        }
    }
    proof {
        assert(by_payment.take(p as int) =~= by_payment);
    }
    let debt = match side {
        Side::Sale => "El documento pasa a Anulado y deja de contar como deuda del cliente.",
        Side::Purchase =>
            "El documento pasa a Anulado y deja de contar como deuda con el proveedor.",
    };
    impact.push(debt.to_owned());
    let caveat = match side {
        Side::Sale => !allow_negative,
        Side::Purchase => false,
    };
    if caveat {
        impact.push(
            "Si algún reembolso dejaría una cuenta en negativo, la anulación se rechaza y verás el motivo.".to_owned(),
        );
    }
    proof {
        assert(views::views(impact@) =~= cancellation_impact(
            side,
            *record,
            products@,
            allow_negative,
        ));
    }
    impact
}

/// One more line adds at most one tracked line, and that one at its place.
proof fn lemma_stocked_prefix(lines: Seq<RecordLine>, i: int)
    requires
        0 <= i < lines.len(),
    ensures
        stocked(lines.take(i + 1)) == (if lines[i].tracks_stock {
            stocked(lines.take(i)).push(lines[i])
        } else {
            stocked(lines.take(i))
        }),
        stocked(lines.take(i + 1)).len() <= stocked(lines).len(),
        lines[i].tracks_stock ==> stocked(lines)[stocked(lines.take(i)).len() as int] == lines[i],
    decreases lines.len() - i,
{
    reveal(Seq::filter);
    assert(lines.take(i + 1).drop_last() =~= lines.take(i));
    let rest = lines.skip(i + 1);
    assert(lines =~= lines.take(i + 1) + rest);
    Seq::filter_distributes_over_add(
        lines.take(i + 1),
        rest,
        |line: RecordLine| line.tracks_stock,
    );
}

/// The actions for a record, by its state and the principal's permissions.
fn record_actions(
    side: Side,
    principal: &Principal,
    record: &Record,
    products: &[LineProduct],
    allow_negative: bool,
) -> (actions: Vec<DrawerAction>)
    requires
        products@.len() == needed_products(side, *principal, *record).len(),
    ensures
        views::views(actions@) == actions_of(side, *principal, *record, products@, allow_negative),
{
    let mut actions: Vec<DrawerAction> = Vec::new();
    match record.status {
        DocumentStatus::Draft => {
            if principal.has(creator_of(side)) {
                actions.push(delete_draft(side, record));
            }
            if principal.has(canceller_of(side)) {
                actions.push(discard_draft(side, record));
            }
        },
        DocumentStatus::Confirmed => {
            if principal.has(canceller_of(side)) {
                actions.push(
                    DrawerAction {
                        label: "Anular".to_owned(),
                        method: "post".to_owned(),
                        path: cancel_path_of(side).to_owned(),
                        fields: id_fields(side, record.id),
                        reason: true,
                        impact: impact_lines(side, record, products, allow_negative),
                        confirm: Some(
                            "¿Anular este documento? Esta acción no se puede deshacer.".to_owned(),
                        ),
                    },
                );
            }
        },
        DocumentStatus::Cancelled => {},
    }
    proof {
        assert(views::views(actions@) =~= actions_of(
            side,
            *principal,
            *record,
            products@,
            allow_negative,
        ));
    }
    actions
}

/// The products to look up before the drawer of a record is built: those of the
/// tracked lines, where a cancellation is previewed.
pub fn products_to_look_up(side: Side, principal: &Principal, record: &Record) -> (ids: Vec<i64>)
    ensures
        ids@ == needed_products(side, *principal, *record),
{
    let mut ids: Vec<i64> = Vec::new();
    let confirmed = match record.status {
        DocumentStatus::Confirmed => true,
        _ => false,
    };
    if !confirmed || !principal.has(canceller_of(side)) {
        return ids;
    }
    let mut i: usize = 0;
    proof {
        reveal(Seq::filter);
        assert(stocked(record.lines@.take(0)) =~= Seq::empty());
    }
    while i < record.lines.len()
        invariant
            i <= record.lines.len(),
            ids@ == stocked(record.lines@.take(i as int)).map_values(
                |line: RecordLine| line.product_id,
            ),
        decreases record.lines.len() - i,
    {
        proof {
            lemma_stocked_prefix(record.lines@, i as int);
        }
        if record.lines[i].tracks_stock {
            ids.push(record.lines[i].product_id);
        }
        i = i + 1;
        proof {
            assert(ids@ =~= stocked(record.lines@.take(i as int)).map_values(
                |line: RecordLine| line.product_id,
            ));
        }
    }
    proof {
        assert(record.lines@.take(i as int) =~= record.lines@);
    }
    ids
}

/// The actions of a sale. `products` are the products that [`products_to_look_up`]
/// names, in its order.
pub fn sale_actions(
    principal: &Principal,
    record: &Record,
    products: &[LineProduct],
    allow_negative: bool,
) -> (actions: Vec<DrawerAction>)
    requires
        products@.len() == needed_products(Side::Sale, *principal, *record).len(),
    ensures
        views::views(actions@) == actions_of(
            Side::Sale,
            *principal,
            *record,
            products@,
            allow_negative,
        ),
{
    record_actions(Side::Sale, principal, record, products, allow_negative)
}

/// The actions of a purchase. `products` are the products that
/// [`products_to_look_up`] names, in its order.
pub fn purchase_actions(
    principal: &Principal,
    record: &Record,
    products: &[LineProduct],
    allow_negative: bool,
) -> (actions: Vec<DrawerAction>)
    requires
        products@.len() == needed_products(Side::Purchase, *principal, *record).len(),
    ensures
        views::views(actions@) == actions_of(
            Side::Purchase,
            *principal,
            *record,
            products@,
            allow_negative,
        ),
{
    record_actions(Side::Purchase, principal, record, products, allow_negative)
}

/// The date as text, where there is one.
pub open spec fn date_fact(due_date: Option<Date>) -> Option<Seq<char>> {
    match due_date {
        Some(d) => Some(d@.text()),
        None => None,
    }
}

/// The facts of a sale or a purchase, in the order that the drawer lists them.
pub open spec fn record_facts(side: Side, record: Record, names: Map<i64, String>) -> Seq<
    FactView,
> {
    drawer::one(drawer::fact(side.party_label(), record.party_name@)) + drawer::one(
        drawer::fact("Tipo de pago"@, record.payment_type@),
    ) + drawer::one(drawer::fact("Fecha"@, record.date@.text())) + views::opt_seq(
        drawer::optional_fact("Vencimiento"@, date_fact(record.due_date)),
    ) + views::opt_seq(
        drawer::optional_fact(side.reference_label(), views::opt_view(record.reference_no)),
    ) + views::opt_seq(drawer::optional_fact("Notas"@, Some(record.notes@))) + views::opt_seq(
        drawer::optional_fact("Motivo de anulación"@, views::opt_view(record.cancel_reason)),
    ) + drawer::one(drawer::fact("Total"@, record.total@.text())) + drawer::one(
        drawer::fact("Pagado"@, record.paid@.text()),
    ) + drawer::one(drawer::fact("Saldo"@, record.due@.text())) + drawer::one(
        drawer::fact("Estado de pago"@, record.payment_status@),
    ) + drawer::one(drawer::created_fact(names, record.created_by)) + views::opt_seq(
        drawer::updated_fact(names, record.updated_by),
    )
}

fn facts_of_record(side: Side, record: &Record, names: &BTreeMap<i64, String>) -> (facts: Vec<
    DrawerFact,
>)
    ensures
        views::views(facts@) == record_facts(side, *record, names@),
{
    let (created, updated) = actor_facts(names, record.created_by, record.updated_by);
    let mut facts = match side {
        Side::Sale => first_fact("Cliente", record.party_name.clone()),
        Side::Purchase => first_fact("Proveedor", record.party_name.clone()),
    };
    push_fact(&mut facts, "Tipo de pago", record.payment_type.clone());
    push_fact(&mut facts, "Fecha", record.date.text());
    let due = match &record.due_date {
        Some(d) => Some(d.text()),
        None => None,
    };
    push_optional_fact(&mut facts, DrawerFact::when_non_empty("Vencimiento", due));
    let reference = match side {
        Side::Sale => DrawerFact::when_non_empty("Recibo", record.reference_no.clone()),
        Side::Purchase => DrawerFact::when_non_empty(
            "Factura del proveedor",
            record.reference_no.clone(),
        ),
    };
    push_optional_fact(&mut facts, reference);
    push_optional_fact(
        &mut facts,
        DrawerFact::when_non_empty("Notas", Some(record.notes.clone())),
    );
    push_optional_fact(
        &mut facts,
        DrawerFact::when_non_empty("Motivo de anulación", record.cancel_reason.clone()),
    );
    push_fact(&mut facts, "Total", record.total.text());
    push_fact(&mut facts, "Pagado", record.paid.text());
    push_fact(&mut facts, "Saldo", record.due.text());
    push_fact(&mut facts, "Estado de pago", record.payment_status.clone());
    facts.push(created);
    push_optional_fact(&mut facts, updated);
    facts
}

/// One row of the table of lines.
pub open spec fn line_row(line: RecordLine) -> TableRowView {
    TableRowView {
        cells: seq![
            line.product_name@,
            line.product_sku@,
            line.qty@.text(),
            line.unit_value@.text(),
            line.subtotal@.text(),
        ],
        href: None,
    }
}

/// One row of the table of payments.
pub open spec fn payment_row(payment: RecordPayment) -> TableRowView {
    TableRowView {
        cells: seq![
            payment.date@.text(),
            payment.account_name@,
            payment.method_name@,
            payment.amount@.text(),
        ],
        href: None,
    }
}

/// The table of lines and the table of payments.
pub open spec fn record_tables(side: Side, record: Record) -> Seq<TableView> {
    seq![
        TableView {
            title: "Líneas"@,
            headers: seq!["Producto"@, "SKU"@, "Cant."@, side.unit_header(), "Subtotal"@],
            rows: record.lines@.map_values(|line: RecordLine| line_row(line)),
        },
        TableView {
            title: "Pagos"@,
            headers: seq!["Fecha"@, "Cuenta"@, "Medio"@, "Monto"@],
            rows: record.payments@.map_values(|payment: RecordPayment| payment_row(payment)),
        },
    ]
}

fn line_rows(lines: &[RecordLine]) -> (rows: Vec<DrawerTableRow>)
    ensures
        views::views(rows@) == lines@.map_values(|line: RecordLine| line_row(line)),
{
    let mut rows: Vec<DrawerTableRow> = Vec::new();
    let mut i: usize = 0;
    while i < lines.len()
        invariant
            i <= lines.len(),
            rows@.len() == i,
            forall|k: int| 0 <= k < i ==> (#[trigger] rows@[k])@ == line_row(lines@[k]),
        decreases lines.len() - i,
    {
        let line = &lines[i];
        rows.push(
            DrawerTableRow {
                cells: cells5(
                    line.product_name.clone(),
                    line.product_sku.clone(),
                    line.qty.text(),
                    line.unit_value.text(),
                    line.subtotal.text(),
                ),
                href: None,
            },
        );
        i = i + 1;
    }
    proof {
        assert(views::views(rows@) =~= lines@.map_values(|line: RecordLine| line_row(line)));
    }
    rows
}

fn payment_rows(payments: &[RecordPayment]) -> (rows: Vec<DrawerTableRow>)
    ensures
        views::views(rows@) == payments@.map_values(
            |payment: RecordPayment| payment_row(payment),
        ),
{
    let mut rows: Vec<DrawerTableRow> = Vec::new();
    let mut i: usize = 0;
    while i < payments.len()
        invariant
            i <= payments.len(),
            rows@.len() == i,
            forall|k: int| 0 <= k < i ==> (#[trigger] rows@[k])@ == payment_row(payments@[k]),
        decreases payments.len() - i,
    {
        let payment = &payments[i];
        rows.push(
            DrawerTableRow {
                cells: cells4(
                    payment.date.text(),
                    payment.account_name.clone(),
                    payment.method_name.clone(),
                    payment.amount.text(),
                ),
                href: None,
            },
        );
        i = i + 1;
    }
    proof {
        assert(views::views(rows@) =~= payments@.map_values(
            |payment: RecordPayment| payment_row(payment),
        ));
    }
    rows
}

fn tables_of_record(side: Side, record: &Record) -> (tables: Vec<DrawerTable>)
    ensures
        views::views(tables@) == record_tables(side, *record),
{
    let unit = match side {
        Side::Sale => "Precio unit.",
        Side::Purchase => "Costo unit.",
    };
    let mut line_headers: Vec<&'static str> = Vec::new();
    line_headers.push("Producto");
    line_headers.push("SKU");
    line_headers.push("Cant.");
    line_headers.push(unit);
    line_headers.push("Subtotal");
    let mut payment_headers: Vec<&'static str> = Vec::new();
    payment_headers.push("Fecha");
    payment_headers.push("Cuenta");
    payment_headers.push("Medio");
    payment_headers.push("Monto");
    let mut tables: Vec<DrawerTable> = Vec::new();
    proof {
        assert(views::views(line_headers@) =~= record_tables(side, *record)[0].headers);
        assert(views::views(payment_headers@) =~= record_tables(side, *record)[1].headers);
    }
    tables.push(
        DrawerTable { title: "Líneas", headers: line_headers, rows: line_rows(&record.lines) },
    );
    tables.push(
        DrawerTable {
            title: "Pagos",
            headers: payment_headers,
            rows: payment_rows(&record.payments),
        },
    );
    proof {
        assert(views::views(tables@) =~= record_tables(side, *record));
    }
    tables
}

/// The address of the record page.
pub open spec fn record_page(side: Side, id: i64) -> Seq<char> {
    side.page_prefix() + text::int_text(id as int)
}

/// The address of the record page.
pub fn record_href(side: Side, id: i64) -> (href: String)
    ensures
        href@ == record_page(side, id),
{
    match side {
        Side::Sale => concat2("/sales/", id_text(id).as_str()),
        Side::Purchase => concat2("/purchases/", id_text(id).as_str()),
    }
}

/// What the drawer shows of a sale or a purchase.
pub open spec fn record_detail(
    side: Side,
    principal: Principal,
    record: Record,
    products: Seq<LineProduct>,
    allow_negative: bool,
    names: Map<i64, String>,
    labels: KindLabels,
) -> DetailView {
    DetailView {
        kind_token: side.kind().url_token(),
        kind_label: labels.of(side.kind()),
        title: drawer::title_of(views::opt_view(record.number), record.id),
        status_line: record.status.text(),
        facts: record_facts(side, record, names),
        tables: record_tables(side, record),
        parent: None,
        actions: actions_of(side, principal, record, products, allow_negative),
        notice: Some(drawer::affordance_notice(record.status.text())),
        links: seq![
            drawer::link(
                drawer::affordance_label(record.status.text()),
                record_page(side, record.id),
            ),
        ],
    }
}

/// The identifier of a record.
pub(crate) fn record_title(record: &Record) -> (title: String)
    ensures
        title@ == drawer::title_of(views::opt_view(record.number), record.id),
{
    match &record.number {
        Some(n) => document_title(Some(n.as_str()), record.id),
        None => document_title(None, record.id),
    }
}

fn record_drawer(
    side: Side,
    principal: &Principal,
    record: &Record,
    products: &[LineProduct],
    allow_negative: bool,
    names: &BTreeMap<i64, String>,
    labels: &KindLabels,
) -> (detail: DocumentDetail)
    requires
        products@.len() == needed_products(side, *principal, *record).len(),
    ensures
        detail@ == record_detail(
            side,
            *principal,
            *record,
            products@,
            allow_negative,
            names@,
            *labels,
        ),
{
    let kind = match side {
        Side::Sale => DocumentKind::Sale,
        Side::Purchase => DocumentKind::Purchase,
    };
    let mut links: Vec<drawer::DrawerLink> = Vec::new();
    links.push(edit_affordance_link(record.status.name(), record_href(side, record.id)));
    proof {
        assert(views::views(links@) =~= seq![
            drawer::link(
                drawer::affordance_label(record.status.text()),
                record_page(side, record.id),
            ),
        ]);
    }
    DocumentDetail {
        kind_token: kind.token().to_owned(),
        kind_label: labels.label(kind),
        title: record_title(record),
        status_line: record.status.name().to_owned(),
        facts: facts_of_record(side, record, names),
        tables: tables_of_record(side, record),
        parent: None,
        actions: record_actions(side, principal, record, products, allow_negative),
        notice: Some(edit_affordance_notice(record.status.name())),
        links,
    }
}

/// The drawer of a sale. `products` are the products that [`products_to_look_up`]
/// names, in its order.
pub fn sale_drawer(
    principal: &Principal,
    record: &Record,
    products: &[LineProduct],
    allow_negative: bool,
    names: &BTreeMap<i64, String>,
    labels: &KindLabels,
) -> (detail: DocumentDetail)
    requires
        products@.len() == needed_products(Side::Sale, *principal, *record).len(),
    ensures
        detail@ == record_detail(
            Side::Sale,
            *principal,
            *record,
            products@,
            allow_negative,
            names@,
            *labels,
        ),
{
    record_drawer(Side::Sale, principal, record, products, allow_negative, names, labels)
}

/// The drawer of a purchase. `products` are the products that
/// [`products_to_look_up`] names, in its order.
pub fn purchase_drawer(
    principal: &Principal,
    record: &Record,
    products: &[LineProduct],
    allow_negative: bool,
    names: &BTreeMap<i64, String>,
    labels: &KindLabels,
) -> (detail: DocumentDetail)
    requires
        products@.len() == needed_products(Side::Purchase, *principal, *record).len(),
    ensures
        detail@ == record_detail(
            Side::Purchase,
            *principal,
            *record,
            products@,
            allow_negative,
            names@,
            *labels,
        ),
{
    record_drawer(Side::Purchase, principal, record, products, allow_negative, names, labels)
}

/// A cancelled document offers no action: its inverse already happened.
pub proof fn cancelled_records_offer_nothing(
    side: Side,
    principal: Principal,
    record: Record,
    products: Seq<LineProduct>,
    allow_negative: bool,
)
    requires
        record.status is Cancelled,
    ensures
        actions_of(side, principal, record, products, allow_negative).len() == 0,
{
}

/// A principal with neither the permission to create nor the one to cancel sees no
/// action at all, whatever else they hold.
pub proof fn readers_see_no_action(
    side: Side,
    principal: Principal,
    record: Record,
    products: Seq<LineProduct>,
    allow_negative: bool,
)
    requires
        !principal.holds(side.creator()),
        !principal.holds(side.canceller()),
    ensures
        actions_of(side, principal, record, products, allow_negative).len() == 0,
{
}

/// Every action that is offered is one that its endpoint would accept: the delete
/// only for a draft and with the permission to create, the cancellation only with
/// the permission to cancel and while there is something to cancel.
pub proof fn offered_actions_are_allowed(
    side: Side,
    principal: Principal,
    record: Record,
    products: Seq<LineProduct>,
    allow_negative: bool,
    at: int,
)
    requires
        0 <= at < actions_of(side, principal, record, products, allow_negative).len(),
    ensures
        ({
            let action = actions_of(side, principal, record, products, allow_negative)[at];
            ||| {
                &&& action == delete_action(side, record)
                &&& record.status is Draft
                &&& principal.holds(side.creator())
            }
            ||| {
                &&& action == discard_action(side, record)
                &&& record.status is Draft
                &&& principal.holds(side.canceller())
            }
            ||| {
                &&& action == annul_action(side, record, products, allow_negative)
                &&& record.status is Confirmed
                &&& principal.holds(side.canceller())
            }
        }),
{
}

/// Whoever may cancel sees exactly one action on a confirmed document, even where an
/// inactive product means that it will be refused: the preview says so instead.
pub proof fn confirmed_records_can_always_be_asked_to_cancel(
    side: Side,
    principal: Principal,
    record: Record,
    products: Seq<LineProduct>,
    allow_negative: bool,
)
    requires
        record.status is Confirmed,
        principal.holds(side.canceller()),
    ensures
        actions_of(side, principal, record, products, allow_negative) == seq![
            annul_action(side, record, products, allow_negative),
        ],
{
}

/// The preview of a cancellation has one line for each tracked line, one for each
/// payment, the change of state, and the caveat where it holds.
pub proof fn previews_count_every_effect(
    side: Side,
    record: Record,
    products: Seq<LineProduct>,
    allow_negative: bool,
)
    ensures
        cancellation_impact(side, record, products, allow_negative).len() == stocked(
            record.lines@,
        ).len() + record.payments@.len() + 1 + (if side is Sale && !allow_negative {
            1int
        } else {
            0
        }),
        side is Purchase ==> cancellation_impact(side, record, products, true)
            == cancellation_impact(side, record, products, false),
{
    assert(balance_caveat(side, true).len() == 0);
}

/// Where a product is inactive, the preview names it in the place of its line.
pub proof fn inactive_products_are_announced(
    side: Side,
    record: Record,
    products: Seq<LineProduct>,
    allow_negative: bool,
    at: int,
)
    requires
        0 <= at < stocked(record.lines@).len(),
        !products[at].is_active,
    ensures
        cancellation_impact(side, record, products, allow_negative)[at]
            == "No se puede anular: el producto «"@ + products[at].name@ + "» está inactivo."@,
{
}

/// The page that a record's drawer leads to is one that whoever opened the drawer may
/// open.
pub proof fn record_drawers_lead_to_readable_pages(side: Side, id: i64)
    ensures
        record_page(side, id) == documents::page_address(side.kind().owner_page(), id),
        documents::page_reader(side.kind().owner_page()) == side.kind().reader(),
{
}

/// The id that a cancellation posts is read back as the id of the record.
pub proof fn cancellations_name_their_record(
    side: Side,
    record: Record,
    products: Seq<LineProduct>,
    allow_negative: bool,
)
    ensures
        text::i64_reading(discard_action(side, record).fields[0].1) == Some(record.id),
        text::i64_reading(annul_action(side, record, products, allow_negative).fields[0].1)
            == Some(record.id),
{
    text::printed_ids_read_back(record.id);
}

/// Every reader gets the link to the record page, whatever they may do there.
pub proof fn records_always_link_to_their_page(
    side: Side,
    principal: Principal,
    record: Record,
    products: Seq<LineProduct>,
    allow_negative: bool,
    names: Map<i64, String>,
    labels: KindLabels,
)
    ensures
        record_detail(
            side,
            principal,
            record,
            products,
            allow_negative,
            names,
            labels,
        ).links.len() == 1,
        record_detail(
            side,
            principal,
            record,
            products,
            allow_negative,
            names,
            labels,
        ).links[0].href == record_page(side, record.id),
{
}

/// The labels of a record's facts are all different.
proof fn lemma_record_labels_differ()
    ensures
        seq![
            "Cliente"@,
            "Proveedor"@,
            "Tipo de pago"@,
            "Fecha"@,
            "Vencimiento"@,
            "Recibo"@,
            "Factura del proveedor"@,
            "Notas"@,
            "Motivo de anulación"@,
            "Total"@,
            "Pagado"@,
            "Saldo"@,
            "Estado de pago"@,
            "Registrado por"@,
            "Actualizado por"@,
        ].no_duplicates(),
{
    reveal_strlit("Cliente");
    reveal_strlit("Proveedor");
    reveal_strlit("Tipo de pago");
    reveal_strlit("Fecha");
    reveal_strlit("Vencimiento");
    reveal_strlit("Recibo");
    reveal_strlit("Factura del proveedor");
    reveal_strlit("Notas");
    reveal_strlit("Motivo de anulación");
    reveal_strlit("Total");
    reveal_strlit("Pagado");
    reveal_strlit("Saldo");
    reveal_strlit("Estado de pago");
    reveal_strlit("Registrado por");
    reveal_strlit("Actualizado por");
    let all = seq![
        "Cliente"@,
        "Proveedor"@,
        "Tipo de pago"@,
        "Fecha"@,
        "Vencimiento"@,
        "Recibo"@,
        "Factura del proveedor"@,
        "Notas"@,
        "Motivo de anulación"@,
        "Total"@,
        "Pagado"@,
        "Saldo"@,
        "Estado de pago"@,
        "Registrado por"@,
        "Actualizado por"@,
    ];
    assert forall|i: int, j: int| 0 <= i < all.len() && 0 <= j < all.len() && i != j implies all[i]
        != all[j] by {
        assert(all[i].len() != all[j].len() || all[i][0] != all[j][0]);
    }
}

/// The money facts of a record, whichever of the two it is: under each label stands
/// the amount of that name, once.
pub proof fn records_say_their_own_amounts(
    side: Side,
    principal: Principal,
    record: Record,
    products: Seq<LineProduct>,
    allow_negative: bool,
    names: Map<i64, String>,
    labels: KindLabels,
)
    ensures
        ({
            let facts = record_detail(
                side,
                principal,
                record,
                products,
                allow_negative,
                names,
                labels,
            ).facts;
            &&& drawer::says_once(facts, "Total"@, record.total@.text())
            &&& drawer::says_once(facts, "Pagado"@, record.paid@.text())
            &&& drawer::says_once(facts, "Saldo"@, record.due@.text())
        }),
{
    broadcast use drawer::group_facts;

    lemma_record_labels_differ();
}

/// Every other fact of a record stands under its own label, once, and an optional one
/// only where there is something to show.
pub proof fn records_say_what_they_hold(
    side: Side,
    principal: Principal,
    record: Record,
    products: Seq<LineProduct>,
    allow_negative: bool,
    names: Map<i64, String>,
    labels: KindLabels,
)
    ensures
        ({
            let facts = record_detail(
                side,
                principal,
                record,
                products,
                allow_negative,
                names,
                labels,
            ).facts;
            let party = if side is Sale {
                "Cliente"@
            } else {
                "Proveedor"@
            };
            let reference = if side is Sale {
                "Recibo"@
            } else {
                "Factura del proveedor"@
            };
            &&& drawer::says_once(facts, party, record.party_name@)
            &&& drawer::says_once(facts, "Tipo de pago"@, record.payment_type@)
            &&& drawer::says_once(facts, "Fecha"@, record.date@.text())
            &&& drawer::says_once(facts, "Estado de pago"@, record.payment_status@)
            &&& record.due_date matches Some(d) ==> drawer::says_once(
                facts,
                "Vencimiento"@,
                d@.text(),
            )
            &&& record.due_date is None ==> drawer::says_nothing_of(facts, "Vencimiento"@)
            &&& drawer::says_if_any(facts, reference, views::opt_view(record.reference_no))
            &&& drawer::says_if_any(facts, "Notas"@, Some(record.notes@))
            &&& drawer::says_if_any(
                facts,
                "Motivo de anulación"@,
                views::opt_view(record.cancel_reason),
            )
            &&& drawer::says_once(
                facts,
                "Registrado por"@,
                if names.contains_key(record.created_by) {
                    names[record.created_by]@
                } else {
                    "(sistema)"@
                },
            )
            &&& record.updated_by matches Some(id) ==> drawer::says_once(
                facts,
                "Actualizado por"@,
                if names.contains_key(id) {
                    names[id]@
                } else {
                    "(sistema)"@
                },
            )
            &&& record.updated_by is None ==> drawer::says_nothing_of(facts, "Actualizado por"@)
        }),
{
    broadcast use drawer::group_facts;

    lemma_record_labels_differ();
    match record.due_date {
        Some(d) => crate::date::lemma_text_is_trimmed(d@),
        None => {},
    }
}

/// The facts of a record come in one order: the party and the terms, the optional
/// facts that have something to show, the money, and who wrote the record.
pub proof fn records_list_their_facts_in_order(
    side: Side,
    principal: Principal,
    record: Record,
    products: Seq<LineProduct>,
    allow_negative: bool,
    names: Map<i64, String>,
    labels: KindLabels,
)
    ensures
        drawer::labels_of(
            record_detail(side, principal, record, products, allow_negative, names, labels).facts,
        ) == seq![
            if side is Sale {
                "Cliente"@
            } else {
                "Proveedor"@
            },
        ] + seq!["Tipo de pago"@] + seq!["Fecha"@] + drawer::label_if(
            record.due_date is Some,
            "Vencimiento"@,
        ) + drawer::label_if(
            record.reference_no is Some && record.reference_no->0@.len() > 0,
            if side is Sale {
                "Recibo"@
            } else {
                "Factura del proveedor"@
            },
        ) + drawer::label_if(record.notes@.len() > 0, "Notas"@) + drawer::label_if(
            record.cancel_reason is Some && record.cancel_reason->0@.len() > 0,
            "Motivo de anulación"@,
        ) + seq!["Total"@] + seq!["Pagado"@] + seq!["Saldo"@] + seq!["Estado de pago"@] + seq![
            "Registrado por"@,
        ] + drawer::label_if(record.updated_by is Some, "Actualizado por"@),
{
    broadcast use drawer::group_facts;

    match record.due_date {
        Some(d) => crate::date::lemma_text_is_trimmed(d@),
        None => {},
    }
}

/// The tables of a record have one row for each line and one for each payment, in their
/// order, and each cell shows the field that its header names.
pub proof fn record_tables_show_every_line_and_payment(
    side: Side,
    principal: Principal,
    record: Record,
    products: Seq<LineProduct>,
    allow_negative: bool,
    names: Map<i64, String>,
    labels: KindLabels,
)
    ensures
        ({
            let tables = record_detail(
                side,
                principal,
                record,
                products,
                allow_negative,
                names,
                labels,
            ).tables;
            &&& tables.len() == 2
            &&& tables[0].title == "Líneas"@
            &&& tables[0].headers == seq![
                "Producto"@,
                "SKU"@,
                "Cant."@,
                if side is Sale {
                    "Precio unit."@
                } else {
                    "Costo unit."@
                },
                "Subtotal"@,
            ]
            &&& tables[0].rows.len() == record.lines@.len()
            &&& forall|i: int|
                0 <= i < record.lines@.len() ==> {
                    let row = #[trigger] tables[0].rows[i];
                    &&& row.cells.len() == 5
                    &&& row.cells[0] == record.lines@[i].product_name@
                    &&& row.cells[1] == record.lines@[i].product_sku@
                    &&& row.cells[2] == record.lines@[i].qty@.text()
                    &&& row.cells[3] == record.lines@[i].unit_value@.text()
                    &&& row.cells[4] == record.lines@[i].subtotal@.text()
                    &&& row.href is None
                }
            &&& tables[1].title == "Pagos"@
            &&& tables[1].headers == seq!["Fecha"@, "Cuenta"@, "Medio"@, "Monto"@]
            &&& tables[1].rows.len() == record.payments@.len()
            &&& forall|i: int|
                0 <= i < record.payments@.len() ==> {
                    let row = #[trigger] tables[1].rows[i];
                    &&& row.cells.len() == 4
                    &&& row.cells[0] == record.payments@[i].date@.text()
                    &&& row.cells[1] == record.payments@[i].account_name@
                    &&& row.cells[2] == record.payments@[i].method_name@
                    &&& row.cells[3] == record.payments@[i].amount@.text()
                    &&& row.href is None
                }
        }),
{
}

/// The head and the foot of a record's drawer: it answers by its number, or as a draft
/// by its id, it tells its status, and its one link leads to its page.
pub proof fn record_drawers_name_their_record(
    side: Side,
    principal: Principal,
    record: Record,
    products: Seq<LineProduct>,
    allow_negative: bool,
    names: Map<i64, String>,
    labels: KindLabels,
)
    ensures
        ({
            let detail = record_detail(
                side,
                principal,
                record,
                products,
                allow_negative,
                names,
                labels,
            );
            &&& side is Sale ==> detail.kind_token == "sale"@ && detail.kind_label == labels.sale@
            &&& side is Purchase ==> detail.kind_token == "purchase"@ && detail.kind_label
                == labels.purchase@
            &&& record.number matches Some(n) ==> detail.title == n@
            &&& record.number is None ==> detail.title == "Draft #"@ + text::int_text(
                record.id as int,
            )
            &&& record.status is Draft ==> detail.status_line == "Draft"@
            &&& record.status is Confirmed ==> detail.status_line == "Confirmed"@
            &&& record.status is Cancelled ==> detail.status_line == "Cancelled"@
            &&& detail.parent is None
            &&& detail.links.len() == 1
            &&& detail.links[0].href == (if side is Sale {
                "/sales/"@
            } else {
                "/purchases/"@
            }) + text::int_text(record.id as int)
            &&& detail.links[0].label == if record.status is Draft {
                "Editar cabecera"@
            } else {
                "Abrir el documento"@
            }
            &&& detail.notice == Some(
                match record.status {
                    DocumentStatus::Draft =>
                        "Para editar la cabecera, agregar líneas, confirmar o registrar pagos, abrí el documento."@,
                    DocumentStatus::Confirmed =>
                        "Para registrar pagos o ver el detalle completo, abrí el documento."@,
                    DocumentStatus::Cancelled =>
                        "El documento está anulado. Para ver el detalle completo y su historia, abrí el documento."@,
                },
            )
        }),
{
    reveal_strlit("Draft");
    reveal_strlit("Confirmed");
    reveal_strlit("Cancelled");
    assert("Draft"@.len() == 5);
    assert("Confirmed"@[1] == 'o');
    assert("Cancelled"@[1] == 'a');
}

/// What a draft offers: to whoever may create, the delete of that very draft; to
/// whoever may cancel, its cancellation, with a reason; in this order.
pub proof fn drafts_are_deleted_or_discarded(
    side: Side,
    principal: Principal,
    record: Record,
    products: Seq<LineProduct>,
    allow_negative: bool,
)
    requires
        record.status is Draft,
    ensures
        ({
            let actions = actions_of(side, principal, record, products, allow_negative);
            let id = text::int_text(record.id as int);
            let n = text::nat_text(record.lines@.len());
            let creates = principal.holds(
                if side is Sale {
                    Permission::SalesCreate
                } else {
                    Permission::PurchasesCreate
                },
            );
            let cancels = principal.holds(
                if side is Sale {
                    Permission::SalesCancel
                } else {
                    Permission::PurchasesCancel
                },
            );
            &&& actions.len() == (if creates {
                1int
            } else {
                0
            }) + (if cancels {
                1int
            } else {
                0
            })
            &&& creates ==> {
                let delete = actions[0];
                &&& delete.label == "Eliminar borrador"@
                &&& delete.method == "delete"@
                &&& delete.path == (if side is Sale {
                    "/web/sales/"@
                } else {
                    "/web/purchases/"@
                }) + id
                &&& delete.fields.len() == 0
                &&& !delete.reason
                &&& delete.impact.len() == 2
                &&& delete.impact[0] == "Se elimina el borrador y sus "@ + n
                    + " líneas (listadas arriba)."@
                &&& delete.impact[1]
                    == "Nunca se confirmó: no dejó movimientos de stock, ni pagos, ni asientos de caja."@
                &&& delete.confirm == Some(
                    "¿Eliminar el borrador y sus "@ + n
                        + " líneas? Esta acción no se puede deshacer."@,
                )
            }
            &&& cancels ==> {
                let discard = actions.last();
                &&& discard.label == "Descartar"@
                &&& discard.method == "post"@
                &&& discard.path == if side is Sale {
                    "/web/sales/cancel"@
                } else {
                    "/web/purchases/cancel"@
                }
                &&& discard.fields.len() == 1
                &&& discard.fields[0].0 == if side is Sale {
                    "sale_id"@
                } else {
                    "purchase_id"@
                }
                &&& discard.fields[0].1 == id
                &&& discard.reason
                &&& discard.impact.len() == 2
                &&& discard.impact[0]
                    == "El borrador pasa a Anulado y deja de aparecer como editable."@
                &&& discard.impact[1] == "No hay stock, ni pagos, ni asientos que revertir."@
                &&& discard.confirm is None
            }
        }),
{
}

/// What a confirmed document offers: its cancellation, with a reason and a question, to
/// whoever may cancel and to nobody else.
pub proof fn confirmed_records_are_cancelled(
    side: Side,
    principal: Principal,
    record: Record,
    products: Seq<LineProduct>,
    allow_negative: bool,
)
    requires
        record.status is Confirmed,
    ensures
        ({
            let actions = actions_of(side, principal, record, products, allow_negative);
            let cancels = principal.holds(
                if side is Sale {
                    Permission::SalesCancel
                } else {
                    Permission::PurchasesCancel
                },
            );
            &&& actions.len() == if cancels {
                1int
            } else {
                0
            }
            &&& cancels ==> {
                let annul = actions[0];
                &&& annul.label == "Anular"@
                &&& annul.method == "post"@
                &&& annul.path == if side is Sale {
                    "/web/sales/cancel"@
                } else {
                    "/web/purchases/cancel"@
                }
                &&& annul.fields.len() == 1
                &&& annul.fields[0].0 == if side is Sale {
                    "sale_id"@
                } else {
                    "purchase_id"@
                }
                &&& annul.fields[0].1 == text::int_text(record.id as int)
                &&& annul.reason
                &&& annul.confirm == Some(
                    "¿Anular este documento? Esta acción no se puede deshacer."@,
                )
            }
        }),
{
}

/// How many of the first `n` lines move stock.
pub open spec fn stocked_before(lines: Seq<RecordLine>, n: int) -> int
    decreases n,
{
    if n <= 0 {
        0
    } else {
        stocked_before(lines, n - 1) + (if lines[n - 1].tracks_stock {
            1int
        } else {
            0
        })
    }
}

proof fn lemma_stocked_before(lines: Seq<RecordLine>, n: int)
    requires
        0 <= n <= lines.len(),
    ensures
        stocked(lines.take(n)).len() == stocked_before(lines, n),
    decreases n,
{
    if n == 0 {
        reveal(Seq::filter);
        assert(lines.take(0) =~= Seq::empty());
    } else {
        lemma_stocked_before(lines, n - 1);
        lemma_stocked_prefix(lines, n - 1);
    }
}

/// The preview of a cancellation tells of every line that moves stock, in the order of
/// the lines: what comes back and how much of it, or that the product is inactive. It
/// tells of every payment: what is refunded, and where. It ends with the change of
/// state and, for a sale while accounts may not be negative, with the caveat.
pub proof fn previews_tell_of_every_effect(
    side: Side,
    principal: Principal,
    record: Record,
    products: Seq<LineProduct>,
    allow_negative: bool,
)
    requires
        record.status is Confirmed,
        principal.holds(
            if side is Sale {
                Permission::SalesCancel
            } else {
                Permission::PurchasesCancel
            },
        ),
    ensures
        ({
            let impact = actions_of(side, principal, record, products, allow_negative)[0].impact;
            let lines = record.lines@;
            let moved = stocked_before(lines, lines.len() as int);
            let told = moved + record.payments@.len();
            &&& impact.len() == told + 1 + (if side is Sale && !allow_negative {
                1int
            } else {
                0
            })
            &&& forall|i: int|
                #![trigger lines[i]]
                0 <= i < lines.len() && lines[i].tracks_stock && products[stocked_before(
                    lines,
                    i,
                )].is_active ==> impact[stocked_before(lines, i)]
                    == "Se devuelve el stock de «"@ + lines[i].product_name@ + "» ("@
                    + lines[i].qty@.text() + (if side is Sale {
                    ") con un movimiento In · Sale-return."@
                } else {
                    ") con un movimiento Out · Purchase-return."@
                })
            &&& forall|i: int|
                #![trigger lines[i]]
                0 <= i < lines.len() && lines[i].tracks_stock && !products[stocked_before(
                    lines,
                    i,
                )].is_active ==> impact[stocked_before(lines, i)]
                    == "No se puede anular: el producto «"@ + products[stocked_before(
                    lines,
                    i,
                )].name@ + "» está inactivo."@
            &&& forall|i: int|
                #![trigger record.payments@[i]]
                0 <= i < record.payments@.len() ==> impact[moved + i] == "Se reembolsa «"@
                    + record.payments@[i].amount@.text() + "» en «"@
                    + record.payments@[i].account_name@ + (if side is Sale {
                    "» con un asiento Expense."@
                } else {
                    "» con un asiento Income."@
                })
            &&& impact[told] == if side is Sale {
                "El documento pasa a Anulado y deja de contar como deuda del cliente."@
            } else {
                "El documento pasa a Anulado y deja de contar como deuda con el proveedor."@
            }
            &&& side is Sale && !allow_negative ==> impact[told + 1]
                == "Si algún reembolso dejaría una cuenta en negativo, la anulación se rechaza y verás el motivo."@
        }),
{
    let lines = record.lines@;
    let impact = actions_of(side, principal, record, products, allow_negative)[0].impact;
    assert(impact == cancellation_impact(side, record, products, allow_negative));
    lemma_stocked_before(lines, lines.len() as int);
    assert(lines.take(lines.len() as int) =~= lines);
    assert forall|i: int| #![trigger lines[i]] 0 <= i < lines.len() && lines[i].tracks_stock implies
        0 <= stocked_before(lines, i) < stocked(lines).len() && stocked(lines)[stocked_before(
        lines,
        i,
    )] == lines[i] by {
        lemma_stocked_before(lines, i);
        lemma_stocked_prefix(lines, i);
    }
}

/// The products to look up are those of the lines that move stock, in the order of the
/// lines, wherever a cancellation is previewed, and none anywhere else.
pub proof fn previews_look_up_every_moved_product(side: Side, principal: Principal, record: Record)
    ensures
        ({
            let needed = needed_products(side, principal, record);
            let lines = record.lines@;
            if record.status is Confirmed && principal.holds(
                if side is Sale {
                    Permission::SalesCancel
                } else {
                    Permission::PurchasesCancel
                },
            ) {
                &&& needed.len() == stocked_before(lines, lines.len() as int)
                &&& forall|i: int|
                    #![trigger lines[i]]
                    0 <= i < lines.len() && lines[i].tracks_stock ==> needed[stocked_before(
                        lines,
                        i,
                    )] == lines[i].product_id
            } else {
                needed.len() == 0
            }
        }),
{
    let lines = record.lines@;
    lemma_stocked_before(lines, lines.len() as int);
    assert(lines.take(lines.len() as int) =~= lines);
    assert forall|i: int| #![trigger lines[i]] 0 <= i < lines.len() && lines[i].tracks_stock implies
        0 <= stocked_before(lines, i) < stocked(lines).len() && stocked(lines)[stocked_before(
        lines,
        i,
    )] == lines[i] by {
        lemma_stocked_before(lines, i);
        lemma_stocked_prefix(lines, i);
    }
}

/// Whether exactly one fact of a drawer has this label, and its value is this one.
pub open spec fn shows_once(facts: Seq<DrawerFact>, label: Seq<char>, value: Seq<char>) -> bool {
    exists|at: int|
        #![trigger facts[at]]
        0 <= at < facts.len() && facts[at].label@ == label && facts[at].value@ == value && forall|
            k: int,
        | 0 <= k < facts.len() && k != at ==> (#[trigger] facts[k]).label@ != label
}

proof fn lemma_shows_once(facts: Seq<DrawerFact>, label: Seq<char>, value: Seq<char>)
    requires
        drawer::says_once(views::views(facts), label, value),
    ensures
        shows_once(facts, label, value),
{
    reveal(drawer::says_once);
    let shown = views::views(facts);
    let at = choose|at: int|
        #![trigger shown[at]]
        0 <= at < shown.len() && shown[at].label == label && shown[at].value == value && forall|
            k: int,
        | 0 <= k < shown.len() && k != at ==> (#[trigger] shown[k]).label != label;
    assert(facts[at]@ == shown[at]);
    assert forall|k: int| 0 <= k < facts.len() && k != at implies (#[trigger] facts[k]).label@
        != label by {
        assert(shown[k] == facts[k]@);
    }
}

/// The drawers of a sale and of a purchase both show what is paid as paid and what is due
/// as due, beside the total.
pub proof fn sales_and_purchases_show_money_alike(
    principal: &Principal,
    record: &Record,
    products: &[LineProduct],
    allow_negative: bool,
    names: &BTreeMap<i64, String>,
    labels: &KindLabels,
    sale: DocumentDetail,
    purchase: DocumentDetail,
)
    requires
        call_ensures(
            sale_drawer,
            (principal, record, products, allow_negative, names, labels),
            sale,
        ),
        call_ensures(
            purchase_drawer,
            (principal, record, products, allow_negative, names, labels),
            purchase,
        ),
    ensures
        shows_once(sale.facts@, "Total"@, record.total@.text()),
        shows_once(sale.facts@, "Pagado"@, record.paid@.text()),
        shows_once(sale.facts@, "Saldo"@, record.due@.text()),
        shows_once(purchase.facts@, "Total"@, record.total@.text()),
        shows_once(purchase.facts@, "Pagado"@, record.paid@.text()),
        shows_once(purchase.facts@, "Saldo"@, record.due@.text()),
        sale.kind_label@ == labels.sale@,
        purchase.kind_label@ == labels.purchase@,
{
    let n = names@;
    records_say_their_own_amounts(
        Side::Sale,
        *principal,
        *record,
        products@,
        allow_negative,
        n,
        *labels,
    );
    records_say_their_own_amounts(
        Side::Purchase,
        *principal,
        *record,
        products@,
        allow_negative,
        n,
        *labels,
    );
    lemma_shows_once(sale.facts@, "Total"@, record.total@.text());
    lemma_shows_once(sale.facts@, "Pagado"@, record.paid@.text());
    lemma_shows_once(sale.facts@, "Saldo"@, record.due@.text());
    lemma_shows_once(purchase.facts@, "Total"@, record.total@.text());
    lemma_shows_once(purchase.facts@, "Pagado"@, record.paid@.text());
    lemma_shows_once(purchase.facts@, "Saldo"@, record.due@.text());
}

} // verus!
