//! Payments in the drawer: what was paid, where it is in the ledger, and the document
//! that it belongs to.

use std::collections::BTreeMap;

use vstd::prelude::*;
use vstd::string::*;

use crate::amount::Amount;
use crate::date::Date;
use crate::documents;
use crate::documents::{DocumentKind, KindLabels};
use crate::drawer;
use crate::drawer::{
    actor_facts, first_fact, push_fact, push_optional_fact, DetailView, DocumentDetail, DrawerFact,
    DrawerLink, DrawerParent, FactView, LinkView, ParentView,
};
use crate::error::{AppError, ErrorView};
use crate::records;
use crate::records::{record_href, record_title, DocumentStatus, Record, RecordPayment, Side};
use crate::text;
use crate::text::{concat2, concat3, concat5, id_text};
use crate::views;

verus! {

broadcast use crate::views::group_views;

/// An entry of the ledger that a payment or its refund made.
pub struct LedgerEntry {
    pub account_id: i64,
    pub kind: String,
    pub amount: Amount,
    pub date: Date,
}

/// A payment of a sale or a purchase, with its entries in the ledger: the original
/// one, and the refund of a cancelled document. Only a sale's payment can be grouped
/// by a receipt.
pub struct Payment {
    pub id: i64,
    pub amount: Amount,
    pub date: Date,
    pub original: Option<LedgerEntry>,
    pub refund: Option<LedgerEntry>,
    pub receipt_id: Option<i64>,
    pub created_by: i64,
    pub updated_by: Option<i64>,
}

/// The first listed payment with this id.
pub open spec fn listed_at(payments: Seq<RecordPayment>, id: i64, at: int) -> bool {
    &&& 0 <= at < payments.len()
    &&& payments[at].id == id
    &&& forall|k: int| 0 <= k < at ==> (#[trigger] payments[k]).id != id
}

/// The error for a payment that its own record does not list.
pub open spec fn unlisted_message(side: Side, id: i64) -> Seq<char> {
    "payment "@ + text::int_text(id as int) + (match side {
        Side::Sale => " missing from its own sale's record"@,
        Side::Purchase => " missing from its own purchase's record"@,
    })
}

/// The place of a payment in its own record, which the drawer takes the account and
/// the method from.
pub fn find_listed_payment(side: Side, record: &Record, id: i64) -> (at: Result<usize, AppError>)
    ensures
        match at {
            Ok(k) => listed_at(record.payments@, id, k as int),
            Err(e) => e@ == ErrorView::Internal(unlisted_message(side, id)) && forall|k: int|
                0 <= k < record.payments@.len() ==> (#[trigger] record.payments@[k]).id != id,
        },
{
    let mut i: usize = 0;
    while i < record.payments.len()
        invariant
            i <= record.payments.len(),
            forall|k: int| 0 <= k < i ==> (#[trigger] record.payments@[k]).id != id,
        decreases record.payments.len() - i,
    {
        if record.payments[i].id == id {
            return Ok(i);
        }
        i = i + 1;
    }
    let ending = match side {
        Side::Sale => " missing from its own sale's record",
        Side::Purchase => " missing from its own purchase's record",
    };
    Err(AppError::Internal(concat3("payment ", id_text(id).as_str(), ending)))
}

/// The address of the account that owns an entry.
pub open spec fn account_page(entry: LedgerEntry) -> Seq<char> {
    "/accounts/"@ + text::int_text(entry.account_id as int)
}

/// The link to the account of an entry, where there is one.
pub open spec fn entry_link(label: Seq<char>, entry: Option<LedgerEntry>) -> Seq<LinkView> {
    match entry {
        Some(e) => drawer::one(drawer::link(label, account_page(e))),
        None => Seq::empty(),
    }
}

/// The link to the customer whose receipt grouped the payment.
pub open spec fn receipt_link(side: Side, record: Record, payment: Payment) -> Seq<LinkView> {
    if side is Sale && payment.receipt_id is Some {
        drawer::one(
            drawer::link(
                "Ver recibo del cliente"@,
                "/customers/"@ + text::int_text(record.party_id as int),
            ),
        )
    } else {
        Seq::empty()
    }
}

/// The label of the link to the record page.
pub open spec fn open_label(side: Side) -> Seq<char> {
    match side {
        Side::Sale => "Abrir en Ventas"@,
        Side::Purchase => "Abrir en Compras"@,
    }
}

/// The links of a payment: its entries in the ledger, its receipt, and its document.
pub open spec fn payment_links(side: Side, record: Record, payment: Payment) -> Seq<LinkView> {
    entry_link("Ver asiento en Caja"@, payment.original) + entry_link(
        "Ver reembolso en Caja"@,
        payment.refund,
    ) + receipt_link(side, record, payment) + drawer::one(
        drawer::link(open_label(side), records::record_page(side, record.id)),
    )
}

/// An entry of the ledger in one line.
pub open spec fn entry_text(entry: LedgerEntry) -> Seq<char> {
    entry.kind@ + " · "@ + entry.amount@.text() + " · "@ + entry.date@.text()
}

/// The fact about an entry, where there is one.
pub open spec fn entry_fact(label: Seq<char>, entry: Option<LedgerEntry>) -> Seq<FactView> {
    match entry {
        Some(e) => drawer::one(drawer::fact(label, entry_text(e))),
        None => Seq::empty(),
    }
}

/// The fact about the receipt that grouped the payment.
pub open spec fn receipt_fact(side: Side, payment: Payment) -> Seq<FactView> {
    match payment.receipt_id {
        Some(id) => if side is Sale {
            drawer::one(drawer::fact("Recibo"@, "Recibo #"@ + text::int_text(id as int)))
        } else {
            Seq::empty()
        },
        None => Seq::empty(),
    }
}

/// The facts of a payment, in the order that the drawer lists them.
pub open spec fn payment_facts(
    side: Side,
    payment: Payment,
    listed: RecordPayment,
    names: Map<i64, String>,
) -> Seq<FactView> {
    drawer::one(drawer::fact("Monto"@, payment.amount@.text())) + drawer::one(
        drawer::fact("Fecha"@, payment.date@.text()),
    ) + drawer::one(drawer::fact("Cuenta"@, listed.account_name@)) + drawer::one(
        drawer::fact("Medio"@, listed.method_name@),
    ) + entry_fact("Asiento"@, payment.original) + entry_fact("Reembolso"@, payment.refund)
        + receipt_fact(side, payment) + drawer::one(
        drawer::created_fact(names, payment.created_by),
    ) + views::opt_seq(drawer::updated_fact(names, payment.updated_by))
}

/// The document that the payment belongs to, in short.
pub open spec fn payment_parent(side: Side, record: Record, labels: KindLabels) -> ParentView {
    ParentView {
        label: labels.of(side.kind()),
        title: drawer::title_of(views::opt_view(record.number), record.id),
        status_line: record.status.text(),
        facts: seq![
            drawer::fact("Total"@, record.total@.text()),
            drawer::fact("Pagado"@, record.paid@.text()),
            drawer::fact("Saldo"@, record.due@.text()),
        ],
        href: records::record_page(side, record.id),
    }
}

/// The family of a side's payments.
pub open spec fn payment_kind(side: Side) -> DocumentKind {
    match side {
        Side::Sale => DocumentKind::SalePayment,
        Side::Purchase => DocumentKind::PurchasePayment,
    }
}

/// Why a payment offers no action.
pub open spec fn payment_notice() -> Seq<char> {
    "El pago no se edita ni se elimina: el dinero ya está en la caja y el asiento queda. Si el documento se anula, el reembolso lo registra la anulación, no una edición manual."@
}

/// What the drawer shows of a payment. It offers no action: the money is already in
/// the ledger.
pub open spec fn payment_detail(
    side: Side,
    payment: Payment,
    record: Record,
    listed: RecordPayment,
    names: Map<i64, String>,
    labels: KindLabels,
) -> DetailView {
    let document = drawer::title_of(views::opt_view(record.number), record.id);
    DetailView {
        kind_token: payment_kind(side).url_token(),
        kind_label: labels.of(payment_kind(side)),
        title: "Pago de "@ + document,
        status_line: "Pago · "@ + payment.date@.text() + " · "@ + record.status.text(),
        facts: payment_facts(side, payment, listed, names),
        tables: Seq::empty(),
        parent: Some(payment_parent(side, record, labels)),
        actions: Seq::empty(),
        notice: Some(payment_notice()),
        links: payment_links(side, record, payment),
    }
}

/// What opening the drawer of a payment comes to.
pub open spec fn payment_opening(
    side: Side,
    payment: Payment,
    record: Record,
    names: Map<i64, String>,
    labels: KindLabels,
    outcome: Result<DetailView, ErrorView>,
) -> bool {
    match outcome {
        Ok(detail) => exists|at: int|
            #![trigger record.payments@[at]]
            listed_at(record.payments@, payment.id, at) && detail == payment_detail(
                side,
                payment,
                record,
                record.payments@[at],
                names,
                labels,
            ),
        Err(e) => e == ErrorView::Internal(unlisted_message(side, payment.id)) && forall|k: int|
            0 <= k < record.payments@.len() ==> (#[trigger] record.payments@[k]).id != payment.id,
    }
}

fn push_link(links: &mut Vec<DrawerLink>, label: &str, href: String)
    ensures
        views::views(final(links)@) == views::views(old(links)@) + drawer::one(
            drawer::link(label@, href@),
        ),
{
    links.push(DrawerLink { label: label.to_owned(), href });
}

fn push_entry_link(links: &mut Vec<DrawerLink>, label: &str, entry: &Option<LedgerEntry>)
    ensures
        views::views(final(links)@) == views::views(old(links)@) + entry_link(label@, *entry),
{
    match entry {
        Some(e) => {
            let href = concat2("/accounts/", id_text(e.account_id).as_str());
            push_link(links, label, href);
        },
        None => {
            proof {
                assert(views::views(links@) + Seq::<LinkView>::empty() =~= views::views(links@));
            }
        },
    }
}

fn links_of_payment(side: Side, record: &Record, payment: &Payment) -> (links: Vec<DrawerLink>)
    ensures
        views::views(links@) == payment_links(side, *record, *payment),
{
    let mut links: Vec<DrawerLink> = Vec::new();
    push_entry_link(&mut links, "Ver asiento en Caja", &payment.original);
    proof {
        assert(views::views(links@) =~= entry_link("Ver asiento en Caja"@, payment.original));
    }
    push_entry_link(&mut links, "Ver reembolso en Caja", &payment.refund);
    let grouped = match side {
        Side::Sale => payment.receipt_id.is_some(),
        Side::Purchase => false,
    };
    if grouped {
        let href = concat2("/customers/", id_text(record.party_id).as_str());
        push_link(&mut links, "Ver recibo del cliente", href);
    } else {
        proof {
            assert(views::views(links@) + Seq::<LinkView>::empty() =~= views::views(links@));
        }
    }
    let label = match side {
        Side::Sale => "Abrir en Ventas",
        Side::Purchase => "Abrir en Compras",
    };
    push_link(&mut links, label, record_href(side, record.id));
    links
}

fn push_entry_fact(facts: &mut Vec<DrawerFact>, label: &'static str, entry: &Option<LedgerEntry>)
    ensures
        views::views(final(facts)@) == views::views(old(facts)@) + entry_fact(label@, *entry),
{
    match entry {
        Some(e) => {
            let value = concat5(
                e.kind.as_str(),
                " · ",
                e.amount.text().as_str(),
                " · ",
                e.date.text().as_str(),
            );
            push_fact(facts, label, value);
        },
        None => {
            proof {
                assert(views::views(facts@) + Seq::<FactView>::empty() =~= views::views(facts@));
            }
        },
    }
}

fn facts_of_payment(
    side: Side,
    payment: &Payment,
    listed: &RecordPayment,
    names: &BTreeMap<i64, String>,
) -> (facts: Vec<DrawerFact>)
    ensures
        views::views(facts@) == payment_facts(side, *payment, *listed, names@),
{
    let (created, updated) = actor_facts(names, payment.created_by, payment.updated_by);
    let mut facts = first_fact("Monto", payment.amount.text());
    push_fact(&mut facts, "Fecha", payment.date.text());
    push_fact(&mut facts, "Cuenta", listed.account_name.clone());
    push_fact(&mut facts, "Medio", listed.method_name.clone());
    push_entry_fact(&mut facts, "Asiento", &payment.original);
    push_entry_fact(&mut facts, "Reembolso", &payment.refund);
    let receipt = match side {
        Side::Sale => payment.receipt_id,
        Side::Purchase => None,
    };
    match receipt {
        Some(id) => {
            push_fact(&mut facts, "Recibo", concat2("Recibo #", id_text(id).as_str()));
        },
        None => {
            proof {
                assert(views::views(facts@) + Seq::<FactView>::empty() =~= views::views(facts@));
            }
        },
    }
    facts.push(created);
    push_optional_fact(&mut facts, updated);
    facts
}

fn parent_of_payment(side: Side, record: &Record, labels: &KindLabels) -> (parent: DrawerParent)
    ensures
        parent@ == payment_parent(side, *record, *labels),
{
    let kind = match side {
        Side::Sale => DocumentKind::Sale,
        Side::Purchase => DocumentKind::Purchase,
    };
    let mut facts = first_fact("Total", record.total.text());
    push_fact(&mut facts, "Pagado", record.paid.text());
    push_fact(&mut facts, "Saldo", record.due.text());
    proof {
        assert(views::views(facts@) =~= payment_parent(side, *record, *labels).facts);
    }
    DrawerParent {
        label: labels.label(kind),
        title: record_title(record),
        status_line: record.status.name().to_owned(),
        facts,
        href: record_href(side, record.id),
    }
}

fn payment_drawer(
    side: Side,
    payment: &Payment,
    record: &Record,
    names: &BTreeMap<i64, String>,
    labels: &KindLabels,
) -> (detail: Result<DocumentDetail, AppError>)
    ensures
        payment_opening(
            side,
            *payment,
            *record,
            names@,
            *labels,
            match detail {
                Ok(d) => Ok::<DetailView, ErrorView>(d@),
                Err(e) => Err::<DetailView, ErrorView>(e@),
            },
        ),
{
    let at: usize = match find_listed_payment(side, record, payment.id) {
        Ok(at) => at,
        Err(e) => {
            return Err(e);
        },
    };
    let listed = &record.payments[at];
    let kind = match side {
        Side::Sale => DocumentKind::SalePayment,
        Side::Purchase => DocumentKind::PurchasePayment,
    };
    let tables: Vec<drawer::DrawerTable> = Vec::new();
    let actions: Vec<drawer::DrawerAction> = Vec::new();
    let detail = DocumentDetail {
        kind_token: kind.token().to_owned(),
        kind_label: labels.label(kind),
        title: concat2("Pago de ", record_title(record).as_str()),
        status_line: concat2(
            concat3("Pago · ", payment.date.text().as_str(), " · ").as_str(),
            record.status.name(),
        ),
        facts: facts_of_payment(side, payment, listed, names),
        tables,
        parent: Some(parent_of_payment(side, record, labels)),
        actions,
        notice: Some(
            "El pago no se edita ni se elimina: el dinero ya está en la caja y el asiento queda. Si el documento se anula, el reembolso lo registra la anulación, no una edición manual.".to_owned(),
        ),
        links: links_of_payment(side, record, payment),
    };
    proof {
        assert(detail@ == payment_detail(
            side,
            *payment,
            *record,
            record.payments@[at as int],
            names@,
            *labels,
        ));
    }
    Ok(detail)
}

/// The drawer of a sale's payment. It fails where the sale does not list the payment.
pub fn sale_payment_drawer(
    payment: &Payment,
    record: &Record,
    names: &BTreeMap<i64, String>,
    labels: &KindLabels,
) -> (detail: Result<DocumentDetail, AppError>)
    ensures
        payment_opening(
            Side::Sale,
            *payment,
            *record,
            names@,
            *labels,
            match detail {
                Ok(d) => Ok::<DetailView, ErrorView>(d@),
                Err(e) => Err::<DetailView, ErrorView>(e@),
            },
        ),
{
    payment_drawer(Side::Sale, payment, record, names, labels)
}

/// The drawer of a purchase's payment. It fails where the purchase does not list the
/// payment.
pub fn purchase_payment_drawer(
    payment: &Payment,
    record: &Record,
    names: &BTreeMap<i64, String>,
    labels: &KindLabels,
) -> (detail: Result<DocumentDetail, AppError>)
    ensures
        payment_opening(
            Side::Purchase,
            *payment,
            *record,
            names@,
            *labels,
            match detail {
                Ok(d) => Ok::<DetailView, ErrorView>(d@),
                Err(e) => Err::<DetailView, ErrorView>(e@),
            },
        ),
{
    payment_drawer(Side::Purchase, payment, record, names, labels)
}

/// A payment's drawer has one answer: the detail it shows, or the error, never two.
pub proof fn payment_openings_are_unique(
    side: Side,
    payment: Payment,
    record: Record,
    names: Map<i64, String>,
    labels: KindLabels,
    a: Result<DetailView, ErrorView>,
    b: Result<DetailView, ErrorView>,
)
    requires
        payment_opening(side, payment, record, names, labels, a),
        payment_opening(side, payment, record, names, labels, b),
    ensures
        a == b,
{
    match (a, b) {
        (Ok(x), Ok(y)) => {
            let i = choose|at: int|
                #![trigger record.payments@[at]]
                listed_at(record.payments@, payment.id, at) && x == payment_detail(
                    side,
                    payment,
                    record,
                    record.payments@[at],
                    names,
                    labels,
                );
            let j = choose|at: int|
                #![trigger record.payments@[at]]
                listed_at(record.payments@, payment.id, at) && y == payment_detail(
                    side,
                    payment,
                    record,
                    record.payments@[at],
                    names,
                    labels,
                );
            assert(record.payments@[i].id == payment.id);
            assert(record.payments@[j].id == payment.id);
            assert(i == j);
        },
        _ => {},
    }
}

/// The document that a payment's drawer leads back to has a page that whoever opened
/// the drawer may open.
pub proof fn payment_drawers_lead_to_readable_documents(side: Side, id: i64)
    ensures
        records::record_page(side, id) == documents::page_address(
            payment_kind(side).owner_page(),
            id,
        ),
        documents::page_reader(payment_kind(side).owner_page()) == payment_kind(side).reader(),
{
}

/// No payment can be acted on from its drawer, and the drawer always leads back to
/// the document.
pub proof fn payments_offer_nothing_but_their_document(
    side: Side,
    payment: Payment,
    record: Record,
    names: Map<i64, String>,
    labels: KindLabels,
    detail: DetailView,
)
    requires
        payment_opening(side, payment, record, names, labels, Ok(detail)),
    ensures
        detail.actions.len() == 0,
        detail.links.last() == drawer::link(
            open_label(side),
            records::record_page(side, record.id),
        ),
        detail.parent == Some(payment_parent(side, record, labels)),
{
    let shown = payment_links(side, record, payment);
    assert(shown.last() == drawer::link(open_label(side), records::record_page(side, record.id)));
}

/// The labels of a payment's facts are all different.
proof fn lemma_payment_labels_differ()
    ensures
        seq![
            "Monto"@,
            "Fecha"@,
            "Cuenta"@,
            "Medio"@,
            "Asiento"@,
            "Reembolso"@,
            "Recibo"@,
            "Registrado por"@,
            "Actualizado por"@,
            "Total"@,
            "Pagado"@,
            "Saldo"@,
        ].no_duplicates(),
{
    reveal_strlit("Monto");
    reveal_strlit("Fecha");
    reveal_strlit("Cuenta");
    reveal_strlit("Medio");
    reveal_strlit("Asiento");
    reveal_strlit("Reembolso");
    reveal_strlit("Recibo");
    reveal_strlit("Registrado por");
    reveal_strlit("Actualizado por");
    reveal_strlit("Total");
    reveal_strlit("Pagado");
    reveal_strlit("Saldo");
    let all = seq![
        "Monto"@,
        "Fecha"@,
        "Cuenta"@,
        "Medio"@,
        "Asiento"@,
        "Reembolso"@,
        "Recibo"@,
        "Registrado por"@,
        "Actualizado por"@,
        "Total"@,
        "Pagado"@,
        "Saldo"@,
    ];
    assert forall|i: int, j: int| 0 <= i < all.len() && 0 <= j < all.len() && i != j implies all[i]
        != all[j] by {
        assert(all[i].len() != all[j].len() || all[i][0] != all[j][0] || all[i][1] != all[j][1]);
    }
}

/// A list of no fact says nothing.
proof fn lemma_no_fact(label: Seq<char>)
    ensures
        drawer::says_nothing_of(Seq::<FactView>::empty(), label),
        drawer::labels_of(Seq::<FactView>::empty()) == Seq::<Seq<char>>::empty(),
{
    reveal(drawer::says_nothing_of);
    reveal(drawer::labels_of);
    assert(drawer::labels_of(Seq::<FactView>::empty()) =~= Seq::<Seq<char>>::empty());
}

/// A payment's drawer opens exactly where the record lists the payment, and fails by
/// naming the payment anywhere else.
pub proof fn listed_payments_open(
    side: Side,
    payment: Payment,
    record: Record,
    names: Map<i64, String>,
    labels: KindLabels,
    outcome: Result<DetailView, ErrorView>,
)
    requires
        payment_opening(side, payment, record, names, labels, outcome),
    ensures
        outcome is Ok <==> exists|k: int|
            0 <= k < record.payments@.len() && (#[trigger] record.payments@[k]).id == payment.id,
        outcome matches Err(e) ==> e == ErrorView::Internal(
            "payment "@ + text::int_text(payment.id as int) + (if side is Sale {
                " missing from its own sale's record"@
            } else {
                " missing from its own purchase's record"@
            }),
        ),
{
}

/// The facts of a payment: the amount and the date of the payment, the account and the
/// method of its first listing in the record, its entry and its refund in the ledger,
/// the receipt of a sale's payment, and who wrote it. Each stands under its own label,
/// once, and an optional one only where there is something to show.
pub proof fn payments_say_what_was_paid(
    side: Side,
    payment: Payment,
    record: Record,
    names: Map<i64, String>,
    labels: KindLabels,
    detail: DetailView,
    at: int,
)
    requires
        payment_opening(side, payment, record, names, labels, Ok(detail)),
        0 <= at < record.payments@.len(),
        record.payments@[at].id == payment.id,
        forall|k: int| 0 <= k < at ==> (#[trigger] record.payments@[k]).id != payment.id,
    ensures
        drawer::says_once(detail.facts, "Monto"@, payment.amount@.text()),
        drawer::says_once(detail.facts, "Fecha"@, payment.date@.text()),
        drawer::says_once(detail.facts, "Cuenta"@, record.payments@[at].account_name@),
        drawer::says_once(detail.facts, "Medio"@, record.payments@[at].method_name@),
        payment.original matches Some(e) ==> drawer::says_once(
            detail.facts,
            "Asiento"@,
            e.kind@ + " · "@ + e.amount@.text() + " · "@ + e.date@.text(),
        ),
        payment.original is None ==> drawer::says_nothing_of(detail.facts, "Asiento"@),
        payment.refund matches Some(e) ==> drawer::says_once(
            detail.facts,
            "Reembolso"@,
            e.kind@ + " · "@ + e.amount@.text() + " · "@ + e.date@.text(),
        ),
        payment.refund is None ==> drawer::says_nothing_of(detail.facts, "Reembolso"@),
        payment.receipt_id matches Some(id) ==> side is Sale ==> drawer::says_once(
            detail.facts,
            "Recibo"@,
            "Recibo #"@ + text::int_text(id as int),
        ),
        payment.receipt_id is None || side is Purchase ==> drawer::says_nothing_of(
            detail.facts,
            "Recibo"@,
        ),
        drawer::says_once(
            detail.facts,
            "Registrado por"@,
            if names.contains_key(payment.created_by) {
                names[payment.created_by]@
            } else {
                "(sistema)"@
            },
        ),
        payment.updated_by matches Some(id) ==> drawer::says_once(
            detail.facts,
            "Actualizado por"@,
            if names.contains_key(id) {
                names[id]@
            } else {
                "(sistema)"@
            },
        ),
        payment.updated_by is None ==> drawer::says_nothing_of(detail.facts, "Actualizado por"@),
        drawer::labels_of(detail.facts) == seq!["Monto"@] + seq!["Fecha"@] + seq!["Cuenta"@]
            + seq!["Medio"@] + drawer::label_if(payment.original is Some, "Asiento"@)
            + drawer::label_if(payment.refund is Some, "Reembolso"@) + drawer::label_if(
            side is Sale && payment.receipt_id is Some,
            "Recibo"@,
        ) + seq!["Registrado por"@] + drawer::label_if(
            payment.updated_by is Some,
            "Actualizado por"@,
        ),
{
    broadcast use drawer::group_facts;

    lemma_payment_labels_differ();
    let found = choose|found: int|
        #![trigger record.payments@[found]]
        listed_at(record.payments@, payment.id, found) && detail == payment_detail(
            side,
            payment,
            record,
            record.payments@[found],
            names,
            labels,
        );
    assert(record.payments@[found].id == payment.id);
    assert(found == at);
    assert forall|label: Seq<char>| #[trigger]
        drawer::says_nothing_of(Seq::<FactView>::empty(), label) by {
        lemma_no_fact(label);
    }
    lemma_no_fact("Monto"@);
}

/// The head of a payment's drawer names the document, the day of the payment and the
/// status of the document.
pub proof fn payment_drawers_name_their_document(
    side: Side,
    payment: Payment,
    record: Record,
    names: Map<i64, String>,
    labels: KindLabels,
    detail: DetailView,
)
    requires
        payment_opening(side, payment, record, names, labels, Ok(detail)),
    ensures
        side is Sale ==> detail.kind_token == "sale_payment"@ && detail.kind_label
            == labels.sale_payment@,
        side is Purchase ==> detail.kind_token == "purchase_payment"@ && detail.kind_label
            == labels.purchase_payment@,
        record.number matches Some(n) ==> detail.title == "Pago de "@ + n@,
        record.number is None ==> detail.title == "Pago de "@ + ("Draft #"@ + text::int_text(
            record.id as int,
        )),
        detail.status_line == "Pago · "@ + payment.date@.text() + " · "@ + (match record.status {
            DocumentStatus::Draft => "Draft"@,
            DocumentStatus::Confirmed => "Confirmed"@,
            DocumentStatus::Cancelled => "Cancelled"@,
        }),
        detail.tables.len() == 0,
        detail.actions.len() == 0,
        detail.notice == Some(
            "El pago no se edita ni se elimina: el dinero ya está en la caja y el asiento queda. Si el documento se anula, el reembolso lo registra la anulación, no una edición manual."@,
        ),
{
}

/// The parent that a payment's drawer shows is the record: its family, its name, its
/// status, its own amounts each under its label, and its page.
pub proof fn payment_parents_are_their_record(
    side: Side,
    payment: Payment,
    record: Record,
    names: Map<i64, String>,
    labels: KindLabels,
    detail: DetailView,
)
    requires
        payment_opening(side, payment, record, names, labels, Ok(detail)),
    ensures
        detail.parent matches Some(parent) && {
            &&& parent.label == if side is Sale {
                labels.sale@
            } else {
                labels.purchase@
            }
            &&& record.number matches Some(n) ==> parent.title == n@
            &&& record.number is None ==> parent.title == "Draft #"@ + text::int_text(
                record.id as int,
            )
            &&& record.status is Draft ==> parent.status_line == "Draft"@
            &&& record.status is Confirmed ==> parent.status_line == "Confirmed"@
            &&& record.status is Cancelled ==> parent.status_line == "Cancelled"@
            &&& parent.facts.len() == 3
            &&& parent.facts[0].label == "Total"@
            &&& parent.facts[0].value == record.total@.text()
            &&& parent.facts[1].label == "Pagado"@
            &&& parent.facts[1].value == record.paid@.text()
            &&& parent.facts[2].label == "Saldo"@
            &&& parent.facts[2].value == record.due@.text()
            &&& parent.href == (if side is Sale {
                "/sales/"@
            } else {
                "/purchases/"@
            }) + text::int_text(record.id as int)
        },
{
}

/// Money reads alike everywhere: a sale and a purchase with the same amounts show the
/// same three facts one after the other, and they are those that a payment's drawer
/// shows of the document that it belongs to.
pub proof fn money_reads_alike_everywhere(
    side: Side,
    record: Record,
    record_names: Map<i64, String>,
    paid_side: Side,
    payment: Payment,
    paid_record: Record,
    names: Map<i64, String>,
    labels: KindLabels,
    detail: DetailView,
)
    requires
        record.total@ == paid_record.total@,
        record.paid@ == paid_record.paid@,
        record.due@ == paid_record.due@,
        payment_opening(paid_side, payment, paid_record, names, labels, Ok(detail)),
    ensures
        exists|at: int|
            0 <= at && at + 3 <= records::record_facts(side, record, record_names).len()
                && #[trigger] records::record_facts(side, record, record_names).subrange(at, at + 3)
                == detail.parent->0.facts,
{
    let facts = records::record_facts(side, record, record_names);
    let before: int = 3int + views::opt_seq(
        drawer::optional_fact("Vencimiento"@, records::date_fact(record.due_date)),
    ).len() + views::opt_seq(
        drawer::optional_fact(side.reference_label(), views::opt_view(record.reference_no)),
    ).len() + views::opt_seq(drawer::optional_fact("Notas"@, Some(record.notes@))).len()
        + views::opt_seq(
        drawer::optional_fact("Motivo de anulación"@, views::opt_view(record.cancel_reason)),
    ).len();
    let money = detail.parent->0.facts;
    assert(money.len() == 3);
    assert(facts[before] == money[0]);
    assert(facts[before + 1] == money[1]);
    assert(facts[before + 2] == money[2]);
    assert(facts.subrange(before, before + 3) =~= money);
}

/// The links of a payment, in order: to the account of its entry and to that of its
/// refund where it has them, to the customer where a receipt grouped a sale's payment,
/// and always to the record.
pub proof fn payments_link_to_where_the_money_is(
    side: Side,
    payment: Payment,
    record: Record,
    names: Map<i64, String>,
    labels: KindLabels,
    detail: DetailView,
)
    requires
        payment_opening(side, payment, record, names, labels, Ok(detail)),
    ensures
        ({
            let first: int = if payment.original is Some {
                1
            } else {
                0
            };
            let second: int = if payment.refund is Some {
                1
            } else {
                0
            };
            let third: int = if side is Sale && payment.receipt_id is Some {
                1
            } else {
                0
            };
            &&& detail.links.len() == first + second + third + 1
            &&& payment.original matches Some(e) ==> detail.links[0].label
                == "Ver asiento en Caja"@ && detail.links[0].href == "/accounts/"@
                + text::int_text(e.account_id as int)
            &&& payment.refund matches Some(e) ==> detail.links[first].label
                == "Ver reembolso en Caja"@ && detail.links[first].href == "/accounts/"@
                + text::int_text(e.account_id as int)
            &&& third == 1 ==> detail.links[first + second].label == "Ver recibo del cliente"@
                && detail.links[first + second].href == "/customers/"@ + text::int_text(
                record.party_id as int,
            )
            &&& detail.links[first + second + third].label == (if side is Sale {
                "Abrir en Ventas"@
            } else {
                "Abrir en Compras"@
            })
            &&& detail.links[first + second + third].href == (if side is Sale {
                "/sales/"@
            } else {
                "/purchases/"@
            }) + text::int_text(record.id as int)
        }),
{
}

} // verus!
