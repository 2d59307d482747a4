//! Collection receipts in the drawer: the payments that one handover of money made.

use std::collections::BTreeMap;

use vstd::prelude::*;
use vstd::string::*;

use crate::amount::Amount;
use crate::date::Date;
use crate::documents;
use crate::documents::{DocumentKind, KindLabels};
use crate::drawer;
use crate::drawer::{
    actor_facts, cells3, first_fact, push_fact, push_optional_fact, DetailView, DocumentDetail,
    DrawerFact, DrawerLink, DrawerTable, DrawerTableRow, FactView, TableRowView, TableView,
};
use crate::text;
use crate::text::{concat2, count_text, id_text};
use crate::views;

verus! {

broadcast use crate::views::group_views;

/// What a receipt applied to one sale.
pub struct Allocation {
    pub sale_id: i64,
    pub sale_number: Option<String>,
    pub date: Date,
    pub amount: Amount,
}

/// A receipt with the payments that it groups, and the names resolved.
pub struct ReceiptDetail {
    pub id: i64,
    pub customer_id: i64,
    pub customer_name: String,
    pub date: Date,
    pub notes: Option<String>,
    pub account_name: String,
    pub method_name: String,
    pub total: Amount,
    pub allocations: Vec<Allocation>,
    pub created_by: i64,
    pub updated_by: Option<i64>,
}

/// The facts of a receipt, in the order that the drawer lists them.
pub open spec fn receipt_facts(receipt: ReceiptDetail, names: Map<i64, String>) -> Seq<FactView> {
    drawer::one(drawer::fact("Cliente"@, receipt.customer_name@)) + drawer::one(
        drawer::fact("Fecha"@, receipt.date@.text()),
    ) + drawer::one(drawer::fact("Cuenta"@, receipt.account_name@)) + drawer::one(
        drawer::fact("Medio"@, receipt.method_name@),
    ) + views::opt_seq(drawer::optional_fact("Notas"@, views::opt_view(receipt.notes)))
        + drawer::one(drawer::fact("Total"@, receipt.total@.text())) + drawer::one(
        drawer::fact("Asignaciones"@, text::nat_text(receipt.allocations@.len())),
    ) + drawer::one(drawer::created_fact(names, receipt.created_by)) + views::opt_seq(
        drawer::updated_fact(names, receipt.updated_by),
    )
}

/// The name that a sale answers by: its number, or its id.
pub open spec fn sale_name(allocation: Allocation) -> Seq<char> {
    match allocation.sale_number {
        Some(number) => number@,
        None => "Venta #"@ + text::int_text(allocation.sale_id as int),
    }
}

/// One row of the table of allocations; the sale's name opens the sale.
pub open spec fn allocation_row(allocation: Allocation) -> TableRowView {
    TableRowView {
        cells: seq![
            sale_name(allocation),
            allocation.date@.text(),
            allocation.amount@.text(),
        ],
        href: Some("/sales/"@ + text::int_text(allocation.sale_id as int)),
    }
}

/// The table of allocations.
pub open spec fn allocation_table(receipt: ReceiptDetail) -> TableView {
    TableView {
        title: "Asignaciones"@,
        headers: seq!["Venta"@, "Fecha"@, "Monto"@],
        rows: receipt.allocations@.map_values(|a: Allocation| allocation_row(a)),
    }
}

/// What the drawer shows of a receipt. It offers no action: the receipt explains the
/// payments that it groups.
pub open spec fn receipt_detail(
    receipt: ReceiptDetail,
    names: Map<i64, String>,
    labels: KindLabels,
) -> DetailView {
    DetailView {
        kind_token: DocumentKind::Receipt.url_token(),
        kind_label: labels.of(DocumentKind::Receipt),
        title: "Recibo #"@ + text::int_text(receipt.id as int),
        status_line: "Cobro"@,
        facts: receipt_facts(receipt, names),
        tables: seq![allocation_table(receipt)],
        parent: None,
        actions: Seq::empty(),
        notice: Some(
            "El recibo agrupa los pagos de un cobro: mientras los explique, la base rechaza eliminarlo."@,
        ),
        links: seq![
            drawer::link(
                "Abrir en Clientes"@,
                "/customers/"@ + text::int_text(receipt.customer_id as int),
            ),
        ],
    }
}

fn allocation_rows(allocations: &[Allocation]) -> (rows: Vec<DrawerTableRow>)
    ensures
        views::views(rows@) == allocations@.map_values(|a: Allocation| allocation_row(a)),
{
    let mut rows: Vec<DrawerTableRow> = Vec::new();
    let mut i: usize = 0;
    while i < allocations.len()
        invariant
            i <= allocations.len(),
            rows@.len() == i,
            forall|k: int| 0 <= k < i ==> (#[trigger] rows@[k])@ == allocation_row(allocations@[k]),
        decreases allocations.len() - i,
    {
        let allocation = &allocations[i];
        let id = id_text(allocation.sale_id);
        let name = match &allocation.sale_number {
            Some(number) => number.clone(),
            None => concat2("Venta #", id.as_str()),
        };
        rows.push(
            DrawerTableRow {
                cells: cells3(name, allocation.date.text(), allocation.amount.text()),
                href: Some(concat2("/sales/", id.as_str())),
            },
        );
        i = i + 1;
    }
    proof {
        assert(views::views(rows@) =~= allocations@.map_values(|a: Allocation| allocation_row(a)));
    }
    rows
}

/// The drawer of a receipt.
pub fn receipt_drawer(
    receipt: &ReceiptDetail,
    names: &BTreeMap<i64, String>,
    labels: &KindLabels,
) -> (detail: DocumentDetail)
    ensures
        detail@ == receipt_detail(*receipt, names@, *labels),
{
    let (created, updated) = actor_facts(names, receipt.created_by, receipt.updated_by);
    let mut facts = first_fact("Cliente", receipt.customer_name.clone());
    push_fact(&mut facts, "Fecha", receipt.date.text());
    push_fact(&mut facts, "Cuenta", receipt.account_name.clone());
    push_fact(&mut facts, "Medio", receipt.method_name.clone());
    push_optional_fact(&mut facts, DrawerFact::when_non_empty("Notas", receipt.notes.clone()));
    push_fact(&mut facts, "Total", receipt.total.text());
    push_fact(&mut facts, "Asignaciones", count_text(receipt.allocations.len()));
    facts.push(created);
    push_optional_fact(&mut facts, updated);
    let mut headers: Vec<&'static str> = Vec::new();
    headers.push("Venta");
    headers.push("Fecha");
    headers.push("Monto");
    proof {
        assert(views::views(headers@) =~= allocation_table(*receipt).headers);
    }
    let mut tables: Vec<DrawerTable> = Vec::new();
    tables.push(
        DrawerTable { title: "Asignaciones", headers, rows: allocation_rows(&receipt.allocations) },
    );
    let mut links: Vec<DrawerLink> = Vec::new();
    links.push(
        DrawerLink {
            label: "Abrir en Clientes".to_owned(),
            href: concat2("/customers/", id_text(receipt.customer_id).as_str()),
        },
    );
    proof {
        assert(views::views(tables@) =~= seq![allocation_table(*receipt)]);
        assert(views::views(links@) =~= receipt_detail(*receipt, names@, *labels).links);
    }
    let actions: Vec<drawer::DrawerAction> = Vec::new();
    DocumentDetail {
        kind_token: DocumentKind::Receipt.token().to_owned(),
        kind_label: labels.label(DocumentKind::Receipt),
        title: concat2("Recibo #", id_text(receipt.id).as_str()),
        status_line: "Cobro".to_owned(),
        facts,
        tables,
        parent: None,
        actions,
        notice: Some(
            "El recibo agrupa los pagos de un cobro: mientras los explique, la base rechaza eliminarlo.".to_owned(),
        ),
        links,
    }
}

/// The page at the foot of a receipt's drawer is one that whoever opened the drawer may
/// open.
pub proof fn receipt_drawers_lead_to_readable_pages(
    receipt: ReceiptDetail,
    names: Map<i64, String>,
    labels: KindLabels,
)
    ensures
        receipt_detail(receipt, names, labels).links.len() == 1,
        receipt_detail(receipt, names, labels).links[0].href == documents::page_address(
            DocumentKind::Receipt.owner_page(),
            receipt.customer_id,
        ),
        documents::page_reader(DocumentKind::Receipt.owner_page())
            == DocumentKind::Receipt.reader(),
{
}

/// Every allocation is counted and shown, and its row opens the sale that it was applied
/// to.
pub proof fn receipts_show_every_allocation(
    receipt: ReceiptDetail,
    names: Map<i64, String>,
    labels: KindLabels,
    at: int,
)
    requires
        0 <= at < receipt.allocations@.len(),
    ensures
        ({
            let rows = receipt_detail(receipt, names, labels).tables[0].rows;
            &&& rows.len() == receipt.allocations@.len()
            &&& rows[at].href == Some(
                documents::page_address(
                    DocumentKind::Sale.owner_page(),
                    receipt.allocations@[at].sale_id,
                ),
            )
        }),
{
}

/// The labels of a receipt's facts are all different.
proof fn lemma_receipt_labels_differ()
    ensures
        seq![
            "Cliente"@,
            "Fecha"@,
            "Cuenta"@,
            "Medio"@,
            "Notas"@,
            "Total"@,
            "Asignaciones"@,
            "Registrado por"@,
            "Actualizado por"@,
        ].no_duplicates(),
{
    reveal_strlit("Cliente");
    reveal_strlit("Fecha");
    reveal_strlit("Cuenta");
    reveal_strlit("Medio");
    reveal_strlit("Notas");
    reveal_strlit("Total");
    reveal_strlit("Asignaciones");
    reveal_strlit("Registrado por");
    reveal_strlit("Actualizado por");
    let all = seq![
        "Cliente"@,
        "Fecha"@,
        "Cuenta"@,
        "Medio"@,
        "Notas"@,
        "Total"@,
        "Asignaciones"@,
        "Registrado por"@,
        "Actualizado por"@,
    ];
    assert forall|i: int, j: int| 0 <= i < all.len() && 0 <= j < all.len() && i != j implies all[i]
        != all[j] by {
        assert(all[i].len() != all[j].len() || all[i][0] != all[j][0] || all[i][1] != all[j][1]);
    }
}

/// The facts of a receipt: whose money, when, into which account and by which method, how
/// much in all and over how many sales, and who wrote it; each under its own label, once,
/// in this order.
pub proof fn receipts_say_what_was_collected(
    receipt: ReceiptDetail,
    names: Map<i64, String>,
    labels: KindLabels,
)
    ensures
        ({
            let facts = receipt_detail(receipt, names, labels).facts;
            &&& drawer::says_once(facts, "Cliente"@, receipt.customer_name@)
            &&& drawer::says_once(facts, "Fecha"@, receipt.date@.text())
            &&& drawer::says_once(facts, "Cuenta"@, receipt.account_name@)
            &&& drawer::says_once(facts, "Medio"@, receipt.method_name@)
            &&& drawer::says_if_any(facts, "Notas"@, views::opt_view(receipt.notes))
            &&& drawer::says_once(facts, "Total"@, receipt.total@.text())
            &&& drawer::says_once(
                facts,
                "Asignaciones"@,
                text::nat_text(receipt.allocations@.len()),
            )
            &&& drawer::says_once(
                facts,
                "Registrado por"@,
                if names.contains_key(receipt.created_by) {
                    names[receipt.created_by]@
                } else {
                    "(sistema)"@
                },
            )
            &&& receipt.updated_by matches Some(id) ==> drawer::says_once(
                facts,
                "Actualizado por"@,
                if names.contains_key(id) {
                    names[id]@
                } else {
                    "(sistema)"@
                },
            )
            &&& drawer::labels_of(facts) == seq!["Cliente"@] + seq!["Fecha"@] + seq!["Cuenta"@]
                + seq!["Medio"@] + drawer::label_if(
                receipt.notes is Some && receipt.notes->0@.len() > 0,
                "Notas"@,
            ) + seq!["Total"@] + seq!["Asignaciones"@] + seq!["Registrado por"@]
                + drawer::label_if(receipt.updated_by is Some, "Actualizado por"@)
        }),
{
    broadcast use drawer::group_facts;

    lemma_receipt_labels_differ();
}

/// The table of a receipt has one row for each allocation, in their order: the sale by its
/// number or its id, the day, the amount, and the page of the sale.
pub proof fn receipt_rows_are_their_allocations(
    receipt: ReceiptDetail,
    names: Map<i64, String>,
    labels: KindLabels,
)
    ensures
        ({
            let tables = receipt_detail(receipt, names, labels).tables;
            &&& tables.len() == 1
            &&& tables[0].title == "Asignaciones"@
            &&& tables[0].headers == seq!["Venta"@, "Fecha"@, "Monto"@]
            &&& tables[0].rows.len() == receipt.allocations@.len()
            &&& forall|i: int|
                0 <= i < receipt.allocations@.len() ==> {
                    let row = #[trigger] tables[0].rows[i];
                    let id = text::int_text(receipt.allocations@[i].sale_id as int);
                    &&& row.cells.len() == 3
                    &&& row.cells[0] == match receipt.allocations@[i].sale_number {
                        Some(number) => number@,
                        None => "Venta #"@ + id,
                    }
                    &&& row.cells[1] == receipt.allocations@[i].date@.text()
                    &&& row.cells[2] == receipt.allocations@[i].amount@.text()
                    &&& row.href == Some("/sales/"@ + id)
                }
        }),
{
}

/// The head and the foot of a receipt's drawer: its number, why it cannot be deleted, and
/// the customer who paid.
pub proof fn receipt_drawers_name_their_receipt(
    receipt: ReceiptDetail,
    names: Map<i64, String>,
    labels: KindLabels,
)
    ensures
        ({
            let detail = receipt_detail(receipt, names, labels);
            &&& detail.kind_token == "receipt"@
            &&& detail.kind_label == labels.receipt@
            &&& detail.title == "Recibo #"@ + text::int_text(receipt.id as int)
            &&& detail.status_line == "Cobro"@
            &&& detail.parent is None
            &&& detail.actions.len() == 0
            &&& detail.notice == Some(
                "El recibo agrupa los pagos de un cobro: mientras los explique, la base rechaza eliminarlo."@,
            )
            &&& detail.links.len() == 1
            &&& detail.links[0].label == "Abrir en Clientes"@
            &&& detail.links[0].href == "/customers/"@ + text::int_text(
                receipt.customer_id as int,
            )
        }),
{
}

} // verus!
