//! The cross-department documents index: which families a principal reads, what the
//! page filters by, and where each row opens.

use std::collections::BTreeMap;

use vstd::prelude::*;
use vstd::string::*;

use crate::actors;
use crate::actors::lookup_name;
use crate::amount::{Amount, AmountView};
use crate::date;
use crate::date::{date_from_str, Date, DateView};
use crate::error::{AppError, ErrorView};
use crate::permission;
use crate::permission::{Permission, Principal};
use crate::text;
use crate::text::{concat2, concat3, id_text, join, same_text, trim};
use crate::views;

verus! {

broadcast use crate::views::group_views;

/// A family of documents.
#[derive(Clone, Copy, Debug, PartialEq, Eq, Structural)]
pub enum DocumentKind {
    Sale,
    SalePayment,
    Purchase,
    PurchasePayment,
    StockMovement,
    Receipt,
}

/// The page that a row of the index opens.
pub enum OwnerPage {
    Sale,
    Purchase,
    ProductList,
    Customer,
}

impl DocumentKind {
    /// Every family, in the order that the index lists them.
    pub open spec fn every() -> Seq<DocumentKind> {
        seq![
            DocumentKind::Sale,
            DocumentKind::SalePayment,
            DocumentKind::Purchase,
            DocumentKind::PurchasePayment,
            DocumentKind::StockMovement,
            DocumentKind::Receipt,
        ]
    }

    /// The family as a segment of a URL.
    pub open spec fn url_token(self) -> Seq<char> {
        match self {
            DocumentKind::Sale => "sale"@,
            DocumentKind::SalePayment => "sale_payment"@,
            DocumentKind::Purchase => "purchase"@,
            DocumentKind::PurchasePayment => "purchase_payment"@,
            DocumentKind::StockMovement => "stock_movement"@,
            DocumentKind::Receipt => "receipt"@,
        }
    }

    /// The permission that opens the family.
    pub open spec fn reader(self) -> Permission {
        match self {
            DocumentKind::Sale | DocumentKind::SalePayment => Permission::SalesRead,
            DocumentKind::Purchase | DocumentKind::PurchasePayment => Permission::PurchasesRead,
            DocumentKind::StockMovement => Permission::InventoryRead,
            DocumentKind::Receipt => Permission::CustomersRead,
        }
    }

    /// The page that owns a document of the family.
    pub open spec fn owner_page(self) -> OwnerPage {
        match self {
            DocumentKind::Sale | DocumentKind::SalePayment => OwnerPage::Sale,
            DocumentKind::Purchase | DocumentKind::PurchasePayment => OwnerPage::Purchase,
            DocumentKind::StockMovement => OwnerPage::ProductList,
            DocumentKind::Receipt => OwnerPage::Customer,
        }
    }

    /// Every family, in the order that the index lists them.
    pub fn all() -> (kinds: Vec<DocumentKind>)
        ensures
            kinds@ == DocumentKind::every(),
    {
        let mut kinds: Vec<DocumentKind> = Vec::new();
        kinds.push(DocumentKind::Sale);
        kinds.push(DocumentKind::SalePayment);
        kinds.push(DocumentKind::Purchase);
        kinds.push(DocumentKind::PurchasePayment);
        kinds.push(DocumentKind::StockMovement);
        kinds.push(DocumentKind::Receipt);
        kinds
    }

    /// The family as a segment of a URL.
    pub fn token(self) -> (token: &'static str)
        ensures
            token@ == self.url_token(),
    {
        match self {
            DocumentKind::Sale => "sale",
            DocumentKind::SalePayment => "sale_payment",
            DocumentKind::Purchase => "purchase",
            DocumentKind::PurchasePayment => "purchase_payment",
            DocumentKind::StockMovement => "stock_movement",
            DocumentKind::Receipt => "receipt",
        }
    }

    /// The permission that opens the family: the one mapping that the page and the
    /// drawer share.
    pub fn read_code(self) -> (permission: Permission)
        ensures
            permission == self.reader(),
    {
        match self {
            DocumentKind::Sale | DocumentKind::SalePayment => Permission::SalesRead,
            DocumentKind::Purchase | DocumentKind::PurchasePayment => Permission::PurchasesRead,
            DocumentKind::StockMovement => Permission::InventoryRead,
            DocumentKind::Receipt => Permission::CustomersRead,
        }
    }

    /// The family that a URL segment names.
    pub fn parse(token: &str) -> (kind: Option<DocumentKind>)
        ensures
            kind matches Some(k) ==> k.url_token() == token@,
            kind is None ==> forall|k: DocumentKind|
                #![trigger k.url_token()]
                k.url_token() != token@,
    {
        let kinds = DocumentKind::all();
        let mut i: usize = 0;
        while i < kinds.len()
            invariant
                i <= kinds.len(),
                kinds@ == DocumentKind::every(),
                forall|j: int| 0 <= j < i ==> (#[trigger] kinds@[j]).url_token() != token@,
            decreases kinds.len() - i,
        {
            if same_text(kinds[i].token(), token) {
                return Some(kinds[i]);
            }
            i = i + 1;
        }
        proof {
            assert forall|k: DocumentKind| #[trigger] k.url_token() != token@ by {
                lemma_every_kind_is_listed(k);
                let j = kinds@.index_of(k);
                assert(kinds@[j] == k);
            }
        }
        None
    }
}

/// The permission that opens a page.
pub open spec fn page_reader(page: OwnerPage) -> Permission {
    match page {
        OwnerPage::Sale => Permission::SalesRead,
        OwnerPage::Purchase => Permission::PurchasesRead,
        OwnerPage::ProductList => Permission::InventoryRead,
        OwnerPage::Customer => Permission::CustomersRead,
    }
}

/// Every family is in the list of families.
pub proof fn lemma_every_kind_is_listed(kind: DocumentKind)
    ensures
        DocumentKind::every().contains(kind),
{
    let all = DocumentKind::every();
    match kind {
        DocumentKind::Sale => assert(all[0] == kind),
        DocumentKind::SalePayment => assert(all[1] == kind),
        DocumentKind::Purchase => assert(all[2] == kind),
        DocumentKind::PurchasePayment => assert(all[3] == kind),
        DocumentKind::StockMovement => assert(all[4] == kind),
        DocumentKind::Receipt => assert(all[5] == kind),
    }
}

/// No two families share a URL segment.
pub proof fn tokens_keep_families_apart(a: DocumentKind, b: DocumentKind)
    ensures
        a.url_token() == b.url_token() ==> a == b,
{
    reveal_strlit("sale");
    reveal_strlit("sale_payment");
    reveal_strlit("purchase");
    reveal_strlit("purchase_payment");
    reveal_strlit("stock_movement");
    reveal_strlit("receipt");
    if a != b {
        assert(a.url_token().len() == 4 || a.url_token().len() == 12 || a.url_token().len() == 8
            || a.url_token().len() == 16 || a.url_token().len() == 14 || a.url_token().len() == 7);
    }
}

/// The display name of each family.
pub struct KindLabels {
    pub sale: String,
    pub sale_payment: String,
    pub purchase: String,
    pub purchase_payment: String,
    pub stock_movement: String,
    pub receipt: String,
}

impl KindLabels {
    /// The display name of a family.
    pub open spec fn of(self, kind: DocumentKind) -> Seq<char> {
        match kind {
            DocumentKind::Sale => self.sale@,
            DocumentKind::SalePayment => self.sale_payment@,
            DocumentKind::Purchase => self.purchase@,
            DocumentKind::PurchasePayment => self.purchase_payment@,
            DocumentKind::StockMovement => self.stock_movement@,
            DocumentKind::Receipt => self.receipt@,
        }
    }

    /// The display name of a family.
    pub fn label(&self, kind: DocumentKind) -> (label: String)
        ensures
            label@ == self.of(kind),
    {
        match kind {
            DocumentKind::Sale => self.sale.clone(),
            DocumentKind::SalePayment => self.sale_payment.clone(),
            DocumentKind::Purchase => self.purchase.clone(),
            DocumentKind::PurchasePayment => self.purchase_payment.clone(),
            DocumentKind::StockMovement => self.stock_movement.clone(),
            DocumentKind::Receipt => self.receipt.clone(),
        }
    }
}

/// A choice of the type filter: the families that it stands for.
pub struct DocumentGroup {
    pub token: String,
    pub label: String,
    pub kinds: Vec<DocumentKind>,
}

/// Whether `kind` is among `kinds`.
fn has_kind(kinds: &[DocumentKind], kind: DocumentKind) -> (found: bool)
    ensures
        found == kinds@.contains(kind),
{
    let mut i: usize = 0;
    while i < kinds.len()
        invariant
            i <= kinds.len(),
            forall|j: int| 0 <= j < i ==> kinds@[j] != kind,
        decreases kinds.len() - i,
    {
        if kinds[i] == kind {
            return true;
        }
        i = i + 1;
    }
    false
}

/// The families that a principal may read, in the order of the index.
pub open spec fn permitted(principal: Principal) -> Seq<DocumentKind> {
    DocumentKind::every().filter(|kind: DocumentKind| principal.holds(kind.reader()))
}

/// The families that the principal may read. What the principal holds decides, and
/// nothing that the request says.
pub fn permitted_kinds(principal: &Principal) -> (kinds: Vec<DocumentKind>)
    ensures
        kinds@ == permitted(*principal),
{
    let all = DocumentKind::all();
    let ghost keep = |kind: DocumentKind| principal.holds(kind.reader());
    let mut kinds: Vec<DocumentKind> = Vec::new();
    let mut i: usize = 0;
    proof {
        reveal(Seq::filter);
        assert(all@.take(0).filter(keep) =~= Seq::empty());
    }
    while i < all.len()
        invariant
            i <= all.len(),
            all@ == DocumentKind::every(),
            keep == (|kind: DocumentKind| principal.holds(kind.reader())),
            kinds@ == all@.take(i as int).filter(keep),
        decreases all.len() - i,
    {
        let kind = all[i];
        if principal.has(kind.read_code()) {
            kinds.push(kind);
        }
        i = i + 1;
        proof {
            reveal(Seq::filter);
            assert(all@.take(i as int).drop_last() =~= all@.take(i - 1));
        }
    }
    proof {
        assert(all@.take(i as int) =~= all@);
    }
    kinds
}

/// Whether the type filter lets a family through; no choice lets every family.
pub open spec fn requests(requested: Option<Seq<DocumentKind>>, kind: DocumentKind) -> bool {
    match requested {
        Some(kinds) => kinds.contains(kind),
        None => true,
    }
}

/// The families that are both readable and asked for, in the order of the index.
pub open spec fn selected(
    readable: Seq<DocumentKind>,
    requested: Option<Seq<DocumentKind>>,
) -> Seq<DocumentKind> {
    DocumentKind::every().filter(
        |kind: DocumentKind| readable.contains(kind) && requests(requested, kind),
    )
}

/// The families that a choice stands for.
pub open spec fn kinds_of(requested: Option<&DocumentGroup>) -> Option<Seq<DocumentKind>> {
    match requested {
        Some(group) => Some(group.kinds@),
        None => None,
    }
}

/// The families that the page reads: those asked for, as far as they may be read.
/// Asking for less can only narrow the list, down to an empty one.
pub fn selected_kinds(
    permitted: &[DocumentKind],
    requested: Option<&DocumentGroup>,
) -> (kinds: Vec<DocumentKind>)
    ensures
        kinds@ == selected(permitted@, kinds_of(requested)),
{
    let all = DocumentKind::all();
    let ghost keep = |kind: DocumentKind|
        permitted@.contains(kind) && requests(kinds_of(requested), kind);
    let mut kinds: Vec<DocumentKind> = Vec::new();
    let mut i: usize = 0;
    proof {
        reveal(Seq::filter);
        assert(all@.take(0).filter(keep) =~= Seq::empty());
    }
    while i < all.len()
        invariant
            i <= all.len(),
            all@ == DocumentKind::every(),
            keep == (|kind: DocumentKind|
                permitted@.contains(kind) && requests(kinds_of(requested), kind)),
            kinds@ == all@.take(i as int).filter(keep),
        decreases all.len() - i,
    {
        let kind = all[i];
        let asked = match requested {
            Some(group) => has_kind(&group.kinds, kind),
            None => true,
        };
        if has_kind(permitted, kind) && asked {
            kinds.push(kind);
        }
        i = i + 1;
        proof {
            reveal(Seq::filter);
            assert(all@.take(i as int).drop_last() =~= all@.take(i - 1));
        }
    }
    proof {
        assert(all@.take(i as int) =~= all@);
    }
    kinds
}

/// One choice of the type filter, as the page renders it.
pub struct DocumentGroupOption {
    pub token: String,
    pub label: String,
    pub selected: bool,
}

/// One choice of the type filter, as text.
pub struct GroupOptionView {
    pub token: Seq<char>,
    pub label: Seq<char>,
    pub selected: bool,
}

impl View for DocumentGroupOption {
    type V = GroupOptionView;

    open spec fn view(&self) -> GroupOptionView {
        GroupOptionView { token: self.token@, label: self.label@, selected: self.selected }
    }
}

/// Whether a choice stands for at least one readable family.
pub open spec fn offers(group: DocumentGroup, readable: Seq<DocumentKind>) -> bool {
    exists|i: int| 0 <= i < group.kinds@.len() && readable.contains(#[trigger] group.kinds@[i])
}

/// The choices among the first `count` groups that stand for a readable family; the
/// one at the requested position is marked.
pub open spec fn offered(
    groups: Seq<DocumentGroup>,
    readable: Seq<DocumentKind>,
    requested: Option<int>,
    count: nat,
) -> Seq<GroupOptionView>
    decreases count,
{
    if count == 0 {
        Seq::empty()
    } else {
        let before = offered(groups, readable, requested, (count - 1) as nat);
        let group = groups[count - 1];
        if offers(group, readable) {
            before + seq![
                GroupOptionView {
                    token: group.token@,
                    label: group.label@,
                    selected: requested == Some(count - 1),
                },
            ]
        } else {
            before
        }
    }
}

/// A position as a number.
pub open spec fn position(at: Option<usize>) -> Option<int> {
    match at {
        Some(i) => Some(i as int),
        None => None,
    }
}

fn group_is_offered(group: &DocumentGroup, permitted: &[DocumentKind]) -> (offered: bool)
    ensures
        offered == offers(*group, permitted@),
{
    let mut i: usize = 0;
    while i < group.kinds.len()
        invariant
            i <= group.kinds.len(),
            forall|j: int| 0 <= j < i ==> !permitted@.contains(#[trigger] group.kinds@[j]),
        decreases group.kinds.len() - i,
    {
        if has_kind(permitted, group.kinds[i]) {
            return true;
        }
        i = i + 1;
    }
    false
}

/// The choices that the page offers, in the order of `groups`: a family that the
/// principal may not read never surfaces as one.
pub fn group_options(
    permitted: &[DocumentKind],
    groups: &[DocumentGroup],
    requested: Option<usize>,
) -> (options: Vec<DocumentGroupOption>)
    ensures
        views::views(options@) == offered(
            groups@,
            permitted@,
            position(requested),
            groups@.len(),
        ),
{
    let mut options: Vec<DocumentGroupOption> = Vec::new();
    let mut i: usize = 0;
    while i < groups.len()
        invariant
            i <= groups.len(),
            views::views(options@) == offered(
                groups@,
                permitted@,
                position(requested),
                i as nat,
            ),
        decreases groups.len() - i,
    {
        let group = &groups[i];
        if group_is_offered(group, permitted) {
            let chosen = match requested {
                Some(r) => r == i,
                None => false,
            };
            options.push(
                DocumentGroupOption {
                    token: group.token.clone(),
                    label: group.label.clone(),
                    selected: chosen,
                },
            );
        }
        i = i + 1;
    }
    options
}

/// What the index can be asked for. An empty or unreadable value counts as absent,
/// so no URL is an error.
pub struct DocumentListQuery {
    pub group: String,
    pub user: String,
    pub from: String,
    pub to: String,
    pub q: String,
}

impl Default for DocumentListQuery {
    fn default() -> (query: Self)
        ensures
            query.group@.len() == 0,
            query.user@.len() == 0,
            query.from@.len() == 0,
            query.to@.len() == 0,
            query.q@.len() == 0,
    {
        DocumentListQuery {
            group: String::new(),
            user: String::new(),
            from: String::new(),
            to: String::new(),
            q: String::new(),
        }
    }
}

/// What a date filter reads: nothing where it is empty, and nothing where it is not
/// a date.
pub open spec fn optional_date(raw: Seq<char>) -> Option<DateView> {
    if text::trimmed(raw).len() == 0 {
        None
    } else {
        date::date_reading(text::trimmed(raw))
    }
}

/// The date that a filter names, if it names one.
pub fn parse_optional_date(raw: &str) -> (date: Option<Date>)
    ensures
        views::opt_view(date) == optional_date(raw@),
{
    let trimmed = trim(raw);
    if trimmed.is_empty() {
        return None;
    }
    date_from_str(trimmed)
}

/// What a text filter asks for: nothing where it is empty.
pub open spec fn filter_text(raw: Seq<char>) -> Option<Seq<char>> {
    if text::trimmed(raw).len() == 0 {
        None
    } else {
        Some(text::trimmed(raw))
    }
}

/// The text that a filter asks for, without surrounding white space.
pub fn clean_filter_text(raw: &str) -> (cleaned: Option<String>)
    ensures
        views::opt_view(cleaned) == filter_text(raw@),
{
    let trimmed = trim(raw);
    if trimmed.is_empty() {
        None
    } else {
        Some(trimmed.to_owned())
    }
}

/// What the index is read by.
pub struct DocumentFilter {
    pub kinds: Vec<DocumentKind>,
    pub actor_ids: Option<Vec<i64>>,
    pub from: Option<Date>,
    pub to: Option<Date>,
    pub search: Option<String>,
}

/// The first group, from position `from` on, that goes by `token`.
pub open spec fn first_named(groups: Seq<DocumentGroup>, token: Seq<char>, from: int) -> Option<
    int,
>
    decreases groups.len() - from,
{
    if from >= groups.len() {
        None
    } else if groups[from].token@ == token {
        Some(from)
    } else {
        first_named(groups, token, from + 1)
    }
}

/// The group that a query asks for: none where it names none of them.
pub open spec fn asked_for(groups: Seq<DocumentGroup>, query: DocumentListQuery) -> Option<int> {
    first_named(groups, text::trimmed(query.group@), 0)
}

/// The families that a query asks for: no choice where it names no group.
pub open spec fn kinds_asked_for(groups: Seq<DocumentGroup>, query: DocumentListQuery) -> Option<
    Seq<DocumentKind>,
> {
    match asked_for(groups, query) {
        Some(i) => Some(groups[i].kinds@),
        None => None,
    }
}

/// The position of the group that a query asks for. An absent or unknown name asks
/// for no group in particular.
pub fn requested_group(groups: &[DocumentGroup], query: &DocumentListQuery) -> (at: Option<usize>)
    ensures
        at is Some <==> asked_for(groups@, *query) is Some,
        at matches Some(i) ==> i < groups@.len() && asked_for(groups@, *query) == Some(i as int),
{
    let token = trim(query.group.as_str());
    let mut i: usize = 0;
    while i < groups.len()
        invariant
            i <= groups.len(),
            token@ == text::trimmed(query.group@),
            asked_for(groups@, *query) == first_named(groups@, token@, i as int),
        decreases groups.len() - i,
    {
        if same_text(groups[i].token.as_str(), token) {
            return Some(i);
        }
        i = i + 1;
    }
    None
}

/// The filter for a query. `actor_ids` are the users that the typed name matches:
/// none at all where nobody was typed, an empty list where nobody answers to it.
pub fn document_filter(
    query: &DocumentListQuery,
    permitted: &[DocumentKind],
    groups: &[DocumentGroup],
    actor_ids: Option<Vec<i64>>,
) -> (filter: DocumentFilter)
    ensures
        filter.kinds@ == selected(permitted@, kinds_asked_for(groups@, *query)),
        filter.actor_ids == actor_ids,
        views::opt_view(filter.from) == optional_date(query.from@),
        views::opt_view(filter.to) == optional_date(query.to@),
        views::opt_view(filter.search) == filter_text(query.q@),
{
    let requested = match requested_group(groups, query) {
        Some(i) => Some(&groups[i]),
        None => None,
    };
    DocumentFilter {
        kinds: selected_kinds(permitted, requested),
        actor_ids,
        from: parse_optional_date(query.from.as_str()),
        to: parse_optional_date(query.to.as_str()),
        search: clean_filter_text(query.q.as_str()),
    }
}

/// The address of a page, for one owner.
pub open spec fn page_address(page: OwnerPage, owner_id: i64) -> Seq<char> {
    match page {
        OwnerPage::Sale => "/sales/"@ + text::int_text(owner_id as int),
        OwnerPage::Purchase => "/purchases/"@ + text::int_text(owner_id as int),
        OwnerPage::ProductList => "/products#product-"@ + text::int_text(owner_id as int),
        OwnerPage::Customer => "/customers/"@ + text::int_text(owner_id as int),
    }
}

/// Where one row opens. A stock movement opens the products list at its product,
/// which has no page of its own.
pub fn document_href(kind: DocumentKind, owner_id: i64) -> (href: String)
    ensures
        href@ == page_address(kind.owner_page(), owner_id),
{
    let id = id_text(owner_id);
    match kind {
        DocumentKind::Sale | DocumentKind::SalePayment => concat2("/sales/", id.as_str()),
        DocumentKind::Purchase | DocumentKind::PurchasePayment => concat2(
            "/purchases/",
            id.as_str(),
        ),
        DocumentKind::Receipt => concat2("/customers/", id.as_str()),
        DocumentKind::StockMovement => concat2("/products#product-", id.as_str()),
    }
}

/// One row of the index as it is read.
pub struct DocumentRow {
    pub kind: DocumentKind,
    pub id: i64,
    pub owner_id: i64,
    pub reference: String,
    pub party: String,
    pub date: Date,
    pub detail: String,
    pub amount: Option<Amount>,
    pub quantity: Option<Amount>,
    pub created_by: i64,
}

/// One row of the index as the page shows it.
pub struct DocumentView {
    pub kind: DocumentKind,
    pub kind_label: String,
    pub id: i64,
    pub kind_token: String,
    pub href: String,
    pub reference: String,
    pub party: String,
    pub date: Date,
    pub detail: String,
    pub amount: Option<Amount>,
    pub quantity: Option<Amount>,
    pub actor_name: Option<String>,
}

/// One row of the index, as text.
pub struct RowView {
    pub kind: DocumentKind,
    pub kind_label: Seq<char>,
    pub id: i64,
    pub kind_token: Seq<char>,
    pub href: Seq<char>,
    pub reference: Seq<char>,
    pub party: Seq<char>,
    pub date: DateView,
    pub detail: Seq<char>,
    pub amount: Option<AmountView>,
    pub quantity: Option<AmountView>,
    pub actor_name: Option<Seq<char>>,
}

impl View for DocumentView {
    type V = RowView;

    open spec fn view(&self) -> RowView {
        RowView {
            kind: self.kind,
            kind_label: self.kind_label@,
            id: self.id,
            kind_token: self.kind_token@,
            href: self.href@,
            reference: self.reference@,
            party: self.party@,
            date: self.date@,
            detail: self.detail@,
            amount: views::opt_view(self.amount),
            quantity: views::opt_view(self.quantity),
            actor_name: views::opt_view(self.actor_name),
        }
    }
}

/// What the page shows of one row: the row's facts, where it opens, and who wrote it.
pub open spec fn resolved(row: DocumentRow, names: Map<i64, String>, labels: KindLabels) -> RowView {
    RowView {
        kind: row.kind,
        kind_label: labels.of(row.kind),
        id: row.id,
        kind_token: row.kind.url_token(),
        href: page_address(row.kind.owner_page(), row.owner_id),
        reference: row.reference@,
        party: row.party@,
        date: row.date@,
        detail: row.detail@,
        amount: views::opt_view(row.amount),
        quantity: views::opt_view(row.quantity),
        actor_name: actors::name_of(names, row.created_by),
    }
}

/// The writers of the rows, row by row.
pub fn row_actor_ids(rows: &[DocumentRow]) -> (ids: Vec<i64>)
    ensures
        ids@ == rows@.map_values(|row: DocumentRow| row.created_by),
{
    let mut ids: Vec<i64> = Vec::new();
    let mut i: usize = 0;
    while i < rows.len()
        invariant
            i <= rows.len(),
            ids@.len() == i,
            forall|j: int| 0 <= j < i ==> ids@[j] == (#[trigger] rows@[j]).created_by,
        decreases rows.len() - i,
    {
        ids.push(rows[i].created_by);
        i = i + 1;
    }
    proof {
        assert(ids@ =~= rows@.map_values(|row: DocumentRow| row.created_by));
    }
    ids
}

/// The rows as the page shows them, in the same order.
pub fn resolve_views(
    rows: &[DocumentRow],
    names: &BTreeMap<i64, String>,
    labels: &KindLabels,
) -> (shown: Vec<DocumentView>)
    ensures
        views::views(shown@) == rows@.map_values(|row: DocumentRow| resolved(row, names@, *labels)),
        shown@.len() == rows@.len(),
        forall|i: int| 0 <= i < rows@.len() ==> (#[trigger] shown@[i]).kind == rows@[i].kind,
        forall|i: int| 0 <= i < rows@.len() ==> (#[trigger] shown@[i]).id == rows@[i].id,
        forall|i: int|
            0 <= i < rows@.len() ==> (#[trigger] shown@[i]).reference@ == rows@[i].reference@,
        forall|i: int| 0 <= i < rows@.len() ==> (#[trigger] shown@[i]).party@ == rows@[i].party@,
        forall|i: int| 0 <= i < rows@.len() ==> (#[trigger] shown@[i]).date@ == rows@[i].date@,
        forall|i: int| 0 <= i < rows@.len() ==> (#[trigger] shown@[i]).detail@ == rows@[i].detail@,
        forall|i: int| 0 <= i < rows@.len() ==> (#[trigger] shown@[i]).amount == rows@[i].amount,
        forall|i: int|
            0 <= i < rows@.len() ==> (#[trigger] shown@[i]).quantity == rows@[i].quantity,
        forall|i: int|
            0 <= i < rows@.len() ==> (#[trigger] shown@[i]).kind_label@ == labels.of(rows@[i].kind),
        forall|i: int|
            0 <= i < rows@.len() ==> (#[trigger] shown@[i]).kind_token@
                == rows@[i].kind.url_token(),
        forall|i: int|
            0 <= i < rows@.len() ==> (#[trigger] shown@[i]).href@
                == page_address(rows@[i].kind.owner_page(), rows@[i].owner_id),
        forall|i: int|
            0 <= i < rows@.len() && names@.contains_key(rows@[i].created_by) ==> (
            #[trigger] shown@[i]).actor_name is Some
                && shown@[i].actor_name->0@ == names@[rows@[i].created_by]@,
        forall|i: int|
            0 <= i < rows@.len() && !names@.contains_key(rows@[i].created_by) ==> (
            #[trigger] shown@[i]).actor_name is None,
{
    let mut shown: Vec<DocumentView> = Vec::new();
    let mut i: usize = 0;
    while i < rows.len()
        invariant
            i <= rows.len(),
            shown@.len() == i,
            forall|j: int|
                0 <= j < i ==> (#[trigger] shown@[j])@ == resolved(rows@[j], names@, *labels),
            forall|j: int| 0 <= j < i ==> (#[trigger] shown@[j]).kind == rows@[j].kind,
            forall|j: int| 0 <= j < i ==> (#[trigger] shown@[j]).id == rows@[j].id,
            forall|j: int| 0 <= j < i ==> (#[trigger] shown@[j]).reference@ == rows@[j].reference@,
            forall|j: int| 0 <= j < i ==> (#[trigger] shown@[j]).party@ == rows@[j].party@,
            forall|j: int| 0 <= j < i ==> (#[trigger] shown@[j]).date@ == rows@[j].date@,
            forall|j: int| 0 <= j < i ==> (#[trigger] shown@[j]).detail@ == rows@[j].detail@,
            forall|j: int| 0 <= j < i ==> (#[trigger] shown@[j]).amount == rows@[j].amount,
            forall|j: int| 0 <= j < i ==> (#[trigger] shown@[j]).quantity == rows@[j].quantity,
            forall|j: int|
                0 <= j < i ==> (#[trigger] shown@[j]).kind_label@ == labels.of(rows@[j].kind),
            forall|j: int|
                0 <= j < i ==> (#[trigger] shown@[j]).kind_token@ == rows@[j].kind.url_token(),
            forall|j: int|
                0 <= j < i ==> (#[trigger] shown@[j]).href@
                    == page_address(rows@[j].kind.owner_page(), rows@[j].owner_id),
            forall|j: int|
                0 <= j < i && names@.contains_key(rows@[j].created_by) ==> (
                #[trigger] shown@[j]).actor_name is Some
                    && shown@[j].actor_name->0@ == names@[rows@[j].created_by]@,
            forall|j: int|
                0 <= j < i && !names@.contains_key(rows@[j].created_by) ==> (
                #[trigger] shown@[j]).actor_name is None,
        decreases rows.len() - i,
    {
        let row = &rows[i];
        shown.push(
            DocumentView {
                kind: row.kind,
                kind_label: labels.label(row.kind),
                id: row.id,
                kind_token: row.kind.token().to_owned(),
                href: document_href(row.kind, row.owner_id),
                reference: row.reference.clone(),
                party: row.party.clone(),
                date: row.date,
                detail: row.detail.clone(),
                amount: row.amount,
                quantity: row.quantity,
                actor_name: lookup_name(names, row.created_by),
            },
        );
        i = i + 1;
    }
    proof {
        assert(views::views(shown@) =~= rows@.map_values(
            |row: DocumentRow| resolved(row, names@, *labels),
        ));
    }
    shown
}

/// What a read of the index gives back.
pub struct DocumentFeed {
    pub rows: Vec<DocumentRow>,
    pub truncated: bool,
    pub limit: usize,
}

/// Everything that the page and its list fragment show.
pub struct DocumentsModel {
    pub rows: Vec<DocumentView>,
    pub truncated: bool,
    pub limit: usize,
    pub groups: Vec<DocumentGroupOption>,
}

/// The feed resolved into rows, beside the choices of the type filter.
pub fn documents_model(
    query: &DocumentListQuery,
    feed: &DocumentFeed,
    names: &BTreeMap<i64, String>,
    labels: &KindLabels,
    permitted: &[DocumentKind],
    groups: &[DocumentGroup],
) -> (model: DocumentsModel)
    ensures
        views::views(model.rows@) == feed.rows@.map_values(
            |row: DocumentRow| resolved(row, names@, *labels),
        ),
        model.rows@.len() == feed.rows@.len(),
        forall|i: int|
            0 <= i < feed.rows@.len() ==> (#[trigger] model.rows@[i]).kind == feed.rows@[i].kind,
        forall|i: int|
            0 <= i < feed.rows@.len() ==> (#[trigger] model.rows@[i]).id == feed.rows@[i].id,
        forall|i: int|
            0 <= i < feed.rows@.len() ==> (#[trigger] model.rows@[i]).reference@
                == feed.rows@[i].reference@,
        forall|i: int|
            0 <= i < feed.rows@.len() ==> (#[trigger] model.rows@[i]).party@
                == feed.rows@[i].party@,
        forall|i: int|
            0 <= i < feed.rows@.len() ==> (#[trigger] model.rows@[i]).date@ == feed.rows@[i].date@,
        forall|i: int|
            0 <= i < feed.rows@.len() ==> (#[trigger] model.rows@[i]).detail@
                == feed.rows@[i].detail@,
        forall|i: int|
            0 <= i < feed.rows@.len() ==> (#[trigger] model.rows@[i]).amount
                == feed.rows@[i].amount,
        forall|i: int|
            0 <= i < feed.rows@.len() ==> (#[trigger] model.rows@[i]).quantity
                == feed.rows@[i].quantity,
        forall|i: int|
            0 <= i < feed.rows@.len() ==> (#[trigger] model.rows@[i]).kind_label@
                == labels.of(feed.rows@[i].kind),
        forall|i: int|
            0 <= i < feed.rows@.len() ==> (#[trigger] model.rows@[i]).kind_token@
                == feed.rows@[i].kind.url_token(),
        forall|i: int|
            0 <= i < feed.rows@.len() ==> (#[trigger] model.rows@[i]).href@
                == page_address(feed.rows@[i].kind.owner_page(), feed.rows@[i].owner_id),
        forall|i: int|
            0 <= i < feed.rows@.len() && names@.contains_key(feed.rows@[i].created_by) ==> (
            #[trigger] model.rows@[i]).actor_name is Some
                && model.rows@[i].actor_name->0@ == names@[feed.rows@[i].created_by]@,
        forall|i: int|
            0 <= i < feed.rows@.len() && !names@.contains_key(feed.rows@[i].created_by) ==> (
            #[trigger] model.rows@[i]).actor_name is None,
        model.truncated == feed.truncated,
        model.limit == feed.limit,
        views::views(model.groups@) == offered(
            groups@,
            permitted@,
            asked_for(groups@, *query),
            groups@.len(),
        ),
{
    DocumentsModel {
        rows: resolve_views(&feed.rows, names, labels),
        truncated: feed.truncated,
        limit: feed.limit,
        groups: group_options(permitted, groups, requested_group(groups, query)),
    }
}

/// What the page shows besides the model: its title, and the values that the filter
/// form is filled with again.
pub struct DocumentsPage {
    pub title: &'static str,
    pub filter_user: String,
    pub filter_from: String,
    pub filter_to: String,
    pub filter_q: String,
    pub nav_key: &'static str,
}

/// The page for a query. The filter form repeats what was asked, without surrounding
/// white space.
pub fn documents_page(query: &DocumentListQuery) -> (page: DocumentsPage)
    ensures
        page.title@ == "All documents"@,
        page.filter_user@ == text::trimmed(query.user@),
        page.filter_from@ == text::trimmed(query.from@),
        page.filter_to@ == text::trimmed(query.to@),
        page.filter_q@ == text::trimmed(query.q@),
        page.nav_key@ == "documents"@,
{
    DocumentsPage {
        title: "All documents",
        filter_user: trim(query.user.as_str()).to_owned(),
        filter_from: trim(query.from.as_str()).to_owned(),
        filter_to: trim(query.to.as_str()).to_owned(),
        filter_q: trim(query.q.as_str()).to_owned(),
        nav_key: "documents",
    }
}

/// The URL segments of every family.
pub open spec fn every_token() -> Seq<Seq<char>> {
    DocumentKind::every().map_values(|kind: DocumentKind| kind.url_token())
}

/// The message for a URL segment that names no family.
pub open spec fn unknown_kind_message(token: Seq<char>) -> Seq<char> {
    "unknown document kind \""@ + token + "\": the index knows "@ + text::joined(
        every_token(),
        ", "@,
    )
}

/// The message for a family that the principal may not read.
pub open spec fn closed_family_message(kind: DocumentKind) -> Seq<char> {
    "Se necesita el permiso «"@ + permission::code_of(kind.reader())
        + "» para ver este documento"@
}

/// What opening a document of the family named by `token` comes to, before it is
/// looked for: the family, or the refusal.
pub open spec fn opening(principal: Principal, token: Seq<char>) -> Result<
    DocumentKind,
    ErrorView,
> {
    if exists|kind: DocumentKind| #[trigger] kind.url_token() == token {
        let kind = choose|kind: DocumentKind| #[trigger] kind.url_token() == token;
        if principal.holds(kind.reader()) {
            Ok(kind)
        } else {
            Err(ErrorView::Forbidden(closed_family_message(kind)))
        }
    } else {
        Err(ErrorView::NotFound(unknown_kind_message(token)))
    }
}

fn all_tokens() -> (tokens: Vec<String>)
    ensures
        views::views(tokens@) == every_token(),
{
    let kinds = DocumentKind::all();
    let mut tokens: Vec<String> = Vec::new();
    let mut i: usize = 0;
    while i < kinds.len()
        invariant
            i <= kinds.len(),
            kinds@ == DocumentKind::every(),
            tokens@.len() == i,
            forall|j: int| 0 <= j < i ==> (#[trigger] tokens@[j])@ == kinds@[j].url_token(),
        decreases kinds.len() - i,
    {
        tokens.push(kinds[i].token().to_owned());
        i = i + 1;
    }
    proof {
        assert(views::views(tokens@) =~= every_token());
    }
    tokens
}

/// The family that a drawer request may open. A segment that names no family is not
/// found; a family outside what the principal reads is refused, naming the code.
pub fn openable_kind(principal: &Principal, kind_token: &str) -> (kind: Result<
    DocumentKind,
    AppError,
>)
    ensures
        match kind {
            Ok(k) => opening(*principal, kind_token@) == Ok::<DocumentKind, ErrorView>(k),
            Err(e) => opening(*principal, kind_token@) == Err::<DocumentKind, ErrorView>(e@),
        },
{
    let kind = match DocumentKind::parse(kind_token) {
        Some(kind) => kind,
        None => {
            let tokens = all_tokens();
            let known = join(&tokens, ", ");
            let message = concat2(
                concat3("unknown document kind \"", kind_token, "\": the index knows ").as_str(),
                known.as_str(),
            );
            return Err(AppError::NotFound(message));
        },
    };
    proof {
        assert(kind.url_token() == kind_token@);
        let chosen = choose|k: DocumentKind| #[trigger] k.url_token() == kind_token@;
        tokens_keep_families_apart(kind, chosen);
        lemma_permitted(*principal, kind);
    }
    let permitted = permitted_kinds(principal);
    if !has_kind(&permitted, kind) {
        return Err(
            AppError::Forbidden(
                concat3(
                    "Se necesita el permiso «",
                    kind.read_code().code(),
                    "» para ver este documento",
                ),
            ),
        );
    }
    Ok(kind)
}

/// A family is readable exactly where the principal holds its permission.
pub proof fn lemma_permitted(principal: Principal, kind: DocumentKind)
    ensures
        permitted(principal).contains(kind) <==> principal.holds(kind.reader()),
{
    broadcast use vstd::seq_lib::group_filter_ensures;

    let keep = |k: DocumentKind| principal.holds(k.reader());
    let all = DocumentKind::every();
    lemma_every_kind_is_listed(kind);
    let at = all.index_of(kind);
    assert(all[at] == kind);
    if principal.holds(kind.reader()) {
        assert(all.filter(keep).contains(all[at]));
    }
    if permitted(principal).contains(kind) {
        let j = permitted(principal).index_of(kind);
        assert(keep(all.filter(keep)[j]));
    }
}

/// The page reads a family exactly where it may be read and is asked for.
pub proof fn lemma_selected(
    readable: Seq<DocumentKind>,
    requested: Option<Seq<DocumentKind>>,
    kind: DocumentKind,
)
    ensures
        selected(readable, requested).contains(kind) <==> readable.contains(kind) && requests(
            requested,
            kind,
        ),
{
    broadcast use vstd::seq_lib::group_filter_ensures;

    let keep = |k: DocumentKind| readable.contains(k) && requests(requested, k);
    let all = DocumentKind::every();
    lemma_every_kind_is_listed(kind);
    let at = all.index_of(kind);
    assert(all[at] == kind);
    if keep(kind) {
        assert(all.filter(keep).contains(all[at]));
    }
    if selected(readable, requested).contains(kind) {
        let j = selected(readable, requested).index_of(kind);
        assert(keep(all.filter(keep)[j]));
    }
}

/// Choosing a type never widens what the page reads, and never reads a family that
/// the principal may not.
pub proof fn choosing_a_type_only_narrows(
    principal: Principal,
    group: DocumentGroup,
    kind: DocumentKind,
)
    requires
        selected(permitted(principal), Some(group.kinds@)).contains(kind),
    ensures
        selected(permitted(principal), None).contains(kind),
        principal.holds(kind.reader()),
{
    lemma_selected(permitted(principal), Some(group.kinds@), kind);
    lemma_selected(permitted(principal), None, kind);
    lemma_permitted(principal, kind);
}

/// Without a choice, the page reads all that may be read, in the same order.
pub proof fn no_choice_reads_everything_readable(principal: Principal)
    ensures
        selected(permitted(principal), None) == permitted(principal),
{
    let all = DocumentKind::every();
    let readable = permitted(principal);
    assert forall|i: int| 0 <= i < all.len() implies (readable.contains(#[trigger] all[i])
        <==> principal.holds(all[i].reader())) by {
        lemma_permitted(principal, all[i]);
    }
    lemma_filters_agree(
        all,
        |k: DocumentKind| readable.contains(k) && requests(None, k),
        |k: DocumentKind| principal.holds(k.reader()),
    );
}

/// Two filters that agree on every element keep the same elements.
proof fn lemma_filters_agree(
    s: Seq<DocumentKind>,
    p: spec_fn(DocumentKind) -> bool,
    q: spec_fn(DocumentKind) -> bool,
)
    requires
        forall|i: int| 0 <= i < s.len() ==> p(#[trigger] s[i]) == q(s[i]),
    ensures
        s.filter(p) == s.filter(q),
    decreases s.len(),
{
    reveal(Seq::filter);
    if s.len() > 0 {
        lemma_filters_agree(s.drop_last(), p, q);
    }
}

/// Keeping some elements of a sequence without repetitions brings none in.
proof fn lemma_filter_keeps_distinct(s: Seq<DocumentKind>, p: spec_fn(DocumentKind) -> bool)
    requires
        s.no_duplicates(),
    ensures
        s.filter(p).no_duplicates(),
    decreases s.len(),
{
    reveal(Seq::filter);
    if s.len() > 0 {
        let rest = s.drop_last();
        lemma_filter_keeps_distinct(rest, p);
        if p(s.last()) {
            let kept = rest.filter(p);
            if kept.contains(s.last()) {
                rest.lemma_filter_contains_rev(p, s.last());
                let k = rest.index_of(s.last());
                assert(s[k] == s[s.len() - 1]);
            }
            assert forall|i: int, j: int|
                0 <= i < j < kept.push(s.last()).len() implies kept.push(s.last())[i]
                != kept.push(s.last())[j] by {
                if j == kept.len() {
                    assert(kept[i] == kept.push(s.last())[i]);
                }
            }
        }
    }
}

/// The page reads no family twice.
pub proof fn no_family_is_read_twice(
    readable: Seq<DocumentKind>,
    requested: Option<Seq<DocumentKind>>,
)
    ensures
        selected(readable, requested).no_duplicates(),
{
    lemma_filter_keeps_distinct(
        DocumentKind::every(),
        |k: DocumentKind| readable.contains(k) && requests(requested, k),
    );
}

/// Every choice that is offered stands for a family that may be read.
pub proof fn offered_groups_are_readable(
    groups: Seq<DocumentGroup>,
    readable: Seq<DocumentKind>,
    requested: Option<int>,
    count: nat,
    at: int,
)
    requires
        count <= groups.len(),
        0 <= at < offered(groups, readable, requested, count).len(),
    ensures
        exists|g: int|
            0 <= g < count && offers(#[trigger] groups[g], readable) && groups[g].token@
                == offered(groups, readable, requested, count)[at].token,
    decreases count,
{
    let before = offered(groups, readable, requested, (count - 1) as nat);
    if at < before.len() {
        offered_groups_are_readable(groups, readable, requested, (count - 1) as nat, at);
        let g = choose|g: int|
            0 <= g < count - 1 && offers(#[trigger] groups[g], readable) && groups[g].token@
                == before[at].token;
        assert(offers(groups[g], readable));
    } else {
        assert(offers(groups[count - 1], readable));
    }
}

/// The page that a row opens asks for the very permission that made the row visible,
/// so no row links to a page that its reader cannot open.
pub proof fn rows_link_only_to_readable_pages(kind: DocumentKind)
    ensures
        page_reader(kind.owner_page()) == kind.reader(),
{
}

/// A drawer opens exactly for the families that the index lists to the principal.
pub proof fn drawers_open_what_the_index_lists(principal: Principal, kind: DocumentKind)
    ensures
        opening(principal, kind.url_token()) == Ok::<DocumentKind, ErrorView>(kind) <==> permitted(
            principal,
        ).contains(kind),
{
    let chosen = choose|k: DocumentKind| #[trigger] k.url_token() == kind.url_token();
    tokens_keep_families_apart(kind, chosen);
    lemma_permitted(principal, kind);
}

/// Where each family stands: its segment, its label, the permission that opens it, and
/// the page that one of its rows opens.
pub proof fn each_family_has_its_own_place(kind: DocumentKind, labels: KindLabels, owner_id: i64)
    ensures
        ({
            let id = text::int_text(owner_id as int);
            let href = page_address(kind.owner_page(), owner_id);
            match kind {
                DocumentKind::Sale => {
                    &&& kind.url_token() == "sale"@
                    &&& labels.of(kind) == labels.sale@
                    &&& kind.reader() == Permission::SalesRead
                    &&& href == "/sales/"@ + id
                },
                DocumentKind::SalePayment => {
                    &&& kind.url_token() == "sale_payment"@
                    &&& labels.of(kind) == labels.sale_payment@
                    &&& kind.reader() == Permission::SalesRead
                    &&& href == "/sales/"@ + id
                },
                DocumentKind::Purchase => {
                    &&& kind.url_token() == "purchase"@
                    &&& labels.of(kind) == labels.purchase@
                    &&& kind.reader() == Permission::PurchasesRead
                    &&& href == "/purchases/"@ + id
                },
                DocumentKind::PurchasePayment => {
                    &&& kind.url_token() == "purchase_payment"@
                    &&& labels.of(kind) == labels.purchase_payment@
                    &&& kind.reader() == Permission::PurchasesRead
                    &&& href == "/purchases/"@ + id
                },
                DocumentKind::StockMovement => {
                    &&& kind.url_token() == "stock_movement"@
                    &&& labels.of(kind) == labels.stock_movement@
                    &&& kind.reader() == Permission::InventoryRead
                    &&& href == "/products#product-"@ + id
                },
                DocumentKind::Receipt => {
                    &&& kind.url_token() == "receipt"@
                    &&& labels.of(kind) == labels.receipt@
                    &&& kind.reader() == Permission::CustomersRead
                    &&& href == "/customers/"@ + id
                },
            }
        }),
{
}

/// A row of the page shows the row that was read, field by field.
pub proof fn rows_show_what_was_read(
    row: DocumentRow,
    names: Map<i64, String>,
    labels: KindLabels,
)
    ensures
        ({
            let shown = resolved(row, names, labels);
            &&& shown.kind == row.kind
            &&& shown.id == row.id
            &&& shown.reference == row.reference@
            &&& shown.party == row.party@
            &&& shown.date == row.date@
            &&& shown.detail == row.detail@
            &&& shown.amount is Some <==> row.amount is Some
            &&& row.amount matches Some(a) ==> shown.amount == Some(a@)
            &&& shown.quantity is Some <==> row.quantity is Some
            &&& row.quantity matches Some(q) ==> shown.quantity == Some(q@)
            &&& shown.actor_name is Some <==> names.contains_key(row.created_by)
            &&& names.contains_key(row.created_by) ==> shown.actor_name == Some(
                names[row.created_by]@,
            )
        }),
{
}

/// The place of a family in the order of the index.
pub open spec fn rank(kind: DocumentKind) -> int {
    match kind {
        DocumentKind::Sale => 0,
        DocumentKind::SalePayment => 1,
        DocumentKind::Purchase => 2,
        DocumentKind::PurchasePayment => 3,
        DocumentKind::StockMovement => 4,
        DocumentKind::Receipt => 5,
    }
}

/// Whether the families come in the order of the index, none twice.
pub open spec fn in_index_order(kinds: Seq<DocumentKind>) -> bool {
    forall|i: int, j: int|
        0 <= i < j < kinds.len() ==> rank(#[trigger] kinds[i]) < rank(#[trigger] kinds[j])
}

proof fn lemma_filter_keeps_order(s: Seq<DocumentKind>, p: spec_fn(DocumentKind) -> bool)
    requires
        in_index_order(s),
    ensures
        in_index_order(s.filter(p)),
        forall|i: int| 0 <= i < s.filter(p).len() ==> s.contains(#[trigger] s.filter(p)[i]),
    decreases s.len(),
{
    reveal(Seq::filter);
    if s.len() > 0 {
        let rest = s.drop_last();
        lemma_filter_keeps_order(rest, p);
        let kept = rest.filter(p);
        assert forall|i: int| 0 <= i < s.filter(p).len() implies s.contains(
            #[trigger] s.filter(p)[i],
        ) by {
            if i < kept.len() {
                assert(s.filter(p)[i] == kept[i]);
                let k = rest.index_of(kept[i]);
                assert(s[k] == kept[i]);
            } else {
                assert(s[s.len() - 1] == s.filter(p)[i]);
            }
        }
        assert forall|i: int, j: int| 0 <= i < j < s.filter(p).len() implies rank(
            #[trigger] s.filter(p)[i],
        ) < rank(#[trigger] s.filter(p)[j]) by {
            assert(s.filter(p)[i] == kept[i]);
            if j < kept.len() {
                assert(s.filter(p)[j] == kept[j]);
            } else {
                let k = rest.index_of(kept[i]);
                assert(s[k] == kept[i]);
                assert(s[s.len() - 1] == s.filter(p)[j]);
            }
        }
    }
}

/// What a principal reads: sales and their payments with the permission on sales,
/// purchases and theirs with the one on purchases, movements with the one on the
/// inventory, receipts with the one on customers; in the order of the index.
pub proof fn permissions_alone_decide_what_is_read(principal: Principal)
    ensures
        permitted(principal).contains(DocumentKind::Sale) <==> principal.holds(
            Permission::SalesRead,
        ),
        permitted(principal).contains(DocumentKind::SalePayment) <==> principal.holds(
            Permission::SalesRead,
        ),
        permitted(principal).contains(DocumentKind::Purchase) <==> principal.holds(
            Permission::PurchasesRead,
        ),
        permitted(principal).contains(DocumentKind::PurchasePayment) <==> principal.holds(
            Permission::PurchasesRead,
        ),
        permitted(principal).contains(DocumentKind::StockMovement) <==> principal.holds(
            Permission::InventoryRead,
        ),
        permitted(principal).contains(DocumentKind::Receipt) <==> principal.holds(
            Permission::CustomersRead,
        ),
        in_index_order(permitted(principal)),
{
    lemma_permitted(principal, DocumentKind::Sale);
    lemma_permitted(principal, DocumentKind::SalePayment);
    lemma_permitted(principal, DocumentKind::Purchase);
    lemma_permitted(principal, DocumentKind::PurchasePayment);
    lemma_permitted(principal, DocumentKind::StockMovement);
    lemma_permitted(principal, DocumentKind::Receipt);
    lemma_filter_keeps_order(
        DocumentKind::every(),
        |k: DocumentKind| principal.holds(k.reader()),
    );
}

/// What the page reads for a query: of the readable families all where the query names
/// no group, and those of the first group that goes by the asked name where it does; in
/// the order of the index.
pub proof fn queries_read_the_families_they_name(
    readable: Seq<DocumentKind>,
    groups: Seq<DocumentGroup>,
    query: DocumentListQuery,
    kind: DocumentKind,
)
    ensures
        ({
            let token = text::trimmed(query.group@);
            let read = selected(readable, kinds_asked_for(groups, query));
            &&& in_index_order(read)
            &&& (forall|g: int| 0 <= g < groups.len() ==> (#[trigger] groups[g]).token@ != token)
                ==> (read.contains(kind) <==> readable.contains(kind))
            &&& forall|g: int|
                #![trigger groups[g]]
                0 <= g < groups.len() && groups[g].token@ == token && (forall|h: int|
                    0 <= h < g ==> (#[trigger] groups[h]).token@ != token) ==> (read.contains(kind)
                    <==> readable.contains(kind) && groups[g].kinds@.contains(kind))
        }),
{
    let requested = kinds_asked_for(groups, query);
    lemma_selected(readable, requested, kind);
    lemma_first_named(groups, text::trimmed(query.group@), 0);
    lemma_filter_keeps_order(
        DocumentKind::every(),
        |k: DocumentKind| readable.contains(k) && requests(requested, k),
    );
}

proof fn lemma_first_named(groups: Seq<DocumentGroup>, token: Seq<char>, from: int)
    requires
        0 <= from <= groups.len(),
    ensures
        match first_named(groups, token, from) {
            Some(g) => from <= g < groups.len() && groups[g].token@ == token && forall|h: int|
                from <= h < g ==> (#[trigger] groups[h]).token@ != token,
            None => forall|h: int|
                from <= h < groups.len() ==> (#[trigger] groups[h]).token@ != token,
        },
    decreases groups.len() - from,
{
    if from < groups.len() && groups[from].token@ != token {
        lemma_first_named(groups, token, from + 1);
    }
}

/// The group that a query asks for is the first that goes by the asked name, and there
/// is none exactly where no group goes by it.
pub proof fn the_first_group_of_a_name_is_asked_for(
    groups: Seq<DocumentGroup>,
    query: DocumentListQuery,
)
    ensures
        match asked_for(groups, query) {
            Some(g) => 0 <= g < groups.len() && groups[g].token@ == text::trimmed(query.group@)
                && forall|h: int|
                0 <= h < g ==> (#[trigger] groups[h]).token@ != text::trimmed(query.group@),
            None => forall|h: int|
                0 <= h < groups.len() ==> (#[trigger] groups[h]).token@ != text::trimmed(
                    query.group@,
                ),
        },
{
    lemma_first_named(groups, text::trimmed(query.group@), 0);
}

/// Whether one of the families of a group is readable.
pub open spec fn has_readable_kind(group: DocumentGroup, readable: Seq<DocumentKind>) -> bool {
    exists|kind: DocumentKind| #[trigger] group.kinds@.contains(kind) && readable.contains(kind)
}

/// How many of the first `n` groups have a readable family.
pub open spec fn readable_before(
    groups: Seq<DocumentGroup>,
    readable: Seq<DocumentKind>,
    n: int,
) -> int
    decreases n,
{
    if n <= 0 {
        0
    } else {
        readable_before(groups, readable, n - 1) + (if has_readable_kind(
            groups[n - 1],
            readable,
        ) {
            1int
        } else {
            0
        })
    }
}

proof fn lemma_offers(group: DocumentGroup, readable: Seq<DocumentKind>)
    ensures
        offers(group, readable) == has_readable_kind(group, readable),
{
    if offers(group, readable) {
        let i = choose|i: int|
            0 <= i < group.kinds@.len() && readable.contains(#[trigger] group.kinds@[i]);
        assert(group.kinds@.contains(group.kinds@[i]));
    }
    if has_readable_kind(group, readable) {
        let kind = choose|kind: DocumentKind| #[trigger]
            group.kinds@.contains(kind) && readable.contains(kind);
        let i = group.kinds@.index_of(kind);
        assert(readable.contains(group.kinds@[i]));
    }
}

proof fn lemma_offered(
    groups: Seq<DocumentGroup>,
    readable: Seq<DocumentKind>,
    requested: Option<int>,
    count: nat,
)
    requires
        count <= groups.len(),
    ensures
        offered(groups, readable, requested, count).len() == readable_before(
            groups,
            readable,
            count as int,
        ),
        forall|g: int|
            #![trigger groups[g]]
            0 <= g < count && has_readable_kind(groups[g], readable) ==> {
                let at = readable_before(groups, readable, g);
                let shown = offered(groups, readable, requested, count);
                &&& 0 <= at < shown.len()
                &&& shown[at].token == groups[g].token@
                &&& shown[at].label == groups[g].label@
                &&& shown[at].selected == (requested == Some(g))
            },
    decreases count,
{
    if count > 0 {
        lemma_offered(groups, readable, requested, (count - 1) as nat);
        lemma_offers(groups[count - 1], readable);
        let before = offered(groups, readable, requested, (count - 1) as nat);
        let shown = offered(groups, readable, requested, count);
        assert forall|g: int|
            #![trigger groups[g]]
            0 <= g < count && has_readable_kind(groups[g], readable) implies {
            let at = readable_before(groups, readable, g);
            &&& 0 <= at < shown.len()
            &&& shown[at].token == groups[g].token@
            &&& shown[at].label == groups[g].label@
            &&& shown[at].selected == (requested == Some(g))
        } by {
            let at = readable_before(groups, readable, g);
            if g < count - 1 {
                assert(0 <= at < before.len());
                assert(shown[at] == before[at]);
            }
        }
    }
}

/// The choices of the type filter are exactly the groups with a readable family, in the
/// order of the groups, each under its own name and label; the one that was asked for is
/// marked, and no other.
pub proof fn readable_groups_are_the_choices(
    groups: Seq<DocumentGroup>,
    readable: Seq<DocumentKind>,
    query: DocumentListQuery,
)
    ensures
        ({
            let shown = offered(groups, readable, asked_for(groups, query), groups.len());
            &&& shown.len() == readable_before(groups, readable, groups.len() as int)
            &&& forall|g: int|
                #![trigger groups[g]]
                0 <= g < groups.len() && has_readable_kind(groups[g], readable) ==> {
                    let at = readable_before(groups, readable, g);
                    &&& 0 <= at < shown.len()
                    &&& shown[at].token == groups[g].token@
                    &&& shown[at].label == groups[g].label@
                    &&& shown[at].selected <==> groups[g].token@ == text::trimmed(query.group@)
                        && forall|h: int|
                        0 <= h < g ==> (#[trigger] groups[h]).token@ != text::trimmed(query.group@)
                }
        }),
{
    lemma_offered(groups, readable, asked_for(groups, query), groups.len());
    lemma_first_named(groups, text::trimmed(query.group@), 0);
}

/// A drawer request opens the family whose segment it names, where the principal holds
/// the permission on it. Without the permission it is refused, and the refusal names the
/// code. A segment of no family is not found, and the answer names every segment.
pub proof fn segments_open_their_family(principal: Principal, token: Seq<char>)
    ensures
        forall|kind: DocumentKind| #[trigger]
            kind.url_token() == token ==> if principal.holds(kind.reader()) {
                opening(principal, token) == Ok::<DocumentKind, ErrorView>(kind)
            } else {
                opening(principal, token) == Err::<DocumentKind, ErrorView>(
                    ErrorView::Forbidden(
                        "Se necesita el permiso «"@ + permission::code_of(kind.reader())
                            + "» para ver este documento"@,
                    ),
                )
            },
        token != "sale"@ && token != "sale_payment"@ && token != "purchase"@ && token
            != "purchase_payment"@ && token != "stock_movement"@ && token != "receipt"@
            ==> opening(principal, token) == Err::<DocumentKind, ErrorView>(
            ErrorView::NotFound(
                "unknown document kind \""@ + token + "\": the index knows "@ + (("sale"@ + ", "@
                    + "sale_payment"@ + ", "@ + "purchase"@ + ", "@ + "purchase_payment"@ + ", "@
                    + "stock_movement"@ + ", "@ + "receipt"@)),
            ),
        ),
{
    assert forall|kind: DocumentKind| #[trigger] kind.url_token() == token implies (
    if principal.holds(kind.reader()) {
        opening(principal, token) == Ok::<DocumentKind, ErrorView>(kind)
    } else {
        opening(principal, token) == Err::<DocumentKind, ErrorView>(
            ErrorView::Forbidden(
                "Se necesita el permiso «"@ + permission::code_of(kind.reader())
                    + "» para ver este documento"@,
            ),
        )
    }) by {
        let chosen = choose|k: DocumentKind| #[trigger] k.url_token() == token;
        tokens_keep_families_apart(kind, chosen);
    }
    let all = every_token();
    assert(all =~= seq![
        "sale"@,
        "sale_payment"@,
        "purchase"@,
        "purchase_payment"@,
        "stock_movement"@,
        "receipt"@,
    ]);
    let five = all.drop_last();
    let four = five.drop_last();
    let three = four.drop_last();
    let two = three.drop_last();
    assert(two.drop_last() =~= seq!["sale"@]);
    assert(text::joined(two.drop_last(), ", "@) == "sale"@);
    assert(text::joined(two, ", "@) == "sale"@ + ", "@ + "sale_payment"@);
    assert(text::joined(three, ", "@) == text::joined(two, ", "@) + ", "@ + "purchase"@);
    assert(text::joined(four, ", "@) == text::joined(three, ", "@) + ", "@ + "purchase_payment"@);
    assert(text::joined(five, ", "@) == text::joined(four, ", "@) + ", "@ + "stock_movement"@);
    assert(text::joined(all, ", "@) == text::joined(five, ", "@) + ", "@ + "receipt"@);
}

/// A date filter names the date that its text reads as without the white space around it,
/// and an empty filter names no date. A text filter asks for its text without the white
/// space around it, and for nothing where it is empty.
pub proof fn filters_read_their_own_text(raw: Seq<char>)
    ensures
        text::trimmed(raw).len() == 0 ==> optional_date(raw) is None,
        text::trimmed(raw).len() > 0 ==> optional_date(raw) == date::date_reading(
            text::trimmed(raw),
        ),
        filter_text(raw) is None <==> text::trimmed(raw).len() == 0,
        filter_text(raw) matches Some(t) ==> t == text::trimmed(raw),
{
}

/// The filter that a query makes reads each of its dates and its text from the field of
/// that name, and hands on the users as they were found.
pub proof fn each_filter_takes_its_own_field(
    query: &DocumentListQuery,
    permitted: &[DocumentKind],
    groups: &[DocumentGroup],
    actor_ids: Option<Vec<i64>>,
    filter: DocumentFilter,
)
    requires
        call_ensures(document_filter, (query, permitted, groups, actor_ids), filter),
    ensures
        filter.actor_ids == actor_ids,
        filter.from is Some ==> date::date_reading(text::trimmed(query.from@)) == Some(
            filter.from->0@,
        ),
        filter.from is None ==> text::trimmed(query.from@).len() == 0 || date::date_reading(
            text::trimmed(query.from@),
        ) is None,
        filter.to is Some ==> date::date_reading(text::trimmed(query.to@)) == Some(filter.to->0@),
        filter.to is None ==> text::trimmed(query.to@).len() == 0 || date::date_reading(
            text::trimmed(query.to@),
        ) is None,
        filter.search is None <==> text::trimmed(query.q@).len() == 0,
        filter.search is Some ==> filter.search->0@ == text::trimmed(query.q@),
{
}

/// The model of the index tells of the feed that was read: whether it was cut short, and
/// at how many rows.
pub proof fn the_model_tells_of_its_feed(
    query: &DocumentListQuery,
    feed: &DocumentFeed,
    names: &BTreeMap<i64, String>,
    labels: &KindLabels,
    permitted: &[DocumentKind],
    groups: &[DocumentGroup],
    model: DocumentsModel,
)
    requires
        call_ensures(documents_model, (query, feed, names, labels, permitted, groups), model),
    ensures
        model.truncated == feed.truncated,
        model.limit == feed.limit,
        model.rows@.len() == feed.rows@.len(),
        forall|i: int|
            0 <= i < feed.rows@.len() ==> (#[trigger] model.rows@[i]).amount
                == feed.rows@[i].amount && model.rows@[i].quantity == feed.rows@[i].quantity,
{
}

/// The writers of the rows are asked for row by row.
pub proof fn every_row_asks_for_its_writer(rows: &[DocumentRow], ids: Vec<i64>)
    requires
        call_ensures(row_actor_ids, (rows,), ids),
    ensures
        ids@.len() == rows@.len(),
        forall|i: int| 0 <= i < rows@.len() ==> #[trigger] ids@[i] == rows@[i].created_by,
{
}

/// The filter form is filled again with what was asked, each field with its own.
pub proof fn the_filter_form_repeats_the_query(query: &DocumentListQuery, page: DocumentsPage)
    requires
        call_ensures(documents_page, (query,), page),
    ensures
        page.filter_user@ == text::trimmed(query.user@),
        page.filter_from@ == text::trimmed(query.from@),
        page.filter_to@ == text::trimmed(query.to@),
        page.filter_q@ == text::trimmed(query.q@),
        page.title@ == "All documents"@,
        page.nav_key@ == "documents"@,
{
}

/// Asking for nothing reads every readable family, whoever wrote it and whenever.
pub proof fn an_empty_query_filters_nothing(
    query: &DocumentListQuery,
    permitted: &[DocumentKind],
    groups: &[DocumentGroup],
    filter: DocumentFilter,
    kind: DocumentKind,
)
    requires
        call_ensures(document_filter, (query, permitted, groups, None::<Vec<i64>>), filter),
        text::trimmed(query.group@).len() == 0,
        text::trimmed(query.from@).len() == 0,
        text::trimmed(query.to@).len() == 0,
        text::trimmed(query.q@).len() == 0,
        forall|g: int| 0 <= g < groups@.len() ==> (#[trigger] groups@[g]).token@.len() > 0,
    ensures
        filter.kinds@.contains(kind) <==> permitted@.contains(kind),
        filter.actor_ids is None,
        filter.from is None,
        filter.to is None,
        filter.search is None,
{
    queries_read_the_families_they_name(permitted@, groups@, *query, kind);
}

/// A segment is read as the family that it names, and as none where it names none.
pub proof fn segments_are_read_as_their_family(token: &str, kind: Option<DocumentKind>)
    requires
        call_ensures(DocumentKind::parse, (token,), kind),
    ensures
        token@ == "sale"@ <==> kind == Some(DocumentKind::Sale),
        token@ == "sale_payment"@ <==> kind == Some(DocumentKind::SalePayment),
        token@ == "purchase"@ <==> kind == Some(DocumentKind::Purchase),
        token@ == "purchase_payment"@ <==> kind == Some(DocumentKind::PurchasePayment),
        token@ == "stock_movement"@ <==> kind == Some(DocumentKind::StockMovement),
        token@ == "receipt"@ <==> kind == Some(DocumentKind::Receipt),
{
    assert forall|k: DocumentKind| #[trigger] k.url_token() == token@ implies kind == Some(k) by {
        if kind is Some {
            tokens_keep_families_apart(k, kind->0);
        }
    }
    assert(DocumentKind::Sale.url_token() == "sale"@);
    assert(DocumentKind::SalePayment.url_token() == "sale_payment"@);
    assert(DocumentKind::Purchase.url_token() == "purchase"@);
    assert(DocumentKind::PurchasePayment.url_token() == "purchase_payment"@);
    assert(DocumentKind::StockMovement.url_token() == "stock_movement"@);
    assert(DocumentKind::Receipt.url_token() == "receipt"@);
}

} // verus!
