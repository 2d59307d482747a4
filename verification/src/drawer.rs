//! The document drawer: the parts that it is made of, and the pieces that several
//! families share.

use std::collections::BTreeMap;

use vstd::prelude::*;
use vstd::string::*;

use crate::actors;
use crate::actors::lookup_name;
use crate::text;
use crate::text::{concat2, id_text, same_text};
use crate::views;

verus! {

broadcast use crate::views::group_views;

/// One line of the fact list.
pub struct DrawerFact {
    pub label: &'static str,
    pub value: String,
}

/// One line of the fact list, as text.
pub struct FactView {
    pub label: Seq<char>,
    pub value: Seq<char>,
}

impl View for DrawerFact {
    type V = FactView;

    open spec fn view(&self) -> FactView {
        FactView { label: self.label@, value: self.value@ }
    }
}

/// A fact with this label and value.
pub open spec fn fact(label: Seq<char>, value: Seq<char>) -> FactView {
    FactView { label, value }
}

/// A sequence of one element.
pub open spec fn one<T>(x: T) -> Seq<T> {
    seq![x]
}

/// A fact where there is a value and it is not empty.
pub open spec fn optional_fact(label: Seq<char>, value: Option<Seq<char>>) -> Option<FactView> {
    match value {
        Some(v) => if v.len() > 0 {
            Some(fact(label, v))
        } else {
            None
        },
        None => None,
    }
}

impl DrawerFact {
    /// A fact with this label and value.
    pub fn new(label: &'static str, value: String) -> (made: Self)
        ensures
            made@ == fact(label@, value@),
    {
        DrawerFact { label, value }
    }

    /// The fact only where the value is there and not empty, so that an optional fact
    /// vanishes instead of showing an empty line.
    pub fn when_non_empty(label: &'static str, value: Option<String>) -> (made: Option<Self>)
        ensures
            views::opt_view(made) == optional_fact(label@, views::opt_view(value)),
    {
        match value {
            Some(v) => {
                if v.as_str().is_empty() {
                    None
                } else {
                    Some(DrawerFact { label, value: v })
                }
            },
            None => None,
        }
    }
}

/// Adds a fact at the end of the list.
pub fn push_fact(facts: &mut Vec<DrawerFact>, label: &'static str, value: String)
    ensures
        views::views(final(facts)@) == views::views(old(facts)@) + one(fact(label@, value@)),
{
    facts.push(DrawerFact::new(label, value));
}

/// Adds a fact at the end of the list, if there is one.
pub fn push_optional_fact(facts: &mut Vec<DrawerFact>, added: Option<DrawerFact>)
    ensures
        views::views(final(facts)@) == views::views(old(facts)@) + views::opt_seq(
            views::opt_view(added),
        ),
{
    match added {
        Some(f) => {
            facts.push(f);
        },
        None => {
            proof {
                assert(views::views(facts@) + Seq::<FactView>::empty() =~= views::views(facts@));
            }
        },
    }
}

/// A list of one fact.
pub fn first_fact(label: &'static str, value: String) -> (facts: Vec<DrawerFact>)
    ensures
        views::views(facts@) == one(fact(label@, value@)),
{
    let mut facts: Vec<DrawerFact> = Vec::new();
    push_fact(&mut facts, label, value);
    proof {
        assert(views::views(facts@) =~= one(fact(label@, value@)));
    }
    facts
}

/// One row of a drawer table. The address, where there is one, is that of the first
/// cell.
pub struct DrawerTableRow {
    pub cells: Vec<String>,
    pub href: Option<String>,
}

/// One row of a drawer table, as text.
pub struct TableRowView {
    pub cells: Seq<Seq<char>>,
    pub href: Option<Seq<char>>,
}

impl View for DrawerTableRow {
    type V = TableRowView;

    open spec fn view(&self) -> TableRowView {
        TableRowView { cells: views::views(self.cells@), href: views::opt_view(self.href) }
    }
}

/// A table of the drawer.
pub struct DrawerTable {
    pub title: &'static str,
    pub headers: Vec<&'static str>,
    pub rows: Vec<DrawerTableRow>,
}

/// A table of the drawer, as text.
pub struct TableView {
    pub title: Seq<char>,
    pub headers: Seq<Seq<char>>,
    pub rows: Seq<TableRowView>,
}

impl View for DrawerTable {
    type V = TableView;

    open spec fn view(&self) -> TableView {
        TableView {
            title: self.title@,
            headers: views::views(self.headers@),
            rows: views::views(self.rows@),
        }
    }
}

/// A link at the foot of the drawer.
pub struct DrawerLink {
    pub label: String,
    pub href: String,
}

/// A link at the foot of the drawer, as text.
pub struct LinkView {
    pub label: Seq<char>,
    pub href: Seq<char>,
}

impl View for DrawerLink {
    type V = LinkView;

    open spec fn view(&self) -> LinkView {
        LinkView { label: self.label@, href: self.href@ }
    }
}

/// A link with this label and address.
pub open spec fn link(label: Seq<char>, href: Seq<char>) -> LinkView {
    LinkView { label, href }
}

/// The document that a payment belongs to, in short.
pub struct DrawerParent {
    pub label: String,
    pub title: String,
    pub status_line: String,
    pub facts: Vec<DrawerFact>,
    pub href: String,
}

/// The document that a payment belongs to, as text.
pub struct ParentView {
    pub label: Seq<char>,
    pub title: Seq<char>,
    pub status_line: Seq<char>,
    pub facts: Seq<FactView>,
    pub href: Seq<char>,
}

impl View for DrawerParent {
    type V = ParentView;

    open spec fn view(&self) -> ParentView {
        ParentView {
            label: self.label@,
            title: self.title@,
            status_line: self.status_line@,
            facts: views::views(self.facts@),
            href: self.href@,
        }
    }
}

/// An action that the drawer offers: one that exists, that the principal may take
/// and that the document's state allows.
pub struct DrawerAction {
    pub label: String,
    /// The HTTP verb, `delete` or `post`.
    pub method: String,
    pub path: String,
    /// The hidden fields of a post.
    pub fields: Vec<(String, String)>,
    /// Whether the action takes a reason in free text.
    pub reason: bool,
    /// What the action deletes or creates, one line each.
    pub impact: Vec<String>,
    /// The question to answer before a destructive action.
    pub confirm: Option<String>,
}

/// An action that the drawer offers, as text.
pub struct ActionView {
    pub label: Seq<char>,
    pub method: Seq<char>,
    pub path: Seq<char>,
    pub fields: Seq<(Seq<char>, Seq<char>)>,
    pub reason: bool,
    pub impact: Seq<Seq<char>>,
    pub confirm: Option<Seq<char>>,
}

impl View for DrawerAction {
    type V = ActionView;

    open spec fn view(&self) -> ActionView {
        ActionView {
            label: self.label@,
            method: self.method@,
            path: self.path@,
            fields: views::views(self.fields@),
            reason: self.reason,
            impact: views::views(self.impact@),
            confirm: views::opt_view(self.confirm),
        }
    }
}

/// What the drawer shows of one document, whatever its family.
pub struct DocumentDetail {
    pub kind_token: String,
    pub kind_label: String,
    pub title: String,
    pub status_line: String,
    pub facts: Vec<DrawerFact>,
    pub tables: Vec<DrawerTable>,
    pub parent: Option<DrawerParent>,
    pub actions: Vec<DrawerAction>,
    pub notice: Option<String>,
    pub links: Vec<DrawerLink>,
}

/// What the drawer shows of one document, as text.
pub struct DetailView {
    pub kind_token: Seq<char>,
    pub kind_label: Seq<char>,
    pub title: Seq<char>,
    pub status_line: Seq<char>,
    pub facts: Seq<FactView>,
    pub tables: Seq<TableView>,
    pub parent: Option<ParentView>,
    pub actions: Seq<ActionView>,
    pub notice: Option<Seq<char>>,
    pub links: Seq<LinkView>,
}

impl View for DocumentDetail {
    type V = DetailView;

    open spec fn view(&self) -> DetailView {
        DetailView {
            kind_token: self.kind_token@,
            kind_label: self.kind_label@,
            title: self.title@,
            status_line: self.status_line@,
            facts: views::views(self.facts@),
            tables: views::views(self.tables@),
            parent: views::opt_view(self.parent),
            actions: views::views(self.actions@),
            notice: views::opt_view(self.notice),
            links: views::views(self.links@),
        }
    }
}

/// The identifier that a document answers by: its number, or `Draft #id` while it
/// has none.
pub open spec fn title_of(number: Option<Seq<char>>, id: i64) -> Seq<char> {
    match number {
        Some(n) => n,
        None => "Draft #"@ + text::int_text(id as int),
    }
}

/// The identifier that a document answers by.
pub fn document_title(number: Option<&str>, id: i64) -> (title: String)
    ensures
        title@ == title_of(views::opt_view(number), id),
{
    match number {
        Some(n) => n.to_owned(),
        None => concat2("Draft #", id_text(id).as_str()),
    }
}

/// The label of the link to the record page, by what the status allows there.
pub open spec fn affordance_label(status: Seq<char>) -> Seq<char> {
    if status == "Draft"@ {
        "Editar cabecera"@
    } else {
        "Abrir el documento"@
    }
}

/// The link to the record page, where the forms of the document live.
pub fn edit_affordance_link(status: &str, href: String) -> (made: DrawerLink)
    ensures
        made@ == link(affordance_label(status@), href@),
{
    let label = if same_text(status, "Draft") {
        "Editar cabecera"
    } else {
        "Abrir el documento"
    };
    DrawerLink { label: label.to_owned(), href }
}

/// The sentence on where the actions of a document are, by its status.
pub open spec fn affordance_notice(status: Seq<char>) -> Seq<char> {
    if status == "Draft"@ {
        "Para editar la cabecera, agregar líneas, confirmar o registrar pagos, abrí el documento."@
    } else if status == "Confirmed"@ {
        "Para registrar pagos o ver el detalle completo, abrí el documento."@
    } else {
        "El documento está anulado. Para ver el detalle completo y su historia, abrí el documento."@
    }
}

/// The sentence on where the actions of a document are.
pub fn edit_affordance_notice(status: &str) -> (notice: String)
    ensures
        notice@ == affordance_notice(status@),
{
    if same_text(status, "Draft") {
        "Para editar la cabecera, agregar líneas, confirmar o registrar pagos, abrí el documento.".to_owned()
    } else if same_text(status, "Confirmed") {
        "Para registrar pagos o ver el detalle completo, abrí el documento.".to_owned()
    } else {
        "El documento está anulado. Para ver el detalle completo y su historia, abrí el documento.".to_owned()
    }
}

/// The display name of whoever wrote a record, or the marker for nobody known.
pub open spec fn writer(names: Map<i64, String>, id: i64) -> Seq<char> {
    match actors::name_of(names, id) {
        Some(name) => name,
        None => "(sistema)"@,
    }
}

/// Who recorded the document.
pub open spec fn created_fact(names: Map<i64, String>, created_by: i64) -> FactView {
    fact("Registrado por"@, writer(names, created_by))
}

/// Who last changed the document, if anybody did.
pub open spec fn updated_fact(names: Map<i64, String>, updated_by: Option<i64>) -> Option<
    FactView,
> {
    match updated_by {
        Some(id) => Some(fact("Actualizado por"@, writer(names, id))),
        None => None,
    }
}

/// The users that a drawer names: whoever recorded the document, and whoever last
/// changed it.
pub fn actor_fact_ids(created_by: i64, updated_by: Option<i64>) -> (ids: Vec<i64>)
    ensures
        ids@ == seq![created_by] + views::opt_seq(updated_by),
{
    let mut ids: Vec<i64> = Vec::new();
    ids.push(created_by);
    match updated_by {
        Some(id) => {
            ids.push(id);
        },
        None => {},
    }
    proof {
        assert(ids@ =~= seq![created_by] + views::opt_seq(updated_by));
    }
    ids
}

fn writer_name(names: &BTreeMap<i64, String>, id: i64) -> (name: String)
    ensures
        name@ == writer(names@, id),
{
    match lookup_name(names, id) {
        Some(name) => name,
        None => "(sistema)".to_owned(),
    }
}

/// Who recorded the document, and who last changed it.
pub fn actor_facts(
    names: &BTreeMap<i64, String>,
    created_by: i64,
    updated_by: Option<i64>,
) -> (facts: (DrawerFact, Option<DrawerFact>))
    ensures
        facts.0@ == created_fact(names@, created_by),
        views::opt_view(facts.1) == updated_fact(names@, updated_by),
{
    let created = DrawerFact::new("Registrado por", writer_name(names, created_by));
    let updated = match updated_by {
        Some(id) => Some(DrawerFact::new("Actualizado por", writer_name(names, id))),
        None => None,
    };
    (created, updated)
}

/// The cells of a row, one after the other.
pub fn cells3(a: String, b: String, c: String) -> (cells: Vec<String>)
    ensures
        views::views(cells@) == seq![a@, b@, c@],
{
    let mut cells: Vec<String> = Vec::new();
    cells.push(a);
    cells.push(b);
    cells.push(c);
    proof {
        assert(views::views(cells@) =~= seq![a@, b@, c@]);
    }
    cells
}

/// The cells of a row, one after the other.
pub fn cells4(a: String, b: String, c: String, d: String) -> (cells: Vec<String>)
    ensures
        views::views(cells@) == seq![a@, b@, c@, d@],
{
    let mut cells = cells3(a, b, c);
    cells.push(d);
    proof {
        assert(views::views(cells@) =~= seq![a@, b@, c@, d@]);
    }
    cells
}

/// The cells of a row, one after the other.
pub fn cells5(a: String, b: String, c: String, d: String, e: String) -> (cells: Vec<String>)
    ensures
        views::views(cells@) == seq![a@, b@, c@, d@, e@],
{
    let mut cells = cells4(a, b, c, d);
    cells.push(e);
    proof {
        assert(views::views(cells@) =~= seq![a@, b@, c@, d@, e@]);
    }
    cells
}

/// An optional fact never shows an empty line, and vanishes exactly where there is
/// nothing to show.
pub proof fn optional_facts_are_never_blank(label: Seq<char>, value: Option<Seq<char>>)
    ensures
        optional_fact(label, value) matches Some(f) ==> f.value.len() > 0 && f.label == label,
        optional_fact(label, value) is None <==> value is None || value->0.len() == 0,
{
}

/// Whether no fact of the list has this label.
#[verifier::opaque]
pub open spec fn says_nothing_of(facts: Seq<FactView>, label: Seq<char>) -> bool {
    forall|k: int| 0 <= k < facts.len() ==> (#[trigger] facts[k]).label != label
}

/// Whether exactly one fact of the list has this label, and its value is this one.
#[verifier::opaque]
pub open spec fn says_once(facts: Seq<FactView>, label: Seq<char>, value: Seq<char>) -> bool {
    exists|at: int|
        #![trigger facts[at]]
        0 <= at < facts.len() && facts[at].label == label && facts[at].value == value && forall|
            k: int,
        | 0 <= k < facts.len() && k != at ==> (#[trigger] facts[k]).label != label
}

/// Whether the list has one fact with this label where there is a text to show under
/// it, with that text, and none where there is not.
pub open spec fn says_if_any(
    facts: Seq<FactView>,
    label: Seq<char>,
    value: Option<Seq<char>>,
) -> bool {
    match value {
        Some(v) => if v.len() > 0 {
            says_once(facts, label, v)
        } else {
            says_nothing_of(facts, label)
        },
        None => says_nothing_of(facts, label),
    }
}

/// The labels of the facts, in order.
#[verifier::opaque]
pub open spec fn labels_of(facts: Seq<FactView>) -> Seq<Seq<char>> {
    Seq::new(facts.len(), |i: int| facts[i].label)
}

/// A label where it is shown, and nothing where it is not.
pub open spec fn label_if(shown: bool, label: Seq<char>) -> Seq<Seq<char>> {
    if shown {
        seq![label]
    } else {
        Seq::empty()
    }
}

/// Two lists one after the other say nothing of a label where neither does.
pub broadcast proof fn lemma_says_nothing_add(
    a: Seq<FactView>,
    b: Seq<FactView>,
    label: Seq<char>,
)
    ensures
        #[trigger] says_nothing_of(a + b, label) == (says_nothing_of(a, label) && says_nothing_of(
            b,
            label,
        )),
{
    reveal(says_nothing_of);
    let both = a + b;
    if says_nothing_of(both, label) {
        assert forall|k: int| 0 <= k < a.len() implies (#[trigger] a[k]).label != label by {
            assert(both[k] == a[k]);
        }
        assert forall|k: int| 0 <= k < b.len() implies (#[trigger] b[k]).label != label by {
            assert(both[k + a.len()] == b[k]);
        }
    }
}

/// Two lists one after the other say a thing once where one of them does and the other
/// says nothing of it.
pub broadcast proof fn lemma_says_once_add(
    a: Seq<FactView>,
    b: Seq<FactView>,
    label: Seq<char>,
    value: Seq<char>,
)
    ensures
        (says_once(a, label, value) && says_nothing_of(b, label)) || (says_nothing_of(a, label)
            && says_once(b, label, value)) ==> #[trigger] says_once(a + b, label, value),
{
    reveal(says_nothing_of);
    reveal(says_once);
    let both = a + b;
    if says_once(a, label, value) && says_nothing_of(b, label) {
        let at = choose|at: int|
            #![trigger a[at]]
            0 <= at < a.len() && a[at].label == label && a[at].value == value && forall|k: int|
                0 <= k < a.len() && k != at ==> (#[trigger] a[k]).label != label;
        assert(both[at] == a[at]);
        assert forall|k: int| 0 <= k < both.len() && k != at implies (#[trigger] both[k]).label
            != label by {
            if k < a.len() {
                assert(both[k] == a[k]);
            } else {
                assert(both[k] == b[k - a.len()]);
            }
        }
    } else if says_nothing_of(a, label) && says_once(b, label, value) {
        let at = choose|at: int|
            #![trigger b[at]]
            0 <= at < b.len() && b[at].label == label && b[at].value == value && forall|k: int|
                0 <= k < b.len() && k != at ==> (#[trigger] b[k]).label != label;
        assert(both[at + a.len()] == b[at]);
        assert forall|k: int| 0 <= k < both.len() && k != at + a.len() implies (
        #[trigger] both[k]).label != label by {
            if k < a.len() {
                assert(both[k] == a[k]);
            } else {
                assert(both[k] == b[k - a.len()]);
            }
        }
    }
}

/// What a list of one fact says.
pub broadcast proof fn lemma_one_says_once(f: FactView, label: Seq<char>, value: Seq<char>)
    ensures
        #[trigger] says_once(one(f), label, value) == (f.label == label && f.value == value),
{
    reveal(says_once);
    assert(one(f)[0] == f);
}

/// What a list of one fact says nothing of.
pub broadcast proof fn lemma_one_says_nothing(f: FactView, label: Seq<char>)
    ensures
        #[trigger] says_nothing_of(one(f), label) == (f.label != label),
{
    reveal(says_nothing_of);
    assert(one(f)[0] == f);
}

/// What an optional fact says.
pub broadcast proof fn lemma_optional_says_once(
    f: Option<FactView>,
    label: Seq<char>,
    value: Seq<char>,
)
    ensures
        #[trigger] says_once(views::opt_seq(f), label, value) == (f is Some && f->0.label == label
            && f->0.value == value),
{
    reveal(says_once);
    if f is Some {
        assert(views::opt_seq(f)[0] == f->0);
    }
}

/// What an optional fact says nothing of.
pub broadcast proof fn lemma_optional_says_nothing(f: Option<FactView>, label: Seq<char>)
    ensures
        #[trigger] says_nothing_of(views::opt_seq(f), label) == (f is None || f->0.label != label),
{
    reveal(says_nothing_of);
    if f is Some {
        assert(views::opt_seq(f)[0] == f->0);
    }
}

/// The labels of two lists, one after the other.
pub broadcast proof fn lemma_labels_add(a: Seq<FactView>, b: Seq<FactView>)
    ensures
        #[trigger] labels_of(a + b) == labels_of(a) + labels_of(b),
{
    reveal(labels_of);
    assert(labels_of(a + b) =~= labels_of(a) + labels_of(b));
}

/// The label of one fact.
pub broadcast proof fn lemma_labels_one(f: FactView)
    ensures
        #[trigger] labels_of(one(f)) == seq![f.label],
{
    reveal(labels_of);
    assert(labels_of(one(f)) =~= seq![f.label]);
}

/// The label of an optional fact.
pub broadcast proof fn lemma_labels_optional(f: Option<FactView>)
    ensures
        #[trigger] labels_of(views::opt_seq(f)) == (match f {
            Some(v) => seq![v.label],
            None => Seq::empty(),
        }),
{
    reveal(labels_of);
    match f {
        Some(v) => assert(labels_of(views::opt_seq(f)) =~= seq![v.label]),
        None => assert(labels_of(views::opt_seq(f)) =~= Seq::empty()),
    }
}

pub broadcast group group_facts {
    lemma_says_nothing_add,
    lemma_says_once_add,
    lemma_one_says_once,
    lemma_one_says_nothing,
    lemma_optional_says_once,
    lemma_optional_says_nothing,
    lemma_labels_add,
    lemma_labels_one,
    lemma_labels_optional,
}

/// What a contract says of a part of the drawer is said of its own fields: a fact, a link,
/// a row, a table, a parent and an action each keep every field in its place.
pub proof fn parts_are_what_their_fields_hold(
    f: DrawerFact,
    l: DrawerLink,
    row: DrawerTableRow,
    table: DrawerTable,
    parent: DrawerParent,
    action: DrawerAction,
)
    ensures
        f@.label == f.label@,
        f@.value == f.value@,
        l@.label == l.label@,
        l@.href == l.href@,
        row@.cells.len() == row.cells@.len(),
        forall|i: int| 0 <= i < row.cells@.len() ==> #[trigger] row@.cells[i] == row.cells@[i]@,
        row@.href is Some <==> row.href is Some,
        row.href is Some ==> row@.href->0 == row.href->0@,
        table@.title == table.title@,
        table@.headers.len() == table.headers@.len(),
        forall|i: int|
            0 <= i < table.headers@.len() ==> #[trigger] table@.headers[i] == table.headers@[i]@,
        table@.rows.len() == table.rows@.len(),
        forall|i: int| 0 <= i < table.rows@.len() ==> #[trigger] table@.rows[i] == table.rows@[i]@,
        parent@.label == parent.label@,
        parent@.title == parent.title@,
        parent@.status_line == parent.status_line@,
        parent@.facts.len() == parent.facts@.len(),
        forall|i: int|
            0 <= i < parent.facts@.len() ==> #[trigger] parent@.facts[i] == parent.facts@[i]@,
        parent@.href == parent.href@,
        action@.label == action.label@,
        action@.method == action.method@,
        action@.path == action.path@,
        action@.fields.len() == action.fields@.len(),
        forall|i: int|
            0 <= i < action.fields@.len() ==> (#[trigger] action@.fields[i]).0
                == action.fields@[i].0@ && action@.fields[i].1 == action.fields@[i].1@,
        action@.reason == action.reason,
        action@.impact.len() == action.impact@.len(),
        forall|i: int|
            0 <= i < action.impact@.len() ==> #[trigger] action@.impact[i] == action.impact@[i]@,
        action@.confirm is Some <==> action.confirm is Some,
        action.confirm is Some ==> action@.confirm->0 == action.confirm->0@,
{
}

/// What a contract says of a drawer is said of its own fields.
pub proof fn drawers_are_what_their_fields_hold(detail: DocumentDetail)
    ensures
        detail@.kind_token == detail.kind_token@,
        detail@.kind_label == detail.kind_label@,
        detail@.title == detail.title@,
        detail@.status_line == detail.status_line@,
        detail@.facts.len() == detail.facts@.len(),
        forall|i: int|
            0 <= i < detail.facts@.len() ==> #[trigger] detail@.facts[i] == detail.facts@[i]@,
        detail@.tables.len() == detail.tables@.len(),
        forall|i: int|
            0 <= i < detail.tables@.len() ==> #[trigger] detail@.tables[i] == detail.tables@[i]@,
        detail@.parent is Some <==> detail.parent is Some,
        detail.parent is Some ==> detail@.parent->0 == detail.parent->0@,
        detail@.actions.len() == detail.actions@.len(),
        forall|i: int|
            0 <= i < detail.actions@.len() ==> #[trigger] detail@.actions[i]
                == detail.actions@[i]@,
        detail@.notice is Some <==> detail.notice is Some,
        detail.notice is Some ==> detail@.notice->0 == detail.notice->0@,
        detail@.links.len() == detail.links@.len(),
        forall|i: int|
            0 <= i < detail.links@.len() ==> #[trigger] detail@.links[i] == detail.links@[i]@,
{
}

/// The users that a drawer names: whoever recorded the document first, and whoever changed
/// it behind them, where anybody did.
pub proof fn drawers_name_both_writers(created_by: i64, updated_by: Option<i64>, ids: Vec<i64>)
    requires
        call_ensures(actor_fact_ids, (created_by, updated_by), ids),
    ensures
        ids@[0] == created_by,
        updated_by is Some ==> ids@.len() == 2 && ids@[1] == updated_by->0,
        updated_by is None ==> ids@.len() == 1,
{
}

/// A document answers by its number where it has one, and as a draft by its id where it has
/// none; the link to its page speaks of editing for a draft alone, and the notice tells
/// drafts, confirmed documents and all others apart.
pub proof fn documents_answer_by_number_and_status(
    number: Option<Seq<char>>,
    id: i64,
    status: Seq<char>,
)
    ensures
        number matches Some(n) ==> title_of(number, id) == n,
        number is None ==> title_of(number, id) == "Draft #"@ + text::int_text(id as int),
        status == "Draft"@ ==> affordance_label(status) == "Editar cabecera"@,
        status != "Draft"@ ==> affordance_label(status) == "Abrir el documento"@,
        status == "Draft"@ ==> affordance_notice(status)
            == "Para editar la cabecera, agregar líneas, confirmar o registrar pagos, abrí el documento."@,
        status == "Confirmed"@ ==> affordance_notice(status)
            == "Para registrar pagos o ver el detalle completo, abrí el documento."@,
        status != "Draft"@ && status != "Confirmed"@ ==> affordance_notice(status)
            == "El documento está anulado. Para ver el detalle completo y su historia, abrí el documento."@,
{
    reveal_strlit("Draft");
    reveal_strlit("Confirmed");
    assert("Draft"@.len() != "Confirmed"@.len());
}

/// The link keeps the address that it is given.
pub proof fn links_keep_their_address(status: &str, href: String, made: DrawerLink)
    requires
        call_ensures(edit_affordance_link, (status, href), made),
    ensures
        made.href@ == href@,
        made.label@ == if status@ == "Draft"@ {
            "Editar cabecera"@
        } else {
            "Abrir el documento"@
        },
{
}

/// Whoever recorded a document and whoever changed it stand under their own labels, by
/// their names or as the system.
pub proof fn writers_stand_under_their_own_labels(
    names: &BTreeMap<i64, String>,
    created_by: i64,
    updated_by: Option<i64>,
    facts: (DrawerFact, Option<DrawerFact>),
)
    requires
        call_ensures(actor_facts, (names, created_by, updated_by), facts),
    ensures
        facts.0.label@ == "Registrado por"@,
        names@.contains_key(created_by) ==> facts.0.value@ == names@[created_by]@,
        !names@.contains_key(created_by) ==> facts.0.value@ == "(sistema)"@,
        facts.1 is Some <==> updated_by is Some,
        updated_by is Some ==> facts.1->0.label@ == "Actualizado por"@,
        updated_by is Some && names@.contains_key(updated_by->0) ==> facts.1->0.value@
            == names@[updated_by->0]@,
        updated_by is Some && !names@.contains_key(updated_by->0) ==> facts.1->0.value@
            == "(sistema)"@,
{
    if facts.1 is Some {
        assert(views::opt_view(facts.1) == Some(facts.1->0@));
    }
}

} // verus!
