//! Customers: the receivable that the routes compose for them, the forms that change
//! them, and the collection of what they owe.

use std::collections::BTreeMap;

use vstd::prelude::*;
use vstd::string::*;

use crate::amount;
use crate::amount::{decimal_from_str, Amount, AmountView};
use crate::answer::{CustomerAnswer, CustomerAnswerView};
use crate::date;
use crate::date::{date_from_str, Date, DateView};
use crate::error::{AppError, ErrorView};
use crate::text;
use crate::text::{concat2, concat3, concat5, id_text, join, read_i64, trim};
use crate::views;

verus! {

broadcast use crate::views::group_views;

/// A customer.
#[derive(Clone)]
pub struct Customer {
    pub id: i64,
    pub name: String,
    pub phone: Option<String>,
    pub address: Option<String>,
    pub tax_id: Option<String>,
    pub notes: Option<String>,
    pub is_walkin: bool,
    pub is_active: bool,
    /// How much the customer may owe; none means that there is no limit.
    pub credit_limit: Option<Amount>,
    pub payment_days: Option<i64>,
}

/// What a customer owes, by how long it is overdue.
#[derive(Clone, Copy)]
pub struct Ageing {
    pub current: Amount,
    pub overdue_1_30: Amount,
    pub overdue_31_60: Amount,
    pub overdue_61_plus: Amount,
}

/// What a customer owes, over numbers.
pub struct AgeingView {
    pub current: AmountView,
    pub overdue_1_30: AmountView,
    pub overdue_31_60: AmountView,
    pub overdue_61_plus: AmountView,
}

impl View for Ageing {
    type V = AgeingView;

    open spec fn view(&self) -> AgeingView {
        AgeingView {
            current: self.current@,
            overdue_1_30: self.overdue_1_30@,
            overdue_31_60: self.overdue_31_60@,
            overdue_61_plus: self.overdue_61_plus@,
        }
    }
}

/// Nothing owed.
pub open spec fn nothing_owed() -> AgeingView {
    AgeingView {
        current: amount::zero_amount(),
        overdue_1_30: amount::zero_amount(),
        overdue_31_60: amount::zero_amount(),
        overdue_61_plus: amount::zero_amount(),
    }
}

impl Default for Ageing {
    fn default() -> (ageing: Self)
        ensures
            ageing@ == nothing_owed(),
    {
        Ageing {
            current: Amount::zero(),
            overdue_1_30: Amount::zero(),
            overdue_31_60: Amount::zero(),
            overdue_61_plus: Amount::zero(),
        }
    }
}

/// What one customer owes on a day. Only customers with a balance have a row.
#[derive(Clone, Copy)]
pub struct AgeingRow {
    pub customer_id: i64,
    pub balance: Amount,
    pub ageing: Ageing,
}

/// The row of a customer; of several, the last one counts.
pub open spec fn row_of(rows: Seq<AgeingRow>, customer_id: i64) -> Option<AgeingRow>
    decreases rows.len(),
{
    if rows.len() == 0 {
        None
    } else if rows.last().customer_id == customer_id {
        Some(rows.last())
    } else {
        row_of(rows.drop_last(), customer_id)
    }
}

/// What a customer owes: zero where there is no row for them.
pub open spec fn balance_of(rows: Seq<AgeingRow>, customer_id: i64) -> AmountView {
    match row_of(rows, customer_id) {
        Some(row) => row.balance@,
        None => amount::zero_amount(),
    }
}

/// What a customer owes by age: nothing where there is no row for them.
pub open spec fn ageing_of(rows: Seq<AgeingRow>, customer_id: i64) -> AgeingView {
    match row_of(rows, customer_id) {
        Some(row) => row.ageing@,
        None => nothing_owed(),
    }
}

/// Whether a customer owes more than their limit. Without a limit nobody does.
pub open spec fn is_over_limit(customer: Customer, balance: AmountView) -> bool {
    match customer.credit_limit {
        Some(limit) => balance.exceeds(limit@),
        None => false,
    }
}

/// Whether the customer owes more than their limit.
pub fn over_limit(customer: &Customer, balance: Amount) -> (over: bool)
    ensures
        over == is_over_limit(*customer, balance@),
        over <==> customer.credit_limit is Some && amount::larger(
            balance@,
            customer.credit_limit->0@,
        ),
{
    proof {
        over_the_limit_is_owing_more_than_it(*customer, balance@);
    }
    match &customer.credit_limit {
        Some(limit) => balance.exceeds(limit),
        None => false,
    }
}

/// The rows by customer, a later row replacing an earlier one.
fn rows_by_customer(rows: &[AgeingRow]) -> (by_customer: BTreeMap<i64, AgeingRow>)
    ensures
        forall|id: i64| #[trigger]
            by_customer@.contains_key(id) <==> row_of(rows@, id) is Some,
        forall|id: i64| #[trigger]
            by_customer@.contains_key(id) ==> row_of(rows@, id) == Some(by_customer@[id]),
{
    let mut by_customer: BTreeMap<i64, AgeingRow> = BTreeMap::new();
    let mut i: usize = 0;
    while i < rows.len()
        invariant
            i <= rows.len(),
            forall|id: i64| #[trigger]
                by_customer@.contains_key(id) <==> row_of(rows@.take(i as int), id) is Some,
            forall|id: i64| #[trigger]
                by_customer@.contains_key(id) ==> row_of(rows@.take(i as int), id) == Some(
                    by_customer@[id],
                ),
        decreases rows.len() - i,
    {
        let row = rows[i];
        by_customer.insert(row.customer_id, row);
        i = i + 1;
        proof {
            assert(rows@.take(i as int).drop_last() =~= rows@.take(i - 1));
            assert(rows@.take(i as int).last() == row);
        }
    }
    proof {
        assert(rows@.take(i as int) =~= rows@);
    }
    by_customer
}

/// Whether the row at this place is the last one for a customer.
pub open spec fn is_last_row(rows: Seq<AgeingRow>, at: int, customer_id: i64) -> bool {
    &&& 0 <= at < rows.len()
    &&& rows[at].customer_id == customer_id
    &&& forall|k: int| at < k < rows.len() ==> (#[trigger] rows[k]).customer_id != customer_id
}

/// One row of the customer list: the customer and what they owe.
#[derive(Clone)]
pub struct CustomerRow {
    pub customer: Customer,
    pub balance: Amount,
    pub ageing: Ageing,
    pub over_limit: bool,
}

/// Whether `row` is what the list shows of `customer`.
pub open spec fn is_customer_row(
    row: CustomerRow,
    customer: Customer,
    rows: Seq<AgeingRow>,
) -> bool {
    &&& row.customer == customer
    &&& row.balance@ == balance_of(rows, customer.id)
    &&& row.ageing@ == ageing_of(rows, customer.id)
    &&& row.over_limit == is_over_limit(customer, balance_of(rows, customer.id))
}

/// Every customer with what they owe, in the order of `customers`.
pub fn customer_rows(ageings: &[AgeingRow], customers: Vec<Customer>) -> (rows: Vec<CustomerRow>)
    ensures
        rows@.len() == customers@.len(),
        forall|i: int|
            0 <= i < rows@.len() ==> is_customer_row(
                #[trigger] rows@[i],
                customers@[i],
                ageings@,
            ),
        forall|i: int| 0 <= i < rows@.len() ==> (#[trigger] rows@[i]).customer == customers@[i],
        forall|i: int|
            0 <= i < rows@.len() ==> ((#[trigger] rows@[i]).over_limit
                <==> customers@[i].credit_limit is Some && amount::larger(
                rows@[i].balance@,
                customers@[i].credit_limit->0@,
            )),
        forall|i: int, k: int|
            #![trigger rows@[i], ageings@[k]]
            0 <= i < rows@.len() && is_last_row(ageings@, k, customers@[i].id) ==> rows@[i].balance@
                == ageings@[k].balance@ && rows@[i].ageing.current@
                == ageings@[k].ageing.current@ && rows@[i].ageing.overdue_1_30@
                == ageings@[k].ageing.overdue_1_30@ && rows@[i].ageing.overdue_31_60@
                == ageings@[k].ageing.overdue_31_60@ && rows@[i].ageing.overdue_61_plus@
                == ageings@[k].ageing.overdue_61_plus@,
{
    let by_customer = rows_by_customer(ageings);
    let ghost all = customers@;
    let mut rows: Vec<CustomerRow> = Vec::new();
    for customer in it: customers
        invariant
            it.seq() == all,
            rows@.len() == it.index(),
            forall|id: i64| #[trigger]
                by_customer@.contains_key(id) <==> row_of(ageings@, id) is Some,
            forall|id: i64| #[trigger]
                by_customer@.contains_key(id) ==> row_of(ageings@, id) == Some(by_customer@[id]),
            forall|i: int|
                0 <= i < rows@.len() ==> is_customer_row(#[trigger] rows@[i], all[i], ageings@),
    {
        let (balance, ageing) = match by_customer.get(&customer.id) {
            Some(row) => (row.balance, row.ageing),
            None => (Amount::zero(), Ageing::default()),
        };
        let over = over_limit(&customer, balance);
        rows.push(CustomerRow { customer, balance, ageing, over_limit: over });
    }
    proof {
        assert forall|i: int| 0 <= i < rows@.len() implies ((#[trigger] rows@[i]).over_limit
            <==> all[i].credit_limit is Some && amount::larger(
            rows@[i].balance@,
            all[i].credit_limit->0@,
        )) by {
            over_the_limit_is_owing_more_than_it(all[i], rows@[i].balance@);
        }
        assert forall|i: int, k: int|
            #![trigger rows@[i], ageings@[k]]
            0 <= i < rows@.len() && is_last_row(
                ageings@,
                k,
                all[i].id,
            ) implies rows@[i].balance@ == ageings@[k].balance@ && rows@[i].ageing@
            == ageings@[k].ageing@ by {
            lemma_row_of(ageings@, k);
        }
    }
    rows
}

/// A customer with what they owe.
pub struct CustomerBalanceView {
    pub customer: Customer,
    pub balance: Amount,
    pub over_limit: bool,
}

/// The customer with what they owe.
pub fn customer_view(customer: Customer, balance: Amount) -> (view: CustomerBalanceView)
    ensures
        view.customer == customer,
        view.balance == balance,
        view.over_limit == is_over_limit(customer, balance@),
        view.over_limit <==> customer.credit_limit is Some && amount::larger(
            balance@,
            customer.credit_limit->0@,
        ),
{
    let over = over_limit(&customer, balance);
    CustomerBalanceView { customer, balance, over_limit: over }
}

/// Every customer with what they owe, in the order of `customers`.
pub fn customer_views(ageings: &[AgeingRow], customers: Vec<Customer>) -> (views: Vec<
    CustomerBalanceView,
>)
    ensures
        views@.len() == customers@.len(),
        forall|i: int|
            0 <= i < views@.len() ==> {
                &&& (#[trigger] views@[i]).customer == customers@[i]
                &&& views@[i].balance@ == balance_of(ageings@, customers@[i].id)
                &&& views@[i].over_limit == is_over_limit(
                    customers@[i],
                    balance_of(ageings@, customers@[i].id),
                )
            },
        forall|i: int|
            0 <= i < views@.len() ==> ((#[trigger] views@[i]).over_limit
                <==> customers@[i].credit_limit is Some && amount::larger(
                views@[i].balance@,
                customers@[i].credit_limit->0@,
            )),
        forall|i: int, k: int|
            #![trigger views@[i], ageings@[k]]
            0 <= i < views@.len() && is_last_row(ageings@, k, customers@[i].id)
                ==> views@[i].balance@ == ageings@[k].balance@,
{
    let rows = customer_rows(ageings, customers);
    let ghost shown = rows@;
    let mut views: Vec<CustomerBalanceView> = Vec::new();
    for row in it: rows
        invariant
            it.seq() == shown,
            views@.len() == it.index(),
            forall|i: int|
                0 <= i < views@.len() ==> {
                    &&& (#[trigger] views@[i]).customer == shown[i].customer
                    &&& views@[i].balance == shown[i].balance
                    &&& views@[i].over_limit == shown[i].over_limit
                },
    {
        views.push(
            CustomerBalanceView {
                customer: row.customer,
                balance: row.balance,
                over_limit: row.over_limit,
            },
        );
    }
    proof {
        assert forall|i: int| 0 <= i < views@.len() implies {
            &&& (#[trigger] views@[i]).customer == customers@[i]
            &&& views@[i].balance@ == balance_of(ageings@, customers@[i].id)
            &&& views@[i].over_limit == is_over_limit(
                customers@[i],
                balance_of(ageings@, customers@[i].id),
            )
        } by {
            assert(is_customer_row(shown[i], customers@[i], ageings@));
        }
        assert forall|i: int, k: int|
            #![trigger views@[i], ageings@[k]]
            0 <= i < views@.len() && is_last_row(
                ageings@,
                k,
                customers@[i].id,
            ) implies views@[i].balance@ == ageings@[k].balance@ by {
            assert(shown[i].balance@ == ageings@[k].balance@);
        }
    }
    views
}

/// One line of the receivables: a customer who owes something.
pub struct CustomerAgeingView {
    pub customer_id: i64,
    pub name: String,
    pub balance: Amount,
    pub over_limit: bool,
    pub ageing: Ageing,
}

/// One line of the receivables, over numbers.
pub struct ReceivableView {
    pub customer_id: i64,
    pub name: Seq<char>,
    pub balance: AmountView,
    pub over_limit: bool,
    pub ageing: AgeingView,
}

impl View for CustomerAgeingView {
    type V = ReceivableView;

    open spec fn view(&self) -> ReceivableView {
        ReceivableView {
            customer_id: self.customer_id,
            name: self.name@,
            balance: self.balance@,
            over_limit: self.over_limit,
            ageing: self.ageing@,
        }
    }
}

/// The customer with this id; of several, the last one counts.
pub open spec fn customer_of(customers: Seq<Customer>, id: i64) -> Option<Customer>
    decreases customers.len(),
{
    if customers.len() == 0 {
        None
    } else if customers.last().id == id {
        Some(customers.last())
    } else {
        customer_of(customers.drop_last(), id)
    }
}

/// The line of the receivables for a row, where its customer is known.
pub open spec fn receivable(row: AgeingRow, customers: Seq<Customer>) -> Option<ReceivableView> {
    match customer_of(customers, row.customer_id) {
        Some(customer) => Some(
            ReceivableView {
                customer_id: row.customer_id,
                name: customer.name@,
                balance: row.balance@,
                over_limit: is_over_limit(customer, row.balance@),
                ageing: row.ageing@,
            },
        ),
        None => None,
    }
}

/// The receivables: one line for each row whose customer is known, in their order.
pub open spec fn receivables(rows: Seq<AgeingRow>, customers: Seq<Customer>) -> Seq<
    ReceivableView,
> {
    rows.filter_map(|row: AgeingRow| receivable(row, customers))
}

fn positions_by_id(customers: &[Customer]) -> (at: BTreeMap<i64, usize>)
    ensures
        forall|id: i64| #[trigger]
            at@.contains_key(id) <==> customer_of(customers@, id) is Some,
        forall|id: i64| #[trigger]
            at@.contains_key(id) ==> at@[id] < customers@.len() && customer_of(customers@, id)
                == Some(customers@[at@[id] as int]),
{
    let mut at: BTreeMap<i64, usize> = BTreeMap::new();
    let mut i: usize = 0;
    while i < customers.len()
        invariant
            i <= customers.len(),
            forall|id: i64| #[trigger]
                at@.contains_key(id) <==> customer_of(customers@.take(i as int), id) is Some,
            forall|id: i64| #[trigger]
                at@.contains_key(id) ==> at@[id] < i && customer_of(customers@.take(i as int), id)
                    == Some(customers@[at@[id] as int]),
        decreases customers.len() - i,
    {
        at.insert(customers[i].id, i);
        i = i + 1;
        proof {
            assert(customers@.take(i as int).drop_last() =~= customers@.take(i - 1));
            assert(customers@.take(i as int).last() == customers@[i - 1]);
        }
    }
    proof {
        assert(customers@.take(i as int) =~= customers@);
    }
    at
}

/// The receivables: every customer who owes something, and how long it is overdue.
pub fn customer_ageing(rows: &[AgeingRow], customers: &[Customer]) -> (lines: Vec<
    CustomerAgeingView,
>)
    ensures
        views::views(lines@) == receivables(rows@, customers@),
{
    let at = positions_by_id(customers);
    let mut lines: Vec<CustomerAgeingView> = Vec::new();
    let mut i: usize = 0;
    while i < rows.len()
        invariant
            i <= rows.len(),
            forall|id: i64| #[trigger]
                at@.contains_key(id) <==> customer_of(customers@, id) is Some,
            forall|id: i64| #[trigger]
                at@.contains_key(id) ==> at@[id] < customers@.len() && customer_of(customers@, id)
                    == Some(customers@[at@[id] as int]),
            views::views(lines@) == receivables(rows@.take(i as int), customers@),
        decreases rows.len() - i,
    {
        let row = &rows[i];
        let position = match at.get(&row.customer_id) {
            Some(p) => Some(*p),
            None => None,
        };
        match position {
            Some(p) => {
                let customer = &customers[p];
                lines.push(
                    CustomerAgeingView {
                        customer_id: row.customer_id,
                        name: customer.name.clone(),
                        balance: row.balance,
                        over_limit: over_limit(customer, row.balance),
                        ageing: row.ageing,
                    },
                );
            },
            None => {},
        }
        i = i + 1;
        proof {
            assert(rows@.take(i as int).drop_last() =~= rows@.take(i - 1));
            assert(rows@.take(i as int).last() == row);
        }
    }
    proof {
        assert(rows@.take(i as int) =~= rows@);
    }
    lines
}

/// The error for a field that cannot be read.
pub open spec fn invalid_field(field: Seq<char>) -> ErrorView {
    ErrorView::Validation("invalid "@ + field)
}

fn invalid(field: &str) -> (error: AppError)
    ensures
        error@ == invalid_field(field@),
{
    AppError::Validation(concat2("invalid ", field))
}

/// What a required number reads as.
pub open spec fn required_decimal(s: Seq<char>, field: Seq<char>) -> Result<
    AmountView,
    ErrorView,
> {
    match amount::decimal_reading(text::trimmed(s)) {
        Some(value) => Ok(value),
        None => Err(invalid_field(field)),
    }
}

/// A required number.
pub fn parse_required_decimal(s: &str, field: &str) -> (value: Result<Amount, AppError>)
    ensures
        match value {
            Ok(v) => required_decimal(s@, field@) == Ok::<AmountView, ErrorView>(v@),
            Err(e) => required_decimal(s@, field@) == Err::<AmountView, ErrorView>(e@),
        },
{
    match decimal_from_str(trim(s)) {
        Some(value) => Ok(value),
        None => Err(invalid(field)),
    }
}

/// What an optional number reads as: nothing where the field is empty.
pub open spec fn optional_decimal(s: Seq<char>, field: Seq<char>) -> Result<
    Option<AmountView>,
    ErrorView,
> {
    if text::trimmed(s).len() == 0 {
        Ok(None)
    } else {
        match amount::decimal_reading(text::trimmed(s)) {
            Some(value) => Ok(Some(value)),
            None => Err(invalid_field(field)),
        }
    }
}

/// An optional number.
pub fn parse_opt_decimal(s: &str, field: &str) -> (value: Result<Option<Amount>, AppError>)
    ensures
        match value {
            Ok(v) => optional_decimal(s@, field@) == Ok::<Option<AmountView>, ErrorView>(
                views::opt_view(v),
            ),
            Err(e) => optional_decimal(s@, field@) == Err::<Option<AmountView>, ErrorView>(e@),
        },
{
    let t = trim(s);
    if t.is_empty() {
        return Ok(None);
    }
    match decimal_from_str(t) {
        Some(value) => Ok(Some(value)),
        None => Err(invalid(field)),
    }
}

/// What an optional whole number reads as: nothing where the field is empty.
pub open spec fn optional_i64(s: Seq<char>, field: Seq<char>) -> Result<Option<i64>, ErrorView> {
    if text::trimmed(s).len() == 0 {
        Ok(None)
    } else {
        match text::i64_reading(text::trimmed(s)) {
            Some(value) => Ok(Some(value)),
            None => Err(invalid_field(field)),
        }
    }
}

/// An optional whole number.
pub fn parse_opt_i64(s: &str, field: &str) -> (value: Result<Option<i64>, AppError>)
    ensures
        match value {
            Ok(v) => optional_i64(s@, field@) == Ok::<Option<i64>, ErrorView>(v),
            Err(e) => optional_i64(s@, field@) == Err::<Option<i64>, ErrorView>(e@),
        },
{
    let t = trim(s);
    if t.is_empty() {
        return Ok(None);
    }
    match read_i64(t) {
        Some(value) => Ok(Some(value)),
        None => Err(invalid(field)),
    }
}

/// What a date field reads as: today where it is empty.
pub open spec fn date_or_today(s: Seq<char>, today: DateView) -> Result<DateView, ErrorView> {
    if text::trimmed(s).len() == 0 {
        Ok(today)
    } else {
        match date::date_reading(text::trimmed(s)) {
            Some(value) => Ok(value),
            None => Err(ErrorView::Validation("invalid date (YYYY-MM-DD)"@)),
        }
    }
}

/// A date, or `today` where the field is empty.
pub fn parse_date_or_today(s: &str, today: Date) -> (value: Result<Date, AppError>)
    ensures
        match value {
            Ok(v) => date_or_today(s@, today@) == Ok::<DateView, ErrorView>(v@),
            Err(e) => date_or_today(s@, today@) == Err::<DateView, ErrorView>(e@),
        },
{
    let t = trim(s);
    if t.is_empty() {
        return Ok(today);
    }
    match date_from_str(t) {
        Some(value) => Ok(value),
        None => Err(AppError::Validation("invalid date (YYYY-MM-DD)".to_owned())),
    }
}

/// What a text field holds: nothing where it is blank.
pub open spec fn cleaned(s: Seq<char>) -> Option<Seq<char>> {
    if text::trimmed(s).len() == 0 {
        None
    } else {
        Some(text::trimmed(s))
    }
}

/// The text without surrounding white space, or nothing where it is blank.
pub fn clean_opt(s: &str) -> (value: Option<String>)
    ensures
        views::opt_view(value) == cleaned(s@),
{
    let t = trim(s);
    if t.is_empty() {
        None
    } else {
        Some(t.to_owned())
    }
}

/// The form that creates a customer.
pub struct CreateCustomerForm {
    pub name: String,
    pub phone: String,
    pub address: String,
    pub tax_id: String,
    pub notes: String,
    pub credit_limit: String,
    pub payment_days: String,
}

impl Default for CreateCustomerForm {
    fn default() -> (form: Self)
        ensures
            form.name@.len() == 0,
            form.phone@.len() == 0,
            form.address@.len() == 0,
            form.tax_id@.len() == 0,
            form.notes@.len() == 0,
            form.credit_limit@.len() == 0,
            form.payment_days@.len() == 0,
    {
        CreateCustomerForm {
            name: String::new(),
            phone: String::new(),
            address: String::new(),
            tax_id: String::new(),
            notes: String::new(),
            credit_limit: String::new(),
            payment_days: String::new(),
        }
    }
}

/// A customer to be created.
pub struct NewCustomer {
    pub name: String,
    pub phone: Option<String>,
    pub address: Option<String>,
    pub tax_id: Option<String>,
    pub notes: Option<String>,
    pub is_walkin: bool,
    pub credit_limit: Option<Amount>,
    pub payment_days: Option<i64>,
}

/// The numbers that a customer form submits: the limit is read first.
pub open spec fn form_terms(credit_limit: Seq<char>, payment_days: Seq<char>) -> Result<
    (Option<AmountView>, Option<i64>),
    ErrorView,
> {
    match optional_decimal(credit_limit, "credit_limit"@) {
        Ok(limit) => match optional_i64(payment_days, "payment_days"@) {
            Ok(days) => Ok((limit, days)),
            Err(e) => Err(e),
        },
        Err(e) => Err(e),
    }
}

/// The customer that the form creates: never the walk-in one.
pub fn new_customer_from_form(form: CreateCustomerForm) -> (customer: Result<
    NewCustomer,
    AppError,
>)
    ensures
        match customer {
            Ok(c) => {
                &&& form_terms(form.credit_limit@, form.payment_days@) == Ok::<
                    (Option<AmountView>, Option<i64>),
                    ErrorView,
                >((views::opt_view(c.credit_limit), c.payment_days))
                &&& c.name == form.name
                &&& views::opt_view(c.phone) == cleaned(form.phone@)
                &&& views::opt_view(c.address) == cleaned(form.address@)
                &&& views::opt_view(c.tax_id) == cleaned(form.tax_id@)
                &&& views::opt_view(c.notes) == cleaned(form.notes@)
                &&& !c.is_walkin
            },
            Err(e) => form_terms(form.credit_limit@, form.payment_days@) == Err::<
                (Option<AmountView>, Option<i64>),
                ErrorView,
            >(e@),
        },
{
    let credit_limit = match parse_opt_decimal(form.credit_limit.as_str(), "credit_limit") {
        Ok(v) => v,
        Err(e) => {
            return Err(e);
        },
    };
    let payment_days = match parse_opt_i64(form.payment_days.as_str(), "payment_days") {
        Ok(v) => v,
        Err(e) => {
            return Err(e);
        },
    };
    Ok(
        NewCustomer {
            name: form.name,
            phone: clean_opt(form.phone.as_str()),
            address: clean_opt(form.address.as_str()),
            tax_id: clean_opt(form.tax_id.as_str()),
            notes: clean_opt(form.notes.as_str()),
            is_walkin: false,
            credit_limit,
            payment_days,
        },
    )
}

/// The form that changes a customer.
pub struct EditCustomerForm {
    pub customer_id: i64,
    pub name: String,
    pub phone: String,
    pub address: String,
    pub tax_id: String,
    pub notes: String,
    pub credit_limit: String,
    pub payment_days: String,
}

impl Default for EditCustomerForm {
    fn default() -> (form: Self)
        ensures
            form.customer_id == 0,
            form.name@.len() == 0,
            form.phone@.len() == 0,
            form.address@.len() == 0,
            form.tax_id@.len() == 0,
            form.notes@.len() == 0,
            form.credit_limit@.len() == 0,
            form.payment_days@.len() == 0,
    {
        EditCustomerForm {
            customer_id: 0,
            name: String::new(),
            phone: String::new(),
            address: String::new(),
            tax_id: String::new(),
            notes: String::new(),
            credit_limit: String::new(),
            payment_days: String::new(),
        }
    }
}

/// A change to a customer: what is absent stays as it is, and an inner absence clears.
pub struct UpdateCustomer {
    pub name: Option<String>,
    pub phone: Option<Option<String>>,
    pub address: Option<Option<String>>,
    pub tax_id: Option<Option<String>>,
    pub notes: Option<Option<String>>,
    pub credit_limit: Option<Option<Amount>>,
    pub payment_days: Option<Option<i64>>,
}

/// Whether the field is set to `value`: present, and clearing where there is none.
pub open spec fn sets_text(field: Option<Option<String>>, value: Option<Seq<char>>) -> bool {
    field matches Some(inner) && views::opt_view(inner) == value
}

/// The change that the form makes. The form replaces every field: a blank optional one
/// clears what was stored.
pub fn customer_update_from_form(form: EditCustomerForm) -> (update: Result<
    UpdateCustomer,
    AppError,
>)
    ensures
        match update {
            Ok(u) => {
                &&& u.credit_limit is Some
                &&& u.payment_days is Some
                &&& form_terms(form.credit_limit@, form.payment_days@) == Ok::<
                    (Option<AmountView>, Option<i64>),
                    ErrorView,
                >((views::opt_view(u.credit_limit->0), u.payment_days->0))
                &&& u.name == Some(form.name)
                &&& sets_text(u.phone, cleaned(form.phone@))
                &&& sets_text(u.address, cleaned(form.address@))
                &&& sets_text(u.tax_id, cleaned(form.tax_id@))
                &&& sets_text(u.notes, cleaned(form.notes@))
            },
            Err(e) => form_terms(form.credit_limit@, form.payment_days@) == Err::<
                (Option<AmountView>, Option<i64>),
                ErrorView,
            >(e@),
        },
{
    let credit_limit = match parse_opt_decimal(form.credit_limit.as_str(), "credit_limit") {
        Ok(v) => v,
        Err(e) => {
            return Err(e);
        },
    };
    let payment_days = match parse_opt_i64(form.payment_days.as_str(), "payment_days") {
        Ok(v) => v,
        Err(e) => {
            return Err(e);
        },
    };
    Ok(
        UpdateCustomer {
            name: Some(form.name),
            phone: Some(clean_opt(form.phone.as_str())),
            address: Some(clean_opt(form.address.as_str())),
            tax_id: Some(clean_opt(form.tax_id.as_str())),
            notes: Some(clean_opt(form.notes.as_str())),
            credit_limit: Some(credit_limit),
            payment_days: Some(payment_days),
        },
    )
}

/// The form that names a customer.
pub struct CustomerIdForm {
    pub customer_id: i64,
}

impl Default for CustomerIdForm {
    fn default() -> (form: Self)
        ensures
            form.customer_id == 0,
    {
        CustomerIdForm { customer_id: 0 }
    }
}

/// The form that collects money from a customer. The receipt follows from the
/// customer: the form never names one.
pub struct CollectForm {
    pub customer_id: i64,
    pub method_id: i64,
    pub amount: String,
    pub date: String,
    pub notes: String,
}

impl Default for CollectForm {
    fn default() -> (form: Self)
        ensures
            form.customer_id == 0,
            form.method_id == 0,
            form.amount@.len() == 0,
            form.date@.len() == 0,
            form.notes@.len() == 0,
    {
        CollectForm {
            customer_id: 0,
            method_id: 0,
            amount: String::new(),
            date: String::new(),
            notes: String::new(),
        }
    }
}

/// The request that collects money from a customer.
pub struct CreateReceiptRequest {
    pub customer_id: i64,
    pub method_id: i64,
    pub amount: Amount,
    pub date: Date,
    pub notes: Option<String>,
}

/// What a collection comes to: the amount is read first, then the date.
pub open spec fn collection(amount: Seq<char>, date: Seq<char>, today: DateView) -> Result<
    (AmountView, DateView),
    ErrorView,
> {
    match required_decimal(amount, "amount"@) {
        Ok(a) => match date_or_today(date, today) {
            Ok(d) => Ok((a, d)),
            Err(e) => Err(e),
        },
        Err(e) => Err(e),
    }
}

/// The collection that the form asks for.
pub fn collection_from_form(form: CollectForm, today: Date) -> (request: Result<
    CreateReceiptRequest,
    AppError,
>)
    ensures
        match request {
            Ok(r) => {
                &&& collection(form.amount@, form.date@, today@) == Ok::<
                    (AmountView, DateView),
                    ErrorView,
                >((r.amount@, r.date@))
                &&& r.customer_id == form.customer_id
                &&& r.method_id == form.method_id
                &&& views::opt_view(r.notes) == cleaned(form.notes@)
            },
            Err(e) => collection(form.amount@, form.date@, today@) == Err::<
                (AmountView, DateView),
                ErrorView,
            >(e@),
        },
{
    let amount = match parse_required_decimal(form.amount.as_str(), "amount") {
        Ok(v) => v,
        Err(e) => {
            return Err(e);
        },
    };
    let date = match parse_date_or_today(form.date.as_str(), today) {
        Ok(v) => v,
        Err(e) => {
            return Err(e);
        },
    };
    Ok(
        CreateReceiptRequest {
            customer_id: form.customer_id,
            method_id: form.method_id,
            amount,
            date,
            notes: clean_opt(form.notes.as_str()),
        },
    )
}

/// Which customers to list.
pub struct ListCustomersQuery {
    pub only_active: Option<bool>,
}

impl Default for ListCustomersQuery {
    fn default() -> (query: Self)
        ensures
            query.only_active is None,
    {
        ListCustomersQuery { only_active: None }
    }
}

impl ListCustomersQuery {
    /// Whether the list leaves inactive customers out: only where it is asked to.
    pub fn leaves_inactive_out(&self) -> (only_active: bool)
        ensures
            only_active == (self.only_active == Some(true)),
    {
        match self.only_active {
            Some(only) => only,
            None => false,
        }
    }
}

/// The day that a statement or the receivables are as of.
pub struct AsOfQuery {
    pub as_of: Option<Date>,
}

impl Default for AsOfQuery {
    fn default() -> (query: Self)
        ensures
            query.as_of is None,
    {
        AsOfQuery { as_of: None }
    }
}

impl AsOfQuery {
    /// The day asked for, or `today`.
    pub fn day(&self, today: Date) -> (day: Date)
        ensures
            day == (match self.as_of {
                Some(d) => d,
                None => today,
            }),
    {
        match self.as_of {
            Some(d) => d,
            None => today,
        }
    }
}

/// Whose receipts to list.
pub struct ReceiptListQuery {
    pub customer_id: Option<i64>,
}

impl Default for ReceiptListQuery {
    fn default() -> (query: Self)
        ensures
            query.customer_id is None,
    {
        ReceiptListQuery { customer_id: None }
    }
}

impl ReceiptListQuery {
    /// The customer whose receipts are listed. There is no list over all customers.
    pub fn required_customer(&self) -> (id: Result<i64, AppError>)
        ensures
            match id {
                Ok(i) => self.customer_id == Some(i),
                Err(e) => self.customer_id is None && e@ == ErrorView::Validation(
                    "customer_id is required"@,
                ),
            },
    {
        match self.customer_id {
            Some(id) => Ok(id),
            None => Err(AppError::Validation("customer_id is required".to_owned())),
        }
    }
}

/// The request that changes a customer.
pub struct UpdateCustomerRequest {
    pub name: Option<String>,
    pub phone: Option<Option<String>>,
    pub address: Option<Option<String>>,
    pub tax_id: Option<Option<String>>,
    pub notes: Option<Option<String>>,
    pub credit_limit: Option<Option<Amount>>,
    pub payment_days: Option<Option<i64>>,
}

impl Default for UpdateCustomerRequest {
    fn default() -> (request: Self)
        ensures
            request.name is None,
            request.phone is None,
            request.address is None,
            request.tax_id is None,
            request.notes is None,
            request.credit_limit is None,
            request.payment_days is None,
    {
        UpdateCustomerRequest {
            name: None,
            phone: None,
            address: None,
            tax_id: None,
            notes: None,
            credit_limit: None,
            payment_days: None,
        }
    }
}

/// The change that the request makes: what it leaves out stays as it is.
pub fn customer_update_from_request(request: UpdateCustomerRequest) -> (update: UpdateCustomer)
    ensures
        update.name == request.name,
        update.phone == request.phone,
        update.address == request.address,
        update.tax_id == request.tax_id,
        update.notes == request.notes,
        update.credit_limit == request.credit_limit,
        update.payment_days == request.payment_days,
{
    UpdateCustomer {
        name: request.name,
        phone: request.phone,
        address: request.address,
        tax_id: request.tax_id,
        notes: request.notes,
        credit_limit: request.credit_limit,
        payment_days: request.payment_days,
    }
}

/// A customer in a list of namesakes.
pub open spec fn namesake(customer: Customer) -> Seq<char> {
    "#"@ + text::int_text(customer.id as int) + " "@ + customer.name@
}

/// The warning that others already have the name. It never stands in the way.
pub open spec fn name_warning(name: Seq<char>, matches: Seq<Customer>) -> Option<Seq<char>> {
    if matches.len() == 0 {
        None
    } else {
        Some(
            "A customer named \""@ + name + "\" already exists: "@ + text::joined(
                matches.map_values(|c: Customer| namesake(c)),
                ", "@,
            ) + ". Duplicate names are allowed."@,
        )
    }
}

/// The warning that others already have the name of a customer just created.
pub fn duplicate_name_warning(name: &str, matches: &[Customer]) -> (warning: Option<String>)
    ensures
        views::opt_view(warning) == name_warning(name@, matches@),
{
    if matches.len() == 0 {
        return None;
    }
    let mut parts: Vec<String> = Vec::new();
    let mut i: usize = 0;
    while i < matches.len()
        invariant
            i <= matches.len(),
            parts@.len() == i,
            forall|k: int| 0 <= k < i ==> (#[trigger] parts@[k])@ == namesake(matches@[k]),
        decreases matches.len() - i,
    {
        let customer = &matches[i];
        let numbered = concat3("#", id_text(customer.id).as_str(), " ");
        parts.push(concat2(numbered.as_str(), customer.name.as_str()));
        i = i + 1;
    }
    proof {
        assert(views::views(parts@) =~= matches@.map_values(|c: Customer| namesake(c)));
    }
    let listed = join(&parts, ", ");
    Some(
        concat5(
            "A customer named \"",
            name,
            "\" already exists: ",
            listed.as_str(),
            ". Duplicate names are allowed.",
        ),
    )
}

/// The answer once a customer was created.
pub fn after_creating(htmx: bool, warning: Option<String>) -> (answer: CustomerAnswer)
    ensures
        answer@ == (if htmx {
            CustomerAnswerView::List {
                warning: views::opt_view(warning),
                trigger: "customer-created"@,
            }
        } else {
            CustomerAnswerView::Redirect("/customers"@)
        }),
{
    if htmx {
        CustomerAnswer::List { warning, trigger: "customer-created" }
    } else {
        CustomerAnswer::Redirect("/customers".to_owned())
    }
}

/// The answer once a customer was changed, activated, deactivated or deleted.
pub fn after_changing(htmx: bool) -> (answer: CustomerAnswer)
    ensures
        answer@ == (if htmx {
            CustomerAnswerView::List { warning: None, trigger: "customer-changed"@ }
        } else {
            CustomerAnswerView::Redirect("/customers"@)
        }),
{
    if htmx {
        CustomerAnswer::List { warning: None, trigger: "customer-changed" }
    } else {
        CustomerAnswer::Redirect("/customers".to_owned())
    }
}

/// The answer once money was collected: the customer's detail with the new balance.
pub fn after_collecting(htmx: bool, customer_id: i64) -> (answer: CustomerAnswer)
    ensures
        answer@ == (if htmx {
            CustomerAnswerView::Detail(customer_id)
        } else {
            CustomerAnswerView::Redirect("/customers/"@ + text::int_text(customer_id as int))
        }),
{
    if htmx {
        CustomerAnswer::Detail(customer_id)
    } else {
        CustomerAnswer::Redirect(concat2("/customers/", id_text(customer_id).as_str()))
    }
}

/// What the customers page shows besides the data that it is given.
pub struct CustomersPage {
    pub title: String,
    pub today: String,
    pub warning: Option<String>,
    pub over_limit: bool,
    pub drawer_open: bool,
    pub nav_key: &'static str,
}

/// The list page: nobody selected, the drawer shut.
pub fn customers_page() -> (page: CustomersPage)
    ensures
        page.title@ == "Roya — Customers"@,
        page.today@.len() == 0,
        page.warning is None,
        !page.over_limit,
        !page.drawer_open,
        page.nav_key@ == "customers"@,
{
    CustomersPage {
        title: "Roya — Customers".to_owned(),
        today: String::new(),
        warning: None,
        over_limit: false,
        drawer_open: false,
        nav_key: "customers",
    }
}

/// The page of one customer: the same list, with the drawer open on them. The day that
/// the collect form is filled with is read as that day, whenever the form comes back.
pub fn customer_statement_page(customer: &Customer, balance: Amount, today: Date) -> (page:
    CustomersPage)
    ensures
        page.title@ == "Roya — Statement: "@ + customer.name@,
        page.today@ == today@.text(),
        forall|later: DateView|
            #[trigger] date_or_today(page.today@, later) == Ok::<DateView, ErrorView>(today@),
        page.warning is None,
        page.over_limit == is_over_limit(*customer, balance@),
        page.over_limit <==> customer.credit_limit is Some && amount::larger(
            balance@,
            customer.credit_limit->0@,
        ),
        page.drawer_open,
        page.nav_key@ == "customers"@,
{
    proof {
        date::lemma_text_is_trimmed(today@);
    }
    CustomersPage {
        title: concat2("Roya — Statement: ", customer.name.as_str()),
        today: today.text(),
        warning: None,
        over_limit: over_limit(customer, balance),
        drawer_open: true,
        nav_key: "customers",
    }
}

/// A customer without a limit is never over it, whatever they owe.
pub proof fn no_limit_never_blocks(customer: Customer, balance: AmountView)
    requires
        customer.credit_limit is None,
    ensures
        !is_over_limit(customer, balance),
{
}

/// Owing exactly the limit is not over it.
pub proof fn owing_the_limit_is_not_over_it(customer: Customer, balance: AmountView)
    requires
        customer.credit_limit matches Some(limit) && balance.equals(limit@),
    ensures
        !is_over_limit(customer, balance),
{
}

/// A row for a customer is found where there is one, and is theirs.
proof fn lemma_row_of(rows: Seq<AgeingRow>, at: int)
    requires
        0 <= at < rows.len(),
        forall|k: int| at < k < rows.len() ==> (#[trigger] rows[k]).customer_id
            != rows[at].customer_id,
    ensures
        row_of(rows, rows[at].customer_id) == Some(rows[at]),
    decreases rows.len(),
{
    if at < rows.len() - 1 {
        assert(rows[rows.len() - 1].customer_id != rows[at].customer_id);
        lemma_row_of(rows.drop_last(), at);
    }
}

/// The list and the receivables agree on every customer: the same balance, and the
/// same answer to whether it is over the limit.
pub proof fn list_and_receivables_agree(
    rows: Seq<AgeingRow>,
    customers: Seq<Customer>,
    at: int,
    shown: CustomerRow,
)
    requires
        0 <= at < rows.len(),
        forall|k: int| at < k < rows.len() ==> (#[trigger] rows[k]).customer_id
            != rows[at].customer_id,
        customer_of(customers, rows[at].customer_id) matches Some(c) && is_customer_row(
            shown,
            c,
            rows,
        ) && c.id == rows[at].customer_id,
    ensures
        receivable(rows[at], customers) matches Some(line) && {
            &&& line.balance == shown.balance@
            &&& line.over_limit == shown.over_limit
            &&& line.ageing == shown.ageing@
        },
{
    lemma_row_of(rows, at);
}

/// A customer with a limit is over it exactly where the balance, as a number, is larger
/// than the limit.
pub proof fn over_the_limit_is_owing_more_than_it(customer: Customer, balance: AmountView)
    ensures
        is_over_limit(customer, balance) <==> customer.credit_limit is Some && amount::larger(
            balance,
            customer.credit_limit->0@,
        ),
{
    match customer.credit_limit {
        Some(limit) => amount::amounts_compare_as_numbers(balance, limit@),
        None => {},
    }
}

/// The limit and the balance alone decide: two customers with the same limit get the same
/// answer for the same balance, whatever else is known of them.
pub proof fn the_limit_alone_decides(a: Customer, b: Customer, balance: AmountView)
    requires
        views::opt_view(a.credit_limit) == views::opt_view(b.credit_limit),
    ensures
        is_over_limit(a, balance) == is_over_limit(b, balance),
{
}

/// Owing more never brings anybody back under the limit.
pub proof fn owing_more_stays_over_the_limit(
    customer: Customer,
    balance: AmountView,
    more: AmountView,
)
    requires
        balance.scale == more.scale,
        amount::signed(balance) <= amount::signed(more),
        is_over_limit(customer, balance),
    ensures
        is_over_limit(customer, more),
{
    let limit = customer.credit_limit->0@;
    over_the_limit_is_owing_more_than_it(customer, balance);
    over_the_limit_is_owing_more_than_it(customer, more);
    let p = vstd::arithmetic::power::pow(10, limit.scale);
    vstd::arithmetic::power::lemma_pow_positive(10, limit.scale);
    let x = amount::signed(balance);
    let y = amount::signed(more);
    assert(x * p <= y * p) by (nonlinear_arith)
        requires
            x <= y,
            p > 0,
    ;
}

proof fn lemma_no_row(rows: Seq<AgeingRow>, customer_id: i64)
    requires
        forall|k: int| 0 <= k < rows.len() ==> (#[trigger] rows[k]).customer_id != customer_id,
    ensures
        row_of(rows, customer_id) is None,
    decreases rows.len(),
{
    if rows.len() > 0 {
        assert(rows[rows.len() - 1].customer_id != customer_id);
        assert forall|k: int| 0 <= k < rows.drop_last().len() implies (
        #[trigger] rows.drop_last()[k]).customer_id != customer_id by {
            assert(rows[k].customer_id != customer_id);
        }
        lemma_no_row(rows.drop_last(), customer_id);
    }
}

/// What the list shows of a customer with a row is what the last of their rows says: the
/// balance and each age of it, and whether that balance is over their limit.
pub proof fn listed_customers_owe_what_their_row_says(
    shown: CustomerRow,
    customer: Customer,
    rows: Seq<AgeingRow>,
    at: int,
)
    requires
        is_customer_row(shown, customer, rows),
        0 <= at < rows.len(),
        rows[at].customer_id == customer.id,
        forall|k: int| at < k < rows.len() ==> (#[trigger] rows[k]).customer_id != customer.id,
    ensures
        shown.customer == customer,
        shown.balance@ == rows[at].balance@,
        shown.ageing.current@ == rows[at].ageing.current@,
        shown.ageing.overdue_1_30@ == rows[at].ageing.overdue_1_30@,
        shown.ageing.overdue_31_60@ == rows[at].ageing.overdue_31_60@,
        shown.ageing.overdue_61_plus@ == rows[at].ageing.overdue_61_plus@,
        shown.over_limit <==> customer.credit_limit is Some && amount::larger(
            rows[at].balance@,
            customer.credit_limit->0@,
        ),
{
    lemma_row_of(rows, at);
    over_the_limit_is_owing_more_than_it(customer, rows[at].balance@);
    assert(shown.ageing@ == rows[at].ageing@);
}

/// What the list shows of a customer without a row: that they owe nothing, of any age.
pub proof fn customers_without_a_row_owe_nothing(
    shown: CustomerRow,
    customer: Customer,
    rows: Seq<AgeingRow>,
)
    requires
        is_customer_row(shown, customer, rows),
        forall|k: int| 0 <= k < rows.len() ==> (#[trigger] rows[k]).customer_id != customer.id,
    ensures
        shown.customer == customer,
        shown.balance@.magnitude == 0,
        shown.ageing.current@.magnitude == 0,
        shown.ageing.overdue_1_30@.magnitude == 0,
        shown.ageing.overdue_31_60@.magnitude == 0,
        shown.ageing.overdue_61_plus@.magnitude == 0,
        shown.over_limit <==> customer.credit_limit is Some && amount::larger(
            shown.balance@,
            customer.credit_limit->0@,
        ),
{
    lemma_no_row(rows, customer.id);
    over_the_limit_is_owing_more_than_it(customer, shown.balance@);
    assert(shown.ageing@ == nothing_owed());
}

/// Whether some customer has this id.
pub open spec fn is_known(customers: Seq<Customer>, id: i64) -> bool {
    exists|k: int| 0 <= k < customers.len() && (#[trigger] customers[k]).id == id
}

proof fn lemma_customer_of(customers: Seq<Customer>, at: int)
    requires
        0 <= at < customers.len(),
        forall|k: int| at < k < customers.len() ==> (#[trigger] customers[k]).id
            != customers[at].id,
    ensures
        customer_of(customers, customers[at].id) == Some(customers[at]),
    decreases customers.len(),
{
    if at < customers.len() - 1 {
        assert(customers[customers.len() - 1].id != customers[at].id);
        lemma_customer_of(customers.drop_last(), at);
    }
}

proof fn lemma_known(customers: Seq<Customer>, id: i64)
    ensures
        customer_of(customers, id) is Some <==> is_known(customers, id),
    decreases customers.len(),
{
    if customers.len() > 0 {
        let before = customers.drop_last();
        lemma_known(before, id);
        if customers.last().id == id {
            assert(customers[customers.len() - 1].id == id);
        } else {
            if is_known(before, id) {
                let k = choose|k: int| 0 <= k < before.len() && (#[trigger] before[k]).id == id;
                assert(customers[k].id == id);
            }
            if is_known(customers, id) {
                let k = choose|k: int|
                    0 <= k < customers.len() && (#[trigger] customers[k]).id == id;
                assert(before[k].id == id);
            }
        }
    }
}

/// How many of the first `n` rows are of a known customer.
pub open spec fn known_before(
    rows: Seq<AgeingRow>,
    customers: Seq<Customer>,
    n: int,
) -> int
    decreases n,
{
    if n <= 0 {
        0
    } else {
        known_before(rows, customers, n - 1) + (if is_known(customers, rows[n - 1].customer_id) {
            1int
        } else {
            0
        })
    }
}

proof fn lemma_receivables(rows: Seq<AgeingRow>, customers: Seq<Customer>, n: int)
    requires
        0 <= n <= rows.len(),
    ensures
        receivables(rows.take(n), customers).len() == known_before(rows, customers, n),
        forall|i: int|
            #![trigger rows[i]]
            0 <= i < n && is_known(customers, rows[i].customer_id) ==> 0 <= known_before(
                rows,
                customers,
                i,
            ) < known_before(rows, customers, n) && Some(
                receivables(rows.take(n), customers)[known_before(rows, customers, i)],
            ) == receivable(rows[i], customers),
    decreases n,
{
    if n == 0 {
        assert(rows.take(0) =~= Seq::empty());
    } else {
        lemma_receivables(rows, customers, n - 1);
        assert(rows.take(n).drop_last() =~= rows.take(n - 1));
        assert(rows.take(n).last() == rows[n - 1]);
        lemma_known(customers, rows[n - 1].customer_id);
        let before = receivables(rows.take(n - 1), customers);
        let all = receivables(rows.take(n), customers);
        assert forall|i: int|
            #![trigger rows[i]]
            0 <= i < n && is_known(customers, rows[i].customer_id) implies 0 <= known_before(
            rows,
            customers,
            i,
        ) < known_before(rows, customers, n) && Some(all[known_before(rows, customers, i)])
            == receivable(rows[i], customers) by {
            if i < n - 1 {
                assert(all[known_before(rows, customers, i)] == before[known_before(
                    rows,
                    customers,
                    i,
                )]);
            }
        }
    }
}

/// The receivables have one line for each row of a known customer, in the order of the
/// rows: the customer's name, the balance and the ages of the row, and whether that
/// balance is over the customer's limit.
pub proof fn receivables_tell_of_every_known_customer(
    rows: Seq<AgeingRow>,
    customers: Seq<Customer>,
    at: int,
    who: int,
)
    requires
        0 <= at < rows.len(),
        0 <= who < customers.len(),
        customers[who].id == rows[at].customer_id,
        forall|k: int| who < k < customers.len() ==> (#[trigger] customers[k]).id
            != customers[who].id,
    ensures
        receivables(rows, customers).len() == known_before(rows, customers, rows.len() as int),
        0 <= known_before(rows, customers, at) < receivables(rows, customers).len(),
        ({
            let line = receivables(rows, customers)[known_before(rows, customers, at)];
            &&& line.customer_id == rows[at].customer_id
            &&& line.name == customers[who].name@
            &&& line.balance == rows[at].balance@
            &&& line.ageing.current == rows[at].ageing.current@
            &&& line.ageing.overdue_1_30 == rows[at].ageing.overdue_1_30@
            &&& line.ageing.overdue_31_60 == rows[at].ageing.overdue_31_60@
            &&& line.ageing.overdue_61_plus == rows[at].ageing.overdue_61_plus@
            &&& line.over_limit <==> customers[who].credit_limit is Some && amount::larger(
                rows[at].balance@,
                customers[who].credit_limit->0@,
            )
        }),
{
    lemma_receivables(rows, customers, rows.len() as int);
    assert(rows.take(rows.len() as int) =~= rows);
    lemma_customer_of(customers, who);
    over_the_limit_is_owing_more_than_it(customers[who], rows[at].balance@);
    assert(is_known(customers, rows[at].customer_id));
}

/// Without a known customer there is no line.
pub proof fn receivables_skip_unknown_customers(rows: Seq<AgeingRow>, customers: Seq<Customer>)
    ensures
        receivables(rows, customers).len() == known_before(rows, customers, rows.len() as int),
{
    lemma_receivables(rows, customers, rows.len() as int);
    assert(rows.take(rows.len() as int) =~= rows);
}

/// The terms that a customer form submits: each is absent exactly where its own field is
/// blank, and otherwise what that field reads as.
pub proof fn each_term_is_read_in_its_own_field(
    credit_limit: Seq<char>,
    payment_days: Seq<char>,
)
    ensures
        ({
            let limit = text::trimmed(credit_limit);
            let days = text::trimmed(payment_days);
            match form_terms(credit_limit, payment_days) {
                Ok(terms) => {
                    &&& terms.0 is None <==> limit.len() == 0
                    &&& terms.0 matches Some(v) ==> amount::decimal_reading(limit) == Some(v)
                    &&& terms.1 is None <==> days.len() == 0
                    &&& terms.1 matches Some(n) ==> text::i64_reading(days) == Some(n)
                },
                Err(e) => if limit.len() > 0 && amount::decimal_reading(limit) is None {
                    e == ErrorView::Validation("invalid "@ + "credit_limit"@)
                } else {
                    &&& days.len() > 0
                    &&& text::i64_reading(days) is None
                    &&& e == ErrorView::Validation("invalid "@ + "payment_days"@)
                },
            }
        }),
{
}

/// What a collection submits: the amount of its own field, which has to be there, and the
/// date of its own field or today.
pub proof fn collections_read_amount_and_date(
    amount: Seq<char>,
    date: Seq<char>,
    today: DateView,
)
    ensures
        ({
            let read = amount::decimal_reading(text::trimmed(amount));
            let day = text::trimmed(date);
            match collection(amount, date, today) {
                Ok(made) => {
                    &&& read == Some(made.0)
                    &&& day.len() == 0 ==> made.1 == today
                    &&& day.len() > 0 ==> date::date_reading(day) == Some(made.1)
                },
                Err(e) => if read is None {
                    e == ErrorView::Validation("invalid "@ + "amount"@)
                } else {
                    &&& day.len() > 0
                    &&& date::date_reading(day) is None
                    &&& e == ErrorView::Validation("invalid date (YYYY-MM-DD)"@)
                },
            }
        }),
{
}

/// An optional text is kept without the white space around it, and is absent exactly
/// where there is nothing else.
pub proof fn optional_texts_are_trimmed(s: Seq<char>, field: Option<Option<String>>)
    ensures
        cleaned(s) is None <==> text::trimmed(s).len() == 0,
        cleaned(s) matches Some(t) ==> t == text::trimmed(s),
        sets_text(field, cleaned(s)) ==> field is Some && (field->0 is None <==> text::trimmed(
            s,
        ).len() == 0) && (field->0 is Some ==> field->0->0@ == text::trimmed(s)),
{
}

/// The warning about namesakes: none without any; with one, the name, its id and how it is
/// written; and one more namesake is one more entry of the list.
pub proof fn namesakes_are_listed_one_by_one(
    name: Seq<char>,
    matches: Seq<Customer>,
    more: Customer,
)
    ensures
        name_warning(name, Seq::empty()) is None,
        name_warning(name, seq![more]) == Some(
            "A customer named \""@ + name + "\" already exists: "@ + ("#"@ + text::int_text(
                more.id as int,
            ) + " "@ + more.name@) + ". Duplicate names are allowed."@,
        ),
        matches.len() > 0 ==> {
            &&& name_warning(name, matches) is Some
            &&& exists|listed: Seq<char>|
                #![trigger "A customer named \""@ + name + "\" already exists: "@ + listed]
                name_warning(name, matches) == Some(
                    "A customer named \""@ + name + "\" already exists: "@ + listed
                        + ". Duplicate names are allowed."@,
                ) && name_warning(name, matches.push(more)) == Some(
                    "A customer named \""@ + name + "\" already exists: "@ + (listed + ", "@ + (
                    "#"@ + text::int_text(more.id as int) + " "@ + more.name@))
                        + ". Duplicate names are allowed."@,
                )
        },
{
    let one = seq![more].map_values(|c: Customer| namesake(c));
    assert(one =~= seq![namesake(more)]);
    assert(text::joined(one, ", "@) == namesake(more));
    if matches.len() > 0 {
        let parts = matches.map_values(|c: Customer| namesake(c));
        let longer = matches.push(more).map_values(|c: Customer| namesake(c));
        assert(longer =~= parts.push(namesake(more)));
        text::joining_puts_the_separator_between(parts, namesake(more), ", "@);
        let listed = text::joined(parts, ", "@);
        assert(name_warning(name, matches) == Some(
            "A customer named \""@ + name + "\" already exists: "@ + listed
                + ". Duplicate names are allowed."@,
        ));
    }
}

/// The customer that a form creates: the name as it was typed, each optional text from its
/// own field, and never the walk-in one.
pub proof fn new_customers_hold_their_own_fields(
    form: CreateCustomerForm,
    made: Result<NewCustomer, AppError>,
)
    requires
        call_ensures(new_customer_from_form, (form,), made),
        made is Ok,
    ensures
        ({
            let c = made->Ok_0;
            &&& c.name@ == form.name@
            &&& c.phone is None <==> text::trimmed(form.phone@).len() == 0
            &&& c.phone is Some ==> c.phone->0@ == text::trimmed(form.phone@)
            &&& c.address is None <==> text::trimmed(form.address@).len() == 0
            &&& c.address is Some ==> c.address->0@ == text::trimmed(form.address@)
            &&& c.tax_id is None <==> text::trimmed(form.tax_id@).len() == 0
            &&& c.tax_id is Some ==> c.tax_id->0@ == text::trimmed(form.tax_id@)
            &&& c.notes is None <==> text::trimmed(form.notes@).len() == 0
            &&& c.notes is Some ==> c.notes->0@ == text::trimmed(form.notes@)
            &&& !c.is_walkin
            &&& c.credit_limit is None <==> text::trimmed(form.credit_limit@).len() == 0
            &&& c.credit_limit is Some ==> amount::decimal_reading(text::trimmed(form.credit_limit@))
                == Some(c.credit_limit->0@)
            &&& c.payment_days is None <==> text::trimmed(form.payment_days@).len() == 0
            &&& c.payment_days is Some ==> text::i64_reading(text::trimmed(form.payment_days@))
                == c.payment_days
        }),
{
    each_term_is_read_in_its_own_field(form.credit_limit@, form.payment_days@);
}

/// The change that the edit form makes sets every field of the customer from its own field:
/// a blank optional one clears.
pub proof fn customer_edits_set_every_field(
    form: EditCustomerForm,
    made: Result<UpdateCustomer, AppError>,
)
    requires
        call_ensures(customer_update_from_form, (form,), made),
        made is Ok,
    ensures
        ({
            let u = made->Ok_0;
            &&& u.name is Some && u.name->0@ == form.name@
            &&& u.phone is Some && (u.phone->0 is None <==> text::trimmed(form.phone@).len() == 0)
            &&& u.phone->0 is Some ==> u.phone->0->0@ == text::trimmed(form.phone@)
            &&& u.address is Some && (u.address->0 is None <==> text::trimmed(form.address@).len()
                == 0)
            &&& u.address->0 is Some ==> u.address->0->0@ == text::trimmed(form.address@)
            &&& u.tax_id is Some && (u.tax_id->0 is None <==> text::trimmed(form.tax_id@).len()
                == 0)
            &&& u.tax_id->0 is Some ==> u.tax_id->0->0@ == text::trimmed(form.tax_id@)
            &&& u.notes is Some && (u.notes->0 is None <==> text::trimmed(form.notes@).len() == 0)
            &&& u.notes->0 is Some ==> u.notes->0->0@ == text::trimmed(form.notes@)
            &&& u.credit_limit is Some && (u.credit_limit->0 is None <==> text::trimmed(
                form.credit_limit@,
            ).len() == 0)
            &&& u.credit_limit->0 is Some ==> amount::decimal_reading(
                text::trimmed(form.credit_limit@),
            ) == Some(u.credit_limit->0->0@)
            &&& u.payment_days is Some && (u.payment_days->0 is None <==> text::trimmed(
                form.payment_days@,
            ).len() == 0)
            &&& u.payment_days->0 is Some ==> text::i64_reading(text::trimmed(form.payment_days@))
                == u.payment_days->0
        }),
{
    each_term_is_read_in_its_own_field(form.credit_limit@, form.payment_days@);
}

/// The collection that a form asks for: the customer and the method that it names, the
/// amount of its field, the date of its field or today, and the notes where there are any.
pub proof fn collections_hold_their_own_fields(
    form: CollectForm,
    today: Date,
    made: Result<CreateReceiptRequest, AppError>,
)
    requires
        call_ensures(collection_from_form, (form, today), made),
        made is Ok,
    ensures
        ({
            let r = made->Ok_0;
            &&& r.customer_id == form.customer_id
            &&& r.method_id == form.method_id
            &&& amount::decimal_reading(text::trimmed(form.amount@)) == Some(r.amount@)
            &&& text::trimmed(form.date@).len() == 0 ==> r.date@ == today@
            &&& text::trimmed(form.date@).len() > 0 ==> date::date_reading(text::trimmed(form.date@))
                == Some(r.date@)
            &&& r.notes is None <==> text::trimmed(form.notes@).len() == 0
            &&& r.notes is Some ==> r.notes->0@ == text::trimmed(form.notes@)
        }),
{
    collections_read_amount_and_date(form.amount@, form.date@, today@);
}

/// The change that a request makes is the request, field by field.
pub proof fn requests_change_customers_as_they_say(
    request: UpdateCustomerRequest,
    update: UpdateCustomer,
)
    requires
        call_ensures(customer_update_from_request, (request,), update),
    ensures
        update.name == request.name,
        update.phone == request.phone,
        update.address == request.address,
        update.tax_id == request.tax_id,
        update.notes == request.notes,
        update.credit_limit == request.credit_limit,
        update.payment_days == request.payment_days,
{
}

/// The day that a statement is as of is the one asked for, or else today; the list leaves
/// inactive customers out only where it is asked to; and receipts are listed only for a
/// customer that is named.
pub proof fn queries_mean_what_they_say(
    as_of: &AsOfQuery,
    today: Date,
    day: Date,
    list: &ListCustomersQuery,
    only_active: bool,
    receipts: &ReceiptListQuery,
    customer: Result<i64, AppError>,
)
    requires
        call_ensures(AsOfQuery::day, (as_of, today), day),
        call_ensures(ListCustomersQuery::leaves_inactive_out, (list,), only_active),
        call_ensures(ReceiptListQuery::required_customer, (receipts,), customer),
    ensures
        as_of.as_of is Some ==> day@ == as_of.as_of->0@,
        as_of.as_of is None ==> day@ == today@,
        only_active <==> list.only_active is Some && list.only_active->0,
        receipts.customer_id is Some ==> customer == Ok::<i64, AppError>(receipts.customer_id->0),
        receipts.customer_id is None ==> customer is Err && customer->Err_0@
            == ErrorView::Validation("customer_id is required"@),
{
}

/// The answer to a customer form: to htmx the list with its event, or after a collection
/// the customer who paid; to a plain browser the page of the list, or of that customer.
pub proof fn customer_forms_are_answered(
    htmx: bool,
    warning: Option<String>,
    customer_id: i64,
    created: CustomerAnswer,
    changed: CustomerAnswer,
    collected: CustomerAnswer,
)
    requires
        call_ensures(after_creating, (htmx, warning), created),
        call_ensures(after_changing, (htmx,), changed),
        call_ensures(after_collecting, (htmx, customer_id), collected),
    ensures
        htmx ==> created@ == (CustomerAnswerView::List {
            warning: views::opt_view(warning),
            trigger: "customer-created"@,
        }),
        htmx ==> changed@ == (CustomerAnswerView::List {
            warning: None,
            trigger: "customer-changed"@,
        }),
        htmx ==> collected@ == CustomerAnswerView::Detail(customer_id),
        !htmx ==> created@ == CustomerAnswerView::Redirect("/customers"@) && changed@ == created@,
        !htmx ==> collected@ == CustomerAnswerView::Redirect(
            "/customers/"@ + text::int_text(customer_id as int),
        ),
{
}

/// The page of one customer is about them: their name, the day, and whether the balance is
/// over their limit.
pub proof fn statement_pages_are_about_their_customer(
    customer: &Customer,
    balance: Amount,
    today: Date,
    page: CustomersPage,
)
    requires
        call_ensures(customer_statement_page, (customer, balance, today), page),
    ensures
        page.title@ == "Roya — Statement: "@ + customer.name@,
        page.today@ == today@.text(),
        page.warning is None,
        page.drawer_open,
        page.over_limit <==> customer.credit_limit is Some && amount::larger(
            balance@,
            customer.credit_limit->0@,
        ),
{
    over_the_limit_is_owing_more_than_it(*customer, balance@);
}

/// What a contract says of a line of the receivables and of the ages of a debt is said of
/// their own fields.
pub proof fn debts_are_what_their_fields_hold(ageing: Ageing, line: CustomerAgeingView)
    ensures
        ageing@.current == ageing.current@,
        ageing@.overdue_1_30 == ageing.overdue_1_30@,
        ageing@.overdue_31_60 == ageing.overdue_31_60@,
        ageing@.overdue_61_plus == ageing.overdue_61_plus@,
        line@.customer_id == line.customer_id,
        line@.name == line.name@,
        line@.balance == line.balance@,
        line@.over_limit == line.over_limit,
        line@.ageing == line.ageing@,
{
}

/// The list page shows nobody, and warns of nothing.
pub proof fn list_pages_start_shut(page: CustomersPage)
    requires
        call_ensures(customers_page, (), page),
    ensures
        page.title@ == "Roya — Customers"@,
        page.today@.len() == 0,
        page.warning is None,
        !page.over_limit,
        !page.drawer_open,
        page.nav_key@ == "customers"@,
{
}

/// A customer beside what they owe: the customer and the balance as they were given, and
/// whether that balance is over their limit.
pub proof fn shown_balances_are_the_given_ones(
    customer: Customer,
    balance: Amount,
    view: CustomerBalanceView,
)
    requires
        call_ensures(customer_view, (customer, balance), view),
    ensures
        view.customer == customer,
        view.balance@ == balance@,
        view.over_limit <==> customer.credit_limit is Some && amount::larger(
            balance@,
            customer.credit_limit->0@,
        ),
{
}

} // verus!
