//! Which permissions each operation of the routes asks for.

use vstd::prelude::*;

use crate::permission::{Permission, Principal};

verus! {

/// What a route does, as far as permissions tell routes apart. The web screens and
/// the JSON API ask for the same ones.
#[derive(Clone, Copy, Debug, PartialEq, Eq, Structural)]
pub enum Operation {
    /// Customers, their statements, the receivables and their receipts.
    BrowseCustomers,
    /// Creating, editing, activating, deactivating and deleting a customer.
    ChangeCustomer,
    /// Taking money in.
    CollectReceipt,
    /// The documents index and its drawer; what each shows is narrowed further.
    BrowseDocuments,
    /// The catalogue, stock, movements, taxes, the price ladder and the option lists.
    BrowseInventory,
    /// The product drawer, which shows what suppliers ask.
    OpenProductDrawer,
    /// Categories, products and barcodes, and which taxes a product carries.
    ChangeInventory,
    /// Stock movements.
    RecordMovement,
    /// What suppliers ask, and which of them is preferred.
    RecordSupplierCost,
    /// The definition of a tax: its code, its name, its rate, and whether it is active.
    DefineTax,
}

impl Operation {
    /// Whether the operation changes anything.
    pub open spec fn is_change(self) -> bool {
        match self {
            Operation::BrowseCustomers | Operation::BrowseDocuments | Operation::BrowseInventory
            | Operation::OpenProductDrawer => false,
            _ => true,
        }
    }

    /// The permissions that the operation asks for, in the order that they are looked
    /// at.
    pub open spec fn asked(self) -> Seq<Permission> {
        match self {
            Operation::BrowseCustomers => seq![Permission::CustomersRead],
            Operation::ChangeCustomer => seq![Permission::CustomersWrite],
            Operation::CollectReceipt => seq![Permission::CustomersCollect],
            Operation::BrowseDocuments => seq![
                Permission::SalesRead,
                Permission::PurchasesRead,
                Permission::InventoryRead,
                Permission::CustomersRead,
            ],
            Operation::BrowseInventory => seq![Permission::InventoryRead],
            Operation::OpenProductDrawer => seq![
                Permission::InventoryRead,
                Permission::PurchasesCostsRead,
            ],
            Operation::ChangeInventory => seq![Permission::InventoryWrite],
            Operation::RecordMovement => seq![Permission::InventoryStockWrite],
            Operation::RecordSupplierCost => seq![Permission::PurchasesCostsWrite],
            Operation::DefineTax => seq![Permission::SettingsManage],
        }
    }

    /// Whether one of the permissions is enough; otherwise all are needed.
    pub open spec fn one_is_enough(self) -> bool {
        self is BrowseDocuments
    }

    /// Whether the operation is open to the principal.
    pub open spec fn is_open_to(self, principal: Principal) -> bool {
        if self.one_is_enough() {
            exists|i: int|
                0 <= i < self.asked().len() && principal.holds(#[trigger] self.asked()[i])
        } else {
            forall|i: int|
                0 <= i < self.asked().len() ==> principal.holds(#[trigger] self.asked()[i])
        }
    }

    /// The permissions that the operation asks for.
    pub fn permissions(self) -> (asked: Vec<Permission>)
        ensures
            asked@ == self.asked(),
    {
        let mut asked: Vec<Permission> = Vec::new();
        match self {
            Operation::BrowseCustomers => {
                asked.push(Permission::CustomersRead);
            },
            Operation::ChangeCustomer => {
                asked.push(Permission::CustomersWrite);
            },
            Operation::CollectReceipt => {
                asked.push(Permission::CustomersCollect);
            },
            Operation::BrowseDocuments => {
                asked.push(Permission::SalesRead);
                asked.push(Permission::PurchasesRead);
                asked.push(Permission::InventoryRead);
                asked.push(Permission::CustomersRead);
            },
            Operation::BrowseInventory => {
                asked.push(Permission::InventoryRead);
            },
            Operation::OpenProductDrawer => {
                asked.push(Permission::InventoryRead);
                asked.push(Permission::PurchasesCostsRead);
            },
            Operation::ChangeInventory => {
                asked.push(Permission::InventoryWrite);
            },
            Operation::RecordMovement => {
                asked.push(Permission::InventoryStockWrite);
            },
            Operation::RecordSupplierCost => {
                asked.push(Permission::PurchasesCostsWrite);
            },
            Operation::DefineTax => {
                asked.push(Permission::SettingsManage);
            },
        }
        asked
    }
}

/// The permission that a refusal names: the first one asked for that is not held, where
/// the operation is not open.
pub open spec fn missing(operation: Operation, principal: Principal, at: int) -> bool {
    &&& !operation.is_open_to(principal)
    &&& 0 <= at < operation.asked().len()
    &&& !principal.holds(operation.asked()[at])
    &&& forall|k: int| 0 <= k < at ==> principal.holds(#[trigger] operation.asked()[k])
}

/// Lets the principal through, or names the permission that is missing.
pub fn authorize(principal: &Principal, operation: Operation) -> (outcome: Result<(), Permission>)
    ensures
        match outcome {
            Ok(()) => operation.is_open_to(*principal),
            Err(p) => exists|at: int|
                missing(operation, *principal, at) && p == #[trigger] operation.asked()[at],
        },
{
    let asked = operation.permissions();
    let any = match operation {
        Operation::BrowseDocuments => true,
        _ => false,
    };
    let mut i: usize = 0;
    if any {
        while i < asked.len()
            invariant
                i <= asked.len(),
                asked@ == operation.asked(),
                operation.one_is_enough(),
                forall|k: int| 0 <= k < i ==> !principal.holds(#[trigger] operation.asked()[k]),
            decreases asked.len() - i,
        {
            if principal.has(asked[i]) {
                proof {
                    assert(principal.holds(operation.asked()[i as int]));
                }
                return Ok(());
            }
            i = i + 1;
        }
        proof {
            assert(missing(operation, *principal, 0));
            assert(operation.asked()[0] == asked@[0]);
        }
        return Err(asked[0]);
    }
    while i < asked.len()
        invariant
            i <= asked.len(),
            asked@ == operation.asked(),
            !operation.one_is_enough(),
            forall|k: int| 0 <= k < i ==> principal.holds(#[trigger] operation.asked()[k]),
        decreases asked.len() - i,
    {
        if !principal.has(asked[i]) {
            proof {
                assert(!principal.holds(operation.asked()[i as int]));
                assert(missing(operation, *principal, i as int));
            }
            return Err(asked[i]);
        }
        i = i + 1;
    }
    Ok(())
}

/// Whether a permission lets its holder change something.
pub open spec fn permits_change(permission: Permission) -> bool {
    match permission {
        Permission::CustomersWrite | Permission::CustomersCollect | Permission::InventoryWrite
        | Permission::InventoryStockWrite | Permission::PurchasesCostsWrite
        | Permission::SettingsManage => true,
        _ => false,
    }
}

/// A principal who holds no permission to change anything is refused every change.
pub proof fn readers_change_nothing(principal: Principal, operation: Operation)
    requires
        forall|p: Permission| permits_change(p) ==> !#[trigger] principal.holds(p),
        operation.is_change(),
    ensures
        !operation.is_open_to(principal),
{
    assert(permits_change(operation.asked()[0]));
    assert(!principal.holds(operation.asked()[0]));
}

/// The tiers of the customers screen stand apart: to write does not let money be taken
/// in, and to take it in does not let anything be written.
pub proof fn writing_and_collecting_stand_apart(principal: Principal)
    ensures
        Operation::ChangeCustomer.is_open_to(principal) <==> principal.holds(
            Permission::CustomersWrite,
        ),
        Operation::CollectReceipt.is_open_to(principal) <==> principal.holds(
            Permission::CustomersCollect,
        ),
{
    assert(Operation::ChangeCustomer.asked()[0] == Permission::CustomersWrite);
    assert(Operation::CollectReceipt.asked()[0] == Permission::CustomersCollect);
}

/// Whoever opens the product drawer may read the catalogue and what suppliers ask: the
/// first alone is not enough.
pub proof fn the_product_drawer_needs_both(principal: Principal)
    ensures
        Operation::OpenProductDrawer.is_open_to(principal) <==> principal.holds(
            Permission::InventoryRead,
        ) && principal.holds(Permission::PurchasesCostsRead),
{
    let asked = Operation::OpenProductDrawer.asked();
    assert(asked[0] == Permission::InventoryRead);
    assert(asked[1] == Permission::PurchasesCostsRead);
}

/// No permission on the inventory lets a tax be defined.
pub proof fn taxes_are_defined_in_the_settings(principal: Principal)
    ensures
        Operation::DefineTax.is_open_to(principal) <==> principal.holds(
            Permission::SettingsManage,
        ),
{
    assert(Operation::DefineTax.asked()[0] == Permission::SettingsManage);
}

/// The documents index opens exactly to those who may read one of its families.
pub proof fn the_index_opens_to_every_reader(principal: Principal)
    ensures
        Operation::BrowseDocuments.is_open_to(principal) <==> exists|kind:
            crate::documents::DocumentKind| #[trigger]
            principal.holds(kind.reader()),
{
    let asked = Operation::BrowseDocuments.asked();
    if Operation::BrowseDocuments.is_open_to(principal) {
        let i = choose|i: int| 0 <= i < asked.len() && principal.holds(#[trigger] asked[i]);
        if i == 0 {
            assert(principal.holds(crate::documents::DocumentKind::Sale.reader()));
        } else if i == 1 {
            assert(principal.holds(crate::documents::DocumentKind::Purchase.reader()));
        } else if i == 2 {
            assert(principal.holds(crate::documents::DocumentKind::StockMovement.reader()));
        } else {
            assert(principal.holds(crate::documents::DocumentKind::Receipt.reader()));
        }
    }
    if exists|kind: crate::documents::DocumentKind| #[trigger] principal.holds(kind.reader()) {
        let kind = choose|kind: crate::documents::DocumentKind| #[trigger]
            principal.holds(kind.reader());
        match kind.reader() {
            Permission::SalesRead => assert(principal.holds(asked[0])),
            Permission::PurchasesRead => assert(principal.holds(asked[1])),
            Permission::InventoryRead => assert(principal.holds(asked[2])),
            _ => assert(principal.holds(asked[3])),
        }
    }
}

/// What each operation asks of a principal.
pub proof fn each_operation_asks_for_its_own_permission(principal: Principal)
    ensures
        Operation::BrowseCustomers.is_open_to(principal) <==> principal.holds(
            Permission::CustomersRead,
        ),
        Operation::ChangeCustomer.is_open_to(principal) <==> principal.holds(
            Permission::CustomersWrite,
        ),
        Operation::CollectReceipt.is_open_to(principal) <==> principal.holds(
            Permission::CustomersCollect,
        ),
        Operation::BrowseDocuments.is_open_to(principal) <==> principal.holds(
            Permission::SalesRead,
        ) || principal.holds(Permission::PurchasesRead) || principal.holds(
            Permission::InventoryRead,
        ) || principal.holds(Permission::CustomersRead),
        Operation::BrowseInventory.is_open_to(principal) <==> principal.holds(
            Permission::InventoryRead,
        ),
        Operation::OpenProductDrawer.is_open_to(principal) <==> principal.holds(
            Permission::InventoryRead,
        ) && principal.holds(Permission::PurchasesCostsRead),
        Operation::ChangeInventory.is_open_to(principal) <==> principal.holds(
            Permission::InventoryWrite,
        ),
        Operation::RecordMovement.is_open_to(principal) <==> principal.holds(
            Permission::InventoryStockWrite,
        ),
        Operation::RecordSupplierCost.is_open_to(principal) <==> principal.holds(
            Permission::PurchasesCostsWrite,
        ),
        Operation::DefineTax.is_open_to(principal) <==> principal.holds(
            Permission::SettingsManage,
        ),
{
    writing_and_collecting_stand_apart(principal);
    the_product_drawer_needs_both(principal);
    taxes_are_defined_in_the_settings(principal);
    assert(Operation::BrowseCustomers.asked()[0] == Permission::CustomersRead);
    assert(Operation::BrowseInventory.asked()[0] == Permission::InventoryRead);
    assert(Operation::ChangeInventory.asked()[0] == Permission::InventoryWrite);
    assert(Operation::RecordMovement.asked()[0] == Permission::InventoryStockWrite);
    assert(Operation::RecordSupplierCost.asked()[0] == Permission::PurchasesCostsWrite);
    let asked = Operation::BrowseDocuments.asked();
    assert(asked[0] == Permission::SalesRead);
    assert(asked[1] == Permission::PurchasesRead);
    assert(asked[2] == Permission::InventoryRead);
    assert(asked[3] == Permission::CustomersRead);
}

/// A refusal names a permission that the operation asks for and the principal lacks:
/// the product drawer names the one on the catalogue before the one on costs, and the
/// documents index names the one on sales.
pub proof fn refusals_name_what_is_missing(
    principal: Principal,
    operation: Operation,
    at: int,
)
    requires
        missing(operation, principal, at),
    ensures
        !operation.is_open_to(principal),
        !principal.holds(operation.asked()[at]),
        operation is OpenProductDrawer && !principal.holds(Permission::InventoryRead)
            ==> operation.asked()[at] == Permission::InventoryRead,
        operation is OpenProductDrawer && principal.holds(Permission::InventoryRead)
            ==> operation.asked()[at] == Permission::PurchasesCostsRead,
        operation is BrowseDocuments ==> operation.asked()[at] == Permission::SalesRead,
{
    if operation is OpenProductDrawer {
        assert(operation.asked()[0] == Permission::InventoryRead);
        assert(operation.asked()[1] == Permission::PurchasesCostsRead);
    }
    if operation is BrowseDocuments {
        assert(operation.asked()[0] == Permission::SalesRead);
        if at > 0 {
            assert(principal.holds(operation.asked()[0]));
        }
    }
}

/// A principal is let through exactly where the operation is open to them, and a refusal
/// names a permission that they lack.
pub proof fn only_the_permitted_are_let_through(
    principal: &Principal,
    operation: Operation,
    outcome: Result<(), Permission>,
)
    requires
        call_ensures(authorize, (principal, operation), outcome),
    ensures
        outcome is Ok <==> operation.is_open_to(*principal),
        outcome is Err ==> !principal.holds(outcome->Err_0) && operation.asked().contains(
            outcome->Err_0,
        ),
{
}

} // verus!
