//! Permission codes, and who holds which.

use vstd::prelude::*;

use crate::text::same_text;

verus! {

/// One capability that a route can ask for.
#[derive(Clone, Copy, Debug, PartialEq, Eq, Structural)]
pub enum Permission {
    SalesRead,
    SalesCreate,
    SalesCancel,
    PurchasesRead,
    PurchasesCreate,
    PurchasesCancel,
    PurchasesCostsRead,
    PurchasesCostsWrite,
    InventoryRead,
    InventoryWrite,
    InventoryStockWrite,
    CustomersRead,
    CustomersWrite,
    CustomersCollect,
    SettingsManage,
}

/// The code by which a permission is granted.
pub open spec fn code_of(permission: Permission) -> Seq<char> {
    match permission {
        Permission::SalesRead => "sales.read"@,
        Permission::SalesCreate => "sales.create"@,
        Permission::SalesCancel => "sales.cancel"@,
        Permission::PurchasesRead => "purchases.read"@,
        Permission::PurchasesCreate => "purchases.create"@,
        Permission::PurchasesCancel => "purchases.cancel"@,
        Permission::PurchasesCostsRead => "purchases.costs.read"@,
        Permission::PurchasesCostsWrite => "purchases.costs.write"@,
        Permission::InventoryRead => "inventory.read"@,
        Permission::InventoryWrite => "inventory.write"@,
        Permission::InventoryStockWrite => "inventory.stock.write"@,
        Permission::CustomersRead => "customers.read"@,
        Permission::CustomersWrite => "customers.write"@,
        Permission::CustomersCollect => "customers.collect"@,
        Permission::SettingsManage => "settings.manage"@,
    }
}

impl Permission {
    /// The code by which the permission is granted.
    pub fn code(self) -> (code: &'static str)
        ensures
            code@ == code_of(self),
    {
        match self {
            Permission::SalesRead => "sales.read",
            Permission::SalesCreate => "sales.create",
            Permission::SalesCancel => "sales.cancel",
            Permission::PurchasesRead => "purchases.read",
            Permission::PurchasesCreate => "purchases.create",
            Permission::PurchasesCancel => "purchases.cancel",
            Permission::PurchasesCostsRead => "purchases.costs.read",
            Permission::PurchasesCostsWrite => "purchases.costs.write",
            Permission::InventoryRead => "inventory.read",
            Permission::InventoryWrite => "inventory.write",
            Permission::InventoryStockWrite => "inventory.stock.write",
            Permission::CustomersRead => "customers.read",
            Permission::CustomersWrite => "customers.write",
            Permission::CustomersCollect => "customers.collect",
            Permission::SettingsManage => "settings.manage",
        }
    }
}

/// Whoever makes the request: the user and the codes granted to them.
pub struct Principal {
    pub user_id: i64,
    pub codes: Vec<String>,
}

/// Whether `codes` grants `permission`.
pub open spec fn grants(codes: Seq<String>, permission: Permission) -> bool {
    exists|i: int| 0 <= i < codes.len() && (#[trigger] codes[i])@ == code_of(permission)
}

impl Principal {
    /// Whether the principal holds the permission.
    pub open spec fn holds(self, permission: Permission) -> bool {
        grants(self.codes@, permission)
    }

    /// Whether the principal holds the permission.
    pub fn has(&self, permission: Permission) -> (held: bool)
        ensures
            held == self.holds(permission),
    {
        let code = permission.code();
        let mut i: usize = 0;
        while i < self.codes.len()
            invariant
                i <= self.codes.len(),
                code@ == code_of(permission),
                forall|k: int| 0 <= k < i ==> (#[trigger] self.codes@[k])@ != code_of(permission),
            decreases self.codes.len() - i,
        {
            if same_text(self.codes[i].as_str(), code) {
                return true;
            }
            i = i + 1;
        }
        false
    }
}

/// The codes by which permissions are granted.
pub proof fn permissions_go_by_their_codes(principal: Principal, code: Seq<char>)
    requires
        forall|i: int|
            0 <= i < principal.codes@.len() ==> (#[trigger] principal.codes@[i])@ == code,
        principal.codes@.len() > 0,
    ensures
        principal.holds(Permission::SalesRead) <==> code == "sales.read"@,
        principal.holds(Permission::SalesCreate) <==> code == "sales.create"@,
        principal.holds(Permission::SalesCancel) <==> code == "sales.cancel"@,
        principal.holds(Permission::PurchasesRead) <==> code == "purchases.read"@,
        principal.holds(Permission::PurchasesCreate) <==> code == "purchases.create"@,
        principal.holds(Permission::PurchasesCancel) <==> code == "purchases.cancel"@,
        principal.holds(Permission::PurchasesCostsRead) <==> code == "purchases.costs.read"@,
        principal.holds(Permission::PurchasesCostsWrite) <==> code == "purchases.costs.write"@,
        principal.holds(Permission::InventoryRead) <==> code == "inventory.read"@,
        principal.holds(Permission::InventoryWrite) <==> code == "inventory.write"@,
        principal.holds(Permission::InventoryStockWrite) <==> code == "inventory.stock.write"@,
        principal.holds(Permission::CustomersRead) <==> code == "customers.read"@,
        principal.holds(Permission::CustomersWrite) <==> code == "customers.write"@,
        principal.holds(Permission::CustomersCollect) <==> code == "customers.collect"@,
        principal.holds(Permission::SettingsManage) <==> code == "settings.manage"@,
{
    assert(principal.codes@[0]@ == code);
}

/// One more code grants its own permission and takes none away; whose codes they are
/// does not matter.
pub proof fn granting_adds_only_what_is_granted(
    before: Principal,
    after: Principal,
    granted: String,
    permission: Permission,
)
    requires
        after.codes@ == before.codes@.push(granted),
    ensures
        after.holds(permission) <==> before.holds(permission) || granted@ == code_of(permission),
{
    let codes = before.codes@.push(granted);
    if before.holds(permission) {
        let i = choose|i: int|
            0 <= i < before.codes@.len() && (#[trigger] before.codes@[i])@ == code_of(permission);
        assert(codes[i]@ == code_of(permission));
    }
    if granted@ == code_of(permission) {
        assert(codes[codes.len() - 1]@ == code_of(permission));
    }
    if after.holds(permission) {
        let i = choose|i: int|
            0 <= i < codes.len() && (#[trigger] codes[i])@ == code_of(permission);
        if i < before.codes@.len() {
            assert(before.codes@[i]@ == code_of(permission));
        }
    }
}

} // verus!
