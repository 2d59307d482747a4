//! The payment methods of an account.

use vstd::prelude::*;

verus! {

/// A payment method, and whether the account allows it.
pub struct PaymentMethodOption {
    pub id: i64,
    pub name: String,
    pub allowed: bool,
}

/// What the account's catalog of methods is answered with.
pub struct MethodCatalog {
    pub account_id: i64,
    pub allowed_method_ids: Vec<i64>,
    pub methods: Vec<PaymentMethodOption>,
}

/// The ids of the methods that are allowed, in the order of the catalog.
pub open spec fn allowed_ids(methods: Seq<PaymentMethodOption>) -> Seq<i64> {
    methods.filter(|m: PaymentMethodOption| m.allowed).map_values(|m: PaymentMethodOption| m.id)
}

/// The catalog of an account: the allowed ids beside the full list of methods.
pub fn catalog_json(account_id: i64, methods: Vec<PaymentMethodOption>) -> (catalog: MethodCatalog)
    ensures
        catalog.account_id == account_id,
        catalog.allowed_method_ids@ == allowed_ids(methods@),
        catalog.methods == methods,
{
    let mut allowed_method_ids: Vec<i64> = Vec::new();
    let mut i: usize = 0;
    proof {
        reveal(Seq::filter);
        assert(allowed_method_ids@ =~= allowed_ids(methods@.take(0)));
    }
    while i < methods.len()
        invariant
            i <= methods.len(),
            allowed_method_ids@ == allowed_ids(methods@.take(i as int)),
        decreases methods.len() - i,
    {
        if methods[i].allowed {
            allowed_method_ids.push(methods[i].id);
        }
        i = i + 1;
        proof {
            reveal(Seq::filter);
            assert(methods@.take(i as int).drop_last() =~= methods@.take(i - 1));
            assert(allowed_method_ids@ =~= allowed_ids(methods@.take(i as int)));
        }
    }
    proof {
        assert(methods@.take(i as int) =~= methods@);
    }
    MethodCatalog { account_id, allowed_method_ids, methods }
}

/// How many of the first `n` methods are allowed.
pub open spec fn allowed_before(methods: Seq<PaymentMethodOption>, n: int) -> int
    decreases n,
{
    if n <= 0 {
        0
    } else {
        allowed_before(methods, n - 1) + (if methods[n - 1].allowed {
            1int
        } else {
            0
        })
    }
}

proof fn lemma_allowed(methods: Seq<PaymentMethodOption>, n: int)
    requires
        0 <= n <= methods.len(),
    ensures
        allowed_ids(methods.take(n)).len() == allowed_before(methods, n),
        forall|i: int|
            #![trigger methods[i]]
            0 <= i < n && methods[i].allowed ==> 0 <= allowed_before(methods, i) < allowed_before(
                methods,
                n,
            ) && allowed_ids(methods.take(n))[allowed_before(methods, i)] == methods[i].id,
    decreases n,
{
    reveal(Seq::filter);
    if n == 0 {
        assert(methods.take(0) =~= Seq::empty());
    } else {
        lemma_allowed(methods, n - 1);
        let last = methods[n - 1];
        assert(methods.take(n).drop_last() =~= methods.take(n - 1));
        assert(methods.take(n).last() == last);
        let before = allowed_ids(methods.take(n - 1));
        let all = allowed_ids(methods.take(n));
        if last.allowed {
            assert(all =~= before.push(last.id));
        } else {
            assert(all =~= before);
        }
        assert forall|i: int|
            #![trigger methods[i]]
            0 <= i < n && methods[i].allowed implies 0 <= allowed_before(methods, i)
            < allowed_before(methods, n) && all[allowed_before(methods, i)] == methods[i].id by {
            if i < n - 1 {
                assert(all[allowed_before(methods, i)] == before[allowed_before(methods, i)]);
            }
        }
    }
}

/// The catalog of an account lists the id of every method that is allowed and of no other,
/// in the order of the methods, beside all of them as they are.
pub proof fn catalogs_list_what_is_allowed(
    account_id: i64,
    methods: Vec<PaymentMethodOption>,
    catalog: MethodCatalog,
)
    requires
        call_ensures(catalog_json, (account_id, methods), catalog),
    ensures
        catalog.account_id == account_id,
        catalog.methods@ == methods@,
        catalog.allowed_method_ids@.len() == allowed_before(methods@, methods@.len() as int),
        forall|i: int|
            #![trigger methods@[i]]
            0 <= i < methods@.len() && methods@[i].allowed
                ==> catalog.allowed_method_ids@[allowed_before(methods@, i)] == methods@[i].id,
{
    lemma_allowed(methods@, methods@.len() as int);
    assert(methods@.take(methods@.len() as int) =~= methods@);
}

} // verus!
