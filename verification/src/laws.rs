//! Properties that hold across the checks, over the specifications that the
//! checks' own contracts use.
use vstd::prelude::*;

use crate::admin_no_group_auth::{has_admin_require_auth, is_admin_auth_call, spec_is_admin_name};
use crate::admin_zero_address::{
    address_params, expr_text, is_unvalidated_setter, mentions_param, validates,
    validating_binary, validating_call, validating_macro,
};
use crate::admin_zero_address::unvalidated_setters;
use crate::model::{Block, Expr, ImplFn, ItemImpl, MethodCall, SourceFile};
use crate::text::{occurs_at, string_views};
use crate::util::{contractimpl_fns, is_contractimpl, is_contractimpl_attr};
use crate::ownership_no_approval_invalidation::{
    block_clears_approvals, block_writes_owner, clears_approvals_call, is_uncleared_transfer,
    key_text as approval_key_text, spec_is_approval_key, spec_is_owner_key, spec_is_storage_call,
    writes_owner_call,
};
use crate::ownership_pending_not_cleared::{
    block_clears_pending, block_writes_admin, clears_pending_call, is_uncleared_accept,
    spec_is_admin_key, writes_admin_call,
};
use crate::text::{lowercase, spec_contains};

verus! {

/// Every element of `a` is an element of `b`.
pub open spec fn elements_within<T>(a: Seq<T>, b: Seq<T>) -> bool {
    forall|x: T| a.contains(x) ==> b.contains(x)
}

/// Every node that the walk of `b1` meets, the walk of `b2` meets too.
pub open spec fn nodes_within(b1: Block, b2: Block) -> bool {
    &&& elements_within(b1.method_calls@, b2.method_calls@)
    &&& elements_within(b1.if_conditions@, b2.if_conditions@)
    &&& elements_within(b1.binaries@, b2.binaries@)
    &&& elements_within(b1.macros@, b2.macros@)
}

/// The walks of the two bodies meet the same nodes, in any order and number.
pub open spec fn same_nodes(b1: Block, b2: Block) -> bool {
    nodes_within(b1, b2) && nodes_within(b2, b1)
}

/// The two functions differ at most in their bodies.
pub open spec fn same_signature(f1: ImplFn, f2: ImplFn) -> bool {
    &&& f1.name@ == f2.name@
    &&& f1.is_pub == f2.is_pub
    &&& f1.inputs@ == f2.inputs@
}

proof fn lemma_index_within<T>(a: Seq<T>, b: Seq<T>, i: int) -> (j: int)
    requires
        elements_within(a, b),
        0 <= i < a.len(),
    ensures
        0 <= j < b.len(),
        b[j] == a[i],
{
    assert(a.contains(a[i]));
    choose|j: int| 0 <= j < b.len() && b[j] == a[i]
}

/// The owner-key test of the approval check and the admin-key test of the
/// pending check are one and the same test, and every name that the
/// group-auth check takes for an admin passes it.
pub proof fn law_admin_tests_agree(s: Seq<char>)
    ensures
        spec_is_owner_key(s) == spec_is_admin_key(s),
        spec_is_admin_name(s) ==> spec_is_owner_key(s),
{
}

/// A key whose lowercase form mentions "operator" is both an owner key and
/// an approval key.
pub proof fn law_operator_key_is_owner_and_approval(t: Seq<char>)
    requires
        spec_contains(lowercase(t), "operator"@),
    ensures
        spec_is_owner_key(t),
        spec_is_approval_key(t),
{
}

/// A transfer function with a storage `set` on an operator key is never
/// reported for leaving approvals in place: that one write counts as the
/// owner write and as the approval clear.
pub proof fn law_operator_write_clears_approvals(f: ImplFn, i: int)
    requires
        0 <= i < f.block.method_calls@.len(),
        spec_is_storage_call(f.block.method_calls@[i]),
        f.block.method_calls@[i].args@.len() > 0,
        f.block.method_calls@[i].method@ == "set"@,
        spec_contains(lowercase(approval_key_text(f.block.method_calls@[i].args@[0])), "operator"@),
    ensures
        block_writes_owner(f.block),
        !is_uncleared_transfer(f),
{
    let c = f.block.method_calls@[i];
    assert(writes_owner_call(c));
    assert(clears_approvals_call(c));
}

/// A storage `set` or `remove` of an approval key in a transfer function
/// keeps it from being reported.
pub proof fn law_approval_clear_suppresses(f: ImplFn, i: int)
    requires
        0 <= i < f.block.method_calls@.len(),
        clears_approvals_call(f.block.method_calls@[i]),
    ensures
        !is_uncleared_transfer(f),
{
}

/// A storage `set` or `remove` of a pending key in an accept function
/// keeps it from being reported.
pub proof fn law_pending_clear_suppresses(f: ImplFn, i: int)
    requires
        0 <= i < f.block.method_calls@.len(),
        clears_pending_call(f.block.method_calls@[i]),
    ensures
        !is_uncleared_accept(f),
{
}

/// Adding code to a setter's body never makes the zero-address check
/// report it: validation found in a body is found in any larger body.
pub proof fn law_validation_survives_added_code(f1: ImplFn, f2: ImplFn)
    requires
        same_signature(f1, f2),
        nodes_within(f1.block, f2.block),
    ensures
        is_unvalidated_setter(f2) ==> is_unvalidated_setter(f1),
{
    let params = address_params(f1.inputs@);
    assert(address_params(f2.inputs@) == params);
    let b1 = f1.block;
    let b2 = f2.block;
    if exists|i: int| 0 <= i < b1.method_calls@.len() && #[trigger] validating_call(params, b1.method_calls@[i]) {
        let i = choose|i: int| 0 <= i < b1.method_calls@.len() && #[trigger] validating_call(params, b1.method_calls@[i]);
        let j = lemma_index_within(b1.method_calls@, b2.method_calls@, i);
        assert(validating_call(params, b2.method_calls@[j]));
    }
    if exists|i: int| 0 <= i < b1.if_conditions@.len() && mentions_param(params, #[trigger] expr_text(b1.if_conditions@[i])) {
        let i = choose|i: int| 0 <= i < b1.if_conditions@.len() && mentions_param(params, #[trigger] expr_text(b1.if_conditions@[i]));
        let j = lemma_index_within(b1.if_conditions@, b2.if_conditions@, i);
        assert(mentions_param(params, expr_text(b2.if_conditions@[j])));
    }
    if exists|i: int| 0 <= i < b1.binaries@.len() && #[trigger] validating_binary(params, b1.binaries@[i]) {
        let i = choose|i: int| 0 <= i < b1.binaries@.len() && #[trigger] validating_binary(params, b1.binaries@[i]);
        let j = lemma_index_within(b1.binaries@, b2.binaries@, i);
        assert(validating_binary(params, b2.binaries@[j]));
    }
    if exists|i: int| 0 <= i < b1.macros@.len() && #[trigger] validating_macro(params, b1.macros@[i]) {
        let i = choose|i: int| 0 <= i < b1.macros@.len() && #[trigger] validating_macro(params, b1.macros@[i]);
        let j = lemma_index_within(b1.macros@, b2.macros@, i);
        assert(validating_macro(params, b2.macros@[j]));
    }
}

proof fn lemma_admin_auth_within(b1: Block, b2: Block)
    requires
        elements_within(b1.method_calls@, b2.method_calls@),
    ensures
        has_admin_require_auth(b1) ==> has_admin_require_auth(b2),
{
    if has_admin_require_auth(b1) {
        let i = choose|i: int| 0 <= i < b1.method_calls@.len() && #[trigger] is_admin_auth_call(b1.method_calls@[i]);
        let j = lemma_index_within(b1.method_calls@, b2.method_calls@, i);
        assert(is_admin_auth_call(b2.method_calls@[j]));
    }
}

proof fn lemma_owner_write_within(b1: Block, b2: Block)
    requires
        elements_within(b1.method_calls@, b2.method_calls@),
    ensures
        block_writes_owner(b1) ==> block_writes_owner(b2),
{
    if block_writes_owner(b1) {
        let i = choose|i: int| 0 <= i < b1.method_calls@.len() && #[trigger] writes_owner_call(b1.method_calls@[i]);
        let j = lemma_index_within(b1.method_calls@, b2.method_calls@, i);
        assert(writes_owner_call(b2.method_calls@[j]));
    }
}

proof fn lemma_approval_clear_within(b1: Block, b2: Block)
    requires
        elements_within(b1.method_calls@, b2.method_calls@),
    ensures
        block_clears_approvals(b1) ==> block_clears_approvals(b2),
{
    if block_clears_approvals(b1) {
        let i = choose|i: int| 0 <= i < b1.method_calls@.len() && #[trigger] clears_approvals_call(b1.method_calls@[i]);
        let j = lemma_index_within(b1.method_calls@, b2.method_calls@, i);
        assert(clears_approvals_call(b2.method_calls@[j]));
    }
}

proof fn lemma_admin_write_within(b1: Block, b2: Block)
    requires
        elements_within(b1.method_calls@, b2.method_calls@),
    ensures
        block_writes_admin(b1) ==> block_writes_admin(b2),
{
    if block_writes_admin(b1) {
        let i = choose|i: int| 0 <= i < b1.method_calls@.len() && #[trigger] writes_admin_call(b1.method_calls@[i]);
        let j = lemma_index_within(b1.method_calls@, b2.method_calls@, i);
        assert(writes_admin_call(b2.method_calls@[j]));
    }
}

proof fn lemma_pending_clear_within(b1: Block, b2: Block)
    requires
        elements_within(b1.method_calls@, b2.method_calls@),
    ensures
        block_clears_pending(b1) ==> block_clears_pending(b2),
{
    if block_clears_pending(b1) {
        let i = choose|i: int| 0 <= i < b1.method_calls@.len() && #[trigger] clears_pending_call(b1.method_calls@[i]);
        let j = lemma_index_within(b1.method_calls@, b2.method_calls@, i);
        assert(clears_pending_call(b2.method_calls@[j]));
    }
}

/// Every check judges a function by which nodes its body holds, not by
/// their order or number: two functions with the same signature whose
/// bodies meet the same nodes get the same verdict from each check.
pub proof fn law_verdicts_ignore_order(f1: ImplFn, f2: ImplFn)
    requires
        same_signature(f1, f2),
        same_nodes(f1.block, f2.block),
    ensures
        has_admin_require_auth(f1.block) == has_admin_require_auth(f2.block),
        is_unvalidated_setter(f1) == is_unvalidated_setter(f2),
        is_uncleared_transfer(f1) == is_uncleared_transfer(f2),
        is_uncleared_accept(f1) == is_uncleared_accept(f2),
{
    law_validation_survives_added_code(f1, f2);
    law_validation_survives_added_code(f2, f1);
    lemma_admin_auth_within(f1.block, f2.block);
    lemma_admin_auth_within(f2.block, f1.block);
    lemma_owner_write_within(f1.block, f2.block);
    lemma_owner_write_within(f2.block, f1.block);
    lemma_approval_clear_within(f1.block, f2.block);
    lemma_approval_clear_within(f2.block, f1.block);
    lemma_admin_write_within(f1.block, f2.block);
    lemma_admin_write_within(f2.block, f1.block);
    lemma_pending_clear_within(f1.block, f2.block);
    lemma_pending_clear_within(f2.block, f1.block);
}

proof fn lemma_setters_append(a: Seq<ImplFn>, b: Seq<ImplFn>)
    ensures
        unvalidated_setters(a + b) == unvalidated_setters(a) + unvalidated_setters(b),
    decreases b.len(),
{
    if b.len() == 0 {
        assert(a + b =~= a);
        assert(unvalidated_setters(a) + unvalidated_setters(b) =~= unvalidated_setters(a));
    } else {
        lemma_setters_append(a, b.drop_last());
        assert((a + b).drop_last() =~= a + b.drop_last());
        assert((a + b).last() == b.last());
        if is_unvalidated_setter(b.last()) {
            assert(unvalidated_setters(a) + unvalidated_setters(b) =~= (unvalidated_setters(a)
                + unvalidated_setters(b.drop_last())).push(b.last()));
        }
    }
}

proof fn lemma_contract_fns_append(a: Seq<ItemImpl>, b: Seq<ItemImpl>)
    ensures
        contractimpl_fns(a + b) == contractimpl_fns(a) + contractimpl_fns(b),
    decreases b.len(),
{
    if b.len() == 0 {
        assert(a + b =~= a);
        assert(contractimpl_fns(a) + contractimpl_fns(b) =~= contractimpl_fns(a));
    } else {
        lemma_contract_fns_append(a, b.drop_last());
        assert((a + b).drop_last() =~= a + b.drop_last());
        assert((a + b).last() == b.last());
        let tail = if is_contractimpl(b.last()) {
            b.last().fns@
        } else {
            Seq::empty()
        };
        assert(contractimpl_fns(a) + contractimpl_fns(b) =~= contractimpl_fns(a) + contractimpl_fns(
            b.drop_last(),
        ) + tail);
    }
}

pub(crate) proof fn lemma_contract_fns_one(imp: ItemImpl)
    ensures
        contractimpl_fns(seq![imp]) == if is_contractimpl(imp) {
            imp.fns@
        } else {
            Seq::<ImplFn>::empty()
        },
{
    assert(seq![imp].drop_last() =~= Seq::<ItemImpl>::empty());
    assert(seq![imp].last() == imp);
    assert(contractimpl_fns(seq![imp].drop_last()) == Seq::<ImplFn>::empty());
    assert(Seq::<ImplFn>::empty() + imp.fns@ =~= imp.fns@);
    assert(Seq::<ImplFn>::empty() + Seq::<ImplFn>::empty() =~= Seq::<ImplFn>::empty());
}

proof fn lemma_contract_fns_split(imps: Seq<ItemImpl>, i: int)
    requires
        0 <= i < imps.len(),
        is_contractimpl(imps[i]),
    ensures
        contractimpl_fns(imps) == contractimpl_fns(imps.take(i)) + imps[i].fns@ + contractimpl_fns(
            imps.skip(i + 1),
        ),
{
    assert(imps =~= imps.take(i) + seq![imps[i]] + imps.skip(i + 1));
    lemma_contract_fns_append(imps.take(i) + seq![imps[i]], imps.skip(i + 1));
    lemma_contract_fns_append(imps.take(i), seq![imps[i]]);
    lemma_contract_fns_one(imps[i]);
}

pub(crate) proof fn lemma_contract_fns_split_any(imps: Seq<ItemImpl>, i: int)
    requires
        0 <= i < imps.len(),
    ensures
        contractimpl_fns(imps) == contractimpl_fns(imps.take(i)) + contractimpl_fns(seq![imps[i]])
            + contractimpl_fns(imps.skip(i + 1)),
{
    assert(imps =~= imps.take(i) + seq![imps[i]] + imps.skip(i + 1));
    lemma_contract_fns_append(imps.take(i) + seq![imps[i]], imps.skip(i + 1));
    lemma_contract_fns_append(imps.take(i), seq![imps[i]]);
}

/// `c`, a `p.require_auth()` call on one of the address parameters of `f`,
/// validates `f`'s parameters.
proof fn lemma_auth_on_param_validates(f: ImplFn, c: MethodCall)
    requires
        c.method@ == "require_auth"@,
        (c.receiver matches Expr::Path { segments } && segments@.len() == 1
            && address_params(f.inputs@).contains(segments@[0]@)),
    ensures
        validating_call(address_params(f.inputs@), c),
{
    let params = address_params(f.inputs@);
    if let Expr::Path { segments } = c.receiver {
        let p = segments@[0]@;
        assert(string_views(segments@) =~= seq![p]);
        assert(expr_text(c.receiver) == p);
        assert(occurs_at(p, p, 0)) by {
            assert(p.subrange(0, p.len() as int) =~= p);
        }
        let k = choose|k: int| 0 <= k < params.len() && params[k] == p;
        assert(spec_contains(p, params[k]));
    }
}

/// Following the zero-address check's advice works, and touches nothing
/// else: inserting `p.require_auth();` at the start of the body of a
/// reported setter, for one of its address parameters `p`, removes exactly
/// that setter's finding and leaves every other finding, line included, as
/// it was.  `k` is the setter's place among the file's contract functions;
/// the findings are those of `unvalidated_setters`, in order.
pub proof fn law_require_auth_removes_exactly_that_finding(
    file1: SourceFile,
    file2: SourceFile,
    i: int,
    j: int,
    c: MethodCall,
)
    requires
        0 <= i < file1.impls@.len(),
        file2.impls@.len() == file1.impls@.len(),
        forall|n: int| 0 <= n < file1.impls@.len() && n != i ==> file2.impls@[n] == file1.impls@[n],
        file2.impls@[i].attrs@ == file1.impls@[i].attrs@,
        is_contractimpl(file1.impls@[i]),
        0 <= j < file1.impls@[i].fns@.len(),
        file2.impls@[i].fns@ == file1.impls@[i].fns@.update(j, file2.impls@[i].fns@[j]),
        is_unvalidated_setter(file1.impls@[i].fns@[j]),
        same_signature(file1.impls@[i].fns@[j], file2.impls@[i].fns@[j]),
        file2.impls@[i].fns@[j].line == file1.impls@[i].fns@[j].line,
        file2.impls@[i].fns@[j].block.method_calls@ == seq![c]
            + file1.impls@[i].fns@[j].block.method_calls@,
        file2.impls@[i].fns@[j].block.if_conditions@
            == file1.impls@[i].fns@[j].block.if_conditions@,
        file2.impls@[i].fns@[j].block.binaries@ == file1.impls@[i].fns@[j].block.binaries@,
        file2.impls@[i].fns@[j].block.macros@ == file1.impls@[i].fns@[j].block.macros@,
        c.method@ == "require_auth"@,
        (c.receiver matches Expr::Path { segments } && segments@.len() == 1
            && address_params(file1.impls@[i].fns@[j].inputs@).contains(segments@[0]@)),
    ensures
        ({
            let fns1 = contractimpl_fns(file1.impls@);
            let fns2 = contractimpl_fns(file2.impls@);
            let k = contractimpl_fns(file1.impls@.take(i)).len() + j;
            &&& 0 <= k < fns1.len()
            &&& fns1[k] == file1.impls@[i].fns@[j]
            &&& unvalidated_setters(fns1) == unvalidated_setters(fns1.take(k)).push(fns1[k])
                + unvalidated_setters(fns1.skip(k + 1))
            &&& unvalidated_setters(fns2) == unvalidated_setters(fns1.take(k))
                + unvalidated_setters(fns1.skip(k + 1))
        }),
{
    let imps1 = file1.impls@;
    let imps2 = file2.impls@;
    let f1 = imps1[i].fns@[j];
    let f2 = imps2[i].fns@[j];
    assert(imps2.take(i) =~= imps1.take(i));
    assert(imps2.skip(i + 1) =~= imps1.skip(i + 1));
    assert(is_contractimpl(imps2[i])) by {
        let q = choose|q: int| 0 <= q < imps1[i].attrs@.len() && #[trigger] is_contractimpl_attr(imps1[i].attrs@[q]);
        assert(is_contractimpl_attr(imps2[i].attrs@[q]));
    }
    lemma_contract_fns_split(imps1, i);
    lemma_contract_fns_split(imps2, i);
    let a = contractimpl_fns(imps1.take(i));
    let b = contractimpl_fns(imps1.skip(i + 1));
    let g1 = imps1[i].fns@;
    let fns1 = contractimpl_fns(imps1);
    let fns2 = contractimpl_fns(imps2);
    let k = a.len() + j;
    assert(fns1 == a + g1 + b);
    assert(fns2 == a + g1.update(j, f2) + b);
    assert(fns1[k] == f1);
    let left = fns1.take(k);
    let right = fns1.skip(k + 1);
    assert(fns1 =~= left + seq![f1] + right);
    assert(fns2 =~= left + seq![f2] + right);

    // f2 is validated by the inserted call.
    lemma_auth_on_param_validates(f1, c);
    assert(address_params(f2.inputs@) == address_params(f1.inputs@));
    assert(f2.block.method_calls@[0] == c);
    assert(validates(address_params(f2.inputs@), f2.block));
    assert(!is_unvalidated_setter(f2));

    lemma_setters_append(left + seq![f1], right);
    lemma_setters_append(left, seq![f1]);
    lemma_setters_append(left + seq![f2], right);
    lemma_setters_append(left, seq![f2]);
    assert(seq![f1].drop_last() =~= Seq::<ImplFn>::empty());
    assert(seq![f2].drop_last() =~= Seq::<ImplFn>::empty());
    assert(seq![f1].last() == f1);
    assert(seq![f2].last() == f2);
    assert(unvalidated_setters(seq![f1].drop_last()) == Seq::<ImplFn>::empty());
    assert(unvalidated_setters(seq![f2].drop_last()) == Seq::<ImplFn>::empty());
    assert(Seq::<ImplFn>::empty().push(f1) =~= seq![f1]);
    assert(unvalidated_setters(seq![f1]) =~= seq![f1]);
    assert(unvalidated_setters(seq![f2]) =~= Seq::<ImplFn>::empty());
    assert(unvalidated_setters(left) + seq![f1] =~= unvalidated_setters(left).push(f1));
    assert(unvalidated_setters(left) + Seq::<ImplFn>::empty() =~= unvalidated_setters(left));
}

} // verus!
