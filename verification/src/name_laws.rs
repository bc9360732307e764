//! What each check's name and text tests accept, stated over the literal
//! names and words themselves.
use vstd::prelude::*;

use crate::admin_no_group_auth::{mentions_admin_or_owner, spec_is_admin_name};
use crate::admin_zero_address::{
    address_params, is_address_param, is_unvalidated_setter, type_text, validates,
};
use crate::laws::{lemma_contract_fns_one, lemma_contract_fns_split_any};
use crate::model::{Block, FnArg, ImplFn, ItemImpl, Pat, Type};
use crate::ownership_no_approval_invalidation::{
    block_clears_approvals, block_writes_owner, is_uncleared_transfer, mentions_approval,
    mentions_owner, spec_is_approval_key, spec_is_owner_key,
};
use crate::ownership_pending_not_cleared::{
    block_clears_pending, block_writes_admin, is_uncleared_accept, mentions_admin,
    mentions_pending, spec_is_admin_key, spec_is_pending_key,
};
use crate::text::{lowercase, occurs_at, spec_contains, spec_ends_with, spec_join, string_views};
use crate::util::contractimpl_fns;

verus! {

/// The walk of the body meets nothing.
pub open spec fn empty_block(b: Block) -> bool {
    &&& b.method_calls@.len() == 0
    &&& b.if_conditions@.len() == 0
    &&& b.binaries@.len() == 0
    &&& b.macros@.len() == 0
}

// ---- substring occurrence ----

/// Text contains `w` wherever `w` stands in it.
pub proof fn law_contains_anywhere(p: Seq<char>, w: Seq<char>, q: Seq<char>)
    ensures
        spec_contains(p + w + q, w),
{
    let l = p + w + q;
    assert(l.subrange(p.len() as int, (p.len() + w.len()) as int) =~= w);
    assert(occurs_at(l, w, p.len() as int));
}

/// Text that contains `w` is some text, then `w`, then some text.
pub proof fn law_contains_splits(l: Seq<char>, w: Seq<char>) -> (pq: (Seq<char>, Seq<char>))
    requires
        spec_contains(l, w),
    ensures
        l == pq.0 + w + pq.1,
{
    let i = choose|i: int| #[trigger] occurs_at(l, w, i);
    let p = l.take(i);
    let q = l.skip(i + w.len());
    assert(l =~= p + w + q);
    (p, q)
}

// ---- the group-auth check's admin names ----

/// Lowercase text names an admin exactly when "admin" or "owner" stands
/// anywhere in it.
pub proof fn law_admin_words_anywhere(l: Seq<char>, p: Seq<char>, q: Seq<char>)
    ensures
        l == p + "admin"@ + q ==> mentions_admin_or_owner(l),
        l == p + "owner"@ + q ==> mentions_admin_or_owner(l),
        !spec_contains(l, "admin"@) && !spec_contains(l, "owner"@) ==> !mentions_admin_or_owner(l),
{
    law_contains_anywhere(p, "admin"@, q);
    law_contains_anywhere(p, "owner"@, q);
}

/// A name is an admin name exactly when its lowercase form holds "admin" or
/// "owner" anywhere.
pub proof fn law_admin_name_anywhere(s: Seq<char>, p: Seq<char>, q: Seq<char>)
    ensures
        lowercase(s) == p + "admin"@ + q ==> spec_is_admin_name(s),
        lowercase(s) == p + "owner"@ + q ==> spec_is_admin_name(s),
        !spec_contains(lowercase(s), "admin"@) && !spec_contains(lowercase(s), "owner"@)
            ==> !spec_is_admin_name(s),
{
    law_admin_words_anywhere(lowercase(s), p, q);
}

/// Every admin name's lowercase form is some text, then "admin" or "owner",
/// then some text.
pub proof fn law_admin_name_has_word(s: Seq<char>) -> (pq: (Seq<char>, Seq<char>))
    requires
        spec_is_admin_name(s),
    ensures
        lowercase(s) == pq.0 + "admin"@ + pq.1 || lowercase(s) == pq.0 + "owner"@ + pq.1,
{
    if spec_contains(lowercase(s), "admin"@) {
        law_contains_splits(lowercase(s), "admin"@)
    } else {
        law_contains_splits(lowercase(s), "owner"@)
    }
}

// ---- the ownership checks' key words ----

/// A key is an owner key (approval check) exactly when its lowercase form
/// holds "admin", "owner" or "operator" anywhere.
pub proof fn law_owner_key_anywhere(t: Seq<char>, p: Seq<char>, q: Seq<char>)
    ensures
        lowercase(t) == p + "admin"@ + q ==> spec_is_owner_key(t),
        lowercase(t) == p + "owner"@ + q ==> spec_is_owner_key(t),
        lowercase(t) == p + "operator"@ + q ==> spec_is_owner_key(t),
        !spec_contains(lowercase(t), "admin"@) && !spec_contains(lowercase(t), "owner"@)
            && !spec_contains(lowercase(t), "operator"@) ==> !spec_is_owner_key(t),
        mentions_owner(lowercase(t)) == spec_is_owner_key(t),
{
    law_contains_anywhere(p, "admin"@, q);
    law_contains_anywhere(p, "owner"@, q);
    law_contains_anywhere(p, "operator"@, q);
}

/// A key is an approval key exactly when its lowercase form holds "allow",
/// "approv", "permit" or "operator" anywhere.
pub proof fn law_approval_key_anywhere(t: Seq<char>, p: Seq<char>, q: Seq<char>)
    ensures
        lowercase(t) == p + "allow"@ + q ==> spec_is_approval_key(t),
        lowercase(t) == p + "approv"@ + q ==> spec_is_approval_key(t),
        lowercase(t) == p + "permit"@ + q ==> spec_is_approval_key(t),
        lowercase(t) == p + "operator"@ + q ==> spec_is_approval_key(t),
        !spec_contains(lowercase(t), "allow"@) && !spec_contains(lowercase(t), "approv"@)
            && !spec_contains(lowercase(t), "permit"@) && !spec_contains(lowercase(t), "operator"@)
            ==> !spec_is_approval_key(t),
        mentions_approval(lowercase(t)) == spec_is_approval_key(t),
{
    law_contains_anywhere(p, "allow"@, q);
    law_contains_anywhere(p, "approv"@, q);
    law_contains_anywhere(p, "permit"@, q);
    law_contains_anywhere(p, "operator"@, q);
}

/// A key is an admin key (pending check) exactly when its lowercase form
/// holds "admin", "owner" or "operator" anywhere.
pub proof fn law_admin_key_anywhere(t: Seq<char>, p: Seq<char>, q: Seq<char>)
    ensures
        lowercase(t) == p + "admin"@ + q ==> spec_is_admin_key(t),
        lowercase(t) == p + "owner"@ + q ==> spec_is_admin_key(t),
        lowercase(t) == p + "operator"@ + q ==> spec_is_admin_key(t),
        !spec_contains(lowercase(t), "admin"@) && !spec_contains(lowercase(t), "owner"@)
            && !spec_contains(lowercase(t), "operator"@) ==> !spec_is_admin_key(t),
        mentions_admin(lowercase(t)) == spec_is_admin_key(t),
{
    law_contains_anywhere(p, "admin"@, q);
    law_contains_anywhere(p, "owner"@, q);
    law_contains_anywhere(p, "operator"@, q);
}

/// A key is a pending key exactly when its lowercase form holds "pending",
/// "proposed" or "candidate" anywhere.
pub proof fn law_pending_key_anywhere(t: Seq<char>, p: Seq<char>, q: Seq<char>)
    ensures
        lowercase(t) == p + "pending"@ + q ==> spec_is_pending_key(t),
        lowercase(t) == p + "proposed"@ + q ==> spec_is_pending_key(t),
        lowercase(t) == p + "candidate"@ + q ==> spec_is_pending_key(t),
        !spec_contains(lowercase(t), "pending"@) && !spec_contains(lowercase(t), "proposed"@)
            && !spec_contains(lowercase(t), "candidate"@) ==> !spec_is_pending_key(t),
        mentions_pending(lowercase(t)) == spec_is_pending_key(t),
{
    law_contains_anywhere(p, "pending"@, q);
    law_contains_anywhere(p, "proposed"@, q);
    law_contains_anywhere(p, "candidate"@, q);
}

// ---- the function names each check inspects ----

/// The zero-address check inspects exactly the seven admin-setter names: a
/// public function whose one parameter is a plain binding of type `Address`
/// and whose body is empty is reported exactly when its name is one of them.
pub proof fn law_admin_setter_names(f: ImplFn)
    requires
        f.is_pub,
        f.inputs@.len() == 1,
        (f.inputs@[0] matches FnArg::Typed { pat: Pat::Ident(_), ty: Type::Path { segments } }
            && segments@.len() == 1 && segments@[0]@ == "Address"@),
        empty_block(f.block),
    ensures
        is_unvalidated_setter(f) <==> (f.name@ == "set_admin"@ || f.name@ == "set_owner"@
            || f.name@ == "transfer_ownership"@ || f.name@ == "update_admin"@ || f.name@
            == "change_admin"@ || f.name@ == "change_owner"@ || f.name@ == "set_manager"@),
{
    let a = f.inputs@[0];
    if let FnArg::Typed { pat, ty } = a {
        if let Type::Path { segments } = ty {
            assert(string_views(segments@) =~= seq!["Address"@]);
            assert(spec_join(string_views(segments@), "::"@) == "Address"@);
            assert("Address"@.subrange(0, "Address"@.len() as int) =~= "Address"@);
            assert(spec_ends_with("Address"@, "Address"@));
            assert(type_text(ty) == "Address"@);
        }
        assert(is_address_param(a));
    }
    assert(f.inputs@.drop_last() =~= Seq::<FnArg>::empty());
    assert(f.inputs@.last() == a);
    assert(address_params(f.inputs@.drop_last()) == Seq::<Seq<char>>::empty());
    let params = address_params(f.inputs@);
    assert(params.len() == 1);
    assert(!validates(params, f.block));
}

/// Any plainly bound parameter whose type's text ends in `Address`, after
/// any prefix such as `soroban_sdk::` or a leading `&`, makes a public setter
/// with an empty body reported.
pub proof fn law_address_suffix_param(f: ImplFn, p: Seq<char>)
    requires
        f.is_pub,
        f.name@ == "set_admin"@,
        f.inputs@.len() == 1,
        (f.inputs@[0] matches FnArg::Typed { pat: Pat::Ident(_), ty } && type_text(ty) == p
            + "Address"@),
        empty_block(f.block),
    ensures
        is_unvalidated_setter(f),
{
    let a = f.inputs@[0];
    assert((p + "Address"@).subrange(p.len() as int, (p + "Address"@).len() as int) =~= "Address"@);
    assert(is_address_param(a));
    assert(f.inputs@.drop_last() =~= Seq::<FnArg>::empty());
    assert(f.inputs@.last() == a);
    assert(address_params(f.inputs@.drop_last()) == Seq::<Seq<char>>::empty());
    let params = address_params(f.inputs@);
    assert(params.len() == 1);
    assert(!validates(params, f.block));
}

/// The approval check inspects exactly the five transfer names: a function
/// that writes an owner key to storage and clears no approval key is
/// reported exactly when its name is one of them.
pub proof fn law_transfer_names(f: ImplFn)
    requires
        block_writes_owner(f.block),
        !block_clears_approvals(f.block),
    ensures
        is_uncleared_transfer(f) <==> (f.name@ == "transfer_ownership"@ || f.name@ == "set_owner"@
            || f.name@ == "set_admin"@ || f.name@ == "change_owner"@ || f.name@
            == "change_admin"@),
{
}

/// The pending check inspects exactly the four accept names: a function
/// that writes an admin key to storage and never sets or removes a pending
/// key is reported exactly when its name is one of them.
pub proof fn law_accept_names(f: ImplFn)
    requires
        block_writes_admin(f.block),
        !block_clears_pending(f.block),
    ensures
        is_uncleared_accept(f) <==> (f.name@ == "accept_ownership"@ || f.name@ == "accept_admin"@
            || f.name@ == "claim_ownership"@ || f.name@ == "finalize_transfer"@),
{
}

// ---- which impl blocks count ----

/// An `impl` block whose attributes include, at any position, one whose
/// path ends in `contractimpl` contributes all its functions, in order, at
/// its place among the file's contract functions.
pub proof fn law_contractimpl_attribute_anywhere(imps: Seq<ItemImpl>, i: int, k: int)
    requires
        0 <= i < imps.len(),
        0 <= k < imps[i].attrs@.len(),
        imps[i].attrs@[k].path@.len() > 0,
        imps[i].attrs@[k].path@.last()@ == "contractimpl"@,
    ensures
        contractimpl_fns(imps) == contractimpl_fns(imps.take(i)) + imps[i].fns@ + contractimpl_fns(
            imps.skip(i + 1),
        ),
{
    lemma_contract_fns_split_any(imps, i);
    lemma_contract_fns_one(imps[i]);
    assert(crate::util::is_contractimpl_attr(imps[i].attrs@[k]));
}

/// An `impl` block none of whose attributes has a path ending in
/// `contractimpl` contributes no function.
pub proof fn law_no_contractimpl_attribute(imps: Seq<ItemImpl>, i: int)
    requires
        0 <= i < imps.len(),
        forall|k: int|
            0 <= k < imps[i].attrs@.len() ==> !(imps[i].attrs@[k].path@.len() > 0
                && #[trigger] imps[i].attrs@[k].path@.last()@ == "contractimpl"@),
    ensures
        contractimpl_fns(imps) == contractimpl_fns(imps.take(i)) + contractimpl_fns(
            imps.skip(i + 1),
        ),
{
    lemma_contract_fns_split_any(imps, i);
    lemma_contract_fns_one(imps[i]);
    assert(contractimpl_fns(imps.take(i)) + Seq::<crate::model::ImplFn>::empty() =~= contractimpl_fns(
        imps.take(i),
    ));
}

} // verus!
