//! What each check reports, stated over literal method, macro and check
//! names, severities and thresholds, and how its selection of functions
//! behaves over the functions of a file.
use vstd::prelude::*;

use crate::admin_no_group_auth::{
    admin_auth_fns, has_admin_require_auth, is_admin_auth_call, no_group_findings_ok,
    receiver_text, spec_is_admin_name,
};
use crate::admin_zero_address::{
    address_params, expr_text, is_unvalidated_setter, mentions_param, type_text,
    unvalidated_setters, validates, validating_binary, validating_call, validating_macro,
    zero_address_findings_ok,
};
use crate::model::{Block, FnArg, ImplFn, MethodCall, Pat};
use crate::ownership_no_approval_invalidation as approval;
use crate::ownership_pending_not_cleared as pending;
use crate::text::{spec_contains, spec_ends_with};
use crate::Severity;

verus! {

/// The group-auth check counts exactly the functions whose body makes an admin auth call, public or not.
pub proof fn law_admin_auth_fns_members(fns: Seq<ImplFn>, f: ImplFn)
    ensures
        admin_auth_fns(fns).contains(f) <==> (fns.contains(f) && has_admin_require_auth(f.block)),
    decreases fns.len(),
{
    if fns.len() > 0 {
        law_admin_auth_fns_members(fns.drop_last(), f);
        assert(fns =~= fns.drop_last().push(fns.last()));
        if fns.contains(f) && f != fns.last() {
            let i = choose|i: int| 0 <= i < fns.len() && fns[i] == f;
            assert(fns.drop_last()[i] == f);
        }
        if admin_auth_fns(fns.drop_last()).contains(f) {
            let i = choose|i: int| 0 <= i < admin_auth_fns(fns.drop_last()).len() && admin_auth_fns(fns.drop_last())[i] == f;
            assert(admin_auth_fns(fns)[i] == f);
        }
        if fns.drop_last().contains(f) {
            let i = choose|i: int| 0 <= i < fns.drop_last().len() && fns.drop_last()[i] == f;
            assert(fns[i] == f);
        }
        if has_admin_require_auth(fns.last().block) {
            assert(admin_auth_fns(fns)[admin_auth_fns(fns).len() - 1] == fns.last());
        }
        assert(fns[fns.len() - 1] == fns.last());
    }
}

/// The selection keeps the order of the functions: selecting from two
/// stretches put end to end gives the two selections put end to end.
pub proof fn law_admin_auth_fns_append(a: Seq<ImplFn>, b: Seq<ImplFn>)
    ensures
        admin_auth_fns(a + b) == admin_auth_fns(a) + admin_auth_fns(b),
    decreases b.len(),
{
    if b.len() == 0 {
        assert(a + b =~= a);
        assert(admin_auth_fns(a) + admin_auth_fns(b) =~= admin_auth_fns(a));
    } else {
        law_admin_auth_fns_append(a, b.drop_last());
        assert((a + b).drop_last() =~= a + b.drop_last());
        assert((a + b).last() == b.last());
        if has_admin_require_auth(b.last().block) {
            assert(admin_auth_fns(a) + admin_auth_fns(b) =~= (admin_auth_fns(a) + admin_auth_fns(b.drop_last())).push(b.last()));
        }
    }
}

/// The zero-address check reports exactly the unvalidated setters among the functions.
pub proof fn law_unvalidated_setters_members(fns: Seq<ImplFn>, f: ImplFn)
    ensures
        unvalidated_setters(fns).contains(f) <==> (fns.contains(f) && is_unvalidated_setter(f)),
    decreases fns.len(),
{
    if fns.len() > 0 {
        law_unvalidated_setters_members(fns.drop_last(), f);
        assert(fns =~= fns.drop_last().push(fns.last()));
        if fns.contains(f) && f != fns.last() {
            let i = choose|i: int| 0 <= i < fns.len() && fns[i] == f;
            assert(fns.drop_last()[i] == f);
        }
        if unvalidated_setters(fns.drop_last()).contains(f) {
            let i = choose|i: int| 0 <= i < unvalidated_setters(fns.drop_last()).len() && unvalidated_setters(fns.drop_last())[i] == f;
            assert(unvalidated_setters(fns)[i] == f);
        }
        if fns.drop_last().contains(f) {
            let i = choose|i: int| 0 <= i < fns.drop_last().len() && fns.drop_last()[i] == f;
            assert(fns[i] == f);
        }
        if is_unvalidated_setter(fns.last()) {
            assert(unvalidated_setters(fns)[unvalidated_setters(fns).len() - 1] == fns.last());
        }
        assert(fns[fns.len() - 1] == fns.last());
    }
}

/// The selection keeps the order of the functions: selecting from two
/// stretches put end to end gives the two selections put end to end.
pub proof fn law_unvalidated_setters_append(a: Seq<ImplFn>, b: Seq<ImplFn>)
    ensures
        unvalidated_setters(a + b) == unvalidated_setters(a) + unvalidated_setters(b),
    decreases b.len(),
{
    if b.len() == 0 {
        assert(a + b =~= a);
        assert(unvalidated_setters(a) + unvalidated_setters(b) =~= unvalidated_setters(a));
    } else {
        law_unvalidated_setters_append(a, b.drop_last());
        assert((a + b).drop_last() =~= a + b.drop_last());
        assert((a + b).last() == b.last());
        if is_unvalidated_setter(b.last()) {
            assert(unvalidated_setters(a) + unvalidated_setters(b) =~= (unvalidated_setters(a) + unvalidated_setters(b.drop_last())).push(b.last()));
        }
    }
}

/// The approval check reports exactly the uncleared transfers among the functions.
pub proof fn law_uncleared_transfers_members(fns: Seq<ImplFn>, f: ImplFn)
    ensures
        approval::uncleared_transfers(fns).contains(f) <==> (fns.contains(f) && approval::is_uncleared_transfer(f)),
    decreases fns.len(),
{
    if fns.len() > 0 {
        law_uncleared_transfers_members(fns.drop_last(), f);
        assert(fns =~= fns.drop_last().push(fns.last()));
        if fns.contains(f) && f != fns.last() {
            let i = choose|i: int| 0 <= i < fns.len() && fns[i] == f;
            assert(fns.drop_last()[i] == f);
        }
        if approval::uncleared_transfers(fns.drop_last()).contains(f) {
            let i = choose|i: int| 0 <= i < approval::uncleared_transfers(fns.drop_last()).len() && approval::uncleared_transfers(fns.drop_last())[i] == f;
            assert(approval::uncleared_transfers(fns)[i] == f);
        }
        if fns.drop_last().contains(f) {
            let i = choose|i: int| 0 <= i < fns.drop_last().len() && fns.drop_last()[i] == f;
            assert(fns[i] == f);
        }
        if approval::is_uncleared_transfer(fns.last()) {
            assert(approval::uncleared_transfers(fns)[approval::uncleared_transfers(fns).len() - 1] == fns.last());
        }
        assert(fns[fns.len() - 1] == fns.last());
    }
}

/// The selection keeps the order of the functions: selecting from two
/// stretches put end to end gives the two selections put end to end.
pub proof fn law_uncleared_transfers_append(a: Seq<ImplFn>, b: Seq<ImplFn>)
    ensures
        approval::uncleared_transfers(a + b) == approval::uncleared_transfers(a) + approval::uncleared_transfers(b),
    decreases b.len(),
{
    if b.len() == 0 {
        assert(a + b =~= a);
        assert(approval::uncleared_transfers(a) + approval::uncleared_transfers(b) =~= approval::uncleared_transfers(a));
    } else {
        law_uncleared_transfers_append(a, b.drop_last());
        assert((a + b).drop_last() =~= a + b.drop_last());
        assert((a + b).last() == b.last());
        if approval::is_uncleared_transfer(b.last()) {
            assert(approval::uncleared_transfers(a) + approval::uncleared_transfers(b) =~= (approval::uncleared_transfers(a) + approval::uncleared_transfers(b.drop_last())).push(b.last()));
        }
    }
}

/// The pending check reports exactly the uncleared accepts among the functions.
pub proof fn law_uncleared_accepts_members(fns: Seq<ImplFn>, f: ImplFn)
    ensures
        pending::uncleared_accepts(fns).contains(f) <==> (fns.contains(f) && pending::is_uncleared_accept(f)),
    decreases fns.len(),
{
    if fns.len() > 0 {
        law_uncleared_accepts_members(fns.drop_last(), f);
        assert(fns =~= fns.drop_last().push(fns.last()));
        if fns.contains(f) && f != fns.last() {
            let i = choose|i: int| 0 <= i < fns.len() && fns[i] == f;
            assert(fns.drop_last()[i] == f);
        }
        if pending::uncleared_accepts(fns.drop_last()).contains(f) {
            let i = choose|i: int| 0 <= i < pending::uncleared_accepts(fns.drop_last()).len() && pending::uncleared_accepts(fns.drop_last())[i] == f;
            assert(pending::uncleared_accepts(fns)[i] == f);
        }
        if fns.drop_last().contains(f) {
            let i = choose|i: int| 0 <= i < fns.drop_last().len() && fns.drop_last()[i] == f;
            assert(fns[i] == f);
        }
        if pending::is_uncleared_accept(fns.last()) {
            assert(pending::uncleared_accepts(fns)[pending::uncleared_accepts(fns).len() - 1] == fns.last());
        }
        assert(fns[fns.len() - 1] == fns.last());
    }
}

/// The selection keeps the order of the functions: selecting from two
/// stretches put end to end gives the two selections put end to end.
pub proof fn law_uncleared_accepts_append(a: Seq<ImplFn>, b: Seq<ImplFn>)
    ensures
        pending::uncleared_accepts(a + b) == pending::uncleared_accepts(a) + pending::uncleared_accepts(b),
    decreases b.len(),
{
    if b.len() == 0 {
        assert(a + b =~= a);
        assert(pending::uncleared_accepts(a) + pending::uncleared_accepts(b) =~= pending::uncleared_accepts(a));
    } else {
        law_uncleared_accepts_append(a, b.drop_last());
        assert((a + b).drop_last() =~= a + b.drop_last());
        assert((a + b).last() == b.last());
        if pending::is_uncleared_accept(b.last()) {
            assert(pending::uncleared_accepts(a) + pending::uncleared_accepts(b) =~= (pending::uncleared_accepts(a) + pending::uncleared_accepts(b.drop_last())).push(b.last()));
        }
    }
}

/// The group-auth check reports at most once, and exactly when three or
/// more functions make an admin auth call: a Low finding named
/// "admin-no-group-auth", on the first of them, with an empty file path.
pub proof fn law_group_auth_findings(fns: Seq<ImplFn>, out: Seq<crate::Finding>)
    requires
        no_group_findings_ok(fns, out),
    ensures
        out.len() <= 1,
        out.len() == 1 <==> admin_auth_fns(fns).len() >= 3,
        out.len() == 1 ==> {
            &&& out[0].severity == Severity::Low
            &&& out[0].check_name@ == "admin-no-group-auth"@
            &&& out[0].function_name@ == admin_auth_fns(fns)[0].name@
            &&& out[0].line == admin_auth_fns(fns)[0].line
            &&& out[0].file_path@.len() == 0
        },
{
}

/// The zero-address check reports each unvalidated setter once, in order,
/// as a High finding named "admin-zero-address" with the setter's name and
/// line.
pub proof fn law_zero_address_findings(fns: Seq<ImplFn>, out: Seq<crate::Finding>, k: int)
    requires
        zero_address_findings_ok(fns, out),
        0 <= k < out.len(),
    ensures
        out.len() == unvalidated_setters(fns).len(),
        out[k].severity == Severity::High,
        out[k].check_name@ == "admin-zero-address"@,
        out[k].function_name@ == unvalidated_setters(fns)[k].name@,
        out[k].line == unvalidated_setters(fns)[k].line,
        out[k].file_path@.len() == 0,
{
}

/// The approval check reports each uncleared transfer once, in order, as a
/// Medium finding named "ownership-no-approval-invalidation".
pub proof fn law_approval_findings(fns: Seq<ImplFn>, out: Seq<crate::Finding>, k: int)
    requires
        approval::approval_findings_ok(fns, out),
        0 <= k < out.len(),
    ensures
        out.len() == approval::uncleared_transfers(fns).len(),
        out[k].severity == Severity::Medium,
        out[k].check_name@ == "ownership-no-approval-invalidation"@,
        out[k].function_name@ == approval::uncleared_transfers(fns)[k].name@,
        out[k].line == approval::uncleared_transfers(fns)[k].line,
        out[k].file_path@.len() == 0,
{
}

/// The pending check reports each uncleared accept once, in order, as a Low
/// finding named "ownership-pending-not-cleared".
pub proof fn law_pending_findings(fns: Seq<ImplFn>, out: Seq<crate::Finding>, k: int)
    requires
        pending::pending_findings_ok(fns, out),
        0 <= k < out.len(),
    ensures
        out.len() == pending::uncleared_accepts(fns).len(),
        out[k].severity == Severity::Low,
        out[k].check_name@ == "ownership-pending-not-cleared"@,
        out[k].function_name@ == pending::uncleared_accepts(fns)[k].name@,
        out[k].line == pending::uncleared_accepts(fns)[k].line,
        out[k].file_path@.len() == 0,
{
}

/// An admin auth call is a `require_auth` or `require_auth_for_args` call on
/// a receiver whose text is an admin name; no other method counts.
pub proof fn law_admin_auth_call_methods(c: MethodCall)
    ensures
        is_admin_auth_call(c) <==> ((c.method@ == "require_auth"@ || c.method@
            == "require_auth_for_args"@) && spec_is_admin_name(receiver_text(c.receiver))),
{
}

/// The zero-address check never reports a function that is not `pub`.
pub proof fn law_private_setters_not_reported(f: ImplFn)
    requires
        !f.is_pub,
    ensures
        !is_unvalidated_setter(f),
{
}

/// A setter is reported only when it has an address parameter: one bound
/// by a plain name whose type's text ends in `Address`.
pub proof fn law_setter_needs_address_param(f: ImplFn)
    requires
        is_unvalidated_setter(f),
    ensures
        exists|i: int|
            0 <= i < f.inputs@.len() && (#[trigger] f.inputs@[i] matches FnArg::Typed {
                pat: Pat::Ident(_),
                ty,
            } && spec_ends_with(type_text(ty), "Address"@)),
{
    lemma_address_params_from_inputs(f.inputs@);
}

proof fn lemma_address_params_from_inputs(inputs: Seq<FnArg>)
    ensures
        address_params(inputs).len() > 0 ==> exists|i: int|
            0 <= i < inputs.len() && (#[trigger] inputs[i] matches FnArg::Typed {
                pat: Pat::Ident(_),
                ty,
            } && spec_ends_with(type_text(ty), "Address"@)),
    decreases inputs.len(),
{
    if inputs.len() > 0 {
        lemma_address_params_from_inputs(inputs.drop_last());
        if address_params(inputs.drop_last()).len() > 0 {
            let i = choose|i: int|
                0 <= i < inputs.drop_last().len() && (#[trigger] inputs.drop_last()[i] matches FnArg::Typed {
                    pat: Pat::Ident(_),
                    ty,
                } && spec_ends_with(type_text(ty), "Address"@));
            assert(inputs[i] == inputs.drop_last()[i]);
        } else {
            assert(inputs[inputs.len() - 1] == inputs.last());
        }
    }
}

/// A type's text ends in `Address` exactly when it is some text followed by
/// `Address`.
pub proof fn law_ends_with_suffix(p: Seq<char>, w: Seq<char>)
    ensures
        spec_ends_with(p + w, w),
{
    assert((p + w).subrange(p.len() as int, (p + w).len() as int) =~= w);
}

/// The ways a setter's body validates its address parameters: a
/// `require_auth` or `require_auth_for_args` call whose receiver text holds
/// a parameter name, an `if` condition or a side of a binary operation
/// whose text holds one, or an `assert!`, `panic!` or `require!` whose
/// tokens hold one.  Each one alone validates, and nothing else does.
pub proof fn law_validation_forms(params: Seq<Seq<char>>, b: Block)
    ensures
        validates(params, b) <==> (
        (exists|i: int, k: int|
            0 <= i < b.method_calls@.len() && 0 <= k < params.len() && (
            #[trigger] b.method_calls@[i].method@ == "require_auth"@ || b.method_calls@[i].method@
                == "require_auth_for_args"@) && spec_contains(
                expr_text(b.method_calls@[i].receiver),
                #[trigger] params[k],
            )) || (exists|i: int, k: int|
            0 <= i < b.if_conditions@.len() && 0 <= k < params.len() && spec_contains(
                expr_text(#[trigger] b.if_conditions@[i]),
                #[trigger] params[k],
            )) || (exists|i: int, k: int|
            0 <= i < b.binaries@.len() && 0 <= k < params.len() && (spec_contains(
                expr_text(#[trigger] b.binaries@[i].left),
                #[trigger] params[k],
            ) || spec_contains(expr_text(b.binaries@[i].right), params[k]))) || (exists|
            i: int,
            k: int,
        |
            0 <= i < b.macros@.len() && 0 <= k < params.len() && #[trigger] b.macros@[i].path@.len()
                > 0 && (b.macros@[i].path@.last()@ == "assert"@ || b.macros@[i].path@.last()@
                == "panic"@ || b.macros@[i].path@.last()@ == "require"@) && spec_contains(
                b.macros@[i].tokens@,
                #[trigger] params[k],
            ))),
{
    let calls = b.method_calls@;
    let ifs = b.if_conditions@;
    let bins = b.binaries@;
    let macs = b.macros@;
    if exists|i: int| 0 <= i < calls.len() && #[trigger] validating_call(params, calls[i]) {
        let i = choose|i: int| 0 <= i < calls.len() && #[trigger] validating_call(params, calls[i]);
        let k = choose|k: int|
            0 <= k < params.len() && spec_contains(expr_text(calls[i].receiver), #[trigger] params[k]);
        assert(calls[i].method@ == "require_auth"@ || calls[i].method@ == "require_auth_for_args"@);
        assert(spec_contains(expr_text(b.method_calls@[i].receiver), params[k]));
    }
    if exists|i: int, k: int|
        0 <= i < calls.len() && 0 <= k < params.len() && (#[trigger] calls[i].method@
            == "require_auth"@ || calls[i].method@ == "require_auth_for_args"@) && spec_contains(
            expr_text(calls[i].receiver),
            #[trigger] params[k],
        ) {
        let (i, k) = choose|i: int, k: int|
            0 <= i < calls.len() && 0 <= k < params.len() && (#[trigger] calls[i].method@
                == "require_auth"@ || calls[i].method@ == "require_auth_for_args"@) && spec_contains(
                expr_text(calls[i].receiver),
                #[trigger] params[k],
            );
        assert(mentions_param(params, expr_text(calls[i].receiver)));
        assert(validating_call(params, calls[i]));
    }
    if exists|i: int| 0 <= i < ifs.len() && mentions_param(params, #[trigger] expr_text(ifs[i])) {
        let i = choose|i: int| 0 <= i < ifs.len() && mentions_param(params, #[trigger] expr_text(ifs[i]));
        let k = choose|k: int| 0 <= k < params.len() && spec_contains(expr_text(ifs[i]), #[trigger] params[k]);
        assert(spec_contains(expr_text(b.if_conditions@[i]), params[k]));
    }
    if exists|i: int, k: int|
        0 <= i < ifs.len() && 0 <= k < params.len() && spec_contains(
            expr_text(#[trigger] ifs[i]),
            #[trigger] params[k],
        ) {
        let (i, k) = choose|i: int, k: int|
            0 <= i < ifs.len() && 0 <= k < params.len() && spec_contains(
                expr_text(#[trigger] ifs[i]),
                #[trigger] params[k],
            );
        assert(mentions_param(params, expr_text(ifs[i])));
    }
    if exists|i: int| 0 <= i < bins.len() && #[trigger] validating_binary(params, bins[i]) {
        let i = choose|i: int| 0 <= i < bins.len() && #[trigger] validating_binary(params, bins[i]);
        if mentions_param(params, expr_text(bins[i].left)) {
            let k = choose|k: int|
                0 <= k < params.len() && spec_contains(expr_text(bins[i].left), #[trigger] params[k]);
            assert(spec_contains(expr_text(b.binaries@[i].left), params[k]));
        } else {
            let k = choose|k: int|
                0 <= k < params.len() && spec_contains(expr_text(bins[i].right), #[trigger] params[k]);
            assert(spec_contains(expr_text(b.binaries@[i].right), params[k]));
        }
    }
    if exists|i: int, k: int|
        0 <= i < bins.len() && 0 <= k < params.len() && (spec_contains(
            expr_text(#[trigger] bins[i].left),
            #[trigger] params[k],
        ) || spec_contains(expr_text(bins[i].right), params[k])) {
        let (i, k) = choose|i: int, k: int|
            0 <= i < bins.len() && 0 <= k < params.len() && (spec_contains(
                expr_text(#[trigger] bins[i].left),
                #[trigger] params[k],
            ) || spec_contains(expr_text(bins[i].right), params[k]));
        assert(validating_binary(params, bins[i]));
    }
    if exists|i: int| 0 <= i < macs.len() && #[trigger] validating_macro(params, macs[i]) {
        let i = choose|i: int| 0 <= i < macs.len() && #[trigger] validating_macro(params, macs[i]);
        let k = choose|k: int| 0 <= k < params.len() && spec_contains(macs[i].tokens@, #[trigger] params[k]);
        if macs[i].path@.len() == 0 {
            reveal_strlit("assert");
            reveal_strlit("panic");
            reveal_strlit("require");
            assert(crate::admin_zero_address::macro_name(macs[i]) == Seq::<char>::empty());
            assert("assert"@.len() > 0);
            assert("panic"@.len() > 0);
            assert("require"@.len() > 0);
        }
        assert(macs[i].path@.len() > 0);
        assert(spec_contains(b.macros@[i].tokens@, params[k]));
    }
    if exists|i: int, k: int|
        0 <= i < macs.len() && 0 <= k < params.len() && #[trigger] macs[i].path@.len() > 0 && (
        macs[i].path@.last()@ == "assert"@ || macs[i].path@.last()@ == "panic"@
            || macs[i].path@.last()@ == "require"@) && spec_contains(
            macs[i].tokens@,
            #[trigger] params[k],
        ) {
        let (i, k) = choose|i: int, k: int|
            0 <= i < macs.len() && 0 <= k < params.len() && #[trigger] macs[i].path@.len() > 0 && (
            macs[i].path@.last()@ == "assert"@ || macs[i].path@.last()@ == "panic"@
                || macs[i].path@.last()@ == "require"@) && spec_contains(
                macs[i].tokens@,
                #[trigger] params[k],
            );
        assert(mentions_param(params, macs[i].tokens@));
        assert(validating_macro(params, macs[i]));
    }
}

/// A storage write of an owner key is a `set` call reached through
/// `.storage()`, with the owner key as its first argument; a clear of an
/// approval key is a `set` or `remove` call reached the same way with the
/// approval key first.  No other method counts.
pub proof fn law_approval_storage_ops(c: MethodCall)
    ensures
        approval::writes_owner_call(c) <==> (approval::chain_contains(c.receiver, "storage"@)
            && c.args@.len() > 0 && c.method@ == "set"@ && approval::spec_is_owner_key(
            approval::key_text(c.args@[0]),
        )),
        approval::clears_approvals_call(c) <==> (approval::chain_contains(c.receiver, "storage"@)
            && c.args@.len() > 0 && (c.method@ == "set"@ || c.method@ == "remove"@)
            && approval::spec_is_approval_key(approval::key_text(c.args@[0]))),
{
}

/// A storage write of an admin key is a `set` call reached through
/// `.storage()`, with the admin key as its first argument; a clear of a
/// pending key is a `set` or `remove` call reached the same way with the
/// pending key first.  No other method counts.
pub proof fn law_pending_storage_ops(c: MethodCall)
    ensures
        pending::writes_admin_call(c) <==> (pending::chain_contains(c.receiver, "storage"@)
            && c.args@.len() > 0 && c.method@ == "set"@ && pending::spec_is_admin_key(
            pending::key_text(c.args@[0]),
        )),
        pending::clears_pending_call(c) <==> (pending::chain_contains(c.receiver, "storage"@)
            && c.args@.len() > 0 && (c.method@ == "set"@ || c.method@ == "remove"@)
            && pending::spec_is_pending_key(pending::key_text(c.args@[0]))),
{
}

} // verus!
