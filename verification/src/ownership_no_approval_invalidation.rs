//! Detects `transfer_ownership` functions that do not include a storage
//! operation to clear or invalidate existing allowances/approvals after the
//! transfer.
//!
//! When ownership changes, token approvals or operator permissions signed by
//! the old owner should be invalidated to prevent lingering authorization.
use vstd::prelude::*;

use crate::model::{Block, Expr, ImplFn, Lit, MethodCall, SourceFile};
use crate::text::{join, lowercase, spec_contains, spec_join, str_contains, str_eq, string_views, to_lowercase};
use crate::util::{contractimpl_fns, contractimpl_functions};
use crate::{finding_is, Check, Finding, Severity};

verus! {

const CHECK_NAME: &'static str = "ownership-no-approval-invalidation";

pub struct OwnershipNoApprovalInvalidationCheck;

/// Function names that perform an ownership transfer.
pub open spec fn is_transfer_name(n: Seq<char>) -> bool {
    ||| n == "transfer_ownership"@
    ||| n == "set_owner"@
    ||| n == "set_admin"@
    ||| n == "change_owner"@
    ||| n == "change_admin"@
}

/// A storage key's text: a path's segments joined by `::`, a string
/// literal's value, the input tokens of a key macro such as
/// `symbol_short!("owner")`, looking through references; empty for anything
/// else.
pub open spec fn key_text(e: Expr) -> Seq<char>
    decreases e,
{
    match e {
        Expr::Reference { expr } => key_text(*expr),
        Expr::Path { segments } => spec_join(string_views(segments@), "::"@),
        Expr::Lit { lit: Lit::Str(s) } => s@,
        Expr::Macro { path: _, tokens } => tokens@,
        _ => Seq::empty(),
    }
}

/// Lowercase text that mentions "admin", "owner" or "operator".
pub open spec fn mentions_owner(lower: Seq<char>) -> bool {
    spec_contains(lower, "admin"@) || spec_contains(lower, "owner"@) || spec_contains(lower, "operator"@)
}

/// The lowercased key mentions "admin", "owner" or "operator".
pub open spec fn spec_is_owner_key(t: Seq<char>) -> bool {
    mentions_owner(lowercase(t))
}

/// Lowercase text that mentions "allow", "approv", "permit" or "operator".
pub open spec fn mentions_approval(lower: Seq<char>) -> bool {
    spec_contains(lower, "allow"@) || spec_contains(lower, "approv"@) || spec_contains(lower, "permit"@) || spec_contains(lower, "operator"@)
}

/// The lowercased key mentions "allow", "approv", "permit" or "operator".
pub open spec fn spec_is_approval_key(t: Seq<char>) -> bool {
    mentions_approval(lowercase(t))
}

/// Along the chain of receivers and field bases, some call is to `method`.
pub open spec fn chain_contains(e: Expr, method: Seq<char>) -> bool
    decreases e,
{
    match e {
        Expr::MethodCall { receiver, method: m } => m@ == method || chain_contains(*receiver, method),
        Expr::Field { base } => chain_contains(*base, method),
        _ => false,
    }
}

/// The call is made on something reached through `.storage()`.
pub open spec fn spec_is_storage_call(c: MethodCall) -> bool {
    chain_contains(c.receiver, "storage"@)
}

/// A storage `set` whose key is an owner key.
pub open spec fn writes_owner_call(c: MethodCall) -> bool {
    &&& spec_is_storage_call(c)
    &&& c.args@.len() > 0
    &&& c.method@ == "set"@
    &&& spec_is_owner_key(key_text(c.args@[0]))
}

/// A storage `set` or `remove` whose key is an approval key.
pub open spec fn clears_approvals_call(c: MethodCall) -> bool {
    &&& spec_is_storage_call(c)
    &&& c.args@.len() > 0
    &&& (c.method@ == "set"@ || c.method@ == "remove"@)
    &&& spec_is_approval_key(key_text(c.args@[0]))
}

pub open spec fn block_writes_owner(b: Block) -> bool {
    exists|i: int| 0 <= i < b.method_calls@.len() && #[trigger] writes_owner_call(b.method_calls@[i])
}

pub open spec fn block_clears_approvals(b: Block) -> bool {
    exists|i: int|
        0 <= i < b.method_calls@.len() && #[trigger] clears_approvals_call(b.method_calls@[i])
}

/// A transfer function that writes the owner but clears no approval.
pub open spec fn is_uncleared_transfer(f: ImplFn) -> bool {
    is_transfer_name(f.name@) && block_writes_owner(f.block) && !block_clears_approvals(f.block)
}

/// The uncleared transfers among `fns`, in order.
pub open spec fn uncleared_transfers(fns: Seq<ImplFn>) -> Seq<ImplFn>
    decreases fns.len(),
{
    if fns.len() == 0 {
        Seq::empty()
    } else if is_uncleared_transfer(fns.last()) {
        uncleared_transfers(fns.drop_last()).push(fns.last())
    } else {
        uncleared_transfers(fns.drop_last())
    }
}

pub open spec fn approval_description(name: Seq<char>) -> Seq<char> {
    "`"@ + name
        + "` transfers ownership but does not clear existing allowances or approvals. Permissions granted by the old owner remain valid and can be exploited by the new owner or third parties."@
}

/// One finding per uncleared transfer among the contract functions `fns`,
/// in order.
pub open spec fn approval_findings_ok(fns: Seq<ImplFn>, out: Seq<Finding>) -> bool {
    let flagged = uncleared_transfers(fns);
    &&& out.len() == flagged.len()
    &&& forall|k: int|
        0 <= k < out.len() ==> finding_is(
            #[trigger] out[k],
            "ownership-no-approval-invalidation"@,
            Severity::Medium,
            flagged[k].line,
            flagged[k].name@,
            approval_description(flagged[k].name@),
        )
}

pub struct ApprovalScan {
    pub writes_owner: bool,
    pub clears_approvals: bool,
}

/// A storage key's text: see `key_text`.
pub fn key_expr_text(expr: &Expr) -> (r: String)
    ensures
        r@ == key_text(*expr),
    decreases expr,
{
    match expr {
        Expr::Reference { expr } => key_expr_text(expr),
        Expr::Path { segments } => join(segments, "::"),
        Expr::Lit { lit } => match lit {
            Lit::Str(s) => s.clone(),
            Lit::Other => String::new(),
        },
        Expr::Macro { path: _, tokens } => tokens.clone(),
        _ => String::new(),
    }
}

/// Whether the lowercased key contains "admin", "owner" or "operator".
pub fn is_owner_key(text: &str) -> (r: bool)
    ensures
        r == spec_is_owner_key(text@),
{
    let t = to_lowercase(text);
    lower_names_owner(t.as_str())
}

/// Whether already-lowercased text contains "admin", "owner" or "operator".
pub fn lower_names_owner(lower: &str) -> (r: bool)
    ensures
        r == mentions_owner(lower@),
{
    str_contains(lower, "admin") || str_contains(lower, "owner") || str_contains(lower, "operator")
}

/// Whether the lowercased key contains "allow", "approv", "permit" or "operator".
pub fn is_approval_key(text: &str) -> (r: bool)
    ensures
        r == spec_is_approval_key(text@),
{
    let t = to_lowercase(text);
    lower_names_approval(t.as_str())
}

/// Whether already-lowercased text contains "allow", "approv", "permit" or "operator".
pub fn lower_names_approval(lower: &str) -> (r: bool)
    ensures
        r == mentions_approval(lower@),
{
    str_contains(lower, "allow") || str_contains(lower, "approv") || str_contains(lower, "permit") || str_contains(lower, "operator")
}

/// Whether some call along the receiver chain is to `method`.
pub fn receiver_chain_contains(expr: &Expr, method: &str) -> (r: bool)
    ensures
        r == chain_contains(*expr, method@),
    decreases expr,
{
    match expr {
        Expr::MethodCall { receiver, method: m } => {
            if str_eq(m.as_str(), method) {
                return true;
            }
            receiver_chain_contains(receiver, method)
        },
        Expr::Field { base } => receiver_chain_contains(base, method),
        _ => false,
    }
}

pub fn is_storage_call(m: &MethodCall) -> (r: bool)
    ensures
        r == spec_is_storage_call(*m),
{
    receiver_chain_contains(&m.receiver, "storage")
}

impl ApprovalScan {
    pub fn new() -> (r: Self)
        ensures
            !r.writes_owner,
            !r.clears_approvals,
    {
        ApprovalScan { writes_owner: false, clears_approvals: false }
    }

    /// Records storage writes of owner keys and clears of approval keys.
    pub fn visit_expr_method_call(&mut self, i: &MethodCall)
        ensures
            final(self).writes_owner == (old(self).writes_owner || writes_owner_call(*i)),
            final(self).clears_approvals == (old(self).clears_approvals || clears_approvals_call(
                *i,
            )),
    {
        if is_storage_call(i) {
            if i.args.len() > 0 {
                let key_text = key_expr_text(&i.args[0]);
                if str_eq(i.method.as_str(), "set") {
                    if is_owner_key(key_text.as_str()) {
                        self.writes_owner = true;
                    }
                    if is_approval_key(key_text.as_str()) {
                        self.clears_approvals = true;
                    }
                } else if str_eq(i.method.as_str(), "remove") {
                    proof {
                        reveal_strlit("set");
                        reveal_strlit("remove");
                        assert(i.method@ != "set"@);
                    }
                    if is_approval_key(key_text.as_str()) {
                        self.clears_approvals = true;
                    }
                }
            }
        }
    }

    /// Visits every method call that the walk of the body met.
    pub fn visit_block(&mut self, b: &Block)
        ensures
            final(self).writes_owner == (old(self).writes_owner || block_writes_owner(*b)),
            final(self).clears_approvals == (old(self).clears_approvals || block_clears_approvals(
                *b,
            )),
    {
        let n = b.method_calls.len();
        let mut k: usize = 0;
        while k < n
            invariant
                n == b.method_calls@.len(),
                k <= n,
                self.writes_owner == (old(self).writes_owner || exists|j: int|
                    0 <= j < k && #[trigger] writes_owner_call(b.method_calls@[j])),
                self.clears_approvals == (old(self).clears_approvals || exists|j: int|
                    0 <= j < k && #[trigger] clears_approvals_call(b.method_calls@[j])),
            decreases n - k,
        {
            self.visit_expr_method_call(&b.method_calls[k]);
            k = k + 1;
        }
    }
}

fn is_transfer_fn_name(name: &str) -> (r: bool)
    ensures
        r == is_transfer_name(name@),
{
    str_eq(name, "transfer_ownership") || str_eq(name, "set_owner") || str_eq(name, "set_admin")
        || str_eq(name, "change_owner") || str_eq(name, "change_admin")
}

fn description_for(fn_name: &String) -> (r: String)
    ensures
        r@ == approval_description(fn_name@),
{
    let mut d = String::from_str("`");
    d.append(fn_name.as_str());
    d.append(
        "` transfers ownership but does not clear existing allowances or approvals. Permissions granted by the old owner remain valid and can be exploited by the new owner or third parties.",
    );
    d
}

impl Check for OwnershipNoApprovalInvalidationCheck {
    fn name(&self) -> (r: &str)
        ensures
            r@ == "ownership-no-approval-invalidation"@,
    {
        CHECK_NAME
    }

    fn run(&self, file: &SourceFile, _source: &str) -> (out: Vec<Finding>)
        ensures
            approval_findings_ok(contractimpl_fns(file.impls@), out@),
    {
        let mut out: Vec<Finding> = Vec::new();
        let fns = contractimpl_functions(file);
        let ghost all = contractimpl_fns(file.impls@);
        let n = fns.len();
        let mut i: usize = 0;
        while i < n
            invariant
                n == fns@.len(),
                i <= n,
                fns@.map_values(|f: &ImplFn| *f) == all,
                approval_findings_ok(all.take(i as int), out@),
            decreases n - i,
        {
            let method = fns[i];
            proof {
                assert(all[i as int] == *method);
                assert(all.take(i + 1).drop_last() =~= all.take(i as int));
                assert(all.take(i + 1).last() == all[i as int]);
            }
            if is_transfer_fn_name(method.name.as_str()) {
                let mut scan = ApprovalScan::new();
                scan.visit_block(&method.block);
                if scan.writes_owner && !scan.clears_approvals {
                    let ghost prev = out@;
                    let line = method.line;
                    out.push(
                        Finding {
                            check_name: String::from_str(CHECK_NAME),
                            severity: Severity::Medium,
                            file_path: String::new(),
                            line,
                            function_name: method.name.clone(),
                            description: description_for(&method.name),
                        },
                    );
                    proof {
                        let flagged = uncleared_transfers(all.take(i + 1));
                        assert(flagged == uncleared_transfers(all.take(i as int)).push(*method));
                        assert forall|k: int| 0 <= k < out@.len() implies finding_is(
                            #[trigger] out@[k],
                            "ownership-no-approval-invalidation"@,
                            Severity::Medium,
                            flagged[k].line,
                            flagged[k].name@,
                            approval_description(flagged[k].name@),
                        ) by {
                            if k < prev.len() {
                                assert(out@[k] == prev[k]);
                            }
                        }
                    }
                }
            }
            i = i + 1;
        }
        proof {
            assert(all.take(n as int) =~= all);
        }
        out
    }
}

} // verus!
