//! Detects `accept_ownership` functions that write a new admin/owner to storage
//! but do not `remove` or overwrite the pending-ownership storage key.
//!
//! In a two-step ownership transfer the pending key must be cleared after
//! `accept_ownership` succeeds; otherwise the same authorization can be replayed.
use vstd::prelude::*;

use crate::model::{Block, Expr, ImplFn, Lit, MethodCall, SourceFile};
use crate::text::{join, lowercase, spec_contains, spec_join, str_contains, str_eq, string_views, to_lowercase};
use crate::util::{contractimpl_fns, contractimpl_functions};
use crate::{finding_is, Check, Finding, Severity};

verus! {

const CHECK_NAME: &'static str = "ownership-pending-not-cleared";

pub struct OwnershipPendingNotClearedCheck;

/// Function names that complete a two-step ownership transfer.
pub open spec fn is_accept_name(n: Seq<char>) -> bool {
    ||| n == "accept_ownership"@
    ||| n == "accept_admin"@
    ||| n == "claim_ownership"@
    ||| n == "finalize_transfer"@
}

/// A storage key's text: a path's segments joined by `::`, a string
/// literal's value, the input tokens of a key macro such as
/// `symbol_short!("owner")`, looking through references; empty for anything
/// else.
pub open spec fn key_text(e: Expr) -> Seq<char>
    decreases e,
{
    match e {
        Expr::Reference { expr } => key_text(*expr),
        Expr::Path { segments } => spec_join(string_views(segments@), "::"@),
        Expr::Lit { lit: Lit::Str(s) } => s@,
        Expr::Macro { path: _, tokens } => tokens@,
        _ => Seq::empty(),
    }
}

/// Lowercase text that mentions "admin", "owner" or "operator".
pub open spec fn mentions_admin(lower: Seq<char>) -> bool {
    spec_contains(lower, "admin"@) || spec_contains(lower, "owner"@) || spec_contains(lower, "operator"@)
}

/// The lowercased key mentions "admin", "owner" or "operator".
pub open spec fn spec_is_admin_key(t: Seq<char>) -> bool {
    mentions_admin(lowercase(t))
}

/// Lowercase text that mentions "pending", "proposed" or "candidate".
pub open spec fn mentions_pending(lower: Seq<char>) -> bool {
    spec_contains(lower, "pending"@) || spec_contains(lower, "proposed"@) || spec_contains(lower, "candidate"@)
}

/// The lowercased key mentions "pending", "proposed" or "candidate".
pub open spec fn spec_is_pending_key(t: Seq<char>) -> bool {
    mentions_pending(lowercase(t))
}

/// Along the chain of receivers and field bases, some call is to `method`.
pub open spec fn chain_contains(e: Expr, method: Seq<char>) -> bool
    decreases e,
{
    match e {
        Expr::MethodCall { receiver, method: m } => m@ == method || chain_contains(*receiver, method),
        Expr::Field { base } => chain_contains(*base, method),
        _ => false,
    }
}

/// The call is made on something reached through `.storage()`.
pub open spec fn spec_is_storage_call(c: MethodCall) -> bool {
    chain_contains(c.receiver, "storage"@)
}

/// A storage `set` whose key is an admin/owner key.
pub open spec fn writes_admin_call(c: MethodCall) -> bool {
    &&& spec_is_storage_call(c)
    &&& c.args@.len() > 0
    &&& c.method@ == "set"@
    &&& spec_is_admin_key(key_text(c.args@[0]))
}

/// A storage `set` or `remove` whose key is a pending key.
pub open spec fn clears_pending_call(c: MethodCall) -> bool {
    &&& spec_is_storage_call(c)
    &&& c.args@.len() > 0
    &&& (c.method@ == "set"@ || c.method@ == "remove"@)
    &&& spec_is_pending_key(key_text(c.args@[0]))
}

pub open spec fn block_writes_admin(b: Block) -> bool {
    exists|i: int| 0 <= i < b.method_calls@.len() && #[trigger] writes_admin_call(b.method_calls@[i])
}

pub open spec fn block_clears_pending(b: Block) -> bool {
    exists|i: int|
        0 <= i < b.method_calls@.len() && #[trigger] clears_pending_call(b.method_calls@[i])
}

/// An accept function that writes the admin but leaves the pending key.
pub open spec fn is_uncleared_accept(f: ImplFn) -> bool {
    is_accept_name(f.name@) && block_writes_admin(f.block) && !block_clears_pending(f.block)
}

/// The uncleared accepts among `fns`, in order.
pub open spec fn uncleared_accepts(fns: Seq<ImplFn>) -> Seq<ImplFn>
    decreases fns.len(),
{
    if fns.len() == 0 {
        Seq::empty()
    } else if is_uncleared_accept(fns.last()) {
        uncleared_accepts(fns.drop_last()).push(fns.last())
    } else {
        uncleared_accepts(fns.drop_last())
    }
}

pub open spec fn pending_description(name: Seq<char>) -> Seq<char> {
    "`"@ + name
        + "` writes the new owner/admin to storage but does not `remove` or overwrite the pending-ownership key. The pending authorization can be replayed to transfer ownership again."@
}

/// One finding per uncleared accept among the contract functions `fns`,
/// in order.
pub open spec fn pending_findings_ok(fns: Seq<ImplFn>, out: Seq<Finding>) -> bool {
    let flagged = uncleared_accepts(fns);
    &&& out.len() == flagged.len()
    &&& forall|k: int|
        0 <= k < out.len() ==> finding_is(
            #[trigger] out[k],
            "ownership-pending-not-cleared"@,
            Severity::Low,
            flagged[k].line,
            flagged[k].name@,
            pending_description(flagged[k].name@),
        )
}

pub struct StorageScan {
    pub writes_admin: bool,
    pub clears_pending: bool,
}

/// A storage key's text: see `key_text`.
pub fn key_expr_text(expr: &Expr) -> (r: String)
    ensures
        r@ == key_text(*expr),
    decreases expr,
{
    match expr {
        Expr::Reference { expr } => key_expr_text(expr),
        Expr::Path { segments } => join(segments, "::"),
        Expr::Lit { lit } => match lit {
            Lit::Str(s) => s.clone(),
            Lit::Other => String::new(),
        },
        Expr::Macro { path: _, tokens } => tokens.clone(),
        _ => String::new(),
    }
}

/// Whether the lowercased key contains "admin", "owner" or "operator".
pub fn is_admin_key(text: &str) -> (r: bool)
    ensures
        r == spec_is_admin_key(text@),
{
    let t = to_lowercase(text);
    lower_names_admin(t.as_str())
}

/// Whether already-lowercased text contains "admin", "owner" or "operator".
pub fn lower_names_admin(lower: &str) -> (r: bool)
    ensures
        r == mentions_admin(lower@),
{
    str_contains(lower, "admin") || str_contains(lower, "owner") || str_contains(lower, "operator")
}

/// Whether the lowercased key contains "pending", "proposed" or "candidate".
pub fn is_pending_key(text: &str) -> (r: bool)
    ensures
        r == spec_is_pending_key(text@),
{
    let t = to_lowercase(text);
    lower_names_pending(t.as_str())
}

/// Whether already-lowercased text contains "pending", "proposed" or "candidate".
pub fn lower_names_pending(lower: &str) -> (r: bool)
    ensures
        r == mentions_pending(lower@),
{
    str_contains(lower, "pending") || str_contains(lower, "proposed") || str_contains(lower, "candidate")
}

/// Whether some call along the receiver chain is to `method`.
pub fn receiver_chain_contains(expr: &Expr, method: &str) -> (r: bool)
    ensures
        r == chain_contains(*expr, method@),
    decreases expr,
{
    match expr {
        Expr::MethodCall { receiver, method: m } => {
            if str_eq(m.as_str(), method) {
                return true;
            }
            receiver_chain_contains(receiver, method)
        },
        Expr::Field { base } => receiver_chain_contains(base, method),
        _ => false,
    }
}

pub fn is_storage_call(m: &MethodCall) -> (r: bool)
    ensures
        r == spec_is_storage_call(*m),
{
    receiver_chain_contains(&m.receiver, "storage")
}

impl StorageScan {
    pub fn new() -> (r: Self)
        ensures
            !r.writes_admin,
            !r.clears_pending,
    {
        StorageScan { writes_admin: false, clears_pending: false }
    }

    /// Records storage writes of admin keys and clears of pending keys.
    pub fn visit_expr_method_call(&mut self, i: &MethodCall)
        ensures
            final(self).writes_admin == (old(self).writes_admin || writes_admin_call(*i)),
            final(self).clears_pending == (old(self).clears_pending || clears_pending_call(
                *i,
            )),
    {
        if is_storage_call(i) {
            if i.args.len() > 0 {
                let key_text = key_expr_text(&i.args[0]);
                if str_eq(i.method.as_str(), "set") {
                    if is_admin_key(key_text.as_str()) {
                        self.writes_admin = true;
                    }
                    if is_pending_key(key_text.as_str()) {
                        self.clears_pending = true;
                    }
                } else if str_eq(i.method.as_str(), "remove") {
                    proof {
                        reveal_strlit("set");
                        reveal_strlit("remove");
                        assert(i.method@ != "set"@);
                    }
                    if is_pending_key(key_text.as_str()) {
                        self.clears_pending = true;
                    }
                }
            }
        }
    }

    /// Visits every method call that the walk of the body met.
    pub fn visit_block(&mut self, b: &Block)
        ensures
            final(self).writes_admin == (old(self).writes_admin || block_writes_admin(*b)),
            final(self).clears_pending == (old(self).clears_pending || block_clears_pending(
                *b,
            )),
    {
        let n = b.method_calls.len();
        let mut k: usize = 0;
        while k < n
            invariant
                n == b.method_calls@.len(),
                k <= n,
                self.writes_admin == (old(self).writes_admin || exists|j: int|
                    0 <= j < k && #[trigger] writes_admin_call(b.method_calls@[j])),
                self.clears_pending == (old(self).clears_pending || exists|j: int|
                    0 <= j < k && #[trigger] clears_pending_call(b.method_calls@[j])),
            decreases n - k,
        {
            self.visit_expr_method_call(&b.method_calls[k]);
            k = k + 1;
        }
    }
}

fn is_accept_fn_name(name: &str) -> (r: bool)
    ensures
        r == is_accept_name(name@),
{
    str_eq(name, "accept_ownership") || str_eq(name, "accept_admin") || str_eq(
        name,
        "claim_ownership",
    ) || str_eq(name, "finalize_transfer")
}

fn description_for(fn_name: &String) -> (r: String)
    ensures
        r@ == pending_description(fn_name@),
{
    let mut d = String::from_str("`");
    d.append(fn_name.as_str());
    d.append(
        "` writes the new owner/admin to storage but does not `remove` or overwrite the pending-ownership key. The pending authorization can be replayed to transfer ownership again.",
    );
    d
}

impl Check for OwnershipPendingNotClearedCheck {
    fn name(&self) -> (r: &str)
        ensures
            r@ == "ownership-pending-not-cleared"@,
    {
        CHECK_NAME
    }

    fn run(&self, file: &SourceFile, _source: &str) -> (out: Vec<Finding>)
        ensures
            pending_findings_ok(contractimpl_fns(file.impls@), out@),
    {
        let mut out: Vec<Finding> = Vec::new();
        let fns = contractimpl_functions(file);
        let ghost all = contractimpl_fns(file.impls@);
        let n = fns.len();
        let mut i: usize = 0;
        while i < n
            invariant
                n == fns@.len(),
                i <= n,
                fns@.map_values(|f: &ImplFn| *f) == all,
                pending_findings_ok(all.take(i as int), out@),
            decreases n - i,
        {
            let method = fns[i];
            proof {
                assert(all[i as int] == *method);
                assert(all.take(i + 1).drop_last() =~= all.take(i as int));
                assert(all.take(i + 1).last() == all[i as int]);
            }
            if is_accept_fn_name(method.name.as_str()) {
                let mut scan = StorageScan::new();
                scan.visit_block(&method.block);
                if scan.writes_admin && !scan.clears_pending {
                    let ghost prev = out@;
                    let line = method.line;
                    out.push(
                        Finding {
                            check_name: String::from_str(CHECK_NAME),
                            severity: Severity::Low,
                            file_path: String::new(),
                            line,
                            function_name: method.name.clone(),
                            description: description_for(&method.name),
                        },
                    );
                    proof {
                        let flagged = uncleared_accepts(all.take(i + 1));
                        assert(flagged == uncleared_accepts(all.take(i as int)).push(*method));
                        assert forall|k: int| 0 <= k < out@.len() implies finding_is(
                            #[trigger] out@[k],
                            "ownership-pending-not-cleared"@,
                            Severity::Low,
                            flagged[k].line,
                            flagged[k].name@,
                            pending_description(flagged[k].name@),
                        ) by {
                            if k < prev.len() {
                                assert(out@[k] == prev[k]);
                            }
                        }
                    }
                }
            }
            i = i + 1;
        }
        proof {
            assert(all.take(n as int) =~= all);
        }
        out
    }
}

} // verus!
