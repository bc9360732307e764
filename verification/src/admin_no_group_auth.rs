//! Detects contracts where more than 2 distinct `#[contractimpl]` functions each
//! independently call `require_auth` on a value read from the same admin storage
//! key, instead of using a shared helper.  Duplicated auth logic is error-prone:
//! a future change to the auth pattern must be replicated everywhere.
use vstd::prelude::*;

use crate::model::{Block, Expr, ImplFn, MethodCall, SourceFile};
use crate::text::{
    decimal, decimal_string, join, lowercase, spec_contains, spec_join, str_contains, str_eq,
    string_views, to_lowercase,
};
use crate::util::{contractimpl_fns, contractimpl_functions};
use crate::{finding_is, Check, Finding, Severity};

verus! {

const CHECK_NAME: &'static str = "admin-no-group-auth";

/// Heuristic: a local variable whose name contains "admin" or "owner" and on
/// which `.require_auth()` is called is considered an "admin auth call".
pub struct AdminNoGroupAuthCheck;

/// The method is `require_auth` or `require_auth_for_args`.
pub open spec fn is_auth_method(m: Seq<char>) -> bool {
    m == "require_auth"@ || m == "require_auth_for_args"@
}

/// The text of the receiver of a call: a path's segments joined by `::`,
/// looking through method calls and references; empty for anything else.
pub open spec fn receiver_text(e: Expr) -> Seq<char>
    decreases e,
{
    match e {
        Expr::Path { segments } => spec_join(string_views(segments@), "::"@),
        Expr::MethodCall { receiver, method: _ } => receiver_text(*receiver),
        Expr::Reference { expr } => receiver_text(*expr),
        _ => Seq::empty(),
    }
}

/// Lowercase text that mentions admin or owner.
pub open spec fn mentions_admin_or_owner(lower: Seq<char>) -> bool {
    spec_contains(lower, "admin"@) || spec_contains(lower, "owner"@)
}

/// The lowercased name mentions admin or owner.
pub open spec fn spec_is_admin_name(s: Seq<char>) -> bool {
    mentions_admin_or_owner(lowercase(s))
}

/// The call is `require_auth(_for_args)` on an admin/owner value.
pub open spec fn is_admin_auth_call(c: MethodCall) -> bool {
    is_auth_method(c.method@) && spec_is_admin_name(receiver_text(c.receiver))
}

/// Some method call of the body is an admin auth call.
pub open spec fn has_admin_require_auth(b: Block) -> bool {
    exists|i: int| 0 <= i < b.method_calls@.len() && #[trigger] is_admin_auth_call(b.method_calls@[i])
}

/// The functions among `fns` whose body makes an admin auth call, in order.
pub open spec fn admin_auth_fns(fns: Seq<ImplFn>) -> Seq<ImplFn>
    decreases fns.len(),
{
    if fns.len() == 0 {
        Seq::empty()
    } else if has_admin_require_auth(fns.last().block) {
        admin_auth_fns(fns.drop_last()).push(fns.last())
    } else {
        admin_auth_fns(fns.drop_last())
    }
}

/// The names of the functions.
pub open spec fn fn_names(fns: Seq<ImplFn>) -> Seq<Seq<char>> {
    fns.map_values(|f: ImplFn| f.name@)
}

/// The description of the finding on the functions `fns`.
pub open spec fn no_group_description(fns: Seq<ImplFn>) -> Seq<char> {
    decimal(fns.len()) + " functions ("@ + spec_join(fn_names(fns), ", "@)
        + ") each independently call `require_auth` on an admin/owner value. Extract a shared `assert_admin(env)` helper to avoid duplicated auth logic that must be kept in sync."@
}

/// What the check reports on the contract functions `fns`: one finding, on
/// the first function with an admin auth call, when more than two have one.
pub open spec fn no_group_findings_ok(fns: Seq<ImplFn>, out: Seq<Finding>) -> bool {
    let flagged = admin_auth_fns(fns);
    if flagged.len() > 2 {
        &&& out.len() == 1
        &&& finding_is(
            out[0],
            "admin-no-group-auth"@,
            Severity::Low,
            flagged[0].line,
            flagged[0].name@,
            no_group_description(flagged),
        )
    } else {
        out.len() == 0
    }
}

pub struct AdminAuthScan {
    pub has_admin_require_auth: bool,
}

impl AdminAuthScan {
    pub fn new() -> (r: Self)
        ensures
            !r.has_admin_require_auth,
    {
        AdminAuthScan { has_admin_require_auth: false }
    }

    /// Marks the scan when the call is `require_auth` on an admin value.
    pub fn visit_expr_method_call(&mut self, i: &MethodCall)
        ensures
            final(self).has_admin_require_auth == (old(self).has_admin_require_auth
                || is_admin_auth_call(*i)),
    {
        if str_eq(i.method.as_str(), "require_auth") || str_eq(
            i.method.as_str(),
            "require_auth_for_args",
        ) {
            let receiver_text = receiver_to_string(&i.receiver);
            if is_admin_name(receiver_text.as_str()) {
                self.has_admin_require_auth = true;
            }
        }
    }

    /// Visits every method call that the walk of the body met.
    pub fn visit_block(&mut self, b: &Block)
        ensures
            final(self).has_admin_require_auth == (old(self).has_admin_require_auth
                || has_admin_require_auth(*b)),
    {
        let n = b.method_calls.len();
        let mut k: usize = 0;
        while k < n
            invariant
                n == b.method_calls@.len(),
                k <= n,
                self.has_admin_require_auth == (old(self).has_admin_require_auth || exists|
                    j: int,
                | 0 <= j < k && #[trigger] is_admin_auth_call(b.method_calls@[j])),
            decreases n - k,
        {
            self.visit_expr_method_call(&b.method_calls[k]);
            k = k + 1;
        }
    }
}

/// The receiver's text: see `receiver_text`.
pub fn receiver_to_string(expr: &Expr) -> (r: String)
    ensures
        r@ == receiver_text(*expr),
    decreases expr,
{
    match expr {
        Expr::Path { segments } => join(segments, "::"),
        Expr::MethodCall { receiver, method: _ } => receiver_to_string(receiver),
        Expr::Reference { expr } => receiver_to_string(expr),
        _ => String::new(),
    }
}

/// Whether the lowercased name contains "admin" or "owner".
pub fn is_admin_name(s: &str) -> (r: bool)
    ensures
        r == spec_is_admin_name(s@),
{
    let lower = to_lowercase(s);
    lower_names_admin(lower.as_str())
}

/// Whether already-lowercased text contains "admin" or "owner".
pub fn lower_names_admin(lower: &str) -> (r: bool)
    ensures
        r == mentions_admin_or_owner(lower@),
{
    str_contains(lower, "admin") || str_contains(lower, "owner")
}

impl Check for AdminNoGroupAuthCheck {
    fn name(&self) -> (r: &str)
        ensures
            r@ == "admin-no-group-auth"@,
    {
        CHECK_NAME
    }

    fn run(&self, file: &SourceFile, _source: &str) -> (out: Vec<Finding>)
        ensures
            no_group_findings_ok(contractimpl_fns(file.impls@), out@),
    {
        let fns = contractimpl_functions(file);
        let ghost all = contractimpl_fns(file.impls@);
        let mut names: Vec<String> = Vec::new();
        let mut first_line: usize = 0;
        let n = fns.len();
        let mut i: usize = 0;
        while i < n
            invariant
                n == fns@.len(),
                i <= n,
                fns@.map_values(|f: &ImplFn| *f) == all,
                names@.len() == admin_auth_fns(all.take(i as int)).len(),
                string_views(names@) == fn_names(admin_auth_fns(all.take(i as int))),
                names@.len() > 0 ==> first_line == admin_auth_fns(all.take(i as int))[0].line,
            decreases n - i,
        {
            let method = fns[i];
            proof {
                assert(all[i as int] == *method);
                assert(all.take(i + 1).drop_last() =~= all.take(i as int));
            }
            let mut scan = AdminAuthScan::new();
            scan.visit_block(&method.block);
            if scan.has_admin_require_auth {
                if names.len() == 0 {
                    first_line = method.line;
                }
                let ghost prev = names@;
                names.push(method.name.clone());
                proof {
                    assert(all.take(i + 1).last() == all[i as int]);
                    assert(admin_auth_fns(all.take(i + 1)) == admin_auth_fns(all.take(i as int)).push(
                        all[i as int],
                    ));
                    assert(names@ == prev.push(method.name));
                    assert(string_views(names@) =~= string_views(prev).push(method.name@));
                    assert(fn_names(admin_auth_fns(all.take(i + 1))) =~= fn_names(
                        admin_auth_fns(all.take(i as int)),
                    ).push(method.name@));
                    assert(string_views(names@) =~= fn_names(admin_auth_fns(all.take(i + 1))));
                }
            }
            i = i + 1;
        }
        proof {
            assert(all.take(n as int) =~= all);
        }
        if names.len() > 2 {
            let all_fns = join(&names, ", ");
            let mut description = decimal_string(names.len());
            description.append(" functions (");
            description.append(all_fns.as_str());
            description.append(
                ") each independently call `require_auth` on an admin/owner value. Extract a shared `assert_admin(env)` helper to avoid duplicated auth logic that must be kept in sync.",
            );
            let f = Finding {
                check_name: String::from_str(CHECK_NAME),
                severity: Severity::Low,
                file_path: String::new(),
                line: first_line,
                function_name: names[0].clone(),
                description,
            };
            proof {
                assert(names@[0]@ == string_views(names@)[0]);
            }
            let mut out = Vec::new();
            out.push(f);
            out
        } else {
            Vec::new()
        }
    }
}

} // verus!
