//! Detects `set_admin` / `transfer_ownership` functions that accept an `Address`
//! parameter but never validate it (no comparison, no `require_auth` on the new
//! address, no panic/assert on it).  Passing the all-zeros Stellar address
//! effectively renounces ownership with no recovery path.
use vstd::prelude::*;

use crate::admin_no_group_auth::is_auth_method;
use crate::model::{Binary, Block, Expr, FnArg, ImplFn, MacroCall, MethodCall, Pat, SourceFile, Type};
use crate::text::{join, spec_contains, spec_ends_with, spec_join, str_contains, str_ends_with, str_eq, string_views};
use crate::util::{contractimpl_fns, contractimpl_functions};
use crate::{finding_is, Check, Finding, Severity};

verus! {

const CHECK_NAME: &'static str = "admin-zero-address";

pub struct AdminZeroAddressCheck;

/// Function names that set a new admin/owner from a parameter.
pub open spec fn is_admin_setter_name(n: Seq<char>) -> bool {
    ||| n == "set_admin"@
    ||| n == "set_owner"@
    ||| n == "transfer_ownership"@
    ||| n == "update_admin"@
    ||| n == "change_admin"@
    ||| n == "change_owner"@
    ||| n == "set_manager"@
}

/// A type's text: a path's segments joined by `::`, looking through
/// references; empty for anything else.
pub open spec fn type_text(t: Type) -> Seq<char>
    decreases t,
{
    match t {
        Type::Path { segments } => spec_join(string_views(segments@), "::"@),
        Type::Reference { elem } => type_text(*elem),
        Type::Other => Seq::empty(),
    }
}

/// The parameter is a plain binding whose type's text ends in `Address`.
pub open spec fn is_address_param(a: FnArg) -> bool {
    match a {
        FnArg::Typed { pat: Pat::Ident(_), ty } => spec_ends_with(type_text(ty), "Address"@),
        _ => false,
    }
}

/// The binding name of an address parameter.
pub open spec fn param_name(a: FnArg) -> Seq<char> {
    match a {
        FnArg::Typed { pat: Pat::Ident(name), ty: _ } => name@,
        _ => Seq::empty(),
    }
}

/// The names of the address parameters, in order.
pub open spec fn address_params(inputs: Seq<FnArg>) -> Seq<Seq<char>>
    decreases inputs.len(),
{
    if inputs.len() == 0 {
        Seq::empty()
    } else if is_address_param(inputs.last()) {
        address_params(inputs.drop_last()).push(param_name(inputs.last()))
    } else {
        address_params(inputs.drop_last())
    }
}

/// An expression's text: paths joined by `::`, method calls as
/// `receiver.method`, binary operations as `left right`, looking through
/// references; empty for anything else.
pub open spec fn expr_text(e: Expr) -> Seq<char>
    decreases e,
{
    match e {
        Expr::Path { segments } => spec_join(string_views(segments@), "::"@),
        Expr::MethodCall { receiver, method } => expr_text(*receiver) + "."@ + method@,
        Expr::Binary { left, right } => expr_text(*left) + " "@ + expr_text(*right),
        Expr::Reference { expr } => expr_text(*expr),
        _ => Seq::empty(),
    }
}

/// Some parameter name occurs in the text.
pub open spec fn mentions_param(params: Seq<Seq<char>>, text: Seq<char>) -> bool {
    exists|k: int| 0 <= k < params.len() && spec_contains(text, #[trigger] params[k])
}

/// The last segment of a macro path, or empty.
pub open spec fn macro_name(m: MacroCall) -> Seq<char> {
    if m.path@.len() > 0 {
        m.path@.last()@
    } else {
        Seq::empty()
    }
}

/// `param.require_auth()` (or `_for_args`) on a parameter.
pub open spec fn validating_call(params: Seq<Seq<char>>, c: MethodCall) -> bool {
    is_auth_method(c.method@) && mentions_param(params, expr_text(c.receiver))
}

/// A comparison or other binary operation involving a parameter.
pub open spec fn validating_binary(params: Seq<Seq<char>>, b: Binary) -> bool {
    mentions_param(params, expr_text(b.left)) || mentions_param(params, expr_text(b.right))
}

/// `assert!`, `panic!` or `require!`, as an expression or as a statement,
/// whose tokens mention a parameter.
pub open spec fn validating_macro(params: Seq<Seq<char>>, m: MacroCall) -> bool {
    let name = macro_name(m);
    (name == "assert"@ || name == "panic"@ || name == "require"@) && mentions_param(
        params,
        m.tokens@,
    )
}

/// The body validates one of the parameters in one of the ways above, or
/// in an `if` condition that references it.
pub open spec fn validates(params: Seq<Seq<char>>, b: Block) -> bool {
    ||| exists|i: int|
        0 <= i < b.method_calls@.len() && #[trigger] validating_call(params, b.method_calls@[i])
    ||| exists|i: int|
        0 <= i < b.if_conditions@.len() && mentions_param(params, #[trigger] expr_text(b.if_conditions@[i]))
    ||| exists|i: int|
        0 <= i < b.binaries@.len() && #[trigger] validating_binary(params, b.binaries@[i])
    ||| exists|i: int| 0 <= i < b.macros@.len() && #[trigger] validating_macro(params, b.macros@[i])
}

/// The function is a public admin setter with an address parameter that its
/// body never validates.
pub open spec fn is_unvalidated_setter(f: ImplFn) -> bool {
    let params = address_params(f.inputs@);
    &&& f.is_pub
    &&& is_admin_setter_name(f.name@)
    &&& params.len() > 0
    &&& !validates(params, f.block)
}

/// The unvalidated setters among `fns`, in order.
pub open spec fn unvalidated_setters(fns: Seq<ImplFn>) -> Seq<ImplFn>
    decreases fns.len(),
{
    if fns.len() == 0 {
        Seq::empty()
    } else if is_unvalidated_setter(fns.last()) {
        unvalidated_setters(fns.drop_last()).push(fns.last())
    } else {
        unvalidated_setters(fns.drop_last())
    }
}

/// The description of the finding on the setter `name`.
pub open spec fn zero_address_description(name: Seq<char>) -> Seq<char> {
    "`"@ + name
        + "` sets the admin/owner from a parameter without validating it. Passing the zero/default address permanently renounces ownership with no recovery path. Add a sentinel check or call `new_admin.require_auth()` before storing."@
}

/// One finding per unvalidated setter among the contract functions `fns`,
/// in order.
pub open spec fn zero_address_findings_ok(fns: Seq<ImplFn>, out: Seq<Finding>) -> bool {
    let flagged = unvalidated_setters(fns);
    &&& out.len() == flagged.len()
    &&& forall|k: int|
        0 <= k < out.len() ==> finding_is(
            #[trigger] out[k],
            "admin-zero-address"@,
            Severity::High,
            flagged[k].line,
            flagged[k].name@,
            zero_address_description(flagged[k].name@),
        )
}

/// Looks for any validation of the address params:
/// - `param.require_auth()`
/// - a binary comparison involving the param (`==`, `!=`)
/// - `assert!` / `panic!` / `require!` containing the param name
/// - any `if` condition referencing the param
pub struct ValidationScan {
    pub params: Vec<String>,
    pub validated: bool,
}

impl ValidationScan {
    pub fn new(params: Vec<String>) -> (r: Self)
        ensures
            r.params@ == params@,
            !r.validated,
    {
        Self { params, validated: false }
    }

    /// Whether the expression's text contains one of the parameter names.
    pub fn param_in_expr(&self, expr: &Expr) -> (r: bool)
        ensures
            r == mentions_param(string_views(self.params@), expr_text(*expr)),
    {
        let text = expr_to_string(expr);
        self.text_mentions_param(text.as_str())
    }

    /// Whether the text contains one of the parameter names.
    fn text_mentions_param(&self, text: &str) -> (r: bool)
        ensures
            r == mentions_param(string_views(self.params@), text@),
    {
        let ghost params = string_views(self.params@);
        let n = self.params.len();
        let mut k: usize = 0;
        while k < n
            invariant
                n == self.params@.len(),
                params == string_views(self.params@),
                k <= n,
                forall|j: int| 0 <= j < k ==> !spec_contains(text@, #[trigger] params[j]),
            decreases n - k,
        {
            if str_contains(text, self.params[k].as_str()) {
                assert(spec_contains(text@, params[k as int]));
                return true;
            }
            k = k + 1;
        }
        false
    }

    /// `new_admin.require_auth()`
    pub fn visit_expr_method_call(&mut self, i: &MethodCall)
        ensures
            final(self).params == old(self).params,
            final(self).validated == (old(self).validated || validating_call(
                string_views(old(self).params@),
                *i,
            )),
    {
        if str_eq(i.method.as_str(), "require_auth") || str_eq(
            i.method.as_str(),
            "require_auth_for_args",
        ) {
            if self.param_in_expr(&i.receiver) {
                self.validated = true;
            }
        }
    }

    /// Any `if` whose condition references the param.
    pub fn visit_expr_if(&mut self, cond: &Expr)
        ensures
            final(self).params == old(self).params,
            final(self).validated == (old(self).validated || mentions_param(
                string_views(old(self).params@),
                expr_text(*cond),
            )),
    {
        if self.param_in_expr(cond) {
            self.validated = true;
        }
    }

    /// Direct comparison: `new_admin == zero_addr`.
    pub fn visit_expr_binary(&mut self, i: &Binary)
        ensures
            final(self).params == old(self).params,
            final(self).validated == (old(self).validated || validating_binary(
                string_views(old(self).params@),
                *i,
            )),
    {
        if self.param_in_expr(&i.left) || self.param_in_expr(&i.right) {
            self.validated = true;
        }
    }

    /// `assert!`, `panic!` or `require!` naming the param; applied to every
    /// macro the walk met, in expression or statement position.
    pub fn visit_expr_macro(&mut self, i: &MacroCall)
        ensures
            final(self).params == old(self).params,
            final(self).validated == (old(self).validated || validating_macro(
                string_views(old(self).params@),
                *i,
            )),
    {
        let n = i.path.len();
        if n > 0 {
            let mac_name = i.path[n - 1].as_str();
            assert(mac_name@ == macro_name(*i));
            if str_eq(mac_name, "assert") || str_eq(mac_name, "panic") || str_eq(
                mac_name,
                "require",
            ) {
                if self.text_mentions_param(i.tokens.as_str()) {
                    self.validated = true;
                }
            }
        } else {
            proof {
                reveal_strlit("assert");
                reveal_strlit("panic");
                reveal_strlit("require");
                assert(macro_name(*i) == Seq::<char>::empty());
                assert(macro_name(*i) != "assert"@);
                assert(macro_name(*i) != "panic"@);
                assert(macro_name(*i) != "require"@);
            }
        }
    }

    /// Visits every node that the walk of the body met.
    pub fn visit_block(&mut self, b: &Block)
        ensures
            final(self).params == old(self).params,
            final(self).validated == (old(self).validated || validates(
                string_views(old(self).params@),
                *b,
            )),
    {
        let ghost params = string_views(self.params@);
        let n = b.method_calls.len();
        let mut k: usize = 0;
        while k < n
            invariant
                n == b.method_calls@.len(),
                k <= n,
                self.params == old(self).params,
                params == string_views(self.params@),
                self.validated == (old(self).validated || exists|j: int|
                    0 <= j < k && #[trigger] validating_call(params, b.method_calls@[j])),
            decreases n - k,
        {
            self.visit_expr_method_call(&b.method_calls[k]);
            k = k + 1;
        }
        let n = b.if_conditions.len();
        let mut k: usize = 0;
        let ghost after_calls = self.validated;
        while k < n
            invariant
                n == b.if_conditions@.len(),
                k <= n,
                self.params == old(self).params,
                params == string_views(self.params@),
                self.validated == (after_calls || exists|j: int|
                    0 <= j < k && mentions_param(params, #[trigger] expr_text(b.if_conditions@[j]))),
            decreases n - k,
        {
            self.visit_expr_if(&b.if_conditions[k]);
            k = k + 1;
        }
        let n = b.binaries.len();
        let mut k: usize = 0;
        let ghost after_ifs = self.validated;
        while k < n
            invariant
                n == b.binaries@.len(),
                k <= n,
                self.params == old(self).params,
                params == string_views(self.params@),
                self.validated == (after_ifs || exists|j: int|
                    0 <= j < k && #[trigger] validating_binary(params, b.binaries@[j])),
            decreases n - k,
        {
            self.visit_expr_binary(&b.binaries[k]);
            k = k + 1;
        }
        let n = b.macros.len();
        let mut k: usize = 0;
        let ghost after_binaries = self.validated;
        while k < n
            invariant
                n == b.macros@.len(),
                k <= n,
                self.params == old(self).params,
                params == string_views(self.params@),
                self.validated == (after_binaries || exists|j: int|
                    0 <= j < k && #[trigger] validating_macro(params, b.macros@[j])),
            decreases n - k,
        {
            self.visit_expr_macro(&b.macros[k]);
            k = k + 1;
        }
    }
}

/// A type's text: see `type_text`.
pub fn type_to_string(ty: &Type) -> (r: String)
    ensures
        r@ == type_text(*ty),
    decreases ty,
{
    match ty {
        Type::Path { segments } => join(segments, "::"),
        Type::Reference { elem } => type_to_string(elem),
        Type::Other => String::new(),
    }
}

/// An expression's text: see `expr_text`.
pub fn expr_to_string(expr: &Expr) -> (r: String)
    ensures
        r@ == expr_text(*expr),
    decreases expr,
{
    match expr {
        Expr::Path { segments } => join(segments, "::"),
        Expr::MethodCall { receiver, method } => {
            let mut s = expr_to_string(receiver);
            s.append(".");
            s.append(method.as_str());
            s
        },
        Expr::Binary { left, right } => {
            let mut s = expr_to_string(left);
            s.append(" ");
            let r = expr_to_string(right);
            s.append(r.as_str());
            s
        },
        Expr::Reference { expr } => expr_to_string(expr),
        _ => String::new(),
    }
}

/// Whether the function name is one of the admin setters.
fn is_admin_setter(name: &str) -> (r: bool)
    ensures
        r == is_admin_setter_name(name@),
{
    str_eq(name, "set_admin") || str_eq(name, "set_owner") || str_eq(name, "transfer_ownership")
        || str_eq(name, "update_admin") || str_eq(name, "change_admin") || str_eq(
        name,
        "change_owner",
    ) || str_eq(name, "set_manager")
}

/// Collect Address-typed parameter names (heuristic: any plainly bound
/// param whose type path ends in "Address").
fn collect_address_params(inputs: &Vec<FnArg>) -> (r: Vec<String>)
    ensures
        string_views(r@) == address_params(inputs@),
{
    let mut r: Vec<String> = Vec::new();
    let n = inputs.len();
    let mut i: usize = 0;
    while i < n
        invariant
            n == inputs@.len(),
            i <= n,
            string_views(r@) == address_params(inputs@.take(i as int)),
        decreases n - i,
    {
        proof {
            assert(inputs@.take(i + 1).drop_last() =~= inputs@.take(i as int));
            assert(inputs@.take(i + 1).last() == inputs@[i as int]);
        }
        match &inputs[i] {
            FnArg::Typed { pat, ty } => {
                let type_str = type_to_string(ty);
                if str_ends_with(type_str.as_str(), "Address") {
                    match pat {
                        Pat::Ident(name) => {
                            let ghost prev = r@;
                            r.push(name.clone());
                            proof {
                                assert(string_views(r@) =~= string_views(prev).push(name@));
                            }
                        },
                        Pat::Other => {},
                    }
                }
            },
            FnArg::Receiver => {},
        }
        i = i + 1;
    }
    proof {
        assert(inputs@.take(n as int) =~= inputs@);
    }
    r
}

/// The description of the finding on the setter `fn_name`.
fn description_for(fn_name: &String) -> (r: String)
    ensures
        r@ == zero_address_description(fn_name@),
{
    let mut d = String::from_str("`");
    d.append(fn_name.as_str());
    d.append(
        "` sets the admin/owner from a parameter without validating it. Passing the zero/default address permanently renounces ownership with no recovery path. Add a sentinel check or call `new_admin.require_auth()` before storing.",
    );
    d
}

impl Check for AdminZeroAddressCheck {
    fn name(&self) -> (r: &str)
        ensures
            r@ == "admin-zero-address"@,
    {
        CHECK_NAME
    }

    fn run(&self, file: &SourceFile, _source: &str) -> (out: Vec<Finding>)
        ensures
            zero_address_findings_ok(contractimpl_fns(file.impls@), out@),
    {
        let mut out: Vec<Finding> = Vec::new();
        let fns = contractimpl_functions(file);
        let ghost all = contractimpl_fns(file.impls@);
        let n = fns.len();
        let mut i: usize = 0;
        while i < n
            invariant
                n == fns@.len(),
                i <= n,
                fns@.map_values(|f: &ImplFn| *f) == all,
                zero_address_findings_ok(all.take(i as int), out@),
            decreases n - i,
        {
            let method = fns[i];
            proof {
                assert(all[i as int] == *method);
                assert(all.take(i + 1).drop_last() =~= all.take(i as int));
                assert(all.take(i + 1).last() == all[i as int]);
            }
            if method.is_pub && is_admin_setter(method.name.as_str()) {
                let addr_params = collect_address_params(&method.inputs);
                if addr_params.len() > 0 {
                    // Check whether the body validates any of those params.
                    let mut scan = ValidationScan::new(addr_params);
                    scan.visit_block(&method.block);
                    if !scan.validated {
                        let ghost prev = out@;
                        let line = method.line;
                        out.push(
                            Finding {
                                check_name: String::from_str(CHECK_NAME),
                                severity: Severity::High,
                                file_path: String::new(),
                                line,
                                function_name: method.name.clone(),
                                description: description_for(&method.name),
                            },
                        );
                        proof {
                            let flagged = unvalidated_setters(all.take(i + 1));
                            assert(flagged == unvalidated_setters(all.take(i as int)).push(
                                *method,
                            ));
                            assert forall|k: int| 0 <= k < out@.len() implies finding_is(
                                #[trigger] out@[k],
                                "admin-zero-address"@,
                                Severity::High,
                                flagged[k].line,
                                flagged[k].name@,
                                zero_address_description(flagged[k].name@),
                            ) by {
                                if k < prev.len() {
                                    assert(out@[k] == prev[k]);
                                }
                            }
                        }
                    }
                }
            }
            i = i + 1;
        }
        proof {
            assert(all.take(n as int) =~= all);
        }
        out
    }
}

} // verus!
