use checks::admin_no_group_auth::{is_admin_name, lower_names_admin, receiver_to_string};
use checks::admin_zero_address::{expr_to_string, type_to_string, ValidationScan};
use checks::model::{
    Attribute, Binary, Block, Expr, FnArg, ImplFn, ItemImpl, Lit, MacroCall, MethodCall, Pat,
    SourceFile, Type,
};
use checks::ownership_no_approval_invalidation::{
    is_approval_key, is_owner_key, key_expr_text, lower_names_approval, lower_names_owner,
    receiver_chain_contains,
};
use checks::ownership_pending_not_cleared as pending;
use checks::ownership_pending_not_cleared::{is_admin_key, is_pending_key, lower_names_pending};
use checks::{
    AdminNoGroupAuthCheck, AdminZeroAddressCheck, Check, OwnershipNoApprovalInvalidationCheck,
    OwnershipPendingNotClearedCheck, Severity,
};

// ---- builders for the parsed form of a source file ----

fn st(x: &str) -> String {
    x.to_string()
}

fn path(segs: &[&str]) -> Expr {
    Expr::Path { segments: segs.iter().map(|s| st(s)).collect() }
}

fn mc(receiver: Expr, method: &str) -> Expr {
    Expr::MethodCall { receiver: Box::new(receiver), method: st(method) }
}

fn reference(e: Expr) -> Expr {
    Expr::Reference { expr: Box::new(e) }
}

fn strlit(v: &str) -> Expr {
    Expr::Lit { lit: Lit::Str(st(v)) }
}

fn call(receiver: Expr, method: &str, args: Vec<Expr>) -> MethodCall {
    MethodCall { receiver, method: st(method), args }
}

fn env() -> Expr {
    path(&["env"])
}

/// `env.storage()`
fn storage() -> Expr {
    mc(env(), "storage")
}

/// `env.storage().instance()`
fn instance() -> Expr {
    mc(storage(), "instance")
}

/// The calls met in `env.storage().instance()`, outermost first.
fn instance_calls() -> Vec<MethodCall> {
    vec![call(storage(), "instance", vec![]), call(env(), "storage", vec![])]
}

/// The calls met in `env.storage().instance().<op>(args..)`.
fn instance_op(op: &str, args: Vec<Expr>) -> Vec<MethodCall> {
    let mut v = vec![call(instance(), op, args)];
    v.extend(instance_calls());
    v
}

/// The calls met in `env.storage().instance().get(&key).unwrap()`.
fn instance_get_unwrap(key: Expr) -> Vec<MethodCall> {
    let get = mc(instance(), "get");
    let mut v = vec![call(get, "unwrap", vec![])];
    v.extend(instance_op("get", vec![reference(key)]));
    v
}

fn block(method_calls: Vec<MethodCall>) -> Block {
    Block { method_calls, if_conditions: vec![], binaries: vec![], macros: vec![] }
}

fn typed(name: &str, ty: &[&str]) -> FnArg {
    FnArg::Typed { pat: Pat::Ident(st(name)), ty: Type::Path { segments: ty.iter().map(|s| st(s)).collect() } }
}

fn func(name: &str, line: usize, inputs: Vec<FnArg>, b: Block) -> ImplFn {
    ImplFn { name: st(name), is_pub: true, line, inputs, block: b }
}

fn contractimpl() -> Attribute {
    Attribute { path: vec![st("contractimpl")] }
}

fn contract_file(fns: Vec<ImplFn>) -> SourceFile {
    SourceFile { impls: vec![ItemImpl { attrs: vec![contractimpl()], fns }] }
}

/// `let admin: Address = env.storage().instance().get(&"admin").unwrap();
///  admin.require_auth();`
fn admin_auth_block() -> Block {
    let mut calls = instance_get_unwrap(strlit("admin"));
    calls.push(call(path(&["admin"]), "require_auth", vec![]));
    block(calls)
}

/// `user.require_auth();`
fn user_auth_block() -> Block {
    block(vec![call(path(&["user"]), "require_auth", vec![])])
}

// ---- admin-no-group-auth ----

#[test]
fn flags_three_functions_with_admin_auth() {
    let file = contract_file(vec![
        func("pause", 6, vec![typed("env", &["Env"])], admin_auth_block()),
        func("unpause", 10, vec![typed("env", &["Env"])], admin_auth_block()),
        func("set_fee", 14, vec![typed("env", &["Env"]), typed("fee", &["u32"])], admin_auth_block()),
    ]);
    let hits = AdminNoGroupAuthCheck.run(&file, "");
    assert_eq!(hits.len(), 1);
    assert_eq!(hits[0].severity, Severity::Low);
}

#[test]
fn passes_two_functions_with_admin_auth() {
    let file = contract_file(vec![
        func("pause", 6, vec![typed("env", &["Env"])], admin_auth_block()),
        func("unpause", 10, vec![typed("env", &["Env"])], admin_auth_block()),
    ]);
    let hits = AdminNoGroupAuthCheck.run(&file, "");
    assert!(hits.is_empty());
}

#[test]
fn passes_when_no_admin_auth() {
    let params = || vec![typed("env", &["Env"]), typed("user", &["Address"])];
    let file = contract_file(vec![
        func("deposit", 6, params(), user_auth_block()),
        func("withdraw", 9, params(), user_auth_block()),
        func("transfer", 12, params(), user_auth_block()),
    ]);
    let hits = AdminNoGroupAuthCheck.run(&file, "");
    assert!(hits.is_empty());
}

#[test]
fn group_auth_finding_names_all_functions() {
    let file = contract_file(vec![
        func("pause", 6, vec![], admin_auth_block()),
        func("deposit", 10, vec![], user_auth_block()),
        func("unpause", 12, vec![], admin_auth_block()),
        func("set_fee", 16, vec![], admin_auth_block()),
    ]);
    let hits = AdminNoGroupAuthCheck.run(&file, "");
    assert_eq!(hits.len(), 1);
    let f = &hits[0];
    assert_eq!(f.check_name, "admin-no-group-auth");
    assert_eq!(f.file_path, "");
    assert_eq!(f.line, 6);
    assert_eq!(f.function_name, "pause");
    assert_eq!(
        f.description,
        "3 functions (pause, unpause, set_fee) each independently call `require_auth` on an \
         admin/owner value. Extract a shared `assert_admin(env)` helper to avoid duplicated auth \
         logic that must be kept in sync."
    );
    assert_eq!(AdminNoGroupAuthCheck.name(), "admin-no-group-auth");
}

#[test]
fn group_auth_counts_auth_for_args_and_owner_receivers() {
    let for_args = block(vec![call(mc(path(&["self", "owner"]), "clone"), "require_auth_for_args", vec![path(&["args"])])]);
    let by_ref = block(vec![call(reference(path(&["SuperAdmin"])), "require_auth", vec![])]);
    let file = contract_file(vec![
        func("a", 3, vec![], for_args),
        func("b", 4, vec![], by_ref),
        func("c", 5, vec![], admin_auth_block()),
    ]);
    let hits = AdminNoGroupAuthCheck.run(&file, "");
    assert_eq!(hits.len(), 1);
    assert_eq!(hits[0].function_name, "a");
    assert!(hits[0].description.starts_with("3 functions (a, b, c)"));
}

#[test]
fn group_auth_ignores_impls_without_contractimpl() {
    let fns = || vec![
        func("pause", 6, vec![], admin_auth_block()),
        func("unpause", 10, vec![], admin_auth_block()),
        func("set_fee", 14, vec![], admin_auth_block()),
    ];
    let plain = SourceFile { impls: vec![ItemImpl { attrs: vec![], fns: fns() }] };
    assert!(AdminNoGroupAuthCheck.run(&plain, "").is_empty());
    let other_attr = SourceFile {
        impls: vec![ItemImpl { attrs: vec![Attribute { path: vec![st("contract")] }], fns: fns() }],
    };
    assert!(AdminNoGroupAuthCheck.run(&other_attr, "").is_empty());
    let full_path = SourceFile {
        impls: vec![ItemImpl {
            attrs: vec![Attribute { path: vec![st("soroban_sdk"), st("contractimpl")] }],
            fns: fns(),
        }],
    };
    assert_eq!(AdminNoGroupAuthCheck.run(&full_path, "").len(), 1);
}

#[test]
fn group_auth_counts_functions_across_contractimpl_blocks() {
    let file = SourceFile {
        impls: vec![
            ItemImpl { attrs: vec![contractimpl()], fns: vec![func("pause", 6, vec![], admin_auth_block())] },
            ItemImpl { attrs: vec![], fns: vec![func("helper", 12, vec![], admin_auth_block())] },
            ItemImpl {
                attrs: vec![contractimpl()],
                fns: vec![
                    func("unpause", 20, vec![], admin_auth_block()),
                    func("set_fee", 24, vec![], admin_auth_block()),
                ],
            },
        ],
    };
    let hits = AdminNoGroupAuthCheck.run(&file, "");
    assert_eq!(hits.len(), 1);
    assert!(hits[0].description.starts_with("3 functions (pause, unpause, set_fee)"));
}

#[test]
fn admin_name_matches_case_insensitively() {
    assert!(is_admin_name("admin"));
    assert!(is_admin_name("NEW_ADMIN"));
    assert!(is_admin_name("self::Owner"));
    assert!(!is_admin_name("OPERATOR"));
    assert!(!is_admin_name("user"));
    assert!(!is_admin_name(""));
}

#[test]
fn receiver_text_follows_calls_and_references() {
    assert_eq!(receiver_to_string(&path(&["DataKey", "Admin"])), "DataKey::Admin");
    assert_eq!(receiver_to_string(&mc(reference(path(&["admin"])), "clone")), "admin");
    assert_eq!(receiver_to_string(&Expr::Field { base: Box::new(path(&["self"])) }), "");
    assert_eq!(receiver_to_string(&Expr::Other), "");
}

// ---- admin-zero-address ----

fn set_admin_fn(b: Block) -> ImplFn {
    func("set_admin", 6, vec![typed("env", &["Env"]), typed("new_admin", &["Address"])], b)
}

/// `env.storage().instance().set(&"admin", &new_admin);`
fn store_admin_calls() -> Vec<MethodCall> {
    instance_op("set", vec![reference(strlit("admin")), reference(path(&["new_admin"]))])
}

#[test]
fn flags_set_admin_without_validation() {
    let file = contract_file(vec![set_admin_fn(block(store_admin_calls()))]);
    let hits = AdminZeroAddressCheck.run(&file, "");
    assert_eq!(hits.len(), 1);
    assert_eq!(hits[0].severity, Severity::High);
}

#[test]
fn passes_when_require_auth_on_param() {
    let mut calls = vec![call(path(&["new_admin"]), "require_auth", vec![])];
    calls.extend(store_admin_calls());
    let file = contract_file(vec![set_admin_fn(block(calls))]);
    let hits = AdminZeroAddressCheck.run(&file, "");
    assert!(hits.is_empty());
}

#[test]
fn passes_when_if_check_on_param() {
    // if new_admin == Address::default() { panic!("zero"); }
    let cond = Expr::Binary { left: Box::new(path(&["new_admin"])), right: Box::new(Expr::Other) };
    let b = Block {
        method_calls: store_admin_calls(),
        if_conditions: vec![cond],
        binaries: vec![Binary { left: path(&["new_admin"]), right: Expr::Other }],
        macros: vec![],
    };
    let file = contract_file(vec![set_admin_fn(b)]);
    let hits = AdminZeroAddressCheck.run(&file, "");
    assert!(hits.is_empty());
}

#[test]
fn ignores_non_setter_fn() {
    let f = func("get_admin", 6, vec![typed("env", &["Env"])], block(instance_get_unwrap(strlit("admin"))));
    let file = contract_file(vec![f]);
    let hits = AdminZeroAddressCheck.run(&file, "");
    assert!(hits.is_empty());
}

#[test]
fn zero_address_finding_fields() {
    let file = contract_file(vec![set_admin_fn(block(store_admin_calls()))]);
    let hits = AdminZeroAddressCheck.run(&file, "");
    assert_eq!(hits.len(), 1);
    assert_eq!(hits[0].check_name, "admin-zero-address");
    assert_eq!(hits[0].line, 6);
    assert_eq!(hits[0].function_name, "set_admin");
    assert_eq!(hits[0].file_path, "");
    assert_eq!(
        hits[0].description,
        "`set_admin` sets the admin/owner from a parameter without validating it. Passing the \
         zero/default address permanently renounces ownership with no recovery path. Add a \
         sentinel check or call `new_admin.require_auth()` before storing."
    );
    assert_eq!(AdminZeroAddressCheck.name(), "admin-zero-address");
}

#[test]
fn zero_address_ignores_private_and_param_less_setters() {
    let mut private = set_admin_fn(block(store_admin_calls()));
    private.is_pub = false;
    assert!(AdminZeroAddressCheck.run(&contract_file(vec![private]), "").is_empty());
    // No parameter of an `Address` type.
    let no_addr = func("set_owner", 3, vec![typed("env", &["Env"]), typed("id", &["u64"])], block(vec![]));
    assert!(AdminZeroAddressCheck.run(&contract_file(vec![no_addr]), "").is_empty());
    // A non-identifier pattern is not collected.
    let tuple_pat = func(
        "set_owner",
        3,
        vec![FnArg::Typed { pat: Pat::Other, ty: Type::Path { segments: vec![st("Address")] } }],
        block(vec![]),
    );
    assert!(AdminZeroAddressCheck.run(&contract_file(vec![tuple_pat]), "").is_empty());
}

#[test]
fn zero_address_reads_reference_and_qualified_types() {
    let by_ref = func(
        "change_owner",
        3,
        vec![
            FnArg::Receiver,
            FnArg::Typed {
                pat: Pat::Ident(st("who")),
                ty: Type::Reference { elem: Box::new(Type::Path { segments: vec![st("soroban_sdk"), st("Address")] }) },
            },
        ],
        block(vec![]),
    );
    let hits = AdminZeroAddressCheck.run(&contract_file(vec![by_ref]), "");
    assert_eq!(hits.len(), 1);
    assert_eq!(hits[0].function_name, "change_owner");
}

#[test]
fn zero_address_accepts_each_validation_form() {
    // assert!(new_admin != zero)
    let mut with_assert = block(store_admin_calls());
    with_assert.macros.push(MacroCall { path: vec![st("assert")], tokens: st("new_admin != zero") });
    assert!(AdminZeroAddressCheck.run(&contract_file(vec![set_admin_fn(with_assert)]), "").is_empty());
    // require!(...) through a path.
    let mut with_require = block(store_admin_calls());
    with_require.macros.push(MacroCall { path: vec![st("crate"), st("require")], tokens: st("is_valid (new_admin)") });
    assert!(AdminZeroAddressCheck.run(&contract_file(vec![set_admin_fn(with_require)]), "").is_empty());
    // A macro not in the list does not count.
    let mut with_log = block(store_admin_calls());
    with_log.macros.push(MacroCall { path: vec![st("log")], tokens: st("env , new_admin") });
    assert_eq!(AdminZeroAddressCheck.run(&contract_file(vec![set_admin_fn(with_log)]), "").len(), 1);
    // require_auth_for_args on a clone of the parameter.
    let mut for_args = store_admin_calls();
    for_args.push(call(mc(path(&["new_admin"]), "clone"), "require_auth_for_args", vec![]));
    assert!(AdminZeroAddressCheck.run(&contract_file(vec![set_admin_fn(block(for_args))]), "").is_empty());
    // require_auth on something else does not count.
    let mut other_auth = store_admin_calls();
    other_auth.push(call(path(&["old_admin"]), "require_auth", vec![]));
    assert_eq!(AdminZeroAddressCheck.run(&contract_file(vec![set_admin_fn(block(other_auth))]), "").len(), 1);
}

#[test]
fn validation_scan_starts_unvalidated() {
    let mut scan = ValidationScan::new(vec![st("new_admin")]);
    assert!(!scan.validated);
    assert_eq!(scan.params, vec![st("new_admin")]);
    assert!(!scan.param_in_expr(&path(&["other"])));
    assert!(scan.param_in_expr(&mc(path(&["new_admin"]), "clone")));
    scan.visit_expr_if(&path(&["flag"]));
    assert!(!scan.validated);
    scan.visit_expr_binary(&Binary { left: Expr::Other, right: reference(path(&["new_admin"])) });
    assert!(scan.validated);
}

#[test]
fn expression_and_type_text() {
    let e = Expr::Binary {
        left: Box::new(mc(path(&["a", "b"]), "len")),
        right: Box::new(reference(path(&["c"]))),
    };
    assert_eq!(expr_to_string(&e), "a::b.len c");
    assert_eq!(expr_to_string(&strlit("x")), "");
    let t = Type::Reference { elem: Box::new(Type::Path { segments: vec![st("soroban_sdk"), st("Address")] }) };
    assert_eq!(type_to_string(&t), "soroban_sdk::Address");
    assert_eq!(type_to_string(&Type::Other), "");
}

// ---- ownership-no-approval-invalidation ----

fn transfer_fn(calls: Vec<MethodCall>) -> ImplFn {
    func("transfer_ownership", 6, vec![typed("env", &["Env"]), typed("new_owner", &["Address"])], block(calls))
}

/// `env.require_auth(); env.storage().instance().set(&"owner", &new_owner);`
fn write_owner_calls() -> Vec<MethodCall> {
    let mut v = vec![call(env(), "require_auth", vec![])];
    v.extend(instance_op("set", vec![reference(strlit("owner")), reference(path(&["new_owner"]))]));
    v
}

#[test]
fn flags_transfer_without_clearing_approvals() {
    let file = contract_file(vec![transfer_fn(write_owner_calls())]);
    let hits = OwnershipNoApprovalInvalidationCheck.run(&file, "");
    assert_eq!(hits.len(), 1);
    assert_eq!(hits[0].severity, Severity::Medium);
}

#[test]
fn passes_when_allowance_removed() {
    let mut calls = write_owner_calls();
    calls.extend(instance_op("remove", vec![reference(strlit("allowance"))]));
    let file = contract_file(vec![transfer_fn(calls)]);
    let hits = OwnershipNoApprovalInvalidationCheck.run(&file, "");
    assert!(hits.is_empty());
}

#[test]
fn passes_when_approval_key_overwritten() {
    let mut calls = write_owner_calls();
    calls.extend(instance_op("set", vec![reference(strlit("approvals")), reference(Expr::Lit { lit: Lit::Other })]));
    let file = contract_file(vec![transfer_fn(calls)]);
    let hits = OwnershipNoApprovalInvalidationCheck.run(&file, "");
    assert!(hits.is_empty());
}

#[test]
fn ignores_fn_that_does_not_write_owner() {
    // let _ = env.storage().instance().get::<_, Address>(&"owner");
    let file = contract_file(vec![transfer_fn(instance_op("get", vec![reference(strlit("owner"))]))]);
    let hits = OwnershipNoApprovalInvalidationCheck.run(&file, "");
    assert!(hits.is_empty());
}

#[test]
fn approval_finding_fields() {
    let file = contract_file(vec![transfer_fn(write_owner_calls())]);
    let hits = OwnershipNoApprovalInvalidationCheck.run(&file, "");
    assert_eq!(hits[0].check_name, "ownership-no-approval-invalidation");
    assert_eq!(hits[0].line, 6);
    assert_eq!(hits[0].function_name, "transfer_ownership");
    assert_eq!(
        hits[0].description,
        "`transfer_ownership` transfers ownership but does not clear existing allowances or \
         approvals. Permissions granted by the old owner remain valid and can be exploited by the \
         new owner or third parties."
    );
    assert_eq!(OwnershipNoApprovalInvalidationCheck.name(), "ownership-no-approval-invalidation");
}

#[test]
fn approval_check_reads_path_keys_and_fields() {
    // self.env.storage().persistent().set(&DataKey::Owner, &o)
    let recv = mc(mc(Expr::Field { base: Box::new(path(&["self"])) }, "storage"), "persistent");
    let calls = vec![call(recv, "set", vec![reference(path(&["DataKey", "Owner"])), path(&["o"])])];
    let f = func("set_owner", 3, vec![], block(calls));
    let hits = OwnershipNoApprovalInvalidationCheck.run(&contract_file(vec![f]), "");
    assert_eq!(hits.len(), 1);
    // A write without `.storage()` in its receiver chain is not a storage write.
    let calls = vec![call(path(&["map"]), "set", vec![reference(strlit("owner"))])];
    let f = func("set_owner", 3, vec![], block(calls));
    assert!(OwnershipNoApprovalInvalidationCheck.run(&contract_file(vec![f]), "").is_empty());
    // Other function names are not inspected.
    let f = func("rotate", 3, vec![], block(write_owner_calls()));
    assert!(OwnershipNoApprovalInvalidationCheck.run(&contract_file(vec![f]), "").is_empty());
}

#[test]
fn operator_key_write_is_never_reported() {
    let calls = instance_op("set", vec![reference(strlit("Operator")), reference(path(&["op"]))]);
    let file = contract_file(vec![transfer_fn(calls)]);
    assert!(OwnershipNoApprovalInvalidationCheck.run(&file, "").is_empty());
    assert!(is_owner_key("Operator") && is_approval_key("Operator"));
}

#[test]
fn key_predicates() {
    assert!(is_owner_key("ADMIN"));
    assert!(!is_owner_key("balance"));
    assert!(is_approval_key("Allowance"));
    assert!(is_approval_key("approvals"));
    assert!(is_approval_key("PERMIT_NONCE"));
    assert!(!is_approval_key("owner"));
    assert!(is_admin_key("PendingAdmin"));
    assert!(is_pending_key("PendingAdmin"));
    assert!(is_pending_key("proposed_owner"));
    assert!(is_pending_key("Candidate"));
    assert!(!is_pending_key("owner"));
    assert_eq!(key_expr_text(&reference(strlit("pending"))), "pending");
    assert_eq!(key_expr_text(&path(&["DataKey", "Pending"])), "DataKey::Pending");
    assert_eq!(key_expr_text(&mc(path(&["k"]), "clone")), "");
    assert!(receiver_chain_contains(&instance(), "storage"));
    assert!(!receiver_chain_contains(&path(&["storage"]), "storage"));
}

// ---- ownership-pending-not-cleared ----

fn accept_fn(calls: Vec<MethodCall>) -> ImplFn {
    func("accept_ownership", 6, vec![typed("env", &["Env"])], block(calls))
}

/// Reads the pending owner, requires its auth and writes it as the owner.
fn accept_calls() -> Vec<MethodCall> {
    let mut v = instance_get_unwrap(strlit("pending_owner"));
    v.push(call(path(&["new_owner"]), "require_auth", vec![]));
    v.extend(instance_op("set", vec![reference(strlit("owner")), reference(path(&["new_owner"]))]));
    v
}

#[test]
fn flags_accept_ownership_without_clearing_pending() {
    let file = contract_file(vec![accept_fn(accept_calls())]);
    let hits = OwnershipPendingNotClearedCheck.run(&file, "");
    assert_eq!(hits.len(), 1);
    assert_eq!(hits[0].severity, Severity::Low);
}

#[test]
fn passes_when_pending_key_removed() {
    let mut calls = accept_calls();
    calls.extend(instance_op("remove", vec![reference(strlit("pending_owner"))]));
    let file = contract_file(vec![accept_fn(calls)]);
    let hits = OwnershipPendingNotClearedCheck.run(&file, "");
    assert!(hits.is_empty());
}

#[test]
fn passes_when_pending_key_overwritten() {
    let mut calls = accept_calls();
    calls.extend(instance_op("set", vec![reference(strlit("pending_owner")), reference(Expr::Other)]));
    let file = contract_file(vec![accept_fn(calls)]);
    let hits = OwnershipPendingNotClearedCheck.run(&file, "");
    assert!(hits.is_empty());
}

#[test]
fn ignores_unrelated_function() {
    let calls = instance_op("set", vec![reference(strlit("pending_owner")), reference(path(&["new_owner"]))]);
    let f = func("transfer_ownership", 6, vec![typed("env", &["Env"]), typed("new_owner", &["Address"])], block(calls));
    let file = contract_file(vec![f]);
    let hits = OwnershipPendingNotClearedCheck.run(&file, "");
    assert!(hits.is_empty());
}

#[test]
fn pending_finding_fields() {
    let file = contract_file(vec![accept_fn(accept_calls())]);
    let hits = OwnershipPendingNotClearedCheck.run(&file, "");
    assert_eq!(hits[0].check_name, "ownership-pending-not-cleared");
    assert_eq!(hits[0].function_name, "accept_ownership");
    assert_eq!(hits[0].line, 6);
    assert_eq!(
        hits[0].description,
        "`accept_ownership` writes the new owner/admin to storage but does not `remove` or \
         overwrite the pending-ownership key. The pending authorization can be replayed to \
         transfer ownership again."
    );
    assert_eq!(OwnershipPendingNotClearedCheck.name(), "ownership-pending-not-cleared");
}

#[test]
fn pending_check_reports_every_accept_function_in_order() {
    let mut a = accept_fn(accept_calls());
    a.name = st("claim_ownership");
    a.line = 3;
    let mut b = accept_fn(accept_calls());
    b.name = st("finalize_transfer");
    b.line = 9;
    let hits = OwnershipPendingNotClearedCheck.run(&contract_file(vec![a, b]), "");
    assert_eq!(hits.len(), 2);
    assert_eq!(hits[0].function_name, "claim_ownership");
    assert_eq!(hits[0].line, 3);
    assert_eq!(hits[1].function_name, "finalize_transfer");
    assert_eq!(hits[1].line, 9);
}

// ---- properties on concrete values ----

#[test]
fn verdicts_do_not_depend_on_call_order() {
    // The approval clear placed before the owner write still counts.
    let mut calls = instance_op("remove", vec![reference(strlit("allowance"))]);
    calls.extend(write_owner_calls());
    assert!(OwnershipNoApprovalInvalidationCheck.run(&contract_file(vec![transfer_fn(calls)]), "").is_empty());
    // The pending clear placed before the admin write still counts.
    let mut calls = instance_op("remove", vec![reference(strlit("pending_owner"))]);
    calls.extend(accept_calls());
    assert!(OwnershipPendingNotClearedCheck.run(&contract_file(vec![accept_fn(calls)]), "").is_empty());
    // require_auth after the store still validates.
    let mut calls = store_admin_calls();
    calls.push(call(path(&["new_admin"]), "require_auth", vec![]));
    assert!(AdminZeroAddressCheck.run(&contract_file(vec![set_admin_fn(block(calls))]), "").is_empty());
}

#[test]
fn added_code_never_adds_a_zero_address_finding() {
    let mut calls = vec![call(path(&["new_admin"]), "require_auth", vec![])];
    calls.extend(store_admin_calls());
    let validated = contract_file(vec![set_admin_fn(block(calls.clone_calls()))]);
    assert!(AdminZeroAddressCheck.run(&validated, "").is_empty());
    calls.extend(instance_op("set", vec![reference(strlit("paused")), reference(Expr::Lit { lit: Lit::Other })]));
    let bigger = contract_file(vec![set_admin_fn(block(calls))]);
    assert!(AdminZeroAddressCheck.run(&bigger, "").is_empty());
}

trait CloneCalls {
    fn clone_calls(&self) -> Vec<MethodCall>;
}

impl CloneCalls for Vec<MethodCall> {
    fn clone_calls(&self) -> Vec<MethodCall> {
        self.iter().map(|c| call(clone_expr(&c.receiver), &c.method, c.args.iter().map(clone_expr).collect())).collect()
    }
}

fn clone_expr(e: &Expr) -> Expr {
    match e {
        Expr::Path { segments } => Expr::Path { segments: segments.clone() },
        Expr::MethodCall { receiver, method } => mc(clone_expr(receiver), method),
        Expr::Field { base } => Expr::Field { base: Box::new(clone_expr(base)) },
        Expr::Reference { expr } => reference(clone_expr(expr)),
        Expr::Binary { left, right } => Expr::Binary { left: Box::new(clone_expr(left)), right: Box::new(clone_expr(right)) },
        Expr::Lit { lit: Lit::Str(s) } => strlit(s),
        Expr::Lit { lit: Lit::Other } => Expr::Lit { lit: Lit::Other },
        Expr::Macro { path, tokens } => Expr::Macro { path: path.clone(), tokens: tokens.clone() },
        Expr::Other => Expr::Other,
    }
}

#[test]
fn admin_tests_agree_across_checks() {
    for k in ["admin", "Owner", "OPERATOR", "pending_admin", "balance", "", "user"] {
        assert!(!is_admin_name(k) || is_owner_key(k));
        assert_eq!(is_owner_key(k), is_admin_key(k));
    }
    // An operator is an owner key but not an admin name.
    assert!(is_owner_key("operator"));
    assert!(!is_admin_name("operator"));
}

#[test]
fn lowercase_text_tests() {
    assert!(lower_names_admin("new_admin"));
    assert!(lower_names_admin("owner"));
    assert!(!lower_names_admin("operator"));
    assert!(!lower_names_admin("NEW_ADMIN"));
    assert!(lower_names_owner("\"operator\""));
    assert!(lower_names_approval("allowance"));
    assert!(lower_names_approval("approvals"));
    assert!(lower_names_approval("permit"));
    assert!(!lower_names_approval("owner"));
    assert!(pending::lower_names_admin("pending_admin"));
    assert!(lower_names_pending("\"pending\""));
    assert!(lower_names_pending("candidate"));
    assert!(!lower_names_pending("Pending"));
}

#[test]
fn statement_assert_on_param_validates() {
    // assert!(new_admin != Address::default());
    // env.storage().instance().set(&"admin", &new_admin);
    let mut b = block(store_admin_calls());
    b.macros.push(MacroCall { path: vec![st("assert")], tokens: st("new_admin != Address :: default ()") });
    assert!(AdminZeroAddressCheck.run(&contract_file(vec![set_admin_fn(b)]), "").is_empty());
    // panic!("bad {}", new_admin); as a statement
    let mut b = block(store_admin_calls());
    b.macros.push(MacroCall { path: vec![st("panic")], tokens: st("\"bad {}\" , new_admin") });
    assert!(AdminZeroAddressCheck.run(&contract_file(vec![set_admin_fn(b)]), "").is_empty());
}

#[test]
fn require_auth_removes_exactly_that_finding() {
    let setter = |name: &str, line: usize, first: Option<MethodCall>| {
        let mut calls = vec![];
        if let Some(c) = first {
            calls.push(c);
        }
        calls.extend(store_admin_calls());
        func(name, line, vec![typed("env", &["Env"]), typed("new_admin", &["Address"])], block(calls))
    };
    let before = contract_file(vec![setter("set_admin", 3, None), setter("set_owner", 7, None), setter("change_admin", 11, None)]);
    let hits = AdminZeroAddressCheck.run(&before, "");
    assert_eq!(hits.len(), 3);
    let auth = call(path(&["new_admin"]), "require_auth", vec![]);
    let after = contract_file(vec![setter("set_admin", 3, None), setter("set_owner", 7, Some(auth)), setter("change_admin", 11, None)]);
    let hits2 = AdminZeroAddressCheck.run(&after, "");
    assert_eq!(hits2.len(), 2);
    assert_eq!((hits2[0].function_name.as_str(), hits2[0].line), ("set_admin", 3));
    assert_eq!((hits2[1].function_name.as_str(), hits2[1].line), ("change_admin", 11));
    assert_eq!(hits2[0].description, hits[0].description);
    assert_eq!(hits2[1].description, hits[2].description);
}
