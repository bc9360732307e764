//! Static checks on Soroban smart-contract sources.  Each check reads the
//! functions of a file's `#[contractimpl]` blocks and reports findings.
use vstd::prelude::*;

pub mod admin_no_group_auth;
pub mod admin_zero_address;
pub mod check_laws;
pub mod contracts;
pub mod laws;
pub mod model;
pub mod name_laws;
pub mod ownership_no_approval_invalidation;
pub mod ownership_pending_not_cleared;
pub mod text;
pub mod util;

pub use admin_no_group_auth::AdminNoGroupAuthCheck;
pub use admin_zero_address::AdminZeroAddressCheck;
pub use model::SourceFile;
pub use ownership_no_approval_invalidation::OwnershipNoApprovalInvalidationCheck;
pub use ownership_pending_not_cleared::OwnershipPendingNotClearedCheck;

verus! {

/// How serious a finding is.
#[derive(Debug, Clone, Copy, PartialEq, Eq, Structural)]
pub enum Severity {
    Low,
    Medium,
    High,
}

/// One problem that a check reports on one function.
#[derive(Debug)]
pub struct Finding {
    pub check_name: String,
    pub severity: Severity,
    pub file_path: String,
    pub line: usize,
    pub function_name: String,
    pub description: String,
}

/// The finding `f` has these fields, with an empty file path.
pub open spec fn finding_is(
    f: Finding,
    check_name: Seq<char>,
    severity: Severity,
    line: usize,
    function_name: Seq<char>,
    description: Seq<char>,
) -> bool {
    &&& f.check_name@ == check_name
    &&& f.severity == severity
    &&& f.file_path@ == Seq::<char>::empty()
    &&& f.line == line
    &&& f.function_name@ == function_name
    &&& f.description@ == description
}

/// A check over a source file.
pub trait Check {
    /// The check's name, as it appears in its findings.
    fn name(&self) -> &str;

    /// The findings of the check on `file`; `source` is the file's text.
    fn run(&self, file: &SourceFile, source: &str) -> Vec<Finding>;
}

} // verus!
