//! The sample contracts that the checks are exercised on, one safe and one
//! vulnerable variant per pattern.  Each is a contract type without state;
//! its entry points run on the Soroban host.
use vstd::prelude::*;

verus! {

/// All admin functions delegate to a single shared `assert_admin` helper.
pub struct AdminNoGroupAuthSafe;

/// Each admin function independently reads the admin key and calls
/// `require_auth`.
pub struct AdminNoGroupAuthVulnerable;

/// `set_admin` requires the new admin to authenticate before storing it.
pub struct AdminZeroAddressSafe;

/// `set_admin` accepts any address as the new admin without validation.
pub struct AdminZeroAddressVulnerable;

/// `verify` caches `env.crypto()` in a local variable.
pub struct CryptoNoCacheSafe;

/// `verify` calls `env.crypto()` three times.
pub struct CryptoNoCacheVulnerable;

/// `transfer_ownership` clears existing allowances after the transfer.
pub struct OwnershipNoApprovalInvalidationSafe;

/// `transfer_ownership` leaves existing allowances and approvals intact.
pub struct OwnershipNoApprovalInvalidationVulnerable;

/// `accept_ownership` writes the new owner and removes the pending key.
pub struct OwnershipPendingNotClearedSafe;

/// `accept_ownership` writes the new owner but never removes the pending key.
pub struct OwnershipPendingNotClearedVulnerable;

/// `auth` allows access only when the signature check succeeds.
pub struct SigVerifyInvertedSafe;

/// `auth` and `auth2` allow access when the signature check fails.
pub struct SigVerifyInvertedVulnerable;

/// Storage TTLs are extended to 17280 ledgers.
pub struct SafeContract;

/// Storage TTLs are extended to only 100 ledgers.
pub struct VulnerableContract;

} // verus!
