//! The failure taxonomy of the engine.
//!
//! On the ledger this engine targets, every failure is transaction-fatal:
//! a violated precondition aborts the whole operation with no partial
//! state.  The engine mirrors that by returning one of these errors and
//! leaving its state untouched; the runtime around it is expected to abort
//! the transaction.

use vstd::prelude::*;

verus! {

#[derive(Clone, Copy, PartialEq, Eq, Structural, Debug)]
pub enum FundError {
    /// `init` was called on an already initialised fund.
    AlreadyInitialised,
    /// `init` was asked to create zero admin credentials.
    NoAdminBadges,
    /// The requested admin count would not exceed the authorizer threshold.
    TooFewAdmins,
    /// The presented admin id is not one of the minted admin credentials.
    InvalidAdminId,
    /// An admin tried to authorize itself.
    SelfAuthorization,
    /// The authorization list is at capacity.
    AuthorizationListFull,
    /// The same authorization was already granted and is still pending.
    DuplicateAuthorization,
    /// Fewer than `min_authorizers` matching authorizations are pending.
    NotAuthorized,
    /// `decrease_min_authorizers` was called with a threshold of zero.
    MinAuthorizersAtZero,
    /// No further admin credential can be minted.
    TooManyAdmins,
    /// A validator owner badge is already held by the fund.
    ValidatorBadgePresent,
    /// The operation needs the validator owner badge, which is not held.
    NoValidatorBadge,
    /// The position list is at capacity.
    ProtocolListFull,
    /// No position with the given name exists.
    ProtocolNotFound,
    /// A percentage argument lies outside 0..=100.
    PercentageOutOfRange,
    /// No oracle component has been configured.
    NoOracle,
    /// No dex component has been configured.
    NoDex,
    /// The operation divides by the fund unit supply, which is zero.
    ZeroUnitSupply,
    /// The gross value of one fund unit is zero, so no unit amount can be
    /// derived from an asset value.
    ZeroUnitValue,
    /// The fund's total value is zero, so allocation percentages are
    /// undefined.
    ZeroTotalValue,
    /// A previous distribution batch has not been fully drained.
    DistributionPending,
    /// No pending unstake claim with the given id exists.
    ClaimNotFound,
    /// The unlocked stake-unit amount is zero.
    NoLsuAvailable,
    /// The fund holds no positions to select from.
    NoProtocols,
    /// A price needed for valuation was not supplied.
    MissingPrice,
    /// An adapter-reported holding needed for valuation was not supplied.
    MissingAmount,
    /// A secondary holding was reported for a position that manages a single
    /// asset.
    AssetMismatch,
    /// The amount of fund units to mint would be negative.
    NegativeMintAmount,
    /// An undelivered remainder was expected but not supplied.
    MissingRemainder,
    /// The withdrawn value exceeds the presented units by more than the
    /// tolerance band.
    TooMuchValueWithdrawn,
    /// A fixed-point computation exceeds the representable range.
    AmountOverflow,
}

} // verus!
