//! The error types of the system.
//!
//! The token-standard errors (`PSP22Error`, `PSP34Error`, ...) are carried as
//! plain values: the library never raises them itself, it only passes on what
//! a token contract answered.
use vstd::prelude::*;

verus! {

/// Refusals of the ownership check.
#[derive(Debug, Clone, PartialEq, Eq)]
pub enum OwnableError {
    CallerIsNotOwner,
    NewOwnerIsZero,
}

/// Refusals of the pause checks.
#[derive(Debug, Clone, PartialEq, Eq)]
pub enum PausableError {
    Paused,
    NotPaused,
}

/// Refusals of the role checks.
#[derive(Debug, Clone, PartialEq, Eq)]
pub enum AccessControlError {
    InvalidCaller,
    MissingRole,
    RoleRedundant,
}

/// Errors answered by a fungible token.
#[derive(Debug, Clone, PartialEq, Eq)]
pub enum PSP22Error {
    Custom(String),
    InsufficientBalance,
    InsufficientAllowance,
    ZeroRecipientAddress,
    ZeroSenderAddress,
    SafeTransferCheckFailed(String),
}

/// Errors answered by the non-fungible vault token.
#[derive(Debug, Clone, PartialEq, Eq)]
pub enum PSP34Error {
    Custom(String),
    SelfApprove,
    NotApproved,
    TokenExists,
    TokenNotExists,
    SafeTransferCheckFailed(String),
}

/// Answer of a contract that refuses to receive fungible tokens.
#[derive(Debug, Clone, PartialEq, Eq)]
pub enum PSP22ReceiverError {
    TransferRejected(String),
}

#[derive(Debug, Clone, PartialEq, Eq)]
pub enum CollaterallingError {
    PSP22Error(PSP22Error),
}

#[derive(Debug, Clone, PartialEq, Eq)]
pub enum EmittingError {
    PausableError(PausableError),
    CouldntMint,
    PSP22Error(PSP22Error),
}

#[derive(Debug, Clone, PartialEq, Eq)]
pub enum OraclingError {
    CouldntFeed,
    OwnableError(OwnableError),
    AccessControlError(AccessControlError),
}

#[derive(Debug, Clone, PartialEq, Eq)]
pub enum PausingError {
    OwnableError(OwnableError),
    PausableError(PausableError),
}

#[derive(Debug, Clone, PartialEq, Eq)]
pub enum MeasuringError {
    OwnableError(OwnableError),
}

#[derive(Debug, Clone, PartialEq, Eq)]
pub enum SPGeneratingError {
    PausableError(PausableError),
    PSP22Error(PSP22Error),
    OwnableError(OwnableError),
    Controller,
}

#[derive(Debug, Clone, PartialEq, Eq)]
pub enum SPControllingError {
    Generator,
    NoProfit,
    One,
    PSP22Error(PSP22Error),
    OwnableError(OwnableError),
    SPGeneratingError(SPGeneratingError),
}

#[derive(Debug, Clone, PartialEq, Eq)]
pub enum VaultError {
    VaultController,
    OwnerUnexists,
    DebtUnexists,
    CollateralUnexists,
    HasDebt,
    NotEmpty,
    VaultOwnership,
    CollateralBelowMinimum,
    CollateralAboveMinimum,
    Liquidator,
    PSP22Error(PSP22Error),
    PSP34Error(PSP34Error),
    PausableError(PausableError),
    CollaterallingError(CollaterallingError),
    OwnableError(OwnableError),
    EmittingError(EmittingError),
}

#[derive(Debug, Clone, PartialEq, Eq)]
pub enum SControllingError {
    MeasuringError(MeasuringError),
    PSP22Error(PSP22Error),
    OwnableError(OwnableError),
}

#[derive(Debug, Clone, PartialEq, Eq)]
pub enum VControllingError {
    MeasuringError(MeasuringError),
    VaultError(VaultError),
    OwnableError(OwnableError),
}

} // verus!
