use vstd::prelude::*;

verus! {

/// Every way an operation of the protocol can fail.
#[derive(Debug, Clone, Copy, PartialEq, Eq, Structural)]
pub enum ErrorCode {
    OperatorFeeTooHigh,
    VaultCapacityReached,
    DepositTooSmall,
    InsufficientVaultBalance,
    VaultNameTooLong,
    InvalidVaultAuthority,
    InsufficientCollateral,
    PositionHealthy,
    ArithmeticOverflow,
    ArithmeticUnderflow,
    DivisionByZero,
    WithdrawalNotReady,
    InvalidWithdrawalTicket,
    InsufficientBufferedSol,
    PositionNotFound,
    OutstandingDebt,
    InvalidCollateralAmount,
    InvalidPsolAmount,
    VaultPaused,
    Unauthorized,
    InvalidVaultState,
    StakeAccountNotFound,
    InvalidStakeState,
    RewardsAlreadyClaimed,
    NoRewardsAvailable,
}

} // verus!
