use vstd::prelude::*;

verus! {

/// The assets that the token ledger moves.
#[derive(Debug, Clone, Copy, PartialEq, Eq, Structural)]
pub enum Asset {
    /// The base asset (lamports).
    Sol,
    /// Shares of the vault the operation acts on.
    VaultShares,
    /// The synthetic liquidity token.
    Psol,
}

/// Holders of assets, relative to the operation that names them.
#[derive(Debug, Clone, Copy, PartialEq, Eq, Structural)]
pub enum Holder {
    /// The user the operation acts for.
    User,
    /// The vault the operation acts on.
    Vault,
    /// The custody of the user's collateral position.
    Position,
    /// The vault's operator.
    Operator,
    /// The protocol treasury.
    Treasury,
    /// The caller of a liquidation.
    Liquidator,
}

/// One movement of assets that an operation asks the token ledger to perform.
#[derive(Debug, Clone, Copy, PartialEq, Eq, Structural)]
pub enum LedgerOp {
    Transfer { asset: Asset, from: Holder, to: Holder, amount: u64 },
    MintTo { asset: Asset, to: Holder, amount: u64 },
    Burn { asset: Asset, from: Holder, amount: u64 },
}

} // verus!
