//! What the vault reads of the accounts that an operation is handed, and
//! what it hands on to the programs it calls.

use vstd::prelude::*;
use crate::pubkey::Pubkey;

verus! {

/// A pool-token account: where it is, and how many pool tokens it holds.
#[derive(Clone, Copy, Debug, PartialEq, Eq)]
pub struct TokenAccount {
    pub key: Pubkey,
    pub amount: u64,
}

/// An account that came along with an operation, to be passed on.
#[derive(Clone, Copy, Debug, PartialEq, Eq)]
pub struct AccountInfo {
    pub key: Pubkey,
    pub is_signer: bool,
    pub is_writable: bool,
}

impl AccountInfo {
    /// The account as an instruction names it.
    pub open spec fn meta(self) -> AccountMeta {
        AccountMeta { pubkey: self.key, is_signer: self.is_signer, is_writable: self.is_writable }
    }
}

/// An account as an instruction names it.
#[derive(Clone, Copy, Debug, PartialEq, Eq)]
pub struct AccountMeta {
    pub pubkey: Pubkey,
    pub is_signer: bool,
    pub is_writable: bool,
}

/// A call into another program: the program, the accounts it is to work on,
/// and the bytes that tell it what to do.
#[derive(Clone, Debug, PartialEq, Eq)]
pub struct Instruction {
    pub program_id: Pubkey,
    pub accounts: Vec<AccountMeta>,
    pub data: Vec<u8>,
}

/// An order to move `amount` pool tokens from one account to another,
/// signed with `signer_seeds`.
#[derive(Clone, Debug, PartialEq, Eq)]
pub struct Transfer {
    pub from: Pubkey,
    pub to: Pubkey,
    pub amount: u64,
    pub signer_seeds: Vec<Vec<u8>>,
}

} // verus!
