//! The instruction value a builder produces: target program, ordered
//! account list with read/write and signer flags, and argument bytes.
use vstd::prelude::*;
use crate::addr::Address;

verus! {

/// One entry of an instruction's account list.
#[derive(Clone, Debug)]
pub struct AccountMeta {
    pub address: Address,
    pub is_signer: bool,
    pub is_writable: bool,
}

/// The mathematical form of an account entry.
#[verifier::ext_equal]
pub ghost struct AccountModel {
    pub address: Seq<u8>,
    pub is_signer: bool,
    pub is_writable: bool,
}

impl View for AccountMeta {
    type V = AccountModel;

    open spec fn view(&self) -> AccountModel {
        AccountModel {
            address: self.address@,
            is_signer: self.is_signer,
            is_writable: self.is_writable,
        }
    }
}

impl AccountMeta {
    /// A writable account entry.
    pub fn writable(address: Address, is_signer: bool) -> (r: AccountMeta)
        ensures
            r@ == (AccountModel { address: address@, is_signer, is_writable: true }),
    {
        AccountMeta { address, is_signer, is_writable: true }
    }

    /// A read-only account entry.
    pub fn readonly(address: Address, is_signer: bool) -> (r: AccountMeta)
        ensures
            r@ == (AccountModel { address: address@, is_signer, is_writable: false }),
    {
        AccountMeta { address, is_signer, is_writable: false }
    }
}

/// A fully specified instruction: the target program, the ordered account
/// list, and the serialized argument payload. Immutable once built.
#[derive(Clone, Debug)]
pub struct Instruction {
    pub program: Address,
    pub accounts: Vec<AccountMeta>,
    pub data: Vec<u8>,
}

/// The mathematical form of an instruction.
#[verifier::ext_equal]
pub ghost struct InstrModel {
    pub program: Seq<u8>,
    pub accounts: Seq<AccountModel>,
    pub data: Seq<u8>,
}

impl View for Instruction {
    type V = InstrModel;

    open spec fn view(&self) -> InstrModel {
        InstrModel {
            program: self.program@,
            accounts: self.accounts@.map_values(|a: AccountMeta| a@),
            data: self.data@,
        }
    }
}

} // verus!
