//! Instructions as plain values: a program id, the accounts the
//! instruction touches (each with its signer and writable flags), and
//! the instruction data. The program's wire format frames the data as
//! one tag byte followed by the encoded arguments.

use vstd::prelude::*;

verus! {

/// One account of an instruction: its address and whether it signs and
/// whether it is written.
#[derive(Clone, Copy, Debug)]
pub struct AccountRef {
    pub pubkey: [u8; 32],
    pub is_signer: bool,
    pub is_writable: bool,
}

/// The account entry for `pubkey` with the given flags.
pub open spec fn meta(pubkey: [u8; 32], is_signer: bool, is_writable: bool) -> AccountRef {
    AccountRef { pubkey, is_signer, is_writable }
}

impl View for AccountRef {
    type V = (Seq<u8>, bool, bool);

    /// An account as (address bytes, signs, written).
    open spec fn view(&self) -> (Seq<u8>, bool, bool) {
        (self.pubkey@, self.is_signer, self.is_writable)
    }
}

/// The view of a writable account entry.
pub open spec fn writable(pubkey: Seq<u8>, is_signer: bool) -> (Seq<u8>, bool, bool) {
    (pubkey, is_signer, true)
}

/// The view of a read-only account entry.
pub open spec fn readonly(pubkey: Seq<u8>, is_signer: bool) -> (Seq<u8>, bool, bool) {
    (pubkey, is_signer, false)
}

impl AccountRef {
    /// A writable account (`AccountMeta::new`).
    pub fn writable(pubkey: [u8; 32], is_signer: bool) -> (m: AccountRef)
        ensures
            m == meta(pubkey, is_signer, true),
    {
        AccountRef { pubkey, is_signer, is_writable: true }
    }

    /// A read-only account (`AccountMeta::new_readonly`).
    pub fn readonly(pubkey: [u8; 32], is_signer: bool) -> (m: AccountRef)
        ensures
            m == meta(pubkey, is_signer, false),
    {
        AccountRef { pubkey, is_signer, is_writable: false }
    }
}

/// An instruction for `program_id`.
#[derive(Debug)]
pub struct ProgramIx {
    pub program_id: [u8; 32],
    pub accounts: Vec<AccountRef>,
    pub data: Vec<u8>,
}

impl ProgramIx {
    /// The instruction's accounts, each by its view.
    pub open spec fn accounts_view(&self) -> Seq<(Seq<u8>, bool, bool)> {
        self.accounts@.map_values(|a: AccountRef| a@)
    }
}

/// The program's instruction data: the tag byte, then the encoded
/// arguments.
pub open spec fn framed_data(tag: u8, args: Seq<u8>) -> Seq<u8> {
    seq![tag] + args
}

/// Frame instruction data: one tag byte followed by the encoded
/// arguments (the program's wire format).
pub fn instruction_data(tag: u8, args: &[u8]) -> (data: Vec<u8>)
    ensures
        data@ == framed_data(tag, args@),
{
    let mut data: Vec<u8> = Vec::new();
    data.push(tag);
    crate::wire::append_bytes(&mut data, args);
    data
}

/// Instruction data with no payload: the tag byte alone.
pub fn bare_instruction_data(tag: u8) -> (data: Vec<u8>)
    ensures
        data@ == seq![tag],
{
    let mut data: Vec<u8> = Vec::new();
    data.push(tag);
    data
}

} // verus!
