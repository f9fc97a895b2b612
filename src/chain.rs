use vstd::prelude::*;
use std::str::FromStr;
use solana_program::pubkey::Pubkey;
use crate::encoding::base58_decoded;

verus! {

/// One account an instruction touches, with its flags.
#[derive(Clone, Copy, PartialEq, Eq, Debug)]
pub struct AccountEntry {
    pub pubkey: [u8; 32],
    pub is_signer: bool,
    pub is_writable: bool,
}

/// An unsigned instruction: the program that runs it, the accounts in
/// order, and the payload bytes.
pub struct InstructionParts {
    pub program_id: [u8; 32],
    pub accounts: Vec<AccountEntry>,
    pub data: Vec<u8>,
}

/// An account entry as a value.
pub open spec fn entry(pubkey: Seq<u8>, is_signer: bool, is_writable: bool) -> (Seq<u8>, bool, bool) {
    (pubkey, is_signer, is_writable)
}

impl View for AccountEntry {
    type V = (Seq<u8>, bool, bool);

    open spec fn view(&self) -> (Seq<u8>, bool, bool) {
        entry(self.pubkey@, self.is_signer, self.is_writable)
    }
}

impl View for InstructionParts {
    type V = (Seq<u8>, Seq<(Seq<u8>, bool, bool)>, Seq<u8>);

    open spec fn view(&self) -> Self::V {
        (self.program_id@, self.accounts@.map_values(|a: AccountEntry| a@), self.data@)
    }
}

/// What `Pubkey::from_str` accepts: at most 44 characters of base58 that
/// decode to exactly 32 bytes, which are the address.
pub open spec fn address_of(s: Seq<char>) -> Option<Seq<u8>> {
    if s.len() > 44 {
        None
    } else {
        match base58_decoded(s) {
            Some(b) => if b.len() == 32 { Some(b) } else { None },
            None => None,
        }
    }
}

/// The little-endian bytes of a `u64`.
pub open spec fn le_bytes(v: u64) -> Seq<u8> {
    seq![
        (v % 0x100) as u8,
        (v / 0x100 % 0x100) as u8,
        (v / 0x1_0000 % 0x100) as u8,
        (v / 0x100_0000 % 0x100) as u8,
        (v / 0x1_0000_0000 % 0x100) as u8,
        (v / 0x100_0000_0000 % 0x100) as u8,
        (v / 0x1_0000_0000_0000 % 0x100) as u8,
        (v / 0x100_0000_0000_0000 % 0x100) as u8,
    ]
}

/// The system program's address: 32 zero bytes.
pub open spec fn system_program_address() -> Seq<u8> {
    Seq::new(32, |i: int| 0u8)
}

/// The SPL token program's address, `TokenkegQfeZyiNwAJbNbGKPFXCWuBvf9Ss623VQ5DA`.
pub open spec fn token_program_address() -> Seq<u8> {
    seq![
        6u8, 221, 246, 225, 215, 101, 161, 147, 217, 203, 225, 70, 206, 235, 121, 172, 28, 180,
        133, 237, 95, 91, 55, 145, 58, 140, 245, 133, 126, 255, 0, 169,
    ]
}

/// The rent sysvar's address, `SysvarRent111111111111111111111111111111111`.
pub open spec fn rent_sysvar_address() -> Seq<u8> {
    seq![
        6u8, 167, 213, 23, 25, 44, 92, 81, 33, 140, 201, 76, 61, 74, 241, 127, 88, 218, 238, 8,
        155, 161, 253, 68, 227, 219, 217, 138, 0, 0, 0, 0,
    ]
}

/// The native transfer: the system program's `Transfer` (tag 2 as four
/// bytes, then the amount), funded by a writable signer.
pub open spec fn system_transfer_spec(from: Seq<u8>, to: Seq<u8>, lamports: u64) -> (Seq<u8>, Seq<(Seq<u8>, bool, bool)>, Seq<u8>) {
    (
        system_program_address(),
        seq![entry(from, true, true), entry(to, false, true)],
        seq![2u8, 0, 0, 0] + le_bytes(lamports),
    )
}

/// `InitializeMint` with no freeze authority: tag 0, decimals, the mint
/// authority, then a zero for the absent freeze authority.
pub open spec fn initialize_mint_spec(mint: Seq<u8>, authority: Seq<u8>, decimals: u8) -> (Seq<u8>, Seq<(Seq<u8>, bool, bool)>, Seq<u8>) {
    (
        token_program_address(),
        seq![entry(mint, false, true), entry(rent_sysvar_address(), false, false)],
        seq![0u8, decimals] + authority + seq![0u8],
    )
}

/// `MintTo` signed by a single authority: tag 7, then the amount.
pub open spec fn mint_to_spec(mint: Seq<u8>, account: Seq<u8>, owner: Seq<u8>, amount: u64) -> (Seq<u8>, Seq<(Seq<u8>, bool, bool)>, Seq<u8>) {
    (
        token_program_address(),
        seq![entry(mint, false, true), entry(account, false, true), entry(owner, true, false)],
        seq![7u8] + le_bytes(amount),
    )
}

/// `TransferChecked` signed by a single authority: tag 12, the amount, then
/// the decimals.
pub open spec fn transfer_checked_spec(
    source: Seq<u8>,
    mint: Seq<u8>,
    destination: Seq<u8>,
    authority: Seq<u8>,
    amount: u64,
    decimals: u8,
) -> (Seq<u8>, Seq<(Seq<u8>, bool, bool)>, Seq<u8>) {
    (
        token_program_address(),
        seq![
            entry(source, false, true),
            entry(mint, false, false),
            entry(destination, false, true),
            entry(authority, true, false),
        ],
        seq![12u8] + le_bytes(amount) + seq![decimals],
    )
}

/// Relies on `Pubkey::from_str` (solana-program): a text longer than 44
/// characters is refused, else it is base58-decoded with bs58 and must give
/// exactly 32 bytes. A text of at most 44 characters but more than 44 bytes
/// holds a non-ASCII character, which base58 refuses either way.
#[verifier::external_body]
pub(crate) fn parse_address(s: &str) -> (r: Option<[u8; 32]>)
    ensures
        match r {
            Some(b) => address_of(s@) == Some(b@),
            None => address_of(s@) is None,
        },
{
    Pubkey::from_str(s).ok().map(|k| k.to_bytes())
}

/// Relies on `solana_program::system_instruction::transfer`.
#[verifier::external_body]
pub(crate) fn system_transfer(from: &[u8; 32], to: &[u8; 32], lamports: u64) -> (r: InstructionParts)
    ensures
        r@ == system_transfer_spec(from@, to@, lamports),
{
    let ix = solana_program::system_instruction::transfer(
        &Pubkey::new_from_array(*from),
        &Pubkey::new_from_array(*to),
        lamports,
    );
    InstructionParts {
        program_id: ix.program_id.to_bytes(),
        accounts: ix.accounts.iter().map(|m| AccountEntry { pubkey: m.pubkey.to_bytes(), is_signer: m.is_signer, is_writable: m.is_writable }).collect(),
        data: ix.data,
    }
}

/// Relies on `spl_token::instruction::initialize_mint` under `spl_token::id()`,
/// which fails only on another program id.
#[verifier::external_body]
pub(crate) fn initialize_mint(mint: &[u8; 32], authority: &[u8; 32], decimals: u8) -> (r: Option<InstructionParts>)
    ensures
        r is Some,
        r->0@ == initialize_mint_spec(mint@, authority@, decimals),
{
    let ix = spl_token::instruction::initialize_mint(&spl_token::id(), &Pubkey::new_from_array(*mint), &Pubkey::new_from_array(*authority), None, decimals).ok()?;
    Some(InstructionParts {
        program_id: ix.program_id.to_bytes(),
        accounts: ix.accounts.iter().map(|m| AccountEntry { pubkey: m.pubkey.to_bytes(), is_signer: m.is_signer, is_writable: m.is_writable }).collect(),
        data: ix.data,
    })
}

/// Relies on `spl_token::instruction::mint_to` under `spl_token::id()` with
/// no multisig signers; it fails only on another program id.
#[verifier::external_body]
pub(crate) fn mint_to(mint: &[u8; 32], account: &[u8; 32], owner: &[u8; 32], amount: u64) -> (r: Option<InstructionParts>)
    ensures
        r is Some,
        r->0@ == mint_to_spec(mint@, account@, owner@, amount),
{
    let ix = spl_token::instruction::mint_to(&spl_token::id(), &Pubkey::new_from_array(*mint), &Pubkey::new_from_array(*account), &Pubkey::new_from_array(*owner), &[], amount).ok()?;
    Some(InstructionParts {
        program_id: ix.program_id.to_bytes(),
        accounts: ix.accounts.iter().map(|m| AccountEntry { pubkey: m.pubkey.to_bytes(), is_signer: m.is_signer, is_writable: m.is_writable }).collect(),
        data: ix.data,
    })
}

/// Relies on `spl_token::instruction::transfer_checked` under
/// `spl_token::id()` with no multisig signers; it fails only on another
/// program id.
#[verifier::external_body]
pub(crate) fn transfer_checked(
    source: &[u8; 32],
    mint: &[u8; 32],
    destination: &[u8; 32],
    authority: &[u8; 32],
    amount: u64,
    decimals: u8,
) -> (r: Option<InstructionParts>)
    ensures
        r is Some,
        r->0@ == transfer_checked_spec(source@, mint@, destination@, authority@, amount, decimals),
{
    let key = |b: &[u8; 32]| Pubkey::new_from_array(*b);
    let ix = spl_token::instruction::transfer_checked(&spl_token::id(), &key(source), &key(mint), &key(destination), &key(authority), &[], amount, decimals).ok()?;
    Some(InstructionParts {
        program_id: ix.program_id.to_bytes(),
        accounts: ix.accounts.iter().map(|m| AccountEntry { pubkey: m.pubkey.to_bytes(), is_signer: m.is_signer, is_writable: m.is_writable }).collect(),
        data: ix.data,
    })
}

} // verus!
