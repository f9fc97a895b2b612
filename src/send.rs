use vstd::prelude::*;
use crate::chain::{
    AccountEntry, InstructionParts, address_of, parse_address, system_transfer,
    system_transfer_spec, transfer_checked, transfer_checked_spec,
};
use crate::encoding::{base58_encode, base58_of, base64_encode, base64_of};
use crate::response::{ApiResponse, answers};

verus! {

/// The decimals a token transfer assumes for every mint.
pub const ASSUMED_DECIMALS: u8 = 6;

pub struct SendSolRequest {
    pub from: String,
    pub to: String,
    pub lamports: u64,
}

pub struct SendTokenRequest {
    pub destination: String,
    pub mint: String,
    pub owner: String,
    pub amount: u64,
}

/// A native transfer as text: program, account addresses, base64 payload.
pub struct SolInstructionData {
    pub program_id: String,
    pub accounts: Vec<String>,
    pub instruction_data: String,
}

pub struct TokenAccountMeta {
    pub pubkey: String,
    pub is_signer: bool,
}

/// A token transfer as text: program, accounts with their signer flag,
/// base64 payload.
pub struct TokenInstructionData {
    pub program_id: String,
    pub accounts: Vec<TokenAccountMeta>,
    pub instruction_data: String,
}

impl View for SolInstructionData {
    type V = (Seq<char>, Seq<Seq<char>>, Seq<char>);

    open spec fn view(&self) -> Self::V {
        (self.program_id@, self.accounts@.map_values(|a: String| a@), self.instruction_data@)
    }
}

impl View for TokenAccountMeta {
    type V = (Seq<char>, bool);

    open spec fn view(&self) -> Self::V {
        (self.pubkey@, self.is_signer)
    }
}

impl View for TokenInstructionData {
    type V = (Seq<char>, Seq<(Seq<char>, bool)>, Seq<char>);

    open spec fn view(&self) -> Self::V {
        (
            self.program_id@,
            self.accounts@.map_values(|a: TokenAccountMeta| a@),
            self.instruction_data@,
        )
    }
}

/// An instruction shown with bare account addresses.
pub open spec fn sol_payload(ix: (Seq<u8>, Seq<(Seq<u8>, bool, bool)>, Seq<u8>)) -> (Seq<char>, Seq<Seq<char>>, Seq<char>) {
    (base58_of(ix.0), ix.1.map_values(|a: (Seq<u8>, bool, bool)| base58_of(a.0)), base64_of(ix.2))
}

/// An instruction shown with addresses and signer flags.
pub open spec fn token_payload(ix: (Seq<u8>, Seq<(Seq<u8>, bool, bool)>, Seq<u8>)) -> (Seq<char>, Seq<(Seq<char>, bool)>, Seq<char>) {
    (
        base58_of(ix.0),
        ix.1.map_values(|a: (Seq<u8>, bool, bool)| (base58_of(a.0), a.1)),
        base64_of(ix.2),
    )
}

/// What `send_sol` answers: the first address that does not parse, named,
/// or the system transfer between the two.
pub open spec fn send_sol_outcome(from: Seq<char>, to: Seq<char>, lamports: u64) -> Result<(Seq<char>, Seq<Seq<char>>, Seq<char>), Seq<char>> {
    if address_of(from) is None {
        Err("Invalid sender address"@)
    } else if address_of(to) is None {
        Err("Invalid recipient address"@)
    } else {
        Ok(sol_payload(system_transfer_spec(address_of(from)->0, address_of(to)->0, lamports)))
    }
}

/// What `send_token` answers: the first of mint, destination and owner that
/// does not parse, named, or a checked transfer from the owner's address to
/// the destination, authorised by the owner.
pub open spec fn send_token_outcome(destination: Seq<char>, mint: Seq<char>, owner: Seq<char>, amount: u64) -> Result<(Seq<char>, Seq<(Seq<char>, bool)>, Seq<char>), Seq<char>> {
    if address_of(mint) is None {
        Err("Invalid mint address"@)
    } else if address_of(destination) is None {
        Err("Invalid destination address"@)
    } else if address_of(owner) is None {
        Err("Invalid owner address"@)
    } else {
        let o = address_of(owner)->0;
        Ok(token_payload(transfer_checked_spec(
            o,
            address_of(mint)->0,
            address_of(destination)->0,
            o,
            amount,
            ASSUMED_DECIMALS,
        )))
    }
}

fn sol_data(ix: &InstructionParts) -> (r: SolInstructionData)
    ensures
        r@ == sol_payload(ix@),
{
    let mut accounts: Vec<String> = Vec::new();
    let mut i: usize = 0;
    while i < ix.accounts.len()
        invariant
            i <= ix.accounts@.len(),
            accounts@.len() == i,
            forall|j: int| 0 <= j < i ==> #[trigger] accounts@[j]@ == base58_of(ix.accounts@[j].pubkey@),
        decreases ix.accounts@.len() - i,
    {
        let text = base58_encode(&ix.accounts[i].pubkey);
        accounts.push(text);
        i = i + 1;
    }
    let r = SolInstructionData {
        program_id: base58_encode(&ix.program_id),
        accounts,
        instruction_data: base64_encode(ix.data.as_slice()),
    };
    assert(r@.1 =~= sol_payload(ix@).1);
    r
}

fn token_data(ix: &InstructionParts) -> (r: TokenInstructionData)
    ensures
        r@ == token_payload(ix@),
{
    let mut accounts: Vec<TokenAccountMeta> = Vec::new();
    let mut i: usize = 0;
    while i < ix.accounts.len()
        invariant
            i <= ix.accounts@.len(),
            accounts@.len() == i,
            forall|j: int| 0 <= j < i ==> #[trigger] accounts@[j]@ == (base58_of(ix.accounts@[j].pubkey@), ix.accounts@[j].is_signer),
        decreases ix.accounts@.len() - i,
    {
        let a: AccountEntry = ix.accounts[i];
        let meta = TokenAccountMeta { pubkey: base58_encode(&a.pubkey), is_signer: a.is_signer };
        accounts.push(meta);
        i = i + 1;
    }
    let r = TokenInstructionData {
        program_id: base58_encode(&ix.program_id),
        accounts,
        instruction_data: base64_encode(ix.data.as_slice()),
    };
    assert(r@.1 =~= token_payload(ix@).1);
    r
}

/// Builds the native transfer of `lamports` from one address to another.
pub fn send_sol(req: SendSolRequest) -> (r: ApiResponse<SolInstructionData>)
    ensures
        answers(r, send_sol_outcome(req.from@, req.to@, req.lamports)),
        r.well_formed(),
{
    let from = match parse_address(req.from.as_str()) {
        Some(k) => k,
        None => return ApiResponse::err("Invalid sender address"),
    };
    let to = match parse_address(req.to.as_str()) {
        Some(k) => k,
        None => return ApiResponse::err("Invalid recipient address"),
    };
    let ix = system_transfer(&from, &to, req.lamports);
    ApiResponse::ok(sol_data(&ix))
}

/// Builds a checked token transfer of `amount` from the owner's address to
/// the destination, at the assumed decimals.
pub fn send_token(req: SendTokenRequest) -> (r: ApiResponse<TokenInstructionData>)
    ensures
        answers(r, send_token_outcome(req.destination@, req.mint@, req.owner@, req.amount)),
        r.well_formed(),
{
    let mint = match parse_address(req.mint.as_str()) {
        Some(k) => k,
        None => return ApiResponse::err("Invalid mint address"),
    };
    let dest = match parse_address(req.destination.as_str()) {
        Some(k) => k,
        None => return ApiResponse::err("Invalid destination address"),
    };
    let owner = match parse_address(req.owner.as_str()) {
        Some(k) => k,
        None => return ApiResponse::err("Invalid owner address"),
    };
    let ix = match transfer_checked(&owner, &mint, &dest, &owner, req.amount, ASSUMED_DECIMALS) {
        Some(ix) => ix,
        None => return ApiResponse::err("Failed to create SPL token transfer instruction"),
    };
    ApiResponse::ok(token_data(&ix))
}

} // verus!
