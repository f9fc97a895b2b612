use vstd::prelude::*;
use crate::chain::{
    InstructionParts, address_of, initialize_mint, initialize_mint_spec, mint_to, mint_to_spec,
    parse_address,
};
use crate::encoding::{base58_encode, base58_of, base64_encode, base64_of};
use crate::response::{ApiResponse, answers};

verus! {

pub struct CreateTokenRequest {
    pub mint_authority: String,
    pub mint: String,
    pub decimals: u8,
}

pub struct MintTokenRequest {
    pub mint: String,
    pub destination: String,
    pub authority: String,
    pub amount: u64,
}

pub struct AccountInfo {
    pub pubkey: String,
    pub is_signer: bool,
    pub is_writable: bool,
}

/// A token instruction as text: program, accounts with both flags, base64
/// payload.
pub struct TokenInstructionData {
    pub program_id: String,
    pub accounts: Vec<AccountInfo>,
    pub instruction_data: String,
}

impl View for AccountInfo {
    type V = (Seq<char>, bool, bool);

    open spec fn view(&self) -> Self::V {
        (self.pubkey@, self.is_signer, self.is_writable)
    }
}

impl View for TokenInstructionData {
    type V = (Seq<char>, Seq<(Seq<char>, bool, bool)>, Seq<char>);

    open spec fn view(&self) -> Self::V {
        (self.program_id@, self.accounts@.map_values(|a: AccountInfo| a@), self.instruction_data@)
    }
}

/// An instruction shown with addresses and both flags.
pub open spec fn instruction_payload(ix: (Seq<u8>, Seq<(Seq<u8>, bool, bool)>, Seq<u8>)) -> (Seq<char>, Seq<(Seq<char>, bool, bool)>, Seq<char>) {
    (
        base58_of(ix.0),
        ix.1.map_values(|a: (Seq<u8>, bool, bool)| (base58_of(a.0), a.1, a.2)),
        base64_of(ix.2),
    )
}

/// What `create` answers: the first of mint and mint authority that does
/// not parse, named, or the mint's initialisation without freeze authority.
pub open spec fn create_outcome(mint_authority: Seq<char>, mint: Seq<char>, decimals: u8) -> Result<(Seq<char>, Seq<(Seq<char>, bool, bool)>, Seq<char>), Seq<char>> {
    if address_of(mint) is None {
        Err("Invalid mint pubkey"@)
    } else if address_of(mint_authority) is None {
        Err("Invalid mint authority pubkey"@)
    } else {
        Ok(instruction_payload(initialize_mint_spec(address_of(mint)->0, address_of(mint_authority)->0, decimals)))
    }
}

/// What `mint` answers: the first of mint, destination and authority that
/// does not parse, named, or the minting of `amount` to the destination.
pub open spec fn mint_outcome(mint: Seq<char>, destination: Seq<char>, authority: Seq<char>, amount: u64) -> Result<(Seq<char>, Seq<(Seq<char>, bool, bool)>, Seq<char>), Seq<char>> {
    if address_of(mint) is None {
        Err("Invalid mint pubkey"@)
    } else if address_of(destination) is None {
        Err("Invalid destination pubkey"@)
    } else if address_of(authority) is None {
        Err("Invalid authority pubkey"@)
    } else {
        Ok(instruction_payload(mint_to_spec(address_of(mint)->0, address_of(destination)->0, address_of(authority)->0, amount)))
    }
}

/// Shows an instruction as text.
pub fn respond(inst: InstructionParts) -> (r: ApiResponse<TokenInstructionData>)
    ensures
        answers(r, Ok(instruction_payload(inst@))),
        r.well_formed(),
{
    let mut accounts: Vec<AccountInfo> = Vec::new();
    let mut i: usize = 0;
    while i < inst.accounts.len()
        invariant
            i <= inst.accounts@.len(),
            accounts@.len() == i,
            forall|j: int| 0 <= j < i ==> #[trigger] accounts@[j]@ == (base58_of(inst.accounts@[j].pubkey@), inst.accounts@[j].is_signer, inst.accounts@[j].is_writable),
        decreases inst.accounts@.len() - i,
    {
        let info = AccountInfo {
            pubkey: base58_encode(&inst.accounts[i].pubkey),
            is_signer: inst.accounts[i].is_signer,
            is_writable: inst.accounts[i].is_writable,
        };
        accounts.push(info);
        i = i + 1;
    }
    let data = TokenInstructionData {
        program_id: base58_encode(&inst.program_id),
        accounts,
        instruction_data: base64_encode(inst.data.as_slice()),
    };
    assert(data@.1 =~= instruction_payload(inst@).1);
    ApiResponse::ok(data)
}

/// Builds the initialisation of a mint with the given authority and
/// decimals.
pub fn create(req: CreateTokenRequest) -> (r: ApiResponse<TokenInstructionData>)
    ensures
        answers(r, create_outcome(req.mint_authority@, req.mint@, req.decimals)),
        r.well_formed(),
{
    let mint_pubkey = match parse_address(req.mint.as_str()) {
        Some(k) => k,
        None => return ApiResponse::err("Invalid mint pubkey"),
    };
    let authority = match parse_address(req.mint_authority.as_str()) {
        Some(k) => k,
        None => return ApiResponse::err("Invalid mint authority pubkey"),
    };
    match initialize_mint(&mint_pubkey, &authority, req.decimals) {
        Some(ix) => respond(ix),
        None => ApiResponse::err("Failed to create initialize_mint instruction"),
    }
}

/// Builds the minting of `amount` tokens to the destination, signed by the
/// authority.
pub fn mint(req: MintTokenRequest) -> (r: ApiResponse<TokenInstructionData>)
    ensures
        answers(r, mint_outcome(req.mint@, req.destination@, req.authority@, req.amount)),
        r.well_formed(),
{
    let mint = match parse_address(req.mint.as_str()) {
        Some(k) => k,
        None => return ApiResponse::err("Invalid mint pubkey"),
    };
    let destination = match parse_address(req.destination.as_str()) {
        Some(k) => k,
        None => return ApiResponse::err("Invalid destination pubkey"),
    };
    let authority = match parse_address(req.authority.as_str()) {
        Some(k) => k,
        None => return ApiResponse::err("Invalid authority pubkey"),
    };
    match mint_to(&mint, &destination, &authority, req.amount) {
        Some(ix) => respond(ix),
        None => ApiResponse::err("Failed to create mint_to instruction"),
    }
}

} // verus!
