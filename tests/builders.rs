use solana_api::chain::AccountEntry;
use solana_api::response::ApiResponse;
use solana_api::send::{send_sol, send_token, SendSolRequest, SendTokenRequest};
use solana_api::text::{blank, white_space};
use solana_api::token::{create, mint, CreateTokenRequest, MintTokenRequest};

const SYSTEM: &str = "11111111111111111111111111111111";
const TOKEN: &str = "TokenkegQfeZyiNwAJbNbGKPFXCWuBvf9Ss623VQ5DA";
const RENT: &str = "SysvarRent111111111111111111111111111111111";
const A: &str = "4Nd1mBQtrMJVYVfKf2PJy9NZUZdTAsp7D4xWLs4gDB4T";
const B: &str = "9xQeWvG816bUx9EPjHmaT23yvVM2ZWbrrpZb9PusVFin";
const C: &str = "So11111111111111111111111111111111111111112";

fn sol(from: &str, to: &str, lamports: u64) -> SendSolRequest {
    SendSolRequest { from: from.to_string(), to: to.to_string(), lamports }
}

fn tok(destination: &str, mint: &str, owner: &str, amount: u64) -> SendTokenRequest {
    SendTokenRequest {
        destination: destination.to_string(),
        mint: mint.to_string(),
        owner: owner.to_string(),
        amount,
    }
}

#[test]
fn envelope_constructors() {
    let r: ApiResponse<u8> = ApiResponse::ok(3);
    assert!(r.success);
    assert_eq!(r.data, Some(3));
    assert!(r.error.is_none());
    let e: ApiResponse<u8> = ApiResponse::err("nope");
    assert!(!e.success);
    assert!(e.data.is_none());
    assert_eq!(e.error.unwrap(), "nope");
}

#[test]
fn white_space_and_blank() {
    assert!(white_space(' '));
    assert!(white_space('\u{3000}'));
    assert!(!white_space('a'));
    assert!(blank(""));
    assert!(blank(" \u{a0}\t"));
    assert!(!blank(" a "));
}

#[test]
fn send_sol_invalid_sender() {
    let r = send_sol(sol("not-an-address", B, 100));
    assert!(!r.success);
    assert!(r.data.is_none());
    assert_eq!(r.error.unwrap(), "Invalid sender address");
}

#[test]
fn send_sol_invalid_recipient() {
    let r = send_sol(sol(A, "111", 100));
    assert_eq!(r.error.unwrap(), "Invalid recipient address");
}

#[test]
fn send_sol_builds_transfer() {
    let r = send_sol(sol(A, B, 100));
    assert!(r.success);
    let d = r.data.unwrap();
    assert_eq!(d.program_id, SYSTEM);
    assert_eq!(d.accounts, vec![A.to_string(), B.to_string()]);
    assert_eq!(d.instruction_data, "AgAAAGQAAAAAAAAA");
}

#[test]
fn send_sol_is_idempotent() {
    let a = send_sol(sol(A, B, 77)).data.unwrap();
    let b = send_sol(sol(A, B, 77)).data.unwrap();
    assert_eq!(a.program_id, b.program_id);
    assert_eq!(a.accounts, b.accounts);
    assert_eq!(a.instruction_data, b.instruction_data);
}

#[test]
fn send_token_names_each_invalid_field() {
    assert_eq!(send_token(tok(A, "bad", B, 1)).error.unwrap(), "Invalid mint address");
    assert_eq!(send_token(tok("bad", C, B, 1)).error.unwrap(), "Invalid destination address");
    assert_eq!(send_token(tok(A, C, "bad", 1)).error.unwrap(), "Invalid owner address");
}

#[test]
fn send_token_builds_checked_transfer() {
    let r = send_token(tok(A, C, B, 500));
    assert!(r.success);
    let d = r.data.unwrap();
    assert_eq!(d.program_id, TOKEN);
    let accounts: Vec<(String, bool)> = d.accounts.iter().map(|m| (m.pubkey.clone(), m.is_signer)).collect();
    assert_eq!(
        accounts,
        vec![(B.to_string(), false), (C.to_string(), false), (A.to_string(), false), (B.to_string(), true)]
    );
    assert_eq!(d.instruction_data, "DPQBAAAAAAAABg==");
}

#[test]
fn create_names_each_invalid_field() {
    let r = create(CreateTokenRequest { mint_authority: A.to_string(), mint: "x".to_string(), decimals: 9 });
    assert_eq!(r.error.unwrap(), "Invalid mint pubkey");
    let r = create(CreateTokenRequest { mint_authority: "x".to_string(), mint: C.to_string(), decimals: 9 });
    assert_eq!(r.error.unwrap(), "Invalid mint authority pubkey");
}

#[test]
fn create_builds_initialize_mint() {
    let r = create(CreateTokenRequest { mint_authority: SYSTEM.to_string(), mint: C.to_string(), decimals: 9 });
    assert!(r.success);
    let d = r.data.unwrap();
    assert_eq!(d.program_id, TOKEN);
    assert_eq!(d.accounts.len(), 2);
    assert_eq!((d.accounts[0].pubkey.as_str(), d.accounts[0].is_signer, d.accounts[0].is_writable), (C, false, true));
    assert_eq!((d.accounts[1].pubkey.as_str(), d.accounts[1].is_signer, d.accounts[1].is_writable), (RENT, false, false));
    assert_eq!(d.instruction_data, "AAkAAAAAAAAAAAAAAAAAAAAAAAAAAAAAAAAAAAAAAAAAAAA=");
}

#[test]
fn mint_names_each_invalid_field() {
    let r = mint(MintTokenRequest { mint: "x".to_string(), destination: A.to_string(), authority: B.to_string(), amount: 1 });
    assert_eq!(r.error.unwrap(), "Invalid mint pubkey");
    let r = mint(MintTokenRequest { mint: C.to_string(), destination: "x".to_string(), authority: B.to_string(), amount: 1 });
    assert_eq!(r.error.unwrap(), "Invalid destination pubkey");
    let r = mint(MintTokenRequest { mint: C.to_string(), destination: A.to_string(), authority: "x".to_string(), amount: 1 });
    assert_eq!(r.error.unwrap(), "Invalid authority pubkey");
}

#[test]
fn mint_builds_mint_to() {
    let r = mint(MintTokenRequest { mint: C.to_string(), destination: A.to_string(), authority: B.to_string(), amount: 1000 });
    assert!(r.success);
    let d = r.data.unwrap();
    assert_eq!(d.program_id, TOKEN);
    let flags: Vec<(String, bool, bool)> = d.accounts.iter().map(|a| (a.pubkey.clone(), a.is_signer, a.is_writable)).collect();
    assert_eq!(
        flags,
        vec![(C.to_string(), false, true), (A.to_string(), false, true), (B.to_string(), true, false)]
    );
    assert_eq!(d.instruction_data, "B+gDAAAAAAAA");
}

#[test]
fn account_entry_is_plain_data() {
    let e = AccountEntry { pubkey: [1u8; 32], is_signer: true, is_writable: false };
    let f = e;
    assert_eq!(e, f);
}

#[test]
fn token_builders_are_idempotent() {
    let a = send_token(tok(A, C, B, 42)).data.unwrap();
    let b = send_token(tok(A, C, B, 42)).data.unwrap();
    assert_eq!(a.instruction_data, b.instruction_data);
    assert_eq!(a.accounts.len(), b.accounts.len());
    let req = || MintTokenRequest { mint: C.to_string(), destination: A.to_string(), authority: B.to_string(), amount: 9 };
    let m1 = mint(req()).data.unwrap();
    let m2 = mint(req()).data.unwrap();
    assert_eq!(m1.program_id, m2.program_id);
    assert_eq!(m1.instruction_data, m2.instruction_data);
    let c = || CreateTokenRequest { mint_authority: A.to_string(), mint: C.to_string(), decimals: 2 };
    assert_eq!(create(c()).data.unwrap().instruction_data, create(c()).data.unwrap().instruction_data);
}
