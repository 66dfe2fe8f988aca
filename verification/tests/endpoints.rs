use sol_gateway::handlers::{
    create_token, keypair, mint_token, send_sol, send_token, sign_message, sign_then_verify,
    verify_message,
};
use solana_sdk::signer::Signer;

const ADDR_A: &str = "11111111111111111111111111111111";
const ADDR_B: &str = "TokenkegQfeZyiNwAJbNbGKPFXCWuBvf9Ss623VQ5DA";
const TOKEN_PROGRAM: &str = "TokenkegQfeZyiNwAJbNbGKPFXCWuBvf9Ss623VQ5DA";
const RENT_SYSVAR: &str = "SysvarRent111111111111111111111111111111111";

fn addr_bytes(s: &str) -> Vec<u8> {
    bs58::decode(s).into_vec().unwrap()
}

#[test]
fn keypair_address_is_valid_and_secret_round_trips() {
    let kp = keypair();
    // The address parses as a public key.
    let parsed: solana_sdk::pubkey::Pubkey = kp.pubkey.parse().unwrap();
    // The secret decodes back to a keypair with the same address.
    let bytes = bs58::decode(&kp.secret).into_vec().unwrap();
    assert_eq!(bytes.len(), 64);
    let recovered = solana_sdk::signature::Keypair::from_bytes(&bytes).unwrap();
    assert_eq!(recovered.pubkey(), parsed);
}

#[test]
fn keypair_secret_round_trips_through_sign() {
    let kp = keypair();
    let signed = sign_message("round trip", &kp.secret).unwrap();
    assert_eq!(signed.public_key, kp.pubkey);
}

#[test]
fn send_sol_success_shape() {
    let d = send_sol(ADDR_A, ADDR_B, 1000).unwrap();
    // The payload echoes the funding address as program_id.
    assert_eq!(d.program_id, ADDR_A);
    // The instruction targets the system program.
    assert_eq!(d.instructions_data.program_id, vec![0u8; 32]);
    // Both addresses appear, funder first as writable signer, then the
    // recipient as writable.
    assert_eq!(d.accounts.len(), 2);
    assert_eq!(d.accounts[0].pubkey, addr_bytes(ADDR_A));
    assert!(d.accounts[0].is_signer);
    assert!(d.accounts[0].is_writable);
    assert_eq!(d.accounts[1].pubkey, addr_bytes(ADDR_B));
    assert!(!d.accounts[1].is_signer);
    assert!(d.accounts[1].is_writable);
    assert_eq!(d.instructions_data.accounts.len(), 2);
    assert_eq!(d.instructions_data.accounts[0].pubkey, addr_bytes(ADDR_A));
    assert_eq!(d.instructions_data.accounts[1].pubkey, addr_bytes(ADDR_B));
    // Payload: transfer tag (2, little-endian u32) then 1000 little-endian.
    assert_eq!(
        d.instructions_data.data,
        vec![2, 0, 0, 0, 232, 3, 0, 0, 0, 0, 0, 0]
    );
}

#[test]
fn send_sol_matches_sdk_builder() {
    let d = send_sol(ADDR_A, ADDR_B, 42).unwrap();
    let from: solana_sdk::pubkey::Pubkey = ADDR_A.parse().unwrap();
    let to: solana_sdk::pubkey::Pubkey = ADDR_B.parse().unwrap();
    let ix = solana_sdk::system_instruction::transfer(&from, &to, 42);
    assert_eq!(d.instructions_data.data, ix.data);
    assert_eq!(d.instructions_data.program_id, ix.program_id.to_bytes().to_vec());
    assert_eq!(d.accounts.len(), ix.accounts.len());
    for (mine, theirs) in d.accounts.iter().zip(ix.accounts.iter()) {
        assert_eq!(mine.pubkey, theirs.pubkey.to_bytes().to_vec());
        assert_eq!(mine.is_signer, theirs.is_signer);
        assert_eq!(mine.is_writable, theirs.is_writable);
    }
}

#[test]
fn send_sol_rejects_bad_from_address() {
    let e = send_sol("not-base58-0OIl", ADDR_B, 5).unwrap_err();
    assert!(!e.success);
    assert!(e.error.starts_with("Invalid from_address: "));
}

#[test]
fn send_sol_rejects_wrong_length_address() {
    // Valid base58, but it decodes to fewer than thirty-two bytes.
    let e = send_sol("111", ADDR_B, 5).unwrap_err();
    assert!(!e.success);
    assert!(e.error.starts_with("Invalid from_address: "));
}

#[test]
fn send_sol_rejects_bad_to_address() {
    let e = send_sol(ADDR_A, "zzz!", 5).unwrap_err();
    assert!(!e.success);
    assert!(e.error.starts_with("Invalid to_address: "));
}

#[test]
fn send_token_success_shape() {
    let kp_owner = keypair();
    let kp_dest = keypair();
    let d = send_token(&kp_dest.pubkey, ADDR_B, &kp_owner.pubkey, 77).unwrap();
    assert_eq!(d.program_id, TOKEN_PROGRAM);
    assert_eq!(d.instructions_data.program_id, addr_bytes(TOKEN_PROGRAM));
    assert_eq!(d.accounts.len(), 4);
    assert_eq!(d.accounts[0].pubkey, addr_bytes(&kp_owner.pubkey));
    assert!(!d.accounts[0].is_signer);
    assert!(d.accounts[0].is_writable);
    assert_eq!(d.accounts[1].pubkey, addr_bytes(&kp_dest.pubkey));
    assert!(!d.accounts[1].is_signer);
    assert!(d.accounts[1].is_writable);
    assert_eq!(d.accounts[2].pubkey, addr_bytes(ADDR_B));
    assert!(!d.accounts[2].is_signer);
    assert!(!d.accounts[2].is_writable);
    assert_eq!(d.accounts[3].pubkey, addr_bytes(&kp_owner.pubkey));
    assert!(d.accounts[3].is_signer);
    assert!(!d.accounts[3].is_writable);
    // Payload: transfer tag 3 then the amount little-endian.
    assert_eq!(d.instructions_data.data, vec![3, 77, 0, 0, 0, 0, 0, 0, 0]);
}

#[test]
fn send_token_matches_sdk_builder() {
    let owner: solana_sdk::pubkey::Pubkey = ADDR_A.parse().unwrap();
    let dest: solana_sdk::pubkey::Pubkey = RENT_SYSVAR.parse().unwrap();
    let mint: solana_sdk::pubkey::Pubkey = ADDR_B.parse().unwrap();
    let ix = spl_token::instruction::transfer(&spl_token::ID, &owner, &dest, &mint, &[&owner], 9)
        .unwrap();
    let d = send_token(RENT_SYSVAR, ADDR_B, ADDR_A, 9).unwrap();
    assert_eq!(d.instructions_data.data, ix.data);
    assert_eq!(d.instructions_data.program_id, ix.program_id.to_bytes().to_vec());
    assert_eq!(d.accounts.len(), ix.accounts.len());
    for (mine, theirs) in d.accounts.iter().zip(ix.accounts.iter()) {
        assert_eq!(mine.pubkey, theirs.pubkey.to_bytes().to_vec());
        assert_eq!(mine.is_signer, theirs.is_signer);
        assert_eq!(mine.is_writable, theirs.is_writable);
    }
}

#[test]
fn send_token_rejects_bad_owner() {
    let e = send_token(ADDR_A, ADDR_B, "bogus0", 1).unwrap_err();
    assert!(!e.success);
    assert!(e.error.starts_with("Invalid owner address: "));
}

#[test]
fn send_token_rejects_bad_destination() {
    let e = send_token("bogus0", ADDR_B, ADDR_A, 1).unwrap_err();
    assert!(!e.success);
    assert!(e.error.starts_with("Invalid destination address: "));
}

#[test]
fn send_token_rejects_bad_mint() {
    let e = send_token(ADDR_B, "bogus0", ADDR_A, 1).unwrap_err();
    assert!(!e.success);
    assert!(e.error.starts_with("Invalid mint address: "));
}

#[test]
fn sign_and_verify_round_trip() {
    let kp = keypair();
    let signed = sign_message("Hello, Solana!", &kp.secret).unwrap();
    assert_eq!(signed.message, "Hello, Solana!");
    assert_eq!(signed.public_key, kp.pubkey);
    let verdict = verify_message(&signed.signature, "Hello, Solana!", &signed.public_key).unwrap();
    assert!(verdict.valid);
    assert_eq!(verdict.message, "Hello, Solana!");
    assert_eq!(verdict.pubkey, kp.pubkey);
}

#[test]
fn sign_then_verify_helper_reports_valid() {
    let kp = keypair();
    assert_eq!(sign_then_verify("any message", &kp.secret), Some(true));
    assert_eq!(sign_then_verify("", &kp.secret), None);
}

#[test]
fn verify_rejects_altered_message() {
    let kp = keypair();
    let signed = sign_message("original", &kp.secret).unwrap();
    let verdict = verify_message(&signed.signature, "altered", &signed.public_key).unwrap();
    assert!(!verdict.valid);
}

#[test]
fn verify_rejects_other_public_key() {
    let kp = keypair();
    let other = keypair();
    let signed = sign_message("original", &kp.secret).unwrap();
    let verdict = verify_message(&signed.signature, "original", &other.pubkey).unwrap();
    assert!(!verdict.valid);
}

#[test]
fn verify_signature_matches_sdk() {
    let kp = keypair();
    let signed = sign_message("cross-check", &kp.secret).unwrap();
    let sig: solana_sdk::signature::Signature = signed.signature.parse().unwrap();
    let pk: solana_sdk::pubkey::Pubkey = signed.public_key.parse().unwrap();
    assert!(sig.verify(pk.as_ref(), "cross-check".as_bytes()));
}

#[test]
fn sign_rejects_empty_message() {
    let kp = keypair();
    let e = sign_message("", &kp.secret).unwrap_err();
    assert!(!e.success);
    assert_eq!(e.error, "Message cannot be empty");
}

#[test]
fn sign_rejects_undecodable_secret() {
    let e = sign_message("hello", "!!not-base58!!").unwrap_err();
    assert!(!e.success);
    assert_eq!(e.error, "Invalid secret");
}

#[test]
fn sign_rejects_wrong_length_secret() {
    // Valid base58, but it does not decode to sixty-four keypair bytes.
    let e = sign_message("hello", ADDR_A).unwrap_err();
    assert!(!e.success);
    assert_eq!(e.error, "Invalid secret");
}

#[test]
fn verify_rejects_bad_signature_encoding() {
    let e = verify_message("???", "msg", ADDR_A).unwrap_err();
    assert!(!e.success);
    assert!(e.error.starts_with("Invalid signature: "));
}

#[test]
fn verify_rejects_bad_public_key() {
    let kp = keypair();
    let signed = sign_message("msg", &kp.secret).unwrap();
    let e = verify_message(&signed.signature, "msg", "short").unwrap_err();
    assert!(!e.success);
    assert!(e.error.starts_with("Invalid public key: "));
}

#[test]
fn create_token_success_shape() {
    let kp_auth = keypair();
    let kp_mint = keypair();
    let d = create_token(&kp_auth.pubkey, &kp_mint.pubkey, 9).unwrap();
    assert_eq!(d.program_id, TOKEN_PROGRAM);
    assert_eq!(d.instructions_data.program_id, addr_bytes(TOKEN_PROGRAM));
    assert_eq!(d.accounts.len(), 2);
    assert_eq!(d.accounts[0].pubkey, addr_bytes(&kp_mint.pubkey));
    assert!(!d.accounts[0].is_signer);
    assert!(d.accounts[0].is_writable);
    assert_eq!(d.accounts[1].pubkey, addr_bytes(RENT_SYSVAR));
    assert!(!d.accounts[1].is_signer);
    assert!(!d.accounts[1].is_writable);
    // Payload: initialise tag 0, decimals, the authority bytes, then a
    // zero byte for the absent freeze authority.
    let mut expected = vec![0u8, 9];
    expected.extend_from_slice(&addr_bytes(&kp_auth.pubkey));
    expected.push(0);
    assert_eq!(d.instructions_data.data, expected);
}

#[test]
fn create_token_matches_sdk_builder() {
    let authority: solana_sdk::pubkey::Pubkey = ADDR_A.parse().unwrap();
    let mint: solana_sdk::pubkey::Pubkey = ADDR_B.parse().unwrap();
    let ix =
        spl_token::instruction::initialize_mint(&spl_token::ID, &mint, &authority, None, 6)
            .unwrap();
    let d = create_token(ADDR_A, ADDR_B, 6).unwrap();
    assert_eq!(d.instructions_data.data, ix.data);
    assert_eq!(d.instructions_data.program_id, ix.program_id.to_bytes().to_vec());
    assert_eq!(d.accounts.len(), ix.accounts.len());
    for (mine, theirs) in d.accounts.iter().zip(ix.accounts.iter()) {
        assert_eq!(mine.pubkey, theirs.pubkey.to_bytes().to_vec());
        assert_eq!(mine.is_signer, theirs.is_signer);
        assert_eq!(mine.is_writable, theirs.is_writable);
    }
}

#[test]
fn create_token_rejects_bad_authority() {
    let e = create_token("oops!", ADDR_B, 9).unwrap_err();
    assert!(!e.success);
    assert!(e.error.starts_with("Invalid mint authority: "));
}

#[test]
fn create_token_rejects_bad_mint() {
    let e = create_token(ADDR_A, "oops!", 9).unwrap_err();
    assert!(!e.success);
    assert!(e.error.starts_with("Invalid mint address: "));
}

#[test]
fn mint_token_success_shape() {
    let kp_mint = keypair();
    let kp_dest = keypair();
    let kp_auth = keypair();
    let d = mint_token(&kp_mint.pubkey, &kp_dest.pubkey, &kp_auth.pubkey, 256).unwrap();
    assert_eq!(d.program_id, TOKEN_PROGRAM);
    assert_eq!(d.instructions_data.program_id, addr_bytes(TOKEN_PROGRAM));
    assert_eq!(d.accounts.len(), 4);
    assert_eq!(d.accounts[0].pubkey, addr_bytes(&kp_mint.pubkey));
    assert!(!d.accounts[0].is_signer);
    assert!(d.accounts[0].is_writable);
    assert_eq!(d.accounts[1].pubkey, addr_bytes(&kp_dest.pubkey));
    assert!(!d.accounts[1].is_signer);
    assert!(d.accounts[1].is_writable);
    assert_eq!(d.accounts[2].pubkey, addr_bytes(&kp_auth.pubkey));
    assert!(!d.accounts[2].is_signer);
    assert!(!d.accounts[2].is_writable);
    assert_eq!(d.accounts[3].pubkey, addr_bytes(&kp_auth.pubkey));
    assert!(d.accounts[3].is_signer);
    assert!(!d.accounts[3].is_writable);
    // Payload: mint tag 7 then the amount little-endian.
    assert_eq!(d.instructions_data.data, vec![7, 0, 1, 0, 0, 0, 0, 0, 0]);
}

#[test]
fn mint_token_matches_sdk_builder() {
    let mint: solana_sdk::pubkey::Pubkey = ADDR_A.parse().unwrap();
    let dest: solana_sdk::pubkey::Pubkey = ADDR_B.parse().unwrap();
    let authority: solana_sdk::pubkey::Pubkey = RENT_SYSVAR.parse().unwrap();
    let ix = spl_token::instruction::mint_to(
        &spl_token::ID,
        &mint,
        &dest,
        &authority,
        &[&authority],
        11,
    )
    .unwrap();
    let d = mint_token(ADDR_A, ADDR_B, RENT_SYSVAR, 11).unwrap();
    assert_eq!(d.instructions_data.data, ix.data);
    assert_eq!(d.instructions_data.program_id, ix.program_id.to_bytes().to_vec());
    assert_eq!(d.accounts.len(), ix.accounts.len());
    for (mine, theirs) in d.accounts.iter().zip(ix.accounts.iter()) {
        assert_eq!(mine.pubkey, theirs.pubkey.to_bytes().to_vec());
        assert_eq!(mine.is_signer, theirs.is_signer);
        assert_eq!(mine.is_writable, theirs.is_writable);
    }
}

#[test]
fn mint_token_rejects_bad_mint() {
    let e = mint_token("nope!", ADDR_B, ADDR_A, 1).unwrap_err();
    assert!(!e.success);
    assert!(e.error.starts_with("Invalid mint address: "));
}

#[test]
fn mint_token_rejects_bad_destination() {
    let e = mint_token(ADDR_A, "nope!", ADDR_B, 1).unwrap_err();
    assert!(!e.success);
    assert!(e.error.starts_with("Invalid destination address: "));
}

#[test]
fn mint_token_rejects_bad_authority() {
    let e = mint_token(ADDR_A, ADDR_B, "nope!", 1).unwrap_err();
    assert!(!e.success);
    assert!(e.error.starts_with("Invalid authority address: "));
}

#[test]
fn error_response_new_keeps_message() {
    let e = sol_gateway::ErrorResponse::new("some message");
    assert!(!e.success);
    assert_eq!(e.error, "some message");
}
