//! Trusted boundary to the Solana SDK, the SPL token library and the
//! base58 codec. Every function here is `external_body`: its contract is
//! believed, not proved, and states only what the called crate's source
//! shows.

use crate::model::{
    initialize_mint_ix_data, mint_to_ix_data, rent_sysvar_id_bytes, spl_token_id_bytes,
    system_program_id_bytes, token_transfer_ix_data, transfer_ix_data, AccountMetaData,
    InstructionData,
};
use solana_sdk::pubkey::Pubkey;
use solana_sdk::signature::{Keypair, Signature};
use solana_sdk::signer::Signer;
use solana_sdk::system_instruction;
use spl_token::instruction as token_instruction;
use vstd::prelude::*;

verus! {

/// The base58 string that `bs58::encode` produces for a byte string.
pub uninterp spec fn base58_encode(b: Seq<u8>) -> Seq<char>;

/// The bytes that `bs58::decode` recovers from a string, `None` where the
/// string is not valid base58.
pub uninterp spec fn base58_decode(s: Seq<char>) -> Option<Seq<u8>>;

/// The address bytes that `Pubkey::from_str` recovers from a string,
/// `None` where the string is not base58 of exactly thirty-two bytes.
pub uninterp spec fn pubkey_parse(s: Seq<char>) -> Option<Seq<u8>>;

/// The signature bytes that `Signature::from_str` recovers from a string,
/// `None` where the string is not base58 of exactly sixty-four bytes.
pub uninterp spec fn sig_parse(s: Seq<char>) -> Option<Seq<u8>>;

/// Whether `Keypair::from_bytes` accepts a byte string: sixty-four bytes
/// whose public half matches the public key derived from the secret half.
pub uninterp spec fn keypair_accepted(b: Seq<u8>) -> bool;

/// The signature that `Signer::sign_message` produces for a message under
/// a keypair; ed25519 signing is deterministic in both.
pub uninterp spec fn sig_of(keypair: Seq<u8>, msg: Seq<u8>) -> Seq<u8>;

/// What `Signature::verify` reports for a signature, public-key bytes and
/// a message.
pub uninterp spec fn sig_verify(sig: Seq<u8>, pubkey: Seq<u8>, msg: Seq<u8>) -> bool;

/// Relies on `bs58::encode`. Encoding then decoding round-trips, and the
/// address and signature parsers of the SDK accept the encoding of a byte
/// string of their exact size: both decode with `bs58` and an encoding of
/// 32 bytes is at most 44 characters, of 64 bytes at most 88, the parsers'
/// length cutoffs.
#[verifier::external_body]
pub fn encode_base58(b: &[u8]) -> (r: String)
    ensures
        r@ == base58_encode(b@),
        base58_decode(r@) == Some(b@),
        b@.len() == 32 ==> pubkey_parse(r@) == Some(b@),
        b@.len() == 64 ==> sig_parse(r@) == Some(b@),
{
    bs58::encode(b).into_string()
}

/// Relies on `bs58::decode`.
#[verifier::external_body]
pub fn decode_base58(s: &str) -> (r: Option<Vec<u8>>)
    ensures
        match r {
            Some(v) => base58_decode(s@) == Some(v@),
            None => base58_decode(s@) is None,
        },
{
    bs58::decode(s).into_vec().ok()
}

/// Relies on `Pubkey::from_str`: it accepts exactly the base58 strings of
/// thirty-two bytes (of at most 44 characters). The error text is the
/// parse error's display form.
#[verifier::external_body]
pub fn parse_pubkey(s: &str) -> (r: Result<Vec<u8>, String>)
    ensures
        match r {
            Ok(v) => pubkey_parse(s@) == Some(v@) && v@.len() == 32,
            Err(_) => pubkey_parse(s@) is None,
        },
{
    s.parse::<Pubkey>().map(|p| p.to_bytes().to_vec()).map_err(|e| e.to_string())
}

/// Relies on `Signature::from_str`: it accepts exactly the base58 strings
/// of sixty-four bytes (of at most 88 characters). The error text is the
/// parse error's display form.
#[verifier::external_body]
pub fn parse_signature(s: &str) -> (r: Result<Vec<u8>, String>)
    ensures
        match r {
            Ok(v) => sig_parse(s@) == Some(v@) && v@.len() == 64,
            Err(_) => sig_parse(s@) is None,
        },
{
    s.parse::<Signature>().map(|g| g.as_ref().to_vec()).map_err(|e| e.to_string())
}

/// Relies on `Keypair::new` and `Keypair::to_bytes`: a fresh random
/// keypair's byte form is sixty-four bytes that `Keypair::from_bytes`
/// accepts.
#[verifier::external_body]
pub fn generate_keypair_bytes() -> (r: Vec<u8>)
    ensures
        r@.len() == 64,
        keypair_accepted(r@),
{
    Keypair::new().to_bytes().to_vec()
}

/// Relies on `Keypair::from_bytes`: it accepts only sixty-four-byte
/// strings.
#[verifier::external_body]
pub fn keypair_bytes_accepted(b: &[u8]) -> (r: bool)
    ensures
        r == keypair_accepted(b@),
        r ==> b@.len() == 64,
{
    Keypair::from_bytes(b).is_ok()
}

/// Relies on `Keypair::from_bytes` and `Signer::pubkey`: the public key of
/// an accepted keypair is the second half of its byte form.
#[verifier::external_body]
pub fn keypair_public_bytes(b: &[u8]) -> (r: Vec<u8>)
    requires
        keypair_accepted(b@),
    ensures
        r@ == b@.subrange(32, 64),
{
    Keypair::from_bytes(b).unwrap().pubkey().to_bytes().to_vec()
}

/// Relies on `Keypair::from_bytes` and `Signer::sign_message`: ed25519
/// signing is deterministic, produces sixty-four bytes, and a signature
/// made by an accepted keypair verifies against that keypair's public
/// half.
#[verifier::external_body]
pub fn sign_message_bytes(b: &[u8], msg: &[u8]) -> (r: Vec<u8>)
    requires
        keypair_accepted(b@),
    ensures
        r@ == sig_of(b@, msg@),
        r@.len() == 64,
        sig_verify(r@, b@.subrange(32, 64), msg@),
{
    let sig = Keypair::from_bytes(b).unwrap().sign_message(msg);
    sig.as_ref().to_vec()
}

/// Relies on `Signature::verify`: a total check that is false for
/// public-key bytes that are not a valid key.
#[verifier::external_body]
pub fn verify_signature_bytes(sig: &[u8], pubkey: &[u8], msg: &[u8]) -> (r: bool)
    requires
        sig@.len() == 64,
    ensures
        r == sig_verify(sig@, pubkey@, msg@),
{
    Signature::try_from(sig).unwrap().verify(pubkey, msg)
}

/// Relies on `system_instruction::transfer`: it targets the system
/// program (the all-zero address), references the funding account as a
/// writable signer then the recipient as writable, and its payload is the
/// bincode form of the transfer variant.
#[verifier::external_body]
pub fn sys_transfer(from: &[u8], to: &[u8], lamports: u64) -> (r: InstructionData)
    requires
        from@.len() == 32,
        to@.len() == 32,
    ensures
        r.program_id@ == system_program_id_bytes(),
        r.accounts@.len() == 2,
        r.accounts@[0].pubkey@ == from@ && r.accounts@[0].is_signer && r.accounts@[0].is_writable,
        r.accounts@[1].pubkey@ == to@ && !r.accounts@[1].is_signer && r.accounts@[1].is_writable,
        r.data@ == transfer_ix_data(lamports),
{
    let f = Pubkey::try_from(from).unwrap();
    let t = Pubkey::try_from(to).unwrap();
    let ix = system_instruction::transfer(&f, &t, lamports);
    InstructionData {
        program_id: ix.program_id.to_bytes().to_vec(),
        accounts: ix.accounts.iter().map(|m| AccountMetaData {
            pubkey: m.pubkey.to_bytes().to_vec(),
            is_signer: m.is_signer,
            is_writable: m.is_writable,
        }).collect(),
        data: ix.data,
    }
}

/// Relies on `spl_token::instruction::transfer`: it fails exactly when the
/// program id is not the token program's; otherwise it references source
/// and destination as writable, the authority read-only (a signer only
/// when no separate signers are given), then each signer read-only, and
/// its payload is the transfer tag followed by the amount.
#[verifier::external_body]
pub fn spl_transfer(
    token_program: &[u8],
    source: &[u8],
    destination: &[u8],
    authority: &[u8],
    signers: &Vec<Vec<u8>>,
    amount: u64,
) -> (r: Result<InstructionData, String>)
    requires
        token_program@.len() == 32,
        source@.len() == 32,
        destination@.len() == 32,
        authority@.len() == 32,
        forall|i: int| 0 <= i < signers@.len() ==> #[trigger] signers@[i]@.len() == 32,
    ensures
        r is Ok <==> token_program@ == spl_token_id_bytes(),
        r matches Ok(ix) ==> {
            &&& ix.program_id@ == token_program@
            &&& ix.accounts@.len() == 3 + signers@.len()
            &&& ix.accounts@[0].pubkey@ == source@ && !ix.accounts@[0].is_signer
                && ix.accounts@[0].is_writable
            &&& ix.accounts@[1].pubkey@ == destination@ && !ix.accounts@[1].is_signer
                && ix.accounts@[1].is_writable
            &&& ix.accounts@[2].pubkey@ == authority@
                && ix.accounts@[2].is_signer == (signers@.len() == 0)
                && !ix.accounts@[2].is_writable
            &&& forall|i: int| 0 <= i < signers@.len() ==> {
                &&& (#[trigger] ix.accounts@[3 + i]).pubkey@ == signers@[i]@
                &&& ix.accounts@[3 + i].is_signer
                &&& !ix.accounts@[3 + i].is_writable
            }
            &&& ix.data@ == token_transfer_ix_data(amount)
        },
{
    let p = |b: &[u8]| Pubkey::try_from(b).unwrap();
    let keys: Vec<Pubkey> = signers.iter().map(|v| p(v)).collect();
    let refs: Vec<&Pubkey> = keys.iter().collect();
    let ix = token_instruction::transfer(
        &p(token_program), &p(source), &p(destination), &p(authority), &refs, amount,
    ).map_err(|e| e.to_string())?;
    Ok(InstructionData {
        program_id: ix.program_id.to_bytes().to_vec(),
        accounts: ix.accounts.iter().map(|m| AccountMetaData {
            pubkey: m.pubkey.to_bytes().to_vec(), is_signer: m.is_signer, is_writable: m.is_writable,
        }).collect(),
        data: ix.data,
    })
}

/// Relies on `spl_token::instruction::mint_to`: it fails exactly when the
/// program id is not the token program's; otherwise it references the mint
/// and the destination as writable, the owner read-only (a signer only
/// when no separate signers are given), then each signer read-only, and
/// its payload is the mint tag followed by the amount.
#[verifier::external_body]
pub fn spl_mint_to(
    token_program: &[u8],
    mint: &[u8],
    account: &[u8],
    owner: &[u8],
    signers: &Vec<Vec<u8>>,
    amount: u64,
) -> (r: Result<InstructionData, String>)
    requires
        token_program@.len() == 32,
        mint@.len() == 32,
        account@.len() == 32,
        owner@.len() == 32,
        forall|i: int| 0 <= i < signers@.len() ==> #[trigger] signers@[i]@.len() == 32,
    ensures
        r is Ok <==> token_program@ == spl_token_id_bytes(),
        r matches Ok(ix) ==> {
            &&& ix.program_id@ == token_program@
            &&& ix.accounts@.len() == 3 + signers@.len()
            &&& ix.accounts@[0].pubkey@ == mint@ && !ix.accounts@[0].is_signer
                && ix.accounts@[0].is_writable
            &&& ix.accounts@[1].pubkey@ == account@ && !ix.accounts@[1].is_signer
                && ix.accounts@[1].is_writable
            &&& ix.accounts@[2].pubkey@ == owner@
                && ix.accounts@[2].is_signer == (signers@.len() == 0)
                && !ix.accounts@[2].is_writable
            &&& forall|i: int| 0 <= i < signers@.len() ==> {
                &&& (#[trigger] ix.accounts@[3 + i]).pubkey@ == signers@[i]@
                &&& ix.accounts@[3 + i].is_signer
                &&& !ix.accounts@[3 + i].is_writable
            }
            &&& ix.data@ == mint_to_ix_data(amount)
        },
{
    let p = |b: &[u8]| Pubkey::try_from(b).unwrap();
    let keys: Vec<Pubkey> = signers.iter().map(|v| p(v)).collect();
    let refs: Vec<&Pubkey> = keys.iter().collect();
    let ix = token_instruction::mint_to(
        &p(token_program), &p(mint), &p(account), &p(owner), &refs, amount,
    ).map_err(|e| e.to_string())?;
    Ok(InstructionData {
        program_id: ix.program_id.to_bytes().to_vec(),
        accounts: ix.accounts.iter().map(|m| AccountMetaData {
            pubkey: m.pubkey.to_bytes().to_vec(), is_signer: m.is_signer, is_writable: m.is_writable,
        }).collect(),
        data: ix.data,
    })
}

/// Relies on `spl_token::instruction::initialize_mint`: it fails exactly
/// when the program id is not the token program's; otherwise it references
/// the mint as writable and the rent sysvar read-only, and its payload is
/// the initialise tag, the decimals, the authority's bytes and a zero byte
/// for the absent freeze authority.
#[verifier::external_body]
pub fn spl_initialize_mint(
    token_program: &[u8],
    mint: &[u8],
    mint_authority: &[u8],
    decimals: u8,
) -> (r: Result<InstructionData, String>)
    requires
        token_program@.len() == 32,
        mint@.len() == 32,
        mint_authority@.len() == 32,
    ensures
        r is Ok <==> token_program@ == spl_token_id_bytes(),
        r matches Ok(ix) ==> {
            &&& ix.program_id@ == token_program@
            &&& ix.accounts@.len() == 2
            &&& ix.accounts@[0].pubkey@ == mint@ && !ix.accounts@[0].is_signer
                && ix.accounts@[0].is_writable
            &&& ix.accounts@[1].pubkey@ == rent_sysvar_id_bytes()
                && !ix.accounts@[1].is_signer && !ix.accounts@[1].is_writable
            &&& ix.data@ == initialize_mint_ix_data(mint_authority@, decimals)
        },
{
    let p = |b: &[u8]| Pubkey::try_from(b).unwrap();
    let ix = token_instruction::initialize_mint(
        &p(token_program), &p(mint), &p(mint_authority), None, decimals,
    ).map_err(|e| e.to_string())?;
    Ok(InstructionData {
        program_id: ix.program_id.to_bytes().to_vec(),
        accounts: ix.accounts.iter().map(|m| AccountMetaData {
            pubkey: m.pubkey.to_bytes().to_vec(), is_signer: m.is_signer, is_writable: m.is_writable,
        }).collect(),
        data: ix.data,
    })
}

} // verus!
