//! The endpoint logic: each function validates its string-encoded inputs,
//! delegates to the SDK boundary, and shapes the success payload, mirroring
//! one HTTP route each. Malformed input yields an `ErrorResponse` with a
//! descriptive message; well-formed input yields the computed payload.

use crate::model::{
    copy_metas, initialize_mint_ix_data, meta_model, mint_to_ix_data, rent_sysvar_id_bytes,
    spl_token_id_bytes, spl_token_program_id, system_program_id_bytes, token_transfer_ix_data,
    transfer_ix_data, AccountMetaData, InstructionData,
};
use crate::sdk::{
    base58_decode, base58_encode, decode_base58, encode_base58, generate_keypair_bytes,
    keypair_accepted, keypair_bytes_accepted, keypair_public_bytes, parse_pubkey, parse_signature,
    pubkey_parse, sig_of, sig_parse, sig_verify, sign_message_bytes, spl_initialize_mint,
    spl_mint_to, spl_transfer, sys_transfer, verify_signature_bytes,
};
use crate::ErrorResponse;
use vstd::prelude::*;
use vstd::string::StringExecFns;
use vstd::utf8::encode_utf8;

verus! {

/// Whether a string is a well-formed address.
pub open spec fn is_addr(s: Seq<char>) -> bool {
    pubkey_parse(s) is Some
}

/// The address bytes of a well-formed address string.
pub open spec fn addr_bytes(s: Seq<char>) -> Seq<u8> {
    pubkey_parse(s)->Some_0
}

/// Whether `p` is a prefix of `m`.
pub open spec fn has_prefix(m: Seq<char>, p: Seq<char>) -> bool {
    p.len() <= m.len() && m.subrange(0, p.len() as int) == p
}

/// The keypair bytes a secret string stands for: its base58 decoding, if
/// that is a byte string the SDK accepts as a keypair.
pub open spec fn secret_keypair(s: Seq<char>) -> Option<Seq<u8>> {
    match base58_decode(s) {
        Some(b) => if keypair_accepted(b) {
            Some(b)
        } else {
            None
        },
        None => None,
    }
}

/// A fresh keypair's response payload.
#[derive(Debug)]
pub struct KeypairData {
    pub pubkey: String,
    pub secret: String,
}

/// Whether a keypair payload is well formed: the secret decodes to an
/// accepted keypair whose public half the address encodes.
pub open spec fn keypair_data_wf(r: KeypairData) -> bool {
    match base58_decode(r.secret@) {
        Some(b) => {
            &&& b.len() == 64
            &&& keypair_accepted(b)
            &&& r.secret@ == base58_encode(b)
            &&& r.pubkey@ == base58_encode(b.subrange(32, 64))
            &&& pubkey_parse(r.pubkey@) == Some(b.subrange(32, 64))
        },
        None => false,
    }
}

/// A native transfer's response payload.
#[derive(Debug)]
pub struct SendSolData {
    pub program_id: String,
    pub accounts: Vec<AccountMetaData>,
    pub instructions_data: InstructionData,
}

/// A token transfer's response payload.
#[derive(Debug)]
pub struct SendTokenData {
    pub program_id: String,
    pub accounts: Vec<AccountMetaData>,
    pub instructions_data: InstructionData,
}

/// A mint initialisation's response payload.
#[derive(Debug)]
pub struct CreateTokenData {
    pub program_id: String,
    pub accounts: Vec<AccountMetaData>,
    pub instructions_data: InstructionData,
}

/// A token mint operation's response payload.
#[derive(Debug)]
pub struct MintTokenData {
    pub program_id: String,
    pub accounts: Vec<AccountMetaData>,
    pub instructions_data: InstructionData,
}

/// A signing request's response payload.
#[derive(Debug)]
pub struct SignMessageData {
    pub signature: String,
    pub public_key: String,
    pub message: String,
}

/// A verification request's response payload.
#[derive(Debug)]
pub struct VerifyMessageData {
    pub valid: bool,
    pub message: String,
    pub pubkey: String,
}

/// Generates a fresh random keypair and returns its base58 address and its
/// base58 secret encoding. The secret always decodes back to a keypair
/// whose public half is the returned address.
pub fn keypair() -> (r: KeypairData)
    ensures
        keypair_data_wf(r),
{
    let kb = generate_keypair_bytes();
    let pk = keypair_public_bytes(kb.as_slice());
    let secret = encode_base58(kb.as_slice());
    let pubkey = encode_base58(pk.as_slice());
    KeypairData { pubkey, secret }
}

/// Builds the error for a field whose value failed to parse: the fixed
/// prefix naming the field, then the parser's own message.
fn field_error(prefix: &str, detail: &str) -> (r: ErrorResponse)
    ensures
        !r.success,
        r.error@ == prefix@ + detail@,
        has_prefix(r.error@, prefix@),
{
    let msg = prefix.to_owned().concat(detail);
    proof {
        assert(msg@.subrange(0, prefix@.len() as int) =~= prefix@);
    }
    ErrorResponse::new(msg.as_str())
}

/// Parses one address field, or reports a client error whose message
/// opens with the given prefix naming the field.
fn parse_addr_field(s: &str, prefix: &str) -> (r: Result<Vec<u8>, ErrorResponse>)
    ensures
        r is Ok <==> is_addr(s@),
        r matches Ok(v) ==> v@ == addr_bytes(s@) && v@.len() == 32,
        r matches Err(e) ==> !e.success && has_prefix(e.error@, prefix@),
{
    match parse_pubkey(s) {
        Ok(b) => Ok(b),
        Err(e) => Err(field_error(prefix, e.as_str())),
    }
}

/// Builds a native-transfer instruction from a funding address, a
/// recipient address and a lamport amount. Both addresses must parse;
/// the offending field is otherwise named in the error. The payload
/// echoes the funding address as `program_id`, and the instruction
/// references the funder as a writable signer and the recipient as
/// writable.
pub fn send_sol(from_address: &str, to_address: &str, lamports: u64) -> (r: Result<
    SendSolData,
    ErrorResponse,
>)
    ensures
        r is Ok <==> is_addr(from_address@) && is_addr(to_address@),
        r matches Ok(d) ==> {
            &&& d.program_id@ == from_address@
            &&& d.instructions_data.program_id@ == system_program_id_bytes()
            &&& d.instructions_data.accounts@.len() == 2
            &&& meta_model(d.instructions_data.accounts@[0]) == (
                addr_bytes(from_address@),
                true,
                true,
            )
            &&& meta_model(d.instructions_data.accounts@[1]) == (
                addr_bytes(to_address@),
                false,
                true,
            )
            &&& d.instructions_data.data@ == transfer_ix_data(lamports)
            &&& d.accounts@.len() == 2
            &&& meta_model(d.accounts@[0]) == meta_model(d.instructions_data.accounts@[0])
            &&& meta_model(d.accounts@[1]) == meta_model(d.instructions_data.accounts@[1])
        },
        r matches Err(e) ==> {
            &&& !e.success
            &&& (!is_addr(from_address@) ==> has_prefix(e.error@, "Invalid from_address: "@))
            &&& (is_addr(from_address@) ==> has_prefix(e.error@, "Invalid to_address: "@))
        },
{
    let from_b = match parse_addr_field(from_address, "Invalid from_address: ") {
        Ok(b) => b,
        Err(e) => {
            return Err(e);
        },
    };
    let to_b = match parse_addr_field(to_address, "Invalid to_address: ") {
        Ok(b) => b,
        Err(e) => {
            return Err(e);
        },
    };
    let ix = sys_transfer(from_b.as_slice(), to_b.as_slice(), lamports);
    let accounts = copy_metas(&ix.accounts);
    Ok(SendSolData { program_id: from_address.to_owned(), accounts, instructions_data: ix })
}

/// Builds a token-transfer instruction from an owner, a destination and a
/// mint address and an amount. All three addresses must parse; the
/// offending field is otherwise named in the error. The instruction
/// targets the token program and references the owner's account as
/// writable source, the destination as writable, the mint as the
/// (non-signing) authority and the owner again as the signer.
pub fn send_token(destination: &str, mint: &str, owner: &str, amount: u64) -> (r: Result<
    SendTokenData,
    ErrorResponse,
>)
    ensures
        r is Ok <==> is_addr(owner@) && is_addr(destination@) && is_addr(mint@),
        r matches Ok(d) ==> {
            &&& d.program_id@ == base58_encode(spl_token_id_bytes())
            &&& d.instructions_data.program_id@ == spl_token_id_bytes()
            &&& d.instructions_data.accounts@.len() == 4
            &&& meta_model(d.instructions_data.accounts@[0]) == (addr_bytes(owner@), false, true)
            &&& meta_model(d.instructions_data.accounts@[1]) == (
                addr_bytes(destination@),
                false,
                true,
            )
            &&& meta_model(d.instructions_data.accounts@[2]) == (addr_bytes(mint@), false, false)
            &&& meta_model(d.instructions_data.accounts@[3]) == (addr_bytes(owner@), true, false)
            &&& d.instructions_data.data@ == token_transfer_ix_data(amount)
            &&& d.accounts@.len() == 4
            &&& forall|i: int| 0 <= i < 4 ==> meta_model(#[trigger] d.accounts@[i]) == meta_model(
                d.instructions_data.accounts@[i],
            )
        },
        r matches Err(e) ==> {
            &&& !e.success
            &&& (!is_addr(owner@) ==> has_prefix(e.error@, "Invalid owner address: "@))
            &&& (is_addr(owner@) && !is_addr(destination@) ==> has_prefix(
                e.error@,
                "Invalid destination address: "@,
            ))
            &&& (is_addr(owner@) && is_addr(destination@) ==> has_prefix(
                e.error@,
                "Invalid mint address: "@,
            ))
        },
{
    let owner_b = match parse_addr_field(owner, "Invalid owner address: ") {
        Ok(b) => b,
        Err(e) => {
            return Err(e);
        },
    };
    let dest_b = match parse_addr_field(destination, "Invalid destination address: ") {
        Ok(b) => b,
        Err(e) => {
            return Err(e);
        },
    };
    let mint_b = match parse_addr_field(mint, "Invalid mint address: ") {
        Ok(b) => b,
        Err(e) => {
            return Err(e);
        },
    };
    let program = spl_token_program_id();
    let mut signers: Vec<Vec<u8>> = Vec::new();
    signers.push(crate::model::copy_bytes(&owner_b));
    let ix = match spl_transfer(
        program.as_slice(),
        owner_b.as_slice(),
        dest_b.as_slice(),
        mint_b.as_slice(),
        &signers,
        amount,
    ) {
        Ok(ix) => ix,
        Err(e) => {
            return Err(field_error("Failed to create transfer instruction: ", e.as_str()));
        },
    };
    proof {
        let i0: int = 0;
        assert(ix.accounts@[3 + i0].pubkey@ == signers@[i0]@);
        assert(signers@[i0]@ == owner_b@);
    }
    let program_id = encode_base58(program.as_slice());
    let accounts = copy_metas(&ix.accounts);
    Ok(SendTokenData { program_id, accounts, instructions_data: ix })
}

/// Signs a message with the keypair a base58 secret encodes. An empty
/// message and a secret that does not decode to an accepted keypair are
/// rejected. On success the payload carries the base58 signature, the
/// keypair's base58 address and the echoed message; the signature
/// verifies against that address.
pub fn sign_message(message: &str, secret: &str) -> (r: Result<SignMessageData, ErrorResponse>)
    ensures
        r is Ok <==> message@.len() != 0 && secret_keypair(secret@) is Some,
        message@.len() == 0 ==> (r matches Err(e) && e.error@ == "Message cannot be empty"@
            && !e.success),
        message@.len() != 0 && secret_keypair(secret@) is None ==> (r matches Err(e) && e.error@
            == "Invalid secret"@ && !e.success),
        r matches Ok(d) ==> match secret_keypair(secret@) {
            Some(b) => {
                &&& d.message@ == message@
                &&& d.signature@ == base58_encode(sig_of(b, encode_utf8(message@)))
                &&& sig_parse(d.signature@) == Some(sig_of(b, encode_utf8(message@)))
                &&& d.public_key@ == base58_encode(b.subrange(32, 64))
                &&& pubkey_parse(d.public_key@) == Some(b.subrange(32, 64))
                &&& sig_verify(
                    sig_of(b, encode_utf8(message@)),
                    b.subrange(32, 64),
                    encode_utf8(message@),
                )
            },
            None => false,
        },
{
    if message.is_empty() {
        return Err(ErrorResponse::new("Message cannot be empty"));
    }
    let kb = match decode_base58(secret) {
        Some(b) => b,
        None => {
            return Err(ErrorResponse::new("Invalid secret"));
        },
    };
    if !keypair_bytes_accepted(kb.as_slice()) {
        return Err(ErrorResponse::new("Invalid secret"));
    }
    let sig = sign_message_bytes(kb.as_slice(), message.as_bytes());
    let pk = keypair_public_bytes(kb.as_slice());
    Ok(SignMessageData {
        signature: encode_base58(sig.as_slice()),
        public_key: encode_base58(pk.as_slice()),
        message: message.to_owned(),
    })
}

/// Checks a base58 signature against a message and a base58 public key.
/// Both encodings must parse; the offending field is otherwise named in
/// the error. A well-formed signature that does not match yields
/// `valid: false`, not an error.
pub fn verify_message(signature: &str, message: &str, pubkey: &str) -> (r: Result<
    VerifyMessageData,
    ErrorResponse,
>)
    ensures
        r is Ok <==> sig_parse(signature@) is Some && is_addr(pubkey@),
        r matches Ok(d) ==> {
            &&& d.message@ == message@
            &&& d.pubkey@ == pubkey@
            &&& d.valid == sig_verify(
                sig_parse(signature@)->Some_0,
                addr_bytes(pubkey@),
                encode_utf8(message@),
            )
        },
        r matches Err(e) ==> {
            &&& !e.success
            &&& (sig_parse(signature@) is None ==> has_prefix(e.error@, "Invalid signature: "@))
            &&& (sig_parse(signature@) is Some ==> has_prefix(e.error@, "Invalid public key: "@))
        },
{
    let sig_b = match parse_signature(signature) {
        Ok(b) => b,
        Err(e) => {
            return Err(field_error("Invalid signature: ", e.as_str()));
        },
    };
    let pk_b = match parse_addr_field(pubkey, "Invalid public key: ") {
        Ok(b) => b,
        Err(e) => {
            return Err(e);
        },
    };
    let valid = verify_signature_bytes(sig_b.as_slice(), pk_b.as_slice(), message.as_bytes());
    Ok(VerifyMessageData { valid, message: message.to_owned(), pubkey: pubkey.to_owned() })
}

/// Builds a mint-initialisation instruction from a mint authority, a mint
/// address and a decimals count. Both addresses must parse; the offending
/// field is otherwise named in the error. The instruction targets the
/// token program and references the mint as writable and the rent sysvar
/// read-only.
pub fn create_token(mint_authority: &str, mint: &str, decimals: u8) -> (r: Result<
    CreateTokenData,
    ErrorResponse,
>)
    ensures
        r is Ok <==> is_addr(mint_authority@) && is_addr(mint@),
        r matches Ok(d) ==> {
            &&& d.program_id@ == base58_encode(spl_token_id_bytes())
            &&& d.instructions_data.program_id@ == spl_token_id_bytes()
            &&& d.instructions_data.accounts@.len() == 2
            &&& meta_model(d.instructions_data.accounts@[0]) == (addr_bytes(mint@), false, true)
            &&& meta_model(d.instructions_data.accounts@[1]) == (
                rent_sysvar_id_bytes(),
                false,
                false,
            )
            &&& d.instructions_data.data@ == initialize_mint_ix_data(
                addr_bytes(mint_authority@),
                decimals,
            )
            &&& d.accounts@.len() == 2
            &&& meta_model(d.accounts@[0]) == meta_model(d.instructions_data.accounts@[0])
            &&& meta_model(d.accounts@[1]) == meta_model(d.instructions_data.accounts@[1])
        },
        r matches Err(e) ==> {
            &&& !e.success
            &&& (!is_addr(mint_authority@) ==> has_prefix(e.error@, "Invalid mint authority: "@))
            &&& (is_addr(mint_authority@) ==> has_prefix(e.error@, "Invalid mint address: "@))
        },
{
    let authority_b = match parse_addr_field(mint_authority, "Invalid mint authority: ") {
        Ok(b) => b,
        Err(e) => {
            return Err(e);
        },
    };
    let mint_b = match parse_addr_field(mint, "Invalid mint address: ") {
        Ok(b) => b,
        Err(e) => {
            return Err(e);
        },
    };
    let program = spl_token_program_id();
    let ix = match spl_initialize_mint(
        program.as_slice(),
        mint_b.as_slice(),
        authority_b.as_slice(),
        decimals,
    ) {
        Ok(ix) => ix,
        Err(e) => {
            return Err(field_error("Failed to create mint instruction: ", e.as_str()));
        },
    };
    let program_id = encode_base58(program.as_slice());
    let accounts = copy_metas(&ix.accounts);
    Ok(CreateTokenData { program_id, accounts, instructions_data: ix })
}

/// Builds a mint-to instruction from a mint, a destination and an
/// authority address and an amount. All three addresses must parse; the
/// offending field is otherwise named in the error. The instruction
/// targets the token program and references the mint and the destination
/// as writable, the authority as the (non-signing) owner and the
/// authority again as the signer.
pub fn mint_token(mint: &str, destination: &str, authority: &str, amount: u64) -> (r: Result<
    MintTokenData,
    ErrorResponse,
>)
    ensures
        r is Ok <==> is_addr(mint@) && is_addr(destination@) && is_addr(authority@),
        r matches Ok(d) ==> {
            &&& d.program_id@ == base58_encode(spl_token_id_bytes())
            &&& d.instructions_data.program_id@ == spl_token_id_bytes()
            &&& d.instructions_data.accounts@.len() == 4
            &&& meta_model(d.instructions_data.accounts@[0]) == (addr_bytes(mint@), false, true)
            &&& meta_model(d.instructions_data.accounts@[1]) == (
                addr_bytes(destination@),
                false,
                true,
            )
            &&& meta_model(d.instructions_data.accounts@[2]) == (
                addr_bytes(authority@),
                false,
                false,
            )
            &&& meta_model(d.instructions_data.accounts@[3]) == (
                addr_bytes(authority@),
                true,
                false,
            )
            &&& d.instructions_data.data@ == mint_to_ix_data(amount)
            &&& d.accounts@.len() == 4
            &&& forall|i: int| 0 <= i < 4 ==> meta_model(#[trigger] d.accounts@[i]) == meta_model(
                d.instructions_data.accounts@[i],
            )
        },
        r matches Err(e) ==> {
            &&& !e.success
            &&& (!is_addr(mint@) ==> has_prefix(e.error@, "Invalid mint address: "@))
            &&& (is_addr(mint@) && !is_addr(destination@) ==> has_prefix(
                e.error@,
                "Invalid destination address: "@,
            ))
            &&& (is_addr(mint@) && is_addr(destination@) ==> has_prefix(
                e.error@,
                "Invalid authority address: "@,
            ))
        },
{
    let mint_b = match parse_addr_field(mint, "Invalid mint address: ") {
        Ok(b) => b,
        Err(e) => {
            return Err(e);
        },
    };
    let dest_b = match parse_addr_field(destination, "Invalid destination address: ") {
        Ok(b) => b,
        Err(e) => {
            return Err(e);
        },
    };
    let authority_b = match parse_addr_field(authority, "Invalid authority address: ") {
        Ok(b) => b,
        Err(e) => {
            return Err(e);
        },
    };
    let program = spl_token_program_id();
    let mut signers: Vec<Vec<u8>> = Vec::new();
    signers.push(crate::model::copy_bytes(&authority_b));
    let ix = match spl_mint_to(
        program.as_slice(),
        mint_b.as_slice(),
        dest_b.as_slice(),
        authority_b.as_slice(),
        &signers,
        amount,
    ) {
        Ok(ix) => ix,
        Err(e) => {
            return Err(field_error("Failed to create mint instruction: ", e.as_str()));
        },
    };
    proof {
        let i0: int = 0;
        assert(ix.accounts@[3 + i0].pubkey@ == signers@[i0]@);
        assert(signers@[i0]@ == authority_b@);
    }
    let program_id = encode_base58(program.as_slice());
    let accounts = copy_metas(&ix.accounts);
    Ok(MintTokenData { program_id, accounts, instructions_data: ix })
}

/// Signing a message and then verifying the returned signature against the
/// returned public key always reports it valid.
pub fn sign_then_verify(message: &str, secret: &str) -> (r: Option<bool>)
    ensures
        r is Some <==> message@.len() != 0 && secret_keypair(secret@) is Some,
        r matches Some(v) ==> v == true,
{
    match sign_message(message, secret) {
        Ok(d) => match verify_message(d.signature.as_str(), message, d.public_key.as_str()) {
            Ok(vd) => Some(vd.valid),
            Err(_) => {
                proof {
                    assert(false);
                }
                None
            },
        },
        Err(_) => None,
    }
}

} // verus!
