use vstd::bytes::spec_u64_to_le_bytes;
use vstd::prelude::*;

verus! {

/// One account reference carried by an instruction: the account's address
/// bytes, whether the account must sign the transaction, and whether the
/// instruction may write to it.
#[derive(Debug)]
pub struct AccountMetaData {
    pub pubkey: Vec<u8>,
    pub is_signer: bool,
    pub is_writable: bool,
}

/// The abstract content of an account reference: address bytes, signer
/// flag, writable flag.
pub open spec fn meta_model(m: AccountMetaData) -> (Seq<u8>, bool, bool) {
    (m.pubkey@, m.is_signer, m.is_writable)
}

/// An instruction descriptor: the target program's address bytes, the
/// ordered account references, and the opaque payload bytes.
#[derive(Debug)]
pub struct InstructionData {
    pub program_id: Vec<u8>,
    pub accounts: Vec<AccountMetaData>,
    pub data: Vec<u8>,
}

/// Address bytes of the native system program (thirty-two zero bytes).
pub open spec fn system_program_id_bytes() -> Seq<u8> {
    Seq::new(32, |i: int| 0u8)
}

/// Address bytes of the token program.
pub open spec fn spl_token_id_bytes() -> Seq<u8> {
    seq![
        6u8, 221u8, 246u8, 225u8, 215u8, 101u8, 161u8, 147u8,
        217u8, 203u8, 225u8, 70u8, 206u8, 235u8, 121u8, 172u8,
        28u8, 180u8, 133u8, 237u8, 95u8, 91u8, 55u8, 145u8,
        58u8, 140u8, 245u8, 133u8, 126u8, 255u8, 0u8, 169u8,
    ]
}

/// Address bytes of the rent sysvar account.
pub open spec fn rent_sysvar_id_bytes() -> Seq<u8> {
    seq![
        6u8, 167u8, 213u8, 23u8, 25u8, 44u8, 92u8, 81u8,
        33u8, 140u8, 201u8, 76u8, 61u8, 74u8, 241u8, 127u8,
        88u8, 218u8, 238u8, 8u8, 155u8, 161u8, 253u8, 68u8,
        227u8, 219u8, 217u8, 138u8, 0u8, 0u8, 0u8, 0u8,
    ]
}

/// Payload of a native transfer: the little-endian tag of the system
/// program's transfer variant followed by the lamport amount, little-endian.
pub open spec fn transfer_ix_data(lamports: u64) -> Seq<u8> {
    seq![2u8, 0u8, 0u8, 0u8] + spec_u64_to_le_bytes(lamports)
}

/// Payload of a token transfer: a one-byte tag followed by the amount,
/// little-endian.
pub open spec fn token_transfer_ix_data(amount: u64) -> Seq<u8> {
    seq![3u8] + spec_u64_to_le_bytes(amount)
}

/// Payload of a token mint operation: a one-byte tag followed by the
/// amount, little-endian.
pub open spec fn mint_to_ix_data(amount: u64) -> Seq<u8> {
    seq![7u8] + spec_u64_to_le_bytes(amount)
}

/// Payload of a mint initialisation: a one-byte tag, the decimals, the
/// mint authority's address bytes, and a zero byte marking the absent
/// freeze authority.
pub open spec fn initialize_mint_ix_data(authority: Seq<u8>, decimals: u8) -> Seq<u8> {
    seq![0u8, decimals] + authority + seq![0u8]
}

/// The token program's address bytes as a concrete vector.
pub fn spl_token_program_id() -> (r: Vec<u8>)
    ensures
        r@ == spl_token_id_bytes(),
{
    let r: Vec<u8> = vec![
        6u8, 221u8, 246u8, 225u8, 215u8, 101u8, 161u8, 147u8,
        217u8, 203u8, 225u8, 70u8, 206u8, 235u8, 121u8, 172u8,
        28u8, 180u8, 133u8, 237u8, 95u8, 91u8, 55u8, 145u8,
        58u8, 140u8, 245u8, 133u8, 126u8, 255u8, 0u8, 169u8,
    ];
    proof {
        assert(r@ =~= spl_token_id_bytes());
    }
    r
}

/// Copies a list of account references field by field.
pub fn copy_metas(v: &Vec<AccountMetaData>) -> (r: Vec<AccountMetaData>)
    ensures
        r@.len() == v@.len(),
        forall|i: int| 0 <= i < v@.len() ==> meta_model(r@[i]) == meta_model(v@[i]),
{
    let mut r: Vec<AccountMetaData> = Vec::new();
    let mut i: usize = 0;
    while i < v.len()
        invariant
            i <= v@.len(),
            r@.len() == i,
            forall|j: int| 0 <= j < i ==> meta_model(r@[j]) == meta_model(v@[j]),
        decreases v@.len() - i,
    {
        let m = &v[i];
        r.push(AccountMetaData {
            pubkey: copy_bytes(&m.pubkey),
            is_signer: m.is_signer,
            is_writable: m.is_writable,
        });
        i = i + 1;
    }
    r
}

/// Copies a byte vector element by element.
pub fn copy_bytes(v: &Vec<u8>) -> (r: Vec<u8>)
    ensures
        r@ == v@,
{
    let mut r: Vec<u8> = Vec::new();
    let mut i: usize = 0;
    while i < v.len()
        invariant
            i <= v@.len(),
            r@ == v@.subrange(0, i as int),
        decreases v@.len() - i,
    {
        r.push(v[i]);
        i = i + 1;
        proof {
            assert(r@ =~= v@.subrange(0, i as int));
        }
    }
    proof {
        assert(r@ =~= v@);
    }
    r
}

} // verus!
