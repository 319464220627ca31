use vstd::prelude::*;

use crate::address::Address;
use crate::address::b58_decode_of;
use crate::address::b58_encode_bytes;
use crate::address::is_address_text;
use crate::address::is_b58_seq;
use crate::error::ServiceError;
use crate::instruction::InstructionPayload;
use crate::instruction::TOKEN_PROGRAM_ID;
use crate::instruction::SYSTEM_PROGRAM_ID;
use crate::instruction::accounts_model;
use crate::instruction::build_initialize_mint;
use crate::instruction::build_mint_to;
use crate::instruction::build_transfer_native;
use crate::instruction::build_transfer_token;
use crate::instruction::initialize_mint_accounts;
use crate::instruction::initialize_mint_data;
use crate::instruction::mint_to_accounts;
use crate::instruction::mint_to_data;
use crate::instruction::push_bytes_32;
use crate::instruction::transfer_native_accounts;
use crate::instruction::transfer_native_data;
use crate::instruction::transfer_token_accounts;
use crate::instruction::transfer_token_data;
use crate::signing::SignedMessage;
use crate::signing::generate_keypair;
use crate::signing::secret_accepted;
use crate::signing::secret_seed;
use crate::signing::sig_of;
use crate::signing::sign_message;
use crate::signing::vk_of;

verus! {

/// The standard padded base-64 text of the bytes `b`.
pub uninterp spec fn b64_of(b: Seq<u8>) -> Seq<char>;

/// Relies on base64's `STANDARD` engine (the usual alphabet, with padding):
/// the text is determined by the input bytes alone.
#[verifier::external_body]
fn b64_encode_bytes(b: &[u8]) -> (r: String)
    ensures
        r@ == b64_of(b@),
{
    base64::Engine::encode(&base64::engine::general_purpose::STANDARD, b)
}

/// One account of an instruction in transport form: base-58 address text and
/// the positional flags.
#[derive(Debug)]
pub struct AccountMetaText {
    pub pubkey_text: String,
    pub is_signer: bool,
    pub is_writable: bool,
}

/// An assembled instruction in transport form: base-58 program id, the
/// ordered account list, and the data payload as padded base-64.
#[derive(Debug)]
pub struct InstructionResponse {
    pub program_id_text: String,
    pub accounts: Vec<AccountMetaText>,
    pub data_base64: String,
}

/// A fresh keypair in transport form: the verifying key in base-58, and the
/// secret as base-58 of the concatenated seed and verifying key (64 bytes).
#[derive(Debug)]
pub struct KeypairResponse {
    pub pubkey_text: String,
    pub secret_text: String,
}

/// A signed message in transport form: the signature in padded base-64, the
/// verifying key in base-58, and the message bytes echoed back.
#[derive(Debug)]
pub struct SignMessageResponse {
    pub signature_base64: String,
    pub pubkey_text: String,
    pub message: Vec<u8>,
}

/// Whether the transport response `r` carries exactly the instruction with
/// program id `pid`, account list `accs` (in order, with flags), and data
/// payload `data`.
pub open spec fn resp_matches(
    r: InstructionResponse,
    pid: Seq<u8>,
    accs: Seq<(Seq<u8>, bool, bool)>,
    data: Seq<u8>,
) -> bool {
    &&& is_b58_seq(r.program_id_text@)
    &&& b58_decode_of(r.program_id_text@) == pid
    &&& r.accounts@.len() == accs.len()
    &&& (forall|i: int|
        #![trigger r.accounts@[i]]
        0 <= i < accs.len() ==> {
            &&& is_b58_seq(r.accounts@[i].pubkey_text@)
            &&& b58_decode_of(r.accounts@[i].pubkey_text@) == accs[i].0
            &&& r.accounts@[i].is_signer == accs[i].1
            &&& r.accounts@[i].is_writable == accs[i].2
        })
    &&& r.data_base64@ == b64_of(data)
}

/// Puts an assembled instruction into transport form: every address in
/// base-58, the data payload in base-64, order and flags unchanged.
pub fn instruction_to_response(ix: &InstructionPayload) -> (r: InstructionResponse)
    ensures
        resp_matches(r, ix.program_id@, accounts_model(ix.accounts@), ix.data@),
{
    let program_id_text = ix.program_id.encode();
    let mut accounts: Vec<AccountMetaText> = Vec::new();
    let n = ix.accounts.len();
    let mut i: usize = 0;
    while i < n
        invariant
            0 <= i <= n == ix.accounts@.len(),
            accounts@.len() == i,
            forall|j: int|
                #![trigger accounts@[j]]
                0 <= j < i ==> {
                    &&& is_b58_seq(accounts@[j].pubkey_text@)
                    &&& b58_decode_of(accounts@[j].pubkey_text@) == ix.accounts@[j].address@
                    &&& accounts@[j].is_signer == ix.accounts@[j].is_signer
                    &&& accounts@[j].is_writable == ix.accounts@[j].is_writable
                },
        decreases n - i,
    {
        let a = ix.accounts[i];
        let pubkey_text = a.address.encode();
        accounts.push(
            AccountMetaText { pubkey_text, is_signer: a.is_signer, is_writable: a.is_writable },
        );
        i += 1;
    }
    let data_base64 = b64_encode_bytes(ix.data.as_slice());
    InstructionResponse { program_id_text, accounts, data_base64 }
}

/// Builds a mint-initialization instruction from transport inputs. The mint
/// authority also serves as the freeze authority. Each address text must
/// decode to exactly 32 bytes, else the request fails with `InvalidInput`;
/// no default address is ever substituted.
pub fn initialize_mint_response(mint_authority_text: &str, mint_text: &str, decimals: u8) -> (r:
    Result<InstructionResponse, ServiceError>)
    ensures
        match r {
            Ok(resp) => {
                &&& is_address_text(mint_authority_text@)
                &&& is_address_text(mint_text@)
                &&& resp_matches(
                    resp,
                    TOKEN_PROGRAM_ID@,
                    initialize_mint_accounts(b58_decode_of(mint_text@)),
                    initialize_mint_data(
                        b58_decode_of(mint_authority_text@),
                        Option::Some(b58_decode_of(mint_authority_text@)),
                        decimals,
                    ),
                )
            },
            Err(e) => e == ServiceError::InvalidInput && !(is_address_text(mint_authority_text@)
                && is_address_text(mint_text@)),
        },
{
    let mint_authority = Address::decode(mint_authority_text)?;
    let mint = Address::decode(mint_text)?;
    let ix = build_initialize_mint(&mint_authority, &mint, Some(&mint_authority), decimals);
    Ok(instruction_to_response(&ix))
}

/// Builds a native-unit transfer instruction from transport inputs. Each
/// address text must decode to exactly 32 bytes, else the request fails with
/// `InvalidInput`; no default address is ever substituted.
pub fn transfer_native_response(from_text: &str, to_text: &str, lamports: u64) -> (r: Result<
    InstructionResponse,
    ServiceError,
>)
    ensures
        match r {
            Ok(resp) => {
                &&& is_address_text(from_text@)
                &&& is_address_text(to_text@)
                &&& resp_matches(
                    resp,
                    SYSTEM_PROGRAM_ID@,
                    transfer_native_accounts(b58_decode_of(from_text@), b58_decode_of(to_text@)),
                    transfer_native_data(lamports),
                )
            },
            Err(e) => e == ServiceError::InvalidInput && !(is_address_text(from_text@)
                && is_address_text(to_text@)),
        },
{
    let from = Address::decode(from_text)?;
    let to = Address::decode(to_text)?;
    let ix = build_transfer_native(&from, &to, lamports);
    Ok(instruction_to_response(&ix))
}

/// Builds a token-transfer instruction from transport inputs. Each address
/// text must decode to exactly 32 bytes, else the request fails with
/// `InvalidInput`; no default address is ever substituted.
pub fn transfer_token_response(
    source_text: &str,
    destination_text: &str,
    owner_text: &str,
    amount: u64,
) -> (r: Result<InstructionResponse, ServiceError>)
    ensures
        match r {
            Ok(resp) => {
                &&& is_address_text(source_text@)
                &&& is_address_text(destination_text@)
                &&& is_address_text(owner_text@)
                &&& resp_matches(
                    resp,
                    TOKEN_PROGRAM_ID@,
                    transfer_token_accounts(
                        b58_decode_of(source_text@),
                        b58_decode_of(destination_text@),
                        b58_decode_of(owner_text@),
                    ),
                    transfer_token_data(amount),
                )
            },
            Err(e) => e == ServiceError::InvalidInput && !(is_address_text(source_text@)
                && is_address_text(destination_text@) && is_address_text(owner_text@)),
        },
{
    let source = Address::decode(source_text)?;
    let destination = Address::decode(destination_text)?;
    let owner = Address::decode(owner_text)?;
    let ix = build_transfer_token(&source, &destination, &owner, amount);
    Ok(instruction_to_response(&ix))
}

/// Builds a mint-to instruction from transport inputs. Each address text must
/// decode to exactly 32 bytes, else the request fails with `InvalidInput`; no
/// default address is ever substituted.
pub fn mint_to_response(
    mint_text: &str,
    destination_text: &str,
    authority_text: &str,
    amount: u64,
) -> (r: Result<InstructionResponse, ServiceError>)
    ensures
        match r {
            Ok(resp) => {
                &&& is_address_text(mint_text@)
                &&& is_address_text(destination_text@)
                &&& is_address_text(authority_text@)
                &&& resp_matches(
                    resp,
                    TOKEN_PROGRAM_ID@,
                    mint_to_accounts(
                        b58_decode_of(mint_text@),
                        b58_decode_of(destination_text@),
                        b58_decode_of(authority_text@),
                    ),
                    mint_to_data(amount),
                )
            },
            Err(e) => e == ServiceError::InvalidInput && !(is_address_text(mint_text@)
                && is_address_text(destination_text@) && is_address_text(authority_text@)),
        },
{
    let mint = Address::decode(mint_text)?;
    let destination = Address::decode(destination_text)?;
    let authority = Address::decode(authority_text)?;
    let ix = build_mint_to(&mint, &destination, &authority, amount);
    Ok(instruction_to_response(&ix))
}

/// Generates a fresh keypair and puts it into transport form: the secret text
/// decodes to 64 bytes whose trailing half is exactly the verifying key
/// derived from the leading seed, and the pubkey text decodes to that same
/// verifying key. Fails only when the random source does.
pub fn generate_keypair_response() -> (r: Result<KeypairResponse, ServiceError>)
    ensures
        match r {
            Ok(resp) => {
                &&& is_b58_seq(resp.pubkey_text@)
                &&& is_b58_seq(resp.secret_text@)
                &&& b58_decode_of(resp.secret_text@).len() == 64
                &&& b58_decode_of(resp.secret_text@).subrange(32, 64) == vk_of(
                    b58_decode_of(resp.secret_text@).subrange(0, 32),
                )
                &&& b58_decode_of(resp.pubkey_text@) == b58_decode_of(
                    resp.secret_text@,
                ).subrange(32, 64)
                &&& secret_accepted(b58_decode_of(resp.secret_text@))
            },
            Err(e) => e == ServiceError::InternalError,
        },
{
    let kp = generate_keypair()?;
    let mut combined: Vec<u8> = Vec::new();
    push_bytes_32(&mut combined, &kp.secret);
    push_bytes_32(&mut combined, &kp.verifying);
    proof {
        assert(combined@.subrange(0, 32) =~= kp.secret@);
        assert(combined@.subrange(32, 64) =~= kp.verifying@);
    }
    let secret_text = b58_encode_bytes(combined.as_slice());
    let pubkey_text = b58_encode_bytes(kp.verifying.as_slice());
    Ok(KeypairResponse { pubkey_text, secret_text })
}

/// Signs a message from transport inputs and puts the result into transport
/// form: the signature in padded base-64 and the derived verifying key in
/// base-58. An empty message, text outside base-58, or secret material that
/// is not an accepted seed or consistent 64-byte secret fails with
/// `InvalidInput` and produces nothing.
pub fn sign_message_response(message: &Vec<u8>, secret_text: &str) -> (r: Result<
    SignMessageResponse,
    ServiceError,
>)
    ensures
        match r {
            Ok(resp) => {
                &&& message@.len() > 0
                &&& is_b58_seq(secret_text@)
                &&& secret_accepted(b58_decode_of(secret_text@))
                &&& resp.message@ == message@
                &&& resp.signature_base64@ == b64_of(
                    sig_of(secret_seed(b58_decode_of(secret_text@)), message@),
                )
                &&& is_b58_seq(resp.pubkey_text@)
                &&& b58_decode_of(resp.pubkey_text@) == vk_of(
                    secret_seed(b58_decode_of(secret_text@)),
                )
            },
            Err(e) => {
                &&& e == ServiceError::InvalidInput
                &&& (message@.len() == 0 || !is_b58_seq(secret_text@) || !secret_accepted(
                    b58_decode_of(secret_text@),
                ))
            },
        },
{
    let signed: SignedMessage = sign_message(message, secret_text)?;
    let signature_base64 = b64_encode_bytes(signed.signature.as_slice());
    let pubkey_text = b58_encode_bytes(signed.verifying_key.as_slice());
    Ok(SignMessageResponse { signature_base64, pubkey_text, message: signed.message })
}

} // verus!
