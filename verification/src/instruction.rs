use vstd::prelude::*;

use crate::address::Address;

verus! {

/// The token program's id, `TokenkegQfeZyiNwAJbNbGKPFXCWuBvf9Ss623VQ5DA` in
/// base-58: owner of mint, transfer-token and mint-to instructions.
pub const TOKEN_PROGRAM_ID: [u8; 32] = [
    6, 221, 246, 225, 215, 101, 161, 147, 217, 203, 225, 70, 206, 235, 121, 172, 28, 180, 133,
    237, 95, 91, 55, 145, 58, 140, 245, 133, 126, 255, 0, 169,
];

/// The system program's id: 32 zero bytes, `11111111111111111111111111111111`
/// in base-58. Owner of native-unit transfers.
pub const SYSTEM_PROGRAM_ID: [u8; 32] = [
    0, 0, 0, 0, 0, 0, 0, 0, 0, 0, 0, 0, 0, 0, 0, 0, 0, 0, 0, 0, 0, 0, 0, 0, 0, 0, 0, 0, 0, 0, 0,
    0,
];

/// The rent sysvar's id, `SysvarRent111111111111111111111111111111111` in
/// base-58: the read-only account a mint initialization names second.
pub const RENT_SYSVAR_ID: [u8; 32] = [
    6, 167, 213, 23, 25, 44, 92, 81, 33, 140, 201, 76, 61, 74, 241, 127, 88, 218, 238, 8, 155,
    161, 253, 68, 227, 219, 217, 138, 0, 0, 0, 0,
];

/// Data-payload tag of a mint initialization in the token program.
pub const INITIALIZE_MINT_TAG: u8 = 0;

/// Data-payload tag of a token transfer in the token program.
pub const TRANSFER_TOKEN_TAG: u8 = 3;

/// Data-payload tag of a mint-to in the token program.
pub const MINT_TO_TAG: u8 = 7;

/// First of the four little-endian bytes tagging a native transfer in the
/// system program's data payload (`2u32` encoded little-endian).
pub const TRANSFER_NATIVE_TAG: u8 = 2;

/// One account named by an instruction, with its positional flags: whether it
/// must sign and whether it may be written. Order within an instruction is
/// part of the binary contract with the receiving program.
#[derive(Clone, Copy, Debug)]
pub struct AccountRef {
    pub address: Address,
    pub is_signer: bool,
    pub is_writable: bool,
}

/// One assembled instruction: the program that will decode it, the ordered
/// account list, and the binary data payload. Fully determined by the
/// builder's inputs.
#[derive(Debug)]
pub struct InstructionPayload {
    pub program_id: Address,
    pub accounts: Vec<AccountRef>,
    pub data: Vec<u8>,
}

/// The mathematical shape of one account entry: (address bytes, is_signer,
/// is_writable).
pub open spec fn account_model(a: AccountRef) -> (Seq<u8>, bool, bool) {
    (a.address@, a.is_signer, a.is_writable)
}

/// The mathematical shape of an account list.
pub open spec fn accounts_model(s: Seq<AccountRef>) -> Seq<(Seq<u8>, bool, bool)> {
    s.map_values(|a: AccountRef| account_model(a))
}

/// The eight bytes of `v` in little-endian order.
pub open spec fn u64_le_bytes(v: u64) -> Seq<u8> {
    seq![
        (v & 0xff) as u8,
        ((v >> 8) & 0xff) as u8,
        ((v >> 16) & 0xff) as u8,
        ((v >> 24) & 0xff) as u8,
        ((v >> 32) & 0xff) as u8,
        ((v >> 40) & 0xff) as u8,
        ((v >> 48) & 0xff) as u8,
        ((v >> 56) & 0xff) as u8,
    ]
}

/// The number an 8-byte little-endian sequence stands for.
pub open spec fn u64_from_le_bytes(s: Seq<u8>) -> int
    recommends
        s.len() == 8,
{
    s[0] + s[1] * 0x100 + s[2] * 0x1_0000 + s[3] * 0x100_0000 + s[4] * 0x1_0000_0000 + s[5]
        * 0x100_0000_0000 + s[6] * 0x1_0000_0000_0000 + s[7] * 0x100_0000_0000_0000
}

/// The little-endian encoding loses nothing: reading the eight bytes back
/// yields the encoded number, for every `u64`.
pub proof fn lemma_u64_le_bytes_value(v: u64)
    ensures
        u64_from_le_bytes(u64_le_bytes(v)) == v,
{
    assert(v & 0xff < 0x100 && (v >> 8) & 0xff < 0x100 && (v >> 16) & 0xff < 0x100 && (v >> 24)
        & 0xff < 0x100 && (v >> 32) & 0xff < 0x100 && (v >> 40) & 0xff < 0x100 && (v >> 48)
        & 0xff < 0x100 && (v >> 56) & 0xff < 0x100) by (bit_vector);
    assert((v & 0xff) + ((v >> 8) & 0xff) * 0x100 + ((v >> 16) & 0xff) * 0x1_0000 + ((v >> 24)
        & 0xff) * 0x100_0000 + ((v >> 32) & 0xff) * 0x1_0000_0000 + ((v >> 40) & 0xff)
        * 0x100_0000_0000 + ((v >> 48) & 0xff) * 0x1_0000_0000_0000 + ((v >> 56) & 0xff)
        * 0x100_0000_0000_0000 == v) by (bit_vector);
}

/// Appends the eight little-endian bytes of `v`.
pub(crate) fn push_u64_le(data: &mut Vec<u8>, v: u64)
    ensures
        final(data)@ == old(data)@ + u64_le_bytes(v),
{
    data.push((v & 0xff) as u8);
    data.push(((v >> 8) & 0xff) as u8);
    data.push(((v >> 16) & 0xff) as u8);
    data.push(((v >> 24) & 0xff) as u8);
    data.push(((v >> 32) & 0xff) as u8);
    data.push(((v >> 40) & 0xff) as u8);
    data.push(((v >> 48) & 0xff) as u8);
    data.push(((v >> 56) & 0xff) as u8);
    proof {
        assert(data@ =~= old(data)@ + u64_le_bytes(v));
    }
}

/// Appends all 32 bytes of `b`.
pub(crate) fn push_bytes_32(data: &mut Vec<u8>, b: &[u8; 32])
    ensures
        final(data)@ == old(data)@ + b@,
{
    let mut i: usize = 0;
    while i < 32
        invariant
            0 <= i <= 32,
            data@ == old(data)@ + b@.subrange(0, i as int),
        decreases 32 - i,
    {
        data.push(b[i]);
        proof {
            assert(data@ =~= old(data)@ + b@.subrange(0, i + 1));
        }
        i += 1;
    }
    proof {
        assert(b@.subrange(0, 32) =~= b@);
    }
}

/// Data payload of a mint initialization: tag, decimals, the mint authority,
/// then an option flag followed by the freeze authority when one is set.
pub open spec fn initialize_mint_data(
    authority: Seq<u8>,
    freeze: Option<Seq<u8>>,
    decimals: u8,
) -> Seq<u8> {
    seq![INITIALIZE_MINT_TAG, decimals] + authority + match freeze {
        Option::None => seq![0u8],
        Option::Some(f) => seq![1u8] + f,
    }
}

/// Account order of a mint initialization: the mint (writable), then the rent
/// sysvar (read-only). The authorities ride in the data payload, not in the
/// account list.
pub open spec fn initialize_mint_accounts(mint: Seq<u8>) -> Seq<(Seq<u8>, bool, bool)> {
    seq![(mint, false, true), (RENT_SYSVAR_ID@, false, false)]
}

/// Data payload of a native-unit transfer: the system program's four-byte
/// little-endian transfer tag, then the amount as eight little-endian bytes.
pub open spec fn transfer_native_data(lamports: u64) -> Seq<u8> {
    seq![TRANSFER_NATIVE_TAG, 0u8, 0u8, 0u8] + u64_le_bytes(lamports)
}

/// Account order of a native-unit transfer: the funding account (signer,
/// writable), then the recipient (writable).
pub open spec fn transfer_native_accounts(from: Seq<u8>, to: Seq<u8>) -> Seq<
    (Seq<u8>, bool, bool),
> {
    seq![(from, true, true), (to, false, true)]
}

/// Data payload of a token transfer: tag, then the amount as eight
/// little-endian bytes.
pub open spec fn transfer_token_data(amount: u64) -> Seq<u8> {
    seq![TRANSFER_TOKEN_TAG] + u64_le_bytes(amount)
}

/// Account order of a token transfer: source (writable), destination
/// (writable), then the owner (signer, read-only).
pub open spec fn transfer_token_accounts(
    source: Seq<u8>,
    destination: Seq<u8>,
    owner: Seq<u8>,
) -> Seq<(Seq<u8>, bool, bool)> {
    seq![(source, false, true), (destination, false, true), (owner, true, false)]
}

/// Data payload of a mint-to: tag, then the amount as eight little-endian
/// bytes.
pub open spec fn mint_to_data(amount: u64) -> Seq<u8> {
    seq![MINT_TO_TAG] + u64_le_bytes(amount)
}

/// Account order of a mint-to: the mint (writable), the destination
/// (writable), then the mint authority (signer, read-only).
pub open spec fn mint_to_accounts(mint: Seq<u8>, destination: Seq<u8>, authority: Seq<u8>) -> Seq<
    (Seq<u8>, bool, bool),
> {
    seq![(mint, false, true), (destination, false, true), (authority, true, false)]
}

/// Assembles a mint-initialization instruction for the token program. The
/// freeze authority is optional; the mint authority is embedded in the data
/// payload, never in the account list.
pub fn build_initialize_mint(
    mint_authority: &Address,
    mint: &Address,
    freeze_authority: Option<&Address>,
    decimals: u8,
) -> (r: InstructionPayload)
    ensures
        r.program_id@ == TOKEN_PROGRAM_ID@,
        r.accounts@.len() == 2,
        accounts_model(r.accounts@) == initialize_mint_accounts(mint@),
        r.data@ == initialize_mint_data(
            mint_authority@,
            match freeze_authority {
                Option::None => Option::<Seq<u8>>::None,
                Option::Some(f) => Option::Some(f@),
            },
            decimals,
        ),
{
    let mut data: Vec<u8> = Vec::new();
    data.push(INITIALIZE_MINT_TAG);
    data.push(decimals);
    push_bytes_32(&mut data, &mint_authority.bytes);
    match freeze_authority {
        None => data.push(0u8),
        Some(f) => {
            data.push(1u8);
            push_bytes_32(&mut data, &f.bytes);
        },
    }
    let mut accounts: Vec<AccountRef> = Vec::new();
    accounts.push(AccountRef { address: *mint, is_signer: false, is_writable: true });
    accounts.push(
        AccountRef {
            address: (Address { bytes: RENT_SYSVAR_ID }),
            is_signer: false,
            is_writable: false,
        },
    );
    proof {
        assert(accounts_model(accounts@) =~= initialize_mint_accounts(mint@));
        assert(data@ =~= initialize_mint_data(
            mint_authority@,
            match freeze_authority {
                Option::None => Option::<Seq<u8>>::None,
                Option::Some(f) => Option::Some(f@),
            },
            decimals,
        ));
    }
    InstructionPayload { program_id: (Address { bytes: TOKEN_PROGRAM_ID }), accounts, data }
}

/// Assembles a native-unit transfer instruction for the system program.
pub fn build_transfer_native(from: &Address, to: &Address, lamports: u64) -> (r:
    InstructionPayload)
    ensures
        r.program_id@ == SYSTEM_PROGRAM_ID@,
        r.accounts@.len() == 2,
        accounts_model(r.accounts@) == transfer_native_accounts(from@, to@),
        r.data@ == transfer_native_data(lamports),
{
    let mut data: Vec<u8> = Vec::new();
    data.push(TRANSFER_NATIVE_TAG);
    data.push(0u8);
    data.push(0u8);
    data.push(0u8);
    push_u64_le(&mut data, lamports);
    let mut accounts: Vec<AccountRef> = Vec::new();
    accounts.push(AccountRef { address: *from, is_signer: true, is_writable: true });
    accounts.push(AccountRef { address: *to, is_signer: false, is_writable: true });
    proof {
        assert(accounts_model(accounts@) =~= transfer_native_accounts(from@, to@));
        assert(data@ =~= transfer_native_data(lamports));
    }
    InstructionPayload { program_id: (Address { bytes: SYSTEM_PROGRAM_ID }), accounts, data }
}

/// Assembles a token-transfer instruction for the token program.
pub fn build_transfer_token(
    source: &Address,
    destination: &Address,
    owner: &Address,
    amount: u64,
) -> (r: InstructionPayload)
    ensures
        r.program_id@ == TOKEN_PROGRAM_ID@,
        r.accounts@.len() == 3,
        accounts_model(r.accounts@) == transfer_token_accounts(source@, destination@, owner@),
        r.data@ == transfer_token_data(amount),
{
    let mut data: Vec<u8> = Vec::new();
    data.push(TRANSFER_TOKEN_TAG);
    push_u64_le(&mut data, amount);
    let mut accounts: Vec<AccountRef> = Vec::new();
    accounts.push(AccountRef { address: *source, is_signer: false, is_writable: true });
    accounts.push(AccountRef { address: *destination, is_signer: false, is_writable: true });
    accounts.push(AccountRef { address: *owner, is_signer: true, is_writable: false });
    proof {
        assert(accounts_model(accounts@) =~= transfer_token_accounts(
            source@,
            destination@,
            owner@,
        ));
        assert(data@ =~= transfer_token_data(amount));
    }
    InstructionPayload { program_id: (Address { bytes: TOKEN_PROGRAM_ID }), accounts, data }
}

/// Assembles a mint-to instruction for the token program.
pub fn build_mint_to(mint: &Address, destination: &Address, authority: &Address, amount: u64) -> (r:
    InstructionPayload)
    ensures
        r.program_id@ == TOKEN_PROGRAM_ID@,
        r.accounts@.len() == 3,
        accounts_model(r.accounts@) == mint_to_accounts(mint@, destination@, authority@),
        r.data@ == mint_to_data(amount),
{
    let mut data: Vec<u8> = Vec::new();
    data.push(MINT_TO_TAG);
    push_u64_le(&mut data, amount);
    let mut accounts: Vec<AccountRef> = Vec::new();
    accounts.push(AccountRef { address: *mint, is_signer: false, is_writable: true });
    accounts.push(AccountRef { address: *destination, is_signer: false, is_writable: true });
    accounts.push(AccountRef { address: *authority, is_signer: true, is_writable: false });
    proof {
        assert(accounts_model(accounts@) =~= mint_to_accounts(mint@, destination@, authority@));
        assert(data@ =~= mint_to_data(amount));
    }
    InstructionPayload { program_id: (Address { bytes: TOKEN_PROGRAM_ID }), accounts, data }
}

} // verus!
