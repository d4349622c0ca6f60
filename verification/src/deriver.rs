//! Address derivation: the creation code of a token-bound account and the
//! `CREATE2` address that a registry gives it.

use vstd::prelude::*;
use crate::keccak::{keccak256, keccak256_digest};
use crate::primitives::{be_word, lemma_be_bytes_len, Address, U256};

verus! {

/// The tuple that identifies a token-bound account.
#[derive(Clone, Copy, Debug, PartialEq, Eq)]
pub struct CreationParams {
    /// The logic template that the account delegates to.
    pub implementation: Address,
    /// The chain that the token lives on.
    pub chain_id: U256,
    /// The token collection.
    pub token_contract: Address,
    /// The token within the collection.
    pub token_id: U256,
    /// Tells apart several accounts of one token.
    pub salt: U256,
}

/// The bytes of the minimal proxy that stand before the implementation
/// address.
pub open spec fn proxy_prefix() -> Seq<u8> {
    seq![
        0x3du8, 0x60u8, 0xadu8, 0x80u8, 0x60u8, 0x0au8, 0x3du8, 0x39u8, 0x81u8, 0xf3u8,
        0x36u8, 0x3du8, 0x3du8, 0x37u8, 0x3du8, 0x3du8, 0x3du8, 0x36u8, 0x3du8, 0x73u8,
    ]
}

/// The bytes of the minimal proxy that stand behind the implementation
/// address.
pub open spec fn proxy_suffix() -> Seq<u8> {
    seq![
        0x5au8, 0xf4u8, 0x3du8, 0x82u8, 0x80u8, 0x3eu8, 0x90u8, 0x3du8, 0x91u8, 0x60u8,
        0x2bu8, 0x57u8, 0xfdu8, 0x5bu8, 0xf3u8,
    ]
}

/// An address as a 32-byte word: twelve zero bytes, then the address.
pub open spec fn address_word(address: Seq<u8>) -> Seq<u8> {
    Seq::new(12, |i: int| 0u8) + address
}

/// The encoded tail of the creation code: the words of the salt, the chain
/// id, the token contract and the token id, in this order.
pub open spec fn encoded_params(
    salt: nat,
    chain_id: nat,
    token_contract: Seq<u8>,
    token_id: nat,
) -> Seq<u8> {
    be_word(salt) + be_word(chain_id) + address_word(token_contract) + be_word(token_id)
}

/// The creation code of the account that `params` identifies.
pub open spec fn creation_code(params: CreationParams) -> Seq<u8> {
    proxy_prefix() + params.implementation@ + proxy_suffix() + encoded_params(
        params.salt@,
        params.chain_id@,
        params.token_contract@,
        params.token_id@,
    )
}

/// The 85 bytes whose digest ends in the `CREATE2` address.
pub open spec fn create2_preimage(deployer: Seq<u8>, salt: nat, code_hash: Seq<u8>) -> Seq<u8> {
    seq![0xffu8] + deployer + be_word(salt) + code_hash
}

/// The `CREATE2` address of `code`, deployed by `deployer` under `salt`:
/// the last 20 bytes of the digest of the preimage.
pub open spec fn create2_address(deployer: Seq<u8>, salt: nat, code: Seq<u8>) -> Seq<u8> {
    keccak256_digest(create2_preimage(deployer, salt, keccak256_digest(code))).subrange(12, 32)
}

/// The address that the registry at `registry` gives the account that
/// `params` identifies.
pub open spec fn derived_address(registry: Address, params: CreationParams) -> Seq<u8> {
    create2_address(registry@, params.salt@, creation_code(params))
}

/// Encodes `(salt, chain_id, token_contract, token_id)` with
/// `ethers_core::abi::encode`, as three unsigned integers and one address.
///
/// Trusted: for these four static values the encoding is taken to be their
/// four 32-byte words one after the other, an integer big-endian and the
/// address behind twelve zero bytes.
#[verifier::external_body]
fn abi_encode_params(
    salt: &U256,
    chain_id: &U256,
    token_contract: &Address,
    token_id: &U256,
) -> (encoded: Vec<u8>)
    ensures
        encoded@ == encoded_params(salt@, chain_id@, token_contract@, token_id@),
{
    ethers_core::abi::encode(
        &[
            ethers_core::abi::Token::Uint(ethers_core::types::U256(salt.limbs)),
            ethers_core::abi::Token::Uint(ethers_core::types::U256(chain_id.limbs)),
            ethers_core::abi::Token::Address(ethers_core::types::H160(token_contract.bytes)),
            ethers_core::abi::Token::Uint(ethers_core::types::U256(token_id.limbs)),
        ],
    )
}

/// Builds the creation code of a token-bound account: the proxy template
/// around `implementation`, then the encoded parameters.
pub fn get_creation_code(
    implementation: Address,
    chain_id: U256,
    token_contract: Address,
    token_id: U256,
    salt: U256,
) -> (code: Vec<u8>)
    ensures
        code@ == creation_code(
            (CreationParams { implementation, chain_id, token_contract, token_id, salt }),
        ),
{
    let mut code: Vec<u8> = vec![
        0x3d, 0x60, 0xad, 0x80, 0x60, 0x0a, 0x3d, 0x39, 0x81, 0xf3,
        0x36, 0x3d, 0x3d, 0x37, 0x3d, 0x3d, 0x3d, 0x36, 0x3d, 0x73,
    ];
    assert(code@ =~= proxy_prefix());
    code.extend_from_slice(implementation.as_bytes());
    let suffix: [u8; 15] = [
        0x5a, 0xf4, 0x3d, 0x82, 0x80, 0x3e, 0x90, 0x3d, 0x91, 0x60,
        0x2b, 0x57, 0xfd, 0x5b, 0xf3,
    ];
    assert(suffix@ =~= proxy_suffix());
    code.extend_from_slice(suffix.as_slice());
    let encoded = abi_encode_params(&salt, &chain_id, &token_contract, &token_id);
    code.extend_from_slice(encoded.as_slice());
    assert(code@ =~= proxy_prefix() + implementation@ + proxy_suffix() + encoded@);
    code
}

/// Lays out the `CREATE2` preimage: the byte `0xff`, the deployer, the
/// salt as a word, and the hash of the code.
pub fn get_create2_preimage(deployer: &Address, salt: U256, code_hash: &[u8; 32]) -> (preimage: Vec<u8>)
    ensures
        preimage@ == create2_preimage(deployer@, salt@, code_hash@),
        preimage@.len() == 85,
{
    let salt_word = salt.to_be_bytes();
    let mut preimage: Vec<u8> = Vec::with_capacity(85);
    preimage.push(0xff);
    preimage.extend_from_slice(deployer.as_bytes());
    preimage.extend_from_slice(salt_word.as_slice());
    preimage.extend_from_slice(code_hash.as_slice());
    assert(preimage@ =~= create2_preimage(deployer@, salt@, code_hash@));
    preimage
}

/// Computes the `CREATE2` address of `code`, deployed by `registry` under
/// `salt`.
pub fn compute_address(registry: &Address, salt: U256, code: &[u8]) -> (address: Address)
    ensures
        address@ == create2_address(registry@, salt@, code@),
{
    let code_hash = keccak256(code);
    let preimage = get_create2_preimage(registry, salt, &code_hash);
    let digest = keccak256(preimage.as_slice());
    Address::from_word(&digest)
}

/// Derives the address of the account that `params` identifies under the
/// registry at `registry`.
pub fn derive(registry: &Address, params: &CreationParams) -> (address: Address)
    ensures
        address@ == derived_address(*registry, *params),
{
    let code = get_creation_code(
        params.implementation,
        params.chain_id,
        params.token_contract,
        params.token_id,
        params.salt,
    );
    compute_address(registry, params.salt, code.as_slice())
}

/// The derived address depends on nothing but the bytes of the registry
/// address and the values of the five parameters: wherever these agree,
/// so do the addresses.
pub proof fn lemma_derivation_deterministic(
    registry1: Address,
    params1: CreationParams,
    registry2: Address,
    params2: CreationParams,
)
    requires
        registry1@ == registry2@,
        params1.implementation@ == params2.implementation@,
        params1.chain_id@ == params2.chain_id@,
        params1.token_contract@ == params2.token_contract@,
        params1.token_id@ == params2.token_id@,
        params1.salt@ == params2.salt@,
    ensures
        derived_address(registry1, params1) == derived_address(registry2, params2),
{
}

/// The creation code is 183 bytes long and holds each parameter at a
/// fixed place.
pub proof fn lemma_creation_code_layout(params: CreationParams)
    ensures
        creation_code(params).len() == 183,
        creation_code(params).subrange(0, 20) == proxy_prefix(),
        creation_code(params).subrange(20, 40) == params.implementation@,
        creation_code(params).subrange(40, 55) == proxy_suffix(),
        creation_code(params).subrange(55, 87) == be_word(params.salt@),
        creation_code(params).subrange(87, 119) == be_word(params.chain_id@),
        creation_code(params).subrange(119, 131) == Seq::new(12, |i: int| 0u8),
        creation_code(params).subrange(131, 151) == params.token_contract@,
        creation_code(params).subrange(151, 183) == be_word(params.token_id@),
{
    let code = creation_code(params);
    lemma_be_bytes_len(params.salt@, 32);
    lemma_be_bytes_len(params.chain_id@, 32);
    lemma_be_bytes_len(params.token_id@, 32);
    assert(code.len() == 183);
    assert(code.subrange(0, 20) =~= proxy_prefix());
    assert(code.subrange(20, 40) =~= params.implementation@);
    assert(code.subrange(40, 55) =~= proxy_suffix());
    assert(code.subrange(55, 87) =~= be_word(params.salt@));
    assert(code.subrange(87, 119) =~= be_word(params.chain_id@));
    assert(code.subrange(119, 131) =~= Seq::new(12, |i: int| 0u8));
    assert(code.subrange(131, 151) =~= params.token_contract@);
    assert(code.subrange(151, 183) =~= be_word(params.token_id@));
}

/// Two parameter tuples with the same creation code are the same tuple.
pub proof fn lemma_creation_code_injective(params1: CreationParams, params2: CreationParams)
    requires
        creation_code(params1) == creation_code(params2),
    ensures
        params1 == params2,
{
    lemma_creation_code_layout(params1);
    lemma_creation_code_layout(params2);
    Address::lemma_view_injective(params1.implementation, params2.implementation);
    Address::lemma_view_injective(params1.token_contract, params2.token_contract);
    U256::lemma_be_word_injective(params1.salt, params2.salt);
    U256::lemma_be_word_injective(params1.chain_id, params2.chain_id);
    U256::lemma_be_word_injective(params1.token_id, params2.token_id);
}

/// Two `CREATE2` preimages that agree were made from the same deployer,
/// the same salt and the same code hash.
pub proof fn lemma_create2_preimage_injective(
    deployer1: Address,
    salt1: U256,
    code_hash1: Seq<u8>,
    deployer2: Address,
    salt2: U256,
    code_hash2: Seq<u8>,
)
    requires
        create2_preimage(deployer1@, salt1@, code_hash1) == create2_preimage(
            deployer2@,
            salt2@,
            code_hash2,
        ),
    ensures
        deployer1 == deployer2,
        salt1 == salt2,
        code_hash1 == code_hash2,
{
    let m1 = create2_preimage(deployer1@, salt1@, code_hash1);
    let m2 = create2_preimage(deployer2@, salt2@, code_hash2);
    lemma_be_bytes_len(salt1@, 32);
    lemma_be_bytes_len(salt2@, 32);
    assert(m1.subrange(1, 21) =~= deployer1@);
    assert(m2.subrange(1, 21) =~= deployer2@);
    assert(m1.subrange(21, 53) =~= be_word(salt1@));
    assert(m2.subrange(21, 53) =~= be_word(salt2@));
    assert(m1.subrange(53, m1.len() as int) =~= code_hash1);
    assert(m2.subrange(53, m2.len() as int) =~= code_hash2);
    Address::lemma_view_injective(deployer1, deployer2);
    U256::lemma_be_word_injective(salt1, salt2);
}

/// Two different messages whose digests end in the same 20 bytes.
pub open spec fn digests_collide(message1: Seq<u8>, message2: Seq<u8>) -> bool {
    message1 != message2 && keccak256_digest(message1).subrange(12, 32) == keccak256_digest(
        message2,
    ).subrange(12, 32)
}

/// Under one registry, two different parameter tuples derive the same
/// address only where the hash collides: on their creation codes, or on
/// their `CREATE2` preimages.
pub proof fn lemma_same_address_needs_collision(
    registry: Address,
    params1: CreationParams,
    params2: CreationParams,
)
    requires
        params1 != params2,
        derived_address(registry, params1) == derived_address(registry, params2),
    ensures
        digests_collide(creation_code(params1), creation_code(params2)) || digests_collide(
            create2_preimage(registry@, params1.salt@, keccak256_digest(creation_code(params1))),
            create2_preimage(registry@, params2.salt@, keccak256_digest(creation_code(params2))),
        ),
{
    let code1 = creation_code(params1);
    let code2 = creation_code(params2);
    if code1 == code2 {
        lemma_creation_code_injective(params1, params2);
    }
    let m1 = create2_preimage(registry@, params1.salt@, keccak256_digest(code1));
    let m2 = create2_preimage(registry@, params2.salt@, keccak256_digest(code2));
    if m1 == m2 {
        lemma_create2_preimage_injective(
            registry,
            params1.salt,
            keccak256_digest(code1),
            registry,
            params2.salt,
            keccak256_digest(code2),
        );
    }
}

} // verus!
