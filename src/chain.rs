use vstd::prelude::*;
use std::str::FromStr;
use solana_sdk::instruction::{AccountMeta, Instruction};
use solana_sdk::pubkey::{ParsePubkeyError, Pubkey};
use solana_sdk::signature::Keypair;
use solana_sdk::signer::Signer;
use solana_sdk::transaction::Transaction;
use crate::model::{
    has_non_base58_char, is_ascii_text, AddressError, AddressResult, InstructionPlan, MAX_ADDRESS_TEXT_LEN,
    signed_by_exactly,
};

verus! {

#[verifier::external_type_specification]
#[verifier::external_body]
pub struct ExKeypair(Keypair);

#[verifier::external_type_specification]
#[verifier::external_body]
pub struct ExTransaction(Transaction);

/// The 32 bytes that a base58 text decodes to, where it decodes to exactly 32.
pub uninterp spec fn base58_address(s: Seq<char>) -> Option<Seq<u8>>;

/// Relies on `Pubkey::from_str`: a text longer than 44 bytes is refused as
/// `WrongSize`; a shorter one with a byte outside the base58 alphabet as
/// `Invalid`; otherwise it succeeds exactly when it decodes to 32 bytes.
#[verifier::external_body]
pub(crate) fn parse_address(s: &str) -> (r: AddressResult)
    ensures
        r.is_ok() == base58_address(s@).is_some(),
        r.is_ok() ==> base58_address(s@) == Some(r.unwrap()@),
        is_ascii_text(s@) && s@.len() > MAX_ADDRESS_TEXT_LEN ==> r == AddressResult::Err(AddressError::WrongSize),
        is_ascii_text(s@) && s@.len() <= MAX_ADDRESS_TEXT_LEN && has_non_base58_char(s@) ==> r == AddressResult::Err(AddressError::Invalid),
        is_ascii_text(s@) && !has_non_base58_char(s@) ==> r != AddressResult::Err(AddressError::Invalid),
{
    match Pubkey::from_str(s) {
        Ok(p) => Ok(p.to_bytes()),
        Err(ParsePubkeyError::WrongSize) => Err(AddressError::WrongSize),
        Err(ParsePubkeyError::Invalid) => Err(AddressError::Invalid),
    }
}

/// Relies on `Keypair::new`: a fresh random signing identity.
#[verifier::external_body]
pub(crate) fn fresh_keypair() -> (r: Keypair) {
    Keypair::new()
}

/// The address of a signing identity: its public key's 32 bytes.
pub uninterp spec fn keypair_pubkey(k: Keypair) -> Seq<u8>;

/// Relies on `Signer::pubkey` of `Keypair`: the address of the identity, a
/// function of the key pair alone.
#[verifier::external_body]
pub(crate) fn keypair_address(k: &Keypair) -> (r: [u8; 32])
    ensures
        r@ == keypair_pubkey(*k),
{
    k.pubkey().to_bytes()
}

/// Relies on `Transaction::new_with_payer` and `Transaction::try_sign`: the
/// message lists `fee_payer` first and every signer account of the
/// instruction as required signers; signing with the two identities succeeds
/// exactly when each of them is a required signer and every required signer
/// is one of them. Message compilation panics only when a count of account
/// keys does not fit in a byte, which the bound rules out.
#[verifier::external_body]
pub(crate) fn signed_transaction(plan: &InstructionPlan, fee_payer: [u8; 32], payer: &Keypair, user: &Keypair, blockhash: [u8; 32]) -> (r: Result<Transaction, String>)
    requires
        plan.accounts@.len() <= 200,
    ensures
        r.is_ok() == signed_by_exactly(*plan, fee_payer@, keypair_pubkey(*payer), keypair_pubkey(*user)),
{
    let accounts = plan.accounts.iter().map(|a| AccountMeta { pubkey: Pubkey::new_from_array(a.address), is_signer: a.is_signer, is_writable: a.is_writable }).collect();
    let ix = Instruction { program_id: Pubkey::new_from_array(plan.program_id), accounts, data: plan.data.clone() };
    let mut tx = Transaction::new_with_payer(&[ix], Some(&Pubkey::new_from_array(fee_payer)));
    tx.try_sign(&[payer, user], solana_sdk::hash::Hash::new_from_array(blockhash)).map_err(|e| e.to_string())?;
    Ok(tx)
}

} // verus!
