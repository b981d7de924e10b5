use vstd::prelude::*;
use solana_sdk::signature::Keypair;
use solana_sdk::transaction::Transaction;
use crate::chain::{
    base58_address, fresh_keypair, keypair_address, keypair_pubkey, parse_address, signed_transaction,
};
use crate::model::{
    has_non_base58_char, is_ascii_text, signed_by_exactly, AddressError, AddressResult, InstructionPlan, RegisterError,
    RegisterInfo, MAX_ADDRESS_TEXT_LEN,
};
use crate::reply::{reply_body, reply_status, Outcome};

verus! {

/// The most accounts an instruction may list and still compile into a message.
pub const MAX_INSTRUCTION_ACCOUNTS: usize = 200;

/// A registration ready to be signed: the two fresh identities and the
/// instruction for the on-chain program.
pub struct Registration {
    pub username: String,
    pub payer: Keypair,
    pub user_account: Keypair,
    pub instruction: InstructionPlan,
}

/// The data sent to the program for a username. No serialized arguments are
/// sent yet: the username does not reach the chain.
pub open spec fn registration_payload(username: Seq<char>) -> Seq<u8> {
    Seq::empty()
}

/// The instruction that registers `username` with the program at `program_id`:
/// no accounts, and the registration payload as data.
pub fn registration_instruction(program_id: [u8; 32], username: &str) -> (r: InstructionPlan)
    ensures
        r.program_id == program_id,
        r.accounts@.len() == 0,
        r.data@ == registration_payload(username@),
{
    let data: Vec<u8> = Vec::new();
    assert(data@ =~= registration_payload(username@));
    InstructionPlan { program_id, accounts: Vec::new(), data }
}

/// Builds the registration from an already read program identifier.
pub fn registration_for(program: AddressResult, info: &RegisterInfo, payer: Keypair, user_account: Keypair) -> (r: Result<Registration, RegisterError>)
    ensures
        program is Ok <==> r is Ok,
        program is Ok ==> r->Ok_0.instruction.program_id == program->Ok_0 && r->Ok_0.instruction.accounts@.len() == 0 && r->Ok_0.instruction.data@ == registration_payload(info.username@) && r->Ok_0.username@ == info.username@ && r->Ok_0.payer == payer && r->Ok_0.user_account == user_account,
        program is Err ==> r->Err_0 == RegisterError::InvalidProgramId(program->Err_0),
{
    match program {
        Ok(id) => {
            let instruction = registration_instruction(id, info.username.as_str());
            let username = info.username.clone();
            Ok(Registration { username, payer, user_account, instruction })
        },
        Err(e) => Err(RegisterError::InvalidProgramId(e)),
    }
}

/// Reads the program identifier, draws a fresh payer and user identity, and
/// builds the registration. Fails only when the identifier is not an address.
pub fn prepare_registration(program_id: &str, info: &RegisterInfo) -> (r: Result<Registration, RegisterError>)
    ensures
        r is Ok <==> base58_address(program_id@) is Some,
        r is Ok ==> Some(r->Ok_0.instruction.program_id@) == base58_address(program_id@) && r->Ok_0.instruction.accounts@.len() == 0 && r->Ok_0.instruction.data@ == registration_payload(info.username@) && r->Ok_0.username@ == info.username@,
        r is Err ==> r->Err_0 is InvalidProgramId,
        is_ascii_text(program_id@) && program_id@.len() > MAX_ADDRESS_TEXT_LEN ==> r is Err && r->Err_0 == RegisterError::InvalidProgramId(AddressError::WrongSize),
        is_ascii_text(program_id@) && program_id@.len() <= MAX_ADDRESS_TEXT_LEN && has_non_base58_char(program_id@) ==> r is Err && r->Err_0 == RegisterError::InvalidProgramId(AddressError::Invalid),
{
    let payer = fresh_keypair();
    let program = parse_address(program_id);
    let user_account = fresh_keypair();
    registration_for(program, info, payer, user_account)
}

/// The payer, paying the fee, and the user identity can together sign the
/// instruction: the user identity is the payer or a signing account, and
/// every signing account is one of the two.
pub open spec fn registration_signable(plan: InstructionPlan, payer: Seq<u8>, user: Seq<u8>) -> bool {
    signed_by_exactly(plan, payer, payer, user)
}

/// The transaction once the signer has answered: kept on success, the
/// signer's text as a `Signing` error otherwise.
pub fn signing_outcome(signed: Result<Transaction, String>) -> (r: Result<Transaction, RegisterError>)
    ensures
        signed is Ok <==> r is Ok,
        signed is Ok ==> r->Ok_0 == signed->Ok_0,
        signed is Err ==> r->Err_0 == RegisterError::Signing(signed->Err_0),
{
    match signed {
        Ok(tx) => Ok(tx),
        Err(text) => Err(RegisterError::Signing(text)),
    }
}

/// Turns the answer of the node to a blockhash request into a signed
/// transaction. A failed request becomes a `BlockhashUnavailable` error
/// carrying its text; a blockhash is used to sign with both identities, the
/// payer paying the fee.
pub fn sign_registration(reg: &Registration, blockhash: Result<[u8; 32], String>) -> (r: Result<Transaction, RegisterError>)
    requires
        reg.instruction.accounts@.len() <= MAX_INSTRUCTION_ACCOUNTS,
    ensures
        blockhash is Err ==> r is Err && r->Err_0 == RegisterError::BlockhashUnavailable(blockhash->Err_0),
        blockhash is Ok ==> (r is Ok <==> registration_signable(reg.instruction, keypair_pubkey(reg.payer), keypair_pubkey(reg.user_account))),
        blockhash is Ok && r is Err ==> r->Err_0 is Signing,
{
    match blockhash {
        Err(text) => Err(RegisterError::BlockhashUnavailable(text)),
        Ok(hash) => {
            let fee_payer = keypair_address(&reg.payer);
            signing_outcome(signed_transaction(&reg.instruction, fee_payer, &reg.payer, &reg.user_account, hash))
        },
    }
}

pub open spec fn submission_outcome_spec(sent: Result<String, String>) -> Outcome {
    match sent {
        Ok(signature) => Ok(signature),
        Err(text) => Err(RegisterError::Rejected(text)),
    }
}

/// The outcome once the node has answered the submission: its confirmation
/// identifier, or its error text as a `Rejected` error.
pub fn submission_outcome(sent: Result<String, String>) -> (r: Outcome)
    ensures
        r == submission_outcome_spec(sent),
{
    match sent {
        Ok(signature) => Ok(signature),
        Err(text) => Err(RegisterError::Rejected(text)),
    }
}

/// The username never reaches the chain: the payload is the same, and empty,
/// whatever name was asked for.
pub proof fn lemma_payload_ignores_username(a: Seq<char>, b: Seq<char>)
    ensures
        registration_payload(a) == registration_payload(b),
        registration_payload(a).len() == 0,
{
}

/// A node that cannot give a blockhash stops the registration with an error,
/// never a crash, and the reply is a 500 that carries the node's error text.
pub proof fn lemma_unreachable_node_is_server_error(text: String, signed: Result<Transaction, RegisterError>)
    requires
        signed is Err && signed->Err_0 == RegisterError::BlockhashUnavailable(text),
    ensures
        reply_status(Err(signed->Err_0)) == 500,
        reply_body(Err(signed->Err_0)) == "Error: "@ + text@,
{
}

/// A transaction that the node refuses, such as one whose payer holds no
/// funds, is answered with a 500 that carries the node's error text.
pub proof fn lemma_rejection_is_server_error(sent: Result<String, String>)
    requires
        sent is Err,
    ensures
        reply_status(submission_outcome_spec(sent)) == 500,
        reply_body(submission_outcome_spec(sent)) == "Error: "@ + sent->Err_0@,
{
}

/// An instruction without accounts can be signed by the payer and the user
/// identity only when the two are one identity: otherwise the user identity
/// is no required signer and signing fails.
pub proof fn lemma_no_accounts_needs_one_identity(plan: InstructionPlan, payer: Seq<u8>, user: Seq<u8>)
    requires
        plan.accounts@.len() == 0,
    ensures
        registration_signable(plan, payer, user) <==> payer == user,
{
}

} // verus!
