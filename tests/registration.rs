use register_service::flow::{
    prepare_registration, registration_for, registration_instruction, sign_registration,
    signing_outcome, submission_outcome, Registration,
};
use register_service::model::{AddressError, RegisterError, RegisterInfo};
use register_service::reply::{describe, reply_for};
use solana_sdk::pubkey::Pubkey;
use solana_sdk::signature::Keypair;
use solana_sdk::signer::Signer;
use std::str::FromStr;

fn alice() -> RegisterInfo {
    RegisterInfo { username: "alice".to_string() }
}

fn prepared(program_id: &str) -> Registration {
    match prepare_registration(program_id, &alice()) {
        Ok(reg) => reg,
        Err(e) => panic!("unexpected error: {:?}", e),
    }
}

#[test]
fn success_reply_has_prefix_and_signature() {
    let reply = reply_for(&Ok("5VERv8NMvzbJMEkV8xnrLkEaWRtSz9CosKDYjCJjBRnb".to_string()));
    assert_eq!(reply.status, 200);
    assert_eq!(reply.body, "User registered: 5VERv8NMvzbJMEkV8xnrLkEaWRtSz9CosKDYjCJjBRnb");
    assert!(reply.body.starts_with("User registered: "));
}

#[test]
fn unreachable_node_reply_is_server_error() {
    let reply = reply_for(&Err(RegisterError::BlockhashUnavailable("connection refused".to_string())));
    assert_eq!(reply.status, 500);
    assert_eq!(reply.body, "Error: connection refused");
}

#[test]
fn unfunded_payer_rejection_is_server_error() {
    let outcome = submission_outcome(Err("insufficient funds for fee".to_string()));
    assert!(matches!(&outcome, Err(RegisterError::Rejected(t)) if t == "insufficient funds for fee"));
    let reply = reply_for(&outcome);
    assert_eq!(reply.status, 500);
    assert_eq!(reply.body, "Error: insufficient funds for fee");
}

#[test]
fn confirmed_submission_is_success() {
    let outcome = submission_outcome(Ok("abc".to_string()));
    assert!(matches!(&outcome, Ok(s) if s == "abc"));
    assert_eq!(reply_for(&outcome).status, 200);
}

#[test]
fn signing_error_text_is_verbatim() {
    let reply = reply_for(&Err(RegisterError::Signing("keypair-pubkey mismatch".to_string())));
    assert_eq!(reply.status, 500);
    assert_eq!(reply.body, "Error: keypair-pubkey mismatch");
}

#[test]
fn address_error_descriptions() {
    assert_eq!(describe(&RegisterError::InvalidProgramId(AddressError::WrongSize)), "program id has the wrong size");
    assert_eq!(describe(&RegisterError::InvalidProgramId(AddressError::Invalid)), "program id is not valid base58");
}

#[test]
fn placeholder_program_id_is_invalid() {
    let r = prepare_registration("YourProgramIDHere", &alice());
    assert!(matches!(r, Err(RegisterError::InvalidProgramId(AddressError::Invalid))));
    let reply = reply_for(&Err(RegisterError::InvalidProgramId(AddressError::Invalid)));
    assert_eq!(reply.status, 500);
}

#[test]
fn too_long_program_id_is_wrong_size() {
    let long = "1".repeat(45);
    let r = prepare_registration(&long, &alice());
    assert!(matches!(r, Err(RegisterError::InvalidProgramId(AddressError::WrongSize))));
}

#[test]
fn short_base58_program_id_is_wrong_size() {
    let r = prepare_registration("abc", &alice());
    assert!(matches!(r, Err(RegisterError::InvalidProgramId(AddressError::WrongSize))));
}

#[test]
fn valid_program_id_is_decoded() {
    let text = "Vote111111111111111111111111111111111111111";
    let reg = prepared(text);
    assert_eq!(reg.instruction.program_id, Pubkey::from_str(text).unwrap().to_bytes());
    assert_ne!(reg.instruction.program_id, [0u8; 32]);
    assert!(reg.instruction.accounts.is_empty());
    assert!(reg.instruction.data.is_empty());
    assert_eq!(reg.username, "alice");
}

#[test]
fn system_program_id_is_all_zero() {
    let reg = prepared("11111111111111111111111111111111");
    assert_eq!(reg.instruction.program_id, [0u8; 32]);
}

#[test]
fn identities_are_fresh_per_request() {
    let a = prepared("11111111111111111111111111111111");
    let b = prepared("11111111111111111111111111111111");
    assert_ne!(a.payer.pubkey(), b.payer.pubkey());
    assert_ne!(a.payer.pubkey(), a.user_account.pubkey());
}

#[test]
fn payload_is_empty_whatever_the_username() {
    let a = registration_instruction([3u8; 32], "alice");
    let b = registration_instruction([3u8; 32], "bob");
    assert_eq!(a.program_id, [3u8; 32]);
    assert!(a.data.is_empty());
    assert_eq!(a.data, b.data);
    assert!(a.accounts.is_empty());
}

#[test]
fn registration_for_maps_parse_error() {
    let r = registration_for(Err(AddressError::Invalid), &alice(), Keypair::new(), Keypair::new());
    assert!(matches!(r, Err(RegisterError::InvalidProgramId(AddressError::Invalid))));
    let r = registration_for(Ok([9u8; 32]), &alice(), Keypair::new(), Keypair::new());
    assert!(matches!(r, Ok(ref reg) if reg.instruction.program_id == [9u8; 32]));
}

#[test]
fn unreachable_node_stops_before_signing() {
    let reg = prepared("11111111111111111111111111111111");
    let r = sign_registration(&reg, Err("error sending request: connection refused".to_string()));
    assert!(matches!(r, Err(RegisterError::BlockhashUnavailable(ref t)) if t == "error sending request: connection refused"));
}

#[test]
fn user_account_outside_instruction_cannot_sign() {
    let reg = prepared("11111111111111111111111111111111");
    let r = sign_registration(&reg, Ok([7u8; 32]));
    assert!(matches!(r, Err(RegisterError::Signing(_))));
}

fn registration_with(accounts: Vec<register_service::model::AccountRef>, payer: Keypair, user_account: Keypair) -> Registration {
    Registration {
        username: "alice".to_string(),
        payer,
        user_account,
        instruction: register_service::model::InstructionPlan { program_id: [5u8; 32], accounts, data: Vec::new() },
    }
}

#[test]
fn user_listed_as_signer_can_sign() {
    let payer = Keypair::new();
    let user = Keypair::new();
    let account = register_service::model::AccountRef { address: user.pubkey().to_bytes(), is_signer: true, is_writable: true };
    let reg = registration_with(vec![account], payer, user);
    let r = sign_registration(&reg, Ok([7u8; 32]));
    match r {
        Ok(tx) => {
            assert_eq!(tx.message.account_keys[0], reg.payer.pubkey());
            assert_eq!(tx.message.header.num_required_signatures, 2);
            assert_eq!(tx.message.recent_blockhash.to_bytes(), [7u8; 32]);
            assert!(tx.is_signed());
        }
        Err(e) => panic!("unexpected error: {:?}", e),
    }
}

#[test]
fn same_identity_without_accounts_can_sign() {
    let payer = Keypair::new();
    let user = payer.insecure_clone();
    let reg = registration_with(Vec::new(), payer, user);
    assert!(sign_registration(&reg, Ok([1u8; 32])).is_ok());
}

#[test]
fn unknown_signer_account_cannot_sign() {
    let payer = Keypair::new();
    let user = Keypair::new();
    let stranger = Keypair::new();
    let accounts = vec![
        register_service::model::AccountRef { address: user.pubkey().to_bytes(), is_signer: true, is_writable: true },
        register_service::model::AccountRef { address: stranger.pubkey().to_bytes(), is_signer: true, is_writable: false },
    ];
    let reg = registration_with(accounts, payer, user);
    assert!(matches!(sign_registration(&reg, Ok([2u8; 32])), Err(RegisterError::Signing(_))));
}

#[test]
fn signing_outcome_maps_signer_error() {
    let r = signing_outcome(Err("not enough signers".to_string()));
    assert!(matches!(r, Err(RegisterError::Signing(ref t)) if t == "not enough signers"));
}
