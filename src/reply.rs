use vstd::prelude::*;
use vstd::string::StringExecFns;
use crate::model::{AddressError, HttpReply, RegisterError};

verus! {

/// What a finished registration gives: the transaction's confirmation
/// identifier, or the error that stopped it.
pub type Outcome = Result<String, RegisterError>;

pub open spec fn address_error_text(e: AddressError) -> Seq<char> {
    match e {
        AddressError::WrongSize => "program id has the wrong size"@,
        AddressError::Invalid => "program id is not valid base58"@,
    }
}

/// The description of an error: the text of the failing step, verbatim.
pub open spec fn error_text(e: RegisterError) -> Seq<char> {
    match e {
        RegisterError::InvalidProgramId(k) => address_error_text(k),
        RegisterError::BlockhashUnavailable(t) => t@,
        RegisterError::Signing(t) => t@,
        RegisterError::Rejected(t) => t@,
    }
}

pub open spec fn success_body(signature: Seq<char>) -> Seq<char> {
    "User registered: "@ + signature
}

pub open spec fn failure_body(e: RegisterError) -> Seq<char> {
    "Error: "@ + error_text(e)
}

/// 200 on success, 500 on any failure: failures are not told apart by status.
pub open spec fn reply_status(outcome: Outcome) -> u16 {
    match outcome {
        Ok(_) => 200,
        Err(_) => 500,
    }
}

pub open spec fn reply_body(outcome: Outcome) -> Seq<char> {
    match outcome {
        Ok(s) => success_body(s@),
        Err(e) => failure_body(e),
    }
}

/// The text that describes an error.
pub fn describe(e: &RegisterError) -> (r: String)
    ensures
        r@ == error_text(*e),
{
    match e {
        RegisterError::InvalidProgramId(AddressError::WrongSize) => String::from_str(
            "program id has the wrong size",
        ),
        RegisterError::InvalidProgramId(AddressError::Invalid) => String::from_str(
            "program id is not valid base58",
        ),
        RegisterError::BlockhashUnavailable(t) => String::from_str(t.as_str()),
        RegisterError::Signing(t) => String::from_str(t.as_str()),
        RegisterError::Rejected(t) => String::from_str(t.as_str()),
    }
}

/// The HTTP reply for the outcome of one registration.
pub fn reply_for(outcome: &Outcome) -> (r: HttpReply)
    ensures
        r.status == reply_status(*outcome),
        r.body@ == reply_body(*outcome),
{
    match outcome {
        Ok(signature) => {
            let mut body = String::from_str("User registered: ");
            body.append(signature.as_str());
            HttpReply { status: 200, body }
        },
        Err(e) => {
            let mut body = String::from_str("Error: ");
            let text = describe(e);
            body.append(text.as_str());
            HttpReply { status: 500, body }
        },
    }
}

/// Every outcome of a registration is answered, with 200 or with 500, and
/// with 200 exactly when the transaction was confirmed.
pub proof fn lemma_reply_is_success_or_server_error(outcome: Outcome)
    ensures
        reply_status(outcome) == 200 || reply_status(outcome) == 500,
        reply_status(outcome) == 200 <==> outcome is Ok,
{
}

/// A confirmed registration is answered with a body that starts with
/// `User registered: ` and goes on with the confirmation identifier.
pub proof fn lemma_success_body_carries_signature(signature: String)
    ensures
        reply_body(Ok(signature)).len() == 17 + signature@.len(),
        reply_body(Ok(signature)).subrange(0, 17) == "User registered: "@,
        reply_body(Ok(signature)).subrange(17, reply_body(Ok(signature)).len() as int) == signature@,
{
    reveal_strlit("User registered: ");
    assert(reply_body(Ok(signature)).subrange(0, 17) =~= "User registered: "@);
    assert(reply_body(Ok(signature)).subrange(17, reply_body(Ok(signature)).len() as int) =~= signature@);
}

} // verus!
