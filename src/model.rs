use vstd::prelude::*;

verus! {

/// What reading a textual address gives: its 32 bytes, or why it failed.
pub type AddressResult = Result<[u8; 32], AddressError>;

/// The one input of the endpoint: the name a caller asks to register.
pub struct RegisterInfo {
    pub username: String,
}

/// Why a textual address could not be read.
#[derive(Clone, Copy, Debug, PartialEq, Eq, Structural)]
pub enum AddressError {
    /// The text decodes to more or fewer than 32 bytes, or is too long.
    WrongSize,
    /// The text holds a character outside the base58 alphabet.
    Invalid,
}

/// One account that an instruction refers to.
pub struct AccountRef {
    pub address: [u8; 32],
    pub is_signer: bool,
    pub is_writable: bool,
}

/// The instruction sent to the on-chain program, as plain values.
pub struct InstructionPlan {
    pub program_id: [u8; 32],
    pub accounts: Vec<AccountRef>,
    pub data: Vec<u8>,
}

/// Everything that can stop a registration.
#[derive(Debug)]
pub enum RegisterError {
    /// The program identifier is not a valid address.
    InvalidProgramId(AddressError),
    /// The node could not give a recent blockhash; the text says why.
    BlockhashUnavailable(String),
    /// The transaction could not be signed; the text says why.
    Signing(String),
    /// The node refused or failed the transaction; the text says why.
    Rejected(String),
}

/// What the endpoint answers: a status code and a plain-text body.
pub struct HttpReply {
    pub status: u16,
    pub body: String,
}

/// The characters of the base58 alphabet: digits but `0`, letters but `O`,
/// `I` and `l`.
pub open spec fn is_base58_char(c: char) -> bool {
    ('1' <= c && c <= '9') || ('A' <= c && c <= 'H') || ('J' <= c && c <= 'N')
        || ('P' <= c && c <= 'Z') || ('a' <= c && c <= 'k') || ('m' <= c && c <= 'z')
}

pub open spec fn is_ascii_text(s: Seq<char>) -> bool {
    forall|i: int| 0 <= i < s.len() ==> (s[i] as u32) < 128
}

pub open spec fn has_non_base58_char(s: Seq<char>) -> bool {
    exists|i: int| 0 <= i < s.len() && !is_base58_char(#[trigger] s[i])
}

/// The instruction lists `key` as a signing account.
pub open spec fn lists_signer(plan: InstructionPlan, key: Seq<u8>) -> bool {
    exists|i: int| 0 <= i < plan.accounts@.len() && #[trigger] plan.accounts@[i].is_signer && plan.accounts@[i].address@ == key
}

/// A message with fee payer `fee_payer` and this one instruction requires the
/// signatures of exactly the identities `a` and `b`: each of them is the fee
/// payer or a signing account, and the fee payer and every signing account is
/// one of them.
pub open spec fn signed_by_exactly(plan: InstructionPlan, fee_payer: Seq<u8>, a: Seq<u8>, b: Seq<u8>) -> bool {
    &&& (a == fee_payer || lists_signer(plan, a))
    &&& (b == fee_payer || lists_signer(plan, b))
    &&& (fee_payer == a || fee_payer == b)
    &&& forall|i: int| 0 <= i < plan.accounts@.len() && #[trigger] plan.accounts@[i].is_signer ==> plan.accounts@[i].address@ == a || plan.accounts@[i].address@ == b
}

/// The longest text that can spell a 32-byte address in base58.
pub const MAX_ADDRESS_TEXT_LEN: usize = 44;

} // verus!
