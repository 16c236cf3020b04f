//! What the submission of one task consumes and produces: the contract's
//! address taken from the deployment record, and the outcome of the call.

use vstd::prelude::*;

verus! {

/// Why a submission failed. The dispatch loop treats every kind alike; the
/// kind only serves the report.
#[derive(Clone, Copy, Debug, PartialEq, Eq, Structural)]
pub enum FailureKind {
    /// The deployment record could not be read, or holds no address.
    Resolution,
    /// The deployment record holds an address that does not parse.
    MalformedAddress,
    /// No signer could be made from the secret key.
    Signing,
    /// The endpoint could not be reached or answered with an error.
    Network,
    /// The transaction was sent but no receipt confirmed its inclusion.
    NotIncluded,
}

/// A failed submission: its kind and a message for the report.
#[derive(Clone, Debug)]
pub struct SubmissionError {
    pub kind: FailureKind,
    pub message: String,
}

/// The 32-byte identifier of an included transaction.
#[derive(Clone, Copy, Debug, PartialEq, Eq)]
pub struct TxHash {
    pub bytes: [u8; 32],
}

/// The 20-byte address of the target contract.
#[derive(Clone, Copy, Debug, PartialEq, Eq)]
pub struct ContractAddress {
    pub bytes: [u8; 20],
}

/// The outcome of one submission.
pub type SubmissionOutcome = Result<TxHash, SubmissionError>;

/// The part of a deployment record that a submission needs.
#[derive(Clone, Debug)]
pub struct DeploymentRecord {
    /// The address of the deployed contract, as the record writes it.
    pub contract_address: Option<String>,
}

/// Whether `c` is a hexadecimal digit, in either case.
pub open spec fn is_hex_digit(c: char) -> bool {
    ('0' <= c && c <= '9') || ('a' <= c && c <= 'f') || ('A' <= c && c <= 'F')
}

/// The value of the hexadecimal digit `c`.
pub open spec fn hex_value(c: char) -> int {
    if '0' <= c && c <= '9' {
        c as int - '0' as int
    } else if 'a' <= c && c <= 'f' {
        c as int - 'a' as int + 10
    } else {
        c as int - 'A' as int + 10
    }
}

/// `s` without a leading `0x` or `0X`, if it has one.
pub open spec fn strip_hex_prefix(s: Seq<char>) -> Seq<char> {
    if s.len() >= 2 && s[0] == '0' && (s[1] == 'x' || s[1] == 'X') {
        s.skip(2)
    } else {
        s
    }
}

/// The address that `s` spells: forty hexadecimal digits, two per byte with
/// the high half first, after an optional `0x` or `0X`; `None` for anything
/// else.
pub open spec fn address_of(s: Seq<char>) -> Option<Seq<u8>> {
    let h = strip_hex_prefix(s);
    if h.len() == 40 && forall|i: int| 0 <= i < 40 ==> is_hex_digit(#[trigger] h[i]) {
        Some(Seq::new(20, |i: int| (hex_value(h[2 * i]) * 16 + hex_value(h[2 * i + 1])) as u8))
    } else {
        None
    }
}

/// Relies on alloy's `Address` parser (`FromStr`, which decodes through
/// `const_hex::decode_to_array`): it strips one `0x` or `0X`, then accepts
/// exactly forty hexadecimal digits of either case, two per byte.
#[verifier::external_body]
fn parse_address(s: &str) -> (r: Option<[u8; 20]>)
    ensures
        match address_of(s@) {
            Some(bytes) => r is Some && r->0@ == bytes,
            None => r is None,
        },
{
    s.parse::<alloy::primitives::Address>().ok().map(|a| a.into_array())
}

impl DeploymentRecord {
    /// The address of the contract that tasks are submitted to. A record
    /// without an address is a resolution failure; one whose address does not
    /// parse is a malformed address.
    pub fn contract_address(&self) -> (r: Result<ContractAddress, SubmissionError>)
        ensures
            match self.contract_address {
                None => r is Err && r->Err_0.kind == FailureKind::Resolution,
                Some(s) => match address_of(s@) {
                    Some(bytes) => r is Ok && r->Ok_0.bytes@ == bytes,
                    None => r is Err && r->Err_0.kind == FailureKind::MalformedAddress,
                },
            },
    {
        match &self.contract_address {
            None => Err(
                SubmissionError {
                    kind: FailureKind::Resolution,
                    message: "the deployment record holds no contract address".to_string(),
                },
            ),
            Some(s) => match parse_address(s.as_str()) {
                Some(bytes) => Ok(ContractAddress { bytes }),
                None => Err(
                    SubmissionError {
                        kind: FailureKind::MalformedAddress,
                        message: "the deployment record's contract address does not parse".to_string(),
                    },
                ),
            },
        }
    }
}

} // verus!
