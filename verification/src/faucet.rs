//! The faucet service's request and response rules: a liveness route with a
//! fixed body, and a coin-request route whose status depends only on whether
//! any object was transferred.

use vstd::prelude::*;

verus! {

/// HTTP status of a successful liveness check.
pub const STATUS_OK: u16 = 200;

/// HTTP status of a coin request that transferred at least one object.
pub const STATUS_CREATED: u16 = 201;

/// HTTP status of a coin request that transferred nothing.
pub const STATUS_INTERNAL_SERVER_ERROR: u16 = 500;

/// A request to the coin route: a tagged union so that further request kinds
/// can be added without breaking the payload, with one variant today.
pub enum FaucetRequest {
    /// Asks that a fixed amount of test currency be sent to `recipient`.
    FixedAmountRequest { recipient: String },
}

/// One coin object the faucet transferred.
pub struct CoinInfo {
    /// The transferred amount.
    pub amount: u64,
    /// Identifier of the transferred object.
    pub id: String,
    /// Digest of the transaction that moved the object.
    pub transfer_tx_digest: String,
}

/// What the faucet client reports for one coin request.
pub struct FaucetResponse {
    /// The objects that were transferred; empty when the request failed.
    pub transferred_gas_objects: Vec<CoinInfo>,
    /// The client's error text, if it reported one.
    pub error: Option<String>,
}

impl FaucetRequest {
    /// The recipient a request names.
    pub open spec fn recipient_spec(&self) -> Seq<char> {
        match self {
            FaucetRequest::FixedAmountRequest { recipient } => recipient@,
        }
    }

    /// The recipient the faucet client is asked to pay.
    pub fn recipient(&self) -> (r: &String)
        ensures
            r@ == self.recipient_spec(),
    {
        match self {
            FaucetRequest::FixedAmountRequest { recipient } => recipient,
        }
    }
}

/// The status of a coin request that transferred `transferred` objects:
/// created when anything was transferred, a server error otherwise.
pub open spec fn faucet_status_spec(transferred: nat) -> u16 {
    if transferred > 0 {
        STATUS_CREATED
    } else {
        STATUS_INTERNAL_SERVER_ERROR
    }
}

/// The liveness route's answer: success, with the fixed body `OK`.
pub fn health_response() -> (r: (u16, &'static str))
    ensures
        r.0 == STATUS_OK,
        r.1@ == "OK"@,
{
    (STATUS_OK, "OK")
}

/// The status the coin route answers with for a given client response.
pub fn faucet_response_status(resp: &FaucetResponse) -> (s: u16)
    ensures
        s == faucet_status_spec(resp.transferred_gas_objects@.len()),
        s == STATUS_CREATED <==> resp.transferred_gas_objects@.len() > 0,
        s == STATUS_INTERNAL_SERVER_ERROR <==> resp.transferred_gas_objects@.len() == 0,
{
    if resp.transferred_gas_objects.len() > 0 {
        STATUS_CREATED
    } else {
        STATUS_INTERNAL_SERVER_ERROR
    }
}

/// The coin route's status is a pure function of whether the transfer list is
/// empty: two responses that agree on emptiness get the same status, and the
/// status is always either created or a server error.
pub proof fn lemma_status_depends_only_on_emptiness(a: nat, b: nat)
    requires
        (a == 0) <==> (b == 0),
    ensures
        faucet_status_spec(a) == faucet_status_spec(b),
        faucet_status_spec(a) == STATUS_CREATED || faucet_status_spec(a)
            == STATUS_INTERNAL_SERVER_ERROR,
{
}

} // verus!
