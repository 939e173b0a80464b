//! The request bodies of the REST layer and the checks each must pass, in
//! the order the endpoints make them.
use vstd::prelude::*;
use vstd::utf8::encode_utf8;
use crate::api::error::ApiError;
use crate::api::text::{around_number, around_text, decimal_u128, parse_u128, signed_decimal_chars, text_equals};
use crate::asset_registry::AssetType;
use crate::operators::OperatorStatus;
use crate::settlement_engine::SettlementOperation;
use crate::settlement_proofs::ProofType;

verus! {

/// The length of a text in bytes, as `str::len` counts it.
pub open spec fn byte_len(s: Seq<char>) -> nat {
    encode_utf8(s).len()
}

/// The number a text denotes as an unsigned decimal, if it fits in `u128`.
pub open spec fn text_decimal(s: Seq<char>) -> Option<u128> {
    decimal_u128(encode_utf8(s))
}

/// Whether `r` is a bad-request answer carrying `msg`.
pub open spec fn is_bad_request<T>(r: Result<T, ApiError>, msg: Seq<char>) -> bool {
    r matches Err(ApiError::BadRequest(m)) && m@ == msg
}

/// Whether `r` is a conflict answer carrying `msg`.
pub open spec fn is_conflict<T>(r: Result<T, ApiError>, msg: Seq<char>) -> bool {
    r matches Err(ApiError::Conflict(m)) && m@ == msg
}

/// Whether `r` is answered as the outcome `expected` prescribes: `None`
/// accepts, `Some(msg)` refuses with a bad request carrying `msg`.
pub open spec fn answers<T>(r: Result<T, ApiError>, expected: Option<Seq<char>>) -> bool {
    match expected {
        None => r is Ok,
        Some(msg) => is_bad_request(r, msg),
    }
}

/// The text's byte length.
fn text_len(s: &String) -> (r: usize)
    ensures
        r == byte_len(s@),
{
    s.as_str().as_bytes().len()
}

/// The text's value as an unsigned decimal.
fn text_value(s: &String) -> (r: Option<u128>)
    ensures
        r == text_decimal(s@),
{
    parse_u128(s.as_str())
}

// ─── Names of kinds ───────────────────────────────────────────────────────

/// The asset type a name denotes.
pub open spec fn asset_type_named(t: Seq<char>) -> Option<AssetType> {
    if t == "Fiat"@ {
        Some(AssetType::Fiat)
    } else if t == "Commodity"@ {
        Some(AssetType::Commodity)
    } else if t == "Security"@ {
        Some(AssetType::Security)
    } else if t == "InternalLedger"@ {
        Some(AssetType::InternalLedger)
    } else {
        None
    }
}

/// Reads an asset type from its name.
pub fn parse_asset_type(t: &str) -> (r: Option<AssetType>)
    ensures
        r == asset_type_named(t@),
{
    if text_equals(t, "Fiat") {
        Some(AssetType::Fiat)
    } else if text_equals(t, "Commodity") {
        Some(AssetType::Commodity)
    } else if text_equals(t, "Security") {
        Some(AssetType::Security)
    } else if text_equals(t, "InternalLedger") {
        Some(AssetType::InternalLedger)
    } else {
        None
    }
}

/// The settlement operation a name denotes.
pub open spec fn operation_named(t: Seq<char>) -> Option<SettlementOperation> {
    if t == "Issue"@ {
        Some(SettlementOperation::Issue)
    } else if t == "Redeem"@ {
        Some(SettlementOperation::Redeem)
    } else if t == "Transfer"@ {
        Some(SettlementOperation::Transfer)
    } else if t == "Lock"@ {
        Some(SettlementOperation::Lock)
    } else if t == "Unlock"@ {
        Some(SettlementOperation::Unlock)
    } else {
        None
    }
}

/// Reads a settlement operation from its name.
pub fn parse_operation(t: &str) -> (r: Option<SettlementOperation>)
    ensures
        r == operation_named(t@),
{
    if text_equals(t, "Issue") {
        Some(SettlementOperation::Issue)
    } else if text_equals(t, "Redeem") {
        Some(SettlementOperation::Redeem)
    } else if text_equals(t, "Transfer") {
        Some(SettlementOperation::Transfer)
    } else if text_equals(t, "Lock") {
        Some(SettlementOperation::Lock)
    } else if text_equals(t, "Unlock") {
        Some(SettlementOperation::Unlock)
    } else {
        None
    }
}

/// The proof type a name denotes.
pub open spec fn proof_type_named(t: Seq<char>) -> Option<ProofType> {
    if t == "Signature"@ {
        Some(ProofType::Signature)
    } else if t == "Oracle"@ {
        Some(ProofType::Oracle)
    } else if t == "Multisig"@ {
        Some(ProofType::Multisig)
    } else if t == "ZeroKnowledge"@ {
        Some(ProofType::ZeroKnowledge)
    } else if t == "Documentary"@ {
        Some(ProofType::Documentary)
    } else {
        None
    }
}

/// Reads a proof type from its name.
pub fn parse_proof_type(t: &str) -> (r: Option<ProofType>)
    ensures
        r == proof_type_named(t@),
{
    if text_equals(t, "Signature") {
        Some(ProofType::Signature)
    } else if text_equals(t, "Oracle") {
        Some(ProofType::Oracle)
    } else if text_equals(t, "Multisig") {
        Some(ProofType::Multisig)
    } else if text_equals(t, "ZeroKnowledge") {
        Some(ProofType::ZeroKnowledge)
    } else if text_equals(t, "Documentary") {
        Some(ProofType::Documentary)
    } else {
        None
    }
}

/// The operator status a name denotes.
pub open spec fn status_named(t: Seq<char>) -> Option<OperatorStatus> {
    if t == "Active"@ {
        Some(OperatorStatus::Active)
    } else if t == "Suspended"@ {
        Some(OperatorStatus::Suspended)
    } else if t == "Terminated"@ {
        Some(OperatorStatus::Terminated)
    } else {
        None
    }
}

/// Reads an operator status from its name.
pub fn parse_operator_status(t: &str) -> (r: Option<OperatorStatus>)
    ensures
        r == status_named(t@),
{
    if text_equals(t, "Active") {
        Some(OperatorStatus::Active)
    } else if text_equals(t, "Suspended") {
        Some(OperatorStatus::Suspended)
    } else if text_equals(t, "Terminated") {
        Some(OperatorStatus::Terminated)
    } else {
        None
    }
}

// ─── Assets ───────────────────────────────────────────────────────────────

/// The body of `POST /assets`.
#[derive(Debug)]
pub struct RegisterAssetRequest {
    pub name: String,
    pub symbol: String,
    pub asset_type: String,
    pub decimals: u8,
    pub settlement_rules: Option<String>,
}

/// The rules text of a request, empty when absent.
pub open spec fn rules_text(rules: Option<String>) -> Seq<char> {
    match rules {
        Some(r) => r@,
        None => Seq::empty(),
    }
}

/// Why `POST /assets` refuses a body, if it does.
pub open spec fn register_asset_problem(req: RegisterAssetRequest) -> Option<Seq<char>> {
    if asset_type_named(req.asset_type@) is None {
        Some("asset_type must be Fiat, Commodity, Security, or InternalLedger"@)
    } else if req.name@.len() == 0 || byte_len(req.name@) > 64 {
        Some("name must be between 1 and 64 characters"@)
    } else if req.symbol@.len() == 0 || byte_len(req.symbol@) > 12 {
        Some("symbol must be between 1 and 12 characters"@)
    } else if req.decimals > 18 {
        Some("decimals must be between 0 and 18"@)
    } else if byte_len(rules_text(req.settlement_rules)) > 256 {
        Some("settlement_rules must be at most 256 characters"@)
    } else {
        None
    }
}

impl RegisterAssetRequest {
    /// Checks the body; on success returns the asset type it names.
    pub fn validate(&self) -> (r: Result<AssetType, ApiError>)
        ensures
            answers(r, register_asset_problem(*self)),
            r matches Ok(t) ==> asset_type_named(self.asset_type@) == Some(t),
    {
        let t = match parse_asset_type(self.asset_type.as_str()) {
            Some(t) => t,
            None => return Err(
                ApiError::BadRequest(
                    "asset_type must be Fiat, Commodity, Security, or InternalLedger".to_owned(),
                ),
            ),
        };
        if self.name.as_str().is_empty() || text_len(&self.name) > 64 {
            return Err(ApiError::BadRequest("name must be between 1 and 64 characters".to_owned()));
        }
        if self.symbol.as_str().is_empty() || text_len(&self.symbol) > 12 {
            return Err(ApiError::BadRequest("symbol must be between 1 and 12 characters".to_owned()));
        }
        if self.decimals > 18 {
            return Err(ApiError::BadRequest("decimals must be between 0 and 18".to_owned()));
        }
        let rules_len = match &self.settlement_rules {
            Some(rules) => text_len(rules),
            None => 0,
        };
        proof {
            if self.settlement_rules is None {
                assert(encode_utf8(Seq::<char>::empty()) =~= Seq::<u8>::empty());
            }
        }
        if rules_len > 256 {
            return Err(
                ApiError::BadRequest("settlement_rules must be at most 256 characters".to_owned()),
            );
        }
        Ok(t)
    }
}

/// The body of `PUT /assets/{id}/supply`.
#[derive(Debug)]
pub struct UpdateSupplyRequest {
    pub total_supply: String,
}

impl UpdateSupplyRequest {
    /// Checks the body; on success returns the new supply.
    pub fn validate(&self) -> (r: Result<u128, ApiError>)
        ensures
            match text_decimal(self.total_supply@) {
                Some(v) => r == Ok::<u128, ApiError>(v),
                None => is_bad_request(r, "total_supply must be a valid u128 integer"@),
            },
    {
        match text_value(&self.total_supply) {
            Some(v) => Ok(v),
            None => Err(ApiError::BadRequest("total_supply must be a valid u128 integer".to_owned())),
        }
    }
}

// ─── Cross-settlements ────────────────────────────────────────────────────

/// One leg of a proposed cross-settlement, as the REST layer receives it.
#[derive(Debug)]
pub struct Leg {
    pub asset_id: i32,
    pub from_account: String,
    pub to_account: String,
    pub amount: String,
}

/// The body of `POST /cross-settlements`.
#[derive(Debug)]
pub struct ProposeCrossSettlementRequest {
    pub participants: Vec<i32>,
    pub legs: Vec<Leg>,
    pub reference: Option<String>,
    pub expires_in_blocks: Option<i32>,
}

/// Why `POST /cross-settlements` refuses a body, if it does.
pub open spec fn propose_problem(req: ProposeCrossSettlementRequest) -> Option<Seq<char>> {
    if req.participants@.len() == 0 || req.participants@.len() > 10 {
        Some("participants must contain 1 to 10 operator IDs"@)
    } else if req.legs@.len() == 0 || req.legs@.len() > 20 {
        Some("legs must contain 1 to 20 entries"@)
    } else if exists|i: int| 0 <= i < req.legs@.len() && text_decimal(#[trigger] req.legs@[i].amount@) is None {
        Some("leg amount must be a valid u128 integer"@)
    } else if byte_len(rules_text(req.reference)) > 256 {
        Some("reference must be at most 256 characters"@)
    } else {
        None
    }
}

/// How many blocks a proposal stays open for.
pub open spec fn expiry_of(req: ProposeCrossSettlementRequest) -> i32 {
    match req.expires_in_blocks {
        Some(n) => n,
        None => 100,
    }
}

impl ProposeCrossSettlementRequest {
    /// Checks the body; on success returns how many blocks it stays open.
    pub fn validate(&self) -> (r: Result<i32, ApiError>)
        ensures
            answers(r, propose_problem(*self)),
            r is Ok ==> r == Ok::<i32, ApiError>(expiry_of(*self)),
    {
        if self.participants.len() == 0 || self.participants.len() > 10 {
            return Err(
                ApiError::BadRequest("participants must contain 1 to 10 operator IDs".to_owned()),
            );
        }
        if self.legs.len() == 0 || self.legs.len() > 20 {
            return Err(ApiError::BadRequest("legs must contain 1 to 20 entries".to_owned()));
        }
        let n = self.legs.len();
        for i in 0..n
            invariant
                n == self.legs@.len(),
                1 <= n <= 20,
                1 <= self.participants@.len() <= 10,
                forall|j: int| 0 <= j < i ==> text_decimal(#[trigger] self.legs@[j].amount@) is Some,
        {
            if text_value(&self.legs[i].amount).is_none() {
                assert(text_decimal(self.legs@[i as int].amount@) is None);
                return Err(ApiError::BadRequest("leg amount must be a valid u128 integer".to_owned()));
            }
        }
        let reference_len = match &self.reference {
            Some(reference) => text_len(reference),
            None => 0,
        };
        proof {
            if self.reference is None {
                assert(encode_utf8(Seq::<char>::empty()) =~= Seq::<u8>::empty());
            }
        }
        if reference_len > 256 {
            return Err(ApiError::BadRequest("reference must be at most 256 characters".to_owned()));
        }
        Ok(
            match self.expires_in_blocks {
                Some(n) => n,
                None => 100,
            },
        )
    }
}

/// Whether `xs` holds `x`.
fn holds(xs: &[i32], x: i32) -> (r: bool)
    ensures
        r == xs@.contains(x),
{
    let n = xs.len();
    for i in 0..n
        invariant
            n == xs@.len(),
            forall|j: int| 0 <= j < i ==> xs@[j] != x,
    {
        if xs[i] == x {
            assert(xs@[i as int] == x);
            return true;
        }
    }
    false
}

/// Whether every participant is among the approvals.
pub fn all_approved(participants: &[i32], approvals: &[i32]) -> (r: bool)
    ensures
        r == (forall|i: int| 0 <= i < participants@.len() ==> approvals@.contains(#[trigger] participants@[i])),
{
    let n = participants.len();
    for i in 0..n
        invariant
            n == participants@.len(),
            forall|j: int| 0 <= j < i ==> approvals@.contains(#[trigger] participants@[j]),
    {
        if !holds(approvals, participants[i]) {
            return false;
        }
    }
    true
}

/// Checks that `operator_id` may approve cross-settlement `id`, which is in
/// `status` among `participants`.
pub fn approval_check(id: i32, status: &str, participants: &[i32], operator_id: i32) -> (r: Result<
    (),
    ApiError,
>)
    ensures
        status@ != "Pending"@ ==> is_conflict(
            r,
            "cross-settlement "@ + signed_decimal_chars(id as int) + " is not in Pending status"@,
        ),
        status@ == "Pending"@ && !participants@.contains(operator_id) ==> r matches Err(
            ApiError::Forbidden,
        ),
        status@ == "Pending"@ && participants@.contains(operator_id) ==> r is Ok,
{
    if !text_equals(status, "Pending") {
        return Err(
            ApiError::Conflict(around_number("cross-settlement ", id as i64, " is not in Pending status")),
        );
    }
    if !holds(participants, operator_id) {
        return Err(ApiError::Forbidden);
    }
    Ok(())
}

/// Checks that `operator_id` may execute cross-settlement `id`, which is in
/// `status` and was proposed by `initiator_id`.
pub fn execution_check(id: i32, status: &str, initiator_id: i32, operator_id: i32) -> (r: Result<
    (),
    ApiError,
>)
    ensures
        status@ != "Approved"@ ==> is_conflict(
            r,
            "cross-settlement "@ + signed_decimal_chars(id as int)
                + " must be in Approved status to execute"@,
        ),
        status@ == "Approved"@ && initiator_id != operator_id ==> r matches Err(ApiError::Forbidden),
        status@ == "Approved"@ && initiator_id == operator_id ==> r is Ok,
{
    if !text_equals(status, "Approved") {
        return Err(
            ApiError::Conflict(
                around_number("cross-settlement ", id as i64, " must be in Approved status to execute"),
            ),
        );
    }
    if initiator_id != operator_id {
        return Err(ApiError::Forbidden);
    }
    Ok(())
}

// ─── Operators ────────────────────────────────────────────────────────────

/// The body of `POST /operators`.
#[derive(Debug)]
pub struct RegisterRequest {
    pub account: String,
    pub name: String,
    pub collateral: String,
}

/// Why `POST /operators` refuses a body once the account is known to be new.
pub open spec fn register_problem(req: RegisterRequest) -> Option<Seq<char>> {
    if text_decimal(req.collateral@) is None {
        Some("collateral must be a valid u128 integer"@)
    } else if req.name@.len() == 0 || byte_len(req.name@) > 64 {
        Some("name must be between 1 and 64 characters"@)
    } else {
        None
    }
}

impl RegisterRequest {
    /// Checks the body; `already_registered` tells whether the account is
    /// taken. On success returns the collateral.
    pub fn validate(&self, already_registered: bool) -> (r: Result<u128, ApiError>)
        ensures
            already_registered ==> is_conflict(
                r,
                "account "@ + self.account@ + " is already registered"@,
            ),
            !already_registered ==> answers(r, register_problem(*self)),
            r matches Ok(c) ==> text_decimal(self.collateral@) == Some(c),
    {
        if already_registered {
            return Err(
                ApiError::Conflict(
                    around_text("account ", self.account.as_str(), " is already registered"),
                ),
            );
        }
        let collateral = match text_value(&self.collateral) {
            Some(c) => c,
            None => return Err(
                ApiError::BadRequest("collateral must be a valid u128 integer".to_owned()),
            ),
        };
        if self.name.as_str().is_empty() || text_len(&self.name) > 64 {
            return Err(ApiError::BadRequest("name must be between 1 and 64 characters".to_owned()));
        }
        Ok(collateral)
    }
}

/// The body of `PUT /operators/{id}/status`.
#[derive(Debug)]
pub struct StatusUpdateRequest {
    pub status: String,
}

impl StatusUpdateRequest {
    /// Checks the body; on success returns the status it names.
    pub fn validate(&self) -> (r: Result<OperatorStatus, ApiError>)
        ensures
            match status_named(self.status@) {
                Some(s) => r == Ok::<OperatorStatus, ApiError>(s),
                None => is_bad_request(r, "status must be Active, Suspended, or Terminated"@),
            },
    {
        match parse_operator_status(self.status.as_str()) {
            Some(s) => Ok(s),
            None => Err(
                ApiError::BadRequest("status must be Active, Suspended, or Terminated".to_owned()),
            ),
        }
    }
}

/// The body of `POST /auth/login`.
#[derive(Debug)]
pub struct LoginRequest {
    pub account: String,
}

/// Checks that an operator in `status` may act: only active operators may
/// log in or submit settlements.
pub fn require_active(status: &str) -> (r: Result<(), ApiError>)
    ensures
        status@ == "Active"@ ==> r is Ok,
        status@ != "Active"@ ==> r matches Err(ApiError::Forbidden),
{
    if text_equals(status, "Active") {
        Ok(())
    } else {
        Err(ApiError::Forbidden)
    }
}

// ─── Proofs ───────────────────────────────────────────────────────────────

/// The body of `POST /proofs`.
#[derive(Debug)]
pub struct SubmitProofRequest {
    pub settlement_id: i32,
    pub proof_type: String,
    pub hash: String,
    pub data: Option<String>,
}

/// Why `POST /proofs` refuses a body before looking anything up, if it does.
pub open spec fn proof_fields_problem(req: SubmitProofRequest) -> Option<Seq<char>> {
    if proof_type_named(req.proof_type@) is None {
        Some("proof_type must be Signature, Oracle, Multisig, ZeroKnowledge, or Documentary"@)
    } else if req.hash@.len() == 0 {
        Some("hash is required"@)
    } else {
        None
    }
}

impl SubmitProofRequest {
    /// Checks the proof type and hash; on success returns the proof type.
    pub fn validate_fields(&self) -> (r: Result<ProofType, ApiError>)
        ensures
            answers(r, proof_fields_problem(*self)),
            r matches Ok(t) ==> proof_type_named(self.proof_type@) == Some(t),
    {
        let t = match parse_proof_type(self.proof_type.as_str()) {
            Some(t) => t,
            None => return Err(
                ApiError::BadRequest(
                    "proof_type must be Signature, Oracle, Multisig, ZeroKnowledge, or Documentary".to_owned(),
                ),
            ),
        };
        if self.hash.as_str().is_empty() {
            return Err(ApiError::BadRequest("hash is required".to_owned()));
        }
        Ok(t)
    }

    /// Checks the payload's length.
    pub fn validate_data(&self) -> (r: Result<(), ApiError>)
        ensures
            byte_len(rules_text(self.data)) <= 1024 ==> r is Ok,
            byte_len(rules_text(self.data)) > 1024 ==> is_bad_request(
                r,
                "data must be at most 1024 characters"@,
            ),
    {
        let data_len = match &self.data {
            Some(data) => text_len(data),
            None => 0,
        };
        proof {
            if self.data is None {
                assert(encode_utf8(Seq::<char>::empty()) =~= Seq::<u8>::empty());
            }
        }
        if data_len > 1024 {
            return Err(ApiError::BadRequest("data must be at most 1024 characters".to_owned()));
        }
        Ok(())
    }
}

/// Checks that proof `id`, in `status`, may be verified.
pub fn proof_verification_check(id: i32, status: &str) -> (r: Result<(), ApiError>)
    ensures
        status@ == "Pending"@ ==> r is Ok,
        status@ != "Pending"@ ==> is_conflict(
            r,
            "proof "@ + signed_decimal_chars(id as int) + " is not in Pending status"@,
        ),
{
    if text_equals(status, "Pending") {
        Ok(())
    } else {
        Err(ApiError::Conflict(around_number("proof ", id as i64, " is not in Pending status")))
    }
}

// ─── Settlements ──────────────────────────────────────────────────────────

/// The body of `POST /settlements`.
#[derive(Debug)]
pub struct SubmitSettlementRequest {
    pub asset_id: i32,
    pub operation: String,
    pub amount: String,
    pub from_account: String,
    pub to_account: String,
    pub reference: Option<String>,
}

/// Why `POST /settlements` refuses a body before looking anything up, if it does.
pub open spec fn submit_settlement_problem(req: SubmitSettlementRequest) -> Option<Seq<char>> {
    if operation_named(req.operation@) is None {
        Some("operation must be Issue, Redeem, Transfer, Lock, or Unlock"@)
    } else if text_decimal(req.amount@) is None {
        Some("amount must be a valid u128 integer"@)
    } else if byte_len(rules_text(req.reference)) > 256 {
        Some("reference must be at most 256 characters"@)
    } else {
        None
    }
}

impl SubmitSettlementRequest {
    /// Checks the body; on success returns the operation and the amount.
    pub fn validate(&self) -> (r: Result<(SettlementOperation, u128), ApiError>)
        ensures
            answers(r, submit_settlement_problem(*self)),
            r matches Ok((op, amount)) ==> operation_named(self.operation@) == Some(op)
                && text_decimal(self.amount@) == Some(amount),
    {
        let op = match parse_operation(self.operation.as_str()) {
            Some(op) => op,
            None => return Err(
                ApiError::BadRequest(
                    "operation must be Issue, Redeem, Transfer, Lock, or Unlock".to_owned(),
                ),
            ),
        };
        let amount = match text_value(&self.amount) {
            Some(a) => a,
            None => return Err(ApiError::BadRequest("amount must be a valid u128 integer".to_owned())),
        };
        let reference_len = match &self.reference {
            Some(reference) => text_len(reference),
            None => 0,
        };
        proof {
            if self.reference is None {
                assert(encode_utf8(Seq::<char>::empty()) =~= Seq::<u8>::empty());
            }
        }
        if reference_len > 256 {
            return Err(ApiError::BadRequest("reference must be at most 256 characters".to_owned()));
        }
        Ok((op, amount))
    }
}

/// Checks that settlement `id`, in `status`, may be finalized.
pub fn settlement_finalization_check(id: i32, status: &str) -> (r: Result<(), ApiError>)
    ensures
        status@ == "Pending"@ ==> r is Ok,
        status@ != "Pending"@ ==> is_conflict(
            r,
            "settlement "@ + signed_decimal_chars(id as int) + " is not in Pending status"@,
        ),
{
    if text_equals(status, "Pending") {
        Ok(())
    } else {
        Err(ApiError::Conflict(around_number("settlement ", id as i64, " is not in Pending status")))
    }
}

} // verus!
