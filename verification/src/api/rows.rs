//! What the REST layer answers about an operator.
use vstd::prelude::*;

verus! {

/// An operator as the server's database records it. Times are UTC
/// microseconds since the UNIX epoch.
#[derive(Debug, Clone)]
pub struct OperatorRow {
    pub id: i32,
    pub account: String,
    pub name: String,
    pub collateral: String,
    pub status: String,
    pub settlement_count: i64,
    pub registered_at: i32,
    pub created_at_micros: i64,
    pub updated_at_micros: i64,
}

/// The answer to a registration: the new operator and, when one was
/// issued, the token it signs in with.
#[derive(Debug, Clone)]
pub struct OperatorWithToken {
    pub operator: OperatorRow,
    pub token: Option<String>,
}

impl OperatorWithToken {
    /// The answer for `operator`, registered and holding `token`.
    pub fn registered(operator: OperatorRow, token: String) -> (r: Self)
        ensures
            r.operator == operator,
            r.token == Some(token),
    {
        OperatorWithToken { operator, token: Some(token) }
    }
}

} // verus!
