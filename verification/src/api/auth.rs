//! Who may call: operator tokens and the admin key.
use vstd::prelude::*;
use crate::api::error::ApiError;
use crate::api::text::text_equals;
use vstd::string::StrSliceExecFns;

verus! {

/// What an operator's token asserts.
#[derive(Debug, Clone)]
pub struct Claims {
    /// Account address (SS58).
    pub sub: String,
    /// Operator numeric id.
    pub operator_id: u64,
    /// Expiry, in UNIX seconds.
    pub exp: i64,
}

impl Claims {
    /// The claims of a token for operator `operator_id`, held by `account`,
    /// that expires at `exp`.
    pub fn for_operator(account: &str, operator_id: u64, exp: i64) -> (r: Claims)
        ensures
            r.sub@ == account@,
            r.operator_id == operator_id,
            r.exp == exp,
    {
        Claims { sub: account.to_owned(), operator_id, exp }
    }
}

/// The earliest whole second, in UNIX time, that a UTC date-time can hold
/// (January 1, 262144 BCE).
pub const EARLIEST_UTC_SECS: i64 = -8_334_601_228_800;

/// The latest whole second, in UNIX time, that a UTC date-time can hold
/// (December 31, 262142 CE, 23:59:59).
pub const LATEST_UTC_SECS: i64 = 8_210_266_876_799;

/// The largest number of seconds a time span can hold either way
/// (`i64::MAX` milliseconds).
pub const MAX_SPAN_SECS: i64 = 9_223_372_036_854_775;

/// A token lifetime read as a signed number of seconds, as a two's
/// complement reinterpretation of its bits.
pub open spec fn signed_secs(expiration_secs: u64) -> int {
    if expiration_secs <= i64::MAX {
        expiration_secs as int
    } else {
        expiration_secs - 0x1_0000_0000_0000_0000
    }
}

/// Whether a token lifetime is a time span at all.
pub open spec fn lifetime_is_span(expiration_secs: u64) -> bool {
    -MAX_SPAN_SECS <= signed_secs(expiration_secs) <= MAX_SPAN_SECS
}

/// When a token issued at `now` with lifetime `expiration_secs` expires,
/// if that second is one a UTC date-time can hold.
pub open spec fn expiry_of(now: i64, expiration_secs: u64) -> Option<int> {
    let t = now + signed_secs(expiration_secs);
    if EARLIEST_UTC_SECS <= t <= LATEST_UTC_SECS {
        Some(t)
    } else {
        None
    }
}

/// The expiry of a token issued at UNIX second `now` that lives
/// `expiration_secs` seconds, or an internal error when that second lies
/// beyond what a UTC date-time can hold.
pub fn token_expiry(now: i64, expiration_secs: u64) -> (r: Result<i64, ApiError>)
    requires
        lifetime_is_span(expiration_secs),
    ensures
        match expiry_of(now, expiration_secs) {
            Some(t) => r == Ok::<i64, ApiError>(t as i64),
            None => r matches Err(ApiError::Internal(m)) && m@ == "timestamp overflow"@,
        },
{
    let span: i128 = if expiration_secs <= 0x7fff_ffff_ffff_ffffu64 {
        expiration_secs as i128
    } else {
        expiration_secs as i128 - 0x1_0000_0000_0000_0000i128
    };
    let t: i128 = now as i128 + span;
    if t < EARLIEST_UTC_SECS as i128 || t > LATEST_UTC_SECS as i128 {
        return Err(ApiError::Internal("timestamp overflow".to_owned()));
    }
    Ok(t as i64)
}

/// The text `Bearer ` that opens an authorization header.
pub open spec fn bearer_prefix() -> Seq<char> {
    seq!['B', 'e', 'a', 'r', 'e', 'r', ' ']
}

/// The token an authorization header carries after `Bearer `, if it has
/// that form.
pub open spec fn bearer_token_of(header: Seq<char>) -> Option<Seq<char>> {
    if header.len() >= 7 && header.take(7) == bearer_prefix() {
        Some(header.skip(7))
    } else {
        None
    }
}

/// The token of an `Authorization` header read as text (`None` when the
/// header is absent or not text): what follows `Bearer `, or unauthorized.
pub fn bearer_token(header: Option<&str>) -> (r: Result<String, ApiError>)
    ensures
        match header {
            None => r matches Err(ApiError::Unauthorized),
            Some(h) => match bearer_token_of(h@) {
                Some(t) => r matches Ok(s) && s@ == t,
                None => r matches Err(ApiError::Unauthorized),
            },
        },
{
    let h = match header {
        None => return Err(ApiError::Unauthorized),
        Some(h) => h,
    };
    let n = h.unicode_len();
    if n < 7 {
        return Err(ApiError::Unauthorized);
    }
    let head = h.substring_char(0, 7);
    proof {
        reveal_strlit("Bearer ");
    }
    if !text_equals(head, "Bearer ") {
        assert(head@ =~= h@.take(7));
        assert("Bearer "@ =~= bearer_prefix());
        return Err(ApiError::Unauthorized);
    }
    assert(head@ =~= h@.take(7));
    assert("Bearer "@ =~= bearer_prefix());
    let rest = h.substring_char(7, n);
    assert(rest@ =~= h@.skip(7));
    Ok(rest.to_owned())
}

/// The claims of the token a request was authenticated with.
#[derive(Debug, Clone)]
pub struct AuthClaims(pub Claims);

/// Proof that a request carried the admin key.
pub struct AdminKey;

impl AdminKey {
    /// Admits a request whose admin-key header is `provided` when it equals
    /// `expected`: a missing header is unauthorized, a wrong key forbidden.
    pub fn authorize(provided: Option<&str>, expected: &str) -> (r: Result<AdminKey, ApiError>)
        ensures
            provided is None ==> r matches Err(ApiError::Unauthorized),
            provided matches Some(k) ==> (k@ == expected@ <==> r is Ok),
            provided matches Some(k) && k@ != expected@ ==> r matches Err(ApiError::Forbidden),
    {
        match provided {
            None => Err(ApiError::Unauthorized),
            Some(k) => if text_equals(k, expected) {
                Ok(AdminKey)
            } else {
                Err(ApiError::Forbidden)
            },
        }
    }
}

} // verus!
