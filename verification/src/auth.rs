//! Who is asking: the bearer token of a request and the claims it carries.

use vstd::prelude::*;
use vstd::string::StrSliceExecFns;
use vstd::string::StringExecFns;
use crate::errors::AppError;
use crate::models::{uuid_parsed, Claims, Uuid};

verus! {

/// The organization a request is made for.
#[derive(Debug, Clone)]
pub struct AuthOrg {
    pub id: Uuid,
    pub name: String,
}

/// Seconds in an hour.
pub const SECONDS_PER_HOUR: i64 = 3600;

/// Takes the token out of an `Authorization` header: what follows `Bearer `.
pub fn bearer_token<'a>(header: Option<&'a str>) -> (r: Result<&'a str, AppError>)
    ensures
        match header {
            None => r matches Err(AppError::Unauthorized(m)) && m@
                == "Missing Authorization header"@,
            Some(h) => if "Bearer "@.is_prefix_of(h@) {
                r matches Ok(token) && token@ == h@.skip(7)
            } else {
                r matches Err(AppError::Unauthorized(m)) && m@ == "Invalid Authorization format"@
            },
        },
{
    let prefix = "Bearer ";
    proof {
        reveal_strlit("Bearer ");
    }
    match header {
        None => Err(AppError::Unauthorized(String::from_str("Missing Authorization header"))),
        Some(h) => {
            let n = h.unicode_len();
            if n < 7 {
                return Err(
                    AppError::Unauthorized(String::from_str("Invalid Authorization format")),
                );
            }
            let mut i: usize = 0;
            while i < 7
                invariant
                    i <= 7,
                    7 <= n,
                    header == Some(h),
                    n == h@.len(),
                    prefix@ == "Bearer "@,
                    prefix@.len() == 7,
                    forall|k: int| 0 <= k < i ==> h@[k] == prefix@[k],
                decreases 7 - i,
            {
                if h.get_char(i) != prefix.get_char(i) {
                    assert(h@.subrange(0, 7)[i as int] != prefix@[i as int]);
                    return Err(
                        AppError::Unauthorized(String::from_str("Invalid Authorization format")),
                    );
                }
                i = i + 1;
            }
            assert(prefix@ =~= h@.subrange(0, 7));
            let token = h.substring_char(7, n);
            assert(token@ =~= h@.skip(7));
            Ok(token)
        },
    }
}

/// Reads the organization out of the claims of a valid token. Claims whose subject is
/// no identifier make the token invalid.
pub fn authenticated_org(claims: Claims) -> (r: Result<AuthOrg, AppError>)
    ensures
        match r {
            Ok(org) => uuid_parsed(claims.sub@) == Some(org.id.value as nat) && org.name
                == claims.org_name,
            Err(e) => uuid_parsed(claims.sub@) is None && e is InvalidToken,
        },
{
    match Uuid::parse_str(claims.sub.as_str()) {
        Some(id) => Ok(AuthOrg { id, name: claims.org_name }),
        None => Err(AppError::InvalidToken),
    }
}

/// Whether a token issued at `now` (seconds since the Unix epoch) for `expiry_hours`
/// hours has times that can be written down.
pub open spec fn validity_fits(now: i64, expiry_hours: i64) -> bool {
    &&& 0 <= now <= usize::MAX
    &&& 0 <= now + expiry_hours * SECONDS_PER_HOUR <= i64::MAX
    &&& now + expiry_hours * SECONDS_PER_HOUR <= usize::MAX
}

/// The claims of a token for an organization: issued at `now`, expiring
/// `expiry_hours` hours later.
pub fn claims_for(org_id: Uuid, org_name: &str, now: i64, expiry_hours: i64) -> (r: Result<
    Claims,
    AppError,
>)
    ensures
        r is Ok <==> validity_fits(now, expiry_hours),
        match r {
            Ok(claims) => {
                &&& claims.sub@ == org_id.text()
                &&& claims.org_name@ == org_name@
                &&& claims.iat == now
                &&& claims.exp == now + expiry_hours * SECONDS_PER_HOUR
            },
            Err(e) => e matches AppError::Internal(m) && m@ == "Token validity is out of range"@,
        },
{
    let exp = match expiry_hours.checked_mul(SECONDS_PER_HOUR) {
        Some(span) => now.checked_add(span),
        None => None,
    };
    match exp {
        Some(exp) => {
            if now >= 0 && exp >= 0 && now as u64 <= usize::MAX as u64 && exp as u64
                <= usize::MAX as u64 {
                return Ok(
                    Claims {
                        sub: org_id.to_text(),
                        org_name: String::from_str(org_name),
                        exp: exp as usize,
                        iat: now as usize,
                    },
                );
            }
        },
        None => {},
    }
    Err(AppError::Internal(String::from_str("Token validity is out of range")))
}

} // verus!
