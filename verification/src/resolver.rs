use vstd::prelude::*;
use vstd::string::*;
use crate::claims::{decode_jwt, spec_token_outcome, Identity, TokenError};
use crate::errors::{
    HttpError, STATUS_BAD_REQUEST, STATUS_FORBIDDEN, STATUS_NOT_FOUND, STATUS_UNAUTHORIZED,
};
use crate::store::{spec_contains_id, spec_user_by_id, UserStore};
use crate::text::{parse_i64, spec_parse_i64, str_has_prefix};
use crate::user::{STATUS_ACTIVE, STATUS_INACTIVE};

verus! {

/// A verified request identity, as the routing layer receives it: the
/// token's claims together with the loaded, status-checked user record.
#[derive(Debug)]
pub struct AuthenticatedClaims(pub Identity);

/// The scheme prefix of a bearer authorization header.
pub open spec fn spec_bearer_prefix(s: Seq<char>) -> bool {
    s.len() >= 7 && s.subrange(0, 7) == "Bearer "@
}

/// The header value with every leading `Bearer ` occurrence removed:
/// what remains is handed to the token codec.
pub open spec fn spec_strip_bearer(s: Seq<char>) -> Seq<char>
    decreases s.len(),
{
    if spec_bearer_prefix(s) {
        spec_strip_bearer(s.subrange(7, s.len() as int))
    } else {
        s
    }
}

/// Removes every leading `Bearer ` prefix from the header value.
fn strip_bearer(s: &str) -> (r: String)
    ensures
        r@ == spec_strip_bearer(s@),
{
    proof {
        reveal_strlit("Bearer ");
    }
    let mut cur: String = s.to_owned();
    while str_has_prefix(cur.as_str(), "Bearer ")
        invariant
            spec_strip_bearer(s@) == spec_strip_bearer(cur@),
        decreases cur@.len(),
    {
        proof {
            reveal_strlit("Bearer ");
            assert(spec_bearer_prefix(cur@));
        }
        let len = cur.as_str().unicode_len();
        cur = cur.as_str().substring_char(7, len).to_owned();
    }
    proof {
        reveal_strlit("Bearer ");
        assert(!spec_bearer_prefix(cur@));
    }
    cur
}

/// The per-request identity resolver: bearer extraction, signature
/// check, expiry check, subject parsing, user load and status check, in
/// that order, with a rejection at any edge ending the chain. Nothing
/// is cached: every request re-resolves from the store, so permission
/// and status changes take effect on the very next request.
///
/// A token that fails its signature check and one that is merely
/// expired are rejected with the same message, so the error is no
/// oracle for the secret. A deleted account, like any unknown future
/// status value, is reported as not found, indistinguishable from a
/// nonexistent one.
pub fn authenticate_request(
    header: Option<&str>,
    secret: &[u8],
    now: u64,
    store: &UserStore,
) -> (r: Result<AuthenticatedClaims, HttpError>)
    requires
        store.wf(),
    ensures
        (match header {
            None => true,
            Some(h) => !spec_bearer_prefix(h@),
        }) ==> (r matches Err(e) && e.is(
            STATUS_UNAUTHORIZED,
            "client"@,
            "Token faltante o inválido"@,
        )),
        header matches Some(h) ==> (spec_bearer_prefix(h@) ==> ({
            let token = spec_strip_bearer(h@);
            match spec_token_outcome(secret@, token, now) {
                Err(_) => (r matches Err(e) && e.is(
                    STATUS_UNAUTHORIZED,
                    "client"@,
                    "Token inválido"@,
                )),
                Ok(p) => (match spec_parse_i64(p.0) {
                    None => (r matches Err(e) && e.is(
                        STATUS_BAD_REQUEST,
                        "client"@,
                        "Id de usuario inválido"@,
                    )),
                    Some(id) => if !spec_contains_id(store.users@, id) {
                        r matches Err(e) && e.is(
                            STATUS_NOT_FOUND,
                            "client"@,
                            "Usuario no encontrado"@,
                        )
                    } else {
                        let u = spec_user_by_id(store.users@, id);
                        if u.status == 1 {
                            r matches Ok(a) && a.0.user == u.spec_without_password()
                                && a.0.claims.user_id@ == p.0 && a.0.claims.iat == p.1
                                && a.0.claims.exp == p.2
                        } else if u.status == 2 {
                            r matches Err(e) && e.is(
                                STATUS_FORBIDDEN,
                                "client"@,
                                "Usuario inactivo"@,
                            )
                        } else {
                            r matches Err(e) && e.is(
                                STATUS_NOT_FOUND,
                                "client"@,
                                "Usuario no encontrado"@,
                            )
                        }
                    },
                }),
            }
        })),
{
    let header_value = match header {
        Some(h) => h,
        None => {
            return Err(HttpError::unauthorized("Token faltante o inválido"));
        },
    };
    proof {
        reveal_strlit("Bearer ");
    }
    if !str_has_prefix(header_value, "Bearer ") {
        return Err(HttpError::unauthorized("Token faltante o inválido"));
    }
    let token = strip_bearer(header_value);
    let claims = match decode_jwt(token.as_str(), secret, now) {
        Ok(c) => c,
        Err(_) => {
            return Err(HttpError::unauthorized("Token inválido"));
        },
    };
    let id = match parse_i64(claims.user_id.as_str()) {
        Some(i) => i,
        None => {
            return Err(HttpError::bad_request("Id de usuario inválido"));
        },
    };
    let user = match store.find_by_id(id) {
        Some(u) => u,
        None => {
            return Err(HttpError::not_found("Usuario no encontrado"));
        },
    };
    if user.status == STATUS_ACTIVE {
        Ok(AuthenticatedClaims(Identity::new(claims, user.without_password())))
    } else if user.status == STATUS_INACTIVE {
        Err(HttpError::forbbiden("Usuario inactivo"))
    } else {
        Err(HttpError::not_found("Usuario no encontrado"))
    }
}

} // verus!
