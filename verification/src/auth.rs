//! Password handling and the decision half of the user and
//! authentication services.
//!
//! The services' database lookups happen outside the library; their
//! results are handed in, and every decision on them is verified.
//! Password hashing and verification call bcrypt behind trusted
//! wrappers.

use vstd::prelude::*;
use crate::errors::ApiError;
use crate::strutil::push_str;
use crate::users::User;

verus! {

/// What bcrypt's verification returns for a password and a hash: a
/// match verdict, or nothing when the hash is malformed.  The result
/// depends on the two arguments alone.
pub uninterp spec fn bcrypt_verify_of(password: Seq<char>, hash: Seq<char>) -> Option<bool>;

/// Relies on `bcrypt::verify`: deterministic in the password and the
/// hash; a malformed hash yields an error, whose text is returned.
#[verifier::external_body]
fn bcrypt_verify(password: &str, hash: &str) -> (r: Result<bool, String>)
    ensures
        r is Ok <==> bcrypt_verify_of(password@, hash@) is Some,
        r matches Ok(b) ==> bcrypt_verify_of(password@, hash@) == Some(b),
{
    match bcrypt::verify(password, hash) {
        Ok(b) => Ok(b),
        Err(e) => Err(e.to_string()),
    }
}

/// Relies on `bcrypt::hash` at the crate's default cost: the default
/// cost is always allowed, so hashing succeeds, the rendered hash is 60
/// characters, and `bcrypt::verify` accepts the very password it was
/// produced from.
#[verifier::external_body]
fn bcrypt_hash(password: &str) -> (r: Result<String, String>)
    ensures
        r matches Ok(h) ==> h@.len() == 60 && bcrypt_verify_of(password@, h@) == Some(true),
{
    match bcrypt::hash(password, bcrypt::DEFAULT_COST) {
        Ok(h) => Ok(h),
        Err(e) => Err(e.to_string()),
    }
}

/// Hashes a password for storage; a driver-level failure surfaces as
/// `InternalServer`.
pub fn hash_password(password: &str) -> (r: Result<String, ApiError>)
    ensures
        r matches Ok(h) ==> h@.len() == 60 && bcrypt_verify_of(password@, h@) == Some(true),
        r matches Err(e) ==> e matches ApiError::InternalServer(_),
{
    match bcrypt_hash(password) {
        Ok(h) => Ok(h),
        Err(msg) => {
            let mut out = String::new();
            push_str(&mut out, "Échec du hashage du mot de passe: ");
            push_str(&mut out, msg.as_str());
            Err(ApiError::InternalServer(out))
        },
    }
}

/// Checks a password against a stored hash; a malformed hash surfaces
/// as `InternalServer`.
pub fn verify_password(password: &str, hash: &str) -> (r: Result<bool, ApiError>)
    ensures
        r is Ok <==> bcrypt_verify_of(password@, hash@) is Some,
        r matches Ok(b) ==> bcrypt_verify_of(password@, hash@) == Some(b),
        r matches Err(e) ==> e matches ApiError::InternalServer(_),
{
    match bcrypt_verify(password, hash) {
        Ok(b) => Ok(b),
        Err(msg) => {
            let mut out = String::new();
            push_str(&mut out, "Échec de la vérification du mot de passe: ");
            push_str(&mut out, msg.as_str());
            Err(ApiError::InternalServer(out))
        },
    }
}

/// Whether an authorization header carries a bearer token.
pub open spec fn spec_has_bearer(header: Seq<char>) -> bool {
    header.len() >= 7 && header.take(7) == "Bearer "@
}

/// Extracts the bearer token from an authorization header: everything
/// after the `Bearer ` prefix.  A missing header or another scheme is a
/// `BadRequest`.
#[verifier::loop_isolation(false)]
pub fn bearer_token(header: Option<&str>) -> (r: Result<String, ApiError>)
    ensures
        r matches Ok(token) ==> (header matches Some(h) && spec_has_bearer(h@) && token@ == h@.skip(
            7,
        )),
        r matches Err(e) ==> ((header matches Some(h) ==> !spec_has_bearer(h@)) && (e matches
            ApiError::BadRequest(m) && m@ == "Missing or invalid Authorization header"@)),
        (header matches Some(h) && spec_has_bearer(h@)) ==> r is Ok,
{
    match header {
        Some(h) => {
            let chars = crate::strutil::str_to_chars(h);
            let prefix: [char; 7] = ['B', 'e', 'a', 'r', 'e', 'r', ' '];
            proof {
                reveal_strlit("Bearer ");
            }
            if chars.len() < 7 {
                proof {
                    assert(!spec_has_bearer(h@));
                }
                return Err(ApiError::BadRequest(
                    "Missing or invalid Authorization header".to_owned(),
                ));
            }
            let mut k: usize = 0;
            while k < 7
                invariant
                    chars@ == h@,
                    chars@.len() >= 7,
                    k <= 7,
                    prefix@ == "Bearer "@,
                    forall|m: int| 0 <= m < k ==> chars@[m] == prefix@[m],
                decreases 7 - k,
            {
                if chars[k] != prefix[k] {
                    proof {
                        assert(h@.take(7)[k as int] != "Bearer "@[k as int]);
                        assert(!spec_has_bearer(h@));
                    }
                    return Err(ApiError::BadRequest(
                        "Missing or invalid Authorization header".to_owned(),
                    ));
                }
                k = k + 1;
            }
            proof {
                assert(h@.take(7) =~= "Bearer "@);
            }
            let mut token_chars: Vec<char> = Vec::new();
            let mut j: usize = 7;
            proof {
                assert(token_chars@ =~= h@.skip(7).take(0));
            }
            while j < chars.len()
                invariant
                    chars@ == h@,
                    chars@.len() >= 7,
                    7 <= j <= chars@.len(),
                    token_chars@ == h@.skip(7).take(j - 7),
                decreases chars@.len() - j,
            {
                token_chars.push(chars[j]);
                proof {
                    assert(h@.skip(7)[j - 7] == h@[j as int]);
                    assert(token_chars@ =~= h@.skip(7).take(j - 7 + 1));
                }
                j = j + 1;
            }
            proof {
                assert(token_chars@ =~= h@.skip(7));
            }
            Ok(crate::strutil::chars_to_string(&token_chars))
        },
        None => Err(ApiError::BadRequest("Missing or invalid Authorization header".to_owned())),
    }
}

/// The subject a token speaks for.
#[derive(Debug)]
pub struct Sub {
    pub id: String,
    pub email: String,
    pub is_admin: Option<bool>,
}

/// The claims carried by an access token.
#[derive(Debug)]
pub struct Claims {
    pub user: Sub,
    pub sub: String,
    pub exp: i64,
    pub iat: i64,
}

/// Builds the claims for a token issued at `now` that expires
/// `expiration_seconds` later.
pub fn make_claims(user: Sub, now: i64, expiration_seconds: u32) -> (r: Claims)
    requires
        now + expiration_seconds <= i64::MAX,
    ensures
        r.sub == user.id,
        r.user == user,
        r.iat == now,
        r.exp == now + expiration_seconds,
{
    let sub = user.id.clone();
    proof {
        assert(user.id@ == sub@);
    }
    Claims { sub, user, exp: now + expiration_seconds as i64, iat: now }
}

/// Requires the looked-up user to exist: an absent row is `NotFound`
/// with the id spelled out.
pub fn require_user(found: Option<User>, id: &str) -> (r: Result<User, ApiError>)
    ensures
        found matches Some(u) ==> (r matches Ok(ru) && ru == u),
        found is None ==> (r matches Err(e) && e matches ApiError::NotFound(m) && m@
            == "Utilisateur avec l'ID "@ + id@ + " non trouvé"@),
{
    match found {
        Some(u) => Ok(u),
        None => {
            let mut out = String::new();
            push_str(&mut out, "Utilisateur avec l'ID ");
            push_str(&mut out, id);
            push_str(&mut out, " non trouvé");
            Err(ApiError::NotFound(out))
        },
    }
}

/// Rejects a registration when the email is already taken: a `Conflict`
/// with the email spelled out.
pub fn ensure_email_available(existing: Option<User>, email: &str) -> (r: Result<(), ApiError>)
    ensures
        r is Ok <==> existing is None,
        r matches Err(e) ==> (e matches ApiError::Conflict(m) && m@ == "Un utilisateur avec l'email "@
            + email@ + " existe déjà"@),
{
    match existing {
        Some(_) => {
            let mut out = String::new();
            push_str(&mut out, "Un utilisateur avec l'email ");
            push_str(&mut out, email);
            push_str(&mut out, " existe déjà");
            Err(ApiError::Conflict(out))
        },
        None => Ok(()),
    }
}

/// Rejects a registration when the email is already taken, as the
/// authentication flow reports it: a `BadRequest` with a fixed message.
pub fn ensure_email_free_for_registration(existing: Option<User>) -> (r: Result<(), ApiError>)
    ensures
        r is Ok <==> existing is None,
        r matches Err(e) ==> (e matches ApiError::BadRequest(m) && m@
            == "Un utilisateur avec cet email existe déjà"@),
{
    match existing {
        Some(_) => Err(ApiError::BadRequest("Un utilisateur avec cet email existe déjà".to_owned())),
        None => Ok(()),
    }
}

/// Decides an authentication attempt from the looked-up user and the
/// supplied password: an unknown email and a wrong password fail alike,
/// with no hint which one it was.
pub fn authenticate_user(found: Option<User>, password: &str) -> (r: Result<User, ApiError>)
    ensures
        found is None ==> (r matches Err(e) && e matches ApiError::Authentication(m) && m@
            == "Email ou mot de passe invalide"@),
        found matches Some(u) ==> match bcrypt_verify_of(password@, u.password_hash@) {
            Some(true) => r matches Ok(ru) && ru == u,
            Some(false) => r matches Err(e) && e matches ApiError::Authentication(m) && m@
                == "Email ou mot de passe invalide"@,
            None => r matches Err(e) && e matches ApiError::InternalServer(_),
        },
{
    match found {
        Some(u) => {
            match verify_password(password, u.password_hash.as_str()) {
                Ok(true) => Ok(u),
                Ok(false) => Err(
                    ApiError::Authentication("Email ou mot de passe invalide".to_owned()),
                ),
                Err(e) => Err(e),
            }
        },
        None => Err(ApiError::Authentication("Email ou mot de passe invalide".to_owned())),
    }
}

/// Whether a supplied email would collide with another account: it is
/// new, held by a different user, and that user is not the one being
/// updated.
pub open spec fn spec_email_conflict(
    user: User,
    email: Option<String>,
    existing_with_email: Option<User>,
) -> bool {
    match email {
        Some(e) => e@ != user.email@ && match existing_with_email {
            Some(other) => other.id@ != user.id@,
            None => false,
        },
        None => false,
    }
}

/// Merges a partial update into a user: the username and email replace
/// the stored ones when supplied (a taken email is a `Conflict`), and a
/// supplied password is hashed before it is stored.
/// `existing_with_email` is the result of looking the supplied email up
/// when it differs from the stored one.
pub fn apply_user_update(
    user: User,
    username: Option<String>,
    email: Option<String>,
    existing_with_email: Option<User>,
    password: Option<String>,
) -> (r: Result<User, ApiError>)
    ensures
        spec_email_conflict(user, email, existing_with_email) ==> (r matches Err(e) && e matches
            ApiError::Conflict(_)),
        (!spec_email_conflict(user, email, existing_with_email) && password is None) ==> r is Ok,
        r matches Err(e) ==> ((e matches ApiError::Conflict(_) && spec_email_conflict(
            user,
            email,
            existing_with_email,
        )) || (e matches ApiError::InternalServer(_) && password is Some)),
        r matches Ok(u) ==> {
            &&& !spec_email_conflict(user, email, existing_with_email)
            &&& u.id == user.id
            &&& u.created_at == user.created_at
            &&& u.updated_at == user.updated_at
            &&& u.username == (match username {
                Some(n) => n,
                None => user.username,
            })
            &&& u.email@ == (match email {
                Some(e) => e@,
                None => user.email@,
            })
            &&& (password is None ==> u.password_hash == user.password_hash)
            &&& (password matches Some(p) ==> u.password_hash@.len() == 60 && bcrypt_verify_of(
                p@,
                u.password_hash@,
            ) == Some(true))
        },
{
    let mut merged = user;
    match username {
        Some(n) => {
            merged.username = n;
        },
        None => {},
    }
    match email {
        Some(e) => {
            if !crate::strutil::str_eq(e.as_str(), merged.email.as_str()) {
                match &existing_with_email {
                    Some(other) => {
                        if !crate::strutil::str_eq(other.id.as_str(), merged.id.as_str()) {
                            let mut out = String::new();
                            push_str(&mut out, "Un utilisateur avec l'email ");
                            push_str(&mut out, e.as_str());
                            push_str(&mut out, " existe déjà");
                            return Err(ApiError::Conflict(out));
                        }
                    },
                    None => {},
                }
                merged.email = e;
            } else {
                merged.email = e;
            }
        },
        None => {},
    }
    match password {
        Some(p) => {
            match hash_password(p.as_str()) {
                Ok(h) => {
                    merged.password_hash = h;
                },
                Err(err) => {
                    return Err(err);
                },
            }
        },
        None => {},
    }
    Ok(merged)
}

} // verus!
