//! Firebase Auth: the payloads of sign-in, sign-up, password reset and token
//! refresh, and the requests that the client sends for them.

use vstd::prelude::*;
use crate::text::join;

verus! {

/// Sign-in request payload.
#[derive(Debug, PartialEq, Eq)]
pub struct SignInRequest {
    pub email: String,
    pub password: String,
    pub return_secure_token: bool,
}

/// Sign-up request payload.
#[derive(Debug, PartialEq, Eq)]
pub struct SignUpRequest {
    pub email: String,
    pub password: String,
    pub return_secure_token: bool,
}

/// Password reset request payload.
#[derive(Debug, PartialEq, Eq)]
pub struct PasswordResetRequest {
    pub request_type: String,
    pub email: String,
}

/// Token refresh request payload.
#[derive(Debug, PartialEq, Eq)]
pub struct RefreshTokenRequest {
    pub grant_type: String,
    pub refresh_token: String,
}

/// Firebase Auth response for sign-in and sign-up.
#[derive(Debug, PartialEq, Eq)]
pub struct AuthResponse {
    pub id_token: String,
    pub email: String,
    pub refresh_token: String,
    pub expires_in: String,
    pub local_id: String,
    pub registered: Option<bool>,
}

/// Firebase Auth error response.
#[derive(Debug, PartialEq, Eq)]
pub struct AuthErrorResponse {
    pub error: AuthErrorDetail,
}

/// The detail of a Firebase Auth error.
#[derive(Debug, PartialEq, Eq)]
pub struct AuthErrorDetail {
    pub code: u16,
    pub message: String,
}

/// Token refresh response.
#[derive(Debug, PartialEq, Eq)]
pub struct RefreshResponse {
    pub id_token: String,
    pub refresh_token: String,
    pub expires_in: String,
    pub token_type: String,
    pub user_id: String,
}

/// A POST whose body is the JSON of `body`.
#[derive(Debug, PartialEq, Eq)]
pub struct JsonPost<B> {
    pub url: String,
    pub body: B,
}

/// The Identity Toolkit URL of the account operation `op` (such as
/// `signUp`) with the API key `key`.
pub open spec fn accounts_url(op: Seq<char>, key: Seq<char>) -> Seq<char> {
    "https://identitytoolkit.googleapis.com/v1"@ + "/accounts:"@ + op + "?key="@ + key
}

/// The Secure Token URL of a token refresh with the API key `key`.
pub open spec fn refresh_url(key: Seq<char>) -> Seq<char> {
    "https://securetoken.googleapis.com/v1/token?key="@ + key
}

/// Every account operation goes to
/// `https://identitytoolkit.googleapis.com/v1/accounts:` followed by the
/// operation and `?key=` with the API key; two operations with one key differ
/// only in the operation's name. A token refresh goes to
/// `https://securetoken.googleapis.com/v1/token?key=` and the key.
pub proof fn lemma_auth_urls(op: Seq<char>, other: Seq<char>, key: Seq<char>)
    ensures
        accounts_url(op, key) == "https://identitytoolkit.googleapis.com/v1/accounts:"@ + op + "?key="@ + key,
        accounts_url(op, key) == accounts_url(other, key) <==> op == other,
        refresh_url(key) == "https://securetoken.googleapis.com/v1/token?key="@ + key,
{
    reveal_strlit("https://identitytoolkit.googleapis.com/v1");
    reveal_strlit("/accounts:");
    reveal_strlit("https://identitytoolkit.googleapis.com/v1/accounts:");
    let pre = "https://identitytoolkit.googleapis.com/v1/accounts:"@;
    assert("https://identitytoolkit.googleapis.com/v1"@ + "/accounts:"@ =~= pre);
    assert(accounts_url(op, key) =~= pre + op + "?key="@ + key);
    assert(accounts_url(other, key) =~= pre + other + "?key="@ + key);
    if accounts_url(op, key) == accounts_url(other, key) {
        let a = accounts_url(op, key);
        let tail = "?key="@ + key;
        assert(a.len() == pre.len() + op.len() + tail.len());
        assert(op.len() == other.len());
        assert forall|i: int| 0 <= i < op.len() implies op[i] == other[i] by {
            assert(accounts_url(op, key)[pre.len() + i] == op[i]);
            assert(accounts_url(other, key)[pre.len() + i] == other[i]);
        }
        assert(op =~= other);
    }
}

/// The configuration of the Firebase Auth client: its API key.
#[derive(Debug, PartialEq, Eq)]
pub struct FirebaseAuthClient {
    pub api_key: String,
}

impl FirebaseAuthClient {
    /// A client with the Firebase API key `api_key`.
    pub fn new(api_key: String) -> (r: FirebaseAuthClient)
        ensures
            r.api_key@ == api_key@,
    {
        FirebaseAuthClient { api_key }
    }

    /// The URL of the account operation `op` with this client's key.
    fn accounts_url(&self, op: &str) -> (r: String)
        ensures
            r@ == accounts_url(op@, self.api_key@),
    {
        let mut url = join("https://identitytoolkit.googleapis.com/v1", "/accounts:");
        url.append(op);
        url.append("?key=");
        url.append(self.api_key.as_str());
        assert(url@ =~= accounts_url(op@, self.api_key@));
        url
    }

    /// The sign-in request with `email` and `password`, asking for a secure token.
    pub fn sign_in_request(&self, email: &str, password: &str) -> (r: JsonPost<SignInRequest>)
        ensures
            r.url@ == accounts_url("signInWithPassword"@, self.api_key@),
            r.body.email@ == email@,
            r.body.password@ == password@,
            r.body.return_secure_token,
    {
        JsonPost {
            url: self.accounts_url("signInWithPassword"),
            body: SignInRequest {
                email: String::from_str(email),
                password: String::from_str(password),
                return_secure_token: true,
            },
        }
    }

    /// The sign-up request with `email` and `password`, asking for a secure token.
    pub fn sign_up_request(&self, email: &str, password: &str) -> (r: JsonPost<SignUpRequest>)
        ensures
            r.url@ == accounts_url("signUp"@, self.api_key@),
            r.body.email@ == email@,
            r.body.password@ == password@,
            r.body.return_secure_token,
    {
        JsonPost {
            url: self.accounts_url("signUp"),
            body: SignUpRequest {
                email: String::from_str(email),
                password: String::from_str(password),
                return_secure_token: true,
            },
        }
    }

    /// The request that sends `email` a password reset message.
    pub fn password_reset_request(&self, email: &str) -> (r: JsonPost<PasswordResetRequest>)
        ensures
            r.url@ == accounts_url("sendOobCode"@, self.api_key@),
            r.body.request_type@ == "PASSWORD_RESET"@,
            r.body.email@ == email@,
    {
        JsonPost {
            url: self.accounts_url("sendOobCode"),
            body: PasswordResetRequest {
                request_type: String::from_str("PASSWORD_RESET"),
                email: String::from_str(email),
            },
        }
    }

    /// The request that trades `refresh_token` for a new ID token.
    pub fn refresh_token_request(&self, refresh_token: &str) -> (r: JsonPost<RefreshTokenRequest>)
        ensures
            r.url@ == refresh_url(self.api_key@),
            r.body.grant_type@ == "refresh_token"@,
            r.body.refresh_token@ == refresh_token@,
    {
        JsonPost {
            url: join("https://securetoken.googleapis.com/v1/token?key=", self.api_key.as_str()),
            body: RefreshTokenRequest {
                grant_type: String::from_str("refresh_token"),
                refresh_token: String::from_str(refresh_token),
            },
        }
    }
}

} // verus!
