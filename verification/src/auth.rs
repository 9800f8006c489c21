//! The two ways of authenticating to the API.

use vstd::prelude::*;

verus! {

/// Credentials: HTTP Basic with a shop id and secret key, or an OAuth token.
#[derive(Debug, PartialEq, Eq)]
pub enum Auth {
    Basic { shop_id: String, secret_key: String },
    OAuth { token: String },
}

impl Clone for Auth {
    /// The same credentials.
    fn clone(&self) -> (a: Self)
        ensures
            a == *self,
    {
        match self {
            Auth::Basic { shop_id, secret_key } => Auth::Basic {
                shop_id: shop_id.clone(),
                secret_key: secret_key.clone(),
            },
            Auth::OAuth { token } => Auth::OAuth { token: token.clone() },
        }
    }
}

impl Auth {
    /// Basic credentials made of a shop id and a secret key.
    pub fn basic(shop_id: &str, secret_key: &str) -> (a: Self)
        ensures
            a matches Auth::Basic { shop_id: s, secret_key: k } && s@ == shop_id@ && k@
                == secret_key@,
    {
        Auth::Basic { shop_id: shop_id.to_owned(), secret_key: secret_key.to_owned() }
    }

    /// OAuth credentials made of a token.
    pub fn oauth(token: &str) -> (a: Self)
        ensures
            a matches Auth::OAuth { token: t } && t@ == token@,
    {
        Auth::OAuth { token: token.to_owned() }
    }

    /// Whether these credentials are an OAuth token.
    pub fn is_oauth(&self) -> (b: bool)
        ensures
            b == (*self is OAuth),
    {
        match self {
            Auth::OAuth { .. } => true,
            Auth::Basic { .. } => false,
        }
    }
}

/// Credentials built by `Auth::oauth` are OAuth credentials, and those built by
/// `Auth::basic` are not.
pub proof fn lemma_constructors_decide_oauth(shop_id: String, secret_key: String, token: String)
    ensures
        (Auth::OAuth { token }) is OAuth,
        !((Auth::Basic { shop_id, secret_key }) is OAuth),
{
}

} // verus!
