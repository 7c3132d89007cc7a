//! The delegated token: a credential obtained with a user's consent and
//! renewed from then on with the refresh token that came with it.

use crate::ms_graph_api::cfg::Config;
use crate::ms_graph_api::token::expiry_after_renewal;
use crate::ms_graph_api::token::token_status;
use crate::ms_graph_api::token::TokenError;
use vstd::prelude::*;

verus! {

/// The delegated token, its refresh token, the lifetime it was granted for
/// and the time from which it is no longer used.
pub struct GrantedToken {
    pub access_token: String,
    pub refresh_token: String,
    pub expires_in: u64,
    pub expires_at: u128,
}

/// What the identity platform answers to a grant request.
pub struct TokenGrant {
    pub access_token: String,
    pub refresh_token: String,
    pub expires_in: u64,
}

/// One field of a grant request.
pub struct FormField {
    pub name: String,
    pub value: String,
}

/// The permissions that the delegated token is asked for.
pub const DELEGATED_SCOPE: &'static str = "ChannelMessage.Send ChannelMessage.ReadWrite";

/// The names and values of a list of form fields.
pub open spec fn form_view(form: Seq<FormField>) -> Seq<(Seq<char>, Seq<char>)> {
    Seq::new(form.len(), |i: int| (form[i].name@, form[i].value@))
}

/// The form that redeems an authorization code.
pub open spec fn authorization_form(config: Config, code: Seq<char>) -> Seq<(Seq<char>, Seq<char>)> {
    seq![
        ("client_id"@, config.client_id@),
        ("scope"@, DELEGATED_SCOPE@),
        ("code"@, code),
        ("redirect_uri"@, config.oauth_url@),
        ("grant_type"@, "authorization_code"@),
    ]
}

/// The form that redeems a refresh token.
pub open spec fn refresh_form(config: Config, refresh_token: Seq<char>) -> Seq<
    (Seq<char>, Seq<char>),
> {
    seq![
        ("client_id"@, config.client_id@),
        ("scope"@, DELEGATED_SCOPE@),
        ("refresh_token"@, refresh_token),
        ("grant_type"@, "refresh_token"@),
    ]
}

fn field(name: &str, value: &str) -> (r: FormField)
    ensures
        r.name@ == name@,
        r.value@ == value@,
{
    FormField { name: name.to_string(), value: value.to_string() }
}

impl GrantedToken {
    /// Whether the token can be used at `now`.
    pub open spec fn status(self, now: int) -> Result<(), TokenError> {
        token_status(self.access_token@, self.expires_at as int, now)
    }

    /// No token yet: the user has not consented.
    pub fn new() -> (r: Self)
        ensures
            r.access_token@.len() == 0,
            r.refresh_token@.len() == 0,
            r.expires_in == 0,
            r.expires_at == 0,
    {
        GrantedToken {
            access_token: String::new(),
            refresh_token: String::new(),
            expires_in: 0,
            expires_at: 0,
        }
    }

    /// Whether the user has consented: there is a token, be it past its
    /// time or not.
    pub fn is_present(&self) -> (r: bool)
        ensures
            r == (self.access_token@.len() > 0),
    {
        !self.access_token.as_str().is_empty()
    }

    /// The form that redeems the authorization code of the consent flow.
    pub fn set_first_time(config: &Config, code: &str) -> (form: Vec<FormField>)
        ensures
            form_view(form@) == authorization_form(*config, code@),
    {
        let mut form: Vec<FormField> = Vec::new();
        form.push(field("client_id", config.client_id.as_str()));
        form.push(field("scope", DELEGATED_SCOPE));
        form.push(field("code", code));
        form.push(field("redirect_uri", config.oauth_url.as_str()));
        form.push(field("grant_type", "authorization_code"));
        assert(form_view(form@) =~= authorization_form(*config, code@));
        form
    }

    /// The form that redeems the current refresh token.
    pub fn refresh_and_get_expiration_time(&self, config: &Config) -> (form: Vec<FormField>)
        ensures
            form_view(form@) == refresh_form(*config, self.refresh_token@),
    {
        let mut form: Vec<FormField> = Vec::new();
        form.push(field("client_id", config.client_id.as_str()));
        form.push(field("scope", DELEGATED_SCOPE));
        form.push(field("refresh_token", self.refresh_token.as_str()));
        form.push(field("grant_type", "refresh_token"));
        assert(form_view(form@) =~= refresh_form(*config, self.refresh_token@));
        form
    }

    /// Takes what a grant request answered at `now`: the access token, the
    /// refresh token that replaces the one just used, and the lifetime, of
    /// which half is used. Hands back the lifetime.
    pub fn set(&mut self, grant: TokenGrant, now: u64) -> (r: u64)
        ensures
            final(self).access_token == grant.access_token,
            final(self).refresh_token == grant.refresh_token,
            final(self).expires_in == grant.expires_in,
            final(self).expires_at == expiry_after_renewal(now as int, grant.expires_in as int),
            r == grant.expires_in,
    {
        self.expires_in = grant.expires_in;
        self.expires_at = now as u128 + (grant.expires_in / 2) as u128;
        self.access_token = grant.access_token;
        self.refresh_token = grant.refresh_token;
        self.expires_in
    }

    /// The token, if the user has consented and `now` is before its expiry.
    pub fn get(&self, now: u64) -> (r: Result<String, TokenError>)
        ensures
            match r {
                Ok(value) => self.status(now as int) is Ok && value == self.access_token,
                Err(e) => self.status(now as int) == Err::<(), TokenError>(e),
            },
    {
        if self.access_token.as_str().is_empty() {
            return Err(TokenError::Empty);
        }
        if (now as u128) < self.expires_at {
            Ok(self.access_token.clone())
        } else {
            Err(TokenError::Expired)
        }
    }
}

} // verus!
