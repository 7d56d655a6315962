//! The two credential interceptors: an API key under a configurable header,
//! and a bearer token under `authorization`.

use vstd::prelude::*;
use tonic::Request;
use crate::error::InterceptError;
use crate::metadata::{
    ascii_lower, binary_entries, has_room, insert_ascii, inserted, is_ascii_metadata_key,
    is_ascii_metadata_value, is_ascii_value, metadata_key_count, metadata_state, parse_ascii_key,
    MetadataState, MAX_KEYS_FOR_INSERT,
};

verus! {

/// The header that carries an API key unless another is configured.
pub const X_API_KEY: &'static str = "x-api-key";

/// The header that carries a bearer token.
pub const AUTHORIZATION: &'static str = "authorization";

/// The message of the error for an API key that cannot be sent.
pub const API_KEY_ERROR: &'static str = "Error while setting additional metadata";

/// The message of the error for a token that cannot be sent.
pub const TOKEN_ERROR: &'static str = "Invalid Token";

/// The message of the error for a request with no room for another header.
pub const FULL_ERROR: &'static str = "Too many metadata keys";

/// The prefix of the `authorization` value.
pub const BEARER_PREFIX: &'static str = "Bearer ";

/// What an interceptor does to the metadata of a request: the new metadata,
/// or the error, as kind and message.
pub type Outcome = Result<MetadataState, (crate::error::ErrorKind, Seq<char>)>;

/// The outcome that a returned request or error stands for.
pub open spec fn outcome_of(r: Result<Request<()>, InterceptError>) -> Outcome {
    match r {
        Ok(req) => Ok(metadata_state(req)),
        Err(e) => Err(e@),
    }
}

/// A returned request keeps the binary metadata of `req`.
pub open spec fn keeps_binary(r: Result<Request<()>, InterceptError>, req: Request<()>) -> bool {
    r is Ok ==> binary_entries(r->Ok_0) == binary_entries(req)
}

/// Checks for room, then inserts.
fn insert_if_room(req: &mut Request<()>, key: &str, value: &str) -> (r: bool)
    requires
        is_ascii_metadata_key(key@),
        is_ascii_metadata_value(value@),
    ensures
        r == has_room(metadata_state(*old(req))),
        r ==> metadata_state(*final(req)) == inserted(
            metadata_state(*old(req)),
            ascii_lower(key@),
            value@,
        ),
        !r ==> *final(req) == *old(req),
        binary_entries(*final(req)) == binary_entries(*old(req)),
{
    if metadata_key_count(req) <= MAX_KEYS_FOR_INSERT {
        insert_ascii(req, key, value);
        true
    } else {
        false
    }
}

/// The header name that an API key goes under: the override when tonic
/// accepts it, in lower case, else `x-api-key`.
pub open spec fn resolved_header(header_name: Option<String>) -> Seq<char> {
    match header_name {
        Some(name) => if is_ascii_metadata_key(name@) {
            ascii_lower(name@)
        } else {
            X_API_KEY@
        },
        None => X_API_KEY@,
    }
}

/// Sends an API key as metadata, by default under `x-api-key`.
#[derive(Clone, Debug)]
pub struct APIKeyClientInterceptor {
    pub header_name: Option<String>,
    pub api_key: String,
}

impl APIKeyClientInterceptor {
    /// Creates an interceptor for API-key authentication under `x-api-key`.
    pub fn new(api_key: String) -> (r: Self)
        ensures
            r.api_key@ == api_key@,
            r.header_name is None,
    {
        Self { api_key, header_name: None }
    }

    /// The header name configured, or `x-api-key`.
    fn header_name(&self) -> (r: String)
        ensures
            r@ == match self.header_name {
                Some(name) => name@,
                None => X_API_KEY@,
            },
    {
        match &self.header_name {
            Some(name) => name.clone(),
            None => String::from_str(X_API_KEY),
        }
    }

    /// The header name that the key is sent under. An override that is no
    /// valid ASCII metadata key falls back to `x-api-key`.
    pub fn header_key(&self) -> (r: String)
        ensures
            r@ == resolved_header(self.header_name),
    {
        self.resolve_header_key().0
    }

    /// The header name that the key is sent under, as `header_key` gives it,
    /// and whether an override was set aside for `x-api-key` (so that it can
    /// be reported).
    pub fn resolve_header_key(&self) -> (r: (String, bool))
        ensures
            r.0@ == resolved_header(self.header_name),
            r.1 == (self.header_name matches Some(name) && !is_ascii_metadata_key(name@)),
    {
        proof {
            lemma_default_header();
        }
        let name = self.header_name();
        match parse_ascii_key(name.as_str()) {
            Some(key) => (key, false),
            None => (parse_ascii_key(X_API_KEY).unwrap(), true),
        }
    }

    /// What the interceptor does to the metadata `e` of a request.
    pub open spec fn apply_spec(self, s: MetadataState) -> Outcome {
        if !is_ascii_metadata_value(self.api_key@) {
            Err((crate::error::ErrorKind::InvalidArgument, API_KEY_ERROR@))
        } else if !has_room(s) {
            Err((crate::error::ErrorKind::ResourceExhausted, FULL_ERROR@))
        } else {
            Ok(inserted(s, resolved_header(self.header_name), self.api_key@))
        }
    }

    /// Puts the API key into the request's metadata under `header_key()`,
    /// replacing what that header held; fails when the key cannot be sent, or
    /// when the request has no room for another header.
    pub fn call(&self, request: Request<()>) -> (r: Result<Request<()>, InterceptError>)
        ensures
            outcome_of(r) == self.apply_spec(metadata_state(request)),
            keeps_binary(r, request),
    {
        let mut request = request;
        if !is_ascii_value(self.api_key.as_str()) {
            return Err(InterceptError::invalid_argument(API_KEY_ERROR));
        }
        let key = self.header_key();
        proof {
            lemma_resolved_header_valid(self.header_name);
            lemma_resolved_header_lower(self.header_name);
        }
        if insert_if_room(&mut request, key.as_str(), self.api_key.as_str()) {
            Ok(request)
        } else {
            Err(InterceptError::resource_exhausted(FULL_ERROR))
        }
    }
}

/// Sends a token as `authorization: Bearer <token>`.
#[derive(Clone, Debug)]
pub struct BearerTokenInterceptor {
    pub token: String,
}

impl BearerTokenInterceptor {
    pub fn new(token: String) -> (r: Self)
        ensures
            r.token@ == token@,
    {
        BearerTokenInterceptor { token }
    }

    /// What the interceptor does to the metadata `e` of a request.
    pub open spec fn apply_spec(self, s: MetadataState) -> Outcome {
        let value = BEARER_PREFIX@ + self.token@;
        if !is_ascii_metadata_value(value) {
            Err((crate::error::ErrorKind::InvalidArgument, TOKEN_ERROR@))
        } else if !has_room(s) {
            Err((crate::error::ErrorKind::ResourceExhausted, FULL_ERROR@))
        } else {
            Ok(inserted(s, AUTHORIZATION@, value))
        }
    }

    /// Puts `Bearer <token>` into the request's metadata under
    /// `authorization`; fails when that value cannot be sent, or when the
    /// request has no room for another header.
    pub fn call(&self, req: Request<()>) -> (r: Result<Request<()>, InterceptError>)
        ensures
            outcome_of(r) == self.apply_spec(metadata_state(req)),
            keeps_binary(r, req),
    {
        let mut req = req;
        let mut value = String::from_str(BEARER_PREFIX);
        value.append(self.token.as_str());
        if !is_ascii_value(value.as_str()) {
            return Err(InterceptError::invalid_argument(TOKEN_ERROR));
        }
        proof {
            reveal_strlit("authorization");
            assert(is_ascii_metadata_key(AUTHORIZATION@));
            assert(ascii_lower(AUTHORIZATION@) =~= AUTHORIZATION@);
        }
        if insert_if_room(&mut req, AUTHORIZATION, value.as_str()) {
            Ok(req)
        } else {
            Err(InterceptError::resource_exhausted(FULL_ERROR))
        }
    }
}

/// For a key that can be sent, into a request with room for it, the API-key
/// interceptor sets exactly one value, the key itself, under the resolved
/// header, and leaves every other header as it was.
pub proof fn lemma_api_key_sets_one_entry(a: APIKeyClientInterceptor, s: MetadataState)
    requires
        is_ascii_metadata_value(a.api_key@),
        has_room(s),
    ensures
        a.apply_spec(s) is Ok,
        a.apply_spec(s)->Ok_0.0[resolved_header(a.header_name)] == seq![a.api_key@],
        a.apply_spec(s)->Ok_0.0.dom() == s.0.dom().insert(resolved_header(a.header_name)),
        forall|k: Seq<char>|
            k != resolved_header(a.header_name) && #[trigger] s.0.contains_key(k)
                ==> a.apply_spec(s)->Ok_0.0[k] == s.0[k],
{
}

/// For a token whose `Bearer <token>` form can be sent, into a request with
/// room for it, the bearer
/// interceptor sets exactly that value under `authorization`, and leaves every
/// other header as it was.
pub proof fn lemma_bearer_sets_authorization(b: BearerTokenInterceptor, s: MetadataState)
    requires
        is_ascii_metadata_value(BEARER_PREFIX@ + b.token@),
        has_room(s),
    ensures
        b.apply_spec(s) is Ok,
        b.apply_spec(s)->Ok_0.0[AUTHORIZATION@] == seq![BEARER_PREFIX@ + b.token@],
        b.apply_spec(s)->Ok_0.0.dom() == s.0.dom().insert(AUTHORIZATION@),
        forall|k: Seq<char>|
            k != AUTHORIZATION@ && #[trigger] s.0.contains_key(k)
                ==> b.apply_spec(s)->Ok_0.0[k] == s.0[k],
{
}

/// `x-api-key` is a valid key, and in lower case.
proof fn lemma_default_header()
    ensures
        is_ascii_metadata_key(X_API_KEY@),
        ascii_lower(X_API_KEY@) == X_API_KEY@,
{
    reveal_strlit("x-api-key");
    assert(ascii_lower(X_API_KEY@) =~= X_API_KEY@);
}

/// The header an API key goes under is already in lower case.
proof fn lemma_resolved_header_lower(header_name: Option<String>)
    ensures
        ascii_lower(resolved_header(header_name)) == resolved_header(header_name),
{
    lemma_default_header();
    if let Some(name) = header_name {
        lemma_lower_idempotent(name@);
    }
}

/// The header an API key goes under is always one that tonic accepts.
proof fn lemma_resolved_header_valid(header_name: Option<String>)
    ensures
        is_ascii_metadata_key(resolved_header(header_name)),
{
    lemma_default_header();
    match header_name {
        Some(name) => if is_ascii_metadata_key(name@) {
            lemma_lower_keeps_key(name@);
        },
        None => {},
    }
}

/// Folding a valid key to lower case leaves it valid.
proof fn lemma_lower_keeps_key(s: Seq<char>)
    requires
        is_ascii_metadata_key(s),
    ensures
        is_ascii_metadata_key(ascii_lower(s)),
{
    let l = ascii_lower(s);
    assert forall|i: int| 0 <= i < l.len() implies #[trigger] is_token_char_of(l, i) by {
        assert(crate::metadata::is_token_char(s[i]));
    }
    lemma_lower_idempotent(s);
}

spec fn is_token_char_of(s: Seq<char>, i: int) -> bool {
    crate::metadata::is_token_char(s[i])
}

/// Folding to lower case twice is folding once.
proof fn lemma_lower_idempotent(s: Seq<char>)
    ensures
        ascii_lower(ascii_lower(s)) == ascii_lower(s),
{
    assert(ascii_lower(ascii_lower(s)) =~= ascii_lower(s));
}

} // verus!
