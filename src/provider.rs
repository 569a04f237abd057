use crate::claims::{decodes_to, Claims};
use crate::error::OidcError;
use crate::keys::{expiry_after, fresh, KeyCache, RemoteKeys, RemoteKeysProvider, DEFAULT_VALIDITY_SECS};
use crate::token::{payload_under, token_verifies, verify_with_keys};
use crate::urls::{join_url, parse_url, url_join_of, url_parses};
use vstd::prelude::*;

verus! {

/// The text with one trailing slash, if it has one, taken off.
pub open spec fn strip_slash(s: Seq<char>) -> Seq<char> {
    if s.len() > 0 && s.last() == '/' {
        s.drop_last()
    } else {
        s
    }
}

/// Two issuer identifiers name the same issuer when they are equal once a
/// single trailing slash is taken off each.
pub open spec fn issuers_agree(a: Seq<char>, b: Seq<char>) -> bool {
    strip_slash(a) == strip_slash(b)
}

/// Compares two issuer identifiers, ignoring a single trailing slash on each.
pub fn issuers_match(requested: &str, claimed: &str) -> (r: bool)
    ensures
        r == issuers_agree(requested@, claimed@),
{
    let n = requested.unicode_len();
    let m = claimed.unicode_len();
    let la: usize = if n > 0 && requested.get_char(n - 1) == '/' { n - 1 } else { n };
    let lb: usize = if m > 0 && claimed.get_char(m - 1) == '/' { m - 1 } else { m };
    let ghost sa = strip_slash(requested@);
    let ghost sb = strip_slash(claimed@);
    assert(sa.len() == la && sb.len() == lb);
    if la != lb {
        return false;
    }
    let mut i: usize = 0;
    while i < la
        invariant
            la == lb,
            la <= n == requested@.len(),
            lb <= m == claimed@.len(),
            sa == strip_slash(requested@),
            sb == strip_slash(claimed@),
            sa.len() == la,
            sb.len() == lb,
            i <= la,
            forall|j: int| 0 <= j < i ==> sa[j] == sb[j],
        decreases la - i,
    {
        if requested.get_char(i) != claimed.get_char(i) {
            assert(sa[i as int] != sb[i as int]);
            return false;
        }
        i += 1;
    }
    assert(sa =~= sb);
    true
}

/// Discovery ignores a trailing slash: an issuer identifier without one
/// names the same issuer as the same text with one slash appended.
pub proof fn lemma_trailing_slash_equivalent(s: Seq<char>)
    requires
        s.len() == 0 || s.last() != '/',
    ensures
        issuers_agree(s, s.push('/')),
        issuers_agree(s.push('/'), s),
{
    assert(s.push('/').drop_last() =~= s);
}

/// Discovery ignores a trailing slash on the requested issuer: a document
/// is accepted for the issuer text exactly when it is accepted for that text
/// with one slash appended.
pub proof fn lemma_discovery_slash_insensitive(issuer: Seq<char>, body: Seq<u8>)
    requires
        issuer.len() == 0 || issuer.last() != '/',
    ensures
        document_accepted(issuer, body) == document_accepted(issuer.push('/'), body),
{
    lemma_trailing_slash_equivalent(issuer);
}

/// A refresh that installs an empty key set at `fetched_at`, with a
/// positive window, leaves a snapshot that is valid at that instant and
/// under which no token verifies: verification then fails with
/// `NoRemoteKeys`.
pub proof fn lemma_empty_refresh_has_no_keys(keys: RemoteKeys, fetched_at: int, validity: int, token: Seq<char>)
    requires
        keys.keys@.len() == 0,
        keys.expiry == expiry_after(fetched_at, validity),
        validity > 0,
        i64::MIN <= fetched_at < i64::MAX,
    ensures
        fresh(Some(keys), fetched_at),
        !token_verifies(keys.keys@, token),
{
}

/// Whether the bytes are JSON that `serde_json` parses.
pub uninterp spec fn json_parses(body: Seq<u8>) -> bool;

/// Relies on `serde_json::from_slice` into `serde_json::Value`: the body
/// parses as a whole or not at all.
#[verifier::external_body]
pub(crate) fn parse_json(body: &[u8]) -> (r: Result<serde_json::Value, String>)
    ensures
        r is Ok <==> json_parses(body@),
{
    serde_json::from_slice::<serde_json::Value>(body).map_err(|e| e.to_string())
}

/// The string held under `key` of the JSON object that the bytes are, if
/// they are one and hold a string there.
pub uninterp spec fn json_str_field(body: Seq<u8>, key: Seq<char>) -> Option<Seq<char>>;

/// Relies on `serde_json::from_slice` into `serde_json::Value`, then
/// `Value::get` and `Value::as_str`: only a body that parses holds a field.
#[verifier::external_body]
fn body_str_field(body: &[u8], key: &str) -> (r: Option<String>)
    ensures
        r is Some <==> json_str_field(body@, key@) is Some,
        r is Some ==> r->0@ == json_str_field(body@, key@)->0,
        r is Some ==> json_parses(body@),
{
    let v = serde_json::from_slice::<serde_json::Value>(body).ok()?;
    v.get(key).and_then(|x| x.as_str()).map(|x| x.to_string())
}

/// The string field `key` of a discovery document.
pub open spec fn doc_field(body: Seq<u8>, key: Seq<char>) -> Seq<char> {
    json_str_field(body, key)->0
}

/// Whether the body is JSON holding the five string fields that setup reads.
pub open spec fn has_fields(body: Seq<u8>) -> bool {
    &&& json_parses(body)
    &&& json_str_field(body, "issuer"@) is Some
    &&& json_str_field(body, "authorization_endpoint"@) is Some
    &&& json_str_field(body, "token_endpoint"@) is Some
    &&& json_str_field(body, "jwks_uri"@) is Some
    &&& json_str_field(body, "userinfo_endpoint"@) is Some
}

/// Whether every endpoint field of the document is a valid URL.
pub open spec fn fields_parse(body: Seq<u8>) -> bool {
    &&& url_parses(doc_field(body, "authorization_endpoint"@))
    &&& url_parses(doc_field(body, "token_endpoint"@))
    &&& url_parses(doc_field(body, "userinfo_endpoint"@))
    &&& url_parses(doc_field(body, "jwks_uri"@))
}

/// Whether discovery of `issuer` accepts the document: it has the fields,
/// names the requested issuer up to a trailing slash, and its endpoints are
/// valid URLs.
pub open spec fn document_accepted(issuer: Seq<char>, body: Seq<u8>) -> bool {
    &&& has_fields(body)
    &&& issuers_agree(issuer, doc_field(body, "issuer"@))
    &&& fields_parse(body)
}

/// The fields of an issuer's discovery document that setup reads.
pub struct ProviderDocument {
    pub issuer: String,
    pub authorization_endpoint: String,
    pub token_endpoint: String,
    pub jwks_uri: String,
    pub userinfo_endpoint: String,
}

/// Whether every endpoint of the document is a valid URL.
pub open spec fn endpoints_parse(doc: ProviderDocument) -> bool {
    &&& url_parses(doc.authorization_endpoint@)
    &&& url_parses(doc.token_endpoint@)
    &&& url_parses(doc.userinfo_endpoint@)
    &&& url_parses(doc.jwks_uri@)
}

/// A discovered issuer: its identifier and endpoints, the document they came
/// from, and the cache of its signing keys.
pub struct Provider {
    pub issuer: String,
    pub auth_url: url::Url,
    pub token_url: url::Url,
    pub user_info_url: url::Url,
    pub raw_configuration: serde_json::Value,
    pub remote_key_set: KeyCache,
}

fn field_or_err(body: &[u8], key: &str) -> (r: Result<String, OidcError>)
    ensures
        r is Ok <==> json_str_field(body@, key@) is Some,
        r is Ok ==> r->Ok_0@ == json_str_field(body@, key@)->0,
        r is Err ==> r->Err_0 is Serde,
{
    match body_str_field(body, key) {
        Some(s) => Ok(s),
        None => Err(OidcError::Serde(format_missing(key))),
    }
}

fn format_missing(key: &str) -> (r: String) {
    let mut msg = String::from_str("missing string field ");
    msg.append(key);
    msg
}

impl Provider {
    /// Where the discovery document of `issuer` is fetched from: the
    /// well-known configuration path resolved against the issuer URL.
    pub fn discovery_url(issuer: &str) -> (r: Result<String, OidcError>)
        ensures
            r is Ok <==> url_join_of(issuer@, ".well-known/openid-configuration"@) is Some,
            r is Ok ==> r->Ok_0@ == url_join_of(issuer@, ".well-known/openid-configuration"@)->0,
            !url_parses(issuer@) ==> r is Err,
            r is Err ==> r->Err_0 is InvalidUrl,
    {
        match join_url(issuer, ".well-known/openid-configuration") {
            Ok(u) => Ok(u),
            Err(msg) => Err(OidcError::InvalidUrl(msg)),
        }
    }

    /// Builds the provider for `issuer` from its discovery document. The
    /// document must name the requested issuer, up to a trailing slash, and
    /// each endpoint must be a valid URL; the key cache starts empty.
    pub fn from_configuration(
        issuer: &str,
        doc: ProviderDocument,
        raw: serde_json::Value,
    ) -> (r: Result<Provider, OidcError>)
        ensures
            (r is Err && r->Err_0 is IssuerMismatch) <==> !issuers_agree(issuer@, doc.issuer@),
            r is Ok <==> issuers_agree(issuer@, doc.issuer@) && endpoints_parse(doc),
            r is Err ==> r->Err_0 is IssuerMismatch || r->Err_0 is InvalidUrl,
            r is Ok ==> {
                let p = r->Ok_0;
                &&& p.issuer@ == doc.issuer@
                &&& p.raw_configuration == raw
                &&& p.remote_key_set.snapshot is None
                &&& !p.remote_key_set.refreshing
                &&& p.remote_key_set.validity == DEFAULT_VALIDITY_SECS
            },
    {
        if !issuers_match(&doc.issuer, issuer) {
            return Err(OidcError::IssuerMismatch);
        }
        let auth_url = match parse_url(&doc.authorization_endpoint) {
            Ok(u) => u,
            Err(msg) => return Err(OidcError::InvalidUrl(msg)),
        };
        let token_url = match parse_url(&doc.token_endpoint) {
            Ok(u) => u,
            Err(msg) => return Err(OidcError::InvalidUrl(msg)),
        };
        let user_info_url = match parse_url(&doc.userinfo_endpoint) {
            Ok(u) => u,
            Err(msg) => return Err(OidcError::InvalidUrl(msg)),
        };
        let source = match RemoteKeysProvider::new(&doc.jwks_uri) {
            Ok(s) => s,
            Err(e) => return Err(e),
        };
        Ok(Provider {
            issuer: doc.issuer,
            auth_url,
            token_url,
            user_info_url,
            raw_configuration: raw,
            remote_key_set: KeyCache::new(source),
        })
    }

    /// Builds the provider for `issuer` from the body of its discovery
    /// response: JSON with the string fields `issuer`,
    /// `authorization_endpoint`, `token_endpoint`, `jwks_uri` and
    /// `userinfo_endpoint`. The document must name the requested issuer, up
    /// to a trailing slash, and its endpoints must be valid URLs.
    pub fn from_document(issuer: &str, body: &[u8]) -> (r: Result<Provider, OidcError>)
        ensures
            r is Ok <==> document_accepted(issuer@, body@),
            r is Ok ==> {
                let p = r->Ok_0;
                &&& p.issuer@ == doc_field(body@, "issuer"@)
                &&& p.remote_key_set.snapshot is None
                &&& !p.remote_key_set.refreshing
                &&& p.remote_key_set.validity == DEFAULT_VALIDITY_SECS
            },
            !has_fields(body@) ==> r is Err && r->Err_0 is Serde,
            has_fields(body@) && !issuers_agree(issuer@, doc_field(body@, "issuer"@)) ==> r is Err
                && r->Err_0 is IssuerMismatch,
            has_fields(body@) && issuers_agree(issuer@, doc_field(body@, "issuer"@)) && !fields_parse(
                body@,
            ) ==> r is Err && r->Err_0 is InvalidUrl,
    {
        let raw = match parse_json(body) {
            Ok(v) => v,
            Err(msg) => return Err(OidcError::Serde(msg)),
        };
        let doc_issuer = field_or_err(body, "issuer")?;
        let authorization_endpoint = field_or_err(body, "authorization_endpoint")?;
        let token_endpoint = field_or_err(body, "token_endpoint")?;
        let jwks_uri = field_or_err(body, "jwks_uri")?;
        let userinfo_endpoint = field_or_err(body, "userinfo_endpoint")?;
        let doc = ProviderDocument {
            issuer: doc_issuer,
            authorization_endpoint,
            token_endpoint,
            jwks_uri,
            userinfo_endpoint,
        };
        Provider::from_configuration(issuer, doc, raw)
    }

    /// Verifies `token` at `now` against the cached key set and returns its
    /// claim set. Without a valid snapshot nothing is verified: the caller
    /// refreshes the cache first (see `KeyCache::get`). With one, the first
    /// key must exist (`NoRemoteKeys`), be an RSA key (`InvalidRemoteKeys`)
    /// and verify the token's RS256 signature (`ValidationError`).
    pub fn verify_and_decode(&self, token: &str, now: i64) -> (r: Result<Claims, OidcError>)
        ensures
            !fresh(self.remote_key_set.snapshot, now as int) ==> r is Err && r->Err_0 is RemoteGet,
            fresh(self.remote_key_set.snapshot, now as int) ==> {
                let keys = self.remote_key_set.snapshot->0.keys@;
                &&& r is Ok <==> token_verifies(keys, token@)
                &&& keys.len() == 0 ==> r is Err && r->Err_0 is NoRemoteKeys
                &&& keys.len() > 0 && !(keys[0].algorithm is Rsa) ==> r is Err
                    && r->Err_0 is InvalidRemoteKeys
                &&& keys.len() > 0 && keys[0].algorithm is Rsa && r is Err ==> r->Err_0 is ValidationError
                &&& r is Ok ==> decodes_to(payload_under(keys, token@)->0, r->Ok_0.registered)
            },
    {
        match self.remote_key_set.current() {
            Some(snapshot) => {
                if snapshot.valid(now) {
                    verify_with_keys(&snapshot.keys, token)
                } else {
                    Err(OidcError::RemoteGet(String::from_str("the key set is stale")))
                }
            },
            None => Err(OidcError::RemoteGet(String::from_str("no key set has been fetched"))),
        }
    }
}

} // verus!
