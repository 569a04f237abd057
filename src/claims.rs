use crate::error::OidcError;
use crate::provider::json_parses;
use serde_json::Value;
use vstd::prelude::*;

verus! {

/// A field of a JSON object, as far as registered claims read it.
pub enum JsonItem {
    /// Not there, or `null`.
    Absent,
    /// A number that fits in an `i64`.
    Int(i64),
    Str(String),
    /// An array whose elements are all strings.
    StrList(Vec<String>),
    /// Anything else.
    Other,
}

/// The field `key` of the JSON object that the bytes are; `None` where the
/// bytes are not a JSON object.
pub uninterp spec fn payload_field(body: Seq<u8>, key: Seq<char>) -> Option<JsonItem>;

/// Relies on `serde_json::from_slice` into `Value`, `Value::as_object`,
/// `Map::get`, `Value::as_i64` and `Value::as_str`, one arm per `Value`
/// variant; only bytes that parse are an object.
#[verifier::external_body]
fn read_payload_field(body: &[u8], key: &str) -> (r: Option<JsonItem>)
    ensures
        r == payload_field(body@, key@),
        r is Some ==> json_parses(body@),
{
    let v = serde_json::from_slice::<Value>(body).ok()?;
    Some(match v.as_object()?.get(key) {
        None | Some(Value::Null) => JsonItem::Absent,
        Some(Value::Number(n)) => n.as_i64().map_or(JsonItem::Other, JsonItem::Int),
        Some(Value::String(s)) => JsonItem::Str(s.clone()),
        Some(Value::Array(a)) => a.iter().map(|e| e.as_str().map(String::from)).collect::<Option<Vec<String>>>().map_or(JsonItem::Other, JsonItem::StrList),
        Some(_) => JsonItem::Other,
    })
}

/// The registered claims of a token (RFC 7519, section 4.1); times are
/// seconds since the epoch.
pub struct RegisteredClaims {
    pub issuer: Option<String>,
    pub subject: Option<String>,
    pub audience: Option<Vec<String>>,
    pub expiry: Option<i64>,
    pub not_before: Option<i64>,
    pub issued_at: Option<i64>,
    pub id: Option<String>,
}

/// A verified token's claims: the registered ones, and the whole payload
/// for application-specific ones.
pub struct Claims {
    pub registered: RegisteredClaims,
    pub private: Value,
}

impl Default for RegisteredClaims {
    fn default() -> (r: Self)
        ensures
            r.issuer is None && r.subject is None && r.audience is None && r.id is None,
            r.expiry is None && r.not_before is None && r.issued_at is None,
    {
        RegisteredClaims {
            issuer: None,
            subject: None,
            audience: None,
            expiry: None,
            not_before: None,
            issued_at: None,
            id: None,
        }
    }
}

pub open spec fn opt_str(o: Option<String>) -> Option<Seq<char>> {
    match o {
        Some(s) => Some(s@),
        None => None,
    }
}

pub open spec fn opt_list(o: Option<Vec<String>>) -> Option<Seq<Seq<char>>> {
    match o {
        Some(v) => Some(v@.map_values(|s: String| s@)),
        None => None,
    }
}

/// A string claim read from a field: `None` where the field is malformed.
pub open spec fn str_claim(f: Option<JsonItem>) -> Option<Option<Seq<char>>> {
    match f {
        Some(JsonItem::Absent) => Some(None),
        Some(JsonItem::Str(s)) => Some(Some(s@)),
        _ => None,
    }
}

/// A time claim read from a field: `None` where the field is malformed.
pub open spec fn int_claim(f: Option<JsonItem>) -> Option<Option<i64>> {
    match f {
        Some(JsonItem::Absent) => Some(None),
        Some(JsonItem::Int(i)) => Some(Some(i)),
        _ => None,
    }
}

/// The audience read from a field, one string or several: `None` where the
/// field is malformed.
pub open spec fn aud_claim(f: Option<JsonItem>) -> Option<Option<Seq<Seq<char>>>> {
    match f {
        Some(JsonItem::Absent) => Some(None),
        Some(JsonItem::Str(s)) => Some(Some(seq![s@])),
        Some(JsonItem::StrList(v)) => Some(Some(v@.map_values(|s: String| s@))),
        _ => None,
    }
}

/// Whether every registered claim of the payload is well formed.
pub open spec fn registered_decodes(body: Seq<u8>) -> bool {
    &&& str_claim(payload_field(body, "iss"@)) is Some
    &&& str_claim(payload_field(body, "sub"@)) is Some
    &&& aud_claim(payload_field(body, "aud"@)) is Some
    &&& int_claim(payload_field(body, "exp"@)) is Some
    &&& int_claim(payload_field(body, "nbf"@)) is Some
    &&& int_claim(payload_field(body, "iat"@)) is Some
    &&& str_claim(payload_field(body, "jti"@)) is Some
}

/// Whether `c` holds the registered claims of the payload.
pub open spec fn decodes_to(body: Seq<u8>, c: RegisteredClaims) -> bool {
    &&& str_claim(payload_field(body, "iss"@)) == Some(opt_str(c.issuer))
    &&& str_claim(payload_field(body, "sub"@)) == Some(opt_str(c.subject))
    &&& aud_claim(payload_field(body, "aud"@)) == Some(opt_list(c.audience))
    &&& int_claim(payload_field(body, "exp"@)) == Some(c.expiry)
    &&& int_claim(payload_field(body, "nbf"@)) == Some(c.not_before)
    &&& int_claim(payload_field(body, "iat"@)) == Some(c.issued_at)
    &&& str_claim(payload_field(body, "jti"@)) == Some(opt_str(c.id))
}

fn read_str_claim(body: &[u8], key: &str) -> (r: Result<Option<String>, OidcError>)
    ensures
        r is Ok <==> str_claim(payload_field(body@, key@)) is Some,
        r is Ok ==> str_claim(payload_field(body@, key@)) == Some(opt_str(r->Ok_0)),
        r is Ok ==> json_parses(body@),
        r is Err ==> r->Err_0 is ValidationError,
{
    match read_payload_field(body, key) {
        Some(JsonItem::Absent) => Ok(None),
        Some(JsonItem::Str(s)) => Ok(Some(s)),
        _ => Err(OidcError::ValidationError),
    }
}

fn read_int_claim(body: &[u8], key: &str) -> (r: Result<Option<i64>, OidcError>)
    ensures
        r is Ok <==> int_claim(payload_field(body@, key@)) is Some,
        r is Ok ==> int_claim(payload_field(body@, key@)) == Some(r->Ok_0),
        r is Err ==> r->Err_0 is ValidationError,
{
    match read_payload_field(body, key) {
        Some(JsonItem::Absent) => Ok(None),
        Some(JsonItem::Int(i)) => Ok(Some(i)),
        _ => Err(OidcError::ValidationError),
    }
}

fn read_aud_claim(body: &[u8], key: &str) -> (r: Result<Option<Vec<String>>, OidcError>)
    ensures
        r is Ok <==> aud_claim(payload_field(body@, key@)) is Some,
        r is Ok ==> aud_claim(payload_field(body@, key@)) == Some(opt_list(r->Ok_0)),
        r is Err ==> r->Err_0 is ValidationError,
{
    match read_payload_field(body, key) {
        Some(JsonItem::Absent) => Ok(None),
        Some(JsonItem::Str(s)) => {
            let v = vec![s];
            assert(v@.map_values(|s: String| s@) =~= seq![v@[0]@]);
            Ok(Some(v))
        },
        Some(JsonItem::StrList(v)) => Ok(Some(v)),
        _ => Err(OidcError::ValidationError),
    }
}

/// Reads the registered claims of a token payload; a claim of the wrong
/// JSON type, or a payload that is no JSON object, is `ValidationError`.
pub fn decode_registered(body: &[u8]) -> (r: Result<RegisteredClaims, OidcError>)
    ensures
        r is Ok <==> registered_decodes(body@),
        r is Ok ==> decodes_to(body@, r->Ok_0) && json_parses(body@),
        r is Err ==> r->Err_0 is ValidationError,
{
    let issuer = read_str_claim(body, "iss")?;
    let subject = read_str_claim(body, "sub")?;
    let audience = read_aud_claim(body, "aud")?;
    let expiry = read_int_claim(body, "exp")?;
    let not_before = read_int_claim(body, "nbf")?;
    let issued_at = read_int_claim(body, "iat")?;
    let id = read_str_claim(body, "jti")?;
    Ok(RegisteredClaims { issuer, subject, audience, expiry, not_before, issued_at, id })
}

/// The age limit that the default policy puts on `iat`: the longest span
/// chrono's `TimeDelta` holds, in seconds.
pub const MAX_SPAN_SECS: i64 = 9223372036854775;

/// The registered claims that a token must carry.
#[derive(Debug, Clone, Copy, PartialEq, Eq, Structural)]
pub struct RequiredClaims {
    pub issued_at: bool,
    pub not_before: bool,
    pub expiry: bool,
    pub issuer: bool,
    pub audience: bool,
    pub subject: bool,
    pub id: bool,
}

/// The checks applied to a token's registered claims. A claim that is
/// absent passes every check but that of `required`.
pub struct VerificationPolicy {
    pub required: RequiredClaims,
    /// Refuse a token whose `exp` has passed.
    pub validate_expiry: bool,
    /// Refuse a token whose `nbf` has not come.
    pub validate_not_before: bool,
    /// Refuse a token issued in the future or longer ago than this many
    /// seconds; `None` leaves `iat` unchecked.
    pub issued_at_max_age_secs: Option<i64>,
    /// Clock-skew tolerance, in seconds, of the time checks.
    pub epsilon_secs: i64,
    /// The issuer that `iss` must name, if any.
    pub issuer: Option<String>,
    /// The audience that `aud` must include, if any.
    pub audience: Option<String>,
}

impl Default for VerificationPolicy {
    /// No claim required; `exp`, `nbf` and `iat` checked when present, with
    /// no skew and the largest age; issuer and audience unchecked.
    fn default() -> (r: Self)
        ensures
            r.required == (RequiredClaims {
                issued_at: false,
                not_before: false,
                expiry: false,
                issuer: false,
                audience: false,
                subject: false,
                id: false,
            }),
            r.validate_expiry && r.validate_not_before,
            r.issued_at_max_age_secs == Some(MAX_SPAN_SECS),
            r.epsilon_secs == 0,
            r.issuer is None && r.audience is None,
    {
        VerificationPolicy {
            required: RequiredClaims {
                issued_at: false,
                not_before: false,
                expiry: false,
                issuer: false,
                audience: false,
                subject: false,
                id: false,
            },
            validate_expiry: true,
            validate_not_before: true,
            issued_at_max_age_secs: Some(MAX_SPAN_SECS),
            epsilon_secs: 0,
            issuer: None,
            audience: None,
        }
    }
}

/// Every claim that the policy requires is there.
pub open spec fn presence_ok(c: RegisteredClaims, req: RequiredClaims) -> bool {
    &&& req.issued_at ==> c.issued_at is Some
    &&& req.not_before ==> c.not_before is Some
    &&& req.expiry ==> c.expiry is Some
    &&& req.issuer ==> c.issuer is Some
    &&& req.audience ==> c.audience is Some
    &&& req.subject ==> c.subject is Some
    &&& req.id ==> c.id is Some
}

/// `exp`, if checked and present, has not passed by more than the skew.
pub open spec fn expiry_ok(c: RegisteredClaims, p: VerificationPolicy, now: int) -> bool {
    p.validate_expiry && c.expiry is Some ==> now - c.expiry->0 <= p.epsilon_secs
}

/// `nbf`, if checked and present, is not later than now by more than the skew.
pub open spec fn not_before_ok(c: RegisteredClaims, p: VerificationPolicy, now: int) -> bool {
    p.validate_not_before && c.not_before is Some ==> c.not_before->0 - now <= p.epsilon_secs
}

/// `iat`, if checked and present, is neither in the future nor too old,
/// both up to the skew.
pub open spec fn issued_at_ok(c: RegisteredClaims, p: VerificationPolicy, now: int) -> bool {
    p.issued_at_max_age_secs is Some && c.issued_at is Some ==> {
        &&& c.issued_at->0 - now <= p.epsilon_secs
        &&& now - c.issued_at->0 <= p.issued_at_max_age_secs->0 - p.epsilon_secs
    }
}

/// `iss`, if checked and present, is the expected issuer.
pub open spec fn issuer_ok(c: RegisteredClaims, p: VerificationPolicy) -> bool {
    p.issuer is Some && c.issuer is Some ==> c.issuer->0@ == p.issuer->0@
}

/// `aud`, if checked and present, includes the expected audience.
pub open spec fn audience_ok(c: RegisteredClaims, p: VerificationPolicy) -> bool {
    p.audience is Some && c.audience is Some ==> opt_list(c.audience)->0.contains(p.audience->0@)
}

/// Whether the registered claims satisfy the policy at `now`.
pub open spec fn claims_pass(c: RegisteredClaims, p: VerificationPolicy, now: int) -> bool {
    &&& presence_ok(c, p.required)
    &&& expiry_ok(c, p, now)
    &&& not_before_ok(c, p, now)
    &&& issued_at_ok(c, p, now)
    &&& issuer_ok(c, p)
    &&& audience_ok(c, p)
}

fn refuse(claim: &str) -> (r: Result<(), OidcError>)
    ensures
        r is Err && r->Err_0 is JwtValidation,
{
    Err(OidcError::JwtValidation(String::from_str(claim)))
}

fn includes(auds: &Vec<String>, want: &String) -> (r: bool)
    ensures
        r == auds@.map_values(|s: String| s@).contains(want@),
{
    let ghost views = auds@.map_values(|s: String| s@);
    let mut i: usize = 0;
    while i < auds.len()
        invariant
            i <= auds.len(),
            views == auds@.map_values(|s: String| s@),
            forall|j: int| 0 <= j < i ==> views[j] != want@,
        decreases auds.len() - i,
    {
        if auds[i].eq(want) {
            assert(views[i as int] == want@);
            return true;
        }
        i += 1;
    }
    assert(!views.contains(want@)) by {
        if views.contains(want@) {
            let j = choose|j: int| 0 <= j < views.len() && views[j] == want@;
            assert(views[j] != want@);
        }
    }
    false
}

/// Applies a verification policy at `now` (seconds since the epoch) to a
/// token's registered claims: required claims first, then expiry,
/// not-before, issued-at, issuer and audience. A refusal is `JwtValidation`
/// naming the claim.
pub fn check(claims: &RegisteredClaims, policy: &VerificationPolicy, now: i64) -> (r: Result<(), OidcError>)
    ensures
        r is Ok <==> claims_pass(*claims, *policy, now as int),
        r is Err ==> r->Err_0 is JwtValidation,
{
    let req = &policy.required;
    if (req.issued_at && claims.issued_at.is_none()) || (req.not_before && claims.not_before.is_none())
        || (req.expiry && claims.expiry.is_none()) || (req.issuer && claims.issuer.is_none())
        || (req.audience && claims.audience.is_none()) || (req.subject && claims.subject.is_none())
        || (req.id && claims.id.is_none()) {
        return refuse("missing required claim");
    }
    let eps = policy.epsilon_secs as i128;
    let t = now as i128;
    if policy.validate_expiry {
        if let Some(exp) = claims.expiry {
            if t - exp as i128 > eps {
                return refuse("exp");
            }
        }
    }
    if policy.validate_not_before {
        if let Some(nbf) = claims.not_before {
            if nbf as i128 - t > eps {
                return refuse("nbf");
            }
        }
    }
    if let Some(max_age) = policy.issued_at_max_age_secs {
        if let Some(iat) = claims.issued_at {
            if iat as i128 - t > eps || t - iat as i128 > max_age as i128 - eps {
                return refuse("iat");
            }
        }
    }
    if let (Some(want), Some(iss)) = (&policy.issuer, &claims.issuer) {
        if !iss.eq(want) {
            return refuse("iss");
        }
    }
    if let (Some(want), Some(auds)) = (&policy.audience, &claims.audience) {
        if !includes(auds, want) {
            return refuse("aud");
        }
    }
    Ok(())
}

/// Absence is no failure: a claim set with no registered claim passes any
/// policy that requires none, at any time.
pub proof fn lemma_absent_claims_pass(c: RegisteredClaims, p: VerificationPolicy, now: int)
    requires
        c.issuer is None && c.subject is None && c.audience is None && c.id is None,
        c.expiry is None && c.not_before is None && c.issued_at is None,
        !p.required.issued_at && !p.required.not_before && !p.required.expiry,
        !p.required.issuer && !p.required.audience && !p.required.subject && !p.required.id,
    ensures
        claims_pass(c, p, now),
{
}

} // verus!
