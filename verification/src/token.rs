//! The bearer credential: when it is renewed, by whom, and what a caller gets
//! while a renewal is under way or has failed.
//!
//! The credential is renewed by exchanging a signed assertion for an access
//! token. The exchange itself is a network call and happens outside this
//! module; what is decided here is who makes it. `get_usable_token` answers a
//! caller with the cached token, with the order to make the exchange, or with
//! the order to wait for the caller that is making it. `Credential::complete`
//! takes the outcome of the exchange. Between those two calls no lock needs to
//! be held, and no second exchange can start.

use vstd::prelude::*;
use vstd::string::StringExecFns;
use crate::errors::ShowMeErrors;
use crate::text::pairs_view;

verus! {

/// The remaining validity, in seconds, below which a token is renewed.
pub const THREE_MIN: i64 = 180;

/// The validity, in seconds, that a new assertion asks for.
pub const FIFTEEN_MIN: i64 = 899;

/// The client id sent with the exchange.
pub const CLIENT_ID: &'static str = "service-account";

/// The grant type of the exchange.
pub const GRANT_TYPE: &'static str = "urn:ietf:params:oauth:grant-type:jwt-bearer";

/// The scope asked for.
pub const SCOPE: &'static str = "fr:idm:* fr:am:*";

/// The path of the token endpoint below the platform's domain.
pub const AUD_PART: &'static str = "am/oauth2/access_token";

// ---------------------------------------------------------------------------
// Outside types and calls
// ---------------------------------------------------------------------------

/// `jsonwebkey::ConversionError`; carried, never inspected.
#[verifier::external_type_specification]
#[verifier::external_body]
pub struct ExConversionError(jsonwebkey::ConversionError);

/// What `openssl::base64::encode_block` makes of a sequence of bytes: its
/// base64 text, padded, on one line.
pub uninterp spec fn base64_text(bytes: Seq<u8>) -> Seq<char>;

/// Whether `jsonwebkey::JsonWebKey::from_slice` reads a key from the text
/// `text`.
pub uninterp spec fn jwk_parses(text: Seq<char>) -> bool;

/// What `jsonwebkey::Key::try_to_pem` makes of the key that the text `text`
/// holds: the key as PKCS#8 text with PEM armour, or nothing where the text
/// holds no key or the key has no such form.
pub uninterp spec fn jwk_pem(text: Seq<char>) -> Option<Seq<char>>;

/// What `jsonwebtoken::encode` makes, with an RS256 header and the RSA key
/// that the PEM text `pem` holds, of the five claims `iss`, `sub`, `aud`,
/// `exp` and `jti`, in that order: the signed assertion, or nothing where
/// `pem` holds no RSA key that can sign.
pub uninterp spec fn rs256_assertion(
    pem: Seq<char>,
    iss: Seq<char>,
    sub: Seq<char>,
    aud: Seq<char>,
    exp: int,
    jti: Seq<char>,
) -> Option<Seq<char>>;

/// `chrono::Utc::now().timestamp()`: the seconds since the Unix epoch on the
/// system clock. The call does not return when the clock stands before the
/// epoch, so the result is never negative; nothing else is claimed of it.
#[verifier::external_body]
fn unix_now() -> (now: i64)
    ensures
        now >= 0,
{
    chrono::Utc::now().timestamp()
}

/// `openssl::rand::rand_bytes` on a buffer of `n` bytes: on success the
/// buffer, filled. Nothing is claimed of the bytes.
#[verifier::external_body]
fn random_bytes(n: usize) -> (bytes: Result<Vec<u8>, openssl::error::ErrorStack>)
    requires
        n <= i32::MAX,
    ensures
        bytes matches Ok(b) ==> b@.len() == n,
{
    let mut buf = vec![0u8; n];
    openssl::rand::rand_bytes(&mut buf).map(|_| buf)
}

/// `openssl::base64::encode_block`: the base64 text of `bytes`. The call
/// panics when the length of the text does not fit a signed 32-bit integer,
/// which the bound on the input rules out.
#[verifier::external_body]
fn base64_block(bytes: &Vec<u8>) -> (text: String)
    requires
        bytes@.len() <= 0x4000_0000,
    ensures
        text@ == base64_text(bytes@),
{
    openssl::base64::encode_block(bytes)
}

/// `jsonwebkey::JsonWebKey::from_slice` and, on the key it reads,
/// `jsonwebkey::Key::try_to_pem`: the key that a JSON Web Key text holds, as
/// PKCS#8 text with PEM armour. The outer failure is that of the reading;
/// the inner one that of the conversion, which comes for a symmetric key and
/// for an RSA key without all of its private parameters. Both calls go by
/// their argument alone, so the same text always gives the same result.
#[verifier::external_body]
fn read_key(text: &str) -> (key: Result<
    Result<String, jsonwebkey::ConversionError>,
    jsonwebkey::Error,
>)
    ensures
        key is Ok <==> jwk_parses(text@),
        key matches Ok(Ok(pem)) ==> jwk_pem(text@) == Some(pem@),
        !(key matches Ok(Ok(_))) ==> jwk_pem(text@) is None,
{
    match jsonwebkey::JsonWebKey::from_slice(text) {
        Ok(jwk) => Ok(jwk.key.try_to_pem()),
        Err(e) => Err(e),
    }
}

/// `jsonwebtoken::encode` with an RS256 header and the key that
/// `jsonwebtoken::EncodingKey::from_rsa_pem` reads from `pem`: the signed
/// assertion that carries the five claims of `payload`, in the order `iss`,
/// `sub`, `aud`, `exp`, `jti`. The signature is RSASSA-PKCS1-v1_5, which
/// holds nothing random, so the same key and claims always give the same
/// assertion, and fail alike where `pem` holds no RSA key that can sign.
#[verifier::external_body]
fn sign_rs256(pem: &str, payload: &Payload) -> (assertion: Result<
    String,
    jsonwebtoken::errors::Error,
>)
    ensures
        assertion matches Ok(jwt) ==> rs256_assertion(
            pem@,
            payload.iss@,
            payload.sub@,
            payload.aud@,
            payload.exp as int,
            payload.jti@,
        ) == Some(jwt@),
        assertion is Err ==> rs256_assertion(
            pem@,
            payload.iss@,
            payload.sub@,
            payload.aud@,
            payload.exp as int,
            payload.jti@,
        ) is None,
{
    let mut claims = serde_json::Map::new();
    claims.insert("iss".to_owned(), payload.iss.clone().into());
    claims.insert("sub".to_owned(), payload.sub.clone().into());
    claims.insert("aud".to_owned(), payload.aud.clone().into());
    claims.insert("exp".to_owned(), payload.exp.into());
    claims.insert("jti".to_owned(), payload.jti.clone().into());
    let header = jsonwebtoken::Header::new(jsonwebtoken::Algorithm::RS256);
    let key = jsonwebtoken::EncodingKey::from_rsa_pem(pem.as_bytes())?;
    jsonwebtoken::encode(&header, &claims, &key)
}

// ---------------------------------------------------------------------------
// The assertion's claims
// ---------------------------------------------------------------------------

/// Claims of the signed assertion presented to the token endpoint.
#[derive(Debug, PartialEq, Eq)]
pub struct Payload {
    pub iss: String,
    pub sub: String,
    pub aud: String,
    pub exp: i64,
    pub jti: String,
}

/// The claims as values.
pub struct PayloadView {
    pub iss: Seq<char>,
    pub sub: Seq<char>,
    pub aud: Seq<char>,
    pub exp: int,
    pub jti: Seq<char>,
}

impl View for Payload {
    type V = PayloadView;

    open spec fn view(&self) -> PayloadView {
        PayloadView {
            iss: self.iss@,
            sub: self.sub@,
            aud: self.aud@,
            exp: self.exp as int,
            jti: self.jti@,
        }
    }
}

impl Clone for Payload {
    fn clone(&self) -> (copy: Payload)
        ensures
            copy == *self,
    {
        Payload {
            iss: self.iss.clone(),
            sub: self.sub.clone(),
            aud: self.aud.clone(),
            exp: self.exp,
            jti: self.jti.clone(),
        }
    }
}

/// The assertion that the key in `pem` signs for `claims`, if it can sign.
pub open spec fn signed_with(pem: Seq<char>, claims: PayloadView) -> Option<Seq<char>> {
    rs256_assertion(pem, claims.iss, claims.sub, claims.aud, claims.exp, claims.jti)
}

/// The same claims with the expiry replaced by `exp`.
pub fn update_exp(payload: Payload, exp: i64) -> (updated: Payload)
    ensures
        updated == (Payload { exp, ..payload }),
{
    Payload { exp, ..payload }
}

/// What the token endpoint answers.
#[derive(Debug, PartialEq, Eq)]
pub struct TokenResponse {
    pub access_token: String,
    pub scope: String,
    pub token_type: String,
    pub expires_in: i64,
}

// ---------------------------------------------------------------------------
// Time
// ---------------------------------------------------------------------------

/// A renewal is due once less than `margin` seconds of validity are left.
pub open spec fn refresh_due(now: int, margin: int, expiry: int) -> bool {
    now + margin >= expiry
}

/// `t`, held to what a 64-bit timestamp can say.
pub open spec fn clamp_time(t: int) -> int {
    if t > i64::MAX {
        i64::MAX as int
    } else if t < i64::MIN {
        i64::MIN as int
    } else {
        t
    }
}

/// The expiry of an assertion made at `now` for `lifetime` seconds.
pub open spec fn fresh_expiry(now: int, lifetime: int) -> int {
    clamp_time(now + lifetime)
}

/// Whether a renewal is due at `now`.
pub fn is_refresh_due(now: i64, margin: i64, expiry: i64) -> (due: bool)
    ensures
        due == refresh_due(now as int, margin as int, expiry as int),
{
    now as i128 + margin as i128 >= expiry as i128
}

/// The expiry of an assertion made at `now` for `lifetime` seconds.
pub fn expiry_after(now: i64, lifetime: i64) -> (expiry: i64)
    ensures
        expiry == fresh_expiry(now as int, lifetime as int),
{
    let t: i128 = now as i128 + lifetime as i128;
    if t > i64::MAX as i128 {
        i64::MAX
    } else if t < i64::MIN as i128 {
        i64::MIN
    } else {
        t as i64
    }
}

// ---------------------------------------------------------------------------
// The signing side
// ---------------------------------------------------------------------------

/// What is fixed at startup: the signing key as PEM text, the token
/// endpoint, the platform's domain and the expiry the first assertion was
/// made with.
pub struct Token {
    pub exp_date: i64,
    key: String,
    aud: String,
    pub dom: String,
}

/// The token endpoint of the platform at `dom`.
pub open spec fn audience_of(dom: Seq<char>) -> Seq<char> {
    dom + seq!['/'] + AUD_PART@
}

/// The form fields of the exchange, in the order they are sent.
pub open spec fn exchange_fields(assertion: Seq<char>) -> Seq<(Seq<char>, Seq<char>)> {
    seq![
        ("client_id"@, CLIENT_ID@),
        ("grant_type"@, GRANT_TYPE@),
        ("assertion"@, assertion),
        ("scope"@, SCOPE@),
    ]
}

/// The form fields that carry `assertion` to the token endpoint.
pub fn exchange_form(assertion: String) -> (fields: Vec<(String, String)>)
    ensures
        pairs_view(fields@) == exchange_fields(assertion@),
{
    let mut fields: Vec<(String, String)> = Vec::new();
    fields.push((String::from_str("client_id"), String::from_str(CLIENT_ID)));
    fields.push((String::from_str("grant_type"), String::from_str(GRANT_TYPE)));
    fields.push((String::from_str("assertion"), assertion));
    fields.push((String::from_str("scope"), String::from_str(SCOPE)));
    assert(pairs_view(fields@) =~= exchange_fields(assertion@));
    fields
}

impl Token {
    /// The token endpoint.
    pub closed spec fn spec_audience(&self) -> Seq<char> {
        self.aud@
    }

    /// The token endpoint.
    pub fn audience(&self) -> (aud: &String)
        ensures
            aud@ == self.spec_audience(),
    {
        &self.aud
    }

    /// The expiry the first assertion was made with.
    pub closed spec fn spec_exp_date(&self) -> i64 {
        self.exp_date
    }

    /// The signing key, as PEM text.
    pub closed spec fn spec_key(&self) -> Seq<char> {
        self.key@
    }

    /// The platform's domain.
    pub closed spec fn spec_dom(&self) -> Seq<char> {
        self.dom@
    }

    /// The expiry the first assertion was made with.
    pub fn expiry(&self) -> (exp: i64)
        ensures
            exp == self.spec_exp_date(),
    {
        self.exp_date
    }

    /// The platform's domain.
    pub fn domain(&self) -> (dom: &String)
        ensures
            dom@ == self.spec_dom(),
    {
        &self.dom
    }

    /// Whether a renewal is due at `now`, and the expiry to go on with: that
    /// of a new assertion where one is due, the present one where not.
    pub fn new_or_update_exp(&self, now: i64) -> (r: (bool, i64))
        ensures
            r.0 == refresh_due(now as int, THREE_MIN as int, self.spec_exp_date() as int),
            r.0 ==> r.1 == fresh_expiry(now as int, FIFTEEN_MIN as int),
            !r.0 ==> r.1 == self.spec_exp_date(),
    {
        if is_refresh_due(now, THREE_MIN, self.exp_date) {
            (true, expiry_after(now, FIFTEEN_MIN))
        } else {
            (false, self.exp_date)
        }
    }

    /// Whether a renewal is due on the system clock, and the expiry to go on
    /// with. The clock is read through `chrono`, which does not return on a
    /// machine whose clock stands before 1970.
    pub fn new_or_update_exp_now(&self) -> (r: (bool, i64))
        ensures
            exists|now: int|
                {
                    &&& 0 <= now <= i64::MAX
                    &&& r.0 == #[trigger] refresh_due(
                        now,
                        THREE_MIN as int,
                        self.spec_exp_date() as int,
                    )
                    &&& r.0 ==> r.1 == fresh_expiry(now, FIFTEEN_MIN as int)
                    &&& !r.0 ==> r.1 == self.spec_exp_date()
                },
    {
        let now = unix_now();
        let r = self.new_or_update_exp(now);
        assert(r.0 == refresh_due(now as int, THREE_MIN as int, self.spec_exp_date() as int));
        r
    }

    /// Sets the signing side up for the service account `service_account_id`
    /// on the platform at `dom`, with the JSON Web Key in `key_file`. `now` is
    /// the time of the call and `nonce` the one-time value of the first
    /// assertion.
    ///
    /// The first assertion is signed once to prove the key. The setup
    /// succeeds exactly if the key text holds a key that has a PEM form and
    /// signs the first claims. Where the text holds no key the failure is
    /// that of the reading; where the key has no PEM form it names the key
    /// file; where the first signature fails it is that of the signature.
    pub fn new(
        service_account_id: String,
        dom: String,
        key_file: &str,
        now: i64,
        nonce: String,
    ) -> (made: Result<(Token, Payload), ShowMeErrors>)
        ensures
            made is Ok <==> (jwk_pem(key_file@) matches Some(pem) && signed_with(
                pem,
                first_claims_view(service_account_id@, dom@, now, nonce@),
            ) is Some),
            made matches Ok((token, payload)) ==> {
                &&& token.spec_dom() == dom@
                &&& token.spec_audience() == audience_of(dom@)
                &&& token.spec_exp_date() == first_expiry(now)
                &&& payload@ == first_claims_view(service_account_id@, dom@, now, nonce@)
                &&& jwk_pem(key_file@) == Some(token.spec_key())
            },
            !jwk_parses(key_file@) <==> (made matches Err(e) && e is TokenCreateToken),
            jwk_parses(key_file@) && jwk_pem(key_file@) is None <==> (made matches Err(e) && e
                is TokenDefault),
            made matches Err(ShowMeErrors::TokenDefault(what)) ==> what@ == "KEY_FILE"@,
            (jwk_pem(key_file@) matches Some(pem) && signed_with(
                pem,
                first_claims_view(service_account_id@, dom@, now, nonce@),
            ) is None) <==> (made matches Err(e) && e is TokenCreateKey),
    {
        let key = match key_from(read_key(key_file)) {
            Ok(key) => key,
            Err(e) => {
                return Err(e);
            },
        };
        let payload = first_claims(service_account_id, dom.as_str(), now, nonce);
        let signed = sign_rs256(key.as_str(), &payload);
        let token = Token { exp_date: payload.exp, key, aud: payload.aud.clone(), dom };
        Token::proven(token, payload, signed)
    }

    /// The signing side and its first claims, once the first assertion has
    /// been signed: both as they are if the signature succeeded, the failure
    /// of the signature if not.
    pub fn proven(
        token: Token,
        payload: Payload,
        signed: Result<String, jsonwebtoken::errors::Error>,
    ) -> (made: Result<(Token, Payload), ShowMeErrors>)
        ensures
            signed is Ok ==> made == Ok::<(Token, Payload), ShowMeErrors>((token, payload)),
            signed matches Err(e) ==> made == Err::<(Token, Payload), ShowMeErrors>(
                ShowMeErrors::TokenCreateKey(e),
            ),
    {
        match signed {
            Ok(_) => Ok((token, payload)),
            Err(e) => Err(ShowMeErrors::TokenCreateKey(e)),
        }
    }

    /// The assertion that this side's key signs for `payload`; the failure
    /// to sign exactly where the key cannot sign these claims.
    pub fn assertion(&self, payload: &Payload) -> (signed: Result<String, ShowMeErrors>)
        ensures
            signed matches Ok(jwt) ==> signed_with(self.spec_key(), payload@) == Some(jwt@),
            signed matches Err(e) ==> e is TokenCreateKey && signed_with(
                self.spec_key(),
                payload@,
            ) is None,
    {
        assertion_from(sign_rs256(self.key.as_str(), payload))
    }
}

/// The expiry that the claims made at `now`, at startup, carry: that of an
/// assertion made then.
pub open spec fn first_expiry(now: i64) -> int {
    fresh_expiry(now as int, FIFTEEN_MIN as int)
}

/// The claims made at startup, as values.
pub open spec fn first_claims_view(
    service_account_id: Seq<char>,
    dom: Seq<char>,
    now: i64,
    nonce: Seq<char>,
) -> PayloadView {
    PayloadView {
        iss: service_account_id,
        sub: service_account_id,
        aud: audience_of(dom),
        exp: first_expiry(now),
        jti: nonce,
    }
}

/// The claims made at startup: the service account as issuer and subject and
/// the token endpoint of the platform at `dom` as audience.
pub fn first_claims(service_account_id: String, dom: &str, now: i64, nonce: String) -> (claims:
    Payload)
    ensures
        claims@ == first_claims_view(service_account_id@, dom@, now, nonce@),
{
    let mut aud = String::from_str(dom);
    aud.append("/");
    aud.append(AUD_PART);
    proof {
        reveal_strlit("/");
        assert("/"@ =~= seq!['/']);
    }
    let exp = expiry_after(now, FIFTEEN_MIN);
    Payload { iss: service_account_id.clone(), sub: service_account_id, aud, exp, jti: nonce }
}

/// The signing key that the reading of a key file yields: the failure of
/// the reading where that failed, else the key as PEM text, or, where it has
/// no such form, the failure that names the key file.
pub fn key_from(
    read: Result<Result<String, jsonwebkey::ConversionError>, jsonwebkey::Error>,
) -> (key: Result<String, ShowMeErrors>)
    ensures
        read matches Err(e) ==> key == Err::<String, ShowMeErrors>(
            ShowMeErrors::TokenCreateToken(e),
        ),
        read matches Ok(Err(_)) ==> (key matches Err(ShowMeErrors::TokenDefault(what)) && what@
            == "KEY_FILE"@),
        read matches Ok(Ok(pem)) ==> key == Ok::<String, ShowMeErrors>(pem),
{
    match read {
        Err(e) => Err(ShowMeErrors::TokenCreateToken(e)),
        Ok(Err(_)) => Err(ShowMeErrors::TokenDefault(String::from_str("KEY_FILE"))),
        Ok(Ok(pem)) => Ok(pem),
    }
}

/// What a signature yields: the assertion, or the failure to sign.
pub fn assertion_from(signed: Result<String, jsonwebtoken::errors::Error>) -> (assertion: Result<
    String,
    ShowMeErrors,
>)
    ensures
        signed matches Ok(jwt) ==> assertion == Ok::<String, ShowMeErrors>(jwt),
        signed matches Err(e) ==> assertion == Err::<String, ShowMeErrors>(
            ShowMeErrors::TokenCreateKey(e),
        ),
{
    match signed {
        Ok(jwt) => Ok(jwt),
        Err(e) => Err(ShowMeErrors::TokenCreateKey(e)),
    }
}

/// A one-time value for an assertion: the base64 text of fifteen random
/// bytes.
pub fn fresh_nonce() -> (nonce: Result<String, ShowMeErrors>)
    ensures
        nonce matches Ok(text) ==> exists|bytes: Seq<u8>|
            bytes.len() == 15 && text@ == #[trigger] base64_text(bytes),
        nonce matches Err(e) ==> e is TokenOpenSsl,
{
    nonce_from(random_bytes(15))
}

/// What a draw of random bytes yields: their base64 text, or the failure to
/// draw.
pub fn nonce_from(drawn: Result<Vec<u8>, openssl::error::ErrorStack>) -> (nonce: Result<
    String,
    ShowMeErrors,
>)
    requires
        drawn matches Ok(bytes) ==> bytes@.len() <= 0x4000_0000,
    ensures
        drawn matches Ok(bytes) ==> (nonce matches Ok(text) && text@ == base64_text(bytes@)),
        drawn matches Err(e) ==> nonce == Err::<String, ShowMeErrors>(
            ShowMeErrors::TokenOpenSsl(e),
        ),
{
    match drawn {
        Ok(bytes) => Ok(nonce_of(&bytes)),
        Err(e) => Err(ShowMeErrors::TokenOpenSsl(e)),
    }
}

/// The nonce that `bytes` stand for: their base64 text.
pub fn nonce_of(bytes: &Vec<u8>) -> (nonce: String)
    requires
        bytes@.len() <= 0x4000_0000,
    ensures
        nonce@ == base64_text(bytes@),
{
    base64_block(bytes)
}

// ---------------------------------------------------------------------------
// The credential
// ---------------------------------------------------------------------------

/// The credential as a value.
pub struct CredentialView {
    /// The cached token, if an exchange has succeeded.
    pub token: Option<Seq<char>>,
    /// The claims of the assertion that obtained the cached token; before the
    /// first exchange, the claims made at startup.
    pub claims: PayloadView,
    /// When the cached token expires.
    pub expiry: int,
    /// The claims of the exchange that is under way, if one is.
    pub pending: Option<PayloadView>,
    /// The remaining validity below which the token is renewed.
    pub margin: int,
    /// The validity that a new assertion asks for.
    pub lifetime: int,
}

/// What a caller that asks for a token is told, as a value.
pub enum TokenStepView {
    Ready { token: Seq<char>, payload: PayloadView },
    Exchange { payload: PayloadView },
    Wait,
}

/// How an exchange ended for the caller that made it, as a value.
pub enum TokenOutcomeView {
    Fresh { token: Seq<char>, payload: PayloadView },
    Stale { token: Seq<char>, payload: PayloadView },
    Failed,
}

impl CredentialView {
    /// Whether the cached token can be handed out at `now`.
    pub open spec fn usable(self, now: int) -> bool {
        self.token is Some && !refresh_due(now, self.margin, self.expiry)
    }

    /// The claims of an assertion made at `now` with the one-time value
    /// `nonce`.
    pub open spec fn next_claims(self, now: int, nonce: Seq<char>) -> PayloadView {
        PayloadView { exp: fresh_expiry(now, self.lifetime), jti: nonce, ..self.claims }
    }

    /// What a caller that asks at `now` is told: to use the cached token
    /// where that is fresh on its clock; else to wait where an exchange is
    /// under way; else to make the exchange.
    pub open spec fn answer(self, now: int, nonce: Seq<char>) -> TokenStepView {
        if self.usable(now) {
            TokenStepView::Ready { token: self.token->0, payload: self.claims }
        } else if self.pending is Some {
            TokenStepView::Wait
        } else {
            TokenStepView::Exchange { payload: self.next_claims(now, nonce) }
        }
    }

    /// The credential after a caller has asked at `now`.
    pub open spec fn asked(self, now: int, nonce: Seq<char>) -> CredentialView {
        if self.pending is None && !self.usable(now) {
            CredentialView { pending: Some(self.next_claims(now, nonce)), ..self }
        } else {
            self
        }
    }

    /// A credential is sound if its margin is not negative and its cached
    /// token, where it has one, is not empty.
    pub open spec fn wf(self) -> bool {
        &&& self.margin >= 0
        &&& self.token matches Some(token) ==> token.len() > 0
    }

    /// Whether the exchange that is under way has, at `now`, obtained a
    /// token that can be used: one was granted, it is not empty, and the
    /// assertion that obtained it has not expired meanwhile.
    pub open spec fn obtained(self, granted: Option<Seq<char>>, now: int) -> bool {
        &&& self.pending matches Some(claims)
        &&& granted matches Some(token)
        &&& token.len() > 0
        &&& now < claims.exp
    }

    /// How the exchange that is under way ends at `now`: with the token that
    /// it has obtained, or, where it has obtained none, with the cached token
    /// if that has not expired.
    pub open spec fn outcome(self, granted: Option<Seq<char>>, now: int) -> TokenOutcomeView {
        if self.obtained(granted, now) {
            TokenOutcomeView::Fresh { token: granted->0, payload: self.pending->0 }
        } else if self.pending is Some && self.token is Some && now < self.expiry {
            TokenOutcomeView::Stale { token: self.token->0, payload: self.claims }
        } else {
            TokenOutcomeView::Failed
        }
    }

    /// The credential after the exchange that is under way has ended at
    /// `now`. A token that was obtained replaces the cached one together with
    /// its expiry; otherwise both stay as they are.
    pub open spec fn completed(self, granted: Option<Seq<char>>, now: int) -> CredentialView {
        if self.obtained(granted, now) {
            CredentialView {
                token: granted,
                claims: self.pending->0,
                expiry: self.pending->0.exp,
                pending: None,
                ..self
            }
        } else {
            CredentialView { pending: None, ..self }
        }
    }
}

/// What an exchange has granted, as a value: the token, or nothing where it
/// failed.
pub open spec fn granted_view(granted: Result<String, ShowMeErrors>) -> Option<Seq<char>> {
    match granted {
        Ok(token) => Some(token@),
        Err(_) => None,
    }
}

/// What a caller that asks for a token is told.
#[derive(Debug, PartialEq, Eq)]
pub enum TokenStep {
    /// The cached token is fresh: use it.
    Ready { token: String, payload: Payload },
    /// The token must be renewed and this caller is the one to do it: make
    /// the exchange with an assertion for `payload`, then report how it
    /// went.
    Exchange { payload: Payload },
    /// Another caller is making the exchange: wait for it, then ask again.
    Wait,
}

impl View for TokenStep {
    type V = TokenStepView;

    open spec fn view(&self) -> TokenStepView {
        match self {
            TokenStep::Ready { token, payload } => TokenStepView::Ready {
                token: token@,
                payload: payload@,
            },
            TokenStep::Exchange { payload } => TokenStepView::Exchange { payload: payload@ },
            TokenStep::Wait => TokenStepView::Wait,
        }
    }
}

/// How an exchange ended for the caller that made it.
#[derive(Debug)]
pub enum TokenOutcome {
    /// A token was granted and is now the cached one.
    Fresh { token: String, payload: Payload },
    /// The exchange failed, but the cached token has not expired: use that
    /// one. The failure is handed back for the log.
    Stale { token: String, payload: Payload, error: ShowMeErrors },
    /// The exchange failed and no unexpired token is at hand.
    Failed { error: ShowMeErrors },
}

impl View for TokenOutcome {
    type V = TokenOutcomeView;

    open spec fn view(&self) -> TokenOutcomeView {
        match self {
            TokenOutcome::Fresh { token, payload } => TokenOutcomeView::Fresh {
                token: token@,
                payload: payload@,
            },
            TokenOutcome::Stale { token, payload, error } => TokenOutcomeView::Stale {
                token: token@,
                payload: payload@,
            },
            TokenOutcome::Failed { error } => TokenOutcomeView::Failed,
        }
    }
}

impl TokenOutcome {
    /// The token and its claims where one can be used, the failure where
    /// none can.
    pub fn into_result(self) -> (r: Result<(String, Payload), ShowMeErrors>)
        ensures
            match self {
                TokenOutcome::Fresh { token, payload } => r == Ok::<
                    (String, Payload),
                    ShowMeErrors,
                >((token, payload)),
                TokenOutcome::Stale { token, payload, error } => r == Ok::<
                    (String, Payload),
                    ShowMeErrors,
                >((token, payload)),
                TokenOutcome::Failed { error } => r == Err::<(String, Payload), ShowMeErrors>(
                    error,
                ),
            },
    {
        match self {
            TokenOutcome::Fresh { token, payload } => Ok((token, payload)),
            TokenOutcome::Stale { token, payload, error } => Ok((token, payload)),
            TokenOutcome::Failed { error } => Err(error),
        }
    }
}

/// The cached bearer token with what is needed to decide on its renewal.
pub struct Credential {
    token: Option<String>,
    claims: Payload,
    expiry: i64,
    pending: Option<Payload>,
    margin: i64,
    lifetime: i64,
}

impl View for Credential {
    type V = CredentialView;

    closed spec fn view(&self) -> CredentialView {
        CredentialView {
            token: match self.token {
                Some(t) => Some(t@),
                None => None,
            },
            claims: self.claims@,
            expiry: self.expiry as int,
            pending: match self.pending {
                Some(p) => Some(p@),
                None => None,
            },
            margin: self.margin as int,
            lifetime: self.lifetime as int,
        }
    }
}

impl Credential {
    /// A credential without a token, for assertions with the claims `claims`,
    /// renewed `margin` seconds before expiry and asked for `lifetime`
    /// seconds at a time. A negative margin counts as none.
    pub fn new(claims: Payload, margin: i64, lifetime: i64) -> (credential: Credential)
        ensures
            credential@ == (CredentialView {
                token: None,
                claims: claims@,
                expiry: claims.exp as int,
                pending: None,
                margin: if margin < 0 {
                    0
                } else {
                    margin as int
                },
                lifetime: lifetime as int,
            }),
            credential@.wf(),
    {
        let expiry = claims.exp;
        let margin = if margin < 0 {
            0
        } else {
            margin
        };
        Credential { token: None, claims, expiry, pending: None, margin, lifetime }
    }

    /// A credential without a token, renewed three minutes before expiry and
    /// asked for just under fifteen minutes at a time.
    pub fn with_defaults(claims: Payload) -> (credential: Credential)
        ensures
            credential@ == (CredentialView {
                token: None,
                claims: claims@,
                expiry: claims.exp as int,
                pending: None,
                margin: THREE_MIN as int,
                lifetime: FIFTEEN_MIN as int,
            }),
            credential@.wf(),
    {
        Credential::new(claims, THREE_MIN, FIFTEEN_MIN)
    }

    /// The cached token, whatever its age.
    pub fn current_token(&self) -> (token: Option<String>)
        ensures
            token is Some <==> self@.token is Some,
            token matches Some(t) ==> t@ == self@.token->0,
    {
        match &self.token {
            Some(t) => Some(t.clone()),
            None => None,
        }
    }

    /// When the cached token expires.
    pub fn expiry(&self) -> (expiry: i64)
        ensures
            expiry == self@.expiry,
    {
        self.expiry
    }

    /// Whether an exchange is under way.
    pub fn is_refreshing(&self) -> (pending: bool)
        ensures
            pending == self@.pending is Some,
    {
        self.pending.is_some()
    }

    /// Whether the cached token can be handed out at `now`.
    pub fn is_usable(&self, now: i64) -> (usable: bool)
        ensures
            usable == self@.usable(now as int),
    {
        self.token.is_some() && !is_refresh_due(now, self.margin, self.expiry)
    }

    /// Takes the outcome of the exchange that this caller was told to make:
    /// the token that was granted, or the failure. `now` is the time of the
    /// call.
    ///
    /// A granted token that is not empty, and that comes before the
    /// assertion that obtained it has expired, becomes the cached one, with
    /// that assertion's expiry. A granted token that is empty or comes too
    /// late counts as a failure. After a failure the cached token stays, and
    /// is handed back if it has not expired. Either way the next caller that
    /// finds the token due may start an exchange again. Without an exchange
    /// under way nothing changes.
    ///
    /// So a token that is handed back here is never empty and has not expired
    /// at `now`.
    pub fn complete(&mut self, granted: Result<String, ShowMeErrors>, now: i64) -> (outcome:
        TokenOutcome)
        ensures
            final(self)@ == old(self)@.completed(granted_view(granted), now as int),
            outcome@ == old(self)@.outcome(granted_view(granted), now as int),
            old(self)@.wf() ==> final(self)@.wf(),
            granted matches Err(e) ==> (outcome matches TokenOutcome::Stale { error, .. }
                ==> error == e) && (outcome matches TokenOutcome::Failed { error } ==> error
                == e),
            granted is Ok ==> (outcome matches TokenOutcome::Stale { error, .. } ==> error
                matches ShowMeErrors::TokenDefault(_)) && (outcome matches TokenOutcome::Failed {
                error,
            } ==> error matches ShowMeErrors::TokenDefault(_)),
    {
        let pending = self.pending.take();
        match pending {
            None => {
                match granted {
                    Ok(_) => TokenOutcome::Failed {
                        error: ShowMeErrors::TokenDefault(String::from_str("exchange")),
                    },
                    Err(e) => TokenOutcome::Failed { error: e },
                }
            },
            Some(claims) => {
                let failure = match granted {
                    Ok(token) => {
                        if !token.as_str().is_empty() && now < claims.exp {
                            self.expiry = claims.exp;
                            self.claims = claims.clone();
                            self.token = Some(token.clone());
                            return TokenOutcome::Fresh { token, payload: claims };
                        }
                        ShowMeErrors::TokenDefault(String::from_str("access_token"))
                    },
                    Err(e) => e,
                };
                if self.token.is_some() && now < self.expiry {
                    let token = self.current_token().unwrap();
                    TokenOutcome::Stale { token, payload: self.claims.clone(), error: failure }
                } else {
                    TokenOutcome::Failed { error: failure }
                }
            },
        }
    }

    /// Asks for a token on the system clock. Where the token has to be
    /// renewed, the one-time value of the new assertion is drawn here, and
    /// nowhere else: the result is an error only if no exchange is under way,
    /// the token is due on the clock and the draw fails, and the credential
    /// is then unchanged.
    ///
    /// The clock is read through `chrono`, which does not return on a machine
    /// whose clock stands before 1970.
    pub fn poll(&mut self) -> (step: Result<TokenStep, ShowMeErrors>)
        ensures
            step matches Ok(s) ==> exists|now: int, nonce: Seq<char>|
                {
                    &&& 0 <= now <= i64::MAX
                    &&& s@ == #[trigger] old(self)@.answer(now, nonce)
                    &&& final(self)@ == old(self)@.asked(now, nonce)
                },
            step matches Err(e) ==> e is TokenOpenSsl && final(self)@ == old(self)@,
            step is Err ==> old(self)@.pending is None && exists|now: int|
                0 <= now <= i64::MAX && !(#[trigger] old(self)@.usable(now)),
    {
        let now = unix_now();
        let nonce = if self.pending.is_none() && !self.is_usable(now) {
            match fresh_nonce() {
                Ok(n) => n,
                Err(e) => {
                    assert(!old(self)@.usable(now as int));
                    return Err(e);
                },
            }
        } else {
            String::new()
        };
        let ghost n = nonce@;
        let s = get_usable_token(self, now, nonce);
        assert(s@ == old(self)@.answer(now as int, n));
        Ok(s)
    }
}

/// Answers a caller that asks for a token at `now`.
///
/// The caller gets the cached token if more than the margin is left of its
/// validity. If not, it is told to wait while an exchange is under way, and
/// to make the exchange otherwise; the credential then counts an exchange as
/// under way until `complete` is called. `nonce` is the one-time value of
/// the assertion in that case.
pub fn get_usable_token(credential: &mut Credential, now: i64, nonce: String) -> (step: TokenStep)
    ensures
        step@ == old(credential)@.answer(now as int, nonce@),
        final(credential)@ == old(credential)@.asked(now as int, nonce@),
        old(credential)@.wf() ==> final(credential)@.wf(),
{
    if credential.is_usable(now) {
        let token = credential.current_token().unwrap();
        TokenStep::Ready { token, payload: credential.claims.clone() }
    } else if credential.pending.is_some() {
        TokenStep::Wait
    } else {
        let exp = expiry_after(now, credential.lifetime);
        let mut next = update_exp(credential.claims.clone(), exp);
        next.jti = nonce;
        credential.pending = Some(next.clone());
        TokenStep::Exchange { payload: next }
    }
}

// ---------------------------------------------------------------------------
// Laws of the credential
// ---------------------------------------------------------------------------

/// Something that happens to the credential.
pub enum CredentialEvent {
    /// A caller asks for a token at `now`.
    Ask { now: int, nonce: Seq<char> },
    /// The caller that was making the exchange reports, at `now`, how it
    /// went.
    Done { granted: Option<Seq<char>>, now: int },
}

impl CredentialView {
    /// The number of exchanges under way: none or one.
    pub open spec fn in_flight(self) -> nat {
        if self.pending is Some {
            1
        } else {
            0
        }
    }

    /// The credential after one event.
    pub open spec fn after(self, e: CredentialEvent) -> CredentialView {
        match e {
            CredentialEvent::Ask { now, nonce } => self.asked(now, nonce),
            CredentialEvent::Done { granted, now } => self.completed(granted, now),
        }
    }

    /// The credential after a sequence of events.
    pub open spec fn after_all(self, events: Seq<CredentialEvent>) -> CredentialView
        decreases events.len(),
    {
        if events.len() == 0 {
            self
        } else {
            self.after_all(events.drop_last()).after(events.last())
        }
    }

    /// The number of callers, over a sequence of events, that were told to
    /// make the exchange.
    pub open spec fn exchanges(self, events: Seq<CredentialEvent>) -> nat
        decreases events.len(),
    {
        if events.len() == 0 {
            0
        } else {
            let before = self.after_all(events.drop_last());
            let earlier = self.exchanges(events.drop_last());
            match events.last() {
                CredentialEvent::Ask { now, nonce } => if before.answer(now, nonce) is Exchange {
                    earlier + 1
                } else {
                    earlier
                },
                CredentialEvent::Done { granted, now } => earlier,
            }
        }
    }

    /// The number of exchanges, over a sequence of events, that were
    /// reported as ended while under way.
    pub open spec fn completions(self, events: Seq<CredentialEvent>) -> nat
        decreases events.len(),
    {
        if events.len() == 0 {
            0
        } else {
            let before = self.after_all(events.drop_last());
            let earlier = self.completions(events.drop_last());
            match events.last() {
                CredentialEvent::Ask { now, nonce } => earlier,
                CredentialEvent::Done { granted, now } => earlier + before.in_flight(),
            }
        }
    }

    /// The token that a caller is handed by an event, if it is handed one:
    /// the cached token where it asks and that is fresh, the obtained or the
    /// cached token where it reports the end of its exchange.
    pub open spec fn handed(self, e: CredentialEvent) -> Option<Seq<char>> {
        match e {
            CredentialEvent::Ask { now, nonce } => match self.answer(now, nonce) {
                TokenStepView::Ready { token, payload } => Some(token),
                _ => None,
            },
            CredentialEvent::Done { granted, now } => match self.outcome(granted, now) {
                TokenOutcomeView::Fresh { token, payload } => Some(token),
                TokenOutcomeView::Stale { token, payload } => Some(token),
                TokenOutcomeView::Failed => None,
            },
        }
    }
}

impl CredentialEvent {
    /// The time at which the event happens.
    pub open spec fn at(self) -> int {
        match self {
            CredentialEvent::Ask { now, nonce } => now,
            CredentialEvent::Done { granted, now } => now,
        }
    }
}

/// A sound credential stays sound, whatever happens to it.
pub proof fn lemma_stays_sound(c: CredentialView, events: Seq<CredentialEvent>)
    requires
        c.wf(),
    ensures
        c.after_all(events).wf(),
    decreases events.len(),
{
    if events.len() > 0 {
        lemma_stays_sound(c, events.drop_last());
    }
}

/// No caller is handed a token that is empty or has expired: whatever has
/// happened to a sound credential, a caller that is then handed a token, be
/// it the cached one, a renewed one or the one kept after a failed exchange,
/// is handed the token that the credential holds afterwards, that token is
/// not empty, and the time of the call lies before its expiry.
pub proof fn lemma_handed_out_token_is_valid(
    c: CredentialView,
    events: Seq<CredentialEvent>,
    e: CredentialEvent,
)
    requires
        c.wf(),
        c.after_all(events).handed(e) is Some,
    ensures
        c.after_all(events).handed(e)->0.len() > 0,
        e.at() < c.after_all(events).after(e).expiry,
        c.after_all(events).after(e).token == c.after_all(events).handed(e),
{
    lemma_stays_sound(c, events);
}

/// Single flight: whatever callers ask and whatever exchanges end, every
/// exchange that was started has ended or is the one under way, and at most
/// one is under way.
pub proof fn lemma_single_flight(c: CredentialView, events: Seq<CredentialEvent>)
    ensures
        c.in_flight() + c.exchanges(events) == c.completions(events) + c.after_all(
            events,
        ).in_flight(),
        c.after_all(events).in_flight() <= 1,
    decreases events.len(),
{
    if events.len() > 0 {
        lemma_single_flight(c, events.drop_last());
    }
}

/// While no exchange ends, at most one caller is told to make one, however
/// many ask and whenever they do; and none is, if one is under way already.
pub proof fn lemma_one_exchange_among_callers(c: CredentialView, events: Seq<CredentialEvent>)
    requires
        forall|i: int| 0 <= i < events.len() ==> (#[trigger] events[i]) is Ask,
    ensures
        c.exchanges(events) + c.in_flight() <= 1,
    decreases events.len(),
{
    lemma_single_flight(c, events);
    lemma_asks_complete_nothing(c, events);
}

proof fn lemma_asks_complete_nothing(c: CredentialView, events: Seq<CredentialEvent>)
    requires
        forall|i: int| 0 <= i < events.len() ==> (#[trigger] events[i]) is Ask,
    ensures
        c.completions(events) == 0,
    decreases events.len(),
{
    if events.len() > 0 {
        let init = events.drop_last();
        assert forall|i: int| 0 <= i < init.len() implies (#[trigger] init[i]) is Ask by {
            assert(init[i] == events[i]);
        }
        lemma_asks_complete_nothing(c, init);
        assert(events.last() == events[events.len() - 1]);
    }
}

/// Whether every event of a sequence happens between `lo` and `hi`, and
/// every exchange that ends has been granted a token that is not empty.
pub open spec fn within_window(events: Seq<CredentialEvent>, lo: int, hi: int) -> bool {
    forall|i: int|
        0 <= i < events.len() ==> match #[trigger] events[i] {
            CredentialEvent::Ask { now, nonce } => lo <= now <= hi,
            CredentialEvent::Done { granted, now } => lo <= now <= hi && granted is Some
                && granted->0.len() > 0,
        }
}

/// Whether a credential that has started at most one exchange since `lo`
/// will start no other before `hi`: it has started none and none is under
/// way, or it has started one, and what that one obtains, or has obtained,
/// stays fresh until `hi`.
pub open spec fn settled(c: CredentialView, started: nat, hi: int) -> bool {
    ||| started == 0 && c.pending is None
    ||| started == 1 && c.pending is Some && hi + c.margin < c.pending->0.exp
    ||| started == 1 && c.pending is None && c.token is Some && hi + c.margin < c.expiry
}

/// One exchange for one expiry window: while callers ask within a span of
/// time that is shorter than what a new token outlasts its margin by, and the
/// exchange succeeds, at most one of them is told to make the exchange,
/// however many ask, in whatever order, before, while and after it is made.
pub proof fn lemma_one_exchange_per_window(
    c: CredentialView,
    events: Seq<CredentialEvent>,
    lo: int,
    hi: int,
)
    requires
        c.margin >= 0,
        c.pending is None,
        within_window(events, lo, hi),
        hi + c.margin < lo + c.lifetime <= i64::MAX,
        i64::MIN <= lo + c.lifetime,
    ensures
        c.exchanges(events) <= 1,
        settled(c.after_all(events), c.exchanges(events), hi),
        c.after_all(events).margin == c.margin,
        c.after_all(events).lifetime == c.lifetime,
    decreases events.len(),
{
    if events.len() > 0 {
        let init = events.drop_last();
        assert forall|i: int| 0 <= i < init.len() implies match #[trigger] init[i] {
            CredentialEvent::Ask { now, nonce } => lo <= now <= hi,
            CredentialEvent::Done { granted, now } => lo <= now <= hi && granted is Some
                && granted->0.len() > 0,
        } by {
            assert(init[i] == events[i]);
        }
        lemma_one_exchange_per_window(c, init, lo, hi);
        assert(events.last() == events[events.len() - 1]);
    }
}

/// A failed exchange costs nothing: the cached token and its expiry stay, and
/// the caller gets the cached token if it has not expired.
pub proof fn lemma_failed_exchange_keeps_token(c: CredentialView, now: int)
    requires
        c.pending is Some,
    ensures
        c.completed(None, now).token == c.token,
        c.completed(None, now).expiry == c.expiry,
        c.completed(None, now).claims == c.claims,
        c.completed(None, now).pending is None,
        c.token is Some && now < c.expiry ==> c.outcome(None, now) == (TokenOutcomeView::Stale {
            token: c.token->0,
            payload: c.claims,
        }),
        !(c.token is Some && now < c.expiry) ==> c.outcome(None, now) is Failed,
{
}

/// A granted token is reused: once an exchange has obtained a token, every
/// caller that asks while more than the margin is left of the new expiry gets
/// that same token, and no exchange is started.
pub proof fn lemma_granted_token_is_reused(
    c: CredentialView,
    token: Seq<char>,
    done: int,
    now: int,
    nonce: Seq<char>,
)
    requires
        c.obtained(Some(token), done),
        now + c.margin < c.pending->0.exp,
    ensures
        c.completed(Some(token), done).answer(now, nonce) == (TokenStepView::Ready {
            token,
            payload: c.pending->0,
        }),
        c.completed(Some(token), done).asked(now, nonce) == c.completed(Some(token), done),
{
}

/// A renewed token is good for the margin: a token that is not empty, and
/// that an assertion made at `start` has obtained before it expired, is
/// handed out, to every caller, until the margin before `start + lifetime`,
/// as far as that time can be told.
pub proof fn lemma_renewed_token_lasts(
    c: CredentialView,
    start: int,
    first: Seq<char>,
    token: Seq<char>,
    done: int,
    now: int,
    nonce: Seq<char>,
)
    requires
        c.answer(start, first) is Exchange,
        i64::MIN <= start + c.lifetime <= i64::MAX,
        token.len() > 0,
        done < start + c.lifetime,
        now + c.margin < start + c.lifetime,
    ensures
        c.asked(start, first).completed(Some(token), done).answer(now, nonce) matches TokenStepView::Ready {
            token: t,
            payload,
        } && t == token,
{
}

} // verus!
