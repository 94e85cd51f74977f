use vstd::prelude::*;
use crate::api::{api_error, is_api_error, ApiError, DbError, STATUS_BAD_REQUEST, STATUS_CONFLICT,
    STATUS_INTERNAL_SERVER_ERROR, STATUS_UNAUTHORIZED};
use crate::crypto::{ascii_lowercase, lowercase, str_to_lowercase, DEFAULT_KDF, DEFAULT_KDF_ITERATIONS};
use vstd::utf8::is_ascii_chars;
use crate::models::{is_profile_of, Account, LoginRequest, Profile, LoginResponse, PreloginResponse, TwoFactorProviders,
    TwoFactorResponse};
use crate::crypto::base64_encode;
use crate::text::{bytes_equal, join, law_strip_added_prefix, strip_prefix, strip_prefix_spec};

verus! {

/// Lifetime of an access token, in seconds.
pub const TOKEN_LIFETIME_SECS: usize = 3600;

// ===================== Access tokens =====================

/// The claims an access token carries.
#[derive(Debug, Clone)]
pub struct Claims {
    pub sub: String,
    pub email: String,
    pub exp: usize,
    pub iat: usize,
}

/// The authenticated user's id, handed to the protected endpoints.
#[derive(Debug, Clone)]
pub struct UserId(pub String);

impl Claims {
    /// The claims of a token issued at `now` (seconds since the epoch) for a
    /// user: subject and e-mail, issued now, expiring one hour later.
    pub fn issue(user_id: &str, email: &str, now: usize) -> (c: Claims)
        requires
            now + TOKEN_LIFETIME_SECS <= usize::MAX,
        ensures
            c.sub@ == user_id@,
            c.email@ == email@,
            c.iat == now,
            c.exp == now + TOKEN_LIFETIME_SECS,
    {
        Claims {
            sub: String::from_str(user_id),
            email: String::from_str(email),
            iat: now,
            exp: now + TOKEN_LIFETIME_SECS,
        }
    }
}

/// The token of an `Authorization` header value of the form `Bearer <token>`.
pub open spec fn bearer_token_spec(header: Option<Seq<char>>) -> Option<Seq<char>> {
    match header {
        Some(h) => strip_prefix_spec(h, "Bearer "@),
        None => None,
    }
}

/// The view of an optional text.
pub open spec fn opt_view(o: Option<&str>) -> Option<Seq<char>> {
    match o {
        Some(s) => Some(s@),
        None => None,
    }
}

/// Extracts the bearer token from the `Authorization` header value, if any.
pub fn bearer_token<'a>(header: Option<&'a str>) -> (token: Option<&'a str>)
    ensures
        opt_view(token) == bearer_token_spec(opt_view(header)),
{
    match header {
        Some(h) => strip_prefix(h, "Bearer "),
        None => None,
    }
}

/// A header made of `Bearer ` and a token carries exactly that token.
pub proof fn law_bearer_header_carries_token(token: Seq<char>)
    ensures
        bearer_token_spec(Some("Bearer "@ + token)) == Some(token),
{
    law_strip_added_prefix("Bearer "@, token);
}

/// What checking the request's bearer token found.
pub enum TokenCheck {
    /// No `Authorization: Bearer` header.
    Missing,
    /// A token that does not validate (bad signature, expired, malformed).
    Invalid,
    /// A valid token and its claims.
    Valid(Claims),
}

/// Whether a protected request goes on, and as whom.
pub enum AuthDecision {
    Proceed(UserId),
    Reject(ApiError),
}

/// The authentication layer in front of the protected endpoints: a valid token
/// lets the request through as its subject; otherwise 401, `unauthorized` when
/// the header is missing, `invalid_token` when the token does not validate.
pub fn authenticate(check: TokenCheck) -> (d: AuthDecision)
    ensures
        match check {
            TokenCheck::Valid(c) => d == AuthDecision::Proceed(UserId(c.sub)),
            TokenCheck::Invalid => d matches AuthDecision::Reject(e) && is_api_error(
                e,
                401,
                "invalid_token"@,
                "Invalid or expired token"@,
            ),
            TokenCheck::Missing => d matches AuthDecision::Reject(e) && is_api_error(
                e,
                401,
                "unauthorized"@,
                "Missing or invalid authorization header"@,
            ),
        },
{
    match check {
        TokenCheck::Valid(c) => AuthDecision::Proceed(UserId(c.sub)),
        TokenCheck::Invalid => AuthDecision::Reject(
            api_error(STATUS_UNAUTHORIZED, "invalid_token", String::from_str("Invalid or expired token")),
        ),
        TokenCheck::Missing => AuthDecision::Reject(
            api_error(
                STATUS_UNAUTHORIZED,
                "unauthorized",
                String::from_str("Missing or invalid authorization header"),
            ),
        ),
    }
}

/// The user a handler runs as: the one the authentication layer recorded;
/// without one, 401 `unauthorized`, saying whether a bearer header was sent.
pub fn authenticated_user(recorded: Option<UserId>, header: Option<&str>) -> (r: Result<UserId, ApiError>)
    ensures
        match recorded {
            Some(u) => r == Ok::<UserId, ApiError>(u),
            None => r matches Err(e) && if bearer_token_spec(opt_view(header)) is Some {
                is_api_error(e, 401, "unauthorized"@, "Authentication required"@)
            } else {
                is_api_error(e, 401, "unauthorized"@, "Missing authorization header"@)
            },
        },
{
    match recorded {
        Some(u) => Ok(u),
        None => match bearer_token(header) {
            Some(_) => Err(api_error(STATUS_UNAUTHORIZED, "unauthorized", String::from_str("Authentication required"))),
            None => Err(
                api_error(STATUS_UNAUTHORIZED, "unauthorized", String::from_str("Missing authorization header")),
            ),
        },
    }
}

// ===================== Admin basic authentication =====================

/// `base64::engine::general_purpose::STANDARD.decode`. The engine takes only
/// canonical padded base64 in the standard alphabet (canonical padding, no
/// trailing bits), so it decodes exactly the texts that are the encoding of
/// some bytes, and gives those bytes.
#[verifier::external_body]
fn decode_base64_standard(text: &str) -> (bytes: Option<Vec<u8>>)
    ensures
        match bytes {
            Some(v) => base64_encode(v@) == text@ && forall|b: Seq<u8>|
                #[trigger] base64_encode(b) == text@ ==> v@ == b,
            None => forall|b: Seq<u8>| #[trigger] base64_encode(b) != text@,
        },
{
    base64::Engine::decode(&base64::engine::general_purpose::STANDARD, text).ok()
}

/// The UTF-8 bytes of `admin:admin`, the administrator's credentials.
pub open spec fn admin_credentials() -> Seq<u8> {
    seq![97u8, 100u8, 109u8, 105u8, 110u8, 58u8, 97u8, 100u8, 109u8, 105u8, 110u8]
}

/// The `Authorization` header value is `Basic ` followed by the standard
/// base64 of `admin:admin`.
pub open spec fn is_admin_authorization(header: Option<Seq<char>>) -> bool {
    header == Some("Basic "@ + base64_encode(admin_credentials()))
}

/// Whether decoded credentials are the administrator's.
pub fn is_admin_credentials(bytes: &[u8]) -> (b: bool)
    ensures
        b == (bytes@ == admin_credentials()),
{
    let expected: Vec<u8> = vec![97u8, 100u8, 109u8, 105u8, 110u8, 58u8, 97u8, 100u8, 109u8, 105u8, 110u8];
    assert(expected@ =~= admin_credentials());
    bytes_equal(bytes, expected.as_slice())
}

/// Checks HTTP basic authentication for the admin pages: the header must be
/// `Basic ` and the base64 of `admin:admin`, nothing else.
pub fn basic_auth_ok(header: Option<&str>) -> (ok: bool)
    ensures
        ok == is_admin_authorization(opt_view(header)),
{
    let ghost expected = base64_encode(admin_credentials());
    proof {
        law_strip_added_prefix("Basic "@, expected);
    }
    match header {
        Some(h) => match strip_prefix(h, "Basic ") {
            Some(encoded) => {
                proof {
                    assert(h@ =~= "Basic "@ + encoded@);
                }
                match decode_base64_standard(encoded) {
                    Some(bytes) => is_admin_credentials(bytes.as_slice()),
                    None => false,
                }
            },
            None => false,
        },
        None => false,
    }
}

// ===================== Login =====================

/// How the body of a token request is encoded.
pub enum BodyFormat {
    Json,
    Form,
}

/// JSON when the content type starts with `application/json`, form-encoded otherwise.
pub fn login_body_format(content_type: &str) -> (f: BodyFormat)
    ensures
        f is Json <==> strip_prefix_spec(content_type@, "application/json"@) is Some,
{
    match strip_prefix(content_type, "application/json") {
        Some(_) => BodyFormat::Json,
        None => BodyFormat::Form,
    }
}

/// The answer when the request body cannot be read.
pub fn body_unreadable() -> (e: ApiError)
    ensures
        is_api_error(e, 400, "invalid_request"@, "Failed to read request body"@),
{
    api_error(STATUS_BAD_REQUEST, "invalid_request", String::from_str("Failed to read request body"))
}

/// The answer when the request body does not parse, with the parser's message.
pub fn body_unparsable(format: BodyFormat, detail: &str) -> (e: ApiError)
    ensures
        match format {
            BodyFormat::Json => is_api_error(e, 400, "invalid_json"@, "Invalid JSON: "@ + detail@),
            BodyFormat::Form => is_api_error(e, 400, "invalid_form"@, "Invalid form data: "@ + detail@),
        },
{
    match format {
        BodyFormat::Json => api_error(STATUS_BAD_REQUEST, "invalid_json", join("Invalid JSON: ", detail)),
        BodyFormat::Form => api_error(STATUS_BAD_REQUEST, "invalid_form", join("Invalid form data: ", detail)),
    }
}

/// The text, or the empty text when absent.
pub open spec fn text_or_empty(o: Option<String>) -> Seq<char> {
    match o {
        Some(s) => s@,
        None => Seq::empty(),
    }
}

/// The request's grant type, `password` when none is given.
pub open spec fn grant_type_of(req: LoginRequest) -> Seq<char> {
    match req.grant_type {
        Some(g) => g@,
        None => "password"@,
    }
}

/// The request exchanges a refresh token.
pub open spec fn is_refresh_grant(req: LoginRequest) -> bool {
    grant_type_of(req) == "refresh_token"@
}

/// An absent text reads as empty, a present one as itself; the grant is a
/// refresh grant exactly when the grant type `refresh_token` is given.
pub proof fn law_login_request_fields(req: LoginRequest)
    ensures
        forall|o: Option<String>| #[trigger] text_or_empty(o) == match o {
            Some(s) => s@,
            None => Seq::<char>::empty(),
        },
        text_or_empty(req.password) == match req.password {
            Some(s) => s@,
            None => Seq::<char>::empty(),
        },
        text_or_empty(req.username) == match req.username {
            Some(s) => s@,
            None => Seq::<char>::empty(),
        },
        text_or_empty(req.refresh_token) == match req.refresh_token {
            Some(s) => s@,
            None => Seq::<char>::empty(),
        },
        is_refresh_grant(req) <==> (req.grant_type matches Some(g) && g@ == "refresh_token"@),
{
    reveal_strlit("password");
    reveal_strlit("refresh_token");
    assert("password"@.len() != "refresh_token"@.len());
}

fn text_of(o: &Option<String>) -> (s: String)
    ensures
        s@ == text_or_empty(*o),
{
    match o {
        Some(s) => s.clone(),
        None => String::new(),
    }
}

/// Whether a token request exchanges a refresh token.
pub fn refresh_grant(req: &LoginRequest) -> (b: bool)
    ensures
        b == is_refresh_grant(*req),
{
    proof {
        reveal_strlit("password");
        reveal_strlit("refresh_token");
        assert("password"@.len() != "refresh_token"@.len());
    }
    match &req.grant_type {
        Some(g) => *g == String::from_str("refresh_token"),
        None => false,
    }
}

/// Which account a token request names.
pub enum LoginLookup {
    /// The account holding this refresh token.
    RefreshToken(String),
    /// The account with this e-mail address.
    Email(String),
}

/// The lookup a token request asks for: by refresh token for a refresh grant,
/// by e-mail (the user name) otherwise; absent values read as empty.
pub fn login_lookup(req: &LoginRequest) -> (l: LoginLookup)
    ensures
        is_refresh_grant(*req) ==> (l matches LoginLookup::RefreshToken(t) && t@ == text_or_empty(
            req.refresh_token,
        )),
        !is_refresh_grant(*req) ==> (l matches LoginLookup::Email(u) && u@ == text_or_empty(req.username)),
        (req.grant_type matches Some(g) && g@ == "refresh_token"@) ==> match req.refresh_token {
            Some(t) => l matches LoginLookup::RefreshToken(k) && k@ == t@,
            None => l matches LoginLookup::RefreshToken(k) && k@.len() == 0,
        },
        !(req.grant_type matches Some(g) && g@ == "refresh_token"@) ==> match req.username {
            Some(u) => l matches LoginLookup::Email(k) && k@ == u@,
            None => l matches LoginLookup::Email(k) && k@.len() == 0,
        },
{
    proof {
        law_login_request_fields(*req);
    }
    if refresh_grant(req) {
        LoginLookup::RefreshToken(text_of(&req.refresh_token))
    } else {
        LoginLookup::Email(text_of(&req.username))
    }
}

/// The account a token request logs in as, given what the lookup found: a
/// store failure is 500 `db_error`; an unknown account or, for a password
/// grant, a password other than the stored hash is 400 `invalid_grant`.
pub fn login_account(req: &LoginRequest, found: Result<Option<Account>, DbError>) -> (r: Result<Account, ApiError>)
    ensures
        match found {
            Err(_) => r matches Err(e) && is_api_error(e, 500, "db_error"@, "Database error"@),
            Ok(None) => r matches Err(e) && if is_refresh_grant(*req) {
                is_api_error(e, 400, "invalid_grant"@, "Invalid refresh token"@)
            } else {
                is_api_error(e, 400, "invalid_grant"@, "Username or password is incorrect"@)
            },
            Ok(Some(acc)) => if is_refresh_grant(*req) || text_or_empty(req.password)
                == acc.master_password_hash@ {
                r == Ok::<Account, ApiError>(acc)
            } else {
                r matches Err(e) && is_api_error(
                    e,
                    400,
                    "invalid_grant"@,
                    "Username or password is incorrect"@,
                )
            },
        },
        found matches Ok(Some(acc)) ==> ((req.grant_type matches Some(g) && g@ == "refresh_token"@) ==> r
            == Ok::<Account, ApiError>(acc)),
        found matches Ok(Some(acc)) ==> (!(req.grant_type matches Some(g) && g@ == "refresh_token"@) ==> match req.password {
            Some(p) => (r is Ok <==> p@ == acc.master_password_hash@) && (r is Ok ==> r == Ok::<Account, ApiError>(acc)),
            None => (r is Ok <==> acc.master_password_hash@ == Seq::<char>::empty()) && (r is Ok ==> r == Ok::<Account, ApiError>(acc)),
        }),
{
    proof {
        law_login_request_fields(*req);
    }
    match found {
        Err(_) => Err(api_error(STATUS_INTERNAL_SERVER_ERROR, "db_error", String::from_str("Database error"))),
        Ok(None) => {
            if refresh_grant(req) {
                Err(api_error(STATUS_BAD_REQUEST, "invalid_grant", String::from_str("Invalid refresh token")))
            } else {
                Err(
                    api_error(
                        STATUS_BAD_REQUEST,
                        "invalid_grant",
                        String::from_str("Username or password is incorrect"),
                    ),
                )
            }
        },
        Ok(Some(acc)) => {
            if refresh_grant(req) {
                Ok(acc)
            } else {
                let password = text_of(&req.password);
                if password == acc.master_password_hash {
                    Ok(acc)
                } else {
                    Err(
                        api_error(
                            STATUS_BAD_REQUEST,
                            "invalid_grant",
                            String::from_str("Username or password is incorrect"),
                        ),
                    )
                }
            }
        },
    }
}

/// The answer when signing the access token fails.
pub fn token_error() -> (e: ApiError)
    ensures
        is_api_error(e, 500, "token_error"@, "Failed to generate token"@),
{
    api_error(STATUS_INTERNAL_SERVER_ERROR, "token_error", String::from_str("Failed to generate token"))
}

/// The answer to a successful login: the bearer access token valid for an
/// hour, the new refresh token, and the account's keys and KDF settings.
pub fn login_response(acc: Account, access_token: String, refresh_token: String) -> (r: LoginResponse)
    ensures
        r.access_token == access_token,
        r.expires_in == TOKEN_LIFETIME_SECS,
        r.token_type@ == "Bearer"@,
        r.refresh_token == refresh_token,
        r.key == Some(acc.key),
        r.private_key == Some(acc.keys.encrypted_private_key),
        r.kdf == Some(acc.kdf),
        r.kdf_iterations == Some(acc.kdf_iterations),
        r.kdf_memory is None,
        r.kdf_parallelism is None,
        r.two_factor_token is None,
        r.object@ == "token"@,
{
    LoginResponse {
        access_token,
        expires_in: TOKEN_LIFETIME_SECS as i64,
        token_type: String::from_str("Bearer"),
        refresh_token,
        key: Some(acc.key),
        private_key: Some(acc.keys.encrypted_private_key),
        kdf: Some(acc.kdf),
        kdf_iterations: Some(acc.kdf_iterations),
        kdf_memory: None,
        kdf_parallelism: None,
        two_factor_token: None,
        object: String::from_str("token"),
    }
}

// ===================== Prelogin and registration =====================

/// The KDF settings announced before login: the account's when it is found,
/// the defaults (PBKDF2, 600000 iterations) otherwise, store failures included.
pub fn prelogin_response(found: Result<Option<Account>, DbError>) -> (r: PreloginResponse)
    ensures
        match found {
            Ok(Some(acc)) => r.kdf == acc.kdf && r.kdf_iterations == acc.kdf_iterations,
            _ => r.kdf == 0 && r.kdf_iterations == 600_000,
        },
{
    match found {
        Ok(Some(acc)) => PreloginResponse { kdf: acc.kdf, kdf_iterations: acc.kdf_iterations },
        _ => PreloginResponse { kdf: DEFAULT_KDF, kdf_iterations: DEFAULT_KDF_ITERATIONS },
    }
}

/// A character of the Unicode `White_Space` property.
pub open spec fn is_white_space(c: char) -> bool {
    let u = c as int;
    ||| 0x9 <= u <= 0xd
    ||| u == 0x20
    ||| u == 0x85
    ||| u == 0xa0
    ||| u == 0x1680
    ||| 0x2000 <= u <= 0x200a
    ||| u == 0x2028
    ||| u == 0x2029
    ||| u == 0x202f
    ||| u == 0x205f
    ||| u == 0x3000
}

/// The text without its leading white space.
pub open spec fn trim_start_spec(s: Seq<char>) -> Seq<char>
    decreases s.len(),
{
    if s.len() > 0 && is_white_space(s[0]) {
        trim_start_spec(s.drop_first())
    } else {
        s
    }
}

/// The text without its trailing white space.
pub open spec fn trim_end_spec(s: Seq<char>) -> Seq<char>
    decreases s.len(),
{
    if s.len() > 0 && is_white_space(s.last()) {
        trim_end_spec(s.drop_last())
    } else {
        s
    }
}

/// The text without leading and trailing white space.
pub open spec fn trim_spec(s: Seq<char>) -> Seq<char> {
    trim_end_spec(trim_start_spec(s))
}

/// Trimming ASCII text leaves ASCII text.
pub proof fn lemma_trim_ascii(s: Seq<char>)
    requires
        is_ascii_chars(s),
    ensures
        is_ascii_chars(trim_start_spec(s)),
        is_ascii_chars(trim_end_spec(s)),
        is_ascii_chars(trim_spec(s)),
    decreases s.len(),
{
    if s.len() > 0 {
        assert(is_ascii_chars(s.drop_first())) by {
            assert forall|i: int| 0 <= i < s.drop_first().len() implies '\0' <= #[trigger] s.drop_first()[i] <= '\u{7f}' by {
                assert(s.drop_first()[i] == s[i + 1]);
            }
        }
        assert(is_ascii_chars(s.drop_last())) by {
            assert forall|i: int| 0 <= i < s.drop_last().len() implies '\0' <= #[trigger] s.drop_last()[i] <= '\u{7f}' by {
                assert(s.drop_last()[i] == s[i]);
            }
        }
        lemma_trim_ascii(s.drop_first());
        lemma_trim_ascii(s.drop_last());
    }
    lemma_trim_end_ascii(trim_start_spec(s));
}

proof fn lemma_trim_end_ascii(s: Seq<char>)
    requires
        is_ascii_chars(s),
    ensures
        is_ascii_chars(trim_end_spec(s)),
    decreases s.len(),
{
    if s.len() > 0 {
        assert(is_ascii_chars(s.drop_last())) by {
            assert forall|i: int| 0 <= i < s.drop_last().len() implies '\0' <= #[trigger] s.drop_last()[i] <= '\u{7f}' by {
                assert(s.drop_last()[i] == s[i]);
            }
        }
        lemma_trim_end_ascii(s.drop_last());
    }
}

/// `str::trim`: white space is the Unicode `White_Space` property.
#[verifier::external_body]
fn str_trim(s: &str) -> (t: &str)
    ensures
        t@ == trim_spec(s@),
{
    s.trim()
}

/// The form in which an e-mail address is registered: trimmed, then
/// lower-cased; for an ASCII address the lower-casing is the ASCII one.
pub fn normalize_email(email: &str) -> (n: String)
    ensures
        n@ == lowercase(trim_spec(email@)),
        is_ascii_chars(email@) ==> n@ == ascii_lowercase(trim_spec(email@)),
{
    let trimmed = str_trim(email);
    proof {
        if is_ascii_chars(email@) {
            lemma_trim_ascii(email@);
        }
    }
    str_to_lowercase(trimmed)
}

/// Registration goes ahead unless an account with the address exists, which
/// is 409 `email_already_exists`; a failed lookup does not stop it.
pub fn registration_check(existing: Result<Option<Account>, DbError>) -> (r: Result<(), ApiError>)
    ensures
        match existing {
            Ok(Some(_)) => r matches Err(e) && is_api_error(
                e,
                409,
                "email_already_exists"@,
                "An account with this email already exists."@,
            ),
            _ => r is Ok,
        },
{
    match existing {
        Ok(Some(_)) => Err(
            api_error(
                STATUS_CONFLICT,
                "email_already_exists",
                String::from_str("An account with this email already exists."),
            ),
        ),
        _ => Ok(()),
    }
}

/// The answer when storing a new account fails.
pub fn registration_failed(e: DbError) -> (r: ApiError)
    ensures
        is_api_error(r, 500, "registration_failed"@, "Failed to create account: "@ + e.message@),
{
    api_error(STATUS_INTERNAL_SERVER_ERROR, "registration_failed", join("Failed to create account: ", e.message.as_str()))
}

// ===================== Two-factor authentication =====================

/// `r` reports the two-factor status for what reading the stored secret gave:
/// enabled exactly when a non-empty secret was read, with the authenticator
/// listed exactly when enabled.
pub open spec fn is_two_factor_status(r: TwoFactorResponse, secret: Result<String, DbError>) -> bool {
    &&& r.enabled == (secret matches Ok(s) && s@.len() != 0)
    &&& (r.two_factor_providers is Some <==> r.enabled)
    &&& (r.two_factor_providers matches Some(p) ==> p.authenticator)
    &&& r.object@ == "twoFactor"@
}

/// Two-factor status from the stored secret: enabled exactly when a non-empty
/// secret is stored; a failed read counts as no secret.
pub fn two_factor_status(secret: Result<String, DbError>) -> (r: TwoFactorResponse)
    ensures
        is_two_factor_status(r, secret),
        r.enabled <==> (secret is Ok && secret->Ok_0@.len() > 0),
        r.two_factor_providers is Some <==> r.enabled,
{
    let enabled = match &secret {
        Ok(s) => !s.as_str().is_empty(),
        Err(_) => false,
    };
    TwoFactorResponse {
        enabled,
        object: String::from_str("twoFactor"),
        two_factor_providers: if enabled {
            Some(TwoFactorProviders { authenticator: true })
        } else {
            None
        },
    }
}

/// The status after the authenticator has been activated.
pub fn two_factor_activated() -> (r: TwoFactorResponse)
    ensures
        r.enabled,
        r.two_factor_providers matches Some(p) && p.authenticator,
        r.object@ == "twoFactor"@,
{
    TwoFactorResponse {
        enabled: true,
        object: String::from_str("twoFactor"),
        two_factor_providers: Some(TwoFactorProviders { authenticator: true }),
    }
}

/// The status after two-factor authentication has been switched off.
pub fn two_factor_deactivated() -> (r: TwoFactorResponse)
    ensures
        !r.enabled,
        r.two_factor_providers is None,
        r.object@ == "twoFactor"@,
{
    TwoFactorResponse { enabled: false, object: String::from_str("twoFactor"), two_factor_providers: None }
}

/// Two-factor status is on exactly when a non-empty secret was read; the
/// authenticator is listed exactly then.
pub proof fn law_two_factor_status(r: TwoFactorResponse, secret: Result<String, DbError>)
    requires
        is_two_factor_status(r, secret),
    ensures
        r.enabled <==> (secret is Ok && secret->Ok_0@.len() > 0),
        r.two_factor_providers is Some <==> (secret is Ok && secret->Ok_0@.len() > 0),
        r.two_factor_providers matches Some(p) ==> p.authenticator,
        r.object@ == "twoFactor"@,
{
}

/// The profile and the two-factor endpoint agree: an account's profile shows
/// two-factor as enabled exactly when the status read from its stored secret does.
pub proof fn law_profile_agrees_with_two_factor_status(acc: Account, p: Profile, r: TwoFactorResponse)
    requires
        is_profile_of(p, acc),
        is_two_factor_status(r, Ok(acc.two_factor_secret)),
    ensures
        p.two_factor_enabled == r.enabled,
{
}

} // verus!
