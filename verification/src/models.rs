use vstd::prelude::*;

verus! {

// ===================== Account / Profile =====================

/// An account's asymmetric key pair, the private half encrypted client-side.
#[derive(Debug, Clone)]
pub struct KeyPair {
    pub encrypted_private_key: String,
    pub public_key: String,
}

/// A registered user as stored.
#[derive(Debug, Clone)]
pub struct Account {
    pub id: String,
    pub name: String,
    pub email: String,
    pub master_password_hash: String,
    pub master_password_hint: String,
    pub key: String,
    pub keys: KeyPair,
    pub refresh_token: String,
    pub two_factor_secret: String,
    pub security_stamp: String,
    pub kdf: i32,
    pub kdf_iterations: i32,
}

/// The profile a client sees of its own account.
#[derive(Debug, Clone)]
pub struct Profile {
    pub id: String,
    pub name: Option<String>,
    pub email: String,
    pub email_verified: bool,
    pub premium: bool,
    pub culture: String,
    pub two_factor_enabled: bool,
    pub key: String,
    pub private_key: String,
    pub security_stamp: Option<String>,
    pub organizations: Vec<String>,
    pub object: String,
    pub master_password_hint: Option<String>,
}

/// `None` for an empty text, the text itself otherwise.
pub open spec fn non_empty(s: String) -> Option<String> {
    if s@.len() == 0 {
        None
    } else {
        Some(s)
    }
}

/// `p` is the profile shown for account `acc`.
pub open spec fn is_profile_of(p: Profile, acc: Account) -> bool {
    &&& p.id == acc.id
    &&& p.name == non_empty(acc.name)
    &&& p.email == acc.email
    &&& !p.email_verified
    &&& !p.premium
    &&& p.culture@ == "en-US"@
    &&& p.two_factor_enabled == (acc.two_factor_secret@.len() != 0)
    &&& p.key == acc.key
    &&& p.private_key == acc.keys.encrypted_private_key
    &&& p.security_stamp is None
    &&& p.organizations@.len() == 0
    &&& p.object@ == "profile"@
    &&& p.master_password_hint == non_empty(acc.master_password_hint)
}

fn non_empty_text(s: String) -> (r: Option<String>)
    ensures
        r == non_empty(s),
{
    if s.as_str().is_empty() {
        None
    } else {
        Some(s)
    }
}

/// A profile shows the account's own id, e-mail, symmetric key and encrypted
/// private key; its name and hint exactly when they are non-empty; two-factor
/// as enabled exactly when a secret is stored.
pub proof fn law_profile_shows_account(p: Profile, acc: Account)
    requires
        is_profile_of(p, acc),
    ensures
        p.id == acc.id,
        p.email == acc.email,
        p.key == acc.key,
        p.private_key == acc.keys.encrypted_private_key,
        p.name is Some <==> acc.name@.len() > 0,
        p.name matches Some(n) ==> n == acc.name,
        p.master_password_hint is Some <==> acc.master_password_hint@.len() > 0,
        p.master_password_hint matches Some(h) ==> h == acc.master_password_hint,
        p.two_factor_enabled <==> acc.two_factor_secret@.len() > 0,
        p.culture@ == "en-US"@,
        p.object@ == "profile"@,
{
}

impl Profile {
    /// The profile of an account: blank name and hint become absent, two-factor
    /// is on exactly when a secret is stored.
    pub fn from_account(acc: Account) -> (p: Profile)
        ensures
            is_profile_of(p, acc),
            p.id == acc.id,
            p.email == acc.email,
            p.key == acc.key,
            p.private_key == acc.keys.encrypted_private_key,
            p.name is Some <==> acc.name@.len() > 0,
            p.name matches Some(n) ==> n == acc.name,
            p.master_password_hint is Some <==> acc.master_password_hint@.len() > 0,
            p.master_password_hint matches Some(h) ==> h == acc.master_password_hint,
            p.two_factor_enabled <==> acc.two_factor_secret@.len() > 0,
    {
        let two_factor_enabled = !acc.two_factor_secret.as_str().is_empty();
        Profile {
            id: acc.id,
            name: non_empty_text(acc.name),
            email: acc.email,
            email_verified: false,
            premium: false,
            culture: String::from_str("en-US"),
            two_factor_enabled,
            key: acc.key,
            private_key: acc.keys.encrypted_private_key,
            security_stamp: None,
            organizations: Vec::new(),
            object: String::from_str("profile"),
            master_password_hint: non_empty_text(acc.master_password_hint),
        }
    }
}


// ===================== Cipher =====================

/// A login item's credentials.
#[derive(Debug, Clone)]
pub struct Login {
    pub password: Option<String>,
    pub totp: Option<String>,
    pub uri: Option<String>,
    pub uris: Option<Vec<Uri>>,
    pub username: Option<String>,
}

/// A URI of a login item with its optional match rule.
#[derive(Debug, Clone)]
pub struct Uri {
    pub uri: Option<String>,
    pub match_type: Option<i32>,
}

/// Marker of a secure-note item.
#[derive(Debug, Clone)]
pub struct SecureNote {
    pub type_field: i32,
}

/// A vault item as the API presents it.
#[derive(Debug, Clone)]
pub struct Cipher {
    pub type_field: i32,
    pub folder_id: Option<String>,
    pub organization_id: Option<String>,
    pub favorite: bool,
    pub edit: bool,
    pub id: String,
    pub data: Option<CipherData>,
    pub attachments: Vec<String>,
    pub organization_use_totp: bool,
    pub revision_date: String,
    pub object: String,
    pub collection_ids: Vec<String>,
    pub card: Option<String>,
    pub fields: Vec<String>,
    pub identity: Option<String>,
    pub login: Option<Login>,
    pub name: Option<String>,
    pub notes: Option<String>,
    pub secure_note: Option<SecureNote>,
    pub deleted_date: Option<String>,
}

/// The encrypted payload of a vault item, stored as one JSON document.
#[derive(Debug, Clone)]
pub struct CipherData {
    pub uri: Option<String>,
    pub username: Option<String>,
    pub password: Option<String>,
    pub totp: Option<String>,
    pub name: Option<String>,
    pub notes: Option<String>,
    pub fields: Vec<String>,
    pub uris: Option<Vec<Uri>>,
}

/// The URIs as a sequence, if present.
pub open spec fn uris_view(u: Option<Vec<Uri>>) -> Option<Seq<Uri>> {
    match u {
        Some(v) => Some(v@),
        None => None,
    }
}

/// The payload used when the stored document does not parse: all absent.
pub open spec fn is_empty_data(d: CipherData) -> bool {
    &&& d.uri is None
    &&& d.username is None
    &&& d.password is None
    &&& d.totp is None
    &&& d.name is None
    &&& d.notes is None
    &&& d.fields@.len() == 0
    &&& d.uris is None
}

/// `l` carries the credentials of payload `d`.
pub open spec fn is_login_of(l: Login, d: CipherData) -> bool {
    &&& l.username == d.username
    &&& l.password == d.password
    &&& l.totp == d.totp
    &&& l.uri == d.uri
    &&& uris_view(l.uris) == uris_view(d.uris)
}

/// `c` is the API view of a stored row: id, type, folder, favorite flag,
/// revision and deletion dates from the row, and the payload `d`. A login is
/// present exactly when the payload has a URI or a user name, a secure note
/// exactly when it has notes.
pub open spec fn is_stored_cipher(
    c: Cipher,
    id: String,
    type_field: i32,
    folder_id: Option<String>,
    favorite: i32,
    d: CipherData,
    revision_date: String,
    deleted_date: Option<String>,
) -> bool {
    &&& c.id == id
    &&& c.type_field == type_field
    &&& c.folder_id == folder_id
    &&& c.organization_id is None
    &&& c.favorite == (favorite != 0)
    &&& c.edit
    &&& c.data == Some(d)
    &&& c.attachments@.len() == 0
    &&& !c.organization_use_totp
    &&& c.revision_date == revision_date
    &&& c.object@ == "cipher"@
    &&& c.collection_ids@.len() == 0
    &&& c.card is None
    &&& c.fields@.len() == 0
    &&& c.identity is None
    &&& (c.login is Some <==> (d.uri is Some || d.username is Some))
    &&& (c.login matches Some(l) ==> is_login_of(l, d))
    &&& c.name == d.name
    &&& c.notes == d.notes
    &&& (c.secure_note is Some <==> d.notes is Some)
    &&& (c.secure_note matches Some(n) ==> n.type_field == 0)
    &&& c.deleted_date == deleted_date
}

/// The URIs' sequence view: present exactly when the URIs are, with the same items.
pub proof fn law_uris_view(u: Option<Vec<Uri>>)
    ensures
        uris_view(u) is Some <==> u is Some,
        u matches Some(v) ==> uris_view(u) == Some(v@),
{
}

/// The empty payload has nothing in it.
pub proof fn law_empty_payload(d: CipherData)
    requires
        is_empty_data(d),
    ensures
        d.uri is None && d.username is None && d.password is None && d.totp is None,
        d.name is None && d.notes is None && d.uris is None,
        d.fields@.len() == 0,
{
}

/// An API cipher shows the payload it was built from: its name, notes and
/// credentials, with a login exactly when the payload has a URI or user name
/// and a secure note exactly when it has notes.
pub proof fn law_stored_cipher_shows_payload(
    c: Cipher,
    id: String,
    type_field: i32,
    folder_id: Option<String>,
    favorite: i32,
    d: CipherData,
    revision_date: String,
    deleted_date: Option<String>,
)
    requires
        is_stored_cipher(c, id, type_field, folder_id, favorite, d, revision_date, deleted_date),
    ensures
        c.id == id,
        c.type_field == type_field,
        c.folder_id == folder_id,
        c.favorite <==> favorite != 0,
        c.data == Some(d),
        c.name == d.name,
        c.notes == d.notes,
        c.revision_date == revision_date,
        c.deleted_date == deleted_date,
        c.login is Some <==> (d.uri is Some || d.username is Some),
        c.login matches Some(l) ==> l.username == d.username && l.password == d.password && l.totp == d.totp
            && l.uri == d.uri && uris_view(l.uris) == uris_view(d.uris),
        c.secure_note is Some <==> d.notes is Some,
        c.object@ == "cipher"@,
{
}

fn copy_text(o: &Option<String>) -> (r: Option<String>)
    ensures
        r == *o,
{
    match o {
        Some(s) => Some(s.clone()),
        None => None,
    }
}

fn copy_number(o: &Option<i32>) -> (r: Option<i32>)
    ensures
        r == *o,
{
    match o {
        Some(n) => Some(*n),
        None => None,
    }
}

fn copy_uris(o: &Option<Vec<Uri>>) -> (r: Option<Vec<Uri>>)
    ensures
        uris_view(r) == uris_view(*o),
{
    match o {
        Some(v) => {
            let mut out: Vec<Uri> = Vec::new();
            let n = v.len();
            for i in 0..n
                invariant
                    n == v@.len(),
                    out@.len() == i,
                    forall|j: int| 0 <= j < i ==> out@[j] == v@[j],
            {
                out.push(Uri { uri: copy_text(&v[i].uri), match_type: copy_number(&v[i].match_type) });
            }
            assert(out@ =~= v@);
            Some(out)
        },
        None => None,
    }
}

impl CipherData {
    /// The all-absent payload.
    pub fn empty() -> (d: CipherData)
        ensures
            is_empty_data(d),
    {
        CipherData {
            uri: None,
            username: None,
            password: None,
            totp: None,
            name: None,
            notes: None,
            fields: Vec::new(),
            uris: None,
        }
    }
}

impl Cipher {
    /// Builds the API view of a stored row; `data` is the parsed payload, or
    /// `None` when the stored document did not parse, which reads as the empty
    /// payload.
    pub fn from_stored(
        id: String,
        type_field: i32,
        folder_id: Option<String>,
        favorite: i32,
        data: Option<CipherData>,
        revision_date: String,
        deleted_date: Option<String>,
    ) -> (c: Cipher)
        ensures
            c.data is Some,
            is_stored_cipher(c, id, type_field, folder_id, favorite, c.data.unwrap(), revision_date, deleted_date),
            match data {
                Some(parsed) => c.data == Some(parsed),
                None => is_empty_data(c.data.unwrap()),
            },
            c.id == id,
            c.type_field == type_field,
            c.folder_id == folder_id,
            c.favorite <==> favorite != 0,
            c.revision_date == revision_date,
            c.deleted_date == deleted_date,
            c.name == c.data.unwrap().name,
            c.notes == c.data.unwrap().notes,
            c.login is Some <==> (c.data.unwrap().uri is Some || c.data.unwrap().username is Some),
            c.login matches Some(l) ==> l.username == c.data.unwrap().username && l.password
                == c.data.unwrap().password && l.totp == c.data.unwrap().totp && l.uri == c.data.unwrap().uri
                && uris_view(l.uris) == uris_view(c.data.unwrap().uris),
            c.secure_note is Some <==> c.data.unwrap().notes is Some,
            data matches Some(parsed) ==> c.notes == parsed.notes && c.name == parsed.name,
    {
        let d = match data {
            Some(parsed) => parsed,
            None => CipherData::empty(),
        };
        let login = if d.uri.is_some() || d.username.is_some() {
            Some(Login {
                username: copy_text(&d.username),
                password: copy_text(&d.password),
                totp: copy_text(&d.totp),
                uri: copy_text(&d.uri),
                uris: copy_uris(&d.uris),
            })
        } else {
            None
        };
        let secure_note = if d.notes.is_some() {
            Some(SecureNote { type_field: 0 })
        } else {
            None
        };
        let name = copy_text(&d.name);
        let notes = copy_text(&d.notes);
        let ghost dv = d;
        let c = Cipher {
            id,
            type_field,
            folder_id,
            organization_id: None,
            favorite: favorite != 0,
            edit: true,
            data: Some(d),
            attachments: Vec::new(),
            organization_use_totp: false,
            revision_date,
            object: String::from_str("cipher"),
            collection_ids: Vec::new(),
            card: None,
            fields: Vec::new(),
            identity: None,
            login,
            name,
            notes,
            secure_note,
            deleted_date,
        };
        assert(is_stored_cipher(c, id, type_field, folder_id, favorite, dv, revision_date, deleted_date));
        c
    }
}

// ===================== Folder =====================

/// A folder of the vault.
#[derive(Debug, Clone)]
pub struct Folder {
    pub id: String,
    pub name: String,
    pub object: String,
    pub revision_date: String,
}

impl Folder {
    /// The API view of a stored folder row.
    pub fn from_stored(id: String, name: String, revision_date: String) -> (f: Folder)
        ensures
            f.id == id,
            f.name == name,
            f.revision_date == revision_date,
            f.object@ == "folder"@,
    {
        Folder { id, name, object: String::from_str("folder"), revision_date }
    }
}

// ===================== Sync =====================

/// Everything a client downloads on sync.
#[derive(Debug, Clone)]
pub struct SyncData {
    pub profile: Profile,
    pub folders: Vec<Folder>,
    pub ciphers: Vec<Cipher>,
    pub domains: Domains,
    pub object: String,
}

/// Equivalent-domain settings.
#[derive(Debug, Clone)]
pub struct Domains {
    pub equivalent_domains: Vec<String>,
    pub global_equivalent_domains: Vec<GlobalEquivalentDomain>,
    pub object: String,
}

/// A global equivalent-domain rule.
#[derive(Debug, Clone)]
pub struct GlobalEquivalentDomain {
    pub type_field: i32,
    pub domains: Vec<String>,
    pub excluded: bool,
}

// ===================== API Request/Response Types =====================

/// Body of a prelogin request.
#[derive(Debug, Clone)]
pub struct PreloginRequest {
    pub email: String,
}

/// Key-derivation parameters a client needs before logging in.
#[derive(Debug, Clone)]
pub struct PreloginResponse {
    pub kdf: i32,
    pub kdf_iterations: i32,
}

/// Body of a registration request.
#[derive(Debug, Clone)]
pub struct RegisterRequest {
    pub name: String,
    pub email: String,
    pub master_password_hash: String,
    pub master_password_hint: String,
    pub key: String,
    pub keys: KeyPair,
    pub kdf: i32,
    pub kdf_iterations: i32,
}

/// Body of a token request: a password grant (user name and password) or a
/// refresh grant (refresh token).
#[derive(Debug, Clone)]
pub struct LoginRequest {
    pub grant_type: Option<String>,
    pub username: Option<String>,
    pub password: Option<String>,
    pub refresh_token: Option<String>,
    pub device: Option<DeviceInfo>,
}

/// The device a client logs in from.
#[derive(Debug, Clone)]
pub struct DeviceInfo {
    pub device_identifier: String,
    pub device_name: String,
    pub device_type: String,
    pub push_token: Option<String>,
}

/// Answer to a successful token request.
#[derive(Debug, Clone)]
pub struct LoginResponse {
    pub access_token: String,
    pub expires_in: i64,
    pub token_type: String,
    pub refresh_token: String,
    pub key: Option<String>,
    pub private_key: Option<String>,
    pub kdf: Option<i32>,
    pub kdf_iterations: Option<i32>,
    pub kdf_memory: Option<i32>,
    pub kdf_parallelism: Option<i32>,
    pub two_factor_token: Option<String>,
    pub object: String,
}

/// Body of every error answer.
#[derive(Debug, Clone)]
pub struct ErrorResponse {
    pub error: String,
    pub error_description: String,
}

/// Body of a two-factor activation request.
#[derive(Debug, Clone)]
pub struct TwoFactorRequest {
    pub type_field: i32,
    pub token: String,
    pub remember: bool,
}

/// The enabled two-factor providers; only the authenticator app exists.
#[derive(Debug, Clone)]
pub struct TwoFactorProviders {
    pub authenticator: bool,
}

/// Two-factor status of an account.
#[derive(Debug, Clone)]
pub struct TwoFactorResponse {
    pub enabled: bool,
    pub object: String,
    pub two_factor_providers: Option<TwoFactorProviders>,
}

/// Body of a folder creation request.
#[derive(Debug, Clone)]
pub struct FolderCreateRequest {
    pub name: String,
}

/// Body of a folder rename request.
#[derive(Debug, Clone)]
pub struct FolderRenameRequest {
    pub name: String,
}

/// Body of a key-pair update request.
#[derive(Debug, Clone)]
pub struct KeysUpdateRequest {
    pub encrypted_private_key: String,
    pub public_key: String,
}

// ===================== Organizations =====================

/// An organization a user belongs to.
#[derive(Debug, Clone)]
pub struct Organization {
    pub id: String,
    pub name: String,
    pub billing_email: String,
    pub plan: String,
    pub plan_type: i32,
    pub enabled: bool,
    pub object: String,
}

impl Organization {
    /// The API view of a stored organization row; `enabled` is stored as an integer.
    pub fn from_stored(
        id: String,
        name: String,
        billing_email: String,
        plan: String,
        plan_type: i32,
        enabled: i32,
    ) -> (o: Organization)
        ensures
            o.id == id,
            o.name == name,
            o.billing_email == billing_email,
            o.plan == plan,
            o.plan_type == plan_type,
            o.enabled == (enabled != 0),
            o.object@ == "organization"@,
    {
        Organization {
            id,
            name,
            billing_email,
            plan,
            plan_type,
            enabled: enabled != 0,
            object: String::from_str("organization"),
        }
    }
}

/// A collection of an organization.
#[derive(Debug, Clone)]
pub struct Collection {
    pub id: String,
    pub name: String,
    pub organization_id: Option<String>,
    pub object: String,
}

impl Collection {
    /// The API view of a stored collection row.
    pub fn from_stored(id: String, name: String, organization_id: Option<String>) -> (c: Collection)
        ensures
            c.id == id,
            c.name == name,
            c.organization_id == organization_id,
            c.object@ == "collection"@,
    {
        Collection { id, name, organization_id, object: String::from_str("collection") }
    }
}

/// Body of an organization creation request.
#[derive(Debug, Clone)]
pub struct OrganizationCreateRequest {
    pub name: String,
    pub billing_email: String,
}

/// Body of a collection creation request.
#[derive(Debug, Clone)]
pub struct CollectionCreateRequest {
    pub name: String,
}

// ===================== Sends =====================

/// The file attached to a send.
#[derive(Debug, Clone)]
pub struct SendFile {
    pub data: String,
    pub encrypted: bool,
}

/// A shared item ("send").
#[derive(Debug, Clone)]
pub struct Send {
    pub id: String,
    pub name: String,
    pub name_encrypted: bool,
    pub text: Option<String>,
    pub text_encrypted: bool,
    pub file: Option<SendFile>,
    pub max_access_count: Option<i32>,
    pub access_count: i32,
    pub revision_date: String,
    pub expiration_date: Option<String>,
    pub deletion_date: Option<String>,
    pub password: Option<String>,
    pub disabled: bool,
    pub hide_email: bool,
    pub object: String,
}

/// Body of a send creation request.
#[derive(Debug, Clone)]
pub struct SendCreateRequest {
    pub name: String,
    pub text: Option<String>,
    pub file: Option<SendFile>,
    pub max_access_count: Option<i32>,
    pub expiration_date: Option<String>,
    pub deletion_date: Option<String>,
    pub password: Option<String>,
    pub disabled: bool,
    pub hide_email: bool,
}

/// The integer flags of a stored send row.
#[derive(Debug, Clone, Copy)]
pub struct SendFlags {
    pub name_encrypted: i32,
    pub text_encrypted: i32,
    pub file_encrypted: i32,
    pub disabled: i32,
    pub hide_email: i32,
}

/// The dates of a stored send row.
#[derive(Debug, Clone)]
pub struct SendDates {
    pub revision_date: String,
    pub expiration_date: Option<String>,
    pub deletion_date: Option<String>,
}

impl Send {
    /// The API view of a stored send row: each integer flag is true when
    /// non-zero, and a file is present exactly when file data is stored.
    pub fn from_stored(
        id: String,
        name: String,
        text: Option<String>,
        file_data: Option<String>,
        max_access_count: Option<i32>,
        access_count: i32,
        dates: SendDates,
        password: Option<String>,
        flags: SendFlags,
    ) -> (s: Send)
        ensures
            s.id == id,
            s.name == name,
            s.name_encrypted == (flags.name_encrypted != 0),
            s.text == text,
            s.text_encrypted == (flags.text_encrypted != 0),
            s.file is Some <==> file_data is Some,
            s.file matches Some(f) ==> Some(f.data) == file_data && f.encrypted == (flags.file_encrypted != 0),
            s.max_access_count == max_access_count,
            s.access_count == access_count,
            s.revision_date == dates.revision_date,
            s.expiration_date == dates.expiration_date,
            s.deletion_date == dates.deletion_date,
            s.password == password,
            s.disabled == (flags.disabled != 0),
            s.hide_email == (flags.hide_email != 0),
            s.object@ == "send"@,
    {
        let file = match file_data {
            Some(data) => Some(SendFile { data, encrypted: flags.file_encrypted != 0 }),
            None => None,
        };
        Send {
            id,
            name,
            name_encrypted: flags.name_encrypted != 0,
            text,
            text_encrypted: flags.text_encrypted != 0,
            file,
            max_access_count,
            access_count,
            revision_date: dates.revision_date,
            expiration_date: dates.expiration_date,
            deletion_date: dates.deletion_date,
            password,
            disabled: flags.disabled != 0,
            hide_email: flags.hide_email != 0,
            object: String::from_str("send"),
        }
    }

    /// The send described by a creation request, before it is stored: no id,
    /// no revision date, nothing accessed yet, name and text marked encrypted.
    pub fn from_request(req: SendCreateRequest) -> (s: Send)
        ensures
            s.id@.len() == 0,
            s.name == req.name,
            s.name_encrypted,
            s.text == req.text,
            s.text_encrypted,
            s.file == req.file,
            s.max_access_count == req.max_access_count,
            s.access_count == 0,
            s.revision_date@.len() == 0,
            s.expiration_date == req.expiration_date,
            s.deletion_date == req.deletion_date,
            s.password == req.password,
            s.disabled == req.disabled,
            s.hide_email == req.hide_email,
            s.object@ == "send"@,
    {
        Send {
            id: String::new(),
            name: req.name,
            name_encrypted: true,
            text: req.text,
            text_encrypted: true,
            file: req.file,
            max_access_count: req.max_access_count,
            access_count: 0,
            revision_date: String::new(),
            expiration_date: req.expiration_date,
            deletion_date: req.deletion_date,
            password: req.password,
            disabled: req.disabled,
            hide_email: req.hide_email,
            object: String::from_str("send"),
        }
    }
}

} // verus!
