use vstd::prelude::*;
use crate::models::{Account, Cipher, Domains, ErrorResponse, Folder, Profile, Send, SyncData, is_profile_of};
use crate::text::join;

verus! {

/// HTTP status: OK.
pub const STATUS_OK: u16 = 200;
/// HTTP status: Created.
pub const STATUS_CREATED: u16 = 201;
/// HTTP status: No Content.
pub const STATUS_NO_CONTENT: u16 = 204;
/// HTTP status: Bad Request.
pub const STATUS_BAD_REQUEST: u16 = 400;
/// HTTP status: Unauthorized.
pub const STATUS_UNAUTHORIZED: u16 = 401;
/// HTTP status: Not Found.
pub const STATUS_NOT_FOUND: u16 = 404;
/// HTTP status: Conflict.
pub const STATUS_CONFLICT: u16 = 409;
/// HTTP status: Internal Server Error.
pub const STATUS_INTERNAL_SERVER_ERROR: u16 = 500;

/// A failure reported by the store, with its message.
#[derive(Debug, Clone)]
pub struct DbError {
    pub message: String,
}

/// An error answer: its status and body.
#[derive(Debug, Clone)]
pub struct ApiError {
    pub status: u16,
    pub body: ErrorResponse,
}

/// `e` answers `status` with error code `code` and description `description`.
pub open spec fn is_api_error(e: ApiError, status: u16, code: Seq<char>, description: Seq<char>) -> bool {
    &&& e.status == status
    &&& e.body.error@ == code
    &&& e.body.error_description@ == description
}

/// An error answer's status, code and description are the given ones.
pub proof fn law_api_error(e: ApiError, status: u16, code: Seq<char>, description: Seq<char>)
    requires
        is_api_error(e, status, code, description),
    ensures
        e.status == status,
        e.body.error@ == code,
        e.body.error_description@ == description,
{
}

/// Builds an error answer.
pub fn api_error(status: u16, code: &str, description: String) -> (e: ApiError)
    ensures
        e.status == status,
        e.body.error@ == code@,
        e.body.error_description == description,
{
    ApiError {
        status,
        body: ErrorResponse { error: String::from_str(code), error_description: description },
    }
}

// ===================== Store failures =====================

/// The answer to a store failure in the vault endpoints: 500 `db_error`,
/// "Database error: " and the store's message.
pub fn db_error(e: DbError) -> (r: ApiError)
    ensures
        is_api_error(r, 500, "db_error"@, "Database error: "@ + e.message@),
{
    api_error(STATUS_INTERNAL_SERVER_ERROR, "db_error", join("Database error: ", e.message.as_str()))
}

/// Passes a store result through, answering a failure with `db_error`.
pub fn with_db_error<T>(r: Result<T, DbError>) -> (out: Result<T, ApiError>)
    ensures
        match r {
            Ok(v) => out == Ok::<T, ApiError>(v),
            Err(e) => out matches Err(a) && is_api_error(a, 500, "db_error"@, "Database error: "@ + e.message@),
        },
{
    match r {
        Ok(v) => Ok(v),
        Err(e) => Err(db_error(e)),
    }
}

/// The answer to a store failure in the organization and send endpoints:
/// 500 `database_error` with the store's message.
pub fn storage_error(e: DbError) -> (r: ApiError)
    ensures
        is_api_error(r, 500, "database_error"@, e.message@),
{
    api_error(STATUS_INTERNAL_SERVER_ERROR, "database_error", e.message)
}

/// Passes a store result through, answering a failure with `storage_error`.
pub fn with_storage_error<T>(r: Result<T, DbError>) -> (out: Result<T, ApiError>)
    ensures
        match r {
            Ok(v) => out == Ok::<T, ApiError>(v),
            Err(e) => out matches Err(a) && is_api_error(a, 500, "database_error"@, e.message@),
        },
{
    match r {
        Ok(v) => Ok(v),
        Err(e) => Err(storage_error(e)),
    }
}

/// The answer for a missing object: 404 `not_found` with `description`.
pub fn not_found(description: &str) -> (r: ApiError)
    ensures
        is_api_error(r, 404, "not_found"@, description@),
{
    api_error(STATUS_NOT_FOUND, "not_found", String::from_str(description))
}

// ===================== Lookups =====================

/// The outcome of a lookup: the object, 404 when absent, `db_error` on failure.
pub open spec fn is_lookup_outcome<T>(r: Result<Option<T>, DbError>, out: Result<T, ApiError>, missing: Seq<char>) -> bool {
    match r {
        Ok(Some(v)) => out == Ok::<T, ApiError>(v),
        Ok(None) => out matches Err(a) && is_api_error(a, 404, "not_found"@, missing),
        Err(e) => out matches Err(a) && is_api_error(a, 500, "db_error"@, "Database error: "@ + e.message@),
    }
}

/// A lookup gives the found object; a missing one is 404 with the given text;
/// a failure is 500 with the store's message.
pub proof fn law_lookup_outcome<T>(r: Result<Option<T>, DbError>, out: Result<T, ApiError>, missing: Seq<char>)
    requires
        is_lookup_outcome(r, out, missing),
    ensures
        r matches Ok(Some(v)) ==> out == Ok::<T, ApiError>(v),
        r matches Ok(None) ==> out is Err && out->Err_0.status == 404 && out->Err_0.body.error_description@ == missing,
        r matches Err(e) ==> out is Err && out->Err_0.status == 500 && out->Err_0.body.error_description@
            == "Database error: "@ + e.message@,
{
}

fn lookup<T>(r: Result<Option<T>, DbError>, missing: &str) -> (out: Result<T, ApiError>)
    ensures
        is_lookup_outcome(r, out, missing@),
{
    match r {
        Ok(Some(v)) => Ok(v),
        Ok(None) => Err(not_found(missing)),
        Err(e) => Err(db_error(e)),
    }
}

/// The outcome of reading a cipher by id for its owner.
pub fn cipher_lookup(r: Result<Option<Cipher>, DbError>) -> (out: Result<Cipher, ApiError>)
    ensures
        is_lookup_outcome(r, out, "Cipher not found"@),
{
    lookup(r, "Cipher not found")
}

/// The outcome of reading the authenticated account.
pub fn account_lookup(r: Result<Option<Account>, DbError>) -> (out: Result<Account, ApiError>)
    ensures
        is_lookup_outcome(r, out, "Account not found"@),
{
    lookup(r, "Account not found")
}

/// The outcome of reading back a cipher after a write: the cipher; 500
/// `db_error` with `read_failed` when the read fails; 404 with `missing` when
/// it is gone.
pub open spec fn is_read_back_outcome(
    r: Result<Option<Cipher>, DbError>,
    out: Result<Cipher, ApiError>,
    read_failed: Seq<char>,
    missing: Seq<char>,
) -> bool {
    match r {
        Ok(Some(v)) => out == Ok::<Cipher, ApiError>(v),
        Ok(None) => out matches Err(a) && is_api_error(a, 404, "not_found"@, missing),
        Err(_) => out matches Err(a) && is_api_error(a, 500, "db_error"@, read_failed),
    }
}

/// A read-back gives the cipher found; a missing one is 404 and a failed read
/// 500, each with its own text.
pub proof fn law_read_back_outcome(r: Result<Option<Cipher>, DbError>, out: Result<Cipher, ApiError>, read_failed: Seq<char>, missing: Seq<char>)
    requires
        is_read_back_outcome(r, out, read_failed, missing),
    ensures
        r matches Ok(Some(v)) ==> out == Ok::<Cipher, ApiError>(v),
        r matches Ok(None) ==> out is Err && out->Err_0.status == 404 && out->Err_0.body.error_description@ == missing,
        r is Err ==> out is Err && out->Err_0.status == 500 && out->Err_0.body.error_description@ == read_failed,
{
}

fn read_back(r: Result<Option<Cipher>, DbError>, read_failed: &str, missing: &str) -> (out: Result<Cipher, ApiError>)
    ensures
        is_read_back_outcome(r, out, read_failed@, missing@),
{
    match r {
        Ok(Some(v)) => Ok(v),
        Ok(None) => Err(not_found(missing)),
        Err(_) => Err(api_error(STATUS_INTERNAL_SERVER_ERROR, "db_error", String::from_str(read_failed))),
    }
}

/// Reading back a cipher just created.
pub fn created_cipher_read_back(r: Result<Option<Cipher>, DbError>) -> (out: Result<Cipher, ApiError>)
    ensures
        is_read_back_outcome(r, out, "Failed to read back cipher"@, "Created cipher not found"@),
{
    read_back(r, "Failed to read back cipher", "Created cipher not found")
}

/// Reading back a cipher just updated.
pub fn updated_cipher_read_back(r: Result<Option<Cipher>, DbError>) -> (out: Result<Cipher, ApiError>)
    ensures
        is_read_back_outcome(r, out, "Failed to read updated cipher"@, "Updated cipher not found"@),
{
    read_back(r, "Failed to read updated cipher", "Updated cipher not found")
}

/// Reading back a cipher just restored from the trash.
pub fn restored_cipher_read_back(r: Result<Option<Cipher>, DbError>) -> (out: Result<Cipher, ApiError>)
    ensures
        is_read_back_outcome(r, out, "Failed to read restored cipher"@, "Restored cipher not found"@),
{
    read_back(r, "Failed to read restored cipher", "Restored cipher not found")
}

// ===================== Writes that touch one row =====================

/// The outcome of a write addressed to one row: `success` when a row changed,
/// 404 with `missing` when none did, `db_error` on failure.
pub open spec fn is_change_outcome(r: Result<bool, DbError>, out: Result<u16, ApiError>, success: u16, missing: Seq<char>) -> bool {
    match r {
        Ok(true) => out == Ok::<u16, ApiError>(success),
        Ok(false) => out matches Err(a) && is_api_error(a, 404, "not_found"@, missing),
        Err(e) => out matches Err(a) && is_api_error(a, 500, "db_error"@, "Database error: "@ + e.message@),
    }
}

/// A one-row write succeeds with its status exactly when a row changed; no
/// row is 404, a failure 500.
pub proof fn law_change_outcome(r: Result<bool, DbError>, out: Result<u16, ApiError>, success: u16, missing: Seq<char>)
    requires
        is_change_outcome(r, out, success, missing),
    ensures
        out is Ok <==> r == Ok::<bool, DbError>(true),
        out is Ok ==> out->Ok_0 == success,
        r == Ok::<bool, DbError>(false) ==> out->Err_0.status == 404 && out->Err_0.body.error_description@ == missing,
        r is Err ==> out->Err_0.status == 500,
{
}

fn change(r: Result<bool, DbError>, success: u16, missing: &str) -> (out: Result<u16, ApiError>)
    ensures
        is_change_outcome(r, out, success, missing@),
{
    match r {
        Ok(true) => Ok(success),
        Ok(false) => Err(not_found(missing)),
        Err(e) => Err(db_error(e)),
    }
}

/// Updating a cipher; on success its new state is read back.
pub fn cipher_update_outcome(r: Result<bool, DbError>) -> (out: Result<u16, ApiError>)
    ensures
        is_change_outcome(r, out, 200, "Cipher not found"@),
{
    change(r, STATUS_OK, "Cipher not found")
}

/// Moving a cipher to the trash.
pub fn cipher_trash_outcome(r: Result<bool, DbError>) -> (out: Result<u16, ApiError>)
    ensures
        is_change_outcome(r, out, 200, "Cipher not found"@),
{
    change(r, STATUS_OK, "Cipher not found")
}

/// Restoring a cipher from the trash; on success it is read back.
pub fn cipher_restore_outcome(r: Result<bool, DbError>) -> (out: Result<u16, ApiError>)
    ensures
        is_change_outcome(r, out, 200, "Cipher not found in trash"@),
{
    change(r, STATUS_OK, "Cipher not found in trash")
}

/// Deleting a cipher for good.
pub fn cipher_purge_outcome(r: Result<bool, DbError>) -> (out: Result<u16, ApiError>)
    ensures
        is_change_outcome(r, out, 204, "Cipher not found in trash"@),
{
    change(r, STATUS_NO_CONTENT, "Cipher not found in trash")
}

/// Renaming a folder.
pub fn folder_rename_outcome(r: Result<bool, DbError>) -> (out: Result<u16, ApiError>)
    ensures
        is_change_outcome(r, out, 200, "Folder not found"@),
{
    change(r, STATUS_OK, "Folder not found")
}

/// Deleting a folder.
pub fn folder_delete_outcome(r: Result<bool, DbError>) -> (out: Result<u16, ApiError>)
    ensures
        is_change_outcome(r, out, 200, "Folder not found"@),
{
    change(r, STATUS_OK, "Folder not found")
}

/// Creating a cipher or a folder: the new id with 201, `db_error` on failure.
pub fn creation_outcome(r: Result<String, DbError>) -> (out: Result<(u16, String), ApiError>)
    ensures
        match r {
            Ok(id) => out == Ok::<(u16, String), ApiError>((201, id)),
            Err(e) => out matches Err(a) && is_api_error(a, 500, "db_error"@, "Database error: "@ + e.message@),
        },
{
    match r {
        Ok(id) => Ok((STATUS_CREATED, id)),
        Err(e) => Err(db_error(e)),
    }
}

/// Replacing the account's key pair: 200, `db_error` on failure.
pub fn keys_update_outcome(r: Result<(), DbError>) -> (out: Result<u16, ApiError>)
    ensures
        match r {
            Ok(_) => out == Ok::<u16, ApiError>(200),
            Err(e) => out matches Err(a) && is_api_error(a, 500, "db_error"@, "Database error: "@ + e.message@),
        },
{
    match r {
        Ok(_) => Ok(STATUS_OK),
        Err(e) => Err(db_error(e)),
    }
}

/// Importing ciphers: the number imported, or 500 `db_error` with
/// "Import error: " and the store's message.
pub fn import_outcome(r: Result<usize, DbError>) -> (out: Result<usize, ApiError>)
    ensures
        match r {
            Ok(n) => out == Ok::<usize, ApiError>(n),
            Err(e) => out matches Err(a) && is_api_error(a, 500, "db_error"@, "Import error: "@ + e.message@),
        },
{
    match r {
        Ok(n) => Ok(n),
        Err(e) => Err(api_error(STATUS_INTERNAL_SERVER_ERROR, "db_error", join("Import error: ", e.message.as_str()))),
    }
}

// ===================== Sync =====================

/// `d` is the sync answer for `acc` with the given ciphers and folders.
pub open spec fn is_sync_of(d: SyncData, acc: Account, ciphers: Seq<Cipher>, folders: Seq<Folder>) -> bool {
    &&& is_profile_of(d.profile, acc)
    &&& d.ciphers@ == ciphers
    &&& d.folders@ == folders
    &&& d.domains.equivalent_domains@.len() == 0
    &&& d.domains.global_equivalent_domains@.len() == 0
    &&& d.domains.object@ == "domains"@
    &&& d.object@ == "sync"@
}

/// The items of a listing, or none when the listing failed.
pub open spec fn listed<T>(r: Result<Vec<T>, DbError>) -> Seq<T> {
    match r {
        Ok(v) => v@,
        Err(_) => Seq::empty(),
    }
}

/// A sync answer carries exactly the listed ciphers and folders and the
/// account's own profile.
pub proof fn law_sync_carries_listings(d: SyncData, acc: Account, ciphers: Result<Vec<Cipher>, DbError>, folders: Result<Vec<Folder>, DbError>)
    requires
        is_sync_of(d, acc, listed(ciphers), listed(folders)),
    ensures
        ciphers matches Ok(v) ==> d.ciphers@ == v@,
        ciphers is Err ==> d.ciphers@.len() == 0,
        folders matches Ok(v) ==> d.folders@ == v@,
        folders is Err ==> d.folders@.len() == 0,
        is_profile_of(d.profile, acc),
        d.object@ == "sync"@,
{
}

fn items_or_none<T>(r: Result<Vec<T>, DbError>) -> (v: Vec<T>)
    ensures
        v@ == listed(r),
{
    match r {
        Ok(v) => v,
        Err(_) => Vec::new(),
    }
}

/// Everything a client downloads on sync: the account's profile, its ciphers
/// outside the trash and its folders. A failed listing counts as empty.
pub fn sync_data(account: Account, ciphers: Result<Vec<Cipher>, DbError>, folders: Result<Vec<Folder>, DbError>) -> (d: SyncData)
    ensures
        is_sync_of(d, account, listed(ciphers), listed(folders)),
        ciphers matches Ok(v) ==> d.ciphers@ == v@,
        ciphers is Err ==> d.ciphers@.len() == 0,
        folders matches Ok(v) ==> d.folders@ == v@,
        folders is Err ==> d.folders@.len() == 0,
        d.profile.id == account.id,
        d.profile.key == account.key,
        d.profile.private_key == account.keys.encrypted_private_key,
{
    SyncData {
        profile: Profile::from_account(account),
        folders: items_or_none(folders),
        ciphers: items_or_none(ciphers),
        domains: Domains {
            equivalent_domains: Vec::new(),
            global_equivalent_domains: Vec::new(),
            object: String::from_str("domains"),
        },
        object: String::from_str("sync"),
    }
}

// ===================== Organizations and sends =====================

/// Deleting a collection or a send: 204 whether or not a row existed,
/// `database_error` on failure.
pub fn removal_outcome(r: Result<bool, DbError>) -> (out: Result<u16, ApiError>)
    ensures
        match r {
            Ok(_) => out == Ok::<u16, ApiError>(204),
            Err(e) => out matches Err(a) && is_api_error(a, 500, "database_error"@, e.message@),
        },
{
    match r {
        Ok(_) => Ok(STATUS_NO_CONTENT),
        Err(e) => Err(storage_error(e)),
    }
}

/// Reading a send by id for its owner: the send, 404 "Send not found", or
/// `database_error` on failure.
pub fn send_lookup(r: Result<Option<Send>, DbError>) -> (out: Result<Send, ApiError>)
    ensures
        match r {
            Ok(Some(s)) => out == Ok::<Send, ApiError>(s),
            Ok(None) => out matches Err(a) && is_api_error(a, 404, "not_found"@, "Send not found"@),
            Err(e) => out matches Err(a) && is_api_error(a, 500, "database_error"@, e.message@),
        },
{
    match r {
        Ok(Some(s)) => Ok(s),
        Ok(None) => Err(not_found("Send not found")),
        Err(e) => Err(storage_error(e)),
    }
}

/// The send reported after creation: the stored one when it reads back, the
/// requested one otherwise.
pub fn created_send(stored: Result<Option<Send>, DbError>, requested: Send) -> (s: Send)
    ensures
        s == (match stored {
            Ok(Some(found)) => found,
            _ => requested,
        }),
{
    match stored {
        Ok(Some(found)) => found,
        _ => requested,
    }
}

/// Public access to a send is not offered: always 404.
pub fn send_access_refused() -> (r: ApiError)
    ensures
        is_api_error(r, 404, "not_found"@, "Send not found or has expired"@),
{
    not_found("Send not found or has expired")
}

} // verus!
