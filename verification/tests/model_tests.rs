use bitwarden_rs::api::{
    account_lookup, cipher_lookup, cipher_purge_outcome, cipher_restore_outcome, cipher_trash_outcome,
    cipher_update_outcome, created_cipher_read_back, created_send, creation_outcome, db_error,
    folder_delete_outcome, folder_rename_outcome, import_outcome, keys_update_outcome, removal_outcome,
    restored_cipher_read_back, send_access_refused, send_lookup, storage_error, sync_data,
    updated_cipher_read_back, with_db_error, with_storage_error, DbError,
};
use bitwarden_rs::models::{
    Account, Cipher, CipherData, Collection, Folder, KeyPair, Organization, Profile, Send, SendCreateRequest,
    SendDates, SendFile, SendFlags, Uri,
};

fn account() -> Account {
    Account {
        id: "u1".to_string(),
        name: "".to_string(),
        email: "a@b.c".to_string(),
        master_password_hash: "H".to_string(),
        master_password_hint: "my hint".to_string(),
        key: "K".to_string(),
        keys: KeyPair { encrypted_private_key: "PRIV".to_string(), public_key: "PUB".to_string() },
        refresh_token: "RT".to_string(),
        two_factor_secret: "".to_string(),
        security_stamp: "S".to_string(),
        kdf: 0,
        kdf_iterations: 600_000,
    }
}

fn db_err(m: &str) -> DbError {
    DbError { message: m.to_string() }
}

fn data(uri: Option<&str>, username: Option<&str>, notes: Option<&str>) -> CipherData {
    CipherData {
        uri: uri.map(str::to_string),
        username: username.map(str::to_string),
        password: Some("pw".to_string()),
        totp: None,
        name: Some("item".to_string()),
        notes: notes.map(str::to_string),
        fields: vec![],
        uris: Some(vec![Uri { uri: Some("https://x".to_string()), match_type: Some(1) }]),
    }
}

fn cipher(id: &str) -> Cipher {
    Cipher::from_stored(id.to_string(), 1, None, 0, None, "2024".to_string(), None)
}

#[test]
fn profile_from_account() {
    let p = Profile::from_account(account());
    assert_eq!(p.id, "u1");
    assert!(p.name.is_none());
    assert_eq!(p.email, "a@b.c");
    assert!(!p.email_verified && !p.premium && !p.two_factor_enabled);
    assert_eq!(p.culture, "en-US");
    assert_eq!(p.private_key, "PRIV");
    assert!(p.security_stamp.is_none() && p.organizations.is_empty());
    assert_eq!(p.object, "profile");
    assert_eq!(p.master_password_hint.as_deref(), Some("my hint"));
}

#[test]
fn stored_cipher_with_login_and_notes() {
    let c = Cipher::from_stored(
        "c1".to_string(), 1, Some("f1".to_string()), 1,
        Some(data(Some("https://x"), None, Some("note"))),
        "2024-01-01T00:00:00.000Z".to_string(), Some("2024-02-01".to_string()),
    );
    assert_eq!(c.id, "c1");
    assert_eq!(c.folder_id.as_deref(), Some("f1"));
    assert!(c.favorite && c.edit);
    assert_eq!(c.object, "cipher");
    let login = c.login.unwrap();
    assert_eq!(login.uri.as_deref(), Some("https://x"));
    assert_eq!(login.password.as_deref(), Some("pw"));
    assert_eq!(login.uris.unwrap()[0].match_type, Some(1));
    assert_eq!(c.name.as_deref(), Some("item"));
    assert_eq!(c.secure_note.unwrap().type_field, 0);
    assert_eq!(c.deleted_date.as_deref(), Some("2024-02-01"));
}

#[test]
fn stored_cipher_without_login() {
    let c = Cipher::from_stored("c2".to_string(), 2, None, 0, Some(data(None, None, None)), "r".to_string(), None);
    assert!(c.login.is_none() && c.secure_note.is_none() && !c.favorite);
    let c = Cipher::from_stored("c3".to_string(), 1, None, 0, Some(data(None, Some("bob"), None)), "r".to_string(), None);
    assert_eq!(c.login.unwrap().username.as_deref(), Some("bob"));
}

#[test]
fn unparsable_payload_reads_as_empty() {
    let c = cipher("c4");
    let d = c.data.unwrap();
    assert!(d.uri.is_none() && d.name.is_none() && d.uris.is_none() && d.fields.is_empty());
    assert!(c.login.is_none() && c.name.is_none());
}

#[test]
fn stored_rows_of_other_objects() {
    let f = Folder::from_stored("f".to_string(), "Work".to_string(), "d".to_string());
    assert_eq!((f.name.as_str(), f.object.as_str()), ("Work", "folder"));
    let o = Organization::from_stored("o".to_string(), "Org".to_string(), "b@c".to_string(), "TeamsStarter".to_string(), 2, 1);
    assert!(o.enabled);
    assert_eq!(o.object, "organization");
    let o = Organization::from_stored("o".to_string(), "Org".to_string(), "b@c".to_string(), "P".to_string(), 2, 0);
    assert!(!o.enabled);
    let c = Collection::from_stored("c".to_string(), "Col".to_string(), Some("o".to_string()));
    assert_eq!(c.object, "collection");
}

#[test]
fn stored_send_and_requested_send() {
    let flags = SendFlags { name_encrypted: 1, text_encrypted: 0, file_encrypted: 1, disabled: 0, hide_email: 2 };
    let dates = SendDates { revision_date: "r".to_string(), expiration_date: None, deletion_date: Some("d".to_string()) };
    let s = Send::from_stored("s".to_string(), "n".to_string(), None, Some("blob".to_string()), Some(3), 1, dates, None, flags);
    assert!(s.name_encrypted && !s.text_encrypted && !s.disabled && s.hide_email);
    let f = s.file.unwrap();
    assert_eq!(f.data, "blob");
    assert!(f.encrypted);
    assert_eq!(s.object, "send");
    let req = SendCreateRequest {
        name: "n".to_string(), text: Some("t".to_string()), file: Some(SendFile { data: "x".to_string(), encrypted: false }),
        max_access_count: Some(5), expiration_date: None, deletion_date: None, password: None, disabled: true, hide_email: false,
    };
    let s = Send::from_request(req);
    assert_eq!(s.id, "");
    assert!(s.name_encrypted && s.text_encrypted && s.disabled);
    assert_eq!(s.access_count, 0);
    assert_eq!(s.max_access_count, Some(5));
}

#[test]
fn store_failures_answer_500() {
    let e = db_error(db_err("disk I/O error"));
    assert_eq!((e.status, e.body.error.as_str(), e.body.error_description.as_str()), (500, "db_error", "Database error: disk I/O error"));
    assert!(with_db_error::<u8>(Ok(3)).is_ok());
    assert_eq!(with_db_error::<u8>(Err(db_err("x"))).unwrap_err().body.error_description, "Database error: x");
    let e = storage_error(db_err("y"));
    assert_eq!((e.status, e.body.error.as_str(), e.body.error_description.as_str()), (500, "database_error", "y"));
    assert_eq!(with_storage_error::<u8>(Err(db_err("z"))).unwrap_err().body.error, "database_error");
    let e = import_outcome(Err(db_err("q"))).unwrap_err();
    assert_eq!(e.body.error_description, "Import error: q");
    assert_eq!(import_outcome(Ok(4)).unwrap(), 4);
}

#[test]
fn lookups_and_read_backs() {
    assert_eq!(cipher_lookup(Ok(Some(cipher("a")))).unwrap().id, "a");
    let e = cipher_lookup(Ok(None)).unwrap_err();
    assert_eq!((e.status, e.body.error.as_str(), e.body.error_description.as_str()), (404, "not_found", "Cipher not found"));
    assert_eq!(account_lookup(Ok(None)).unwrap_err().body.error_description, "Account not found");
    let e = created_cipher_read_back(Err(db_err("x"))).unwrap_err();
    assert_eq!((e.status, e.body.error_description.as_str()), (500, "Failed to read back cipher"));
    assert_eq!(created_cipher_read_back(Ok(None)).unwrap_err().body.error_description, "Created cipher not found");
    assert_eq!(updated_cipher_read_back(Ok(None)).unwrap_err().body.error_description, "Updated cipher not found");
    assert_eq!(updated_cipher_read_back(Err(db_err("x"))).unwrap_err().body.error_description, "Failed to read updated cipher");
    assert_eq!(restored_cipher_read_back(Ok(None)).unwrap_err().body.error_description, "Restored cipher not found");
    assert_eq!(restored_cipher_read_back(Ok(Some(cipher("r")))).unwrap().id, "r");
}

#[test]
fn single_row_writes() {
    assert_eq!(cipher_update_outcome(Ok(true)).unwrap(), 200);
    assert_eq!(cipher_update_outcome(Ok(false)).unwrap_err().body.error_description, "Cipher not found");
    assert_eq!(cipher_trash_outcome(Ok(true)).unwrap(), 200);
    assert_eq!(cipher_restore_outcome(Ok(false)).unwrap_err().body.error_description, "Cipher not found in trash");
    assert_eq!(cipher_purge_outcome(Ok(true)).unwrap(), 204);
    assert_eq!(cipher_purge_outcome(Ok(false)).unwrap_err().status, 404);
    assert_eq!(folder_rename_outcome(Ok(false)).unwrap_err().body.error_description, "Folder not found");
    assert_eq!(folder_delete_outcome(Ok(true)).unwrap(), 200);
    assert_eq!(folder_delete_outcome(Err(db_err("e"))).unwrap_err().status, 500);
    assert_eq!(creation_outcome(Ok("id9".to_string())).unwrap(), (201, "id9".to_string()));
    assert_eq!(keys_update_outcome(Ok(())).unwrap(), 200);
    assert_eq!(removal_outcome(Ok(false)).unwrap(), 204);
    assert_eq!(removal_outcome(Err(db_err("m"))).unwrap_err().body.error, "database_error");
}

#[test]
fn sends_outcomes() {
    let e = send_lookup(Ok(None)).unwrap_err();
    assert_eq!((e.status, e.body.error_description.as_str()), (404, "Send not found"));
    assert_eq!(send_lookup(Err(db_err("w"))).unwrap_err().body.error, "database_error");
    let e = send_access_refused();
    assert_eq!((e.status, e.body.error_description.as_str()), (404, "Send not found or has expired"));
    let req = SendCreateRequest {
        name: "asked".to_string(), text: None, file: None, max_access_count: None, expiration_date: None,
        deletion_date: None, password: None, disabled: false, hide_email: false,
    };
    let fallback = Send::from_request(req);
    assert_eq!(created_send(Err(db_err("x")), fallback).name, "asked");
}

#[test]
fn sync_collects_account_items() {
    let d = sync_data(account(), Ok(vec![cipher("a"), cipher("b")]), Err(db_err("x")));
    assert_eq!(d.profile.id, "u1");
    assert_eq!(d.ciphers.len(), 2);
    assert!(d.folders.is_empty());
    assert_eq!(d.domains.object, "domains");
    assert_eq!(d.object, "sync");
}
