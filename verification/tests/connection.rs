use cpa_route_control::connection::{
    connection_for_request, credential_deletion_outcome, credential_save_outcome,
    current_management_key, disconnect_cpa, manual_connection, store_connection, Connection,
    CredentialDeletion, CredentialSave,
};

fn conn(delete: bool) -> Connection {
    Connection {
        base_url: "http://h".into(),
        management_key: "k".into(),
        delete_saved_credential_on_disconnect: delete,
    }
}

#[test]
fn key_lookup_follows_store_and_disconnect() {
    let mut slot = None;
    assert_eq!(current_management_key(&slot).unwrap_err(), "请先连接 CPA");
    store_connection(&mut slot, conn(true));
    assert_eq!(current_management_key(&slot).unwrap(), "k");
    assert_eq!(disconnect_cpa(&mut slot), Some("http://h".to_string()));
    assert!(slot.is_none());
    assert_eq!(current_management_key(&slot).unwrap_err(), "请先连接 CPA");
    assert_eq!(disconnect_cpa(&mut slot), None);
}

#[test]
fn startup_connection_keeps_saved_key() {
    let mut slot = Some(conn(false));
    assert_eq!(disconnect_cpa(&mut slot), None);
    assert!(slot.is_none());
}

#[test]
fn request_needs_connection() {
    assert_eq!(connection_for_request(&None).err().unwrap(), "请先连接 CPA");
    let c = connection_for_request(&Some(conn(true))).unwrap();
    assert_eq!(c.base_url, "http://h");
    assert_eq!(c.management_key, "k");
}

#[test]
fn manual_login() {
    let c = manual_connection(" http://h:8317/v0/management/ ", " key ").unwrap();
    assert_eq!(c.base_url, "http://h:8317/v0/management");
    assert_eq!(c.management_key, "key");
    assert!(c.delete_saved_credential_on_disconnect);
    assert_eq!(manual_connection("http://h", "  ").err().unwrap(), "CPA Management URL 和明文管理密钥不能为空");
    assert_eq!(manual_connection("", "k").err().unwrap(), "CPA_MANAGEMENT_URL 不能为空");
}

#[test]
fn credential_store_outcomes() {
    assert!(credential_save_outcome(CredentialSave::Saved).is_ok());
    assert_eq!(
        credential_save_outcome(CredentialSave::SaveFailed("denied".into())).unwrap_err(),
        "保存 CPA 密钥失败: denied"
    );
    assert_eq!(
        credential_save_outcome(CredentialSave::EntryFailed("bad".into())).unwrap_err(),
        "Windows Credential Manager error: bad"
    );
    assert!(credential_deletion_outcome(CredentialDeletion::Deleted).is_ok());
    assert!(credential_deletion_outcome(CredentialDeletion::NoEntry).is_ok());
    assert_eq!(
        credential_deletion_outcome(CredentialDeletion::DeleteFailed("x".into())).unwrap_err(),
        "删除 CPA 凭据失败: x"
    );
    assert_eq!(
        credential_deletion_outcome(CredentialDeletion::EntryFailed("y".into())).unwrap_err(),
        "Windows Credential Manager error: y"
    );
}
