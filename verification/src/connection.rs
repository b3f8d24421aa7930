//! The current connection: logging in by hand, looking up the key, and
//! disconnecting.
use vstd::prelude::*;

use crate::base_url::{normalize_base_url, normalized_base_url};
use crate::messages::{
    credential_delete_error_message, credential_delete_error_prefix,
    credential_save_error_message, credential_save_error_prefix,
    credential_store_error_message, credential_store_error_prefix, manual_login_blank_message,
    manual_login_blank_text, not_connected_message, not_connected_text,
};
use crate::text::{trim_whitespace, trim_ws};

verus! {

/// The connection the client talks through.
pub struct Connection {
    pub base_url: String,
    pub management_key: String,
    /// Whether disconnecting also deletes the key saved for `base_url`.
    pub delete_saved_credential_on_disconnect: bool,
}

impl Clone for Connection {
    fn clone(&self) -> (res: Self)
        ensures
            res == *self,
    {
        Connection {
            base_url: self.base_url.clone(),
            management_key: self.management_key.clone(),
            delete_saved_credential_on_disconnect: self.delete_saved_credential_on_disconnect,
        }
    }
}

/// What a lookup of the management key in the connection slot gives.
pub open spec fn management_key_lookup(slot: Option<Connection>) -> Result<Seq<char>, Seq<char>> {
    match slot {
        Some(c) => Ok(c.management_key@),
        None => Err(not_connected_text()),
    }
}

/// The management key of the current connection, or an error when there is none.
pub fn current_management_key(connection: &Option<Connection>) -> (res: Result<String, String>)
    ensures
        match res {
            Ok(k) => management_key_lookup(*connection) == Ok::<Seq<char>, Seq<char>>(k@),
            Err(m) => management_key_lookup(*connection) == Err::<Seq<char>, Seq<char>>(m@),
        },
{
    match connection {
        Some(c) => Ok(c.management_key.clone()),
        None => Err(not_connected_message()),
    }
}

/// A copy of the current connection for a request, or an error when there is none.
pub fn connection_for_request(connection: &Option<Connection>) -> (res: Result<
    Connection,
    String,
>)
    ensures
        match *connection {
            Some(c) => res == Ok::<Connection, String>(c),
            None => res matches Err(m) && m@ == not_connected_text(),
        },
{
    match connection {
        Some(c) => Ok(c.clone()),
        None => Err(not_connected_message()),
    }
}

/// Makes `connection` the current connection.
pub fn store_connection(slot: &mut Option<Connection>, connection: Connection)
    ensures
        *final(slot) == Some(connection),
{
    *slot = Some(connection);
}

/// Clears the current connection. Returns the base URL whose saved key must
/// be deleted, when the cleared connection asks for that.
pub fn disconnect_cpa(slot: &mut Option<Connection>) -> (res: Option<String>)
    ensures
        *final(slot) is None,
        match *old(slot) {
            Some(c) => if c.delete_saved_credential_on_disconnect {
                res == Some(c.base_url)
            } else {
                res is None
            },
            None => res is None,
        },
{
    let taken = slot.take();
    match taken {
        Some(c) => if c.delete_saved_credential_on_disconnect {
            Some(c.base_url)
        } else {
            None
        },
        None => None,
    }
}

/// What a connection typed in by hand becomes: the URL is normalised, the key
/// trimmed, and a blank key refused; the saved key is deleted on disconnect.
pub fn manual_connection(base_url: &str, management_key: &str) -> (res: Result<
    Connection,
    String,
>)
    ensures
        match normalized_base_url(base_url@) {
            Err(m) => res matches Err(e) && e@ == m,
            Ok(url) => if trim_ws(management_key@).len() == 0 {
                res matches Err(e) && e@ == manual_login_blank_text()
            } else {
                res matches Ok(c) && c.base_url@ == url && c.management_key@ == trim_ws(
                    management_key@,
                ) && c.delete_saved_credential_on_disconnect
            },
        },
{
    let url = match normalize_base_url(base_url) {
        Ok(u) => u,
        Err(m) => {
            return Err(m);
        },
    };
    let key = trim_whitespace(management_key);
    if key.is_empty() {
        return Err(manual_login_blank_message());
    }
    Ok(
        Connection {
            base_url: url,
            management_key: key.to_owned(),
            delete_saved_credential_on_disconnect: true,
        },
    )
}

/// The outcome of saving the key in the credential store.
pub enum CredentialSave {
    Saved,
    /// The store refused to open the entry; the error's own words.
    EntryFailed(String),
    /// Writing the key failed; the error's own words.
    SaveFailed(String),
}

/// What a save of the key means for the login command.
pub fn credential_save_outcome(save: CredentialSave) -> (res: Result<(), String>)
    ensures
        match save {
            CredentialSave::Saved => res is Ok,
            CredentialSave::EntryFailed(d) => res matches Err(m) && m@
                == credential_store_error_prefix() + d@,
            CredentialSave::SaveFailed(d) => res matches Err(m) && m@
                == credential_save_error_prefix() + d@,
        },
{
    match save {
        CredentialSave::Saved => Ok(()),
        CredentialSave::EntryFailed(d) => Err(credential_store_error_message(d.as_str())),
        CredentialSave::SaveFailed(d) => Err(credential_save_error_message(d.as_str())),
    }
}

/// The outcome of deleting the saved key on disconnect.
pub enum CredentialDeletion {
    Deleted,
    /// There was no saved key.
    NoEntry,
    /// The store refused to open the entry; the error's own words.
    EntryFailed(String),
    /// Deleting failed; the error's own words.
    DeleteFailed(String),
}

/// What a deletion of the saved key means for the disconnect command: a
/// missing key is no error.
pub fn credential_deletion_outcome(deletion: CredentialDeletion) -> (res: Result<(), String>)
    ensures
        match deletion {
            CredentialDeletion::Deleted | CredentialDeletion::NoEntry => res is Ok,
            CredentialDeletion::EntryFailed(d) => res matches Err(m) && m@
                == credential_store_error_prefix() + d@,
            CredentialDeletion::DeleteFailed(d) => res matches Err(m) && m@
                == credential_delete_error_prefix() + d@,
        },
{
    match deletion {
        CredentialDeletion::Deleted => Ok(()),
        CredentialDeletion::NoEntry => Ok(()),
        CredentialDeletion::EntryFailed(d) => Err(credential_store_error_message(d.as_str())),
        CredentialDeletion::DeleteFailed(d) => Err(credential_delete_error_message(d.as_str())),
    }
}

/// After a connection is stored, the key lookup gives back its key.
pub proof fn lemma_key_lookup_after_store(after: Option<Connection>, stored: Connection)
    requires
        after == Some(stored),
    ensures
        management_key_lookup(after) == Ok::<Seq<char>, Seq<char>>(stored.management_key@),
{
}

/// After a disconnect, the key lookup fails with the not-connected message.
pub proof fn lemma_key_lookup_after_disconnect(after: Option<Connection>)
    requires
        after is None,
    ensures
        management_key_lookup(after) == Err::<Seq<char>, Seq<char>>(not_connected_text()),
{
}

} // verus!
