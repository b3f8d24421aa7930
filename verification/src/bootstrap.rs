//! Connecting at startup. The sources are tried in a fixed order: the `.env`
//! file beside the executable, then the process environment, then the key
//! saved in the credential store for the fallback URL. The first source that
//! is configured decides; a source that is configured but unusable ends the
//! attempt. The decisions are a state machine; the caller performs each
//! action and reports what happened as the next event.
use vstd::prelude::*;

use crate::base_url::{normalize_base_url, normalized_base_url};
use crate::connection::Connection;
use crate::messages::{
    credential_read_error_message, credential_read_error_prefix,
    credential_store_error_message, credential_store_error_prefix, redaction_marker_text,
};
use crate::redact::{lemma_redact_hides_secret, redact_secret, redacted};
use crate::startup::{BootstrapSource, StartupConfigError, StartupCredentials};
use crate::text::contains_seq;

verus! {

/// The result of the startup attempt.
#[allow(inconsistent_fields)]
pub enum BootstrapResult {
    Connected { source: BootstrapSource, base_url: String, config: serde_json::Value },
    NotConfigured,
    Failed { source: BootstrapSource, base_url: Option<String>, message: String },
}

/// The failure that an unusable startup source ends the attempt with.
pub open spec fn failed_result(error: StartupConfigError) -> BootstrapResult {
    BootstrapResult::Failed {
        source: error.source,
        base_url: error.base_url,
        message: error.message,
    }
}

/// Reports an unusable startup source as the result of the attempt.
pub fn failed_bootstrap(error: StartupConfigError) -> (res: BootstrapResult)
    ensures
        res == failed_result(error),
{
    BootstrapResult::Failed { source: error.source, base_url: error.base_url, message: error.message }
}

/// Where the startup attempt stands.
pub enum BootstrapState {
    ReadingInstallEnv { fallback_base_url: String },
    ReadingProcessEnv { fallback_base_url: String },
    ReadingCredential { base_url: String },
    FetchingConfig { source: BootstrapSource, connection: Connection },
    Finished,
}

/// What looking up the saved key for a base URL found.
pub enum CredentialLookup {
    Found(String),
    NoEntry,
    /// The store refused to open the entry; the error's own words.
    EntryFailed(String),
    /// Reading the key failed; the error's own words.
    ReadFailed(String),
}

/// What the caller reports after performing an action.
pub enum BootstrapEvent {
    /// What [`crate::startup::read_install_env`] gave.
    InstallEnvRead(Result<Option<StartupCredentials>, StartupConfigError>),
    /// What [`crate::startup::read_process_env`] gave.
    ProcessEnvRead(Result<Option<StartupCredentials>, StartupConfigError>),
    CredentialRead(CredentialLookup),
    /// The configuration the server returned, or the error text of the request.
    ConfigFetched(Result<serde_json::Value, String>),
}

/// What the caller is to do next.
pub enum BootstrapAction {
    ReadInstallEnv,
    ReadProcessEnv,
    /// Look up the saved key for this base URL.
    ReadCredential { base_url: String },
    /// Request `GET /config` over this connection.
    FetchConfig { connection: Connection },
    /// Make this the current connection, then end with the result.
    Connect { connection: Connection, result: BootstrapResult },
    /// End with the result.
    Finish(BootstrapResult),
}

/// The connection made from startup credentials: the saved key is left alone
/// on disconnect.
pub open spec fn startup_connection(c: StartupCredentials) -> Connection {
    Connection {
        base_url: c.base_url,
        management_key: c.management_key,
        delete_saved_credential_on_disconnect: false,
    }
}

/// Whether `event` answers the action that led to `state`.
pub open spec fn event_fits(state: BootstrapState, event: BootstrapEvent) -> bool {
    match state {
        BootstrapState::ReadingInstallEnv { .. } => event is InstallEnvRead,
        BootstrapState::ReadingProcessEnv { .. } => event is ProcessEnvRead,
        BootstrapState::ReadingCredential { .. } => event is CredentialRead,
        BootstrapState::FetchingConfig { .. } => event is ConfigFetched,
        BootstrapState::Finished => false,
    }
}

/// The step after a startup source was read: its credentials are used, its
/// error ends the attempt, and only an unconfigured source passes on.
pub open spec fn source_step(
    outcome: Result<Option<StartupCredentials>, StartupConfigError>,
    next: BootstrapState,
    action: BootstrapAction,
) -> bool {
    match outcome {
        Ok(Some(c)) => next == BootstrapState::FetchingConfig {
            source: c.source,
            connection: startup_connection(c),
        } && action == BootstrapAction::FetchConfig { connection: startup_connection(c) },
        Err(e) => next is Finished && action == BootstrapAction::Finish(failed_result(e)),
        Ok(None) => true,
    }
}

/// One step of the startup attempt.
pub open spec fn bootstrap_transition(
    state: BootstrapState,
    event: BootstrapEvent,
    next: BootstrapState,
    action: BootstrapAction,
) -> bool {
    match state {
        BootstrapState::ReadingInstallEnv { fallback_base_url } => match event {
            BootstrapEvent::InstallEnvRead(r) => source_step(r, next, action) && (r matches Ok(
                None,
            ) ==> next == BootstrapState::ReadingProcessEnv { fallback_base_url }
                && action is ReadProcessEnv),
            _ => false,
        },
        BootstrapState::ReadingProcessEnv { fallback_base_url } => match event {
            BootstrapEvent::ProcessEnvRead(r) => source_step(r, next, action) && (r matches Ok(
                None,
            ) ==> match normalized_base_url(fallback_base_url@) {
                Err(m) => next is Finished && (action matches BootstrapAction::Finish(
                    BootstrapResult::Failed { source, base_url, message },
                ) && source == BootstrapSource::CredentialManager && base_url is None && message@
                    == m),
                Ok(u) => next matches BootstrapState::ReadingCredential { base_url }
                    && base_url@ == u && action == BootstrapAction::ReadCredential { base_url },
            }),
            _ => false,
        },
        BootstrapState::ReadingCredential { base_url } => match event {
            BootstrapEvent::CredentialRead(lookup) => match lookup {
                CredentialLookup::Found(key) => {
                    let connection = Connection {
                        base_url,
                        management_key: key,
                        delete_saved_credential_on_disconnect: true,
                    };
                    next == BootstrapState::FetchingConfig {
                        source: BootstrapSource::CredentialManager,
                        connection,
                    } && action == BootstrapAction::FetchConfig { connection }
                },
                CredentialLookup::NoEntry => next is Finished && action == BootstrapAction::Finish(
                    BootstrapResult::NotConfigured,
                ),
                CredentialLookup::EntryFailed(detail) => next is Finished
                    && (action matches BootstrapAction::Finish(
                    BootstrapResult::Failed { source, base_url: b, message },
                ) && source == BootstrapSource::CredentialManager && b == Some(base_url)
                    && message@ == credential_store_error_prefix() + detail@),
                CredentialLookup::ReadFailed(detail) => next is Finished
                    && (action matches BootstrapAction::Finish(
                    BootstrapResult::Failed { source, base_url: b, message },
                ) && source == BootstrapSource::CredentialManager && b == Some(base_url)
                    && message@ == credential_read_error_prefix() + detail@),
            },
            _ => false,
        },
        BootstrapState::FetchingConfig { source, connection } => match event {
            BootstrapEvent::ConfigFetched(r) => next is Finished && match r {
                Err(m) => action matches BootstrapAction::Finish(
                    BootstrapResult::Failed { source: s, base_url: b, message },
                ) && s == source && b == Some(connection.base_url) && message@ == redacted(
                    m@,
                    connection.management_key@,
                ),
                Ok(config) => action == BootstrapAction::Connect {
                    connection,
                    result: BootstrapResult::Connected {
                        source,
                        base_url: connection.base_url,
                        config,
                    },
                },
            },
            _ => false,
        },
        BootstrapState::Finished => false,
    }
}

/// The first step: read the `.env` file beside the executable.
pub fn bootstrap_start(fallback_base_url: String) -> (res: (BootstrapState, BootstrapAction))
    ensures
        res.0 == (BootstrapState::ReadingInstallEnv { fallback_base_url }),
        res.1 is ReadInstallEnv,
{
    (BootstrapState::ReadingInstallEnv { fallback_base_url }, BootstrapAction::ReadInstallEnv)
}

fn source_outcome_step(outcome: Result<Option<StartupCredentials>, StartupConfigError>) -> (res:
    Option<(BootstrapState, BootstrapAction)>)
    ensures
        outcome matches Ok(None) <==> res is None,
        res matches Some(p) ==> source_step(outcome, p.0, p.1),
{
    match outcome {
        Ok(Some(c)) => {
            let source = c.source;
            let connection = Connection {
                base_url: c.base_url,
                management_key: c.management_key,
                delete_saved_credential_on_disconnect: false,
            };
            let copy = connection.clone();
            Some(
                (
                    BootstrapState::FetchingConfig { source, connection },
                    BootstrapAction::FetchConfig { connection: copy },
                ),
            )
        },
        Err(e) => Some((BootstrapState::Finished, BootstrapAction::Finish(failed_bootstrap(e)))),
        Ok(None) => None,
    }
}

/// One step of the startup attempt; see [`bootstrap_transition`].
pub fn bootstrap_step(state: BootstrapState, event: BootstrapEvent) -> (res: (
    BootstrapState,
    BootstrapAction,
))
    requires
        event_fits(state, event),
    ensures
        bootstrap_transition(state, event, res.0, res.1),
{
    match state {
        BootstrapState::ReadingInstallEnv { fallback_base_url } => match event {
            BootstrapEvent::InstallEnvRead(r) => match source_outcome_step(r) {
                Some(p) => p,
                None => (
                    BootstrapState::ReadingProcessEnv { fallback_base_url },
                    BootstrapAction::ReadProcessEnv,
                ),
            },
            _ => (BootstrapState::Finished, BootstrapAction::Finish(BootstrapResult::NotConfigured)),
        },
        BootstrapState::ReadingProcessEnv { fallback_base_url } => match event {
            BootstrapEvent::ProcessEnvRead(r) => match source_outcome_step(r) {
                Some(p) => p,
                None => match normalize_base_url(fallback_base_url.as_str()) {
                    Err(message) => (
                        BootstrapState::Finished,
                        BootstrapAction::Finish(
                            BootstrapResult::Failed {
                                source: BootstrapSource::CredentialManager,
                                base_url: None,
                                message,
                            },
                        ),
                    ),
                    Ok(base_url) => {
                        let copy = base_url.clone();
                        (
                            BootstrapState::ReadingCredential { base_url },
                            BootstrapAction::ReadCredential { base_url: copy },
                        )
                    },
                },
            },
            _ => (BootstrapState::Finished, BootstrapAction::Finish(BootstrapResult::NotConfigured)),
        },
        BootstrapState::ReadingCredential { base_url } => match event {
            BootstrapEvent::CredentialRead(lookup) => match lookup {
                CredentialLookup::Found(key) => {
                    let connection = Connection {
                        base_url,
                        management_key: key,
                        delete_saved_credential_on_disconnect: true,
                    };
                    let copy = connection.clone();
                    (
                        BootstrapState::FetchingConfig {
                            source: BootstrapSource::CredentialManager,
                            connection,
                        },
                        BootstrapAction::FetchConfig { connection: copy },
                    )
                },
                CredentialLookup::NoEntry => (
                    BootstrapState::Finished,
                    BootstrapAction::Finish(BootstrapResult::NotConfigured),
                ),
                CredentialLookup::EntryFailed(detail) => (
                    BootstrapState::Finished,
                    BootstrapAction::Finish(
                        BootstrapResult::Failed {
                            source: BootstrapSource::CredentialManager,
                            base_url: Some(base_url),
                            message: credential_store_error_message(detail.as_str()),
                        },
                    ),
                ),
                CredentialLookup::ReadFailed(detail) => (
                    BootstrapState::Finished,
                    BootstrapAction::Finish(
                        BootstrapResult::Failed {
                            source: BootstrapSource::CredentialManager,
                            base_url: Some(base_url),
                            message: credential_read_error_message(detail.as_str()),
                        },
                    ),
                ),
            },
            _ => (BootstrapState::Finished, BootstrapAction::Finish(BootstrapResult::NotConfigured)),
        },
        BootstrapState::FetchingConfig { source, connection } => match event {
            BootstrapEvent::ConfigFetched(r) => match r {
                Err(m) => {
                    let message = redact_secret(m, connection.management_key.as_str());
                    (
                        BootstrapState::Finished,
                        BootstrapAction::Finish(
                            BootstrapResult::Failed {
                                source,
                                base_url: Some(connection.base_url),
                                message,
                            },
                        ),
                    )
                },
                Ok(config) => {
                    let base_url = connection.base_url.clone();
                    (
                        BootstrapState::Finished,
                        BootstrapAction::Connect {
                            connection,
                            result: BootstrapResult::Connected { source, base_url, config },
                        },
                    )
                },
            },
            _ => (BootstrapState::Finished, BootstrapAction::Finish(BootstrapResult::NotConfigured)),
        },
        BootstrapState::Finished => (
            BootstrapState::Finished,
            BootstrapAction::Finish(BootstrapResult::NotConfigured),
        ),
    }
}

/// The process environment is read only after the `.env` file beside the
/// executable was found to configure nothing.
pub proof fn lemma_process_env_only_after_empty_install_env(
    state: BootstrapState,
    event: BootstrapEvent,
    next: BootstrapState,
    action: BootstrapAction,
)
    requires
        bootstrap_transition(state, event, next, action),
        action is ReadProcessEnv,
    ensures
        state is ReadingInstallEnv,
        event matches BootstrapEvent::InstallEnvRead(r) && r matches Ok(None),
{
}

/// The credential store is consulted only after the process environment was
/// found to configure nothing (and so, by the previous law, the `.env` file too).
pub proof fn lemma_credential_store_only_after_empty_process_env(
    state: BootstrapState,
    event: BootstrapEvent,
    next: BootstrapState,
    action: BootstrapAction,
)
    requires
        bootstrap_transition(state, event, next, action),
        action is ReadCredential,
    ensures
        state is ReadingProcessEnv,
        event matches BootstrapEvent::ProcessEnvRead(r) && r matches Ok(None),
{
}

/// A startup source that is configured but unusable ends the attempt with
/// its own failure: no lower-priority source is tried.
pub proof fn lemma_unusable_source_ends_attempt(
    state: BootstrapState,
    event: BootstrapEvent,
    next: BootstrapState,
    action: BootstrapAction,
    error: StartupConfigError,
)
    requires
        bootstrap_transition(state, event, next, action),
        event == BootstrapEvent::InstallEnvRead(Err(error)) || event
            == BootstrapEvent::ProcessEnvRead(Err(error)),
    ensures
        next is Finished,
        action == BootstrapAction::Finish(failed_result(error)),
{
}

/// Only a connection whose key came from the credential store deletes the
/// saved key on disconnect.
pub proof fn lemma_only_saved_keys_are_deleted(
    state: BootstrapState,
    event: BootstrapEvent,
    next: BootstrapState,
    connection: Connection,
)
    requires
        bootstrap_transition(state, event, next, BootstrapAction::FetchConfig { connection }),
    ensures
        connection.delete_saved_credential_on_disconnect <==> state is ReadingCredential,
        next matches BootstrapState::FetchingConfig { connection: c, .. } && c == connection,
{
}

/// When fetching the configuration fails, the reported message does not
/// contain a non-empty management key that shares no character with
/// `[REDACTED]`.
pub proof fn lemma_failed_fetch_hides_key(
    source: BootstrapSource,
    connection: Connection,
    error: String,
    next: BootstrapState,
    action: BootstrapAction,
)
    requires
        bootstrap_transition(
            BootstrapState::FetchingConfig { source, connection },
            BootstrapEvent::ConfigFetched(Err(error)),
            next,
            action,
        ),
        connection.management_key@.len() > 0,
        forall|i: int|
            0 <= i < connection.management_key@.len() ==> !redaction_marker_text().contains(
                #[trigger] connection.management_key@[i],
            ),
    ensures
        action matches BootstrapAction::Finish(BootstrapResult::Failed { message, .. })
            && !contains_seq(message@, connection.management_key@),
{
    lemma_redact_hides_secret(error@, connection.management_key@);
}

/// Whatever the configuration fetch gives, the result names the source
/// whose credentials were used and the URL of the connection: a failure
/// carries that source, that URL and the error text without the key; a
/// success connects with that very connection.
pub proof fn lemma_fetch_result_keeps_source(
    source: BootstrapSource,
    connection: Connection,
    fetched: Result<serde_json::Value, String>,
    next: BootstrapState,
    action: BootstrapAction,
)
    requires
        bootstrap_transition(
            BootstrapState::FetchingConfig { source, connection },
            BootstrapEvent::ConfigFetched(fetched),
            next,
            action,
        ),
    ensures
        next is Finished,
        fetched is Err ==> (action matches BootstrapAction::Finish(
            BootstrapResult::Failed { source: s, base_url: b, message },
        ) && s == source && b == Some(connection.base_url) && message@ == redacted(
            fetched->Err_0@,
            connection.management_key@,
        )),
        fetched is Ok ==> (action matches BootstrapAction::Connect {
            connection: c,
            result: BootstrapResult::Connected { source: s, base_url: u, .. },
        } && s == source && c == connection && u == connection.base_url),
{
}

/// Over two steps from a startup source: when the `.env` file or the process
/// environment supplied credentials and the server then refuses them, the
/// failure is reported for that source, with its URL.
pub proof fn lemma_refused_startup_credentials_report_their_source(
    state: BootstrapState,
    event: BootstrapEvent,
    credentials: StartupCredentials,
    fetching: BootstrapState,
    first: BootstrapAction,
    error: String,
    finished: BootstrapState,
    last: BootstrapAction,
)
    requires
        event == BootstrapEvent::InstallEnvRead(Ok(Some(credentials))) || event
            == BootstrapEvent::ProcessEnvRead(Ok(Some(credentials))),
        bootstrap_transition(state, event, fetching, first),
        bootstrap_transition(fetching, BootstrapEvent::ConfigFetched(Err(error)), finished, last),
    ensures
        last matches BootstrapAction::Finish(BootstrapResult::Failed { source, base_url, .. })
            && source == credentials.source && base_url == Some(credentials.base_url),
        first matches BootstrapAction::FetchConfig { connection } && connection.base_url
            == credentials.base_url && connection.management_key == credentials.management_key,
{
}

/// Every failure names where it arose: an unusable startup source reports
/// its own error; an unusable fallback URL, or a credential store that could
/// not be read, reports the credential store (with the URL once it is
/// known); a refused configuration fetch reports the source of the
/// credentials that were used.
pub proof fn lemma_failure_names_its_source(
    state: BootstrapState,
    event: BootstrapEvent,
    next: BootstrapState,
    action: BootstrapAction,
)
    requires
        bootstrap_transition(state, event, next, action),
        action matches BootstrapAction::Finish(BootstrapResult::Failed { .. }),
    ensures
        action matches BootstrapAction::Finish(BootstrapResult::Failed { source, base_url, .. })
            && match state {
            BootstrapState::ReadingInstallEnv { .. } => event matches BootstrapEvent::InstallEnvRead(
                Err(e),
            ) && source == e.source && base_url == e.base_url,
            BootstrapState::ReadingProcessEnv { .. } => (event matches BootstrapEvent::ProcessEnvRead(
                Err(e),
            ) && source == e.source && base_url == e.base_url) || (event
                == BootstrapEvent::ProcessEnvRead(Ok(None)) && source
                == BootstrapSource::CredentialManager && base_url is None),
            BootstrapState::ReadingCredential { base_url: u } => source
                == BootstrapSource::CredentialManager && base_url == Some(u),
            BootstrapState::FetchingConfig { source: s, connection } => source == s && base_url
                == Some(connection.base_url),
            BootstrapState::Finished => false,
        },
{
}

/// The attempt ends as not configured only when no source configured
/// anything and the credential store holds no key for the fallback URL.
pub proof fn lemma_not_configured_only_without_saved_key(
    state: BootstrapState,
    event: BootstrapEvent,
    next: BootstrapState,
)
    requires
        bootstrap_transition(
            state,
            event,
            next,
            BootstrapAction::Finish(BootstrapResult::NotConfigured),
        ),
    ensures
        state is ReadingCredential,
        event == BootstrapEvent::CredentialRead(CredentialLookup::NoEntry),
{
}

} // verus!
