//! Startup credentials: the management URL and key read from the `.env`
//! file beside the executable or from the process environment.
use vstd::prelude::*;

use crate::base_url::{normalize_base_url, normalized_base_url};
use crate::messages::{
    both_required_message, both_required_text, env_file_malformed_message,
    env_file_malformed_text, env_file_unreadable_message, env_file_unreadable_text,
    env_not_unicode_message, env_not_unicode_text, key_variable_message, key_variable_text,
    no_install_dir_message, no_install_dir_text, url_variable_message, url_variable_text,
};
use crate::text::{is_unicode_whitespace, trim_whitespace, trim_ws};

verus! {

/// Where a set of connection details came from.
#[derive(Clone, Copy, Debug, PartialEq, Eq, Structural)]
pub enum BootstrapSource {
    InstallEnv,
    ProcessEnv,
    CredentialManager,
}

/// A complete, validated set of startup credentials.
#[derive(Debug, PartialEq, Eq)]
pub struct StartupCredentials {
    pub source: BootstrapSource,
    pub base_url: String,
    pub management_key: String,
}

/// A startup source that is configured but unusable.
#[derive(Debug)]
pub struct StartupConfigError {
    pub source: BootstrapSource,
    pub base_url: Option<String>,
    pub message: String,
}

/// The value of [`StartupCredentials`].
pub struct StartupCredentialsView {
    pub source: BootstrapSource,
    pub base_url: Seq<char>,
    pub management_key: Seq<char>,
}

/// The value of [`StartupConfigError`].
pub struct StartupConfigErrorView {
    pub source: BootstrapSource,
    pub base_url: Option<Seq<char>>,
    pub message: Seq<char>,
}

impl View for StartupCredentials {
    type V = StartupCredentialsView;

    open spec fn view(&self) -> StartupCredentialsView {
        StartupCredentialsView {
            source: self.source,
            base_url: self.base_url@,
            management_key: self.management_key@,
        }
    }
}

impl View for StartupConfigError {
    type V = StartupConfigErrorView;

    open spec fn view(&self) -> StartupConfigErrorView {
        StartupConfigErrorView {
            source: self.source,
            base_url: self.base_url.deep_view(),
            message: self.message@,
        }
    }
}

impl Clone for StartupCredentials {
    fn clone(&self) -> (res: Self)
        ensures
            res == *self,
    {
        StartupCredentials {
            source: self.source,
            base_url: self.base_url.clone(),
            management_key: self.management_key.clone(),
        }
    }
}

/// The outcome of reading one startup source, as values.
pub type StartupOutcome = Result<Option<StartupCredentialsView>, StartupConfigErrorView>;

/// The value of the outcome of reading one startup source.
pub open spec fn outcome_view(
    res: Result<Option<StartupCredentials>, StartupConfigError>,
) -> StartupOutcome {
    match res {
        Ok(None) => Ok(None),
        Ok(Some(c)) => Ok(Some(c@)),
        Err(e) => Err(e@),
    }
}

/// A startup error from `source`.
pub open spec fn config_error(
    source: BootstrapSource,
    base_url: Option<Seq<char>>,
    message: Seq<char>,
) -> StartupOutcome {
    Err(StartupConfigErrorView { source, base_url, message })
}

/// What one source yields from its optional URL and key: nothing when both
/// are absent; an error when the URL is absent or blank, when it is not a
/// valid base URL, or when the key is absent or blank; else the normalised
/// URL with the trimmed key.
pub open spec fn credentials_outcome(
    source: BootstrapSource,
    base_url: Option<Seq<char>>,
    management_key: Option<Seq<char>>,
) -> StartupOutcome {
    if base_url is None && management_key is None {
        Ok(None)
    } else if base_url is None || trim_ws(base_url->0).len() == 0 {
        config_error(source, None, both_required_text())
    } else {
        match normalized_base_url(base_url->0) {
            Err(m) => config_error(source, None, m),
            Ok(url) => if management_key is None || trim_ws(management_key->0).len() == 0 {
                config_error(source, Some(url), both_required_text())
            } else {
                Ok(
                    Some(
                        StartupCredentialsView {
                            source,
                            base_url: url,
                            management_key: trim_ws(management_key->0),
                        },
                    ),
                )
            },
        }
    }
}

fn config_error_from(source: BootstrapSource, base_url: Option<String>, message: String) -> (res:
    Result<Option<StartupCredentials>, StartupConfigError>)
    ensures
        outcome_view(res) == config_error(source, base_url.deep_view(), message@),
{
    Err(StartupConfigError { source, base_url, message })
}

/// Validates the URL and key that one source supplied; see
/// [`credentials_outcome`].
pub fn credentials_from_values(
    source: BootstrapSource,
    base_url: Option<String>,
    management_key: Option<String>,
) -> (res: Result<Option<StartupCredentials>, StartupConfigError>)
    ensures
        outcome_view(res) == credentials_outcome(
            source,
            base_url.deep_view(),
            management_key.deep_view(),
        ),
{
    if base_url.is_none() && management_key.is_none() {
        return Ok(None);
    }
    let raw_base_url = match base_url {
        Some(value) => {
            if trim_whitespace(value.as_str()).is_empty() {
                return config_error_from(source, None, both_required_message());
            }
            value
        },
        None => {
            return config_error_from(source, None, both_required_message());
        },
    };
    let normalized = match normalize_base_url(raw_base_url.as_str()) {
        Ok(url) => url,
        Err(message) => {
            return config_error_from(source, None, message);
        },
    };
    let key = match management_key {
        Some(value) => {
            let trimmed = trim_whitespace(value.as_str());
            if trimmed.is_empty() {
                return config_error_from(source, Some(normalized), both_required_message());
            }
            trimmed.to_owned()
        },
        None => {
            return config_error_from(source, Some(normalized), both_required_message());
        },
    };
    Ok(Some(StartupCredentials { source, base_url: normalized, management_key: key }))
}

/// The outcome of reading one environment variable.
pub enum EnvVarRead {
    Present(String),
    NotPresent,
    NotUnicode,
}

/// The value that a read of an environment variable found, if any.
pub open spec fn env_var_value(read: EnvVarRead) -> Option<Seq<char>> {
    match read {
        EnvVarRead::Present(v) => Some(v@),
        _ => None,
    }
}

/// Turns the outcome of reading the environment variable `name` into its
/// value: a variable that is not valid Unicode is an error of the process
/// environment source.
pub fn read_process_env_value(name: &str, read: EnvVarRead) -> (res: Result<
    Option<String>,
    StartupConfigError,
>)
    ensures
        match read {
            EnvVarRead::NotUnicode => res matches Err(e) && e@ == StartupConfigErrorView {
                source: BootstrapSource::ProcessEnv,
                base_url: None,
                message: env_not_unicode_text(name@),
            },
            _ => res matches Ok(v) && v.deep_view() == env_var_value(read),
        },
{
    match read {
        EnvVarRead::Present(value) => Ok(Some(value)),
        EnvVarRead::NotPresent => Ok(None),
        EnvVarRead::NotUnicode => Err(
            StartupConfigError {
                source: BootstrapSource::ProcessEnv,
                base_url: None,
                message: env_not_unicode_message(name),
            },
        ),
    }
}

/// What the process environment yields from the reads of the URL and key
/// variables, the URL's read taking precedence when both fail.
pub open spec fn process_env_outcome(url: EnvVarRead, key: EnvVarRead) -> StartupOutcome {
    if url is NotUnicode {
        config_error(BootstrapSource::ProcessEnv, None, env_not_unicode_text(url_variable_text()))
    } else if key is NotUnicode {
        config_error(BootstrapSource::ProcessEnv, None, env_not_unicode_text(key_variable_text()))
    } else {
        credentials_outcome(BootstrapSource::ProcessEnv, env_var_value(url), env_var_value(key))
    }
}

/// Startup credentials from the process environment, given what reading
/// `CPA_MANAGEMENT_URL` and `CPA_MANAGEMENT_KEY` found.
pub fn read_process_env(url: EnvVarRead, key: EnvVarRead) -> (res: Result<
    Option<StartupCredentials>,
    StartupConfigError,
>)
    ensures
        outcome_view(res) == process_env_outcome(url, key),
{
    let url_name = url_variable_message();
    let key_name = key_variable_message();
    let url_value = match read_process_env_value(url_name.as_str(), url) {
        Ok(v) => v,
        Err(e) => {
            return Err(e);
        },
    };
    let key_value = match read_process_env_value(key_name.as_str(), key) {
        Ok(v) => v,
        Err(e) => {
            return Err(e);
        },
    };
    credentials_from_values(BootstrapSource::ProcessEnv, url_value, key_value)
}

/// Assignments as values: each a variable name and its value.
pub type Assignments = Seq<(Seq<char>, Seq<char>)>;

/// The values of a sequence of assignments.
pub open spec fn pairs_view(entries: Seq<(String, String)>) -> Assignments {
    entries.map_values(|p: (String, String)| (p.0@, p.1@))
}

/// The value of the last assignment to `key` in `entries`, as a map that is
/// filled in order would hold it.
pub open spec fn last_assignment(entries: Assignments, key: Seq<char>) -> Option<Seq<char>>
    decreases entries.len(),
{
    if entries.len() == 0 {
        None
    } else if entries.last().0 == key {
        Some(entries.last().1)
    } else {
        last_assignment(entries.drop_last(), key)
    }
}

/// The value of the last assignment to `key` in `entries`.
pub fn last_assigned_value(entries: &Vec<(String, String)>, key: &str) -> (res: Option<String>)
    ensures
        res.deep_view() == last_assignment(pairs_view(entries@), key@),
{
    let wanted = String::from_str(key);
    let mut found: Option<String> = None;
    let len = entries.len();
    let mut i: usize = 0;
    while i < len
        invariant
            len == entries@.len(),
            i <= len,
            wanted@ == key@,
            found.deep_view() == last_assignment(pairs_view(entries@.take(i as int)), key@),
        decreases len - i,
    {
        assert(pairs_view(entries@.take(i + 1)).drop_last() =~= pairs_view(entries@.take(i as int)));
        assert(pairs_view(entries@.take(i + 1)).last() == (entries@[i as int].0@, entries@[i as int].1@));
        if entries[i].0 == wanted {
            found = Some(entries[i].1.clone());
        }
        i = i + 1;
    }
    assert(entries@.take(len as int) =~= entries@);
    found
}

/// What the `.env` file yields from its assignments, or from `None` when it
/// is not in dotenv format.
pub open spec fn env_entries_outcome(entries: Option<Assignments>) -> StartupOutcome {
    match entries {
        None => config_error(BootstrapSource::InstallEnv, None, env_file_malformed_text()),
        Some(e) => credentials_outcome(
            BootstrapSource::InstallEnv,
            last_assignment(e, url_variable_text()),
            last_assignment(e, key_variable_text()),
        ),
    }
}

/// The assignments of a parsed `.env` file, as values.
pub open spec fn entries_view(entries: Option<Vec<(String, String)>>) -> Option<Assignments> {
    match entries {
        Some(e) => Some(pairs_view(e@)),
        None => None,
    }
}

/// Startup credentials from the assignments of the `.env` file, a later
/// assignment to a variable replacing an earlier one.
pub fn credentials_from_env_entries(entries: Option<Vec<(String, String)>>) -> (res: Result<
    Option<StartupCredentials>,
    StartupConfigError,
>)
    ensures
        outcome_view(res) == env_entries_outcome(entries_view(entries)),
{
    match entries {
        None => config_error_from(BootstrapSource::InstallEnv, None, env_file_malformed_message()),
        Some(e) => {
            let url_name = url_variable_message();
            let key_name = key_variable_message();
            let url = last_assigned_value(&e, url_name.as_str());
            let key = last_assigned_value(&e, key_name.as_str());
            credentials_from_values(BootstrapSource::InstallEnv, url, key)
        },
    }
}

/// A character that may start a variable name in a `.env` file.
pub open spec fn is_name_start(c: char) -> bool {
    ('a' <= c && c <= 'z') || ('A' <= c && c <= 'Z') || c == '_'
}

/// A character that may continue a variable name in a `.env` file.
pub open spec fn is_name_char(c: char) -> bool {
    is_name_start(c) || ('0' <= c && c <= '9') || c == '.'
}

/// A character that stands for itself in an unquoted value: no whitespace,
/// no quote, backslash, `$` or `#`.
pub open spec fn is_plain_value_char(c: char) -> bool {
    !is_unicode_whitespace(c) && c != '\'' && c != '"' && c != '\\' && c != '$' && c != '#'
}

/// An assignment that a `.env` line can spell as `NAME=VALUE` with nothing
/// quoted, escaped or substituted.
pub open spec fn is_plain_assignment(entry: (Seq<char>, Seq<char>)) -> bool {
    &&& entry.0.len() > 0
    &&& is_name_start(entry.0[0])
    &&& forall|i: int| 0 <= i < entry.0.len() ==> is_name_char(#[trigger] entry.0[i])
    &&& forall|i: int| 0 <= i < entry.1.len() ==> is_plain_value_char(#[trigger] entry.1[i])
}

/// Every assignment is plain.
pub open spec fn all_plain(entries: Assignments) -> bool {
    forall|i: int| 0 <= i < entries.len() ==> is_plain_assignment(#[trigger] entries[i])
}

/// The `.env` text with one `NAME=VALUE` line per assignment, in order.
pub open spec fn plain_env_text(entries: Assignments) -> Seq<char>
    decreases entries.len(),
{
    if entries.len() == 0 {
        Seq::empty()
    } else {
        plain_env_text(entries.drop_last()) + entries.last().0 + seq!['='] + entries.last().1
            + seq!['\n']
    }
}

/// Calls `dotenvy::from_read_iter` on the bytes of `content` and collects the
/// assignments in order, stopping at the first line it refuses (`None`).
/// `dotenvy` expands `$NAME` references from the process environment, so in
/// general the result is not a function of the content alone, and nothing is
/// claimed of it. What its source shows for a text made only of plain
/// `NAME=VALUE` lines (name of ASCII letters, digits, `_` and `.`, not
/// starting with a digit or `.`; value with no whitespace, quote, backslash,
/// `$` or `#`; each line ended by `\n`) is claimed: it reads each line as the
/// assignment it spells, in order. (At the end of each value `dotenvy` looks
/// up the variable with the empty name, which the platforms' `getenv` never
/// find.)
#[verifier::external_body]
fn parse_dotenv(content: &str) -> (res: Option<Vec<(String, String)>>)
    ensures
        forall|e: Assignments|
            all_plain(e) && #[trigger] plain_env_text(e) == content@ ==> res is Some && pairs_view(
                res->0@,
            ) == e,
{
    dotenvy::from_read_iter(content.as_bytes()).collect::<Result<Vec<(String, String)>, _>>().ok()
}

/// The outcome of looking for the `.env` file beside the executable.
pub enum EnvFileRead {
    /// The executable's directory could not be determined.
    NoInstallDir,
    /// There is no `.env` file there.
    NotFound,
    /// The file exists but could not be read.
    Unreadable,
    /// The file's text.
    Content(String),
}

/// What reading the `.env` file beside the executable gives: errors for a
/// missing directory or an unreadable file, nothing for a missing file, and
/// for a text what its dotenv assignments yield. For a text of plain
/// `NAME=VALUE` lines those are exactly the assignments it spells; for any
/// text they are the assignments of some parse.
pub open spec fn install_env_outcome(file: EnvFileRead, outcome: StartupOutcome) -> bool {
    match file {
        EnvFileRead::NoInstallDir => outcome == config_error(
            BootstrapSource::InstallEnv,
            None,
            no_install_dir_text(),
        ),
        EnvFileRead::NotFound => outcome == Ok::<Option<StartupCredentialsView>, StartupConfigErrorView>(
            None,
        ),
        EnvFileRead::Unreadable => outcome == config_error(
            BootstrapSource::InstallEnv,
            None,
            env_file_unreadable_text(),
        ),
        EnvFileRead::Content(c) => {
            &&& exists|entries: Option<Assignments>| #[trigger] env_entries_outcome(entries) == outcome
            &&& forall|e: Assignments|
                all_plain(e) && #[trigger] plain_env_text(e) == c@ ==> outcome
                    == env_entries_outcome(Some(e))
        },
    }
}

/// Startup credentials from the `.env` file beside the executable, given
/// what looking for it found. Its text is parsed in dotenv format; see
/// [`credentials_from_env_entries`] for what follows the parse.
pub fn read_install_env(file: EnvFileRead) -> (res: Result<
    Option<StartupCredentials>,
    StartupConfigError,
>)
    ensures
        install_env_outcome(file, outcome_view(res)),
{
    match file {
        EnvFileRead::NoInstallDir => config_error_from(
            BootstrapSource::InstallEnv,
            None,
            no_install_dir_message(),
        ),
        EnvFileRead::NotFound => Ok(None),
        EnvFileRead::Unreadable => config_error_from(
            BootstrapSource::InstallEnv,
            None,
            env_file_unreadable_message(),
        ),
        EnvFileRead::Content(content) => {
            let entries = parse_dotenv(content.as_str());
            let ghost seen = entries_view(entries);
            let res = credentials_from_env_entries(entries);
            assert(env_entries_outcome(seen) == outcome_view(res));
            res
        },
    }
}

/// The assignment that counts for `key` is the last one to it: one at index
/// `i` with no later assignment to `key` gives its value.
pub proof fn lemma_last_assignment_finds_last(entries: Assignments, key: Seq<char>, i: int)
    requires
        0 <= i < entries.len(),
        entries[i].0 == key,
        forall|j: int| i < j < entries.len() ==> #[trigger] entries[j].0 != key,
    ensures
        last_assignment(entries, key) == Some(entries[i].1),
    decreases entries.len(),
{
    if i < entries.len() - 1 {
        assert(entries.last() == entries[entries.len() - 1]);
        lemma_last_assignment_finds_last(entries.drop_last(), key, i);
    }
}

/// A variable that is never assigned has no value.
pub proof fn lemma_last_assignment_absent(entries: Assignments, key: Seq<char>)
    requires
        forall|j: int| 0 <= j < entries.len() ==> #[trigger] entries[j].0 != key,
    ensures
        last_assignment(entries, key) is None,
    decreases entries.len(),
{
    if entries.len() > 0 {
        assert(entries.last() == entries[entries.len() - 1]);
        lemma_last_assignment_absent(entries.drop_last(), key);
    }
}

/// `entries` with the assignments at `i` and `i + 1` exchanged.
pub open spec fn swap_adjacent(entries: Assignments, i: int) -> Assignments {
    entries.update(i, entries[i + 1]).update(i + 1, entries[i])
}

proof fn lemma_last_assignment_swap(entries: Assignments, i: int, key: Seq<char>)
    requires
        0 <= i,
        i + 1 < entries.len(),
        entries[i].0 != entries[i + 1].0,
    ensures
        last_assignment(swap_adjacent(entries, i), key) == last_assignment(entries, key),
    decreases entries.len(),
{
    let e2 = swap_adjacent(entries, i);
    if i + 1 < entries.len() - 1 {
        assert(e2.drop_last() =~= swap_adjacent(entries.drop_last(), i));
        assert(e2.last() == entries.last());
        lemma_last_assignment_swap(entries.drop_last(), i, key);
    } else {
        let d = entries.drop_last();
        let d2 = e2.drop_last();
        assert(d.drop_last() =~= d2.drop_last());
        assert(e2.last() == entries[i]);
        assert(entries.last() == entries[i + 1]);
        assert(d.last() == entries[i]);
        assert(d2.last() == entries[i + 1]);
        assert(d.len() > 0 && d2.len() > 0);
        if entries[i + 1].0 == key {
            assert(last_assignment(entries, key) == Some(entries[i + 1].1));
            assert(last_assignment(e2, key) == last_assignment(d2, key));
            assert(last_assignment(d2, key) == Some(entries[i + 1].1));
        } else if entries[i].0 == key {
            assert(last_assignment(entries, key) == last_assignment(d, key));
            assert(last_assignment(d, key) == Some(entries[i].1));
            assert(last_assignment(e2, key) == Some(entries[i].1));
        } else {
            assert(last_assignment(entries, key) == last_assignment(d, key));
            assert(last_assignment(d, key) == last_assignment(d.drop_last(), key));
            assert(last_assignment(e2, key) == last_assignment(d2, key));
            assert(last_assignment(d2, key) == last_assignment(d2.drop_last(), key));
        }
    }
}

/// Reading a `.env` file of plain `NAME=VALUE` lines: when the last
/// assignment to `CPA_MANAGEMENT_URL` is at index `url_at` and the last to
/// `CPA_MANAGEMENT_KEY` at index `key_at`, in whatever order, the outcome is
/// the one for that URL and key; the other lines play no part.
pub proof fn lemma_install_env_uses_last_assignments(
    content: String,
    entries: Assignments,
    outcome: StartupOutcome,
    url_at: int,
    key_at: int,
)
    requires
        install_env_outcome(EnvFileRead::Content(content), outcome),
        all_plain(entries),
        plain_env_text(entries) == content@,
        0 <= url_at < entries.len(),
        0 <= key_at < entries.len(),
        entries[url_at].0 == "CPA_MANAGEMENT_URL"@,
        entries[key_at].0 == "CPA_MANAGEMENT_KEY"@,
        forall|j: int| url_at < j < entries.len() ==> #[trigger] entries[j].0 != "CPA_MANAGEMENT_URL"@,
        forall|j: int| key_at < j < entries.len() ==> #[trigger] entries[j].0 != "CPA_MANAGEMENT_KEY"@,
    ensures
        outcome == credentials_outcome(
            BootstrapSource::InstallEnv,
            Some(entries[url_at].1),
            Some(entries[key_at].1),
        ),
{
    lemma_last_assignment_finds_last(entries, url_variable_text(), url_at);
    lemma_last_assignment_finds_last(entries, key_variable_text(), key_at);
}

/// Exchanging two neighbouring lines that assign different variables does
/// not change what a `.env` file of plain `NAME=VALUE` lines yields.
pub proof fn lemma_install_env_line_order(
    first: String,
    second: String,
    entries: Assignments,
    i: int,
    first_outcome: StartupOutcome,
    second_outcome: StartupOutcome,
)
    requires
        all_plain(entries),
        0 <= i,
        i + 1 < entries.len(),
        entries[i].0 != entries[i + 1].0,
        plain_env_text(entries) == first@,
        plain_env_text(swap_adjacent(entries, i)) == second@,
        install_env_outcome(EnvFileRead::Content(first), first_outcome),
        install_env_outcome(EnvFileRead::Content(second), second_outcome),
    ensures
        first_outcome == second_outcome,
{
    let e2 = swap_adjacent(entries, i);
    assert forall|j: int| 0 <= j < e2.len() implies is_plain_assignment(#[trigger] e2[j]) by {
        if j == i {
            assert(e2[j] == entries[i + 1]);
        } else if j == i + 1 {
            assert(e2[j] == entries[i]);
        } else {
            assert(e2[j] == entries[j]);
        }
    }
    lemma_last_assignment_swap(entries, i, url_variable_text());
    lemma_last_assignment_swap(entries, i, key_variable_text());
}

/// One source decides alone: it yields nothing exactly when it supplies
/// neither value; every error names that source; credentials come only from
/// both values, with the URL as normalisation accepts it and the key trimmed
/// and non-empty.
pub proof fn lemma_source_outcome_shape(
    source: BootstrapSource,
    base_url: Option<Seq<char>>,
    management_key: Option<Seq<char>>,
)
    ensures
        (credentials_outcome(source, base_url, management_key) == Ok::<
            Option<StartupCredentialsView>,
            StartupConfigErrorView,
        >(None)) <==> (base_url is None && management_key is None),
        credentials_outcome(source, base_url, management_key) matches Err(e) ==> e.source == source,
        credentials_outcome(source, base_url, management_key) matches Ok(Some(c)) ==> {
            &&& c.source == source
            &&& base_url is Some && management_key is Some
            &&& normalized_base_url(base_url->0) == Ok::<Seq<char>, Seq<char>>(c.base_url)
            &&& c.management_key == trim_ws(management_key->0)
            &&& c.management_key.len() > 0
        },
{
}

} // verus!
