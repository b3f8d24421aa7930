//! The texts of the messages that the client shows, each as a spec value and
//! as a function that builds it.
use vstd::prelude::*;

verus! {

/// The base URL is empty after trimming.
pub open spec fn url_empty_text() -> Seq<char> {
    "CPA_MANAGEMENT_URL 不能为空"@
}

/// Builds the text of [`url_empty_text`].
pub fn url_empty_message() -> (m: String)
    ensures
        m@ == url_empty_text(),
{
    String::from_str("CPA_MANAGEMENT_URL 不能为空")
}

/// The base URL is not an absolute HTTP(S) URL with a host.
pub open spec fn url_invalid_text() -> Seq<char> {
    "CPA_MANAGEMENT_URL 必须是合法的 HTTP 或 HTTPS 地址"@
}

/// Builds the text of [`url_invalid_text`].
pub fn url_invalid_message() -> (m: String)
    ensures
        m@ == url_invalid_text(),
{
    String::from_str("CPA_MANAGEMENT_URL 必须是合法的 HTTP 或 HTTPS 地址")
}

/// The base URL carries a query or a fragment.
pub open spec fn url_query_text() -> Seq<char> {
    "CPA_MANAGEMENT_URL 不能包含查询参数或片段"@
}

/// Builds the text of [`url_query_text`].
pub fn url_query_message() -> (m: String)
    ensures
        m@ == url_query_text(),
{
    String::from_str("CPA_MANAGEMENT_URL 不能包含查询参数或片段")
}

/// Only one of the two startup values is configured, or one is blank.
pub open spec fn both_required_text() -> Seq<char> {
    "CPA_MANAGEMENT_URL 和 CPA_MANAGEMENT_KEY 必须同时配置且不能为空"@
}

/// Builds the text of [`both_required_text`].
pub fn both_required_message() -> (m: String)
    ensures
        m@ == both_required_text(),
{
    String::from_str("CPA_MANAGEMENT_URL 和 CPA_MANAGEMENT_KEY 必须同时配置且不能为空")
}

/// The directory of the executable could not be determined.
pub open spec fn no_install_dir_text() -> Seq<char> {
    "无法确定程序安装目录，不能读取 .env"@
}

/// Builds the text of [`no_install_dir_text`].
pub fn no_install_dir_message() -> (m: String)
    ensures
        m@ == no_install_dir_text(),
{
    String::from_str("无法确定程序安装目录，不能读取 .env")
}

/// The `.env` file beside the executable exists but could not be read.
pub open spec fn env_file_unreadable_text() -> Seq<char> {
    "读取安装目录 .env 失败"@
}

/// Builds the text of [`env_file_unreadable_text`].
pub fn env_file_unreadable_message() -> (m: String)
    ensures
        m@ == env_file_unreadable_text(),
{
    String::from_str("读取安装目录 .env 失败")
}

/// The `.env` file beside the executable is not in dotenv format.
pub open spec fn env_file_malformed_text() -> Seq<char> {
    "安装目录 .env 格式无效"@
}

/// Builds the text of [`env_file_malformed_text`].
pub fn env_file_malformed_message() -> (m: String)
    ensures
        m@ == env_file_malformed_text(),
{
    String::from_str("安装目录 .env 格式无效")
}

/// A request path that does not start with exactly one `/`.
pub open spec fn invalid_api_path_text() -> Seq<char> {
    "invalid CPA API path"@
}

/// Builds the text of [`invalid_api_path_text`].
pub fn invalid_api_path_message() -> (m: String)
    ensures
        m@ == invalid_api_path_text(),
{
    String::from_str("invalid CPA API path")
}

/// A request method that is not an HTTP token.
pub open spec fn invalid_method_text() -> Seq<char> {
    "invalid HTTP method"@
}

/// Builds the text of [`invalid_method_text`].
pub fn invalid_method_message() -> (m: String)
    ensures
        m@ == invalid_method_text(),
{
    String::from_str("invalid HTTP method")
}

/// The fallback text of a failed response without a textual message.
pub open spec fn request_failed_text() -> Seq<char> {
    "CPA request failed"@
}

/// Builds the text of [`request_failed_text`].
pub fn request_failed_message() -> (m: String)
    ensures
        m@ == request_failed_text(),
{
    String::from_str("CPA request failed")
}

/// A command that needs a connection was called before connecting.
pub open spec fn not_connected_text() -> Seq<char> {
    "请先连接 CPA"@
}

/// Builds the text of [`not_connected_text`].
pub fn not_connected_message() -> (m: String)
    ensures
        m@ == not_connected_text(),
{
    String::from_str("请先连接 CPA")
}

/// The management key typed in by hand is blank.
pub open spec fn manual_login_blank_text() -> Seq<char> {
    "CPA Management URL 和明文管理密钥不能为空"@
}

/// Builds the text of [`manual_login_blank_text`].
pub fn manual_login_blank_message() -> (m: String)
    ensures
        m@ == manual_login_blank_text(),
{
    String::from_str("CPA Management URL 和明文管理密钥不能为空")
}

/// The shared connection slot could not be locked.
pub open spec fn lock_failed_text() -> Seq<char> {
    "CPA connection lock failed"@
}

/// Builds the text of [`lock_failed_text`].
pub fn lock_failed_message() -> (m: String)
    ensures
        m@ == lock_failed_text(),
{
    String::from_str("CPA connection lock failed")
}

/// What stands in place of the management key in error texts.
pub open spec fn redaction_marker_text() -> Seq<char> {
    "[REDACTED]"@
}

/// Builds the text of [`redaction_marker_text`].
pub fn redaction_marker_message() -> (m: String)
    ensures
        m@ == redaction_marker_text(),
{
    String::from_str("[REDACTED]")
}

/// The name of the variable that holds the management URL.
pub open spec fn url_variable_text() -> Seq<char> {
    "CPA_MANAGEMENT_URL"@
}

/// Builds the text of [`url_variable_text`].
pub fn url_variable_message() -> (m: String)
    ensures
        m@ == url_variable_text(),
{
    String::from_str("CPA_MANAGEMENT_URL")
}

/// The name of the variable that holds the management key.
pub open spec fn key_variable_text() -> Seq<char> {
    "CPA_MANAGEMENT_KEY"@
}

/// Builds the text of [`key_variable_text`].
pub fn key_variable_message() -> (m: String)
    ensures
        m@ == key_variable_text(),
{
    String::from_str("CPA_MANAGEMENT_KEY")
}

/// The credential store refused to open an entry. The text is this prefix followed by the error's own words.
pub open spec fn credential_store_error_prefix() -> Seq<char> {
    "Windows Credential Manager error: "@
}

/// [`credential_store_error_prefix`] followed by `detail`.
pub fn credential_store_error_message(detail: &str) -> (m: String)
    ensures
        m@ == credential_store_error_prefix() + detail@,
{
    String::from_str("Windows Credential Manager error: ").concat(detail)
}

/// Reading the saved key failed. The text is this prefix followed by the error's own words.
pub open spec fn credential_read_error_prefix() -> Seq<char> {
    "读取 CPA 密钥失败: "@
}

/// [`credential_read_error_prefix`] followed by `detail`.
pub fn credential_read_error_message(detail: &str) -> (m: String)
    ensures
        m@ == credential_read_error_prefix() + detail@,
{
    String::from_str("读取 CPA 密钥失败: ").concat(detail)
}

/// Saving the key failed. The text is this prefix followed by the error's own words.
pub open spec fn credential_save_error_prefix() -> Seq<char> {
    "保存 CPA 密钥失败: "@
}

/// [`credential_save_error_prefix`] followed by `detail`.
pub fn credential_save_error_message(detail: &str) -> (m: String)
    ensures
        m@ == credential_save_error_prefix() + detail@,
{
    String::from_str("保存 CPA 密钥失败: ").concat(detail)
}

/// Deleting the saved key failed. The text is this prefix followed by the error's own words.
pub open spec fn credential_delete_error_prefix() -> Seq<char> {
    "删除 CPA 凭据失败: "@
}

/// [`credential_delete_error_prefix`] followed by `detail`.
pub fn credential_delete_error_message(detail: &str) -> (m: String)
    ensures
        m@ == credential_delete_error_prefix() + detail@,
{
    String::from_str("删除 CPA 凭据失败: ").concat(detail)
}

/// The HTTP request could not be sent. The text is this prefix followed by the error's own words.
pub open spec fn connection_error_prefix() -> Seq<char> {
    "CPA connection failed: "@
}

/// [`connection_error_prefix`] followed by `detail`.
pub fn connection_error_message(detail: &str) -> (m: String)
    ensures
        m@ == connection_error_prefix() + detail@,
{
    String::from_str("CPA connection failed: ").concat(detail)
}

/// The HTTP response body could not be read. The text is this prefix followed by the error's own words.
pub open spec fn response_error_prefix() -> Seq<char> {
    "CPA response failed: "@
}

/// [`response_error_prefix`] followed by `detail`.
pub fn response_error_message(detail: &str) -> (m: String)
    ensures
        m@ == response_error_prefix() + detail@,
{
    String::from_str("CPA response failed: ").concat(detail)
}

/// The text that reports an environment variable whose value is not valid Unicode.
pub open spec fn env_not_unicode_text(name: Seq<char>) -> Seq<char> {
    "系统环境变量 "@ + name + " 不是有效文本"@
}

/// Builds [`env_not_unicode_text`] for the variable `name`.
pub fn env_not_unicode_message(name: &str) -> (m: String)
    ensures
        m@ == env_not_unicode_text(name@),
{
    String::from_str("系统环境变量 ").concat(name).concat(" 不是有效文本")
}

} // verus!
