//! Building a configuration from environment values, and the paths of an
//! account's state files.
use crate::account::WechatAccountId;
use crate::client::WechatConfig;
use crate::error::WechatError;
use crate::text::{join_path, join_path_spec, parse_u64, parse_u64_spec};
use vstd::prelude::*;

verus! {

/// Variable that overrides the state root path.
pub const ENV_STATE_PATH: &'static str = "WECHAT_SDK_RS_STATE_PATH";

/// Variable that names the account (required).
pub const ENV_ACCOUNT_ID: &'static str = "WECHAT_SDK_RS_ACCOUNT_ID";

/// Variable that sets the HTTP timeout in milliseconds.
pub const ENV_HTTP_TIMEOUT: &'static str = "WECHAT_SDK_RS_HTTP_TIMEOUT";

/// Variable that sets the QR-login timeout in milliseconds.
pub const ENV_QR_LOGIN_TIMEOUT: &'static str = "WECHAT_SDK_RS_QR_LOGIN_TIMEOUT";

/// HTTP timeout used when none is configured, in milliseconds.
pub const DEFAULT_HTTP_TIMEOUT_MS: u64 = 2000;

/// QR-login timeout used when none is configured, in milliseconds.
pub const DEFAULT_QR_LOGIN_TIMEOUT_MS: u64 = 120000;

/// The values a configuration is read from: the SDK's variables (each `None`
/// when unset or not Unicode) and the user's home and template directories.
#[derive(Debug, Clone)]
pub struct ConfigEnv {
    pub state_path: Option<String>,
    pub account_id: Option<String>,
    pub http_timeout: Option<String>,
    pub qr_login_timeout: Option<String>,
    pub home_dir: Option<String>,
    pub template_dir: Option<String>,
}

/// View of an optional string.
pub open spec fn opt_view(o: Option<String>) -> Option<Seq<char>> {
    match o {
        Some(s) => Some(s@),
        None => None,
    }
}

/// Name of the state directory made under the home (or template) directory.
pub open spec fn default_state_dir_name() -> Seq<char> {
    ".wechat"@
}

/// The state root: the variable's value as given, else `.wechat` under the home
/// directory, else under the template directory, else none.
pub open spec fn state_path_spec(env: ConfigEnv) -> Option<Seq<char>> {
    match env.state_path {
        Some(p) => Some(p@),
        None => match env.home_dir {
            Some(h) => Some(join_path_spec(h@, default_state_dir_name())),
            None => match env.template_dir {
                Some(t) => Some(join_path_spec(t@, default_state_dir_name())),
                None => None,
            },
        },
    }
}

/// A timeout read from a variable: its value when it parses as a `u64`, else the default.
pub open spec fn timeout_spec(var: Option<Seq<char>>, default: u64) -> u64 {
    match var {
        Some(s) => match parse_u64_spec(s) {
            Some(v) => v,
            None => default,
        },
        None => default,
    }
}

fn state_path_from_env(env: &ConfigEnv) -> (res: Result<String, WechatError>)
    ensures
        match state_path_spec(*env) {
            Some(p) => res is Ok && res->Ok_0@ == p,
            None => res == Err::<String, WechatError>(WechatError::NoStatePath),
        },
{
    match &env.state_path {
        Some(p) => Ok(p.clone()),
        None => {
            let base = match &env.home_dir {
                Some(h) => h,
                None => match &env.template_dir {
                    Some(t) => t,
                    None => {
                        return Err(WechatError::NoStatePath);
                    },
                },
            };
            Ok(join_path(base.as_str(), ".wechat"))
        },
    }
}

fn timeout_from_env(var: &Option<String>, default: u64) -> (res: u64)
    ensures
        res == timeout_spec(opt_view(*var), default),
{
    match var {
        Some(s) => match parse_u64(s.as_str()) {
            Some(v) => v,
            None => default,
        },
        None => default,
    }
}

impl WechatConfig {
    /// Builds a configuration from the environment's values.
    ///
    /// Fails with `NoStatePath` when no state root can be found, else with
    /// `AccountIdEnvNotFound` when the account id is unset. The timeouts are
    /// always set: to the variable's value when it parses, else to the default.
    pub fn from_env(env: &ConfigEnv) -> (res: Result<WechatConfig, WechatError>)
        ensures
            state_path_spec(*env) is None ==> res == Err::<WechatConfig, WechatError>(
                WechatError::NoStatePath,
            ),
            state_path_spec(*env) is Some && env.account_id is None ==> res == Err::<
                WechatConfig,
                WechatError,
            >(WechatError::AccountIdEnvNotFound),
            state_path_spec(*env) is Some && env.account_id is Some ==> {
                &&& res is Ok
                &&& res->Ok_0.state_path@ == state_path_spec(*env)->Some_0
                &&& res->Ok_0.account_id == WechatAccountId(env.account_id->Some_0)
                &&& res->Ok_0.http_timeout == Some(
                    timeout_spec(opt_view(env.http_timeout), DEFAULT_HTTP_TIMEOUT_MS),
                )
                &&& res->Ok_0.qr_login_timeout == Some(
                    timeout_spec(opt_view(env.qr_login_timeout), DEFAULT_QR_LOGIN_TIMEOUT_MS),
                )
                &&& res->Ok_0.http_api_get_updates_timeout is None
            },
    {
        let state_path = match state_path_from_env(env) {
            Ok(p) => p,
            Err(e) => {
                return Err(e);
            },
        };
        let account_id = match &env.account_id {
            Some(a) => WechatAccountId(a.clone()),
            None => {
                return Err(WechatError::AccountIdEnvNotFound);
            },
        };
        Ok(WechatConfig {
            state_path,
            account_id,
            http_timeout: Some(timeout_from_env(&env.http_timeout, DEFAULT_HTTP_TIMEOUT_MS)),
            qr_login_timeout: Some(
                timeout_from_env(&env.qr_login_timeout, DEFAULT_QR_LOGIN_TIMEOUT_MS),
            ),
            http_api_get_updates_timeout: None,
        })
    }
}

/// The directory that holds an account's state: the account id joined onto the state root.
pub open spec fn account_state_dir_spec(config: WechatConfig) -> Seq<char> {
    join_path_spec(config.state_path@, config.account_id@)
}

/// Name of the file that stores an account's credentials.
pub open spec fn account_file_name() -> Seq<char> {
    "config.json"@
}

/// Name of the file that stores a session's context.
pub open spec fn session_file_name() -> Seq<char> {
    "session_context.json"@
}

impl WechatConfig {
    /// The directory that holds this account's state.
    pub fn account_state_dir(&self) -> (res: String)
        ensures
            res@ == account_state_dir_spec(*self),
    {
        join_path(self.state_path.as_str(), self.account_id.as_str())
    }
}

/// Path of the credentials file in an account's state directory.
pub fn account_file_path(dir: &str) -> (res: String)
    ensures
        res@ == join_path_spec(dir@, account_file_name()),
{
    join_path(dir, "config.json")
}

/// Path of the session-context file in an account's state directory.
pub fn session_file_path(dir: &str) -> (res: String)
    ensures
        res@ == join_path_spec(dir@, session_file_name()),
{
    join_path(dir, "session_context.json")
}

/// What to do with an account's state directory once it has been looked at.
#[derive(Debug)]
pub enum StateDir {
    /// The directory exists and can be used.
    Ready(String),
    /// Nothing is there: the directory and its parents must be created.
    Create(String),
}

/// Decides on the state directory at `path` from whether something exists there
/// and whether it is a directory: something that is not a directory is an error.
pub fn resolve_state_dir(path: String, exists: bool, is_dir: bool) -> (res: Result<StateDir, WechatError>)
    ensures
        exists && is_dir ==> res == Ok::<StateDir, WechatError>(StateDir::Ready(path)),
        exists && !is_dir ==> res == Err::<StateDir, WechatError>(WechatError::StatePathNotDir(path)),
        !exists ==> res == Ok::<StateDir, WechatError>(StateDir::Create(path)),
{
    if exists {
        if is_dir {
            Ok(StateDir::Ready(path))
        } else {
            Err(WechatError::StatePathNotDir(path))
        }
    } else {
        Ok(StateDir::Create(path))
    }
}

/// State files are written under `{state_path}/{account_id}/`: when the state
/// root does not end with `/` and the account id is a plain relative name (not
/// empty, not starting or ending with `/`), the credentials and session files
/// are `{state_path}/{account_id}/config.json` and
/// `{state_path}/{account_id}/session_context.json`.
pub proof fn state_files_under_account_dir(config: WechatConfig)
    requires
        config.state_path@.len() > 0,
        config.state_path@.last() != '/',
        config.account_id@.len() > 0,
        config.account_id@[0] != '/',
        config.account_id@.last() != '/',
    ensures
        join_path_spec(account_state_dir_spec(config), account_file_name()) == config.state_path@
            + seq!['/'] + config.account_id@ + seq!['/'] + account_file_name(),
        join_path_spec(account_state_dir_spec(config), session_file_name()) == config.state_path@
            + seq!['/'] + config.account_id@ + seq!['/'] + session_file_name(),
        account_file_name() == "config.json"@,
        session_file_name() == "session_context.json"@,
{
    reveal_strlit("config.json");
    reveal_strlit("session_context.json");
    let dir = config.state_path@ + seq!['/'] + config.account_id@;
    assert(account_state_dir_spec(config) == dir);
    assert(dir.last() == config.account_id@.last());
    assert(dir.len() > 0);
}

/// Where the state root comes from: the state-path variable exactly as given;
/// without it, `.wechat` under the home directory whatever the template
/// directory; only without a home directory, `.wechat` under the template
/// directory; and with neither, no root. The defaults of the timeouts are two
/// seconds (HTTP) and two minutes (QR login), and a timeout variable that parses
/// gives its own value.
pub proof fn state_root_and_timeout_sources(env: ConfigEnv, var: Seq<char>, default: u64)
    ensures
        env.state_path matches Some(p) ==> state_path_spec(env) == Some(p@),
        env.state_path is None && env.home_dir is Some ==> state_path_spec(env) == Some(
            join_path_spec(env.home_dir->Some_0@, ".wechat"@),
        ),
        env.state_path is None && env.home_dir is None && env.template_dir is Some
            ==> state_path_spec(env) == Some(join_path_spec(env.template_dir->Some_0@, ".wechat"@)),
        env.state_path is None && env.home_dir is None && env.template_dir is None
            ==> state_path_spec(env) is None,
        DEFAULT_HTTP_TIMEOUT_MS == 2000,
        DEFAULT_QR_LOGIN_TIMEOUT_MS == 120000,
        parse_u64_spec(var) matches Some(v) ==> timeout_spec(Some(var), default) == v,
        parse_u64_spec(var) is None ==> timeout_spec(Some(var), default) == default,
        timeout_spec(None, default) == default,
{
}

} // verus!
