//! What a remote command needs (where to connect, as whom, with which key) and what it
//! gives back, with the messages that report the connection's progress.

use vstd::prelude::*;
use vstd::string::*;
use crate::text::opt_view;

verus! {

/// Where and as whom to connect over SSH.
#[derive(Debug, PartialEq, Eq)]
pub struct SshConfig {
    /// The address, as `host` or `host:port`.
    pub host: String,
    pub ssh_user: String,
    /// Path of the private key; the SSH agent is used when there is none.
    pub identity_file: Option<String>,
}

/// The texts an SSH configuration holds.
pub struct SshConfigView {
    pub host: Seq<char>,
    pub ssh_user: Seq<char>,
    pub identity_file: Option<Seq<char>>,
}

impl View for SshConfig {
    type V = SshConfigView;

    open spec fn view(&self) -> SshConfigView {
        SshConfigView {
            host: self.host@,
            ssh_user: self.ssh_user@,
            identity_file: opt_view(self.identity_file),
        }
    }
}

/// What a remote command printed, and the status it exited with.
#[derive(Debug, PartialEq, Eq)]
pub struct CommandResult {
    pub stdout: String,
    pub stderr: String,
    pub exit_status: i32,
}

/// The texts and status of a remote command's result.
pub struct CommandResultView {
    pub stdout: Seq<char>,
    pub stderr: Seq<char>,
    pub exit_status: i32,
}

impl View for CommandResult {
    type V = CommandResultView;

    open spec fn view(&self) -> CommandResultView {
        CommandResultView {
            stdout: self.stdout@,
            stderr: self.stderr@,
            exit_status: self.exit_status,
        }
    }
}

/// How the session authenticates.
#[derive(Debug, PartialEq, Eq)]
pub enum Authentication {
    /// With the private key stored at this path.
    KeyFile(String),
    /// Through the SSH agent.
    Agent,
}

impl SshConfig {
    /// A key file when one is configured, the SSH agent otherwise.
    pub fn authentication(&self) -> (r: Authentication)
        ensures
            match self.identity_file {
                Some(path) => r matches Authentication::KeyFile(p) && p@ == path@,
                None => r is Agent,
            },
    {
        match &self.identity_file {
            Some(path) => Authentication::KeyFile(path.clone()),
            None => Authentication::Agent,
        }
    }

    /// The message printed before connecting: user and address.
    pub fn connect_message(&self) -> (r: String)
        ensures
            r@ == "SSH接続を開始します: "@ + self.ssh_user@ + "@"@ + self.host@,
    {
        let mut r = "SSH接続を開始します: ".to_owned();
        r.append(self.ssh_user.as_str());
        r.append("@");
        r.append(self.host.as_str());
        r
    }
}

/// The message printed before authenticating through the SSH agent.
pub fn agent_message() -> (r: String)
    ensures
        r@ == "鍵パス未指定のため、SSH Agent 経由で認証します"@,
{
    "鍵パス未指定のため、SSH Agent 経由で認証します".to_owned()
}

/// The error given when the server did not accept the authentication.
pub fn authentication_failed_message() -> (r: String)
    ensures
        r@ == "SSH認証に失敗しました。秘密鍵、SSH Agent、またはユーザー名を確認してください。"@,
{
    "SSH認証に失敗しました。秘密鍵、SSH Agent、またはユーザー名を確認してください。".to_owned()
}

/// The message printed once the server accepted the authentication.
pub fn authenticated_message() -> (r: String)
    ensures
        r@ == "SSH認証に成功しました。"@,
{
    "SSH認証に成功しました。".to_owned()
}

/// The message printed before running `command` on the server.
pub fn command_message(command: &str) -> (r: String)
    ensures
        r@ == "実行コマンド: "@ + command@,
{
    let mut r = "実行コマンド: ".to_owned();
    r.append(command);
    r
}

} // verus!
