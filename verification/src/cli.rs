//! The command line: the subcommands with their options, the global options, and the
//! message that reports a subcommand's success.

use vstd::prelude::*;
use vstd::string::*;
use crate::text::{opt_view, texts_view};

verus! {

/// A subcommand and its arguments.
#[derive(Debug, PartialEq, Eq)]
pub enum Commands {
    /// Adds a user (`occ user:add`).
    Add {
        uid: String,
        generate_password: bool,
        display_name: Option<String>,
        group: Option<String>,
        email: Option<String>,
    },
    /// Sets a user's quota (`occ user:setting <uid> files quota <quota>`).
    SetQuota { uid: String, quota: String },
    /// Deletes a user (`occ user:delete`).
    UserDelete { target_user: String },
    /// Deletes a file or a directory by path or id (`occ files:delete`).
    FileDelete { path_or_id: String },
    /// Places a file of the server into Nextcloud (`occ files:put`).
    FilePut { local_path: String, target_path_or_id: String },
    /// Rescans files (`occ files:scan`).
    FileScan {
        user_id: Option<String>,
        all: bool,
        path: Option<String>,
        unscanned: bool,
        shallow: bool,
        home_only: bool,
        no_lock: bool,
    },
    /// Lists the users (`occ user:list`).
    UserList,
    /// Lists the groups (`occ group:list`).
    GroupList,
    /// Lists the available occ commands (`occ list`).
    List,
    /// Shows the server's status (`occ status`).
    Status,
    /// Switches or shows the maintenance mode (`occ maintenance:mode`).
    MaintenanceMode { on: bool, off: bool },
    /// Copies the local source directory to the server with rsync, then optionally rescans.
    Sync {
        remote_dir: String,
        exclude: Vec<String>,
        delete: bool,
        dry_run: bool,
        scan_all: bool,
        scan_user: Option<String>,
        scan_path: Option<String>,
    },
}

/// What a subcommand holds, with its strings as texts.
pub enum CommandView {
    Add {
        uid: Seq<char>,
        generate_password: bool,
        display_name: Option<Seq<char>>,
        group: Option<Seq<char>>,
        email: Option<Seq<char>>,
    },
    SetQuota { uid: Seq<char>, quota: Seq<char> },
    UserDelete { target_user: Seq<char> },
    FileDelete { path_or_id: Seq<char> },
    FilePut { local_path: Seq<char>, target_path_or_id: Seq<char> },
    FileScan {
        user_id: Option<Seq<char>>,
        all: bool,
        path: Option<Seq<char>>,
        unscanned: bool,
        shallow: bool,
        home_only: bool,
        no_lock: bool,
    },
    UserList,
    GroupList,
    List,
    Status,
    MaintenanceMode { on: bool, off: bool },
    Sync {
        remote_dir: Seq<char>,
        exclude: Seq<Seq<char>>,
        delete: bool,
        dry_run: bool,
        scan_all: bool,
        scan_user: Option<Seq<char>>,
        scan_path: Option<Seq<char>>,
    },
}

impl View for Commands {
    type V = CommandView;

    open spec fn view(&self) -> CommandView {
        match self {
            Commands::Add { uid, generate_password, display_name, group, email } => CommandView::Add {
                uid: uid@,
                generate_password: *generate_password,
                display_name: opt_view(*display_name),
                group: opt_view(*group),
                email: opt_view(*email),
            },
            Commands::SetQuota { uid, quota } => CommandView::SetQuota { uid: uid@, quota: quota@ },
            Commands::UserDelete { target_user } => CommandView::UserDelete {
                target_user: target_user@,
            },
            Commands::FileDelete { path_or_id } => CommandView::FileDelete {
                path_or_id: path_or_id@,
            },
            Commands::FilePut { local_path, target_path_or_id } => CommandView::FilePut {
                local_path: local_path@,
                target_path_or_id: target_path_or_id@,
            },
            Commands::FileScan { user_id, all, path, unscanned, shallow, home_only, no_lock } =>
                CommandView::FileScan {
                user_id: opt_view(*user_id),
                all: *all,
                path: opt_view(*path),
                unscanned: *unscanned,
                shallow: *shallow,
                home_only: *home_only,
                no_lock: *no_lock,
            },
            Commands::UserList => CommandView::UserList,
            Commands::GroupList => CommandView::GroupList,
            Commands::List => CommandView::List,
            Commands::Status => CommandView::Status,
            Commands::MaintenanceMode { on, off } => CommandView::MaintenanceMode {
                on: *on,
                off: *off,
            },
            Commands::Sync {
                remote_dir,
                exclude,
                delete,
                dry_run,
                scan_all,
                scan_user,
                scan_path,
            } => CommandView::Sync {
                remote_dir: remote_dir@,
                exclude: texts_view(exclude@),
                delete: *delete,
                dry_run: *dry_run,
                scan_all: *scan_all,
                scan_user: opt_view(*scan_user),
                scan_path: opt_view(*scan_path),
            },
        }
    }
}

/// The global options and the subcommand of one invocation.
#[derive(Debug, PartialEq, Eq)]
pub struct Args {
    pub command: Commands,
    /// SSH host, as `host:port`.
    pub host: Option<String>,
    pub ssh_user: Option<String>,
    /// Path of the SSH private key.
    pub identity_file: Option<String>,
    pub occ_path: Option<String>,
    pub php_path: Option<String>,
    /// Path of the configuration file.
    pub config_file: String,
}

/// The texts of one invocation's options.
pub struct ArgsView {
    pub command: CommandView,
    pub host: Option<Seq<char>>,
    pub ssh_user: Option<Seq<char>>,
    pub identity_file: Option<Seq<char>>,
    pub occ_path: Option<Seq<char>>,
    pub php_path: Option<Seq<char>>,
    pub config_file: Seq<char>,
}

impl View for Args {
    type V = ArgsView;

    open spec fn view(&self) -> ArgsView {
        ArgsView {
            command: self.command@,
            host: opt_view(self.host),
            ssh_user: opt_view(self.ssh_user),
            identity_file: opt_view(self.identity_file),
            occ_path: opt_view(self.occ_path),
            php_path: opt_view(self.php_path),
            config_file: self.config_file@,
        }
    }
}

/// The message that reports that `cmd` succeeded.
pub open spec fn success_text(cmd: CommandView) -> Seq<char> {
    match cmd {
        CommandView::Add { uid, .. } => "ユーザー '"@ + uid + "' を作成しました。"@,
        CommandView::SetQuota { uid, quota } => "ユーザー '"@ + uid + "' のクォータを '"@ + quota
            + "' に設定しました。"@,
        CommandView::UserDelete { target_user } => "ユーザー '"@ + target_user + "' を削除しました。"@,
        CommandView::FileDelete { path_or_id } => "ファイル/ディレクトリ '"@ + path_or_id
            + "' を削除しました。"@,
        CommandView::FilePut { local_path, target_path_or_id } => "ファイル '"@ + local_path
            + "' を Nextcloud 上の '"@ + target_path_or_id + "' に配置しました。"@,
        CommandView::FileScan { user_id, all, path, .. } => if all {
            "全ユーザーのファイルスキャンが完了しました。"@
        } else if path is Some {
            "パス '"@ + path->0 + "' のファイルスキャンが完了しました。"@
        } else if user_id is Some {
            "ユーザー '"@ + user_id->0 + "' のファイルスキャンが完了しました。"@
        } else {
            "ファイルスキャンが完了しました。"@
        },
        CommandView::UserList => "ユーザー一覧を取得しました。"@,
        CommandView::GroupList => "グループ一覧を取得しました。"@,
        CommandView::List => "利用可能な OCC コマンド一覧を取得しました。"@,
        CommandView::Status => "ステータス情報を取得しました。"@,
        CommandView::MaintenanceMode { on, off } => if on {
            "メンテナンスモードを有効にしました。"@
        } else if off {
            "メンテナンスモードを無効にしました。"@
        } else {
            "メンテナンスモードの状態を取得しました。"@
        },
        CommandView::Sync { dry_run, .. } => if dry_run {
            "ドライランが完了しました。(変更は行われていません)"@
        } else {
            "ファイル同期および Nextcloud への反映処理が完了しました。"@
        },
    }
}

/// `a + b + c` as a new string.
fn join3(a: &str, b: &str, c: &str) -> (r: String)
    ensures
        r@ == a@ + b@ + c@,
{
    let mut r = a.to_owned();
    r.append(b);
    r.append(c);
    r
}

impl Commands {
    /// Whether this is the `Sync` subcommand.
    pub fn is_sync(&self) -> (r: bool)
        ensures
            r == (self is Sync),
            r == (self@ is Sync),
    {
        match self {
            Commands::Sync { .. } => true,
            _ => false,
        }
    }

    /// The message that reports that this subcommand succeeded.
    pub fn success_message(&self) -> (r: String)
        ensures
            r@ == success_text(self@),
    {
        match self {
            Commands::Add { uid, .. } => join3("ユーザー '", uid.as_str(), "' を作成しました。"),
            Commands::SetQuota { uid, quota } => {
                let mut r = join3("ユーザー '", uid.as_str(), "' のクォータを '");
                r.append(quota.as_str());
                r.append("' に設定しました。");
                r
            },
            Commands::UserDelete { target_user } => join3(
                "ユーザー '",
                target_user.as_str(),
                "' を削除しました。",
            ),
            Commands::FileDelete { path_or_id } => join3(
                "ファイル/ディレクトリ '",
                path_or_id.as_str(),
                "' を削除しました。",
            ),
            Commands::FilePut { local_path, target_path_or_id } => {
                let mut r = join3("ファイル '", local_path.as_str(), "' を Nextcloud 上の '");
                r.append(target_path_or_id.as_str());
                r.append("' に配置しました。");
                r
            },
            Commands::FileScan { user_id, all, path, .. } => {
                if *all {
                    "全ユーザーのファイルスキャンが完了しました。".to_owned()
                } else {
                    match path {
                        Some(p) => join3("パス '", p.as_str(), "' のファイルスキャンが完了しました。"),
                        None => match user_id {
                            Some(u) => join3(
                                "ユーザー '",
                                u.as_str(),
                                "' のファイルスキャンが完了しました。",
                            ),
                            None => "ファイルスキャンが完了しました。".to_owned(),
                        },
                    }
                }
            },
            Commands::UserList => "ユーザー一覧を取得しました。".to_owned(),
            Commands::GroupList => "グループ一覧を取得しました。".to_owned(),
            Commands::List => "利用可能な OCC コマンド一覧を取得しました。".to_owned(),
            Commands::Status => "ステータス情報を取得しました。".to_owned(),
            Commands::MaintenanceMode { on, off } => {
                if *on {
                    "メンテナンスモードを有効にしました。".to_owned()
                } else if *off {
                    "メンテナンスモードを無効にしました。".to_owned()
                } else {
                    "メンテナンスモードの状態を取得しました。".to_owned()
                }
            },
            Commands::Sync { dry_run, .. } => {
                if *dry_run {
                    "ドライランが完了しました。(変更は行われていません)".to_owned()
                } else {
                    "ファイル同期および Nextcloud への反映処理が完了しました。".to_owned()
                }
            },
        }
    }
}

} // verus!
