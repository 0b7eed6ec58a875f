//! One run of the tool, as a state machine: the program around it performs each action
//! (reading the configuration, running rsync, running a command over SSH, printing) and
//! hands back what came of it; every decision of the run is taken here.

use vstd::prelude::*;
use vstd::string::*;
use crate::cli::{Args, ArgsView, CommandView, Commands, success_text};
use crate::config::{Config, ConfigView};
use crate::occ::{build_occ_command, occ_arguments, occ_command_text, occ_prefix};
use crate::ssh::{CommandResult, CommandResultView, SshConfig, SshConfigView};
use crate::sync::{SyncParams, SyncParamsView};
use crate::text::{
    copy_opt,
    host_and_port,
    join_host_port,
    joined_address,
    opt_view,
    push_signed_decimal,
    signed_decimal,
    split_host_port,
    texts_view,
    trim_text,
    trimmed,
};

verus! {

/// The settings a run works with, once the options and the configuration are combined.
#[derive(Debug, PartialEq, Eq)]
pub struct Settings {
    /// The SSH host, without its port.
    pub host: String,
    pub port: Option<u16>,
    pub ssh_user: String,
    pub identity_file: Option<String>,
    pub occ_path: String,
    pub php_path: String,
}

/// The texts a run's settings hold.
pub struct SettingsView {
    pub host: Seq<char>,
    pub port: Option<u16>,
    pub ssh_user: Seq<char>,
    pub identity_file: Option<Seq<char>>,
    pub occ_path: Seq<char>,
    pub php_path: Seq<char>,
}

impl View for Settings {
    type V = SettingsView;

    open spec fn view(&self) -> SettingsView {
        SettingsView {
            host: self.host@,
            port: self.port,
            ssh_user: self.ssh_user@,
            identity_file: opt_view(self.identity_file),
            occ_path: self.occ_path@,
            php_path: self.php_path@,
        }
    }
}

/// Why a run stopped.
#[derive(Debug, PartialEq, Eq, Clone, Copy)]
pub enum RunError {
    /// Neither the options nor the configuration name the SSH user.
    MissingSshUser,
    /// The machine was handed an event that its phase does not wait for.
    UnexpectedEvent,
}

/// The message of a run error.
pub open spec fn error_text(e: RunError) -> Seq<char> {
    match e {
        RunError::MissingSshUser => "エラー: SSH ユーザー名が未指定です。CLI引数 (--ssh-user) または config.toml で指定してください。"@,
        RunError::UnexpectedEvent => "エラー: 予期しない順序で処理が進みました。"@,
    }
}

impl RunError {
    /// The message that reports this error.
    pub fn message(&self) -> (r: String)
        ensures
            r@ == error_text(*self),
    {
        match self {
            RunError::MissingSshUser => "エラー: SSH ユーザー名が未指定です。CLI引数 (--ssh-user) または config.toml で指定してください。".to_owned(),
            RunError::UnexpectedEvent => "エラー: 予期しない順序で処理が進みました。".to_owned(),
        }
    }
}

/// The option's value when it is given, the configuration's otherwise.
pub open spec fn preferred(cli: Option<Seq<char>>, file: Option<Seq<char>>) -> Option<Seq<char>> {
    if cli is Some {
        cli
    } else {
        file
    }
}

/// The option's value, else the configuration's, else `default`.
pub open spec fn setting_or(cli: Option<Seq<char>>, file: Option<Seq<char>>, default: Seq<char>) -> Seq<
    char,
> {
    match preferred(cli, file) {
        Some(v) => v,
        None => default,
    }
}

/// The address used when neither the options nor the configuration give one.
pub open spec fn default_host() -> Seq<char> {
    "example.server.jp:22"@
}

/// The occ script used when neither the options nor the configuration give one.
pub open spec fn default_occ_path() -> Seq<char> {
    "./nextcloud/occ"@
}

/// The PHP interpreter used when neither the options nor the configuration give one.
pub open spec fn default_php_path() -> Seq<char> {
    "/opt/php-8.3/bin/php"@
}

/// The settings of a run: each option given on the command line wins over the
/// configuration, which wins over the built-in default; the address is split into host and
/// port; the SSH user has no default, and a run without one is refused.
pub open spec fn settings_from(args: ArgsView, config: ConfigView) -> Result<SettingsView, RunError> {
    match preferred(args.ssh_user, config.ssh_user) {
        None => Err(RunError::MissingSshUser),
        Some(user) => {
            let address = host_and_port(setting_or(args.host, config.host, default_host()));
            Ok(
                SettingsView {
                    host: address.0,
                    port: address.1,
                    ssh_user: user,
                    identity_file: preferred(args.identity_file, config.identity_file),
                    occ_path: setting_or(args.occ_path, config.occ_path, default_occ_path()),
                    php_path: setting_or(args.php_path, config.php_path, default_php_path()),
                },
            )
        },
    }
}

fn prefer(cli: &Option<String>, file: &Option<String>) -> (r: Option<String>)
    ensures
        opt_view(r) == preferred(opt_view(*cli), opt_view(*file)),
{
    match cli {
        Some(v) => Some(v.clone()),
        None => copy_opt(file),
    }
}

fn prefer_or(cli: &Option<String>, file: &Option<String>, default: &str) -> (r: String)
    ensures
        r@ == setting_or(opt_view(*cli), opt_view(*file), default@),
{
    match prefer(cli, file) {
        Some(v) => v,
        None => default.to_owned(),
    }
}

/// Combines the options and the configuration into the settings of a run (see
/// `settings_from`).
pub fn resolve_settings(args: &Args, config: &Config) -> (r: Result<Settings, RunError>)
    ensures
        match settings_from(args@, config@) {
            Ok(s) => r is Ok && r->Ok_0@ == s,
            Err(e) => r == Err::<Settings, RunError>(e),
        },
{
    let address = prefer_or(&args.host, &config.host, "example.server.jp:22");
    let (host, port) = split_host_port(address.as_str());
    let ssh_user = match prefer(&args.ssh_user, &config.ssh_user) {
        Some(u) => u,
        None => {
            return Err(RunError::MissingSshUser);
        },
    };
    let identity_file = prefer(&args.identity_file, &config.identity_file);
    let occ_path = prefer_or(&args.occ_path, &config.occ_path, "./nextcloud/occ");
    let php_path = prefer_or(&args.php_path, &config.php_path, "/opt/php-8.3/bin/php");
    Ok(Settings { host, port, ssh_user, identity_file, occ_path, php_path })
}

/// Where a run stands.
pub enum Phase {
    /// Nothing done yet.
    Start,
    /// Waiting for the configuration file.
    AwaitConfig,
    /// Waiting for rsync to finish, with the run's settings.
    AwaitSync { settings: Settings },
    /// Waiting for the rescan that follows a transfer.
    AwaitScan,
    /// Waiting for the occ command.
    AwaitRemote,
    /// The run is over.
    Done,
}

/// Where a run stands, with its texts.
pub enum PhaseView {
    Start,
    AwaitConfig,
    AwaitSync { settings: SettingsView },
    AwaitScan,
    AwaitRemote,
    Done,
}

impl View for Phase {
    type V = PhaseView;

    open spec fn view(&self) -> PhaseView {
        match self {
            Phase::Start => PhaseView::Start,
            Phase::AwaitConfig => PhaseView::AwaitConfig,
            Phase::AwaitSync { settings } => PhaseView::AwaitSync { settings: settings@ },
            Phase::AwaitScan => PhaseView::AwaitScan,
            Phase::AwaitRemote => PhaseView::AwaitRemote,
            Phase::Done => PhaseView::Done,
        }
    }
}

/// What came of the last action.
pub enum RunEvent {
    /// The run begins.
    Begin,
    /// The configuration file was read (an absent file reads as the empty configuration).
    ConfigLoaded(Config),
    /// rsync finished successfully.
    RsyncFinished,
    /// The remote command ran; here is what it gave back.
    RemoteFinished(CommandResult),
}

/// What came of the last action, with its texts.
pub enum RunEventView {
    Begin,
    ConfigLoaded(ConfigView),
    RsyncFinished,
    RemoteFinished(CommandResultView),
}

impl View for RunEvent {
    type V = RunEventView;

    open spec fn view(&self) -> RunEventView {
        match self {
            RunEvent::Begin => RunEventView::Begin,
            RunEvent::ConfigLoaded(c) => RunEventView::ConfigLoaded(c@),
            RunEvent::RsyncFinished => RunEventView::RsyncFinished,
            RunEvent::RemoteFinished(r) => RunEventView::RemoteFinished(r@),
        }
    }
}

/// A line to print, on standard output or on standard error.
#[derive(Debug, PartialEq, Eq)]
pub enum OutputLine {
    Stdout(String),
    Stderr(String),
}

/// A line to print, with its text.
pub enum OutputLineView {
    Stdout(Seq<char>),
    Stderr(Seq<char>),
}

impl View for OutputLine {
    type V = OutputLineView;

    open spec fn view(&self) -> OutputLineView {
        match self {
            OutputLine::Stdout(s) => OutputLineView::Stdout(s@),
            OutputLine::Stderr(s) => OutputLineView::Stderr(s@),
        }
    }
}

/// The texts of a list of lines.
pub open spec fn lines_view(lines: Seq<OutputLine>) -> Seq<OutputLineView> {
    lines.map_values(|l: OutputLine| l@)
}

/// What the program is to do next.
pub enum RunAction {
    /// Read the configuration file at this path.
    LoadConfig(String),
    /// Run rsync with these parameters.
    RunRsync(SyncParams),
    /// Run this command on the server.
    ExecuteRemote(SshConfig, String),
    /// End the run with this outcome.
    Finish(Result<(), RunError>),
}

/// What the program is to do next, with its texts.
pub enum RunActionView {
    LoadConfig(Seq<char>),
    RunRsync(SyncParamsView),
    ExecuteRemote(SshConfigView, Seq<char>),
    Finish(Result<(), RunError>),
}

impl View for RunAction {
    type V = RunActionView;

    open spec fn view(&self) -> RunActionView {
        match self {
            RunAction::LoadConfig(p) => RunActionView::LoadConfig(p@),
            RunAction::RunRsync(p) => RunActionView::RunRsync(p@),
            RunAction::ExecuteRemote(c, cmd) => RunActionView::ExecuteRemote(c@, cmd@),
            RunAction::Finish(r) => RunActionView::Finish(*r),
        }
    }
}

/// One step of a run: lines to print, then an action.
pub struct RunStep {
    pub lines: Vec<OutputLine>,
    pub action: RunAction,
}

/// One step of a run, with its texts.
pub struct RunStepView {
    pub lines: Seq<OutputLineView>,
    pub action: RunActionView,
}

impl View for RunStep {
    type V = RunStepView;

    open spec fn view(&self) -> RunStepView {
        RunStepView { lines: lines_view(self.lines@), action: self.action@ }
    }
}

/// A run: the invocation it carries out and where it stands.
pub struct RunMachine {
    pub args: Args,
    pub phase: Phase,
}

/// A run, with its texts.
pub struct RunMachineView {
    pub args: ArgsView,
    pub phase: PhaseView,
}

impl View for RunMachine {
    type V = RunMachineView;

    open spec fn view(&self) -> RunMachineView {
        RunMachineView { args: self.args@, phase: self.phase@ }
    }
}

/// The local directory whose contents a transfer copies.
pub open spec fn source_dir() -> Seq<char> {
    "rsync_target"@
}

/// The transfer that a `Sync` subcommand asks for, with the run's settings.
pub open spec fn sync_params_for(cmd: CommandView, s: SettingsView) -> SyncParamsView {
    match cmd {
        CommandView::Sync { remote_dir, exclude, delete, dry_run, .. } => SyncParamsView {
            local_dir: source_dir(),
            remote_dir,
            host: s.host,
            port: s.port,
            ssh_user: s.ssh_user,
            identity_file: s.identity_file,
            excludes: exclude,
            delete,
            dry_run,
        },
        _ => SyncParamsView {
            local_dir: source_dir(),
            remote_dir: Seq::empty(),
            host: s.host,
            port: s.port,
            ssh_user: s.ssh_user,
            identity_file: s.identity_file,
            excludes: Seq::empty(),
            delete: false,
            dry_run: false,
        },
    }
}

/// The SSH connection of a run: the host joined with its port again.
pub open spec fn ssh_config_for(s: SettingsView) -> SshConfigView {
    SshConfigView {
        host: joined_address(s.host, s.port),
        ssh_user: s.ssh_user,
        identity_file: s.identity_file,
    }
}

/// Whether a transfer is a dry run.
pub open spec fn is_dry_run(cmd: CommandView) -> bool {
    match cmd {
        CommandView::Sync { dry_run, .. } => dry_run,
        _ => false,
    }
}

/// Whether a transfer asks for a rescan afterwards.
pub open spec fn scan_requested(cmd: CommandView) -> bool {
    match cmd {
        CommandView::Sync { scan_all, scan_user, scan_path, .. } => scan_all || scan_user is Some
            || scan_path is Some,
        _ => false,
    }
}

/// The rescan that follows a transfer: `files:scan` of all users, of the given user or of the
/// given path, with no other option.
pub open spec fn scan_command_for(cmd: CommandView) -> CommandView {
    match cmd {
        CommandView::Sync { scan_all, scan_user, scan_path, .. } => CommandView::FileScan {
            user_id: scan_user,
            all: scan_all,
            path: scan_path,
            unscanned: false,
            shallow: false,
            home_only: false,
            no_lock: false,
        },
        _ => CommandView::FileScan {
            user_id: None,
            all: false,
            path: None,
            unscanned: false,
            shallow: false,
            home_only: false,
            no_lock: false,
        },
    }
}

/// The lines that show what a remote command printed: its standard output and its standard
/// error, each trimmed under a header, each only when it is not empty.
pub open spec fn report_lines(r: CommandResultView) -> Seq<OutputLineView> {
    (if r.stdout.len() > 0 {
        seq![OutputLineView::Stdout("\n--- [標準出力] ---\n"@ + trimmed(r.stdout))]
    } else {
        Seq::empty()
    }) + (if r.stderr.len() > 0 {
        seq![OutputLineView::Stderr("\n--- [標準エラー出力] ---\n"@ + trimmed(r.stderr))]
    } else {
        Seq::empty()
    })
}

/// The message that reports a remote command's unsuccessful exit status.
pub open spec fn failure_text(exit_status: i32) -> Seq<char> {
    "失敗: コマンドが終了コード "@ + signed_decimal(exit_status as int) + " で終了しました。"@
}

/// The line printed after a dry run.
pub open spec fn dry_run_text() -> Seq<char> {
    "\n[DRY RUN] 試行運転が終了しました。実際のファイル同期および Nextcloud スキャンはスキップされました。"@
}

/// The rule printed after a dry run.
pub open spec fn rule_text() -> Seq<char> {
    "----------------------------------------"@
}

/// The rule printed, after an empty line, before the final message.
pub open spec fn spaced_rule_text() -> Seq<char> {
    "\n----------------------------------------"@
}

/// The line printed once a transfer is over.
pub open spec fn synced_text() -> Seq<char> {
    "\nローカルファイルの同期が完了しました。"@
}

/// The line printed before the rescan that follows a transfer.
pub open spec fn scanning_text() -> Seq<char> {
    "Nextcloud のファイルスキャンを実行中..."@
}

/// A step with its lines and its action.
pub open spec fn step_of(lines: Seq<OutputLineView>, action: RunActionView) -> RunStepView {
    RunStepView { lines, action }
}

/// The end of a run with the given outcome, printing nothing more.
pub open spec fn finish_with(outcome: Result<(), RunError>) -> RunStepView {
    step_of(Seq::empty(), RunActionView::Finish(outcome))
}

/// How a run moves: from where it stands and what came of its last action, to where it
/// stands next and the step the program takes.
/// - It begins by reading the configuration file.
/// - With the configuration, it combines the settings (and stops when there is no SSH user);
///   a `Sync` runs rsync, any other subcommand runs its occ invocation over SSH.
/// - After rsync: a dry run stops there, reporting so; otherwise the transfer is reported,
///   and the rescan it asked for, if any, runs over SSH; else the run ends.
/// - After the rescan, its output is shown and the run ends successfully.
/// - After an occ command, its output is shown, then the success message when it exited
///   with status 0 and the failure message otherwise; the run ends successfully either way.
/// - Any other event ends the run with `UnexpectedEvent`.
pub open spec fn transition(m: RunMachineView, e: RunEventView) -> (PhaseView, RunStepView) {
    let cmd = m.args.command;
    match (m.phase, e) {
        (PhaseView::Start, RunEventView::Begin) => (
            PhaseView::AwaitConfig,
            step_of(Seq::empty(), RunActionView::LoadConfig(m.args.config_file)),
        ),
        (PhaseView::AwaitConfig, RunEventView::ConfigLoaded(c)) => match settings_from(m.args, c) {
            Err(err) => (PhaseView::Done, finish_with(Err(err))),
            Ok(s) => if cmd is Sync {
                (
                    PhaseView::AwaitSync { settings: s },
                    step_of(Seq::empty(), RunActionView::RunRsync(sync_params_for(cmd, s))),
                )
            } else {
                (
                    PhaseView::AwaitRemote,
                    step_of(
                        Seq::empty(),
                        RunActionView::ExecuteRemote(
                            ssh_config_for(s),
                            occ_command_text(cmd, s.php_path, s.occ_path),
                        ),
                    ),
                )
            },
        },
        (PhaseView::AwaitSync { settings: s }, RunEventView::RsyncFinished) => if is_dry_run(cmd) {
            (
                PhaseView::Done,
                step_of(
                    seq![
                        OutputLineView::Stdout(dry_run_text()),
                        OutputLineView::Stdout(rule_text()),
                        OutputLineView::Stdout(success_text(cmd)),
                    ],
                    RunActionView::Finish(Ok(())),
                ),
            )
        } else if scan_requested(cmd) {
            (
                PhaseView::AwaitScan,
                step_of(
                    seq![
                        OutputLineView::Stdout(synced_text()),
                        OutputLineView::Stdout(scanning_text()),
                    ],
                    RunActionView::ExecuteRemote(
                        ssh_config_for(s),
                        occ_command_text(scan_command_for(cmd), s.php_path, s.occ_path),
                    ),
                ),
            )
        } else {
            (
                PhaseView::Done,
                step_of(
                    seq![
                        OutputLineView::Stdout(synced_text()),
                        OutputLineView::Stdout(spaced_rule_text()),
                        OutputLineView::Stdout(success_text(cmd)),
                    ],
                    RunActionView::Finish(Ok(())),
                ),
            )
        },
        (PhaseView::AwaitScan, RunEventView::RemoteFinished(r)) => (
            PhaseView::Done,
            step_of(
                report_lines(r) + seq![
                    OutputLineView::Stdout(spaced_rule_text()),
                    OutputLineView::Stdout(success_text(cmd)),
                ],
                RunActionView::Finish(Ok(())),
            ),
        ),
        (PhaseView::AwaitRemote, RunEventView::RemoteFinished(r)) => (
            PhaseView::Done,
            step_of(
                report_lines(r) + seq![
                    OutputLineView::Stdout(spaced_rule_text()),
                    if r.exit_status == 0 {
                        OutputLineView::Stdout(success_text(cmd))
                    } else {
                        OutputLineView::Stderr(failure_text(r.exit_status))
                    },
                ],
                RunActionView::Finish(Ok(())),
            ),
        ),
        _ => (PhaseView::Done, finish_with(Err(RunError::UnexpectedEvent))),
    }
}

/// A value given on the command line wins over the configuration file, which wins over the
/// built-in default; the SSH user, which has no default, is required from one of the two.
pub proof fn law_options_win_over_configuration(args: ArgsView, config: ConfigView)
    ensures
        settings_from(args, config) is Err <==> (args.ssh_user is None && config.ssh_user is None),
        settings_from(args, config) matches Ok(s) ==> {
            &&& args.ssh_user matches Some(u) ==> s.ssh_user == u
            &&& args.ssh_user is None ==> s.ssh_user == config.ssh_user->0
            &&& args.identity_file is Some ==> s.identity_file == args.identity_file
            &&& args.identity_file is None ==> s.identity_file == config.identity_file
            &&& args.occ_path matches Some(p) ==> s.occ_path == p
            &&& (args.occ_path is None && config.occ_path is Some) ==> s.occ_path
                == config.occ_path->0
            &&& (args.occ_path is None && config.occ_path is None) ==> s.occ_path == default_occ_path()
            &&& args.php_path matches Some(p) ==> s.php_path == p
            &&& (args.php_path is None && config.php_path is Some) ==> s.php_path
                == config.php_path->0
            &&& (args.php_path is None && config.php_path is None) ==> s.php_path == default_php_path()
            &&& args.host matches Some(h) ==> (s.host, s.port) == host_and_port(h)
            &&& (args.host is None && config.host is Some) ==> (s.host, s.port) == host_and_port(
                config.host->0,
            )
            &&& (args.host is None && config.host is None) ==> (s.host, s.port) == host_and_port(
                default_host(),
            )
        },
{
}

/// A dry run ends as soon as rsync has finished: nothing is rescanned and the run ends
/// successfully, printing the dry-run notice and the success message.
pub proof fn law_dry_run_ends_after_transfer(args: ArgsView, settings: SettingsView)
    requires
        is_dry_run(args.command),
    ensures
        transition(
            RunMachineView { args, phase: PhaseView::AwaitSync { settings } },
            RunEventView::RsyncFinished,
        ) == (
            PhaseView::Done,
            step_of(
                seq![
                    OutputLineView::Stdout(dry_run_text()),
                    OutputLineView::Stdout(rule_text()),
                    OutputLineView::Stdout(success_text(args.command)),
                ],
                RunActionView::Finish(Ok(())),
            ),
        ),
{
}

/// After a real transfer, the run rescans exactly when a scan option was given, and then
/// with `occ files:scan` of what the options name, over the run's SSH connection; otherwise
/// it ends successfully.
pub proof fn law_rescan_follows_transfer(args: ArgsView, settings: SettingsView)
    requires
        !is_dry_run(args.command),
    ensures
        ({
            let (next, step) = transition(
                RunMachineView { args, phase: PhaseView::AwaitSync { settings } },
                RunEventView::RsyncFinished,
            );
            &&& scan_requested(args.command) ==> next is AwaitScan && step.action
                == RunActionView::ExecuteRemote(
                ssh_config_for(settings),
                occ_prefix(settings.php_path, settings.occ_path) + occ_arguments(
                    scan_command_for(args.command),
                ),
            )
            &&& !scan_requested(args.command) ==> next is Done && step.action
                == RunActionView::Finish(Ok(()))
        }),
{
}

/// With the configuration read, a `Sync` hands rsync exactly what the subcommand and the
/// settings give: the subcommand's remote directory, exclude patterns, `--delete` and dry-run
/// switches, the `rsync_target` source, and the host, port, user and key that the options and
/// the configuration resolve to.
pub proof fn law_transfer_carries_the_subcommand(args: ArgsView, config: ConfigView)
    requires
        args.command is Sync,
        preferred(args.ssh_user, config.ssh_user) is Some,
    ensures
        ({
            let (next, step) = transition(
                RunMachineView { args, phase: PhaseView::AwaitConfig },
                RunEventView::ConfigLoaded(config),
            );
            let address = host_and_port(setting_or(args.host, config.host, default_host()));
            &&& next is AwaitSync
            &&& step.lines.len() == 0
            &&& step.action is RunRsync
            &&& step.action->RunRsync_0.excludes == args.command->exclude
            &&& step.action->RunRsync_0.remote_dir == args.command->remote_dir
            &&& step.action->RunRsync_0.delete == args.command->delete
            &&& step.action->RunRsync_0.dry_run == args.command->dry_run
            &&& step.action->RunRsync_0.local_dir == "rsync_target"@
            &&& step.action->RunRsync_0.host == address.0
            &&& step.action->RunRsync_0.port == address.1
            &&& step.action->RunRsync_0.ssh_user == preferred(args.ssh_user, config.ssh_user)->0
            &&& step.action->RunRsync_0.identity_file == preferred(
                args.identity_file,
                config.identity_file,
            )
        }),
{
}

/// With the configuration read, any other subcommand runs its occ invocation over SSH as the
/// resolved user, with the resolved key (none means the SSH agent), at the resolved host
/// joined with its port, using the resolved interpreter and occ script.
pub proof fn law_remote_command_uses_resolved_connection(args: ArgsView, config: ConfigView)
    requires
        !(args.command is Sync),
        preferred(args.ssh_user, config.ssh_user) is Some,
    ensures
        ({
            let (next, step) = transition(
                RunMachineView { args, phase: PhaseView::AwaitConfig },
                RunEventView::ConfigLoaded(config),
            );
            let address = host_and_port(setting_or(args.host, config.host, default_host()));
            &&& next is AwaitRemote
            &&& step.lines.len() == 0
            &&& step.action == RunActionView::ExecuteRemote(
                SshConfigView {
                    host: joined_address(address.0, address.1),
                    ssh_user: preferred(args.ssh_user, config.ssh_user)->0,
                    identity_file: preferred(args.identity_file, config.identity_file),
                },
                occ_prefix(
                    setting_or(args.php_path, config.php_path, default_php_path()),
                    setting_or(args.occ_path, config.occ_path, default_occ_path()),
                ) + occ_arguments(args.command),
            )
        }),
{
}

/// After a real transfer that asked for a rescan, the rescan is `files:scan` of exactly what
/// the scan options name (all users, the user, the path) with no other switch, run over the
/// run's SSH connection with its key.
pub proof fn law_rescan_scans_what_options_name(args: ArgsView, settings: SettingsView)
    requires
        args.command is Sync,
        !is_dry_run(args.command),
        scan_requested(args.command),
    ensures
        transition(
            RunMachineView { args, phase: PhaseView::AwaitSync { settings } },
            RunEventView::RsyncFinished,
        ).1.action == RunActionView::ExecuteRemote(
            SshConfigView {
                host: joined_address(settings.host, settings.port),
                ssh_user: settings.ssh_user,
                identity_file: settings.identity_file,
            },
            occ_prefix(settings.php_path, settings.occ_path) + occ_arguments(
                CommandView::FileScan {
                    user_id: args.command->scan_user,
                    all: args.command->scan_all,
                    path: args.command->scan_path,
                    unscanned: false,
                    shallow: false,
                    home_only: false,
                    no_lock: false,
                },
            ),
        ),
{
}

/// Once an occ command has run, the run ends successfully whatever its status; its output is
/// shown (standard output first, each only when not empty, trimmed), then a rule, then the
/// success message when it exited with 0 and, on standard error, the failure message with
/// its status otherwise. After the rescan of a transfer the status is not consulted.
pub proof fn law_remote_result_is_reported(args: ArgsView, r: CommandResultView)
    ensures
        ({
            let (next, step) = transition(
                RunMachineView { args, phase: PhaseView::AwaitRemote },
                RunEventView::RemoteFinished(r),
            );
            let n = step.lines.len();
            let shown = (if r.stdout.len() > 0 { 1int } else { 0 }) + (if r.stderr.len() > 0 {
                1int
            } else {
                0
            });
            &&& next is Done
            &&& step.action == RunActionView::Finish(Ok(()))
            &&& n == shown + 2
            &&& r.stdout.len() > 0 ==> step.lines[0] == OutputLineView::Stdout(
                "\n--- [標準出力] ---\n"@ + trimmed(r.stdout),
            )
            &&& r.stderr.len() > 0 ==> step.lines[shown - 1] == OutputLineView::Stderr(
                "\n--- [標準エラー出力] ---\n"@ + trimmed(r.stderr),
            )
            &&& step.lines[n - 2] == OutputLineView::Stdout("\n----------------------------------------"@)
            &&& r.exit_status == 0 ==> step.lines[n - 1] == OutputLineView::Stdout(
                success_text(args.command),
            )
            &&& r.exit_status != 0 ==> step.lines[n - 1] == OutputLineView::Stderr(
                "失敗: コマンドが終了コード "@ + signed_decimal(r.exit_status as int) + " で終了しました。"@,
            )
        }),
        transition(
            RunMachineView { args, phase: PhaseView::AwaitScan },
            RunEventView::RemoteFinished(r),
        ).1.lines.last() == OutputLineView::Stdout(success_text(args.command)),
{
    let (next, step) = transition(
        RunMachineView { args, phase: PhaseView::AwaitRemote },
        RunEventView::RemoteFinished(r),
    );
    let rep = report_lines(r);
    assert(step.lines == rep + seq![
        OutputLineView::Stdout(spaced_rule_text()),
        if r.exit_status == 0 {
            OutputLineView::Stdout(success_text(args.command))
        } else {
            OutputLineView::Stderr(failure_text(r.exit_status))
        },
    ]);
    if r.stdout.len() > 0 {
        assert(rep[0] == OutputLineView::Stdout("\n--- [標準出力] ---\n"@ + trimmed(r.stdout)));
    }
}

/// How many steps a run in phase `p` takes at most before it ends.
pub open spec fn steps_left(p: PhaseView) -> nat {
    match p {
        PhaseView::Start => 4,
        PhaseView::AwaitConfig => 3,
        PhaseView::AwaitSync { .. } => 2,
        PhaseView::AwaitScan => 1,
        PhaseView::AwaitRemote => 1,
        PhaseView::Done => 0,
    }
}

/// Every step of a run that is not over brings it closer to its end, so a run ends after at
/// most four steps; a step ends the run exactly when its action is `Finish`.
pub proof fn law_run_ends(m: RunMachineView, e: RunEventView)
    ensures
        !(m.phase is Done) ==> steps_left(transition(m, e).0) < steps_left(m.phase),
        (transition(m, e).0 is Done) <==> (transition(m, e).1.action is Finish),
{
}

fn copy_texts(v: &Vec<String>) -> (r: Vec<String>)
    ensures
        texts_view(r@) == texts_view(v@),
{
    let mut r: Vec<String> = Vec::new();
    let n = v.len();
    let mut i: usize = 0;
    while i < n
        invariant
            n == v@.len(),
            i <= n,
            texts_view(r@) == texts_view(v@).take(i as int),
        decreases n - i,
    {
        let ghost before = r@;
        r.push(v[i].clone());
        assert(r@ == before.push(v@[i as int]));
        assert(texts_view(r@) =~= texts_view(before).push(v@[i as int]@));
        assert(texts_view(r@) =~= texts_view(v@).take(i + 1));
        i = i + 1;
    }
    assert(texts_view(v@).take(n as int) =~= texts_view(v@));
    r
}

/// The SSH connection of a run (see `ssh_config_for`).
fn ssh_config(s: &Settings) -> (r: SshConfig)
    ensures
        r@ == ssh_config_for(s@),
{
    SshConfig {
        host: join_host_port(s.host.as_str(), s.port),
        ssh_user: s.ssh_user.clone(),
        identity_file: copy_opt(&s.identity_file),
    }
}

/// The transfer that a `Sync` subcommand asks for (see `sync_params_for`).
fn sync_params(cmd: &Commands, s: &Settings) -> (r: SyncParams)
    requires
        cmd is Sync,
    ensures
        r@ == sync_params_for(cmd@, s@),
{
    match cmd {
        Commands::Sync { remote_dir, exclude, delete, dry_run, .. } => SyncParams {
            local_dir: "rsync_target".to_owned(),
            remote_dir: remote_dir.clone(),
            host: s.host.clone(),
            port: s.port,
            ssh_user: s.ssh_user.clone(),
            identity_file: copy_opt(&s.identity_file),
            excludes: copy_texts(exclude),
            delete: *delete,
            dry_run: *dry_run,
        },
        _ => {
            assert(false);
            SyncParams {
                local_dir: String::new(),
                remote_dir: String::new(),
                host: String::new(),
                port: None,
                ssh_user: String::new(),
                identity_file: None,
                excludes: Vec::new(),
                delete: false,
                dry_run: false,
            }
        },
    }
}

/// The rescan that follows a transfer (see `scan_command_for`).
fn scan_command(cmd: &Commands) -> (r: Commands)
    requires
        cmd is Sync,
    ensures
        r@ == scan_command_for(cmd@),
        r is FileScan,
{
    match cmd {
        Commands::Sync { scan_all, scan_user, scan_path, .. } => Commands::FileScan {
            user_id: copy_opt(scan_user),
            all: *scan_all,
            path: copy_opt(scan_path),
            unscanned: false,
            shallow: false,
            home_only: false,
            no_lock: false,
        },
        _ => {
            assert(false);
            Commands::List
        },
    }
}

fn push_line(lines: &mut Vec<OutputLine>, line: OutputLine)
    ensures
        lines_view(final(lines)@) == lines_view(old(lines)@).push(line@),
{
    lines.push(line);
    assert(lines_view(lines@) =~= lines_view(old(lines)@).push(line@));
}

fn headed(header: &str, body: &str) -> (r: String)
    ensures
        r@ == header@ + trimmed(body@),
{
    let mut r = header.to_owned();
    r.append(trim_text(body));
    r
}

/// Appends the lines that show what a remote command printed (see `report_lines`).
fn push_report(lines: &mut Vec<OutputLine>, result: &CommandResult)
    ensures
        lines_view(final(lines)@) == lines_view(old(lines)@) + report_lines(result@),
{
    let ghost start = lines_view(lines@);
    if !result.stdout.as_str().is_empty() {
        push_line(lines, OutputLine::Stdout(headed("\n--- [標準出力] ---\n", result.stdout.as_str())));
    }
    if !result.stderr.as_str().is_empty() {
        push_line(
            lines,
            OutputLine::Stderr(headed("\n--- [標準エラー出力] ---\n", result.stderr.as_str())),
        );
    }
    assert(lines_view(lines@) =~= start + report_lines(result@));
}

/// The message that reports a remote command's unsuccessful exit status (see `failure_text`).
pub fn failure_message(exit_status: i32) -> (r: String)
    ensures
        r@ == failure_text(exit_status),
{
    let mut r = "失敗: コマンドが終了コード ".to_owned();
    push_signed_decimal(&mut r, exit_status);
    r.append(" で終了しました。");
    r
}

fn finish(outcome: Result<(), RunError>) -> (r: RunStep)
    ensures
        r@ == finish_with(outcome),
{
    let lines: Vec<OutputLine> = Vec::new();
    let r = RunStep { lines, action: RunAction::Finish(outcome) };
    assert(r@.lines =~= Seq::<OutputLineView>::empty());
    r
}

impl RunMachine {
    /// A run of the invocation `args`, not begun yet.
    pub fn new(args: Args) -> (r: RunMachine)
        ensures
            r@.args == args@,
            r@.phase == PhaseView::Start,
    {
        RunMachine { args, phase: Phase::Start }
    }

    fn after_config(&mut self, config: Config) -> (r: RunStep)
        requires
            old(self).phase is Done,
        ensures
            final(self)@.args == old(self)@.args,
            (final(self)@.phase, r@) == transition(
                RunMachineView { args: old(self)@.args, phase: PhaseView::AwaitConfig },
                RunEventView::ConfigLoaded(config@),
            ),
    {
        match resolve_settings(&self.args, &config) {
            Err(e) => finish(Err(e)),
            Ok(settings) => {
                if self.args.command.is_sync() {
                    let params = sync_params(&self.args.command, &settings);
                    self.phase = Phase::AwaitSync { settings };
                    let r = RunStep { lines: Vec::new(), action: RunAction::RunRsync(params) };
                    assert(r@.lines =~= Seq::<OutputLineView>::empty());
                    r
                } else {
                    let command = build_occ_command(
                        &self.args.command,
                        settings.php_path.as_str(),
                        settings.occ_path.as_str(),
                    );
                    self.phase = Phase::AwaitRemote;
                    let r = RunStep {
                        lines: Vec::new(),
                        action: RunAction::ExecuteRemote(ssh_config(&settings), command),
                    };
                    assert(r@.lines =~= Seq::<OutputLineView>::empty());
                    r
                }
            },
        }
    }

    fn after_sync(&mut self, settings: Settings) -> (r: RunStep)
        requires
            old(self).phase is Done,
        ensures
            final(self)@.args == old(self)@.args,
            (final(self)@.phase, r@) == transition(
                RunMachineView {
                    args: old(self)@.args,
                    phase: PhaseView::AwaitSync { settings: settings@ },
                },
                RunEventView::RsyncFinished,
            ),
    {
        let mut lines: Vec<OutputLine> = Vec::new();
        assert(lines_view(lines@) =~= Seq::<OutputLineView>::empty());
        let cmd = &self.args.command;
        let dry_run = match cmd {
            Commands::Sync { dry_run, .. } => *dry_run,
            _ => false,
        };
        if dry_run {
            push_line(&mut lines, OutputLine::Stdout("\n[DRY RUN] 試行運転が終了しました。実際のファイル同期および Nextcloud スキャンはスキップされました。".to_owned()));
            push_line(&mut lines, OutputLine::Stdout("----------------------------------------".to_owned()));
            push_line(&mut lines, OutputLine::Stdout(cmd.success_message()));
            assert(lines_view(lines@) =~= seq![
                OutputLineView::Stdout(dry_run_text()),
                OutputLineView::Stdout(rule_text()),
                OutputLineView::Stdout(success_text(cmd@)),
            ]);
            return RunStep { lines, action: RunAction::Finish(Ok(())) };
        }
        push_line(&mut lines, OutputLine::Stdout("\nローカルファイルの同期が完了しました。".to_owned()));
        let scan = match cmd {
            Commands::Sync { scan_all, scan_user, scan_path, .. } => *scan_all || scan_user.is_some()
                || scan_path.is_some(),
            _ => false,
        };
        if scan {
            push_line(&mut lines, OutputLine::Stdout("Nextcloud のファイルスキャンを実行中...".to_owned()));
            let scan_cmd = scan_command(cmd);
            let command = build_occ_command(
                &scan_cmd,
                settings.php_path.as_str(),
                settings.occ_path.as_str(),
            );
            let connection = ssh_config(&settings);
            self.phase = Phase::AwaitScan;
            assert(lines_view(lines@) =~= seq![
                OutputLineView::Stdout(synced_text()),
                OutputLineView::Stdout(scanning_text()),
            ]);
            RunStep { lines, action: RunAction::ExecuteRemote(connection, command) }
        } else {
            push_line(&mut lines, OutputLine::Stdout("\n----------------------------------------".to_owned()));
            push_line(&mut lines, OutputLine::Stdout(cmd.success_message()));
            assert(lines_view(lines@) =~= seq![
                OutputLineView::Stdout(synced_text()),
                OutputLineView::Stdout(spaced_rule_text()),
                OutputLineView::Stdout(success_text(cmd@)),
            ]);
            RunStep { lines, action: RunAction::Finish(Ok(())) }
        }
    }

    fn after_remote(&self, result: &CommandResult, check_status: bool) -> (r: RunStep)
        ensures
            r@ == step_of(
                report_lines(result@) + seq![
                    OutputLineView::Stdout(spaced_rule_text()),
                    if !check_status || result.exit_status == 0 {
                        OutputLineView::Stdout(success_text(self@.args.command))
                    } else {
                        OutputLineView::Stderr(failure_text(result.exit_status))
                    },
                ],
                RunActionView::Finish(Ok(())),
            ),
    {
        let mut lines: Vec<OutputLine> = Vec::new();
        assert(lines_view(lines@) =~= Seq::<OutputLineView>::empty());
        push_report(&mut lines, result);
        push_line(&mut lines, OutputLine::Stdout("\n----------------------------------------".to_owned()));
        if !check_status || result.exit_status == 0 {
            push_line(&mut lines, OutputLine::Stdout(self.args.command.success_message()));
        } else {
            push_line(&mut lines, OutputLine::Stderr(failure_message(result.exit_status)));
        }
        let r = RunStep { lines, action: RunAction::Finish(Ok(())) };
        assert(r@.lines =~= report_lines(result@) + seq![
            OutputLineView::Stdout(spaced_rule_text()),
            if !check_status || result.exit_status == 0 {
                OutputLineView::Stdout(success_text(self@.args.command))
            } else {
                OutputLineView::Stderr(failure_text(result.exit_status))
            },
        ]);
        r
    }

    /// Moves the run on by `event` (see `transition`): the machine's new phase and the step
    /// returned are those `transition` gives; the invocation is unchanged.
    pub fn step(&mut self, event: RunEvent) -> (r: RunStep)
        ensures
            final(self)@.args == old(self)@.args,
            (final(self)@.phase, r@) == transition(old(self)@, event@),
    {
        let mut phase = Phase::Done;
        core::mem::swap(&mut phase, &mut self.phase);
        match phase {
            Phase::Start => match event {
                RunEvent::Begin => {
                    self.phase = Phase::AwaitConfig;
                    let r = RunStep {
                        lines: Vec::new(),
                        action: RunAction::LoadConfig(self.args.config_file.clone()),
                    };
                    assert(r@.lines =~= Seq::<OutputLineView>::empty());
                    r
                },
                _ => finish(Err(RunError::UnexpectedEvent)),
            },
            Phase::AwaitConfig => match event {
                RunEvent::ConfigLoaded(config) => self.after_config(config),
                _ => finish(Err(RunError::UnexpectedEvent)),
            },
            Phase::AwaitSync { settings } => match event {
                RunEvent::RsyncFinished => self.after_sync(settings),
                _ => finish(Err(RunError::UnexpectedEvent)),
            },
            Phase::AwaitScan => match event {
                RunEvent::RemoteFinished(result) => self.after_remote(&result, false),
                _ => finish(Err(RunError::UnexpectedEvent)),
            },
            Phase::AwaitRemote => match event {
                RunEvent::RemoteFinished(result) => self.after_remote(&result, true),
                _ => finish(Err(RunError::UnexpectedEvent)),
            },
            Phase::Done => finish(Err(RunError::UnexpectedEvent)),
        }
    }
}

} // verus!
