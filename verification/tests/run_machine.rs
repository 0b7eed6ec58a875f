use nc_cli::cli::{Args, Commands};
use nc_cli::config::Config;
use nc_cli::run::{
    failure_message, resolve_settings, OutputLine, Phase, RunAction, RunError, RunEvent, RunMachine,
};
use nc_cli::ssh::CommandResult;

fn args(command: Commands) -> Args {
    Args {
        command,
        host: None,
        ssh_user: None,
        identity_file: None,
        occ_path: None,
        php_path: None,
        config_file: "config.toml".to_string(),
    }
}

fn sync(dry_run: bool, scan_user: Option<&str>) -> Commands {
    Commands::Sync {
        remote_dir: "/remote/target".to_string(),
        exclude: vec![],
        delete: true,
        dry_run,
        scan_all: false,
        scan_user: scan_user.map(|s| s.to_string()),
        scan_path: None,
    }
}

fn config() -> Config {
    Config {
        host: Some("happy.com:2200".to_string()),
        ssh_user: Some("ubuntu".to_string()),
        identity_file: None,
        occ_path: Some("/var/www/nc/occ".to_string()),
        php_path: None,
    }
}

fn out(s: &str) -> OutputLine {
    OutputLine::Stdout(s.to_string())
}

#[test]
fn options_win_over_configuration() {
    let mut a = args(Commands::Status);
    a.host = Some("cli.example:22".to_string());
    a.php_path = Some("/usr/bin/php".to_string());
    let s = resolve_settings(&a, &config()).unwrap();
    assert_eq!(s.host, "cli.example");
    assert_eq!(s.port, Some(22));
    assert_eq!(s.ssh_user, "ubuntu");
    assert_eq!(s.occ_path, "/var/www/nc/occ");
    assert_eq!(s.php_path, "/usr/bin/php");
    assert_eq!(s.identity_file, None);
}

#[test]
fn defaults_apply_when_nothing_is_given() {
    let mut a = args(Commands::Status);
    a.ssh_user = Some("me".to_string());
    let s = resolve_settings(&a, &Config::default()).unwrap();
    assert_eq!(s.host, "example.server.jp");
    assert_eq!(s.port, Some(22));
    assert_eq!(s.occ_path, "./nextcloud/occ");
    assert_eq!(s.php_path, "/opt/php-8.3/bin/php");
}

#[test]
fn missing_ssh_user_is_refused() {
    assert_eq!(resolve_settings(&args(Commands::Status), &Config::default()), Err(RunError::MissingSshUser));
    assert_eq!(
        RunError::MissingSshUser.message(),
        "エラー: SSH ユーザー名が未指定です。CLI引数 (--ssh-user) または config.toml で指定してください。"
    );
}

#[test]
fn occ_command_run() {
    let mut m = RunMachine::new(args(Commands::Status));
    let first = m.step(RunEvent::Begin);
    assert!(first.lines.is_empty());
    match first.action {
        RunAction::LoadConfig(p) => assert_eq!(p, "config.toml"),
        _ => panic!("expected LoadConfig"),
    }
    let second = m.step(RunEvent::ConfigLoaded(config()));
    match second.action {
        RunAction::ExecuteRemote(ssh, cmd) => {
            assert_eq!(ssh.host, "happy.com:2200");
            assert_eq!(ssh.ssh_user, "ubuntu");
            assert_eq!(cmd, "/opt/php-8.3/bin/php /var/www/nc/occ status --output=json");
        }
        _ => panic!("expected ExecuteRemote"),
    }
    let third = m.step(RunEvent::RemoteFinished(CommandResult {
        stdout: "  {\"installed\":true}\n".to_string(),
        stderr: String::new(),
        exit_status: 0,
    }));
    assert_eq!(
        third.lines,
        vec![
            out("\n--- [標準出力] ---\n{\"installed\":true}"),
            out("\n----------------------------------------"),
            out("ステータス情報を取得しました。"),
        ]
    );
    assert!(matches!(third.action, RunAction::Finish(Ok(()))));
    assert!(matches!(m.phase, Phase::Done));
}

#[test]
fn failed_occ_command_reports_its_status() {
    let mut m = RunMachine::new(args(Commands::List));
    m.step(RunEvent::Begin);
    m.step(RunEvent::ConfigLoaded(config()));
    let last = m.step(RunEvent::RemoteFinished(CommandResult {
        stdout: String::new(),
        stderr: " boom \n".to_string(),
        exit_status: 3,
    }));
    assert_eq!(
        last.lines,
        vec![
            OutputLine::Stderr("\n--- [標準エラー出力] ---\nboom".to_string()),
            out("\n----------------------------------------"),
            OutputLine::Stderr("失敗: コマンドが終了コード 3 で終了しました。".to_string()),
        ]
    );
    assert!(matches!(last.action, RunAction::Finish(Ok(()))));
    assert_eq!(failure_message(-2), "失敗: コマンドが終了コード -2 で終了しました。");
}

#[test]
fn dry_run_never_scans() {
    let mut m = RunMachine::new(args(sync(true, Some("admin"))));
    m.step(RunEvent::Begin);
    let second = m.step(RunEvent::ConfigLoaded(config()));
    match second.action {
        RunAction::RunRsync(p) => {
            assert!(p.dry_run);
            assert!(p.delete);
            assert_eq!(p.local_dir, "rsync_target");
            assert_eq!(p.remote_dir, "/remote/target");
            assert_eq!(p.host, "happy.com");
            assert_eq!(p.port, Some(2200));
        }
        _ => panic!("expected RunRsync"),
    }
    let third = m.step(RunEvent::RsyncFinished);
    assert_eq!(
        third.lines,
        vec![
            out("\n[DRY RUN] 試行運転が終了しました。実際のファイル同期および Nextcloud スキャンはスキップされました。"),
            out("----------------------------------------"),
            out("ドライランが完了しました。(変更は行われていません)"),
        ]
    );
    assert!(matches!(third.action, RunAction::Finish(Ok(()))));
}

#[test]
fn sync_then_scan_of_user() {
    let mut m = RunMachine::new(args(sync(false, Some("admin"))));
    m.step(RunEvent::Begin);
    m.step(RunEvent::ConfigLoaded(config()));
    let third = m.step(RunEvent::RsyncFinished);
    assert_eq!(
        third.lines,
        vec![out("\nローカルファイルの同期が完了しました。"), out("Nextcloud のファイルスキャンを実行中...")]
    );
    match third.action {
        RunAction::ExecuteRemote(ssh, cmd) => {
            assert_eq!(ssh.host, "happy.com:2200");
            assert_eq!(cmd, "/opt/php-8.3/bin/php /var/www/nc/occ files:scan --output=json admin");
        }
        _ => panic!("expected ExecuteRemote"),
    }
    let last = m.step(RunEvent::RemoteFinished(CommandResult {
        stdout: String::new(),
        stderr: String::new(),
        exit_status: 1,
    }));
    assert_eq!(
        last.lines,
        vec![
            out("\n----------------------------------------"),
            out("ファイル同期および Nextcloud への反映処理が完了しました。"),
        ]
    );
}

#[test]
fn sync_without_scan_ends_after_transfer() {
    let mut m = RunMachine::new(args(sync(false, None)));
    m.step(RunEvent::Begin);
    m.step(RunEvent::ConfigLoaded(config()));
    let third = m.step(RunEvent::RsyncFinished);
    assert_eq!(
        third.lines,
        vec![
            out("\nローカルファイルの同期が完了しました。"),
            out("\n----------------------------------------"),
            out("ファイル同期および Nextcloud への反映処理が完了しました。"),
        ]
    );
    assert!(matches!(third.action, RunAction::Finish(Ok(()))));
}

#[test]
fn unexpected_event_ends_the_run() {
    let mut m = RunMachine::new(args(Commands::Status));
    let step = m.step(RunEvent::RsyncFinished);
    assert!(matches!(step.action, RunAction::Finish(Err(RunError::UnexpectedEvent))));
    assert!(matches!(m.phase, Phase::Done));
    let again = m.step(RunEvent::Begin);
    assert!(matches!(again.action, RunAction::Finish(Err(RunError::UnexpectedEvent))));
}

#[test]
fn run_without_ssh_user_stops_after_configuration() {
    let mut m = RunMachine::new(args(Commands::Status));
    m.step(RunEvent::Begin);
    let step = m.step(RunEvent::ConfigLoaded(Config::default()));
    assert!(step.lines.is_empty());
    assert!(matches!(step.action, RunAction::Finish(Err(RunError::MissingSshUser))));
}
