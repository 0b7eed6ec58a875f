use nc_cli::cli::Commands;
use nc_cli::ssh::{agent_message, command_message, Authentication, SshConfig};
use nc_cli::sync::{
    destination_argument, empty_source_message, failure_message, missing_source_message,
    rsync_arguments, source_argument, start_message, transport_command, SyncParams,
};
use nc_cli::sync::{check_source, rsync_outcome};
use nc_cli::text::{trim_text, join_host_port, parse_port, push_decimal, push_signed_decimal, same_text, split_host_port};

#[test]
fn port_numbers() {
    assert_eq!(parse_port("22"), Some(22));
    assert_eq!(parse_port("+443"), Some(443));
    assert_eq!(parse_port("065535"), Some(65535));
    assert_eq!(parse_port("65536"), None);
    assert_eq!(parse_port(""), None);
    assert_eq!(parse_port("+"), None);
    assert_eq!(parse_port("-1"), None);
    assert_eq!(parse_port("2a"), None);
    assert_eq!(parse_port("99999999999999999999"), None);
}

#[test]
fn splitting_addresses() {
    assert_eq!(split_host_port("example.server.jp:22"), ("example.server.jp".to_string(), Some(22)));
    assert_eq!(split_host_port("example.com"), ("example.com".to_string(), None));
    assert_eq!(split_host_port("host:ssh"), ("host:ssh".to_string(), None));
    assert_eq!(split_host_port("host:"), ("host:".to_string(), None));
    assert_eq!(split_host_port("a:b:2022"), ("a:b".to_string(), Some(2022)));
    assert_eq!(split_host_port(":7"), ("".to_string(), Some(7)));
}

#[test]
fn split_of_joined_address_round_trips() {
    for (host, port) in [("nc.example.org", 22u16), ("a:b", 0), ("", 65535), ("[::1]", 2222)] {
        let joined = join_host_port(host, Some(port));
        assert_eq!(split_host_port(&joined), (host.to_string(), Some(port)));
    }
    assert_eq!(join_host_port("plain", None), "plain");
    let (h, p) = split_host_port("srv:+022");
    assert_eq!(join_host_port(&h, p), "srv:22");
    assert_eq!(split_host_port("srv:22"), (h, p));
}

#[test]
fn decimal_text() {
    let mut s = String::from("n=");
    push_decimal(&mut s, 0);
    push_decimal(&mut s, 1234567890);
    assert_eq!(s, "n=01234567890");
    let mut t = String::new();
    push_signed_decimal(&mut t, i32::MIN);
    t.push(' ');
    push_signed_decimal(&mut t, -7);
    t.push(' ');
    push_signed_decimal(&mut t, 255);
    assert_eq!(t, "-2147483648 -7 255");
}

#[test]
fn text_equality() {
    assert!(same_text("岡村", "岡村"));
    assert!(!same_text("abc", "abd"));
    assert!(!same_text("ab", "abc"));
}

fn params(excludes: Vec<String>, delete: bool, dry_run: bool, port: Option<u16>, key: Option<String>) -> SyncParams {
    SyncParams {
        local_dir: "rsync_target".to_string(),
        remote_dir: "/var/www/nextcloud/data/admin/files/sync_folder".to_string(),
        host: "example.server.jp".to_string(),
        port,
        ssh_user: "admin".to_string(),
        identity_file: key,
        excludes,
        delete,
        dry_run,
    }
}

#[test]
fn rsync_arguments_with_defaults() {
    let args = rsync_arguments(&params(vec![], false, false, Some(22), None));
    assert_eq!(
        args,
        vec![
            "-avz", "--progress", "-e", "ssh -p 22", "--exclude", ".DS_Store", "rsync_target/",
            "admin@example.server.jp:/var/www/nextcloud/data/admin/files/sync_folder",
        ]
    );
}

#[test]
fn rsync_arguments_with_every_option() {
    let args = rsync_arguments(&params(
        vec!["*.tmp".to_string(), "build/".to_string()],
        true,
        true,
        None,
        Some("/home/me/.ssh/id ed".to_string()),
    ));
    assert_eq!(
        args,
        vec![
            "-avz", "--progress", "--dry-run", "--delete", "-e", "ssh -i \"/home/me/.ssh/id ed\"",
            "--exclude", "*.tmp", "--exclude", "build/", "rsync_target/",
            "admin@example.server.jp:/var/www/nextcloud/data/admin/files/sync_folder",
        ]
    );
}

#[test]
fn rsync_parts() {
    assert_eq!(transport_command(Some(2222), &Some("k".to_string())), "ssh -p 2222 -i \"k\"");
    assert_eq!(transport_command(None, &None), "ssh");
    assert_eq!(source_argument("dir/"), "dir/");
    assert_eq!(source_argument("dir"), "dir/");
    assert_eq!(source_argument(""), "/");
    assert_eq!(destination_argument("u", "h", "/d"), "u@h:/d");
}

#[test]
fn rsync_messages() {
    assert_eq!(missing_source_message("rsync_target"), "エラー: 同期元ディレクトリ 'rsync_target' が存在しません。");
    assert_eq!(
        empty_source_message("rsync_target"),
        "エラー: 同期元ディレクトリ 'rsync_target' 内にファイルやフォルダーが存在しません。"
    );
    assert_eq!(start_message(true), "rsync を実行中 (DRY-RUN モード)...");
    assert_eq!(start_message(false), "rsync を実行中...");
    assert_eq!(failure_message(Some(23)), "rsync が終了コード Some(23) で失敗しました。");
    assert_eq!(failure_message(Some(-1)), "rsync が終了コード Some(-1) で失敗しました。");
    assert_eq!(failure_message(None), "rsync が終了コード None で失敗しました。");
}

#[test]
fn ssh_decisions_and_messages() {
    let with_key = SshConfig {
        host: "h:22".to_string(),
        ssh_user: "u".to_string(),
        identity_file: Some("/k".to_string()),
    };
    assert_eq!(with_key.authentication(), Authentication::KeyFile("/k".to_string()));
    assert_eq!(with_key.connect_message(), "SSH接続を開始します: u@h:22");
    let agent = SshConfig { host: "h".to_string(), ssh_user: "u".to_string(), identity_file: None };
    assert_eq!(agent.authentication(), Authentication::Agent);
    assert_eq!(agent_message(), "鍵パス未指定のため、SSH Agent 経由で認証します");
    assert_eq!(command_message("php occ list"), "実行コマンド: php occ list");
}

#[test]
fn success_messages() {
    let add = Commands::Add {
        uid: "okamura".to_string(),
        generate_password: true,
        display_name: None,
        group: None,
        email: None,
    };
    assert_eq!(add.success_message(), "ユーザー 'okamura' を作成しました。");
    let quota = Commands::SetQuota { uid: "okamura".to_string(), quota: "10 GB".to_string() };
    assert_eq!(quota.success_message(), "ユーザー 'okamura' のクォータを '10 GB' に設定しました。");
    let scan = Commands::FileScan {
        user_id: Some("u".to_string()),
        all: false,
        path: Some("p".to_string()),
        unscanned: false,
        shallow: false,
        home_only: false,
        no_lock: false,
    };
    assert_eq!(scan.success_message(), "パス 'p' のファイルスキャンが完了しました。");
    let maintenance = Commands::MaintenanceMode { on: false, off: true };
    assert_eq!(maintenance.success_message(), "メンテナンスモードを無効にしました。");
    let put = Commands::FilePut { local_path: "/tmp/a".to_string(), target_path_or_id: "b".to_string() };
    assert_eq!(put.success_message(), "ファイル '/tmp/a' を Nextcloud 上の 'b' に配置しました。");
}

#[test]
fn source_directory_checks() {
    assert_eq!(
        check_source("rsync_target", false, false, false),
        Err("エラー: 同期元ディレクトリ 'rsync_target' が存在しません。".to_string())
    );
    assert_eq!(
        check_source("rsync_target", true, false, true),
        Err("エラー: 同期元ディレクトリ 'rsync_target' が存在しません。".to_string())
    );
    assert_eq!(
        check_source("rsync_target", true, true, false),
        Err("エラー: 同期元ディレクトリ 'rsync_target' 内にファイルやフォルダーが存在しません。".to_string())
    );
    assert_eq!(check_source("rsync_target", true, true, true), Ok(()));
    assert_eq!(rsync_outcome(true, Some(0)), Ok(()));
    assert_eq!(rsync_outcome(false, Some(23)), Err("rsync が終了コード Some(23) で失敗しました。".to_string()));
    assert_eq!(rsync_outcome(false, None), Err("rsync が終了コード None で失敗しました。".to_string()));
}

#[test]
fn trimming_removes_unicode_white_space_only() {
    assert_eq!(trim_text("  a b \n"), "a b");
    assert_eq!(trim_text("\u{3000}\u{85}\t x\u{a0}\u{2028}"), "x");
    assert_eq!(trim_text(" \u{200b}x "), "\u{200b}x");
    assert_eq!(trim_text(" \r\n\t "), "");
    assert_eq!(trim_text(""), "");
    for s in ["  mixed\u{2003}text\u{205f}", "\u{1680}a", "b\u{202f}", "\u{feff}c"] {
        assert_eq!(trim_text(s), s.trim());
    }
}
