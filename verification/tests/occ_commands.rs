use nc_cli::cli::Commands;
use nc_cli::occ::build_occ_command;

#[test]
fn test_build_occ_command_add_full() {
    let cmd = Commands::Add {
        uid: "okamura".to_string(),
        generate_password: true,
        display_name: Some("岡村".to_string()),
        group: Some("admin".to_string()),
        email: Some("okamura@example.com".to_string()),
    };
    let result = build_occ_command(&cmd, "php", "./occ");
    assert_eq!(
        result,
        "php ./occ user:add okamura --generate-password --display-name=\"岡村\" --group=\"admin\" --email=\"okamura@example.com\""
    );
}

#[test]
fn test_build_occ_command_add_minimal() {
    let cmd = Commands::Add {
        uid: "okamura".to_string(),
        generate_password: false,
        display_name: None,
        group: None,
        email: None,
    };
    let result = build_occ_command(&cmd, "php", "./occ");
    assert_eq!(result, "php ./occ user:add okamura");
}

#[test]
fn test_build_occ_command_set_quota() {
    let cmd = Commands::SetQuota {
        uid: "okamura".to_string(),
        quota: "10 GB".to_string(),
    };
    let result = build_occ_command(&cmd, "php", "./occ");
    assert_eq!(
        result,
        "php ./occ user:setting okamura files quota \"10 GB\""
    );
}

#[test]
fn test_build_occ_command_user_delete() {
    let cmd = Commands::UserDelete {
        target_user: "okamura".to_string(),
    };
    let result = build_occ_command(&cmd, "/usr/bin/php", "/var/www/nextcloud/occ");
    assert_eq!(
        result,
        "/usr/bin/php /var/www/nextcloud/occ user:delete okamura --no-interaction --verbose"
    );
}

#[test]
fn test_build_occ_command_file_delete() {
    let cmd = Commands::FileDelete {
        path_or_id: "12345".to_string(),
    };
    let result = build_occ_command(&cmd, "php", "./occ");
    assert_eq!(result, "php ./occ files:delete \"12345\"");
}

#[test]
fn test_build_occ_command_file_put() {
    let cmd = Commands::FilePut {
        local_path: "/tmp/sample.txt".to_string(),
        target_path_or_id: "admin/files/sample.txt".to_string(),
    };
    let result = build_occ_command(&cmd, "php", "./occ");
    assert_eq!(
        result,
        "php ./occ files:put \"/tmp/sample.txt\" \"admin/files/sample.txt\""
    );
}

#[test]
fn test_build_occ_command_file_scan() {
    let cmd_all = Commands::FileScan {
        user_id: None,
        all: true,
        path: None,
        unscanned: true,
        shallow: true,
        home_only: true,
        no_lock: true,
    };
    let result_all = build_occ_command(&cmd_all, "php", "./occ");
    assert_eq!(
        result_all,
        "php ./occ files:scan --output=json --all --unscanned --shallow --home-only --no-lock"
    );

    let cmd_user = Commands::FileScan {
        user_id: Some("admin".to_string()),
        all: false,
        path: None,
        unscanned: false,
        shallow: false,
        home_only: false,
        no_lock: false,
    };
    let result_user = build_occ_command(&cmd_user, "php", "./occ");
    assert_eq!(result_user, "php ./occ files:scan --output=json admin");

    let cmd_path = Commands::FileScan {
        user_id: None,
        all: false,
        path: Some("admin/files/Documents".to_string()),
        unscanned: true,
        shallow: false,
        home_only: false,
        no_lock: false,
    };
    let result_path = build_occ_command(&cmd_path, "php", "./occ");
    assert_eq!(
        result_path,
        "php ./occ files:scan --output=json --path=\"admin/files/Documents\" --unscanned"
    );
}

#[test]
fn test_build_occ_command_user_list() {
    let cmd = Commands::UserList;
    let result = build_occ_command(&cmd, "php", "./occ");
    assert_eq!(result, "php ./occ user:list --info --output=json");
}

#[test]
fn test_build_occ_command_group_list() {
    let cmd = Commands::GroupList;
    let result = build_occ_command(&cmd, "php", "./occ");
    assert_eq!(result, "php ./occ group:list --info --output=json");
}

#[test]
fn test_build_occ_command_list() {
    let cmd = Commands::List;
    let result = build_occ_command(&cmd, "php", "./occ");
    assert_eq!(result, "php ./occ list");
}

#[test]
fn test_build_occ_command_status() {
    let cmd = Commands::Status;
    let result = build_occ_command(&cmd, "php", "./occ");
    assert_eq!(result, "php ./occ status --output=json");
}

#[test]
fn test_build_occ_command_maintenance_mode() {
    let cmd_on = Commands::MaintenanceMode {
        on: true,
        off: false,
    };
    let result_on = build_occ_command(&cmd_on, "php", "./occ");
    assert_eq!(result_on, "php ./occ maintenance:mode --on");

    let cmd_off = Commands::MaintenanceMode {
        on: false,
        off: true,
    };
    let result_off = build_occ_command(&cmd_off, "php", "./occ");
    assert_eq!(result_off, "php ./occ maintenance:mode --off");
}

#[test]
fn maintenance_mode_without_switch_only_queries() {
    let cmd = Commands::MaintenanceMode { on: false, off: false };
    assert_eq!(build_occ_command(&cmd, "php", "./occ"), "php ./occ maintenance:mode");
}

#[test]
fn every_invocation_starts_with_interpreter_and_script() {
    let commands = vec![
        Commands::UserList,
        Commands::Status,
        Commands::FileDelete { path_or_id: "x".to_string() },
        Commands::UserDelete { target_user: "bob".to_string() },
    ];
    for cmd in commands.iter() {
        let r = build_occ_command(cmd, "/usr/bin/php8.3", "/srv/nc/occ");
        assert!(r.starts_with("/usr/bin/php8.3 /srv/nc/occ "));
    }
}

#[test]
fn listing_commands_ask_for_json() {
    for cmd in [Commands::Status, Commands::UserList, Commands::GroupList] {
        assert!(build_occ_command(&cmd, "php", "occ").contains("--output=json"));
    }
    let scan = Commands::FileScan {
        user_id: None,
        all: false,
        path: None,
        unscanned: false,
        shallow: false,
        home_only: false,
        no_lock: false,
    };
    assert_eq!(build_occ_command(&scan, "php", "occ"), "php occ files:scan --output=json");
}

#[test]
fn user_delete_never_asks_for_confirmation() {
    let cmd = Commands::UserDelete { target_user: "carol".to_string() };
    assert!(build_occ_command(&cmd, "php", "occ").contains(" --no-interaction"));
}

#[test]
fn file_scan_path_comes_before_user() {
    let cmd = Commands::FileScan {
        user_id: Some("alice".to_string()),
        all: true,
        path: Some("alice/files".to_string()),
        unscanned: false,
        shallow: true,
        home_only: false,
        no_lock: false,
    };
    assert_eq!(
        build_occ_command(&cmd, "php", "occ"),
        "php occ files:scan --output=json --all --path=\"alice/files\" alice --shallow"
    );
}
