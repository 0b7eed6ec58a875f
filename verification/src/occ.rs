//! The `occ` invocation that carries out a subcommand on the server.

use vstd::prelude::*;
use vstd::string::*;
use crate::cli::{CommandView, Commands};

verus! {

/// `" name"` when `on` holds, nothing otherwise.
pub open spec fn flag_text(on: bool, name: Seq<char>) -> Seq<char> {
    if on {
        " "@ + name
    } else {
        Seq::empty()
    }
}

/// `value` between double quotes.
pub open spec fn quoted(value: Seq<char>) -> Seq<char> {
    "\""@ + value + "\""@
}

/// `" name=\"value\""` when a value is given, nothing otherwise.
pub open spec fn option_text(name: Seq<char>, value: Option<Seq<char>>) -> Seq<char> {
    match value {
        Some(v) => " "@ + name + "="@ + quoted(v),
        None => Seq::empty(),
    }
}

/// `" value"` when a value is given, nothing otherwise.
pub open spec fn argument_text(value: Option<Seq<char>>) -> Seq<char> {
    match value {
        Some(v) => " "@ + v,
        None => Seq::empty(),
    }
}

/// The part of an occ invocation that runs the interpreter on the occ script.
pub open spec fn occ_prefix(php_path: Seq<char>, occ_path: Seq<char>) -> Seq<char> {
    php_path + " "@ + occ_path + " "@
}

/// The options of a file scan after `--all`: the path, the user, then the other switches.
pub open spec fn scan_options(
    user_id: Option<Seq<char>>,
    path: Option<Seq<char>>,
    unscanned: bool,
    shallow: bool,
    home_only: bool,
    no_lock: bool,
) -> Seq<char> {
    option_text("--path"@, path) + argument_text(user_id) + flag_text(unscanned, "--unscanned"@)
        + flag_text(shallow, "--shallow"@) + flag_text(home_only, "--home-only"@) + flag_text(
        no_lock,
        "--no-lock"@,
    )
}

/// The occ subcommand, with its options, that carries out `cmd` (nothing for `Sync`, which
/// is no occ subcommand).
pub open spec fn occ_arguments(cmd: CommandView) -> Seq<char> {
    match cmd {
        CommandView::Add { uid, generate_password, display_name, group, email } => "user:add "@
            + uid + flag_text(generate_password, "--generate-password"@) + option_text(
            "--display-name"@,
            display_name,
        ) + option_text("--group"@, group) + option_text("--email"@, email),
        CommandView::SetQuota { uid, quota } => "user:setting "@ + uid + " files quota "@ + quoted(
            quota,
        ),
        CommandView::UserDelete { target_user } => "user:delete "@ + target_user
            + " --no-interaction --verbose"@,
        CommandView::FileDelete { path_or_id } => "files:delete "@ + quoted(path_or_id),
        CommandView::FilePut { local_path, target_path_or_id } => "files:put "@ + quoted(
            local_path,
        ) + " "@ + quoted(target_path_or_id),
        CommandView::FileScan { user_id, all, path, unscanned, shallow, home_only, no_lock } =>
            "files:scan --output=json"@ + flag_text(all, "--all"@) + scan_options(
            user_id,
            path,
            unscanned,
            shallow,
            home_only,
            no_lock,
        ),
        CommandView::UserList => "user:list --info --output=json"@,
        CommandView::GroupList => "group:list --info --output=json"@,
        CommandView::List => "list"@,
        CommandView::Status => "status --output=json"@,
        CommandView::MaintenanceMode { on, off } => "maintenance:mode"@ + if on {
            " --on"@
        } else if off {
            " --off"@
        } else {
            Seq::empty()
        },
        CommandView::Sync { .. } => Seq::empty(),
    }
}

/// The whole occ invocation for `cmd`: interpreter, script, subcommand and options.
pub open spec fn occ_command_text(cmd: CommandView, php_path: Seq<char>, occ_path: Seq<char>) -> Seq<
    char,
> {
    occ_prefix(php_path, occ_path) + occ_arguments(cmd)
}

/// Whether `part` occurs in `text`.
pub open spec fn contains_text(text: Seq<char>, part: Seq<char>) -> bool {
    exists|i: int| 0 <= i <= text.len() - part.len() && #[trigger] text.subrange(i, i + part.len()) == part
}

/// Every invocation runs the configured interpreter on the configured occ script, whatever
/// the subcommand.
pub proof fn law_invocation_runs_occ(cmd: CommandView, php_path: Seq<char>, occ_path: Seq<char>)
    ensures
        occ_command_text(cmd, php_path, occ_path).take(occ_prefix(php_path, occ_path).len() as int)
            == occ_prefix(php_path, occ_path),
{
    assert(occ_command_text(cmd, php_path, occ_path).take(
        occ_prefix(php_path, occ_path).len() as int,
    ) =~= occ_prefix(php_path, occ_path));
}

/// The status, user list, group list and file scan subcommands ask occ for JSON output.
pub proof fn law_reports_are_json(cmd: CommandView)
    requires
        cmd is Status || cmd is UserList || cmd is GroupList || cmd is FileScan,
    ensures
        contains_text(occ_arguments(cmd), "--output=json"@),
{
    reveal_strlit("--output=json");
    reveal_strlit("status --output=json");
    reveal_strlit("user:list --info --output=json");
    reveal_strlit("group:list --info --output=json");
    reveal_strlit("files:scan --output=json");
    let a = occ_arguments(cmd);
    let part = "--output=json"@;
    if cmd is Status {
        assert(a.subrange(7, 7 + part.len() as int) =~= part);
    } else if cmd is UserList {
        assert(a.subrange(17, 17 + part.len() as int) =~= part);
    } else if cmd is GroupList {
        assert(a.subrange(18, 18 + part.len() as int) =~= part);
    } else {
        assert(a.subrange(11, 11 + part.len() as int) =~= part);
    }
}

/// Deleting a user never waits for a confirmation.
pub proof fn law_user_delete_is_unattended(target_user: Seq<char>)
    ensures
        contains_text(
            occ_arguments(CommandView::UserDelete { target_user }),
            " --no-interaction"@,
        ),
{
    reveal_strlit(" --no-interaction");
    reveal_strlit(" --no-interaction --verbose");
    reveal_strlit("user:delete ");
    let a = occ_arguments(CommandView::UserDelete { target_user });
    let i: int = 12 + target_user.len() as int;
    assert(a.subrange(i, i + " --no-interaction"@.len() as int) =~= " --no-interaction"@);
}

/// `--all` goes right after `files:scan --output=json` exactly when `all` holds, and
/// changes nothing else of the scan: the invocation with it is the one without it with
/// ` --all` inserted there.
pub proof fn law_scan_all_flag(
    user_id: Option<Seq<char>>,
    path: Option<Seq<char>>,
    unscanned: bool,
    shallow: bool,
    home_only: bool,
    no_lock: bool,
)
    ensures
        ({
            let with_all = occ_arguments(
                CommandView::FileScan { user_id, all: true, path, unscanned, shallow, home_only, no_lock },
            );
            let without = occ_arguments(
                CommandView::FileScan { user_id, all: false, path, unscanned, shallow, home_only, no_lock },
            );
            let head = "files:scan --output=json"@;
            &&& without.take(head.len() as int) == head
            &&& with_all == "files:scan --output=json --all"@ + without.skip(head.len() as int)
        }),
{
    lemma_scan_all_text();
    let head = "files:scan --output=json"@;
    let rest = scan_options(user_id, path, unscanned, shallow, home_only, no_lock);
    let without = head + flag_text(false, "--all"@) + rest;
    assert(without =~= head + rest);
    assert(without.take(head.len() as int) =~= head);
    assert(without.skip(head.len() as int) =~= rest);
    assert(head + flag_text(true, "--all"@) + rest =~= head + (" "@ + "--all"@) + rest);
}

/// `text` when `on` holds, nothing otherwise.
pub open spec fn when(on: bool, text: Seq<char>) -> Seq<char> {
    if on {
        text
    } else {
        Seq::empty()
    }
}

proof fn lemma_switch_text(on: bool, name: Seq<char>, spaced: Seq<char>)
    requires
        spaced == " "@ + name,
    ensures
        flag_text(on, name) == when(on, spaced),
{
}

proof fn lemma_switch_texts()
    ensures
        " "@ + "--all"@ == " --all"@,
        " "@ + "--unscanned"@ == " --unscanned"@,
        " "@ + "--shallow"@ == " --shallow"@,
        " "@ + "--home-only"@ == " --home-only"@,
        " "@ + "--no-lock"@ == " --no-lock"@,
        " "@ + "--generate-password"@ == " --generate-password"@,
        " "@ + "--path"@ + "="@ + "\""@ == " --path=\""@,
        " "@ + "--display-name"@ + "="@ + "\""@ == " --display-name=\""@,
        " "@ + "--group"@ + "="@ + "\""@ == " --group=\""@,
        " "@ + "--email"@ + "="@ + "\""@ == " --email=\""@,
{
    reveal_strlit(" ");
    reveal_strlit("=");
    reveal_strlit("\"");
    reveal_strlit("--all");
    reveal_strlit(" --all");
    reveal_strlit("--unscanned");
    reveal_strlit(" --unscanned");
    reveal_strlit("--shallow");
    reveal_strlit(" --shallow");
    reveal_strlit("--home-only");
    reveal_strlit(" --home-only");
    reveal_strlit("--no-lock");
    reveal_strlit(" --no-lock");
    reveal_strlit("--generate-password");
    reveal_strlit(" --generate-password");
    reveal_strlit("--path");
    reveal_strlit(" --path=\"");
    reveal_strlit("--display-name");
    reveal_strlit(" --display-name=\"");
    reveal_strlit("--group");
    reveal_strlit(" --group=\"");
    reveal_strlit("--email");
    reveal_strlit(" --email=\"");
    assert(" "@ + "--all"@ =~= " --all"@);
    assert(" "@ + "--unscanned"@ =~= " --unscanned"@);
    assert(" "@ + "--shallow"@ =~= " --shallow"@);
    assert(" "@ + "--home-only"@ =~= " --home-only"@);
    assert(" "@ + "--no-lock"@ =~= " --no-lock"@);
    assert(" "@ + "--generate-password"@ =~= " --generate-password"@);
    assert(" "@ + "--path"@ + "="@ + "\""@ =~= " --path=\""@);
    assert(" "@ + "--display-name"@ + "="@ + "\""@ =~= " --display-name=\""@);
    assert(" "@ + "--group"@ + "="@ + "\""@ =~= " --group=\""@);
    assert(" "@ + "--email"@ + "="@ + "\""@ =~= " --email=\""@);
}

/// ` --<name>="<value>"` when a value is given, nothing otherwise, from its literal opening.
pub open spec fn valued(opening: Seq<char>, value: Option<Seq<char>>) -> Seq<char> {
    match value {
        Some(v) => opening + v + "\""@,
        None => Seq::empty(),
    }
}

proof fn lemma_option_text(name: Seq<char>, opening: Seq<char>, value: Option<Seq<char>>)
    requires
        opening == " "@ + name + "="@ + "\""@,
    ensures
        option_text(name, value) == valued(opening, value),
{
    if let Some(v) = value {
        assert(option_text(name, value) =~= valued(opening, value));
    }
}

/// A file scan asks occ for JSON, then carries `--all` exactly when `all` holds, the path as
/// `--path="<path>"` exactly when one is given, the user exactly when one is given, and each
/// of `--unscanned`, `--shallow`, `--home-only`, `--no-lock` exactly when its switch holds,
/// in that order.
pub proof fn law_file_scan_options(
    user_id: Option<Seq<char>>,
    all: bool,
    path: Option<Seq<char>>,
    unscanned: bool,
    shallow: bool,
    home_only: bool,
    no_lock: bool,
)
    ensures
        occ_arguments(
            CommandView::FileScan { user_id, all, path, unscanned, shallow, home_only, no_lock },
        ) == "files:scan --output=json"@ + when(all, " --all"@) + (valued(" --path=\""@, path)
            + match user_id {
            Some(u) => " "@ + u,
            None => Seq::empty(),
        } + when(unscanned, " --unscanned"@) + when(shallow, " --shallow"@) + when(
            home_only,
            " --home-only"@,
        ) + when(no_lock, " --no-lock"@)),
{
    lemma_switch_texts();
    lemma_switch_text(all, "--all"@, " --all"@);
    lemma_switch_text(unscanned, "--unscanned"@, " --unscanned"@);
    lemma_switch_text(shallow, "--shallow"@, " --shallow"@);
    lemma_switch_text(home_only, "--home-only"@, " --home-only"@);
    lemma_switch_text(no_lock, "--no-lock"@, " --no-lock"@);
    lemma_option_text("--path"@, " --path=\""@, path);
}

/// Adding a user names the user, then carries `--generate-password` exactly when asked,
/// then `--display-name="…"`, `--group="…"` and `--email="…"` exactly for the values given,
/// in that order.
pub proof fn law_add_options(
    uid: Seq<char>,
    generate_password: bool,
    display_name: Option<Seq<char>>,
    group: Option<Seq<char>>,
    email: Option<Seq<char>>,
)
    ensures
        occ_arguments(CommandView::Add { uid, generate_password, display_name, group, email })
            == "user:add "@ + uid + when(generate_password, " --generate-password"@) + valued(
            " --display-name=\""@,
            display_name,
        ) + valued(" --group=\""@, group) + valued(" --email=\""@, email),
{
    lemma_switch_texts();
    lemma_switch_text(generate_password, "--generate-password"@, " --generate-password"@);
    lemma_option_text("--display-name"@, " --display-name=\""@, display_name);
    lemma_option_text("--group"@, " --group=\""@, group);
    lemma_option_text("--email"@, " --email=\""@, email);
}

/// Maintenance mode is switched on with `--on`, else off with `--off`, else only queried.
pub proof fn law_maintenance_switch(on: bool, off: bool)
    ensures
        occ_arguments(CommandView::MaintenanceMode { on, off }) == "maintenance:mode"@ + if on {
            " --on"@
        } else if off {
            " --off"@
        } else {
            Seq::empty()
        },
{
}

proof fn lemma_scan_all_text()
    ensures
        "files:scan --output=json"@ + (" "@ + "--all"@) == "files:scan --output=json --all"@,
{
    reveal_strlit("files:scan --output=json");
    reveal_strlit("files:scan --output=json --all");
    reveal_strlit(" ");
    reveal_strlit("--all");
    assert("files:scan --output=json"@ + (" "@ + "--all"@) =~= "files:scan --output=json --all"@);
}

/// `--generate-password` follows the user id exactly when `generate_password` holds,
/// whatever the other options: the invocation with it is the one without it with
/// ` --generate-password` inserted after the user id; with no other option it is just
/// `user:add <uid> --generate-password`.
pub proof fn law_generate_password_flag(
    uid: Seq<char>,
    display_name: Option<Seq<char>>,
    group: Option<Seq<char>>,
    email: Option<Seq<char>>,
)
    ensures
        ({
            let with_flag = occ_arguments(
                CommandView::Add { uid, generate_password: true, display_name, group, email },
            );
            let without = occ_arguments(
                CommandView::Add { uid, generate_password: false, display_name, group, email },
            );
            let head = "user:add "@ + uid;
            &&& without.take(head.len() as int) == head
            &&& with_flag == head + " --generate-password"@ + without.skip(head.len() as int)
        }),
        occ_arguments(
            CommandView::Add {
                uid,
                generate_password: true,
                display_name: None,
                group: None,
                email: None,
            },
        ) == "user:add "@ + uid + " --generate-password"@,
{
    reveal_strlit(" --generate-password");
    reveal_strlit(" ");
    reveal_strlit("--generate-password");
    let head = "user:add "@ + uid;
    let rest = option_text("--display-name"@, display_name) + option_text("--group"@, group)
        + option_text("--email"@, email);
    let without = occ_arguments(
        CommandView::Add { uid, generate_password: false, display_name, group, email },
    );
    assert(without =~= head + rest);
    assert(without.take(head.len() as int) =~= head);
    assert(without.skip(head.len() as int) =~= rest);
    assert(" "@ + "--generate-password"@ =~= " --generate-password"@);
    assert(occ_arguments(CommandView::Add { uid, generate_password: true, display_name, group, email })
        =~= head + " --generate-password"@ + rest);
    assert(occ_arguments(
        CommandView::Add { uid, generate_password: true, display_name: None, group: None, email: None },
    ) =~= "user:add "@ + uid + " --generate-password"@);
}

fn push_flag(out: &mut String, on: bool, name: &str)
    ensures
        final(out)@ == old(out)@ + flag_text(on, name@),
{
    if on {
        let ghost start = out@;
        out.append(" ");
        out.append(name);
        assert(out@ =~= start + flag_text(on, name@));
    } else {
        assert(out@ =~= old(out)@ + flag_text(on, name@));
    }
}

fn push_quoted(out: &mut String, value: &str)
    ensures
        final(out)@ == old(out)@ + quoted(value@),
{
    let ghost start = out@;
    out.append("\"");
    out.append(value);
    out.append("\"");
    assert(out@ =~= start + quoted(value@));
}

fn push_option(out: &mut String, name: &str, value: &Option<String>)
    ensures
        final(out)@ == old(out)@ + option_text(name@, crate::text::opt_view(*value)),
{
    match value {
        Some(v) => {
            let ghost start = out@;
            out.append(" ");
            out.append(name);
            out.append("=");
            push_quoted(out, v.as_str());
            assert(out@ =~= start + option_text(name@, crate::text::opt_view(*value)));
        },
        None => {
            assert(out@ =~= old(out)@ + option_text(name@, crate::text::opt_view(*value)));
        },
    }
}

fn push_argument(out: &mut String, value: &Option<String>)
    ensures
        final(out)@ == old(out)@ + argument_text(crate::text::opt_view(*value)),
{
    match value {
        Some(v) => {
            let ghost start = out@;
            out.append(" ");
            out.append(v.as_str());
            assert(out@ =~= start + argument_text(crate::text::opt_view(*value)));
        },
        None => {
            assert(out@ =~= old(out)@ + argument_text(crate::text::opt_view(*value)));
        },
    }
}

fn add_arguments(
    uid: &str,
    generate_password: bool,
    display_name: &Option<String>,
    group: &Option<String>,
    email: &Option<String>,
) -> (r: String)
    ensures
        r@ == occ_arguments(
            CommandView::Add {
                uid: uid@,
                generate_password,
                display_name: crate::text::opt_view(*display_name),
                group: crate::text::opt_view(*group),
                email: crate::text::opt_view(*email),
            },
        ),
{
    let mut out = "user:add ".to_owned();
    out.append(uid);
    push_flag(&mut out, generate_password, "--generate-password");
    push_option(&mut out, "--display-name", display_name);
    push_option(&mut out, "--group", group);
    push_option(&mut out, "--email", email);
    out
}

fn file_scan_arguments(
    user_id: &Option<String>,
    all: bool,
    path: &Option<String>,
    unscanned: bool,
    shallow: bool,
    home_only: bool,
    no_lock: bool,
) -> (r: String)
    ensures
        r@ == occ_arguments(
            CommandView::FileScan {
                user_id: crate::text::opt_view(*user_id),
                all,
                path: crate::text::opt_view(*path),
                unscanned,
                shallow,
                home_only,
                no_lock,
            },
        ),
{
    let mut options = String::new();
    push_option(&mut options, "--path", path);
    push_argument(&mut options, user_id);
    push_flag(&mut options, unscanned, "--unscanned");
    push_flag(&mut options, shallow, "--shallow");
    push_flag(&mut options, home_only, "--home-only");
    push_flag(&mut options, no_lock, "--no-lock");
    assert(options@ =~= scan_options(
        crate::text::opt_view(*user_id),
        crate::text::opt_view(*path),
        unscanned,
        shallow,
        home_only,
        no_lock,
    ));
    let mut out = "files:scan --output=json".to_owned();
    push_flag(&mut out, all, "--all");
    out.append(options.as_str());
    out
}

fn maintenance_arguments(on: bool, off: bool) -> (r: String)
    ensures
        r@ == occ_arguments(CommandView::MaintenanceMode { on, off }),
{
    let mut out = "maintenance:mode".to_owned();
    if on {
        out.append(" --on");
    } else if off {
        out.append(" --off");
    } else {
        assert(out@ =~= out@ + Seq::<char>::empty());
    }
    out
}

/// The occ subcommand, with its options, that carries out `command`.
fn occ_subcommand(command: &Commands) -> (r: String)
    requires
        !(command is Sync),
    ensures
        r@ == occ_arguments(command@),
{
    match command {
        Commands::Add { uid, generate_password, display_name, group, email } => add_arguments(
            uid.as_str(),
            *generate_password,
            display_name,
            group,
            email,
        ),
        Commands::SetQuota { uid, quota } => {
            let mut out = "user:setting ".to_owned();
            out.append(uid.as_str());
            out.append(" files quota ");
            push_quoted(&mut out, quota.as_str());
            out
        },
        Commands::UserDelete { target_user } => {
            let mut out = "user:delete ".to_owned();
            out.append(target_user.as_str());
            out.append(" --no-interaction --verbose");
            out
        },
        Commands::FileDelete { path_or_id } => {
            let mut out = "files:delete ".to_owned();
            push_quoted(&mut out, path_or_id.as_str());
            out
        },
        Commands::FilePut { local_path, target_path_or_id } => {
            let mut out = "files:put ".to_owned();
            push_quoted(&mut out, local_path.as_str());
            out.append(" ");
            push_quoted(&mut out, target_path_or_id.as_str());
            out
        },
        Commands::FileScan { user_id, all, path, unscanned, shallow, home_only, no_lock } =>
            file_scan_arguments(user_id, *all, path, *unscanned, *shallow, *home_only, *no_lock),
        Commands::UserList => "user:list --info --output=json".to_owned(),
        Commands::GroupList => "group:list --info --output=json".to_owned(),
        Commands::List => "list".to_owned(),
        Commands::Status => "status --output=json".to_owned(),
        Commands::MaintenanceMode { on, off } => maintenance_arguments(*on, *off),
        Commands::Sync { .. } => String::new(),
    }
}

/// Builds the occ invocation that carries out `command` on the server, with `php_path` as
/// the interpreter and `occ_path` as the occ script.
pub fn build_occ_command(command: &Commands, php_path: &str, occ_path: &str) -> (r: String)
    requires
        !(command is Sync),
    ensures
        r@ == occ_command_text(command@, php_path@, occ_path@),
{
    let mut cmd = php_path.to_owned();
    cmd.append(" ");
    cmd.append(occ_path);
    cmd.append(" ");
    let arguments = occ_subcommand(command);
    cmd.append(arguments.as_str());
    cmd
}

} // verus!
