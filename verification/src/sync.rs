//! Copying the local source directory to the server with rsync: the argument list and the
//! messages around it.

use vstd::prelude::*;
use vstd::string::*;
use crate::text::{decimal, opt_view, push_decimal, push_signed_decimal, signed_decimal, texts_view};

verus! {

/// What one rsync transfer needs.
#[derive(Debug, PartialEq, Eq)]
pub struct SyncParams {
    /// The local directory whose contents are copied.
    pub local_dir: String,
    /// The directory on the server that receives them.
    pub remote_dir: String,
    pub host: String,
    pub port: Option<u16>,
    pub ssh_user: String,
    /// Path of the SSH private key, if any.
    pub identity_file: Option<String>,
    /// Patterns of files left out; none given means `.DS_Store`.
    pub excludes: Vec<String>,
    /// Whether files missing locally are deleted on the server.
    pub delete: bool,
    /// Whether rsync only reports what it would do.
    pub dry_run: bool,
}

/// The texts a transfer's parameters hold.
pub struct SyncParamsView {
    pub local_dir: Seq<char>,
    pub remote_dir: Seq<char>,
    pub host: Seq<char>,
    pub port: Option<u16>,
    pub ssh_user: Seq<char>,
    pub identity_file: Option<Seq<char>>,
    pub excludes: Seq<Seq<char>>,
    pub delete: bool,
    pub dry_run: bool,
}

impl View for SyncParams {
    type V = SyncParamsView;

    open spec fn view(&self) -> SyncParamsView {
        SyncParamsView {
            local_dir: self.local_dir@,
            remote_dir: self.remote_dir@,
            host: self.host@,
            port: self.port,
            ssh_user: self.ssh_user@,
            identity_file: opt_view(self.identity_file),
            excludes: texts_view(self.excludes@),
            delete: self.delete,
            dry_run: self.dry_run,
        }
    }
}

/// The remote shell rsync runs: `ssh`, then `-p <port>` and `-i "<key>"` when given.
pub open spec fn transport_text(port: Option<u16>, identity_file: Option<Seq<char>>) -> Seq<char> {
    "ssh"@ + match port {
        Some(p) => " -p "@ + decimal(p as nat),
        None => Seq::empty(),
    } + match identity_file {
        Some(k) => " -i \""@ + k + "\""@,
        None => Seq::empty(),
    }
}

/// The patterns in effect: those given, or `.DS_Store` when none is given.
pub open spec fn excludes_in_effect(excludes: Seq<Seq<char>>) -> Seq<Seq<char>> {
    if excludes.len() == 0 {
        seq![".DS_Store"@]
    } else {
        excludes
    }
}

/// `--exclude <pattern>` for each pattern, in order.
pub open spec fn exclude_arguments(patterns: Seq<Seq<char>>) -> Seq<Seq<char>>
    decreases patterns.len(),
{
    if patterns.len() == 0 {
        Seq::empty()
    } else {
        exclude_arguments(patterns.drop_last()) + seq!["--exclude"@, patterns.last()]
    }
}

/// The source as rsync is given it: the directory with a trailing `/`, so that its
/// contents, not the directory itself, are copied.
pub open spec fn source_text(local_dir: Seq<char>) -> Seq<char> {
    if local_dir.len() > 0 && local_dir.last() == '/' {
        local_dir
    } else {
        local_dir + "/"@
    }
}

/// The destination as rsync is given it: `user@host:dir`.
pub open spec fn destination_text(ssh_user: Seq<char>, host: Seq<char>, remote_dir: Seq<char>) -> Seq<
    char,
> {
    ssh_user + "@"@ + host + ":"@ + remote_dir
}

/// The whole argument list of the rsync run for `p`.
pub open spec fn rsync_argument_list(p: SyncParamsView) -> Seq<Seq<char>> {
    seq!["-avz"@, "--progress"@] + (if p.dry_run {
        seq!["--dry-run"@]
    } else {
        Seq::empty()
    }) + (if p.delete {
        seq!["--delete"@]
    } else {
        Seq::empty()
    }) + seq!["-e"@, transport_text(p.port, p.identity_file)] + exclude_arguments(
        excludes_in_effect(p.excludes),
    ) + seq![source_text(p.local_dir), destination_text(p.ssh_user, p.host, p.remote_dir)]
}

/// rsync is asked for a dry run exactly when the transfer is one: `--dry-run` is then its
/// third argument, right after `-avz --progress`.
pub proof fn law_dry_run_reaches_rsync(p: SyncParamsView)
    ensures
        p.dry_run <==> rsync_argument_list(p)[2] == "--dry-run"@,
{
    reveal_strlit("--dry-run");
    reveal_strlit("--delete");
    reveal_strlit("-e");
    let args = rsync_argument_list(p);
    if !p.dry_run {
        if p.delete {
            assert(args[2] == "--delete"@);
            assert("--delete"@[3] != "--dry-run"@[3]);
        } else {
            assert(args[2] == "-e"@);
            assert("-e"@.len() != "--dry-run"@.len());
        }
    }
}

/// When no pattern is given, `.DS_Store` is left out of the transfer; otherwise exactly the
/// given patterns are, in order.
pub proof fn law_default_exclude(p: SyncParamsView)
    ensures
        p.excludes.len() == 0 ==> exclude_arguments(excludes_in_effect(p.excludes)) == seq![
            "--exclude"@,
            ".DS_Store"@,
        ],
        p.excludes.len() > 0 ==> excludes_in_effect(p.excludes) == p.excludes,
{
    if p.excludes.len() == 0 {
        let patterns = excludes_in_effect(p.excludes);
        assert(patterns.drop_last() =~= Seq::<Seq<char>>::empty());
        assert(exclude_arguments(Seq::<Seq<char>>::empty()) =~= Seq::<Seq<char>>::empty());
        assert(exclude_arguments(patterns) =~= seq!["--exclude"@, ".DS_Store"@]);
    }
}

/// rsync is asked to delete exactly when the transfer says so: `--delete` then comes right
/// after the `--dry-run` switch, if any.
pub proof fn law_delete_reaches_rsync(p: SyncParamsView)
    ensures
        ({
            let at = 2 + (if p.dry_run { 1int } else { 0 });
            p.delete <==> rsync_argument_list(p)[at] == "--delete"@
        }),
{
    reveal_strlit("--delete");
    reveal_strlit("-e");
    let args = rsync_argument_list(p);
    let at = 2 + (if p.dry_run { 1int } else { 0 });
    if !p.delete {
        assert(args[at] == "-e"@);
        assert("-e"@.len() != "--delete"@.len());
    }
}

/// The remote shell carries the port as `-p <port>` exactly when one is given, and the key
/// as `-i "<key>"` exactly when one is given, after it: each is inserted without changing
/// the rest.
pub proof fn law_transport_options(port: u16, key: Seq<char>)
    ensures
        transport_text(None, None) == "ssh"@,
        transport_text(Some(port), None) == "ssh"@ + " -p "@ + decimal(port as nat),
        forall|p: Option<u16>|
            #[trigger] transport_text(p, Some(key)) == transport_text(p, None) + " -i \""@ + key
                + "\""@,
{
    assert(transport_text(None, None) =~= "ssh"@);
    assert(transport_text(Some(port), None) =~= "ssh"@ + " -p "@ + decimal(port as nat));
    assert forall|p: Option<u16>| #[trigger] transport_text(p, Some(key)) == transport_text(p, None)
        + " -i \""@ + key + "\""@ by {
        assert(transport_text(p, Some(key)) =~= transport_text(p, None) + " -i \""@ + key + "\""@);
    }
}

/// The source and the destination are rsync's last two arguments: the local directory with
/// one trailing `/` (added only when missing), and `user@host:dir`.
pub proof fn law_source_and_destination(p: SyncParamsView)
    ensures
        ({
            let args = rsync_argument_list(p);
            &&& args[args.len() - 1] == p.ssh_user + "@"@ + p.host + ":"@ + p.remote_dir
            &&& (p.local_dir.len() > 0 && p.local_dir.last() == '/') ==> args[args.len() - 2]
                == p.local_dir
            &&& !(p.local_dir.len() > 0 && p.local_dir.last() == '/') ==> args[args.len() - 2]
                == p.local_dir + "/"@
        }),
{
}

proof fn lemma_exclude_arguments(patterns: Seq<Seq<char>>)
    ensures
        exclude_arguments(patterns).len() == 2 * patterns.len(),
        forall|k: int|
            0 <= k < patterns.len() ==> #[trigger] exclude_arguments(patterns)[2 * k] == "--exclude"@
                && exclude_arguments(patterns)[2 * k + 1] == patterns[k],
    decreases patterns.len(),
{
    if patterns.len() > 0 {
        let rest = patterns.drop_last();
        lemma_exclude_arguments(rest);
        assert forall|k: int| 0 <= k < patterns.len() implies #[trigger] exclude_arguments(
            patterns,
        )[2 * k] == "--exclude"@ && exclude_arguments(patterns)[2 * k + 1] == patterns[k] by {
            if k < rest.len() {
                assert(exclude_arguments(rest)[2 * k] == "--exclude"@);
                assert(rest[k] == patterns[k]);
            }
        }
    }
}

/// Every pattern given reaches rsync, in order, each after its own `--exclude`, right after
/// the remote shell; when none is given, `.DS_Store` does. The source and the destination
/// come last.
pub proof fn law_exclude_patterns_reach_rsync(p: SyncParamsView)
    ensures
        ({
            let args = rsync_argument_list(p);
            let base = 4 + (if p.dry_run { 1int } else { 0 }) + (if p.delete { 1int } else { 0 });
            &&& args[base - 2] == "-e"@
            &&& p.excludes.len() > 0 ==> args.len() == base + 2 * p.excludes.len() + 2 && forall|k: int|
                0 <= k < p.excludes.len() ==> args[base + 2 * k] == "--exclude"@ && #[trigger] args[base
                    + 2 * k + 1] == p.excludes[k]
            &&& p.excludes.len() == 0 ==> args.len() == base + 4 && args[base] == "--exclude"@
                && args[base + 1] == ".DS_Store"@
        }),
{
    let patterns = excludes_in_effect(p.excludes);
    lemma_exclude_arguments(patterns);
    let args = rsync_argument_list(p);
    let base = 4 + (if p.dry_run { 1int } else { 0 }) + (if p.delete { 1int } else { 0 });
    let opening = seq!["-avz"@, "--progress"@] + (if p.dry_run {
        seq!["--dry-run"@]
    } else {
        Seq::empty()
    }) + (if p.delete {
        seq!["--delete"@]
    } else {
        Seq::empty()
    }) + seq!["-e"@, transport_text(p.port, p.identity_file)];
    assert(opening.len() == base);
    assert(opening[base - 2] == "-e"@);
    let excl = exclude_arguments(patterns);
    assert(args == opening + excl + seq![
        source_text(p.local_dir),
        destination_text(p.ssh_user, p.host, p.remote_dir),
    ]);
    assert forall|k: int| 0 <= k < patterns.len() implies args[base + 2 * k] == "--exclude"@
        && #[trigger] args[base + 2 * k + 1] == patterns[k] by {
        assert(excl[2 * k] == "--exclude"@);
        assert(excl[2 * k + 1] == patterns[k]);
    }
    if p.excludes.len() == 0 {
        assert(patterns[0] == ".DS_Store"@);
        assert(args[base] == excl[0]);
        assert(args[base + 1] == excl[1]);
    }
}

/// The remote shell rsync runs (see `transport_text`).
pub fn transport_command(port: Option<u16>, identity_file: &Option<String>) -> (r: String)
    ensures
        r@ == transport_text(port, opt_view(*identity_file)),
{
    let mut r = "ssh".to_owned();
    match port {
        Some(p) => {
            r.append(" -p ");
            push_decimal(&mut r, p as u64);
        },
        None => {},
    }
    match identity_file {
        Some(k) => {
            r.append(" -i \"");
            r.append(k.as_str());
            r.append("\"");
        },
        None => {},
    }
    assert(r@ =~= transport_text(port, opt_view(*identity_file)));
    r
}

/// The source as rsync is given it (see `source_text`).
pub fn source_argument(local_dir: &str) -> (r: String)
    ensures
        r@ == source_text(local_dir@),
{
    let n = local_dir.unicode_len();
    if n > 0 && local_dir.get_char(n - 1) == '/' {
        local_dir.to_owned()
    } else {
        let mut r = local_dir.to_owned();
        r.append("/");
        r
    }
}

/// The destination as rsync is given it (see `destination_text`).
pub fn destination_argument(ssh_user: &str, host: &str, remote_dir: &str) -> (r: String)
    ensures
        r@ == destination_text(ssh_user@, host@, remote_dir@),
{
    let mut r = ssh_user.to_owned();
    r.append("@");
    r.append(host);
    r.append(":");
    r.append(remote_dir);
    r
}

/// The argument list of the rsync run that copies the local directory of `params` to the
/// server (see `rsync_argument_list`).
pub fn rsync_arguments(params: &SyncParams) -> (r: Vec<String>)
    ensures
        texts_view(r@) == rsync_argument_list(params@),
{
    let mut args: Vec<String> = Vec::new();
    args.push("-avz".to_owned());
    args.push("--progress".to_owned());
    if params.dry_run {
        args.push("--dry-run".to_owned());
    }
    if params.delete {
        args.push("--delete".to_owned());
    }
    args.push("-e".to_owned());
    args.push(transport_command(params.port, &params.identity_file));
    let ghost head = texts_view(args@);
    let ghost patterns = excludes_in_effect(params@.excludes);
    if params.excludes.len() == 0 {
        args.push("--exclude".to_owned());
        args.push(".DS_Store".to_owned());
        assert(patterns =~= seq![".DS_Store"@]);
        assert(patterns.drop_last() =~= Seq::<Seq<char>>::empty());
        assert(exclude_arguments(Seq::<Seq<char>>::empty()) =~= Seq::<Seq<char>>::empty());
        assert(exclude_arguments(patterns) =~= seq!["--exclude"@, ".DS_Store"@]);
        assert(texts_view(args@) =~= head + exclude_arguments(patterns));
    } else {
        let n = params.excludes.len();
        let mut i: usize = 0;
        assert(patterns.take(0) =~= Seq::<Seq<char>>::empty());
        assert(texts_view(args@) =~= head + exclude_arguments(patterns.take(0)));
        while i < n
            invariant
                n == params.excludes@.len(),
                patterns == texts_view(params.excludes@),
                i <= n,
                texts_view(args@) == head + exclude_arguments(patterns.take(i as int)),
            decreases n - i,
        {
            let ghost before = texts_view(args@);
            args.push("--exclude".to_owned());
            args.push(params.excludes[i].clone());
            assert(patterns.take(i + 1).drop_last() =~= patterns.take(i as int));
            assert(texts_view(args@) =~= before + seq!["--exclude"@, patterns[i as int]]);
            i = i + 1;
        }
        assert(patterns.take(n as int) =~= patterns);
    }
    let ghost middle = texts_view(args@);
    args.push(source_argument(params.local_dir.as_str()));
    args.push(
        destination_argument(
            params.ssh_user.as_str(),
            params.host.as_str(),
            params.remote_dir.as_str(),
        ),
    );
    let ghost p = params@;
    let ghost opening = seq!["-avz"@, "--progress"@] + (if p.dry_run {
        seq!["--dry-run"@]
    } else {
        Seq::empty()
    }) + (if p.delete {
        seq!["--delete"@]
    } else {
        Seq::empty()
    }) + seq!["-e"@, transport_text(p.port, p.identity_file)];
    assert(head =~= opening);
    assert(middle =~= opening + exclude_arguments(patterns));
    assert(texts_view(args@) =~= middle + seq![
        source_text(p.local_dir),
        destination_text(p.ssh_user, p.host, p.remote_dir),
    ]);
    assert(texts_view(args@) =~= rsync_argument_list(params@));
    args
}

/// The error given when the source directory is missing or is not a directory.
pub fn missing_source_message(local_dir: &str) -> (r: String)
    ensures
        r@ == "エラー: 同期元ディレクトリ '"@ + local_dir@ + "' が存在しません。"@,
{
    let mut r = "エラー: 同期元ディレクトリ '".to_owned();
    r.append(local_dir);
    r.append("' が存在しません。");
    r
}

/// The error given when the source directory holds nothing.
pub fn empty_source_message(local_dir: &str) -> (r: String)
    ensures
        r@ == "エラー: 同期元ディレクトリ '"@ + local_dir@ + "' 内にファイルやフォルダーが存在しません。"@,
{
    let mut r = "エラー: 同期元ディレクトリ '".to_owned();
    r.append(local_dir);
    r.append("' 内にファイルやフォルダーが存在しません。");
    r
}

/// The message printed when rsync starts.
pub fn start_message(dry_run: bool) -> (r: String)
    ensures
        r@ == if dry_run {
            "rsync を実行中 (DRY-RUN モード)..."@
        } else {
            "rsync を実行中..."@
        },
{
    if dry_run {
        "rsync を実行中 (DRY-RUN モード)...".to_owned()
    } else {
        "rsync を実行中...".to_owned()
    }
}

/// Whether a transfer may start from the source directory `local_dir`: it is refused with
/// the missing-source message when the path is not `present` or is not a directory, and
/// with the empty-source message when the directory holds nothing (`has_entries` is only
/// consulted for an existing directory).
pub fn check_source(local_dir: &str, present: bool, is_dir: bool, has_entries: bool) -> (r: Result<
    (),
    String,
>)
    ensures
        !present || !is_dir ==> (r matches Err(m) && m@ == "エラー: 同期元ディレクトリ '"@ + local_dir@
            + "' が存在しません。"@),
        present && is_dir && !has_entries ==> (r matches Err(m) && m@ == "エラー: 同期元ディレクトリ '"@
            + local_dir@ + "' 内にファイルやフォルダーが存在しません。"@),
        present && is_dir && has_entries ==> r is Ok,
{
    if !present || !is_dir {
        Err(missing_source_message(local_dir))
    } else if !has_entries {
        Err(empty_source_message(local_dir))
    } else {
        Ok(())
    }
}

/// How an optional exit code is written for debugging: `Some(<code>)` or `None`.
pub open spec fn exit_code_text(code: Option<i32>) -> Seq<char> {
    match code {
        Some(c) => "Some("@ + signed_decimal(c as int) + ")"@,
        None => "None"@,
    }
}

/// The error given when rsync exits unsuccessfully, with its exit code if it had one.
pub fn failure_message(code: Option<i32>) -> (r: String)
    ensures
        r@ == "rsync が終了コード "@ + exit_code_text(code) + " で失敗しました。"@,
{
    let mut r = "rsync が終了コード ".to_owned();
    match code {
        Some(c) => {
            r.append("Some(");
            push_signed_decimal(&mut r, c);
            r.append(")");
        },
        None => {
            r.append("None");
        },
    }
    r.append(" で失敗しました。");
    r
}

/// What came of an rsync run: success when rsync exited successfully, otherwise the failure
/// message with its exit code, if it had one.
pub fn rsync_outcome(success: bool, code: Option<i32>) -> (r: Result<(), String>)
    ensures
        success ==> r is Ok,
        !success ==> (r matches Err(m) && m@ == "rsync が終了コード "@ + exit_code_text(code)
            + " で失敗しました。"@),
{
    if success {
        Ok(())
    } else {
        Err(failure_message(code))
    }
}

} // verus!
