//! The dispatch router and the launch strategies.
//!
//! A launch request names a shortcut type, a command, and the trimmings
//! (arguments, working directory, visibility, shell, elevation). The router
//! expands environment placeholders in the command and working directory,
//! resolves the type — an unrecognized or absent type falls back to the
//! application strategy — and hands the expanded values to the strategy,
//! which builds the concrete process invocation. Elevated launches go
//! through a helper invocation of the elevation-capable shell; inline shell
//! scripts are first materialized into a temporary script file.

use crate::config::ShortcutType;
use crate::expand::{expand_chars, expand_env_vars, EnvEntry, EnvTable};
use crate::plan::{LaunchPlan, ProcessSpec, TempScript, WindowMode};
use crate::text::{dec_str, eq_ignore_ascii_case, eq_ignore_case, lower_char, lower_seq, push_decimal};
use crate::tokenizer::{parse_args, tokenize_opt};
use vstd::prelude::*;

verus! {

// ---------------------------------------------------------------------------
// Paths: file-name extension
// ---------------------------------------------------------------------------

/// The position of the last occurrence of `c` in `s` at or before `i`.
pub open spec fn scan_last(s: Seq<char>, i: int, c: char) -> Option<int>
    decreases i + 1,
{
    if i < 0 || i >= s.len() {
        None
    } else if s[i] == c {
        Some(i)
    } else {
        scan_last(s, i - 1, c)
    }
}

/// Where the file name of `path` begins: right after the last path
/// separator — `/` or `\` — or at the start when there is none.
pub open spec fn file_name_start(path: Seq<char>) -> int {
    let slash = scan_last(path, path.len() - 1, '/');
    let back = scan_last(path, path.len() - 1, '\\');
    match (slash, back) {
        (None, None) => 0,
        (Some(a), None) => a + 1,
        (None, Some(b)) => b + 1,
        (Some(a), Some(b)) => if a > b {
            a + 1
        } else {
            b + 1
        },
    }
}

/// `path` without its trailing path separators, which do not change which
/// file the path names.
pub open spec fn strip_trailing_seps(path: Seq<char>) -> Seq<char>
    decreases path.len(),
{
    if path.len() > 0 && (path.last() == '/' || path.last() == '\\') {
        strip_trailing_seps(path.drop_last())
    } else {
        path
    }
}

/// The extension of a path that carries no trailing separator: the
/// characters after the last `.`, provided that dot lies inside the file
/// name and is not its first character. Empty when the file name has no
/// such dot — and also for a trailing dot, whose extension is the empty
/// string.
pub open spec fn trimmed_extension(path: Seq<char>) -> Seq<char> {
    match scan_last(path, path.len() - 1, '.') {
        Some(d) => if d > file_name_start(path) {
            path.subrange(d + 1, path.len() as int)
        } else {
            Seq::empty()
        },
        None => Seq::empty(),
    }
}

/// The extension of `path`'s file name, with trailing separators ignored:
/// `dir\job.bat\` names the same file as `dir\job.bat` and has the same
/// extension.
pub open spec fn script_extension(path: Seq<char>) -> Seq<char> {
    trimmed_extension(strip_trailing_seps(path))
}

/// The position of the last occurrence of `c` in `s`, if any.
fn scan_last_char(s: &str, c: char) -> (r: Option<usize>)
    ensures
        match r {
            Some(j) => j < s@.len() && Some(j as int) == scan_last(s@, s@.len() - 1, c),
            None => scan_last(s@, s@.len() - 1, c) is None,
        },
{
    let n = s.unicode_len();
    let mut j = n;
    while j > 0
        invariant
            n == s@.len(),
            j <= n,
            scan_last(s@, n as int - 1, c) == scan_last(s@, j as int - 1, c),
        decreases j,
    {
        j -= 1;
        if s.get_char(j) == c {
            return Some(j);
        }
    }
    None
}

/// The `&str` whose characters are empty.
fn empty_str() -> (r: &'static str)
    ensures
        r@ == Seq::<char>::empty(),
{
    proof {
        reveal_strlit("");
        assert(""@ =~= Seq::<char>::empty());
    }
    ""
}

/// The extension of a path already free of trailing separators, as
/// [`trimmed_extension`] defines it.
fn trimmed_extension_of(path: &str) -> (ext: &str)
    ensures
        ext@ == trimmed_extension(path@),
{
    let n = path.unicode_len();
    let dot = scan_last_char(path, '.');
    let slash = scan_last_char(path, '/');
    let back = scan_last_char(path, '\\');
    let start: usize = match (slash, back) {
        (None, None) => 0,
        (Some(a), None) => a + 1,
        (None, Some(b)) => b + 1,
        (Some(a), Some(b)) => if a > b {
            a + 1
        } else {
            b + 1
        },
    };
    proof {
        assert(start as int == file_name_start(path@));
    }
    match dot {
        Some(d) => if d > start {
            path.substring_char(d + 1, n)
        } else {
            empty_str()
        },
        None => empty_str(),
    }
}

/// The extension of `path`'s file name, as [`script_extension`] defines it:
/// trailing separators are ignored.
pub fn script_extension_of(path: &str) -> (ext: &str)
    ensures
        ext@ == script_extension(path@),
{
    let n = path.unicode_len();
    let mut m = n;
    proof {
        assert(path@.subrange(0, n as int) =~= path@);
    }
    while m > 0 && (path.get_char(m - 1) == '/' || path.get_char(m - 1) == '\\')
        invariant
            m <= n,
            n == path@.len(),
            strip_trailing_seps(path@) == strip_trailing_seps(path@.subrange(0, m as int)),
        decreases m,
    {
        proof {
            assert(path@.subrange(0, m as int).last() == path@[m as int - 1]);
            assert(path@.subrange(0, m as int).drop_last() =~= path@.subrange(0, m as int - 1));
        }
        m -= 1;
    }
    let trimmed = path.substring_char(0, m);
    proof {
        if m > 0 {
            assert(path@.subrange(0, m as int).last() == path@[m as int - 1]);
        }
        assert(strip_trailing_seps(path@.subrange(0, m as int)) == path@.subrange(0, m as int));
        assert(trimmed@ == strip_trailing_seps(path@));
    }
    trimmed_extension_of(trimmed)
}

// ---------------------------------------------------------------------------
// Resolving the shortcut type
// ---------------------------------------------------------------------------

/// The strategy named by a type string: matched ignoring ASCII case, with
/// anything unrecognized — and an absent string — meaning the application
/// strategy.
pub open spec fn resolve_type_spec(s: Option<Seq<char>>) -> ShortcutType {
    match s {
        None => ShortcutType::App,
        Some(t) => if eq_ignore_case(t, "url"@) {
            ShortcutType::Url
        } else if eq_ignore_case(t, "file"@) {
            ShortcutType::File
        } else if eq_ignore_case(t, "folder"@) {
            ShortcutType::Folder
        } else if eq_ignore_case(t, "script"@) {
            ShortcutType::Script
        } else if eq_ignore_case(t, "shell"@) {
            ShortcutType::Shell
        } else {
            ShortcutType::App
        },
    }
}

/// Resolves a type string to its strategy; unknown and absent strings fall
/// back to [`ShortcutType::App`].
pub fn resolve_shortcut_type(s: Option<&str>) -> (t: ShortcutType)
    ensures
        t == resolve_type_spec(s.deep_view()),
{
    match s {
        None => ShortcutType::App,
        Some(x) => if eq_ignore_ascii_case(x, "url") {
            ShortcutType::Url
        } else if eq_ignore_ascii_case(x, "file") {
            ShortcutType::File
        } else if eq_ignore_ascii_case(x, "folder") {
            ShortcutType::Folder
        } else if eq_ignore_ascii_case(x, "script") {
            ShortcutType::Script
        } else if eq_ignore_ascii_case(x, "shell") {
            ShortcutType::Shell
        } else {
            ShortcutType::App
        },
    }
}

// ---------------------------------------------------------------------------
// The elevation helper's command lines
// ---------------------------------------------------------------------------

/// The elevation request for a bare target: asks the elevation-capable shell
/// to start `target` with administrator rights. The target is interpolated
/// into the command line as-is, so a quote inside it passes through
/// unescaped — a known weakness of this composition, kept as documented
/// behavior.
pub open spec fn elevate_command(target: Seq<char>) -> Seq<char> {
    "Start-Process '"@ + target + "' -Verb RunAs"@
}

/// The elevation request that re-invokes the PowerShell interpreter on a
/// script file with the policy bypass, the script path and the raw argument
/// string interpolated into one command line.
pub open spec fn elevate_powershell_script(path: Seq<char>, raw_args: Seq<char>) -> Seq<char> {
    "Start-Process powershell -Verb RunAs -ArgumentList '-ExecutionPolicy Bypass -File \""@ + path
        + "\" "@ + raw_args + "'"@
}

/// The elevation request that re-invokes the command-shell interpreter on a
/// script file, with the script path and the raw argument string
/// interpolated into one command line.
pub open spec fn elevate_cmd_script(path: Seq<char>, raw_args: Seq<char>) -> Seq<char> {
    "Start-Process cmd -Verb RunAs -ArgumentList '/C \""@ + path + "\" "@ + raw_args + "'"@
}

/// An absent string read as empty.
pub open spec fn opt_or_empty(s: Option<Seq<char>>) -> Seq<char> {
    match s {
        Some(v) => v,
        None => Seq::empty(),
    }
}

fn build_elevate_command(target: &str) -> (r: String)
    ensures
        r@ == elevate_command(target@),
{
    let mut r = String::from_str("Start-Process '");
    r.append(target);
    r.append("' -Verb RunAs");
    proof {
        assert(r@ =~= elevate_command(target@));
    }
    r
}

fn build_elevate_powershell_script(path: &str, raw_args: &str) -> (r: String)
    ensures
        r@ == elevate_powershell_script(path@, raw_args@),
{
    let mut r = String::from_str(
        "Start-Process powershell -Verb RunAs -ArgumentList '-ExecutionPolicy Bypass -File \"",
    );
    r.append(path);
    r.append("\" ");
    r.append(raw_args);
    r.append("'");
    proof {
        assert(r@ =~= elevate_powershell_script(path@, raw_args@));
    }
    r
}

fn build_elevate_cmd_script(path: &str, raw_args: &str) -> (r: String)
    ensures
        r@ == elevate_cmd_script(path@, raw_args@),
{
    let mut r = String::from_str("Start-Process cmd -Verb RunAs -ArgumentList '/C \"");
    r.append(path);
    r.append("\" ");
    r.append(raw_args);
    r.append("'");
    proof {
        assert(r@ =~= elevate_cmd_script(path@, raw_args@));
    }
    r
}

// ---------------------------------------------------------------------------
// Temp-script materialization
// ---------------------------------------------------------------------------

/// The path of the temp script: inside `temp_dir`, named from the calling
/// process's identifier and the target shell's extension. Two launches from
/// one process targeting the same shell family share this path.
pub open spec fn temp_script_path(temp_dir: Seq<char>, pid: u64, ext: Seq<char>) -> Seq<char> {
    temp_dir + "\\"@ + "shortcut_script_"@ + dec_str(pid as nat) + ext
}

fn build_temp_script_path(temp_dir: &str, pid: u64, ext: &str) -> (r: String)
    ensures
        r@ == temp_script_path(temp_dir@, pid, ext@),
{
    let mut r = String::from_str(temp_dir);
    r.append("\\");
    r.append("shortcut_script_");
    push_decimal(&mut r, pid);
    r.append(ext);
    proof {
        assert(r@ =~= temp_script_path(temp_dir@, pid, ext@));
    }
    r
}

/// The content of `s` from position `i` with line endings normalized to
/// `\r\n`: an existing `\r\n` pair stays as it is, and a bare `\n` becomes
/// `\r\n`, so every line ends with exactly one terminator.
pub open spec fn crlf_from(s: Seq<char>, i: int) -> Seq<char>
    decreases s.len() - i,
{
    if i >= s.len() {
        Seq::empty()
    } else if s[i] == '\r' && i + 1 < s.len() && s[i + 1] == '\n' {
        "\r\n"@ + crlf_from(s, i + 2)
    } else if s[i] == '\n' {
        "\r\n"@ + crlf_from(s, i + 1)
    } else {
        seq![s[i]] + crlf_from(s, i + 1)
    }
}

/// The batch file written for an inline command-shell script: an `@echo off`
/// preamble, the script with line endings normalized to `\r\n`, and a
/// trailing `\r\n`.
pub open spec fn batch_content(script: Seq<char>) -> Seq<char> {
    "@echo off\r\n"@ + crlf_from(script, 0) + "\r\n"@
}

/// Builds the batch file content for an inline command-shell script.
pub fn build_batch_content(script: &str) -> (r: String)
    ensures
        r@ == batch_content(script@),
{
    let mut out = String::from_str("@echo off\r\n");
    let n = script.unicode_len();
    let mut i: usize = 0;
    while i < n
        invariant
            n == script@.len(),
            i <= n,
            out@ + crlf_from(script@, i as int) == "@echo off\r\n"@ + crlf_from(script@, 0),
        decreases n - i,
    {
        let c = script.get_char(i);
        if c == '\r' && i + 1 < n && script.get_char(i + 1) == '\n' {
            proof {
                assert((out@ + "\r\n"@) + crlf_from(script@, i as int + 2) =~= out@ + crlf_from(
                    script@,
                    i as int,
                ));
            }
            out.append("\r\n");
            i += 2;
        } else if c == '\n' {
            proof {
                assert((out@ + "\r\n"@) + crlf_from(script@, i as int + 1) =~= out@ + crlf_from(
                    script@,
                    i as int,
                ));
            }
            out.append("\r\n");
            i += 1;
        } else {
            let one = script.substring_char(i, i + 1);
            proof {
                assert(one@ =~= seq![script@[i as int]]);
                assert((out@ + one@) + crlf_from(script@, i as int + 1) =~= out@ + crlf_from(
                    script@,
                    i as int,
                ));
            }
            out.append(one);
            i += 1;
        }
    }
    proof {
        assert(out@ + crlf_from(script@, n as int) =~= out@);
    }
    out.append("\r\n");
    proof {
        assert(out@ =~= batch_content(script@));
    }
    out
}

// ---------------------------------------------------------------------------
// Launch strategies
// ---------------------------------------------------------------------------

/// The application strategy. Without elevation, the command itself is
/// spawned with the tokenized arguments and the working directory. With
/// elevation, the elevation helper is spawned instead, its own window
/// suppressed; arguments and working directory are not forwarded.
pub open spec fn app_invocation(
    command: Seq<char>,
    args: Option<Seq<char>>,
    working_dir: Option<Seq<char>>,
    admin: bool,
    p: ProcessSpec,
) -> bool {
    if admin {
        p.is_invocation(
            "powershell"@,
            seq!["-Command"@, elevate_command(command)],
            None,
            WindowMode::Hidden,
        )
    } else {
        p.is_invocation(command, tokenize_opt(args), working_dir, WindowMode::Default)
    }
}

/// Builds the application launch: the command directly, or the elevation
/// helper when `admin` is requested.
pub fn launch_app(command: &str, args: Option<&str>, working_dir: Option<&str>, admin: bool) -> (p:
    ProcessSpec)
    ensures
        app_invocation(command@, args.deep_view(), working_dir.deep_view(), admin, p),
{
    if admin {
        let mut argv: Vec<String> = Vec::new();
        argv.push(String::from_str("-Command"));
        argv.push(build_elevate_command(command));
        proof {
            assert(argv.deep_view() =~= seq!["-Command"@, elevate_command(command@)]);
        }
        ProcessSpec {
            program: String::from_str("powershell"),
            args: argv,
            working_dir: None,
            window: WindowMode::Hidden,
        }
    } else {
        let argv = match args {
            Some(raw) => parse_args(raw),
            None => Vec::new(),
        };
        proof {
            assert(argv.deep_view() =~= tokenize_opt(args.deep_view()));
        }
        ProcessSpec {
            program: String::from_str(command),
            args: argv,
            working_dir: opt_to_owned(working_dir),
            window: WindowMode::Default,
        }
    }
}

/// The URL strategy: the command shell's `start` facility opens the URL with
/// its default handler, the shell's own window suppressed.
pub open spec fn url_invocation(url: Seq<char>, p: ProcessSpec) -> bool {
    p.is_invocation("cmd"@, seq!["/C"@, "start"@, ""@, url], None, WindowMode::Hidden)
}

/// Builds the URL launch: `cmd /C start "" <url>`, hidden.
pub fn open_url(url: &str) -> (p: ProcessSpec)
    ensures
        url_invocation(url@, p),
{
    let mut argv: Vec<String> = Vec::new();
    argv.push(String::from_str("/C"));
    argv.push(String::from_str("start"));
    argv.push(String::from_str(""));
    argv.push(String::from_str(url));
    proof {
        assert(argv.deep_view() =~= seq!["/C"@, "start"@, ""@, url@]);
    }
    ProcessSpec {
        program: String::from_str("cmd"),
        args: argv,
        working_dir: None,
        window: WindowMode::Hidden,
    }
}

/// The file strategy: the default-handler facility opens the path; an
/// elevated request goes through the elevation helper exactly as in the
/// application strategy.
pub open spec fn file_invocation(path: Seq<char>, admin: bool, p: ProcessSpec) -> bool {
    if admin {
        p.is_invocation(
            "powershell"@,
            seq!["-Command"@, elevate_command(path)],
            None,
            WindowMode::Hidden,
        )
    } else {
        p.is_invocation("cmd"@, seq!["/C"@, "start"@, ""@, path], None, WindowMode::Hidden)
    }
}

/// Builds the file launch: `cmd /C start "" <path>`, or the elevation helper
/// when `admin` is requested.
pub fn open_file(path: &str, admin: bool) -> (p: ProcessSpec)
    ensures
        file_invocation(path@, admin, p),
{
    if admin {
        let mut argv: Vec<String> = Vec::new();
        argv.push(String::from_str("-Command"));
        argv.push(build_elevate_command(path));
        proof {
            assert(argv.deep_view() =~= seq!["-Command"@, elevate_command(path@)]);
        }
        ProcessSpec {
            program: String::from_str("powershell"),
            args: argv,
            working_dir: None,
            window: WindowMode::Hidden,
        }
    } else {
        let p = open_url(path);
        p
    }
}

/// The folder strategy: the file browser opens the path; elevation and
/// visibility do not apply.
pub open spec fn folder_invocation(path: Seq<char>, p: ProcessSpec) -> bool {
    p.is_invocation("explorer"@, seq![path], None, WindowMode::Default)
}

/// Builds the folder launch: `explorer <path>`.
pub fn open_folder(path: &str) -> (p: ProcessSpec)
    ensures
        folder_invocation(path@, p),
{
    let mut argv: Vec<String> = Vec::new();
    argv.push(String::from_str(path));
    proof {
        assert(argv.deep_view() =~= seq![path@]);
    }
    ProcessSpec {
        program: String::from_str("explorer"),
        args: argv,
        working_dir: None,
        window: WindowMode::Default,
    }
}

/// The script-file strategy, keyed on the file extension, matched ignoring
/// ASCII case. `.ps1` runs under PowerShell with the policy bypass; `.bat`
/// and `.cmd` run under the command shell, with a new console forced when
/// not hidden; anything else is executed directly, with no elevation or
/// visibility handling. Elevated `.ps1`/`.bat`/`.cmd` launches go through
/// the elevation helper with the interpolated command line and the raw,
/// untokenized argument string.
pub open spec fn script_file_invocation(
    path: Seq<char>,
    args: Option<Seq<char>>,
    working_dir: Option<Seq<char>>,
    hidden: bool,
    admin: bool,
    p: ProcessSpec,
) -> bool {
    let ext = script_extension(path);
    if eq_ignore_case(ext, "ps1"@) {
        if admin {
            p.is_invocation(
                "powershell"@,
                seq!["-Command"@, elevate_powershell_script(path, opt_or_empty(args))],
                None,
                WindowMode::Hidden,
            )
        } else {
            p.is_invocation(
                "powershell"@,
                seq!["-ExecutionPolicy"@, "Bypass"@, "-File"@, path] + tokenize_opt(args),
                working_dir,
                if hidden {
                    WindowMode::Hidden
                } else {
                    WindowMode::Default
                },
            )
        }
    } else if eq_ignore_case(ext, "bat"@) || eq_ignore_case(ext, "cmd"@) {
        if admin {
            p.is_invocation(
                "powershell"@,
                seq!["-Command"@, elevate_cmd_script(path, opt_or_empty(args))],
                None,
                WindowMode::Hidden,
            )
        } else {
            p.is_invocation(
                "cmd"@,
                seq!["/C"@, path] + tokenize_opt(args),
                working_dir,
                if hidden {
                    WindowMode::Hidden
                } else {
                    WindowMode::NewConsole
                },
            )
        }
    } else {
        p.is_invocation(path, tokenize_opt(args), working_dir, WindowMode::Default)
    }
}

/// Builds the script-file launch, keyed on the path's extension.
pub fn run_script_file(
    path: &str,
    args: Option<&str>,
    working_dir: Option<&str>,
    hidden: bool,
    admin: bool,
) -> (p: ProcessSpec)
    ensures
        script_file_invocation(
            path@,
            args.deep_view(),
            working_dir.deep_view(),
            hidden,
            admin,
            p,
        ),
{
    let ext = script_extension_of(path);
    if eq_ignore_ascii_case(ext, "ps1") {
        if admin {
            let raw = match args {
                Some(a) => a,
                None => empty_str(),
            };
            let mut argv: Vec<String> = Vec::new();
            argv.push(String::from_str("-Command"));
            argv.push(build_elevate_powershell_script(path, raw));
            proof {
                assert(argv.deep_view() =~= seq![
                    "-Command"@,
                    elevate_powershell_script(path@, opt_or_empty(args.deep_view())),
                ]);
            }
            ProcessSpec {
                program: String::from_str("powershell"),
                args: argv,
                working_dir: None,
                window: WindowMode::Hidden,
            }
        } else {
            let mut argv: Vec<String> = Vec::new();
            argv.push(String::from_str("-ExecutionPolicy"));
            argv.push(String::from_str("Bypass"));
            argv.push(String::from_str("-File"));
            argv.push(String::from_str(path));
            match args {
                Some(a) => {
                    let mut toks = parse_args(a);
                    argv.append(&mut toks);
                },
                None => {},
            }
            proof {
                assert(argv.deep_view() =~= seq!["-ExecutionPolicy"@, "Bypass"@, "-File"@, path@]
                    + tokenize_opt(args.deep_view()));
            }
            ProcessSpec {
                program: String::from_str("powershell"),
                args: argv,
                working_dir: opt_to_owned(working_dir),
                window: if hidden {
                    WindowMode::Hidden
                } else {
                    WindowMode::Default
                },
            }
        }
    } else if eq_ignore_ascii_case(ext, "bat") || eq_ignore_ascii_case(ext, "cmd") {
        if admin {
            let raw = match args {
                Some(a) => a,
                None => empty_str(),
            };
            let mut argv: Vec<String> = Vec::new();
            argv.push(String::from_str("-Command"));
            argv.push(build_elevate_cmd_script(path, raw));
            proof {
                assert(argv.deep_view() =~= seq![
                    "-Command"@,
                    elevate_cmd_script(path@, opt_or_empty(args.deep_view())),
                ]);
            }
            ProcessSpec {
                program: String::from_str("powershell"),
                args: argv,
                working_dir: None,
                window: WindowMode::Hidden,
            }
        } else {
            let mut argv: Vec<String> = Vec::new();
            argv.push(String::from_str("/C"));
            argv.push(String::from_str(path));
            match args {
                Some(a) => {
                    let mut toks = parse_args(a);
                    argv.append(&mut toks);
                },
                None => {},
            }
            proof {
                assert(argv.deep_view() =~= seq!["/C"@, path@] + tokenize_opt(args.deep_view()));
            }
            ProcessSpec {
                program: String::from_str("cmd"),
                args: argv,
                working_dir: opt_to_owned(working_dir),
                window: if hidden {
                    WindowMode::Hidden
                } else {
                    WindowMode::NewConsole
                },
            }
        }
    } else {
        let argv = match args {
            Some(raw) => parse_args(raw),
            None => Vec::new(),
        };
        proof {
            assert(argv.deep_view() =~= tokenize_opt(args.deep_view()));
        }
        ProcessSpec {
            program: String::from_str(path),
            args: argv,
            working_dir: opt_to_owned(working_dir),
            window: WindowMode::Default,
        }
    }
}

// ---------------------------------------------------------------------------
// Inline shell scripts
// ---------------------------------------------------------------------------

/// The shell string names `name`, ignoring ASCII case.
pub open spec fn shell_named(shell: Option<Seq<char>>, name: Seq<char>) -> bool {
    match shell {
        Some(sh) => eq_ignore_case(sh, name),
        None => false,
    }
}

/// The shell string selects the PowerShell family; anything else — the
/// command shell's name, an unrecognized name, or no name at all — selects
/// the command shell.
pub open spec fn powershell_family(shell: Option<Seq<char>>) -> bool {
    shell_named(shell, "powershell"@) || shell_named(shell, "pwsh"@)
}

/// The inline-shell strategy. The script body is materialized into a temp
/// file named from the process identifier and the shell family's extension:
/// PowerShell gets the raw text in a `.ps1` file and a policy-bypass
/// invocation; the command shell gets a `.bat` file with the `@echo off`
/// preamble and normalized line endings, run with `/C` and a new console
/// forced when not hidden. Elevation does not apply.
pub open spec fn shell_invocation(
    script: Seq<char>,
    shell: Option<Seq<char>>,
    working_dir: Option<Seq<char>>,
    hidden: bool,
    pid: u64,
    temp_dir: Seq<char>,
    temp: TempScript,
    p: ProcessSpec,
) -> bool {
    if powershell_family(shell) {
        let path = temp_script_path(temp_dir, pid, ".ps1"@);
        &&& temp.is_file(path, script)
        &&& p.is_invocation(
            if shell_named(shell, "pwsh"@) {
                "pwsh"@
            } else {
                "powershell"@
            },
            seq!["-ExecutionPolicy"@, "Bypass"@, "-File"@, path],
            working_dir,
            if hidden {
                WindowMode::Hidden
            } else {
                WindowMode::Default
            },
        )
    } else {
        let path = temp_script_path(temp_dir, pid, ".bat"@);
        &&& temp.is_file(path, batch_content(script))
        &&& p.is_invocation(
            "cmd"@,
            seq!["/C"@, path],
            working_dir,
            if hidden {
                WindowMode::Hidden
            } else {
                WindowMode::NewConsole
            },
        )
    }
}

/// Builds the inline-shell launch: the temp script to write and the
/// interpreter invocation that runs it.
pub fn run_shell_script(
    script_content: &str,
    shell: Option<&str>,
    working_dir: Option<&str>,
    hidden: bool,
    pid: u64,
    temp_dir: &str,
) -> (r: (TempScript, ProcessSpec))
    ensures
        shell_invocation(
            script_content@,
            shell.deep_view(),
            working_dir.deep_view(),
            hidden,
            pid,
            temp_dir@,
            r.0,
            r.1,
        ),
{
    let is_powershell = match shell {
        Some(sh) => eq_ignore_ascii_case(sh, "powershell") || eq_ignore_ascii_case(sh, "pwsh"),
        None => false,
    };
    if is_powershell {
        let path = build_temp_script_path(temp_dir, pid, ".ps1");
        let temp = TempScript { path: path.clone(), content: String::from_str(script_content) };
        let is_pwsh = match shell {
            Some(sh) => eq_ignore_ascii_case(sh, "pwsh"),
            None => false,
        };
        let mut argv: Vec<String> = Vec::new();
        argv.push(String::from_str("-ExecutionPolicy"));
        argv.push(String::from_str("Bypass"));
        argv.push(String::from_str("-File"));
        argv.push(path);
        proof {
            assert(argv.deep_view() =~= seq![
                "-ExecutionPolicy"@,
                "Bypass"@,
                "-File"@,
                temp_script_path(temp_dir@, pid, ".ps1"@),
            ]);
        }
        let p = ProcessSpec {
            program: if is_pwsh {
                String::from_str("pwsh")
            } else {
                String::from_str("powershell")
            },
            args: argv,
            working_dir: opt_to_owned(working_dir),
            window: if hidden {
                WindowMode::Hidden
            } else {
                WindowMode::Default
            },
        };
        (temp, p)
    } else {
        let path = build_temp_script_path(temp_dir, pid, ".bat");
        let temp = TempScript { path: path.clone(), content: build_batch_content(script_content) };
        let mut argv: Vec<String> = Vec::new();
        argv.push(String::from_str("/C"));
        argv.push(path);
        proof {
            assert(argv.deep_view() =~= seq!["/C"@, temp_script_path(temp_dir@, pid, ".bat"@)]);
        }
        let p = ProcessSpec {
            program: String::from_str("cmd"),
            args: argv,
            working_dir: opt_to_owned(working_dir),
            window: if hidden {
                WindowMode::Hidden
            } else {
                WindowMode::NewConsole
            },
        };
        (temp, p)
    }
}

// ---------------------------------------------------------------------------
// The router
// ---------------------------------------------------------------------------

/// The plan that a launch request must produce. The command and the working
/// directory are expanded against `env` before any strategy sees them; the
/// resolved type picks the strategy; only an inline-shell request may ask
/// for a temp-script write, and an inline-shell request without a script
/// body is a no-op.
pub open spec fn dispatch_plan(
    shortcut_type: Option<Seq<char>>,
    command: Seq<char>,
    script: Option<Seq<char>>,
    args: Option<Seq<char>>,
    working_dir: Option<Seq<char>>,
    hidden: bool,
    shell: Option<Seq<char>>,
    admin: bool,
    env: Seq<EnvEntry>,
    fold_case: bool,
    pid: u64,
    temp_dir: Seq<char>,
    plan: LaunchPlan,
) -> bool {
    let cmd = expand_chars(command, env, fold_case);
    let wd = match working_dir {
        Some(d) => Some(expand_chars(d, env, fold_case)),
        None => None,
    };
    match resolve_type_spec(shortcut_type) {
        ShortcutType::App => {
            &&& plan.temp_script is None
            &&& match plan.process {
                Some(p) => app_invocation(cmd, args, wd, admin, p),
                None => false,
            }
        },
        ShortcutType::Url => {
            &&& plan.temp_script is None
            &&& match plan.process {
                Some(p) => url_invocation(cmd, p),
                None => false,
            }
        },
        ShortcutType::File => {
            &&& plan.temp_script is None
            &&& match plan.process {
                Some(p) => file_invocation(cmd, admin, p),
                None => false,
            }
        },
        ShortcutType::Folder => {
            &&& plan.temp_script is None
            &&& match plan.process {
                Some(p) => folder_invocation(cmd, p),
                None => false,
            }
        },
        ShortcutType::Script => {
            &&& plan.temp_script is None
            &&& match plan.process {
                Some(p) => script_file_invocation(cmd, args, wd, hidden, admin, p),
                None => false,
            }
        },
        ShortcutType::Shell => match script {
            Some(body) => match (plan.temp_script, plan.process) {
                (Some(t), Some(p)) => shell_invocation(
                    body,
                    shell,
                    wd,
                    hidden,
                    pid,
                    temp_dir,
                    t,
                    p,
                ),
                _ => false,
            },
            None => plan.temp_script is None && plan.process is None,
        },
    }
}

/// Turns a launch request into its plan: expands the command and working
/// directory against `env`, resolves the type — unknown types fall back to
/// the application strategy — and builds the chosen strategy's invocation.
/// An inline-shell request without a script body yields the empty plan.
/// `pid` and `temp_dir` name the temp script of an inline-shell launch.
pub fn launch_shortcut(
    shortcut_type: Option<&str>,
    command: &str,
    script: Option<&str>,
    args: Option<&str>,
    working_dir: Option<&str>,
    hidden: Option<bool>,
    shell: Option<&str>,
    admin: Option<bool>,
    env: &EnvTable,
    pid: u64,
    temp_dir: &str,
) -> (plan: LaunchPlan)
    ensures
        dispatch_plan(
            shortcut_type.deep_view(),
            command@,
            script.deep_view(),
            args.deep_view(),
            working_dir.deep_view(),
            hidden == Some(true),
            shell.deep_view(),
            admin == Some(true),
            env.entries@,
            env.fold_case,
            pid,
            temp_dir@,
            plan,
        ),
{
    let stype = resolve_shortcut_type(shortcut_type);
    let expanded_command = expand_env_vars(command, env);
    let expanded_working_dir = match working_dir {
        Some(d) => Some(expand_env_vars(d, env)),
        None => None,
    };
    let is_hidden = match hidden {
        Some(h) => h,
        None => false,
    };
    let is_admin = match admin {
        Some(a) => a,
        None => false,
    };

    match stype {
        ShortcutType::App => {
            let p = launch_app(
                expanded_command.as_str(),
                args,
                opt_as_str(&expanded_working_dir),
                is_admin,
            );
            LaunchPlan { temp_script: None, process: Some(p) }
        },
        ShortcutType::Url => {
            let p = open_url(expanded_command.as_str());
            LaunchPlan { temp_script: None, process: Some(p) }
        },
        ShortcutType::File => {
            let p = open_file(expanded_command.as_str(), is_admin);
            LaunchPlan { temp_script: None, process: Some(p) }
        },
        ShortcutType::Folder => {
            let p = open_folder(expanded_command.as_str());
            LaunchPlan { temp_script: None, process: Some(p) }
        },
        ShortcutType::Script => {
            let p = run_script_file(
                expanded_command.as_str(),
                args,
                opt_as_str(&expanded_working_dir),
                is_hidden,
                is_admin,
            );
            LaunchPlan { temp_script: None, process: Some(p) }
        },
        ShortcutType::Shell => match script {
            Some(body) => {
                let (t, p) = run_shell_script(
                    body,
                    shell,
                    opt_as_str(&expanded_working_dir),
                    is_hidden,
                    pid,
                    temp_dir,
                );
                LaunchPlan { temp_script: Some(t), process: Some(p) }
            },
            None => LaunchPlan { temp_script: None, process: None },
        },
    }
}

// ---------------------------------------------------------------------------
// Routing laws
// ---------------------------------------------------------------------------

/// An unknown type string routes to the application strategy: every type
/// string that names none of the five specific strategies resolves to
/// [`ShortcutType::App`].
pub proof fn lemma_unknown_type_defaults_to_app(t: Seq<char>)
    requires
        !eq_ignore_case(t, "url"@),
        !eq_ignore_case(t, "file"@),
        !eq_ignore_case(t, "folder"@),
        !eq_ignore_case(t, "script"@),
        !eq_ignore_case(t, "shell"@),
    ensures
        resolve_type_spec(Some(t)) == ShortcutType::App,
{
}

/// Visibility of a batch-script launch: when the file's extension names the
/// command shell and no elevation is requested, `hidden` suppresses the
/// window, and a visible launch forces a new console window.
pub proof fn lemma_batch_script_visibility(
    path: Seq<char>,
    args: Option<Seq<char>>,
    working_dir: Option<Seq<char>>,
    hidden: bool,
    p: ProcessSpec,
)
    requires
        eq_ignore_case(script_extension(path), "bat"@) || eq_ignore_case(
            script_extension(path),
            "cmd"@,
        ),
        script_file_invocation(path, args, working_dir, hidden, false, p),
    ensures
        p.window == if hidden {
            WindowMode::Hidden
        } else {
            WindowMode::NewConsole
        },
{
    let ext = script_extension(path);
    if eq_ignore_case(ext, "ps1"@) {
        reveal_strlit("ps1");
        reveal_strlit("bat");
        reveal_strlit("cmd");
        assert(lower_seq(ext)[0] == lower_char("ps1"@[0]));
        assert(lower_seq(ext)[0] == 'p');
        if eq_ignore_case(ext, "bat"@) {
            assert(lower_seq(ext)[0] == 'b');
        } else {
            assert(lower_seq(ext)[0] == 'c');
        }
        assert(false);
    }
}

/// An inline-shell request without a script body is a no-op: every plan that
/// the dispatcher can produce for it writes no temp file and spawns nothing.
pub proof fn lemma_shell_without_script_is_noop(
    shortcut_type: Option<Seq<char>>,
    command: Seq<char>,
    args: Option<Seq<char>>,
    working_dir: Option<Seq<char>>,
    hidden: bool,
    shell: Option<Seq<char>>,
    admin: bool,
    env: Seq<EnvEntry>,
    fold_case: bool,
    pid: u64,
    temp_dir: Seq<char>,
    plan: LaunchPlan,
)
    requires
        resolve_type_spec(shortcut_type) == ShortcutType::Shell,
        dispatch_plan(
            shortcut_type,
            command,
            None,
            args,
            working_dir,
            hidden,
            shell,
            admin,
            env,
            fold_case,
            pid,
            temp_dir,
            plan,
        ),
    ensures
        plan.temp_script is None,
        plan.process is None,
{
}

// ---------------------------------------------------------------------------
// Small conversions
// ---------------------------------------------------------------------------

/// An optional borrowed string, owned.
fn opt_to_owned(o: Option<&str>) -> (r: Option<String>)
    ensures
        r.deep_view() == o.deep_view(),
{
    match o {
        Some(s) => Some(String::from_str(s)),
        None => None,
    }
}

/// An optional owned string, borrowed.
fn opt_as_str(o: &Option<String>) -> (r: Option<&str>)
    ensures
        r.deep_view() == o.deep_view(),
{
    match o {
        Some(s) => Some(s.as_str()),
        None => None,
    }
}

} // verus!
