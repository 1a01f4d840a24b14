use shortcut_launcher::{
    launch_app, launch_shortcut, open_file, open_folder, open_url, run_script_file,
    run_shell_script, EnvTable, WindowMode,
};

fn env_with(pairs: &[(&str, &str)]) -> EnvTable {
    let mut t = EnvTable::new();
    for (n, v) in pairs {
        t.define(n.to_string(), v.to_string());
    }
    t
}

#[test]
fn app_without_admin_spawns_command_directly() {
    let p = launch_app("notepad.exe", Some("\"a b\" c"), Some("C:\\work"), false);
    assert_eq!(p.program, "notepad.exe");
    assert_eq!(p.args, vec!["a b".to_string(), "c".to_string()]);
    assert_eq!(p.working_dir, Some("C:\\work".to_string()));
    assert_eq!(p.window, WindowMode::Default);
}

#[test]
fn app_with_admin_goes_through_elevation_helper() {
    let p = launch_app("notepad.exe", Some("a b"), Some("C:\\work"), true);
    assert_eq!(p.program, "powershell");
    assert_eq!(
        p.args,
        vec![
            "-Command".to_string(),
            "Start-Process 'notepad.exe' -Verb RunAs".to_string(),
        ]
    );
    // The elevation path forwards neither the arguments nor the directory.
    assert_eq!(p.working_dir, None);
    assert_eq!(p.window, WindowMode::Hidden);
}

#[test]
fn url_opens_through_start_facility() {
    let p = open_url("https://example.org");
    assert_eq!(p.program, "cmd");
    assert_eq!(
        p.args,
        vec![
            "/C".to_string(),
            "start".to_string(),
            "".to_string(),
            "https://example.org".to_string(),
        ]
    );
    assert_eq!(p.working_dir, None);
    assert_eq!(p.window, WindowMode::Hidden);
}

#[test]
fn file_without_admin_opens_through_start_facility() {
    let p = open_file("C:\\doc.pdf", false);
    assert_eq!(p.program, "cmd");
    assert_eq!(
        p.args,
        vec![
            "/C".to_string(),
            "start".to_string(),
            "".to_string(),
            "C:\\doc.pdf".to_string(),
        ]
    );
    assert_eq!(p.window, WindowMode::Hidden);
}

#[test]
fn file_with_admin_goes_through_elevation_helper() {
    let p = open_file("C:\\doc.pdf", true);
    assert_eq!(p.program, "powershell");
    assert_eq!(
        p.args,
        vec![
            "-Command".to_string(),
            "Start-Process 'C:\\doc.pdf' -Verb RunAs".to_string(),
        ]
    );
    assert_eq!(p.window, WindowMode::Hidden);
}

#[test]
fn folder_opens_in_file_browser() {
    let p = open_folder("C:\\Users\\me\\Documents");
    assert_eq!(p.program, "explorer");
    assert_eq!(p.args, vec!["C:\\Users\\me\\Documents".to_string()]);
    assert_eq!(p.working_dir, None);
    assert_eq!(p.window, WindowMode::Default);
}

#[test]
fn powershell_script_gets_policy_bypass() {
    let p = run_script_file("C:\\s\\job.ps1", Some("x \"y z\""), Some("C:\\wd"), false, false);
    assert_eq!(p.program, "powershell");
    assert_eq!(
        p.args,
        vec![
            "-ExecutionPolicy".to_string(),
            "Bypass".to_string(),
            "-File".to_string(),
            "C:\\s\\job.ps1".to_string(),
            "x".to_string(),
            "y z".to_string(),
        ]
    );
    assert_eq!(p.working_dir, Some("C:\\wd".to_string()));
    assert_eq!(p.window, WindowMode::Default);
}

#[test]
fn mixed_case_ps1_extension_routes_to_powershell() {
    let p = run_script_file("C:\\s\\Job.PS1", None, None, false, false);
    assert_eq!(p.program, "powershell");
    assert_eq!(
        p.args,
        vec![
            "-ExecutionPolicy".to_string(),
            "Bypass".to_string(),
            "-File".to_string(),
            "C:\\s\\Job.PS1".to_string(),
        ]
    );
}

#[test]
fn powershell_script_admin_composes_elevated_command_line() {
    let p = run_script_file("C:\\s\\job.ps1", Some("a b"), None, false, true);
    assert_eq!(p.program, "powershell");
    assert_eq!(
        p.args,
        vec![
            "-Command".to_string(),
            "Start-Process powershell -Verb RunAs -ArgumentList '-ExecutionPolicy Bypass -File \"C:\\s\\job.ps1\" a b'"
                .to_string(),
        ]
    );
    assert_eq!(p.working_dir, None);
    assert_eq!(p.window, WindowMode::Hidden);
}

#[test]
fn batch_script_visible_forces_new_console() {
    let p = run_script_file("C:\\s\\job.bat", None, None, false, false);
    assert_eq!(p.program, "cmd");
    assert_eq!(p.args, vec!["/C".to_string(), "C:\\s\\job.bat".to_string()]);
    assert_eq!(p.window, WindowMode::NewConsole);
    assert_eq!(p.window.creation_flags(), 0x0000_0010);
}

#[test]
fn batch_script_hidden_suppresses_window() {
    let p = run_script_file("C:\\s\\job.bat", None, None, true, false);
    assert_eq!(p.window, WindowMode::Hidden);
    assert_eq!(p.window.creation_flags(), 0x0800_0000);
}

#[test]
fn cmd_extension_behaves_like_batch() {
    let p = run_script_file("C:\\s\\job.CMD", Some("q"), None, false, false);
    assert_eq!(p.program, "cmd");
    assert_eq!(
        p.args,
        vec!["/C".to_string(), "C:\\s\\job.CMD".to_string(), "q".to_string()]
    );
    assert_eq!(p.window, WindowMode::NewConsole);
}

#[test]
fn batch_script_admin_composes_elevated_command_line() {
    let p = run_script_file("C:\\s\\job.bat", Some("a"), None, false, true);
    assert_eq!(p.program, "powershell");
    assert_eq!(
        p.args,
        vec![
            "-Command".to_string(),
            "Start-Process cmd -Verb RunAs -ArgumentList '/C \"C:\\s\\job.bat\" a'".to_string(),
        ]
    );
    assert_eq!(p.window, WindowMode::Hidden);
}

#[test]
fn unknown_extension_runs_directly() {
    let p = run_script_file("C:\\tools\\run.exe", Some("a"), Some("C:\\wd"), true, true);
    assert_eq!(p.program, "C:\\tools\\run.exe");
    assert_eq!(p.args, vec!["a".to_string()]);
    assert_eq!(p.working_dir, Some("C:\\wd".to_string()));
    // Neither visibility nor elevation applies to the fallback.
    assert_eq!(p.window, WindowMode::Default);
}

#[test]
fn dot_in_directory_is_no_extension() {
    let p = run_script_file("C:\\dir.ps1\\tool", None, None, false, false);
    assert_eq!(p.program, "C:\\dir.ps1\\tool");
    assert_eq!(p.window, WindowMode::Default);
}

#[test]
fn trailing_dot_is_an_empty_extension() {
    // An empty extension matches no interpreter, so the file runs directly.
    let p = run_script_file("C:\\s\\file.", None, None, false, false);
    assert_eq!(p.program, "C:\\s\\file.");
    assert_eq!(p.window, WindowMode::Default);
}

#[test]
fn leading_dot_file_has_no_extension() {
    let p = run_script_file("C:\\s\\.ps1", None, None, false, false);
    assert_eq!(p.program, "C:\\s\\.ps1");
    assert_eq!(p.window, WindowMode::Default);
}

#[test]
fn forward_slash_separates_components_too() {
    let p = run_script_file("scripts/job.ps1", None, None, false, false);
    assert_eq!(p.program, "powershell");
}

#[test]
fn trailing_separator_does_not_hide_the_extension() {
    let p = run_script_file("C:\\s\\job.bat\\", None, None, false, false);
    assert_eq!(p.program, "cmd");
    assert_eq!(p.args, vec!["/C".to_string(), "C:\\s\\job.bat\\".to_string()]);
    let q = run_script_file("scripts/job.ps1/", None, None, false, false);
    assert_eq!(q.program, "powershell");
}

#[test]
fn separators_only_path_has_no_extension() {
    let p = run_script_file("\\\\/", None, None, false, false);
    assert_eq!(p.program, "\\\\/");
    assert_eq!(p.window, WindowMode::Default);
}

#[test]
fn inline_cmd_script_materializes_batch_file() {
    let (t, p) = run_shell_script("echo hi\n", Some("cmd"), None, false, 7, "C:\\Temp");
    assert_eq!(t.path, "C:\\Temp\\shortcut_script_7.bat");
    assert!(t.content.starts_with("@echo off\r\necho hi\r\n"));
    assert_eq!(t.content, "@echo off\r\necho hi\r\n\r\n");
    assert_eq!(p.program, "cmd");
    assert_eq!(
        p.args,
        vec!["/C".to_string(), "C:\\Temp\\shortcut_script_7.bat".to_string()]
    );
    assert_eq!(p.window, WindowMode::NewConsole);
}

#[test]
fn inline_cmd_script_hidden_suppresses_window() {
    let (_, p) = run_shell_script("echo hi", None, None, true, 7, "C:\\Temp");
    assert_eq!(p.window, WindowMode::Hidden);
}

#[test]
fn absent_shell_means_command_shell() {
    let (t, _) = run_shell_script("pause", None, None, false, 3, "T");
    assert_eq!(t.path, "T\\shortcut_script_3.bat");
    assert_eq!(t.content, "@echo off\r\npause\r\n");
}

#[test]
fn crlf_input_keeps_single_terminators() {
    // An existing `\r\n` is already the native terminator and stays single.
    let (t, _) = run_shell_script("a\r\nb", None, None, false, 3, "T");
    assert_eq!(t.content, "@echo off\r\na\r\nb\r\n");
}

#[test]
fn mixed_line_endings_normalize_uniformly() {
    let (t, _) = run_shell_script("a\nb\r\nc", None, None, false, 3, "T");
    assert_eq!(t.content, "@echo off\r\na\r\nb\r\nc\r\n");
}

#[test]
fn lone_carriage_return_stays_literal() {
    let (t, _) = run_shell_script("a\rb", None, None, false, 3, "T");
    assert_eq!(t.content, "@echo off\r\na\rb\r\n");
}

#[test]
fn inline_powershell_script_is_written_verbatim() {
    let (t, p) = run_shell_script("Get-Date\n", Some("powershell"), Some("C:\\wd"), false, 42, "C:\\Temp");
    assert_eq!(t.path, "C:\\Temp\\shortcut_script_42.ps1");
    assert_eq!(t.content, "Get-Date\n");
    assert_eq!(p.program, "powershell");
    assert_eq!(
        p.args,
        vec![
            "-ExecutionPolicy".to_string(),
            "Bypass".to_string(),
            "-File".to_string(),
            "C:\\Temp\\shortcut_script_42.ps1".to_string(),
        ]
    );
    assert_eq!(p.working_dir, Some("C:\\wd".to_string()));
    assert_eq!(p.window, WindowMode::Default);
}

#[test]
fn pwsh_shell_selects_pwsh_interpreter() {
    let (t, p) = run_shell_script("ls", Some("PWSH"), None, false, 1, "T");
    assert_eq!(t.path, "T\\shortcut_script_1.ps1");
    assert_eq!(p.program, "pwsh");
}

#[test]
fn mixed_case_powershell_shell_is_recognized() {
    let (t, p) = run_shell_script("ls", Some("PowerShell"), None, false, 1, "T");
    assert_eq!(t.path, "T\\shortcut_script_1.ps1");
    assert_eq!(p.program, "powershell");
}

#[test]
fn unrecognized_shell_falls_back_to_command_shell() {
    let (t, p) = run_shell_script("ls", Some("bash"), None, false, 1, "T");
    assert_eq!(t.path, "T\\shortcut_script_1.bat");
    assert_eq!(p.program, "cmd");
}

#[test]
fn unknown_type_string_routes_to_app_strategy() {
    let env = env_with(&[]);
    let plan = launch_shortcut(
        Some("bogus"),
        "tool.exe",
        None,
        Some("a"),
        None,
        None,
        None,
        None,
        &env,
        1,
        "T",
    );
    assert!(plan.temp_script.is_none());
    let p = plan.process.expect("the app strategy spawns");
    assert_eq!(p.program, "tool.exe");
    assert_eq!(p.args, vec!["a".to_string()]);
    assert_eq!(p.window, WindowMode::Default);
}

#[test]
fn absent_type_routes_to_app_strategy() {
    let env = env_with(&[]);
    let plan = launch_shortcut(None, "tool.exe", None, None, None, None, None, None, &env, 1, "T");
    let p = plan.process.expect("the app strategy spawns");
    assert_eq!(p.program, "tool.exe");
}

#[test]
fn type_matching_ignores_ascii_case() {
    let env = env_with(&[]);
    let plan = launch_shortcut(
        Some("URL"),
        "https://example.org",
        None,
        None,
        None,
        None,
        None,
        None,
        &env,
        1,
        "T",
    );
    let p = plan.process.expect("the url strategy spawns");
    assert_eq!(p.program, "cmd");
    assert_eq!(
        p.args,
        vec![
            "/C".to_string(),
            "start".to_string(),
            "".to_string(),
            "https://example.org".to_string(),
        ]
    );
}

#[test]
fn shell_type_without_script_is_a_noop() {
    let env = env_with(&[]);
    let plan = launch_shortcut(
        Some("shell"),
        "",
        None,
        None,
        None,
        None,
        Some("cmd"),
        None,
        &env,
        1,
        "T",
    );
    assert!(plan.temp_script.is_none());
    assert!(plan.process.is_none());
}

#[test]
fn shell_type_with_script_plans_write_and_spawn() {
    let env = env_with(&[]);
    let plan = launch_shortcut(
        Some("shell"),
        "",
        Some("echo hi\n"),
        None,
        None,
        None,
        None,
        None,
        &env,
        9,
        "C:\\Temp",
    );
    let t = plan.temp_script.expect("a temp script is written");
    assert_eq!(t.path, "C:\\Temp\\shortcut_script_9.bat");
    assert!(t.content.starts_with("@echo off\r\necho hi\r\n"));
    assert_eq!(t.content, "@echo off\r\necho hi\r\n\r\n");
    assert!(plan.process.is_some());
}

#[test]
fn command_and_working_dir_are_expanded_before_dispatch() {
    let env = env_with(&[("BASE", "C:\\Apps"), ("WD", "C:\\Work")]);
    let plan = launch_shortcut(
        Some("app"),
        "%BASE%\\tool.exe",
        None,
        None,
        Some("%WD%\\sub"),
        None,
        None,
        None,
        &env,
        1,
        "T",
    );
    let p = plan.process.expect("the app strategy spawns");
    assert_eq!(p.program, "C:\\Apps\\tool.exe");
    assert_eq!(p.working_dir, Some("C:\\Work\\sub".to_string()));
}

#[test]
fn raw_args_are_never_passed_as_one_string() {
    let env = env_with(&[]);
    let plan = launch_shortcut(
        Some("app"),
        "tool.exe",
        None,
        Some("one \"two three\""),
        None,
        None,
        None,
        None,
        &env,
        1,
        "T",
    );
    let p = plan.process.expect("the app strategy spawns");
    assert_eq!(p.args, vec!["one".to_string(), "two three".to_string()]);
}

#[test]
fn hidden_script_launch_through_router_suppresses_window() {
    let env = env_with(&[]);
    let plan = launch_shortcut(
        Some("script"),
        "job.bat",
        None,
        None,
        None,
        Some(true),
        None,
        None,
        &env,
        1,
        "T",
    );
    let p = plan.process.expect("the script strategy spawns");
    assert_eq!(p.window, WindowMode::Hidden);
}

#[test]
fn visible_script_launch_through_router_forces_new_console() {
    let env = env_with(&[]);
    let plan = launch_shortcut(
        Some("script"),
        "job.bat",
        None,
        None,
        None,
        Some(false),
        None,
        None,
        &env,
        1,
        "T",
    );
    let p = plan.process.expect("the script strategy spawns");
    assert_eq!(p.window, WindowMode::NewConsole);
}

#[test]
fn large_pid_renders_in_decimal() {
    let (t, _) = run_shell_script("x", None, None, false, 4_294_967_295, "T");
    assert_eq!(t.path, "T\\shortcut_script_4294967295.bat");
}

#[test]
fn zero_pid_renders_as_zero() {
    let (t, _) = run_shell_script("x", None, None, false, 0, "T");
    assert_eq!(t.path, "T\\shortcut_script_0.bat");
}
