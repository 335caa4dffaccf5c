use quick_translate::history::HistoryRecord;
use quick_translate::python_capture::{
    build_process_detail, capture_runner_code, capture_script_env, clipboard_sequence_changed_from_diag,
    exit_code_text, failure_log, format_context, format_user_error, interpret_python_output,
    is_copy_failure_message, is_no_selection_message, is_python_exe_name, normalize_python_capture_error,
    output_log, pipeline_log, subprocess_path, truncate, with_log_hint, CaptureRunContext, PythonCaptureOutput,
};
use quick_translate::python_capture::{
    bundled_python_candidates, capture_args, capture_env, capture_script_candidates, msg_python_not_found,
    msg_script_not_found, python_env, spawn_error, EnvChange,
};
use quick_translate::python_capture::{capture_run_context, helper_delay_ms, resolve_failure, spawn_failure};
use quick_translate::settings::TranslateSettings;

fn ctx() -> CaptureRunContext {
    CaptureRunContext {
        python_bin: "C:\\app\\python\\pythonw.exe".to_string(),
        python_extra: vec![],
        script: "C:\\app\\resources\\capture_clipboard.py".to_string(),
        python_home: Some("C:\\app\\python".to_string()),
        embedded_python: true,
        exe_dir: None,
        delay_ms: 200,
        restore: true,
        clipboard_backup: Some("旧".to_string()),
        clipboard_backup_seq: Some(7),
        clipboard_only: false,
        run_mode: "python_only_pyautogui".to_string(),
        translate_clipboard_guard_sec: 0,
    }
}

fn answer(ok: bool, text: Option<&str>, error: Option<&str>) -> PythonCaptureOutput {
    PythonCaptureOutput {
        ok,
        text: text.map(|t| t.to_string()),
        error: error.map(|e| e.to_string()),
        restored_clipboard: Some(true),
        diagnostics: None,
        diag_backup_seq: Some(7),
        diag_seq_after: Some(8),
    }
}

fn run(parsed: Result<PythonCaptureOutput, String>, stdout: &str, history: &Vec<HistoryRecord>, c: &CaptureRunContext)
    -> quick_translate::python_capture::PythonCaptureVerdict {
    interpret_python_output(c, "CTX\n", Some(0), stdout, "", parsed, history, 10_000, Some(8), "HINT", "T", 99)
}

#[test]
fn helper_messages_are_classified() {
    assert!(is_no_selection_message("  未选中任何内容 "));
    assert!(!is_no_selection_message("剪贴板无文本 复制失败"));
    assert!(is_copy_failure_message("copy-timeout-stale"));
    assert!(!is_copy_failure_message("boom"));
    assert_eq!(normalize_python_capture_error(" 复制失败：x "), "复制失败：x");
    assert_eq!(
        normalize_python_capture_error("copy-timeout-stale"),
        "复制失败：剪贴板未更新，可能未成功复制选中内容或仍在使用复制前的旧内容"
    );
    assert_eq!(normalize_python_capture_error(" other "), "other");
}

#[test]
fn sequence_numbers_are_compared_in_32_bits() {
    assert!(clipboard_sequence_changed_from_diag(Some(1), Some(2)));
    assert!(!clipboard_sequence_changed_from_diag(Some(3), Some(3)));
    assert!(!clipboard_sequence_changed_from_diag(Some(5), Some(5 + (1u64 << 32))));
    assert!(!clipboard_sequence_changed_from_diag(None, Some(2)));
    assert!(!clipboard_sequence_changed_from_diag(Some(1), None));
}

#[test]
fn paths_and_names() {
    assert_eq!(subprocess_path("\\\\?\\C:\\app"), "C:\\app");
    assert_eq!(subprocess_path("\\\\?\\UNC\\srv\\share"), "\\\\srv\\share");
    assert_eq!(subprocess_path("C:\\plain"), "C:\\plain");
    assert!(is_python_exe_name("PythonW.EXE"));
    assert!(is_python_exe_name("python3.exe"));
    assert!(!is_python_exe_name("python.bat"));
}

#[test]
fn runner_script_and_truncation() {
    assert_eq!(capture_script_env(), "QT_CAPTURE_SCRIPT");
    let code = capture_runner_code(250, true, false);
    assert_eq!(
        code,
        "import os, runpy, sys\nscript = os.environ[\"QT_CAPTURE_SCRIPT\"]\ndelay = 250\nrestore = True\nclipboard_only = False\nargv = [script, \"--delay-ms\", str(delay)]\nif clipboard_only:\n    argv.append(\"--clipboard-only\")\nif restore:\n    argv.append(\"--restore\")\nsys.argv = argv\nrunpy.run_path(script, run_name=\"__main__\")\n"
    );
    assert_eq!(truncate("abcdef", 3), "abc…");
    assert_eq!(truncate("abc", 3), "abc");
    assert_eq!(exit_code_text(Some(-1)), "Some(-1)");
    assert_eq!(exit_code_text(None), "None");
}

#[test]
fn context_is_described_line_by_line() {
    let c = ctx();
    let text = format_context(&c, true, false);
    let expected = format!(
        "app_exe_dir: None\npython_bin: {:?}\npython_bin_exists: true\npython_extra: []\npython_home: {:?}\n\
embedded_python: true\nscript: {:?}\nscript_exists: false\ndelay_ms: 200\nrestore_clipboard: true\n\
run_mode: python_only_pyautogui\nclipboard_only: false\ncopy_verify_max_sec: 5\n\
translate_clipboard_guard_sec: 0\nclipboard_backup_len: 3\nclipboard_backup_seq: 7\n",
        std::path::Path::new("C:\\app\\python\\pythonw.exe"),
        std::path::Path::new("C:\\app\\python"),
        std::path::Path::new("C:\\app\\resources\\capture_clipboard.py"),
    );
    assert_eq!(text, expected);
    let mut c2 = ctx();
    c2.python_extra = vec!["-u".to_string()];
    assert!(format_context(&c2, true, true).contains("python_extra: [\"-u\"]\n"));
}

#[test]
fn process_details_and_user_errors() {
    let d = build_process_detail("CTX\n", Some(1), "out", "");
    assert_eq!(d, "CTX\nexit_code: Some(1)\nstdout: out\n");
    let d = build_process_detail("", None, "", "err");
    assert_eq!(d, "exit_code: None\nstderr: err\n");
    let c = ctx();
    let e = format_user_error("无法启动 Python 取词", "boom", &c, "HINT");
    assert_eq!(
        e,
        format!(
            "无法启动 Python 取词\nboom\nHINT\nPython: {:?}\n脚本: {:?}",
            std::path::Path::new("C:\\app\\python\\pythonw.exe"),
            std::path::Path::new("C:\\app\\resources\\capture_clipboard.py")
        )
    );
    assert_eq!(with_log_hint("找不到取词脚本 capture_clipboard.py", "HINT"), "找不到取词脚本 capture_clipboard.py\nHINT");
}

#[test]
fn log_blocks() {
    assert_eq!(failure_log("spawn", "T", "m", Some("CTX\n")), "\n=== [spawn] T ===\nm\nCTX\n");
    assert_eq!(failure_log("resolve-script", "T", "m", None), "\n=== [resolve-script] T ===\nm\n");
    assert_eq!(pipeline_log("post-python", "T", "d"), "\n=== [capture-pipeline:post-python] T ===\nd\n");
    assert_eq!(
        output_log("T", Some(0), "CTX\n", 2, "{}", 0, ""),
        "\n=== [capture] T exit=Some(0) ===\nCTX\nnote: stdout 为 Python 原始 JSON；Rust 最终判定见 [capture-pipeline:post-python]\nstdout (2 bytes):\n{}\nstderr (0 bytes):\n\n"
    );
}

#[test]
fn helper_answer_with_text_is_accepted() {
    let c = ctx();
    let v = run(Ok(answer(true, Some("  hello \n"), None)), "{\"ok\":true}", &vec![], &c);
    assert!(v.result.ok);
    assert_eq!(v.result.text.as_deref(), Some("hello"));
    assert!(v.result.restored_clipboard);
    assert!(v.result.clipboard_sequence_changed);
    assert_eq!(v.result.duration_ms, 99);
    assert_eq!(
        v.log.as_deref(),
        Some(
            "\n=== [capture-pipeline:post-python] T ===\npython_json_ok: true\ncaptured_len: 5\nhotkey_backup_len: 3\n\
hotkey_backup_seq: 7\nseq_after_python: Some(8)\ntext_eq_backup: false\nclipboard_sequence_changed: true\n\
guard_sec: 0\ncaptured_len: 5\nbackup_len: 3\ncaptured_eq_backup: false\nclipboard_sequence_changed: true\n\
latest_success_record: None\nwould_block: false\nfinal_result: PASS python_capture → 进入翻译\n"
        )
    );
}

#[test]
fn helper_answer_without_text_asks_for_a_selection() {
    let c = ctx();
    let v = run(Ok(answer(true, Some("   "), None)), "{}", &vec![], &c);
    assert!(!v.result.ok);
    assert_eq!(v.result.error.as_deref(), Some("请先选中要翻译的文字"));
    assert!(!v.result.clipboard_sequence_changed);
    assert!(v.log.is_some());
}

#[test]
fn empty_output_and_bad_json() {
    let c = ctx();
    let v = run(Ok(answer(true, Some("x"), None)), "  \n", &vec![], &c);
    assert!(!v.result.ok);
    let err = v.result.error.unwrap();
    assert!(err.starts_with("Python 取词无输出\nCTX\nexit_code: Some(0)\nstdout:   \n\n\nHINT\nPython: "));
    assert!(v.log.is_none());
    let v = run(Err("expected value at line 1".to_string()), "oops", &vec![], &c);
    assert_eq!(
        v.result.error.as_deref(),
        Some("解析 Python 输出失败: expected value at line 1\nCTX\nexit_code: Some(0)\nstdout: oops\n\nHINT")
    );
}

#[test]
fn helper_refusals() {
    let c = ctx();
    let v = run(Ok(answer(false, None, Some("empty-clipboard"))), "{}", &vec![], &c);
    assert_eq!(v.result.error.as_deref(), Some("请先选中要翻译的文字"));
    assert!(v.log.is_none());

    let v = run(Ok(answer(false, None, Some("copy-timeout-stale"))), "{}", &vec![], &c);
    assert_eq!(
        v.result.error.as_deref(),
        Some("复制失败：剪贴板未更新，可能未成功复制选中内容或仍在使用复制前的旧内容")
    );
    assert_eq!(
        v.log.as_deref(),
        Some("\n=== [copy-verify] T ===\n复制失败：剪贴板未更新，可能未成功复制选中内容或仍在使用复制前的旧内容\nCTX\n")
    );

    let mut with_diag = answer(false, None, Some("pyautogui 异常"));
    with_diag.diagnostics = Some("{\"step\":1}".to_string());
    let v = run(Ok(with_diag), "{}", &vec![], &c);
    assert_eq!(v.result.error.as_deref(), Some("pyautogui 异常\n诊断: {\"step\":1}\nHINT"));

    let v = run(Ok(answer(false, None, None)), "{}", &vec![], &c);
    assert_eq!(v.result.error.as_deref(), Some("Python 取词失败\nHINT"));
}

#[test]
fn stale_backup_turns_a_copy_failure_into_a_selection_request() {
    let mut c = ctx();
    c.translate_clipboard_guard_sec = 5;
    c.clipboard_backup = Some(" 你好 ".to_string());
    let history = vec![HistoryRecord {
        id: "0".to_string(),
        created_at: 0,
        source_text: "hello".to_string(),
        translated_text: Some("你好".to_string()),
        ok: true,
        error: None,
        provider: None,
        from_cache: false,
        duration_ms: 0,
    }];
    let v = run(Ok(answer(false, None, Some("复制失败：超时"))), "{}", &history, &c);
    assert_eq!(v.result.error.as_deref(), Some("请先选中要翻译的文字"));
    assert!(v.log.is_none());
}

fn show(env: &[EnvChange]) -> Vec<String> {
    env.iter()
        .map(|e| match e {
            EnvChange::Assign(k, v) => format!("{k}={v}"),
            EnvChange::Remove(k) => format!("-{k}"),
        })
        .collect()
}

#[test]
fn interpreter_environment() {
    assert_eq!(
        show(&python_env("\\\\?\\C:\\py", false, Some("C:\\py\\Lib\\site-packages"))),
        vec![
            "-PYTHONHOME",
            "PYTHONIOENCODING=utf-8",
            "PYTHONUTF8=1",
            "PYTHONNOUSERSITE=1",
            "PYTHONHOME=C:\\py",
            "PYTHONPATH=C:\\py\\Lib\\site-packages",
        ]
    );
    assert_eq!(
        show(&python_env("C:\\py", true, None)),
        vec!["-PYTHONHOME", "PYTHONIOENCODING=utf-8", "PYTHONUTF8=1", "PYTHONNOUSERSITE=1"]
    );
}

#[test]
fn helper_environment_and_arguments() {
    let c = ctx();
    assert_eq!(
        show(&capture_env(&c, None)),
        vec![
            "-PYTHONHOME",
            "PYTHONIOENCODING=utf-8",
            "PYTHONUTF8=1",
            "PYTHONNOUSERSITE=1",
            "QT_CAPTURE_SCRIPT=C:\\app\\resources\\capture_clipboard.py",
            "QT_COPY_MAX_WAIT_SEC=5",
            "QT_CLIPBOARD_BACKUP=旧",
            "QT_CLIPBOARD_BACKUP_SEQ=7",
        ]
    );
    let mut bare = ctx();
    bare.python_home = None;
    bare.clipboard_backup = None;
    bare.clipboard_backup_seq = None;
    assert_eq!(
        show(&capture_env(&bare, None)),
        vec![
            "PYTHONIOENCODING=utf-8",
            "PYTHONUTF8=1",
            "QT_CAPTURE_SCRIPT=C:\\app\\resources\\capture_clipboard.py",
            "QT_COPY_MAX_WAIT_SEC=5",
            "-QT_CLIPBOARD_BACKUP",
            "-QT_CLIPBOARD_BACKUP_SEQ",
        ]
    );
    let mut with_extra = ctx();
    with_extra.python_extra = vec!["-X".to_string(), "utf8".to_string()];
    let args = capture_args(&with_extra);
    assert_eq!(args.len(), 5);
    assert_eq!(&args[..4], &["-X", "utf8", "-u", "-c"]);
    assert_eq!(args[4], capture_runner_code(200, true, false));
}

#[test]
fn lookup_lists_and_errors() {
    assert_eq!(bundled_python_candidates(), vec!["python/pythonw.exe", "resources/python/pythonw.exe"]);
    assert_eq!(
        capture_script_candidates(),
        vec!["resources/capture_clipboard.py", "scripts/capture_clipboard.py", "capture_clipboard.py"]
    );
    assert_eq!(msg_script_not_found(), "找不到取词脚本 capture_clipboard.py");
    assert!(msg_python_not_found().starts_with("未找到 pythonw.exe"));
    assert_eq!(
        spawn_error("C:\\p.exe", "denied"),
        format!("无法启动 {:?}: denied", std::path::Path::new("C:\\p.exe"))
    );
}

#[test]
fn run_context_from_the_settings() {
    assert_eq!(helper_delay_ms(10), 80);
    assert_eq!(helper_delay_ms(300), 300);
    let mut s = TranslateSettings::default();
    s.copy_delay_ms = 20;
    s.restore_clipboard = false;
    s.translate_clipboard_guard_sec = 9;
    let c = capture_run_context(
        &s,
        "\\\\?\\C:\\py\\pythonw.exe",
        vec![],
        "C:\\s.py",
        None,
        false,
        Some("\\\\?\\C:\\app"),
        Some("b".to_string()),
        Some(3),
    );
    assert_eq!(c.python_bin, "C:\\py\\pythonw.exe");
    assert_eq!(c.script, "C:\\s.py");
    assert_eq!(c.exe_dir.as_deref(), Some("C:\\app"));
    assert_eq!(c.delay_ms, 80);
    assert!(!c.restore);
    assert!(!c.clipboard_only);
    assert_eq!(c.run_mode, "python_only_pyautogui");
    assert_eq!(c.translate_clipboard_guard_sec, 9);
    assert_eq!(c.clipboard_backup.as_deref(), Some("b"));
    assert_eq!(c.clipboard_backup_seq, Some(3));
}

#[test]
fn failures_before_the_helper_runs() {
    let v = resolve_failure("resolve-script", "找不到取词脚本 capture_clipboard.py", "T", "HINT", 4);
    assert_eq!(v.result.error.as_deref(), Some("找不到取词脚本 capture_clipboard.py\nHINT"));
    assert_eq!(v.result.duration_ms, 4);
    assert_eq!(v.log.as_deref(), Some("\n=== [resolve-script] T ===\n找不到取词脚本 capture_clipboard.py\n"));
    let c = ctx();
    let v = spawn_failure(&c, "CTX\n", "denied", "T", "HINT", 6);
    assert!(v.result.error.as_deref().unwrap().starts_with("无法启动 Python 取词\ndenied\nHINT\nPython: "));
    assert_eq!(v.log.as_deref(), Some("\n=== [spawn] T ===\ndenied\nCTX\n"));
}
