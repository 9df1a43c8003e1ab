use transcribe::ytdlp::{
    download_line_action, download_percent_text, download_template_name, pick_downloaded_file,
    ytdlp_download_args, ytdlp_failure_message, ytdlp_info, ytdlp_missing_message, ytdlp_search_order,
    DownloadedFile, LineAction, YtdlpCandidate,
};

fn lines(v: &[&str]) -> Vec<String> {
    v.iter().map(|s| s.to_string()).collect()
}

#[test]
fn percent_text_of_progress_lines() {
    assert_eq!(
        download_percent_text("[download]  42.5% of 10.00MiB at 1.00MiB/s ETA 00:05"),
        Some("42.5".to_string())
    );
    assert_eq!(download_percent_text("[download] 100% of 3.20MiB in 00:01"), Some("100".to_string()));
    assert_eq!(download_percent_text("[download]\t7%%\tof x"), Some("7".to_string()));
    assert_eq!(download_percent_text("[download]%"), Some("[download]".to_string()));
    assert_eq!(download_percent_text("[download] 5 % done"), Some("".to_string()));
}

#[test]
fn percent_text_needs_the_tag_and_a_percent_sign() {
    assert_eq!(download_percent_text("[download] Destination: a.wav"), None);
    assert_eq!(download_percent_text("progress 50%"), None);
    assert_eq!(download_percent_text(""), None);
    assert_eq!(download_percent_text("[download] 50%x of"), None);
}

#[test]
fn line_actions() {
    assert_eq!(download_line_action(true, "[download] 1%"), LineAction::Cancel);
    assert_eq!(download_line_action(false, "[download] 1.5%"), LineAction::Progress("1.5".to_string()));
    assert_eq!(download_line_action(false, "[info] x"), LineAction::Ignore);
}

#[test]
fn failure_asks_bilibili_login_on_412() {
    let m = ytdlp_failure_message(&lines(&["ERROR: HTTP Error 412"]), "https://www.bilibili.com/video/x", Some(1));
    assert_eq!(m, "BILIBILI_LOGIN_REQUIRED");
    let m = ytdlp_failure_message(&lines(&["a", "Precondition Failed"]), "https://b23.tv/abc", Some(1));
    assert_eq!(m, "BILIBILI_LOGIN_REQUIRED");
}

#[test]
fn failure_asks_login_elsewhere() {
    let m = ytdlp_failure_message(&lines(&["HTTP Error 412"]), "https://youtube.com/x", Some(1));
    assert_eq!(m, "LOGIN_REQUIRED");
    let m = ytdlp_failure_message(&lines(&["Sign in to confirm you're not a bot"]), "u", None);
    assert_eq!(m, "LOGIN_REQUIRED");
    let m = ytdlp_failure_message(&lines(&["needs login"]), "https://www.bilibili.com/", Some(2));
    assert_eq!(m, "LOGIN_REQUIRED");
}

#[test]
fn failure_reports_code_and_stderr() {
    let m = ytdlp_failure_message(&lines(&["ERROR: Unsupported URL", "bye"]), "u", Some(1));
    assert_eq!(m, "yt-dlp exited with code Some(1): ERROR: Unsupported URL\nbye");
    let m = ytdlp_failure_message(&lines(&[]), "u", None);
    assert_eq!(m, "yt-dlp exited with code None: ");
    let m = ytdlp_failure_message(&lines(&["x"]), "u", Some(-9));
    assert_eq!(m, format!("yt-dlp exited with code {:?}: x", Some(-9)));
    let m = ytdlp_failure_message(&lines(&["x"]), "u", Some(i32::MIN));
    assert_eq!(m, format!("yt-dlp exited with code {:?}: x", Some(i32::MIN)));
    let m = ytdlp_failure_message(&lines(&["4", "12"]), "u", Some(255));
    assert_eq!(m, "yt-dlp exited with code Some(255): 4\n12");
}

#[test]
fn command_line() {
    assert_eq!(download_template_name("abc"), "abc.%(ext)s");
    assert_eq!(
        ytdlp_download_args("/tmp/t/abc.%(ext)s", "https://x"),
        vec![
            "--extract-audio",
            "--audio-format",
            "wav",
            "--no-playlist",
            "--cookies-from-browser",
            "chrome",
            "--output",
            "/tmp/t/abc.%(ext)s",
            "--newline",
            "https://x"
        ]
    );
}

#[test]
fn search_orders() {
    let plain = ytdlp_search_order(false);
    assert_eq!(
        plain,
        vec![
            YtdlpCandidate::OnPath("yt-dlp".to_string()),
            YtdlpCandidate::File("/usr/local/bin/yt-dlp".to_string()),
            YtdlpCandidate::File("/opt/homebrew/bin/yt-dlp".to_string()),
            YtdlpCandidate::File("/usr/bin/yt-dlp".to_string()),
            YtdlpCandidate::Bundled,
            YtdlpCandidate::ResourceDir,
        ]
    );
    let detect = ytdlp_search_order(true);
    assert_eq!(detect.len(), 7);
    assert_eq!(detect[1], YtdlpCandidate::OnPath("yt-dlp_macos".to_string()));
    assert_eq!(
        ytdlp_missing_message(),
        "yt-dlp not found. Install it with: brew install yt-dlp or pip install yt-dlp"
    );
}

#[test]
fn info_when_installed() {
    let i = ytdlp_info(Some("/usr/bin/yt-dlp".to_string()), Some(b" 2024.08.06\n".to_vec()));
    assert!(i.installed);
    assert_eq!(i.path.as_deref(), Some("/usr/bin/yt-dlp"));
    assert_eq!(i.version.as_deref(), Some("2024.08.06"));
    assert_eq!(i.error, None);
    let bad = ytdlp_info(Some("p".to_string()), Some(vec![0xff, 0xfe]));
    assert_eq!(bad.version.as_deref(), Some("unknown"));
    let none = ytdlp_info(Some("p".to_string()), None);
    assert_eq!(none.version.as_deref(), Some("unknown"));
    let uni = ytdlp_info(Some("p".to_string()), Some("\u{3000}v1\u{a0}".as_bytes().to_vec()));
    assert_eq!(uni.version.as_deref(), Some("v1"));
}

#[test]
fn info_when_missing() {
    let i = ytdlp_info(None, Some(b"1".to_vec()));
    assert!(!i.installed);
    assert_eq!(i.path, None);
    assert_eq!(i.version, None);
    assert_eq!(i.error.as_deref(), Some("yt-dlp not found"));
}

fn file(name: &str, modified: Option<i128>) -> DownloadedFile {
    DownloadedFile { name: name.to_string(), modified }
}

#[test]
fn picks_the_latest_download_of_the_task() {
    let files = vec![
        file("t1.webm", Some(5)),
        file("other.wav", Some(100)),
        file("t1.wav", Some(7)),
        file("t1.part", None),
    ];
    assert_eq!(pick_downloaded_file(&files, "t1"), Ok(2));
}

#[test]
fn picks_the_last_of_equal_times() {
    let files = vec![file("t.a", Some(-3)), file("t.b", Some(-3)), file("t.c", None)];
    assert_eq!(pick_downloaded_file(&files, "t"), Ok(1));
    let unknown = vec![file("t.a", None), file("t.b", None)];
    assert_eq!(pick_downloaded_file(&unknown, "t"), Ok(1));
}

#[test]
fn no_download_found() {
    let files = vec![file("x.wav", Some(1))];
    assert_eq!(pick_downloaded_file(&files, "t"), Err("Downloaded audio not found".to_string()));
    assert_eq!(pick_downloaded_file(&vec![], "t"), Err("Downloaded audio not found".to_string()));
}
