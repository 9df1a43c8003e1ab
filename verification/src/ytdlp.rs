//! Decisions around the yt-dlp downloader: where to look for it, what to
//! pass it, how to read its progress and its failures, and which downloaded
//! file to take.
use vstd::prelude::*;
use crate::text::{
    append, chars_of, char_is_whitespace, contains, contains_exec, i32_text, int_text, join,
    join_strings, leading_word, lemma_leading_word_len, lemma_trim_start_len, opt_view,
    skip_whitespace, starts_with, starts_with_exec, string_of_range, strip_trailing,
    strip_trailing_end, str_contains, trim, trim_start, trim_str, views, word_end,
};

verus! {

// ---------------------------------------------------------------------------
// Progress lines
// ---------------------------------------------------------------------------

/// The first whitespace-separated word of `s` that ends with `%` (the first
/// item of std's `split_whitespace` that `ends_with('%')`).
pub open spec fn first_percent_word(s: Seq<char>) -> Option<Seq<char>>
    decreases s.len(),
{
    let t = trim_start(s);
    if t.len() == 0 {
        None
    } else {
        let w = leading_word(t);
        if w.len() == 0 {
            None
        } else if w.last() == '%' {
            Some(w)
        } else {
            proof {
                lemma_trim_start_len(s);
                lemma_leading_word_len(t);
            }
            first_percent_word(t.skip(w.len() as int))
        }
    }
}

/// The percentage text of a yt-dlp progress line: where the line mentions
/// `[download]` and a `%`, the first word ending with `%`, without its
/// trailing `%` signs.
pub open spec fn progress_percent_text(line: Seq<char>) -> Option<Seq<char>> {
    if contains(line, "[download]"@) && contains(line, "%"@) {
        match first_percent_word(line) {
            Some(w) => Some(strip_trailing(w, '%')),
            None => None,
        }
    } else {
        None
    }
}

/// Reads the percentage out of a line that yt-dlp printed, as text (`42.0`
/// out of `[download]  42.0% of 3.1MiB`); `None` for a line that carries no
/// progress.
pub fn download_percent_text(line: &str) -> (r: Option<String>)
    ensures
        opt_view(r) == progress_percent_text(line@),
{
    let v = chars_of(line);
    let tag = chars_of("[download]");
    let pct = chars_of("%");
    if !(contains_exec(&v, &tag) && contains_exec(&v, &pct)) {
        return None;
    }
    assert(v@.skip(0) =~= v@);
    let mut i: usize = 0;
    loop
        invariant
            i <= v.len(),
            v@ == line@,
            contains(line@, "[download]"@) && contains(line@, "%"@),
            first_percent_word(v@.skip(i as int)) == first_percent_word(v@),
        decreases v.len() - i,
    {
        let a = skip_whitespace(&v, i, v.len());
        proof {
            assert(v@.subrange(i as int, v@.len() as int) =~= v@.skip(i as int));
            assert(v@.subrange(a as int, v@.len() as int) =~= v@.skip(a as int));
        }
        if a == v.len() {
            assert(v@.skip(a as int) =~= Seq::<char>::empty());
            return None;
        }
        assert(trim_start(v@.skip(a as int)) == v@.skip(a as int));
        let b = word_end(&v, a);
        proof {
            lemma_leading_word_len(v@.skip(a as int));
        }
        assert(b > a);
        let ghost w = leading_word(v@.skip(a as int));
        assert(w.last() == v@[b - 1]);
        if v[b - 1] == '%' {
            let e = strip_trailing_end(&v, a, b, '%');
            return Some(string_of_range(&v, a, e));
        }
        assert(v@.skip(a as int).skip(w.len() as int) =~= v@.skip(b as int));
        i = b;
    }
}

/// What to do with a line that yt-dlp printed while downloading.
#[derive(Debug, PartialEq, Eq)]
pub enum LineAction {
    /// A cancellation was asked for: stop the downloader and end the job.
    Cancel,
    /// Report the download's progress, given as the percentage text.
    Progress(String),
    /// Nothing to do.
    Ignore,
}

/// The view of a line action: `None` for a cancellation, `Some(None)` for
/// nothing to do, `Some(Some(t))` for progress with text `t`.
pub open spec fn line_action_view(a: LineAction) -> Option<Option<Seq<char>>> {
    match a {
        LineAction::Cancel => None,
        LineAction::Progress(t) => Some(Some(t@)),
        LineAction::Ignore => Some(None),
    }
}

/// Decides what a line of yt-dlp's output leads to: a cancellation asked
/// for before the line was read comes first; otherwise the line's progress
/// is reported, if it carries any.
pub fn download_line_action(cancelled: bool, line: &str) -> (a: LineAction)
    ensures
        line_action_view(a) == (if cancelled {
            None
        } else {
            Some(progress_percent_text(line@))
        }),
{
    if cancelled {
        return LineAction::Cancel;
    }
    match download_percent_text(line) {
        Some(t) => LineAction::Progress(t),
        None => LineAction::Ignore,
    }
}

// ---------------------------------------------------------------------------
// Failures
// ---------------------------------------------------------------------------

/// How std's `Debug` writes an `Option<i32>`: `Some(3)` or `None`.
pub open spec fn option_i32_debug(code: Option<i32>) -> Seq<char> {
    match code {
        Some(n) => "Some("@ + int_text(n as int) + ")"@,
        None => "None"@,
    }
}

/// The error that a failed yt-dlp run is reported as: a sign-in is asked for
/// where yt-dlp saw an HTTP 412 (Bilibili gets its own code) or a login wall;
/// otherwise the exit code and everything yt-dlp wrote to stderr.
pub open spec fn ytdlp_failure(stderr_lines: Seq<Seq<char>>, url: Seq<char>, code: Option<i32>) -> Seq<char> {
    let text = join(stderr_lines, "\n"@);
    if contains(text, "412"@) || contains(text, "Precondition Failed"@) {
        if contains(url, "bilibili.com"@) || contains(url, "b23.tv"@) {
            "BILIBILI_LOGIN_REQUIRED"@
        } else {
            "LOGIN_REQUIRED"@
        }
    } else if contains(text, "Sign in to confirm"@) || contains(text, "login"@) {
        "LOGIN_REQUIRED"@
    } else {
        "yt-dlp exited with code "@ + option_i32_debug(code) + ": "@ + text
    }
}

/// The error message for a yt-dlp run that exited unsuccessfully, from the
/// lines it wrote to stderr, the URL it was given and its exit code.
pub fn ytdlp_failure_message(stderr_lines: &Vec<String>, url: &str, code: Option<i32>) -> (m: String)
    ensures
        m@ == ytdlp_failure(views(stderr_lines@), url@, code),
{
    let text = join_strings(stderr_lines, "\n");
    let t = text.as_str();
    if str_contains(t, "412") || str_contains(t, "Precondition Failed") {
        if str_contains(url, "bilibili.com") || str_contains(url, "b23.tv") {
            return "BILIBILI_LOGIN_REQUIRED".to_owned();
        }
        return "LOGIN_REQUIRED".to_owned();
    }
    if str_contains(t, "Sign in to confirm") || str_contains(t, "login") {
        return "LOGIN_REQUIRED".to_owned();
    }
    let mut m = "yt-dlp exited with code ".to_owned();
    match code {
        Some(n) => {
            append(&mut m, "Some(");
            let digits = i32_text(n);
            append(&mut m, digits.as_str());
            append(&mut m, ")");
        },
        None => {
            append(&mut m, "None");
        },
    }
    append(&mut m, ": ");
    append(&mut m, t);
    assert(m@ =~= "yt-dlp exited with code "@ + option_i32_debug(code) + ": "@ + text@);
    m
}

// ---------------------------------------------------------------------------
// The command line
// ---------------------------------------------------------------------------

/// The file name that yt-dlp writes the audio of `task_id` to, with its
/// extension left for yt-dlp to fill in.
pub open spec fn output_template_name(task_id: Seq<char>) -> Seq<char> {
    task_id + ".%(ext)s"@
}

/// The output file name template for the download of `task_id`.
pub fn download_template_name(task_id: &str) -> (r: String)
    ensures
        r@ == output_template_name(task_id@),
{
    let mut r = task_id.to_owned();
    append(&mut r, ".%(ext)s");
    r
}

/// The arguments yt-dlp is run with: audio only, as WAV, one video, the
/// Chrome cookies, the output template, one progress line per update, and
/// the URL last.
pub open spec fn download_args(out_template: Seq<char>, url: Seq<char>) -> Seq<Seq<char>> {
    seq![
        "--extract-audio"@,
        "--audio-format"@,
        "wav"@,
        "--no-playlist"@,
        "--cookies-from-browser"@,
        "chrome"@,
        "--output"@,
        out_template,
        "--newline"@,
        url,
    ]
}

/// The arguments yt-dlp is run with to fetch the audio of `url`.
pub fn ytdlp_download_args(out_template: &str, url: &str) -> (args: Vec<String>)
    ensures
        views(args@) == download_args(out_template@, url@),
{
    let mut args: Vec<String> = Vec::new();
    args.push("--extract-audio".to_owned());
    args.push("--audio-format".to_owned());
    args.push("wav".to_owned());
    args.push("--no-playlist".to_owned());
    args.push("--cookies-from-browser".to_owned());
    args.push("chrome".to_owned());
    args.push("--output".to_owned());
    args.push(out_template.to_owned());
    args.push("--newline".to_owned());
    args.push(url.to_owned());
    assert(views(args@) =~= download_args(out_template@, url@));
    args
}

// ---------------------------------------------------------------------------
// Finding the binary
// ---------------------------------------------------------------------------

/// A place where yt-dlp may be installed.
#[derive(Debug, PartialEq, Eq)]
pub enum YtdlpCandidate {
    /// A program of this name on the `PATH`.
    OnPath(String),
    /// A file at this absolute path.
    File(String),
    /// The binary shipped in the project's `binaries` directory.
    Bundled,
    /// `yt-dlp` in the application's resource directory.
    ResourceDir,
}

/// The view of a candidate: its kind (0 to 3) and its text.
pub open spec fn candidate_view(c: YtdlpCandidate) -> (int, Seq<char>) {
    match c {
        YtdlpCandidate::OnPath(s) => (0, s@),
        YtdlpCandidate::File(s) => (1, s@),
        YtdlpCandidate::Bundled => (2, Seq::empty()),
        YtdlpCandidate::ResourceDir => (3, Seq::empty()),
    }
}

/// The places searched for yt-dlp, first to last: `yt-dlp` on the `PATH`
/// (and `yt-dlp_macos` when `with_macos_name`), the usual install
/// locations, the bundled binary, and the resource directory.
pub open spec fn search_order(with_macos_name: bool) -> Seq<(int, Seq<char>)> {
    let path = if with_macos_name {
        seq![(0int, "yt-dlp"@), (0int, "yt-dlp_macos"@)]
    } else {
        seq![(0int, "yt-dlp"@)]
    };
    path + seq![
        (1int, "/usr/local/bin/yt-dlp"@),
        (1int, "/opt/homebrew/bin/yt-dlp"@),
        (1int, "/usr/bin/yt-dlp"@),
        (2int, Seq::empty()),
        (3int, Seq::empty()),
    ]
}

/// The places to look for yt-dlp, in the order they are tried; the first
/// that holds the program wins.
pub fn ytdlp_search_order(with_macos_name: bool) -> (r: Vec<YtdlpCandidate>)
    ensures
        r@.map_values(|c: YtdlpCandidate| candidate_view(c)) == search_order(with_macos_name),
{
    let mut r: Vec<YtdlpCandidate> = Vec::new();
    r.push(YtdlpCandidate::OnPath("yt-dlp".to_owned()));
    if with_macos_name {
        r.push(YtdlpCandidate::OnPath("yt-dlp_macos".to_owned()));
    }
    r.push(YtdlpCandidate::File("/usr/local/bin/yt-dlp".to_owned()));
    r.push(YtdlpCandidate::File("/opt/homebrew/bin/yt-dlp".to_owned()));
    r.push(YtdlpCandidate::File("/usr/bin/yt-dlp".to_owned()));
    r.push(YtdlpCandidate::Bundled);
    r.push(YtdlpCandidate::ResourceDir);
    assert(r@.map_values(|c: YtdlpCandidate| candidate_view(c)) =~= search_order(with_macos_name));
    r
}

/// The first place of `order` where `found` holds, if any: where the
/// search stops when `found` tells where yt-dlp is.
pub open spec fn first_found(
    order: Seq<(int, Seq<char>)>,
    found: spec_fn((int, Seq<char>)) -> bool,
) -> Option<(int, Seq<char>)>
    decreases order.len(),
{
    if order.len() == 0 {
        None
    } else if found(order[0]) {
        Some(order[0])
    } else {
        first_found(order.drop_first(), found)
    }
}

/// The installation report and the download use the same yt-dlp: in the
/// same environment, where no `yt-dlp_macos` is on the `PATH`, both searches
/// stop at the same place (or both find nothing).
pub proof fn lemma_detect_agrees_with_download(found: spec_fn((int, Seq<char>)) -> bool)
    requires
        !found((0, "yt-dlp_macos"@)),
    ensures
        first_found(search_order(true), found) == first_found(search_order(false), found),
{
    let t = search_order(true);
    let f = search_order(false);
    assert(t[0] == f[0]);
    if !found(t[0]) {
        assert(first_found(t, found) == first_found(t.drop_first(), found));
        assert(first_found(f, found) == first_found(f.drop_first(), found));
        assert(t.drop_first()[0] == (0int, "yt-dlp_macos"@));
        assert(first_found(t.drop_first(), found) == first_found(t.drop_first().drop_first(), found));
        assert(t.drop_first().drop_first() =~= f.drop_first());
    }
}

/// The error given when yt-dlp is nowhere to be found for a download.
pub fn ytdlp_missing_message() -> (m: String)
    ensures
        m@ == "yt-dlp not found. Install it with: brew install yt-dlp or pip install yt-dlp"@,
{
    "yt-dlp not found. Install it with: brew install yt-dlp or pip install yt-dlp".to_owned()
}

// ---------------------------------------------------------------------------
// Installation report
// ---------------------------------------------------------------------------

/// What is known of the local yt-dlp installation.
#[derive(Debug, PartialEq, Eq)]
pub struct YtdlpInfo {
    pub installed: bool,
    pub path: Option<String>,
    pub version: Option<String>,
    pub error: Option<String>,
}

/// The text of `bytes` where they are valid UTF-8.
pub open spec fn utf8_text(bytes: Seq<u8>) -> Option<Seq<char>> {
    if vstd::utf8::valid_utf8(bytes) {
        Some(vstd::utf8::decode_utf8(bytes))
    } else {
        None
    }
}

/// Calls std's `String::from_utf8`, which gives the text of the bytes when
/// they are valid UTF-8 and fails otherwise; the failure is mapped to
/// `None`.
#[verifier::external_body]
fn string_from_utf8(bytes: Vec<u8>) -> (r: Option<String>)
    ensures
        opt_view(r) == utf8_text(bytes@),
{
    String::from_utf8(bytes).ok()
}

/// The version that `yt-dlp --version` reported: its output, trimmed, where
/// it is UTF-8; `unknown` where the run failed or the output is not text.
pub open spec fn reported_version(output: Option<Seq<u8>>) -> Seq<char> {
    match output {
        Some(bytes) => match utf8_text(bytes) {
            Some(t) => trim(t),
            None => "unknown"@,
        },
        None => "unknown"@,
    }
}

/// The installation report: where yt-dlp was found (if anywhere) and what
/// its `--version` run wrote to stdout (`None` where it could not be run).
pub fn ytdlp_info(path: Option<String>, version_output: Option<Vec<u8>>) -> (info: YtdlpInfo)
    ensures
        info.installed == path.is_some(),
        opt_view(info.path) == opt_view(path),
        path.is_some() ==> opt_view(info.version) == Some(
            reported_version(
                match version_output {
                    Some(b) => Some(b@),
                    None => None,
                },
            ),
        ),
        path.is_none() ==> info.version.is_none(),
        path.is_some() ==> info.error.is_none(),
        path.is_none() ==> opt_view(info.error) == Some("yt-dlp not found"@),
{
    match path {
        Some(p) => {
            let version = match version_output {
                Some(bytes) => match string_from_utf8(bytes) {
                    Some(t) => trim_str(t.as_str()),
                    None => "unknown".to_owned(),
                },
                None => "unknown".to_owned(),
            };
            YtdlpInfo { installed: true, path: Some(p), version: Some(version), error: None }
        },
        None => YtdlpInfo {
            installed: false,
            path: None,
            version: None,
            error: Some("yt-dlp not found".to_owned()),
        },
    }
}

// ---------------------------------------------------------------------------
// The downloaded file
// ---------------------------------------------------------------------------

/// A file in the download directory: its name and its modification time in
/// nanoseconds from the Unix epoch (negative before it), where known.
#[derive(Debug, PartialEq, Eq)]
pub struct DownloadedFile {
    pub name: String,
    pub modified: Option<i128>,
}

/// The order of modification times: an unknown time comes before any known
/// one.
pub open spec fn time_le(a: Option<i128>, b: Option<i128>) -> bool {
    match (a, b) {
        (None, _) => true,
        (Some(_), None) => false,
        (Some(x), Some(y)) => x <= y,
    }
}

/// The file belongs to the download of `task_id`: its name begins with it.
pub open spec fn is_download_of(f: DownloadedFile, task_id: Seq<char>) -> bool {
    starts_with(f.name@, task_id)
}

/// Index `i` holds the most recently modified file of the download of
/// `task_id`, the last of them where several share that time.
pub open spec fn is_latest_download(files: Seq<DownloadedFile>, task_id: Seq<char>, i: int) -> bool {
    &&& 0 <= i < files.len()
    &&& is_download_of(files[i], task_id)
    &&& forall|j: int|
        0 <= j < files.len() && is_download_of(#[trigger] files[j], task_id) ==> time_le(
            files[j].modified,
            files[i].modified,
        )
    &&& forall|j: int|
        i < j < files.len() && is_download_of(#[trigger] files[j], task_id) ==> !time_le(
            files[i].modified,
            files[j].modified,
        )
}

fn time_le_exec(a: Option<i128>, b: Option<i128>) -> (r: bool)
    ensures
        r == time_le(a, b),
{
    match (a, b) {
        (None, _) => true,
        (Some(_), None) => false,
        (Some(x), Some(y)) => x <= y,
    }
}

/// Picks the file that yt-dlp wrote for `task_id`: the most recently
/// modified one whose name begins with the task id (the last such on a tie).
pub fn pick_downloaded_file(files: &Vec<DownloadedFile>, task_id: &str) -> (r: Result<usize, String>)
    ensures
        match r {
            Ok(i) => is_latest_download(files@, task_id@, i as int),
            Err(m) => m@ == "Downloaded audio not found"@ && forall|j: int|
                0 <= j < files@.len() ==> !is_download_of(#[trigger] files@[j], task_id@),
        },
{
    let t = chars_of(task_id);
    let mut best: Option<usize> = None;
    let mut j: usize = 0;
    while j < files.len()
        invariant
            j <= files@.len(),
            t@ == task_id@,
            match best {
                Some(b) => {
                    &&& b < j
                    &&& is_download_of(files@[b as int], task_id@)
                    &&& forall|k: int|
                        0 <= k < j && is_download_of(#[trigger] files@[k], task_id@) ==> time_le(
                            files@[k].modified,
                            files@[b as int].modified,
                        )
                    &&& forall|k: int|
                        b < k < j && is_download_of(#[trigger] files@[k], task_id@) ==> !time_le(
                            files@[b as int].modified,
                            files@[k].modified,
                        )
                },
                None => forall|k: int| 0 <= k < j ==> !is_download_of(#[trigger] files@[k], task_id@),
            },
        decreases files.len() - j,
    {
        let name = chars_of(files[j].name.as_str());
        if starts_with_exec(&name, &t) {
            match best {
                Some(b) => {
                    if time_le_exec(files[b].modified, files[j].modified) {
                        best = Some(j);
                    }
                },
                None => {
                    best = Some(j);
                },
            }
        }
        j = j + 1;
    }
    match best {
        Some(b) => Ok(b),
        None => Err("Downloaded audio not found".to_owned()),
    }
}

} // verus!
