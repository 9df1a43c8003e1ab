//! The course of a transcription job, as a state machine: the caller does
//! the outside work (checking files, running the downloader, decoding,
//! transcribing, writing) and reports how it went; the machine says what to
//! report, what to clean up and what to do next.
use vstd::prelude::*;
use crate::text::{append, i32_text, int_text};

verus! {

/// Where the media of a job comes from.
#[derive(Clone, Copy, Debug, PartialEq, Eq)]
pub enum Source {
    /// A file on disk.
    File,
    /// A video page, fetched with yt-dlp.
    Url,
}

/// The phase that a progress report belongs to.
#[derive(Clone, Copy, Debug, PartialEq, Eq)]
pub enum Phase {
    DownloadingVideo,
    ExtractingAudio,
    Transcribing,
    Saving,
}

/// The name a phase is reported under.
pub open spec fn phase_text(p: Phase) -> Seq<char> {
    match p {
        Phase::DownloadingVideo => "downloading_video"@,
        Phase::ExtractingAudio => "extracting_audio"@,
        Phase::Transcribing => "transcribing"@,
        Phase::Saving => "saving"@,
    }
}

/// The name a phase is reported under.
pub fn phase_name(p: Phase) -> (s: String)
    ensures
        s@ == phase_text(p),
{
    match p {
        Phase::DownloadingVideo => "downloading_video".to_owned(),
        Phase::ExtractingAudio => "extracting_audio".to_owned(),
        Phase::Transcribing => "transcribing".to_owned(),
        Phase::Saving => "saving".to_owned(),
    }
}

/// A piece of outside work that the job waits for.
#[derive(Clone, Copy, Debug, PartialEq, Eq)]
pub enum Work {
    /// Is the chosen model on disk? (answered)
    CheckModel,
    /// Find the yt-dlp program.
    FindDownloader,
    /// Run yt-dlp to the end, reporting its progress lines.
    Download,
    /// Find the audio file that yt-dlp wrote.
    LocateDownload,
    /// Decode the audio to mono samples.
    ExtractAudio,
    /// Resample the audio to 16 kHz.
    Resample,
    /// Has a cancellation been requested, before the recognition? (answered)
    CheckCancelled,
    /// Run the speech recognition.
    Transcribe,
    /// Has a cancellation been requested, after the recognition? (answered)
    CheckCancelledAgain,
    /// Write the transcript file.
    WriteTranscript,
}

/// How a piece of work went.
#[derive(Debug, PartialEq, Eq)]
pub enum Event {
    /// The work was done.
    Done,
    /// The answer to a question.
    Answer(bool),
    /// The work failed with this error, which ends the job as it is.
    Failed(String),
    /// The downloader ran but exited unsuccessfully; this is the error.
    Refused(String),
    /// A cancellation was seen while the downloader ran.
    Cancelled,
}

/// A progress report, in whole percent.
#[derive(Debug, PartialEq, Eq)]
pub struct Progress {
    pub phase: Phase,
    pub percent: u8,
    pub message: String,
}

/// Something the caller does at once, before the next piece of work.
#[derive(Debug, PartialEq, Eq)]
pub enum Effect {
    /// Send this progress report.
    Emit(Progress),
    /// Drop the job's cancellation flag.
    ReleaseTask,
    /// Delete the audio file that the downloader wrote.
    DeleteDownload,
}

/// What comes after the effects.
#[derive(Debug, PartialEq, Eq)]
pub enum Next {
    /// Do this work and report how it went.
    Work(Work),
    /// The job is over, with this outcome.
    Finish(Result<(), String>),
}

/// One move of the machine.
#[derive(Debug, PartialEq, Eq)]
pub struct Step {
    pub effects: Vec<Effect>,
    pub next: Next,
}

/// The view of an effect: its kind (0 emit, 1 release, 2 delete) and, for a
/// report, its phase, percent and message.
pub open spec fn effect_view(e: Effect) -> (int, Phase, u8, Seq<char>) {
    match e {
        Effect::Emit(p) => (0, p.phase, p.percent, p.message@),
        Effect::ReleaseTask => (1, Phase::Saving, 0, Seq::empty()),
        Effect::DeleteDownload => (2, Phase::Saving, 0, Seq::empty()),
    }
}

/// The view of what comes next: `Ok(w)` for work, `Err(r)` for the end with
/// outcome `r` (error text by view).
pub open spec fn next_view(n: Next) -> Result<Work, Result<(), Seq<char>>> {
    match n {
        Next::Work(w) => Ok(w),
        Next::Finish(Ok(())) => Err(Ok(())),
        Next::Finish(Err(m)) => Err(Err(m@)),
    }
}

/// The view of a step.
pub open spec fn step_view(s: Step) -> (Seq<(int, Phase, u8, Seq<char>)>, Result<Work, Result<(), Seq<char>>>) {
    (s.effects@.map_values(|e: Effect| effect_view(e)), next_view(s.next))
}

/// A report in view form.
pub open spec fn emit(phase: Phase, percent: u8, message: Seq<char>) -> (int, Phase, u8, Seq<char>) {
    (0, phase, percent, message)
}

/// The release of the cancellation flag, in view form.
pub open spec fn release() -> (int, Phase, u8, Seq<char>) {
    (1, Phase::Saving, 0, Seq::empty())
}

/// The deletion of the downloaded file, in view form.
pub open spec fn delete_download() -> (int, Phase, u8, Seq<char>) {
    (2, Phase::Saving, 0, Seq::empty())
}

/// A step in view form that goes on with work `w`.
pub open spec fn go(
    effects: Seq<(int, Phase, u8, Seq<char>)>,
    w: Work,
) -> (Seq<(int, Phase, u8, Seq<char>)>, Result<Work, Result<(), Seq<char>>>) {
    (effects, Ok(w))
}

/// A step in view form that ends the job.
pub open spec fn end(
    effects: Seq<(int, Phase, u8, Seq<char>)>,
    outcome: Result<(), Seq<char>>,
) -> (Seq<(int, Phase, u8, Seq<char>)>, Result<Work, Result<(), Seq<char>>>) {
    (effects, Err(outcome))
}

/// A percentage held to the range 0 to 100.
pub open spec fn clamp_percent(p: int) -> int {
    if p < 0 {
        0
    } else if p > 100 {
        100
    } else {
        p
    }
}

/// The report sent while the recognition runs, for the progress (a
/// percentage) that the recognizer announced: phase transcribing, the
/// progress held to 0..100, and the message `Transcribing... N%`.
pub open spec fn recognition_report_rule(progress: int) -> (Phase, u8, Seq<char>) {
    (
        Phase::Transcribing,
        clamp_percent(progress) as u8,
        "Transcribing... "@ + int_text(clamp_percent(progress)) + "%"@,
    )
}

/// The progress report for the recognizer's announced progress.
pub fn recognition_report(progress: i32) -> (p: Progress)
    ensures
        (p.phase, p.percent, p.message@) == recognition_report_rule(progress as int),
{
    let pct: i32 = if progress < 0 {
        0
    } else if progress > 100 {
        100
    } else {
        progress
    };
    let mut message = "Transcribing... ".to_owned();
    let digits = i32_text(pct);
    append(&mut message, digits.as_str());
    append(&mut message, "%");
    Progress { phase: Phase::Transcribing, percent: pct as u8, message }
}

/// A transcription job: where its media comes from and the model it uses.
#[derive(Debug, PartialEq, Eq)]
pub struct Job {
    pub source: Source,
    pub model_name: String,
}

/// The error that ends a job whose model is not on disk.
pub open spec fn missing_model(model_name: Seq<char>) -> Seq<char> {
    "Model '"@ + model_name + "' not found. Download it in Settings → Transcription."@
}

/// The first step of a job: check for the model.
pub open spec fn begin_rule() -> (Seq<(int, Phase, u8, Seq<char>)>, Result<Work, Result<(), Seq<char>>>) {
    go(Seq::empty(), Work::CheckModel)
}

/// The message of the resampling report.
pub open spec fn resample_message(source: Source) -> Seq<char> {
    match source {
        Source::File => "Resampling to 16kHz..."@,
        Source::Url => "Resampling..."@,
    }
}

/// The message of the report that the transcript is being saved.
pub open spec fn saving_message(source: Source) -> Seq<char> {
    match source {
        Source::File => "Saving transcript..."@,
        Source::Url => "Saving..."@,
    }
}

/// The report sent before the recognition starts.
pub open spec fn loading_report() -> (int, Phase, u8, Seq<char>) {
    emit(Phase::Transcribing, 0, "Loading model..."@)
}

/// Whether the event answers yes.
pub open spec fn says_yes(e: Event) -> bool {
    match e {
        Event::Answer(b) => b,
        _ => false,
    }
}

/// What follows the end of the work `w` with event `e`:
/// - a failure ends the job with that error at once, leaving the flag (and
///   any download) in place;
/// - a missing model ends it (a URL job drops its flag first);
/// - the downloader's refusal ends it after the flag is dropped, and so does
///   a cancellation seen while downloading;
/// - a cancellation seen at a check drops the flag (and a URL job's
///   download first) and ends the job as `Cancelled`;
/// - otherwise the job goes on in the order model, (downloader, download,
///   downloaded file,) audio, resampling, check, recognition, check,
///   writing, with the progress report of each phase, and ends by dropping
///   the flag (and the download) with the final report.
/// An answer other than yes counts as no, and any event other than a failure,
/// a refusal or a cancellation counts as done.
pub open spec fn advance_rule(
    source: Source,
    model_name: Seq<char>,
    w: Work,
    e: Event,
) -> (Seq<(int, Phase, u8, Seq<char>)>, Result<Work, Result<(), Seq<char>>>) {
    match e {
        Event::Failed(m) => end(Seq::empty(), Err(m@)),
        Event::Refused(m) => end(seq![release()], Err(m@)),
        Event::Cancelled => end(seq![release()], Err("Cancelled"@)),
        _ => match w {
            Work::CheckModel => if !says_yes(e) {
                match source {
                    Source::File => end(Seq::empty(), Err(missing_model(model_name))),
                    Source::Url => end(seq![release()], Err(missing_model(model_name))),
                }
            } else {
                match source {
                    Source::File => go(
                        seq![emit(Phase::ExtractingAudio, 10, "Extracting audio..."@)],
                        Work::ExtractAudio,
                    ),
                    Source::Url => go(
                        seq![emit(Phase::DownloadingVideo, 0, "Downloading audio..."@)],
                        Work::FindDownloader,
                    ),
                }
            },
            Work::FindDownloader => go(Seq::empty(), Work::Download),
            Work::Download => go(Seq::empty(), Work::LocateDownload),
            Work::LocateDownload => go(
                seq![emit(Phase::ExtractingAudio, 10, "Extracting audio..."@)],
                Work::ExtractAudio,
            ),
            Work::ExtractAudio => go(
                seq![emit(Phase::ExtractingAudio, 30, resample_message(source))],
                Work::Resample,
            ),
            Work::Resample => go(Seq::empty(), Work::CheckCancelled),
            Work::CheckCancelled => if says_yes(e) {
                match source {
                    Source::File => end(seq![release()], Err("Cancelled"@)),
                    Source::Url => end(seq![delete_download(), release()], Err("Cancelled"@)),
                }
            } else {
                go(seq![loading_report()], Work::Transcribe)
            },
            Work::Transcribe => go(Seq::empty(), Work::CheckCancelledAgain),
            Work::CheckCancelledAgain => if says_yes(e) {
                match source {
                    Source::File => end(seq![release()], Err("Cancelled"@)),
                    Source::Url => end(seq![delete_download(), release()], Err("Cancelled"@)),
                }
            } else {
                go(seq![emit(Phase::Saving, 95, saving_message(source))], Work::WriteTranscript)
            },
            Work::WriteTranscript => match source {
                Source::File => end(seq![emit(Phase::Saving, 100, "Done"@), release()], Ok(())),
                Source::Url => end(
                    seq![delete_download(), release(), emit(Phase::Saving, 100, "Done"@)],
                    Ok(()),
                ),
            },
        },
    }
}

// ---------------------------------------------------------------------------
// Executable machine
// ---------------------------------------------------------------------------

fn report(phase: Phase, percent: u8, message: &str) -> (e: Effect)
    ensures
        effect_view(e) == emit(phase, percent, message@),
{
    Effect::Emit(Progress { phase, percent, message: message.to_owned() })
}

fn step0(next: Next) -> (s: Step)
    ensures
        s.effects@.len() == 0,
        s.next == next,
{
    Step { effects: Vec::new(), next }
}

fn step1(a: Effect, next: Next) -> (s: Step)
    ensures
        s.effects@ == seq![a],
        s.next == next,
{
    let mut effects = Vec::new();
    effects.push(a);
    assert(effects@ =~= seq![a]);
    Step { effects, next }
}

fn step2(a: Effect, b: Effect, next: Next) -> (s: Step)
    ensures
        s.effects@ == seq![a, b],
        s.next == next,
{
    let mut effects = Vec::new();
    effects.push(a);
    effects.push(b);
    assert(effects@ =~= seq![a, b]);
    Step { effects, next }
}

fn step3(a: Effect, b: Effect, c: Effect, next: Next) -> (s: Step)
    ensures
        s.effects@ == seq![a, b, c],
        s.next == next,
{
    let mut effects = Vec::new();
    effects.push(a);
    effects.push(b);
    effects.push(c);
    assert(effects@ =~= seq![a, b, c]);
    Step { effects, next }
}

fn fail_with(message: &str) -> (n: Next)
    ensures
        next_view(n) == Err::<Work, Result<(), Seq<char>>>(Err(message@)),
{
    Next::Finish(Err(message.to_owned()))
}

impl Job {
    /// The first step of the job.
    pub fn begin(&self) -> (s: Step)
        ensures
            step_view(s) == begin_rule(),
    {
        let s = step0(Next::Work(Work::CheckModel));
        assert(step_view(s).0 =~= Seq::<(int, Phase, u8, Seq<char>)>::empty());
        s
    }

    /// The step that follows the end of the work `w` with event `e`.
    pub fn advance(&self, w: Work, e: Event) -> (s: Step)
        ensures
            step_view(s) == advance_rule(self.source, self.model_name@, w, e),
    {
        let yes = match &e {
            Event::Answer(b) => *b,
            _ => false,
        };
        let s = match e {
            Event::Failed(m) => step0(Next::Finish(Err(m))),
            Event::Refused(m) => step1(Effect::ReleaseTask, Next::Finish(Err(m))),
            Event::Cancelled => step1(Effect::ReleaseTask, fail_with("Cancelled")),
            _ => match w {
                Work::CheckModel => if !yes {
                    let mut m = "Model '".to_owned();
                    append(&mut m, self.model_name.as_str());
                    append(&mut m, "' not found. Download it in Settings → Transcription.");
                    match self.source {
                        Source::File => step0(Next::Finish(Err(m))),
                        Source::Url => step1(Effect::ReleaseTask, Next::Finish(Err(m))),
                    }
                } else {
                    match self.source {
                        Source::File => step1(
                            report(Phase::ExtractingAudio, 10, "Extracting audio..."),
                            Next::Work(Work::ExtractAudio),
                        ),
                        Source::Url => step1(
                            report(Phase::DownloadingVideo, 0, "Downloading audio..."),
                            Next::Work(Work::FindDownloader),
                        ),
                    }
                },
                Work::FindDownloader => step0(Next::Work(Work::Download)),
                Work::Download => step0(Next::Work(Work::LocateDownload)),
                Work::LocateDownload => step1(
                    report(Phase::ExtractingAudio, 10, "Extracting audio..."),
                    Next::Work(Work::ExtractAudio),
                ),
                Work::ExtractAudio => {
                    let msg = match self.source {
                        Source::File => "Resampling to 16kHz...",
                        Source::Url => "Resampling...",
                    };
                    step1(report(Phase::ExtractingAudio, 30, msg), Next::Work(Work::Resample))
                },
                Work::Resample => step0(Next::Work(Work::CheckCancelled)),
                Work::CheckCancelled => if yes {
                    match self.source {
                        Source::File => step1(Effect::ReleaseTask, fail_with("Cancelled")),
                        Source::Url => step2(
                            Effect::DeleteDownload,
                            Effect::ReleaseTask,
                            fail_with("Cancelled"),
                        ),
                    }
                } else {
                    step1(report(Phase::Transcribing, 0, "Loading model..."), Next::Work(Work::Transcribe))
                },
                Work::Transcribe => step0(Next::Work(Work::CheckCancelledAgain)),
                Work::CheckCancelledAgain => if yes {
                    match self.source {
                        Source::File => step1(Effect::ReleaseTask, fail_with("Cancelled")),
                        Source::Url => step2(
                            Effect::DeleteDownload,
                            Effect::ReleaseTask,
                            fail_with("Cancelled"),
                        ),
                    }
                } else {
                    let msg = match self.source {
                        Source::File => "Saving transcript...",
                        Source::Url => "Saving...",
                    };
                    step1(report(Phase::Saving, 95, msg), Next::Work(Work::WriteTranscript))
                },
                Work::WriteTranscript => match self.source {
                    Source::File => step2(
                        report(Phase::Saving, 100, "Done"),
                        Effect::ReleaseTask,
                        Next::Finish(Ok(())),
                    ),
                    Source::Url => step3(
                        Effect::DeleteDownload,
                        Effect::ReleaseTask,
                        report(Phase::Saving, 100, "Done"),
                        Next::Finish(Ok(())),
                    ),
                },
            },
        };
        assert(step_view(s) =~= advance_rule(self.source, self.model_name@, w, e));
        s
    }
}

// ---------------------------------------------------------------------------
// Laws
// ---------------------------------------------------------------------------

/// A failed piece of work ends the job with that very error, and nothing
/// else happens.
pub proof fn lemma_failure_ends_job(source: Source, model_name: Seq<char>, w: Work, m: String)
    ensures
        advance_rule(source, model_name, w, Event::Failed(m)) == end(Seq::empty(), Err(m@)),
{
}

/// A job that ends as `Cancelled` because of a cancellation (seen while
/// downloading or at a check) drops its cancellation flag on the way out.
pub proof fn lemma_cancel_releases(source: Source, model_name: Seq<char>, w: Work, e: Event)
    requires
        !(e is Failed),
        !(e is Refused),
        advance_rule(source, model_name, w, e).1 == Err::<Work, Result<(), Seq<char>>>(Err("Cancelled"@)),
    ensures
        advance_rule(source, model_name, w, e).0.contains(release()),
{
    reveal_strlit("Cancelled");
    reveal_strlit("Model '");
    let r = advance_rule(source, model_name, w, e);
    match e {
        Event::Cancelled => {
            assert(r.0[0] == release());
        },
        _ => match w {
            Work::CheckModel => {
                assert(missing_model(model_name).len() > 7);
                assert(missing_model(model_name) != "Cancelled"@) by {
                    assert(missing_model(model_name)[0] == 'M');
                    assert("Cancelled"@[0] == 'C');
                }
            },
            Work::CheckCancelled => {
                match source {
                    Source::File => assert(r.0[0] == release()),
                    Source::Url => assert(r.0[1] == release()),
                }
            },
            Work::CheckCancelledAgain => {
                match source {
                    Source::File => assert(r.0[0] == release()),
                    Source::Url => assert(r.0[1] == release()),
                }
            },
            _ => {},
        },
    }
}

/// A job that ends well drops its cancellation flag and sends the final
/// report (saving, 100 %, `Done`); a URL job also deletes the downloaded
/// audio.
pub proof fn lemma_success_releases(source: Source, model_name: Seq<char>, w: Work, e: Event)
    requires
        advance_rule(source, model_name, w, e).1 == Err::<Work, Result<(), Seq<char>>>(Ok(())),
    ensures
        advance_rule(source, model_name, w, e).0.contains(release()),
        advance_rule(source, model_name, w, e).0.contains(emit(Phase::Saving, 100, "Done"@)),
        source is Url ==> advance_rule(source, model_name, w, e).0.contains(delete_download()),
        w is WriteTranscript,
{
    let r = advance_rule(source, model_name, w, e);
    match source {
        Source::File => {
            assert(r.0[0] == emit(Phase::Saving, 100, "Done"@));
            assert(r.0[1] == release());
        },
        Source::Url => {
            assert(r.0[0] == delete_download());
            assert(r.0[1] == release());
            assert(r.0[2] == emit(Phase::Saving, 100, "Done"@));
        },
    }
}

/// A job keeps its cancellation flag and its downloaded audio for as long as
/// it goes on: a step that leads to more work neither drops the flag nor
/// deletes the download; both happen only in a step that ends the job.
pub proof fn lemma_going_on_keeps_flag_and_download(source: Source, model_name: Seq<char>, w: Work, e: Event)
    requires
        advance_rule(source, model_name, w, e).1 is Ok,
    ensures
        !advance_rule(source, model_name, w, e).0.contains(release()),
        !advance_rule(source, model_name, w, e).0.contains(delete_download()),
        forall|i: int|
            0 <= i < advance_rule(source, model_name, w, e).0.len() ==> (#[trigger] advance_rule(
                source,
                model_name,
                w,
                e,
            ).0[i]).0 == 0,
{
    let r = advance_rule(source, model_name, w, e);
    assert forall|i: int| 0 <= i < r.0.len() implies (#[trigger] r.0[i]).0 == 0 by {}
    if r.0.contains(release()) {
        let i = choose|i: int| 0 <= i < r.0.len() && r.0[i] == release();
        assert(r.0[i].0 == 0);
    }
    if r.0.contains(delete_download()) {
        let i = choose|i: int| 0 <= i < r.0.len() && r.0[i] == delete_download();
        assert(r.0[i].0 == 0);
    }
}

/// Once the downloaded file is found, the job reports that it extracts the
/// audio and goes on to decode that very file: the step keeps the download.
pub proof fn lemma_download_kept_for_extraction(model_name: Seq<char>, e: Event)
    requires
        !(e is Failed),
        !(e is Refused),
        !(e is Cancelled),
    ensures
        advance_rule(Source::Url, model_name, Work::LocateDownload, e).1
            == Ok::<Work, Result<(), Seq<char>>>(Work::ExtractAudio),
        advance_rule(Source::Url, model_name, Work::LocateDownload, e).0 == seq![
            emit(Phase::ExtractingAudio, 10, "Extracting audio..."@),
        ],
{
}

/// Every progress report that a step sends is at most 100 percent.
pub proof fn lemma_reports_within_range(source: Source, model_name: Seq<char>, w: Work, e: Event)
    ensures
        forall|i: int|
            0 <= i < advance_rule(source, model_name, w, e).0.len() ==> (#[trigger] advance_rule(
                source,
                model_name,
                w,
                e,
            ).0[i]).2 <= 100,
{
}

/// The pieces of work of a job in which everything goes well, in order.
pub open spec fn happy_works(source: Source) -> Seq<Work> {
    match source {
        Source::File => seq![
            Work::CheckModel,
            Work::ExtractAudio,
            Work::Resample,
            Work::CheckCancelled,
            Work::Transcribe,
            Work::CheckCancelledAgain,
            Work::WriteTranscript,
        ],
        Source::Url => seq![
            Work::CheckModel,
            Work::FindDownloader,
            Work::Download,
            Work::LocateDownload,
            Work::ExtractAudio,
            Work::Resample,
            Work::CheckCancelled,
            Work::Transcribe,
            Work::CheckCancelledAgain,
            Work::WriteTranscript,
        ],
    }
}

/// The event that reports a piece of work as having gone well: the model is
/// there, no cancellation was asked for, and any other work was done.
pub open spec fn happy_event(w: Work) -> Event {
    match w {
        Work::CheckModel => Event::Answer(true),
        Work::CheckCancelled => Event::Answer(false),
        Work::CheckCancelledAgain => Event::Answer(false),
        _ => Event::Done,
    }
}

/// When everything goes well, a job does its work in the order of
/// `happy_works` and then ends successfully.
pub proof fn lemma_happy_path(source: Source, model_name: Seq<char>)
    ensures
        begin_rule().1 == Ok::<Work, Result<(), Seq<char>>>(happy_works(source)[0]),
        forall|i: int|
            0 <= i < happy_works(source).len() - 1 ==> advance_rule(
                source,
                model_name,
                #[trigger] happy_works(source)[i],
                happy_event(happy_works(source)[i]),
            ).1 == Ok::<Work, Result<(), Seq<char>>>(happy_works(source)[i + 1]),
        advance_rule(
            source,
            model_name,
            happy_works(source).last(),
            happy_event(happy_works(source).last()),
        ).1 == Err::<Work, Result<(), Seq<char>>>(Ok(())),
{
    let ws = happy_works(source);
    assert forall|i: int| 0 <= i < ws.len() - 1 implies advance_rule(
        source,
        model_name,
        #[trigger] ws[i],
        happy_event(ws[i]),
    ).1 == Ok::<Work, Result<(), Seq<char>>>(ws[i + 1]) by {
        match source {
            Source::File => {
                if i == 0 {} else if i == 1 {} else if i == 2 {} else if i == 3 {} else if i == 4 {} else {}
            },
            Source::Url => {
                if i == 0 {} else if i == 1 {} else if i == 2 {} else if i == 3 {} else if i == 4 {} else if i
                    == 5 {} else if i == 6 {} else if i == 7 {} else {}
            },
        }
    }
}

} // verus!
