use transcribe::pipeline::{phase_name, recognition_report, Effect, Event, Job, Next, Phase, Source, Step, Work};

fn job(source: Source) -> Job {
    Job { source, model_name: "ggml-small-q5_1.bin".to_string() }
}

fn happy(w: Work) -> Event {
    match w {
        Work::CheckModel => Event::Answer(true),
        Work::CheckCancelled | Work::CheckCancelledAgain => Event::Answer(false),
        _ => Event::Done,
    }
}

/// Runs a job, answering each piece of work with `answer`; returns the works
/// done, the effects in order, and the outcome.
fn run(j: &Job, mut answer: impl FnMut(Work) -> Event) -> (Vec<Work>, Vec<Effect>, Result<(), String>) {
    let mut works = Vec::new();
    let mut effects = Vec::new();
    let mut step: Step = j.begin();
    loop {
        effects.extend(step.effects);
        match step.next {
            Next::Finish(r) => return (works, effects, r),
            Next::Work(w) => {
                works.push(w);
                step = j.advance(w, answer(w));
            }
        }
    }
}

fn emits(effects: &[Effect]) -> Vec<(Phase, u8, String)> {
    effects
        .iter()
        .filter_map(|e| match e {
            Effect::Emit(p) => Some((p.phase, p.percent, p.message.clone())),
            _ => None,
        })
        .collect()
}

#[test]
fn file_job_happy_path() {
    let (works, effects, r) = run(&job(Source::File), happy);
    assert_eq!(
        works,
        vec![
            Work::CheckModel,
            Work::ExtractAudio,
            Work::Resample,
            Work::CheckCancelled,
            Work::Transcribe,
            Work::CheckCancelledAgain,
            Work::WriteTranscript
        ]
    );
    assert_eq!(r, Ok(()));
    assert_eq!(
        emits(&effects),
        vec![
            (Phase::ExtractingAudio, 10, "Extracting audio...".to_string()),
            (Phase::ExtractingAudio, 30, "Resampling to 16kHz...".to_string()),
            (Phase::Transcribing, 0, "Loading model...".to_string()),
            (Phase::Saving, 95, "Saving transcript...".to_string()),
            (Phase::Saving, 100, "Done".to_string()),
        ]
    );
    assert_eq!(effects.last(), Some(&Effect::ReleaseTask));
}

#[test]
fn url_job_happy_path() {
    let (works, effects, r) = run(&job(Source::Url), happy);
    assert_eq!(
        works,
        vec![
            Work::CheckModel,
            Work::FindDownloader,
            Work::Download,
            Work::LocateDownload,
            Work::ExtractAudio,
            Work::Resample,
            Work::CheckCancelled,
            Work::Transcribe,
            Work::CheckCancelledAgain,
            Work::WriteTranscript
        ]
    );
    assert_eq!(r, Ok(()));
    let n = effects.len();
    assert_eq!(effects[n - 3], Effect::DeleteDownload);
    assert_eq!(effects[n - 2], Effect::ReleaseTask);
    assert_eq!(emits(&effects)[0], (Phase::DownloadingVideo, 0, "Downloading audio...".to_string()));
    assert_eq!(emits(&effects)[2], (Phase::ExtractingAudio, 30, "Resampling...".to_string()));
    assert_eq!(emits(&effects).last().unwrap(), &(Phase::Saving, 100, "Done".to_string()));
}

#[test]
fn missing_model() {
    let msg = "Model 'ggml-small-q5_1.bin' not found. Download it in Settings → Transcription.".to_string();
    let ans = |w: Work| if w == Work::CheckModel { Event::Answer(false) } else { happy(w) };
    let (works, effects, r) = run(&job(Source::File), ans);
    assert_eq!(works, vec![Work::CheckModel]);
    assert!(effects.is_empty());
    assert_eq!(r, Err(msg.clone()));
    let (_, effects, r) = run(&job(Source::Url), ans);
    assert_eq!(effects, vec![Effect::ReleaseTask]);
    assert_eq!(r, Err(msg));
}

#[test]
fn cancellation_before_transcription() {
    let ans = |w: Work| if w == Work::CheckCancelled { Event::Answer(true) } else { happy(w) };
    let (works, effects, r) = run(&job(Source::File), ans);
    assert_eq!(works.last(), Some(&Work::CheckCancelled));
    assert_eq!(effects.last(), Some(&Effect::ReleaseTask));
    assert_eq!(r, Err("Cancelled".to_string()));
    let (_, effects, r) = run(&job(Source::Url), ans);
    let n = effects.len();
    assert_eq!(&effects[n - 2..], &[Effect::DeleteDownload, Effect::ReleaseTask]);
    assert_eq!(r, Err("Cancelled".to_string()));
}

#[test]
fn cancellation_after_transcription_of_a_file() {
    let ans = |w: Work| if w == Work::CheckCancelledAgain { Event::Answer(true) } else { happy(w) };
    let (works, effects, r) = run(&job(Source::File), ans);
    assert_eq!(works.last(), Some(&Work::CheckCancelledAgain));
    assert_eq!(effects.last(), Some(&Effect::ReleaseTask));
    assert_eq!(r, Err("Cancelled".to_string()));
}

#[test]
fn cancellation_after_transcription_of_a_url() {
    let ans = |w: Work| if w == Work::CheckCancelledAgain { Event::Answer(true) } else { happy(w) };
    let (works, effects, r) = run(&job(Source::Url), ans);
    assert_eq!(works.last(), Some(&Work::CheckCancelledAgain));
    assert!(!works.contains(&Work::WriteTranscript));
    let n = effects.len();
    assert_eq!(&effects[n - 2..], &[Effect::DeleteDownload, Effect::ReleaseTask]);
    assert_eq!(r, Err("Cancelled".to_string()));
}

#[test]
fn recognition_reports() {
    let p = recognition_report(42);
    assert_eq!((p.phase, p.percent, p.message.as_str()), (Phase::Transcribing, 42, "Transcribing... 42%"));
    let low = recognition_report(-5);
    assert_eq!((low.percent, low.message.as_str()), (0, "Transcribing... 0%"));
    let high = recognition_report(250);
    assert_eq!((high.percent, high.message.as_str()), (100, "Transcribing... 100%"));
}

#[test]
fn cancellation_while_downloading() {
    let ans = |w: Work| if w == Work::Download { Event::Cancelled } else { happy(w) };
    let (works, effects, r) = run(&job(Source::Url), ans);
    assert_eq!(works.last(), Some(&Work::Download));
    assert_eq!(effects.last(), Some(&Effect::ReleaseTask));
    assert_eq!(r, Err("Cancelled".to_string()));
}

#[test]
fn downloader_refusal_releases_the_task() {
    let ans = |w: Work| if w == Work::Download { Event::Refused("LOGIN_REQUIRED".to_string()) } else { happy(w) };
    let (_, effects, r) = run(&job(Source::Url), ans);
    assert_eq!(effects.last(), Some(&Effect::ReleaseTask));
    assert_eq!(r, Err("LOGIN_REQUIRED".to_string()));
}

#[test]
fn failures_end_the_job_as_they_are() {
    for failing in [Work::ExtractAudio, Work::Resample, Work::Transcribe, Work::WriteTranscript] {
        let ans = |w: Work| if w == failing { Event::Failed("boom".to_string()) } else { happy(w) };
        let before = run(&job(Source::File), ans);
        assert_eq!(before.0.last(), Some(&failing));
        assert!(!before.1.contains(&Effect::ReleaseTask));
        assert_eq!(before.2, Err("boom".to_string()));
    }
}

#[test]
fn phase_names() {
    assert_eq!(phase_name(Phase::DownloadingVideo), "downloading_video");
    assert_eq!(phase_name(Phase::ExtractingAudio), "extracting_audio");
    assert_eq!(phase_name(Phase::Transcribing), "transcribing");
    assert_eq!(phase_name(Phase::Saving), "saving");
}
