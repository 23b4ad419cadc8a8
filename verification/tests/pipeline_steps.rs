use scribe_jobs::pipeline::{
    failed_status_of, percent_status_of, tool_binary_name, tool_label, Action, Event, JobError,
    Pipeline, Stage, Step, Tool,
};

fn strings(v: &[&str]) -> Vec<String> {
    v.iter().map(|s| s.to_string()).collect()
}

fn fresh() -> Pipeline {
    Pipeline::new("j1".to_string(), "http://example/video".to_string(), "/tmp")
}

fn at_downloading() -> Pipeline {
    let mut p = fresh();
    p.step(Event::Start);
    p
}

fn at_converting() -> Pipeline {
    let mut p = at_downloading();
    p.step(Event::Exited(true));
    p
}

fn at_checking_model() -> Pipeline {
    let mut p = at_converting();
    p.step(Event::Exited(true));
    p
}

fn at_transcribing() -> Pipeline {
    let mut p = at_checking_model();
    p.step(Event::ModelReady("/data/models/ggml-tiny.bin".to_string()));
    p
}

fn idle() -> Step {
    Step { statuses: vec![], action: Action::Wait }
}

#[test]
fn new_pipeline_is_queued_with_named_work_files() {
    let p = fresh();
    assert_eq!(p.stage(), Stage::Queued);
    assert!(!p.is_over());
    assert_eq!(p.job().id, "j1");
    assert_eq!(p.job().url, "http://example/video");
    assert_eq!(p.job().status, "queued");
    assert_eq!(p.raw_path(), "/tmp/j1.webm");
    assert_eq!(p.audio_path(), "/tmp/j1.wav");
}

#[test]
fn work_dir_with_trailing_separator_or_empty() {
    let p = Pipeline::new("a".to_string(), "u".to_string(), "/var/tmp/");
    assert_eq!(p.raw_path(), "/var/tmp/a.webm");
    assert_eq!(p.audio_path(), "/var/tmp/a.wav");
    let p = Pipeline::new("a".to_string(), "u".to_string(), "");
    assert_eq!(p.raw_path(), "a.webm");
    assert_eq!(p.audio_path(), "a.wav");
}

#[test]
fn start_launches_the_fetch_tool() {
    let mut p = fresh();
    let step = p.step(Event::Start);
    assert_eq!(
        step.statuses,
        strings(&["processing", "Starting job...", "Downloading video... 0%"])
    );
    assert_eq!(
        step.action,
        Action::Launch {
            tool: Tool::Fetch,
            args: strings(&[
                "--newline",
                "-f",
                "ba[ext=webm]",
                "-o",
                "/tmp/j1.webm",
                "http://example/video"
            ]),
        }
    );
    assert_eq!(p.stage(), Stage::Downloading);
    assert_eq!(p.job().status, "Downloading video... 0%");
}

#[test]
fn fetch_lines_become_statuses() {
    let mut p = at_downloading();
    let step = p.step(Event::Line("[download]  45.6% of 10.00MiB".to_string()));
    assert_eq!(step.statuses, strings(&["Downloading video... 45%"]));
    assert_eq!(step.action, Action::Wait);
    assert_eq!(p.stage(), Stage::Downloading);
    assert_eq!(p.job().status, "Downloading video... 45%");
    let step = p.step(Event::Line("[download] Destination: /tmp/j1.webm".to_string()));
    assert_eq!(step, idle());
    assert_eq!(p.job().status, "Downloading video... 45%");
}

#[test]
fn fetch_success_launches_the_transcode_tool() {
    let mut p = at_downloading();
    let step = p.step(Event::Exited(true));
    assert_eq!(step.statuses, strings(&["Converting to audio... 0%"]));
    assert_eq!(
        step.action,
        Action::Launch {
            tool: Tool::Transcode,
            args: strings(&["-i", "/tmp/j1.webm", "-ar", "16000", "-ac", "1", "/tmp/j1.wav"]),
        }
    );
    assert_eq!(p.stage(), Stage::Converting);
}

#[test]
fn fetch_failure_code_ends_the_job() {
    let mut p = at_downloading();
    let step = p.step(Event::Exited(false));
    assert_eq!(step.statuses, strings(&["failed: yt-dlp failed"]));
    assert_eq!(step.action, Action::Fail { reason: "yt-dlp failed".to_string() });
    assert_eq!(p.stage(), Stage::Failed);
    assert!(p.is_over());
    assert_eq!(p.job().status, "failed: yt-dlp failed");
}

#[test]
fn transcode_lines_become_statuses_once_duration_is_known() {
    let mut p = at_converting();
    assert_eq!(p.step(Event::Line("time=00:00:30.00 bitrate=1".to_string())), idle());
    assert_eq!(p.step(Event::Line("  Duration: 00:01:00.00, start: 0".to_string())), idle());
    let step = p.step(Event::Line("size=1kB time=00:00:30.00 bitrate=1".to_string()));
    assert_eq!(step.statuses, strings(&["Converting to audio... 50%"]));
    assert_eq!(step.action, Action::Wait);
    assert_eq!(p.job().status, "Converting to audio... 50%");
    assert_eq!(p.stage(), Stage::Converting);
}

#[test]
fn transcode_lines_are_not_read_while_downloading() {
    let mut p = at_downloading();
    assert_eq!(p.step(Event::Line("Duration: 00:01:00.00, x".to_string())), idle());
    p.step(Event::Exited(true));
    assert_eq!(p.step(Event::Line("time=00:00:30.00".to_string())), idle());
}

#[test]
fn transcode_success_asks_for_the_model() {
    let mut p = at_converting();
    let step = p.step(Event::Exited(true));
    assert_eq!(step.statuses, strings(&["Checking AI model..."]));
    assert_eq!(step.action, Action::ResolveModel);
    assert_eq!(p.stage(), Stage::CheckingModel);
}

#[test]
fn transcode_failure_code_ends_the_job() {
    let mut p = at_converting();
    let step = p.step(Event::Exited(false));
    assert_eq!(step.statuses, strings(&["failed: ffmpeg failed"]));
    assert_eq!(step.action, Action::Fail { reason: "ffmpeg failed".to_string() });
    assert_eq!(p.stage(), Stage::Failed);
}

#[test]
fn model_ready_starts_transcription() {
    let mut p = at_checking_model();
    let step = p.step(Event::ModelReady("/data/models/ggml-tiny.bin".to_string()));
    assert_eq!(step.statuses, strings(&["Transcribing... 0%"]));
    assert_eq!(
        step.action,
        Action::Transcribe {
            audio: "/tmp/j1.wav".to_string(),
            model: "/data/models/ggml-tiny.bin".to_string(),
        }
    );
    assert_eq!(p.stage(), Stage::Transcribing);
}

#[test]
fn transcription_progress_becomes_status() {
    let mut p = at_transcribing();
    let step = p.step(Event::Progress(37));
    assert_eq!(step.statuses, strings(&["Transcribing... 37%"]));
    assert_eq!(step.action, Action::Wait);
    let step = p.step(Event::Progress(-3));
    assert_eq!(step.statuses, strings(&["Transcribing... -3%"]));
    let step = p.step(Event::Progress(i32::MIN));
    assert_eq!(step.statuses, strings(&["Transcribing... -2147483648%"]));
    let step = p.step(Event::Progress(i32::MAX));
    assert_eq!(step.statuses, strings(&["Transcribing... 2147483647%"]));
}

#[test]
fn transcript_completes_the_job_with_the_audio_file() {
    let mut p = at_transcribing();
    let step = p.step(Event::Transcribed("[0:00 -> 0:09] xin chao".to_string()));
    assert_eq!(step.statuses, Vec::<String>::new());
    assert_eq!(
        step.action,
        Action::Finish {
            result_path: "/tmp/j1.wav".to_string(),
            transcript: "[0:00 -> 0:09] xin chao".to_string(),
        }
    );
    assert_eq!(p.stage(), Stage::Completed);
    assert!(p.is_over());
    assert_eq!(p.job().status, "completed");
}

#[test]
fn outside_failure_ends_the_job_at_every_stage() {
    let makers: [fn() -> Pipeline; 5] =
        [fresh, at_downloading, at_converting, at_checking_model, at_transcribing];
    for make in makers {
        let mut p = make();
        let step = p.step(Event::Failed(JobError::Network { detail: "no route".to_string() }));
        assert_eq!(step.statuses, strings(&["failed: no route"]));
        assert_eq!(step.action, Action::Fail { reason: "no route".to_string() });
        assert_eq!(p.stage(), Stage::Failed);
        assert_eq!(p.job().status, "failed: no route");
    }
}

#[test]
fn a_job_that_is_over_takes_no_further_step() {
    let mut done = at_transcribing();
    done.step(Event::Transcribed("t".to_string()));
    let mut failed = at_downloading();
    failed.step(Event::Exited(false));
    let events = || {
        vec![
            Event::Start,
            Event::Line("[download] 5% x".to_string()),
            Event::Exited(true),
            Event::Exited(false),
            Event::ModelReady("m".to_string()),
            Event::Progress(5),
            Event::Transcribed("t".to_string()),
            Event::Failed(JobError::EmptyInput),
        ]
    };
    for e in events() {
        assert_eq!(done.step(e), idle());
        assert_eq!(done.stage(), Stage::Completed);
        assert_eq!(done.job().status, "completed");
    }
    for e in events() {
        assert_eq!(failed.step(e), idle());
        assert_eq!(failed.stage(), Stage::Failed);
        assert_eq!(failed.job().status, "failed: yt-dlp failed");
    }
}

#[test]
fn unexpected_events_change_nothing() {
    let mut p = fresh();
    assert_eq!(p.step(Event::Exited(true)), idle());
    assert_eq!(p.step(Event::Line("[download] 5% x".to_string())), idle());
    assert_eq!(p.stage(), Stage::Queued);
    assert_eq!(p.job().status, "queued");
    let mut p = at_downloading();
    assert_eq!(p.step(Event::Start), idle());
    assert_eq!(p.step(Event::ModelReady("m".to_string())), idle());
    assert_eq!(p.step(Event::Transcribed("t".to_string())), idle());
    assert_eq!(p.step(Event::Progress(3)), idle());
    assert_eq!(p.stage(), Stage::Downloading);
    let mut p = at_checking_model();
    assert_eq!(p.step(Event::Exited(false)), idle());
    assert_eq!(p.stage(), Stage::CheckingModel);
    let mut p = at_transcribing();
    assert_eq!(p.step(Event::Exited(false)), idle());
    assert_eq!(p.step(Event::ModelReady("m".to_string())), idle());
    assert_eq!(p.stage(), Stage::Transcribing);
}

#[test]
fn exactly_one_step_ends_a_job() {
    let mut p = fresh();
    let events = vec![
        Event::Start,
        Event::Line("[download] 50% x".to_string()),
        Event::Exited(true),
        Event::Line("Duration: 00:00:10.00, x".to_string()),
        Event::Exited(true),
        Event::ModelReady("m".to_string()),
        Event::Progress(10),
        Event::Transcribed("t".to_string()),
        Event::Failed(JobError::EmptyInput),
        Event::Transcribed("t".to_string()),
        Event::Exited(false),
    ];
    let mut endings = 0;
    for e in events {
        let step = p.step(e);
        if matches!(step.action, Action::Finish { .. } | Action::Fail { .. }) {
            endings += 1;
        }
    }
    assert_eq!(endings, 1);
    assert_eq!(p.stage(), Stage::Completed);
}

#[test]
fn error_messages() {
    let d = || "boom".to_string();
    assert_eq!(
        JobError::ProcessLaunch { tool: Tool::Fetch, detail: d() }.message(),
        "Failed to spawn yt-dlp: boom"
    );
    assert_eq!(
        JobError::ProcessLaunch { tool: Tool::Transcode, detail: d() }.message(),
        "Failed to spawn ffmpeg: boom"
    );
    assert_eq!(
        JobError::ProcessWait { tool: Tool::Fetch, detail: d() }.message(),
        "Failed to wait on yt-dlp: boom"
    );
    assert_eq!(
        JobError::ProcessWait { tool: Tool::Transcode, detail: d() }.message(),
        "Failed to wait on ffmpeg: boom"
    );
    assert_eq!(JobError::ProcessExit { tool: Tool::Fetch }.message(), "yt-dlp failed");
    assert_eq!(JobError::ProcessExit { tool: Tool::Transcode }.message(), "ffmpeg failed");
    assert_eq!(JobError::Network { detail: d() }.message(), "boom");
    assert_eq!(JobError::Filesystem { detail: d() }.message(), "boom");
    assert_eq!(JobError::Inference { detail: d() }.message(), "boom");
    assert_eq!(JobError::EmptyInput.message(), "Audio file is empty");
}

#[test]
fn status_texts() {
    assert_eq!(failed_status_of("ffmpeg failed"), "failed: ffmpeg failed");
    assert_eq!(failed_status_of(""), "failed: ");
    assert_eq!(percent_status_of("Downloading video... ", 0), "Downloading video... 0%");
    assert_eq!(percent_status_of("x ", 100), "x 100%");
    assert_eq!(percent_status_of("", -7), "-7%");
}

#[test]
fn tool_names() {
    assert_eq!(tool_label(Tool::Fetch), "yt-dlp");
    assert_eq!(tool_label(Tool::Transcode), "ffmpeg");
    assert_eq!(tool_binary_name(Tool::Fetch), "yt-dlp-aarch64-apple-darwin");
    assert_eq!(tool_binary_name(Tool::Transcode), "ffmpeg-aarch64-apple-darwin");
}
