use scribe_jobs::pipeline::{Action, Event, JobError, Pipeline, Step};
use scribe_jobs::registry::{health_check, Job, JobRegistry};

fn job(id: &str, url: &str, status: &str, result: Option<&str>) -> Job {
    Job {
        id: id.to_string(),
        url: url.to_string(),
        status: status.to_string(),
        result_path: result.map(|s| s.to_string()),
    }
}

fn three() -> JobRegistry {
    let mut r = JobRegistry::new();
    assert!(r.insert_queued("a".to_string(), "u1".to_string()));
    assert!(r.insert_queued("b".to_string(), "u2".to_string()));
    assert!(r.insert_queued("c".to_string(), "u3".to_string()));
    r
}

fn is_hyphenated_uuid(s: &str) -> bool {
    s.len() == 36
        && s.chars().enumerate().all(|(i, c)| {
            if i == 8 || i == 13 || i == 18 || i == 23 {
                c == '-'
            } else {
                c.is_ascii_digit() || ('a'..='f').contains(&c)
            }
        })
}

#[test]
fn new_registry_is_empty() {
    let r = JobRegistry::new();
    assert_eq!(r.len(), 0);
    assert_eq!(r.list(), vec![]);
    assert!(!r.contains("a"));
}

#[test]
fn created_job_is_listed_as_queued() {
    let mut r = JobRegistry::new();
    let id = r.create("http://example/video".to_string()).unwrap();
    assert!(is_hyphenated_uuid(&id));
    assert!(r.contains(&id));
    assert_eq!(r.list(), vec![job(&id, "http://example/video", "queued", None)]);
}

#[test]
fn created_ids_are_unique() {
    let mut r = JobRegistry::new();
    let mut ids = Vec::new();
    for _ in 0..200 {
        let id = r.create("same".to_string()).unwrap();
        assert!(!ids.contains(&id));
        ids.push(id);
    }
    assert_eq!(r.len(), 200);
    let listed: Vec<String> = r.list().into_iter().map(|j| j.id).collect();
    assert_eq!(listed, ids);
}

#[test]
fn create_succeeds_beside_ids_of_another_form() {
    let mut r = three();
    let id = r.create("u4".to_string()).unwrap();
    assert!(is_hyphenated_uuid(&id));
    assert_eq!(r.len(), 4);
    assert_eq!(r.list()[3], job(&id, "u4", "queued", None));
    let s = r.submit("u5".to_string()).unwrap();
    assert_ne!(s.job_id, id);
    assert_eq!(r.list()[4], job(&s.job_id, "u5", "queued", None));
    assert_eq!(r.list()[0], job("a", "u1", "queued", None));
}

#[test]
fn submission_reports_queued() {
    let mut r = JobRegistry::new();
    let s = r.submit("http://example/video".to_string()).unwrap();
    assert_eq!(s.status, "queued");
    assert!(is_hyphenated_uuid(&s.job_id));
    assert_eq!(r.list(), vec![job(&s.job_id, "http://example/video", "queued", None)]);
}

#[test]
fn insert_refuses_a_taken_id() {
    let mut r = three();
    r.update_status("b", "x".to_string());
    assert!(!r.insert_queued("b".to_string(), "other".to_string()));
    assert_eq!(
        r.list(),
        vec![
            job("a", "u1", "queued", None),
            job("b", "u2", "x", None),
            job("c", "u3", "queued", None)
        ]
    );
}

#[test]
fn update_status_changes_one_job() {
    let mut r = three();
    r.update_status("b", "Downloading video... 5%".to_string());
    assert_eq!(
        r.list(),
        vec![
            job("a", "u1", "queued", None),
            job("b", "u2", "Downloading video... 5%", None),
            job("c", "u3", "queued", None)
        ]
    );
    r.update_status("b", "failed: yt-dlp failed".to_string());
    assert_eq!(r.list()[1], job("b", "u2", "failed: yt-dlp failed", None));
}

#[test]
fn update_of_an_absent_id_is_a_no_op() {
    let mut r = three();
    r.update_status("zz", "x".to_string());
    r.set_result("", "/tmp/x.wav".to_string());
    assert_eq!(
        r.list(),
        vec![
            job("a", "u1", "queued", None),
            job("b", "u2", "queued", None),
            job("c", "u3", "queued", None)
        ]
    );
    let mut empty = JobRegistry::new();
    empty.update_status("a", "x".to_string());
    assert_eq!(empty.len(), 0);
}

#[test]
fn set_result_completes_the_job() {
    let mut r = three();
    r.set_result("c", "/tmp/c.wav".to_string());
    assert_eq!(
        r.list(),
        vec![
            job("a", "u1", "queued", None),
            job("b", "u2", "queued", None),
            job("c", "u3", "completed", Some("/tmp/c.wav"))
        ]
    );
}

#[test]
fn list_is_a_copy() {
    let mut r = three();
    let before = r.list();
    r.update_status("a", "x".to_string());
    assert_eq!(before[0], job("a", "u1", "queued", None));
    assert_eq!(r.list()[0], job("a", "u1", "x", None));
}

#[test]
fn job_clone_keeps_every_field() {
    let j = job("a", "u", "completed", Some("/p"));
    assert_eq!(j.clone(), j);
    let j = job("a", "u", "queued", None);
    assert_eq!(j.clone(), j);
}

#[test]
fn apply_step_shows_statuses_in_order() {
    let mut r = three();
    let step = Step {
        statuses: vec!["processing".to_string(), "Starting job...".to_string()],
        action: Action::Wait,
    };
    r.apply_step("a", &step);
    assert_eq!(r.list()[0], job("a", "u1", "Starting job...", None));
    r.apply_step("a", &Step { statuses: vec![], action: Action::ResolveModel });
    assert_eq!(r.list()[0], job("a", "u1", "Starting job...", None));
    assert_eq!(r.list()[1], job("b", "u2", "queued", None));
}

#[test]
fn apply_step_records_result_and_failure() {
    let mut r = three();
    let finish = Step {
        statuses: vec![],
        action: Action::Finish { result_path: "/tmp/a.wav".to_string(), transcript: "t".to_string() },
    };
    r.apply_step("a", &finish);
    assert_eq!(r.list()[0], job("a", "u1", "completed", Some("/tmp/a.wav")));
    let fail = Step {
        statuses: vec!["failed: ffmpeg failed".to_string()],
        action: Action::Fail { reason: "ffmpeg failed".to_string() },
    };
    r.apply_step("b", &fail);
    assert_eq!(r.list()[1], job("b", "u2", "failed: ffmpeg failed", None));
    assert_eq!(r.list()[2], job("c", "u3", "queued", None));
}

#[test]
fn health_report() {
    let h = health_check();
    assert_eq!(h.status, "ok");
    assert_eq!(h.version, "1.0.0");
    assert!(!h.models_loaded);
}

#[test]
fn end_to_end_success() {
    let mut r = JobRegistry::new();
    let s = r.submit("http://example/video".to_string()).unwrap();
    assert_eq!(r.list(), vec![job(&s.job_id, "http://example/video", "queued", None)]);
    let mut p = Pipeline::new(s.job_id.clone(), "http://example/video".to_string(), "/tmp");
    let events = vec![
        Event::Start,
        Event::Line("[download]   0.0% of 10.00MiB".to_string()),
        Event::Line("[download] 100% of 10.00MiB".to_string()),
        Event::Exited(true),
        Event::Line("  Duration: 00:01:00.00, start: 0.000000, bitrate: 128 kb/s".to_string()),
        Event::Line("size=256kB time=00:00:30.00 bitrate=69.9kbits/s".to_string()),
        Event::Exited(true),
        Event::ModelReady("/data/models/ggml-tiny.bin".to_string()),
        Event::Transcribed("[0:00 -> 0:09] xin chao".to_string()),
    ];
    let mut seen = Vec::new();
    for e in events {
        let step = p.step(e);
        r.apply_step(&s.job_id, &step);
        seen.push(r.list()[0].status.clone());
    }
    assert_eq!(
        seen,
        vec![
            "Downloading video... 0%",
            "Downloading video... 0%",
            "Downloading video... 100%",
            "Converting to audio... 0%",
            "Converting to audio... 0%",
            "Converting to audio... 50%",
            "Checking AI model...",
            "Transcribing... 0%",
            "completed",
        ]
    );
    let expected = format!("/tmp/{}.wav", s.job_id);
    assert_eq!(
        r.list(),
        vec![job(&s.job_id, "http://example/video", "completed", Some(&expected))]
    );
    assert!(p.is_over());
}

#[test]
fn end_to_end_failure_keeps_other_jobs() {
    let mut r = JobRegistry::new();
    let a = r.create("u1".to_string()).unwrap();
    let b = r.create("u2".to_string()).unwrap();
    let mut p = Pipeline::new(b.clone(), "u2".to_string(), "/tmp");
    for e in [
        Event::Start,
        Event::Failed(JobError::ProcessLaunch {
            tool: scribe_jobs::pipeline::Tool::Fetch,
            detail: "No such file or directory (os error 2)".to_string(),
        }),
        Event::Exited(true),
    ] {
        let step = p.step(e);
        r.apply_step(&b, &step);
    }
    assert_eq!(
        r.list(),
        vec![
            job(&a, "u1", "queued", None),
            job(
                &b,
                "u2",
                "failed: Failed to spawn yt-dlp: No such file or directory (os error 2)",
                None
            ),
        ]
    );
}
