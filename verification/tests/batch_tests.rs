use urlprobe::batch::BatchRun;
use urlprobe::batch::TaskTermination;
use urlprobe::batch::expand_inputs;
use urlprobe::headers::Header;
use urlprobe::headers::HeaderValue;
use urlprobe::probe::FetchOutcome;
use urlprobe::probe::ResponseHead;

#[test]
fn expand_counts_one_job_per_candidate() {
    let inputs = vec!["a.com".to_string(), "   ".to_string(), "http://b".to_string()];
    let jobs = expand_inputs(&inputs);
    assert_eq!(jobs.len(), 3);
    assert_eq!(jobs[0].url, "http://a.com");
    assert_eq!(jobs[0].original_input, "a.com");
    assert_eq!(jobs[1].url, "https://a.com");
    assert_eq!(jobs[1].original_input, "a.com");
    assert_eq!(jobs[2].url, "http://b");
    assert_eq!(jobs[2].original_input, "http://b");
}

#[test]
fn expand_retains_untrimmed_input() {
    let inputs = vec![" c.com ".to_string()];
    let jobs = expand_inputs(&inputs);
    assert_eq!(jobs.len(), 2);
    assert_eq!(jobs[0].url, "http://c.com");
    assert_eq!(jobs[0].original_input, " c.com ");
}

#[test]
fn empty_batch_completes_with_no_results() {
    let inputs: Vec<String> = Vec::new();
    let (mut run, jobs) = BatchRun::start(&inputs);
    assert_eq!(jobs.len(), 0);
    assert!(run.all_finished());
    run.emit_completion();
}

#[test]
fn batch_emits_one_result_per_candidate_then_completes() {
    let inputs = vec!["example.com".to_string()];
    let (mut run, jobs) = BatchRun::start(&inputs);
    assert_eq!(jobs.len(), 2);
    assert_eq!(jobs[0].url, "http://example.com");
    assert_eq!(jobs[1].url, "https://example.com");
    assert!(!run.all_finished());

    let head = ResponseHead {
        status_code: 200,
        headers: vec![Header {
            name: "Server".to_string(),
            value: HeaderValue::Text("test".to_string()),
        }],
    };
    let ok = run.task_finished(
        &jobs[0],
        TaskTermination::Finished(FetchOutcome::Fetched(head, "<title>Hi</title>".to_string())),
    );
    assert_eq!(ok.original_url, "http://example.com");
    assert_eq!(ok.original_input, "example.com");
    assert_eq!(ok.status_code, 200);
    assert_eq!(ok.title, "Hi");
    assert_eq!(ok.banner, "Server: test");
    assert_eq!(ok.error, None);
    assert!(!run.all_finished());

    let failed = run.task_finished(
        &jobs[1],
        TaskTermination::Finished(FetchOutcome::RequestFailed("no TLS listener".to_string())),
    );
    assert_eq!(failed.original_url, "https://example.com");
    assert_eq!(failed.status_code, 0);
    assert_eq!(failed.title, "request failed");
    assert!(failed.error.is_some());

    assert!(run.all_finished());
    run.emit_completion();
}

#[test]
fn task_fault_still_yields_a_record() {
    let inputs = vec!["http://one".to_string()];
    let (mut run, jobs) = BatchRun::start(&inputs);
    assert_eq!(jobs.len(), 1);
    let r = run.task_finished(&jobs[0], TaskTermination::Fault("task aborted".to_string()));
    assert_eq!(r.original_url, "http://one");
    assert_eq!(r.original_input, "http://one");
    assert_eq!(r.status_code, 0);
    assert_eq!(r.title, "task failed");
    assert_eq!(r.content_length, 0);
    assert_eq!(r.error, Some("task failed: task aborted".to_string()));
    assert!(run.all_finished());
    run.emit_completion();
}
