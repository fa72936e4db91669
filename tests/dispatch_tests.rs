use ytdlg::bootstrap::{Bootstrap, BootstrapEvent};
use ytdlg::completion::CompletionSignal;
use ytdlg::dispatch::{download_args, manifest_query_args, Dispatcher, SubmitError, VideoDownloadInfo};

const ABC_SHA256: &str = "ba7816bf8f01cfea414140de5dae2223b00361a396177a9cb410ff61f20015ad";

fn ready_boot() -> Bootstrap {
    let mut boot = Bootstrap::new();
    boot.step(BootstrapEvent::CachePresent);
    boot.verify_file(b"abc", ABC_SHA256);
    assert!(boot.is_ready());
    boot
}

fn released(capacity: usize) -> Dispatcher {
    let mut d = Dispatcher::new(capacity);
    d.release(&ready_boot());
    d
}

fn job(url: &str, format_id: &str) -> VideoDownloadInfo {
    VideoDownloadInfo {
        url: url.to_string(),
        file_path: None,
        format_id: format_id.to_string(),
    }
}

#[test]
fn download_args_without_destination() {
    let j = VideoDownloadInfo {
        url: "https://x/y".to_string(),
        file_path: None,
        format_id: "22".to_string(),
    };
    assert_eq!(download_args(&j), vec!["-f", "22", "https://x/y"]);
}

#[test]
fn download_args_with_destination() {
    let j = VideoDownloadInfo {
        url: "https://x/y".to_string(),
        file_path: Some("/tmp/out.mp4".to_string()),
        format_id: "137".to_string(),
    };
    assert_eq!(
        download_args(&j),
        vec!["-f", "137", "https://x/y", "-o", "/tmp/out.mp4"]
    );
}

#[test]
fn manifest_query_arguments() {
    assert_eq!(
        manifest_query_args("https://x/y"),
        vec!["https://x/y", "--dump-json"]
    );
}

#[test]
fn jobs_run_in_submission_order_one_at_a_time() {
    let mut d = released(10);
    for name in ["J1", "J2", "J3"] {
        assert!(d.submit(job(name, "22")).is_ok());
    }
    assert_eq!(d.pending_len(), 3);

    let first = d.next_job().unwrap();
    assert_eq!(first.url, "J1");
    assert!(d.is_running());
    // The worker gets nothing while its job still runs.
    assert!(d.next_job().is_none());
    assert!(d.finish_job());

    let second = d.next_job().unwrap();
    assert_eq!(second.url, "J2");
    assert!(d.next_job().is_none());
    assert!(d.finish_job());

    let third = d.next_job().unwrap();
    assert_eq!(third.url, "J3");
    assert!(d.finish_job());
    assert!(!d.is_running());
    assert!(d.next_job().is_none());
    assert!(!d.finish_job());
}

#[test]
fn full_queue_hands_the_job_back() {
    let mut d = released(2);
    assert!(d.submit(job("a", "1")).is_ok());
    assert!(d.submit(job("b", "1")).is_ok());
    match d.submit(job("c", "1")) {
        Err(SubmitError::Full(j)) => {
            assert_eq!(j.url, "c");
            // Once the worker takes a job there is room again.
            assert_eq!(d.next_job().unwrap().url, "a");
            assert!(d.submit(j).is_ok());
        }
        other => panic!("expected a full queue, got {:?}", other),
    }
    assert_eq!(d.pending_len(), 2);
    assert!(d.finish_job());
    assert_eq!(d.next_job().unwrap().url, "b");
    assert!(d.finish_job());
    assert_eq!(d.next_job().unwrap().url, "c");
}

#[test]
fn full_queue_keeps_waiting_jobs_in_order() {
    let mut d = released(3);
    for name in ["a", "b", "c"] {
        assert!(d.submit(job(name, "1")).is_ok());
    }
    for name in ["d", "e"] {
        assert!(matches!(d.submit(job(name, "1")), Err(SubmitError::Full(_))));
    }
    assert_eq!(d.pending_len(), 3);
    assert_eq!(d.capacity_limit(), 3);
    let mut order: Vec<String> = Vec::new();
    while let Some(j) = d.next_job() {
        order.push(j.url);
        d.finish_job();
    }
    assert_eq!(order, vec!["a", "b", "c"]);
}

#[test]
fn closed_dispatcher_refuses_jobs() {
    let mut d = released(4);
    d.close();
    assert!(d.is_closed());
    match d.submit(job("a", "1")) {
        Err(SubmitError::Closed(j)) => assert_eq!(j.url, "a"),
        other => panic!("expected a closed dispatcher, got {:?}", other),
    }
    assert_eq!(d.pending_len(), 0);
}

#[test]
fn zero_capacity_accepts_nothing() {
    let mut d = released(0);
    assert!(matches!(d.submit(job("a", "1")), Err(SubmitError::Full(_))));
}

#[test]
fn each_finished_job_flips_the_signal() {
    let mut d = released(4);
    let start = d.completion().current();
    assert!(d.submit(job("a", "1")).is_ok());
    assert!(d.submit(job("b", "1")).is_ok());
    let mut waiter = d.subscribe();
    d.next_job();
    assert!(!waiter.has_changed(d.completion()));
    d.finish_job();
    assert_eq!(d.completion().current(), !start);
    assert!(waiter.poll_changed(d.completion()));
    d.next_job();
    d.finish_job();
    assert_eq!(d.completion().current(), start);
    // Back to the same boolean, still a change.
    assert!(waiter.poll_changed(d.completion()));
}

#[test]
fn second_wait_needs_a_new_completion() {
    let mut signal = CompletionSignal::new();
    let mut waiter = signal.subscribe();
    assert!(!waiter.poll_changed(&signal));
    signal.notify_completed();
    assert!(waiter.poll_changed(&signal));
    assert!(!waiter.poll_changed(&signal));
    assert!(!waiter.poll_changed(&signal));
    signal.notify_completed();
    assert!(waiter.poll_changed(&signal));
}

#[test]
fn waiters_resolve_independently() {
    let mut signal = CompletionSignal::new();
    let mut a = signal.subscribe();
    let mut b = signal.subscribe();
    signal.notify_completed();
    assert!(a.poll_changed(&signal));
    assert!(b.has_changed(&signal));
    assert!(!a.poll_changed(&signal));
    assert!(b.poll_changed(&signal));
    assert!(!b.poll_changed(&signal));
    let c = signal.subscribe();
    assert!(!c.has_changed(&signal));
}

#[test]
fn two_completions_between_looks_count_as_one_change() {
    let mut signal = CompletionSignal::new();
    let mut waiter = signal.subscribe();
    signal.notify_completed();
    signal.notify_completed();
    assert!(!signal.current());
    assert!(waiter.poll_changed(&signal));
    assert!(!waiter.poll_changed(&signal));
}

#[test]
fn no_job_runs_before_start_up_is_ready() {
    let mut d = Dispatcher::new(4);
    assert!(d.submit(job("a", "1")).is_ok());
    assert!(!d.is_released());
    assert!(d.next_job().is_none());

    let mut boot = Bootstrap::new();
    boot.step(BootstrapEvent::CacheAbsent);
    d.release(&boot);
    assert!(!d.is_released());
    assert!(d.next_job().is_none());

    boot.step(BootstrapEvent::FetchCompleted);
    boot.verify_file(b"abc", ABC_SHA256);
    d.release(&boot);
    assert!(d.is_released());
    assert_eq!(d.next_job().unwrap().url, "a");
}

#[test]
fn failed_start_up_never_releases_jobs() {
    let mut d = Dispatcher::new(4);
    assert!(d.submit(job("a", "1")).is_ok());
    let mut boot = Bootstrap::new();
    boot.step(BootstrapEvent::CachePresent);
    boot.verify_file(b"not the tool", ABC_SHA256);
    d.release(&boot);
    assert!(!d.is_released());
    assert!(d.next_job().is_none());
    assert_eq!(d.pending_len(), 1);
}
