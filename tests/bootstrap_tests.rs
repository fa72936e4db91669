use ytdlg::bootstrap::{
    begin_download, Bootstrap, BootstrapAction, BootstrapError, BootstrapEvent, BootstrapState,
};
use ytdlg::progress::DownloadStatus;

const ABC_SHA256: &str = "ba7816bf8f01cfea414140de5dae2223b00361a396177a9cb410ff61f20015ad";

#[test]
fn fresh_fetch_of_four_chunks_reaches_ready() {
    let mut status = DownloadStatus::new();
    let mut boot = Bootstrap::new();
    assert_eq!(boot.start(false, &mut status), BootstrapAction::Fetch);
    assert_eq!(boot.current(), BootstrapState::Fetching);

    let mut stream = begin_download(Some(1_000_000), &mut status).unwrap();
    assert_eq!(status.snapshot(), (0, 1_000_000));

    let mut file: Vec<u8> = Vec::new();
    let mut seen: Vec<(u64, u64)> = Vec::new();
    let sizes: [usize; 4] = [300_000, 300_000, 300_000, 100_000];
    for (k, size) in sizes.iter().enumerate() {
        let chunk: Vec<u8> = vec![k as u8; *size];
        file.extend_from_slice(&chunk);
        stream.record_chunk(chunk.len(), &mut status);
        seen.push(status.snapshot());
    }
    assert_eq!(
        seen,
        vec![
            (300_000, 1_000_000),
            (600_000, 1_000_000),
            (900_000, 1_000_000),
            (1_000_000, 1_000_000)
        ]
    );
    assert_eq!(file.len(), 1_000_000);

    assert_eq!(boot.step(BootstrapEvent::FetchCompleted), BootstrapAction::Verify);
    assert!(!boot.is_ready());
    let reference = hex::encode(<sha2::Sha256 as sha2::Digest>::digest(&file));
    assert_eq!(boot.verify_file(&file, &reference), BootstrapAction::Proceed);
    assert_eq!(boot.current(), BootstrapState::Ready);
    assert!(boot.is_ready());
}

#[test]
fn cached_tool_is_verified_without_fetch() {
    let mut status = DownloadStatus::new();
    let mut boot = Bootstrap::new();
    let action = boot.start(true, &mut status);
    assert_eq!(action, BootstrapAction::Verify);
    assert_ne!(action, BootstrapAction::Fetch);
    assert_eq!(status.snapshot().1, 0);
    assert!(!status.is_active());
    assert_eq!(boot.current(), BootstrapState::Verifying);
    // A late fetch event asks for nothing.
    assert_eq!(boot.step(BootstrapEvent::CacheAbsent), BootstrapAction::Ignore);
    assert_eq!(boot.step(BootstrapEvent::FetchCompleted), BootstrapAction::Ignore);
    assert_eq!(boot.verify_file(b"abc", ABC_SHA256), BootstrapAction::Proceed);
    assert!(boot.is_ready());
}

#[test]
fn digest_mismatch_is_fatal() {
    let mut status = DownloadStatus::new();
    let mut boot = Bootstrap::new();
    boot.start(true, &mut status);
    let action = boot.verify_file(b"tampered", ABC_SHA256);
    assert_eq!(action, BootstrapAction::Abort(BootstrapError::IntegrityMismatch));
    assert_eq!(
        boot.current(),
        BootstrapState::Failed(BootstrapError::IntegrityMismatch)
    );
    // Nothing afterwards brings it to ready.
    assert_eq!(boot.step(BootstrapEvent::DigestMatched), BootstrapAction::Ignore);
    assert_eq!(boot.verify_file(b"abc", ABC_SHA256), BootstrapAction::Ignore);
    assert_eq!(boot.step(BootstrapEvent::CachePresent), BootstrapAction::Ignore);
    assert!(!boot.is_ready());
}

#[test]
fn mismatch_of_precomputed_digest() {
    let mut boot = Bootstrap::new();
    boot.step(BootstrapEvent::CachePresent);
    let action = boot.verify_digest(&[0u8; 32], ABC_SHA256);
    assert_eq!(action, BootstrapAction::Abort(BootstrapError::IntegrityMismatch));
    assert!(!boot.is_ready());
}

#[test]
fn match_of_precomputed_digest() {
    let mut boot = Bootstrap::new();
    boot.step(BootstrapEvent::CacheAbsent);
    boot.step(BootstrapEvent::FetchCompleted);
    let digest: Vec<u8> = (0u8..32).collect();
    let reference: String = digest.iter().map(|b| format!("{:02x}", b)).collect();
    assert_eq!(boot.verify_digest(&digest, &reference), BootstrapAction::Proceed);
    assert!(boot.is_ready());
}

#[test]
fn fetch_failure_is_fatal() {
    let mut status = DownloadStatus::new();
    let mut boot = Bootstrap::new();
    boot.start(false, &mut status);
    assert_eq!(
        boot.step(BootstrapEvent::FetchFailed(BootstrapError::Network)),
        BootstrapAction::Abort(BootstrapError::Network)
    );
    assert_eq!(boot.current(), BootstrapState::Failed(BootstrapError::Network));
    assert_eq!(boot.step(BootstrapEvent::FetchCompleted), BootstrapAction::Ignore);
    assert_eq!(boot.current(), BootstrapState::Failed(BootstrapError::Network));
}

#[test]
fn io_failure_is_fatal() {
    let mut boot = Bootstrap::new();
    boot.step(BootstrapEvent::CacheAbsent);
    assert_eq!(
        boot.step(BootstrapEvent::FetchFailed(BootstrapError::Io)),
        BootstrapAction::Abort(BootstrapError::Io)
    );
}

#[test]
fn missing_content_length_fails() {
    let mut status = DownloadStatus::new();
    let r = begin_download(None, &mut status);
    assert!(matches!(r, Err(BootstrapError::LengthUnknown)));
    assert_eq!(status.snapshot(), (0, 1));
}

#[test]
fn events_out_of_order_are_ignored() {
    let mut boot = Bootstrap::new();
    assert_eq!(boot.step(BootstrapEvent::DigestMatched), BootstrapAction::Ignore);
    assert_eq!(boot.step(BootstrapEvent::FetchCompleted), BootstrapAction::Ignore);
    assert_eq!(boot.current(), BootstrapState::NotStarted);
    let mut status = DownloadStatus(5, 9);
    boot.step(BootstrapEvent::CacheAbsent);
    // A second cache check leaves the counters alone.
    assert_eq!(boot.start(true, &mut status), BootstrapAction::Ignore);
    assert_eq!(status.snapshot(), (5, 9));
}

#[test]
fn unreadable_cached_file_is_fatal() {
    let mut status = DownloadStatus::new();
    let mut boot = Bootstrap::new();
    boot.start(true, &mut status);
    assert_eq!(
        boot.step(BootstrapEvent::ReadFailed),
        BootstrapAction::Abort(BootstrapError::Io)
    );
    assert_eq!(boot.current(), BootstrapState::Failed(BootstrapError::Io));
}
