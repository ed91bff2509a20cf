//! Tests that drive the pull and push machines through whole walks.

use lfs::errors::RemoteError;
use lfs::pointer::Pointer;
use lfs::protocol::BatchObject;
use lfs::protocol::BatchResponse;
use lfs::protocol::ObjectAction;
use lfs::protocol::ObjectActions;
use lfs::protocol::ObjectErrorInfo;
use lfs::pull::PullCommand;
use lfs::pull::PullEvent;
use lfs::pull::PullMachine;
use lfs::push::PushCommand;
use lfs::push::PushEvent;
use lfs::push::PushMachine;

fn action(href: &str) -> ObjectAction {
    ObjectAction { href: href.as_bytes().to_vec(), expires_in: None, headers: Vec::new() }
}

fn download_object(p: &Pointer, href: &str) -> BatchObject {
    BatchObject {
        oid: p.hex(),
        size: p.size(),
        error: None,
        actions: Some(ObjectActions {
            download: Some(action(href)),
            upload: None,
            verify: None,
        }),
    }
}

fn bare_object(p: &Pointer) -> BatchObject {
    BatchObject { oid: p.hex(), size: p.size(), error: None, actions: None }
}

#[test]
fn pull_empty_response_is_done() {
    let mut m = PullMachine::new(Vec::new(), BatchResponse { objects: Vec::new() });
    let cmd = m.step(PullEvent::Proceed);
    assert!(matches!(cmd, PullCommand::Done));
}

#[test]
fn pull_object_error_aborts_before_later_objects() {
    let p0 = Pointer::new(vec![0x10; 32], 4);
    let p1 = Pointer::new(vec![0x20; 32], 4);
    let objects = vec![
        BatchObject {
            oid: p0.hex(),
            size: 4,
            error: Some(ObjectErrorInfo { code: 404, message: b"missing".to_vec() }),
            actions: Some(ObjectActions {
                download: Some(action("https://x/0")),
                upload: None,
                verify: None,
            }),
        },
        download_object(&p1, "https://x/1"),
    ];
    let mut m = PullMachine::new(vec![p0, p1], BatchResponse { objects });
    let cmd = m.step(PullEvent::Proceed);
    match cmd {
        PullCommand::Fail { error, discard } => {
            assert!(discard.is_none());
            match error {
                RemoteError::ObjectError { code, message } => {
                    assert_eq!(code, 404);
                    assert_eq!(message, b"missing".to_vec());
                }
                other => panic!("expected an object error, got {:?}", other),
            }
        }
        other => panic!("expected the pull to fail, got {:?}", other),
    }
}

#[test]
fn pull_skips_object_without_actions() {
    let p0 = Pointer::new(vec![0x10; 32], 4);
    let p1 = Pointer::new(vec![0x20; 32], 4);
    let objects = vec![bare_object(&p0), download_object(&p1, "https://x/1")];
    let expected_path = p1.path();
    let mut m = PullMachine::new(vec![p0, p1], BatchResponse { objects });
    let cmd = m.step(PullEvent::Proceed);
    match cmd {
        PullCommand::MakeDir { path } => assert_eq!(path, expected_path),
        other => panic!("expected the walk to reach the second object, got {:?}", other),
    }
}

#[test]
fn pull_all_objects_skippable_is_done() {
    let p0 = Pointer::new(vec![0x10; 32], 4);
    let objects = vec![bare_object(&p0)];
    let mut m = PullMachine::new(vec![p0], BatchResponse { objects });
    let cmd = m.step(PullEvent::Proceed);
    assert!(matches!(cmd, PullCommand::Done));
}

#[test]
fn pull_actions_without_download_is_empty_response() {
    let p0 = Pointer::new(vec![0x10; 32], 4);
    let objects = vec![BatchObject {
        oid: p0.hex(),
        size: 4,
        error: None,
        actions: Some(ObjectActions {
            download: None,
            upload: Some(action("https://x/up")),
            verify: None,
        }),
    }];
    let mut m = PullMachine::new(vec![p0], BatchResponse { objects });
    let cmd = m.step(PullEvent::Proceed);
    match cmd {
        PullCommand::Fail { error, .. } => assert!(matches!(error, RemoteError::EmptyResponse)),
        other => panic!("expected an empty-response failure, got {:?}", other),
    }
}

#[test]
fn pull_unknown_identifier_is_not_found() {
    let p0 = Pointer::new(vec![0x10; 32], 4);
    let stranger = Pointer::new(vec![0x77; 32], 4);
    let objects = vec![download_object(&stranger, "https://x/d")];
    let mut m = PullMachine::new(vec![p0], BatchResponse { objects });
    let cmd = m.step(PullEvent::Proceed);
    match cmd {
        PullCommand::Fail { error, .. } => assert!(matches!(error, RemoteError::NotFound)),
        other => panic!("expected a not-found failure, got {:?}", other),
    }
}

#[test]
fn pull_single_object_happy_walk() {
    let p0 = Pointer::new(vec![0x10; 32], 4);
    let expected_path = p0.path();
    let objects = vec![download_object(&p0, "https://x/d")];
    let mut m = PullMachine::new(vec![p0], BatchResponse { objects });
    let cmd = m.step(PullEvent::Proceed);
    match cmd {
        PullCommand::MakeDir { ref path } => assert_eq!(*path, expected_path),
        ref other => panic!("expected a directory command, got {:?}", other),
    }
    let cmd = m.step(PullEvent::DirOk);
    match cmd {
        PullCommand::Download { ref path, ref action, delay_ms } => {
            assert_eq!(*path, expected_path);
            assert_eq!(action.href, b"https://x/d".to_vec());
            assert_eq!(delay_ms, 0);
        }
        ref other => panic!("expected a download command, got {:?}", other),
    }
    let got = Pointer::new(vec![0x10; 32], 4);
    let cmd = m.step(PullEvent::Downloaded { got });
    assert!(matches!(cmd, PullCommand::Done));
}

#[test]
fn pull_checksum_mismatch_discards_and_stops() {
    let p0 = Pointer::new(vec![0x10; 32], 4);
    let expected_path = p0.path();
    let objects = vec![download_object(&p0, "https://x/d")];
    let mut m = PullMachine::new(vec![p0], BatchResponse { objects });
    m.step(PullEvent::Proceed);
    m.step(PullEvent::DirOk);
    let wrong = Pointer::new(vec![0x11; 32], 4);
    let cmd = m.step(PullEvent::Downloaded { got: wrong });
    match cmd {
        PullCommand::Fail { error, discard } => {
            assert!(matches!(error, RemoteError::ChecksumMismatch));
            assert_eq!(discard, Some(expected_path));
        }
        other => panic!("expected a checksum failure, got {:?}", other),
    }
}

#[test]
fn pull_succeeds_on_third_attempt() {
    let p0 = Pointer::new(vec![0x10; 32], 4);
    let objects = vec![download_object(&p0, "https://x/d")];
    let mut m = PullMachine::new(vec![p0], BatchResponse { objects });
    m.step(PullEvent::Proceed);
    let cmd = m.step(PullEvent::DirOk);
    assert!(matches!(cmd, PullCommand::Download { delay_ms: 0, .. }));
    let cmd = m.step(PullEvent::DownloadFailed {
        error: RemoteError::Download(b"reset".to_vec()),
    });
    assert!(matches!(cmd, PullCommand::Download { delay_ms: 500, .. }));
    let cmd = m.step(PullEvent::DownloadFailed {
        error: RemoteError::Download(b"reset".to_vec()),
    });
    assert!(matches!(cmd, PullCommand::Download { delay_ms: 500, .. }));
    let got = Pointer::new(vec![0x10; 32], 4);
    let cmd = m.step(PullEvent::Downloaded { got });
    assert!(matches!(cmd, PullCommand::Done));
}

#[test]
fn pull_three_failures_exhaust_and_fail_hard() {
    let p0 = Pointer::new(vec![0x10; 32], 4);
    let expected_path = p0.path();
    let objects = vec![download_object(&p0, "https://x/d")];
    let mut m = PullMachine::new(vec![p0], BatchResponse { objects });
    m.step(PullEvent::Proceed);
    m.step(PullEvent::DirOk);
    m.step(PullEvent::DownloadFailed { error: RemoteError::Download(b"one".to_vec()) });
    m.step(PullEvent::DownloadFailed { error: RemoteError::Download(b"two".to_vec()) });
    let cmd = m.step(PullEvent::DownloadFailed {
        error: RemoteError::Download(b"three".to_vec()),
    });
    match cmd {
        PullCommand::Fail { error, discard } => {
            match error {
                RemoteError::Download(message) => assert_eq!(message, b"three".to_vec()),
                other => panic!("expected the last download error, got {:?}", other),
            }
            assert_eq!(discard, Some(expected_path));
        }
        other => panic!("expected a hard failure after exhaustion, got {:?}", other),
    }
}

#[test]
fn pull_dir_failure_aborts_with_io() {
    let p0 = Pointer::new(vec![0x10; 32], 4);
    let objects = vec![download_object(&p0, "https://x/d")];
    let mut m = PullMachine::new(vec![p0], BatchResponse { objects });
    m.step(PullEvent::Proceed);
    let cmd = m.step(PullEvent::DirFailed { message: b"disk full".to_vec() });
    match cmd {
        PullCommand::Fail { error, discard } => {
            assert!(discard.is_none());
            match error {
                RemoteError::Io(message) => assert_eq!(message, b"disk full".to_vec()),
                other => panic!("expected an I/O failure, got {:?}", other),
            }
        }
        other => panic!("expected the pull to fail, got {:?}", other),
    }
}

fn upload_object(p: &Pointer, up: Option<&str>, verify: Option<&str>) -> BatchObject {
    BatchObject {
        oid: p.hex(),
        size: p.size(),
        error: None,
        actions: Some(ObjectActions {
            download: None,
            upload: up.map(action),
            verify: verify.map(action),
        }),
    }
}

#[test]
fn push_empty_response_is_done() {
    let mut m = PushMachine::new(Vec::new(), BatchResponse { objects: Vec::new() });
    let cmd = m.step(PushEvent::Proceed);
    assert!(matches!(cmd, PushCommand::Done));
}

#[test]
fn push_full_walk_with_verify() {
    let p0 = Pointer::new(vec![0x42; 32], 8);
    let expected_path = p0.path();
    let expected_hex = p0.hex();
    let objects = vec![upload_object(&p0, Some("https://x/up"), Some("https://x/v"))];
    let mut m = PushMachine::new(vec![p0], BatchResponse { objects });
    let cmd = m.step(PushEvent::Proceed);
    match cmd {
        PushCommand::ReadLocal { ref path } => assert_eq!(*path, expected_path),
        ref other => panic!("expected a local read command, got {:?}", other),
    }
    let cmd = m.step(PushEvent::ReadOk);
    match cmd {
        PushCommand::Upload { ref action, delay_ms } => {
            assert_eq!(action.href, b"https://x/up".to_vec());
            assert_eq!(delay_ms, 0);
        }
        ref other => panic!("expected an upload command, got {:?}", other),
    }
    let cmd = m.step(PushEvent::Uploaded);
    match cmd {
        PushCommand::Verify { ref action, ref pointer } => {
            assert_eq!(action.href, b"https://x/v".to_vec());
            assert_eq!(pointer.hex(), expected_hex);
        }
        ref other => panic!("expected a verify command, got {:?}", other),
    }
    let cmd = m.step(PushEvent::Verified);
    assert!(matches!(cmd, PushCommand::Done));
}

#[test]
fn push_verify_without_upload_still_verifies() {
    let p0 = Pointer::new(vec![0x42; 32], 8);
    let expected_hex = p0.hex();
    let objects = vec![upload_object(&p0, None, Some("https://x/v"))];
    let mut m = PushMachine::new(vec![p0], BatchResponse { objects });
    let cmd = m.step(PushEvent::Proceed);
    match cmd {
        PushCommand::Verify { action, pointer } => {
            assert_eq!(action.href, b"https://x/v".to_vec());
            assert_eq!(pointer.hex(), expected_hex);
        }
        other => panic!("expected an immediate verify command, got {:?}", other),
    }
    let cmd = m.step(PushEvent::Verified);
    assert!(matches!(cmd, PushCommand::Done));
}

#[test]
fn push_upload_without_verify_moves_on() {
    let p0 = Pointer::new(vec![0x42; 32], 8);
    let objects = vec![upload_object(&p0, Some("https://x/up"), None)];
    let mut m = PushMachine::new(vec![p0], BatchResponse { objects });
    m.step(PushEvent::Proceed);
    m.step(PushEvent::ReadOk);
    let cmd = m.step(PushEvent::Uploaded);
    assert!(matches!(cmd, PushCommand::Done));
}

#[test]
fn push_object_error_aborts() {
    let p0 = Pointer::new(vec![0x42; 32], 8);
    let objects = vec![BatchObject {
        oid: p0.hex(),
        size: 8,
        error: Some(ObjectErrorInfo { code: 403, message: b"forbidden".to_vec() }),
        actions: None,
    }];
    let mut m = PushMachine::new(vec![p0], BatchResponse { objects });
    let cmd = m.step(PushEvent::Proceed);
    match cmd {
        PushCommand::Fail { error } => match error {
            RemoteError::ObjectError { code, message } => {
                assert_eq!(code, 403);
                assert_eq!(message, b"forbidden".to_vec());
            }
            other => panic!("expected an object error, got {:?}", other),
        },
        other => panic!("expected the push to fail, got {:?}", other),
    }
}

#[test]
fn push_unknown_identifier_is_not_found() {
    let p0 = Pointer::new(vec![0x42; 32], 8);
    let stranger = Pointer::new(vec![0x43; 32], 8);
    let objects = vec![upload_object(&stranger, Some("https://x/up"), None)];
    let mut m = PushMachine::new(vec![p0], BatchResponse { objects });
    let cmd = m.step(PushEvent::Proceed);
    match cmd {
        PushCommand::Fail { error } => assert!(matches!(error, RemoteError::NotFound)),
        other => panic!("expected a not-found failure, got {:?}", other),
    }
}

#[test]
fn push_succeeds_on_third_upload_attempt() {
    let p0 = Pointer::new(vec![0x42; 32], 8);
    let objects = vec![upload_object(&p0, Some("https://x/up"), None)];
    let mut m = PushMachine::new(vec![p0], BatchResponse { objects });
    m.step(PushEvent::Proceed);
    m.step(PushEvent::ReadOk);
    let cmd = m.step(PushEvent::UploadFailed {
        error: RemoteError::Upload(b"reset".to_vec()),
    });
    assert!(matches!(cmd, PushCommand::Upload { delay_ms: 500, .. }));
    let cmd = m.step(PushEvent::UploadFailed {
        error: RemoteError::Upload(b"reset".to_vec()),
    });
    assert!(matches!(cmd, PushCommand::Upload { delay_ms: 500, .. }));
    let cmd = m.step(PushEvent::Uploaded);
    assert!(matches!(cmd, PushCommand::Done));
}

#[test]
fn push_three_upload_failures_fail_hard() {
    let p0 = Pointer::new(vec![0x42; 32], 8);
    let objects = vec![upload_object(&p0, Some("https://x/up"), None)];
    let mut m = PushMachine::new(vec![p0], BatchResponse { objects });
    m.step(PushEvent::Proceed);
    m.step(PushEvent::ReadOk);
    m.step(PushEvent::UploadFailed { error: RemoteError::Upload(b"one".to_vec()) });
    m.step(PushEvent::UploadFailed { error: RemoteError::Upload(b"two".to_vec()) });
    let cmd = m.step(PushEvent::UploadFailed { error: RemoteError::Upload(b"three".to_vec()) });
    match cmd {
        PushCommand::Fail { error } => match error {
            RemoteError::Upload(message) => assert_eq!(message, b"three".to_vec()),
            other => panic!("expected the last upload error, got {:?}", other),
        },
        other => panic!("expected a hard failure after exhaustion, got {:?}", other),
    }
}

#[test]
fn push_verify_failure_is_binding() {
    let p0 = Pointer::new(vec![0x42; 32], 8);
    let objects = vec![upload_object(&p0, Some("https://x/up"), Some("https://x/v"))];
    let mut m = PushMachine::new(vec![p0], BatchResponse { objects });
    m.step(PushEvent::Proceed);
    m.step(PushEvent::ReadOk);
    m.step(PushEvent::Uploaded);
    let cmd = m.step(PushEvent::VerifyFailed {
        error: RemoteError::Verify(b"rejected".to_vec()),
    });
    match cmd {
        PushCommand::Fail { error } => match error {
            RemoteError::Verify(message) => assert_eq!(message, b"rejected".to_vec()),
            other => panic!("expected the verify error, got {:?}", other),
        },
        other => panic!("expected the push to fail, got {:?}", other),
    }
}

#[test]
fn push_read_failure_aborts_with_io() {
    let p0 = Pointer::new(vec![0x42; 32], 8);
    let objects = vec![upload_object(&p0, Some("https://x/up"), None)];
    let mut m = PushMachine::new(vec![p0], BatchResponse { objects });
    m.step(PushEvent::Proceed);
    let cmd = m.step(PushEvent::ReadFailed { message: b"no such file".to_vec() });
    match cmd {
        PushCommand::Fail { error } => match error {
            RemoteError::Io(message) => assert_eq!(message, b"no such file".to_vec()),
            other => panic!("expected an I/O failure, got {:?}", other),
        },
        other => panic!("expected the push to fail, got {:?}", other),
    }
}

#[test]
fn push_skips_object_without_actions() {
    let p0 = Pointer::new(vec![0x41; 32], 8);
    let p1 = Pointer::new(vec![0x42; 32], 8);
    let expected_path = p1.path();
    let objects = vec![
        BatchObject { oid: p0.hex(), size: 8, error: None, actions: None },
        upload_object(&p1, Some("https://x/up"), None),
    ];
    let mut m = PushMachine::new(vec![p0, p1], BatchResponse { objects });
    let cmd = m.step(PushEvent::Proceed);
    match cmd {
        PushCommand::ReadLocal { path } => assert_eq!(path, expected_path),
        other => panic!("expected the walk to reach the second object, got {:?}", other),
    }
}
