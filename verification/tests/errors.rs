use exile_rs::errors::ErrorKind;
use exile_rs::pob::error::PobError;

#[test]
fn test_error_conversion_cancelled() {
    let pob_error = PobError::Cancelled;
    let error_kind: ErrorKind = pob_error.into();

    match error_kind {
        ErrorKind::Cancelled => {}
        _ => panic!("Expected Cancelled"),
    }
}

#[test]
fn test_error_conversion_process_running() {
    let pob_error = PobError::ProcessRunning;
    let error_kind: ErrorKind = pob_error.into();

    match error_kind {
        ErrorKind::Conflict(msg) => {
            assert!(msg.contains("PoB가 실행 중입니다"));
        }
        _ => panic!("Expected Conflict"),
    }
}

#[test]
fn test_error_conversion_io() {
    let io_error = std::io::Error::new(std::io::ErrorKind::NotFound, "file not found");
    let pob_error = PobError::Io(io_error.to_string());
    let error_kind: ErrorKind = pob_error.into();

    match error_kind {
        ErrorKind::Io(msg) => {
            assert!(msg.contains("file not found"));
        }
        _ => panic!("Expected Io"),
    }
}

#[test]
fn test_error_conversion_not_found_from_drive() {
    let pob_error = PobError::NotFoundFromDrive("folder_id_123".to_string());
    let error_kind: ErrorKind = pob_error.into();

    match error_kind {
        ErrorKind::NotFound(msg) => {
            assert_eq!(msg, "folder_id_123");
        }
        _ => panic!("Expected NotFound"),
    }
}

#[test]
fn test_error_conversion_download_failed() {
    let pob_error = PobError::DownloadFailed("connection timeout".to_string());
    let error_kind: ErrorKind = pob_error.into();

    match error_kind {
        ErrorKind::Domain(msg) => {
            assert!(msg.contains("다운로드 실패"));
            assert!(msg.contains("connection timeout"));
        }
        _ => panic!("Expected Domain"),
    }
}

#[test]
fn test_error_conversion_version_parse_error() {
    let pob_error = PobError::VersionParseError("invalid.zip".to_string());
    let error_kind: ErrorKind = pob_error.into();

    match error_kind {
        ErrorKind::Domain(msg) => {
            assert!(msg.contains("버전 파싱 실패"));
        }
        _ => panic!("Expected Domain"),
    }
}

#[test]
fn test_error_display() {
    let error = PobError::Cancelled;
    assert_eq!(error.to_string(), "설치가 취소되었습니다");

    let error = PobError::ProcessRunning;
    assert_eq!(error.to_string(), "PoB가 실행 중입니다");

    let error = PobError::VersionParseError("test.zip".to_string());
    assert_eq!(error.to_string(), "버전 파싱 실패: test.zip");
}

#[test]
fn every_error_has_its_text() {
    let cases = vec![
        (
            PobError::NotFoundFromDrive("x".to_string()),
            "Google Drive에서 파일을 찾을 수 없습니다: x",
        ),
        (PobError::DownloadFailed("x".to_string()), "다운로드 실패: x"),
        (PobError::ExtractFailed("x".to_string()), "압축 해제 실패: x"),
        (PobError::Network("x".to_string()), "네트워크 에러: x"),
        (PobError::Io("x".to_string()), "I/O 에러: x"),
        (PobError::Json("x".to_string()), "JSON 파싱 에러: x"),
        (PobError::Zip("x".to_string()), "ZIP 에러: x"),
        (PobError::Tauri("x".to_string()), "Tauri 에러: x"),
        (PobError::Join("x".to_string()), "작업 조인 에러: x"),
    ];
    for (error, expected) in cases {
        assert_eq!(error.to_string(), expected);
        assert_eq!(error.clone().to_string(), expected);
    }
}

#[test]
fn network_errors_keep_their_text() {
    let kind: ErrorKind = PobError::Network("timed out".to_string()).into();
    match kind {
        ErrorKind::Network(msg) => assert_eq!(msg, "timed out"),
        _ => panic!("Expected Network"),
    }
}

#[test]
fn other_errors_become_domain_errors_with_their_text() {
    let cases = vec![
        (PobError::ExtractFailed("bad".to_string()), "압축 해제 실패: bad"),
        (PobError::Json("bad".to_string()), "JSON 파싱 에러: bad"),
        (PobError::Zip("bad".to_string()), "ZIP 에러: bad"),
        (PobError::Tauri("bad".to_string()), "Tauri 에러: bad"),
        (PobError::Join("bad".to_string()), "작업 조인 에러: bad"),
    ];
    for (error, expected) in cases {
        match ErrorKind::from(error) {
            ErrorKind::Domain(msg) => assert_eq!(msg, expected),
            _ => panic!("Expected Domain"),
        }
    }
}

#[test]
fn a_second_operation_is_a_conflict() {
    match ErrorKind::operation_in_progress() {
        ErrorKind::Conflict(msg) => assert_eq!(msg, "이미 다른 설치 작업이 진행 중입니다."),
        _ => panic!("Expected Conflict"),
    }
}

#[test]
fn test_error_from_io_error() {
    let io_error = std::io::Error::new(std::io::ErrorKind::PermissionDenied, "access denied");
    let error_kind: ErrorKind = io_error.into();

    match error_kind {
        ErrorKind::Io(msg) => {
            assert!(msg.contains("access denied"));
        }
        _ => panic!("Expected Io"),
    }
}
