use solar_tracker::boot::{
    boot_verdict, wifi_state, BootDiagnostic, BootVerdict, DiagnosticAction, DiagnosticEvent,
    WifiState,
};
use solar_tracker::clock::{after_sunrise, after_sunset, clock_reading, get_hour, Hours};
use solar_tracker::config::{Config, DeviceConfig, LocationConfig, WifiConfig};
use solar_tracker::ota::{
    checksum_matches, decide_update, fetch_step, is_success_status, FetchAction, FetchOutcome,
    OtaError, OtaUpdater, RemoteMetadata, UpdateDecision, UpdateRequest,
};
use solar_tracker::tracking::ClockReading;

const DIGEST: &str = "9f86d081884c7d659a2feaa0c55ad015a3bf4f1b2b0b822cd15d6c15b0f00a08";

fn metadata(version: &str) -> RemoteMetadata {
    RemoteMetadata {
        version: Some(version.to_string()),
        size: Some(1_048_576),
        download_url: Some("  https://firmware.example/fw.bin \n".to_string()),
        sha256: Some(format!(" {}\n", DIGEST)),
    }
}

fn fault(meta: &RemoteMetadata) -> Option<OtaError> {
    let updater = OtaUpdater::from_version_text("1.0.0").unwrap();
    match updater.run_version_compare(meta) {
        Ok(_) => None,
        Err(e) => Some(e),
    }
}

#[test]
fn newer_version_is_an_update_with_trimmed_fields() {
    let updater = OtaUpdater::new_ota(semver::Version::new(1, 0, 0));
    match updater.run_version_compare(&metadata(" 1.0.1 ")) {
        Ok(UpdateDecision::Update(request)) => {
            assert_eq!(request.download_url, "https://firmware.example/fw.bin");
            assert_eq!(request.sha256, DIGEST);
            assert_eq!(request.size, 1_048_576);
        }
        _ => panic!("an update was expected"),
    }
}

#[test]
fn same_or_older_version_is_up_to_date() {
    let updater = OtaUpdater::from_version_text("1.2.0").unwrap();
    for version in ["1.2.0", "1.1.9", "0.9.0", "1.2.0-rc.1"] {
        assert!(matches!(
            updater.run_version_compare(&metadata(version)),
            Ok(UpdateDecision::UpToDate)
        ));
    }
    for version in ["1.2.1", "1.10.0", "2.0.0-alpha"] {
        assert!(matches!(
            updater.run_version_compare(&metadata(version)),
            Ok(UpdateDecision::Update(_))
        ));
    }
}

#[test]
fn version_text_must_be_a_semantic_version() {
    assert!(OtaUpdater::from_version_text("1.0.0").is_some());
    assert!(OtaUpdater::from_version_text("1.0").is_none());
    assert!(OtaUpdater::from_version_text("").is_none());
    assert!(OtaUpdater::from_version_text(" 1.0.0").is_none());
}

#[test]
fn each_fault_of_the_metadata_is_reported() {
    let mut meta = metadata("1.0.1");
    meta.version = None;
    assert_eq!(fault(&meta), Some(OtaError::MissingVersion));
    assert_eq!(fault(&metadata("one.two")), Some(OtaError::InvalidVersion));
    let mut meta = metadata("1.0.1");
    meta.size = None;
    assert_eq!(fault(&meta), Some(OtaError::MissingSize));
    meta.size = Some(0);
    assert_eq!(fault(&meta), Some(OtaError::ZeroSize));
    let mut meta = metadata("1.0.1");
    meta.download_url = None;
    assert_eq!(fault(&meta), Some(OtaError::MissingUrl));
    meta.download_url = Some(" \t ".to_string());
    assert_eq!(fault(&meta), Some(OtaError::EmptyUrl));
    let mut meta = metadata("1.0.1");
    meta.sha256 = None;
    assert_eq!(fault(&meta), Some(OtaError::MissingSha256));
    meta.sha256 = Some(DIGEST[..62].to_string());
    assert_eq!(fault(&meta), Some(OtaError::Sha256Length));
    meta.sha256 = Some(format!("{}zz", &DIGEST[..62]));
    assert_eq!(fault(&meta), Some(OtaError::Sha256NotHex));
    assert_eq!(fault(&metadata("1.0.1")), None);
}

#[test]
fn first_fault_wins() {
    let meta = RemoteMetadata {
        version: Some("bad".to_string()),
        size: Some(0),
        download_url: None,
        sha256: None,
    };
    assert_eq!(fault(&meta), Some(OtaError::InvalidVersion));
    let meta = RemoteMetadata {
        version: Some("1.0.0".to_string()),
        size: Some(0),
        download_url: None,
        sha256: None,
    };
    assert_eq!(fault(&meta), Some(OtaError::ZeroSize));
}

#[test]
fn decide_update_follows_the_comparison() {
    let request = || UpdateRequest {
        download_url: "u".to_string(),
        sha256: "s".to_string(),
        size: 1,
    };
    assert!(matches!(decide_update(false, request()), UpdateDecision::UpToDate));
    match decide_update(true, request()) {
        UpdateDecision::Update(r) => {
            assert_eq!(r.download_url, "u");
            assert_eq!(r.sha256, "s");
            assert_eq!(r.size, 1);
        }
        UpdateDecision::UpToDate => panic!("an update was expected"),
    }
}

#[test]
fn checksum_is_compared_as_bytes() {
    assert!(checksum_matches(&[0xde, 0xad, 0xbe, 0xef], "deadbeef"));
    assert!(checksum_matches(&[0xde, 0xad, 0xbe, 0xef], "DEADbeEF"));
    assert!(checksum_matches(&[0x00, 0x0f, 0xf0], "000ff0"));
    assert!(checksum_matches(&[], ""));
    assert!(!checksum_matches(&[0xde, 0xad, 0xbe, 0xee], "deadbeef"));
    assert!(!checksum_matches(&[0xde, 0xad, 0xbe], "deadbeef"));
    assert!(!checksum_matches(&[0xde, 0xad], "dea"));
    assert!(!checksum_matches(&[0xde, 0xad], "dexd"));
    assert!(!checksum_matches(b"de", "de"));
}

#[test]
fn fetch_is_tried_three_times() {
    assert!(is_success_status(200));
    assert!(is_success_status(299));
    assert!(!is_success_status(199));
    assert!(!is_success_status(300));
    let retry = FetchAction::Retry { delay_ms: 2000 };
    assert_eq!(fetch_step(1, FetchOutcome::RequestFailed), retry);
    assert_eq!(fetch_step(2, FetchOutcome::BadStatus(503)), retry);
    assert_eq!(fetch_step(2, FetchOutcome::ReadFailed), retry);
    assert_eq!(fetch_step(3, FetchOutcome::RequestFailed), FetchAction::Fail);
    assert_eq!(fetch_step(3, FetchOutcome::BadStatus(404)), FetchAction::Fail);
    assert_eq!(fetch_step(1, FetchOutcome::Body { well_formed: true }), FetchAction::Accept);
    assert_eq!(fetch_step(1, FetchOutcome::Body { well_formed: false }), FetchAction::Fail);
}

#[test]
fn wifi_states() {
    assert_eq!(wifi_state(false, false), WifiState::Disconnected);
    assert_eq!(wifi_state(false, true), WifiState::Disconnected);
    assert_eq!(wifi_state(true, false), WifiState::Connecting);
    assert_eq!(wifi_state(true, true), WifiState::Connected);
}

#[test]
fn boot_diagnostic_needs_wifi() {
    assert!(BootDiagnostic::boot_diagnostic(WifiState::Disconnected).is_none());
    assert!(BootDiagnostic::boot_diagnostic(WifiState::Connecting).is_none());
    assert!(BootDiagnostic::boot_diagnostic(WifiState::Connected).is_some());
}

#[test]
fn boot_diagnostic_passes_on_a_publish() {
    let mut d = BootDiagnostic::boot_diagnostic(WifiState::Connected).unwrap();
    let down = DiagnosticEvent::Connection { connected: false };
    assert_eq!(d.next(down), DiagnosticAction::Wait { delay_ms: 3000 });
    assert_eq!(d.next(DiagnosticEvent::Connection { connected: true }), DiagnosticAction::Publish);
    assert_eq!(d.next(DiagnosticEvent::Published { ok: true }), DiagnosticAction::Pass);
}

#[test]
fn boot_diagnostic_fails_after_three_attempts() {
    let mut d = BootDiagnostic::boot_diagnostic(WifiState::Connected).unwrap();
    let down = DiagnosticEvent::Connection { connected: false };
    let mut waited = 0;
    let mut looks = 0;
    loop {
        looks += 1;
        assert!(looks < 100);
        match d.next(down) {
            DiagnosticAction::Wait { delay_ms } => waited += delay_ms,
            DiagnosticAction::Fail => break,
            other => panic!("unexpected {:?}", other),
        }
    }
    // three attempts of twelve seconds each
    assert_eq!(waited, 36_000);
    let mut d = BootDiagnostic::boot_diagnostic(WifiState::Connected).unwrap();
    let failed = DiagnosticEvent::Published { ok: false };
    assert_eq!(d.next(failed), DiagnosticAction::Wait { delay_ms: 1000 });
    assert_eq!(d.next(failed), DiagnosticAction::Wait { delay_ms: 1000 });
    assert_eq!(d.next(failed), DiagnosticAction::Fail);
}

#[test]
fn boot_verdicts() {
    assert_eq!(boot_verdict(0, false, false), BootVerdict::AlreadyValidated);
    assert_eq!(boot_verdict(0, true, true), BootVerdict::AlreadyValidated);
    assert_eq!(boot_verdict(1, true, false), BootVerdict::SkipValidation);
    assert_eq!(boot_verdict(1, false, true), BootVerdict::MarkValid);
    assert_eq!(boot_verdict(1, false, false), BootVerdict::RollBack);
}

#[test]
fn hours_of_the_clock() {
    assert_eq!(get_hour(Hours::AM(9)), 9);
    assert_eq!(get_hour(Hours::H24(17)), 17);
    assert_eq!(get_hour(Hours::PM(1)), 12);
    assert_eq!(get_hour(Hours::PM(12)), 23);
}

#[test]
fn sunrise_and_sunset() {
    assert!(after_sunrise(100, Some(100)));
    assert!(!after_sunrise(99, Some(100)));
    assert!(!after_sunrise(i64::MAX, None));
    assert!(after_sunset(101, Some(100)));
    assert!(!after_sunset(0, None));
    assert_eq!(
        clock_reading(500, Some(100), Some(900)),
        ClockReading { after_sunrise: true, after_sunset: false }
    );
    assert_eq!(
        clock_reading(950, Some(100), Some(900)),
        ClockReading { after_sunrise: true, after_sunset: true }
    );
    assert_eq!(
        clock_reading(950, None, None),
        ClockReading { after_sunrise: false, after_sunset: false }
    );
}

#[test]
fn config_getters() {
    let config = Config {
        device: DeviceConfig { tower_id: 1 },
        wifi: WifiConfig { ssid: "tower-net".to_string(), password: "SECRET-REDACTED".to_string() },
        location: LocationConfig {
            latitude: 32_797_868,
            longitude: -96_835_597,
            altitude: 0,
            timezone_offset_hours: -5,
        },
    };
    assert_eq!(config.get_tower_id(), 1);
    assert_eq!(config.get_wifi_ssid(), "tower-net");
    assert_eq!(config.get_wifi_password(), "SECRET-REDACTED");
    assert_eq!(config.get_latitude(), 32_797_868);
    assert_eq!(config.get_longitude(), -96_835_597);
    assert_eq!(config.get_altitude(), 0);
    assert_eq!(config.get_timezone_offset(), -5);
}
