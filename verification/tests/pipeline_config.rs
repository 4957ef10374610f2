use undetected_chromedriver::capabilities::stealth_profile;
use undetected_chromedriver::connector::{SessionConnector, MAX_CONNECT_ATTEMPTS, RETRY_INTERVAL_MS};
use undetected_chromedriver::launcher::{choose_port, launch_command, port_arg, PORT_MAX, PORT_MIN, POSIX_EXEC_MODE};
use undetected_chromedriver::platform::{archive_suffix, archive_url, driver_file_name, exe_suffix, patched_file_name, version_index_url};
use undetected_chromedriver::provision::{entry_is_directory, provision_plan, ProvisionPlan};
use undetected_chromedriver::PipelineError;

#[test]
fn platform_mapping_linux() {
    assert_eq!(archive_suffix("linux"), Ok("linux64"));
}

#[test]
fn platform_mapping_windows() {
    assert_eq!(archive_suffix("windows"), Ok("win32"));
}

#[test]
fn platform_mapping_macos() {
    assert_eq!(archive_suffix("macos"), Ok("mac64"));
}

#[test]
fn platform_mapping_rejects_everything_else() {
    assert_eq!(archive_suffix("freebsd"), Err(PipelineError::UnsupportedPlatform));
    assert_eq!(archive_suffix(""), Err(PipelineError::UnsupportedPlatform));
    assert_eq!(archive_suffix("Linux"), Err(PipelineError::UnsupportedPlatform));
}

#[test]
fn exe_suffix_only_on_windows() {
    assert_eq!(exe_suffix("windows"), ".exe");
    assert_eq!(exe_suffix("linux"), "");
    assert_eq!(exe_suffix("macos"), "");
    assert_eq!(exe_suffix("freebsd"), "");
}

#[test]
fn version_index_endpoint() {
    assert_eq!(
        version_index_url(),
        "https://chromedriver.storage.googleapis.com/LATEST_RELEASE"
    );
}

#[test]
fn archive_url_for_supported_platform() {
    assert_eq!(
        archive_url("114.0.5735.90", "linux").unwrap(),
        "https://chromedriver.storage.googleapis.com/114.0.5735.90/chromedriver_linux64.zip"
    );
    assert_eq!(
        archive_url("113.0", "windows").unwrap(),
        "https://chromedriver.storage.googleapis.com/113.0/chromedriver_win32.zip"
    );
}

#[test]
fn archive_url_rejects_unsupported_platform() {
    assert_eq!(archive_url("114.0", "solaris"), Err(PipelineError::UnsupportedPlatform));
}

#[test]
fn driver_file_names() {
    assert_eq!(driver_file_name(""), "chromedriver");
    assert_eq!(driver_file_name(".exe"), "chromedriver.exe");
    assert_eq!(patched_file_name(""), "chromedriver_PATCHED");
    assert_eq!(patched_file_name(".exe"), "chromedriver_PATCHED.exe");
}

#[test]
fn chosen_port_lies_in_range() {
    for _ in 0..200 {
        let p = choose_port();
        assert!((PORT_MIN..=PORT_MAX).contains(&p));
        assert!((2000..=4999).contains(&p));
    }
}

#[test]
fn port_argument_is_exact() {
    assert_eq!(port_arg(2000), "--port=2000");
    assert_eq!(port_arg(3501), "--port=3501");
    assert_eq!(port_arg(4999), "--port=4999");
}

#[test]
fn launch_command_prefixes_working_directory() {
    assert_eq!(launch_command("chromedriver_PATCHED"), "./chromedriver_PATCHED");
}

#[test]
fn posix_mode_is_rwxr_xr_x() {
    assert_eq!(POSIX_EXEC_MODE, 0o755);
}

#[test]
fn connector_exhausts_after_twenty_failures() {
    let mut c = SessionConnector::new();
    let mut attempts = 0u64;
    while c.should_attempt() {
        attempts += 1;
        let pause = c.record_failure();
        assert_eq!(pause, RETRY_INTERVAL_MS);
        assert_eq!(pause, 250);
    }
    assert_eq!(attempts, 20);
    assert_eq!(attempts, MAX_CONNECT_ATTEMPTS);
    assert!(c.exhausted());
}

#[test]
fn connector_stops_at_first_success() {
    let mut c = SessionConnector::new();
    let mut attempts = 0u64;
    while c.should_attempt() {
        attempts += 1;
        if attempts == 3 {
            c.record_success();
        } else {
            c.record_failure();
        }
    }
    assert_eq!(attempts, 3);
    assert!(!c.exhausted());
}

#[test]
fn provision_plan_is_idempotent_once_patched() {
    assert_eq!(provision_plan(true, true), ProvisionPlan::AlreadyPatched);
    assert_eq!(provision_plan(true, false), ProvisionPlan::AlreadyPatched);
}

#[test]
fn provision_plan_patches_existing_binary() {
    assert_eq!(provision_plan(false, true), ProvisionPlan::PatchExisting);
}

#[test]
fn provision_plan_downloads_when_nothing_is_on_disk() {
    assert_eq!(provision_plan(false, false), ProvisionPlan::DownloadAndPatch);
}

#[test]
fn archive_entry_kind_by_trailing_separator() {
    assert!(entry_is_directory("nested/dir/"));
    assert!(!entry_is_directory("nested/dir/chromedriver"));
    assert!(!entry_is_directory(""));
}

#[test]
fn stealth_profile_contents() {
    let p = stealth_profile();
    assert_eq!(
        p.browser_args,
        vec![
            "--no-sandbox",
            "--disable-dev-shm-usage",
            "--disable-blink-features=AutomationControlled",
            "window-size=1920,1080",
            "user-agent=Mozilla/5.0 (Windows NT 10.0; Win64; x64) AppleWebKit/537.36 (KHTML, like Gecko) Chrome/102.0.0.0 Safari/537.36",
            "disable-infobars",
        ]
    );
    assert_eq!(p.exclude_switches, vec!["enable-automation"]);
}
