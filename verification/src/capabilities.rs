//! The capability profile handed to every connection attempt: browser launch
//! flags engineered to suppress the automation indicators that remain after
//! the binary patch, and the switches excluded from the browser's reported
//! switch list.

use vstd::prelude::*;

verus! {

/// Browser-launch options passed with each session request. Built once,
/// handed by value into every connection attempt.
pub struct CapabilityProfile {
    /// Arguments appended to the browser command line.
    pub browser_args: Vec<String>,
    /// Switches the browser must leave out of its reported switch list.
    pub exclude_switches: Vec<String>,
}

/// The stealth profile: sandboxing off, shared-memory usage off, the
/// automation-control blink feature suppressed, a fixed window size, a fixed
/// user agent, no info bars, and the automation switch excluded.
pub fn stealth_profile() -> (p: CapabilityProfile)
    ensures
        p.browser_args@.len() == 6,
        p.browser_args@[0]@ == "--no-sandbox"@,
        p.browser_args@[1]@ == "--disable-dev-shm-usage"@,
        p.browser_args@[2]@ == "--disable-blink-features=AutomationControlled"@,
        p.browser_args@[3]@ == "window-size=1920,1080"@,
        p.browser_args@[4]@ == "user-agent=Mozilla/5.0 (Windows NT 10.0; Win64; x64) AppleWebKit/537.36 (KHTML, like Gecko) Chrome/102.0.0.0 Safari/537.36"@,
        p.browser_args@[5]@ == "disable-infobars"@,
        p.exclude_switches@.len() == 1,
        p.exclude_switches@[0]@ == "enable-automation"@,
{
    let mut browser_args: Vec<String> = Vec::new();
    browser_args.push(String::from_str("--no-sandbox"));
    browser_args.push(String::from_str("--disable-dev-shm-usage"));
    browser_args.push(String::from_str("--disable-blink-features=AutomationControlled"));
    browser_args.push(String::from_str("window-size=1920,1080"));
    browser_args.push(String::from_str("user-agent=Mozilla/5.0 (Windows NT 10.0; Win64; x64) AppleWebKit/537.36 (KHTML, like Gecko) Chrome/102.0.0.0 Safari/537.36"));
    browser_args.push(String::from_str("disable-infobars"));
    let mut exclude_switches: Vec<String> = Vec::new();
    exclude_switches.push(String::from_str("enable-automation"));
    CapabilityProfile { browser_args, exclude_switches }
}

} // verus!
