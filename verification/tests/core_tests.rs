use campus_login::campus_core::config::{ChromeConfig, ConfigFile, Connection, DriverConfig, DriverType, GeckoConfig, Login, LoginConfig, LoginInfo, QueryConfig};
use campus_login::campus_core::detect::{detect_begin, detect_network_status, detect_step, ProbeAction, ProbeEvent, Reply};
use campus_login::campus_core::errors::CampusError;
use campus_login::campus_core::platform::{detect_platform, exe_suffix, platform_supported};
use campus_login::campus_core::process::check_running;
use campus_login::login_common::detect as lenient;
use campus_login::login_common::status::NetStatus;
use campus_login::text::{contains, dec_string, is_blank, join_strs, str_eq, string_of, trim_chars, chars_of};

fn query(pairs: &[(&str, &str)]) -> QueryConfig {
    QueryConfig {
        connect: pairs.iter().map(|(u, v)| Connection { url: u.to_string(), val: v.to_string() }).collect(),
        interval: 15,
    }
}

fn answered(success: bool, body: Result<&str, &str>) -> Reply {
    Reply::Answered { success, body: body.map(|s| s.to_string()).map_err(|s| s.to_string()) }
}

#[test]
fn text_helpers_behave_like_std() {
    assert!(is_blank(""));
    assert!(is_blank(" \t\n\u{3000}"));
    assert!(!is_blank(" a "));
    assert!(contains("a=success&b", "success"));
    assert!(!contains("succes", "success"));
    assert!(contains("abc", ""));
    assert_eq!(dec_string(0), "0");
    assert_eq!(dec_string(18888), "18888");
    assert_eq!(dec_string(u64::MAX), u64::MAX.to_string());
    assert_eq!(join_strs(&vec!["a", "b", "c"], "；"), "a；b；c");
    assert_eq!(join_strs(&vec![], "x"), "");
    assert_eq!(string_of(&['h', 'i']), "hi");
    assert!(str_eq("abc", "abc"));
    assert!(!str_eq("abc", "abd"));
    let t: String = trim_chars(&chars_of("  \"x\" "), None).into_iter().collect();
    assert_eq!(t, "\"x\"");
    let q: String = trim_chars(&chars_of("\"\"x\""), Some('"')).into_iter().collect();
    assert_eq!(q, "x");
}

#[test]
fn platforms_are_named_like_the_archives() {
    assert_eq!(detect_platform("windows", "x86"), "win32");
    assert_eq!(detect_platform("windows", "x86_64"), "win64");
    assert_eq!(detect_platform("windows", "aarch64"), "win64");
    assert_eq!(detect_platform("linux", "x86_64"), "linux64");
    assert!(platform_supported("windows", "x86"));
    assert!(platform_supported("windows", "aarch64"));
    assert!(platform_supported("linux", "x86_64"));
    assert!(!platform_supported("linux", "aarch64"));
    assert!(!platform_supported("macos", "x86_64"));
    assert_eq!(exe_suffix("windows"), ".exe");
    assert_eq!(exe_suffix("linux"), "");
}

#[test]
fn default_configuration() {
    let c = ConfigFile::default("linux", "x86_64");
    assert_eq!(c.login.info.username, "");
    assert_eq!(c.login.info.service, "_service_0");
    assert_eq!(c.login.config.eportal, "http://eportal.hhu.edu.cn");
    assert_eq!(c.login.config.timout, 3);
    assert_eq!(c.query.interval, 15);
    assert_eq!(c.query.connect.len(), 2);
    assert_eq!(c.query.connect[1].val, "Success");
    assert_eq!(c.driver.driver_type, DriverType::Chrome);
    let chrome = c.driver.chrome_config.unwrap();
    assert_eq!(chrome.port, 18888);
    assert_eq!(chrome.driver_path, "chromedriver-linux64/chromedriver");
    assert_eq!(chrome.browser_path, "chrome-linux64/chrome");
    assert!(c.driver.firefox_config.is_none());
    let w = ChromeConfig::default("windows", "x86_64");
    assert_eq!(w.driver_path, "chromedriver-win64/chromedriver.exe");
    assert_eq!(w.browser_path, "chrome-win64/chrome.exe");
    let g = GeckoConfig::default();
    assert_eq!((g.port, g.driver_path.as_str(), g.browser_path.as_str()), (18888, "", ""));
    let d = DriverConfig::default("windows", "x86");
    assert_eq!(d.chrome_config.unwrap().browser_path, "chrome-win32/chrome.exe");
    let l = Login::default();
    assert_eq!(l.info.password, "");
    assert_eq!(LoginInfo::default().service, "_service_0");
    assert_eq!(LoginConfig::default().timout, 3);
    assert_eq!(QueryConfig::default().connect[0].url, "http://www.msftncsi.com/ncsi.txt");
}

#[test]
fn detection_follows_the_documented_rule() {
    let q = query(&[("http://a", "A"), ("http://b", "B")]);
    // both unreachable
    let r = detect_network_status(&q, &vec![Reply::Unreachable, Reply::Unreachable]);
    assert_eq!(r.unwrap(), NetStatus::Disconnected);
    // first mismatching, second matching
    let r = detect_network_status(&q, &vec![answered(true, Ok("x")), answered(true, Ok("B"))]);
    assert_eq!(r.unwrap(), NetStatus::Connected);
    // non-2xx stops at once
    let r = detect_network_status(&q, &vec![answered(false, Ok("A")), answered(true, Ok("B"))]);
    assert_eq!(r.unwrap(), NetStatus::Restricted);
    // unreadable body is an error
    let r = detect_network_status(&q, &vec![Reply::Unreachable, answered(true, Err("boom"))]);
    assert!(matches!(r, Err(CampusError::NetworkRequest(m)) if m == "boom"));
    // exact match required
    let r = detect_network_status(&q, &vec![answered(true, Ok("A ")), answered(true, Ok("xB"))]);
    assert_eq!(r.unwrap(), NetStatus::Disconnected);
}

#[test]
fn detection_steps() {
    let q = query(&[("http://a", "A"), ("http://b", "B")]);
    let a = detect_begin(&q);
    assert!(matches!(a, ProbeAction::Send(0)));
    let a = detect_step(&q, a, ProbeEvent::SendFailed);
    assert!(matches!(a, ProbeAction::Send(1)));
    let a = detect_step(&q, a, ProbeEvent::Responded(true));
    assert!(matches!(a, ProbeAction::ReadBody(1)));
    let a = detect_step(&q, a, ProbeEvent::Body("B".to_string()));
    assert!(matches!(a, ProbeAction::Finish(Ok(NetStatus::Connected))));
    let a = detect_step(&q, ProbeAction::ReadBody(1), ProbeEvent::Body("nope".to_string()));
    assert!(matches!(a, ProbeAction::Finish(Ok(NetStatus::Disconnected))));
    let a = detect_step(&q, ProbeAction::Send(0), ProbeEvent::Responded(false));
    assert!(matches!(a, ProbeAction::Finish(Ok(NetStatus::Restricted))));
    let a = detect_step(&q, ProbeAction::ReadBody(0), ProbeEvent::BodyFailed("e".to_string()));
    assert!(matches!(a, ProbeAction::Finish(Err(CampusError::NetworkRequest(m))) if m == "e"));
    let empty = query(&[]);
    assert!(matches!(detect_begin(&empty), ProbeAction::Finish(Ok(NetStatus::Disconnected))));
}

#[test]
fn lenient_detection_uses_containment() {
    let q = query(&[("http://a", "Success"), ("http://b", "B")]);
    let r = lenient::detect_network_status(&q, &vec![answered(true, Ok("<html>Success</html>")), Reply::Unreachable]);
    assert_eq!(r, NetStatus::Connected);
    let r = lenient::detect_network_status(&q, &vec![answered(true, Err("bad")), answered(true, Ok("no"))]);
    assert_eq!(r, NetStatus::Disconnected);
    let r = lenient::detect_network_status(&q, &vec![Reply::Unreachable, answered(false, Ok("B"))]);
    assert_eq!(r, NetStatus::Restricted);
    let a = lenient::detect_step(&q, ProbeAction::ReadBody(0), ProbeEvent::BodyFailed("x".to_string()));
    assert!(matches!(a, ProbeAction::Send(1)));
}

#[test]
fn status_labels() {
    assert_eq!(NetStatus::Connected.display(), "已连接");
    assert_eq!(NetStatus::Restricted.display(), "网络受限");
    assert_eq!(NetStatus::Disconnected.display(), "未连接");
}

#[test]
fn running_is_judged_from_the_lock() {
    assert!(check_running(true, Some(false)));
    assert!(!check_running(true, Some(true)));
    assert!(!check_running(true, None));
    assert!(!check_running(false, Some(false)));
}

use campus_login::campus_core::errors::{read_error, ReadTarget};

fn drive_detection(q: &QueryConfig, replies: &[Reply]) -> Result<NetStatus, CampusError> {
    let mut action = detect_begin(q);
    loop {
        let ev = match &action {
            ProbeAction::Finish(_) => break,
            ProbeAction::Send(i) => match &replies[*i] {
                Reply::Unreachable => ProbeEvent::SendFailed,
                Reply::Answered { success, .. } => ProbeEvent::Responded(*success),
            },
            ProbeAction::ReadBody(i) => match &replies[*i] {
                Reply::Answered { body: Ok(t), .. } => ProbeEvent::Body(t.clone()),
                Reply::Answered { body: Err(m), .. } => ProbeEvent::BodyFailed(m.clone()),
                Reply::Unreachable => ProbeEvent::SendFailed,
            },
        };
        action = detect_step(q, action, ev);
    }
    match action {
        ProbeAction::Finish(r) => r,
        _ => unreachable!(),
    }
}

#[test]
fn stepwise_and_whole_run_detection_agree() {
    let q = query(&[("http://a", "A"), ("http://b", "B"), ("http://c", "C")]);
    let cases: Vec<Vec<Reply>> = vec![
        vec![Reply::Unreachable, Reply::Unreachable, Reply::Unreachable],
        vec![answered(true, Ok("x")), answered(true, Ok("y")), answered(true, Ok("C"))],
        vec![Reply::Unreachable, answered(false, Ok("B")), answered(true, Ok("C"))],
        vec![answered(true, Ok("x")), answered(true, Err("io")), answered(true, Ok("C"))],
        vec![answered(true, Ok("A")), answered(false, Ok("B")), Reply::Unreachable],
    ];
    for replies in cases {
        let whole = detect_network_status(&q, &replies);
        let stepped = drive_detection(&q, &replies);
        assert_eq!(format!("{:?}", whole), format!("{:?}", stepped));
    }
}

#[test]
fn unreadable_files_are_reported_by_kind() {
    assert!(matches!(read_error(ReadTarget::Config, true, "c.toml".to_string(), "x".to_string()), CampusError::ConfigNotFound(p) if p == "c.toml"));
    assert!(matches!(read_error(ReadTarget::Elements, true, "e.toml".to_string(), "x".to_string()), CampusError::ElementsNotFound(p) if p == "e.toml"));
    assert!(matches!(read_error(ReadTarget::Elements, false, "e.toml".to_string(), "denied".to_string()), CampusError::Io(m) if m == "denied"));
}
