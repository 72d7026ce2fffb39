use campus_login::manager::cli::{cli_platform_supported, detect_platform, download_targets, entry_is_directory, DownloadArgs, UseChrome};
use campus_login::manager::connect_edit::{apply_connect_edit, parse_connect_edit, ConnectEdit, ConnectEntry};
use campus_login::manager::gui::{build_toml_from_form, check_config_form, format_uptime, log_tail};
use campus_login::manager::services::{default_services, parse_services, service_id_at, service_index, ServiceEntry};

#[test]
fn uptime_labels() {
    assert_eq!(format_uptime(0), "0s");
    assert_eq!(format_uptime(59), "59s");
    assert_eq!(format_uptime(60), "1m 0s");
    assert_eq!(format_uptime(125), "2m 5s");
    assert_eq!(format_uptime(3600), "1h 0m");
    assert_eq!(format_uptime(3725), "1h 2m");
    assert_eq!(format_uptime(90061), "25h 1m");
}

#[test]
fn config_text_from_form() {
    let cs = vec![("http://a".to_string(), "A".to_string()), ("http://b".to_string(), "B".to_string())];
    let t = build_toml_from_form("u", "p", "_service_1", "http://e", "3", "15", &cs, "18888", "d/cd", "c/chrome");
    assert_eq!(t, "[login.info]\nusername = \"u\"\npassword = \"p\"\nservice = \"_service_1\"\n\n[login.config]\neportal = \"http://e\"\ntimout = 3\n\n[query]\ninterval = 15\n\n[[query.connect]]\nurl = \"http://a\"\nvalue = \"A\"\n\n[[query.connect]]\nurl = \"http://b\"\nvalue = \"B\"\n\n[driver]\ndriver_type = \"Chrome\"\n\n[driver.chrome]\nport = 18888\ndriver_path = \"d/cd\"\nbrowser_path = \"c/chrome\"\n");
    let empty: Vec<(String, String)> = vec![];
    let t = build_toml_from_form("", "", "", "", "", "", &empty, "", "", "");
    assert!(t.contains("interval = \n\n\n\n[driver]"));
}

#[test]
fn form_checks() {
    let cs = vec![("http://a".to_string(), "A".to_string())];
    assert_eq!(check_config_form("u", "p", "e", "3", "15", "1", "d", "b", &cs), Ok(()));
    let bad = vec![(" ".to_string(), "A".to_string()), ("x".to_string(), "".to_string())];
    assert_eq!(check_config_form(" ", "p", "e", "", "15", "1", "d", "b", &bad),
        Err("用户名不能为空；超时不能为空；连接条目URL不能为空；连接条目值不能为空".to_string()));
    let none: Vec<(String, String)> = vec![];
    assert_eq!(check_config_form("u", "p", "e", "3", "15", "1", "", "b", &none),
        Err("Driver 路径不能为空；连接检测列表不能为空".to_string()));
}

#[test]
fn log_excerpt_keeps_the_last_two_hundred_lines() {
    assert_eq!(log_tail(""), "");
    assert_eq!(log_tail("a\r\nb\n"), "a\nb");
    assert_eq!(log_tail("a\n\nb\r"), "a\n\nb\r");
    let text: String = (0..205).map(|i| format!("line{i}\n")).collect();
    let tail = log_tail(&text);
    assert_eq!(tail.lines().count(), 200);
    assert!(tail.starts_with("line5\n"));
    assert!(tail.ends_with("line204"));
}

const ELEMENTS: &str = "[[service]]\nid = \"_service_0\"\nname = \"校园网\"\n\n[[service]]\nid = \"_service_1\"\nname = \"中国移动\"\n\n[[service]]\nid = \"_service_2\"\n\n[[service]]\nname = \"orphan\"\n\n[page]\nlogin_button = \"loginLink_div\"\n";

#[test]
fn services_are_read_from_elements_file() {
    let s = parse_services(ELEMENTS);
    let got: Vec<(String, String)> = s.iter().map(|e| (e.id.clone(), e.name.clone())).collect();
    assert_eq!(got, vec![
        ("_service_0".to_string(), "校园网".to_string()),
        ("_service_1".to_string(), "中国移动".to_string()),
        ("_service_2".to_string(), "_service_2".to_string()),
    ]);
    assert!(parse_services("").is_empty());
    let s = parse_services("  [[service]]\r\n  id=x=y\r\n");
    assert_eq!(s.len(), 1);
    assert_eq!(s[0].id, "x");
}

#[test]
fn service_lookup() {
    let d = default_services();
    let names: Vec<&str> = d.iter().map(|e| e.name.as_str()).collect();
    assert_eq!(names, vec!["校园网", "中国移动", "中国电信", "中国联通"]);
    assert_eq!(service_id_at(&d, 2), "_service_2");
    assert_eq!(service_id_at(&d, -1), "_service_0");
    assert_eq!(service_id_at(&d, 4), "_service_0");
    assert_eq!(service_index(&d, "_service_3"), Some(3));
    assert_eq!(service_index(&d, "nope"), None);
    let dup = vec![
        ServiceEntry { id: "a".to_string(), name: "1".to_string() },
        ServiceEntry { id: "a".to_string(), name: "2".to_string() },
    ];
    assert_eq!(service_index(&dup, "a"), Some(0));
}

fn rows(e: &[ConnectEntry]) -> Vec<(String, String)> {
    e.iter().map(|r| (r.url.clone(), r.value.clone())).collect()
}

#[test]
fn probe_rows_are_edited_by_commands() {
    assert!(matches!(parse_connect_edit("add"), ConnectEdit::Add));
    assert!(matches!(parse_connect_edit("del-1"), ConnectEdit::Delete(1)));
    assert!(matches!(parse_connect_edit("del-+2"), ConnectEdit::Delete(2)));
    assert!(matches!(parse_connect_edit("del-"), ConnectEdit::Ignore));
    assert!(matches!(parse_connect_edit("del-x"), ConnectEdit::Ignore));
    assert!(matches!(parse_connect_edit("del-99999999999999999999999"), ConnectEdit::Ignore));
    assert!(matches!(parse_connect_edit("url:0:http://a:8080"), ConnectEdit::SetUrl(0, t) if t == "http://a:8080"));
    assert!(matches!(parse_connect_edit("val:1:"), ConnectEdit::SetValue(1, t) if t.is_empty()));
    assert!(matches!(parse_connect_edit("url:0"), ConnectEdit::Ignore));
    assert!(matches!(parse_connect_edit("url:-1:x"), ConnectEdit::Ignore));
    assert!(matches!(parse_connect_edit("remove"), ConnectEdit::Ignore));

    let mut e = vec![ConnectEntry { url: "u".to_string(), value: "v".to_string() }];
    apply_connect_edit(&mut e, parse_connect_edit("del-0"));
    assert_eq!(e.len(), 1);
    apply_connect_edit(&mut e, parse_connect_edit("add"));
    assert_eq!(rows(&e), vec![("u".to_string(), "v".to_string()), (String::new(), String::new())]);
    apply_connect_edit(&mut e, parse_connect_edit("url:1:http://x"));
    apply_connect_edit(&mut e, parse_connect_edit("val:1:X"));
    apply_connect_edit(&mut e, parse_connect_edit("val:5:Y"));
    assert_eq!(rows(&e), vec![("u".to_string(), "v".to_string()), ("http://x".to_string(), "X".to_string())]);
    apply_connect_edit(&mut e, parse_connect_edit("del-0"));
    assert_eq!(rows(&e), vec![("http://x".to_string(), "X".to_string())]);
}

#[test]
fn downloads() {
    let args = DownloadArgs { delete: false, platform: None, chrome: false, driver: false };
    assert_eq!(download_targets(&args), (true, true));
    let args = DownloadArgs { delete: true, platform: None, chrome: true, driver: false };
    assert_eq!(download_targets(&args), (true, false));
    let args = DownloadArgs { delete: true, platform: None, chrome: false, driver: true };
    assert_eq!(download_targets(&args), (false, true));
    assert_eq!(UseChrome::Chrome.generate_download_url(None, "win64"),
        "https://registry.npmmirror.com/-/binary/chrome-for-testing/139.0.7258.138/win64/chrome-win64.zip");
    assert_eq!(UseChrome::ChromeDriver.generate_download_url(Some("120.0.1"), "linux64"),
        "https://registry.npmmirror.com/-/binary/chrome-for-testing/120.0.1/linux64/chromedriver-linux64.zip");
    assert_eq!(UseChrome::ChromeDriver.archive_name("win32"), "chromedriver-win32.zip");
    assert!(!cli_platform_supported("windows", "aarch64"));
    assert!(cli_platform_supported("windows", "x86"));
    assert!(!cli_platform_supported("macos", "aarch64"));
    assert_eq!(detect_platform("windows", "x86_64"), "win64");
    assert_eq!(detect_platform("windows", "x86"), "win32");
    assert_eq!(detect_platform("linux", "x86_64"), "linux64");
    assert!(entry_is_directory("chrome-win64/"));
    assert!(!entry_is_directory("chrome-win64/chrome.exe"));
    assert!(!entry_is_directory(""));
}

use campus_login::manager::services::default_elements_toml;
use campus_login::manager::gui::{chrome_file_candidates, chrome_paths_plan, default_form_connections, form_from_config, save_form_text, ChromePaths};
use campus_login::campus_core::config::ConfigFile;

#[test]
fn default_elements_file_lists_the_built_in_services() {
    let parsed = parse_services(default_elements_toml());
    let builtin = default_services();
    let a: Vec<(String, String)> = parsed.iter().map(|e| (e.id.clone(), e.name.clone())).collect();
    let b: Vec<(String, String)> = builtin.iter().map(|e| (e.id.clone(), e.name.clone())).collect();
    assert_eq!(a, b);
    assert!(default_elements_toml().contains("service_tip = \"selectDisname\""));
}

#[test]
fn window_fields_from_configuration() {
    let mut c = ConfigFile::default("linux", "x86_64");
    c.login.info.service = "_service_2".to_string();
    let f = form_from_config(&c, &default_services());
    assert_eq!(f.service_index, Some(2));
    assert_eq!(f.timout, "3");
    assert_eq!(f.interval, "15");
    assert_eq!(f.eportal, "http://eportal.hhu.edu.cn");
    assert_eq!(f.connections.len(), 2);
    assert_eq!(f.connections[0], ("http://www.msftncsi.com/ncsi.txt".to_string(), "Microsoft NCSI".to_string()));
    assert_eq!(f.driver, Some(("18888".to_string(), "chromedriver-linux64/chromedriver".to_string(), "chrome-linux64/chrome".to_string())));
    c.login.info.service = "unknown".to_string();
    c.driver.chrome_config = None;
    let f = form_from_config(&c, &default_services());
    assert_eq!(f.service_index, None);
    assert_eq!(f.driver, None);
    assert_eq!(default_form_connections(), vec![("http://www.msftncsi.com/ncsi.txt".to_string(), "Microsoft NCSI".to_string())]);
    let (a, b, cdir, d) = chrome_file_candidates("win64", ".exe");
    assert_eq!((a.as_str(), b.as_str(), cdir.as_str(), d.as_str()), ("chrome-win64", "chrome.exe", "chromedriver-win64", "chromedriver.exe"));
}

#[test]
fn chrome_paths_follow_the_configuration() {
    let c = ConfigFile::default("linux", "x86_64");
    match chrome_paths_plan(Some(&c), "win64", ".exe") {
        ChromePaths::Check { browser, driver } => {
            assert_eq!(browser, vec!["chrome-linux64/chrome".to_string()]);
            assert_eq!(driver, vec!["chromedriver-linux64/chromedriver".to_string()]);
        }
        _ => panic!("expected paths"),
    }
    let mut c2 = ConfigFile::default("linux", "x86_64");
    c2.driver.chrome_config = None;
    match chrome_paths_plan(Some(&c2), "win64", ".exe") {
        ChromePaths::Unconfigured { browser_note, driver_note } => {
            assert_eq!(browser_note, "未配置 browser_path");
            assert_eq!(driver_note, "未配置 driver_path");
        }
        _ => panic!("expected the not-configured texts"),
    }
    match chrome_paths_plan(None, "win64", ".exe") {
        ChromePaths::Check { browser, driver } => {
            assert_eq!(browser, vec!["chrome-win64".to_string(), "chrome.exe".to_string()]);
            assert_eq!(driver, vec!["chromedriver-win64".to_string(), "chromedriver.exe".to_string()]);
        }
        _ => panic!("expected paths"),
    }
}

#[test]
fn saving_the_form() {
    let rows = vec![("http://a".to_string(), "A".to_string())];
    let services = default_services();
    let r = save_form_text("u", "p", "http://e", "3", "15", "18888", "d", "b", &rows, &services, 1);
    let text = r.unwrap();
    assert!(text.contains("service = \"_service_1\""));
    assert!(text.starts_with("[login.info]\nusername = \"u\"\npassword = \"p\""));
    assert!(text.contains("[[query.connect]]\nurl = \"http://a\"\nvalue = \"A\""));
    let r = save_form_text("u", "p", "http://e", "3", "15", "18888", "d", "b", &rows, &services, -1);
    assert!(r.unwrap().contains("service = \"_service_0\""));
    let r = save_form_text("u", "p", "http://e", "3", "15", "18888", "d", "b", &rows, &services, 99);
    assert!(r.unwrap().contains("service = \"_service_0\""));
    let r = save_form_text(" ", "p", "http://e", "", "15", "18888", "d", "b", &vec![], &services, 0);
    assert_eq!(r, Err("用户名不能为空；超时不能为空；连接检测列表不能为空".to_string()));
}
