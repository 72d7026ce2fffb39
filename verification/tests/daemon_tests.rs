use campus_login::auto_login::check::{answer_settles, check_begin, check_connection, check_lan, check_step, CheckAction, CheckError};
use campus_login::auto_login::chrome_driver::ChromeDriverConfig;
use campus_login::auto_login::config;
use campus_login::auto_login::driver::ChromeOperator;
use campus_login::auto_login::dtypes::{self, NetServiceType};
use campus_login::auto_login::login::{to_login_action, to_login_begin, to_login_step, LoginAction, LoginEvent, LoginNext, LoginStage};
use campus_login::auto_login::startup::validate_config;
use campus_login::auto_login::task::{plan_net_check, plan_tick, stop_line_exits, stop_message_reply, StopReply, TickPlan};
use campus_login::campus_core::config::{ChromeConfig, ConfigFile, Login};
use campus_login::campus_core::detect::{ProbeEvent, Reply};
use campus_login::campus_core::elements::{Elements, PageElements};
use campus_login::campus_core::errors::CampusError;
use campus_login::login_common::status::NetStatus;

fn elements() -> Elements {
    Elements {
        page: PageElements {
            login_button: "loginLink_div".to_string(),
            username_tip: "username".to_string(),
            username_input: "username".to_string(),
            password_tip: "pwd_tip".to_string(),
            password_input: "pwd".to_string(),
            service_tip: "selectDisname".to_string(),
        },
        service: vec![],
    }
}

#[test]
fn default_config_fails_validation_on_credentials() {
    let c = ConfigFile::default("linux", "x86_64");
    match validate_config(&c) {
        Err(CampusError::ConfigValidation(m)) => assert_eq!(m, "用户名不能为空；密码不能为空"),
        _ => panic!("expected a validation error"),
    }
    let mut c = ConfigFile::default("linux", "x86_64");
    c.login.info.username = "2001".to_string();
    c.login.info.password = "pw".to_string();
    assert!(validate_config(&c).is_ok());
    c.query.interval = 0;
    c.query.connect[1].url = "  ".to_string();
    c.driver.chrome_config = None;
    match validate_config(&c) {
        Err(CampusError::ConfigValidation(m)) => {
            assert_eq!(m, "检测间隔不能为0；连接条目URL不能为空；Chrome驱动配置缺失")
        }
        _ => panic!("expected a validation error"),
    }
    let mut c = ConfigFile::default("linux", "x86_64");
    c.login.info.username = "u".to_string();
    c.login.info.password = "p".to_string();
    c.query.connect.clear();
    c.driver.chrome_config = Some(ChromeConfig { port: 0, driver_path: "".to_string(), browser_path: "b".to_string() });
    match validate_config(&c) {
        Err(CampusError::ConfigValidation(m)) => {
            assert_eq!(m, "连接检测列表不能为空；驱动端口不能为0；Driver路径不能为空")
        }
        _ => panic!("expected a validation error"),
    }
}

fn drive(login: &Login, events: Vec<LoginEvent>) -> (Vec<String>, LoginNext) {
    let el = elements();
    let mut stage = to_login_begin();
    let mut trace = Vec::new();
    for ev in events {
        let action = to_login_action(login, &el, stage);
        trace.push(match action {
            LoginAction::Goto(u) => format!("goto {u}"),
            LoginAction::ReadUrl => "url".to_string(),
            LoginAction::WaitFor { id, timeout_secs, poll_millis } => format!("wait {id} {timeout_secs} {poll_millis}"),
            LoginAction::Click(id) => format!("click {id}"),
            LoginAction::Type { id, text } => format!("type {id} {text}"),
            LoginAction::Pause(ms) => format!("pause {ms}"),
            LoginAction::ClickButton => "button".to_string(),
            LoginAction::CloseWindow => "close".to_string(),
        });
        match to_login_step(stage, ev) {
            LoginNext::Continue(s) => stage = s,
            done => return (trace, done),
        }
    }
    panic!("flow did not end");
}

fn login_data() -> Login {
    let mut l = Login::default();
    l.info.username = "2001".to_string();
    l.info.password = "secret".to_string();
    l.info.service = "_service_1".to_string();
    l
}

#[test]
fn login_flow_fills_the_form_in_order() {
    let mut events = vec![LoginEvent::Done, LoginEvent::Url(Some("http://eportal.hhu.edu.cn/eportal/index.jsp?a=1".to_string())), LoginEvent::Done];
    for _ in 0..14 {
        events.push(LoginEvent::Done);
    }
    let (trace, end) = drive(&login_data(), events);
    assert_eq!(trace, vec![
        "goto http://eportal.hhu.edu.cn", "url", "wait loginLink_div 3 200",
        "click username", "pause 100", "type username 2001", "pause 100",
        "click pwd_tip", "pause 100", "type pwd secret", "pause 100",
        "click selectDisname", "pause 100", "click _service_1", "pause 100",
        "button", "close",
    ]);
    assert!(matches!(end, LoginNext::Finished { result: Ok(()), timed_out: false }));
}

#[test]
fn login_flow_stops_when_already_logged_in() {
    let (trace, end) = drive(&login_data(), vec![LoginEvent::Done,
        LoginEvent::Url(Some("http://eportal.hhu.edu.cn/eportal/success.jsp".to_string()))]);
    assert_eq!(trace.len(), 2);
    assert!(matches!(end, LoginNext::Finished { result: Ok(()), timed_out: false }));
    let (trace, end) = drive(&login_data(), vec![LoginEvent::Done,
        LoginEvent::Url(Some("http://eportal.hhu.edu.cn/eportal/index.jsp?status=success".to_string()))]);
    assert_eq!(trace.len(), 2);
    assert!(matches!(end, LoginNext::Finished { result: Ok(()), timed_out: false }));
    let (_, end) = drive(&login_data(), vec![LoginEvent::Done, LoginEvent::Url(None), LoginEvent::FindFailed("timeout".to_string())]);
    assert!(matches!(end, LoginNext::Finished { result: Ok(()), timed_out: true }));
}

#[test]
fn login_flow_reports_failures() {
    let (_, end) = drive(&login_data(), vec![LoginEvent::ActFailed("dns".to_string())]);
    match end {
        LoginNext::Finished { result: Err(CampusError::LoginFailed(m)), .. } => assert_eq!(m, "打开登陆页面失败: dns"),
        _ => panic!(),
    }
    let (_, end) = drive(&login_data(), vec![LoginEvent::Done, LoginEvent::Url(None), LoginEvent::Done,
        LoginEvent::FindFailed("no such element".to_string())]);
    match end {
        LoginNext::Finished { result: Err(CampusError::LoginFailed(m)), .. } => assert_eq!(m, "查找占位元素失败: no such element"),
        _ => panic!(),
    }
    let (_, end) = drive(&login_data(), vec![LoginEvent::Done, LoginEvent::Url(None), LoginEvent::Done,
        LoginEvent::Done, LoginEvent::Done, LoginEvent::ActFailed("stale".to_string())]);
    match end {
        LoginNext::Finished { result: Err(CampusError::LoginFailed(m)), .. } => assert_eq!(m, "输入失败: stale"),
        _ => panic!(),
    }
    match to_login_step(LoginStage::ServiceOption, LoginEvent::ActFailed("x".to_string())) {
        LoginNext::Finished { result: Err(CampusError::LoginFailed(m)), .. } => assert_eq!(m, "选择服务失败: x"),
        _ => panic!(),
    }
    match to_login_step(LoginStage::CloseWindow, LoginEvent::ActFailed("x".to_string())) {
        LoginNext::Finished { result: Err(CampusError::LoginFailed(m)), .. } => assert_eq!(m, "关闭浏览器窗口失败: x"),
        _ => panic!(),
    }
}

#[test]
fn driver_settings() {
    let mut d = ChromeDriverConfig::default();
    assert_eq!(d.port, 18888);
    assert!(d.slient);
    assert_eq!(d.get_driver_url(), "http://127.0.0.1:18888");
    assert_eq!(d.to_args(), vec!["--port=18888".to_string(), "--slient".to_string()]);
    d.set_port(9515);
    d.set_slient(false);
    assert_eq!(d.get_driver_url(), "http://127.0.0.1:9515");
    assert_eq!(d.to_args(), vec!["--port=9515".to_string()]);
    let op = ChromeOperator::from_config(ChromeConfig::default("linux", "x86_64"));
    assert_eq!(op.get_args(), vec!["--port=18888".to_string(), "--silent=false".to_string()]);
    assert_eq!(op.get_driver_url(), "http://127.0.0.1:18888");
}

#[test]
fn second_layout_validation_and_services() {
    let c = dtypes::ConfigFile::default();
    assert_eq!(c.connection_wait, 30);
    assert_eq!(c.webdriver.chrome_path, "chrome-win64");
    assert_eq!(c.validation(), Err("用户名不能为空\n\t密码不能为空".to_string()));
    let mut c = dtypes::ConfigFile::default();
    c.login.username = "u".to_string();
    c.login.password = "p".to_string();
    assert_eq!(c.validation(), Ok(()));
    c.connection_wait = 0;
    c.login.wait_seconds = 0;
    c.connection.clear();
    c.webdriver.driver_path = String::new();
    assert_eq!(c.validation(), Err("连接等待时间需要大于0s\n\t至少需要一个网络验证服务\n\t等待时间不能小于1s\n\tChromeDriver目录路径不能为空".to_string()));
    assert_eq!(NetServiceType::CampusNet.to_service_string(), "_service_0");
    assert_eq!(NetServiceType::NanjingMobile.to_service_string(), "_service_1");
    assert_eq!(NetServiceType::ChangzhouTelecom.to_service_string(), "_service_2");
    assert_eq!(NetServiceType::ChangzhouUnion.to_service_string(), "_service_3");
}

fn states(pairs: &[(&str, &str)]) -> Vec<config::ConnectionState> {
    pairs.iter().map(|(u, v)| config::ConnectionState { url: u.to_string(), value: v.to_string() }).collect()
}

#[test]
fn strict_check_reads_every_body() {
    assert_eq!(check_lan(1), Ok(()));
    assert_eq!(check_lan(0), Err(0));
    let conns = states(&[("http://a", "A"), ("http://b", "B")]);
    let a = check_begin(&conns);
    assert!(matches!(a, CheckAction::Send(0)));
    let a = check_step(&conns, a, ProbeEvent::Responded(false));
    assert!(matches!(a, CheckAction::ReadBody(0, false)));
    let a = check_step(&conns, a, ProbeEvent::Body("A".to_string()));
    assert!(matches!(a, CheckAction::Send(1)));
    let a = check_step(&conns, a, ProbeEvent::Responded(true));
    let a = check_step(&conns, a, ProbeEvent::Body("B".to_string()));
    assert!(matches!(a, CheckAction::Finish(Ok(()))));
    let a = check_step(&conns, CheckAction::ReadBody(1, true), ProbeEvent::Body("C".to_string()));
    match a {
        CheckAction::Finish(Err(e)) => assert_eq!(e.message(), "网络未连接"),
        _ => panic!(),
    }
    let a = check_step(&conns, CheckAction::ReadBody(0, true), ProbeEvent::BodyFailed("io".to_string()));
    match a {
        CheckAction::Finish(Err(e)) => {
            assert!(matches!(e, CheckError::Unreadable(_)));
            assert_eq!(e.message(), "io");
        }
        _ => panic!(),
    }
}

#[test]
fn all_pages_check_stops_at_the_first_match() {
    let conns: Vec<dtypes::ConnectionState> = [("http://a", "A"), ("http://b", "B"), ("http://c", "restricted")]
        .iter().map(|(u, v)| dtypes::ConnectionState { url: u.to_string(), value: v.to_string() }).collect();
    let ok = |s: &str| Reply::Answered { success: true, body: Ok(s.to_string()) };
    assert_eq!(check_connection(&conns, &vec![ok("A"), Reply::Unreachable, Reply::Unreachable]), dtypes::NetStatus::Connecting);
    assert_eq!(check_connection(&conns, &vec![ok("A"), ok("x"), Reply::Unreachable]), dtypes::NetStatus::Connecting);
    assert_eq!(check_connection(&conns, &vec![ok("A"), ok("x"), Reply::Answered { success: true, body: Err("e".to_string()) }]), dtypes::NetStatus::Connecting);
    assert_eq!(check_connection(&conns, &vec![ok("A")]), dtypes::NetStatus::Connecting);
    assert_eq!(check_connection(&conns, &vec![ok("x"), Reply::Unreachable, Reply::Unreachable]), dtypes::NetStatus::Restricted);
    assert_eq!(check_connection(&conns, &vec![ok("x"), ok("B"), ok("y")]), dtypes::NetStatus::Connecting);
    assert_eq!(check_connection(&conns, &vec![ok("x"), ok("y"), Reply::Answered { success: true, body: Err("e".to_string()) }]), dtypes::NetStatus::Connecting);
    assert_eq!(check_connection(&conns, &vec![Reply::Answered { success: false, body: Ok("A".to_string()) }, Reply::Unreachable, Reply::Unreachable]), dtypes::NetStatus::Disconnected);
    assert_eq!(check_connection(&conns, &vec![]), dtypes::NetStatus::Disconnected);
    assert!(answer_settles(&conns[0], &ok("A")));
    assert!(!answer_settles(&conns[0], &ok("B")));
    assert!(!answer_settles(&conns[0], &Reply::Answered { success: false, body: Ok("A".to_string()) }));
    assert!(answer_settles(&conns[2], &Reply::Answered { success: true, body: Err("e".to_string()) }));
}

#[test]
fn task_decisions() {
    assert_eq!(plan_tick(&Ok(NetStatus::Connected)), TickPlan::ReportConnected);
    assert_eq!(plan_tick(&Ok(NetStatus::Restricted)), TickPlan::WarnAndLogin);
    assert_eq!(plan_tick(&Ok(NetStatus::Disconnected)), TickPlan::Login);
    assert_eq!(plan_tick(&Err(CampusError::NetworkRequest("x".to_string()))), TickPlan::ReportError);
    assert!(matches!(stop_message_reply("exit", Some(5)), StopReply::Exit));
    assert!(matches!(stop_message_reply("uptime", Some(1700000000)), StopReply::Answer(t) if t == "1700000000"));
    assert!(matches!(stop_message_reply("uptime", None), StopReply::Answer(t) if t == "0"));
    assert!(matches!(stop_message_reply("hello", None), StopReply::Ignore));
    assert!(stop_line_exits("exit"));
    assert!(!stop_line_exits("exit "));
    let p = plan_net_check(dtypes::NetStatus::Disconnected, dtypes::NetStatus::Restricted);
    assert!(!p.connect);
    assert_eq!(p.last, dtypes::NetStatus::Restricted);
    assert_eq!(p.publish, Some(dtypes::NetStatus::Connecting));
    let p = plan_net_check(dtypes::NetStatus::Disconnected, dtypes::NetStatus::Disconnected);
    assert!(p.connect);
    assert_eq!(p.publish, None);
}

use campus_login::auto_login::legacy_login::{legacy_login_action, legacy_login_step, LegacyAction, LegacyEvent, LegacyNext, LegacyStage};
use campus_login::auto_login::task::{net_connect_begin, net_connect_step, ConnectStage, LogLevel};

fn legacy_info() -> config::LoginInfo {
    config::LoginInfo {
        username: "2001".to_string(),
        password: "pw".to_string(),
        service: "_service_2".to_string(),
        wait_seconds: 3,
        eportal: "http://eportal.hhu.edu.cn".to_string(),
    }
}

fn drive_legacy(events: Vec<LegacyEvent>) -> (Vec<String>, Result<(), String>) {
    let info = legacy_info();
    let mut stage = LegacyStage::OpenPage;
    let mut trace = Vec::new();
    for ev in events {
        trace.push(match legacy_login_action(&info, &stage) {
            LegacyAction::Goto(u) => format!("goto {u}"),
            LegacyAction::ReadUrl => "url".to_string(),
            LegacyAction::WaitFor { id, timeout_secs, poll_millis } => format!("wait {id} {timeout_secs} {poll_millis}"),
            LegacyAction::Find(id) => format!("find {id}"),
            LegacyAction::Click(id) => format!("click {id}"),
            LegacyAction::ClickField => "click field".to_string(),
            LegacyAction::TypeField(t) => format!("type {t}"),
            LegacyAction::Pause(ms) => format!("pause {ms}"),
            LegacyAction::ClickButton => "button".to_string(),
            LegacyAction::CloseWindow => "close".to_string(),
        });
        match legacy_login_step(stage, ev) {
            LegacyNext::Continue(s) => stage = s,
            LegacyNext::Finished(r) => return (trace, r),
        }
    }
    panic!("flow did not end");
}

#[test]
fn legacy_login_flow() {
    let mut events = vec![LegacyEvent::Done, LegacyEvent::Done, LegacyEvent::Url(None)];
    for _ in 0..15 {
        events.push(LegacyEvent::Done);
    }
    let (trace, r) = drive_legacy(events);
    assert_eq!(trace, vec![
        "goto http://eportal.hhu.edu.cn", "pause 3000", "url", "wait loginLink_div 10 500", "find username", "pause 200",
        "click field", "type 2001", "find pwd", "pause 200", "click pwd_tip", "pause 200", "type pw",
        "find selectDisname", "click field", "click _service_2", "button", "close",
    ]);
    assert_eq!(r, Ok(()));
    let (_, r) = drive_legacy(vec![LegacyEvent::ActFailed("refused".to_string())]);
    assert_eq!(r, Err("网页打开失败: refused".to_string()));
    let (trace, r) = drive_legacy(vec![LegacyEvent::Done, LegacyEvent::Done,
        LegacyEvent::Url(Some("http://eportal.hhu.edu.cn/eportal/success.jsp".to_string()))]);
    assert_eq!(r, Ok(()));
    assert_eq!(trace.len(), 3);
    let (trace, r) = drive_legacy(vec![LegacyEvent::Done, LegacyEvent::Done,
        LegacyEvent::Url(Some("http://eportal.hhu.edu.cn/eportal/index.jsp".to_string())), LegacyEvent::FindFailed("t".to_string())]);
    assert_eq!(trace.last().unwrap(), "wait loginLink_div 10 500");
    assert_eq!(r, Err("登录页面加载超时".to_string()));
    let (_, r) = drive_legacy(vec![LegacyEvent::Done, LegacyEvent::Done, LegacyEvent::Url(None), LegacyEvent::FindFailed("t".to_string())]);
    assert_eq!(r, Err("登录页面加载超时".to_string()));
    let (trace, r) = drive_legacy(vec![LegacyEvent::Done, LegacyEvent::Done, LegacyEvent::Url(None), LegacyEvent::Done,
        LegacyEvent::FindFailed("gone".to_string()), LegacyEvent::Done]);
    assert_eq!(trace.last().unwrap(), "pause 200");
    assert_eq!(r, Err("用户名输入框查找失败: gone".to_string()));
    let (_, r) = drive_legacy(vec![LegacyEvent::Done, LegacyEvent::Done, LegacyEvent::Url(None), LegacyEvent::Done,
        LegacyEvent::Done, LegacyEvent::Done, LegacyEvent::ActFailed("raw".to_string())]);
    assert_eq!(r, Err("raw".to_string()));
}

#[test]
fn login_attempt_stages() {
    let c = ConfigFile::default("linux", "x86_64");
    assert_eq!(net_connect_begin(&c).unwrap().port, 18888);
    let mut c2 = ConfigFile::default("linux", "x86_64");
    c2.driver.chrome_config = None;
    assert_eq!(net_connect_begin(&c2).err(), Some("登录失败: Chrome 配置缺失"));
    let n = net_connect_step(ConnectStage::StartDriver, false);
    assert_eq!(n.log, Some((LogLevel::Error, "启动ChromeDriver失败: ")));
    assert_eq!(n.next, None);
    let n = net_connect_step(ConnectStage::StartDriver, true);
    assert_eq!(n.next, Some(ConnectStage::StartChrome));
    let n = net_connect_step(ConnectStage::StartChrome, false);
    assert_eq!(n.log, Some((LogLevel::Warn, "Chrome问题: ")));
    let n = net_connect_step(ConnectStage::Login, false);
    assert_eq!(n.log, Some((LogLevel::Error, "登录失败，错误信息: ")));
    assert_eq!(n.next, Some(ConnectStage::Quit));
    let n = net_connect_step(ConnectStage::Login, true);
    assert_eq!(n.log, Some((LogLevel::Info, "登录成功")));
    let n = net_connect_step(ConnectStage::Quit, false);
    assert_eq!(n.log, Some((LogLevel::Error, "关闭Chrome失败: ")));
    assert_eq!(net_connect_step(ConnectStage::Quit, true).log, None);
}

fn verdict(c: &ConfigFile) -> Result<(), String> {
    match validate_config(c) {
        Ok(()) => Ok(()),
        Err(CampusError::ConfigValidation(m)) => Err(m),
        Err(_) => Err("other".to_string()),
    }
}

#[test]
fn padding_and_good_probes_keep_the_verdict() {
    let mut c = ConfigFile::default("linux", "x86_64");
    c.login.info.username = "2001".to_string();
    c.login.info.password = "pw".to_string();
    let accepted = verdict(&c);
    assert_eq!(accepted, Ok(()));
    let mut padded = ConfigFile::default("linux", "x86_64");
    padded.login.info.username = "  2001 ".to_string();
    padded.login.info.password = " pw".to_string();
    padded.query.connect[0].url = " http://www.msftncsi.com/ncsi.txt  ".to_string();
    assert_eq!(verdict(&padded), accepted);
    let mut more = ConfigFile::default("linux", "x86_64");
    more.login.info.username = "2001".to_string();
    more.login.info.password = "pw".to_string();
    more.query.connect.push(campus_login::campus_core::config::Connection { url: "http://x".to_string(), val: "y".to_string() });
    assert_eq!(verdict(&more), accepted);

    let mut bad = ConfigFile::default("linux", "x86_64");
    bad.query.interval = 0;
    let rejected = verdict(&bad);
    assert_eq!(rejected, Err("用户名不能为空；密码不能为空；检测间隔不能为0".to_string()));
    bad.login.info.username = "   ".to_string();
    bad.login.config.eportal = format!(" {} ", bad.login.config.eportal);
    assert_eq!(verdict(&bad), rejected);
    bad.query.connect.push(campus_login::campus_core::config::Connection { url: "http://x".to_string(), val: "y".to_string() });
    assert_eq!(verdict(&bad), rejected);
}
