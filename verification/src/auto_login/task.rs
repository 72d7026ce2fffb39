//! Decisions of the daemon's background tasks: what to do on each timer
//! tick of the network check, and how the stop listener answers messages.
use vstd::prelude::*;
use crate::text::{dec, push_dec, str_eq};
use crate::campus_core::errors::CampusError;
use crate::login_common::status::NetStatus;
use crate::auto_login::dtypes;
use crate::campus_core::config::{ChromeConfig, ConfigFile};

verus! {

/// What a tick of the detection task does.
#[derive(PartialEq, Eq, Structural, Debug, Clone, Copy)]
pub enum TickPlan {
    /// log "网络已连接"
    ReportConnected,
    /// warn "受限网络", then log in and restart the timer
    WarnAndLogin,
    /// log in and restart the timer
    Login,
    /// log the detection error and wait for the next tick
    ReportError,
}

/// The reaction to a detection result: a restricted or lost network
/// triggers a login, after which the timer restarts so that ticks missed
/// while logging in do not fire at once.
pub fn plan_tick(result: &Result<NetStatus, CampusError>) -> (r: TickPlan)
    ensures
        result matches Ok(NetStatus::Connected) ==> r == TickPlan::ReportConnected,
        result matches Ok(NetStatus::Restricted) ==> r == TickPlan::WarnAndLogin,
        result matches Ok(NetStatus::Disconnected) ==> r == TickPlan::Login,
        result is Err ==> r == TickPlan::ReportError,
{
    match result {
        Ok(NetStatus::Connected) => TickPlan::ReportConnected,
        Ok(NetStatus::Restricted) => TickPlan::WarnAndLogin,
        Ok(NetStatus::Disconnected) => TickPlan::Login,
        Err(_) => TickPlan::ReportError,
    }
}

/// How the stop listener answers a message.
pub enum StopReply {
    /// stop the daemon
    Exit,
    /// send this text back to the manager
    Answer(String),
    /// ignore the message
    Ignore,
}

/// The reply to an "uptime" request: the start time stamp, or "0" when
/// it was not recorded.
pub open spec fn uptime_reply(startup: Option<u64>) -> Seq<char> {
    match startup {
        Some(t) => dec(t as nat),
        None => "0"@,
    }
}

/// The reply owed to a message.
pub open spec fn stop_reply_ok(payload: Seq<char>, startup: Option<u64>, r: StopReply) -> bool {
    if payload == "exit"@ {
        r is Exit
    } else if payload == "uptime"@ {
        r matches StopReply::Answer(t) && t@ == uptime_reply(startup)
    } else {
        r is Ignore
    }
}

/// Answers a message of the message bus: "exit" stops, "uptime" is
/// answered with the start time stamp, anything else is ignored.
pub fn stop_message_reply(payload: &str, startup: Option<u64>) -> (r: StopReply)
    ensures
        stop_reply_ok(payload@, startup, r),
{
    if str_eq(payload, "exit") {
        StopReply::Exit
    } else if str_eq(payload, "uptime") {
        match startup {
            Some(t) => {
                let mut s = String::new();
                push_dec(&mut s, t);
                StopReply::Answer(s)
            },
            None => StopReply::Answer("0".to_owned()),
        }
    } else {
        StopReply::Ignore
    }
}

/// A line read from the stop socket stops the daemon exactly when it is
/// "exit".
pub fn stop_line_exits(line: &str) -> (r: bool)
    ensures
        r == (line@ == "exit"@),
{
    str_eq(line, "exit")
}

/// What a tick of the first network check task does.
pub struct NetCheckPlan {
    /// log in through the browser
    pub connect: bool,
    /// the status remembered for the next tick
    pub last: dtypes::NetStatus,
    /// the value to publish as the global status, when it changes
    pub publish: Option<dtypes::NetStatus>,
}

/// The first network check: a lost network triggers a login; when the
/// status differs from the last one it is remembered and the global
/// status is set to `Connecting`.
pub fn plan_net_check(last: dtypes::NetStatus, cur: dtypes::NetStatus) -> (r: NetCheckPlan)
    ensures
        r.connect == (cur == dtypes::NetStatus::Disconnected),
        cur != last ==> r.last == cur && r.publish == Some(dtypes::NetStatus::Connecting),
        cur == last ==> r.last == last && r.publish is None,
{
    let connect = match cur {
        dtypes::NetStatus::Disconnected => true,
        _ => false,
    };
    if cur != last {
        NetCheckPlan { connect, last: cur, publish: Some(dtypes::NetStatus::Connecting) }
    } else {
        NetCheckPlan { connect, last, publish: None }
    }
}

/// Severity of a log line.
#[derive(PartialEq, Eq, Structural, Debug, Clone, Copy)]
pub enum LogLevel {
    Info,
    Warn,
    Error,
}

/// The stages of a login attempt through the browser.
#[derive(PartialEq, Eq, Structural, Debug, Clone, Copy)]
pub enum ConnectStage {
    /// start ChromeDriver
    StartDriver,
    /// open a Chrome session
    StartChrome,
    /// run the login flow
    Login,
    /// end the Chrome session
    Quit,
}

/// After a stage: what to log (the outcome's message follows the text
/// for failures) and which stage comes next, if any.
pub struct ConnectNext {
    pub log: Option<(LogLevel, &'static str)>,
    pub next: Option<ConnectStage>,
}

/// The Chrome settings a login attempt uses; without them the attempt is
/// abandoned with the given message.
pub fn net_connect_begin(config: &ConfigFile) -> (r: Result<&ChromeConfig, &'static str>)
    ensures
        config.driver.chrome_config matches Some(c) ==> (r matches Ok(x) && *x == c),
        config.driver.chrome_config is None ==> (r matches Err(m) && m@ == "登录失败: Chrome 配置缺失"@),
{
    match &config.driver.chrome_config {
        Some(c) => Ok(c),
        None => Err("登录失败: Chrome 配置缺失"),
    }
}

/// The log line and next stage of a login attempt.
pub open spec fn connect_next_ok(stage: ConnectStage, ok: bool, r: ConnectNext) -> bool {
    match stage {
        ConnectStage::StartDriver => if ok {
            r.log is None && r.next == Some(ConnectStage::StartChrome)
        } else {
            r.log matches Some(l) && l.0 == LogLevel::Error && l.1@ == "启动ChromeDriver失败: "@ && r.next is None
        },
        ConnectStage::StartChrome => if ok {
            r.log is None && r.next == Some(ConnectStage::Login)
        } else {
            r.log matches Some(l) && l.0 == LogLevel::Warn && l.1@ == "Chrome问题: "@ && r.next is None
        },
        ConnectStage::Login => r.next == Some(ConnectStage::Quit) && if ok {
            r.log matches Some(l) && l.0 == LogLevel::Info && l.1@ == "登录成功"@
        } else {
            r.log matches Some(l) && l.0 == LogLevel::Error && l.1@ == "登录失败，错误信息: "@
        },
        ConnectStage::Quit => r.next is None && if ok {
            r.log is None
        } else {
            r.log matches Some(l) && l.0 == LogLevel::Error && l.1@ == "关闭Chrome失败: "@
        },
    }
}

/// A login attempt: start the driver, open Chrome, log in, and end the
/// session whatever the login gave; a failed start ends the attempt.
pub fn net_connect_step(stage: ConnectStage, ok: bool) -> (r: ConnectNext)
    ensures
        connect_next_ok(stage, ok, r),
{
    match stage {
        ConnectStage::StartDriver => if ok {
            ConnectNext { log: None, next: Some(ConnectStage::StartChrome) }
        } else {
            ConnectNext { log: Some((LogLevel::Error, "启动ChromeDriver失败: ")), next: None }
        },
        ConnectStage::StartChrome => if ok {
            ConnectNext { log: None, next: Some(ConnectStage::Login) }
        } else {
            ConnectNext { log: Some((LogLevel::Warn, "Chrome问题: ")), next: None }
        },
        ConnectStage::Login => if ok {
            ConnectNext { log: Some((LogLevel::Info, "登录成功")), next: Some(ConnectStage::Quit) }
        } else {
            ConnectNext { log: Some((LogLevel::Error, "登录失败，错误信息: ")), next: Some(ConnectStage::Quit) }
        },
        ConnectStage::Quit => if ok {
            ConnectNext { log: None, next: None }
        } else {
            ConnectNext { log: Some((LogLevel::Error, "关闭Chrome失败: ")), next: None }
        },
    }
}

/// Law: once Chrome is open the session is always ended, whether the
/// login succeeded or not.
pub proof fn lemma_session_always_closed(ok: bool, r: ConnectNext)
    requires
        connect_next_ok(ConnectStage::Login, ok, r),
    ensures
        r.next == Some(ConnectStage::Quit),
{
}

/// Law: the stop listener stops on "exit" and on nothing else.
pub proof fn lemma_only_exit_stops(payload: Seq<char>, startup: Option<u64>, r: StopReply)
    requires
        stop_reply_ok(payload, startup, r),
    ensures
        r is Exit <==> payload == "exit"@,
{
    if payload == "uptime"@ {
        reveal_strlit("uptime");
        reveal_strlit("exit");
        assert("uptime"@.len() != "exit"@.len());
    }
}

/// Law: the stages of a login attempt: the driver starts first, then
/// Chrome, then the login; a failed start of the driver or of Chrome ends
/// the attempt; after the login, succeeded ("登录成功") or failed, the
/// session is ended, and nothing follows that.
pub proof fn lemma_connect_stages(stage: ConnectStage, ok: bool, r: ConnectNext)
    requires
        connect_next_ok(stage, ok, r),
    ensures
        stage == ConnectStage::StartDriver && ok ==> r.next == Some(ConnectStage::StartChrome),
        stage == ConnectStage::StartChrome && ok ==> r.next == Some(ConnectStage::Login),
        (stage == ConnectStage::StartDriver || stage == ConnectStage::StartChrome) && !ok ==> r.next is None,
        stage == ConnectStage::Login ==> r.next == Some(ConnectStage::Quit),
        stage == ConnectStage::Login && ok ==> (r.log matches Some(l) && l.0 == LogLevel::Info && l.1@ == "登录成功"@),
        stage == ConnectStage::Login && !ok ==> (r.log matches Some(l) && l.0 == LogLevel::Error),
        stage == ConnectStage::Quit ==> r.next is None,
        ok && stage != ConnectStage::Login ==> r.log is None,
{
}

/// Law: an "uptime" message is answered with the recorded start time in
/// decimal, or "0" when none was recorded.
pub proof fn lemma_uptime_answer(startup: Option<u64>, r: StopReply)
    requires
        stop_reply_ok("uptime"@, startup, r),
    ensures
        startup matches Some(t) ==> (r matches StopReply::Answer(a) && a@ == dec(t as nat)),
        startup is None ==> (r matches StopReply::Answer(a) && a@ == "0"@),
{
    reveal_strlit("uptime");
    reveal_strlit("exit");
    assert("uptime"@ != "exit"@) by {
        assert("uptime"@[0] != "exit"@[0]);
    }
}

} // verus!
