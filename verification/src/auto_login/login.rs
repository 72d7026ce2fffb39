//! The login page flow. The browser is driven by the caller; this module
//! says, stage by stage, what to do in the browser and how the login ends.
//!
//! The flow: open the portal; if the browser was redirected to the
//! success page (its URL, such as ".../eportal/success.jsp", contains
//! "success") the user is already
//! logged in; otherwise wait for the login button (a timeout counts as
//! already logged in), fill user name and password (each by clicking its
//! placeholder, then typing), choose the service, press the button and
//! close the window. Element operations are separated by a 100 ms pause.
use vstd::prelude::*;
use crate::text::{contains, has_sub};
use crate::campus_core::config::Login;
use crate::campus_core::elements::Elements;
use crate::campus_core::errors::CampusError;

verus! {

/// Pause between two element operations, in milliseconds.
pub const CLICK_INTERVAL_MS: u64 = 100;

/// Poll interval while waiting for the login button, in milliseconds.
pub const BUTTON_POLL_MS: u64 = 200;

/// The stages of the flow, in order.
#[derive(PartialEq, Eq, Structural, Debug, Clone, Copy)]
pub enum LoginStage {
    OpenPage,
    CheckUrl,
    AwaitButton,
    UsernameTip,
    UsernameTipPause,
    UsernameInput,
    UsernameInputPause,
    PasswordTip,
    PasswordTipPause,
    PasswordInput,
    PasswordInputPause,
    ServiceTip,
    ServiceTipPause,
    ServiceOption,
    ServiceOptionPause,
    Submit,
    CloseWindow,
}

/// What the browser must do.
pub enum LoginAction {
    /// navigate to the URL
    Goto(String),
    /// read the current URL and report it whole
    ReadUrl,
    /// wait for the element with this id, up to the timeout, polling
    WaitFor { id: String, timeout_secs: u64, poll_millis: u64 },
    /// find the element with this id and click it
    Click(String),
    /// find the element with this id and type the text into it
    Type { id: String, text: String },
    /// sleep this many milliseconds
    Pause(u64),
    /// click the login button found while waiting
    ClickButton,
    /// close the browser window
    CloseWindow,
}

/// What the browser reports about the last action.
pub enum LoginEvent {
    /// the action succeeded
    Done,
    /// the whole current URL (`None` when it could not be read)
    Url(Option<String>),
    /// the element could not be found (or the wait timed out): the message
    FindFailed(String),
    /// the navigation, click, typing or closing failed: the message
    ActFailed(String),
}

/// After an event: continue at a stage, or end.
pub enum LoginNext {
    Continue(LoginStage),
    /// the flow ended; `timed_out` tells that the button never appeared,
    /// which is taken as being logged in already
    Finished { result: Result<(), CampusError>, timed_out: bool },
}

/// Position of a stage in the flow.
pub open spec fn stage_no(s: LoginStage) -> nat {
    match s {
        LoginStage::OpenPage => 0,
        LoginStage::CheckUrl => 1,
        LoginStage::AwaitButton => 2,
        LoginStage::UsernameTip => 3,
        LoginStage::UsernameTipPause => 4,
        LoginStage::UsernameInput => 5,
        LoginStage::UsernameInputPause => 6,
        LoginStage::PasswordTip => 7,
        LoginStage::PasswordTipPause => 8,
        LoginStage::PasswordInput => 9,
        LoginStage::PasswordInputPause => 10,
        LoginStage::ServiceTip => 11,
        LoginStage::ServiceTipPause => 12,
        LoginStage::ServiceOption => 13,
        LoginStage::ServiceOptionPause => 14,
        LoginStage::Submit => 15,
        LoginStage::CloseWindow => 16,
    }
}

/// The stage after `s` (`None` after closing the window).
pub open spec fn following(s: LoginStage) -> Option<LoginStage> {
    match s {
        LoginStage::OpenPage => Some(LoginStage::CheckUrl),
        LoginStage::CheckUrl => Some(LoginStage::AwaitButton),
        LoginStage::AwaitButton => Some(LoginStage::UsernameTip),
        LoginStage::UsernameTip => Some(LoginStage::UsernameTipPause),
        LoginStage::UsernameTipPause => Some(LoginStage::UsernameInput),
        LoginStage::UsernameInput => Some(LoginStage::UsernameInputPause),
        LoginStage::UsernameInputPause => Some(LoginStage::PasswordTip),
        LoginStage::PasswordTip => Some(LoginStage::PasswordTipPause),
        LoginStage::PasswordTipPause => Some(LoginStage::PasswordInput),
        LoginStage::PasswordInput => Some(LoginStage::PasswordInputPause),
        LoginStage::PasswordInputPause => Some(LoginStage::ServiceTip),
        LoginStage::ServiceTip => Some(LoginStage::ServiceTipPause),
        LoginStage::ServiceTipPause => Some(LoginStage::ServiceOption),
        LoginStage::ServiceOption => Some(LoginStage::ServiceOptionPause),
        LoginStage::ServiceOptionPause => Some(LoginStage::Submit),
        LoginStage::Submit => Some(LoginStage::CloseWindow),
        LoginStage::CloseWindow => None,
    }
}

/// The stage is a pause between element operations.
pub open spec fn is_pause(s: LoginStage) -> bool {
    ||| s == LoginStage::UsernameTipPause
    ||| s == LoginStage::UsernameInputPause
    ||| s == LoginStage::PasswordTipPause
    ||| s == LoginStage::PasswordInputPause
    ||| s == LoginStage::ServiceTipPause
    ||| s == LoginStage::ServiceOptionPause
}

/// The browser action of a stage.
pub open spec fn stage_action(login: Login, el: Elements, s: LoginStage) -> LoginAction {
    match s {
        LoginStage::OpenPage => LoginAction::Goto(login.config.eportal),
        LoginStage::CheckUrl => LoginAction::ReadUrl,
        LoginStage::AwaitButton => LoginAction::WaitFor {
            id: el.page.login_button,
            timeout_secs: login.config.timout,
            poll_millis: BUTTON_POLL_MS,
        },
        LoginStage::UsernameTip => LoginAction::Click(el.page.username_tip),
        LoginStage::UsernameInput => LoginAction::Type { id: el.page.username_input, text: login.info.username },
        LoginStage::PasswordTip => LoginAction::Click(el.page.password_tip),
        LoginStage::PasswordInput => LoginAction::Type { id: el.page.password_input, text: login.info.password },
        LoginStage::ServiceTip => LoginAction::Click(el.page.service_tip),
        LoginStage::ServiceOption => LoginAction::Click(login.info.service),
        LoginStage::Submit => LoginAction::ClickButton,
        LoginStage::CloseWindow => LoginAction::CloseWindow,
        _ => LoginAction::Pause(CLICK_INTERVAL_MS),
    }
}

/// Message prefix when the element of a stage cannot be found.
pub open spec fn find_prefix(s: LoginStage) -> Seq<char> {
    match s {
        LoginStage::UsernameTip => "查找占位元素失败: "@,
        LoginStage::PasswordTip => "查找占位元素失败: "@,
        LoginStage::UsernameInput => "查找输入框失败: "@,
        LoginStage::PasswordInput => "查找输入框失败: "@,
        LoginStage::ServiceTip => "查找服务商下拉框失败: "@,
        LoginStage::ServiceOption => "查找服务选项失败: "@,
        LoginStage::Submit => "点击登录按钮失败: "@,
        LoginStage::CloseWindow => "关闭浏览器窗口失败: "@,
        _ => "打开登陆页面失败: "@,
    }
}

/// Message prefix when the operation of a stage fails.
pub open spec fn act_prefix(s: LoginStage) -> Seq<char> {
    match s {
        LoginStage::UsernameTip => "点击占位元素失败: "@,
        LoginStage::PasswordTip => "点击占位元素失败: "@,
        LoginStage::UsernameInput => "输入失败: "@,
        LoginStage::PasswordInput => "输入失败: "@,
        LoginStage::ServiceTip => "点击服务商下拉框失败: "@,
        LoginStage::ServiceOption => "选择服务失败: "@,
        LoginStage::Submit => "点击登录按钮失败: "@,
        LoginStage::CloseWindow => "关闭浏览器窗口失败: "@,
        _ => "打开登陆页面失败: "@,
    }
}

/// Continue after `s`, or finish successfully after the last stage.
pub open spec fn proceed(s: LoginStage) -> LoginNext {
    match following(s) {
        Some(t) => LoginNext::Continue(t),
        None => LoginNext::Finished { result: Ok(()), timed_out: false },
    }
}

/// The failure with message `prefix + m`.
pub open spec fn fail_with(prefix: Seq<char>, m: String, r: LoginNext) -> bool {
    r matches LoginNext::Finished { result: Err(CampusError::LoginFailed(msg)), timed_out: false }
        && msg@ == prefix + m@
}

/// What follows event `ev` at stage `s`.
pub open spec fn step_ok(s: LoginStage, ev: LoginEvent, r: LoginNext) -> bool {
    if is_pause(s) {
        r == proceed(s)
    } else if s == LoginStage::CheckUrl {
        if ev matches LoginEvent::Url(Some(q)) && has_sub(q@, "success"@) {
            r == (LoginNext::Finished { result: Ok(()), timed_out: false })
        } else {
            r == proceed(s)
        }
    } else if s == LoginStage::AwaitButton {
        if ev is Done {
            r == proceed(s)
        } else {
            r == (LoginNext::Finished { result: Ok(()), timed_out: true })
        }
    } else {
        match ev {
            LoginEvent::FindFailed(m) => fail_with(find_prefix(s), m, r),
            LoginEvent::ActFailed(m) => fail_with(act_prefix(s), m, r),
            _ => r == proceed(s),
        }
    }
}

/// The first stage of the flow.
pub fn to_login_begin() -> (s: LoginStage)
    ensures
        s == LoginStage::OpenPage,
{
    LoginStage::OpenPage
}

/// The browser action of stage `s`.
pub fn to_login_action(login: &Login, elements: &Elements, s: LoginStage) -> (a: LoginAction)
    ensures
        a == stage_action(*login, *elements, s),
        s == LoginStage::AwaitButton ==> (a matches LoginAction::WaitFor { id, timeout_secs, poll_millis }
            && id@ == elements.page.login_button@ && timeout_secs == login.config.timout && poll_millis == 200),
{
    match s {
        LoginStage::OpenPage => LoginAction::Goto(login.config.eportal.clone()),
        LoginStage::CheckUrl => LoginAction::ReadUrl,
        LoginStage::AwaitButton => LoginAction::WaitFor {
            id: elements.page.login_button.clone(),
            timeout_secs: login.config.timout,
            poll_millis: BUTTON_POLL_MS,
        },
        LoginStage::UsernameTip => LoginAction::Click(elements.page.username_tip.clone()),
        LoginStage::UsernameInput => LoginAction::Type {
            id: elements.page.username_input.clone(),
            text: login.info.username.clone(),
        },
        LoginStage::PasswordTip => LoginAction::Click(elements.page.password_tip.clone()),
        LoginStage::PasswordInput => LoginAction::Type {
            id: elements.page.password_input.clone(),
            text: login.info.password.clone(),
        },
        LoginStage::ServiceTip => LoginAction::Click(elements.page.service_tip.clone()),
        LoginStage::ServiceOption => LoginAction::Click(login.info.service.clone()),
        LoginStage::Submit => LoginAction::ClickButton,
        LoginStage::CloseWindow => LoginAction::CloseWindow,
        _ => LoginAction::Pause(CLICK_INTERVAL_MS),
    }
}

fn proceed_exec(s: LoginStage) -> (r: LoginNext)
    ensures
        r == proceed(s),
{
    match s {
        LoginStage::OpenPage => LoginNext::Continue(LoginStage::CheckUrl),
        LoginStage::CheckUrl => LoginNext::Continue(LoginStage::AwaitButton),
        LoginStage::AwaitButton => LoginNext::Continue(LoginStage::UsernameTip),
        LoginStage::UsernameTip => LoginNext::Continue(LoginStage::UsernameTipPause),
        LoginStage::UsernameTipPause => LoginNext::Continue(LoginStage::UsernameInput),
        LoginStage::UsernameInput => LoginNext::Continue(LoginStage::UsernameInputPause),
        LoginStage::UsernameInputPause => LoginNext::Continue(LoginStage::PasswordTip),
        LoginStage::PasswordTip => LoginNext::Continue(LoginStage::PasswordTipPause),
        LoginStage::PasswordTipPause => LoginNext::Continue(LoginStage::PasswordInput),
        LoginStage::PasswordInput => LoginNext::Continue(LoginStage::PasswordInputPause),
        LoginStage::PasswordInputPause => LoginNext::Continue(LoginStage::ServiceTip),
        LoginStage::ServiceTip => LoginNext::Continue(LoginStage::ServiceTipPause),
        LoginStage::ServiceTipPause => LoginNext::Continue(LoginStage::ServiceOption),
        LoginStage::ServiceOption => LoginNext::Continue(LoginStage::ServiceOptionPause),
        LoginStage::ServiceOptionPause => LoginNext::Continue(LoginStage::Submit),
        LoginStage::Submit => LoginNext::Continue(LoginStage::CloseWindow),
        LoginStage::CloseWindow => LoginNext::Finished { result: Ok(()), timed_out: false },
    }
}

fn prefixes(s: LoginStage) -> (r: (&'static str, &'static str))
    ensures
        r.0@ == find_prefix(s),
        r.1@ == act_prefix(s),
{
    match s {
        LoginStage::UsernameTip => ("查找占位元素失败: ", "点击占位元素失败: "),
        LoginStage::PasswordTip => ("查找占位元素失败: ", "点击占位元素失败: "),
        LoginStage::UsernameInput => ("查找输入框失败: ", "输入失败: "),
        LoginStage::PasswordInput => ("查找输入框失败: ", "输入失败: "),
        LoginStage::ServiceTip => ("查找服务商下拉框失败: ", "点击服务商下拉框失败: "),
        LoginStage::ServiceOption => ("查找服务选项失败: ", "选择服务失败: "),
        LoginStage::Submit => ("点击登录按钮失败: ", "点击登录按钮失败: "),
        LoginStage::CloseWindow => ("关闭浏览器窗口失败: ", "关闭浏览器窗口失败: "),
        _ => ("打开登陆页面失败: ", "打开登陆页面失败: "),
    }
}

fn fail_exec(prefix: &str, m: String) -> (r: LoginNext)
    ensures
        fail_with(prefix@, m, r),
{
    let mut msg = prefix.to_owned();
    msg.append(m.as_str());
    LoginNext::Finished { result: Err(CampusError::LoginFailed(msg)), timed_out: false }
}

/// What follows the browser's report `ev` on the action of stage `s`.
pub fn to_login_step(s: LoginStage, ev: LoginEvent) -> (r: LoginNext)
    ensures
        step_ok(s, ev, r),
{
    match s {
        LoginStage::UsernameTipPause | LoginStage::UsernameInputPause | LoginStage::PasswordTipPause
        | LoginStage::PasswordInputPause | LoginStage::ServiceTipPause
        | LoginStage::ServiceOptionPause => proceed_exec(s),
        LoginStage::CheckUrl => {
            if let LoginEvent::Url(Some(q)) = &ev {
                if contains(q.as_str(), "success") {
                    return LoginNext::Finished { result: Ok(()), timed_out: false };
                }
            }
            proceed_exec(s)
        },
        LoginStage::AwaitButton => {
            if let LoginEvent::Done = ev {
                proceed_exec(s)
            } else {
                LoginNext::Finished { result: Ok(()), timed_out: true }
            }
        },
        _ => {
            let (fp, ap) = prefixes(s);
            match ev {
                LoginEvent::FindFailed(m) => fail_exec(fp, m),
                LoginEvent::ActFailed(m) => fail_exec(ap, m),
                _ => proceed_exec(s),
            }
        },
    }
}

/// Law: the flow moves strictly forward, so it ends after at most
/// seventeen browser actions.
pub proof fn lemma_login_progress(s: LoginStage, ev: LoginEvent, r: LoginNext)
    requires
        step_ok(s, ev, r),
    ensures
        r matches LoginNext::Continue(t) ==> stage_no(t) == stage_no(s) + 1,
        stage_no(s) < 17,
{
}

/// Law: a portal that already redirected to its success page ends the
/// flow at once with success; nothing is typed.
pub proof fn lemma_already_logged_in(q: String, r: LoginNext)
    requires
        has_sub(q@, "success"@),
        step_ok(LoginStage::CheckUrl, LoginEvent::Url(Some(q)), r),
    ensures
        r == (LoginNext::Finished { result: Ok(()), timed_out: false }),
{
}

/// Law: the credentials are typed only into their own input fields.
pub proof fn lemma_credentials_placement(login: Login, el: Elements, s: LoginStage)
    ensures
        stage_action(login, el, s) matches LoginAction::Type { id, text } ==> (
            (s == LoginStage::UsernameInput && id == el.page.username_input && text == login.info.username)
            || (s == LoginStage::PasswordInput && id == el.page.password_input && text == login.info.password)),
{
}

/// Law: the browser actions of the flow, stage by stage. The portal
/// configured in the login section is opened; the login button is
/// awaited for the configured timeout (`timout` seconds), polling every
/// 200 ms; each placeholder, input and the service drop-down use the ids
/// of the page elements; the chosen option is the configured service; the
/// stages between element operations pause 100 ms.
pub proof fn lemma_stage_actions(login: Login, el: Elements)
    ensures
        stage_action(login, el, LoginStage::OpenPage) == LoginAction::Goto(login.config.eportal),
        stage_action(login, el, LoginStage::CheckUrl) == LoginAction::ReadUrl,
        stage_action(login, el, LoginStage::AwaitButton) == (LoginAction::WaitFor {
            id: el.page.login_button, timeout_secs: login.config.timout, poll_millis: 200 }),
        stage_action(login, el, LoginStage::UsernameTip) == LoginAction::Click(el.page.username_tip),
        stage_action(login, el, LoginStage::UsernameInput)
            == (LoginAction::Type { id: el.page.username_input, text: login.info.username }),
        stage_action(login, el, LoginStage::PasswordTip) == LoginAction::Click(el.page.password_tip),
        stage_action(login, el, LoginStage::PasswordInput)
            == (LoginAction::Type { id: el.page.password_input, text: login.info.password }),
        stage_action(login, el, LoginStage::ServiceTip) == LoginAction::Click(el.page.service_tip),
        stage_action(login, el, LoginStage::ServiceOption) == LoginAction::Click(login.info.service),
        stage_action(login, el, LoginStage::Submit) == LoginAction::ClickButton,
        stage_action(login, el, LoginStage::CloseWindow) == LoginAction::CloseWindow,
        forall|s: LoginStage| #[trigger] is_pause(s) ==> stage_action(login, el, s) == LoginAction::Pause(100),
{
}

/// Law: how the flow reacts to the browser's reports. Each stage that
/// went through hands over to the next one, in the order portal, URL
/// check, login button, user name placeholder and input, password
/// placeholder and input, service drop-down and option, submit, close;
/// closing the window ends the login with success. A URL containing
/// "success" ends it at once with success; a login button that never
/// appears ends it as already logged in; a failed element operation ends
/// it with the stage's message followed by the browser's.
pub proof fn lemma_login_decisions(s: LoginStage, ev: LoginEvent, r: LoginNext)
    requires
        step_ok(s, ev, r),
    ensures
        s == LoginStage::OpenPage && ev is Done ==> r == LoginNext::Continue(LoginStage::CheckUrl),
        s == LoginStage::AwaitButton && ev is Done ==> r == LoginNext::Continue(LoginStage::UsernameTip),
        s == LoginStage::UsernameTip && ev is Done ==> r == LoginNext::Continue(LoginStage::UsernameTipPause),
        s == LoginStage::UsernameTipPause && ev is Done ==> r == LoginNext::Continue(LoginStage::UsernameInput),
        s == LoginStage::UsernameInput && ev is Done ==> r == LoginNext::Continue(LoginStage::UsernameInputPause),
        s == LoginStage::UsernameInputPause && ev is Done ==> r == LoginNext::Continue(LoginStage::PasswordTip),
        s == LoginStage::PasswordTip && ev is Done ==> r == LoginNext::Continue(LoginStage::PasswordTipPause),
        s == LoginStage::PasswordTipPause && ev is Done ==> r == LoginNext::Continue(LoginStage::PasswordInput),
        s == LoginStage::PasswordInput && ev is Done ==> r == LoginNext::Continue(LoginStage::PasswordInputPause),
        s == LoginStage::PasswordInputPause && ev is Done ==> r == LoginNext::Continue(LoginStage::ServiceTip),
        s == LoginStage::ServiceTip && ev is Done ==> r == LoginNext::Continue(LoginStage::ServiceTipPause),
        s == LoginStage::ServiceTipPause && ev is Done ==> r == LoginNext::Continue(LoginStage::ServiceOption),
        s == LoginStage::ServiceOption && ev is Done ==> r == LoginNext::Continue(LoginStage::ServiceOptionPause),
        s == LoginStage::ServiceOptionPause && ev is Done ==> r == LoginNext::Continue(LoginStage::Submit),
        s == LoginStage::Submit && ev is Done ==> r == LoginNext::Continue(LoginStage::CloseWindow),
        s == LoginStage::CloseWindow && ev is Done ==> r == (LoginNext::Finished { result: Ok(()), timed_out: false }),
        s == LoginStage::CheckUrl && (ev matches LoginEvent::Url(Some(u)) && has_sub(u@, "success"@))
            ==> r == (LoginNext::Finished { result: Ok(()), timed_out: false }),
        s == LoginStage::CheckUrl && !(ev matches LoginEvent::Url(Some(u)) && has_sub(u@, "success"@))
            ==> r == LoginNext::Continue(LoginStage::AwaitButton),
        s == LoginStage::AwaitButton && !(ev is Done) ==> r == (LoginNext::Finished { result: Ok(()), timed_out: true }),
        s == LoginStage::UsernameInput && (ev matches LoginEvent::ActFailed(m)) ==>
            (r matches LoginNext::Finished { result: Err(CampusError::LoginFailed(msg)), timed_out: false }
                && msg@ == "输入失败: "@ + ev->ActFailed_0@),
        s == LoginStage::ServiceOption && (ev matches LoginEvent::FindFailed(m)) ==>
            (r matches LoginNext::Finished { result: Err(CampusError::LoginFailed(msg)), timed_out: false }
                && msg@ == "查找服务选项失败: "@ + ev->FindFailed_0@),
        s == LoginStage::Submit && (ev matches LoginEvent::ActFailed(m)) ==>
            (r matches LoginNext::Finished { result: Err(CampusError::LoginFailed(msg)), timed_out: false }
                && msg@ == "点击登录按钮失败: "@ + ev->ActFailed_0@),
{
}

} // verus!
