//! The first login page flow, with the page's element ids built in. The
//! browser is driven by the caller, as for the current flow.
//!
//! After the page opens, the flow waits the configured `wait_seconds`
//! so that the page's elements have loaded.
//!
//! Differences from the current flow: a timeout while waiting for the
//! login button is an error; the user name field is clicked before typing;
//! pauses are 200 ms; errors of individual clicks and key presses are
//! passed on unchanged.
use vstd::prelude::*;
use crate::text::{contains, has_sub};
use crate::auto_login::config::LoginInfo;

verus! {

/// Pause of this flow, in milliseconds.
pub const LEGACY_PAUSE_MS: u64 = 200;

/// The stages of the first flow.
pub enum LegacyStage {
    OpenPage,
    /// wait `wait_seconds` after the page opened
    PageWait,
    CheckUrl,
    AwaitButton,
    /// look up the user name field
    FindUsername,
    /// pause after the lookup; the lookup's failure message, if any
    UsernamePause(Option<String>),
    ClickUsername,
    TypeUsername,
    FindPassword,
    PasswordPause,
    ClickPasswordTip,
    PasswordTipPause,
    TypePassword,
    FindService,
    ClickService,
    ChooseService,
    Submit,
    CloseWindow,
}

/// What the browser must do.
pub enum LegacyAction {
    /// navigate to the URL
    Goto(String),
    /// report the whole current URL (`None` when it cannot be read)
    ReadUrl,
    /// wait for the element with this id (timeout, poll interval)
    WaitFor { id: String, timeout_secs: u64, poll_millis: u64 },
    /// look up the element with this id and keep it as the current field
    Find(String),
    /// look up the element with this id and click it
    Click(String),
    /// click the current field
    ClickField,
    /// type into the current field
    TypeField(String),
    /// sleep this many milliseconds
    Pause(u64),
    /// click the login button found while waiting
    ClickButton,
    /// close the browser window
    CloseWindow,
}

/// What the browser reports (as for the current flow).
pub enum LegacyEvent {
    Done,
    Url(Option<String>),
    FindFailed(String),
    ActFailed(String),
}

/// After an event: continue at a stage, or end with a result (errors are
/// messages).
pub enum LegacyNext {
    Continue(LegacyStage),
    Finished(Result<(), String>),
}

/// `a` is the browser action of stage `s`.
pub open spec fn legacy_action_ok(info: LoginInfo, s: LegacyStage, a: LegacyAction) -> bool {
    match s {
        LegacyStage::OpenPage => a matches LegacyAction::Goto(u) && u@ == info.eportal@,
        LegacyStage::PageWait => a == LegacyAction::Pause((info.wait_seconds * 1000) as u64),
        LegacyStage::CheckUrl => a is ReadUrl,
        LegacyStage::AwaitButton => a matches LegacyAction::WaitFor { id, timeout_secs, poll_millis }
            && id@ == "loginLink_div"@ && timeout_secs == 10 && poll_millis == 500,
        LegacyStage::FindUsername => a matches LegacyAction::Find(id) && id@ == "username"@,
        LegacyStage::UsernamePause(_) => a == LegacyAction::Pause(LEGACY_PAUSE_MS),
        LegacyStage::ClickUsername => a is ClickField,
        LegacyStage::TypeUsername => a matches LegacyAction::TypeField(t) && t@ == info.username@,
        LegacyStage::FindPassword => a matches LegacyAction::Find(id) && id@ == "pwd"@,
        LegacyStage::PasswordPause => a == LegacyAction::Pause(LEGACY_PAUSE_MS),
        LegacyStage::ClickPasswordTip => a matches LegacyAction::Click(id) && id@ == "pwd_tip"@,
        LegacyStage::PasswordTipPause => a == LegacyAction::Pause(LEGACY_PAUSE_MS),
        LegacyStage::TypePassword => a matches LegacyAction::TypeField(t) && t@ == info.password@,
        LegacyStage::FindService => a matches LegacyAction::Find(id) && id@ == "selectDisname"@,
        LegacyStage::ClickService => a is ClickField,
        LegacyStage::ChooseService => a matches LegacyAction::Click(id) && id@ == info.service@,
        LegacyStage::Submit => a is ClickButton,
        LegacyStage::CloseWindow => a is CloseWindow,
    }
}

/// The message of a failure event.
pub open spec fn event_message(ev: LegacyEvent) -> Option<String> {
    match ev {
        LegacyEvent::FindFailed(m) => Some(m),
        LegacyEvent::ActFailed(m) => Some(m),
        _ => None,
    }
}

/// Continue at `t`.
pub open spec fn goes_to(r: LegacyNext, t: LegacyStage) -> bool {
    r == LegacyNext::Continue(t)
}

/// End with the error `prefix + m`.
pub open spec fn fails_with(r: LegacyNext, prefix: Seq<char>, m: String) -> bool {
    r matches LegacyNext::Finished(Err(e)) && e@ == prefix + m@
}

/// For an ordinary step: continue at `t`, or pass a failure on unchanged.
pub open spec fn plain_step(ev: LegacyEvent, r: LegacyNext, t: LegacyStage) -> bool {
    match event_message(ev) {
        Some(m) => r matches LegacyNext::Finished(Err(e)) && e@ == m@,
        None => goes_to(r, t),
    }
}

/// What follows event `ev` at stage `s`.
pub open spec fn legacy_step_ok(s: LegacyStage, ev: LegacyEvent, r: LegacyNext) -> bool {
    match s {
        LegacyStage::OpenPage => match event_message(ev) {
            Some(m) => fails_with(r, "网页打开失败: "@, m),
            None => goes_to(r, LegacyStage::PageWait),
        },
        LegacyStage::PageWait => goes_to(r, LegacyStage::CheckUrl),
        LegacyStage::CheckUrl => if ev matches LegacyEvent::Url(Some(q)) && has_sub(q@, "success"@) {
            r == LegacyNext::Finished(Ok(()))
        } else {
            goes_to(r, LegacyStage::AwaitButton)
        },
        LegacyStage::AwaitButton => if ev is Done {
            goes_to(r, LegacyStage::FindUsername)
        } else {
            r matches LegacyNext::Finished(Err(e)) && e@ == "登录页面加载超时"@
        },
        LegacyStage::FindUsername => goes_to(r, LegacyStage::UsernamePause(event_message(ev))),
        LegacyStage::UsernamePause(failed) => match failed {
            Some(m) => fails_with(r, "用户名输入框查找失败: "@, m),
            None => goes_to(r, LegacyStage::ClickUsername),
        },
        LegacyStage::ClickUsername => plain_step(ev, r, LegacyStage::TypeUsername),
        LegacyStage::TypeUsername => plain_step(ev, r, LegacyStage::FindPassword),
        LegacyStage::FindPassword => match event_message(ev) {
            Some(m) => fails_with(r, "密码输入框查找失败: "@, m),
            None => goes_to(r, LegacyStage::PasswordPause),
        },
        LegacyStage::PasswordPause => goes_to(r, LegacyStage::ClickPasswordTip),
        LegacyStage::ClickPasswordTip => plain_step(ev, r, LegacyStage::PasswordTipPause),
        LegacyStage::PasswordTipPause => goes_to(r, LegacyStage::TypePassword),
        LegacyStage::TypePassword => plain_step(ev, r, LegacyStage::FindService),
        LegacyStage::FindService => match event_message(ev) {
            Some(m) => fails_with(r, "服务选择框查找失败: "@, m),
            None => goes_to(r, LegacyStage::ClickService),
        },
        LegacyStage::ClickService => plain_step(ev, r, LegacyStage::ChooseService),
        LegacyStage::ChooseService => plain_step(ev, r, LegacyStage::Submit),
        LegacyStage::Submit => plain_step(ev, r, LegacyStage::CloseWindow),
        LegacyStage::CloseWindow => match event_message(ev) {
            Some(m) => r matches LegacyNext::Finished(Err(e)) && e@ == m@,
            None => r == LegacyNext::Finished(Ok(())),
        },
    }
}

/// The browser action of stage `s`.
pub fn legacy_login_action(info: &LoginInfo, s: &LegacyStage) -> (a: LegacyAction)
    ensures
        legacy_action_ok(*info, *s, a),
{
    match s {
        LegacyStage::OpenPage => LegacyAction::Goto(info.eportal.clone()),
        LegacyStage::PageWait => LegacyAction::Pause(info.wait_seconds as u64 * 1000),
        LegacyStage::CheckUrl => LegacyAction::ReadUrl,
        LegacyStage::AwaitButton => LegacyAction::WaitFor {
            id: "loginLink_div".to_owned(),
            timeout_secs: 10,
            poll_millis: 500,
        },
        LegacyStage::FindUsername => LegacyAction::Find("username".to_owned()),
        LegacyStage::UsernamePause(_) => LegacyAction::Pause(LEGACY_PAUSE_MS),
        LegacyStage::ClickUsername => LegacyAction::ClickField,
        LegacyStage::TypeUsername => LegacyAction::TypeField(info.username.clone()),
        LegacyStage::FindPassword => LegacyAction::Find("pwd".to_owned()),
        LegacyStage::PasswordPause => LegacyAction::Pause(LEGACY_PAUSE_MS),
        LegacyStage::ClickPasswordTip => LegacyAction::Click("pwd_tip".to_owned()),
        LegacyStage::PasswordTipPause => LegacyAction::Pause(LEGACY_PAUSE_MS),
        LegacyStage::TypePassword => LegacyAction::TypeField(info.password.clone()),
        LegacyStage::FindService => LegacyAction::Find("selectDisname".to_owned()),
        LegacyStage::ClickService => LegacyAction::ClickField,
        LegacyStage::ChooseService => LegacyAction::Click(info.service.clone()),
        LegacyStage::Submit => LegacyAction::ClickButton,
        LegacyStage::CloseWindow => LegacyAction::CloseWindow,
    }
}

fn prefixed(prefix: &str, m: String) -> (r: LegacyNext)
    ensures
        fails_with(r, prefix@, m),
{
    let mut e = prefix.to_owned();
    e.append(m.as_str());
    LegacyNext::Finished(Err(e))
}

fn message_of(ev: LegacyEvent) -> (r: Option<String>)
    ensures
        r == event_message(ev),
{
    match ev {
        LegacyEvent::FindFailed(m) => Some(m),
        LegacyEvent::ActFailed(m) => Some(m),
        _ => None,
    }
}

fn plain(ev: LegacyEvent, t: LegacyStage) -> (r: LegacyNext)
    ensures
        plain_step(ev, r, t),
{
    match message_of(ev) {
        Some(m) => LegacyNext::Finished(Err(m)),
        None => LegacyNext::Continue(t),
    }
}

/// What follows the browser's report `ev` on the action of stage `s`.
pub fn legacy_login_step(s: LegacyStage, ev: LegacyEvent) -> (r: LegacyNext)
    ensures
        legacy_step_ok(s, ev, r),
{
    match s {
        LegacyStage::OpenPage => match message_of(ev) {
            Some(m) => prefixed("网页打开失败: ", m),
            None => LegacyNext::Continue(LegacyStage::PageWait),
        },
        LegacyStage::PageWait => LegacyNext::Continue(LegacyStage::CheckUrl),
        LegacyStage::CheckUrl => {
            if let LegacyEvent::Url(Some(q)) = &ev {
                if contains(q.as_str(), "success") {
                    return LegacyNext::Finished(Ok(()));
                }
            }
            LegacyNext::Continue(LegacyStage::AwaitButton)
        },
        LegacyStage::AwaitButton => {
            if let LegacyEvent::Done = ev {
                LegacyNext::Continue(LegacyStage::FindUsername)
            } else {
                LegacyNext::Finished(Err("登录页面加载超时".to_owned()))
            }
        },
        LegacyStage::FindUsername => LegacyNext::Continue(LegacyStage::UsernamePause(message_of(ev))),
        LegacyStage::UsernamePause(failed) => match failed {
            Some(m) => prefixed("用户名输入框查找失败: ", m),
            None => LegacyNext::Continue(LegacyStage::ClickUsername),
        },
        LegacyStage::ClickUsername => plain(ev, LegacyStage::TypeUsername),
        LegacyStage::TypeUsername => plain(ev, LegacyStage::FindPassword),
        LegacyStage::FindPassword => match message_of(ev) {
            Some(m) => prefixed("密码输入框查找失败: ", m),
            None => LegacyNext::Continue(LegacyStage::PasswordPause),
        },
        LegacyStage::PasswordPause => LegacyNext::Continue(LegacyStage::ClickPasswordTip),
        LegacyStage::ClickPasswordTip => plain(ev, LegacyStage::PasswordTipPause),
        LegacyStage::PasswordTipPause => LegacyNext::Continue(LegacyStage::TypePassword),
        LegacyStage::TypePassword => plain(ev, LegacyStage::FindService),
        LegacyStage::FindService => match message_of(ev) {
            Some(m) => prefixed("服务选择框查找失败: ", m),
            None => LegacyNext::Continue(LegacyStage::ClickService),
        },
        LegacyStage::ClickService => plain(ev, LegacyStage::ChooseService),
        LegacyStage::ChooseService => plain(ev, LegacyStage::Submit),
        LegacyStage::Submit => plain(ev, LegacyStage::CloseWindow),
        LegacyStage::CloseWindow => match message_of(ev) {
            Some(m) => LegacyNext::Finished(Err(m)),
            None => LegacyNext::Finished(Ok(())),
        },
    }
}

/// Law: the browser actions of the first flow: the configured portal is
/// opened, then the flow waits `wait_seconds` seconds, the login button
/// is awaited for 10 s (polling every 500 ms), the credentials are typed
/// into the current field, and the chosen option is the configured
/// service.
pub proof fn lemma_legacy_actions(info: LoginInfo, s: LegacyStage, a: LegacyAction)
    requires
        legacy_action_ok(info, s, a),
    ensures
        s is OpenPage ==> (a matches LegacyAction::Goto(u) && u@ == info.eportal@),
        s is PageWait ==> a == LegacyAction::Pause((info.wait_seconds * 1000) as u64),
        s is AwaitButton ==> (a matches LegacyAction::WaitFor { id, timeout_secs, poll_millis }
            && id@ == "loginLink_div"@ && timeout_secs == 10 && poll_millis == 500),
        s is TypeUsername ==> (a matches LegacyAction::TypeField(t) && t@ == info.username@),
        s is TypePassword ==> (a matches LegacyAction::TypeField(t) && t@ == info.password@),
        s is ChooseService ==> (a matches LegacyAction::Click(id) && id@ == info.service@),
        s is Submit ==> a is ClickButton,
        s is CloseWindow ==> a is CloseWindow,
{
}

/// Law: how the first flow reacts to the browser's reports. Each stage
/// that went through hands over to the next; closing the window ends the
/// login with success; a URL containing "success" ends it at once with
/// success; a login button that never appears is an error ("登录页面加载超时");
/// a page that cannot be opened ends it with "网页打开失败: " and the
/// browser's message.
pub proof fn lemma_legacy_decisions(s: LegacyStage, ev: LegacyEvent, r: LegacyNext)
    requires
        legacy_step_ok(s, ev, r),
    ensures
        s == LegacyStage::OpenPage && ev is Done ==> r == LegacyNext::Continue(LegacyStage::PageWait),
        s == LegacyStage::PageWait && ev is Done ==> r == LegacyNext::Continue(LegacyStage::CheckUrl),
        s == LegacyStage::AwaitButton && ev is Done ==> r == LegacyNext::Continue(LegacyStage::FindUsername),
        s == LegacyStage::ClickUsername && ev is Done ==> r == LegacyNext::Continue(LegacyStage::TypeUsername),
        s == LegacyStage::TypeUsername && ev is Done ==> r == LegacyNext::Continue(LegacyStage::FindPassword),
        s == LegacyStage::FindPassword && ev is Done ==> r == LegacyNext::Continue(LegacyStage::PasswordPause),
        s == LegacyStage::PasswordPause && ev is Done ==> r == LegacyNext::Continue(LegacyStage::ClickPasswordTip),
        s == LegacyStage::ClickPasswordTip && ev is Done ==> r == LegacyNext::Continue(LegacyStage::PasswordTipPause),
        s == LegacyStage::PasswordTipPause && ev is Done ==> r == LegacyNext::Continue(LegacyStage::TypePassword),
        s == LegacyStage::TypePassword && ev is Done ==> r == LegacyNext::Continue(LegacyStage::FindService),
        s == LegacyStage::FindService && ev is Done ==> r == LegacyNext::Continue(LegacyStage::ClickService),
        s == LegacyStage::ClickService && ev is Done ==> r == LegacyNext::Continue(LegacyStage::ChooseService),
        s == LegacyStage::ChooseService && ev is Done ==> r == LegacyNext::Continue(LegacyStage::Submit),
        s == LegacyStage::Submit && ev is Done ==> r == LegacyNext::Continue(LegacyStage::CloseWindow),
        s is FindUsername && ev is Done ==> r == LegacyNext::Continue(LegacyStage::UsernamePause(None)),
        s == LegacyStage::UsernamePause(None) ==> r == LegacyNext::Continue(LegacyStage::ClickUsername),
        s is CloseWindow && ev is Done ==> r == LegacyNext::Finished(Ok(())),
        s is CheckUrl && (ev matches LegacyEvent::Url(Some(u)) && has_sub(u@, "success"@)) ==> r == LegacyNext::Finished(Ok(())),
        s is CheckUrl && !(ev matches LegacyEvent::Url(Some(u)) && has_sub(u@, "success"@))
            ==> r == LegacyNext::Continue(LegacyStage::AwaitButton),
        s is AwaitButton && !(ev is Done) ==> (r matches LegacyNext::Finished(Err(e)) && e@ == "登录页面加载超时"@),
        s is OpenPage && (ev matches LegacyEvent::ActFailed(m)) ==>
            (r matches LegacyNext::Finished(Err(e)) && e@ == "网页打开失败: "@ + ev->ActFailed_0@),
{
}

} // verus!
