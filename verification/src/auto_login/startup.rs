//! Checks made on the configuration before the daemon starts.
use vstd::prelude::*;
use crate::text::{blank, is_blank, is_ws, join, join_strs, views_of};
use crate::campus_core::config::{ConfigFile, Connection};
use crate::campus_core::errors::CampusError;

verus! {

/// `seq![msg]` when `cond` holds, else nothing.
pub open spec fn complaint_if(cond: bool, msg: Seq<char>) -> Seq<Seq<char>> {
    if cond { seq![msg] } else { seq![] }
}

/// Some probe has a blank URL.
pub open spec fn some_blank_url(conf: ConfigFile) -> bool {
    exists|i: int| 0 <= i < conf.query.connect@.len() && blank(#[trigger] conf.query.connect@[i].url@)
}

/// Some probe has a blank expected value.
pub open spec fn some_blank_val(conf: ConfigFile) -> bool {
    exists|i: int| 0 <= i < conf.query.connect@.len() && blank(#[trigger] conf.query.connect@[i].val@)
}

/// The complaints about the Chrome section.
pub open spec fn chrome_complaints(conf: ConfigFile) -> Seq<Seq<char>> {
    match conf.driver.chrome_config {
        Some(c) => complaint_if(c.port == 0, "驱动端口不能为0"@)
            + complaint_if(blank(c.driver_path@), "Driver路径不能为空"@)
            + complaint_if(blank(c.browser_path@), "浏览器路径不能为空"@),
        None => seq!["Chrome驱动配置缺失"@],
    }
}

/// Every complaint about a configuration, in the order they are reported.
pub open spec fn config_complaints(conf: ConfigFile) -> Seq<Seq<char>> {
    complaint_if(blank(conf.login.info.username@), "用户名不能为空"@)
        + complaint_if(blank(conf.login.info.password@), "密码不能为空"@)
        + complaint_if(blank(conf.login.info.service@), "服务商不能为空"@)
        + complaint_if(blank(conf.login.config.eportal@), "门户地址不能为空"@)
        + complaint_if(conf.login.config.timout == 0, "超时不能为0"@)
        + complaint_if(conf.query.interval == 0, "检测间隔不能为0"@)
        + complaint_if(conf.query.connect@.len() == 0, "连接检测列表不能为空"@)
        + complaint_if(some_blank_url(conf), "连接条目URL不能为空"@)
        + complaint_if(some_blank_val(conf), "连接条目值不能为空"@)
        + chrome_complaints(conf)
}

/// Records `msg` when `cond` holds.
pub(crate) fn push_when(errors: &mut Vec<&'static str>, cond: bool, msg: &'static str)
    ensures
        views_of(final(errors)@) == views_of(old(errors)@) + complaint_if(cond, msg@),
{
    if cond {
        errors.push(msg);
        assert(views_of(errors@) =~= views_of(old(errors)@) + complaint_if(cond, msg@));
    } else {
        assert(views_of(errors@) =~= views_of(old(errors)@) + complaint_if(cond, msg@));
    }
}

/// Checks that no field of the configuration is blank or zero. All
/// complaints are reported together, joined by "；".
#[verifier::rlimit(40)]
pub fn validate_config(conf: &ConfigFile) -> (r: Result<(), CampusError>)
    ensures
        r is Ok <==> config_complaints(*conf).len() == 0,
        r matches Err(e) ==> e matches CampusError::ConfigValidation(m)
            && m@ == join(config_complaints(*conf), "；"@),
{
    let mut errors: Vec<&'static str> = Vec::new();
    let ghost c = *conf;
    assert(views_of(errors@) =~= seq![]);
    push_when(&mut errors, is_blank(conf.login.info.username.as_str()), "用户名不能为空");
    push_when(&mut errors, is_blank(conf.login.info.password.as_str()), "密码不能为空");
    push_when(&mut errors, is_blank(conf.login.info.service.as_str()), "服务商不能为空");
    push_when(&mut errors, is_blank(conf.login.config.eportal.as_str()), "门户地址不能为空");
    push_when(&mut errors, conf.login.config.timout == 0, "超时不能为0");
    push_when(&mut errors, conf.query.interval == 0, "检测间隔不能为0");
    push_when(&mut errors, conf.query.connect.len() == 0, "连接检测列表不能为空");
    let mut has_empty_url = false;
    let mut has_empty_val = false;
    let mut i: usize = 0;
    while i < conf.query.connect.len()
        invariant
            i <= conf.query.connect@.len(),
            has_empty_url == exists|j: int| 0 <= j < i && blank(#[trigger] conf.query.connect@[j].url@),
            has_empty_val == exists|j: int| 0 <= j < i && blank(#[trigger] conf.query.connect@[j].val@),
        decreases conf.query.connect@.len() - i,
    {
        if is_blank(conf.query.connect[i].url.as_str()) {
            has_empty_url = true;
        }
        if is_blank(conf.query.connect[i].val.as_str()) {
            has_empty_val = true;
        }
        i = i + 1;
    }
    push_when(&mut errors, has_empty_url, "连接条目URL不能为空");
    push_when(&mut errors, has_empty_val, "连接条目值不能为空");
    let ghost before = views_of(errors@);
    match &conf.driver.chrome_config {
        Some(chrome) => {
            push_when(&mut errors, chrome.port == 0, "驱动端口不能为0");
            push_when(&mut errors, is_blank(chrome.driver_path.as_str()), "Driver路径不能为空");
            push_when(&mut errors, is_blank(chrome.browser_path.as_str()), "浏览器路径不能为空");
        },
        None => {
            push_when(&mut errors, true, "Chrome驱动配置缺失");
        },
    }
    assert(views_of(errors@) =~= before + chrome_complaints(c));
    assert(config_complaints(c) =~= before + chrome_complaints(c));
    if errors.len() > 0 {
        return Err(CampusError::ConfigValidation(join_strs(&errors, "；")));
    }
    Ok(())
}

/// Law: a configuration is accepted exactly when credentials, service
/// and portal are not blank, the timeout and the interval are positive,
/// at least one probe is configured, no probe has a blank URL or value,
/// and the Chrome section is present with a non-zero port and non-blank
/// paths.
#[verifier::spinoff_prover]
pub proof fn lemma_accepted_iff(conf: ConfigFile)
    ensures
        config_complaints(conf).len() == 0 <==> {
            &&& !blank(conf.login.info.username@)
            &&& !blank(conf.login.info.password@)
            &&& !blank(conf.login.info.service@)
            &&& !blank(conf.login.config.eportal@)
            &&& conf.login.config.timout != 0
            &&& conf.query.interval != 0
            &&& conf.query.connect@.len() != 0
            &&& !some_blank_url(conf)
            &&& !some_blank_val(conf)
            &&& (conf.driver.chrome_config matches Some(c) && c.port != 0
                && !blank(c.driver_path@) && !blank(c.browser_path@))
        },
{
}

/// `n` spaces.
pub open spec fn spaces(n: nat) -> Seq<char> {
    Seq::new(n, |i: int| ' ')
}

/// `s` with `a` spaces before it and `b` after it.
pub open spec fn pad(s: Seq<char>, a: nat, b: nat) -> Seq<char> {
    spaces(a) + s + spaces(b)
}

/// `t` is `s` with spaces added before and after (possibly none).
pub open spec fn padded(s: Seq<char>, t: Seq<char>) -> bool {
    exists|a: nat, b: nat| #[trigger] pad(s, a, b) == t
}

/// Spaces around a text do not change whether it is blank.
pub proof fn lemma_pad_blank(s: Seq<char>, a: nat, b: nat)
    ensures
        blank(pad(s, a, b)) == blank(s),
{
    let p = pad(s, a, b);
    assert(p.len() == a + s.len() + b);
    assert forall|i: int| 0 <= i < a implies p[i] == ' ' by {}
    assert forall|i: int| 0 <= i < s.len() implies p[a + i] == s[i] by {}
    assert forall|i: int| a + s.len() <= i < p.len() implies p[i] == ' ' by {}
    if blank(p) {
        assert forall|i: int| 0 <= i < s.len() implies is_ws(#[trigger] s[i]) by {
            assert(p[a + i] == s[i]);
            assert(is_ws(p[a + i]));
        }
    }
    if blank(s) {
        assert forall|i: int| 0 <= i < p.len() implies is_ws(#[trigger] p[i]) by {
            if i < a {
                assert(p[i] == ' ');
            } else if i < a + s.len() {
                assert(p[i] == s[i - a]);
                assert(is_ws(s[i - a]));
            } else {
                assert(p[i] == ' ');
            }
        }
    }
}

/// A padded text is blank exactly when the text is.
pub proof fn lemma_padded_blank(s: Seq<char>, t: Seq<char>)
    requires
        padded(s, t),
    ensures
        blank(s) == blank(t),
{
    let (a, b) = choose|a: nat, b: nat| #[trigger] pad(s, a, b) == t;
    lemma_pad_blank(s, a, b);
}

/// `conf2` is `conf` with spaces added around any of its text fields.
pub open spec fn padded_config(conf: ConfigFile, conf2: ConfigFile) -> bool {
    &&& padded(conf.login.info.username@, conf2.login.info.username@)
    &&& padded(conf.login.info.password@, conf2.login.info.password@)
    &&& padded(conf.login.info.service@, conf2.login.info.service@)
    &&& padded(conf.login.config.eportal@, conf2.login.config.eportal@)
    &&& conf2.login.config.timout == conf.login.config.timout
    &&& conf2.query.interval == conf.query.interval
    &&& conf2.query.connect@.len() == conf.query.connect@.len()
    &&& forall|i: int| 0 <= i < conf.query.connect@.len() ==>
            padded(#[trigger] conf.query.connect@[i].url@, conf2.query.connect@[i].url@)
            && padded(conf.query.connect@[i].val@, conf2.query.connect@[i].val@)
    &&& match (conf.driver.chrome_config, conf2.driver.chrome_config) {
        (Some(x), Some(y)) => y.port == x.port && padded(x.driver_path@, y.driver_path@)
            && padded(x.browser_path@, y.browser_path@),
        (None, None) => true,
        _ => false,
    }
}

/// Law: spaces added around text fields of a configuration leave the
/// list of complaints, and so the outcome of `validate_config`, as it was.
pub proof fn lemma_padding_keeps_verdict(conf: ConfigFile, conf2: ConfigFile)
    requires
        padded_config(conf, conf2),
    ensures
        config_complaints(conf2) == config_complaints(conf),
{
    lemma_padded_blank(conf.login.info.username@, conf2.login.info.username@);
    lemma_padded_blank(conf.login.info.password@, conf2.login.info.password@);
    lemma_padded_blank(conf.login.info.service@, conf2.login.info.service@);
    lemma_padded_blank(conf.login.config.eportal@, conf2.login.config.eportal@);
    let n = conf.query.connect@.len();
    assert forall|i: int| 0 <= i < n implies
        blank(#[trigger] conf.query.connect@[i].url@) == blank(conf2.query.connect@[i].url@)
        && blank(conf.query.connect@[i].val@) == blank(conf2.query.connect@[i].val@) by {
        lemma_padded_blank(conf.query.connect@[i].url@, conf2.query.connect@[i].url@);
        lemma_padded_blank(conf.query.connect@[i].val@, conf2.query.connect@[i].val@);
    }
    if some_blank_url(conf) {
        let i = choose|i: int| 0 <= i < n && blank(#[trigger] conf.query.connect@[i].url@);
        assert(blank(conf2.query.connect@[i].url@));
    }
    if some_blank_url(conf2) {
        let i = choose|i: int| 0 <= i < n && blank(#[trigger] conf2.query.connect@[i].url@);
        assert(blank(conf.query.connect@[i].url@));
    }
    if some_blank_val(conf) {
        let i = choose|i: int| 0 <= i < n && blank(#[trigger] conf.query.connect@[i].val@);
        assert(blank(conf.query.connect@[i].url@) == blank(conf2.query.connect@[i].url@));
        assert(blank(conf2.query.connect@[i].val@));
    }
    if some_blank_val(conf2) {
        let i = choose|i: int| 0 <= i < n && blank(#[trigger] conf2.query.connect@[i].val@);
        assert(blank(conf.query.connect@[i].url@) == blank(conf2.query.connect@[i].url@));
        assert(blank(conf.query.connect@[i].val@));
    }
    match (conf.driver.chrome_config, conf2.driver.chrome_config) {
        (Some(x), Some(y)) => {
            lemma_padded_blank(x.driver_path@, y.driver_path@);
            lemma_padded_blank(x.browser_path@, y.browser_path@);
        },
        _ => {},
    }
    assert(chrome_complaints(conf2) == chrome_complaints(conf));
}

/// Law: appending a probe with a non-blank URL and value to a non-empty
/// probe list leaves the list of complaints as it was.
pub proof fn lemma_good_probe_keeps_verdict(conf: ConfigFile, conf2: ConfigFile, c: Connection)
    requires
        conf.query.connect@.len() > 0,
        !blank(c.url@),
        !blank(c.val@),
        conf2.login == conf.login,
        conf2.driver == conf.driver,
        conf2.query.interval == conf.query.interval,
        conf2.query.connect@ == conf.query.connect@.push(c),
    ensures
        config_complaints(conf2) == config_complaints(conf),
{
    let n = conf.query.connect@.len();
    assert forall|i: int| 0 <= i < n implies #[trigger] conf2.query.connect@[i] == conf.query.connect@[i] by {}
    assert(conf2.query.connect@[n as int] == c);
    if some_blank_url(conf2) {
        let i = choose|i: int| 0 <= i < n + 1 && blank(#[trigger] conf2.query.connect@[i].url@);
        assert(i < n);
        assert(blank(conf.query.connect@[i].url@));
    }
    if some_blank_url(conf) {
        let i = choose|i: int| 0 <= i < n && blank(#[trigger] conf.query.connect@[i].url@);
        assert(blank(conf2.query.connect@[i].url@));
    }
    if some_blank_val(conf2) {
        let i = choose|i: int| 0 <= i < n + 1 && blank(#[trigger] conf2.query.connect@[i].val@);
        assert(i < n);
        assert(blank(conf.query.connect@[i].val@));
    }
    if some_blank_val(conf) {
        let i = choose|i: int| 0 <= i < n && blank(#[trigger] conf.query.connect@[i].val@);
        assert(blank(conf2.query.connect@[i].val@));
    }
}

} // verus!
