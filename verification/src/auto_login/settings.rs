//! Checks of the second configuration layout and the portal ids of the
//! services.
use vstd::prelude::*;
use crate::text::{join, join_strs, views_of};
use crate::auto_login::startup::{complaint_if, push_when};
use crate::auto_login::dtypes::{ConfigFile, NetServiceType};

verus! {

/// The complaints about a configuration, in the order they are reported.
pub open spec fn validation_complaints(c: ConfigFile) -> Seq<Seq<char>> {
    complaint_if(c.connection_wait == 0, "连接等待时间需要大于0s"@)
        + complaint_if(c.connection@.len() == 0, "至少需要一个网络验证服务"@)
        + complaint_if(c.login.username@.len() == 0, "用户名不能为空"@)
        + complaint_if(c.login.password@.len() == 0, "密码不能为空"@)
        + complaint_if(c.login.wait_seconds < 1, "等待时间不能小于1s"@)
        + complaint_if(c.webdriver.chrome_path@.len() == 0, "Chrome目录路径不能为空"@)
        + complaint_if(c.webdriver.driver_path@.len() == 0, "ChromeDriver目录路径不能为空"@)
}

/// The service's element id on the portal.
pub open spec fn service_id(s: NetServiceType) -> Seq<char> {
    match s {
        NetServiceType::CampusNet => "_service_0"@,
        NetServiceType::NanjingMobile => "_service_1"@,
        NetServiceType::ChangzhouTelecom => "_service_2"@,
        NetServiceType::ChangzhouUnion => "_service_3"@,
    }
}

impl ConfigFile {
    /// Checks that waits are positive, some probe is configured and no
    /// credential or path is empty; the complaints are joined by "\n\t".
    pub fn validation(&self) -> (r: Result<(), String>)
        ensures
            r is Ok <==> validation_complaints(*self).len() == 0,
            r is Ok <==> settings_filled(*self),
            r matches Err(m) ==> m@ == join(validation_complaints(*self), "\n\t"@),
    {
        proof {
            lemma_validation_accepted_iff(*self);
        }
        let mut errors: Vec<&'static str> = Vec::new();
        assert(views_of(errors@) =~= seq![]);
        push_when(&mut errors, self.connection_wait == 0, "连接等待时间需要大于0s");
        push_when(&mut errors, self.connection.len() == 0, "至少需要一个网络验证服务");
        push_when(&mut errors, self.login.username.as_str().is_empty(), "用户名不能为空");
        push_when(&mut errors, self.login.password.as_str().is_empty(), "密码不能为空");
        push_when(&mut errors, self.login.wait_seconds < 1, "等待时间不能小于1s");
        push_when(&mut errors, self.webdriver.chrome_path.as_str().is_empty(), "Chrome目录路径不能为空");
        push_when(&mut errors, self.webdriver.driver_path.as_str().is_empty(), "ChromeDriver目录路径不能为空");
        if errors.len() > 0 {
            return Err(join_strs(&errors, "\n\t"));
        }
        Ok(())
    }
}

impl NetServiceType {
    /// The element id that selects the service on the portal.
    pub fn to_service_string(&self) -> (r: String)
        ensures
            r@ == service_id(*self),
    {
        match self {
            NetServiceType::CampusNet => "_service_0".to_owned(),
            NetServiceType::NanjingMobile => "_service_1".to_owned(),
            NetServiceType::ChangzhouTelecom => "_service_2".to_owned(),
            NetServiceType::ChangzhouUnion => "_service_3".to_owned(),
        }
    }
}

/// Law: distinct services select distinct elements.
pub proof fn lemma_service_ids_distinct(a: NetServiceType, b: NetServiceType)
    requires
        a != b,
    ensures
        service_id(a) != service_id(b),
{
    reveal_strlit("_service_0");
    reveal_strlit("_service_1");
    reveal_strlit("_service_2");
    reveal_strlit("_service_3");
    assert(service_id(a)[9] != service_id(b)[9]);
}

/// Waits are positive, a probe is configured, and no credential or path
/// is empty.
pub open spec fn settings_filled(c: ConfigFile) -> bool {
    &&& c.connection_wait > 0
    &&& c.connection@.len() > 0
    &&& c.login.username@.len() > 0
    &&& c.login.password@.len() > 0
    &&& c.login.wait_seconds >= 1
    &&& c.webdriver.chrome_path@.len() > 0
    &&& c.webdriver.driver_path@.len() > 0
}

/// Law: a configuration of the second layout draws no complaint exactly
/// when its waits are positive, a probe is configured and no credential
/// or path is empty.
pub proof fn lemma_validation_accepted_iff(c: ConfigFile)
    ensures
        validation_complaints(c).len() == 0 <==> settings_filled(c),
{
}

} // verus!
