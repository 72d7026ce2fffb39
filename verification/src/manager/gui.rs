//! Text produced and checked by the manager window: the uptime label, the
//! configuration file written from the form, the form's checks and the
//! log excerpt.
use vstd::prelude::*;
use crate::text::{blank, dec, is_blank, join, join_strs, views_of, push_dec, chars_of, next_line,
    lines, lines_from, line_at, string_of};
use crate::auto_login::startup::{complaint_if, push_when};
use crate::campus_core::config::ConfigFile;
use crate::manager::services::{first_index, service_id_at, service_index, ServiceEntry};

verus! {

/// The uptime label for `e` elapsed seconds: hours and minutes, or minutes
/// and seconds, or seconds.
pub open spec fn uptime_text(e: nat) -> Seq<char> {
    let h = e / 3600;
    let m = (e % 3600) / 60;
    let s = e % 60;
    if h > 0 {
        dec(h) + "h "@ + dec(m) + "m"@
    } else if m > 0 {
        dec(m) + "m "@ + dec(s) + "s"@
    } else {
        dec(s) + "s"@
    }
}

/// Formats an elapsed time for display ("2h 5m", "3m 7s", "42s").
pub fn format_uptime(elapsed_secs: u64) -> (r: String)
    ensures
        r@ == uptime_text(elapsed_secs as nat),
{
    let h = elapsed_secs / 3600;
    let m = (elapsed_secs % 3600) / 60;
    let s = elapsed_secs % 60;
    let mut out = String::new();
    if h > 0 {
        push_dec(&mut out, h);
        out.append("h ");
        push_dec(&mut out, m);
        out.append("m");
    } else if m > 0 {
        push_dec(&mut out, m);
        out.append("m ");
        push_dec(&mut out, s);
        out.append("s");
    } else {
        push_dec(&mut out, s);
        out.append("s");
    }
    out
}

/// One probe entry of the configuration file.
pub open spec fn connect_entry(url: Seq<char>, val: Seq<char>) -> Seq<char> {
    "[[query.connect]]\nurl = \""@ + url + "\"\nvalue = \""@ + val + "\""@
}

/// The probe entries, separated by blank lines.
pub open spec fn connect_block(cs: Seq<(String, String)>) -> Seq<char> {
    join(cs.map_values(|p: (String, String)| connect_entry(p.0@, p.1@)), "\n\n"@)
}

/// The configuration file text for the form's values.
pub open spec fn form_toml(
    username: Seq<char>, password: Seq<char>, service: Seq<char>,
    eportal: Seq<char>, timout: Seq<char>, interval: Seq<char>,
    cs: Seq<(String, String)>,
    driver_port: Seq<char>, driver_path: Seq<char>, browser_path: Seq<char>,
) -> Seq<char> {
    "[login.info]\nusername = \""@ + username + "\"\npassword = \""@ + password
        + "\"\nservice = \""@ + service + "\"\n\n[login.config]\neportal = \""@ + eportal
        + "\"\ntimout = "@ + timout + "\n\n[query]\ninterval = "@ + interval + "\n\n"@
        + connect_block(cs) + "\n\n[driver]\ndriver_type = \"Chrome\"\n\n[driver.chrome]\nport = "@
        + driver_port + "\ndriver_path = \""@ + driver_path + "\"\nbrowser_path = \""@
        + browser_path + "\"\n"@
}

fn push_connect_block(out: &mut String, connections: &[(String, String)])
    ensures
        final(out)@ == old(out)@ + connect_block(connections@),
{
    let ghost start = out@;
    let ghost entries = connections@.map_values(|p: (String, String)| connect_entry(p.0@, p.1@));
    let mut i: usize = 0;
    while i < connections.len()
        invariant
            i <= connections@.len(),
            entries == connections@.map_values(|p: (String, String)| connect_entry(p.0@, p.1@)),
            out@ == start + join(entries.take(i as int), "\n\n"@),
        decreases connections@.len() - i,
    {
        assert(entries.take(i + 1).drop_last() =~= entries.take(i as int));
        if i > 0 {
            out.append("\n\n");
        }
        out.append("[[query.connect]]\nurl = \"");
        out.append(connections[i].0.as_str());
        out.append("\"\nvalue = \"");
        out.append(connections[i].1.as_str());
        out.append("\"");
        assert(entries.take(i + 1).last() == connect_entry(connections@[i as int].0@, connections@[i as int].1@));
        i = i + 1;
    }
    assert(entries.take(connections@.len() as int) =~= entries);
}

/// Rebuilds the full configuration file text from the form fields.
pub fn build_toml_from_form(
    username: &str, password: &str, service: &str,
    eportal: &str, timout: &str,
    interval: &str,
    connections: &[(String, String)],
    driver_port: &str, driver_path: &str, browser_path: &str,
) -> (r: String)
    ensures
        r@ == form_toml(username@, password@, service@, eportal@, timout@, interval@,
            connections@, driver_port@, driver_path@, browser_path@),
{
    let mut out = "[login.info]\nusername = \"".to_owned();
    out.append(username);
    out.append("\"\npassword = \"");
    out.append(password);
    out.append("\"\nservice = \"");
    out.append(service);
    out.append("\"\n\n[login.config]\neportal = \"");
    out.append(eportal);
    out.append("\"\ntimout = ");
    out.append(timout);
    out.append("\n\n[query]\ninterval = ");
    out.append(interval);
    out.append("\n\n");
    push_connect_block(&mut out, connections);
    out.append("\n\n[driver]\ndriver_type = \"Chrome\"\n\n[driver.chrome]\nport = ");
    out.append(driver_port);
    out.append("\ndriver_path = \"");
    out.append(driver_path);
    out.append("\"\nbrowser_path = \"");
    out.append(browser_path);
    out.append("\"\n");
    out
}

/// Some probe row has a blank URL.
pub open spec fn some_blank_row_url(cs: Seq<(String, String)>) -> bool {
    exists|i: int| 0 <= i < cs.len() && blank(#[trigger] cs[i].0@)
}

/// Some probe row has a blank expected value.
pub open spec fn some_blank_row_value(cs: Seq<(String, String)>) -> bool {
    exists|i: int| 0 <= i < cs.len() && blank(#[trigger] cs[i].1@)
}

/// The complaints about the form, in the order they are shown.
pub open spec fn form_complaints(
    username: Seq<char>, password: Seq<char>, eportal: Seq<char>, timout: Seq<char>,
    interval: Seq<char>, driver_port: Seq<char>, driver_path: Seq<char>, browser_path: Seq<char>,
    cs: Seq<(String, String)>,
) -> Seq<Seq<char>> {
    complaint_if(blank(username), "用户名不能为空"@)
        + complaint_if(blank(password), "密码不能为空"@)
        + complaint_if(blank(eportal), "门户地址不能为空"@)
        + complaint_if(blank(timout), "超时不能为空"@)
        + complaint_if(blank(interval), "检测间隔不能为空"@)
        + complaint_if(blank(driver_port), "驱动端口不能为空"@)
        + complaint_if(blank(driver_path), "Driver 路径不能为空"@)
        + complaint_if(blank(browser_path), "浏览器路径不能为空"@)
        + complaint_if(cs.len() == 0, "连接检测列表不能为空"@)
        + complaint_if(some_blank_row_url(cs), "连接条目URL不能为空"@)
        + complaint_if(some_blank_row_value(cs), "连接条目值不能为空"@)
}

/// The form's fields and probe rows are all filled in: no field is blank,
/// and the probe list has rows, none with a blank URL or value.
pub open spec fn form_filled(
    username: Seq<char>, password: Seq<char>, eportal: Seq<char>, timout: Seq<char>,
    interval: Seq<char>, driver_port: Seq<char>, driver_path: Seq<char>, browser_path: Seq<char>,
    cs: Seq<(String, String)>,
) -> bool {
    &&& !blank(username)
    &&& !blank(password)
    &&& !blank(eportal)
    &&& !blank(timout)
    &&& !blank(interval)
    &&& !blank(driver_port)
    &&& !blank(driver_path)
    &&& !blank(browser_path)
    &&& cs.len() > 0
    &&& forall|i: int| #![trigger cs[i]] 0 <= i < cs.len() ==> !blank(cs[i].0@) && !blank(cs[i].1@)
}

/// Law: the form draws no complaint exactly when every field is filled
/// in and the probe list has rows with no blank cell.
pub proof fn lemma_form_accepted_iff(
    username: Seq<char>, password: Seq<char>, eportal: Seq<char>, timout: Seq<char>,
    interval: Seq<char>, driver_port: Seq<char>, driver_path: Seq<char>, browser_path: Seq<char>,
    cs: Seq<(String, String)>,
)
    ensures
        form_complaints(username, password, eportal, timout, interval, driver_port, driver_path,
            browser_path, cs).len() == 0
        <==> form_filled(username, password, eportal, timout, interval, driver_port, driver_path,
            browser_path, cs),
{
    if form_filled(username, password, eportal, timout, interval, driver_port, driver_path, browser_path, cs) {
        assert(!some_blank_row_url(cs)) by {
            if some_blank_row_url(cs) {
                let i = choose|i: int| 0 <= i < cs.len() && blank(#[trigger] cs[i].0@);
                assert(!blank(cs[i].0@));
            }
        }
        assert(!some_blank_row_value(cs)) by {
            if some_blank_row_value(cs) {
                let i = choose|i: int| 0 <= i < cs.len() && blank(#[trigger] cs[i].1@);
                assert(!blank(cs[i].1@));
            }
        }
    }
    if !some_blank_row_url(cs) && !some_blank_row_value(cs) {
        assert forall|i: int| #![trigger cs[i]] 0 <= i < cs.len() implies !blank(cs[i].0@) && !blank(cs[i].1@) by {
            if blank(cs[i].0@) {
                assert(some_blank_row_url(cs));
            }
            if blank(cs[i].1@) {
                assert(some_blank_row_value(cs));
            }
        }
    }
}

/// Checks that no field of the form is blank and that the probe list is
/// neither empty nor has blank cells; the complaints are joined by "；".
#[verifier::rlimit(40)]
pub fn check_config_form(
    username: &str, password: &str, eportal: &str, timout: &str, interval: &str,
    driver_port: &str, driver_path: &str, browser_path: &str,
    connections: &[(String, String)],
) -> (r: Result<(), String>)
    ensures
        r is Ok <==> form_filled(username@, password@, eportal@, timout@, interval@,
            driver_port@, driver_path@, browser_path@, connections@),
        r is Ok <==> form_complaints(username@, password@, eportal@, timout@, interval@,
            driver_port@, driver_path@, browser_path@, connections@).len() == 0,
        r matches Err(m) ==> m@ == join(form_complaints(username@, password@, eportal@, timout@,
            interval@, driver_port@, driver_path@, browser_path@, connections@), "；"@),
{
    let mut errors: Vec<&'static str> = Vec::new();
    assert(views_of(errors@) =~= seq![]);
    push_when(&mut errors, is_blank(username), "用户名不能为空");
    push_when(&mut errors, is_blank(password), "密码不能为空");
    push_when(&mut errors, is_blank(eportal), "门户地址不能为空");
    push_when(&mut errors, is_blank(timout), "超时不能为空");
    push_when(&mut errors, is_blank(interval), "检测间隔不能为空");
    push_when(&mut errors, is_blank(driver_port), "驱动端口不能为空");
    push_when(&mut errors, is_blank(driver_path), "Driver 路径不能为空");
    push_when(&mut errors, is_blank(browser_path), "浏览器路径不能为空");
    push_when(&mut errors, connections.len() == 0, "连接检测列表不能为空");
    let mut has_empty_url = false;
    let mut has_empty_val = false;
    let mut i: usize = 0;
    while i < connections.len()
        invariant
            i <= connections@.len(),
            has_empty_url == exists|j: int| 0 <= j < i && blank(#[trigger] connections@[j].0@),
            has_empty_val == exists|j: int| 0 <= j < i && blank(#[trigger] connections@[j].1@),
        decreases connections@.len() - i,
    {
        if is_blank(connections[i].0.as_str()) {
            has_empty_url = true;
        }
        if is_blank(connections[i].1.as_str()) {
            has_empty_val = true;
        }
        i = i + 1;
    }
    push_when(&mut errors, has_empty_url, "连接条目URL不能为空");
    push_when(&mut errors, has_empty_val, "连接条目值不能为空");
    proof {
        lemma_form_accepted_iff(username@, password@, eportal@, timout@, interval@,
            driver_port@, driver_path@, browser_path@, connections@);
    }
    if errors.len() > 0 {
        return Err(join_strs(&errors, "；"));
    }
    Ok(())
}

/// The views of a list of character vectors.
pub open spec fn char_views(v: Seq<Vec<char>>) -> Seq<Seq<char>> {
    v.map_values(|x: Vec<char>| x@)
}

/// The lines of a text, collected.
pub fn split_lines(content: &str) -> (r: Vec<Vec<char>>)
    ensures
        char_views(r@) == lines(content@),
{
    let v = chars_of(content);
    let n = v.len();
    let mut out: Vec<Vec<char>> = Vec::new();
    let mut i: usize = 0;
    while i < n
        invariant
            n == v@.len(),
            v@ == content@,
            i <= n,
            lines(v@) == char_views(out@) + lines_from(v@, i as int),
        decreases n - i,
    {
        let (line, k) = next_line(&v, i);
        let ghost before = char_views(out@);
        out.push(line);
        assert(char_views(out@) =~= before.push(line_at(v@, i as int)));
        assert(lines_from(v@, i as int) == seq![line_at(v@, i as int)] + lines_from(v@, k + 1));
        if k < n {
            i = k + 1;
        } else {
            i = n;
        }
        assert(lines(v@) =~= char_views(out@) + lines_from(v@, i as int));
    }
    assert(lines(v@) =~= char_views(out@));
    out
}

/// Joins character vectors from position `start` on with `sep`.
pub fn join_from(parts: &Vec<Vec<char>>, start: usize, sep: &str) -> (s: String)
    requires
        start <= parts@.len(),
    ensures
        s@ == join(char_views(parts@).skip(start as int), sep@),
{
    let ghost all = char_views(parts@).skip(start as int);
    let mut s = String::new();
    let mut i: usize = start;
    while i < parts.len()
        invariant
            start <= i <= parts@.len(),
            all == char_views(parts@).skip(start as int),
            s@ == join(all.take(i - start), sep@),
        decreases parts@.len() - i,
    {
        assert(all.take(i - start + 1).drop_last() =~= all.take(i - start));
        if i > start {
            s.append(sep);
        }
        let piece = string_of(parts[i].as_slice());
        s.append(piece.as_str());
        assert(all.take(i - start + 1).last() == parts@[i as int]@);
        i = i + 1;
    }
    assert(all.take(parts@.len() - start) =~= all);
    s
}

/// Number of log lines shown.
pub const LOG_TAIL_LINES: usize = 200;

/// The last lines of the log text (at most 200), joined by line feeds.
pub open spec fn log_tail_text(content: Seq<char>) -> Seq<char> {
    let ls = lines(content);
    let start = if ls.len() > 200 { ls.len() - 200 } else { 0 };
    join(ls.skip(start), "\n"@)
}

/// The excerpt of the log file shown in the window.
pub fn log_tail(content: &str) -> (r: String)
    ensures
        r@ == log_tail_text(content@),
{
    let ls = split_lines(content);
    let start = if ls.len() > LOG_TAIL_LINES { ls.len() - LOG_TAIL_LINES } else { 0 };
    join_from(&ls, start, "\n")
}

/// The window's configuration fields.
pub struct ConfigForm {
    pub username: String,
    pub password: String,
    pub service: String,
    /// position of the configured service in the service list
    pub service_index: Option<usize>,
    pub eportal: String,
    pub timout: String,
    pub interval: String,
    /// probe rows: URL and expected value
    pub connections: Vec<(String, String)>,
    /// port, driver path and browser path, when Chrome is configured
    pub driver: Option<(String, String, String)>,
}

/// The probe rows of a configuration.
pub open spec fn rows_of(c: ConfigFile) -> Seq<(Seq<char>, Seq<char>)> {
    c.query.connect@.map_values(|x: crate::campus_core::config::Connection| (x.url@, x.val@))
}

/// Views of probe rows.
pub open spec fn pair_views(v: Seq<(String, String)>) -> Seq<(Seq<char>, Seq<char>)> {
    v.map_values(|p: (String, String)| (p.0@, p.1@))
}

/// The fields shown for a loaded configuration.
pub open spec fn form_ok(c: ConfigFile, services: Seq<ServiceEntry>, f: ConfigForm) -> bool {
    &&& f.username@ == c.login.info.username@
    &&& f.password@ == c.login.info.password@
    &&& f.service@ == c.login.info.service@
    &&& first_index(services, c.login.info.service@, f.service_index)
    &&& f.eportal@ == c.login.config.eportal@
    &&& f.timout@ == dec(c.login.config.timout as nat)
    &&& f.interval@ == dec(c.query.interval as nat)
    &&& pair_views(f.connections@) == rows_of(c)
    &&& match c.driver.chrome_config {
        Some(ch) => f.driver matches Some(d) && d.0@ == dec(ch.port as nat)
            && d.1@ == ch.driver_path@ && d.2@ == ch.browser_path@,
        None => f.driver is None,
    }
}

/// Fills the window's fields from a loaded configuration; the service is
/// looked up in the service list.
pub fn form_from_config(config: &ConfigFile, services: &Vec<ServiceEntry>) -> (f: ConfigForm)
    ensures
        form_ok(*config, services@, f),
{
    let mut connections: Vec<(String, String)> = Vec::new();
    let mut i: usize = 0;
    while i < config.query.connect.len()
        invariant
            i <= config.query.connect@.len(),
            pair_views(connections@) == rows_of(*config).take(i as int),
        decreases config.query.connect@.len() - i,
    {
        let ghost before = connections@;
        let url = config.query.connect[i].url.clone();
        let val = config.query.connect[i].val.clone();
        connections.push((url, val));
        assert(connections@ == before.push((url, val)));
        assert(pair_views(connections@) =~= pair_views(before).push((url@, val@)));
        assert(rows_of(*config).take(i + 1) =~= rows_of(*config).take(i as int).push(rows_of(*config)[i as int]));
        i = i + 1;
    }
    assert(rows_of(*config).take(config.query.connect@.len() as int) =~= rows_of(*config));
    let driver = match &config.driver.chrome_config {
        Some(ch) => {
            let mut port = String::new();
            push_dec(&mut port, ch.port as u64);
            assert(port@ =~= dec(ch.port as nat));
            Some((port, ch.driver_path.clone(), ch.browser_path.clone()))
        },
        None => None,
    };
    let mut timout = String::new();
    push_dec(&mut timout, config.login.config.timout);
    let mut interval = String::new();
    push_dec(&mut interval, config.query.interval);
    assert(timout@ =~= dec(config.login.config.timout as nat));
    assert(interval@ =~= dec(config.query.interval as nat));
    ConfigForm {
        username: config.login.info.username.clone(),
        password: config.login.info.password.clone(),
        service: config.login.info.service.clone(),
        service_index: service_index(services, config.login.info.service.as_str()),
        eportal: config.login.config.eportal.clone(),
        timout,
        interval,
        connections,
        driver,
    }
}

/// The probe rows shown when no configuration could be loaded.
pub fn default_form_connections() -> (r: Vec<(String, String)>)
    ensures
        pair_views(r@) == seq![("http://www.msftncsi.com/ncsi.txt"@, "Microsoft NCSI"@)],
{
    let mut r: Vec<(String, String)> = Vec::new();
    r.push(("http://www.msftncsi.com/ncsi.txt".to_owned(), "Microsoft NCSI".to_owned()));
    assert(pair_views(r@) =~= seq![("http://www.msftncsi.com/ncsi.txt"@, "Microsoft NCSI"@)]);
    r
}

/// Where the unpacked downloads put Chrome and ChromeDriver, relative to
/// the working directory: (browser directory, browser file, driver
/// directory, driver file).
pub fn chrome_file_candidates(platform: &str, suffix: &str) -> (r: (String, String, String, String))
    ensures
        r.0@ == "chrome-"@ + platform@,
        r.1@ == "chrome"@ + suffix@,
        r.2@ == "chromedriver-"@ + platform@,
        r.3@ == "chromedriver"@ + suffix@,
{
    let mut a = "chrome-".to_owned();
    a.append(platform);
    let mut b = "chrome".to_owned();
    b.append(suffix);
    let mut c = "chromedriver-".to_owned();
    c.append(platform);
    let mut d = "chromedriver".to_owned();
    d.append(suffix);
    (a, b, c, d)
}

/// Where the window looks for Chrome and ChromeDriver.
pub enum ChromePaths {
    /// check these files; each path is a list of parts joined under the
    /// working directory
    Check { browser: Vec<String>, driver: Vec<String> },
    /// the configuration has no Chrome section: neither file is looked
    /// for, and these texts stand in their place
    Unconfigured { browser_note: &'static str, driver_note: &'static str },
}

/// The views of a list of strings.
pub open spec fn string_views(v: Seq<String>) -> Seq<Seq<char>> {
    v.map_values(|x: String| x@)
}

/// `r` asks to check the browser at the parts `browser` and the driver
/// at the parts `driver`.
pub open spec fn checks_at(r: ChromePaths, browser: Seq<Seq<char>>, driver: Seq<Seq<char>>) -> bool {
    match r {
        ChromePaths::Check { browser: b, driver: d } => string_views(b@) == browser && string_views(d@) == driver,
        ChromePaths::Unconfigured { .. } => false,
    }
}

/// What the window checks for the browser files: the configured paths
/// when a configuration with a Chrome section was loaded, the two
/// "not configured" texts when it has none, and the unpacked downloads
/// for `platform` (with the executable `suffix`) when no configuration
/// could be loaded.
pub fn chrome_paths_plan(config: Option<&ConfigFile>, platform: &str, suffix: &str) -> (r: ChromePaths)
    ensures
        match config {
            Some(c) => match c.driver.chrome_config {
                Some(ch) => checks_at(r, seq![ch.browser_path@], seq![ch.driver_path@]),
                None => r matches ChromePaths::Unconfigured { browser_note, driver_note }
                    && browser_note@ == "未配置 browser_path"@ && driver_note@ == "未配置 driver_path"@,
            },
            None => checks_at(r, seq!["chrome-"@ + platform@, "chrome"@ + suffix@],
                seq!["chromedriver-"@ + platform@, "chromedriver"@ + suffix@]),
        },
{
    match config {
        Some(c) => match &c.driver.chrome_config {
            Some(ch) => {
                let b = ch.browser_path.clone();
                let d = ch.driver_path.clone();
                let mut browser: Vec<String> = Vec::new();
                browser.push(b);
                let mut driver: Vec<String> = Vec::new();
                driver.push(d);
                assert(string_views(browser@) =~= seq![ch.browser_path@]);
                assert(string_views(driver@) =~= seq![ch.driver_path@]);
                ChromePaths::Check { browser, driver }
            },
            None => ChromePaths::Unconfigured { browser_note: "未配置 browser_path", driver_note: "未配置 driver_path" },
        },
        None => {
            let (a, b, cd, d) = chrome_file_candidates(platform, suffix);
            let mut browser: Vec<String> = Vec::new();
            browser.push(a);
            browser.push(b);
            let mut driver: Vec<String> = Vec::new();
            driver.push(cd);
            driver.push(d);
            assert(string_views(browser@) =~= seq!["chrome-"@ + platform@, "chrome"@ + suffix@]);
            assert(string_views(driver@) =~= seq!["chromedriver-"@ + platform@, "chromedriver"@ + suffix@]);
            ChromePaths::Check { browser, driver }
        },
    }
}

/// The service id chosen at `index` of the service list (the campus
/// network service when the index designates no entry).
pub open spec fn chosen_service(services: Seq<ServiceEntry>, index: i32) -> Seq<char> {
    if 0 <= index < services.len() { services[index as int].id@ } else { "_service_0"@ }
}

/// Saving the form: when a field is blank or the probe list is empty or
/// has a blank cell, the complaints joined by "；"; otherwise the
/// configuration file text, with the service chosen at `service_index`.
pub fn save_form_text(
    username: &str, password: &str, eportal: &str, timout: &str, interval: &str,
    driver_port: &str, driver_path: &str, browser_path: &str,
    connections: &[(String, String)],
    services: &Vec<ServiceEntry>, service_index: i32,
) -> (r: Result<String, String>)
    ensures
        r is Ok <==> form_filled(username@, password@, eportal@, timout@, interval@,
            driver_port@, driver_path@, browser_path@, connections@),
        r is Ok <==> form_complaints(username@, password@, eportal@, timout@, interval@,
            driver_port@, driver_path@, browser_path@, connections@).len() == 0,
        r matches Err(m) ==> m@ == join(form_complaints(username@, password@, eportal@, timout@,
            interval@, driver_port@, driver_path@, browser_path@, connections@), "；"@),
        r matches Ok(t) ==> t@ == form_toml(username@, password@, chosen_service(services@, service_index),
            eportal@, timout@, interval@, connections@, driver_port@, driver_path@, browser_path@),
{
    match check_config_form(username, password, eportal, timout, interval, driver_port, driver_path,
        browser_path, connections) {
        Err(m) => Err(m),
        Ok(()) => {
            let service = service_id_at(services, service_index);
            Ok(build_toml_from_form(username, password, service.as_str(), eportal, timout, interval,
                connections, driver_port, driver_path, browser_path))
        },
    }
}

/// Law: the uptime label shows seconds alone below a minute, minutes and
/// seconds below an hour, and hours and minutes from an hour on.
pub proof fn lemma_uptime_forms(e: nat)
    ensures
        e < 60 ==> uptime_text(e) == dec(e) + "s"@,
        60 <= e < 3600 ==> uptime_text(e) == dec(e / 60) + "m "@ + dec(e % 60) + "s"@,
        3600 <= e ==> uptime_text(e) == dec(e / 3600) + "h "@ + dec((e % 3600) / 60) + "m"@,
{
    if e < 60 {
        assert(e / 3600 == 0);
        assert((e % 3600) / 60 == 0);
    } else if e < 3600 {
        assert(e / 3600 == 0);
        assert(e % 3600 == e);
    } else {
        assert(e / 3600 > 0);
    }
}

/// Law: a log of at most 200 lines is shown whole, its lines joined by
/// line feeds.
pub proof fn lemma_short_log_shown_whole(content: Seq<char>)
    requires
        lines(content).len() <= 200,
    ensures
        log_tail_text(content) == join(lines(content), "\n"@),
{
    assert(lines(content).skip(0) =~= lines(content));
}

} // verus!
