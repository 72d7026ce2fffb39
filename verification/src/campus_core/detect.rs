//! Connectivity detection. The probes are HTTP requests made by the
//! caller; this module decides, probe by probe, what to do next and what
//! the network state is.
//!
//! Documented behaviour: the configured URLs are tried in order; a body
//! equal to the expected value means `Connected`, a non-2xx status means
//! `Restricted` (the portal intercepted the request), and when every
//! request fails or every body differs the result is `Disconnected`.
use vstd::prelude::*;
use crate::text::str_eq;
use crate::campus_core::config::{Connection, QueryConfig};
use crate::campus_core::errors::CampusError;
use crate::login_common::status::NetStatus;

verus! {

/// What the prober reports after carrying out an action.
pub enum ProbeEvent {
    /// the GET request failed (no response)
    SendFailed,
    /// a response arrived; whether its status is 2xx
    Responded(bool),
    /// the response body was read
    Body(String),
    /// reading the body failed (the error's message)
    BodyFailed(String),
}

/// What the prober must do next.
pub enum ProbeAction {
    /// send a GET request to `connect[i].url`
    Send(usize),
    /// read the body of the response just received from `connect[i]`
    ReadBody(usize),
    /// stop: the detection result
    Finish(Result<NetStatus, CampusError>),
}

/// How one probe page answers: not at all, or with a status and a body.
pub enum Reply {
    Unreachable,
    Answered { success: bool, body: Result<String, String> },
}

/// Move on to probe `j`, or finish `Disconnected` when none is left.
pub open spec fn advance(conns: Seq<Connection>, j: int) -> ProbeAction {
    if 0 <= j < conns.len() { ProbeAction::Send(j as usize) } else { ProbeAction::Finish(Ok(NetStatus::Disconnected)) }
}

/// One decision of the detection.
pub open spec fn step_spec(conns: Seq<Connection>, pending: ProbeAction, ev: ProbeEvent) -> ProbeAction {
    match pending {
        ProbeAction::Send(i) => match ev {
            ProbeEvent::SendFailed => advance(conns, i + 1),
            ProbeEvent::Responded(ok) => if ok { ProbeAction::ReadBody(i) } else { ProbeAction::Finish(Ok(NetStatus::Restricted)) },
            _ => pending,
        },
        ProbeAction::ReadBody(i) => match ev {
            ProbeEvent::Body(t) => if i < conns.len() && t@ == conns[i as int].val@ {
                ProbeAction::Finish(Ok(NetStatus::Connected))
            } else {
                advance(conns, i + 1)
            },
            ProbeEvent::BodyFailed(m) => ProbeAction::Finish(Err(CampusError::NetworkRequest(m))),
            _ => pending,
        },
        ProbeAction::Finish(_) => pending,
    }
}

/// The result of detection when probe page `k` (for `k >= i`) answers `replies[k]`.
pub open spec fn detect_from(conns: Seq<Connection>, replies: Seq<Reply>, i: int) -> Result<NetStatus, CampusError>
    decreases conns.len() - i,
{
    if i < 0 || i >= conns.len() {
        Ok(NetStatus::Disconnected)
    } else {
        match replies[i] {
            Reply::Unreachable => detect_from(conns, replies, i + 1),
            Reply::Answered { success, body } => if !success {
                Ok(NetStatus::Restricted)
            } else {
                match body {
                    Err(m) => Err(CampusError::NetworkRequest(m)),
                    Ok(t) => if t@ == conns[i].val@ {
                        Ok(NetStatus::Connected)
                    } else {
                        detect_from(conns, replies, i + 1)
                    },
                }
            },
        }
    }
}

/// The event a page answering `r` produces for the pending action.
pub open spec fn event_for(pending: ProbeAction, r: Reply) -> ProbeEvent {
    match pending {
        ProbeAction::ReadBody(_) => match r {
            Reply::Answered { success, body } => match body {
                Ok(t) => ProbeEvent::Body(t),
                Err(m) => ProbeEvent::BodyFailed(m),
            },
            Reply::Unreachable => ProbeEvent::SendFailed,
        },
        _ => match r {
            Reply::Unreachable => ProbeEvent::SendFailed,
            Reply::Answered { success, body } => ProbeEvent::Responded(success),
        },
    }
}

/// Index of the probe an action concerns.
pub open spec fn action_index(a: ProbeAction) -> int {
    match a {
        ProbeAction::Send(i) => i as int,
        ProbeAction::ReadBody(i) => i as int,
        ProbeAction::Finish(_) => 0,
    }
}

/// Drives the decisions for at most `fuel` steps against the pages' replies.
pub open spec fn run(conns: Seq<Connection>, replies: Seq<Reply>, pending: ProbeAction, fuel: nat) -> ProbeAction
    decreases fuel,
{
    match pending {
        ProbeAction::Finish(_) => pending,
        _ => if fuel == 0 {
            pending
        } else {
            run(conns, replies, step_spec(conns, pending, event_for(pending, replies[action_index(pending)])), (fuel - 1) as nat)
        },
    }
}

/// The first action: probe the first page, or report `Disconnected` when
/// no page is configured.
pub fn detect_begin(query: &QueryConfig) -> (r: ProbeAction)
    ensures
        r == advance(query.connect@, 0),
{
    if query.connect.len() > 0 { ProbeAction::Send(0) } else { ProbeAction::Finish(Ok(NetStatus::Disconnected)) }
}

/// The action after probe `i`: the next probe, or `Disconnected`.
pub(crate) fn advance_exec(query: &QueryConfig, i: usize) -> (r: ProbeAction)
    ensures
        r == advance(query.connect@, i + 1),
{
    if i < query.connect.len() && i + 1 < query.connect.len() {
        ProbeAction::Send(i + 1)
    } else {
        ProbeAction::Finish(Ok(NetStatus::Disconnected))
    }
}

/// The next action after the prober reports `ev` for `pending`.
pub fn detect_step(query: &QueryConfig, pending: ProbeAction, ev: ProbeEvent) -> (r: ProbeAction)
    ensures
        r == step_spec(query.connect@, pending, ev),
{
    match pending {
        ProbeAction::Send(i) => match ev {
            ProbeEvent::SendFailed => advance_exec(query, i),
            ProbeEvent::Responded(ok) => if ok {
                ProbeAction::ReadBody(i)
            } else {
                ProbeAction::Finish(Ok(NetStatus::Restricted))
            },
            _ => ProbeAction::Send(i),
        },
        ProbeAction::ReadBody(i) => match ev {
            ProbeEvent::Body(t) => {
                if i < query.connect.len() && str_eq(t.as_str(), query.connect[i].val.as_str()) {
                    ProbeAction::Finish(Ok(NetStatus::Connected))
                } else {
                    advance_exec(query, i)
                }
            },
            ProbeEvent::BodyFailed(m) => ProbeAction::Finish(Err(CampusError::NetworkRequest(m))),
            _ => ProbeAction::ReadBody(i),
        },
        ProbeAction::Finish(res) => ProbeAction::Finish(res),
    }
}

/// Law: driving the step decisions from probe `i` against the pages'
/// replies ends, within `2 * (n - i) + 1` steps, with exactly the result
/// the documented rule gives for those replies.
pub proof fn lemma_run_matches(conns: Seq<Connection>, replies: Seq<Reply>, i: int, fuel: nat)
    requires
        0 <= i <= conns.len(),
        conns.len() <= usize::MAX,
        replies.len() == conns.len(),
        fuel >= 2 * (conns.len() - i) + 1,
    ensures
        run(conns, replies, advance(conns, i), fuel) == ProbeAction::Finish(detect_from(conns, replies, i)),
    decreases conns.len() - i,
{
    if i < conns.len() {
        let p = ProbeAction::Send(i as usize);
        assert(advance(conns, i) == p);
        assert(action_index(p) == i);
        let e = event_for(p, replies[i]);
        let p1 = step_spec(conns, p, e);
        assert(run(conns, replies, p, fuel) == run(conns, replies, p1, (fuel - 1) as nat));
        match replies[i] {
            Reply::Unreachable => {
                assert(p1 == advance(conns, i + 1));
                lemma_run_matches(conns, replies, i + 1, (fuel - 1) as nat);
            },
            Reply::Answered { success, body } => {
                if success {
                    let q = ProbeAction::ReadBody(i as usize);
                    assert(p1 == q);
                    assert(action_index(q) == i);
                    let p2 = step_spec(conns, q, event_for(q, replies[i]));
                    assert(run(conns, replies, q, (fuel - 1) as nat) == run(conns, replies, p2, (fuel - 2) as nat));
                    match body {
                        Ok(t) => {
                            if !(t@ == conns[i].val@) {
                                assert(p2 == advance(conns, i + 1));
                                lemma_run_matches(conns, replies, i + 1, (fuel - 2) as nat);
                            }
                        },
                        Err(m) => {},
                    }
                }
            },
        }
    }
}

/// The page's answer lets detection go on to the next page: no response,
/// or a 2xx response whose body differs from the expected value.
pub open spec fn passes_on(r: Reply, val: Seq<char>) -> bool {
    match r {
        Reply::Unreachable => true,
        Reply::Answered { success, body } => success && match body {
            Ok(t) => t@ != val,
            Err(_) => false,
        },
    }
}

/// Law: detection reports `Disconnected` exactly when every page from
/// `i` on failed to answer or answered 2xx with a different body.
pub proof fn lemma_disconnected_iff(conns: Seq<Connection>, replies: Seq<Reply>, i: int)
    requires
        0 <= i <= conns.len(),
        replies.len() == conns.len(),
    ensures
        detect_from(conns, replies, i) == Ok::<NetStatus, CampusError>(NetStatus::Disconnected)
            <==> forall|k: int| i <= k < conns.len() ==> #[trigger] passes_on(replies[k], conns[k].val@),
    decreases conns.len() - i,
{
    if i < conns.len() {
        lemma_disconnected_iff(conns, replies, i + 1);
        if forall|k: int| i <= k < conns.len() ==> #[trigger] passes_on(replies[k], conns[k].val@) {
            assert(passes_on(replies[i], conns[i].val@));
            assert forall|k: int| i + 1 <= k < conns.len() implies #[trigger] passes_on(replies[k], conns[k].val@) by {
                assert(i <= k);
            }
        } else {
            let k = choose|k: int| i <= k < conns.len() && !#[trigger] passes_on(replies[k], conns[k].val@);
            if k > i {
                if passes_on(replies[i], conns[i].val@) {
                    assert(!(forall|j: int| i + 1 <= j < conns.len() ==> #[trigger] passes_on(replies[j], conns[j].val@)));
                }
            }
        }
    }
}

/// Detection over recorded replies, one per configured probe page, in
/// the order and with the early stops of the live detection.
pub fn detect_network_status(query: &QueryConfig, replies: &Vec<Reply>) -> (r: Result<NetStatus, CampusError>)
    requires
        replies@.len() == query.connect@.len(),
    ensures
        r == detect_from(query.connect@, replies@, 0),
{
    let n = query.connect.len();
    let mut i: usize = 0;
    while i < n
        invariant
            n == query.connect@.len(),
            replies@.len() == n,
            i <= n,
            detect_from(query.connect@, replies@, 0) == detect_from(query.connect@, replies@, i as int),
        decreases n - i,
    {
        match &replies[i] {
            Reply::Unreachable => {},
            Reply::Answered { success, body } => {
                if !*success {
                    return Ok(NetStatus::Restricted);
                }
                match body {
                    Err(m) => {
                        return Err(CampusError::NetworkRequest(m.clone()));
                    },
                    Ok(t) => {
                        if str_eq(t.as_str(), query.connect[i].val.as_str()) {
                            return Ok(NetStatus::Connected);
                        }
                    },
                }
            },
        }
        i = i + 1;
    }
    Ok(NetStatus::Disconnected)
}

/// Pages `i` up to `k` (excluded) all let detection go on: detection from
/// `i` gives what detection from `k` gives.
pub proof fn lemma_detect_skips(conns: Seq<Connection>, replies: Seq<Reply>, i: int, k: int)
    requires
        0 <= i <= k <= conns.len(),
        forall|j: int| i <= j < k ==> #[trigger] passes_on(replies[j], conns[j].val@),
    ensures
        detect_from(conns, replies, i) == detect_from(conns, replies, k),
    decreases k - i,
{
    if i < k {
        assert(passes_on(replies[i], conns[i].val@));
        lemma_detect_skips(conns, replies, i + 1, k);
    }
}

/// Law: when every page before `i` failed to answer or answered 2xx with
/// a different body, and page `i` answers 2xx with exactly its expected
/// text, the network is reported `Connected`.
pub proof fn lemma_first_expected_body_connects(conns: Seq<Connection>, replies: Seq<Reply>, i: int, t: String)
    requires
        0 <= i < conns.len(),
        forall|j: int| 0 <= j < i ==> #[trigger] passes_on(replies[j], conns[j].val@),
        replies[i] == (Reply::Answered { success: true, body: Ok(t) }),
        t@ == conns[i].val@,
    ensures
        detect_from(conns, replies, 0) == Ok::<NetStatus, CampusError>(NetStatus::Connected),
{
    lemma_detect_skips(conns, replies, 0, i);
}

/// Law: when every page before `i` let detection go on and page `i`
/// answers with a status other than 2xx, the network is reported
/// `Restricted` (the portal intercepted the request).
pub proof fn lemma_intercepted_restricts(conns: Seq<Connection>, replies: Seq<Reply>, i: int, b: Result<String, String>)
    requires
        0 <= i < conns.len(),
        forall|j: int| 0 <= j < i ==> #[trigger] passes_on(replies[j], conns[j].val@),
        replies[i] == (Reply::Answered { success: false, body: b }),
    ensures
        detect_from(conns, replies, 0) == Ok::<NetStatus, CampusError>(NetStatus::Restricted),
{
    lemma_detect_skips(conns, replies, 0, i);
}

/// Law: when every page before `i` let detection go on and the body of
/// page `i`'s 2xx answer cannot be read, detection fails with that
/// reading error.
pub proof fn lemma_unreadable_body_fails(conns: Seq<Connection>, replies: Seq<Reply>, i: int, m: String)
    requires
        0 <= i < conns.len(),
        forall|j: int| 0 <= j < i ==> #[trigger] passes_on(replies[j], conns[j].val@),
        replies[i] == (Reply::Answered { success: true, body: Err(m) }),
    ensures
        detect_from(conns, replies, 0) == Err::<NetStatus, CampusError>(CampusError::NetworkRequest(m)),
{
    lemma_detect_skips(conns, replies, 0, i);
}

/// The page answered 2xx with exactly the expected text.
pub open spec fn shows_expected(r: Reply, val: Seq<char>) -> bool {
    match r {
        Reply::Answered { success, body } => success && match body {
            Ok(t) => t@ == val,
            Err(_) => false,
        },
        Reply::Unreachable => false,
    }
}

/// Law: `Connected` is reported only when some page answered 2xx with
/// exactly its expected text and every page before it let detection go on.
pub proof fn lemma_connected_has_expected_body(conns: Seq<Connection>, replies: Seq<Reply>, i: int)
    requires
        0 <= i <= conns.len(),
        detect_from(conns, replies, i) == Ok::<NetStatus, CampusError>(NetStatus::Connected),
    ensures
        exists|k: int| i <= k < conns.len()
            && shows_expected(replies[k], conns[k].val@)
            && forall|j: int| i <= j < k ==> #[trigger] passes_on(replies[j], conns[j].val@),
    decreases conns.len() - i,
{
    if i < conns.len() {
        if passes_on(replies[i], conns[i].val@) {
            lemma_connected_has_expected_body(conns, replies, i + 1);
            let k = choose|k: int| i + 1 <= k < conns.len()
                && shows_expected(replies[k], conns[k].val@)
                && forall|j: int| i + 1 <= j < k ==> #[trigger] passes_on(replies[j], conns[j].val@);
            assert forall|j: int| i <= j < k implies #[trigger] passes_on(replies[j], conns[j].val@) by {
                if j > i {
                    assert(i + 1 <= j < k);
                }
            }
        } else {
            assert forall|j: int| i <= j < i implies #[trigger] passes_on(replies[j], conns[j].val@) by {}
        }
    }
}

/// Law: the single decisions of detection. After a probe's request
/// fails, the next page is probed (or, after the last, `Disconnected`
/// is reported); a non-2xx answer reports `Restricted`; a 2xx answer
/// has its body read; a body equal to the page's expected text reports
/// `Connected`, any other body moves on like a failed request; an
/// unreadable body fails with its message.
pub proof fn lemma_detect_decisions(conns: Seq<Connection>, i: usize, t: String, m: String)
    requires
        i < conns.len(),
    ensures
        step_spec(conns, ProbeAction::Send(i), ProbeEvent::SendFailed)
            == (if i + 1 < conns.len() { ProbeAction::Send((i + 1) as usize) } else { ProbeAction::Finish(Ok(NetStatus::Disconnected)) }),
        step_spec(conns, ProbeAction::Send(i), ProbeEvent::Responded(false)) == ProbeAction::Finish(Ok(NetStatus::Restricted)),
        step_spec(conns, ProbeAction::Send(i), ProbeEvent::Responded(true)) == ProbeAction::ReadBody(i),
        t@ == conns[i as int].val@ ==> step_spec(conns, ProbeAction::ReadBody(i), ProbeEvent::Body(t))
            == ProbeAction::Finish(Ok(NetStatus::Connected)),
        t@ != conns[i as int].val@ ==> step_spec(conns, ProbeAction::ReadBody(i), ProbeEvent::Body(t))
            == step_spec(conns, ProbeAction::Send(i), ProbeEvent::SendFailed),
        step_spec(conns, ProbeAction::ReadBody(i), ProbeEvent::BodyFailed(m))
            == ProbeAction::Finish(Err(CampusError::NetworkRequest(m))),
{
}

} // verus!
