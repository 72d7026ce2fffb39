//! The lenient connectivity probe: a page counts as reached when its body
//! contains the expected text; unreadable bodies are skipped.
use vstd::prelude::*;
use crate::text::{contains, has_sub};
use crate::campus_core::config::{Connection, QueryConfig};
use crate::campus_core::detect::{ProbeAction, ProbeEvent, Reply, advance, advance_exec, event_for, action_index};
use crate::login_common::status::NetStatus;

verus! {

/// One decision of the lenient detection.
pub open spec fn lenient_step(conns: Seq<Connection>, pending: ProbeAction, ev: ProbeEvent) -> ProbeAction {
    match pending {
        ProbeAction::Send(i) => match ev {
            ProbeEvent::SendFailed => advance(conns, i + 1),
            ProbeEvent::Responded(ok) => if ok { ProbeAction::ReadBody(i) } else { ProbeAction::Finish(Ok(NetStatus::Restricted)) },
            _ => pending,
        },
        ProbeAction::ReadBody(i) => match ev {
            ProbeEvent::Body(t) => if i < conns.len() && has_sub(t@, conns[i as int].val@) {
                ProbeAction::Finish(Ok(NetStatus::Connected))
            } else {
                advance(conns, i + 1)
            },
            ProbeEvent::BodyFailed(_) => advance(conns, i + 1),
            _ => pending,
        },
        ProbeAction::Finish(_) => pending,
    }
}

/// The lenient result when page `k >= i` answers `replies[k]`.
pub open spec fn lenient_from(conns: Seq<Connection>, replies: Seq<Reply>, i: int) -> NetStatus
    decreases conns.len() - i,
{
    if i < 0 || i >= conns.len() {
        NetStatus::Disconnected
    } else {
        match replies[i] {
            Reply::Unreachable => lenient_from(conns, replies, i + 1),
            Reply::Answered { success, body } => if !success {
                NetStatus::Restricted
            } else {
                match body {
                    Ok(t) => if has_sub(t@, conns[i].val@) {
                        NetStatus::Connected
                    } else {
                        lenient_from(conns, replies, i + 1)
                    },
                    Err(_) => lenient_from(conns, replies, i + 1),
                }
            },
        }
    }
}

/// The next action after the prober reports `ev` for `pending`.
pub fn detect_step(query: &QueryConfig, pending: ProbeAction, ev: ProbeEvent) -> (r: ProbeAction)
    ensures
        r == lenient_step(query.connect@, pending, ev),
{
    match pending {
        ProbeAction::Send(i) => match ev {
            ProbeEvent::SendFailed => advance_exec(query, i),
            ProbeEvent::Responded(ok) => if ok {
                ProbeAction::ReadBody(i)
            } else {
                ProbeAction::Finish(Ok(NetStatus::Restricted))
            },
            _ => ProbeAction::Send(i),
        },
        ProbeAction::ReadBody(i) => match ev {
            ProbeEvent::Body(t) => {
                if i < query.connect.len() && contains(t.as_str(), query.connect[i].val.as_str()) {
                    ProbeAction::Finish(Ok(NetStatus::Connected))
                } else {
                    advance_exec(query, i)
                }
            },
            ProbeEvent::BodyFailed(_) => advance_exec(query, i),
            _ => ProbeAction::ReadBody(i),
        },
        ProbeAction::Finish(res) => ProbeAction::Finish(res),
    }
}

/// Lenient detection over recorded replies, one per configured page.
pub fn detect_network_status(query: &QueryConfig, replies: &Vec<Reply>) -> (r: NetStatus)
    requires
        replies@.len() == query.connect@.len(),
    ensures
        r == lenient_from(query.connect@, replies@, 0),
{
    let n = query.connect.len();
    let mut i: usize = 0;
    while i < n
        invariant
            n == query.connect@.len(),
            replies@.len() == n,
            i <= n,
            lenient_from(query.connect@, replies@, 0) == lenient_from(query.connect@, replies@, i as int),
        decreases n - i,
    {
        match &replies[i] {
            Reply::Unreachable => {},
            Reply::Answered { success, body } => {
                if !*success {
                    return NetStatus::Restricted;
                }
                if let Ok(t) = body {
                    if contains(t.as_str(), query.connect[i].val.as_str()) {
                        return NetStatus::Connected;
                    }
                }
            },
        }
        i = i + 1;
    }
    NetStatus::Disconnected
}

/// The page answered 2xx with a body that contains `val`.
pub open spec fn holds_text(r: Reply, val: Seq<char>) -> bool {
    match r {
        Reply::Answered { success, body } => success && match body {
            Ok(t) => has_sub(t@, val),
            Err(_) => false,
        },
        Reply::Unreachable => false,
    }
}

/// Law: the lenient probe never reports an error and reports `Connected`
/// only when some page answered 2xx with a body holding its expected text.
pub proof fn lemma_connected_has_witness(conns: Seq<Connection>, replies: Seq<Reply>, i: int)
    requires
        lenient_from(conns, replies, i) == NetStatus::Connected,
    ensures
        exists|k: int| i <= k < conns.len() && #[trigger] holds_text(replies[k], conns[k].val@),
    decreases conns.len() - i,
{
    if 0 <= i < conns.len() {
        match replies[i] {
            Reply::Unreachable => {
                lemma_connected_has_witness(conns, replies, i + 1);
            },
            Reply::Answered { success, body } => {
                match body {
                    Ok(t) => {
                        if !has_sub(t@, conns[i].val@) {
                            lemma_connected_has_witness(conns, replies, i + 1);
                        } else {
                            assert(holds_text(replies[i], conns[i].val@));
                        }
                    },
                    Err(_) => {
                        lemma_connected_has_witness(conns, replies, i + 1);
                    },
                }
            },
        }
    }
}

/// Drives the lenient decisions for at most `fuel` steps against the
/// pages' replies.
pub open spec fn run_lenient(conns: Seq<Connection>, replies: Seq<Reply>, pending: ProbeAction, fuel: nat) -> ProbeAction
    decreases fuel,
{
    match pending {
        ProbeAction::Finish(_) => pending,
        _ => if fuel == 0 {
            pending
        } else {
            run_lenient(conns, replies, lenient_step(conns, pending, event_for(pending, replies[action_index(pending)])), (fuel - 1) as nat)
        },
    }
}

/// Law: driving the lenient step decisions from page `i` against the
/// pages' replies ends, within `2 * (n - i) + 1` steps, with the result
/// of the lenient rule for those replies.
pub proof fn lemma_run_lenient_matches(conns: Seq<Connection>, replies: Seq<Reply>, i: int, fuel: nat)
    requires
        0 <= i <= conns.len(),
        conns.len() <= usize::MAX,
        replies.len() == conns.len(),
        fuel >= 2 * (conns.len() - i) + 1,
    ensures
        run_lenient(conns, replies, advance(conns, i), fuel) == ProbeAction::Finish(Ok(lenient_from(conns, replies, i))),
    decreases conns.len() - i,
{
    if i < conns.len() {
        let p = ProbeAction::Send(i as usize);
        assert(advance(conns, i) == p);
        assert(action_index(p) == i);
        let p1 = lenient_step(conns, p, event_for(p, replies[i]));
        assert(run_lenient(conns, replies, p, fuel) == run_lenient(conns, replies, p1, (fuel - 1) as nat));
        match replies[i] {
            Reply::Unreachable => {
                lemma_run_lenient_matches(conns, replies, i + 1, (fuel - 1) as nat);
            },
            Reply::Answered { success, body } => {
                if success {
                    let q = ProbeAction::ReadBody(i as usize);
                    assert(p1 == q);
                    assert(action_index(q) == i);
                    let p2 = lenient_step(conns, q, event_for(q, replies[i]));
                    assert(run_lenient(conns, replies, q, (fuel - 1) as nat) == run_lenient(conns, replies, p2, (fuel - 2) as nat));
                    match body {
                        Ok(t) => {
                            if !has_sub(t@, conns[i].val@) {
                                assert(p2 == advance(conns, i + 1));
                                lemma_run_lenient_matches(conns, replies, i + 1, (fuel - 2) as nat);
                            }
                        },
                        Err(m) => {
                            assert(p2 == advance(conns, i + 1));
                            lemma_run_lenient_matches(conns, replies, i + 1, (fuel - 2) as nat);
                        },
                    }
                }
            },
        }
    }
}

/// The page lets the lenient probe go on: no response, an unreadable
/// 2xx body, or a 2xx body without the expected text.
pub open spec fn lenient_passes_on(r: Reply, val: Seq<char>) -> bool {
    match r {
        Reply::Unreachable => true,
        Reply::Answered { success, body } => success && match body {
            Ok(t) => !has_sub(t@, val),
            Err(_) => true,
        },
    }
}

/// Pages `i` up to `k` (excluded) all let the probe go on.
pub proof fn lemma_lenient_skips(conns: Seq<Connection>, replies: Seq<Reply>, i: int, k: int)
    requires
        0 <= i <= k <= conns.len(),
        forall|j: int| i <= j < k ==> #[trigger] lenient_passes_on(replies[j], conns[j].val@),
    ensures
        lenient_from(conns, replies, i) == lenient_from(conns, replies, k),
    decreases k - i,
{
    if i < k {
        assert(lenient_passes_on(replies[i], conns[i].val@));
        lemma_lenient_skips(conns, replies, i + 1, k);
    }
}

/// Law: when every page before `i` let the probe go on and page `i`
/// answers 2xx with a body that contains its expected text, the network
/// is reported `Connected`.
pub proof fn lemma_lenient_text_connects(conns: Seq<Connection>, replies: Seq<Reply>, i: int, t: String)
    requires
        0 <= i < conns.len(),
        forall|j: int| 0 <= j < i ==> #[trigger] lenient_passes_on(replies[j], conns[j].val@),
        replies[i] == (Reply::Answered { success: true, body: Ok(t) }),
        has_sub(t@, conns[i].val@),
    ensures
        lenient_from(conns, replies, 0) == NetStatus::Connected,
{
    lemma_lenient_skips(conns, replies, 0, i);
}

/// Law: when every page before `i` let the probe go on and page `i`
/// answers with a status other than 2xx, the network is `Restricted`.
pub proof fn lemma_lenient_intercepted(conns: Seq<Connection>, replies: Seq<Reply>, i: int, b: Result<String, String>)
    requires
        0 <= i < conns.len(),
        forall|j: int| 0 <= j < i ==> #[trigger] lenient_passes_on(replies[j], conns[j].val@),
        replies[i] == (Reply::Answered { success: false, body: b }),
    ensures
        lenient_from(conns, replies, 0) == NetStatus::Restricted,
{
    lemma_lenient_skips(conns, replies, 0, i);
}

/// Law: when every page lets the probe go on, the network is reported
/// `Disconnected`.
pub proof fn lemma_lenient_all_pass(conns: Seq<Connection>, replies: Seq<Reply>)
    requires
        forall|j: int| 0 <= j < conns.len() ==> #[trigger] lenient_passes_on(replies[j], conns[j].val@),
    ensures
        lenient_from(conns, replies, 0) == NetStatus::Disconnected,
{
    lemma_lenient_skips(conns, replies, 0, conns.len() as int);
}

/// Law: the single decisions of the lenient probe: a failed request or
/// an unreadable body moves on to the next page (or, after the last,
/// reports `Disconnected`); a non-2xx answer reports `Restricted`; a 2xx
/// answer has its body read; a body containing the expected text reports
/// `Connected`, any other body moves on.
pub proof fn lemma_lenient_decisions(conns: Seq<Connection>, i: usize, t: String, m: String)
    requires
        i < conns.len(),
    ensures
        lenient_step(conns, ProbeAction::Send(i), ProbeEvent::SendFailed)
            == (if i + 1 < conns.len() { ProbeAction::Send((i + 1) as usize) } else { ProbeAction::Finish(Ok(NetStatus::Disconnected)) }),
        lenient_step(conns, ProbeAction::Send(i), ProbeEvent::Responded(false)) == ProbeAction::Finish(Ok(NetStatus::Restricted)),
        lenient_step(conns, ProbeAction::Send(i), ProbeEvent::Responded(true)) == ProbeAction::ReadBody(i),
        has_sub(t@, conns[i as int].val@) ==> lenient_step(conns, ProbeAction::ReadBody(i), ProbeEvent::Body(t))
            == ProbeAction::Finish(Ok(NetStatus::Connected)),
        !has_sub(t@, conns[i as int].val@) ==> lenient_step(conns, ProbeAction::ReadBody(i), ProbeEvent::Body(t))
            == lenient_step(conns, ProbeAction::Send(i), ProbeEvent::SendFailed),
        lenient_step(conns, ProbeAction::ReadBody(i), ProbeEvent::BodyFailed(m))
            == lenient_step(conns, ProbeAction::Send(i), ProbeEvent::SendFailed),
{
}

} // verus!
