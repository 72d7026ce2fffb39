//! The daemon's own connectivity checks (two generations) and the
//! cable/wireless check.
use vstd::prelude::*;
use crate::text::str_eq;
use crate::campus_core::detect::{ProbeEvent, Reply};
use crate::auto_login::config;
use crate::auto_login::dtypes;

verus! {

/// The system reports a network connection (non-zero flag) or not.
pub fn check_lan(connected: i32) -> (r: Result<(), u8>)
    ensures
        r is Ok <==> connected != 0,
        r matches Err(e) ==> e == 0,
{
    if connected != 0 { Ok(()) } else { Err(0) }
}

/// Why the strict check failed.
pub enum CheckError {
    /// no probe page gave the expected answer
    Offline,
    /// a response body could not be read (the message)
    Unreadable(String),
}

impl CheckError {
    /// The message reported for the failure.
    pub fn message(&self) -> (r: String)
        ensures
            self is Offline ==> r@ == "网络未连接"@,
            self matches CheckError::Unreadable(m) ==> r@ == m@,
    {
        match self {
            CheckError::Offline => "网络未连接".to_owned(),
            CheckError::Unreadable(m) => m.clone(),
        }
    }
}

/// What the strict check asks of the prober next.
pub enum CheckAction {
    /// GET page `i`
    Send(usize),
    /// read the body of page `i`'s response; whether its status was 2xx
    ReadBody(usize, bool),
    /// the result
    Finish(Result<(), CheckError>),
}

/// Move on to page `j`, or fail when none is left.
pub open spec fn check_advance(conns: Seq<config::ConnectionState>, j: int) -> CheckAction {
    if 0 <= j < conns.len() { CheckAction::Send(j as usize) } else { CheckAction::Finish(Err(CheckError::Offline)) }
}

/// One decision of the strict check: every response body is read; a 2xx
/// response whose body equals the expected value means connected.
pub open spec fn check_step_spec(conns: Seq<config::ConnectionState>, pending: CheckAction, ev: ProbeEvent) -> CheckAction {
    match pending {
        CheckAction::Send(i) => match ev {
            ProbeEvent::SendFailed => check_advance(conns, i + 1),
            ProbeEvent::Responded(ok) => CheckAction::ReadBody(i, ok),
            _ => pending,
        },
        CheckAction::ReadBody(i, ok) => match ev {
            ProbeEvent::BodyFailed(m) => CheckAction::Finish(Err(CheckError::Unreadable(m))),
            ProbeEvent::Body(t) => if ok && i < conns.len() && t@ == conns[i as int].value@ {
                CheckAction::Finish(Ok(()))
            } else {
                check_advance(conns, i + 1)
            },
            _ => pending,
        },
        CheckAction::Finish(_) => pending,
    }
}

/// The first action of the strict check.
pub fn check_begin(connection: &Vec<config::ConnectionState>) -> (r: CheckAction)
    ensures
        r == check_advance(connection@, 0),
{
    if connection.len() > 0 { CheckAction::Send(0) } else { CheckAction::Finish(Err(CheckError::Offline)) }
}

fn check_advance_exec(connection: &Vec<config::ConnectionState>, i: usize) -> (r: CheckAction)
    ensures
        r == check_advance(connection@, i + 1),
{
    if i < connection.len() && i + 1 < connection.len() {
        CheckAction::Send(i + 1)
    } else {
        CheckAction::Finish(Err(CheckError::Offline))
    }
}

/// The next action of the strict check after the prober reports `ev`.
pub fn check_step(connection: &Vec<config::ConnectionState>, pending: CheckAction, ev: ProbeEvent) -> (r: CheckAction)
    ensures
        r == check_step_spec(connection@, pending, ev),
{
    match pending {
        CheckAction::Send(i) => match ev {
            ProbeEvent::SendFailed => check_advance_exec(connection, i),
            ProbeEvent::Responded(ok) => CheckAction::ReadBody(i, ok),
            _ => CheckAction::Send(i),
        },
        CheckAction::ReadBody(i, ok) => match ev {
            ProbeEvent::BodyFailed(m) => CheckAction::Finish(Err(CheckError::Unreadable(m))),
            ProbeEvent::Body(t) => {
                if ok && i < connection.len() && str_eq(t.as_str(), connection[i].value.as_str()) {
                    CheckAction::Finish(Ok(()))
                } else {
                    check_advance_exec(connection, i)
                }
            },
            _ => CheckAction::ReadBody(i, ok),
        },
        CheckAction::Finish(res) => CheckAction::Finish(res),
    }
}

/// The event a page answering `r` produces for the strict check's
/// pending action.
pub open spec fn strict_event(pending: CheckAction, r: Reply) -> ProbeEvent {
    match pending {
        CheckAction::ReadBody(_, _) => match r {
            Reply::Answered { success, body } => match body {
                Ok(t) => ProbeEvent::Body(t),
                Err(m) => ProbeEvent::BodyFailed(m),
            },
            Reply::Unreachable => ProbeEvent::SendFailed,
        },
        _ => match r {
            Reply::Unreachable => ProbeEvent::SendFailed,
            Reply::Answered { success, body } => ProbeEvent::Responded(success),
        },
    }
}

/// The page a pending action of the strict check concerns.
pub open spec fn strict_index(a: CheckAction) -> int {
    match a {
        CheckAction::Send(i) => i as int,
        CheckAction::ReadBody(i, _) => i as int,
        CheckAction::Finish(_) => 0,
    }
}

/// Drives the strict check's decisions for at most `fuel` steps against
/// the pages' replies.
pub open spec fn strict_run(conns: Seq<config::ConnectionState>, replies: Seq<Reply>, pending: CheckAction, fuel: nat) -> CheckAction
    decreases fuel,
{
    match pending {
        CheckAction::Finish(_) => pending,
        _ => if fuel == 0 {
            pending
        } else {
            strict_run(conns, replies, check_step_spec(conns, pending, strict_event(pending, replies[strict_index(pending)])), (fuel - 1) as nat)
        },
    }
}

/// The page answered 2xx with exactly its expected text.
pub open spec fn strict_hit(c: config::ConnectionState, r: Reply) -> bool {
    match r {
        Reply::Answered { success, body } => success && match body {
            Ok(t) => t@ == c.value@,
            Err(_) => false,
        },
        Reply::Unreachable => false,
    }
}

/// The page lets the strict check go on: no response, or a readable body
/// that is not a 2xx answer with the expected text.
pub open spec fn strict_pass(c: config::ConnectionState, r: Reply) -> bool {
    match r {
        Reply::Unreachable => true,
        Reply::Answered { success, body } => match body {
            Ok(t) => !(success && t@ == c.value@),
            Err(_) => false,
        },
    }
}

proof fn lemma_strict_shift(conns: Seq<config::ConnectionState>, replies: Seq<Reply>, i: int)
    requires
        0 <= i < conns.len(),
        strict_pass(conns[i], replies[i]),
    ensures
        (exists|k: int| i <= k < conns.len() && strict_hit(conns[k], replies[k])
            && forall|j: int| i <= j < k ==> #[trigger] strict_pass(conns[j], replies[j]))
        <==> (exists|k: int| i + 1 <= k < conns.len() && strict_hit(conns[k], replies[k])
            && forall|j: int| i + 1 <= j < k ==> #[trigger] strict_pass(conns[j], replies[j])),
        (forall|k: int| i <= k < conns.len() ==> #[trigger] strict_pass(conns[k], replies[k]))
        <==> (forall|k: int| i + 1 <= k < conns.len() ==> #[trigger] strict_pass(conns[k], replies[k])),
{
    assert(!strict_hit(conns[i], replies[i]));
    if exists|k: int| i <= k < conns.len() && strict_hit(conns[k], replies[k])
        && forall|j: int| i <= j < k ==> #[trigger] strict_pass(conns[j], replies[j]) {
        let k = choose|k: int| i <= k < conns.len() && strict_hit(conns[k], replies[k])
            && forall|j: int| i <= j < k ==> #[trigger] strict_pass(conns[j], replies[j]);
        assert(k != i);
        assert(forall|j: int| i + 1 <= j < k ==> #[trigger] strict_pass(conns[j], replies[j]));
    }
    if exists|k: int| i + 1 <= k < conns.len() && strict_hit(conns[k], replies[k])
        && forall|j: int| i + 1 <= j < k ==> #[trigger] strict_pass(conns[j], replies[j]) {
        let k = choose|k: int| i + 1 <= k < conns.len() && strict_hit(conns[k], replies[k])
            && forall|j: int| i + 1 <= j < k ==> #[trigger] strict_pass(conns[j], replies[j]);
        assert forall|j: int| i <= j < k implies #[trigger] strict_pass(conns[j], replies[j]) by {
            if j > i {
                assert(i + 1 <= j < k);
            }
        }
    }
    if forall|k: int| i + 1 <= k < conns.len() ==> #[trigger] strict_pass(conns[k], replies[k]) {
        assert forall|k: int| i <= k < conns.len() implies #[trigger] strict_pass(conns[k], replies[k]) by {
            if k > i {
                assert(i + 1 <= k);
            }
        }
    }
}

/// The strict check driven from page `i` ends, and ends with success or
/// with `Offline` as the law below says for the pages from `i` on.
pub proof fn lemma_strict_run_from(conns: Seq<config::ConnectionState>, replies: Seq<Reply>, i: int, fuel: nat)
    requires
        0 <= i <= conns.len(),
        conns.len() <= usize::MAX,
        replies.len() == conns.len(),
        fuel >= 2 * (conns.len() - i) + 1,
    ensures
        strict_run(conns, replies, check_advance(conns, i), fuel) is Finish,
        (strict_run(conns, replies, check_advance(conns, i), fuel) == CheckAction::Finish(Ok(())))
            <==> exists|k: int| i <= k < conns.len() && strict_hit(conns[k], replies[k])
                && forall|j: int| i <= j < k ==> #[trigger] strict_pass(conns[j], replies[j]),
        (strict_run(conns, replies, check_advance(conns, i), fuel) == CheckAction::Finish(Err(CheckError::Offline)))
            <==> forall|k: int| i <= k < conns.len() ==> #[trigger] strict_pass(conns[k], replies[k]),
    decreases conns.len() - i,
{
    if i < conns.len() {
        let p = CheckAction::Send(i as usize);
        assert(check_advance(conns, i) == p);
        assert(strict_index(p) == i);
        let p1 = check_step_spec(conns, p, strict_event(p, replies[i]));
        assert(strict_run(conns, replies, p, fuel) == strict_run(conns, replies, p1, (fuel - 1) as nat));
        match replies[i] {
            Reply::Unreachable => {
                assert(p1 == check_advance(conns, i + 1));
                lemma_strict_run_from(conns, replies, i + 1, (fuel - 1) as nat);
                lemma_strict_shift(conns, replies, i);
            },
            Reply::Answered { success, body } => {
                let q = CheckAction::ReadBody(i as usize, success);
                assert(p1 == q);
                assert(strict_index(q) == i);
                let p2 = check_step_spec(conns, q, strict_event(q, replies[i]));
                assert(strict_run(conns, replies, q, (fuel - 1) as nat) == strict_run(conns, replies, p2, (fuel - 2) as nat));
                match body {
                    Ok(t) => {
                        if success && t@ == conns[i].value@ {
                            assert(p2 == CheckAction::Finish(Ok(())));
                            assert(strict_hit(conns[i], replies[i]));
                            assert(!strict_pass(conns[i], replies[i]));
                            assert(forall|j: int| i <= j < i ==> #[trigger] strict_pass(conns[j], replies[j]));
                        } else {
                            assert(p2 == check_advance(conns, i + 1));
                            lemma_strict_run_from(conns, replies, i + 1, (fuel - 2) as nat);
                            lemma_strict_shift(conns, replies, i);
                        }
                    },
                    Err(m) => {
                        assert(p2 == CheckAction::Finish(Err(CheckError::Unreadable(m))));
                        assert(!strict_pass(conns[i], replies[i]));
                        assert(!strict_hit(conns[i], replies[i]));
                        if exists|k: int| i <= k < conns.len() && strict_hit(conns[k], replies[k])
                            && forall|j: int| i <= j < k ==> #[trigger] strict_pass(conns[j], replies[j]) {
                            let k = choose|k: int| i <= k < conns.len() && strict_hit(conns[k], replies[k])
                                && forall|j: int| i <= j < k ==> #[trigger] strict_pass(conns[j], replies[j]);
                            if k > i {
                                assert(strict_pass(conns[i], replies[i]));
                            }
                        }
                    },
                }
            },
        }
    }
}

/// Law: the strict check, driven against the pages' replies, succeeds
/// exactly when some page answers 2xx with its expected text and every
/// page before it gave no response or a readable body other than that
/// (a 2xx answer with another body moves on to the next page); it fails
/// with `Offline` exactly when every page gave no response or such a body.
pub proof fn lemma_strict_check_whole_run(conns: Seq<config::ConnectionState>, replies: Seq<Reply>, fuel: nat)
    requires
        conns.len() <= usize::MAX,
        replies.len() == conns.len(),
        fuel >= 2 * conns.len() + 1,
    ensures
        (strict_run(conns, replies, check_advance(conns, 0), fuel) == CheckAction::Finish(Ok(())))
            <==> exists|k: int| 0 <= k < conns.len() && strict_hit(conns[k], replies[k])
                && forall|j: int| 0 <= j < k ==> #[trigger] strict_pass(conns[j], replies[j]),
        (strict_run(conns, replies, check_advance(conns, 0), fuel) == CheckAction::Finish(Err(CheckError::Offline)))
            <==> forall|k: int| 0 <= k < conns.len() ==> #[trigger] strict_pass(conns[k], replies[k]),
{
    lemma_strict_run_from(conns, replies, 0, fuel);
}

/// Law: the single decisions of the strict check: a failed request
/// moves on; a response has its body read; a 2xx body equal to the
/// expected text succeeds; any other readable body moves on to the next
/// page (or fails `Offline` after the last); an unreadable body fails.
pub proof fn lemma_strict_decisions(conns: Seq<config::ConnectionState>, i: usize, ok: bool, t: String, m: String)
    requires
        i < conns.len(),
    ensures
        check_step_spec(conns, CheckAction::Send(i), ProbeEvent::SendFailed)
            == (if i + 1 < conns.len() { CheckAction::Send((i + 1) as usize) } else { CheckAction::Finish(Err(CheckError::Offline)) }),
        check_step_spec(conns, CheckAction::Send(i), ProbeEvent::Responded(ok)) == CheckAction::ReadBody(i, ok),
        ok && t@ == conns[i as int].value@ ==> check_step_spec(conns, CheckAction::ReadBody(i, ok), ProbeEvent::Body(t))
            == CheckAction::Finish(Ok(())),
        !(ok && t@ == conns[i as int].value@) ==> check_step_spec(conns, CheckAction::ReadBody(i, ok), ProbeEvent::Body(t))
            == (if i + 1 < conns.len() { CheckAction::Send((i + 1) as usize) } else { CheckAction::Finish(Err(CheckError::Offline)) }),
        check_step_spec(conns, CheckAction::ReadBody(i, ok), ProbeEvent::BodyFailed(m))
            == CheckAction::Finish(Err(CheckError::Unreadable(m))),
{
}

/// The text a reply yields for the all-pages check ("restricted" when the
/// body cannot be read).
pub open spec fn reply_text(body: Result<String, String>) -> Seq<char> {
    match body {
        Ok(t) => t@,
        Err(_) => "restricted"@,
    }
}

/// Page `c` answered 2xx with exactly its expected text (an unreadable
/// body reads as "restricted").
pub open spec fn settles(c: dtypes::ConnectionState, r: Reply) -> bool {
    match r {
        Reply::Answered { success, body } => success && reply_text(body) == c.value@,
        Reply::Unreachable => false,
    }
}

/// The status after the first `n` pages: the first page that settles
/// gives `Connecting` and ends the check; before that, each other 2xx
/// answer sets the status to `Restricted`, and pages without a 2xx answer
/// leave it.
pub open spec fn scan(conns: Seq<dtypes::ConnectionState>, replies: Seq<Reply>, n: int) -> dtypes::NetStatus
    decreases n,
{
    if n <= 0 {
        dtypes::NetStatus::Disconnected
    } else {
        let before = scan(conns, replies, n - 1);
        if before == dtypes::NetStatus::Connecting {
            before
        } else if settles(conns[n - 1], replies[n - 1]) {
            dtypes::NetStatus::Connecting
        } else if replies[n - 1] matches Reply::Answered { success, body } && success {
            dtypes::NetStatus::Restricted
        } else {
            before
        }
    }
}

/// Whether page `c` answering `reply` settles the check, so that no
/// further page need be asked.
pub fn answer_settles(c: &dtypes::ConnectionState, reply: &Reply) -> (r: bool)
    ensures
        r == settles(*c, *reply),
{
    match reply {
        Reply::Unreachable => false,
        Reply::Answered { success, body } => {
            if !*success {
                return false;
            }
            match body {
                Ok(t) => str_eq(t.as_str(), c.value.as_str()),
                Err(_) => str_eq("restricted", c.value.as_str()),
            }
        },
    }
}

/// The all-pages check over the replies of the pages asked so far, in
/// order: the first page answering 2xx with its expected text means
/// `Connecting` and the check returns there; otherwise the last 2xx
/// answer means `Restricted`, and no 2xx answer means `Disconnected`.
pub fn check_connection(connection: &Vec<dtypes::ConnectionState>, replies: &Vec<Reply>) -> (r: dtypes::NetStatus)
    requires
        replies@.len() <= connection@.len(),
    ensures
        r == scan(connection@, replies@, replies@.len() as int),
{
    let mut status = dtypes::NetStatus::Disconnected;
    let mut i: usize = 0;
    while i < replies.len()
        invariant
            replies@.len() <= connection@.len(),
            i <= replies@.len(),
            status == scan(connection@, replies@, i as int),
            status != dtypes::NetStatus::Connecting,
        decreases replies@.len() - i,
    {
        if answer_settles(&connection[i], &replies[i]) {
            proof {
                lemma_connecting_stays(connection@, replies@, i as int + 1, replies@.len() as int);
            }
            return dtypes::NetStatus::Connecting;
        }
        if let Reply::Answered { success, body: _ } = &replies[i] {
            if *success {
                status = dtypes::NetStatus::Restricted;
            }
        }
        i = i + 1;
    }
    status
}

/// Once the check has reached `Connecting`, later pages change nothing.
proof fn lemma_connecting_stays(conns: Seq<dtypes::ConnectionState>, replies: Seq<Reply>, k: int, n: int)
    requires
        scan(conns, replies, k) == dtypes::NetStatus::Connecting,
        k <= n,
    ensures
        scan(conns, replies, n) == dtypes::NetStatus::Connecting,
    decreases n - k,
{
    if k < n {
        lemma_connecting_stays(conns, replies, k, n - 1);
    }
}

/// Law: one page answering 2xx with its expected text is enough: the
/// check gives `Connecting` whatever the pages after it answer.
pub proof fn lemma_first_match_decides(conns: Seq<dtypes::ConnectionState>, replies: Seq<Reply>, k: int, n: int)
    requires
        0 <= k < n,
        settles(conns[k], replies[k]),
    ensures
        scan(conns, replies, n) == dtypes::NetStatus::Connecting,
{
    assert(scan(conns, replies, k + 1) == dtypes::NetStatus::Connecting);
    lemma_connecting_stays(conns, replies, k + 1, n);
}

/// Law: a page answering 2xx with a body equal to its expected value
/// makes the all-pages check report `Connecting`, whatever the pages
/// after it answer.
pub proof fn lemma_all_pages_expected_body_connects(conns: Seq<dtypes::ConnectionState>, replies: Seq<Reply>, k: int, n: int, t: String)
    requires
        0 <= k < n,
        replies[k] == (Reply::Answered { success: true, body: Ok(t) }),
        t@ == conns[k].value@,
    ensures
        scan(conns, replies, n) == dtypes::NetStatus::Connecting,
{
    lemma_first_match_decides(conns, replies, k, n);
}

/// Law: when no page among the first `n` answered with a 2xx status, the
/// all-pages check reports `Disconnected`.
pub proof fn lemma_all_pages_no_answer(conns: Seq<dtypes::ConnectionState>, replies: Seq<Reply>, n: int)
    requires
        forall|j: int| 0 <= j < n ==> !(#[trigger] replies[j] matches Reply::Answered { success: true, .. }),
    ensures
        scan(conns, replies, n) == dtypes::NetStatus::Disconnected,
    decreases n,
{
    if n > 0 {
        lemma_all_pages_no_answer(conns, replies, n - 1);
        assert(!(replies[n - 1] matches Reply::Answered { success: true, .. }));
    }
}

/// Law: when some page among the first `n` answered 2xx but none with its
/// expected text, the all-pages check reports `Restricted`.
pub proof fn lemma_all_pages_restricted(conns: Seq<dtypes::ConnectionState>, replies: Seq<Reply>, k: int, n: int)
    requires
        0 <= k < n,
        replies[k] matches Reply::Answered { success: true, .. },
        forall|j: int| 0 <= j < n ==> !settles(conns[j], #[trigger] replies[j]),
    ensures
        scan(conns, replies, n) == dtypes::NetStatus::Restricted,
    decreases n,
{
    if n - 1 > k {
        lemma_all_pages_restricted(conns, replies, k, n - 1);
        assert(!settles(conns[n - 1], replies[n - 1]));
    } else {
        assert(!settles(conns[k], replies[k]));
        lemma_no_connecting(conns, replies, k);
    }
}

proof fn lemma_no_connecting(conns: Seq<dtypes::ConnectionState>, replies: Seq<Reply>, n: int)
    requires
        forall|j: int| 0 <= j < n ==> !settles(conns[j], #[trigger] replies[j]),
    ensures
        scan(conns, replies, n) != dtypes::NetStatus::Connecting,
    decreases n,
{
    if n > 0 {
        lemma_no_connecting(conns, replies, n - 1);
        assert(!settles(conns[n - 1], replies[n - 1]));
    }
}

} // verus!
