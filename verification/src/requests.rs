//! The connection requests that came in and wait for a decision. A request
//! waits for a minute; after that it is forgotten.
use vstd::prelude::*;
use vstd::string::*;
use crate::clock::unix_millis;
use crate::network::{SignalMessage, SignalView};
use crate::text::str_equal;

verus! {

/// Seconds a request waits for a decision.
pub const REQUEST_LIFETIME_SECS: u64 = 60;

/// A connection request that came in.
#[derive(Debug)]
pub struct ConnectionRequest {
    /// Who asks.
    pub from: String,
    /// When the request came in, in seconds since the epoch.
    pub timestamp: u64,
    /// When the request is forgotten, in seconds since the epoch.
    pub expires_at: u64,
}

impl Clone for ConnectionRequest {
    fn clone(&self) -> (copy: Self)
        ensures
            copy == *self,
    {
        ConnectionRequest {
            from: self.from.clone(),
            timestamp: self.timestamp,
            expires_at: self.expires_at,
        }
    }
}

/// The requests of `requests` that `keep` keeps, in their order.
pub open spec fn kept(requests: Seq<ConnectionRequest>, keep: spec_fn(ConnectionRequest) -> bool)
    -> Seq<ConnectionRequest>
    decreases requests.len(),
{
    if requests.len() == 0 {
        requests
    } else if keep(requests.last()) {
        kept(requests.drop_last(), keep).push(requests.last())
    } else {
        kept(requests.drop_last(), keep)
    }
}

/// The request is still waiting at `now`.
pub open spec fn waiting_at(now: u64) -> spec_fn(ConnectionRequest) -> bool {
    |request: ConnectionRequest| request.expires_at > now
}

/// The request does not come from `from`.
pub open spec fn not_from(from: Seq<char>) -> spec_fn(ConnectionRequest) -> bool {
    |request: ConnectionRequest| request.from@ != from
}

/// The time at which a request that came in at `now` is forgotten.
pub open spec fn expiry(now: u64) -> u64 {
    if now > u64::MAX - REQUEST_LIFETIME_SECS {
        u64::MAX
    } else {
        (now + REQUEST_LIFETIME_SECS) as u64
    }
}

/// The requests that are kept are among the requests, each of them kept by
/// `keep`; and every request that `keep` keeps is among them.
pub proof fn lemma_kept(requests: Seq<ConnectionRequest>, keep: spec_fn(ConnectionRequest) -> bool)
    ensures
        kept(requests, keep).len() <= requests.len(),
        forall|i: int|
            0 <= i < kept(requests, keep).len() ==> keep(#[trigger] kept(requests, keep)[i])
                && requests.contains(kept(requests, keep)[i]),
        forall|i: int|
            0 <= i < requests.len() && keep(requests[i]) ==> kept(requests, keep).contains(
                #[trigger] requests[i],
            ),
    decreases requests.len(),
{
    if requests.len() > 0 {
        let front = requests.drop_last();
        lemma_kept(front, keep);
        let result = kept(requests, keep);
        assert forall|i: int| 0 <= i < result.len() implies keep(#[trigger] result[i])
            && requests.contains(result[i]) by {
            if i < kept(front, keep).len() {
                assert(result[i] == kept(front, keep)[i]);
                let j = choose|j: int| 0 <= j < front.len() && front[j] == result[i];
                assert(requests[j] == result[i]);
            } else {
                assert(result[i] == requests[requests.len() - 1]);
            }
        }
        assert forall|i: int| 0 <= i < requests.len() && keep(requests[i]) implies result.contains(
            #[trigger] requests[i],
        ) by {
            if i < front.len() {
                assert(front[i] == requests[i]);
                let j = choose|j: int|
                    0 <= j < kept(front, keep).len() && kept(front, keep)[j] == front[i];
                assert(result[j] == requests[i]);
            } else {
                assert(result[result.len() - 1] == requests[i]);
            }
        }
    }
}

fn retain(requests: &mut Vec<ConnectionRequest>, now: u64, from: Option<&str>)
    ensures
        final(requests)@ == kept(
            old(requests)@,
            match from {
                Some(name) => not_from(name@),
                None => waiting_at(now),
            },
        ),
{
    let ghost keep = match from {
        Some(name) => not_from(name@),
        None => waiting_at(now),
    };
    let mut all: Vec<ConnectionRequest> = Vec::new();
    std::mem::swap(&mut all, requests);
    let mut rest: Vec<ConnectionRequest> = Vec::new();
    let ghost whole = all@;
    // The requests are taken from the end, so `rest` holds them reversed.
    while all.len() > 0
        invariant
            keep == match from {
                Some(name) => not_from(name@),
                None => waiting_at(now),
            },
            kept(whole, keep) == kept(all@, keep) + rest@.reverse(),
        decreases all.len(),
    {
        let ghost before = all@;
        let request = all.pop().unwrap();
        assert(all@ == before.drop_last());
        let keep_it = match from {
            Some(name) => !str_equal(request.from.as_str(), name),
            None => request.expires_at > now,
        };
        assert(keep_it == keep(request));
        if keep_it {
            let ghost rest_before = rest@;
            rest.push(request);
            assert(rest@.reverse() =~= seq![request] + rest_before.reverse());
            assert(kept(before, keep) + rest_before.reverse() =~= kept(all@, keep)
                + rest@.reverse());
        }
    }
    assert(kept(all@, keep) + rest@.reverse() =~= rest@.reverse());
    while rest.len() > 0
        invariant
            requests@ + rest@.reverse() == kept(whole, keep),
        decreases rest.len(),
    {
        let ghost rest_before = rest@;
        let ghost out_before = requests@;
        let request = rest.pop().unwrap();
        requests.push(request);
        assert(rest_before.reverse() =~= seq![request] + rest@.reverse());
        assert(requests@ + rest@.reverse() =~= out_before + rest_before.reverse());
    }
    assert(requests@ + rest@.reverse() =~= requests@);
}

/// Forgets the requests that no longer wait at `now`.
pub fn cleanup_old_requests_at(requests: &mut Vec<ConnectionRequest>, now: u64)
    ensures
        final(requests)@ == kept(old(requests)@, waiting_at(now)),
{
    retain(requests, now, None);
}

/// Forgets the requests that no longer wait now, by the clock.
pub fn cleanup_old_requests(requests: &mut Vec<ConnectionRequest>)
    ensures
        exists|now: u64| final(requests)@ == kept(old(requests)@, waiting_at(now)),
{
    let now = unix_millis() / 1000;
    cleanup_old_requests_at(requests, now);
}

/// Forgets the requests of `from`, which were decided.
pub fn remove_requests_from(requests: &mut Vec<ConnectionRequest>, from: &str)
    ensures
        final(requests)@ == kept(old(requests)@, not_from(from@)),
{
    retain(requests, 0, Some(from));
}

/// The request that the message `message`, seen at `now`, stands for: a
/// `ConnectRequest` that names its sender; `None` for any other message.
pub open spec fn request_of(message: SignalView, now: u64) -> Option<(Seq<char>, u64, u64)> {
    if message.msg_type == "ConnectRequest"@ {
        match message.text("from"@) {
            Some(from) => Some((from, now, expiry(now))),
            None => None,
        }
    } else {
        None
    }
}

/// Takes in a message that the listener received at `now`. A connection
/// request that names its sender joins the waiting requests, after those
/// that no longer wait are forgotten, and is handed back for the user to
/// see; any other message changes nothing.
pub fn note_connection_request(
    requests: &mut Vec<ConnectionRequest>,
    message: &SignalMessage,
    now: u64,
) -> (noted: Option<ConnectionRequest>)
    ensures
        match request_of(message@, now) {
            Some((from, timestamp, expires_at)) => noted matches Some(request) && request.from@
                == from && request.timestamp == timestamp && request.expires_at == expires_at
                && final(requests)@.len() == kept(old(requests)@, waiting_at(now)).len() + 1
                && final(requests)@.drop_last() == kept(old(requests)@, waiting_at(now))
                && final(requests)@.last().from@ == from && final(requests)@.last().timestamp
                == timestamp && final(requests)@.last().expires_at == expires_at,
            None => noted is None && final(requests)@ == old(requests)@,
        },
{
    if !message.is_type("ConnectRequest") {
        return None;
    }
    let from = match message.get_str("from") {
        Some(from) => from,
        None => {
            return None;
        },
    };
    let expires_at: u64 = if now > u64::MAX - REQUEST_LIFETIME_SECS {
        u64::MAX
    } else {
        now + REQUEST_LIFETIME_SECS
    };
    let request = ConnectionRequest { from: from.clone(), timestamp: now, expires_at };
    cleanup_old_requests_at(requests, now);
    let ghost cleaned = requests@;
    requests.push(ConnectionRequest { from, timestamp: now, expires_at });
    assert(requests@.drop_last() =~= cleaned);
    Some(request)
}

/// The requests that wait at `now`: those that no longer wait are forgotten
/// first.
pub fn get_pending_requests(requests: &mut Vec<ConnectionRequest>, now: u64) -> (pending: Vec<
    ConnectionRequest,
>)
    ensures
        final(requests)@ == kept(old(requests)@, waiting_at(now)),
        pending@ == final(requests)@,
{
    cleanup_old_requests_at(requests, now);
    let mut pending: Vec<ConnectionRequest> = Vec::new();
    let mut i: usize = 0;
    while i < requests.len()
        invariant
            i <= requests.len(),
            pending@ == requests@.take(i as int),
        decreases requests.len() - i,
    {
        pending.push(requests[i].clone());
        assert(pending@ =~= requests@.take(i + 1));
        i += 1;
    }
    assert(requests@.take(requests@.len() as int) =~= requests@);
    pending
}

/// After the requests that no longer wait are forgotten, every request left
/// still waits: none is older than its lifetime.
pub proof fn lemma_cleanup_leaves_waiting(requests: Seq<ConnectionRequest>, now: u64)
    ensures
        forall|i: int|
            0 <= i < kept(requests, waiting_at(now)).len() ==> (#[trigger] kept(
                requests,
                waiting_at(now),
            )[i]).expires_at > now,
        forall|i: int|
            0 <= i < requests.len() && requests[i].expires_at > now ==> kept(
                requests,
                waiting_at(now),
            ).contains(#[trigger] requests[i]),
{
    lemma_kept(requests, waiting_at(now));
}

} // verus!
