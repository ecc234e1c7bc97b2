//! The bridge's data: pending requests, their approval state, and the
//! polling settings. Reading and writing the bridge file is the
//! application's work; the decisions on the data are verified here.

use vstd::prelude::*;

verus! {

use vstd::string::StringExecFns;

/// One pending request relayed over the bridge.
#[derive(Debug, Clone)]
pub struct BridgeRequest {
    /// Unique identifier of the request.
    pub id: String,
    /// The request's text.
    pub message: String,
    /// What kind of request this is.
    pub request_type: String,
    /// "pending", "approved" or "rejected".
    pub status: String,
    /// When the request was made.
    pub timestamp: String,
}

/// Settings of the bridge's polling loop.
#[derive(Debug, Clone, PartialEq, Eq, Structural)]
pub struct BridgeSettings {
    /// How often the bridge file is polled, in milliseconds.
    pub poll_interval_ms: u32,
    /// Most requests kept pending at once.
    pub max_pending_requests: u32,
    /// How long a request may stay unanswered, in milliseconds.
    pub timeout_ms: u32,
}

/// The default bridge settings.
pub open spec fn spec_default_settings() -> BridgeSettings {
    BridgeSettings { poll_interval_ms: 2000, max_pending_requests: 10, timeout_ms: 300000 }
}

impl Default for BridgeSettings {
    /// Defaults: poll every 2 seconds, keep at most 10 pending requests,
    /// time out after 5 minutes.
    fn default() -> (s: BridgeSettings)
        ensures
            s == spec_default_settings(),
    {
        BridgeSettings { poll_interval_ms: 2000, max_pending_requests: 10, timeout_ms: 300000 }
    }
}

/// Everything the bridge file holds.
#[derive(Debug, Clone)]
pub struct BridgeData {
    /// Whether requests are approved without asking.
    pub auto_approve: bool,
    /// The pending requests, oldest first.
    pub requests: Vec<BridgeRequest>,
    /// The polling settings.
    pub settings: BridgeSettings,
}

impl Default for BridgeData {
    /// Defaults: manual approval, no requests, default settings.
    fn default() -> (d: BridgeData)
        ensures
            !d.auto_approve,
            d.requests@ == Seq::<BridgeRequest>::empty(),
            d.settings == spec_default_settings(),
    {
        BridgeData { auto_approve: false, requests: Vec::new(), settings: BridgeSettings::default() }
    }
}

/// The index of the first request carrying identifier `id`, if any.
pub open spec fn spec_find_request(reqs: Seq<BridgeRequest>, id: Seq<char>) -> Option<int>
    decreases reqs.len(),
{
    if reqs.len() == 0 {
        None
    } else if reqs[0].id@ == id {
        Some(0)
    } else {
        match spec_find_request(reqs.drop_first(), id) {
            Some(i) => Some(i + 1),
            None => None,
        }
    }
}

impl BridgeData {
    /// Turns automatic approval on or off.
    pub fn set_auto_approve(&mut self, enabled: bool)
        ensures
            final(self).auto_approve == enabled,
            final(self).requests@ == old(self).requests@,
            final(self).settings == old(self).settings,
    {
        self.auto_approve = enabled;
    }

    /// Marks the first request with identifier `id`, if any, with `status`;
    /// any other request is untouched.
    pub fn set_request_status(&mut self, id: &str, status: &str)
        ensures
            final(self).auto_approve == old(self).auto_approve,
            final(self).settings == old(self).settings,
            final(self).requests@.len() == old(self).requests@.len(),
            match spec_find_request(old(self).requests@, id@) {
                Some(i) => {
                    &&& final(self).requests@[i].status@ == status@
                    &&& final(self).requests@[i].id@ == old(self).requests@[i].id@
                    &&& final(self).requests@[i].message@ == old(self).requests@[i].message@
                    &&& final(self).requests@[i].request_type@ == old(
                        self,
                    ).requests@[i].request_type@
                    &&& final(self).requests@[i].timestamp@ == old(self).requests@[i].timestamp@
                    &&& forall|k: int|
                        0 <= k < old(self).requests@.len() && k != i ==> final(self).requests@[k]
                            == old(self).requests@[k]
                },
                None => final(self).requests@ == old(self).requests@,
            },
    {
        let n = self.requests.len();
        let mut i: usize = 0;
        while i < n
            invariant
                i <= n,
                n == self.requests@.len(),
                self.requests@ == old(self).requests@,
                self.auto_approve == old(self).auto_approve,
                self.settings == old(self).settings,
                forall|k: int| 0 <= k < i ==> old(self).requests@[k].id@ != id@,
            decreases n - i,
        {
            if crate::text::str_eq(self.requests[i].id.as_str(), id) {
                proof {
                    lemma_find_request_at(old(self).requests@, id@, i as int);
                }
                let updated = BridgeRequest {
                    id: self.requests[i].id.clone(),
                    message: self.requests[i].message.clone(),
                    request_type: self.requests[i].request_type.clone(),
                    status: String::from_str(status),
                    timestamp: self.requests[i].timestamp.clone(),
                };
                self.requests.set(i, updated);
                return ;
            }
            i += 1;
        }
        proof {
            lemma_find_request_missing(old(self).requests@, id@);
        }
    }

    /// Discards every request.
    pub fn clear_requests(&mut self)
        ensures
            final(self).auto_approve == old(self).auto_approve,
            final(self).settings == old(self).settings,
            final(self).requests@ == Seq::<BridgeRequest>::empty(),
    {
        self.requests.clear();
    }
}

proof fn lemma_find_request_at(reqs: Seq<BridgeRequest>, id: Seq<char>, i: int)
    requires
        0 <= i < reqs.len(),
        reqs[i].id@ == id,
        forall|k: int| 0 <= k < i ==> reqs[k].id@ != id,
    ensures
        spec_find_request(reqs, id) == Some(i),
    decreases i,
{
    if i > 0 {
        lemma_find_request_at(reqs.drop_first(), id, i - 1);
    } else {
        assert(reqs.len() > 0 && reqs[0].id@ == id);
    }
}

proof fn lemma_find_request_missing(reqs: Seq<BridgeRequest>, id: Seq<char>)
    requires
        forall|k: int| 0 <= k < reqs.len() ==> reqs[k].id@ != id,
    ensures
        spec_find_request(reqs, id) is None,
    decreases reqs.len(),
{
    if reqs.len() > 0 {
        lemma_find_request_missing(reqs.drop_first(), id);
    }
}

} // verus!
