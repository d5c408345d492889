//! The gateway router: resolves a path-embedded shard identifier to
//! its durable backend instance and forwards the request unmodified.
//!
//! The host platform's name-to-instance resolution is the external
//! capability; what this module pins down is the name handed to it —
//! a function of the shard identifier alone, and injective — the
//! forwarded request, and the diagnostic answer for each independent
//! failure point, each with its own status code and body.

use vstd::prelude::*;

use crate::auth::pairs_view;

verus! {

/// The durable-instance name a shard identifier addresses.
pub open spec fn instance_name_spec(id: Seq<char>) -> Seq<char> {
    id
}

/// A forwarding plan: which instance to address, and the request to
/// relay to it with its original method, URL and headers.
#[derive(Debug, Clone)]
pub struct ForwardPlan {
    pub instance_name: String,
    pub method: String,
    pub url: String,
    pub headers: Vec<(String, String)>,
}

/// The mathematical image of a [`ForwardPlan`].
pub ghost struct ForwardPlanModel {
    pub instance_name: Seq<char>,
    pub method: Seq<char>,
    pub url: Seq<char>,
    pub headers: Seq<(Seq<char>, Seq<char>)>,
}

impl View for ForwardPlan {
    type V = ForwardPlanModel;

    open spec fn view(&self) -> ForwardPlanModel {
        ForwardPlanModel {
            instance_name: self.instance_name@,
            method: self.method@,
            url: self.url@,
            headers: pairs_view(self.headers@),
        }
    }
}

/// The plan for one gateway request.
pub open spec fn forward_plan_spec(
    id: Seq<char>,
    method: Seq<char>,
    url: Seq<char>,
    headers: Seq<(Seq<char>, Seq<char>)>,
) -> ForwardPlanModel {
    ForwardPlanModel { instance_name: instance_name_spec(id), method, url, headers }
}

/// Builds the forwarding plan: the instance named by the shard
/// identifier, and the original method, URL and headers, in order.
pub fn gateway_plan(id: &str, method: &str, url: &str, headers: &Vec<(String, String)>) -> (r:
    ForwardPlan)
    ensures
        r@ == forward_plan_spec(id@, method@, url@, pairs_view(headers@)),
{
    let n = headers.len();
    let mut copied: Vec<(String, String)> = Vec::new();
    let mut i: usize = 0;
    while i < n
        invariant
            0 <= i <= n,
            n == headers@.len(),
            copied@.len() == i,
            forall|j: int|
                0 <= j < i ==> ((#[trigger] copied@[j]).0@ == headers@[j].0@ && copied@[j].1@
                    == headers@[j].1@),
        decreases n - i,
    {
        let pair = &headers[i];
        copied.push((pair.0.clone(), pair.1.clone()));
        i = i + 1;
    }
    let r = ForwardPlan {
        instance_name: id.to_owned(),
        method: method.to_owned(),
        url: url.to_owned(),
        headers: copied,
    };
    proof {
        assert(r@.headers =~= pairs_view(headers@));
    }
    r
}

/// The independent failure points of one gateway request.
#[derive(Debug, Clone, Copy, PartialEq, Eq, Structural)]
pub enum GatewayFailure {
    /// The host's instance-addressing binding could not be reached.
    InstanceLookup,
    /// The shard identifier was rejected by the host.
    InvalidId,
    /// The instance's handle could not be acquired.
    StubAcquire,
    /// The outbound request could not be constructed.
    RequestBuild,
    /// A header could not be copied onto the outbound request.
    HeaderCopy,
    /// The send to the instance failed.
    Forward,
}

/// The status code answering each failure point — distinct per cause,
/// so callers can tell a bad identifier from an unreachable backend.
pub open spec fn failure_status_spec(f: GatewayFailure) -> u16 {
    match f {
        GatewayFailure::InstanceLookup => 500,
        GatewayFailure::InvalidId => 400,
        GatewayFailure::StubAcquire => 503,
        GatewayFailure::RequestBuild => 422,
        GatewayFailure::HeaderCopy => 431,
        GatewayFailure::Forward => 502,
    }
}

/// The diagnostic body answering each failure point.
pub open spec fn failure_body_spec(f: GatewayFailure) -> Seq<char> {
    match f {
        GatewayFailure::InstanceLookup => "Error accessing durable object"@,
        GatewayFailure::InvalidId => "Invalid object ID"@,
        GatewayFailure::StubAcquire => "Error getting durable object stub"@,
        GatewayFailure::RequestBuild => "Error creating request"@,
        GatewayFailure::HeaderCopy => "Error setting headers"@,
        GatewayFailure::Forward => "Error fetching durable object"@,
    }
}

/// The diagnostic response for one failure point.
pub fn failure_response(f: GatewayFailure) -> (r: (u16, String))
    ensures
        r.0 == failure_status_spec(f),
        r.1@ == failure_body_spec(f),
{
    match f {
        GatewayFailure::InstanceLookup => (500, "Error accessing durable object".to_owned()),
        GatewayFailure::InvalidId => (400, "Invalid object ID".to_owned()),
        GatewayFailure::StubAcquire => (503, "Error getting durable object stub".to_owned()),
        GatewayFailure::RequestBuild => (422, "Error creating request".to_owned()),
        GatewayFailure::HeaderCopy => (431, "Error setting headers".to_owned()),
        GatewayFailure::Forward => (502, "Error fetching durable object".to_owned()),
    }
}

/// Law of resolution: the instance name is a function of the shard
/// identifier alone — equal identifiers always address the same
/// durable instance — and injective — distinct identifiers always
/// address distinct instances.
pub proof fn lemma_resolution_deterministic(a: Seq<char>, b: Seq<char>)
    ensures
        a == b ==> instance_name_spec(a) == instance_name_spec(b),
        a != b ==> instance_name_spec(a) != instance_name_spec(b),
{
}

} // verus!
