//! Which request goes where.

use vstd::prelude::*;

verus! {

/// How a request is made.
#[derive(Clone, Copy, Debug, PartialEq, Eq, Structural)]
pub enum HttpMethod {
    Get,
    Post,
}

/// What answers a request.
#[derive(Clone, Copy, Debug, PartialEq, Eq, Structural)]
pub enum Endpoint {
    WsHandlerV2,
    WsHandlerPubkey,
    PostSignupV2,
    ConfirmationClaim,
    ClaimDirect,
    PostClaimV2,
    GetHighDifficulty,
    GetHashpower,
    GetConnectedMiners,
    GetTimestamp,
    GetMinerEarnings,
    GetEarningsDay,
    GetEarningsHours,
    GetMinerRewards,
    GetMinerLastClaim,
}

/// A request and what answers it.
#[derive(Clone, Copy, Debug, PartialEq, Eq)]
pub struct Route {
    pub method: HttpMethod,
    pub path: &'static str,
    pub endpoint: Endpoint,
}

impl Endpoint {
    /// How the endpoint is asked.
    pub open spec fn method(self) -> HttpMethod {
        match self {
            Endpoint::PostSignupV2
            | Endpoint::ConfirmationClaim
            | Endpoint::ClaimDirect
            | Endpoint::PostClaimV2 => HttpMethod::Post,
            _ => HttpMethod::Get,
        }
    }

    /// Where the endpoint is asked.
    pub open spec fn path(self) -> Seq<char> {
        match self {
            Endpoint::WsHandlerV2 => "/v2/ws"@,
            Endpoint::WsHandlerPubkey => "/v2/ws-pubkey"@,
            Endpoint::PostSignupV2 => "/v2/signup"@,
            Endpoint::ConfirmationClaim => "/v2/confirmation-claim"@,
            Endpoint::ClaimDirect => "/v2/claim-direct"@,
            Endpoint::PostClaimV2 => "/v2/claim"@,
            Endpoint::GetHighDifficulty => "/high-difficulty"@,
            Endpoint::GetHashpower => "/hashpower"@,
            Endpoint::GetConnectedMiners => "/active-miners"@,
            Endpoint::GetTimestamp => "/timestamp"@,
            Endpoint::GetMinerEarnings => "/miner/earnings"@,
            Endpoint::GetEarningsDay => "/miner/earnings-submissions-day"@,
            Endpoint::GetEarningsHours => "/miner/earnings-submissions-hours"@,
            Endpoint::GetMinerRewards => "/miner/rewards"@,
            Endpoint::GetMinerLastClaim => "/miner/last-claim"@,
        }
    }

    /// The route to the endpoint.
    pub fn route(self) -> (res: Route)
        ensures
            res.method == self.method(),
            res.path@ == self.path(),
            res.endpoint == self,
    {
        let (method, path) = match self {
            Endpoint::WsHandlerV2 => (HttpMethod::Get, "/v2/ws"),
            Endpoint::WsHandlerPubkey => (HttpMethod::Get, "/v2/ws-pubkey"),
            Endpoint::PostSignupV2 => (HttpMethod::Post, "/v2/signup"),
            Endpoint::ConfirmationClaim => (HttpMethod::Post, "/v2/confirmation-claim"),
            Endpoint::ClaimDirect => (HttpMethod::Post, "/v2/claim-direct"),
            Endpoint::PostClaimV2 => (HttpMethod::Post, "/v2/claim"),
            Endpoint::GetHighDifficulty => (HttpMethod::Get, "/high-difficulty"),
            Endpoint::GetHashpower => (HttpMethod::Get, "/hashpower"),
            Endpoint::GetConnectedMiners => (HttpMethod::Get, "/active-miners"),
            Endpoint::GetTimestamp => (HttpMethod::Get, "/timestamp"),
            Endpoint::GetMinerEarnings => (HttpMethod::Get, "/miner/earnings"),
            Endpoint::GetEarningsDay => (HttpMethod::Get, "/miner/earnings-submissions-day"),
            Endpoint::GetEarningsHours => (HttpMethod::Get, "/miner/earnings-submissions-hours"),
            Endpoint::GetMinerRewards => (HttpMethod::Get, "/miner/rewards"),
            Endpoint::GetMinerLastClaim => (HttpMethod::Get, "/miner/last-claim"),
        };
        Route { method, path, endpoint: self }
    }
}

/// Whether a route is the one to its endpoint.
pub open spec fn leads(route: Route) -> bool {
    route.method == route.endpoint.method() && route.path@ == route.endpoint.path()
}

/// Every endpoint of the server.
pub open spec fn endpoints() -> Seq<Endpoint> {
    seq![
        Endpoint::WsHandlerV2,
        Endpoint::WsHandlerPubkey,
        Endpoint::PostSignupV2,
        Endpoint::ConfirmationClaim,
        Endpoint::ClaimDirect,
        Endpoint::PostClaimV2,
        Endpoint::GetHighDifficulty,
        Endpoint::GetHashpower,
        Endpoint::GetConnectedMiners,
        Endpoint::GetTimestamp,
        Endpoint::GetMinerEarnings,
        Endpoint::GetEarningsDay,
        Endpoint::GetEarningsHours,
        Endpoint::GetMinerRewards,
        Endpoint::GetMinerLastClaim,
    ]
}

/// Every route of the server.
pub fn create_router() -> (res: Vec<Route>)
    ensures
        res@.map_values(|route: Route| route.endpoint) == endpoints(),
        forall|i: int| 0 <= i < res@.len() ==> leads(#[trigger] res@[i]),
{
    let mut res: Vec<Route> = Vec::new();
    res.push(Endpoint::WsHandlerV2.route());
    res.push(Endpoint::WsHandlerPubkey.route());
    res.push(Endpoint::PostSignupV2.route());
    res.push(Endpoint::ConfirmationClaim.route());
    res.push(Endpoint::ClaimDirect.route());
    res.push(Endpoint::PostClaimV2.route());
    res.push(Endpoint::GetHighDifficulty.route());
    res.push(Endpoint::GetHashpower.route());
    res.push(Endpoint::GetConnectedMiners.route());
    res.push(Endpoint::GetTimestamp.route());
    res.push(Endpoint::GetMinerEarnings.route());
    res.push(Endpoint::GetEarningsDay.route());
    res.push(Endpoint::GetEarningsHours.route());
    res.push(Endpoint::GetMinerRewards.route());
    res.push(Endpoint::GetMinerLastClaim.route());
    assert(res@.map_values(|route: Route| route.endpoint) =~= endpoints());
    res
}

/// There is exactly one route to each endpoint.
pub proof fn lemma_one_route_to_each(endpoint: Endpoint)
    ensures
        exists|i: int| 0 <= i < endpoints().len() && #[trigger] endpoints()[i] == endpoint,
        endpoints().no_duplicates(),
{
    let i: int = match endpoint {
        Endpoint::WsHandlerV2 => 0,
        Endpoint::WsHandlerPubkey => 1,
        Endpoint::PostSignupV2 => 2,
        Endpoint::ConfirmationClaim => 3,
        Endpoint::ClaimDirect => 4,
        Endpoint::PostClaimV2 => 5,
        Endpoint::GetHighDifficulty => 6,
        Endpoint::GetHashpower => 7,
        Endpoint::GetConnectedMiners => 8,
        Endpoint::GetTimestamp => 9,
        Endpoint::GetMinerEarnings => 10,
        Endpoint::GetEarningsDay => 11,
        Endpoint::GetEarningsHours => 12,
        Endpoint::GetMinerRewards => 13,
        Endpoint::GetMinerLastClaim => 14,
    };
    assert(endpoints()[i] == endpoint);
}

/// The length of a path and the character after its first slash.
spec fn shape(endpoint: Endpoint) -> (int, char) {
    match endpoint {
        Endpoint::WsHandlerV2 => (6, 'v'),
        Endpoint::WsHandlerPubkey => (13, 'v'),
        Endpoint::PostSignupV2 => (10, 'v'),
        Endpoint::ConfirmationClaim => (22, 'v'),
        Endpoint::ClaimDirect => (16, 'v'),
        Endpoint::PostClaimV2 => (9, 'v'),
        Endpoint::GetHighDifficulty => (16, 'h'),
        Endpoint::GetHashpower => (10, 'h'),
        Endpoint::GetConnectedMiners => (14, 'a'),
        Endpoint::GetTimestamp => (10, 't'),
        Endpoint::GetMinerEarnings => (15, 'm'),
        Endpoint::GetEarningsDay => (31, 'm'),
        Endpoint::GetEarningsHours => (33, 'm'),
        Endpoint::GetMinerRewards => (14, 'm'),
        Endpoint::GetMinerLastClaim => (17, 'm'),
    }
}

proof fn lemma_shape(endpoint: Endpoint)
    ensures
        (endpoint.path().len() as int, endpoint.path()[1]) == shape(endpoint),
{
    reveal_strlit("/v2/ws");
    reveal_strlit("/v2/ws-pubkey");
    reveal_strlit("/v2/signup");
    reveal_strlit("/v2/confirmation-claim");
    reveal_strlit("/v2/claim-direct");
    reveal_strlit("/v2/claim");
    reveal_strlit("/high-difficulty");
    reveal_strlit("/hashpower");
    reveal_strlit("/active-miners");
    reveal_strlit("/timestamp");
    reveal_strlit("/miner/earnings");
    reveal_strlit("/miner/earnings-submissions-day");
    reveal_strlit("/miner/earnings-submissions-hours");
    reveal_strlit("/miner/rewards");
    reveal_strlit("/miner/last-claim");
}

/// No two endpoints are asked at the same place.
pub proof fn lemma_paths_differ(one: Endpoint, other: Endpoint)
    requires
        one.path() == other.path(),
    ensures
        one == other,
{
    lemma_shape(one);
    lemma_shape(other);
}

/// What changes something is posted, and everything else is asked for; a request is posted exactly
/// if it signs up or is about a claim to be made.
pub proof fn lemma_what_is_posted(endpoint: Endpoint)
    ensures
        endpoint.method() == HttpMethod::Post <==> endpoint is PostSignupV2
            || endpoint is ConfirmationClaim || endpoint is ClaimDirect || endpoint is PostClaimV2,
        endpoint.method() == HttpMethod::Get <==> !(endpoint.method() == HttpMethod::Post),
{
}

/// Where each endpoint is asked.
pub proof fn lemma_where_asked(endpoint: Endpoint)
    ensures
        endpoint is WsHandlerV2 ==> endpoint.path() == "/v2/ws"@,
        endpoint is WsHandlerPubkey ==> endpoint.path() == "/v2/ws-pubkey"@,
        endpoint is PostSignupV2 ==> endpoint.path() == "/v2/signup"@,
        endpoint is ConfirmationClaim ==> endpoint.path() == "/v2/confirmation-claim"@,
        endpoint is ClaimDirect ==> endpoint.path() == "/v2/claim-direct"@,
        endpoint is PostClaimV2 ==> endpoint.path() == "/v2/claim"@,
        endpoint is GetHighDifficulty ==> endpoint.path() == "/high-difficulty"@,
        endpoint is GetHashpower ==> endpoint.path() == "/hashpower"@,
        endpoint is GetConnectedMiners ==> endpoint.path() == "/active-miners"@,
        endpoint is GetTimestamp ==> endpoint.path() == "/timestamp"@,
        endpoint is GetMinerEarnings ==> endpoint.path() == "/miner/earnings"@,
        endpoint is GetEarningsDay ==> endpoint.path() == "/miner/earnings-submissions-day"@,
        endpoint is GetEarningsHours ==> endpoint.path() == "/miner/earnings-submissions-hours"@,
        endpoint is GetMinerRewards ==> endpoint.path() == "/miner/rewards"@,
        endpoint is GetMinerLastClaim ==> endpoint.path() == "/miner/last-claim"@,
{
}

/// A route that leads to its endpoint is asked as the endpoint is, and where the endpoint is.
pub proof fn lemma_routes_lead(route: Route)
    ensures
        leads(route) <==> route.path@ == route.endpoint.path() && route.method
            == route.endpoint.method(),
{
}

} // verus!
