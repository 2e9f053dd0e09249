//! `GET /`: what this service is and which routes it offers.

use vstd::prelude::*;
use vstd::string::StringExecFns;

verus! {

/// The routes this service offers.
#[derive(Debug, Clone, PartialEq)]
pub struct Endpoints {
    pub player: String,
    pub health: String,
}

/// The JSON body that describes this service.
#[derive(Debug, Clone, PartialEq)]
pub struct ServiceInfo {
    pub message: String,
    pub version: String,
    pub architecture: String,
    pub endpoints: Endpoints,
}

/// The response to a request for the service's description.
#[derive(Debug, Clone, PartialEq)]
pub struct ServiceResponse {
    pub status: u16,
    pub body: ServiceInfo,
}

/// Describes this service: always 200, always the same body.
pub fn hello() -> (response: ServiceResponse)
    ensures
        response.status == 200,
        response.body.message@ == "Clash Royale Stats API"@,
        response.body.version@ == "1.0.0"@,
        response.body.architecture@ == "Controller → Service → Repository → External API"@,
        response.body.endpoints.player@ == "/api/player/{player_tag}"@,
        response.body.endpoints.health@ == "/health"@,
{
    ServiceResponse {
        status: 200,
        body: ServiceInfo {
            message: String::from_str("Clash Royale Stats API"),
            version: String::from_str("1.0.0"),
            architecture: String::from_str("Controller → Service → Repository → External API"),
            endpoints: Endpoints {
                player: String::from_str("/api/player/{player_tag}"),
                health: String::from_str("/health"),
            },
        },
    }
}

} // verus!
