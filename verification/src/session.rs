//! The fixed identity and connection policy of the ingest client's
//! server session.  Opening the session is a network matter and stays
//! with the session owner; the values it must use are pinned here.

use vstd::prelude::*;

verus! {

/// How often a failed egress handshake is retried, in seconds.
pub const CONNECT_RETRY_DELAY_SECS: u64 = 5;

/// Identity and connection policy of the ingest client: fixed
/// application identity, a self-signed keypair created on first run,
/// server certificates not trusted automatically, and a bounded
/// server-side connect retry.
pub struct ClientSettings {
    pub application_name: String,
    pub application_uri: String,
    pub product_uri: String,
    pub session_retry_limit: u8,
    pub trust_server_certs: bool,
    pub create_sample_keypair: bool,
}

/// The fixed client settings used by every producer's session.
pub fn client_settings() -> (s: ClientSettings)
    ensures
        s.application_name@ == "Client1"@,
        s.application_uri@ == "urn:client1"@,
        s.product_uri@ == "urn:client11"@,
        s.session_retry_limit == 3,
        !s.trust_server_certs,
        s.create_sample_keypair,
{
    ClientSettings {
        application_name: "Client1".to_owned(),
        application_uri: "urn:client1".to_owned(),
        product_uri: "urn:client11".to_owned(),
        session_retry_limit: 3,
        trust_server_certs: false,
        create_sample_keypair: true,
    }
}

} // verus!
