//! The URLs of the administrative requests.

use vstd::prelude::*;

use crate::common::Homeserver;

verus! {

/// `http://<homeserver>/add-user`.
pub fn add_user_endpoint(homeserver: &Homeserver) -> (r: String)
    ensures
        r@ == "http://"@ + homeserver@ + "/add-user"@,
{
    let mut endpoint = "http://".to_owned();
    endpoint.append(homeserver.0.as_str());
    endpoint.append("/add-user");
    endpoint
}

/// `http://<homeserver>/add-user-homeserver-mapping`.
pub fn add_user_homeserver_mapping_endpoint(homeserver: &Homeserver) -> (r: String)
    ensures
        r@ == "http://"@ + homeserver@ + "/add-user-homeserver-mapping"@,
{
    let mut endpoint = "http://".to_owned();
    endpoint.append(homeserver.0.as_str());
    endpoint.append("/add-user-homeserver-mapping");
    endpoint
}

} // verus!
