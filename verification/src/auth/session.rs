use vstd::prelude::*;

use wow_login_messages::version_3::Realm;
use wow_srp::normalized_string::NormalizedString;

verus! {

#[verifier::external_type_specification]
#[verifier::external_body]
pub struct ExRealm(Realm);

/// What a successful login leaves behind: the session key, the chosen realm and the
/// realms that the login server lists.
pub struct AuthSession {
    pub session_key: [u8; 40],
    pub realm_id: Option<u8>,
    pub realms: Vec<Realm>,
    pub username: NormalizedString,
}

} // verus!
