//! The relying-party identity under which passkey ceremonies run.

use crate::errors::Errors;
use vstd::prelude::*;
use vstd::string::StringExecFns;
use webauthn_rs::prelude::Url;
use webauthn_rs::Webauthn;

verus! {

/// The ceremony primitive that the builder gives for a domain, an origin
/// given as text and a name; `None` where `Url::parse` does not read the
/// origin or `WebauthnBuilder::new` does not take the domain as an
/// effective domain of it.
pub uninterp spec fn webauthn_built(
    rp_id: Seq<char>,
    rp_origin: Seq<char>,
    rp_name: Seq<char>,
) -> Option<Webauthn>;

/// The effective domain that credentials bind themselves to.
pub const RP_ID: &'static str = "lochstep.mcarthur.in";

/// The name of the relying party as a client may show it.
pub const RP_NAME: &'static str = "Axum Webauthn-rs";

/// The port that is served when none is configured.
pub const DEFAULT_PORT: &'static str = "8080";

/// `Url::parse` of the origin, then `WebauthnBuilder::new`, `rp_name` and
/// `build`: the ceremony primitive for a relying party. It depends on the
/// three texts alone.
#[verifier::external_body]
fn webauthn_build(rp_id: &str, rp_origin: &str, rp_name: &str) -> (built: Option<Webauthn>)
    ensures
        built == webauthn_built(rp_id@, rp_origin@, rp_name@),
{
    let origin = Url::parse(rp_origin).ok()?;
    webauthn_rs::WebauthnBuilder::new(rp_id, &origin).ok()?.rp_name(rp_name).build().ok()
}

/// The port to serve: the configured one, or the default.
pub fn get_app_port(configured: Option<String>) -> (port: String)
    ensures
        port@ == (match configured {
            Some(p) => p@,
            None => DEFAULT_PORT@,
        }),
{
    match configured {
        Some(port) => port,
        None => String::from_str(DEFAULT_PORT),
    }
}

/// The origin of a relying party: its domain over HTTPS, with the port.
pub open spec fn origin_text(rp_id: Seq<char>, port: Seq<char>) -> Seq<char> {
    "https://"@ + rp_id + ":"@ + port
}

/// The text of a relying party's origin. The port is always part of it.
pub fn relying_party_origin(rp_id: &str, port: &str) -> (origin: String)
    ensures
        origin@ == origin_text(rp_id@, port@),
{
    let mut origin = String::from_str("https://");
    origin.append(rp_id);
    origin.append(":");
    origin.append(port);
    origin
}

/// The primitive that a build gave, or `RelyingPartyError`.
pub fn relying_party<T, E>(outcome: Result<T, E>) -> (r: Result<T, Errors>)
    ensures
        match outcome {
            Ok(built) => r == Ok::<T, Errors>(built),
            Err(_) => r == Err::<T, Errors>(Errors::RelyingPartyError),
        },
{
    match outcome {
        Ok(built) => Ok(built),
        Err(_) => Err(Errors::RelyingPartyError),
    }
}

/// The ceremony primitive of this service, served on `port`: the one
/// built for this service's domain, for that domain over HTTPS with the
/// port as origin, and for this service's name. An origin that is no URL,
/// or a relying party that the builder refuses, is `RelyingPartyError`.
pub open spec fn service_webauthn(port: Seq<char>) -> Result<Webauthn, Errors> {
    match webauthn_built(RP_ID@, origin_text(RP_ID@, port), RP_NAME@) {
        Some(webauthn) => Ok(webauthn),
        None => Err(Errors::RelyingPartyError),
    }
}

/// Builds the ceremony primitive of this service, served on `port`.
pub fn init_webauthn(port: &str) -> (r: Result<Webauthn, Errors>)
    ensures
        r == service_webauthn(port@),
{
    let origin = relying_party_origin(RP_ID, port);
    relying_party(webauthn_build(RP_ID, origin.as_str(), RP_NAME).ok_or(()))
}

} // verus!
