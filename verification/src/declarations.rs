//! Checks on the declaration of a conformance test: the specification
//! statement ids it names and the requirement specs it lists.
use crate::capabilities::spec_from_spec;
use crate::text::{spec_starts_with, str_eq, str_starts_with, str_strip_prefix};
use vstd::prelude::*;

verus! {

/// The complaint about a statement id that does not start with `MQTT-`.
pub open spec fn bad_id_message() -> Seq<char> {
    "conformance id must start with `MQTT-` (e.g. `MQTT-3.12.4-1`)"@
}

/// The complaint about a `max_qos>=` spec with a level other than 0, 1, 2.
pub open spec fn bad_qos_message() -> Seq<char> {
    "max_qos>= must be 0, 1, or 2"@
}

/// The complaint about a requirement spec of no known form.
pub open spec fn unknown_spec_message() -> Seq<char> {
    "unknown requirement spec (see Requirement::from_spec for accepted forms)"@
}

/// Checks that a statement id has the form `MQTT-...`.
pub fn validate_id_format(id: &str) -> (r: Result<(), &'static str>)
    ensures
        r is Ok <==> spec_starts_with(id@, "MQTT-"@),
        r matches Err(m) ==> m@ == bad_id_message(),
{
    if str_starts_with(id, "MQTT-") {
        Ok(())
    } else {
        Err("conformance id must start with `MQTT-` (e.g. `MQTT-3.12.4-1`)")
    }
}

/// Checks that a requirement spec has one of the accepted forms: exactly
/// the specs that name a requirement are accepted.
pub fn validate_require_spec(spec: &str) -> (r: Result<(), &'static str>)
    ensures
        r is Ok <==> spec_from_spec(spec@) is Some,
        r matches Err(m) ==> if spec_starts_with(spec@, "max_qos>="@) {
            m@ == bad_qos_message()
        } else {
            m@ == unknown_spec_message()
        },
{
    if let Some(rest) = str_strip_prefix(spec, "max_qos>=") {
        if str_eq(rest, "0") || str_eq(rest, "1") || str_eq(rest, "2") {
            return Ok(());
        }
        return Err("max_qos>= must be 0, 1, or 2");
    }
    if str_starts_with(spec, "enhanced_auth.") {
        return Ok(());
    }
    if str_eq(spec, "transport.tcp") || str_eq(spec, "transport.tls") || str_eq(
        spec,
        "transport.websocket",
    ) || str_eq(spec, "transport.quic") || str_eq(spec, "retain_available") || str_eq(
        spec,
        "wildcard_subscription_available",
    ) || str_eq(spec, "subscription_identifier_available") || str_eq(
        spec,
        "shared_subscription_available",
    ) || str_eq(spec, "hooks.restart") || str_eq(spec, "hooks.cleanup") || str_eq(spec, "acl")
        || str_eq(spec, "strict_client_id_charset") || str_eq(spec, "dollar_sys_publish") {
        Ok(())
    } else {
        Err("unknown requirement spec (see Requirement::from_spec for accepted forms)")
    }
}

} // verus!
