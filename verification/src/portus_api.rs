//! The narrow boundary to the external control-plane runtime: the opaque
//! types a flow controller holds or consumes, and the one lookup call the
//! decoder makes against them.

use vstd::prelude::*;

verus! {

/// The field-addressing handle that installing a report program returns:
/// the only way to look named fields up in the reports that program emits.
#[verifier::external_type_specification]
#[verifier::external_body]
pub struct ExScope(portus::lang::Scope);

/// One report snapshot delivered by the runtime, consumed by the decoder.
#[verifier::external_type_specification]
#[verifier::external_body]
pub struct ExReport(portus::Report);

/// The runtime's error type, carried through and mapped to this library's
/// own errors by the callers.
#[verifier::external_type_specification]
#[verifier::external_body]
pub struct ExPortusError(portus::Error);

/// What a report holds, as a handle addresses it: the map from field name
/// to the report's value for that field. A name is in the map exactly when
/// the handle belongs to the report's program, addresses that name as a
/// report field, and the report carries a value at that field's index — the
/// cases in which `portus::Report::get_field` succeeds.
pub uninterp spec fn report_contents(m: portus::Report, sc: portus::lang::Scope) -> Map<
    Seq<char>,
    u64,
>;

/// Relies on portus::Report::get_field: looks the named field up against
/// the handle's register map and returns that register's value from the
/// report; it errs when the handle belongs to another program, when the
/// name is absent, or when the name is not a report field. The result is a
/// function of the report, the name and the handle alone.
#[verifier::external_body]
pub(crate) fn report_get_field(m: &portus::Report, field: &str, sc: &portus::lang::Scope) -> (r:
    Result<u64, portus::Error>)
    ensures
        r is Ok <==> report_contents(*m, *sc).contains_key(field@),
        r matches Ok(v) ==> v == report_contents(*m, *sc)[field@],
{
    m.get_field(field, sc)
}

} // verus!
