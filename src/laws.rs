//! Properties of the protocol as a whole, proved over the models that the
//! functions' contracts use.
use vstd::prelude::*;

use crate::client::{answered, unit_call};
use crate::error::{
    security_status, status_code, status_result, ProcessManagerError, SecurityRequestError,
};
use crate::request::{CPtr, PackageManagementRequest};
use crate::wire::{
    enc_list, lemma_list_round_trip, parse_list, RAW_BUNDLE_ID_DATA_SIZE, REQUEST_DATA_SIZE,
};

verus! {

/// A list of bundle ids that fits the reply buffer decodes back to the
/// same list, in the same order, whatever fills the rest of the buffer.
pub proof fn bundle_ids_round_trip(ids: Seq<Seq<char>>, rest: Seq<u8>)
    requires
        enc_list(ids).len() <= RAW_BUNDLE_ID_DATA_SIZE,
    ensures
        parse_list(enc_list(ids) + rest) == Some(ids),
{
    lemma_list_round_trip(ids, rest);
}

/// The empty list encodes to a single zero byte, which fits, and decodes
/// back to the empty list.
pub proof fn empty_bundle_ids_round_trip(rest: Seq<u8>)
    ensures
        enc_list(Seq::empty()) == seq![0u8],
        enc_list(Seq::empty()).len() <= RAW_BUNDLE_ID_DATA_SIZE,
        parse_list(enc_list(Seq::empty()) + rest) == Some(Seq::<Seq<char>>::empty()),
{
    assert(enc_list(Seq::empty()) =~= seq![0u8]);
    lemma_list_round_trip(Seq::empty(), rest);
}

/// The status with wire value zero, `Success`, is the one status that
/// converts to `Ok(())`; every other status converts to an error carrying
/// itself.
pub proof fn status_conversion(e: ProcessManagerError)
    ensures
        status_result(e) is Ok <==> status_code(e) == 0,
        status_result(e) is Ok <==> e == ProcessManagerError::Success,
        e != ProcessManagerError::Success ==> status_result(e) == Err::<(), _>(e),
{
}

/// Every security-service outcome maps to exactly one status: the ones
/// with a counterpart to it, every other one to `UnknownError`. Only
/// `SreSuccess` maps to `Success`.
pub proof fn security_mapping_total(err: SecurityRequestError)
    ensures
        security_status(err) == ProcessManagerError::Success <==> err
            == SecurityRequestError::SreSuccess,
        !(err is SreSuccess || err is SreBundleIdInvalid || err is SreBundleNotFound
            || err is SrePackageBufferLenInvalid || err is SreInstallFailed
            || err is SreUninstallFailed) ==> security_status(err)
            == ProcessManagerError::UnknownError,
{
}

/// Only the two install requests carry a capability; every other package
/// request goes out with the slot cleared.
pub proof fn only_installs_carry_a_capability(request: PackageManagementRequest)
    ensures
        request.container_cap() is Some <==> !(request is Uninstall),
{
}

/// A unit-reply call whose transport answers `Success` ends in `Ok(())`,
/// whatever the reply buffer holds.
pub proof fn success_status_is_ok<F: FnOnce(Vec<u8>, Option<CPtr>) -> (ProcessManagerError, Vec<u8>)>(
    transport: F,
    wire: Seq<u8>,
    cap: Option<CPtr>,
    r: Result<(), ProcessManagerError>,
)
    requires
        wire.len() <= REQUEST_DATA_SIZE,
        unit_call(transport, wire, cap, r),
        forall|q: Vec<u8>, c: Option<CPtr>, s: ProcessManagerError, rep: Vec<u8>|
            #[trigger] transport.ensures((q, c), (s, rep)) ==> s == ProcessManagerError::Success,
    ensures
        r == Ok::<(), ProcessManagerError>(()),
{
    let (status, reply) = choose|status: ProcessManagerError, reply: Seq<u8>|
        #[trigger] answered(transport, wire, cap, status, reply) && r == status_result(status);
    let (q, rep) = choose|q: Vec<u8>, rep: Vec<u8>|
        q@ == wire && rep@ == reply && #[trigger] transport.ensures((q, cap), (status, rep));
}

} // verus!
