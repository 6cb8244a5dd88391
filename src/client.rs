//! One synchronous call per request: encode, guard the capability slot,
//! hand the bytes to the transport, and turn status and reply into a
//! typed result.
use vstd::prelude::*;

use crate::error::{status_result, ProcessManagerError};
use crate::request::{
    CPtr, GetRunningBundlesResponse, InstallResponse, ObjDescBundle, PackageManagementRequest,
    ProcessControlRequest,
};
use crate::wire::{
    enc_list, enc_str, reply_list, reply_str, BundleIdArray, RAW_BUNDLE_ID_DATA_SIZE,
    REQUEST_DATA_SIZE,
};

verus! {

/// The outbound capability slot shared with the call mechanism: what it
/// holds when a call goes out is handed to the receiver.
///
/// Borrowing it mutably for each call keeps calls from one context
/// strictly one after the other.
pub struct CapSlot {
    cap: Option<CPtr>,
}

impl View for CapSlot {
    type V = Option<CPtr>;

    closed spec fn view(&self) -> Option<CPtr> {
        self.cap
    }
}

impl CapSlot {
    /// An empty slot.
    pub fn new() -> (r: CapSlot)
        ensures
            r@ is None,
    {
        CapSlot { cap: None }
    }

    /// What the slot holds now.
    pub fn held(&self) -> (r: Option<CPtr>)
        ensures
            r == self@,
    {
        self.cap
    }

    /// Places `cap` in the slot for the next call.
    pub fn set_request_cap(&mut self, cap: CPtr)
        ensures
            final(self)@ == Some(cap),
    {
        self.cap = Some(cap);
    }

    /// Empties the slot.
    pub fn clear_request_cap(&mut self)
        ensures
            final(self)@ is None,
    {
        self.cap = None;
    }
}

/// The transport answered the request `wire`, sent with `cap` in the
/// slot, with `status` and the reply buffer `reply`.
pub open spec fn answered<F: FnOnce(Vec<u8>, Option<CPtr>) -> (ProcessManagerError, Vec<u8>)>(
    transport: F,
    wire: Seq<u8>,
    cap: Option<CPtr>,
    status: ProcessManagerError,
    reply: Seq<u8>,
) -> bool {
    exists|q: Vec<u8>, rep: Vec<u8>|
        q@ == wire && rep@ == reply && #[trigger] transport.ensures((q, cap), (status, rep))
}

/// The transport may be called with any request and any slot content.
pub open spec fn accepts_any<F: FnOnce(Vec<u8>, Option<CPtr>) -> (ProcessManagerError, Vec<u8>)>(
    transport: F,
) -> bool {
    forall|q: Vec<u8>, c: Option<CPtr>| #[trigger] transport.requires((q, c))
}

/// What a reply that carries a list of bundle ids stands for; a reply
/// longer than the reply buffer is malformed.
pub open spec fn bundle_ids_outcome(status: ProcessManagerError, reply: Seq<u8>) -> Result<
    Seq<Seq<char>>,
    ProcessManagerError,
> {
    if status != ProcessManagerError::Success {
        Err(status)
    } else {
        match reply_list(reply) {
            Some(ids) => Ok(ids),
            None => Err(ProcessManagerError::DeserializeError),
        }
    }
}

/// What a reply that carries one bundle id stands for; a reply longer
/// than the reply buffer is malformed.
pub open spec fn bundle_id_outcome(status: ProcessManagerError, reply: Seq<u8>) -> Result<
    Seq<char>,
    ProcessManagerError,
> {
    if status != ProcessManagerError::Success {
        Err(status)
    } else {
        match reply_str(reply) {
            Some(id) => Ok(id),
            None => Err(ProcessManagerError::DeserializeError),
        }
    }
}

pub open spec fn ids_view(r: Result<BundleIdArray, ProcessManagerError>) -> Result<
    Seq<Seq<char>>,
    ProcessManagerError,
> {
    match r {
        Ok(v) => Ok(v.deep_view()),
        Err(e) => Err(e),
    }
}

pub open spec fn id_view(r: Result<String, ProcessManagerError>) -> Result<
    Seq<char>,
    ProcessManagerError,
> {
    match r {
        Ok(s) => Ok(s@),
        Err(e) => Err(e),
    }
}

/// Turns the status and reply of a `GetRunningBundles` call into its
/// result; the reply is read only on success.
pub fn running_bundles_reply(status: ProcessManagerError, reply: &[u8]) -> (r: Result<
    BundleIdArray,
    ProcessManagerError,
>)
    ensures
        ids_view(r) == bundle_ids_outcome(status, reply@),
        r matches Ok(v) ==> enc_list(v.deep_view()).len() <= RAW_BUNDLE_ID_DATA_SIZE,
{
    if status != ProcessManagerError::Success {
        return Err(status);
    }
    match GetRunningBundlesResponse::decode(reply) {
        Ok(resp) => Ok(resp.bundle_ids),
        Err(e) => Err(e),
    }
}

/// Turns the status and reply of an `Install` call into its result; the
/// reply is read only on success.
pub fn install_reply(status: ProcessManagerError, reply: &[u8]) -> (r: Result<
    String,
    ProcessManagerError,
>)
    ensures
        id_view(r) == bundle_id_outcome(status, reply@),
        r matches Ok(s) ==> enc_str(s@).len() <= RAW_BUNDLE_ID_DATA_SIZE,
{
    if status != ProcessManagerError::Success {
        return Err(status);
    }
    match InstallResponse::decode(reply) {
        Ok(resp) => Ok(resp.bundle_id),
        Err(e) => Err(e),
    }
}

/// Sends `request` with `cap` in the slot (or the slot cleared), and
/// empties the slot again once the transport returns.
fn round_trip<F>(slot: &mut CapSlot, request: Vec<u8>, cap: Option<CPtr>, transport: F) -> (r: (
    ProcessManagerError,
    Vec<u8>,
))
    where
        F: FnOnce(Vec<u8>, Option<CPtr>) -> (ProcessManagerError, Vec<u8>),
    requires
        accepts_any(transport),
    ensures
        final(slot)@ is None,
        transport.ensures((request, cap), r),
{
    match cap {
        Some(c) => slot.set_request_cap(c),
        None => slot.clear_request_cap(),
    }
    let held = slot.held();
    let r = transport(request, held);
    slot.clear_request_cap();
    r
}

/// The result `r` of a call whose reply carries nothing: the status
/// alone decides it.
pub open spec fn unit_call<F: FnOnce(Vec<u8>, Option<CPtr>) -> (ProcessManagerError, Vec<u8>)>(
    transport: F,
    wire: Seq<u8>,
    cap: Option<CPtr>,
    r: Result<(), ProcessManagerError>,
) -> bool {
    if wire.len() > REQUEST_DATA_SIZE {
        r == Err::<(), _>(ProcessManagerError::SerializeError)
    } else {
        exists|status: ProcessManagerError, reply: Seq<u8>|
            #[trigger] answered(transport, wire, cap, status, reply) && r == status_result(status)
    }
}

/// Sends a package-management request, with its capability attached if
/// it carries one and the slot cleared otherwise.
fn pkg_mgmt_call<F>(
    slot: &mut CapSlot,
    request: &PackageManagementRequest,
    transport: F,
) -> (r: Result<(ProcessManagerError, Vec<u8>), ProcessManagerError>)
    where
        F: FnOnce(Vec<u8>, Option<CPtr>) -> (ProcessManagerError, Vec<u8>),
    requires
        accepts_any(transport),
    ensures
        final(slot)@ is None,
        request.wire().len() > REQUEST_DATA_SIZE ==> r == Err::<(ProcessManagerError, Vec<u8>), _>(
            ProcessManagerError::SerializeError,
        ),
        request.wire().len() <= REQUEST_DATA_SIZE ==> (r matches Ok((status, reply)) && answered(
            transport,
            request.wire(),
            request.container_cap(),
            status,
            reply@,
        )),
{
    match request.encode() {
        Ok(bytes) => {
            let cap = request.get_container_cap();
            let (status, reply) = round_trip(slot, bytes, cap, transport);
            assert(answered(transport, request.wire(), cap, status, reply@));
            Ok((status, reply))
        },
        Err(e) => {
            slot.clear_request_cap();
            Err(e)
        },
    }
}

/// Sends a process-control request with the slot cleared.
fn proc_ctrl_call<F>(slot: &mut CapSlot, request: &ProcessControlRequest, transport: F) -> (r: Result<
    (ProcessManagerError, Vec<u8>),
    ProcessManagerError,
>)
    where
        F: FnOnce(Vec<u8>, Option<CPtr>) -> (ProcessManagerError, Vec<u8>),
    requires
        accepts_any(transport),
    ensures
        final(slot)@ is None,
        request.wire().len() > REQUEST_DATA_SIZE ==> r == Err::<(ProcessManagerError, Vec<u8>), _>(
            ProcessManagerError::SerializeError,
        ),
        request.wire().len() <= REQUEST_DATA_SIZE ==> (r matches Ok((status, reply)) && answered(
            transport,
            request.wire(),
            None,
            status,
            reply@,
        )),
{
    slot.clear_request_cap();
    match request.encode() {
        Ok(bytes) => {
            let (status, reply) = round_trip(slot, bytes, None, transport);
            Ok((status, reply))
        },
        Err(e) => Err(e),
    }
}

/// Runs a unit-reply process-control request to its result.
fn proc_ctrl_unit<F>(slot: &mut CapSlot, request: &ProcessControlRequest, transport: F) -> (r: Result<
    (),
    ProcessManagerError,
>)
    where
        F: FnOnce(Vec<u8>, Option<CPtr>) -> (ProcessManagerError, Vec<u8>),
    requires
        accepts_any(transport),
    ensures
        final(slot)@ is None,
        unit_call(transport, request.wire(), None, r),
{
    match proc_ctrl_call(slot, request, transport) {
        Ok((status, reply)) => {
            let r = status.into_result();
            assert(answered(transport, request.wire(), None, status, reply@));
            r
        },
        Err(e) => Err(e),
    }
}

/// Lists the running bundles.
pub fn cantrip_proc_ctrl_get_running_bundles<F>(slot: &mut CapSlot, transport: F) -> (r: Result<
    BundleIdArray,
    ProcessManagerError,
>)
    where
        F: FnOnce(Vec<u8>, Option<CPtr>) -> (ProcessManagerError, Vec<u8>),
    requires
        accepts_any(transport),
    ensures
        final(slot)@ is None,
        exists|status: ProcessManagerError, reply: Seq<u8>|
            #[trigger] answered(transport, ProcessControlRequest::GetRunningBundles.wire(), None, status, reply)
                && ids_view(r) == bundle_ids_outcome(status, reply),
        r matches Ok(v) ==> enc_list(v.deep_view()).len() <= RAW_BUNDLE_ID_DATA_SIZE,
{
    let request = ProcessControlRequest::GetRunningBundles;
    match proc_ctrl_call(slot, &request, transport) {
        Ok((status, reply)) => {
            let r = running_bundles_reply(status, reply.as_slice());
            assert(answered(transport, request.wire(), None, status, reply@));
            r
        },
        Err(e) => Err(e),
    }
}

/// Installs a package, handing its CNode capability over with the
/// request; the result is the id the manager gave the new bundle.
pub fn cantrip_pkg_mgmt_install<F>(
    slot: &mut CapSlot,
    pkg_contents: &ObjDescBundle,
    transport: F,
) -> (r: Result<String, ProcessManagerError>)
    where
        F: FnOnce(Vec<u8>, Option<CPtr>) -> (ProcessManagerError, Vec<u8>),
    requires
        accepts_any(transport),
    ensures
        final(slot)@ is None,
        PackageManagementRequest::Install(pkg_contents).wire().len() > REQUEST_DATA_SIZE ==> r
            == Err::<String, _>(ProcessManagerError::SerializeError),
        PackageManagementRequest::Install(pkg_contents).wire().len() <= REQUEST_DATA_SIZE ==> exists|
            status: ProcessManagerError,
            reply: Seq<u8>,
        |
            #[trigger] answered(
                transport,
                PackageManagementRequest::Install(pkg_contents).wire(),
                Some(pkg_contents.cnode),
                status,
                reply,
            ) && id_view(r) == bundle_id_outcome(status, reply),
        r matches Ok(s) ==> enc_str(s@).len() <= RAW_BUNDLE_ID_DATA_SIZE,
{
    let request = PackageManagementRequest::Install(pkg_contents);
    match pkg_mgmt_call(slot, &request, transport) {
        Ok((status, reply)) => {
            let r = install_reply(status, reply.as_slice());
            assert(answered(transport, request.wire(), Some(pkg_contents.cnode), status, reply@));
            r
        },
        Err(e) => Err(e),
    }
}

/// Installs an application under `app_id`, handing the package's CNode
/// capability over with the request.
pub fn cantrip_pkg_mgmt_install_app<F>(
    slot: &mut CapSlot,
    app_id: &str,
    pkg_contents: &ObjDescBundle,
    transport: F,
) -> (r: Result<(), ProcessManagerError>)
    where
        F: FnOnce(Vec<u8>, Option<CPtr>) -> (ProcessManagerError, Vec<u8>),
    requires
        accepts_any(transport),
    ensures
        final(slot)@ is None,
        unit_call(
            transport,
            (PackageManagementRequest::InstallApp { app_id, pkg_contents }).wire(),
            Some(pkg_contents.cnode),
            r,
        ),
{
    let request = PackageManagementRequest::InstallApp { app_id, pkg_contents };
    match pkg_mgmt_call(slot, &request, transport) {
        Ok((status, reply)) => {
            let r = status.into_result();
            assert(answered(transport, request.wire(), Some(pkg_contents.cnode), status, reply@));
            r
        },
        Err(e) => Err(e),
    }
}

/// Uninstalls a bundle; no capability goes with the request.
pub fn cantrip_pkg_mgmt_uninstall<F>(slot: &mut CapSlot, bundle_id: &str, transport: F) -> (r: Result<
    (),
    ProcessManagerError,
>)
    where
        F: FnOnce(Vec<u8>, Option<CPtr>) -> (ProcessManagerError, Vec<u8>),
    requires
        accepts_any(transport),
    ensures
        final(slot)@ is None,
        unit_call(transport, PackageManagementRequest::Uninstall(bundle_id).wire(), None, r),
{
    let request = PackageManagementRequest::Uninstall(bundle_id);
    match pkg_mgmt_call(slot, &request, transport) {
        Ok((status, reply)) => {
            let r = status.into_result();
            assert(answered(transport, request.wire(), None, status, reply@));
            r
        },
        Err(e) => Err(e),
    }
}

/// Starts a bundle.
pub fn cantrip_proc_ctrl_start<F>(slot: &mut CapSlot, bundle_id: &str, transport: F) -> (r: Result<
    (),
    ProcessManagerError,
>)
    where
        F: FnOnce(Vec<u8>, Option<CPtr>) -> (ProcessManagerError, Vec<u8>),
    requires
        accepts_any(transport),
    ensures
        final(slot)@ is None,
        unit_call(transport, ProcessControlRequest::Start(bundle_id).wire(), None, r),
{
    proc_ctrl_unit(slot, &ProcessControlRequest::Start(bundle_id), transport)
}

/// Stops a running bundle.
pub fn cantrip_proc_ctrl_stop<F>(slot: &mut CapSlot, bundle_id: &str, transport: F) -> (r: Result<
    (),
    ProcessManagerError,
>)
    where
        F: FnOnce(Vec<u8>, Option<CPtr>) -> (ProcessManagerError, Vec<u8>),
    requires
        accepts_any(transport),
    ensures
        final(slot)@ is None,
        unit_call(transport, ProcessControlRequest::Stop(bundle_id).wire(), None, r),
{
    proc_ctrl_unit(slot, &ProcessControlRequest::Stop(bundle_id), transport)
}

/// Asks the manager to scan its own capabilities.
pub fn cantrip_proc_ctrl_capscan<F>(slot: &mut CapSlot, transport: F) -> (r: Result<
    (),
    ProcessManagerError,
>)
    where
        F: FnOnce(Vec<u8>, Option<CPtr>) -> (ProcessManagerError, Vec<u8>),
    requires
        accepts_any(transport),
    ensures
        final(slot)@ is None,
        unit_call(transport, ProcessControlRequest::CapScan.wire(), None, r),
{
    proc_ctrl_unit(slot, &ProcessControlRequest::CapScan, transport)
}

/// Asks the manager to scan the capabilities of one bundle.
pub fn cantrip_proc_ctrl_capscan_bundle<F>(slot: &mut CapSlot, bundle_id: &str, transport: F) -> (r: Result<
    (),
    ProcessManagerError,
>)
    where
        F: FnOnce(Vec<u8>, Option<CPtr>) -> (ProcessManagerError, Vec<u8>),
    requires
        accepts_any(transport),
    ensures
        final(slot)@ is None,
        unit_call(transport, ProcessControlRequest::CapScanBundle(bundle_id).wire(), None, r),
{
    proc_ctrl_unit(slot, &ProcessControlRequest::CapScanBundle(bundle_id), transport)
}

} // verus!
