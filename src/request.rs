//! Bundles, the request envelopes of the two command planes, and the
//! replies that carry a payload.
use vstd::prelude::*;

use crate::error::ProcessManagerError;
use crate::wire::{
    decode_bundle_ids, decode_str, enc_list, enc_str, lemma_parse_str_fits, push_slice, push_str,
    push_varint, reply_list, reply_str, BundleIdArray, RAW_BUNDLE_ID_DATA_SIZE,
    REQUEST_DATA_SIZE,
};

verus! {

/// A kernel capability pointer: a slot address in the caller's CSpace.
pub type CPtr = usize;

/// An installed bundle.
#[derive(Clone, Debug)]
pub struct Bundle {
    /// Bundle id taken from the package manifest.
    pub app_id: String,
    /// Size in bytes of the loaded application; the process manager
    /// keeps it up to date.
    pub app_memory_size: u32,
}

impl Bundle {
    /// A bundle with the given id and no memory accounted to it yet.
    pub fn new(bundle_id: &str) -> (r: Bundle)
        ensures
            r.app_id@ == bundle_id@,
            r.app_memory_size == 0,
    {
        Bundle { app_id: bundle_id.to_owned(), app_memory_size: 0u32 }
    }
}

/// The memory objects that hold a package: the CNode capability that
/// holds them, and their description in wire form as the memory service
/// hands it over.
#[derive(Clone, Debug)]
pub struct ObjDescBundle {
    pub cnode: CPtr,
    pub descriptor: Vec<u8>,
}

/// Requests of the package-management plane.
#[derive(Debug)]
pub enum PackageManagementRequest<'a> {
    /// Install a package; the reply names the new bundle.
    Install(&'a ObjDescBundle),
    /// Install an application under a given id.
    InstallApp { app_id: &'a str, pkg_contents: &'a ObjDescBundle },
    /// Remove an installed bundle.
    Uninstall(&'a str),
}

impl<'a> PackageManagementRequest<'a> {
    /// The capability this request hands over: the package's CNode for
    /// the two install requests, none otherwise.
    pub open spec fn container_cap(&self) -> Option<CPtr> {
        match self {
            PackageManagementRequest::Install(pkg) => Some(pkg.cnode),
            PackageManagementRequest::InstallApp { pkg_contents, .. } => Some(pkg_contents.cnode),
            PackageManagementRequest::Uninstall(_) => None,
        }
    }

    /// The request on the wire: its variant index, then its fields.
    pub open spec fn wire(&self) -> Seq<u8> {
        match self {
            PackageManagementRequest::Install(pkg) => seq![0u8] + pkg.descriptor@,
            PackageManagementRequest::InstallApp { app_id, pkg_contents } => seq![1u8] + enc_str(
                app_id@,
            ) + pkg_contents.descriptor@,
            PackageManagementRequest::Uninstall(id) => seq![2u8] + enc_str(id@),
        }
    }

    pub fn get_container_cap(&self) -> (r: Option<CPtr>)
        ensures
            r == self.container_cap(),
    {
        match self {
            PackageManagementRequest::Install(pkg) => Some(pkg.cnode),
            PackageManagementRequest::InstallApp { app_id: _, pkg_contents } => Some(
                pkg_contents.cnode,
            ),
            PackageManagementRequest::Uninstall(_) => None,
        }
    }

    /// Encodes the request for the request buffer; `SerializeError` when
    /// it does not fit in `REQUEST_DATA_SIZE` bytes.
    pub fn encode(&self) -> (r: Result<Vec<u8>, ProcessManagerError>)
        ensures
            self.wire().len() <= REQUEST_DATA_SIZE ==> (r matches Ok(b) && b@ == self.wire()),
            self.wire().len() > REQUEST_DATA_SIZE ==> r == Err::<Vec<u8>, _>(
                ProcessManagerError::SerializeError,
            ),
    {
        let mut out: Vec<u8> = Vec::new();
        let ok = match self {
            PackageManagementRequest::Install(pkg) => {
                push_varint(&mut out, 0, REQUEST_DATA_SIZE) && push_slice(
                    &mut out,
                    pkg.descriptor.as_slice(),
                    REQUEST_DATA_SIZE,
                )
            },
            PackageManagementRequest::InstallApp { app_id, pkg_contents } => {
                push_varint(&mut out, 1, REQUEST_DATA_SIZE) && push_str(
                    &mut out,
                    app_id,
                    REQUEST_DATA_SIZE,
                ) && push_slice(&mut out, pkg_contents.descriptor.as_slice(), REQUEST_DATA_SIZE)
            },
            PackageManagementRequest::Uninstall(id) => {
                push_varint(&mut out, 2, REQUEST_DATA_SIZE) && push_str(
                    &mut out,
                    id,
                    REQUEST_DATA_SIZE,
                )
            },
        };
        if ok {
            assert(out@ =~= self.wire());
            Ok(out)
        } else {
            Err(ProcessManagerError::SerializeError)
        }
    }
}

/// Reply to `Install`: the id the manager gave the new bundle.
#[derive(Debug)]
pub struct InstallResponse {
    pub bundle_id: String,
}

impl InstallResponse {
    /// Reads the reply from the front of the reply buffer; a buffer longer
    /// than `RAW_BUNDLE_ID_DATA_SIZE` is no reply.
    pub fn decode(b: &[u8]) -> (r: Result<InstallResponse, ProcessManagerError>)
        ensures
            reply_str(b@) matches Some(id) ==> (r matches Ok(v) && v.bundle_id@ == id),
            reply_str(b@) is None ==> r == Err::<InstallResponse, _>(
                ProcessManagerError::DeserializeError,
            ),
            r matches Ok(v) ==> enc_str(v.bundle_id@).len() <= RAW_BUNDLE_ID_DATA_SIZE,
    {
        if b.len() > RAW_BUNDLE_ID_DATA_SIZE {
            return Err(ProcessManagerError::DeserializeError);
        }
        assert(b@.skip(0) =~= b@);
        match decode_str(b, 0) {
            Some((bundle_id, _)) => {
                proof {
                    lemma_parse_str_fits(b@);
                }
                Ok(InstallResponse { bundle_id })
            },
            None => Err(ProcessManagerError::DeserializeError),
        }
    }
}

/// Requests of the process-control plane; none of them carries a
/// capability.
#[derive(Debug)]
pub enum ProcessControlRequest<'a> {
    Start(&'a str),
    Stop(&'a str),
    /// Lists the running bundles.
    GetRunningBundles,
    CapScan,
    CapScanBundle(&'a str),
}

impl<'a> ProcessControlRequest<'a> {
    /// The request on the wire: its variant index, then its fields.
    pub open spec fn wire(&self) -> Seq<u8> {
        match self {
            ProcessControlRequest::Start(id) => seq![0u8] + enc_str(id@),
            ProcessControlRequest::Stop(id) => seq![1u8] + enc_str(id@),
            ProcessControlRequest::GetRunningBundles => seq![2u8],
            ProcessControlRequest::CapScan => seq![3u8],
            ProcessControlRequest::CapScanBundle(id) => seq![4u8] + enc_str(id@),
        }
    }

    /// Encodes the request for the request buffer; `SerializeError` when
    /// it does not fit in `REQUEST_DATA_SIZE` bytes.
    pub fn encode(&self) -> (r: Result<Vec<u8>, ProcessManagerError>)
        ensures
            self.wire().len() <= REQUEST_DATA_SIZE ==> (r matches Ok(b) && b@ == self.wire()),
            self.wire().len() > REQUEST_DATA_SIZE ==> r == Err::<Vec<u8>, _>(
                ProcessManagerError::SerializeError,
            ),
    {
        let mut out: Vec<u8> = Vec::new();
        let ok = match self {
            ProcessControlRequest::Start(id) => push_varint(&mut out, 0, REQUEST_DATA_SIZE)
                && push_str(&mut out, id, REQUEST_DATA_SIZE),
            ProcessControlRequest::Stop(id) => push_varint(&mut out, 1, REQUEST_DATA_SIZE)
                && push_str(&mut out, id, REQUEST_DATA_SIZE),
            ProcessControlRequest::GetRunningBundles => push_varint(
                &mut out,
                2,
                REQUEST_DATA_SIZE,
            ),
            ProcessControlRequest::CapScan => push_varint(&mut out, 3, REQUEST_DATA_SIZE),
            ProcessControlRequest::CapScanBundle(id) => push_varint(&mut out, 4, REQUEST_DATA_SIZE)
                && push_str(&mut out, id, REQUEST_DATA_SIZE),
        };
        if ok {
            assert(out@ =~= self.wire());
            Ok(out)
        } else {
            Err(ProcessManagerError::SerializeError)
        }
    }
}

/// Reply to `GetRunningBundles`: the ids of the running bundles.
#[derive(Debug)]
pub struct GetRunningBundlesResponse {
    pub bundle_ids: BundleIdArray,
}

impl GetRunningBundlesResponse {
    /// Reads the reply from the front of the reply buffer; a buffer longer
    /// than `RAW_BUNDLE_ID_DATA_SIZE` is no reply.
    pub fn decode(b: &[u8]) -> (r: Result<GetRunningBundlesResponse, ProcessManagerError>)
        ensures
            reply_list(b@) matches Some(ids) ==> (r matches Ok(v) && v.bundle_ids.deep_view()
                == ids),
            reply_list(b@) is None ==> r == Err::<GetRunningBundlesResponse, _>(
                ProcessManagerError::DeserializeError,
            ),
            r matches Ok(v) ==> enc_list(v.bundle_ids.deep_view()).len()
                <= RAW_BUNDLE_ID_DATA_SIZE,
    {
        match decode_bundle_ids(b) {
            Ok(bundle_ids) => Ok(GetRunningBundlesResponse { bundle_ids }),
            Err(e) => Err(e),
        }
    }
}

} // verus!
