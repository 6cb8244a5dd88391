//! Client side of the process manager's request protocol: typed request
//! envelopes, a bounded wire codec, the capability-slot guard and the
//! status/result unification around one synchronous call.
pub mod client;
pub mod error;
pub mod interface;
pub mod laws;
pub mod request;
pub mod wire;

pub use client::{
    cantrip_pkg_mgmt_install, cantrip_pkg_mgmt_install_app, cantrip_pkg_mgmt_uninstall,
    cantrip_proc_ctrl_capscan, cantrip_proc_ctrl_capscan_bundle,
    cantrip_proc_ctrl_get_running_bundles, cantrip_proc_ctrl_start, cantrip_proc_ctrl_stop,
    install_reply, running_bundles_reply, CapSlot,
};
pub use error::{ProcessManagerError, SecurityRequestError};
pub use interface::{
    BundleImplInterface, PackageManagementInterface, ProcessControlInterface,
    ProcessManagerInterface,
};
pub use request::{
    Bundle, CPtr, GetRunningBundlesResponse, InstallResponse, ObjDescBundle,
    PackageManagementRequest, ProcessControlRequest,
};
pub use wire::{
    decode_bundle_ids, encode_bundle_ids, BundleIdArray, RawBundleIdData,
    DEFAULT_BUNDLE_ID_CAPACITY, RAW_BUNDLE_ID_DATA_SIZE, REQUEST_DATA_SIZE,
};
