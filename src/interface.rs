//! The facades that policy code is written against, so that a kernel-backed
//! implementation and a test double can stand in for each other.
use vstd::prelude::*;

use crate::error::ProcessManagerError;
use crate::request::{Bundle, ObjDescBundle};
use crate::wire::BundleIdArray;

verus! {

/// One running instance of a bundle.
pub trait BundleImplInterface {
    fn start(&mut self) -> Result<(), ProcessManagerError>;

    fn stop(&mut self) -> Result<(), ProcessManagerError>;

    fn suspend(&self) -> Result<(), ProcessManagerError>;

    fn resume(&self) -> Result<(), ProcessManagerError>;

    fn capscan(&self) -> Result<(), ProcessManagerError>;
}

/// The facilities the process manager builds on: package storage and the
/// loader.
pub trait ProcessManagerInterface {
    type BundleImpl: BundleImplInterface;

    fn install(&mut self, pkg_contents: &ObjDescBundle) -> Result<String, ProcessManagerError>;

    fn install_app(&mut self, app_id: &str, pkg_contents: &ObjDescBundle) -> Result<
        (),
        ProcessManagerError,
    >;

    fn uninstall(&mut self, bundle_id: &str) -> Result<(), ProcessManagerError>;

    fn start(&mut self, bundle: &Bundle) -> Result<Self::BundleImpl, ProcessManagerError>;

    fn stop(&mut self, bundle_impl: &mut Self::BundleImpl) -> Result<(), ProcessManagerError>;

    fn capscan(&self, bundle_impl: &Self::BundleImpl) -> Result<(), ProcessManagerError>;
}

/// The package-management plane.
pub trait PackageManagementInterface {
    fn install(&mut self, pkg_contents: &ObjDescBundle) -> Result<String, ProcessManagerError>;

    fn install_app(&mut self, app_id: &str, pkg_contents: &ObjDescBundle) -> Result<
        (),
        ProcessManagerError,
    >;

    fn uninstall(&mut self, bundle_id: &str) -> Result<(), ProcessManagerError>;
}

/// The process-control plane.
pub trait ProcessControlInterface {
    fn start(&mut self, bundle_id: &str) -> Result<(), ProcessManagerError>;

    fn stop(&mut self, bundle_id: &str) -> Result<(), ProcessManagerError>;

    fn get_running_bundles(&self) -> Result<BundleIdArray, ProcessManagerError>;

    fn capscan(&self, bundle_id: &str) -> Result<(), ProcessManagerError>;
}

} // verus!
