//! Planning the provisioning of the driver binary: which steps must run,
//! given what is already on disk, and the per-entry decision made while an
//! archive is unpacked.

use vstd::prelude::*;
use vstd::string::StringSliceAdditionalSpecFns;

verus! {

/// The steps provisioning still has to perform, decided from what is on disk.
#[derive(Clone, Copy, Debug, PartialEq, Eq, Structural)]
pub enum ProvisionPlan {
    /// A patched binary is already present: nothing to download, nothing to
    /// patch.
    AlreadyPatched,
    /// The raw binary is present: patch it, without any network interaction.
    PatchExisting,
    /// Nothing is present: resolve the release, fetch and unpack the archive,
    /// then patch.
    DownloadAndPatch,
}

/// The plan fetches the archive over the network.
pub open spec fn plan_downloads(p: ProvisionPlan) -> bool {
    p is DownloadAndPatch
}

/// The plan scans and patches the raw binary and writes the patched sibling
/// file.
pub open spec fn plan_patches(p: ProvisionPlan) -> bool {
    !(p is AlreadyPatched)
}

/// Decide the provisioning steps from what is on disk. A present patched
/// binary ends provisioning at once, so invoking the provisioner again after
/// it has run performs no network request and no patch write.
pub fn provision_plan(patched_exists: bool, raw_exists: bool) -> (p: ProvisionPlan)
    ensures
        patched_exists ==> p == ProvisionPlan::AlreadyPatched,
        !patched_exists && raw_exists ==> p == ProvisionPlan::PatchExisting,
        !patched_exists && !raw_exists ==> p == ProvisionPlan::DownloadAndPatch,
        patched_exists ==> !plan_downloads(p) && !plan_patches(p),
{
    if patched_exists {
        ProvisionPlan::AlreadyPatched
    } else if raw_exists {
        ProvisionPlan::PatchExisting
    } else {
        ProvisionPlan::DownloadAndPatch
    }
}

/// An archive entry names a directory exactly when its name ends with the
/// path-separator byte `/`; such an entry creates a directory, every other
/// entry creates a file.
pub fn entry_is_directory(name: &str) -> (b: bool)
    ensures
        b == (name.spec_bytes().len() > 0
            && name.spec_bytes()[name.spec_bytes().len() - 1] == 47u8),
{
    let bytes = name.as_bytes();
    if bytes.len() == 0 {
        false
    } else {
        bytes[bytes.len() - 1] == 47u8
    }
}

} // verus!
