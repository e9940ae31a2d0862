//! Hooks in `Cute.Core.Assembly.dll`.
use vstd::prelude::*;

use crate::game::Region;

verus! {

/// Which hooks of the assembly are installed.
#[derive(Clone, Copy, Debug, PartialEq, Eq, Structural)]
pub struct CuteCoreHooks {
    /// The SafetyNet hooks.
    pub safety_net: bool,
    /// The Device hooks.
    pub device: bool,
}

/// The editions whose assembly implements SafetyNet (all but the Taiwanese
/// and Chinese ones).
pub open spec fn has_safety_net(region: Region) -> bool {
    region != Region::Taiwan && region != Region::China
}

/// The hooks to install, given whether the assembly's image was found and
/// the game's edition: none without the image; otherwise the Device hooks,
/// and the SafetyNet hooks where the edition has SafetyNet.
pub fn init(image_found: bool, region: Region) -> (r: CuteCoreHooks)
    ensures
        r.device == image_found,
        r.safety_net == (image_found && has_safety_net(region)),
        r.safety_net == (image_found && region != Region::Taiwan && region != Region::China),
{
    if !image_found {
        return CuteCoreHooks { safety_net: false, device: false };
    }
    let safety_net = match region {
        Region::Taiwan | Region::China => false,
        _ => true,
    };
    CuteCoreHooks { safety_net, device: true }
}

/// Every edition but the Taiwanese and Chinese ones has SafetyNet: the
/// Japanese, Korean, global and unrecognised editions get its hooks.
pub proof fn law_safety_net_editions()
    ensures
        has_safety_net(Region::Japan),
        has_safety_net(Region::Korea),
        has_safety_net(Region::Global),
        has_safety_net(Region::Unknown),
        !has_safety_net(Region::Taiwan),
        !has_safety_net(Region::China),
        forall|r: Region| r != Region::Taiwan && r != Region::China ==> #[trigger] has_safety_net(r),
{
}

} // verus!
