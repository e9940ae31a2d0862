//! Hooks in `UnityEngine.ImageConversionModule.dll`.
use vstd::prelude::*;

use crate::game::Region;

pub mod ImageConversion;

verus! {

/// The next step of setting up the module's hooks.
#[derive(Clone, Copy, Debug, PartialEq, Eq, Structural)]
pub enum ImageConversionInit {
    /// Look the module's image up and report it (zero when not found).
    LookUpImage,
    /// Set up `ImageConversion` from this image.
    HookImageConversion(usize),
    /// Nothing (more) to do.
    Skip,
}

/// Setting up the module: nothing in the Chinese edition, which lacks the
/// module (its image is not even looked up); elsewhere `ImageConversion`
/// is set up from the image, when the image is found.
pub open spec fn image_conversion_init(region: Region, image: Option<usize>) -> ImageConversionInit {
    if region == Region::China {
        ImageConversionInit::Skip
    } else {
        match image {
            None => ImageConversionInit::LookUpImage,
            Some(i) => if i == 0 {
                ImageConversionInit::Skip
            } else {
                ImageConversionInit::HookImageConversion(i)
            },
        }
    }
}

/// The next step of setting up the module, given the edition and the image
/// found so far (`None` before it is looked up, zero when not found).
pub fn init(region: Region, image: Option<usize>) -> (r: ImageConversionInit)
    ensures
        r == image_conversion_init(region, image),
{
    if region == Region::China {
        return ImageConversionInit::Skip;
    }
    match image {
        None => ImageConversionInit::LookUpImage,
        Some(i) => if i == 0 {
            ImageConversionInit::Skip
        } else {
            ImageConversionInit::HookImageConversion(i)
        },
    }
}

} // verus!
