//! The game window: its title and its icon.

use vstd::prelude::*;
use winit::window::BadIcon;
use winit::window::Icon;

verus! {

/// An icon of the window: the image's RGBA pixels with its size.
#[verifier::external_type_specification]
#[verifier::external_body]
pub struct ExIcon(Icon);

/// Why RGBA data could not be made into a window icon.
#[derive(Debug, Clone, Copy, PartialEq, Eq, Structural)]
pub enum IconError {
    /// The length of the RGBA data isn't divisible by 4, so it can't be read as 32bpp
    /// RGBA pixels.
    ByteCountNotDivisibleBy4 { byte_count: usize },
    /// The number of pixels (`rgba.len() / 4`) isn't equal to `width * height`.
    DimensionsVsPixelCount { width: u32, height: u32, width_x_height: usize, pixel_count: usize },
    /// The operating system failed to create the icon from valid data.
    OsError,
}

/// The name of the project, which starts the window's title.
pub open spec fn project_name() -> Seq<char> {
    "Project Z"@
}

/// The window title: `Project Z v{version} - {commit} with {rustc}`.
pub open spec fn spec_window_title(version: Seq<char>, commit: Seq<char>, rustc: Seq<char>) -> Seq<char> {
    project_name() + " v"@ + version + " - "@ + commit + " with "@ + rustc
}

/// Crafts the window title from the crate's version, the short git commit it was built
/// from and the compiler's version.
pub fn craft_window_title(version: &str, commit: &str, rustc: &str) -> (title: String)
    ensures
        title@ == spec_window_title(version@, commit@, rustc@),
{
    let mut title = String::from_str("Project Z");
    title.append(" v");
    title.append(version);
    title.append(" - ");
    title.append(commit);
    title.append(" with ");
    title.append(rustc);
    title
}

/// RGBA data of `byte_count` bytes describes a `width` x `height` image: whole pixels of
/// four bytes, as many as the image has.
pub open spec fn icon_data_fits(byte_count: int, width: u32, height: u32) -> bool {
    byte_count % 4 == 0 && byte_count / 4 == width * height
}

/// What `Icon::from_rgba` answers for `byte_count` bytes of RGBA data and the given size.
pub open spec fn icon_outcome(byte_count: int, width: u32, height: u32, icon: Result<Icon, IconError>) -> bool {
    match icon {
        Ok(_) => icon_data_fits(byte_count, width, height),
        Err(IconError::ByteCountNotDivisibleBy4 { byte_count: reported }) =>
            reported == byte_count && byte_count % 4 != 0,
        Err(IconError::DimensionsVsPixelCount { width: w, height: h, width_x_height, pixel_count }) => {
            &&& byte_count % 4 == 0
            &&& w == width
            &&& h == height
            &&& width_x_height == width * height
            &&& pixel_count == byte_count / 4
            &&& pixel_count != width_x_height
        },
        Err(IconError::OsError) => icon_data_fits(byte_count, width, height),
    }
}

/// Calls winit's `Icon::from_rgba`, which checks that the data is made of whole 4-byte
/// pixels (else `ByteCountNotDivisibleBy4` with the data's length) and that there are
/// `width * height` of them (else `DimensionsVsPixelCount` with both counts). On data that
/// passes both checks it returns the icon, except that on Windows the operating system may
/// still refuse it (`OsError`; the OS error itself is not carried over). The product
/// `width * height` is computed in `u32`, so it must not overflow.
#[verifier::external_body]
fn icon_from_rgba(rgba: Vec<u8>, width: u32, height: u32) -> (icon: Result<Icon, IconError>)
    requires
        width * height <= u32::MAX,
    ensures
        icon_outcome(rgba@.len() as int, width, height, icon),
{
    match Icon::from_rgba(rgba, width, height) {
        Ok(icon) => Ok(icon),
        Err(BadIcon::ByteCountNotDivisibleBy4 { byte_count }) => Err(IconError::ByteCountNotDivisibleBy4 { byte_count }),
        Err(BadIcon::DimensionsVsPixelCount { width, height, width_x_height, pixel_count }) =>
            Err(IconError::DimensionsVsPixelCount { width, height, width_x_height, pixel_count }),
        Err(BadIcon::OsError(_)) => Err(IconError::OsError),
    }
}

/// Makes the window icon from the RGBA pixels of a `width` x `height` image. Data that is
/// not whole pixels, or not as many pixels as the image has, is refused with the matching
/// error; data that fits gives the icon (or, on Windows, possibly an OS error).
pub fn window_icon(rgba: Vec<u8>, width: u32, height: u32) -> (icon: Result<Icon, IconError>)
    requires
        width * height <= u32::MAX,
    ensures
        icon_outcome(rgba@.len() as int, width, height, icon),
        !icon_data_fits(rgba@.len() as int, width, height) ==> icon.is_err(),
{
    icon_from_rgba(rgba, width, height)
}

} // verus!
