//! Theme constants: border insets, inter-control spacing, text styles,
//! colors and the built-in icon bitmaps. Read-only, process-wide.

use vstd::prelude::*;
use crate::geometry::Insets;

verus! {

/// A display color in 16-bit RGB565 encoding.
#[derive(Clone, Copy, Debug, PartialEq, Eq, Structural)]
pub struct Color {
    pub rgb565: u16,
}

/// A named text style of the theme; the concrete font metrics live in the
/// renderer and are opaque to this core.
#[derive(Clone, Copy, Debug, PartialEq, Eq, Structural)]
pub enum TextStyle {
    Normal,
    Medium,
}

/// The style of ordinary body text.
pub const TEXT_NORMAL: TextStyle = TextStyle::Normal;

/// The style of emphasized text such as titles.
pub const TEXT_MEDIUM: TextStyle = TextStyle::Medium;

/// Vertical space between the content region and the controls region of a
/// plain dialog.
pub const BUTTON_SPACING: i16 = 6;

/// Horizontal inset applied to the left edge of a plain dialog's content
/// region.
pub const CONTENT_BORDER: i16 = 10;

/// Width of the standard screen border on every edge.
pub const BORDER: i16 = 8;

pub open spec fn spec_borders() -> Insets {
    Insets { top: BORDER, right: BORDER, bottom: BORDER, left: BORDER }
}

/// The standard border insets around a full screen.
pub fn borders() -> (r: Insets)
    ensures
        r == spec_borders(),
{
    Insets::new(BORDER, BORDER, BORDER, BORDER)
}

pub open spec fn spec_off_white() -> Color {
    Color { rgb565: 0xDEDB }
}

/// The slightly dimmed white used for secondary text.
pub fn off_white() -> (c: Color)
    ensures
        c == spec_off_white(),
{
    Color { rgb565: 0xDEDB }
}

pub open spec fn spec_image_success() -> Seq<u8> {
    seq![0x54u8, 0x4Fu8, 0x49u8, 0x66u8]
}

/// The bitmap resource of the built-in success icon.
pub fn image_success() -> (r: Vec<u8>)
    ensures
        r@ == spec_image_success(),
{
    let v: Vec<u8> = vec![0x54u8, 0x4Fu8, 0x49u8, 0x66u8];
    proof {
        assert(v@ =~= spec_image_success());
    }
    v
}

} // verus!
