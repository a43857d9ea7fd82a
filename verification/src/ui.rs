//! User interface rules.
use vstd::prelude::*;

verus! {

/// Premultiplied RGBA tint of an image button: darker while pressed, slightly darker
/// while hovered, untouched otherwise.
pub fn button_tint(pressed: bool, hovered: bool) -> (tint: [u8; 4])
    ensures
        tint@ == if pressed {
            seq![220u8, 220u8, 220u8, 255u8]
        } else if hovered {
            seq![230u8, 230u8, 230u8, 255u8]
        } else {
            seq![255u8, 255u8, 255u8, 255u8]
        },
{
    let tint = if pressed {
        [220u8, 220u8, 220u8, 255u8]
    } else if hovered {
        [230u8, 230u8, 230u8, 255u8]
    } else {
        [255u8, 255u8, 255u8, 255u8]
    };
    assert(tint@ =~= if pressed {
        seq![220u8, 220u8, 220u8, 255u8]
    } else if hovered {
        seq![230u8, 230u8, 230u8, 255u8]
    } else {
        seq![255u8, 255u8, 255u8, 255u8]
    });
    tint
}

} // verus!
