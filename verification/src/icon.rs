//! The pixels of the tray icon.

use vstd::prelude::*;

verus! {

/// Pixels of four bytes with the last byte of each brought to the front:
/// red, green, blue, alpha become alpha, red, green, blue. Bytes behind the
/// last whole pixel stay as they are.
pub open spec fn alpha_first(pixels: Seq<u8>) -> Seq<u8> {
    Seq::new(
        pixels.len(),
        |k: int|
            if k >= pixels.len() / 4 * 4 {
                pixels[k]
            } else if k % 4 == 0 {
                pixels[k + 3]
            } else {
                pixels[k - 1]
            },
    )
}

/// Turns pixels of red, green, blue, alpha into pixels of alpha, red, green,
/// blue, in place.
pub fn rgba_to_argb(pixels: &mut Vec<u8>)
    ensures
        final(pixels)@ == alpha_first(old(pixels)@),
{
    let ghost before = pixels@;
    let len = pixels.len();
    let whole = len / 4;
    let mut pixel: usize = 0;
    while pixel < whole
        invariant
            pixel <= whole,
            whole == before.len() / 4,
            before.len() <= usize::MAX,
            pixels@.len() == before.len(),
            forall|k: int| 0 <= k < pixel * 4 ==> pixels@[k] == alpha_first(before)[k],
            forall|k: int| pixel * 4 <= k < before.len() ==> pixels@[k] == before[k],
        decreases whole - pixel,
    {
        let at = pixel * 4;
        let red = pixels[at];
        let green = pixels[at + 1];
        let blue = pixels[at + 2];
        let alpha = pixels[at + 3];
        pixels[at] = alpha;
        pixels[at + 1] = red;
        pixels[at + 2] = green;
        pixels[at + 3] = blue;
        pixel += 1;
    }
    assert(pixels@ =~= alpha_first(before));
}

} // verus!
