//! The window icon: which image of the program's icon file is shown (the
//! largest). Decoding that image is left to the program: `ico` decodes BMP
//! images with unchecked colour-table lookups, which panic on some malformed
//! files, and no contract here could leave those files out.
use vstd::prelude::*;

verus! {

/// The width and height of each image of an icon file, in the file's order,
/// as `ico` reads them (`None` where the file does not parse).
pub uninterp spec fn ico_entry_sizes(bytes: Seq<u8>) -> Option<Seq<(u32, u32)>>;

/// Trusted: `ico::IconDir::read` on the bytes, then `width` and `height` of
/// each of its `entries`. Claimed: the result is `ico_entry_sizes` of the
/// bytes (a parse of the bytes alone); nothing more is said of it.
#[verifier::external_body]
fn read_entry_sizes(bytes: &[u8]) -> (r: Option<Vec<(u32, u32)>>)
    ensures
        match r {
            Some(v) => ico_entry_sizes(bytes@) == Some(v@),
            None => ico_entry_sizes(bytes@) is None,
        },
{
    match ico::IconDir::read(std::io::Cursor::new(bytes)) {
        Ok(dir) => Some(dir.entries().iter().map(|e| (e.width(), e.height())).collect()),
        Err(_) => None,
    }
}

/// The longer side of an image of the given width and height.
pub open spec fn longer_side(size: (u32, u32)) -> u32 {
    if size.0 >= size.1 {
        size.0
    } else {
        size.1
    }
}

/// Whether `i` is the last of the images with the longest side.
pub open spec fn is_last_largest(sizes: Seq<(u32, u32)>, i: int) -> bool {
    &&& 0 <= i < sizes.len()
    &&& forall|j: int| 0 <= j < sizes.len() ==> longer_side(#[trigger] sizes[j]) <= longer_side(sizes[i])
    &&& forall|j: int| i < j < sizes.len() ==> longer_side(#[trigger] sizes[j]) < longer_side(sizes[i])
}

/// The index of the last image with the longest side (none for no image).
pub fn largest_entry(sizes: &Vec<(u32, u32)>) -> (r: Option<usize>)
    ensures
        r is None <==> sizes@.len() == 0,
        r matches Some(i) ==> is_last_largest(sizes@, i as int),
{
    if sizes.len() == 0 {
        return None;
    }
    let mut best: usize = 0;
    let mut i: usize = 1;
    while i < sizes.len()
        invariant
            0 <= best < i <= sizes@.len(),
            forall|j: int| 0 <= j < i ==> longer_side(#[trigger] sizes@[j]) <= longer_side(sizes@[best as int]),
            forall|j: int| best < j < i ==> longer_side(#[trigger] sizes@[j]) < longer_side(sizes@[best as int]),
        decreases sizes.len() - i,
    {
        let (w, h) = sizes[i];
        let (bw, bh) = sizes[best];
        let side = if w >= h { w } else { h };
        let best_side = if bw >= bh { bw } else { bh };
        if side >= best_side {
            best = i;
        }
        i = i + 1;
    }
    Some(best)
}

/// The image of an icon file that serves as the window icon: the last of
/// its images with the longest side, where the file parses and has an image.
pub fn window_icon_entry(bytes: &[u8]) -> (r: Option<usize>)
    ensures
        match ico_entry_sizes(bytes@) {
            None => r is None,
            Some(sizes) => if sizes.len() == 0 {
                r is None
            } else {
                r matches Some(i) && is_last_largest(sizes, i as int)
            },
        },
{
    let sizes = match read_entry_sizes(bytes) {
        Some(v) => v,
        None => return None,
    };
    largest_entry(&sizes)
}

} // verus!
