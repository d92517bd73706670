//! The sizes the resize bridge applies to the surface.
use vstd::prelude::*;

verus! {

/// A length reported by the host, as a pixel count: a negative one is none.
pub open spec fn pixels(length: int) -> nat {
    if length < 0 { 0 } else { length as nat }
}

/// A pixel count as a viewport length, saturated at `i32::MAX`.
pub open spec fn viewport_length(pixels: nat) -> int {
    if pixels > i32::MAX { i32::MAX as int } else { pixels as int }
}

/// The backing-store size that follows from the client size the host
/// reports, before any resize hook.
pub fn client_size(client_width: i32, client_height: i32) -> (r: (u32, u32))
    ensures
        r.0 == pixels(client_width as int),
        r.1 == pixels(client_height as int),
{
    let w: u32 = if client_width < 0 { 0 } else { client_width as u32 };
    let h: u32 = if client_height < 0 { 0 } else { client_height as u32 };
    (w, h)
}

/// The backing-store size to apply: the hook's answer where a hook is
/// configured, else the client size unchanged.
pub fn backing_size(client: (u32, u32), hooked: Option<(u32, u32)>) -> (r: (u32, u32))
    ensures
        hooked matches Some(h) ==> r == h,
        hooked is None ==> r == client,
{
    match hooked {
        Some(h) => h,
        None => client,
    }
}

/// The viewport that covers a backing store of `size`.
pub fn viewport(size: (u32, u32)) -> (r: (i32, i32))
    ensures
        r.0 == viewport_length(size.0 as nat),
        r.1 == viewport_length(size.1 as nat),
{
    let w: i32 = if size.0 > 2147483647 { 2147483647 } else { size.0 as i32 };
    let h: i32 = if size.1 > 2147483647 { 2147483647 } else { size.1 as i32 };
    (w, h)
}

} // verus!
