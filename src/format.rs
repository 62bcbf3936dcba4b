//! Choice of the surface format among those the adapter offers.
use vstd::prelude::*;

verus! {

#[verifier::external_type_specification]
#[verifier::external_body]
pub struct ExTextureFormat(wgpu::TextureFormat);

/// Whether the format `f` stores sRGB-encoded color, as wgpu tells it. The
/// answer depends on the format alone.
pub uninterp spec fn srgb_of(f: wgpu::TextureFormat) -> bool;

/// Relies on `wgpu::TextureFormat::is_srgb`: whether the format stores
/// sRGB-encoded color, a function of the format alone.
pub assume_specification[ wgpu::TextureFormat::is_srgb ](f: &wgpu::TextureFormat) -> (r: bool)
    ensures
        r == srgb_of(*f),
;

/// The sRGB flag of each of `formats`, in the same order.
pub open spec fn srgb_seq(formats: Seq<wgpu::TextureFormat>) -> Seq<bool> {
    formats.map_values(|g: wgpu::TextureFormat| srgb_of(g))
}

/// `f` is the format selected among `formats`: the one at the position
/// chosen by their sRGB flags.
pub open spec fn is_selected_format(formats: Seq<wgpu::TextureFormat>, f: wgpu::TextureFormat) -> bool {
    exists|i: int|
        0 <= i < formats.len() && formats[i] == f && chosen_index(srgb_seq(formats), Some(i as usize))
}

/// Why the graphics context could not be set up.
#[derive(Clone, Copy, Debug, PartialEq, Eq)]
pub enum InitError {
    /// The surface offers no format at all.
    NoSurfaceFormat,
    /// No adapter compatible with the surface was found.
    NoAdapter,
    /// The adapter refused to open a logical device.
    NoDevice,
    /// The window could not yield a surface.
    NoSurface,
}

/// `i` is the first position of `flags` that holds `true`.
pub open spec fn is_first_srgb(flags: Seq<bool>, i: int) -> bool {
    &&& 0 <= i < flags.len()
    &&& flags[i]
    &&& forall|j: int| 0 <= j < i ==> !flags[j]
}

/// `flags` marks no position as sRGB.
pub open spec fn no_srgb(flags: Seq<bool>) -> bool {
    forall|j: int| 0 <= j < flags.len() ==> !flags[j]
}

/// The position chosen among formats whose sRGB flags are `flags`: the first
/// sRGB one, else the first of all, and none when nothing is offered.
pub open spec fn chosen_index(flags: Seq<bool>, r: Option<usize>) -> bool {
    match r {
        None => flags.len() == 0,
        Some(i) => is_first_srgb(flags, i as int) || (flags.len() > 0 && i == 0 && no_srgb(flags)),
    }
}

/// Picks the position of the surface format to configure, given for each
/// offered format (in the adapter's order) whether it is sRGB-encoded.
pub fn choose_format_index(srgb: &Vec<bool>) -> (r: Option<usize>)
    ensures
        chosen_index(srgb@, r),
{
    let mut i: usize = 0;
    while i < srgb.len()
        invariant
            i <= srgb@.len(),
            forall|j: int| 0 <= j < i ==> !srgb@[j],
        decreases srgb@.len() - i,
    {
        if srgb[i] {
            return Some(i);
        }
        i = i + 1;
    }
    if srgb.len() == 0 {
        None
    } else {
        Some(0)
    }
}

/// Whether each of `formats` is sRGB-encoded, in the same order.
pub fn srgb_flags(formats: &Vec<wgpu::TextureFormat>) -> (r: Vec<bool>)
    ensures
        r@ == srgb_seq(formats@),
{
    let mut flags: Vec<bool> = Vec::new();
    let mut i: usize = 0;
    while i < formats.len()
        invariant
            i <= formats@.len(),
            flags@ == srgb_seq(formats@.subrange(0, i as int)),
        decreases formats@.len() - i,
    {
        flags.push(formats[i].is_srgb());
        proof {
            assert(srgb_seq(formats@.subrange(0, i + 1)) =~= srgb_seq(formats@.subrange(0, i as int)).push(
                srgb_of(formats@[i as int]),
            ));
        }
        i = i + 1;
    }
    assert(formats@.subrange(0, formats@.len() as int) =~= formats@);
    flags
}

/// Selects the surface format among `formats`, the adapter's offer in its
/// own order: the first sRGB-encoded one, else the first offered. An empty
/// offer cannot be configured.
pub fn select_surface_format(formats: &Vec<wgpu::TextureFormat>) -> (r: Result<wgpu::TextureFormat, InitError>)
    ensures
        formats@.len() == 0 <==> r == Err::<wgpu::TextureFormat, InitError>(InitError::NoSurfaceFormat),
        formats@.len() > 0 <==> r is Ok,
        r matches Ok(f) ==> is_selected_format(formats@, f),
{
    let flags = srgb_flags(formats);
    match choose_format_index(&flags) {
        Some(i) => Ok(formats[i]),
        None => Err(InitError::NoSurfaceFormat),
    }
}

} // verus!
