//! Raster delivery: the format word and how it decodes.

pub mod consts;
pub mod ffi_callbacks;

pub use self::consts::DisplayFormat;
use crate::callback::panic::{passed_over, PanicCallback};
use crate::error::ErrCode;
use crate::GS_OK;
use self::consts::{
    DISPLAY_ALPHA_FIRST, DISPLAY_ALPHA_LAST, DISPLAY_ALPHA_MASK, DISPLAY_ALPHA_NONE,
    DISPLAY_COLORS_CMYK, DISPLAY_COLORS_GRAY, DISPLAY_COLORS_MASK, DISPLAY_COLORS_NATIVE,
    DISPLAY_COLORS_RGB, DISPLAY_COLORS_SEPARATION, DISPLAY_DEPTH_1, DISPLAY_DEPTH_12,
    DISPLAY_DEPTH_16, DISPLAY_DEPTH_2, DISPLAY_DEPTH_4, DISPLAY_DEPTH_8, DISPLAY_DEPTH_MASK,
    DISPLAY_UNUSED_FIRST, DISPLAY_UNUSED_LAST,
};
use vstd::prelude::*;

verus! {

/// The engine's display device, known here only by the address under which
/// the engine names it in every raster callback.
#[derive(Copy, Clone, Debug, PartialEq, Eq, Structural, Hash)]
pub enum RawDisplayDevice {
    /// The device at this address.
    At(usize),
}

impl RawDisplayDevice {
    /// The address of the device.
    pub fn addr(&self) -> (addr: usize)
        ensures
            *self == RawDisplayDevice::At(addr),
    {
        match *self {
            RawDisplayDevice::At(addr) => addr,
        }
    }
}

/// The capability to receive rendered pages.
///
/// Every method answers with a status; unless the user says otherwise it is
/// success and nothing else happens. For each method the implementor may say
/// what its own method does, as a relation between the user's data before,
/// the arguments, the user's data after and the answer.
pub trait DisplayCallback: PanicCallback {
    /// What this implementor's own `display_open` does.
    open spec fn open_does(&self, device: RawDisplayDevice, after: &Self, status: ErrCode)
        -> bool {
        false
    }

    /// What this implementor's own `display_preclose` does.
    open spec fn preclose_does(&self, device: RawDisplayDevice, after: &Self, status: ErrCode)
        -> bool {
        false
    }

    /// What this implementor's own `display_close` does.
    open spec fn close_does(&self, device: RawDisplayDevice, after: &Self, status: ErrCode)
        -> bool {
        false
    }

    /// What this implementor's own `display_presize` does.
    open spec fn presize_does(
        &self,
        device: RawDisplayDevice,
        width: usize,
        height: usize,
        raster: usize,
        format: DisplayFormat,
        after: &Self,
        status: ErrCode,
    ) -> bool {
        false
    }

    /// What this implementor's own `display_size` does.
    open spec fn size_does(
        &self,
        device: RawDisplayDevice,
        width: usize,
        height: usize,
        raster: usize,
        format: DisplayFormat,
        pimage: usize,
        after: &Self,
        status: ErrCode,
    ) -> bool {
        false
    }

    /// What this implementor's own `display_sync` does.
    open spec fn sync_does(&self, device: RawDisplayDevice, after: &Self, status: ErrCode)
        -> bool {
        false
    }

    /// What this implementor's own `display_page` does.
    open spec fn page_does(
        &self,
        device: RawDisplayDevice,
        copies: u32,
        flush: bool,
        after: &Self,
        status: ErrCode,
    ) -> bool {
        false
    }

    /// A device was opened.
    fn display_open(&mut self, _device: RawDisplayDevice) -> (status: ErrCode)
        ensures
            old(self).open_does(_device, final(self), status) || passed_over(
                old(self),
                final(self),
                status,
            ),
    {
        ErrCode(GS_OK)
    }

    /// The device is about to be closed.
    fn display_preclose(&mut self, _device: RawDisplayDevice) -> (status: ErrCode)
        ensures
            old(self).preclose_does(_device, final(self), status) || passed_over(
                old(self),
                final(self),
                status,
            ),
    {
        ErrCode(GS_OK)
    }

    /// The device was closed.
    fn display_close(&mut self, _device: RawDisplayDevice) -> (status: ErrCode)
        ensures
            old(self).close_does(_device, final(self), status) || passed_over(
                old(self),
                final(self),
                status,
            ),
    {
        ErrCode(GS_OK)
    }

    /// The raster is about to change to this geometry and format.
    fn display_presize(
        &mut self,
        _device: RawDisplayDevice,
        _width: usize,
        _height: usize,
        _raster: usize,
        _format: DisplayFormat,
    ) -> (status: ErrCode)
        ensures
            old(self).presize_does(_device, _width, _height, _raster, _format, final(self), status)
                || passed_over(old(self), final(self), status),
    {
        ErrCode(GS_OK)
    }

    /// The raster changed to this geometry and format, and its pixels now lie
    /// at the address `_pimage`.
    fn display_size(
        &mut self,
        _device: RawDisplayDevice,
        _width: usize,
        _height: usize,
        _raster: usize,
        _format: DisplayFormat,
        _pimage: usize,
    ) -> (status: ErrCode)
        ensures
            old(self).size_does(
                _device,
                _width,
                _height,
                _raster,
                _format,
                _pimage,
                final(self),
                status,
            ) || passed_over(old(self), final(self), status),
    {
        ErrCode(GS_OK)
    }

    /// The raster is up to date.
    fn display_sync(&mut self, _device: RawDisplayDevice) -> (status: ErrCode)
        ensures
            old(self).sync_does(_device, final(self), status) || passed_over(
                old(self),
                final(self),
                status,
            ),
    {
        ErrCode(GS_OK)
    }

    /// A page is complete.
    fn display_page(&mut self, _device: RawDisplayDevice, _copies: u32, _flush: bool) -> (status:
        ErrCode)
        ensures
            old(self).page_does(_device, _copies, _flush, final(self), status) || passed_over(
                old(self),
                final(self),
                status,
            ),
    {
        ErrCode(GS_OK)
    }
}

/// The capability to hear of each rectangle of the raster that changed.
pub trait DisplayUpdateCallback: DisplayCallback {
    /// What this implementor's own `display_update` does.
    open spec fn update_does(
        &self,
        device: RawDisplayDevice,
        x: usize,
        y: usize,
        w: usize,
        h: usize,
        after: &Self,
        status: ErrCode,
    ) -> bool {
        false
    }

    /// The rectangle at `_x`, `_y` of width `_w` and height `_h` changed.
    fn display_update(
        &mut self,
        _device: RawDisplayDevice,
        _x: usize,
        _y: usize,
        _w: usize,
        _h: usize,
    ) -> (status: ErrCode)
        ensures
            old(self).update_does(_device, _x, _y, _w, _h, final(self), status) || passed_over(
                old(self),
                final(self),
                status,
            ),
    {
        ErrCode(GS_OK)
    }
}

/// The capability to provide the memory of the raster.
pub trait DisplayAllocCallback: DisplayCallback {
    /// What this implementor's `display_memalloc` does: how it leaves the
    /// data and which address it answers with. Unless the implementor says
    /// more, nothing is known of it.
    open spec fn memalloc_does(
        &self,
        device: RawDisplayDevice,
        size: usize,
        after: &Self,
        mem: usize,
    ) -> bool {
        true
    }

    /// What this implementor's `display_memfree` does. Unless the implementor
    /// says more, nothing is known of it.
    open spec fn memfree_does(
        &self,
        device: RawDisplayDevice,
        mem: usize,
        after: &Self,
        status: ErrCode,
    ) -> bool {
        true
    }

    /// Provides `size` bytes and answers with their address, or with 0 where
    /// there is no memory to give.
    fn display_memalloc(&mut self, device: RawDisplayDevice, size: usize) -> (mem: usize)
        ensures
            old(self).memalloc_does(device, size, final(self), mem),
    ;

    /// Takes back the memory at `mem`, which `display_memalloc` gave.
    fn display_memfree(&mut self, device: RawDisplayDevice, mem: usize) -> (status: ErrCode)
        ensures
            old(self).memfree_does(device, mem, final(self), status),
    ;
}

/// The capability to hear of each ink of a separation.
pub trait DisplaySeparationCallback: DisplayCallback {
    /// What this implementor's own `display_separation` does.
    open spec fn separation_does(
        &self,
        device: RawDisplayDevice,
        component: u32,
        component_name: Seq<u8>,
        cmyk: (u16, u16, u16, u16),
        after: &Self,
        status: ErrCode,
    ) -> bool {
        false
    }

    /// The component `_component` is the ink named by the bytes `_component_name`,
    /// which prints like the cyan, magenta, yellow and black of `_cmyk`.
    fn display_separation(
        &mut self,
        _device: RawDisplayDevice,
        _component: u32,
        _component_name: &[u8],
        _cmyk: (u16, u16, u16, u16),
    ) -> (status: ErrCode)
        ensures
            old(self).separation_does(
                _device,
                _component,
                _component_name@,
                _cmyk,
                final(self),
                status,
            ) || passed_over(old(self), final(self), status),
    {
        ErrCode(GS_OK)
    }
}

/// How many machine words the raster memory of `size` bytes takes when the
/// count of words is kept in one more word in front of it, so that the memory
/// can be given back knowing its address alone.
pub open spec fn allocation_words(size: nat, word_bytes: nat) -> nat {
    (size + word_bytes - 1) as nat / word_bytes + 1
}

/// The number of words to allocate for raster memory of `size` bytes, the
/// word in front included, or `None` where `size` rounded up to whole words
/// is more than the machine can address.
pub fn words_to_allocate(size: usize) -> (words: Option<usize>)
    ensures
        words is Some <==> size + pointer_bytes() - 1 <= usize::MAX,
        words matches Some(w) ==> w == allocation_words(size as nat, pointer_bytes()),
{
    proof {
        lemma_pointer_bytes();
    }
    let word: usize = core::mem::size_of::<usize>();
    match size.checked_add(word - 1) {
        Some(padded) => {
            assert(padded / word < usize::MAX) by {
                if word == 8 {
                    assert(padded / 8 <= usize::MAX / 8);
                } else {
                    assert(padded / 4 <= usize::MAX / 4);
                }
            }
            Some(padded / word + 1)
        },
        None => None,
    }
}

/// How many components the alpha field of a format word adds to a pixel: none
/// without alpha, one for a padding byte in front or behind. A real alpha
/// channel is not supported, nor is any other combination of the field's bits.
pub open spec fn alpha_components(bits: u32) -> Option<u8> {
    let alpha = bits & DISPLAY_ALPHA_MASK;
    if alpha == DISPLAY_ALPHA_NONE {
        Some(0u8)
    } else if alpha == DISPLAY_UNUSED_FIRST || alpha == DISPLAY_UNUSED_LAST {
        Some(1u8)
    } else {
        None
    }
}

/// The depth of one component in bits, as the depth field of a format word
/// gives it: exactly one of the six depth bits must be set.
pub open spec fn component_depth(bits: u32) -> Option<u8> {
    let depth = bits & DISPLAY_DEPTH_MASK;
    if depth == DISPLAY_DEPTH_1 {
        Some(1u8)
    } else if depth == DISPLAY_DEPTH_2 {
        Some(2u8)
    } else if depth == DISPLAY_DEPTH_4 {
        Some(4u8)
    } else if depth == DISPLAY_DEPTH_8 {
        Some(8u8)
    } else if depth == DISPLAY_DEPTH_12 {
        Some(12u8)
    } else if depth == DISPLAY_DEPTH_16 {
        Some(16u8)
    } else {
        None
    }
}

/// The number of components in a pixel of the format, where a pointer takes
/// `pointer_bytes` bytes.
///
/// Native and gray have one component, CMYK has four, and none of them takes a
/// padding byte. RGB has three and may take one. A separation pixel is as wide
/// as a pointer whatever it holds, and is only defined at depth eight without
/// padding, so it counts one component for each byte of a pointer.
pub open spec fn pixel_components(bits: u32, pointer_bytes: nat) -> Option<u8> {
    let colors = bits & DISPLAY_COLORS_MASK;
    match alpha_components(bits) {
        None => None,
        Some(alpha) => {
            if colors == DISPLAY_COLORS_NATIVE && alpha == 0 {
                Some(1u8)
            } else if colors == DISPLAY_COLORS_GRAY && alpha == 0 {
                Some(1u8)
            } else if colors == DISPLAY_COLORS_RGB {
                Some((3 + alpha) as u8)
            } else if colors == DISPLAY_COLORS_CMYK && alpha == 0 {
                Some(4u8)
            } else if colors == DISPLAY_COLORS_SEPARATION && alpha == 0 && component_depth(bits)
                == Some(8u8) {
                Some(pointer_bytes as u8)
            } else {
                None
            }
        },
    }
}

/// The number of bits in a pixel of the format: components times depth, where
/// both are defined.
pub open spec fn pixel_bits(bits: u32, pointer_bytes: nat) -> Option<u8> {
    match (pixel_components(bits, pointer_bytes), component_depth(bits)) {
        (Some(components), Some(depth)) => Some((components * depth) as u8),
        _ => None,
    }
}

/// The number of bytes in a pointer on the machine that runs the code.
pub open spec fn pointer_bytes() -> nat {
    vstd::layout::size_of::<usize>()
}

/// A pointer takes four or eight bytes.
pub proof fn lemma_pointer_bytes()
    ensures
        pointer_bytes() == 4 || pointer_bytes() == 8,
{
    broadcast use vstd::layout::layout_of_primitives;

}

/// A format that asks for a real alpha channel, in front or behind, is not
/// supported, whatever colours and depth it names: it has no count of
/// components and no count of bits.
pub proof fn lemma_alpha_channel_unsupported(bits: u32, pointer_bytes: nat)
    requires
        bits & DISPLAY_ALPHA_FIRST != 0 || bits & DISPLAY_ALPHA_LAST != 0,
    ensures
        alpha_components(bits) is None,
        pixel_components(bits, pointer_bytes) is None,
        pixel_bits(bits, pointer_bytes) is None,
{
    assert(bits & DISPLAY_ALPHA_MASK != DISPLAY_ALPHA_NONE && bits & DISPLAY_ALPHA_MASK
        != DISPLAY_UNUSED_FIRST && bits & DISPLAY_ALPHA_MASK != DISPLAY_UNUSED_LAST)
        by (bit_vector)
        requires
            bits & DISPLAY_ALPHA_FIRST != 0 || bits & DISPLAY_ALPHA_LAST != 0,
    ;
}

/// Without alpha, RGB at depth eight has three components and twenty-four
/// bits in a pixel, and gray at depth one has one bit, whatever the other
/// fields of the format hold.
pub proof fn lemma_plain_formats(rest: u32, pointer_bytes: nat)
    requires
        rest & (DISPLAY_COLORS_MASK | DISPLAY_ALPHA_MASK | DISPLAY_DEPTH_MASK) == 0,
    ensures
        pixel_components(rest | DISPLAY_COLORS_RGB | DISPLAY_DEPTH_8, pointer_bytes) == Some(3u8),
        pixel_bits(rest | DISPLAY_COLORS_RGB | DISPLAY_DEPTH_8, pointer_bytes) == Some(24u8),
        pixel_components(rest | DISPLAY_COLORS_GRAY | DISPLAY_DEPTH_1, pointer_bytes) == Some(
            1u8,
        ),
        pixel_bits(rest | DISPLAY_COLORS_GRAY | DISPLAY_DEPTH_1, pointer_bytes) == Some(1u8),
{
    let rgb = rest | DISPLAY_COLORS_RGB | DISPLAY_DEPTH_8;
    let gray = rest | DISPLAY_COLORS_GRAY | DISPLAY_DEPTH_1;
    assert(rgb & DISPLAY_ALPHA_MASK == 0 && rgb & DISPLAY_COLORS_MASK == DISPLAY_COLORS_RGB && rgb
        & DISPLAY_DEPTH_MASK == DISPLAY_DEPTH_8) by (bit_vector)
        requires
            rest & (DISPLAY_COLORS_MASK | DISPLAY_ALPHA_MASK | DISPLAY_DEPTH_MASK) == 0,
            rgb == rest | DISPLAY_COLORS_RGB | DISPLAY_DEPTH_8,
    ;
    assert(gray & DISPLAY_ALPHA_MASK == 0 && gray & DISPLAY_COLORS_MASK == DISPLAY_COLORS_GRAY
        && gray & DISPLAY_DEPTH_MASK == DISPLAY_DEPTH_1) by (bit_vector)
        requires
            rest & (DISPLAY_COLORS_MASK | DISPLAY_ALPHA_MASK | DISPLAY_DEPTH_MASK) == 0,
            gray == rest | DISPLAY_COLORS_GRAY | DISPLAY_DEPTH_1,
    ;
}

/// How many components the alpha field of the format adds to a pixel.
pub fn components_for_alpha(format: DisplayFormat) -> (alpha: Option<u8>)
    ensures
        alpha == alpha_components(format.spec_bits()),
{
    let alpha: u32 = format.bits() & DISPLAY_ALPHA_MASK;
    if alpha == DISPLAY_ALPHA_NONE {
        Some(0)
    } else if alpha == DISPLAY_ALPHA_FIRST || alpha == DISPLAY_ALPHA_LAST {
        None
    } else if alpha == DISPLAY_UNUSED_FIRST || alpha == DISPLAY_UNUSED_LAST {
        Some(1)
    } else {
        None
    }
}

/// The number of components in a pixel of the format, or `None` where the
/// format is not supported.
pub fn components_per_pixel(format: DisplayFormat) -> (components: Option<u8>)
    ensures
        components == pixel_components(format.spec_bits(), pointer_bytes()),
{
    let alpha: u8 = match components_for_alpha(format) {
        Some(alpha) => alpha,
        None => {
            return None;
        },
    };
    let colors: u32 = format.bits() & DISPLAY_COLORS_MASK;
    if colors == DISPLAY_COLORS_NATIVE && alpha == 0 {
        Some(1)
    } else if colors == DISPLAY_COLORS_GRAY && alpha == 0 {
        Some(1)
    } else if colors == DISPLAY_COLORS_RGB {
        Some(3 + alpha)
    } else if colors == DISPLAY_COLORS_CMYK && alpha == 0 {
        Some(4)
    } else if colors == DISPLAY_COLORS_SEPARATION && alpha == 0 {
        match depth_bits(format) {
            Some(depth) => {
                if depth == 8 {
                    proof {
                        lemma_pointer_bytes();
                    }
                    let width: usize = core::mem::size_of::<usize>();
                    Some(width as u8)
                } else {
                    None
                }
            },
            None => None,
        }
    } else {
        None
    }
}

/// The depth of one component in bits, or `None` where the depth field does
/// not name exactly one depth.
pub fn depth_bits(format: DisplayFormat) -> (depth: Option<u8>)
    ensures
        depth == component_depth(format.spec_bits()),
{
    let depth: u32 = format.bits() & DISPLAY_DEPTH_MASK;
    if depth == DISPLAY_DEPTH_1 {
        Some(1)
    } else if depth == DISPLAY_DEPTH_2 {
        Some(2)
    } else if depth == DISPLAY_DEPTH_4 {
        Some(4)
    } else if depth == DISPLAY_DEPTH_8 {
        Some(8)
    } else if depth == DISPLAY_DEPTH_12 {
        Some(12)
    } else if depth == DISPLAY_DEPTH_16 {
        Some(16)
    } else {
        None
    }
}

/// The number of bits in a pixel of the format, or `None` where the format is
/// not supported.
pub fn bits_per_pixel(format: DisplayFormat) -> (bits: Option<u8>)
    ensures
        bits == pixel_bits(format.spec_bits(), pointer_bytes()),
{
    let components: u8 = match components_per_pixel(format) {
        Some(components) => components,
        None => {
            return None;
        },
    };
    let depth: u8 = match depth_bits(format) {
        Some(depth) => depth,
        None => {
            return None;
        },
    };
    proof {
        lemma_pointer_bytes();
        assert(components * depth <= 128) by (nonlinear_arith)
            requires
                components <= 8,
                depth <= 16,
        ;
    }
    Some(components * depth)
}

} // verus!
