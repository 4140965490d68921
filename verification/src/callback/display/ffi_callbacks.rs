//! The record of raster callbacks that is registered with the engine, and the
//! bridge between the engine's raster callbacks and the user's methods.

use super::consts::DISPLAY_ALL_BITS;
use super::{
    lemma_pointer_bytes, pointer_bytes, DisplayAllocCallback, DisplayCallback, DisplayFormat,
    DisplaySeparationCallback, DisplayUpdateCallback, RawDisplayDevice,
};
use crate::callback::panic::{passed_over, CallbackOutcome};
use crate::error::ErrCode;
use vstd::prelude::*;

verus! {

pub const DISPLAY_VERSION_MAJOR_V1: i32 = 1;
pub const DISPLAY_VERSION_MINOR_V1: i32 = 0;
pub const DISPLAY_VERSION_MAJOR_V2: i32 = 2;
pub const DISPLAY_VERSION_MINOR_V2: i32 = 0;
pub const DISPLAY_VERSION_MAJOR: i32 = 2;
pub const DISPLAY_VERSION_MINOR: i32 = 0;

/// The number of callback slots in the first version of the record.
pub const DISPLAY_SLOTS_V1: u8 = 10;

/// The number of callback slots in the second version of the record.
pub const DISPLAY_SLOTS_V2: u8 = 11;

/// The record of raster callbacks as the engine reads it: its own size and
/// version, then one slot for each callback, here `true` where the slot holds
/// the bridge's function and `false` where it is empty.
///
/// The engine goes by `size` and the version to tell which slots it may read:
/// the first version ends after `display_memfree`, the second adds
/// `display_separation`.
#[derive(Copy, Clone, Debug, PartialEq, Eq, Structural)]
pub struct DisplayCallbackV2 {
    pub size: i32,
    pub version_major: i32,
    pub version_minor: i32,
    pub display_open: bool,
    pub display_preclose: bool,
    pub display_close: bool,
    pub display_presize: bool,
    pub display_size: bool,
    pub display_sync: bool,
    pub display_page: bool,
    pub display_update: bool,
    pub display_memalloc: bool,
    pub display_memfree: bool,
    pub display_separation: bool,
}

/// The size in bytes of a record with `slots` callback slots where a pointer
/// takes `pointer_bytes` bytes: three 32-bit integers, padded to the next
/// multiple of a pointer, then one pointer for each slot.
pub open spec fn record_bytes(slots: nat, pointer_bytes: nat) -> nat {
    let header: nat = if pointer_bytes == 8 {
        16
    } else {
        12
    };
    header + slots * pointer_bytes
}

/// The size of the first version of the record on this machine.
pub open spec fn size_v1() -> i32 {
    record_bytes(DISPLAY_SLOTS_V1 as nat, pointer_bytes()) as i32
}

/// The size of the second version of the record on this machine.
pub open spec fn size_v2() -> i32 {
    record_bytes(DISPLAY_SLOTS_V2 as nat, pointer_bytes()) as i32
}

/// The record as it is first made: the first version, with the seven slots
/// that every display needs filled in and the optional ones empty.
pub open spec fn base_record() -> DisplayCallbackV2 {
    DisplayCallbackV2 {
        size: size_v1(),
        version_major: DISPLAY_VERSION_MAJOR_V1,
        version_minor: DISPLAY_VERSION_MINOR_V1,
        display_open: true,
        display_preclose: true,
        display_close: true,
        display_presize: true,
        display_size: true,
        display_sync: true,
        display_page: true,
        display_update: false,
        display_memalloc: false,
        display_memfree: false,
        display_separation: false,
    }
}

/// The record with the update slot filled or emptied.
pub open spec fn with_update(cb: DisplayCallbackV2, do_it: bool) -> DisplayCallbackV2 {
    DisplayCallbackV2 { display_update: do_it, ..cb }
}

/// The record with the two memory slots filled or emptied.
pub open spec fn with_alloc(cb: DisplayCallbackV2, do_it: bool) -> DisplayCallbackV2 {
    DisplayCallbackV2 { display_memalloc: do_it, display_memfree: do_it, ..cb }
}

/// The record with the separation slot filled, which makes it the second
/// version, or emptied, which makes it the first.
pub open spec fn with_separation(cb: DisplayCallbackV2, do_it: bool) -> DisplayCallbackV2 {
    if do_it {
        DisplayCallbackV2 {
            size: size_v2(),
            version_major: DISPLAY_VERSION_MAJOR_V2,
            version_minor: DISPLAY_VERSION_MINOR_V2,
            display_separation: true,
            ..cb
        }
    } else {
        DisplayCallbackV2 {
            size: size_v1(),
            version_major: DISPLAY_VERSION_MAJOR_V1,
            version_minor: DISPLAY_VERSION_MINOR_V1,
            display_separation: false,
            ..cb
        }
    }
}

/// Asking for the inks of a separation makes any record the second version:
/// its size is that of the second version and its version is 2.0. Asking no
/// more makes it the first again: its size is that of the first version and
/// its version is 1.0. The second version is larger by one pointer. No other
/// slot changes either way, so asking and then asking no more gives the same
/// record as never asking.
pub proof fn lemma_separation_toggles_version(cb: DisplayCallbackV2)
    ensures
        ({
            let on = with_separation(cb, true);
            let off = with_separation(on, false);
            &&& (on.size, on.version_major, on.version_minor) == (size_v2(), 2i32, 0i32)
            &&& on.display_separation
            &&& (off.size, off.version_major, off.version_minor) == (size_v1(), 1i32, 0i32)
            &&& !off.display_separation
            &&& off == with_separation(cb, false)
            &&& size_v2() == size_v1() + pointer_bytes()
            &&& with_update(on, cb.display_update) == on
            &&& with_alloc(on, cb.display_memalloc).display_memfree == cb.display_memalloc
        }),
{
    lemma_pointer_bytes();
}

/// The size in bytes of a record with `slots` callback slots on this machine.
pub fn record_size(slots: u8) -> (size: i32)
    ensures
        size == record_bytes(slots as nat, pointer_bytes()),
{
    proof {
        lemma_pointer_bytes();
    }
    let pointer: usize = core::mem::size_of::<usize>();
    let header: usize = if pointer == 8 {
        16
    } else {
        12
    };
    let count: usize = slots as usize;
    assert(count * pointer <= 2040) by (nonlinear_arith)
        requires
            count <= 255,
            pointer <= 8,
    ;
    let total: usize = header + count * pointer;
    total as i32
}

/// Makes the record for a user who receives rendered pages.
pub fn new_display_callback<T: DisplayCallback>() -> (cb: DisplayCallbackV2)
    ensures
        cb == base_record(),
{
    DisplayCallbackV2 {
        size: record_size(DISPLAY_SLOTS_V1),
        version_major: DISPLAY_VERSION_MAJOR_V1,
        version_minor: DISPLAY_VERSION_MINOR_V1,
        display_open: true,
        display_preclose: true,
        display_close: true,
        display_presize: true,
        display_size: true,
        display_sync: true,
        display_page: true,
        display_update: false,
        display_memalloc: false,
        display_memfree: false,
        display_separation: false,
    }
}

/// Fills or empties the update slot.
pub fn display_callback_set_update<T: DisplayUpdateCallback>(
    cb: &mut DisplayCallbackV2,
    do_it: bool,
)
    ensures
        *final(cb) == with_update(*old(cb), do_it),
{
    cb.display_update = do_it;
}

/// Fills or empties the two memory slots.
pub fn display_callback_set_alloc<T: DisplayAllocCallback>(cb: &mut DisplayCallbackV2, do_it: bool)
    ensures
        *final(cb) == with_alloc(*old(cb), do_it),
{
    cb.display_memalloc = do_it;
    cb.display_memfree = do_it;
}

/// Fills or empties the separation slot, and with it moves the record to the
/// second version or back to the first.
pub fn display_callback_set_separation<T: DisplaySeparationCallback>(
    cb: &mut DisplayCallbackV2,
    do_it: bool,
)
    ensures
        *final(cb) == with_separation(*old(cb), do_it),
{
    if do_it {
        cb.size = record_size(DISPLAY_SLOTS_V2);
        cb.version_major = DISPLAY_VERSION_MAJOR_V2;
        cb.version_minor = DISPLAY_VERSION_MINOR_V2;
        cb.display_separation = true;
    } else {
        cb.size = record_size(DISPLAY_SLOTS_V1);
        cb.version_major = DISPLAY_VERSION_MAJOR_V1;
        cb.version_minor = DISPLAY_VERSION_MINOR_V1;
        cb.display_separation = false;
    }
}

/// The geometry and format of a raster, as the user's methods take them.
#[derive(Copy, Clone, Debug)]
pub struct RasterGeometry {
    pub width: usize,
    pub height: usize,
    pub raster: usize,
    pub format: DisplayFormat,
}

/// Converts the geometry and format that the engine sends into what the
/// user's methods take: each length is cast to the machine's unsigned word,
/// and the format keeps its known bits.
pub fn raster_geometry(width: i32, height: i32, raster: i32, format: u32) -> (geometry:
    RasterGeometry)
    ensures
        geometry.width == width as usize,
        geometry.height == height as usize,
        geometry.raster == raster as usize,
        geometry.format == DisplayFormat::truncated(format),
        geometry.format.spec_bits() == format & DISPLAY_ALL_BITS,
{
    RasterGeometry {
        width: cast_length(width),
        height: cast_length(height),
        raster: cast_length(raster),
        format: DisplayFormat::from_bits_truncate(format),
    }
}

/// Casts one of the engine's integers to the machine's unsigned word.
pub fn cast_length(length: i32) -> (cast: usize)
    ensures
        cast == length as usize,
{
    #[verifier::truncate]
    (length as usize)
}

/// Converts the count of copies that the engine sends to the unsigned count
/// that the user's method takes.
pub fn cast_copies(copies: i32) -> (cast: u32)
    ensures
        cast == copies as u32,
{
    #[verifier::truncate]
    (copies as u32)
}

/// Converts the size that the engine asks memory for to the machine's word.
pub fn cast_size(size: u64) -> (cast: usize)
    ensures
        cast == size as usize,
{
    #[verifier::truncate]
    (size as usize)
}

/// Runs the user's method for a device that was opened: the status and the
/// user's data are as that method left them.
pub fn display_open<T: DisplayCallback>(cb: &mut T, device: RawDisplayDevice) -> (status: ErrCode)
    ensures
        old(cb).open_does(device, final(cb), status) || passed_over(old(cb), final(cb), status),
{
    cb.display_open(device)
}

/// Runs the user's method for a device that is about to be closed: the
/// status and the user's data are as that method left them.
pub fn display_preclose<T: DisplayCallback>(cb: &mut T, device: RawDisplayDevice) -> (status:
    ErrCode)
    ensures
        old(cb).preclose_does(device, final(cb), status) || passed_over(
            old(cb),
            final(cb),
            status,
        ),
{
    cb.display_preclose(device)
}

/// Runs the user's method for a device that was closed: the status and the
/// user's data are as that method left them.
pub fn display_close<T: DisplayCallback>(cb: &mut T, device: RawDisplayDevice) -> (status:
    ErrCode)
    ensures
        old(cb).close_does(device, final(cb), status) || passed_over(old(cb), final(cb), status),
{
    cb.display_close(device)
}

/// Runs the user's method for a raster that is about to change. The method
/// gets each length cast to the machine's unsigned word and the format with
/// its known bits; the status and the user's data are as it left them.
pub fn display_presize<T: DisplayCallback>(
    cb: &mut T,
    device: RawDisplayDevice,
    width: i32,
    height: i32,
    raster: i32,
    format: u32,
) -> (status: ErrCode)
    ensures
        old(cb).presize_does(
            device,
            width as usize,
            height as usize,
            raster as usize,
            DisplayFormat::truncated(format),
            final(cb),
            status,
        ) || passed_over(old(cb), final(cb), status),
{
    let geometry = raster_geometry(width, height, raster, format);
    cb.display_presize(device, geometry.width, geometry.height, geometry.raster, geometry.format)
}

/// Runs the user's method for a raster that changed. The method gets each
/// length cast to the machine's unsigned word, the format with its known
/// bits and the address of the pixels; the status and the user's data are as
/// it left them.
pub fn display_size<T: DisplayCallback>(
    cb: &mut T,
    device: RawDisplayDevice,
    width: i32,
    height: i32,
    raster: i32,
    format: u32,
    pimage: usize,
) -> (status: ErrCode)
    ensures
        old(cb).size_does(
            device,
            width as usize,
            height as usize,
            raster as usize,
            DisplayFormat::truncated(format),
            pimage,
            final(cb),
            status,
        ) || passed_over(old(cb), final(cb), status),
{
    let geometry = raster_geometry(width, height, raster, format);
    cb.display_size(
        device,
        geometry.width,
        geometry.height,
        geometry.raster,
        geometry.format,
        pimage,
    )
}

/// Runs the user's method for a raster that is up to date: the status and
/// the user's data are as that method left them.
pub fn display_sync<T: DisplayCallback>(cb: &mut T, device: RawDisplayDevice) -> (status: ErrCode)
    ensures
        old(cb).sync_does(device, final(cb), status) || passed_over(old(cb), final(cb), status),
{
    cb.display_sync(device)
}

/// Runs the user's method for a complete page. The method gets the count of
/// copies cast to an unsigned count, and the engine's flag as set unless it
/// is zero; the status and the user's data are as it left them.
pub fn display_page<T: DisplayCallback>(
    cb: &mut T,
    device: RawDisplayDevice,
    copies: i32,
    flush: i32,
) -> (status: ErrCode)
    ensures
        old(cb).page_does(device, copies as u32, flush != 0, final(cb), status) || passed_over(
            old(cb),
            final(cb),
            status,
        ),
{
    cb.display_page(device, cast_copies(copies), flush != 0)
}

/// Runs the user's method for a rectangle that changed. The method gets each
/// number cast to the machine's unsigned word; the status and the user's
/// data are as it left them.
pub fn display_update<T: DisplayUpdateCallback>(
    cb: &mut T,
    device: RawDisplayDevice,
    x: i32,
    y: i32,
    w: i32,
    h: i32,
) -> (status: ErrCode)
    ensures
        old(cb).update_does(
            device,
            x as usize,
            y as usize,
            w as usize,
            h as usize,
            final(cb),
            status,
        ) || passed_over(old(cb), final(cb), status),
{
    cb.display_update(device, cast_length(x), cast_length(y), cast_length(w), cast_length(h))
}

/// Runs the user's method that provides raster memory, for the size cast to
/// the machine's word: the address and the user's data are as that method
/// left them.
pub fn display_memalloc<T: DisplayAllocCallback>(
    cb: &mut T,
    device: RawDisplayDevice,
    size: u64,
) -> (mem: usize)
    ensures
        old(cb).memalloc_does(device, size as usize, final(cb), mem),
{
    cb.display_memalloc(device, cast_size(size))
}

/// Runs the user's method that takes raster memory back: the status and the
/// user's data are as that method left them.
pub fn display_memfree<T: DisplayAllocCallback>(
    cb: &mut T,
    device: RawDisplayDevice,
    mem: usize,
) -> (status: ErrCode)
    ensures
        old(cb).memfree_does(device, mem, final(cb), status),
{
    cb.display_memfree(device, mem)
}

/// Runs the user's method for an ink of a separation. The method gets the
/// number of the component cast to an unsigned number, the bytes of the name
/// and the four colour values as one tuple; the status and the user's data
/// are as it left them.
pub fn display_separation<T: DisplaySeparationCallback>(
    cb: &mut T,
    device: RawDisplayDevice,
    component: i32,
    component_name: &[u8],
    c: u16,
    m: u16,
    y: u16,
    k: u16,
) -> (status: ErrCode)
    ensures
        old(cb).separation_does(
            device,
            component as u32,
            component_name@,
            (c, m, y, k),
            final(cb),
            status,
        ) || passed_over(old(cb), final(cb), status),
{
    cb.display_separation(device, cast_copies(component), component_name, (c, m, y, k))
}

/// The address that the engine gets back from its request for raster memory:
/// the user's, or the null address where the user's method unwound.
pub open spec fn memory_of(outcome: CallbackOutcome<usize>) -> usize {
    match outcome {
        CallbackOutcome::Returned(mem) => mem,
        CallbackOutcome::Panicked(_) => 0usize,
    }
}

/// Converts the outcome of the memory callback into the address that the
/// engine expects.
pub fn memalloc_reply(outcome: CallbackOutcome<usize>) -> (mem: usize)
    ensures
        mem == memory_of(outcome),
{
    match outcome {
        CallbackOutcome::Returned(mem) => mem,
        CallbackOutcome::Panicked(_) => 0,
    }
}

} // verus!
