use ghostscript::callback::display::consts::{
    DisplayFormat, DISPLAY_COLORS_RGB, DISPLAY_DEPTH_8,
};
use ghostscript::callback::display::ffi_callbacks::{
    cast_copies, cast_length, cast_size, display_callback_set_alloc,
    display_callback_set_separation, display_callback_set_update, display_close, display_memalloc,
    display_memfree, display_open, display_page, display_preclose, display_presize,
    display_separation, display_size, display_sync, display_update, memalloc_reply,
    new_display_callback, raster_geometry, record_size, DisplayCallbackV2,
    DISPLAY_VERSION_MAJOR, DISPLAY_VERSION_MINOR,
};
use ghostscript::callback::display::{
    words_to_allocate, DisplayAllocCallback, DisplayCallback, DisplaySeparationCallback,
    DisplayUpdateCallback, RawDisplayDevice,
};
use ghostscript::callback::panic::{status_reply, CallbackOutcome, PanicAction, PanicCallback};
use ghostscript::callback::poll::ffi_callbacks::poll_callback;
use ghostscript::callback::poll::PollCallback;
use ghostscript::callback::stdio::ffi_callbacks::{
    stderr_callback, stdin_callback, stdin_reply, stdout_callback, stdout_reply,
};
use ghostscript::callback::stdio::StdioCallback;
use ghostscript::error::consts::{INTERRUPT, RANGE_CHECK};
use ghostscript::error::ErrCode;
use ghostscript::GS_OK;

/// User data that leaves every method as it is.
struct Quiet;

impl PanicCallback for Quiet {}
impl DisplayCallback for Quiet {}
impl DisplayUpdateCallback for Quiet {}
impl DisplaySeparationCallback for Quiet {}
impl PollCallback for Quiet {}
impl StdioCallback for Quiet {}

/// User data that notes what it is called with.
#[derive(Default)]
struct Recorder {
    log: Vec<String>,
    output: Vec<u8>,
    freed: Vec<usize>,
}

impl PanicCallback for Recorder {
    fn on_callback_panic(_callback: usize, _callback_name: &'static str) -> PanicAction {
        PanicAction::Report(ErrCode(INTERRUPT))
    }
}

impl DisplayCallback for Recorder {
    fn display_open(&mut self, device: RawDisplayDevice) -> ErrCode {
        self.log.push(format!("open {:x}", device.addr()));
        ErrCode(GS_OK)
    }

    fn display_presize(
        &mut self,
        _device: RawDisplayDevice,
        width: usize,
        height: usize,
        raster: usize,
        format: DisplayFormat,
    ) -> ErrCode {
        self.log.push(format!("presize {} {} {} {:x}", width, height, raster, format.bits()));
        ErrCode(RANGE_CHECK)
    }

    fn display_size(
        &mut self,
        _device: RawDisplayDevice,
        width: usize,
        height: usize,
        raster: usize,
        format: DisplayFormat,
        pimage: usize,
    ) -> ErrCode {
        self.log
            .push(format!("size {} {} {} {:x} {:x}", width, height, raster, format.bits(), pimage));
        ErrCode(GS_OK)
    }

    fn display_page(&mut self, _device: RawDisplayDevice, copies: u32, flush: bool) -> ErrCode {
        self.log.push(format!("page {} {}", copies, flush));
        ErrCode(GS_OK)
    }
}

impl DisplayUpdateCallback for Recorder {
    fn display_update(
        &mut self,
        _device: RawDisplayDevice,
        x: usize,
        y: usize,
        w: usize,
        h: usize,
    ) -> ErrCode {
        self.log.push(format!("update {} {} {} {}", x, y, w, h));
        ErrCode(GS_OK)
    }
}

impl DisplayAllocCallback for Recorder {
    fn display_memalloc(&mut self, _device: RawDisplayDevice, size: usize) -> usize {
        self.log.push(format!("memalloc {}", size));
        0x4000
    }

    fn display_memfree(&mut self, _device: RawDisplayDevice, mem: usize) -> ErrCode {
        self.freed.push(mem);
        ErrCode(GS_OK)
    }
}

impl DisplaySeparationCallback for Recorder {
    fn display_separation(
        &mut self,
        _device: RawDisplayDevice,
        component: u32,
        component_name: &[u8],
        cmyk: (u16, u16, u16, u16),
    ) -> ErrCode {
        self.log.push(format!(
            "separation {} {} {:?}",
            component,
            String::from_utf8_lossy(component_name),
            cmyk
        ));
        ErrCode(GS_OK)
    }
}

impl PollCallback for Recorder {
    fn poll(&mut self) -> ErrCode {
        ErrCode(INTERRUPT)
    }
}

impl StdioCallback for Recorder {
    fn read_stdin(&mut self, buf: &mut [u8]) -> Option<usize> {
        if buf.is_empty() {
            return None;
        }
        buf[0] = b'x';
        Some(1)
    }

    fn write_stdout(&mut self, buf: &[u8]) -> usize {
        self.output.extend_from_slice(buf);
        buf.len()
    }
}

const DEVICE: RawDisplayDevice = RawDisplayDevice::At(0xd0);

#[test]
fn the_panic_policy_aborts_unless_told_otherwise() {
    assert_eq!(Quiet::on_callback_panic(0x10, "display_open"), PanicAction::Abort);
    assert_eq!(
        Recorder::on_callback_panic(0x10, "display_open"),
        PanicAction::Report(ErrCode(INTERRUPT))
    );
}

#[test]
fn a_status_callback_answers_with_the_raw_status() {
    assert_eq!(status_reply(CallbackOutcome::Returned(ErrCode(GS_OK))), 0);
    assert_eq!(status_reply(CallbackOutcome::Returned(ErrCode(RANGE_CHECK))), -15);
    assert_eq!(status_reply(CallbackOutcome::Panicked(ErrCode(INTERRUPT))), -6);
    assert_eq!(status_reply(CallbackOutcome::Returned(ErrCode(i32::MIN))), i32::MIN);
}

#[test]
fn every_display_method_succeeds_unless_told_otherwise() {
    let mut quiet = Quiet;
    assert_eq!(display_open(&mut quiet, DEVICE), ErrCode(GS_OK));
    assert_eq!(display_preclose(&mut quiet, DEVICE), ErrCode(GS_OK));
    assert_eq!(display_close(&mut quiet, DEVICE), ErrCode(GS_OK));
    assert_eq!(display_presize(&mut quiet, DEVICE, 10, 20, 40, 0x804), ErrCode(GS_OK));
    assert_eq!(display_size(&mut quiet, DEVICE, 10, 20, 40, 0x804, 0x1000), ErrCode(GS_OK));
    assert_eq!(display_sync(&mut quiet, DEVICE), ErrCode(GS_OK));
    assert_eq!(display_page(&mut quiet, DEVICE, 1, 1), ErrCode(GS_OK));
    assert_eq!(display_update(&mut quiet, DEVICE, 0, 0, 10, 20), ErrCode(GS_OK));
    assert_eq!(
        display_separation(&mut quiet, DEVICE, 0, b"Cyan", 65_535, 0, 0, 0),
        ErrCode(GS_OK)
    );
    assert_eq!(poll_callback(&mut quiet), ErrCode(GS_OK));
}

#[test]
fn the_bridge_hands_converted_arguments_to_the_user() {
    let mut recorder = Recorder::default();
    assert_eq!(display_open(&mut recorder, DEVICE), ErrCode(GS_OK));
    assert_eq!(
        display_presize(&mut recorder, DEVICE, 640, 480, 1920, 0x8000_0804),
        ErrCode(RANGE_CHECK)
    );
    assert_eq!(display_size(&mut recorder, DEVICE, 640, 480, 1920, 0x804, 0xabc0), ErrCode(GS_OK));
    assert_eq!(display_page(&mut recorder, DEVICE, 2, 0), ErrCode(GS_OK));
    assert_eq!(display_page(&mut recorder, DEVICE, 1, -1), ErrCode(GS_OK));
    assert_eq!(display_update(&mut recorder, DEVICE, 1, 2, 3, 4), ErrCode(GS_OK));
    assert_eq!(display_memalloc(&mut recorder, DEVICE, 4096), 0x4000);
    assert_eq!(display_memfree(&mut recorder, DEVICE, 0x4000), ErrCode(GS_OK));
    assert_eq!(
        display_separation(&mut recorder, DEVICE, 4, b"PANTONE 286 C", 65_535, 43_000, 0, 1_000),
        ErrCode(GS_OK)
    );
    assert_eq!(
        recorder.log,
        vec![
            "open d0",
            "presize 640 480 1920 804",
            "size 640 480 1920 804 abc0",
            "page 2 false",
            "page 1 true",
            "update 1 2 3 4",
            "memalloc 4096",
            "separation 4 PANTONE 286 C (65535, 43000, 0, 1000)",
        ]
    );
    assert_eq!(recorder.freed, vec![0x4000]);
    assert_eq!(poll_callback(&mut recorder), ErrCode(INTERRUPT));
}

#[test]
fn geometry_is_cast_like_the_machine_casts() {
    let geometry = raster_geometry(640, 480, 1920, DISPLAY_COLORS_RGB | DISPLAY_DEPTH_8);
    assert_eq!((geometry.width, geometry.height, geometry.raster), (640, 480, 1920));
    assert_eq!(geometry.format.bits(), 0x804);
    let odd = raster_geometry(-1, 0, i32::MIN, u32::MAX);
    assert_eq!(odd.width, -1i32 as usize);
    assert_eq!(odd.height, 0);
    assert_eq!(odd.raster, i32::MIN as usize);
    assert_eq!(odd.format, DisplayFormat::all());
    assert_eq!(cast_length(7), 7);
    assert_eq!(cast_length(-7), -7i32 as usize);
    assert_eq!(cast_copies(3), 3);
    assert_eq!(cast_copies(-1), u32::MAX);
    assert_eq!(cast_size(4096), 4096);
    assert_eq!(cast_size(u64::MAX), u64::MAX as usize);
}

#[test]
fn failed_memory_requests_answer_with_the_null_address() {
    assert_eq!(memalloc_reply(CallbackOutcome::Returned(0x4000)), 0x4000);
    assert_eq!(memalloc_reply(CallbackOutcome::Returned(0)), 0);
    assert_eq!(memalloc_reply(CallbackOutcome::Panicked(ErrCode(INTERRUPT))), 0);
}

#[test]
fn raster_memory_is_counted_in_words_with_one_in_front() {
    let word = std::mem::size_of::<usize>();
    assert_eq!(words_to_allocate(0), Some(1));
    assert_eq!(words_to_allocate(1), Some(2));
    assert_eq!(words_to_allocate(word), Some(2));
    assert_eq!(words_to_allocate(word + 1), Some(3));
    assert_eq!(words_to_allocate(10 * word), Some(11));
    assert_eq!(words_to_allocate(usize::MAX - word + 1), Some(usize::MAX / word + 1));
    assert_eq!(words_to_allocate(usize::MAX - word + 2), None);
    assert_eq!(words_to_allocate(usize::MAX), None);
}

#[test]
fn standard_streams_do_nothing_unless_told_otherwise() {
    let mut quiet = Quiet;
    let mut buf = [7u8; 16];
    assert_eq!(stdin_callback(&mut quiet, &mut buf), Some(0));
    assert_eq!(buf, [7u8; 16]);
    assert_eq!(stdout_callback(&mut quiet, b"hello"), 5);
    assert_eq!(stderr_callback(&mut quiet, b"oops!!"), 6);
    assert_eq!(stdout_callback(&mut quiet, b""), 0);
}

#[test]
fn error_output_goes_where_output_goes() {
    let mut recorder = Recorder::default();
    assert_eq!(stdout_callback(&mut recorder, b"out "), 4);
    assert_eq!(stderr_callback(&mut recorder, b"err"), 3);
    assert_eq!(recorder.output, b"out err");
    let mut buf = [0u8; 4];
    assert_eq!(stdin_callback(&mut recorder, &mut buf), Some(1));
    assert_eq!(buf, [b'x', 0, 0, 0]);
    assert_eq!(stdin_callback(&mut recorder, &mut []), None);
}

#[test]
fn input_answers_with_the_count_or_minus_one() {
    assert_eq!(stdin_reply(CallbackOutcome::Returned(Some(0))), 0);
    assert_eq!(stdin_reply(CallbackOutcome::Returned(Some(512))), 512);
    assert_eq!(stdin_reply(CallbackOutcome::Returned(None)), -1);
    assert_eq!(stdin_reply(CallbackOutcome::Panicked(ErrCode(INTERRUPT))), -1);
    assert_eq!(stdin_reply(CallbackOutcome::Returned(Some(usize::MAX))), usize::MAX as i32);
}

#[test]
fn output_answers_with_the_count_or_zero() {
    assert_eq!(stdout_reply(CallbackOutcome::Returned(0)), 0);
    assert_eq!(stdout_reply(CallbackOutcome::Returned(4096)), 4096);
    assert_eq!(stdout_reply(CallbackOutcome::Panicked(ErrCode(INTERRUPT))), 0);
    assert_eq!(stdout_reply(CallbackOutcome::Returned(1 << 31)), (1usize << 31) as i32);
}

#[test]
fn the_first_record_has_the_seven_basic_slots() {
    let record = new_display_callback::<Quiet>();
    assert_eq!(
        record,
        DisplayCallbackV2 {
            size: record_size(10),
            version_major: 1,
            version_minor: 0,
            display_open: true,
            display_preclose: true,
            display_close: true,
            display_presize: true,
            display_size: true,
            display_sync: true,
            display_page: true,
            display_update: false,
            display_memalloc: false,
            display_memfree: false,
            display_separation: false,
        }
    );
}

#[test]
fn record_sizes_follow_the_layout() {
    let pointer = std::mem::size_of::<usize>() as i32;
    let header = if pointer == 8 { 16 } else { 12 };
    assert_eq!(record_size(0), header);
    assert_eq!(record_size(10), header + 10 * pointer);
    assert_eq!(record_size(11), header + 11 * pointer);
    assert_eq!(record_size(11) - record_size(10), pointer);
    assert_eq!((DISPLAY_VERSION_MAJOR, DISPLAY_VERSION_MINOR), (2, 0));
}

#[test]
fn optional_slots_are_filled_and_emptied() {
    let mut record = new_display_callback::<Recorder>();
    display_callback_set_update::<Recorder>(&mut record, true);
    assert!(record.display_update);
    display_callback_set_alloc::<Recorder>(&mut record, true);
    assert!(record.display_memalloc && record.display_memfree);
    assert_eq!((record.size, record.version_major), (record_size(10), 1));
    display_callback_set_update::<Recorder>(&mut record, false);
    display_callback_set_alloc::<Recorder>(&mut record, false);
    assert_eq!(record, new_display_callback::<Recorder>());
}

#[test]
fn the_separation_slot_moves_the_record_between_versions() {
    let mut record = new_display_callback::<Recorder>();
    display_callback_set_update::<Recorder>(&mut record, true);
    display_callback_set_separation::<Recorder>(&mut record, true);
    assert_eq!(
        (record.size, record.version_major, record.version_minor),
        (record_size(11), 2, 0)
    );
    assert!(record.display_separation);
    assert!(record.display_update);
    display_callback_set_separation::<Recorder>(&mut record, true);
    assert_eq!((record.size, record.version_major), (record_size(11), 2));
    display_callback_set_separation::<Recorder>(&mut record, false);
    assert_eq!(
        (record.size, record.version_major, record.version_minor),
        (record_size(10), 1, 0)
    );
    assert!(!record.display_separation);
    assert!(record.display_update);
}
