use ghostscript::callback::display::ffi_callbacks::new_display_callback;
use ghostscript::callback::display::DisplayCallback;
use ghostscript::callback::panic::PanicCallback;
use ghostscript::callback::{CallbackSafe, NoCallback};
use ghostscript::device_list::DeviceList;
use ghostscript::engine::EngineCall;
use ghostscript::error::consts::{FATAL, QUIT};
use ghostscript::error::ErrCode;
use ghostscript::instance::lock::{get_lock, LockPolicy};
use ghostscript::instance::{Ghostscript, GsRawInstance};
use ghostscript::interpreter::InterpreterResult;
use ghostscript::GS_OK;

struct Plain;

impl PanicCallback for Plain {}
impl DisplayCallback for Plain {}

fn created(lock: LockPolicy) -> Ghostscript<String> {
    Ghostscript::new(lock, GsRawInstance::At(0xbeef), String::from("data"))
}

#[test]
fn an_instance_that_was_never_initialized_is_only_deleted() {
    let instance = created(LockPolicy::Unsynchronized);
    assert!(!instance.is_initialized());
    assert_eq!(instance.teardown(), vec![EngineCall::DeleteInstance]);
    assert!(!instance.teardown().contains(&EngineCall::Exit));
}

#[test]
fn a_lock_that_is_held_is_given_back_last() {
    let instance = created(LockPolicy::ProcessWide);
    assert_eq!(instance.teardown(), vec![EngineCall::DeleteInstance, EngineCall::ReleaseLock]);
}

#[test]
fn a_new_instance_holds_what_it_was_made_with() {
    let mut instance = created(LockPolicy::Unsynchronized);
    assert_eq!(instance.as_raw_instance(), GsRawInstance::At(0xbeef));
    assert_eq!(instance.as_raw_instance().addr(), 0xbeef);
    assert_eq!(instance.display_callback(), None);
    assert_eq!(instance.user_data(), "data");
    assert_eq!(instance.into_inner(), (String::from("data"), vec![EngineCall::DeleteInstance]));
}

#[test]
fn the_lock_step_follows_the_policy() {
    assert_eq!(get_lock(LockPolicy::ProcessWide), Some(EngineCall::AcquireLock));
    assert_eq!(get_lock(LockPolicy::Unsynchronized), None);
}

#[test]
fn the_default_device_list_is_read_from_the_reply() {
    let instance = created(LockPolicy::Unsynchronized);
    assert_eq!(
        instance.get_default_device_list(GS_OK, "x11alpha x11  bbox\n"),
        Ok(DeviceList::new("x11alpha x11 bbox"))
    );
    assert_eq!(
        instance.get_default_device_list(GS_OK, "x11alpha x11  bbox\n").unwrap().as_str(),
        "x11alpha x11 bbox"
    );
    assert_eq!(instance.get_default_device_list(GS_OK, ""), Ok(DeviceList::default()));
    assert_eq!(instance.get_default_device_list(FATAL, "x11"), Err(ErrCode(FATAL)));
    assert_eq!(instance.get_default_device_list(QUIT, ""), Err(ErrCode(QUIT)));
    assert_eq!(instance.get_default_device_list(1, "x11"), Err(ErrCode(1)));
}

#[test]
fn running_a_file_hands_the_reply_on() {
    let mut instance = created(LockPolicy::Unsynchronized);
    assert_eq!(instance.interpret_file(GS_OK, 0), InterpreterResult(ErrCode(GS_OK), 0));
    assert_eq!(instance.interpret_file(QUIT, 3), InterpreterResult(ErrCode(QUIT), 3));
    assert_eq!(instance.interpret_file(-22, -1), InterpreterResult(ErrCode(-22), -1));
    assert_eq!(InterpreterResult::from_reply(-5, 9), InterpreterResult(ErrCode(-5), 9));
}

#[test]
fn a_file_name_is_encoded_for_the_engine() {
    let instance = created(LockPolicy::Unsynchronized);
    assert_eq!(instance.file_name_argument("page.ps"), b"page.ps\0".to_vec());
    assert_eq!(instance.file_name_argument(""), b"\0".to_vec());
    assert_eq!(instance.file_name_argument("\u{fc}.pdf"), "\u{fc}.pdf\0".as_bytes().to_vec());
}

#[test]
fn no_callback_holds_the_unit() {
    let mut holder = NoCallback::default();
    assert_eq!(holder, NoCallback(()));
    let unit: &mut () = holder.as_stable_mut();
    assert_eq!(*unit, ());
}

#[test]
fn handles_compare_by_address() {
    assert_eq!(GsRawInstance::At(1), GsRawInstance::At(1));
    assert_ne!(GsRawInstance::At(1), GsRawInstance::At(2));
    assert_eq!(new_display_callback::<Plain>(), new_display_callback::<Plain>());
}
