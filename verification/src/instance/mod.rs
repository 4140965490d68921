//! A live instance of the engine.

pub mod lock;

use self::lock::LockPolicy;
use crate::callback::display::ffi_callbacks::DisplayCallbackV2;
use crate::device_list::{normalized, DeviceList};
use crate::engine::EngineCall;
use crate::error::ErrCode;
use crate::GS_OK;
use vstd::prelude::*;

verus! {

/// An instance of the engine, known here only by the address under which the
/// engine handed it out.
#[derive(Copy, Clone, Debug, PartialEq, Eq, Structural, Hash)]
pub enum GsRawInstance {
    /// The instance at this address.
    At(usize),
}

impl GsRawInstance {
    /// The address of the instance.
    pub fn addr(&self) -> (addr: usize)
        ensures
            *self == GsRawInstance::At(addr),
    {
        match *self {
            GsRawInstance::At(addr) => addr,
        }
    }
}

/// What an instance is, for contracts.
pub struct GhostscriptView<T> {
    /// Whether the instance holds the process-wide lock.
    pub lock: LockPolicy,
    /// The engine's handle.
    pub instance: GsRawInstance,
    /// Whether the interpreter was initialized, so that it has to be left
    /// before the instance is deleted.
    pub initialized: bool,
    /// The user's data.
    pub user_data: T,
    /// The record of raster callbacks that the engine holds on to.
    pub display_callback: Option<DisplayCallbackV2>,
}

/// The calls that are due when an instance goes, in their order: leave the
/// interpreter if it was initialized, delete the instance in any case, then
/// give back the lock if one is held.
pub open spec fn teardown_calls(lock: LockPolicy, initialized: bool) -> Seq<EngineCall> {
    let exit = if initialized {
        seq![EngineCall::Exit]
    } else {
        Seq::<EngineCall>::empty()
    };
    let release = if lock == LockPolicy::ProcessWide {
        seq![EngineCall::ReleaseLock]
    } else {
        Seq::<EngineCall>::empty()
    };
    exit + seq![EngineCall::DeleteInstance] + release
}

/// When an instance goes it is always deleted. The interpreter is left
/// exactly where it was initialized, and then before the instance is deleted.
/// The lock is given back exactly where one is held, and then last.
pub proof fn lemma_teardown_order(lock: LockPolicy, initialized: bool)
    ensures
        ({
            let calls = teardown_calls(lock, initialized);
            let first = if initialized {
                1int
            } else {
                0int
            };
            &&& calls.contains(EngineCall::Exit) <==> initialized
            &&& initialized ==> calls[0] == EngineCall::Exit
            &&& calls[first] == EngineCall::DeleteInstance
            &&& forall|i: int|
                0 <= i < calls.len() && #[trigger] calls[i] == EngineCall::DeleteInstance ==> i
                    == first
            &&& calls.contains(EngineCall::ReleaseLock) <==> lock == LockPolicy::ProcessWide
            &&& lock == LockPolicy::ProcessWide ==> calls.last() == EngineCall::ReleaseLock
        }),
{
    let calls = teardown_calls(lock, initialized);
    if initialized {
        assert(calls[0] == EngineCall::Exit);
    }
    if lock == LockPolicy::ProcessWide {
        assert(calls.last() == EngineCall::ReleaseLock);
    }
}

/// An instance of the engine and the user's data that it calls back into.
///
/// The instance owns its handle: nothing else deletes it. The calls of
/// [`Ghostscript::teardown`] are due exactly once, when the instance goes.
#[derive(Debug)]
pub struct Ghostscript<T> {
    pub(crate) lock: LockPolicy,
    pub(crate) instance: GsRawInstance,
    pub(crate) initialized: bool,
    pub(crate) user_data: Option<T>,
    pub(crate) display_callback: Option<DisplayCallbackV2>,
}

impl<T> View for Ghostscript<T> {
    type V = GhostscriptView<T>;

    closed spec fn view(&self) -> GhostscriptView<T> {
        GhostscriptView {
            lock: self.lock,
            instance: self.instance,
            initialized: self.initialized,
            user_data: self.user_data->0,
            display_callback: self.display_callback,
        }
    }
}

impl<T> Ghostscript<T> {
    /// The user's data is there for as long as the instance is.
    #[verifier::type_invariant]
    pub closed spec fn well_formed(&self) -> bool {
        self.user_data is Some
    }

    /// Wraps a handle that the engine just handed out. The interpreter is not
    /// initialized yet and no record of raster callbacks is registered.
    pub fn new(lock: LockPolicy, instance: GsRawInstance, user_data: T) -> (gs: Ghostscript<T>)
        ensures
            gs@ == (GhostscriptView {
                lock,
                instance,
                initialized: false,
                user_data,
                display_callback: None,
            }),
    {
        Ghostscript {
            lock,
            instance,
            initialized: false,
            user_data: Some(user_data),
            display_callback: None,
        }
    }

    /// Notes that the interpreter was initialized, so that it is left before
    /// the instance is deleted.
    pub(crate) fn mark_initialized(&mut self)
        ensures
            final(self)@ == (GhostscriptView { initialized: true, ..old(self)@ }),
    {
        proof {
            use_type_invariant(&*self);
        }
        self.initialized = true;
    }

    /// Keeps the record of raster callbacks that was registered with the
    /// engine, which reads it for as long as the instance lives.
    pub(crate) fn keep_display_callback(&mut self, record: Option<DisplayCallbackV2>)
        ensures
            final(self)@ == (GhostscriptView { display_callback: record, ..old(self)@ }),
    {
        proof {
            use_type_invariant(&*self);
        }
        self.display_callback = record;
    }

    /// Gives up the instance: hands out the user's data and the calls that
    /// take the instance down, which are due now, in their order.
    pub fn into_inner(self) -> (parts: (T, Vec<EngineCall>))
        ensures
            parts.0 == self@.user_data,
            parts.1@ == teardown_calls(self@.lock, self@.initialized),
    {
        proof {
            use_type_invariant(&self);
        }
        let calls = self.teardown();
        (self.user_data.unwrap(), calls)
    }

    /// The engine's handle of this instance.
    pub fn as_raw_instance(&mut self) -> (instance: GsRawInstance)
        ensures
            instance == old(self)@.instance,
            *final(self) == *old(self),
    {
        self.instance
    }

    /// Whether the interpreter was initialized.
    pub fn is_initialized(&self) -> (initialized: bool)
        ensures
            initialized == self@.initialized,
    {
        self.initialized
    }

    /// The record of raster callbacks that the engine holds on to, if any.
    pub fn display_callback(&self) -> (record: Option<DisplayCallbackV2>)
        ensures
            record == self@.display_callback,
    {
        self.display_callback
    }

    /// The user's data.
    pub fn user_data(&self) -> (user_data: &T)
        ensures
            *user_data == self@.user_data,
    {
        proof {
            use_type_invariant(self);
        }
        self.user_data.as_ref().unwrap()
    }

    /// The calls that are due when this instance goes, in their order.
    pub fn teardown(&self) -> (calls: Vec<EngineCall>)
        ensures
            calls@ == teardown_calls(self@.lock, self@.initialized),
    {
        let mut calls: Vec<EngineCall> = Vec::new();
        if self.initialized {
            calls.push(EngineCall::Exit);
        }
        calls.push(EngineCall::DeleteInstance);
        match self.lock {
            LockPolicy::ProcessWide => {
                calls.push(EngineCall::ReleaseLock);
            },
            LockPolicy::Unsynchronized => {},
        }
        assert(calls@ =~= teardown_calls(self@.lock, self@.initialized));
        calls
    }

    /// Reads the engine's reply to the question for its default device list:
    /// the status as the error unless it is success, else the list of the
    /// names in `list`.
    pub fn get_default_device_list(&self, status: i32, list: &str) -> (devices: Result<
        DeviceList,
        ErrCode,
    >)
        ensures
            status != GS_OK ==> devices == Err::<DeviceList, ErrCode>(ErrCode(status)),
            status == GS_OK ==> devices is Ok && devices->Ok_0@ == normalized(list@),
    {
        if status != GS_OK {
            return Err(ErrCode(status));
        }
        Ok(DeviceList::new(list))
    }
}

} // verus!
