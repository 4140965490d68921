//! The engine's entry points, as the binding layer names them when it tells
//! its driver what to call next.

use vstd::prelude::*;

verus! {

/// One call into the engine, or one step of the driver around it.
#[derive(Copy, Clone, Debug, PartialEq, Eq, Structural, Hash)]
pub enum EngineCall {
    /// Take the process-wide lock, waiting for it if need be.
    AcquireLock,
    /// Create an instance, with the address of the user's data as its handle.
    NewInstance,
    /// Tell the engine how the arguments are encoded.
    SetArgEncoding,
    /// Register the list of devices that the engine tries by default.
    SetDefaultDeviceList,
    /// Register the record of raster callbacks.
    SetDisplayCallback,
    /// Register the polling callback.
    SetPoll,
    /// Register the callbacks of the three standard streams, all at once.
    SetStdio,
    /// Initialize the interpreter with the assembled arguments.
    InitWithArgs,
    /// Leave the interpreter. Due before an initialized instance is deleted.
    Exit,
    /// Delete the instance.
    DeleteInstance,
    /// Give the process-wide lock back.
    ReleaseLock,
}

} // verus!
