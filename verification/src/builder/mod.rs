//! The builder: what an instance is made with, and the outcome of making one.

pub mod session;

use crate::callback::display::ffi_callbacks::{
    base_record, display_callback_set_alloc, display_callback_set_separation,
    display_callback_set_update, new_display_callback, with_alloc, with_separation, with_update,
    DisplayCallbackV2,
};
use crate::callback::display::{
    DisplayAllocCallback, DisplayCallback, DisplaySeparationCallback, DisplayUpdateCallback,
};
use crate::callback::poll::PollCallback;
use crate::callback::stdio::StdioCallback;
use crate::device_list::DeviceList;
use crate::encoding::utf8::{c_string, no_nul, Utf8};
use crate::encoding::StringEncoding;
use crate::error::consts::QUIT;
use crate::error::ErrCode;
use crate::instance::{Ghostscript, GhostscriptView};
use crate::text::{
    hex, lemma_hex_is_plain, lemma_plain_concat, lemma_plain_has_no_nul, plain, push_hex,
};
use vstd::prelude::*;
use vstd::string::StringSliceAdditionalSpecFns;
use vstd::utf8::encode_utf8;

verus! {

/// The step of making an instance at which the engine refused.
#[derive(Debug, Copy, Clone, Eq, PartialEq, Structural, Ord, PartialOrd, Hash)]
pub enum BuilderErrorKind {
    Creation,
    ArgumentEncoding,
    DefaultDeviceList,
    DisplayCallback,
    PollCallback,
    StdioCallback,
    Initialization,
}

/// Why no instance was made: the step that failed, the status that the engine
/// gave, and the user's data, handed back.
#[derive(Debug)]
pub struct BuilderError<T> {
    pub kind: BuilderErrorKind,
    pub code: ErrCode,
    pub user_data: T,
}

impl<T> BuilderError<T> {
    pub fn new(kind: BuilderErrorKind, code: ErrCode, user_data: T) -> (error: Self)
        ensures
            error == (BuilderError { kind, code, user_data }),
    {
        BuilderError { kind, code, user_data }
    }

    /// The step that failed and the status that the engine gave.
    pub fn kind_and_code(&self) -> (pair: (BuilderErrorKind, ErrCode))
        ensures
            pair == (self.kind, self.code),
    {
        (self.kind, self.code)
    }
}

/// How making an instance ended.
#[derive(Debug)]
pub enum BuilderResult<T> {
    /// The interpreter is initialized and the instance is ready for work.
    Running(Ghostscript<T>),
    /// The arguments made the interpreter do its work and leave at once. That
    /// is no failure. The instance is gone and the user's data is back.
    Quit(T),
    /// The engine refused at some step. The instance, if there was one, is
    /// gone and the user's data is back.
    Failed(BuilderError<T>),
}

/// What the outcome of making an instance is, for contracts.
pub enum BuilderResultView<T> {
    Running(GhostscriptView<T>),
    Quit(T),
    Failed(BuilderError<T>),
}

impl<T> View for BuilderResult<T> {
    type V = BuilderResultView<T>;

    open spec fn view(&self) -> BuilderResultView<T> {
        match *self {
            BuilderResult::Running(instance) => BuilderResultView::Running(instance@),
            BuilderResult::Quit(user_data) => BuilderResultView::Quit(user_data),
            BuilderResult::Failed(error) => BuilderResultView::Failed(error),
        }
    }
}

/// The error that stands for an interpreter that left at once, for a caller
/// who wanted a live instance.
pub open spec fn quit_error<T>(user_data: T) -> BuilderError<T> {
    BuilderError { kind: BuilderErrorKind::Initialization, code: ErrCode(QUIT), user_data }
}

impl<T> BuilderResult<T> {
    /// The live instance, for a caller who wants nothing else: an interpreter
    /// that left at once counts as a failure of the initialization, with the
    /// status of leaving.
    pub fn running(self) -> (outcome: Result<Ghostscript<T>, BuilderError<T>>)
        ensures
            match self@ {
                BuilderResultView::Running(instance) => outcome is Ok && outcome->Ok_0@
                    == instance,
                BuilderResultView::Quit(user_data) => outcome == Err::<
                    Ghostscript<T>,
                    BuilderError<T>,
                >(quit_error(user_data)),
                BuilderResultView::Failed(error) => outcome == Err::<
                    Ghostscript<T>,
                    BuilderError<T>,
                >(error),
            },
    {
        match self {
            BuilderResult::Running(instance) => Ok(instance),
            BuilderResult::Quit(user_data) => Err(
                BuilderError::new(BuilderErrorKind::Initialization, ErrCode(QUIT), user_data),
            ),
            BuilderResult::Failed(error) => Err(error),
        }
    }

    /// The user's data, for a caller who expects the interpreter to leave at
    /// once; the two other outcomes come back as the error.
    pub fn has_quit(self) -> (outcome: Result<T, Result<Ghostscript<T>, BuilderError<T>>>)
        ensures
            match self@ {
                BuilderResultView::Quit(user_data) => outcome == Ok::<
                    T,
                    Result<Ghostscript<T>, BuilderError<T>>,
                >(user_data),
                BuilderResultView::Running(instance) => outcome is Err && outcome->Err_0 is Ok
                    && outcome->Err_0->Ok_0@ == instance,
                BuilderResultView::Failed(error) => outcome == Err::<
                    T,
                    Result<Ghostscript<T>, BuilderError<T>>,
                >(Err(error)),
            },
    {
        match self {
            BuilderResult::Quit(user_data) => Ok(user_data),
            BuilderResult::Running(instance) => Err(Ok(instance)),
            BuilderResult::Failed(error) => Err(Err(error)),
        }
    }
}

/// What a builder holds, for contracts.
pub struct BuilderView {
    /// The list of devices that the engine is to try by default, if one is set.
    pub default_device_list: Option<Seq<char>>,
    /// The record of raster callbacks to register, if the display is on.
    pub display_callback: Option<DisplayCallbackV2>,
    /// Whether the polling callback is registered.
    pub poll: bool,
    /// Whether the engine's input is redirected.
    pub stdin: bool,
    /// Whether the engine's output is redirected.
    pub stdout: bool,
    /// Whether the engine's error output is redirected.
    pub stderr: bool,
    /// The user's initialization arguments, each as the engine reads it.
    pub init_params: Seq<Seq<u8>>,
}

impl BuilderView {
    /// The record after the display was switched on or off: off drops it, on
    /// makes the first record unless there is one already.
    pub open spec fn display_switched(self, do_it: bool) -> Option<DisplayCallbackV2> {
        if !do_it {
            None
        } else if self.display_callback is None {
            Some(base_record())
        } else {
            self.display_callback
        }
    }

    /// The record on which an optional slot is about to be set: asking for
    /// the slot switches the display on, not asking leaves the display as it
    /// is.
    pub open spec fn display_for_slot(self, do_it: bool) -> Option<DisplayCallbackV2> {
        if do_it {
            self.display_switched(true)
        } else {
            self.display_callback
        }
    }

    /// Whether any of the three standard streams is redirected.
    pub open spec fn any_stdio(self) -> bool {
        self.stdin || self.stdout || self.stderr
    }
}

/// The text of the initialization argument that tells the engine under which
/// handle it calls the display back: the fixed prefix, then the address of the
/// user's data in lower-case base sixteen.
pub open spec fn display_handle_arg(handle: u64) -> Seq<char> {
    "-sDisplayHandle=16#"@ + hex(handle as nat)
}

/// The arguments of the initialization, each as the engine reads it: first an
/// empty one, which the engine skips; second, where the display is on, the one
/// that names the display's handle; then the user's, as they were set.
pub open spec fn init_arguments(config: BuilderView, handle: u64) -> Seq<Seq<u8>> {
    let display = if config.display_callback is Some {
        seq![c_string(encode_utf8(display_handle_arg(handle)))]
    } else {
        Seq::<Seq<u8>>::empty()
    };
    seq![c_string(Seq::<u8>::empty())] + display + config.init_params
}

/// The texts of a sequence of string slices as the engine reads them.
pub open spec fn encoded_params(params: Seq<&str>) -> Seq<Seq<u8>> {
    params.map_values(|param: &str| c_string(param.spec_bytes()))
}

/// Whether every text of a sequence can be handed to the engine.
pub open spec fn all_encodable(params: Seq<&str>) -> bool {
    forall|i: int| 0 <= i < params.len() ==> no_nul((#[trigger] params[i]).spec_bytes())
}

/// Collects what an instance is to be made with. A builder holds no instance
/// and can be used for any number of them.
#[derive(Debug)]
pub struct GhostscriptBuilder<T> {
    default_device_list: Option<DeviceList>,
    display_callback: Option<DisplayCallbackV2>,
    poll_callback: bool,
    stdin_callback: bool,
    stdout_callback: bool,
    stderr_callback: bool,
    init_params: Vec<Vec<u8>>,
    _pd: core::marker::PhantomData<T>,
}

impl<T> View for GhostscriptBuilder<T> {
    type V = BuilderView;

    closed spec fn view(&self) -> BuilderView {
        BuilderView {
            default_device_list: match self.default_device_list {
                Some(list) => Some(list@),
                None => None,
            },
            display_callback: self.display_callback,
            poll: self.poll_callback,
            stdin: self.stdin_callback,
            stdout: self.stdout_callback,
            stderr: self.stderr_callback,
            init_params: self.init_params@.map_values(|param: Vec<u8>| param@),
        }
    }
}

/// The builder that was just made: nothing is set.
pub open spec fn empty_builder() -> BuilderView {
    BuilderView {
        default_device_list: None,
        display_callback: None,
        poll: false,
        stdin: false,
        stdout: false,
        stderr: false,
        init_params: Seq::empty(),
    }
}

impl<T> Default for GhostscriptBuilder<T> {
    fn default() -> (builder: Self)
        ensures
            builder@ == empty_builder(),
    {
        let builder = GhostscriptBuilder {
            default_device_list: None,
            display_callback: None,
            poll_callback: false,
            stdin_callback: false,
            stdout_callback: false,
            stderr_callback: false,
            init_params: Vec::new(),
            _pd: core::marker::PhantomData,
        };
        assert(builder@.init_params =~= Seq::<Seq<u8>>::empty());
        builder
    }
}

impl<T> GhostscriptBuilder<T> {
    /// A builder with nothing set.
    pub fn new() -> (builder: Self)
        ensures
            builder@ == empty_builder(),
    {
        GhostscriptBuilder::default()
    }

    /// Switches the display on or off. Switching on what is on keeps the
    /// record with the optional slots it has.
    pub fn with_display(&mut self, do_it: bool) -> (this: &mut Self) where T: DisplayCallback
        ensures
            this@ == (BuilderView {
                display_callback: old(self)@.display_switched(do_it),
                ..old(self)@
            }),
            *final(self) == *final(this),
    {
        if !do_it {
            self.display_callback = None;
        } else if self.display_callback.is_none() {
            self.display_callback = Some(new_display_callback::<T>());
        }
        self
    }

    /// Asks for the changed rectangles or not. Asking switches the display on.
    pub fn with_display_update(&mut self, do_it: bool) -> (this: &mut Self) where
        T: DisplayUpdateCallback,

        ensures
            this@ == (BuilderView {
                display_callback: match old(self)@.display_for_slot(do_it) {
                    Some(record) => Some(with_update(record, do_it)),
                    None => None,
                },
                ..old(self)@
            }),
            *final(self) == *final(this),
    {
        if do_it {
            self.with_display(true);
        }
        match self.display_callback {
            Some(mut record) => {
                display_callback_set_update::<T>(&mut record, do_it);
                self.display_callback = Some(record);
            },
            None => {},
        }
        self
    }

    /// Takes over the raster memory or not. Taking it over switches the
    /// display on.
    pub fn with_display_alloc(&mut self, do_it: bool) -> (this: &mut Self) where
        T: DisplayAllocCallback,

        ensures
            this@ == (BuilderView {
                display_callback: match old(self)@.display_for_slot(do_it) {
                    Some(record) => Some(with_alloc(record, do_it)),
                    None => None,
                },
                ..old(self)@
            }),
            *final(self) == *final(this),
    {
        if do_it {
            self.with_display(true);
        }
        match self.display_callback {
            Some(mut record) => {
                display_callback_set_alloc::<T>(&mut record, do_it);
                self.display_callback = Some(record);
            },
            None => {},
        }
        self
    }

    /// Asks for the inks of a separation or not. Asking switches the display
    /// on and makes the record the second version; not asking makes a record
    /// that is there the first version.
    pub fn with_display_separation(&mut self, do_it: bool) -> (this: &mut Self) where
        T: DisplaySeparationCallback,

        ensures
            this@ == (BuilderView {
                display_callback: match old(self)@.display_for_slot(do_it) {
                    Some(record) => Some(with_separation(record, do_it)),
                    None => None,
                },
                ..old(self)@
            }),
            *final(self) == *final(this),
    {
        if do_it {
            self.with_display(true);
        }
        match self.display_callback {
            Some(mut record) => {
                display_callback_set_separation::<T>(&mut record, do_it);
                self.display_callback = Some(record);
            },
            None => {},
        }
        self
    }

    /// Sets the list of devices that the engine is to try by default, or
    /// leaves that to the engine.
    pub fn with_default_device_list(&mut self, device_list: Option<DeviceList>) -> (this:
        &mut Self)
        ensures
            this@ == (BuilderView {
                default_device_list: match device_list {
                    Some(list) => Some(list@),
                    None => None,
                },
                ..old(self)@
            }),
            *final(self) == *final(this),
    {
        self.default_device_list = device_list;
        self
    }

    /// Registers the polling callback or not.
    pub fn with_poll(&mut self, do_it: bool) -> (this: &mut Self) where T: PollCallback
        ensures
            this@ == (BuilderView { poll: do_it, ..old(self)@ }),
            *final(self) == *final(this),
    {
        self.poll_callback = do_it;
        self
    }

    /// Redirects the engine's input or not.
    pub fn with_stdin(&mut self, do_it: bool) -> (this: &mut Self) where T: StdioCallback
        ensures
            this@ == (BuilderView { stdin: do_it, ..old(self)@ }),
            *final(self) == *final(this),
    {
        self.stdin_callback = do_it;
        self
    }

    /// Redirects the engine's output or not.
    pub fn with_stdout(&mut self, do_it: bool) -> (this: &mut Self) where T: StdioCallback
        ensures
            this@ == (BuilderView { stdout: do_it, ..old(self)@ }),
            *final(self) == *final(this),
    {
        self.stdout_callback = do_it;
        self
    }

    /// Redirects the engine's error output or not.
    pub fn with_stderr(&mut self, do_it: bool) -> (this: &mut Self) where T: StdioCallback
        ensures
            this@ == (BuilderView { stderr: do_it, ..old(self)@ }),
            *final(self) == *final(this),
    {
        self.stderr_callback = do_it;
        self
    }

    /// Sets the initialization arguments, in place of any set before. None of
    /// them may hold a zero byte.
    pub fn with_init_params(&mut self, params: &[&str]) -> (this: &mut Self)
        requires
            all_encodable(params@),
        ensures
            this@ == (BuilderView { init_params: encoded_params(params@), ..old(self)@ }),
            *final(self) == *final(this),
    {
        let mut encoded: Vec<Vec<u8>> = Vec::new();
        let mut i: usize = 0;
        while i < params.len()
            invariant
                i <= params.len(),
                all_encodable(params@),
                encoded@.map_values(|param: Vec<u8>| param@) == encoded_params(params@).take(
                    i as int,
                ),
            decreases params.len() - i,
        {
            let ghost before = encoded@.map_values(|param: Vec<u8>| param@);
            let param = Utf8::from_rust_to_ffi(params[i]);
            encoded.push(param);
            assert(encoded@.map_values(|param: Vec<u8>| param@) =~= before.push(param@));
            assert(encoded_params(params@).take(i + 1) =~= encoded_params(params@).take(
                i as int,
            ).push(param@));
            i = i + 1;
        }
        assert(encoded_params(params@).take(params@.len() as int) =~= encoded_params(params@));
        self.init_params = encoded;
        self
    }

    /// The list of devices that the engine is to try by default, if one is set.
    pub fn default_device_list(&self) -> (list: Option<&DeviceList>)
        ensures
            match list {
                Some(list) => self@.default_device_list == Some(list@),
                None => self@.default_device_list is None,
            },
    {
        self.default_device_list.as_ref()
    }

    /// The record of raster callbacks to register, if the display is on.
    pub fn display_callback(&self) -> (record: Option<DisplayCallbackV2>)
        ensures
            record == self@.display_callback,
    {
        self.display_callback
    }

    /// Whether the polling callback is to be registered.
    pub fn poll_callback(&self) -> (poll: bool)
        ensures
            poll == self@.poll,
    {
        self.poll_callback
    }

    /// Whether the engine's input is to be redirected.
    pub fn stdin_callback(&self) -> (stdin: bool)
        ensures
            stdin == self@.stdin,
    {
        self.stdin_callback
    }

    /// Whether the engine's output is to be redirected.
    pub fn stdout_callback(&self) -> (stdout: bool)
        ensures
            stdout == self@.stdout,
    {
        self.stdout_callback
    }

    /// Whether the engine's error output is to be redirected.
    pub fn stderr_callback(&self) -> (stderr: bool)
        ensures
            stderr == self@.stderr,
    {
        self.stderr_callback
    }

    /// The user's initialization arguments, each as the engine reads it.
    pub fn init_params(&self) -> (params: &Vec<Vec<u8>>)
        ensures
            params@.map_values(|param: Vec<u8>| param@) == self@.init_params,
    {
        &self.init_params
    }

    /// The arguments of the initialization for user data at the address
    /// `handle`, each as the engine reads it.
    pub fn init_args(&self, handle: u64) -> (args: Vec<Vec<u8>>)
        ensures
            args@.map_values(|arg: Vec<u8>| arg@) == init_arguments(self@, handle),
    {
        let mut args: Vec<Vec<u8>> = Vec::new();
        proof {
            reveal_strlit("");
            assert(""@ =~= Seq::<char>::empty());
            assert("".spec_bytes() =~= Seq::<u8>::empty()) by {
                assert(vstd::utf8::is_ascii_chars(""@));
                vstd::utf8::is_ascii_chars_encode_utf8(""@);
            }
        }
        let empty = Utf8::from_rust_to_ffi("");
        args.push(empty);
        if self.display_callback().is_some() {
            let text = Self::format_display_handle_string(handle);
            proof {
                reveal_strlit("-sDisplayHandle=16#");
                lemma_hex_is_plain(handle as nat);
                assert(plain("-sDisplayHandle=16#"@));
                lemma_plain_concat("-sDisplayHandle=16#"@, hex(handle as nat));
                lemma_plain_has_no_nul(text@);
            }
            let arg = Utf8::from_rust_to_ffi(text.as_str());
            args.push(arg);
        }
        let ghost front = args@.map_values(|arg: Vec<u8>| arg@);
        let params = self.init_params();
        let mut i: usize = 0;
        while i < params.len()
            invariant
                i <= params.len(),
                params@.map_values(|arg: Vec<u8>| arg@) == self@.init_params,
                args@.map_values(|arg: Vec<u8>| arg@) == front + self@.init_params.take(i as int),
            decreases params.len() - i,
        {
            let ghost before = args@.map_values(|arg: Vec<u8>| arg@);
            let arg = params[i].clone();
            args.push(arg);
            assert(args@.map_values(|arg: Vec<u8>| arg@) =~= before.push(arg@));
            assert(self@.init_params.take(i + 1) =~= self@.init_params.take(i as int).push(arg@));
            i = i + 1;
        }
        assert(self@.init_params.take(params.len() as int) =~= self@.init_params);
        assert(args@.map_values(|arg: Vec<u8>| arg@) =~= init_arguments(self@, handle));
        args
    }

    /// The text of the argument that tells the engine the display's handle.
    pub fn format_display_handle_string(handle: u64) -> (arg: String)
        ensures
            arg@ == display_handle_arg(handle),
    {
        let mut arg = String::from_str("-sDisplayHandle=16#");
        push_hex(&mut arg, handle);
        arg
    }
}

} // verus!
