//! Making an instance, one engine call at a time.
//!
//! The engine is called by a driver outside this crate. A session tells the
//! driver which call is due, takes the engine's status, and decides what
//! follows: the next call, the calls that undo a half-made instance, or the
//! outcome.

use super::{
    init_arguments, BuilderError, BuilderErrorKind, BuilderResult, BuilderResultView,
    BuilderView, GhostscriptBuilder,
};
use crate::callback::display::ffi_callbacks::DisplayCallbackV2;
use crate::callback::{CallbackSafe, NoCallback};
use crate::device_list::DeviceList;
use crate::encoding::utf8::Utf8;
use crate::encoding::{StringEncoding, UTF8};
use crate::engine::EngineCall;
use crate::error::consts::QUIT;
use crate::error::ErrCode;
use crate::instance::lock::{get_lock, LockPolicy};
use crate::instance::{teardown_calls, Ghostscript, GhostscriptView, GsRawInstance};
use crate::{GsArgEncoding, GS_OK};
use vstd::prelude::*;

verus! {

/// The calls that set an instance up, in their order: the lock where the
/// policy asks for one, creation, the argument encoding, then each
/// registration that the builder asks for, then the initialization.
pub open spec fn setup_calls(lock: LockPolicy, config: BuilderView) -> Seq<EngineCall> {
    let acquire = if lock == LockPolicy::ProcessWide {
        seq![EngineCall::AcquireLock]
    } else {
        Seq::<EngineCall>::empty()
    };
    let devices = if config.default_device_list is Some {
        seq![EngineCall::SetDefaultDeviceList]
    } else {
        Seq::<EngineCall>::empty()
    };
    let display = if config.display_callback is Some {
        seq![EngineCall::SetDisplayCallback]
    } else {
        Seq::<EngineCall>::empty()
    };
    let poll = if config.poll {
        seq![EngineCall::SetPoll]
    } else {
        Seq::<EngineCall>::empty()
    };
    let stdio = if config.any_stdio() {
        seq![EngineCall::SetStdio]
    } else {
        Seq::<EngineCall>::empty()
    };
    acquire + seq![EngineCall::NewInstance, EngineCall::SetArgEncoding] + devices + display + poll
        + stdio + seq![EngineCall::InitWithArgs]
}

/// The kind of failure that a refused call stands for.
pub open spec fn failure_kind(call: EngineCall) -> BuilderErrorKind {
    match call {
        EngineCall::NewInstance => BuilderErrorKind::Creation,
        EngineCall::SetArgEncoding => BuilderErrorKind::ArgumentEncoding,
        EngineCall::SetDefaultDeviceList => BuilderErrorKind::DefaultDeviceList,
        EngineCall::SetDisplayCallback => BuilderErrorKind::DisplayCallback,
        EngineCall::SetPoll => BuilderErrorKind::PollCallback,
        EngineCall::SetStdio => BuilderErrorKind::StdioCallback,
        _ => BuilderErrorKind::Initialization,
    }
}

/// Where a session stands.
#[derive(Debug)]
pub enum Stage<Q> {
    /// No instance yet: the user's data waits to be handed to one.
    Creating(Q),
    /// The instance exists and is being set up.
    Configuring(Ghostscript<Q>),
    /// The outcome is decided and the instance is being taken down.
    TearingDown(BuilderResult<Q>),
}

/// Where a session stands, for contracts.
pub enum StageView<Q> {
    Creating(Q),
    Configuring(GhostscriptView<Q>),
    TearingDown(BuilderResultView<Q>),
}

impl<Q> View for Stage<Q> {
    type V = StageView<Q>;

    open spec fn view(&self) -> StageView<Q> {
        match *self {
            Stage::Creating(user_data) => StageView::Creating(user_data),
            Stage::Configuring(instance) => StageView::Configuring(instance@),
            Stage::TearingDown(outcome) => StageView::TearingDown(outcome@),
        }
    }
}

/// What a session is, for contracts.
pub struct SessionView<Q> {
    /// What the builder held when the session began.
    pub config: BuilderView,
    /// How instances are serialized.
    pub lock: LockPolicy,
    /// The address of the user's data.
    pub handle: u64,
    /// Where the session stands.
    pub stage: StageView<Q>,
    /// The calls of the phase that the session is in: those that set the
    /// instance up, or those that take it down.
    pub calls: Seq<EngineCall>,
    /// How many of these calls are done. The next one is due.
    pub position: nat,
}

impl<Q> SessionView<Q> {
    /// The call that is due.
    pub open spec fn pending(self) -> EngineCall {
        self.calls[self.position as int]
    }
}

/// The place of the creation among the calls that set an instance up.
pub open spec fn creation_index(lock: LockPolicy) -> nat {
    if lock == LockPolicy::ProcessWide {
        1
    } else {
        0
    }
}

/// The place of the registration of the raster callbacks among the calls that
/// set an instance up, where the display is on.
pub open spec fn display_index(lock: LockPolicy, config: BuilderView) -> nat {
    creation_index(lock) + 2 + if config.default_device_list is Some {
        1nat
    } else {
        0nat
    }
}

/// The calls that take the instance down once the outcome is decided.
pub open spec fn closing_calls<Q>(lock: LockPolicy, outcome: BuilderResultView<Q>) -> Seq<
    EngineCall,
> {
    match outcome {
        BuilderResultView::Running(_) => Seq::empty(),
        BuilderResultView::Quit(_) => teardown_calls(lock, true),
        BuilderResultView::Failed(error) => if error.kind == BuilderErrorKind::Creation {
            release_calls(lock)
        } else {
            teardown_calls(lock, false)
        },
    }
}

/// What holds of every session from its beginning to its end.
///
/// - A call is due.
/// - Before the instance exists the session is at the lock or at the creation.
/// - While the instance is set up the session is past the creation; the
///   instance is not initialized, holds the lock that the policy asks for, and
///   holds the record of raster callbacks once it is registered.
/// - While the instance is taken down the outcome is not a running instance,
///   and the calls are those that its kind asks for.
pub open spec fn consistent<Q>(session: SessionView<Q>) -> bool {
    let setup = setup_calls(session.lock, session.config);
    &&& session.position < session.calls.len()
    &&& match session.stage {
        StageView::Creating(_) => {
            &&& session.calls == setup
            &&& session.position <= creation_index(session.lock)
        },
        StageView::Configuring(partial) => {
            &&& session.calls == setup
            &&& session.position > creation_index(session.lock)
            &&& partial.lock == session.lock
            &&& !partial.initialized
            &&& partial.display_callback == if session.position > display_index(
                session.lock,
                session.config,
            ) {
                session.config.display_callback
            } else {
                None
            }
        },
        StageView::TearingDown(outcome) => {
            &&& outcome !is Running
            &&& session.calls == closing_calls(session.lock, outcome)
        },
    }
}

/// What a step of a session is, for contracts.
pub enum StepView<Q> {
    Call(SessionView<Q>),
    Done(BuilderResultView<Q>),
}

/// A session that just began.
pub open spec fn started<Q>(config: BuilderView, lock: LockPolicy, user_data: Q, handle: u64)
    -> SessionView<Q> {
    SessionView {
        config,
        lock,
        handle,
        stage: StageView::Creating(user_data),
        calls: setup_calls(lock, config),
        position: 0,
    }
}

/// The step after the outcome is decided: the calls that take the instance
/// down are due first, and the outcome comes at once where there are none.
pub open spec fn wound_down<Q>(
    session: SessionView<Q>,
    outcome: BuilderResultView<Q>,
    calls: Seq<EngineCall>,
) -> StepView<Q> {
    if calls.len() == 0 {
        StepView::Done(outcome)
    } else {
        StepView::Call(
            SessionView { stage: StageView::TearingDown(outcome), calls, position: 0, ..session },
        )
    }
}

/// The calls that are due after creation failed: there is no instance, so
/// only the lock is given back, where one is held.
pub open spec fn release_calls(lock: LockPolicy) -> Seq<EngineCall> {
    if lock == LockPolicy::ProcessWide {
        seq![EngineCall::ReleaseLock]
    } else {
        Seq::<EngineCall>::empty()
    }
}

/// The session with its next call done.
pub open spec fn moved_on<Q>(session: SessionView<Q>, stage: StageView<Q>) -> StepView<Q> {
    StepView::Call(SessionView { stage, position: session.position + 1, ..session })
}

/// What follows when the engine answers the call that was due with `status`
/// and, for the creation, with the handle `instance`.
///
/// - Taking the lock cannot fail.
/// - A refused creation ends the session with the user's data as it came.
///   Nothing was created, so nothing is deleted.
/// - Any other refused call before the initialization ends it with the kind
///   of that call, after the instance is deleted.
/// - The initialization ends the session in any case: with the running
///   instance on success; after leaving and deleting with the user's data
///   where the interpreter left at once; after deleting with a failure else.
/// - While an instance is taken down the engine's status does not count.
pub open spec fn advanced<Q>(session: SessionView<Q>, status: i32, instance: GsRawInstance)
    -> StepView<Q> {
    let call = session.pending();
    match session.stage {
        StageView::Creating(user_data) => {
            if call == EngineCall::AcquireLock {
                moved_on(session, session.stage)
            } else if status == GS_OK {
                moved_on(
                    session,
                    StageView::Configuring(
                        GhostscriptView {
                            lock: session.lock,
                            instance,
                            initialized: false,
                            user_data,
                            display_callback: None,
                        },
                    ),
                )
            } else {
                wound_down(
                    session,
                    BuilderResultView::Failed(
                        BuilderError {
                            kind: BuilderErrorKind::Creation,
                            code: ErrCode(status),
                            user_data,
                        },
                    ),
                    release_calls(session.lock),
                )
            }
        },
        StageView::Configuring(partial) => {
            if call == EngineCall::InitWithArgs && status == GS_OK {
                StepView::Done(
                    BuilderResultView::Running(GhostscriptView { initialized: true, ..partial }),
                )
            } else if call == EngineCall::InitWithArgs && status == QUIT {
                wound_down(
                    session,
                    BuilderResultView::Quit(partial.user_data),
                    teardown_calls(session.lock, true),
                )
            } else if status == GS_OK {
                moved_on(
                    session,
                    StageView::Configuring(
                        if call == EngineCall::SetDisplayCallback {
                            GhostscriptView {
                                display_callback: session.config.display_callback,
                                ..partial
                            }
                        } else {
                            partial
                        },
                    ),
                )
            } else {
                wound_down(
                    session,
                    BuilderResultView::Failed(
                        BuilderError {
                            kind: failure_kind(call),
                            code: ErrCode(status),
                            user_data: partial.user_data,
                        },
                    ),
                    teardown_calls(session.lock, false),
                )
            }
        },
        StageView::TearingDown(outcome) => {
            if session.position + 1 >= session.calls.len() {
                StepView::Done(outcome)
            } else {
                moved_on(session, session.stage)
            }
        },
    }
}

/// An instance in the making. The call of [`BuildSession::pending`] is due;
/// [`BuildSession::advance`] takes the engine's answer to it.
#[derive(Debug)]
pub struct BuildSession<'a, T, Q> {
    builder: &'a GhostscriptBuilder<T>,
    lock: LockPolicy,
    handle: u64,
    stage: Stage<Q>,
    calls: Vec<EngineCall>,
    position: usize,
}

/// What a session asks of its driver.
#[derive(Debug)]
pub enum BuildStep<'a, T, Q> {
    /// The pending call of this session is due.
    Call(BuildSession<'a, T, Q>),
    /// The session is over, with this outcome.
    Done(BuilderResult<Q>),
}

impl<'a, T, Q> View for BuildSession<'a, T, Q> {
    type V = SessionView<Q>;

    closed spec fn view(&self) -> SessionView<Q> {
        SessionView {
            config: self.builder@,
            lock: self.lock,
            handle: self.handle,
            stage: self.stage@,
            calls: self.calls@,
            position: self.position as nat,
        }
    }
}

impl<'a, T, Q> View for BuildStep<'a, T, Q> {
    type V = StepView<Q>;

    open spec fn view(&self) -> StepView<Q> {
        match *self {
            BuildStep::Call(session) => StepView::Call(session@),
            BuildStep::Done(outcome) => StepView::Done(outcome@),
        }
    }
}

impl<T> GhostscriptBuilder<T> {
    /// Begins to make an instance for `user_data`, which lies at the address
    /// `handle` and stays there for as long as the instance lives.
    pub fn build<'a, Q: CallbackSafe<Target = T>>(
        &'a self,
        lock: LockPolicy,
        user_data: Q,
        handle: u64,
    ) -> (session: BuildSession<'a, T, Q>)
        ensures
            session@ == started(self@, lock, user_data, handle),
    {
        let mut calls: Vec<EngineCall> = Vec::new();
        match get_lock(lock) {
            Some(acquire) => {
                calls.push(acquire);
            },
            None => {},
        }
        calls.push(EngineCall::NewInstance);
        calls.push(EngineCall::SetArgEncoding);
        if self.default_device_list().is_some() {
            calls.push(EngineCall::SetDefaultDeviceList);
        }
        if self.display_callback().is_some() {
            calls.push(EngineCall::SetDisplayCallback);
        }
        if self.poll_callback() {
            calls.push(EngineCall::SetPoll);
        }
        if self.stdin_callback() || self.stdout_callback() || self.stderr_callback() {
            calls.push(EngineCall::SetStdio);
        }
        calls.push(EngineCall::InitWithArgs);
        assert(calls@ =~= setup_calls(lock, self@));
        BuildSession {
            builder: self,
            lock,
            handle,
            stage: Stage::Creating(user_data),
            calls,
            position: 0,
        }
    }
}

impl GhostscriptBuilder<()> {
    /// Begins to make an instance that is called back for nothing. `handle` is
    /// the address that the engine is to keep for it.
    pub fn build_simple<'a>(&'a self, lock: LockPolicy, handle: u64) -> (session: BuildSession<
        'a,
        (),
        NoCallback,
    >)
        ensures
            session@ == started(self@, lock, NoCallback(()), handle),
    {
        self.build(lock, NoCallback(()), handle)
    }
}

impl<'a, T, Q> BuildSession<'a, T, Q> {
    /// The session is consistent.
    #[verifier::type_invariant]
    pub closed spec fn well_formed(&self) -> bool {
        consistent(self@)
    }

    /// The call that is due.
    pub fn pending(&self) -> (call: EngineCall)
        ensures
            call == self@.pending(),
            consistent(self@),
    {
        proof {
            use_type_invariant(self);
        }
        self.calls[self.position]
    }

    /// The number by which the engine knows the encoding of the arguments.
    pub fn arg_encoding(&self) -> (encoding: GsArgEncoding)
        ensures
            encoding == UTF8,
    {
        Utf8::ghostscript_encoding()
    }

    /// The list of devices to register, if the builder has one.
    pub fn default_device_list(&self) -> (list: Option<&DeviceList>)
        ensures
            match list {
                Some(list) => self@.config.default_device_list == Some(list@),
                None => self@.config.default_device_list is None,
            },
    {
        self.builder.default_device_list()
    }

    /// The record of raster callbacks to register, if the display is on.
    pub fn display_callback(&self) -> (record: Option<DisplayCallbackV2>)
        ensures
            record == self@.config.display_callback,
    {
        self.builder.display_callback()
    }

    /// Which of the engine's input, output and error output are redirected.
    pub fn stdio(&self) -> (streams: (bool, bool, bool))
        ensures
            streams == (self@.config.stdin, self@.config.stdout, self@.config.stderr),
    {
        (
            self.builder.stdin_callback(),
            self.builder.stdout_callback(),
            self.builder.stderr_callback(),
        )
    }

    /// The arguments of the initialization, each as the engine reads it.
    pub fn init_args(&self) -> (args: Vec<Vec<u8>>)
        ensures
            args@.map_values(|arg: Vec<u8>| arg@) == init_arguments(self@.config, self@.handle),
    {
        self.builder.init_args(self.handle)
    }

    /// Takes the engine's answer to the call that was due: its status and,
    /// for the creation, the handle of the new instance.
    pub fn advance(self, status: i32, instance: GsRawInstance) -> (step: BuildStep<'a, T, Q>)
        ensures
            step@ == advanced(self@, status, instance),
    {
        proof {
            use_type_invariant(&self);
            lemma_advance_keeps_consistent(self@, status, instance);
            lemma_setup_layout(self.lock, self.builder@);
        }
        let ghost before = self@;
        let builder = self.builder;
        let lock = self.lock;
        let handle = self.handle;
        let position = self.position;
        let stage = self.stage;
        let calls = self.calls;
        let call = calls[position];
        match stage {
            Stage::Creating(user_data) => {
                if call == EngineCall::AcquireLock {
                    BuildStep::Call(
                        BuildSession {
                            builder,
                            lock,
                            handle,
                            stage: Stage::Creating(user_data),
                            calls,
                            position: position + 1,
                        },
                    )
                } else if status == GS_OK {
                    BuildStep::Call(
                        BuildSession {
                            builder,
                            lock,
                            handle,
                            stage: Stage::Configuring(Ghostscript::new(lock, instance, user_data)),
                            calls,
                            position: position + 1,
                        },
                    )
                } else {
                    let outcome = BuilderResult::Failed(
                        BuilderError::new(BuilderErrorKind::Creation, ErrCode(status), user_data),
                    );
                    let mut release: Vec<EngineCall> = Vec::new();
                    match lock {
                        LockPolicy::ProcessWide => {
                            release.push(EngineCall::ReleaseLock);
                        },
                        LockPolicy::Unsynchronized => {},
                    }
                    assert(release@ =~= release_calls(lock));
                    wind_down(Ghost(before), builder, lock, handle, outcome, release)
                }
            },
            Stage::Configuring(made) => {
                let mut partial = made;
                if call == EngineCall::InitWithArgs && status == GS_OK {
                    partial.mark_initialized();
                    BuildStep::Done(BuilderResult::Running(partial))
                } else if call == EngineCall::InitWithArgs && status == QUIT {
                    partial.mark_initialized();
                    let (user_data, teardown) = partial.into_inner();
                    let outcome = BuilderResult::Quit(user_data);
                    wind_down(Ghost(before), builder, lock, handle, outcome, teardown)
                } else if status == GS_OK {
                    if call == EngineCall::SetDisplayCallback {
                        partial.keep_display_callback(builder.display_callback());
                    }
                    BuildStep::Call(
                        BuildSession {
                            builder,
                            lock,
                            handle,
                            stage: Stage::Configuring(partial),
                            calls,
                            position: position + 1,
                        },
                    )
                } else {
                    let kind = kind_of(call);
                    let (user_data, teardown) = partial.into_inner();
                    let outcome = BuilderResult::Failed(
                        BuilderError::new(kind, ErrCode(status), user_data),
                    );
                    wind_down(Ghost(before), builder, lock, handle, outcome, teardown)
                }
            },
            Stage::TearingDown(outcome) => {
                if position + 1 >= calls.len() {
                    BuildStep::Done(outcome)
                } else {
                    BuildStep::Call(
                        BuildSession {
                            builder,
                            lock,
                            handle,
                            stage: Stage::TearingDown(outcome),
                            calls,
                            position: position + 1,
                        },
                    )
                }
            },
        }
    }
}

/// What a step leaves behind is consistent, where there is a session left.
pub open spec fn step_consistent<Q>(step: StepView<Q>) -> bool {
    match step {
        StepView::Call(session) => consistent(session),
        StepView::Done(_) => true,
    }
}

/// The calls that set an instance up, place by place.
pub proof fn lemma_setup_layout(lock: LockPolicy, config: BuilderView)
    ensures
        ({
            let setup = setup_calls(lock, config);
            let created = creation_index(lock) as int;
            let display = display_index(lock, config) as int;
            &&& setup.len() >= created + 3
            &&& setup[created] == EngineCall::NewInstance
            &&& setup[created + 1] == EngineCall::SetArgEncoding
            &&& setup.last() == EngineCall::InitWithArgs
            &&& created == 1 ==> setup[0] == EngineCall::AcquireLock
            &&& forall|i: int|
                created <= i < setup.len() - 1 ==> #[trigger] setup[i] != EngineCall::InitWithArgs
            &&& forall|i: int|
                0 <= i < setup.len() && #[trigger] setup[i] == EngineCall::SetDisplayCallback ==> i
                    == display && config.display_callback is Some
            &&& config.display_callback is Some ==> display < setup.len() - 1 && setup[display]
                == EngineCall::SetDisplayCallback
        }),
{
}

/// A step from a consistent session leaves a consistent session.
pub proof fn lemma_advance_keeps_consistent<Q>(
    session: SessionView<Q>,
    status: i32,
    instance: GsRawInstance,
)
    requires
        consistent(session),
    ensures
        step_consistent(advanced(session, status, instance)),
{
    lemma_setup_layout(session.lock, session.config);
}

/// The kind of failure that a refused call stands for.
pub fn kind_of(call: EngineCall) -> (kind: BuilderErrorKind)
    ensures
        kind == failure_kind(call),
{
    match call {
        EngineCall::NewInstance => BuilderErrorKind::Creation,
        EngineCall::SetArgEncoding => BuilderErrorKind::ArgumentEncoding,
        EngineCall::SetDefaultDeviceList => BuilderErrorKind::DefaultDeviceList,
        EngineCall::SetDisplayCallback => BuilderErrorKind::DisplayCallback,
        EngineCall::SetPoll => BuilderErrorKind::PollCallback,
        EngineCall::SetStdio => BuilderErrorKind::StdioCallback,
        _ => BuilderErrorKind::Initialization,
    }
}

/// Whether a builder asks for nothing beyond its arguments: no device list,
/// no display, no polling, no redirected stream.
pub open spec fn bare(config: BuilderView) -> bool {
    &&& config.default_device_list is None
    &&& config.display_callback is None
    &&& !config.poll
    &&& !config.any_stdio()
}

/// A session that is not locked, on a builder that asks for nothing beyond
/// its arguments, whose interpreter leaves at once: the engine is asked to
/// create the instance, to set the encoding and to initialize; then the
/// interpreter is left and the instance deleted, in that order; and the
/// outcome is the user's data as it came.
pub proof fn lemma_bare_session_quits<Q>(
    config: BuilderView,
    user_data: Q,
    handle: u64,
    instance: GsRawInstance,
)
    requires
        bare(config),
    ensures
        ({
            let begun = started(config, LockPolicy::Unsynchronized, user_data, handle);
            let created = advanced(begun, GS_OK, instance);
            let encoded = advanced(created->Call_0, GS_OK, instance);
            let left = advanced(encoded->Call_0, QUIT, instance);
            let exited = advanced(left->Call_0, GS_OK, instance);
            let deleted = advanced(exited->Call_0, GS_OK, instance);
            &&& begun.pending() == EngineCall::NewInstance
            &&& created is Call && created->Call_0.pending() == EngineCall::SetArgEncoding
            &&& encoded is Call && encoded->Call_0.pending() == EngineCall::InitWithArgs
            &&& left is Call && left->Call_0.pending() == EngineCall::Exit
            &&& exited is Call && exited->Call_0.pending() == EngineCall::DeleteInstance
            &&& deleted == StepView::Done(BuilderResultView::Quit(user_data))
        }),
{
    let setup = setup_calls(LockPolicy::Unsynchronized, config);
    assert(setup =~= seq![
        EngineCall::NewInstance,
        EngineCall::SetArgEncoding,
        EngineCall::InitWithArgs,
    ]);
    let down = teardown_calls(LockPolicy::Unsynchronized, true);
    assert(down =~= seq![EngineCall::Exit, EngineCall::DeleteInstance]);
}

/// Where the engine refuses to create the instance, the outcome is the
/// failure of the creation with the engine's status and the user's data as it
/// came. Nothing was created, so the engine is not called again: all that may
/// be left to do is to give the lock back.
pub proof fn lemma_failed_creation_deletes_nothing<Q>(
    session: SessionView<Q>,
    status: i32,
    instance: GsRawInstance,
)
    requires
        consistent(session),
        session.stage is Creating,
        session.pending() == EngineCall::NewInstance,
        status != GS_OK,
    ensures
        ({
            let failure = BuilderResultView::Failed(
                BuilderError {
                    kind: BuilderErrorKind::Creation,
                    code: ErrCode(status),
                    user_data: session.stage->Creating_0,
                },
            );
            let step = advanced(session, status, instance);
            &&& session.lock == LockPolicy::Unsynchronized ==> step == StepView::Done(failure)
            &&& session.lock == LockPolicy::ProcessWide ==> {
                &&& step is Call
                &&& step->Call_0.calls == seq![EngineCall::ReleaseLock]
                &&& step->Call_0.position == 0
                &&& advanced(step->Call_0, status, instance) == StepView::Done(failure)
            }
        }),
{
    assert(release_calls(LockPolicy::ProcessWide) =~= seq![EngineCall::ReleaseLock]);
}

/// Where the engine refuses a call after the instance was created, the
/// instance is deleted, without leaving an interpreter that was never
/// initialized, and the outcome is the failure of that call with the user's
/// data as the instance held it.
pub proof fn lemma_failed_setup_deletes<Q>(
    session: SessionView<Q>,
    status: i32,
    instance: GsRawInstance,
)
    requires
        consistent(session),
        session.stage is Configuring,
        status != GS_OK,
        !(session.pending() == EngineCall::InitWithArgs && status == QUIT),
    ensures
        ({
            let step = advanced(session, status, instance);
            &&& step is Call
            &&& step->Call_0.position == 0
            &&& step->Call_0.calls == teardown_calls(session.lock, false)
            &&& step->Call_0.pending() == EngineCall::DeleteInstance
            &&& !teardown_calls(session.lock, false).contains(EngineCall::Exit)
            &&& step->Call_0.stage == StageView::TearingDown(
                BuilderResultView::Failed(
                    BuilderError {
                        kind: failure_kind(session.pending()),
                        code: ErrCode(status),
                        user_data: session.stage->Configuring_0.user_data,
                    },
                ),
            )
        }),
{
}

/// A session that ends with a running instance initialized it: the instance
/// holds the lock that the policy asks for, and the record of raster
/// callbacks that the builder asked to register.
pub proof fn lemma_running_instance<Q>(
    session: SessionView<Q>,
    status: i32,
    instance: GsRawInstance,
)
    requires
        consistent(session),
        advanced(session, status, instance) matches StepView::Done(
            BuilderResultView::Running(_),
        ),
    ensures
        session.pending() == EngineCall::InitWithArgs,
        status == GS_OK,
        ({
            let made = advanced(session, status, instance)->Done_0->Running_0;
            &&& made.initialized
            &&& made.lock == session.lock
            &&& made.display_callback == session.config.display_callback
        }),
{
    lemma_setup_layout(session.lock, session.config);
}

/// The step that a session reaches when the engine answers its calls with
/// `statuses`, one after the other, for as long as the session lasts.
pub open spec fn after_answers<Q>(
    session: SessionView<Q>,
    statuses: Seq<i32>,
    instance: GsRawInstance,
) -> StepView<Q>
    decreases statuses.len(),
{
    if statuses.len() == 0 {
        StepView::Call(session)
    } else {
        match advanced(session, statuses[0], instance) {
            StepView::Call(next) => after_answers(next, statuses.drop_first(), instance),
            StepView::Done(outcome) => StepView::Done(outcome),
        }
    }
}

/// Once the outcome is decided, the session asks for each of the calls that
/// take the instance down, in their order and whatever the engine answers,
/// and then ends with that outcome.
pub proof fn lemma_teardown_runs_to_its_end<Q>(
    session: SessionView<Q>,
    statuses: Seq<i32>,
    instance: GsRawInstance,
)
    requires
        consistent(session),
        session.stage is TearingDown,
        statuses.len() <= session.calls.len() - session.position,
    ensures
        statuses.len() < session.calls.len() - session.position ==> after_answers(
            session,
            statuses,
            instance,
        ) == StepView::Call(
            SessionView { position: session.position + statuses.len(), ..session },
        ),
        statuses.len() == session.calls.len() - session.position ==> after_answers(
            session,
            statuses,
            instance,
        ) == StepView::Done(session.stage->TearingDown_0),
    decreases statuses.len(),
{
    if statuses.len() > 0 {
        let step = advanced(session, statuses[0], instance);
        if session.position + 1 < session.calls.len() {
            let next = step->Call_0;
            lemma_advance_keeps_consistent(session, statuses[0], instance);
            lemma_teardown_runs_to_its_end(next, statuses.drop_first(), instance);
        }
    }
}

/// A session that the engine never refuses asks for each call of the setup,
/// in their order, and ends with a running instance right after the
/// initialization.
pub proof fn lemma_setup_runs_to_its_end<Q>(
    session: SessionView<Q>,
    statuses: Seq<i32>,
    instance: GsRawInstance,
)
    requires
        consistent(session),
        !(session.stage is TearingDown),
        statuses.len() <= session.calls.len() - session.position,
        forall|i: int| 0 <= i < statuses.len() ==> statuses[i] == GS_OK,
    ensures
        statuses.len() < session.calls.len() - session.position ==> {
            let step = after_answers(session, statuses, instance);
            &&& step is Call
            &&& step->Call_0.calls == setup_calls(session.lock, session.config)
            &&& step->Call_0.position == session.position + statuses.len()
            &&& !(step->Call_0.stage is TearingDown)
        },
        statuses.len() == session.calls.len() - session.position ==> {
            let step = after_answers(session, statuses, instance);
            &&& step is Done
            &&& step->Done_0 is Running
            &&& step->Done_0->Running_0.initialized
            &&& step->Done_0->Running_0.display_callback == session.config.display_callback
        },
    decreases statuses.len(),
{
    lemma_setup_layout(session.lock, session.config);
    if statuses.len() > 0 {
        let step = advanced(session, statuses[0], instance);
        lemma_advance_keeps_consistent(session, statuses[0], instance);
        if session.position + 1 < session.calls.len() {
            let next = step->Call_0;
            assert forall|i: int| 0 <= i < statuses.drop_first().len() implies statuses.drop_first()[i]
                == GS_OK by {
                assert(statuses.drop_first()[i] == statuses[i + 1]);
            }
            lemma_setup_runs_to_its_end(next, statuses.drop_first(), instance);
        }
    }
}

/// Where a lock is asked for, it is taken before the instance is created.
pub proof fn lemma_lock_comes_first(config: BuilderView)
    ensures
        ({
            let setup = setup_calls(LockPolicy::ProcessWide, config);
            &&& setup[0] == EngineCall::AcquireLock
            &&& setup[1] == EngineCall::NewInstance
        }),
        !setup_calls(LockPolicy::Unsynchronized, config).contains(EngineCall::AcquireLock),
{
    lemma_setup_layout(LockPolicy::ProcessWide, config);
    lemma_setup_layout(LockPolicy::Unsynchronized, config);
    let open = setup_calls(LockPolicy::Unsynchronized, config);
    assert forall|i: int| 0 <= i < open.len() implies open[i] != EngineCall::AcquireLock by {}
}

/// The step after the outcome is decided.
fn wind_down<'a, T, Q>(
    Ghost(before): Ghost<SessionView<Q>>,
    builder: &'a GhostscriptBuilder<T>,
    lock: LockPolicy,
    handle: u64,
    outcome: BuilderResult<Q>,
    calls: Vec<EngineCall>,
) -> (step: BuildStep<'a, T, Q>)
    requires
        before.config == builder@,
        before.lock == lock,
        before.handle == handle,
        step_consistent(wound_down(before, outcome@, calls@)),
    ensures
        step@ == wound_down(before, outcome@, calls@),
{
    if calls.len() == 0 {
        BuildStep::Done(outcome)
    } else {
        BuildStep::Call(
            BuildSession {
                builder,
                lock,
                handle,
                stage: Stage::TearingDown(outcome),
                calls,
                position: 0,
            },
        )
    }
}

} // verus!
