use crate::error::{ErrorView, ScheduleError};
use vstd::prelude::*;

verus! {

/// What has to be done to the subsystem after the number of handles changed.
#[derive(Debug, Clone, Copy, PartialEq, Eq, Structural)]
pub enum RuntimeAction {
    /// The first handle was taken: initialize the subsystem.
    Initialize,
    /// The last handle was given back: tear the subsystem down.
    Teardown,
    /// Other handles are live: leave the subsystem as it is.
    Nothing,
}

/// The life of the subsystem, as numbers: the handles that are live, how
/// often the subsystem was initialized and torn down, and how many handles
/// were handed out in all.
pub ghost struct RuntimeView {
    pub handles: nat,
    pub initialized: nat,
    pub torn_down: nat,
    pub issued: nat,
}

/// The message of the error for giving back or sharing a handle when none is live.
pub open spec fn no_handle_message() -> Seq<char> {
    "No handle to the runtime is live."@
}

/// The message of the error for taking a handle when the count is at its limit.
pub open spec fn too_many_handles_message() -> Seq<char> {
    "Too many handles to the runtime are live."@
}

/// The message of the error for a failed initialization that none asked for.
pub open spec fn not_initializing_message() -> Seq<char> {
    "The runtime is not being initialized."@
}

/// The greatest number of handles that can be live at once.
pub open spec fn handle_limit() -> nat {
    u64::MAX as nat
}

impl RuntimeView {
    /// The state before any handle was taken.
    pub open spec fn initial() -> RuntimeView {
        RuntimeView { handles: 0, initialized: 0, torn_down: 0, issued: 0 }
    }

    /// Whether the subsystem is initialized: some handle is live.
    pub open spec fn live(self) -> bool {
        self.handles > 0
    }

    /// The subsystem was initialized once more than it was torn down while a
    /// handle is live, and as often as it was torn down while none is.
    pub open spec fn balanced(self) -> bool {
        self.initialized == self.torn_down + if self.live() {
            1nat
        } else {
            0nat
        }
    }

    /// Takes a handle: the first one initializes the subsystem.
    pub open spec fn acquire(self) -> (RuntimeView, RuntimeAction) {
        if self.handles == 0 {
            (
                RuntimeView {
                    handles: 1,
                    initialized: self.initialized + 1,
                    issued: self.issued + 1,
                    ..self
                },
                RuntimeAction::Initialize,
            )
        } else {
            (
                RuntimeView { handles: self.handles + 1, issued: self.issued + 1, ..self },
                RuntimeAction::Nothing,
            )
        }
    }

    /// Takes one more handle to a subsystem that is initialized: the count
    /// rises by one, and nothing is initialized. Fails when no handle is
    /// live, or when the count is at its limit.
    pub open spec fn share(self) -> Result<RuntimeView, ErrorView> {
        if self.handles == 0 {
            Err(ErrorView::invalid_operation(no_handle_message()))
        } else if self.handles >= handle_limit() {
            Err(ErrorView::invalid_operation(too_many_handles_message()))
        } else {
            Ok(RuntimeView { handles: self.handles + 1, issued: self.issued + 1, ..self })
        }
    }

    /// Gives a handle back: the last one tears the subsystem down. Fails when
    /// no handle is live.
    pub open spec fn release(self) -> Result<(RuntimeView, RuntimeAction), ErrorView> {
        if self.handles == 0 {
            Err(ErrorView::invalid_operation(no_handle_message()))
        } else if self.handles == 1 {
            Ok(
                (
                    RuntimeView { handles: 0, torn_down: self.torn_down + 1, ..self },
                    RuntimeAction::Teardown,
                ),
            )
        } else {
            Ok((RuntimeView { handles: (self.handles - 1) as nat, ..self }, RuntimeAction::Nothing))
        }
    }

    /// Takes back the first handle after the subsystem could not be
    /// initialized: nothing was initialized, nothing is torn down. Fails
    /// unless exactly one handle is live.
    pub open spec fn fail_initialization(self) -> Result<RuntimeView, ErrorView> {
        if self.handles == 1 {
            Ok(
                RuntimeView {
                    handles: 0,
                    initialized: if self.initialized > 0 {
                        (self.initialized - 1) as nat
                    } else {
                        0
                    },
                    ..self
                },
            )
        } else {
            Err(ErrorView::invalid_operation(not_initializing_message()))
        }
    }
}

/// One counted handle to the subsystem. It comes from a [`RuntimeLedger`] and
/// stays counted there until it is given back to it: it cannot be copied, and
/// a handle that is thrown away is never given back.
pub struct RuntimeHandle {
    serial: Ghost<nat>,
}

impl RuntimeHandle {
    /// Which handle this is: the number of handles that the ledger had handed
    /// out before it.
    pub closed spec fn serial(&self) -> nat {
        self.serial@
    }
}

/// Counts the handles to the one initialization of an outside subsystem, and
/// says when the subsystem is to be initialized and torn down: on the first
/// handle, and when the last one is given back.
pub struct RuntimeLedger {
    handles: u64,
    initialized: Ghost<nat>,
    torn_down: Ghost<nat>,
    issued: Ghost<nat>,
}

impl View for RuntimeLedger {
    type V = RuntimeView;

    closed spec fn view(&self) -> RuntimeView {
        RuntimeView {
            handles: self.handles as nat,
            initialized: self.initialized@,
            torn_down: self.torn_down@,
            issued: self.issued@,
        }
    }
}

impl RuntimeLedger {
    /// A ledger on which no handle was taken yet.
    pub fn new() -> (ledger: RuntimeLedger)
        ensures
            ledger@ == RuntimeView::initial(),
    {
        RuntimeLedger { handles: 0, initialized: Ghost(0), torn_down: Ghost(0), issued: Ghost(0) }
    }

    /// The number of live handles.
    pub fn handles(&self) -> (n: u64)
        ensures
            n == self@.handles,
    {
        self.handles
    }

    /// Whether the subsystem is initialized.
    pub fn is_live(&self) -> (r: bool)
        ensures
            r == self@.live(),
    {
        self.handles > 0
    }

    /// Takes a handle, and says whether the subsystem has to be initialized
    /// for it. Fails, and changes nothing, when the count of handles is at
    /// its limit.
    pub fn acquire(&mut self) -> (r: Result<(RuntimeHandle, RuntimeAction), ScheduleError>)
        ensures
            match r {
                Ok((handle, action)) => old(self)@.handles < handle_limit() && (
                    final(self)@,
                    action,
                ) == old(self)@.acquire() && handle.serial() == old(self)@.issued,
                Err(e) => old(self)@.handles == handle_limit() && final(self)@ == old(self)@ && e@
                    == ErrorView::invalid_operation(too_many_handles_message()),
            },
    {
        if self.handles == u64::MAX {
            Err(ScheduleError::invalid_operation("Too many handles to the runtime are live."))
        } else {
            let handle = RuntimeHandle { serial: Ghost(self.issued@) };
            self.issued = Ghost(self.issued@ + 1);
            if self.handles == 0 {
                self.handles = 1;
                self.initialized = Ghost(self.initialized@ + 1);
                Ok((handle, RuntimeAction::Initialize))
            } else {
                self.handles = self.handles + 1;
                Ok((handle, RuntimeAction::Nothing))
            }
        }
    }

    /// Takes one more handle beside `handle`: the count rises by one, and the
    /// subsystem is not initialized again. Fails, and changes nothing, when
    /// no handle is live on this ledger, or when the count is at its limit.
    pub fn share(&mut self, handle: &RuntimeHandle) -> (r: Result<RuntimeHandle, ScheduleError>)
        ensures
            match r {
                Ok(shared) => old(self)@.share() == Ok::<RuntimeView, ErrorView>(final(self)@)
                    && shared.serial() == old(self)@.issued,
                Err(e) => final(self)@ == old(self)@ && old(self)@.share() == Err::<
                    RuntimeView,
                    ErrorView,
                >(e@),
            },
    {
        if self.handles == 0 {
            Err(ScheduleError::invalid_operation("No handle to the runtime is live."))
        } else if self.handles == u64::MAX {
            Err(ScheduleError::invalid_operation("Too many handles to the runtime are live."))
        } else {
            let shared = RuntimeHandle { serial: Ghost(self.issued@) };
            self.issued = Ghost(self.issued@ + 1);
            self.handles = self.handles + 1;
            Ok(shared)
        }
    }

    /// Gives a handle back, and says whether the subsystem has to be torn
    /// down. Fails, and changes nothing, when no handle is live.
    pub fn release(&mut self, handle: RuntimeHandle) -> (r: Result<RuntimeAction, ScheduleError>)
        ensures
            match r {
                Ok(action) => old(self)@.release() == Ok::<(RuntimeView, RuntimeAction), ErrorView>(
                    (final(self)@, action),
                ),
                Err(e) => final(self)@ == old(self)@ && old(self)@.release() == Err::<
                    (RuntimeView, RuntimeAction),
                    ErrorView,
                >(e@),
            },
    {
        if self.handles == 0 {
            Err(ScheduleError::invalid_operation("No handle to the runtime is live."))
        } else if self.handles == 1 {
            self.handles = 0;
            self.torn_down = Ghost(self.torn_down@ + 1);
            Ok(RuntimeAction::Teardown)
        } else {
            self.handles = self.handles - 1;
            Ok(RuntimeAction::Nothing)
        }
    }

    /// Takes back the first handle after the subsystem could not be
    /// initialized. Fails, and changes nothing, unless exactly one handle is
    /// live.
    pub fn fail_initialization(&mut self, handle: RuntimeHandle) -> (r: Result<(), ScheduleError>)
        ensures
            match r {
                Ok(_) => old(self)@.fail_initialization() == Ok::<RuntimeView, ErrorView>(
                    final(self)@,
                ),
                Err(e) => final(self)@ == old(self)@ && old(self)@.fail_initialization() == Err::<
                    RuntimeView,
                    ErrorView,
                >(e@),
            },
    {
        if self.handles == 1 {
            self.handles = 0;
            self.initialized = Ghost(
                if self.initialized@ > 0 {
                    (self.initialized@ - 1) as nat
                } else {
                    0
                },
            );
            Ok(())
        } else {
            Err(ScheduleError::invalid_operation("The runtime is not being initialized."))
        }
    }
}

/// From the first handle to the last, the subsystem is initialized once and
/// torn down once: a state that is balanced stays so under every operation.
pub proof fn law_balance_kept(s: RuntimeView)
    requires
        s.balanced(),
    ensures
        RuntimeView::initial().balanced(),
        s.acquire().0.balanced(),
        s.share() matches Ok(next) ==> next.balanced(),
        s.release() matches Ok(next) ==> next.0.balanced(),
        s.fail_initialization() matches Ok(next) ==> next.balanced(),
{
}

/// The subsystem is initialized exactly when a handle is taken while none is
/// live, and torn down exactly when the only live handle is given back.
pub proof fn law_first_and_last(s: RuntimeView)
    ensures
        s.acquire().1 == RuntimeAction::Initialize <==> !s.live(),
        s.acquire().0.live(),
        s.release() is Ok <==> s.live(),
        s.release() matches Ok(next) ==> (next.1 == RuntimeAction::Teardown <==> s.handles == 1),
        s.release() matches Ok(next) ==> (next.0.live() <==> s.handles > 1),
        s.release() matches Ok(next) ==> next.1 != RuntimeAction::Initialize,
{
}

/// Sharing a handle adds one live handle and neither initializes the
/// subsystem nor tears it down; giving the shared handle back undoes it.
pub proof fn law_share(s: RuntimeView)
    requires
        s.live(),
        s.handles < handle_limit(),
    ensures
        s.share() matches Ok(next) && next.handles == s.handles + 1 && next.initialized
            == s.initialized && next.torn_down == s.torn_down && next.release() == Ok::<
            (RuntimeView, RuntimeAction),
            ErrorView,
        >((RuntimeView { issued: next.issued, ..s }, RuntimeAction::Nothing)),
{
}

/// Two handles are taken and one is given back: the subsystem stays
/// initialized. The other is given back: the subsystem is torn down, once,
/// and no further handle can be given back.
pub proof fn law_two_handles()
    ensures
        ({
            let (s1, a1) = RuntimeView::initial().acquire();
            let (s2, a2) = s1.acquire();
            &&& a1 == RuntimeAction::Initialize
            &&& a2 == RuntimeAction::Nothing
            &&& s2.release() matches Ok(r3)
            &&& r3.1 == RuntimeAction::Nothing
            &&& r3.0.live()
            &&& r3.0.torn_down == 0
            &&& r3.0.release() matches Ok(r4)
            &&& r4.1 == RuntimeAction::Teardown
            &&& !r4.0.live()
            &&& r4.0.initialized == 1
            &&& r4.0.torn_down == 1
            &&& r4.0.release() is Err
        }),
{
}

} // verus!
