//! The capture boundary, as a state machine.
//!
//! One capture runs a unit of work and turns an allocation failure inside
//! it into an error value. Installing the process-wide hooks and running
//! the work under an unwind-catching boundary are the caller's part; what
//! to do next is decided here. The caller starts in
//! [`CaptureState::Start`] with [`CaptureEvent::Enter`], performs the
//! action that [`step`] answers, and reports what came of it as the next
//! event, until the action is [`CaptureAction::Return`].

use crate::error::AllocError;
use crate::layout::{layout_align, layout_size};
use crate::reserve::{priming, priming_result};
use crate::thread_state::{after_rescue, rescued, ThreadPanic, ThreadView};
use std::alloc::Layout;
use vstd::prelude::*;

verus! {

/// Where one capture stands.
#[derive(Copy, Clone, Debug, PartialEq, Eq, Structural)]
pub enum CaptureState {
    /// Nothing has been done yet.
    Start,
    /// The caller is installing the process-wide hooks.
    Installing,
    /// The caller is running the work.
    Running,
    /// The capture has returned.
    Done,
}

/// What the caller reports to the capture.
pub enum CaptureEvent<R> {
    /// The capture begins.
    Enter,
    /// Both hooks are installed.
    HooksInstalled,
    /// The hooks could not be installed: the allocation of this layout,
    /// which the installation needs, failed.
    HooksFailed(Layout),
    /// The work ran to its end with this value.
    Completed(R),
    /// The work unwound, and the payload of the panic is this allocation
    /// failure.
    Unwound(AllocError),
}

/// What the caller is to do next.
pub enum CaptureAction<R> {
    /// Install the panic hook and the allocation-error hook, then report
    /// `HooksInstalled` or `HooksFailed`.
    InstallHooks,
    /// Run the work under the unwind-catching boundary, then report
    /// `Completed` or `Unwound`.
    Run,
    /// Return this result to whoever asked for the capture.
    Return(Result<R, AllocError>),
}

/// The outcome of one step: the next state, the process-wide flag that
/// says whether the hooks are installed, and the action for the caller.
pub struct Step<R> {
    pub state: CaptureState,
    pub hooks_installed: bool,
    pub action: CaptureAction<R>,
}

/// The events that a capture in `state` accepts.
pub open spec fn admits<R>(state: CaptureState, event: CaptureEvent<R>) -> bool {
    match state {
        CaptureState::Start => event is Enter,
        CaptureState::Installing => event is HooksInstalled || event is HooksFailed,
        CaptureState::Running => event is Completed || event is Unwound,
        CaptureState::Done => false,
    }
}

impl CaptureState {
    /// Tells whether a capture in this state accepts `event`.
    pub fn accepts<R>(&self, event: &CaptureEvent<R>) -> (accepted: bool)
        ensures
            accepted == admits(*self, *event),
    {
        match self {
            CaptureState::Start => match event {
                CaptureEvent::Enter => true,
                _ => false,
            },
            CaptureState::Installing => match event {
                CaptureEvent::HooksInstalled => true,
                CaptureEvent::HooksFailed(_) => true,
                _ => false,
            },
            CaptureState::Running => match event {
                CaptureEvent::Completed(_) => true,
                CaptureEvent::Unwound(_) => true,
                _ => false,
            },
            CaptureState::Done => false,
        }
    }
}

/// Whether the step primes the reserve of the thread: it does once the
/// hooks are known to be installed, before the work runs.
pub open spec fn primes<R>(
    state: CaptureState,
    hooks_installed: bool,
    event: CaptureEvent<R>,
) -> bool {
    ||| state is Start && event is Enter && hooks_installed
    ||| state is Installing && event is HooksInstalled
}

/// The step that follows the priming of the reserve: run the work if the
/// reserve is primed, else return the request that failed.
pub open spec fn after_priming<R>(primed: Result<(), AllocError>) -> Step<R> {
    match primed {
        Ok(()) => Step {
            state: CaptureState::Running,
            hooks_installed: true,
            action: CaptureAction::Run,
        },
        Err(e) => Step {
            state: CaptureState::Done,
            hooks_installed: true,
            action: CaptureAction::Return(Err(e)),
        },
    }
}

/// The transition function of the capture, for the events that `state`
/// admits. `primed` is what priming the reserve reports, for the steps
/// that prime it.
pub open spec fn transition<R>(
    state: CaptureState,
    hooks_installed: bool,
    event: CaptureEvent<R>,
    primed: Result<(), AllocError>,
) -> Step<R> {
    match event {
        CaptureEvent::Enter => if hooks_installed {
            after_priming(primed)
        } else {
            Step {
                state: CaptureState::Installing,
                hooks_installed: false,
                action: CaptureAction::InstallHooks,
            }
        },
        CaptureEvent::HooksInstalled => after_priming(primed),
        CaptureEvent::HooksFailed(layout) => Step {
            state: CaptureState::Done,
            hooks_installed,
            action: CaptureAction::Return(Err(AllocError::for_layout(layout))),
        },
        CaptureEvent::Completed(value) => Step {
            state: CaptureState::Done,
            hooks_installed,
            action: CaptureAction::Return(Ok(value)),
        },
        CaptureEvent::Unwound(e) => Step {
            state: CaptureState::Done,
            hooks_installed,
            action: CaptureAction::Return(Err(e)),
        },
    }
}

/// Work that runs to its end is returned as it is: the capture answers the
/// value of the work, and leaves the process-wide flag as it was.
pub proof fn lemma_completed_work_is_returned<R>(
    hooks_installed: bool,
    value: R,
    primed: Result<(), AllocError>,
)
    ensures
        transition(CaptureState::Running, hooks_installed, CaptureEvent::Completed(value), primed)
            == (Step {
            state: CaptureState::Done,
            hooks_installed,
            action: CaptureAction::Return(Ok(value)),
        }),
{
}

/// The first request that is refused is reported as it was made. A thread
/// that is not yet unwinding serves nothing from its reserve, so the
/// request is raised as a failure value; and when the work unwinds with
/// the failure value that was built for `layout`, the capture returns an
/// error with the size and the alignment of `layout`.
pub proof fn lemma_rejected_request_is_reported<R, B>(
    thread: ThreadView<B>,
    hooks_installed: bool,
    layout: Layout,
    primed: Result<(), AllocError>,
)
    requires
        !thread.unwinding,
    ensures
        rescued(thread, layout_size(layout), layout_align(layout)) is None,
        after_rescue(thread, layout_size(layout), layout_align(layout)) == thread,
        transition::<R>(
            CaptureState::Running,
            hooks_installed,
            CaptureEvent::Unwound(AllocError::for_layout(layout)),
            primed,
        ).action matches CaptureAction::Return(Err(e)) && e.is_request(
            layout_size(layout),
            layout_align(layout),
        ),
{
    AllocError::lemma_for_request(layout_size(layout), layout_align(layout));
}

/// No step installs the hooks a second time. The capture asks for the
/// hooks only when it begins with the flag unset; the flag is set only
/// when the hooks are reported as installed; and once the flag is set,
/// every step leaves it set and asks for no installation.
pub proof fn lemma_hooks_asked_once<R>(
    state: CaptureState,
    hooks_installed: bool,
    event: CaptureEvent<R>,
    primed: Result<(), AllocError>,
)
    requires
        admits(state, event),
    ensures
        ({
            let next = transition(state, hooks_installed, event, primed);
            &&& next.action is InstallHooks <==> event is Enter && !hooks_installed
            &&& next.hooks_installed <==> hooks_installed || event is HooksInstalled
        }),
{
}

/// The flag after one whole capture that begins with the flag at
/// `hooks_installed`. `attempt` is what an installation comes to if the
/// capture asks for one: success, or the layout that could not be
/// allocated.
pub open spec fn flag_after_capture(hooks_installed: bool, attempt: Result<(), Layout>) -> bool {
    let entered = transition::<()>(
        CaptureState::Start,
        hooks_installed,
        CaptureEvent::Enter,
        Ok(()),
    );
    if entered.action is InstallHooks {
        let event = match attempt {
            Ok(()) => CaptureEvent::HooksInstalled,
            Err(layout) => CaptureEvent::HooksFailed(layout),
        };
        transition::<()>(entered.state, entered.hooks_installed, event, Ok(())).hooks_installed
    } else {
        entered.hooks_installed
    }
}

/// Whether one whole capture that begins with the flag at
/// `hooks_installed` installs the hooks.
pub open spec fn capture_installs(hooks_installed: bool, attempt: Result<(), Layout>) -> bool {
    transition::<()>(
        CaptureState::Start,
        hooks_installed,
        CaptureEvent::Enter,
        Ok(()),
    ).action is InstallHooks && attempt is Ok
}

/// The number of captures, among those of `attempts` run one after the
/// other from the flag at `hooks_installed`, that install the hooks.
pub open spec fn installations(hooks_installed: bool, attempts: Seq<Result<(), Layout>>) -> nat
    decreases attempts.len(),
{
    if attempts.len() == 0 {
        0
    } else {
        let rest = installations(
            flag_after_capture(hooks_installed, attempts[0]),
            attempts.drop_first(),
        );
        if capture_installs(hooks_installed, attempts[0]) {
            1 + rest
        } else {
            rest
        }
    }
}

/// However many captures run, the hooks are installed at most once: never
/// again once the flag is set, and exactly once if the flag starts unset
/// and some attempt to install succeeds.
pub proof fn lemma_hooks_installed_once(hooks_installed: bool, attempts: Seq<Result<(), Layout>>)
    ensures
        installations(hooks_installed, attempts) <= 1,
        hooks_installed ==> installations(hooks_installed, attempts) == 0,
        !hooks_installed && (exists|i: int| 0 <= i < attempts.len() && attempts[i] is Ok)
            ==> installations(hooks_installed, attempts) == 1,
    decreases attempts.len(),
{
    if attempts.len() > 0 {
        let rest = attempts.drop_first();
        lemma_hooks_installed_once(flag_after_capture(hooks_installed, attempts[0]), rest);
        if !hooks_installed && attempts[0] is Err {
            if exists|i: int| 0 <= i < attempts.len() && attempts[i] is Ok {
                let i = choose|i: int| 0 <= i < attempts.len() && attempts[i] is Ok;
                assert(rest[i - 1] == attempts[i]);
            }
        }
    }
}

/// Takes one step of a capture on this thread.
///
/// `hooks_installed` is the process-wide flag; `thread` is the state of
/// the calling thread; `alloc` is the default allocator, which gives a
/// block for a layout or refuses. The step primes the reserve of the
/// thread before it lets the work run, and clears the unwinding flag once
/// the work has unwound.
pub fn step<R, B, F: Fn(Layout) -> Option<B>>(
    state: CaptureState,
    event: CaptureEvent<R>,
    hooks_installed: &mut bool,
    thread: &mut ThreadPanic<B>,
    alloc: F,
) -> (next: (CaptureState, CaptureAction<R>))
    requires
        admits(state, event),
        forall|layout: Layout| call_requires(alloc, (layout,)),
    ensures
        transition(state, *old(hooks_installed), event, priming_result(final(thread)@.reserve)) == (
        Step { state: next.0, hooks_installed: *final(hooks_installed), action: next.1 }),
        primes(state, *old(hooks_installed), event) ==> priming(
            old(thread)@.reserve,
            final(thread)@.reserve,
            alloc,
        ),
        !primes(state, *old(hooks_installed), event) ==> final(thread)@.reserve
            == old(thread)@.reserve,
        final(thread)@.unwinding == (old(thread)@.unwinding && !(event is Unwound)),
{
    match event {
        CaptureEvent::Enter => {
            if !*hooks_installed {
                return (CaptureState::Installing, CaptureAction::InstallHooks);
            }
            prime(thread, alloc)
        },
        CaptureEvent::HooksInstalled => {
            *hooks_installed = true;
            prime(thread, alloc)
        },
        CaptureEvent::HooksFailed(layout) => (
            CaptureState::Done,
            CaptureAction::Return(Err(AllocError::new(layout))),
        ),
        CaptureEvent::Completed(value) => (CaptureState::Done, CaptureAction::Return(Ok(value))),
        CaptureEvent::Unwound(e) => {
            thread.unset_panic();
            (CaptureState::Done, CaptureAction::Return(Err(e)))
        },
    }
}

/// Primes the reserve of the thread and decides whether the work may run.
fn prime<R, B, F: Fn(Layout) -> Option<B>>(thread: &mut ThreadPanic<B>, alloc: F) -> (next: (
    CaptureState,
    CaptureAction<R>,
))
    requires
        forall|layout: Layout| call_requires(alloc, (layout,)),
    ensures
        after_priming::<R>(priming_result(final(thread)@.reserve)) == (Step {
            state: next.0,
            hooks_installed: true,
            action: next.1,
        }),
        priming(old(thread)@.reserve, final(thread)@.reserve, alloc),
        final(thread)@.unwinding == old(thread)@.unwinding,
{
    match thread.try_reserve_mem(alloc) {
        Ok(()) => (CaptureState::Running, CaptureAction::Run),
        Err(e) => (CaptureState::Done, CaptureAction::Return(Err(e))),
    }
}

} // verus!
