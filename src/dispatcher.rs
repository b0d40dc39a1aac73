use vstd::prelude::*;

verus! {

/// What a setup call asks for: the configuration's checksum, whether it
/// allows reconfiguration, and whether it names signals to listen on.
#[derive(Clone, Copy, Debug, PartialEq, Eq, Structural)]
pub struct SetupRequest {
    pub checksum: u64,
    pub dynamic: bool,
    pub has_signals: bool,
}

/// The work a setup call has to do, decided under the setup lock.
#[derive(Clone, Copy, Debug, PartialEq, Eq, Structural)]
pub enum SetupStep {
    /// First setup: build and open every sink, then install the dispatcher.
    Install,
    /// Same configuration: open every live sink again and keep it all.
    Reopen,
    /// Changed configuration on a dynamic dispatcher: build and open a new
    /// sink collection, then swap it in whole.
    Swap,
    /// Changed configuration on a dispatcher that is not dynamic: refuse.
    Reject,
}

#[derive(Clone, Copy, Debug, PartialEq, Eq, Structural)]
pub enum SetupError {
    /// A sink could not be opened; nothing changed.
    OpenFailed,
    /// The configuration changed under a dispatcher that is set up once.
    ConfigChanged,
}

/// What the caller does after a setup call, besides the step itself.
#[derive(Clone, Copy, Debug)]
pub struct SetupEffects {
    /// `Ok(true)` on first setup, `Ok(false)` on a later one.
    pub result: Result<bool, SetupError>,
    /// Register the dispatcher as the process's logger and install the panic hook.
    pub register: bool,
    /// Set the global maximum level from the new configuration.
    pub reset_max_level: bool,
    /// Start the signal listener thread.
    pub spawn_listener: bool,
}

/// The process-wide dispatcher's lifecycle: uninitialized, then set up once
/// (terminal) or set up dynamically (reconfigurable).
#[derive(Clone, Copy, Debug, PartialEq, Eq, Structural)]
pub struct DispatcherState {
    pub initialized: bool,
    pub dynamic: bool,
    pub checksum: u64,
    pub listener_started: bool,
}

pub open spec fn plan_of(s: DispatcherState, req: SetupRequest) -> SetupStep {
    if !s.initialized {
        SetupStep::Install
    } else if s.checksum == req.checksum {
        SetupStep::Reopen
    } else if req.dynamic && s.dynamic {
        SetupStep::Swap
    } else {
        SetupStep::Reject
    }
}

pub open spec fn no_effects(result: Result<bool, SetupError>) -> SetupEffects {
    SetupEffects { result, register: false, reset_max_level: false, spawn_listener: false }
}

/// The state and the effects after `step` was carried out, `ok` telling
/// whether its opens succeeded.
pub open spec fn after_setup(s: DispatcherState, req: SetupRequest, step: SetupStep, ok: bool) -> (
    DispatcherState,
    SetupEffects,
) {
    match step {
        SetupStep::Install => if ok {
            let spawn = req.has_signals && !s.listener_started;
            (
                DispatcherState {
                    initialized: true,
                    dynamic: req.dynamic,
                    checksum: req.checksum,
                    listener_started: s.listener_started || spawn,
                },
                SetupEffects {
                    result: Ok(true),
                    register: true,
                    reset_max_level: true,
                    spawn_listener: spawn,
                },
            )
        } else {
            (s, no_effects(Err(SetupError::OpenFailed)))
        },
        SetupStep::Reopen => if ok {
            (s, no_effects(Ok(false)))
        } else {
            (s, no_effects(Err(SetupError::OpenFailed)))
        },
        SetupStep::Swap => if ok {
            (
                DispatcherState { checksum: req.checksum, ..s },
                SetupEffects {
                    result: Ok(false),
                    register: false,
                    reset_max_level: true,
                    spawn_listener: false,
                },
            )
        } else {
            (s, no_effects(Err(SetupError::OpenFailed)))
        },
        SetupStep::Reject => (s, no_effects(Err(SetupError::ConfigChanged))),
    }
}

impl DispatcherState {
    pub fn new() -> (r: Self)
        ensures
            !r.initialized,
            !r.listener_started,
    {
        DispatcherState { initialized: false, dynamic: false, checksum: 0, listener_started: false }
    }

    /// Whether a setup has succeeded, so that a handle can be given out.
    pub fn is_active(&self) -> (r: bool)
        ensures
            r == self.initialized,
    {
        self.initialized
    }

    /// Decides what a setup call with `req` has to do.
    pub fn plan(&self, req: &SetupRequest) -> (r: SetupStep)
        ensures
            r == plan_of(*self, *req),
    {
        if !self.initialized {
            SetupStep::Install
        } else if self.checksum == req.checksum {
            SetupStep::Reopen
        } else if req.dynamic && self.dynamic {
            SetupStep::Swap
        } else {
            SetupStep::Reject
        }
    }

    /// Records the outcome of `step`; `ok` tells whether its opens succeeded.
    pub fn complete(&mut self, req: &SetupRequest, step: SetupStep, ok: bool) -> (eff: SetupEffects)
        ensures
            (*final(self), eff) == after_setup(*old(self), *req, step, ok),
            eff.spawn_listener ==> !old(self).listener_started && final(self).listener_started,
            old(self).listener_started ==> final(self).listener_started,
    {
        match step {
            SetupStep::Install => {
                if ok {
                    let spawn = req.has_signals && !self.listener_started;
                    self.initialized = true;
                    self.dynamic = req.dynamic;
                    self.checksum = req.checksum;
                    self.listener_started = self.listener_started || spawn;
                    SetupEffects {
                        result: Ok(true),
                        register: true,
                        reset_max_level: true,
                        spawn_listener: spawn,
                    }
                } else {
                    SetupEffects {
                        result: Err(SetupError::OpenFailed),
                        register: false,
                        reset_max_level: false,
                        spawn_listener: false,
                    }
                }
            },
            SetupStep::Reopen => {
                let result = if ok {
                    Ok(false)
                } else {
                    Err(SetupError::OpenFailed)
                };
                SetupEffects { result, register: false, reset_max_level: false, spawn_listener: false }
            },
            SetupStep::Swap => {
                if ok {
                    self.checksum = req.checksum;
                    SetupEffects {
                        result: Ok(false),
                        register: false,
                        reset_max_level: true,
                        spawn_listener: false,
                    }
                } else {
                    SetupEffects {
                        result: Err(SetupError::OpenFailed),
                        register: false,
                        reset_max_level: false,
                        spawn_listener: false,
                    }
                }
            },
            SetupStep::Reject => SetupEffects {
                result: Err(SetupError::ConfigChanged),
                register: false,
                reset_max_level: false,
                spawn_listener: false,
            },
        }
    }
}

/// Idempotent setup: two setup calls with the same configuration, the first
/// one succeeding, start the signal listener exactly once (when signals are
/// configured, else never) and leave one and the same dispatcher: the second
/// call only reopens its sinks and changes nothing, whatever its opens give.
pub proof fn lemma_setup_idempotent(req: SetupRequest, second_ok: bool)
    ensures
        ({
            let s0 = DispatcherState {
                initialized: false,
                dynamic: false,
                checksum: 0,
                listener_started: false,
            };
            let (s1, e1) = after_setup(s0, req, plan_of(s0, req), true);
            let (s2, e2) = after_setup(s1, req, plan_of(s1, req), second_ok);
            &&& plan_of(s0, req) == SetupStep::Install
            &&& e1.result == Ok::<bool, SetupError>(true)
            &&& plan_of(s1, req) == SetupStep::Reopen
            &&& s2 == s1
            &&& e1.spawn_listener == req.has_signals
            &&& !e2.spawn_listener
            &&& !e2.register
        }),
{
}

/// The signal listener is started at most once per process: over any run
/// of setup calls, a call that starts it finds it not started yet and
/// leaves it marked started, and the mark is never cleared.
pub proof fn lemma_listener_at_most_once(s: DispatcherState, req: SetupRequest, step: SetupStep, ok: bool)
    ensures
        ({
            let (t, e) = after_setup(s, req, step, ok);
            &&& e.spawn_listener ==> !s.listener_started && t.listener_started
            &&& s.listener_started ==> t.listener_started
        }),
{
}

/// A dispatcher set up once is terminal: a setup with another checksum is
/// refused and leaves the running configuration untouched.
pub proof fn lemma_once_is_terminal(s: DispatcherState, req: SetupRequest, ok: bool)
    requires
        s.initialized,
        !s.dynamic,
        req.checksum != s.checksum,
    ensures
        plan_of(s, req) == SetupStep::Reject,
        after_setup(s, req, plan_of(s, req), ok) == (s, no_effects(Err(SetupError::ConfigChanged))),
{
}

} // verus!
