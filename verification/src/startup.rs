use vstd::prelude::*;

use crate::http::ServiceError;

verus! {

/// The startup sequence's phases, in strict order: configuration read, pool
/// initialized, socket bound and accepting. A fatal failure at either step
/// ends in `Failed` with the step's error.
#[derive(Clone, Copy, Debug, PartialEq, Eq, Structural)]
pub enum Startup {
    Init,
    PoolReady,
    Accepting,
    Failed(ServiceError),
}

/// The outcome of one startup step, reported by the process driving the
/// sequence: whether the backend connection attempt succeeded, and whether
/// binding the listening socket succeeded.
#[derive(Clone, Copy, Debug, PartialEq, Eq, Structural)]
pub enum StartupEvent {
    PoolInit(bool),
    Bind(bool),
}

/// One startup step. The order is strict: the pool comes up before the
/// socket is bound; an out-of-order event changes nothing, and failure is
/// final — there is no retry and no degraded mode.
pub open spec fn startup_step(s: Startup, ev: StartupEvent) -> Startup {
    match s {
        Startup::Init => match ev {
            StartupEvent::PoolInit(ok) => if ok {
                Startup::PoolReady
            } else {
                Startup::Failed(ServiceError::ConnectionError)
            },
            _ => s,
        },
        Startup::PoolReady => match ev {
            StartupEvent::Bind(ok) => if ok {
                Startup::Accepting
            } else {
                Startup::Failed(ServiceError::BindError)
            },
            _ => s,
        },
        Startup::Accepting => s,
        Startup::Failed(_) => s,
    }
}

/// Runs the startup machine over a sequence of events.
pub open spec fn startup_run(s: Startup, evs: Seq<StartupEvent>) -> Startup
    decreases evs.len(),
{
    if evs.len() == 0 {
        s
    } else {
        startup_run(startup_step(s, evs[0]), evs.drop_first())
    }
}

/// Advances the startup sequence by one reported outcome.
pub fn step(s: Startup, ev: StartupEvent) -> (r: Startup)
    ensures
        r == startup_step(s, ev),
{
    match s {
        Startup::Init => match ev {
            StartupEvent::PoolInit(ok) => if ok {
                Startup::PoolReady
            } else {
                Startup::Failed(ServiceError::ConnectionError)
            },
            _ => s,
        },
        Startup::PoolReady => match ev {
            StartupEvent::Bind(ok) => if ok {
                Startup::Accepting
            } else {
                Startup::Failed(ServiceError::BindError)
            },
            _ => s,
        },
        Startup::Accepting => s,
        Startup::Failed(_) => s,
    }
}

/// Failure is absorbing: once startup has failed, no later event moves it
/// anywhere else — in particular it never reaches `Accepting`.
pub proof fn lemma_failed_is_absorbing(e: ServiceError, evs: Seq<StartupEvent>)
    ensures
        startup_run(Startup::Failed(e), evs) == Startup::Failed(e),
    decreases evs.len(),
{
    if evs.len() > 0 {
        lemma_failed_is_absorbing(e, evs.drop_first());
    }
}

/// An unreachable backend fails startup before any accepting: when the pool
/// initialization reports failure, the whole run ends in
/// `Failed(ConnectionError)` — the listening socket is never reached while
/// the pool is unusable.
pub proof fn lemma_unreachable_backend_never_accepts(evs: Seq<StartupEvent>)
    requires
        evs.len() > 0,
        evs[0] == StartupEvent::PoolInit(false),
    ensures
        startup_run(Startup::Init, evs) == Startup::Failed(ServiceError::ConnectionError),
{
    lemma_failed_is_absorbing(ServiceError::ConnectionError, evs.drop_first());
}

/// `Accepting` is reached only after a successful pool initialization: every
/// event sequence that takes startup from `Init` to `Accepting` contains a
/// successful `PoolInit`.
pub proof fn lemma_accepting_requires_pool_success(evs: Seq<StartupEvent>)
    requires
        startup_run(Startup::Init, evs) == Startup::Accepting,
    ensures
        exists|i: int| 0 <= i < evs.len() && evs[i] == StartupEvent::PoolInit(true),
    decreases evs.len(),
{
    let s1 = startup_step(Startup::Init, evs[0]);
    if s1 == Startup::PoolReady {
        assert(evs[0] == StartupEvent::PoolInit(true));
    } else if s1 is Failed {
        lemma_failed_is_absorbing(s1->0, evs.drop_first());
        assert(false);
    } else {
        lemma_accepting_requires_pool_success(evs.drop_first());
        let j = choose|j: int|
            0 <= j < evs.drop_first().len() && evs.drop_first()[j] == StartupEvent::PoolInit(
                true,
            );
        assert(evs[j + 1] == StartupEvent::PoolInit(true));
    }
}

} // verus!
