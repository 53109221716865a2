use vstd::prelude::*;
use crate::config::Config;
use crate::errors::TodoAppError;

verus! {

/// The steps of first-use initialization, in order: open the connection,
/// sign in (only when both credentials are configured), then select the
/// namespace and database. The driver performs each step against the
/// configured backend and reports back whether it succeeded.
#[derive(Clone, Copy, Debug, PartialEq, Eq, Structural)]
pub enum InitStep {
    Connect,
    Signin,
    SelectDb,
    Complete,
}

/// The cause a failure of each initialization step carries.
pub open spec fn spec_failure_cause(step: InitStep) -> Seq<char> {
    match step {
        InitStep::Connect => "couldn't connect"@,
        InitStep::Signin => "couldn't signin"@,
        InitStep::SelectDb => "couldn't find db"@,
        InitStep::Complete => ""@,
    }
}

/// Decide what follows a finished initialization step. Success walks the
/// fixed sequence — skipping signin when no credentials are configured —
/// and failure of any step becomes a distinct `BackendUnavailable`
/// carrying that step's cause; all three failures look alike to callers.
pub fn next_init_step(config: &Config, step: InitStep, succeeded: bool) -> (r: Result<
    InitStep,
    TodoAppError,
>)
    requires
        step != InitStep::Complete,
    ensures
        succeeded ==> r == Ok::<InitStep, TodoAppError>(
            match step {
                InitStep::Connect => (if config.wants_signin() {
                    InitStep::Signin
                } else {
                    InitStep::SelectDb
                }),
                InitStep::Signin => InitStep::SelectDb,
                InitStep::SelectDb => InitStep::Complete,
                InitStep::Complete => InitStep::Complete,
            },
        ),
        !succeeded ==> (r matches Err(e) && e matches TodoAppError::BackendUnavailable(c) && c@
            == spec_failure_cause(step)),
{
    if succeeded {
        match step {
            InitStep::Connect => {
                let signin = match (&config.username, &config.password) {
                    (Some(_), Some(_)) => true,
                    _ => false,
                };
                if signin {
                    Ok(InitStep::Signin)
                } else {
                    Ok(InitStep::SelectDb)
                }
            },
            InitStep::Signin => Ok(InitStep::SelectDb),
            InitStep::SelectDb => Ok(InitStep::Complete),
            InitStep::Complete => Ok(InitStep::Complete),
        }
    } else {
        match step {
            InitStep::Connect => Err(
                TodoAppError::BackendUnavailable("couldn't connect".to_owned()),
            ),
            InitStep::Signin => Err(
                TodoAppError::BackendUnavailable("couldn't signin".to_owned()),
            ),
            InitStep::SelectDb => Err(
                TodoAppError::BackendUnavailable("couldn't find db".to_owned()),
            ),
            InitStep::Complete => Err(
                TodoAppError::BackendUnavailable("couldn't connect".to_owned()),
            ),
        }
    }
}

/// The memoized backend handle: created lazily on first use, cached for
/// the rest of the session, and never torn down. A failed initialization
/// is not cached, so the next caller retries from scratch; once a handle
/// is stored it is returned unconditionally forever after.
#[derive(Debug)]
pub struct HandleProvider<H> {
    pub handle: Option<H>,
}

impl<H> HandleProvider<H> {
    /// A fresh session: no handle yet.
    pub fn new() -> (p: Self)
        ensures
            p.handle is None,
    {
        HandleProvider { handle: None }
    }

    /// The cached handle, if a first use already initialized one.
    pub fn cached(&self) -> (r: Option<&H>)
        ensures
            (match r {
                Some(h) => self.handle == Some(*h),
                None => self.handle is None,
            }),
    {
        match &self.handle {
            Some(h) => Some(h),
            None => None,
        }
    }

    /// Record the outcome of a first-use initialization. Only the first
    /// successful attempt is retained: a handle already cached stays
    /// untouched whatever `outcome` says, a success is stored for every
    /// later call, and a failure is returned to the caller with nothing
    /// cached — the next call starts initialization over.
    pub fn record(&mut self, outcome: Result<H, TodoAppError>) -> (r: Result<(), TodoAppError>)
        ensures
            old(self).handle is Some ==> (*final(self) == *old(self) && r is Ok),
            old(self).handle is None ==> (match outcome {
                Ok(h) => final(self).handle == Some(h) && r is Ok,
                Err(e) => final(self).handle is None && r == Err::<(), TodoAppError>(e),
            }),
    {
        if self.handle.is_some() {
            return Ok(());
        }
        match outcome {
            Ok(h) => {
                self.handle = Some(h);
                Ok(())
            },
            Err(e) => Err(e),
        }
    }
}

} // verus!
