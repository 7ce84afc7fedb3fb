use crate::error_compatible::ErrorCompatible;
use crate::serde_compatible::SerdeCompatible;
use crate::stable::Stable;
use vstd::prelude::*;

verus! {

/// One coherent application definition: how it is built from a configuration,
/// and the environment that it shares with every command run against it.
pub trait Application: Sized + Stable {
    /// Configuration needed by the application to run.
    type Config: Stable + SerdeCompatible;

    /// Failure of the constructor.
    type Error: ErrorCompatible;

    /// State shared by all commands, read-only for the application's lifetime.
    type Env: Stable;

    /// State scoped to one execution.
    type Ctx: Stable;

    /// Whether `outcome` is a result that constructing the application from
    /// `config` may give. Construction may consult the system it runs on, so
    /// this is a relation between the two and not a function of `config`.
    spec fn initializes(config: Self::Config, outcome: Result<Self, Self::Error>) -> bool;

    /// The environment of this instance.
    spec fn environment(&self) -> &Self::Env;

    /// The sole constructor. It hands back a complete application or the
    /// error, never a partly built instance.
    fn init(config: Self::Config) -> (outcome: Result<Self, Self::Error>)
        ensures
            Self::initializes(config, outcome),
    ;

    /// Pure accessor for the environment. The result is a function of the
    /// instance alone, so every call on one instance yields the same
    /// environment.
    fn env(&self) -> (env: &Self::Env)
        ensures
            env == self.environment(),
    ;
}

/// Two calls of `env` on one instance return equal environments.
pub proof fn lemma_env_stable<App: Application>(app: App, first: &App::Env, second: &App::Env)
    requires
        call_ensures(App::env, (&app,), first),
        call_ensures(App::env, (&app,), second),
    ensures
        first == second,
        first == app.environment(),
{
}

} // verus!
