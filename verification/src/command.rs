use crate::application::Application;
use crate::error_compatible::ErrorCompatible;
use crate::serde_compatible::SerdeCompatible;
use crate::stable::Stable;
use vstd::prelude::*;

verus! {

/// A unit of logic that runs against every application able to supply the
/// resources it asks for.
///
/// A command is bound to an application through bounds on `App::Ctx` and
/// `App::Env` (see [`crate::Resource`]), never by naming a concrete
/// application, so one definition serves many applications.
pub trait Command<App: Application>: Stable + SerdeCompatible {
    /// Success case the command returns.
    type Success: SerdeCompatible;

    /// Failure the command can return.
    type Failure: ErrorCompatible;

    /// What the command yields on a context and an environment. It depends on
    /// the command's own fields and on these two arguments and on nothing
    /// else.
    spec fn outcome(&self, ctx: &App::Ctx, env: &App::Env) -> Result<Self::Success, Self::Failure>;

    /// Runs the command. Equal commands on equal contexts and environments
    /// give equal results.
    fn call(&self, ctx: &App::Ctx, env: &App::Env) -> (r: Result<Self::Success, Self::Failure>)
        ensures
            r == self.outcome(ctx, env),
    ;
}

/// Equal commands on the same context and environment return equal results.
/// A command that was stored or sent and restored to an equal value therefore
/// behaves as it did before.
pub proof fn lemma_equal_commands_agree<App: Application, T: Command<App>>(
    cmd: T,
    restored: T,
    ctx: App::Ctx,
    env: App::Env,
    first: Result<T::Success, T::Failure>,
    second: Result<T::Success, T::Failure>,
)
    requires
        restored == cmd,
        call_ensures(<T as Command<App>>::call, (&cmd, &ctx, &env), first),
        call_ensures(<T as Command<App>>::call, (&restored, &ctx, &env), second),
    ensures
        first == second,
{
}

} // verus!
