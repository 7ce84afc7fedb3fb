use crate::application::Application;
use crate::command::Command;
use vstd::prelude::*;

verus! {

/// Dispatch of commands against the state of an application.
///
/// A runtime reads the application's environment and forwards it, with a
/// context, to the command. It retries nothing, caches nothing and changes
/// neither the application nor the context.
pub trait Runtime<App: Application> {
    /// The context that this runtime hands to a command.
    spec fn context(&self) -> &App::Ctx;

    /// The environment that this runtime hands to a command.
    spec fn environment(&self) -> &App::Env;

    /// The context and the environment of one dispatch, in this order.
    fn dispatch_inputs(&self) -> (inputs: (&App::Ctx, &App::Env))
        ensures
            inputs.0 == self.context(),
            inputs.1 == self.environment(),
    ;

    /// Runs `cmd` on this runtime's context and environment and returns its
    /// result untouched.
    fn run_command<T>(&self, cmd: &T) -> (r: Result<T::Success, T::Failure>) where T: Command<App>
        ensures
            r == cmd.outcome(self.context(), self.environment()),
    ;
}

/// A runtime over a borrowed application and a borrowed context. It cannot
/// outlive either.
#[derive(Debug)]
pub struct BorrowedRuntime<'a, App> where App: Application {
    application: &'a App,
    context: &'a App::Ctx,
}

impl<'a, App> BorrowedRuntime<'a, App> where App: Application {
    /// The application that commands are run against.
    pub closed spec fn application(&self) -> &App {
        self.application
    }

    /// Binds an application and a context for the scope of the two borrows.
    pub fn new(application: &'a App, context: &'a App::Ctx) -> (rt: Self)
        ensures
            rt.application() == application,
            rt.context() == context,
    {
        Self { application, context }
    }
}

impl<'a, App: Application> Clone for BorrowedRuntime<'a, App> {
    /// A second runtime over the same two borrows.
    fn clone(&self) -> (copy: Self)
        ensures
            copy.application() == self.application(),
            copy.context() == self.context(),
    {
        Self { application: self.application, context: self.context }
    }
}

impl<'a, App: Application> Runtime<App> for BorrowedRuntime<'a, App> {
    closed spec fn context(&self) -> &App::Ctx {
        self.context
    }

    open spec fn environment(&self) -> &App::Env {
        self.application().environment()
    }

    fn dispatch_inputs(&self) -> (inputs: (&App::Ctx, &App::Env)) {
        (self.context, self.application.env())
    }

    fn run_command<T>(&self, cmd: &T) -> (r: Result<T::Success, T::Failure>) where T: Command<App> {
        cmd.call(self.context, self.application.env())
    }
}

/// Dispatch is forwarding: what any runtime returns for a command is what
/// the command itself returns on that runtime's context and environment.
pub proof fn lemma_dispatch_forwards<App: Application, R: Runtime<App>, T: Command<App>>(
    runtime: R,
    cmd: T,
    dispatched: Result<T::Success, T::Failure>,
    direct: Result<T::Success, T::Failure>,
)
    requires
        call_ensures(<R as Runtime<App>>::run_command::<T>, (&runtime, &cmd), dispatched),
        call_ensures(
            <T as Command<App>>::call,
            (&cmd, runtime.context(), runtime.environment()),
            direct,
        ),
    ensures
        dispatched == direct,
{
}

} // verus!
