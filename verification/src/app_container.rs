use crate::application::Application;
use crate::command::Command;
use crate::runtime::{BorrowedRuntime, Runtime};
use vstd::prelude::*;

verus! {

/// An application together with a default context: a runtime that needs no
/// context supplied at each dispatch.
#[derive(Debug)]
pub struct AppContainer<App: Application> {
    app: App,
    default_context: App::Ctx,
}

impl<App: Application> AppContainer<App> {
    /// The application that this container owns.
    pub closed spec fn application(&self) -> &App {
        &self.app
    }

    /// The context used where none is substituted.
    pub closed spec fn default_context(&self) -> &App::Ctx {
        &self.default_context
    }

    /// Starts a container with `ctx` as its default context. The builder
    /// still needs the application: see [`AppContainerBuilder::init`].
    pub fn with_default_context(ctx: App::Ctx) -> (builder: AppContainerBuilder<App>)
        ensures
            builder.default_context() == ctx,
    {
        AppContainerBuilder { default_context: ctx }
    }

    /// A runtime over this container's application that uses `ctx` in place
    /// of the default context. The container itself is left as it is.
    pub fn with_context<'a>(&'a self, ctx: &'a App::Ctx) -> (rt: BorrowedRuntime<'a, App>)
        ensures
            rt.application() == self.application(),
            rt.context() == ctx,
    {
        BorrowedRuntime::new(&self.app, ctx)
    }
}

impl<App: Application> Clone for AppContainer<App> {
    /// A container over a clone of the application and a clone of the
    /// default context.
    fn clone(&self) -> (copy: Self)
        ensures
            cloned(*self.application(), *copy.application()),
            cloned(*self.default_context(), *copy.default_context()),
    {
        Self { app: self.app.clone(), default_context: self.default_context.clone() }
    }
}

impl<App: Application> Runtime<App> for AppContainer<App> {
    open spec fn context(&self) -> &App::Ctx {
        self.default_context()
    }

    open spec fn environment(&self) -> &App::Env {
        self.application().environment()
    }

    fn dispatch_inputs(&self) -> (inputs: (&App::Ctx, &App::Env)) {
        (&self.default_context, self.app.env())
    }

    fn run_command<T>(&self, cmd: &T) -> (r: Result<T::Success, T::Failure>) where T: Command<App> {
        cmd.call(&self.default_context, self.app.env())
    }
}

/// A container that has its default context and still lacks its application.
#[derive(Debug)]
pub struct AppContainerBuilder<App: Application> {
    default_context: App::Ctx,
}

impl<App: Application> AppContainerBuilder<App> {
    /// The context that the finished container will use by default.
    pub closed spec fn default_context(&self) -> &App::Ctx {
        &self.default_context
    }

    /// Finishes the container from the outcome of the application's
    /// constructor: a container around the application and the builder's
    /// context, or the constructor's error as it came.
    pub fn complete(self, outcome: Result<App, App::Error>) -> (r: Result<
        AppContainer<App>,
        App::Error,
    >)
        ensures
            match (outcome, r) {
                (Ok(app), Ok(container)) => container.application() == app
                    && container.default_context() == self.default_context(),
                (Err(error), Err(failure)) => failure == error,
                _ => false,
            },
    {
        match outcome {
            Ok(app) => Ok(AppContainer { app, default_context: self.default_context }),
            Err(error) => Err(error),
        }
    }

    /// Constructs the application from `config` and finishes the container.
    /// The container holds exactly the application that the constructor gave,
    /// beside the builder's context; a failure is the constructor's own.
    pub fn init(self, config: App::Config) -> (r: Result<AppContainer<App>, App::Error>)
        ensures
            match r {
                Ok(container) => App::initializes(config, Ok(*container.application()))
                    && container.default_context() == self.default_context(),
                Err(error) => App::initializes(config, Err(error)),
            },
    {
        let outcome = App::init(config);
        self.complete(outcome)
    }
}

/// A borrowed runtime and a container that hold equal applications and equal
/// contexts give the same result for the same command: whatever `first` the
/// borrowed runtime returns and whatever `second` the container returns, the
/// two are equal.
pub proof fn lemma_dispatch_equivalence<App: Application, T: Command<App>>(
    borrowed: BorrowedRuntime<'_, App>,
    owning: AppContainer<App>,
    cmd: T,
    first: Result<T::Success, T::Failure>,
    second: Result<T::Success, T::Failure>,
)
    requires
        borrowed.application() == owning.application(),
        borrowed.context() == owning.default_context(),
        call_ensures(
            <BorrowedRuntime<'_, App> as Runtime<App>>::run_command::<T>,
            (&borrowed, &cmd),
            first,
        ),
        call_ensures(
            <AppContainer<App> as Runtime<App>>::run_command::<T>,
            (&owning, &cmd),
            second,
        ),
    ensures
        first == second,
        first == cmd.outcome(owning.default_context(), owning.application().environment()),
{
}

/// Substituting a context changes one dispatch and nothing else: a command
/// run through `with_context(ctx)` sees `ctx`, and the same command run on
/// the container itself still sees the default context. Both see the
/// container's own environment.
pub proof fn lemma_context_substitution<App: Application, T: Command<App>>(
    owning: AppContainer<App>,
    ctx: App::Ctx,
    substitute: BorrowedRuntime<'_, App>,
    cmd: T,
    substituted: Result<T::Success, T::Failure>,
    plain: Result<T::Success, T::Failure>,
)
    requires
        call_ensures(AppContainer::<App>::with_context, (&owning, &ctx), substitute),
        call_ensures(
            <BorrowedRuntime<'_, App> as Runtime<App>>::run_command::<T>,
            (&substitute, &cmd),
            substituted,
        ),
        call_ensures(
            <AppContainer<App> as Runtime<App>>::run_command::<T>,
            (&owning, &cmd),
            plain,
        ),
    ensures
        substituted == cmd.outcome(&ctx, owning.application().environment()),
        plain == cmd.outcome(owning.default_context(), owning.application().environment()),
{
}

} // verus!
