use ironx::{AppContainer, Application, Command, ErrorCompatible, Resource, Runtime, SerdeCompatible};

#[derive(Debug, Clone, PartialEq)]
struct Name(String);

#[derive(Debug, Clone, PartialEq)]
struct Port(u16);

/// An environment that exposes two resources of different types.
#[derive(Debug, Clone, PartialEq)]
struct Settings {
    name: Name,
    port: Port,
}

impl Resource<Name> for Settings {
    fn resolved(&self) -> &Name {
        &self.name
    }

    fn resource(&self) -> &Name {
        &self.name
    }
}

impl Resource<Port> for Settings {
    fn resolved(&self) -> &Port {
        &self.port
    }

    fn resource(&self) -> &Port {
        &self.port
    }
}

#[derive(Debug, Clone, PartialEq)]
struct Never;

impl ErrorCompatible for Never {}

#[derive(Debug, Clone, PartialEq)]
struct Server(Settings);

impl Application for Server {
    type Config = u16;
    type Error = Never;
    type Env = Settings;
    type Ctx = Name;

    fn initializes(config: u16, outcome: Result<Self, Never>) -> bool {
        match outcome {
            Ok(server) => server.0.name.0 == "edge" && server.0.port.0 == config,
            Err(_) => false,
        }
    }

    fn environment(&self) -> &Settings {
        &self.0
    }

    fn init(config: u16) -> Result<Self, Never> {
        Ok(Server(Settings {
            name: Name("edge".to_string()),
            port: Port(config),
        }))
    }

    fn env(&self) -> &Settings {
        &self.0
    }
}

#[derive(Debug, Clone, PartialEq)]
struct Describe;

impl SerdeCompatible for Describe {}

impl<App> Command<App> for Describe
where
    App: Application,
    App::Ctx: Resource<Name>,
    App::Env: Resource<Name> + Resource<Port>,
{
    type Success = String;
    type Failure = Never;

    fn outcome(&self, ctx: &App::Ctx, env: &App::Env) -> Result<String, Never> {
        Command::<App>::call(self, ctx, env)
    }

    fn call(&self, ctx: &App::Ctx, env: &App::Env) -> Result<String, Never> {
        let caller: &Name = ctx.resource();
        let server: &Name = env.resource();
        let port: &Port = env.resource();
        Ok(format!("{} asks {}:{}", caller.0, server.0, port.0))
    }
}

#[test]
fn composite_environment_resolves_each_exposed_type() {
    let settings = Settings {
        name: Name("edge".to_string()),
        port: Port(8080),
    };
    let name: &Name = settings.resource();
    let port: &Port = settings.resource();
    let whole: &Settings = settings.resource();
    assert_eq!(name, &Name("edge".to_string()));
    assert_eq!(port, &Port(8080));
    assert_eq!(whole, &settings);
}

#[test]
fn command_runs_against_a_second_application() {
    let app = AppContainer::<Server>::with_default_context(Name("ops".to_string()))
        .init(8080)
        .expect("the server always initialises");
    assert_eq!(
        app.run_command(&Describe),
        Ok("ops asks edge:8080".to_string())
    );
    let guest = Name("guest".to_string());
    assert_eq!(
        app.with_context(&guest).run_command(&Describe),
        Ok("guest asks edge:8080".to_string())
    );
}
