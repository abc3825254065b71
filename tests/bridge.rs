use greet_bridge::bootstrap::{Action, Bootstrap, BuildMode, Event, Phase};
use greet_bridge::bridge::{dispatch, invoke_greet, string_arg, Routed};
use greet_bridge::error::{ArgProblem, InvokeError, StartupError};
use greet_bridge::greet::greet;
use greet_bridge::registry::{Handler, Module, Registry};
use greet_bridge::value::{Args, Value, ValueKind};

fn running_registry() -> Bootstrap {
    let mut boot = Bootstrap::new(BuildMode::Release);
    assert!(matches!(boot.start(), Action::InstallFilesystem));
    let a = boot.handle(Event::Installed { module: Module::Filesystem, commands: Vec::new() });
    assert!(matches!(a, Action::BuildRegistry));
    assert!(matches!(boot.register_commands(), Action::Serve));
    assert_eq!(boot.phase(), Phase::Running);
    boot
}

fn name_args(name: &str) -> Args {
    Args::new().with("name".to_string(), Value::Str(name.to_string()))
}

fn reply_text(r: Routed) -> String {
    match r {
        Routed::Reply(Ok(Value::Str(s))) => s,
        other => panic!("expected a string reply, got {:?}", other),
    }
}

fn reply_error(r: Routed) -> InvokeError {
    match r {
        Routed::Reply(Err(e)) => e,
        other => panic!("expected an error reply, got {:?}", other),
    }
}

#[test]
fn greet_fills_the_template() {
    assert_eq!(greet("World"), "Hello, World! You've been greeted from Rust!");
}

#[test]
fn greet_accepts_an_empty_name() {
    assert_eq!(greet(""), "Hello, ! You've been greeted from Rust!");
}

#[test]
fn greet_keeps_the_name_verbatim() {
    assert_eq!(greet("Ünïcode  x"), "Hello, Ünïcode  x! You've been greeted from Rust!");
}

#[test]
fn dispatch_greet_world() {
    let boot = running_registry();
    let r = dispatch(boot.registry(), "greet", &name_args("World"));
    assert_eq!(reply_text(r), "Hello, World! You've been greeted from Rust!");
}

#[test]
fn dispatch_greet_empty_name() {
    let boot = running_registry();
    let r = dispatch(boot.registry(), "greet", &name_args(""));
    assert_eq!(reply_text(r), "Hello, ! You've been greeted from Rust!");
}

#[test]
fn dispatch_greet_without_name_is_invalid_arguments() {
    let boot = running_registry();
    let e = reply_error(dispatch(boot.registry(), "greet", &Args::new()));
    assert_eq!(e.kind(), "invalid_arguments");
    assert_eq!(e.message(), "missing argument: name");
    match e {
        InvokeError::InvalidArguments { field, problem } => {
            assert_eq!(field, "name");
            assert_eq!(problem, ArgProblem::Missing);
        }
        other => panic!("unexpected error {:?}", other),
    }
}

#[test]
fn dispatch_greet_with_wrong_type_names_the_field() {
    let boot = running_registry();
    let args = Args::new().with("name".to_string(), Value::Int(42));
    let e = reply_error(dispatch(boot.registry(), "greet", &args));
    assert_eq!(e.kind(), "invalid_arguments");
    assert_eq!(e.message(), "wrong type for argument: name");
    match e {
        InvokeError::InvalidArguments { field, problem } => {
            assert_eq!(field, "name");
            assert_eq!(
                problem,
                ArgProblem::WrongType { expected: ValueKind::Str, found: ValueKind::Int }
            );
        }
        other => panic!("unexpected error {:?}", other),
    }
}

#[test]
fn dispatch_unknown_command() {
    let boot = running_registry();
    let e = reply_error(dispatch(boot.registry(), "unknown_cmd", &Args::new()));
    assert_eq!(e.kind(), "unknown_command");
    assert_eq!(e.message(), "unknown command: unknown_cmd");
}

#[test]
fn dispatch_on_empty_registry_is_unknown() {
    let reg = Registry::new();
    let e = reply_error(dispatch(&reg, "greet", &name_args("World")));
    assert!(matches!(e, InvokeError::UnknownCommand { ref name } if name == "greet"));
}

#[test]
fn dispatch_forwards_module_commands() {
    let mut reg = Registry::new();
    let cmds = vec!["plugin:fs|read_file".to_string(), "plugin:fs|write_file".to_string()];
    assert!(reg.install_module(Module::Filesystem, &cmds).is_ok());
    match dispatch(&reg, "plugin:fs|write_file", &Args::new()) {
        Routed::Forward { module, command } => {
            assert_eq!(module, Module::Filesystem);
            assert_eq!(command, 1);
        }
        other => panic!("expected a forward, got {:?}", other),
    }
}

#[test]
fn later_argument_overrides_earlier() {
    let args = name_args("first").with("name".to_string(), Value::Str("second".to_string()));
    assert_eq!(string_arg(&args, "name").unwrap(), "second");
}

#[test]
fn args_get_reads_each_key() {
    let args = Args::new()
        .with("a".to_string(), Value::Bool(true))
        .with("b".to_string(), Value::Null);
    assert!(matches!(args.get("a"), Some(Value::Bool(true))));
    assert!(matches!(args.get("b"), Some(Value::Null)));
    assert!(args.get("c").is_none());
    assert_eq!(args.get("b").unwrap().kind(), ValueKind::Null);
}

#[test]
fn invoke_greet_directly() {
    match invoke_greet(&name_args("Ada")) {
        Ok(Value::Str(s)) => assert_eq!(s, "Hello, Ada! You've been greeted from Rust!"),
        other => panic!("unexpected reply {:?}", other),
    }
}

#[test]
fn handler_error_keeps_its_message() {
    let e = InvokeError::Handler { message: "disk full".to_string() };
    assert_eq!(e.kind(), "handler_error");
    assert_eq!(e.message(), "disk full");
}

#[test]
fn register_rejects_a_taken_name() {
    let mut reg = Registry::new();
    assert!(reg.register("greet".to_string(), Handler::Greet).is_ok());
    let r = reg.register(
        "greet".to_string(),
        Handler::Module { module: Module::Filesystem, command: 0 },
    );
    assert!(matches!(r, Err(StartupError::DuplicateCommand { ref name }) if name == "greet"));
    assert_eq!(reg.len(), 1);
    assert!(matches!(reg.resolve("greet"), Ok(Handler::Greet)));
}

#[test]
fn resolve_unknown_is_typed_error() {
    let reg = Registry::new();
    assert!(matches!(reg.resolve("nope"), Err(InvokeError::UnknownCommand { ref name }) if name == "nope"));
}

#[test]
fn install_module_rejects_repeated_names() {
    let mut reg = Registry::new();
    let cmds = vec!["a".to_string(), "b".to_string(), "a".to_string()];
    let r = reg.install_module(Module::Filesystem, &cmds);
    assert!(matches!(r, Err(StartupError::DuplicateCommand { ref name }) if name == "a"));
}

#[test]
fn install_module_rejects_names_already_taken() {
    let mut reg = Registry::new();
    assert!(reg.register("b".to_string(), Handler::Greet).is_ok());
    let cmds = vec!["a".to_string(), "b".to_string()];
    let r = reg.install_module(Module::Logging, &cmds);
    assert!(matches!(r, Err(StartupError::DuplicateCommand { ref name }) if name == "b"));
}
