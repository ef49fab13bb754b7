use crate::compose::{DockerComposeFormat, DockerComposeFormatView};
use crate::config::{Configuration, ConfigurationView, ScopeView};
use crate::credentials::{credentials_of, registry_credentials};
use crate::exec::{remote_args, remote_path, remote_path_spec, RemoteHostCall};
use crate::flow::{
    build, build_plan, deploy, deploy_plan, generated_dir, generated_dir_path, plan_remote_step,
    push, push_plan, reaches_host_with, remote_step,
};
use crate::pipeline::{
    plan_view, steps_view, FlowError, FlowFault, PlanView, Step, StepView,
};
use crate::text::{
    join_path, join_path_spec, joined_text, optional_text, texts, trim, trimmed,
};
use vstd::prelude::*;
use vstd::string::*;

verus! {

/// The verbs of the container provider, each with its own options.
#[derive(Debug, PartialEq, Eq)]
pub enum DockerProviderCommands {
    /// Log the remote host in to the registry.
    Login {
        docker_json_file: Option<String>,
        username: Option<String>,
        password: Option<String>,
        password_stdin: bool,
        config: Option<String>,
    },
    /// Build the images.
    Build { names: Vec<String>, config: Option<String>, build_arg: Vec<String> },
    /// Push the images.
    Push { names: Vec<String>, config: Option<String>, build_arg: Vec<String> },
    /// Deploy the services.
    Deploy {
        names: Vec<String>,
        config: Option<String>,
        environment: Option<String>,
        build_arg: Vec<String>,
    },
    /// Build and push the images.
    BuildPush {
        names: Vec<String>,
        config: Option<String>,
        environment: Option<String>,
        build_arg: Vec<String>,
    },
    /// Build and push the images, and deploy the services.
    BuildPushDeploy {
        names: Vec<String>,
        config: Option<String>,
        environment: Option<String>,
        build_arg: Vec<String>,
    },
}

impl DockerProviderCommands {
    /// The configuration file that the verb's own options name.
    pub open spec fn config(self) -> Option<String> {
        match self {
            DockerProviderCommands::Login { config, .. } => config,
            DockerProviderCommands::Build { config, .. } => config,
            DockerProviderCommands::Push { config, .. } => config,
            DockerProviderCommands::Deploy { config, .. } => config,
            DockerProviderCommands::BuildPush { config, .. } => config,
            DockerProviderCommands::BuildPushDeploy { config, .. } => config,
        }
    }
}

/// The configuration file that a verb's own options name, if they name one.
pub fn prepare_config(command: &DockerProviderCommands) -> (path: Option<String>)
    ensures
        path == command.config(),
{
    let config = match command {
        DockerProviderCommands::Build { config, .. } => config,
        DockerProviderCommands::Push { config, .. } => config,
        DockerProviderCommands::Deploy { config, .. } => config,
        DockerProviderCommands::BuildPush { config, .. } => config,
        DockerProviderCommands::BuildPushDeploy { config, .. } => config,
        DockerProviderCommands::Login { config, .. } => config,
    };
    match config {
        Some(path) => Some(path.clone()),
        None => None,
    }
}

/// The configuration file that is looked for where no option names one.
pub open spec fn default_config() -> Seq<char> {
    "dkrdeliver.toml"@
}

/// Names the configuration file that is looked for where no option names one.
pub fn default_config_file() -> (path: String)
    ensures
        path@ == default_config(),
{
    "dkrdeliver.toml".to_owned()
}

/// The configuration file that an invocation reads: the most specific of the
/// files that its options name, the verb's before the provider's before the
/// global one; the default file where no option names one and it exists.
pub open spec fn chosen_config(
    global: Option<Seq<char>>,
    provider: Option<Seq<char>>,
    verb: Option<Seq<char>>,
    default_exists: bool,
) -> Option<Seq<char>> {
    if verb is Some {
        verb
    } else if provider is Some {
        provider
    } else if global is Some {
        global
    } else if default_exists {
        Some(default_config())
    } else {
        None
    }
}

/// Selects the configuration file of an invocation from the global option,
/// the provider's option and the verb's own. `default_exists` says whether
/// the default file is there.
pub fn select_config(
    global: &Option<String>,
    provider: &Option<String>,
    command: &DockerProviderCommands,
    default_exists: bool,
) -> (path: Option<String>)
    ensures
        optional_text(path) == chosen_config(
            optional_text(*global),
            optional_text(*provider),
            optional_text(command.config()),
            default_exists,
        ),
{
    match prepare_config(command) {
        Some(path) => Some(path),
        None => match provider {
            Some(path) => Some(path.clone()),
            None => match global {
                Some(path) => Some(path.clone()),
                None => if default_exists {
                    Some(default_config_file())
                } else {
                    None
                },
            },
        },
    }
}

/// Where the registry credentials of a login come from.
#[derive(Debug, PartialEq, Eq)]
pub enum CredentialSource {
    /// A credentials file that exists already.
    File { path: String },
    /// A user name and the password given with it.
    Password { username: String, password: String },
    /// A user name; the password is read from the input.
    Input { username: String },
}

/// The content of a `CredentialSource`.
pub enum CredentialSourceView {
    File { path: Seq<char> },
    Password { username: Seq<char>, password: Seq<char> },
    Input { username: Seq<char> },
}

impl View for CredentialSource {
    type V = CredentialSourceView;

    open spec fn view(&self) -> CredentialSourceView {
        match self {
            CredentialSource::File { path } => CredentialSourceView::File { path: path@ },
            CredentialSource::Password { username, password } => CredentialSourceView::Password {
                username: username@,
                password: password@,
            },
            CredentialSource::Input { username } => CredentialSourceView::Input {
                username: username@,
            },
        }
    }
}

/// The source of the credentials that the options of a login select. A
/// credentials file excludes a user name and any password; without a file a
/// user name is needed, with either a password or the request to read one,
/// and not both.
pub open spec fn credential_source(
    docker_json_file: Option<Seq<char>>,
    username: Option<Seq<char>>,
    password: Option<Seq<char>>,
    password_stdin: bool,
) -> Result<CredentialSourceView, FlowFault> {
    match docker_json_file {
        None => match username {
            None => Err(FlowFault::UsernameRequired),
            Some(username) => match password {
                None => if password_stdin {
                    Ok(CredentialSourceView::Input { username })
                } else {
                    Err(FlowFault::PasswordRequired)
                },
                Some(password) => if password_stdin {
                    Err(FlowFault::PasswordRequired)
                } else {
                    Ok(CredentialSourceView::Password { username, password })
                },
            },
        },
        Some(path) => if username is Some {
            Err(FlowFault::UsernameConflict)
        } else if password is Some || password_stdin {
            Err(FlowFault::PasswordConflict)
        } else {
            Ok(CredentialSourceView::File { path })
        },
    }
}

/// Selects the source of the credentials from the options of a login.
pub fn login_credentials(
    docker_json_file: &Option<String>,
    username: &Option<String>,
    password: &Option<String>,
    password_stdin: bool,
) -> (selected: Result<CredentialSource, FlowError>)
    ensures
        match selected {
            Ok(source) => Ok::<CredentialSourceView, FlowFault>(source@),
            Err(error) => Err(error@),
        } == credential_source(
            optional_text(*docker_json_file),
            optional_text(*username),
            optional_text(*password),
            password_stdin,
        ),
{
    match docker_json_file {
        None => match username {
            None => Err(FlowError::UsernameRequired),
            Some(username) => match password {
                None => if password_stdin {
                    Ok(CredentialSource::Input { username: username.clone() })
                } else {
                    Err(FlowError::PasswordRequired)
                },
                Some(password) => if password_stdin {
                    Err(FlowError::PasswordRequired)
                } else {
                    Ok(
                        CredentialSource::Password {
                            username: username.clone(),
                            password: password.clone(),
                        },
                    )
                },
            },
        },
        Some(path) => if username.is_some() {
            Err(FlowError::UsernameConflict)
        } else if password.is_some() || password_stdin {
            Err(FlowError::PasswordConflict)
        } else {
            Ok(CredentialSource::File { path: path.clone() })
        },
    }
}

/// The steps that log the remote host in with a credentials file: the file
/// is copied to its place on the host, and the login runs there.
pub open spec fn login_steps(scope: ScopeView, file: Seq<char>) -> Seq<StepView> {
    seq![
        remote_step(
            "scp"@,
            scope.ssh_private_key,
            seq![file, remote_path_spec(scope.hosts[0], scope.registry_export_auth_config)],
        ),
        remote_step(
            "ssh"@,
            scope.ssh_private_key,
            seq![scope.hosts[0], "docker login "@ + scope.registry],
        ),
    ]
}

/// The generated credentials file under a directory.
pub open spec fn generated_credentials(root: Seq<char>) -> Seq<char> {
    join_path_spec(generated_dir(root), "docker.json"@)
}

/// The steps of a login with a user name and a password: the credentials
/// document is written among the generated files, then used as the file.
pub open spec fn synthesized_login(
    root: Seq<char>,
    scope: ScopeView,
    username: Seq<char>,
    password: Seq<char>,
) -> PlanView {
    match credentials_of(scope.registry, username, password) {
        Err(reason) => Err(FlowFault::Credentials { reason }),
        Ok(document) => Ok(
            seq![
                StepView::CreateDir { path: generated_dir(root) },
                StepView::WriteText { path: generated_credentials(root), content: document },
            ] + login_steps(scope, generated_credentials(root)),
        ),
    }
}

/// The pipeline of `login`: refused where the options select no source of
/// credentials, and without exactly one environment with exactly one host.
/// The password that is read from the input is the input without the white
/// space around it.
pub open spec fn login_plan(
    config: ConfigurationView,
    docker_json_file: Option<Seq<char>>,
    username: Option<Seq<char>>,
    password: Option<Seq<char>>,
    password_stdin: bool,
    input: Seq<char>,
) -> PlanView {
    match credential_source(docker_json_file, username, password, password_stdin) {
        Err(fault) => Err(fault),
        Ok(source) => if config.environments.len() != 1 {
            Err(FlowFault::EnvironmentCount { found: config.environments.len() })
        } else if config.environments[0].hosts.len() != 1 {
            Err(FlowFault::HostCount { found: config.environments[0].hosts.len() })
        } else {
            let scope = config.environments[0];
            match source {
                CredentialSourceView::File { path } => Ok(login_steps(scope, path)),
                CredentialSourceView::Password { username, password } => synthesized_login(
                    config.path,
                    scope,
                    username,
                    password,
                ),
                CredentialSourceView::Input { username } => synthesized_login(
                    config.path,
                    scope,
                    username,
                    trimmed(input),
                ),
            }
        },
    }
}

/// Plans the pipeline that logs the remote host in to the registry. `input`
/// is what the standard input held; it is read only where the password comes
/// from there.
pub fn login(
    config: &Configuration,
    docker_json_file: &Option<String>,
    username: &Option<String>,
    password: &Option<String>,
    password_stdin: bool,
    input: &str,
) -> (plan: Result<Vec<Step>, FlowError>)
    ensures
        plan_view(plan) == login_plan(
            config@,
            optional_text(*docker_json_file),
            optional_text(*username),
            optional_text(*password),
            password_stdin,
            input@,
        ),
{
    let source = match login_credentials(docker_json_file, username, password, password_stdin) {
        Ok(source) => source,
        Err(error) => return Err(error),
    };
    if config.environments.len() != 1 {
        return Err(FlowError::EnvironmentCount { found: config.environments.len() });
    }
    let scope = &config.environments[0];
    if scope.hosts.len() != 1 {
        return Err(FlowError::HostCount { found: scope.hosts.len() });
    }
    let host0 = &scope.hosts[0];
    let host = RemoteHostCall { private_key: scope.ssh_private_key.clone() };
    assert(optional_text(host.private_key) == scope@.ssh_private_key);

    let mut steps: Vec<Step> = Vec::new();
    let file = match source {
        CredentialSource::File { path } => path,
        CredentialSource::Password { username, password } => {
            match write_credentials(config, username.as_str(), password.as_str(), &mut steps) {
                Ok(file) => file,
                Err(error) => return Err(error),
            }
        },
        CredentialSource::Input { username } => {
            let password = trim(input);
            match write_credentials(config, username.as_str(), password.as_str(), &mut steps) {
                Ok(file) => file,
                Err(error) => return Err(error),
            }
        },
    };
    let ghost written = steps_view(steps@);

    let mut copied: Vec<String> = Vec::new();
    copied.push(file.clone());
    copied.push(remote_path(host0.as_str(), scope.registry_export_auth_config.as_str()));
    assert(texts(copied@) =~= seq![
        file@,
        remote_path_spec(host0@, scope@.registry_export_auth_config),
    ]);
    let copy = plan_remote_step("scp", &host, copied);

    let mut called: Vec<String> = Vec::new();
    called.push(host0.clone());
    called.push(joined_text("docker login ", scope.registry.as_str()));
    assert(texts(called@) =~= seq![host0@, "docker login "@ + scope@.registry]);
    let call = plan_remote_step("ssh", &host, called);

    steps.push(copy);
    steps.push(call);
    assert(steps_view(steps@) =~= written + login_steps(scope@, file@));
    Ok(steps)
}

/// Plans the steps that write the credentials document of the one
/// environment among the generated files, and names the file.
fn write_credentials(
    config: &Configuration,
    username: &str,
    password: &str,
    steps: &mut Vec<Step>,
) -> (written: Result<String, FlowError>)
    requires
        config.environments.len() == 1,
        old(steps)@.len() == 0,
    ensures
        match credentials_of(config@.environments[0].registry, username@, password@) {
            Err(reason) => written matches Err(error) && error@ == (FlowFault::Credentials {
                reason,
            }),
            Ok(document) => written matches Ok(file) && file@ == generated_credentials(
                config@.path,
            ) && steps_view(final(steps)@) == seq![
                StepView::CreateDir { path: generated_dir(config@.path) },
                StepView::WriteText {
                    path: generated_credentials(config@.path),
                    content: document,
                },
            ],
        },
{
    let scope = &config.environments[0];
    let document = match registry_credentials(scope.registry.as_str(), username, password) {
        Ok(document) => document,
        Err(reason) => return Err(FlowError::Credentials { reason }),
    };
    let internal_files = generated_dir_path(config.path.as_str());
    let file = join_path(internal_files.as_str(), "docker.json");
    let made = Step::CreateDir { path: internal_files };
    let write = Step::WriteText { path: file.clone(), content: document };
    steps.push(made);
    steps.push(write);
    assert(steps_view(steps@) =~= seq![made@, write@]);
    Ok(file)
}

/// Where the manifest of a configuration lies.
pub open spec fn manifest_path_spec(config: ConfigurationView) -> Seq<char> {
    join_path_spec(config.path, config.docker_compose_file)
}

/// Names the manifest of a configuration.
pub fn manifest_path(config: &Configuration) -> (path: String)
    ensures
        path@ == manifest_path_spec(config@),
{
    join_path(config.path.as_str(), config.docker_compose_file.as_str())
}

/// One pipeline after another: the steps of both in their order, or the
/// first fault of the two.
pub open spec fn chain(first: PlanView, second: PlanView) -> PlanView {
    match first {
        Err(fault) => Err(fault),
        Ok(before) => match second {
            Err(fault) => Err(fault),
            Ok(after) => Ok(before + after),
        },
    }
}

/// The pipeline of a verb that works on the manifest. Without the manifest
/// there is none. The composite verbs need exactly one environment, and run
/// the pipelines of their verbs one after the other.
pub open spec fn compose_command_plan(
    command: DockerProviderCommands,
    config: ConfigurationView,
    manifest: Option<DockerComposeFormatView>,
    input: Seq<char>,
) -> PlanView {
    match manifest {
        None => Err(FlowFault::Manifest { path: manifest_path_spec(config) }),
        Some(format) => match command {
            DockerProviderCommands::Login {
                docker_json_file,
                username,
                password,
                password_stdin,
                ..
            } => login_plan(
                config,
                optional_text(docker_json_file),
                optional_text(username),
                optional_text(password),
                password_stdin,
                input,
            ),
            DockerProviderCommands::Build { build_arg, .. } => build_plan(
                config,
                texts(build_arg@),
            ),
            DockerProviderCommands::Push { build_arg, .. } => push_plan(config, texts(build_arg@)),
            DockerProviderCommands::Deploy { build_arg, .. } => deploy_plan(
                config,
                format,
                texts(build_arg@),
            ),
            DockerProviderCommands::BuildPush { build_arg, .. } => {
                if config.environments.len() != 1 {
                    Err(FlowFault::EnvironmentCount { found: config.environments.len() })
                } else {
                    chain(
                        build_plan(config, texts(build_arg@)),
                        push_plan(config, texts(build_arg@)),
                    )
                }
            },
            DockerProviderCommands::BuildPushDeploy { build_arg, .. } => {
                if config.environments.len() != 1 {
                    Err(FlowFault::EnvironmentCount { found: config.environments.len() })
                } else {
                    chain(
                        chain(
                            build_plan(config, texts(build_arg@)),
                            push_plan(config, texts(build_arg@)),
                        ),
                        deploy_plan(config, format, texts(build_arg@)),
                    )
                }
            },
        },
    }
}

/// The pipeline of a verb: that of `login` needs no manifest, that of any
/// other verb does.
pub open spec fn entrypoint_plan(
    command: DockerProviderCommands,
    config: ConfigurationView,
    manifest: Option<DockerComposeFormatView>,
    input: Seq<char>,
) -> PlanView {
    match command {
        DockerProviderCommands::Login {
            docker_json_file,
            username,
            password,
            password_stdin,
            ..
        } => login_plan(
            config,
            optional_text(docker_json_file),
            optional_text(username),
            optional_text(password),
            password_stdin,
            input,
        ),
        _ => compose_command_plan(command, config, manifest, input),
    }
}

/// The content of a manifest that may be absent.
pub open spec fn optional_manifest(manifest: Option<DockerComposeFormat>) -> Option<
    DockerComposeFormatView,
> {
    match manifest {
        Some(format) => Some(format@),
        None => None,
    }
}

/// Puts the steps of a second pipeline behind those of a first.
fn chain_plans(
    first: Result<Vec<Step>, FlowError>,
    second: Result<Vec<Step>, FlowError>,
) -> (plan: Result<Vec<Step>, FlowError>)
    ensures
        plan_view(plan) == chain(plan_view(first), plan_view(second)),
{
    let mut steps = match first {
        Ok(steps) => steps,
        Err(error) => return Err(error),
    };
    let mut after = match second {
        Ok(steps) => steps,
        Err(error) => return Err(error),
    };
    let ghost before = steps_view(steps@);
    let ghost behind = steps_view(after@);
    steps.append(&mut after);
    assert(steps_view(steps@) =~= before + behind);
    Ok(steps)
}

/// Plans the pipeline of a verb that works on the manifest. `manifest` is the
/// manifest as it was read from `manifest_path`, `None` where it could not be
/// read: then nothing is planned. `input` is what the standard input held.
pub fn handle_docker_compose_command(
    command: &DockerProviderCommands,
    _names: &[String],
    global_config: &Configuration,
    _build_arg: &[String],
    manifest: &Option<DockerComposeFormat>,
    input: &str,
) -> (plan: Result<Vec<Step>, FlowError>)
    ensures
        plan_view(plan) == compose_command_plan(
            *command,
            global_config@,
            optional_manifest(*manifest),
            input@,
        ),
        manifest is None ==> plan is Err,
{
    let format = match manifest {
        Some(format) => format,
        None => return Err(FlowError::Manifest { path: manifest_path(global_config) }),
    };
    match command {
        DockerProviderCommands::Login {
            docker_json_file,
            username,
            password,
            password_stdin,
            ..
        } => login(global_config, docker_json_file, username, password, *password_stdin, input),
        DockerProviderCommands::Build { names, build_arg, .. } => build(
            global_config,
            format,
            names.as_slice(),
            build_arg,
        ),
        DockerProviderCommands::Push { names, build_arg, .. } => push(
            global_config,
            format,
            names.as_slice(),
            build_arg,
        ),
        DockerProviderCommands::Deploy { names, build_arg, .. } => deploy(
            global_config,
            format,
            names.as_slice(),
            build_arg,
        ),
        DockerProviderCommands::BuildPush { names, build_arg, .. } => {
            if global_config.environments.len() != 1 {
                return Err(
                    FlowError::EnvironmentCount { found: global_config.environments.len() },
                );
            }
            let built = build(global_config, format, names.as_slice(), build_arg);
            let pushed = push(global_config, format, names.as_slice(), build_arg);
            chain_plans(built, pushed)
        },
        DockerProviderCommands::BuildPushDeploy { names, build_arg, .. } => {
            if global_config.environments.len() != 1 {
                return Err(
                    FlowError::EnvironmentCount { found: global_config.environments.len() },
                );
            }
            let built = build(global_config, format, names.as_slice(), build_arg);
            let pushed = push(global_config, format, names.as_slice(), build_arg);
            let deployed = deploy(global_config, format, names.as_slice(), build_arg);
            chain_plans(chain_plans(built, pushed), deployed)
        },
    }
}

/// Plans the pipeline of a verb. `manifest` and `input` are what the caller
/// read for it: the manifest for every verb but `login`, the standard input
/// for a `login` that reads its password.
pub fn docker_entrypoint(
    command: &DockerProviderCommands,
    names: &[String],
    global_config: &Configuration,
    build_arg: &[String],
    manifest: &Option<DockerComposeFormat>,
    input: &str,
) -> (plan: Result<Vec<Step>, FlowError>)
    ensures
        plan_view(plan) == entrypoint_plan(
            *command,
            global_config@,
            optional_manifest(*manifest),
            input@,
        ),
{
    match command {
        DockerProviderCommands::Login {
            docker_json_file,
            username,
            password,
            password_stdin,
            ..
        } => login(global_config, docker_json_file, username, password, *password_stdin, input),
        _ => handle_docker_compose_command(
            command,
            names,
            global_config,
            build_arg,
            manifest,
            input,
        ),
    }
}

/// A login takes its credentials from one source. A credentials file beside
/// a user name, a password or the request to read one is refused, and so is
/// a user name with neither a password nor the request to read one.
pub proof fn law_login_takes_one_source(
    config: ConfigurationView,
    docker_json_file: Option<Seq<char>>,
    username: Option<Seq<char>>,
    password: Option<Seq<char>>,
    password_stdin: bool,
    input: Seq<char>,
)
    ensures
        docker_json_file is Some && (username is Some || password is Some || password_stdin)
            ==> login_plan(
            config,
            docker_json_file,
            username,
            password,
            password_stdin,
            input,
        ) is Err,
        docker_json_file is None && username is Some && password is None && !password_stdin
            ==> login_plan(config, docker_json_file, username, password, password_stdin, input)
            == Err::<Seq<StepView>, FlowFault>(FlowFault::PasswordRequired),
        docker_json_file is None && username is None ==> login_plan(
            config,
            docker_json_file,
            username,
            password,
            password_stdin,
            input,
        ) == Err::<Seq<StepView>, FlowFault>(FlowFault::UsernameRequired),
{
}

/// Every program that the pipeline of `login` runs is a remote copy or a
/// remote command whose arguments are built from the identity of the one
/// environment.
pub proof fn law_login_reaches_host_with_identity(
    config: ConfigurationView,
    docker_json_file: Option<Seq<char>>,
    username: Option<Seq<char>>,
    password: Option<Seq<char>>,
    password_stdin: bool,
    input: Seq<char>,
)
    requires
        login_plan(config, docker_json_file, username, password, password_stdin, input) is Ok,
    ensures
        forall|i: int|
            0 <= i < login_plan(
                config,
                docker_json_file,
                username,
                password,
                password_stdin,
                input,
            )->Ok_0.len() ==> reaches_host_with(
                #[trigger] login_plan(
                    config,
                    docker_json_file,
                    username,
                    password,
                    password_stdin,
                    input,
                )->Ok_0[i],
                config.environments[0].ssh_private_key,
            ),
{
    let plan = login_plan(config, docker_json_file, username, password, password_stdin, input);
    let steps = plan->Ok_0;
    let scope = config.environments[0];
    let file = match docker_json_file {
        Some(path) => path,
        None => generated_credentials(config.path),
    };
    let copied = seq![file, remote_path_spec(scope.hosts[0], scope.registry_export_auth_config)];
    let called = seq![scope.hosts[0], "docker login "@ + scope.registry];
    let last = steps.len() - 1;
    assert(steps[last - 1]->Run_args == remote_args(scope.ssh_private_key, copied));
    assert(steps[last]->Run_args == remote_args(scope.ssh_private_key, called));
}

/// Without the manifest no verb but `login` has a pipeline: nothing is
/// written and no program is run.
pub proof fn law_no_manifest_no_pipeline(
    command: DockerProviderCommands,
    config: ConfigurationView,
    input: Seq<char>,
)
    requires
        !(command is Login),
    ensures
        entrypoint_plan(command, config, None, input) == Err::<Seq<StepView>, FlowFault>(
            FlowFault::Manifest { path: manifest_path_spec(config) },
        ),
{
}

/// Whether the pipeline of a verb is planned from the manifest: that of
/// every verb but `login` is.
pub open spec fn reads_manifest(command: DockerProviderCommands) -> bool {
    !(command is Login)
}

/// Whether the pipeline of a verb is planned from the standard input: only
/// that of a `login` whose password comes from there is.
pub open spec fn reads_input(command: DockerProviderCommands) -> bool {
    command matches DockerProviderCommands::Login {
        docker_json_file,
        username,
        password,
        password_stdin,
        ..
    } && credential_source(
        optional_text(docker_json_file),
        optional_text(username),
        optional_text(password),
        password_stdin,
    ) matches Ok(CredentialSourceView::Input { .. })
}

/// Tells whether the caller is to read the manifest for a verb.
pub fn needs_manifest(command: &DockerProviderCommands) -> (needed: bool)
    ensures
        needed == reads_manifest(*command),
{
    match command {
        DockerProviderCommands::Login { .. } => false,
        _ => true,
    }
}

/// Tells whether the caller is to read the standard input for a verb.
pub fn needs_input(command: &DockerProviderCommands) -> (needed: bool)
    ensures
        needed == reads_input(*command),
{
    match command {
        DockerProviderCommands::Login {
            docker_json_file,
            username,
            password,
            password_stdin,
            ..
        } => match login_credentials(docker_json_file, username, password, *password_stdin) {
            Ok(CredentialSource::Input { .. }) => true,
            _ => false,
        },
        _ => false,
    }
}

/// What a verb does not need has no part in its pipeline: without the need
/// for the manifest any manifest, or none, gives the same pipeline, and
/// without the need for the input any input does.
pub proof fn law_pipeline_takes_only_what_it_needs(
    command: DockerProviderCommands,
    config: ConfigurationView,
    manifest: Option<DockerComposeFormatView>,
    other_manifest: Option<DockerComposeFormatView>,
    input: Seq<char>,
    other_input: Seq<char>,
)
    ensures
        !reads_manifest(command) ==> entrypoint_plan(command, config, manifest, input)
            == entrypoint_plan(command, config, other_manifest, input),
        !reads_input(command) ==> entrypoint_plan(command, config, manifest, input)
            == entrypoint_plan(command, config, manifest, other_input),
{
}

} // verus!
