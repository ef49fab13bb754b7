use crate::compose::{
    deploy_overlay, generate_deploy_overlay, DockerComposeFormat, DockerComposeFormatView,
};
use crate::config::{Configuration, ConfigurationView, ScopeView};
use crate::exec::{
    build_environment, build_remote_args, environment_of, remote_args, remote_path,
    remote_path_spec, RemoteHostCall,
};
use crate::pipeline::{
    plan_view, steps_view, FlowError, FlowFault, PlanView, Step, StepView,
};
use crate::text::{join_path, join_path_spec, optional_text, texts};
use vstd::prelude::*;
use vstd::string::*;

verus! {

/// The arguments that lay the override files over the manifest: for each of
/// them, in their order, `-f` and the file under `root`.
pub open spec fn override_files(root: Seq<char>, overrides: Seq<Seq<char>>) -> Seq<Seq<char>>
    decreases overrides.len(),
{
    if overrides.len() == 0 {
        Seq::empty()
    } else {
        override_files(root, overrides.drop_last()) + seq![
            "-f"@,
            join_path_spec(root, overrides.last()),
        ]
    }
}

/// The override files that a local composition command applies: those of the
/// environment where the configuration has exactly one, none otherwise.
pub open spec fn selected_overrides(config: ConfigurationView) -> Seq<Seq<char>> {
    if config.environments.len() == 1 {
        config.environments[0].docker_compose_overrides
    } else {
        Seq::empty()
    }
}

/// The arguments of a local composition command: `compose`, the manifest
/// under the working directory, the override files, and the verb.
pub open spec fn compose_args(config: ConfigurationView, verb: Seq<char>) -> Seq<Seq<char>> {
    seq!["compose"@, "-f"@, join_path_spec(config.path, config.docker_compose_file)]
        + override_files(config.path, selected_overrides(config)) + seq![verb]
}

/// Builds the arguments of a local composition command.
pub fn compose_command(config: &Configuration, verb: &str) -> (args: Vec<String>)
    ensures
        texts(args@) == compose_args(config@, verb@),
{
    let mut args: Vec<String> = Vec::new();
    args.push("compose".to_owned());
    args.push("-f".to_owned());
    args.push(join_path(config.path.as_str(), config.docker_compose_file.as_str()));
    let ghost head = seq![
        "compose"@,
        "-f"@,
        join_path_spec(config@.path, config@.docker_compose_file),
    ];
    assert(texts(args@) =~= head);
    if config.environments.len() == 1 {
        let overrides = &config.environments[0].docker_compose_overrides;
        let ghost all = texts(overrides@);
        assert(all == selected_overrides(config@));
        let mut i: usize = 0;
        assert(all.take(0) =~= Seq::empty());
        assert(texts(args@) =~= head + override_files(config@.path, all.take(0)));
        while i < overrides.len()
            invariant
                i <= overrides.len(),
                all == texts(overrides@),
                texts(args@) == head + override_files(config@.path, all.take(i as int)),
            decreases overrides.len() - i,
        {
            let ghost before = texts(args@);
            args.push("-f".to_owned());
            args.push(join_path(config.path.as_str(), overrides[i].as_str()));
            proof {
                assert(all.take(i + 1).drop_last() =~= all.take(i as int));
                assert(all.take(i + 1).last() == overrides[i as int]@);
                assert(texts(args@) =~= before + seq![
                    "-f"@,
                    join_path_spec(config@.path, overrides[i as int]@),
                ]);
            }
            i += 1;
        }
        assert(all.take(all.len() as int) =~= all);
    } else {
        assert(texts(args@) =~= head + override_files(config@.path, Seq::empty()));
    }
    let ghost before = texts(args@);
    args.push(verb.to_owned());
    assert(texts(args@) =~= before + seq![verb@]);
    args
}

/// The pipeline of a local composition command with build arguments as its
/// environment.
pub open spec fn compose_plan(
    config: ConfigurationView,
    build_arg: Seq<Seq<char>>,
    verb: Seq<char>,
    required: bool,
) -> PlanView {
    match environment_of(build_arg) {
        Err(entry) => Err(FlowFault::BuildArgument { entry }),
        Ok(env) => Ok(
            seq![
                StepView::Run {
                    program: "docker"@,
                    args: compose_args(config, verb),
                    env,
                    required,
                },
            ],
        ),
    }
}

/// The pipeline of `build`: refused with more than one environment; else one
/// required local command, whose failure ends the pipeline.
pub open spec fn build_plan(config: ConfigurationView, build_arg: Seq<Seq<char>>) -> PlanView {
    if config.environments.len() > 1 {
        Err(FlowFault::EnvironmentCount { found: config.environments.len() })
    } else {
        compose_plan(config, build_arg, "build"@, true)
    }
}

/// The pipeline of `push`: refused without exactly one environment; else one
/// local command, whose failure is passed over.
pub open spec fn push_plan(config: ConfigurationView, build_arg: Seq<Seq<char>>) -> PlanView {
    if config.environments.len() != 1 {
        Err(FlowFault::EnvironmentCount { found: config.environments.len() })
    } else {
        compose_plan(config, build_arg, "push"@, false)
    }
}

/// Plans one local composition command.
fn plan_compose(
    config: &Configuration,
    build_arg: &Vec<String>,
    verb: &str,
    required: bool,
) -> (plan: Result<Vec<Step>, FlowError>)
    ensures
        plan_view(plan) == compose_plan(config@, texts(build_arg@), verb@, required),
{
    let env = match build_environment(build_arg) {
        Ok(env) => env,
        Err(entry) => return Err(FlowError::BuildArgument { entry }),
    };
    let mut steps: Vec<Step> = Vec::new();
    let step = Step::Run {
        program: "docker".to_owned(),
        args: compose_command(config, verb),
        env,
        required,
    };
    steps.push(step);
    assert(steps_view(steps@) =~= seq![step@]);
    Ok(steps)
}

/// Plans the pipeline that builds the images.
pub fn build(
    config: &Configuration,
    _format: &DockerComposeFormat,
    _names: &[String],
    build_arg: &Vec<String>,
) -> (plan: Result<Vec<Step>, FlowError>)
    ensures
        plan_view(plan) == build_plan(config@, texts(build_arg@)),
{
    if config.environments.len() > 1 {
        return Err(FlowError::EnvironmentCount { found: config.environments.len() });
    }
    plan_compose(config, build_arg, "build", true)
}

/// Plans the pipeline that pushes the images.
pub fn push(
    config: &Configuration,
    _format: &DockerComposeFormat,
    _names: &[String],
    build_arg: &Vec<String>,
) -> (plan: Result<Vec<Step>, FlowError>)
    ensures
        plan_view(plan) == push_plan(config@, texts(build_arg@)),
{
    if config.environments.len() != 1 {
        return Err(FlowError::EnvironmentCount { found: config.environments.len() });
    }
    plan_compose(config, build_arg, "push", false)
}

/// The directory of generated files under a directory.
pub open spec fn generated_dir(root: Seq<char>) -> Seq<char> {
    join_path_spec(root, ".opday-generated"@)
}

/// The generated deployment overlay under a directory.
pub open spec fn generated_overlay(root: Seq<char>) -> Seq<char> {
    join_path_spec(generated_dir(root), "docker-compose.override-run.yaml"@)
}

/// The build arguments as they lead a remote command: each followed by a
/// space, in their order.
pub open spec fn assignments(build_arg: Seq<Seq<char>>) -> Seq<char>
    decreases build_arg.len(),
{
    if build_arg.len() == 0 {
        Seq::empty()
    } else {
        assignments(build_arg.drop_last()) + build_arg.last() + " "@
    }
}

/// The override files as a remote command names them: for each of them, in
/// their order, ` -f ` and the file under the export path.
pub open spec fn remote_overrides(export_path: Seq<char>, overrides: Seq<Seq<char>>) -> Seq<char>
    decreases overrides.len(),
{
    if overrides.len() == 0 {
        Seq::empty()
    } else {
        remote_overrides(export_path, overrides.drop_last()) + " -f "@ + join_path_spec(
            export_path,
            overrides.last(),
        )
    }
}

/// The command that brings the services up on the remote host: the build
/// arguments, then the composition tool with the manifest, the override
/// files and the generated overlay, each under the export path.
pub open spec fn deploy_command(
    docker_compose_file: Seq<char>,
    export_path: Seq<char>,
    overrides: Seq<Seq<char>>,
    build_arg: Seq<Seq<char>>,
) -> Seq<char> {
    assignments(build_arg) + " docker compose -f "@ + join_path_spec(
        export_path,
        docker_compose_file,
    ) + remote_overrides(export_path, overrides) + " -f "@ + generated_overlay(export_path)
        + " up -d"@
}

/// The command that brings the services of a scope up on its host.
pub open spec fn scope_deploy_command(
    docker_compose_file: Seq<char>,
    scope: ScopeView,
    build_arg: Seq<Seq<char>>,
) -> Seq<char> {
    deploy_command(
        docker_compose_file,
        scope.export_path,
        scope.docker_compose_overrides,
        build_arg,
    )
}

/// A step that runs a program on or towards the remote host: its failure is
/// passed over, and it gets no added environment.
pub open spec fn remote_step(
    program: Seq<char>,
    identity: Option<Seq<char>>,
    positional: Seq<Seq<char>>,
) -> StepView {
    StepView::Run {
        program,
        args: remote_args(identity, positional),
        env: Seq::empty(),
        required: false,
    }
}

/// The pipeline of `deploy`: refused without exactly one environment with
/// exactly one host; else the generated files are written, the working
/// directory is copied to the host, and the services are brought up there.
pub open spec fn deploy_plan(
    config: ConfigurationView,
    manifest: DockerComposeFormatView,
    build_arg: Seq<Seq<char>>,
) -> PlanView {
    if config.environments.len() != 1 {
        Err(FlowFault::EnvironmentCount { found: config.environments.len() })
    } else if config.environments[0].hosts.len() != 1 {
        Err(FlowFault::HostCount { found: config.environments[0].hosts.len() })
    } else {
        let scope = config.environments[0];
        let host = scope.hosts[0];
        Ok(
            seq![
                StepView::CreateDir { path: generated_dir(config.path) },
                StepView::WriteText {
                    path: join_path_spec(generated_dir(config.path), ".gitignore"@),
                    content: "*\n"@,
                },
                StepView::WriteOverlay {
                    path: generated_overlay(config.path),
                    overlay: deploy_overlay(manifest),
                },
                remote_step(
                    "scp"@,
                    scope.ssh_private_key,
                    seq![
                        "-r"@,
                        join_path_spec(config.path, ""@),
                        remote_path_spec(host, scope.export_path),
                    ],
                ),
                remote_step(
                    "ssh"@,
                    scope.ssh_private_key,
                    seq![host, scope_deploy_command(config.docker_compose_file, scope, build_arg)],
                ),
            ],
        )
    }
}

/// Names the directory of generated files under a directory.
pub fn generated_dir_path(root: &str) -> (path: String)
    ensures
        path@ == generated_dir(root@),
{
    join_path(root, ".opday-generated")
}

/// Names the generated deployment overlay under a directory.
pub fn generated_overlay_path(root: &str) -> (path: String)
    ensures
        path@ == generated_overlay(root@),
{
    let dir = generated_dir_path(root);
    join_path(dir.as_str(), "docker-compose.override-run.yaml")
}

/// Plans a step that runs a program on or towards the remote host.
pub fn plan_remote_step(program: &str, host: &RemoteHostCall, positional: Vec<String>) -> (step:
    Step)
    ensures
        step@ == remote_step(program@, optional_text(host.private_key), texts(positional@)),
{
    let env: Vec<(String, String)> = Vec::new();
    let step = Step::Run {
        program: program.to_owned(),
        args: build_remote_args(host, positional),
        env,
        required: false,
    };
    assert(step@->Run_env =~= Seq::empty());
    step
}

/// Composes the command that brings the services up on the remote host.
pub fn compose_deploy_command(
    docker_compose_file: &str,
    export_path: &str,
    overrides: &Vec<String>,
    build_arg: &Vec<String>,
) -> (command: String)
    ensures
        command@ == deploy_command(
            docker_compose_file@,
            export_path@,
            texts(overrides@),
            texts(build_arg@),
        ),
{
    let ghost args = texts(build_arg@);
    let ghost files = texts(overrides@);
    let mut command = String::new();
    let mut i: usize = 0;
    assert(args.take(0) =~= Seq::empty());
    while i < build_arg.len()
        invariant
            i <= build_arg.len(),
            args == texts(build_arg@),
            command@ == assignments(args.take(i as int)),
        decreases build_arg.len() - i,
    {
        proof {
            assert(args.take(i + 1).drop_last() =~= args.take(i as int));
            assert(args.take(i + 1).last() == build_arg[i as int]@);
        }
        command.append(build_arg[i].as_str());
        command.append(" ");
        i += 1;
    }
    assert(args.take(args.len() as int) =~= args);
    command.append(" docker compose -f ");
    let manifest = join_path(export_path, docker_compose_file);
    command.append(manifest.as_str());
    let ghost head = command@;
    let mut j: usize = 0;
    assert(files.take(0) =~= Seq::empty());
    assert(command@ =~= head + remote_overrides(export_path@, files.take(0)));
    while j < overrides.len()
        invariant
            j <= overrides.len(),
            files == texts(overrides@),
            command@ == head + remote_overrides(export_path@, files.take(j as int)),
        decreases overrides.len() - j,
    {
        let ghost before = remote_overrides(export_path@, files.take(j as int));
        proof {
            assert(files.take(j + 1).drop_last() =~= files.take(j as int));
            assert(files.take(j + 1).last() == overrides[j as int]@);
        }
        command.append(" -f ");
        let file = join_path(export_path, overrides[j].as_str());
        command.append(file.as_str());
        assert(command@ =~= head + (before + " -f "@ + file@));
        j += 1;
    }
    assert(files.take(files.len() as int) =~= files);
    command.append(" -f ");
    let overlay = generated_overlay_path(export_path);
    command.append(overlay.as_str());
    command.append(" up -d");
    command
}

/// Plans the pipeline that deploys the services to the remote host.
pub fn deploy(
    config: &Configuration,
    format: &DockerComposeFormat,
    _names: &[String],
    build_arg: &Vec<String>,
) -> (plan: Result<Vec<Step>, FlowError>)
    ensures
        plan_view(plan) == deploy_plan(config@, format@, texts(build_arg@)),
{
    if config.environments.len() != 1 {
        return Err(FlowError::EnvironmentCount { found: config.environments.len() });
    }
    let scope = &config.environments[0];
    if scope.hosts.len() != 1 {
        return Err(FlowError::HostCount { found: scope.hosts.len() });
    }
    let host0 = &scope.hosts[0];
    let host = RemoteHostCall { private_key: scope.ssh_private_key.clone() };
    assert(optional_text(host.private_key) == scope@.ssh_private_key);

    let internal_files = generated_dir_path(config.path.as_str());
    let gitignore = Step::WriteText {
        path: join_path(internal_files.as_str(), ".gitignore"),
        content: "*\n".to_owned(),
    };
    let overlay = Step::WriteOverlay {
        path: generated_overlay_path(config.path.as_str()),
        overlay: generate_deploy_overlay(format),
    };

    let mut copied: Vec<String> = Vec::new();
    copied.push("-r".to_owned());
    copied.push(join_path(config.path.as_str(), ""));
    copied.push(remote_path(host0.as_str(), scope.export_path.as_str()));
    assert(texts(copied@) =~= seq![
        "-r"@,
        join_path_spec(config@.path, ""@),
        remote_path_spec(host0@, scope@.export_path),
    ]);
    let copy = plan_remote_step("scp", &host, copied);

    let command = compose_deploy_command(
        config.docker_compose_file.as_str(),
        scope.export_path.as_str(),
        &scope.docker_compose_overrides,
        build_arg,
    );
    let mut called: Vec<String> = Vec::new();
    called.push(host0.clone());
    called.push(command);
    assert(texts(called@) =~= seq![
        host0@,
        scope_deploy_command(config@.docker_compose_file, scope@, texts(build_arg@)),
    ]);
    let up = plan_remote_step("ssh", &host, called);

    let mut steps: Vec<Step> = Vec::new();
    let made = Step::CreateDir { path: internal_files };
    steps.push(made);
    steps.push(gitignore);
    steps.push(overlay);
    steps.push(copy);
    steps.push(up);
    assert(steps_view(steps@) =~= seq![made@, gitignore@, overlay@, copy@, up@]);
    Ok(steps)
}

/// Whether a step, where it runs a program, reaches the remote host: by
/// remote copy or remote command, with arguments that are built from the
/// identity and some positional arguments.
pub open spec fn reaches_host_with(step: StepView, identity: Option<Seq<char>>) -> bool {
    step matches StepView::Run { program, args, .. } ==> (program == "scp"@ || program == "ssh"@)
        && exists|positional: Seq<Seq<char>>| args == remote_args(identity, positional)
}

/// Every program that the pipeline of `deploy` runs is a remote copy or a
/// remote command whose arguments are built from the identity of the one
/// environment: the identity flag comes first where there is an identity,
/// and is left out where there is none.
pub proof fn law_deploy_reaches_host_with_identity(
    config: ConfigurationView,
    manifest: DockerComposeFormatView,
    build_arg: Seq<Seq<char>>,
)
    requires
        deploy_plan(config, manifest, build_arg) is Ok,
    ensures
        forall|i: int|
            0 <= i < deploy_plan(config, manifest, build_arg)->Ok_0.len() ==> reaches_host_with(
                #[trigger] deploy_plan(config, manifest, build_arg)->Ok_0[i],
                config.environments[0].ssh_private_key,
            ),
{
    let steps = deploy_plan(config, manifest, build_arg)->Ok_0;
    let scope = config.environments[0];
    let copied = seq![
        "-r"@,
        join_path_spec(config.path, ""@),
        remote_path_spec(scope.hosts[0], scope.export_path),
    ];
    let called = seq![
        scope.hosts[0],
        scope_deploy_command(config.docker_compose_file, scope, build_arg),
    ];
    assert(steps[3]->Run_args == remote_args(scope.ssh_private_key, copied));
    assert(steps[4]->Run_args == remote_args(scope.ssh_private_key, called));
}

} // verus!
