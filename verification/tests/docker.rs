use opday::compose::DockerComposeFormat;
use opday::config::{Configuration, Scope};
use opday::credentials::CredentialsError;
use opday::pipeline::{FlowError, Step};
use opday::provider::docker::{
    default_config_file, docker_entrypoint, handle_docker_compose_command, login,
    login_credentials, manifest_path, needs_input, needs_manifest, prepare_config,
    select_config, CredentialSource, DockerProviderCommands,
};

fn strings(items: &[&str]) -> Vec<String> {
    items.iter().map(|s| s.to_string()).collect()
}

fn scope(key: Option<&str>) -> Scope {
    Scope {
        hosts: strings(&["host1"]),
        export_path: "/srv/app".to_string(),
        registry: "reg.example.com".to_string(),
        registry_auth_config: "auth.json".to_string(),
        registry_export_auth_config: "/srv/auth.json".to_string(),
        docker_compose_overrides: strings(&["prod.yaml"]),
        ssh_private_key: key.map(|k| k.to_string()),
    }
}

fn config(environments: Vec<Scope>) -> Configuration {
    Configuration {
        path: "work".to_string(),
        docker_compose_file: "docker-compose.yaml".to_string(),
        environments,
    }
}

fn manifest() -> Option<DockerComposeFormat> {
    Some(DockerComposeFormat {
        version: "3.7".to_string(),
        services: strings(&["a", "b"]),
        volumes: None,
    })
}

fn some(text: &str) -> Option<String> {
    Some(text.to_string())
}

fn run(program: &str, args: &[&str], env: &[(&str, &str)], required: bool) -> Step {
    Step::Run {
        program: program.to_string(),
        args: strings(args),
        env: env.iter().map(|(k, v)| (k.to_string(), v.to_string())).collect(),
        required,
    }
}

#[test]
fn prepare_config_gives_the_verbs_own_file() {
    let with = |config: Option<String>| -> Vec<DockerProviderCommands> {
        vec![
            DockerProviderCommands::Login {
                docker_json_file: None,
                username: None,
                password: None,
                password_stdin: false,
                config: config.clone(),
            },
            DockerProviderCommands::Build {
                names: vec![],
                config: config.clone(),
                build_arg: vec![],
            },
            DockerProviderCommands::Push { names: vec![], config: config.clone(), build_arg: vec![] },
            DockerProviderCommands::Deploy {
                names: vec![],
                config: config.clone(),
                environment: None,
                build_arg: vec![],
            },
            DockerProviderCommands::BuildPush {
                names: vec![],
                config: config.clone(),
                environment: None,
                build_arg: vec![],
            },
            DockerProviderCommands::BuildPushDeploy {
                names: vec![],
                config: config.clone(),
                environment: None,
                build_arg: vec![],
            },
        ]
    };
    for command in with(some("myconfig")) {
        assert_eq!(prepare_config(&command), some("myconfig"));
    }
    for command in with(None) {
        assert_eq!(prepare_config(&command), None);
    }
}

#[test]
fn login_refuses_a_file_beside_username_or_password() {
    assert_eq!(
        login_credentials(&some("f.json"), &some("u"), &None, false),
        Err(FlowError::UsernameConflict)
    );
    assert_eq!(
        login_credentials(&some("f.json"), &some("u"), &some("p"), false),
        Err(FlowError::UsernameConflict)
    );
    assert_eq!(
        login_credentials(&some("f.json"), &None, &some("p"), false),
        Err(FlowError::PasswordConflict)
    );
    assert_eq!(
        login_credentials(&some("f.json"), &None, &None, true),
        Err(FlowError::PasswordConflict)
    );
    let one = config(vec![scope(None)]);
    assert_eq!(
        login(&one, &some("f.json"), &some("u"), &some("p"), false, ""),
        Err(FlowError::UsernameConflict)
    );
}

#[test]
fn login_refuses_a_username_without_one_password_source() {
    assert_eq!(login_credentials(&None, &some("u"), &None, false), Err(FlowError::PasswordRequired));
    assert_eq!(
        login_credentials(&None, &some("u"), &some("p"), true),
        Err(FlowError::PasswordRequired)
    );
    assert_eq!(login_credentials(&None, &None, &some("p"), false), Err(FlowError::UsernameRequired));
    assert_eq!(login_credentials(&None, &None, &None, false), Err(FlowError::UsernameRequired));
    let one = config(vec![scope(None)]);
    assert_eq!(login(&one, &None, &some("u"), &None, false, "ignored"), Err(FlowError::PasswordRequired));
}

#[test]
fn login_selects_its_source() {
    assert_eq!(
        login_credentials(&some("f.json"), &None, &None, false),
        Ok(CredentialSource::File { path: "f.json".to_string() })
    );
    assert_eq!(
        login_credentials(&None, &some("u"), &some("p"), false),
        Ok(CredentialSource::Password { username: "u".to_string(), password: "p".to_string() })
    );
    assert_eq!(
        login_credentials(&None, &some("u"), &None, true),
        Ok(CredentialSource::Input { username: "u".to_string() })
    );
}

#[test]
fn login_with_a_file_copies_it_and_logs_in() {
    let one = config(vec![scope(Some("/keys/id"))]);
    assert_eq!(
        login(&one, &some("creds.json"), &None, &None, false, ""),
        Ok(vec![
            run("scp", &["-i", "/keys/id", "creds.json", "host1:/srv/auth.json"], &[], false),
            run("ssh", &["-i", "/keys/id", "host1", "docker login reg.example.com"], &[], false),
        ])
    );
}

#[test]
fn login_with_a_password_writes_the_credentials_first() {
    let one = config(vec![scope(None)]);
    assert_eq!(
        login(&one, &None, &some("user"), &some("pass"), false, "not read"),
        Ok(vec![
            Step::CreateDir { path: "work/.opday-generated".to_string() },
            Step::WriteText {
                path: "work/.opday-generated/docker.json".to_string(),
                content: "{\"auths\":{\"reg.example.com\":{\"auth\":\"dXNlcjpwYXNz\"}}}"
                    .to_string(),
            },
            run("scp", &["work/.opday-generated/docker.json", "host1:/srv/auth.json"], &[], false),
            run("ssh", &["host1", "docker login reg.example.com"], &[], false),
        ])
    );
}

#[test]
fn login_reads_the_password_from_the_input_without_the_white_space_around() {
    let one = config(vec![scope(None)]);
    let from_input = login(&one, &None, &some("user"), &None, true, "  pass\n").unwrap();
    let literal = login(&one, &None, &some("user"), &some("pass"), false, "").unwrap();
    assert_eq!(from_input, literal);
}

#[test]
fn login_needs_one_environment_and_one_host() {
    assert_eq!(
        login(&config(vec![]), &some("f"), &None, &None, false, ""),
        Err(FlowError::EnvironmentCount { found: 0 })
    );
    assert_eq!(
        login(&config(vec![scope(None), scope(None)]), &some("f"), &None, &None, false, ""),
        Err(FlowError::EnvironmentCount { found: 2 })
    );
    let mut two = scope(None);
    two.hosts = strings(&["h1", "h2"]);
    assert_eq!(
        login(&config(vec![two]), &some("f"), &None, &None, false, ""),
        Err(FlowError::HostCount { found: 2 })
    );
    let mut none = scope(None);
    none.hosts = vec![];
    assert_eq!(
        login(&config(vec![none]), &None, &some("u"), &some("p"), false, ""),
        Err(FlowError::HostCount { found: 0 })
    );
}

#[test]
fn credential_checks_come_before_the_environment_checks() {
    assert_eq!(
        login(&config(vec![]), &None, &None, &None, false, ""),
        Err(FlowError::UsernameRequired)
    );
}

fn build_command(build_arg: &[&str]) -> DockerProviderCommands {
    DockerProviderCommands::Build { names: vec![], config: None, build_arg: strings(build_arg) }
}

#[test]
fn build_without_manifest_plans_nothing() {
    let mut simple_config = Configuration {
        path: "tests/01_trivial-backend-no-storage".to_string(),
        docker_compose_file: "docker-compose.yaml".to_string(),
        environments: vec![],
    };
    simple_config.docker_compose_file = "not-a-file".to_string();
    let plan = docker_entrypoint(&build_command(&[]), &[], &simple_config, &[], &None, "");
    assert_eq!(
        plan,
        Err(FlowError::Manifest { path: "tests/01_trivial-backend-no-storage/not-a-file".to_string() })
    );
    assert_eq!(
        plan.unwrap_err().message(),
        "Could not open file tests/01_trivial-backend-no-storage/not-a-file."
    );
}

#[test]
fn every_compose_verb_needs_the_manifest() {
    let one = config(vec![scope(None)]);
    let commands = vec![
        build_command(&[]),
        DockerProviderCommands::Push { names: vec![], config: None, build_arg: vec![] },
        DockerProviderCommands::Deploy {
            names: vec![],
            config: None,
            environment: None,
            build_arg: vec![],
        },
        DockerProviderCommands::BuildPush {
            names: vec![],
            config: None,
            environment: None,
            build_arg: vec![],
        },
        DockerProviderCommands::BuildPushDeploy {
            names: vec![],
            config: None,
            environment: None,
            build_arg: vec![],
        },
    ];
    for command in commands {
        let expected = Err(FlowError::Manifest { path: "work/docker-compose.yaml".to_string() });
        assert_eq!(docker_entrypoint(&command, &[], &one, &[], &None, ""), expected);
        assert_eq!(handle_docker_compose_command(&command, &[], &one, &[], &None, ""), expected);
    }
    assert_eq!(manifest_path(&one), "work/docker-compose.yaml");
}

#[test]
fn login_needs_no_manifest_at_the_entrypoint() {
    let one = config(vec![scope(None)]);
    let command = DockerProviderCommands::Login {
        docker_json_file: some("f.json"),
        username: None,
        password: None,
        password_stdin: false,
        config: None,
    };
    assert_eq!(
        docker_entrypoint(&command, &[], &one, &[], &None, ""),
        login(&one, &some("f.json"), &None, &None, false, "")
    );
    assert!(docker_entrypoint(&command, &[], &one, &[], &None, "").is_ok());
    assert_eq!(
        handle_docker_compose_command(&command, &[], &one, &[], &None, ""),
        Err(FlowError::Manifest { path: "work/docker-compose.yaml".to_string() })
    );
    assert_eq!(
        handle_docker_compose_command(&command, &[], &one, &[], &manifest(), ""),
        login(&one, &some("f.json"), &None, &None, false, "")
    );
}

#[test]
fn entrypoint_uses_the_verbs_own_build_args() {
    let one = config(vec![scope(None)]);
    let plan = docker_entrypoint(
        &build_command(&["TAG=1"]),
        &strings(&["name"]),
        &one,
        &strings(&["OUTER=1"]),
        &manifest(),
        "",
    );
    assert_eq!(
        plan,
        Ok(vec![run(
            "docker",
            &["compose", "-f", "work/docker-compose.yaml", "-f", "work/prod.yaml", "build"],
            &[("TAG", "1")],
            true,
        )])
    );
}

#[test]
fn build_push_runs_build_then_push() {
    let one = config(vec![scope(None)]);
    let command = DockerProviderCommands::BuildPush {
        names: vec![],
        config: None,
        environment: None,
        build_arg: strings(&["TAG=1"]),
    };
    assert_eq!(
        docker_entrypoint(&command, &[], &one, &[], &manifest(), ""),
        Ok(vec![
            run(
                "docker",
                &["compose", "-f", "work/docker-compose.yaml", "-f", "work/prod.yaml", "build"],
                &[("TAG", "1")],
                true,
            ),
            run(
                "docker",
                &["compose", "-f", "work/docker-compose.yaml", "-f", "work/prod.yaml", "push"],
                &[("TAG", "1")],
                false,
            ),
        ])
    );
}

#[test]
fn build_push_deploy_runs_all_three_in_order() {
    let one = config(vec![scope(None)]);
    let command = DockerProviderCommands::BuildPushDeploy {
        names: vec![],
        config: None,
        environment: some("prod"),
        build_arg: vec![],
    };
    let plan = docker_entrypoint(&command, &[], &one, &[], &manifest(), "").unwrap();
    assert_eq!(plan.len(), 7);
    assert_eq!(
        plan[0],
        run(
            "docker",
            &["compose", "-f", "work/docker-compose.yaml", "-f", "work/prod.yaml", "build"],
            &[],
            true,
        )
    );
    assert_eq!(
        plan[1],
        run(
            "docker",
            &["compose", "-f", "work/docker-compose.yaml", "-f", "work/prod.yaml", "push"],
            &[],
            false,
        )
    );
    let deploy_command = DockerProviderCommands::Deploy {
        names: vec![],
        config: None,
        environment: None,
        build_arg: vec![],
    };
    let deployed = docker_entrypoint(&deploy_command, &[], &one, &[], &manifest(), "").unwrap();
    assert_eq!(&plan[2..], &deployed[..]);
}

#[test]
fn composite_verbs_need_exactly_one_environment() {
    let command = DockerProviderCommands::BuildPush {
        names: vec![],
        config: None,
        environment: None,
        build_arg: strings(&["bad"]),
    };
    assert_eq!(
        docker_entrypoint(&command, &[], &config(vec![]), &[], &manifest(), ""),
        Err(FlowError::EnvironmentCount { found: 0 })
    );
    let command = DockerProviderCommands::BuildPushDeploy {
        names: vec![],
        config: None,
        environment: None,
        build_arg: vec![],
    };
    assert_eq!(
        docker_entrypoint(&command, &[], &config(vec![scope(None), scope(None)]), &[], &manifest(), ""),
        Err(FlowError::EnvironmentCount { found: 2 })
    );
    let mut two = scope(None);
    two.hosts = strings(&["h1", "h2"]);
    assert_eq!(
        docker_entrypoint(&command, &[], &config(vec![two]), &[], &manifest(), ""),
        Err(FlowError::HostCount { found: 2 })
    );
}

#[test]
fn flow_errors_have_their_messages() {
    assert_eq!(
        FlowError::EnvironmentCount { found: 2 }.message(),
        "Only one environment is supported for now."
    );
    assert_eq!(FlowError::HostCount { found: 0 }.message(), "Only one host is supported for now.");
    assert_eq!(
        FlowError::BuildArgument { entry: "X".to_string() }.message(),
        "Invalid build-arg without exactly one `=`: `X`"
    );
    assert_eq!(FlowError::UsernameRequired.message(), "Username is required for login.");
    assert_eq!(
        FlowError::PasswordRequired.message(),
        "Password is required from `password` or `password-stdin` options."
    );
    assert_eq!(FlowError::UsernameConflict.message(), "Username is conflicting with -f option.");
    assert_eq!(FlowError::PasswordConflict.message(), "Password is conflicting with -f option.");
    assert_eq!(
        FlowError::Credentials { reason: CredentialsError::TooLong }.message(),
        "Username and password are too long to encode."
    );
    assert_eq!(
        FlowError::Credentials { reason: CredentialsError::Encoding }.message(),
        "Could not encode the credentials."
    );
    assert_eq!(FlowError::StepFailed { position: 3 }.message(), "A step of the pipeline failed.");
}

#[test]
fn most_specific_config_wins() {
    let verb = |config: Option<String>| DockerProviderCommands::Build {
        names: vec![],
        config,
        build_arg: vec![],
    };
    assert_eq!(select_config(&some("g"), &some("p"), &verb(some("v")), true), some("v"));
    assert_eq!(select_config(&some("g"), &some("p"), &verb(None), true), some("p"));
    assert_eq!(select_config(&some("g"), &None, &verb(None), true), some("g"));
    assert_eq!(select_config(&None, &None, &verb(some("v")), false), some("v"));
    assert_eq!(select_config(&None, &None, &verb(None), true), some("dkrdeliver.toml"));
    assert_eq!(select_config(&None, &None, &verb(None), false), None);
    assert_eq!(default_config_file(), "dkrdeliver.toml");
}

fn login_command(
    file: Option<String>,
    username: Option<String>,
    password: Option<String>,
    password_stdin: bool,
) -> DockerProviderCommands {
    DockerProviderCommands::Login {
        docker_json_file: file,
        username,
        password,
        password_stdin,
        config: None,
    }
}

#[test]
fn only_a_login_that_reads_its_password_needs_the_input() {
    assert!(needs_input(&login_command(None, some("u"), None, true)));
    assert!(!needs_input(&login_command(None, some("u"), some("p"), false)));
    assert!(!needs_input(&login_command(None, some("u"), some("p"), true)));
    assert!(!needs_input(&login_command(some("f"), None, None, true)));
    assert!(!needs_input(&login_command(None, None, None, true)));
    assert!(!needs_input(&build_command(&[])));
}

#[test]
fn every_verb_but_login_needs_the_manifest() {
    assert!(!needs_manifest(&login_command(some("f"), None, None, false)));
    assert!(needs_manifest(&build_command(&[])));
    assert!(needs_manifest(&DockerProviderCommands::Deploy {
        names: vec![],
        config: None,
        environment: None,
        build_arg: vec![],
    }));
}
