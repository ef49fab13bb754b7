use opday::exec::{
    build_environment, build_remote_args, command_line, remote_path, split_build_arg,
    RemoteHostCall,
};

fn strings(items: &[&str]) -> Vec<String> {
    items.iter().map(|s| s.to_string()).collect()
}

#[test]
fn identity_flag_comes_first() {
    let host = RemoteHostCall { private_key: Some("/keys/id".to_string()) };
    assert_eq!(
        build_remote_args(&host, strings(&["-r", "src/", "h:dst"])),
        strings(&["-i", "/keys/id", "-r", "src/", "h:dst"])
    );
    assert_eq!(build_remote_args(&host, vec![]), strings(&["-i", "/keys/id"]));
}

#[test]
fn identity_flag_is_left_out_without_identity() {
    let host = RemoteHostCall { private_key: None };
    assert_eq!(build_remote_args(&host, strings(&["h", "ls"])), strings(&["h", "ls"]));
    assert_eq!(build_remote_args(&host, vec![]), Vec::<String>::new());
}

#[test]
fn remote_path_has_one_colon_and_nothing_else() {
    assert_eq!(remote_path("host", "/srv/app"), "host:/srv/app");
    assert_eq!(remote_path("u@h", ""), "u@h:");
}

#[test]
fn build_arg_splits_at_its_one_separator() {
    assert_eq!(
        split_build_arg("BACKEND_TAG=0.0.1"),
        Some(("BACKEND_TAG".to_string(), "0.0.1".to_string()))
    );
    assert_eq!(split_build_arg("A="), Some(("A".to_string(), "".to_string())));
    assert_eq!(split_build_arg("=b"), Some(("".to_string(), "b".to_string())));
    assert_eq!(split_build_arg("é=ü"), Some(("é".to_string(), "ü".to_string())));
    assert_eq!(split_build_arg("A"), None);
    assert_eq!(split_build_arg(""), None);
    assert_eq!(split_build_arg("A=b=c"), None);
    assert_eq!(split_build_arg("=="), None);
}

#[test]
fn build_environment_keeps_order_and_names_the_first_bad_entry() {
    assert_eq!(
        build_environment(&strings(&["A=1", "B=2"])),
        Ok(vec![("A".to_string(), "1".to_string()), ("B".to_string(), "2".to_string())])
    );
    assert_eq!(build_environment(&vec![]), Ok(vec![]));
    assert_eq!(build_environment(&strings(&["A=1", "bad", "worse"])), Err("bad".to_string()));
}

#[test]
fn command_line_puts_spaces_between() {
    assert_eq!(command_line("docker", &strings(&["compose", "-f", "x", "build"])), "docker compose -f x build");
    assert_eq!(command_line("ssh", &strings(&["h"])), "ssh h");
    assert_eq!(command_line("ls", &vec![]), "ls ");
}
