use opday::compose::{
    generate_deploy_overlay, BuildDirective, DockerComposeFormat, Overlay, ServiceOverlay,
};

#[test]
fn overlay_declares_exactly_the_services() {
    let manifest = DockerComposeFormat {
        version: "3.7".to_string(),
        services: vec!["a".to_string(), "b".to_string()],
        volumes: Some(vec!["data".to_string()]),
    };
    assert_eq!(
        generate_deploy_overlay(&manifest),
        Overlay {
            version: "3.7".to_string(),
            services: vec![
                ServiceOverlay {
                    name: "a".to_string(),
                    build: BuildDirective::Reset,
                    environment: vec![],
                },
                ServiceOverlay {
                    name: "b".to_string(),
                    build: BuildDirective::Reset,
                    environment: vec![],
                },
            ],
            volumes: vec![],
        }
    );
}

#[test]
fn overlay_of_no_service_is_empty() {
    let manifest =
        DockerComposeFormat { version: "3".to_string(), services: vec![], volumes: None };
    let overlay = generate_deploy_overlay(&manifest);
    assert_eq!(overlay.version, "3");
    assert!(overlay.services.is_empty());
    assert!(overlay.volumes.is_empty());
}
