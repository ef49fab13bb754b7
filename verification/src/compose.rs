use crate::text::texts;
use vstd::prelude::*;

verus! {

/// A composition manifest, as far as the deployment reads it: its version
/// and the names of its services and named volumes, in document order.
#[derive(Debug, PartialEq, Eq)]
pub struct DockerComposeFormat {
    pub version: String,
    pub services: Vec<String>,
    pub volumes: Option<Vec<String>>,
}

/// The content of a `DockerComposeFormat`.
pub struct DockerComposeFormatView {
    pub version: Seq<char>,
    pub services: Seq<Seq<char>>,
    pub volumes: Option<Seq<Seq<char>>>,
}

impl View for DockerComposeFormat {
    type V = DockerComposeFormatView;

    open spec fn view(&self) -> DockerComposeFormatView {
        DockerComposeFormatView {
            version: self.version@,
            services: texts(self.services@),
            volumes: match self.volumes {
                Some(names) => Some(texts(names@)),
                None => None,
            },
        }
    }
}

/// What an overlay does to the build directive of a service.
#[derive(Clone, Copy, Debug, PartialEq, Eq, Structural)]
pub enum BuildDirective {
    /// The directive is reset to null: nothing is built, the image is used.
    Reset,
}

/// What a deployment overlay declares of one service.
#[derive(Debug, PartialEq, Eq)]
pub struct ServiceOverlay {
    pub name: String,
    pub build: BuildDirective,
    pub environment: Vec<(String, String)>,
}

/// The content of a `ServiceOverlay`.
pub struct ServiceOverlayView {
    pub name: Seq<char>,
    pub build: BuildDirective,
    pub environment: Seq<(Seq<char>, Seq<char>)>,
}

impl View for ServiceOverlay {
    type V = ServiceOverlayView;

    open spec fn view(&self) -> ServiceOverlayView {
        ServiceOverlayView {
            name: self.name@,
            build: self.build,
            environment: Seq::new(
                self.environment@.len(),
                |i: int| (self.environment@[i].0@, self.environment@[i].1@),
            ),
        }
    }
}

/// A manifest overlay that is laid over the manifest at deployment.
#[derive(Debug, PartialEq, Eq)]
pub struct Overlay {
    pub version: String,
    pub services: Vec<ServiceOverlay>,
    pub volumes: Vec<String>,
}

/// The content of an `Overlay`.
pub struct OverlayView {
    pub version: Seq<char>,
    pub services: Seq<ServiceOverlayView>,
    pub volumes: Seq<Seq<char>>,
}

impl View for Overlay {
    type V = OverlayView;

    open spec fn view(&self) -> OverlayView {
        OverlayView {
            version: self.version@,
            services: Seq::new(self.services@.len(), |i: int| self.services@[i]@),
            volumes: texts(self.volumes@),
        }
    }
}

/// What the deployment overlay declares of the service `name`: the build
/// directive reset, and no environment variable overridden.
pub open spec fn service_overlay(name: Seq<char>) -> ServiceOverlayView {
    ServiceOverlayView { name, build: BuildDirective::Reset, environment: Seq::empty() }
}

/// The deployment overlay of a manifest: the manifest's version, one
/// declaration for each of its services in the manifest's order, and no
/// volumes.
pub open spec fn deploy_overlay(manifest: DockerComposeFormatView) -> OverlayView {
    OverlayView {
        version: manifest.version,
        services: Seq::new(manifest.services.len(), |i: int| service_overlay(manifest.services[i])),
        volumes: Seq::empty(),
    }
}

/// Generates the deployment overlay of a manifest.
pub fn generate_deploy_overlay(manifest: &DockerComposeFormat) -> (overlay: Overlay)
    ensures
        overlay@ == deploy_overlay(manifest@),
{
    let mut services: Vec<ServiceOverlay> = Vec::new();
    let mut i: usize = 0;
    while i < manifest.services.len()
        invariant
            i <= manifest.services.len(),
            services.len() == i,
            forall|j: int|
                0 <= j < i ==> (#[trigger] services[j])@ == service_overlay(
                    manifest.services[j]@,
                ),
        decreases manifest.services.len() - i,
    {
        let declared = ServiceOverlay {
            name: manifest.services[i].clone(),
            build: BuildDirective::Reset,
            environment: Vec::new(),
        };
        assert(declared@.environment =~= Seq::empty());
        services.push(declared);
        i += 1;
    }
    let overlay = Overlay { version: manifest.version.clone(), services, volumes: Vec::new() };
    assert(overlay@.services =~= deploy_overlay(manifest@).services);
    assert(overlay@.volumes =~= Seq::empty());
    overlay
}

/// The deployment overlay declares exactly the services of the manifest:
/// every service of the manifest is declared, every declared service is one
/// of the manifest, each with its build directive reset and no environment
/// variable overridden, under the manifest's version.
pub proof fn law_overlay_declares_the_services(manifest: DockerComposeFormatView)
    ensures
        deploy_overlay(manifest).version == manifest.version,
        deploy_overlay(manifest).services.len() == manifest.services.len(),
        forall|name: Seq<char>| #[trigger]
            manifest.services.contains(name) <==> exists|i: int|
                0 <= i < deploy_overlay(manifest).services.len() && (#[trigger] deploy_overlay(
                    manifest,
                ).services[i]).name == name,
        forall|i: int|
            0 <= i < deploy_overlay(manifest).services.len() ==> {
                let declared = #[trigger] deploy_overlay(manifest).services[i];
                declared.build == BuildDirective::Reset && declared.environment.len() == 0
            },
{
    let overlay = deploy_overlay(manifest);
    assert forall|name: Seq<char>| #[trigger]
        manifest.services.contains(name) <==> exists|i: int|
            0 <= i < overlay.services.len() && (#[trigger] overlay.services[i]).name == name by {
        if manifest.services.contains(name) {
            let i = choose|i: int| 0 <= i < manifest.services.len() && manifest.services[i] == name;
            assert(overlay.services[i].name == name);
        }
        if exists|i: int|
            0 <= i < overlay.services.len() && (#[trigger] overlay.services[i]).name == name {
            let i = choose|i: int|
                0 <= i < overlay.services.len() && (#[trigger] overlay.services[i]).name == name;
            assert(manifest.services[i] == name);
        }
    }
}

} // verus!
