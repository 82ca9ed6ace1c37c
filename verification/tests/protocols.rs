use habitat_sup::protocols::{ApplicationEnvironment, PackageIdent, ProcessState, ServiceGroup};

fn ident(version: Option<&str>, release: Option<&str>) -> PackageIdent {
    PackageIdent {
        origin: "core".to_string(),
        name: "redis".to_string(),
        version: version.map(|v| v.to_string()),
        release: release.map(|r| r.to_string()),
    }
}

#[test]
fn application_environment_displays_with_a_dot() {
    let app_env = ApplicationEnvironment {
        application: "myapp".to_string(),
        environment: "prod".to_string(),
    };
    assert_eq!(app_env.to_string(), "myapp.prod");
}

#[test]
fn package_ident_displays_its_set_parts() {
    assert_eq!(ident(Some("3.2.1"), Some("20180101")).to_string(), "core/redis/3.2.1/20180101");
    assert_eq!(ident(Some("3.2.1"), None).to_string(), "core/redis/3.2.1");
    assert_eq!(ident(None, None).to_string(), "core/redis");
    assert_eq!(ident(None, Some("20180101")).to_string(), "core/redis");
}

#[test]
fn package_ident_accessors() {
    let full = ident(Some("1.0"), Some("2"));
    assert_eq!(full.origin(), "core");
    assert_eq!(full.name(), "redis");
    assert_eq!(full.version(), Some("1.0"));
    assert_eq!(full.release(), Some("2"));
    let bare = ident(None, None);
    assert_eq!(bare.version(), None);
    assert_eq!(bare.release(), None);
}

#[test]
fn process_state_displays_lower_case() {
    assert_eq!(ProcessState::Down.to_string(), "down");
    assert_eq!(ProcessState::Up.to_string(), "up");
}

#[test]
fn service_group_displays_scope() {
    let mut sg = ServiceGroup {
        service: "redis".to_string(),
        group: "default".to_string(),
        application_environment: None,
        organization: None,
    };
    assert_eq!(sg.to_string(), "redis.default");
    sg.organization = Some("acme".to_string());
    assert_eq!(sg.to_string(), "redis.default@acme");
    sg.application_environment = Some(ApplicationEnvironment {
        application: "myapp".to_string(),
        environment: "prod".to_string(),
    });
    assert_eq!(sg.to_string(), "myapp.prod#redis.default@acme");
    sg.organization = None;
    assert_eq!(sg.to_string(), "myapp.prod#redis.default");
}
