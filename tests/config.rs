use salsa::error::InternalError;
use salsa::registry::{plan_telescope, telescope_names, TelescopeDefinition, TelescopePlan, TelescopeType};
use salsa::secrets::{AuthProvider, Secrets};

fn provider(id: &str) -> AuthProvider {
    AuthProvider {
        auth_uri: "https://auth".to_string(),
        token_uri: "https://token".to_string(),
        redirect_uri: "https://redirect".to_string(),
        user_uri: "https://user".to_string(),
        display_name_field: "username".to_string(),
        client_id: id.to_string(),
        client_secret: "client-secret".to_string(),
    }
}

fn def(name: &str, telescope_type: TelescopeType, controller: Option<&str>, receiver: Option<&str>) -> TelescopeDefinition {
    TelescopeDefinition {
        name: name.to_string(),
        telescope_type,
        controller_address: controller.map(|s| s.to_string()),
        receiver_address: receiver.map(|s| s.to_string()),
    }
}

#[test]
fn provider_names_are_sorted() {
    let mut secrets = Secrets::new();
    secrets.add_auth_provider("github".to_string(), provider("g"));
    secrets.add_auth_provider("discord".to_string(), provider("d"));
    secrets.add_auth_provider("Zeta".to_string(), provider("z"));
    secrets.add_auth_provider("discord".to_string(), provider("d2"));
    assert_eq!(vec!["Zeta", "discord", "github"], secrets.get_auth_provider_names());
    assert_eq!("d2", secrets.get_auth_provider("discord").unwrap().client_id);
}

#[test]
fn unknown_provider_is_an_error() {
    let secrets = Secrets::new();
    let err: InternalError = secrets.get_auth_provider("gitlab").err().unwrap();
    assert_eq!("No provider with name gitlab configured", err.message);
    assert!(secrets.get_auth_provider_names().is_empty());
}

#[test]
fn fake_definition_needs_no_address() {
    match plan_telescope(def("fake1", TelescopeType::Fake, None, None)).unwrap() {
        TelescopePlan::Fake { name } => assert_eq!("fake1", name),
        other => panic!("unexpected plan {:?}", other),
    }
}

#[test]
fn salsa_definition_needs_both_addresses() {
    assert!(plan_telescope(def("vale", TelescopeType::Salsa, None, Some("r:1"))).is_err());
    assert!(plan_telescope(def("vale", TelescopeType::Salsa, Some("c:1"), None)).is_err());
    match plan_telescope(def("vale", TelescopeType::Salsa, Some("c:1"), Some("r:1"))).unwrap() {
        TelescopePlan::Salsa { name, controller_address, receiver_address } => {
            assert_eq!("vale", name);
            assert_eq!("c:1", controller_address);
            assert_eq!("r:1", receiver_address);
        }
        other => panic!("unexpected plan {:?}", other),
    }
}

#[test]
fn telescope_names_sorted_and_distinct() {
    let defs = vec![
        def("vale", TelescopeType::Salsa, Some("c"), Some("r")),
        def("brage", TelescopeType::Fake, None, None),
        def("fake1", TelescopeType::Fake, None, None),
        def("brage", TelescopeType::Fake, None, None),
    ];
    assert_eq!(vec!["brage", "fake1", "vale"], telescope_names(&defs));
}

#[test]
fn internal_error_keeps_message() {
    assert_eq!("boom", InternalError::new("boom".to_string()).message);
}
