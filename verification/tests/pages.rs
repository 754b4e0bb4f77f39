use scheduler::page_template::{create_template, ReactElement};

#[test]
fn react_elements_know_their_name_and_kind() {
    let header = ReactElement::COMPONENT(String::from("Header"));
    let login = ReactElement::PAGE(String::from("Login"));
    assert_eq!(header.name(), "Header");
    assert_eq!(login.name(), "Login");
    assert!(!header.is_page());
    assert!(login.is_page());
}

#[test]
fn create_template_picks_the_single_page_element() {
    let elements = vec![
        ReactElement::COMPONENT(String::from("Header")),
        ReactElement::PAGE(String::from("Login")),
        ReactElement::COMPONENT(String::from("ErrorMessage")),
    ];
    let components = vec![
        String::from("header code"),
        String::from("login code"),
        String::from("error code"),
    ];
    let template = create_template(String::from("Log in"), &elements, components);
    assert_eq!(template.title, "Log in");
    assert_eq!(template.page_component_name, "Login");
    assert_eq!(template.components.len(), 3);
    assert_eq!(template.components[1], "login code");
}
