use herp_node::config::{install_get_body, node_definition, Config};
use herp_node::json::JsonValue;
use herp_node::server::{
    do_schema, install_post_transition, make_output, parse_credentials, process, run,
    validate_inputs, FieldSpec, NodeInterfaceSchema, ValidationError,
};
use herp_node::service::{credentials_or_default, Credentials};
use herp_node::text::{render_json, to_json_text};

fn s(text: &str) -> JsonValue {
    JsonValue::Str(text.to_string())
}

fn obj(pairs: Vec<(&str, JsonValue)>) -> JsonValue {
    JsonValue::Obj(pairs.into_iter().map(|(k, v)| (k.to_string(), v)).collect())
}

fn field(field_type: &str, name: &str, label: &str) -> FieldSpec {
    FieldSpec {
        field_type: field_type.to_string(),
        name: name.to_string(),
        label: label.to_string(),
    }
}

#[test]
fn do_post_concatenates_two_fields() {
    let body = obj(vec![
        ("inputField1", s("value1")),
        ("inputField2", s("value2")),
    ]);
    let out = run(&body).expect("both declared fields are present");
    assert_eq!(out, obj(vec![("outputField", s("value1value2"))]));
}

#[test]
fn do_post_missing_field_is_rejected() {
    let body = obj(vec![("input", s("value1"))]);
    assert_eq!(
        run(&body),
        Err(ValidationError::MissingField(String::from("inputField1")))
    );
    let body = obj(vec![("inputField1", s("value1"))]);
    assert_eq!(
        run(&body),
        Err(ValidationError::MissingField(String::from("inputField2")))
    );
}

#[test]
fn do_post_numeric_field_is_rejected() {
    let body = obj(vec![
        ("inputField1", JsonValue::Number),
        ("inputField2", s("value2")),
    ]);
    assert_eq!(
        run(&body),
        Err(ValidationError::WrongType(String::from("inputField1")))
    );
}

#[test]
fn do_post_non_object_body_is_rejected() {
    assert_eq!(
        run(&JsonValue::Null),
        Err(ValidationError::MissingField(String::from("inputField1")))
    );
}

#[test]
fn single_input_identity_schema() {
    let schema = NodeInterfaceSchema {
        inputs: vec![field("string", "inputField1", "String input field.")],
        outputs: vec![field("string", "outputField", "Output strings")],
    };
    let body = obj(vec![("inputField1", s("value1"))]);
    let vals = validate_inputs(&schema, &body).expect("the declared field is present");
    assert_eq!(vals, vec![String::from("value1")]);
    let out = make_output(&schema, &vals);
    assert_eq!(out, obj(vec![("outputField", s("value1"))]));

    let empty = obj(vec![]);
    assert_eq!(
        validate_inputs(&schema, &empty),
        Err(ValidationError::MissingField(String::from("inputField1")))
    );
    let numeric = obj(vec![("inputField1", JsonValue::Number)]);
    assert_eq!(
        validate_inputs(&schema, &numeric),
        Err(ValidationError::WrongType(String::from("inputField1")))
    );
}

#[test]
fn validate_reports_first_offending_field() {
    let schema = do_schema();
    let body = obj(vec![
        ("inputField1", JsonValue::Number),
        ("inputField2", JsonValue::Bool(true)),
    ]);
    assert_eq!(
        validate_inputs(&schema, &body),
        Err(ValidationError::WrongType(String::from("inputField1")))
    );
}

#[test]
fn process_concatenates() {
    assert_eq!(
        process(&String::from("value1"), &String::from("value2")),
        "value1value2"
    );
    assert_eq!(process(&String::new(), &String::from("x")), "x");
}

#[test]
fn install_post_valid_body_stores_credentials() {
    let stored = Credentials::new(String::from("old"), String::from("old-pw"));
    let body = obj(vec![("name", s("u")), ("password", s("p"))]);
    let (now_stored, ack) = install_post_transition(stored, &body);
    assert!(ack.is_ok());
    assert_eq!(now_stored.name, "u");
    assert_eq!(now_stored.password, "p");
}

#[test]
fn install_post_wrong_key_leaves_credentials_unchanged() {
    let stored = Credentials::new(String::from("u"), String::from("p"));
    let body = obj(vec![("namedd2", s("x")), ("password", s("p2"))]);
    let (now_stored, ack) = install_post_transition(stored, &body);
    assert_eq!(ack, Err(ValidationError::MissingField(String::from("name"))));
    assert_eq!(now_stored.name, "u");
    assert_eq!(now_stored.password, "p");
}

#[test]
fn install_post_non_string_password_is_rejected() {
    let body = obj(vec![("name", s("u")), ("password", JsonValue::Number)]);
    assert_eq!(
        parse_credentials(&body),
        Err(ValidationError::WrongType(String::from("password")))
    );
}

#[test]
fn install_get_serves_the_declared_interface() {
    let expected = obj(vec![(
        "nodeDefinitions",
        JsonValue::Arr(vec![obj(vec![
            ("name", s("myService")),
            ("label", s("My Service Node")),
            (
                "inputs",
                JsonValue::Arr(vec![obj(vec![
                    ("fieldType", s("string")),
                    ("name", s("inputField1")),
                    ("label", s("String input field.")),
                ])]),
            ),
            (
                "outputs",
                JsonValue::Arr(vec![obj(vec![
                    ("fieldType", s("string")),
                    ("name", s("outputField")),
                    ("label", s("Output strings")),
                ])]),
            ),
        ])]),
    )]);
    assert_eq!(node_definition(), expected);
}

#[test]
fn install_get_is_idempotent() {
    let first = install_get_body();
    let second = install_get_body();
    assert_eq!(first, second);
    assert_eq!(first.as_bytes(), second.as_bytes());
}

#[test]
fn install_get_body_is_exact() {
    let expected = "{\"nodeDefinitions\":[{\"name\":\"myService\",\"label\":\"My Service Node\",\"inputs\":[{\"fieldType\":\"string\",\"name\":\"inputField1\",\"label\":\"String input field.\"}],\"outputs\":[{\"fieldType\":\"string\",\"name\":\"outputField\",\"label\":\"Output strings\"}]}]}";
    assert_eq!(install_get_body(), expected);
}

#[test]
fn rendered_interface_parses_as_json() {
    let body = install_get_body();
    let parsed: serde_json::Value = serde_json::from_str(&body).expect("the body is valid JSON");
    assert_eq!(parsed["nodeDefinitions"][0]["name"], "myService");
    assert_eq!(
        parsed["nodeDefinitions"][0]["inputs"][0]["name"],
        "inputField1"
    );
}

#[test]
fn render_escapes_string_content() {
    let v = JsonValue::Str(String::from("a\"b\\c\n"));
    let text = to_json_text(&v);
    assert_eq!(text, "\"a\\\"b\\\\c\\u000a\"");
    let back: String = serde_json::from_str(&text).expect("the literal is valid JSON");
    assert_eq!(back, "a\"b\\c\n");
}

#[test]
fn render_refuses_numbers() {
    assert_eq!(render_json(&JsonValue::Number), None);
    assert_eq!(
        render_json(&JsonValue::Arr(vec![s("x"), JsonValue::Number])),
        None
    );
    assert_eq!(render_json(&s("x")), Some(String::from("\"x\"")));
}

#[test]
fn load_service_test() {
    assert_eq!(
        Config::load_config().service.name,
        String::from("skeleton.herp.app")
    );
}

#[test]
fn load_config_declares_register_endpoint() {
    let config = Config::load_config();
    assert_eq!(config.herp.host, "127.0.0.1:5050");
    assert!(config.herp.has_endpoint(&String::from("register")));
    assert_eq!(config.service_interface, node_definition());
}

#[test]
fn credentials_default_placeholder() {
    let c = credentials_or_default(None);
    assert_eq!(c.name, "your-email@example.com");
    assert_eq!(c.password, "admin");
    let kept = credentials_or_default(Some(Credentials::new(
        String::from("u"),
        String::from("p"),
    )));
    assert_eq!(kept.name, "u");
    assert_eq!(kept.password, "p");
}
