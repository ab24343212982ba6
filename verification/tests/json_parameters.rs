use routee_compass::energy_model_builder::{
    CompassConfigurationError, EnergyModelBuilder, EnergyModelSettings,
};
use routee_compass::json::JsonValue;

fn s(text: &str) -> String {
    text.to_string()
}

fn object(members: Vec<(&str, JsonValue)>) -> JsonValue {
    JsonValue::Object(members.into_iter().map(|(k, v)| (s(k), v)).collect())
}

fn text(value: &str) -> JsonValue {
    JsonValue::String(s(value))
}

fn serde_error() -> serde_json::Error {
    serde_json::from_str::<u8>("not a number").unwrap_err()
}

/// Accepts the unit names "hours" and "seconds".
fn parse_time(v: &JsonValue) -> Result<String, serde_json::Error> {
    match v.as_str() {
        Some(name) if name == "hours" || name == "seconds" => Ok(name.to_string()),
        _ => Err(serde_error()),
    }
}

/// Accepts the unit name "gallons_gasoline".
fn parse_energy(v: &JsonValue) -> Result<String, serde_json::Error> {
    match v.as_str() {
        Some("gallons_gasoline") => Ok(s("gallons_gasoline")),
        _ => Err(serde_error()),
    }
}

fn full_parameters() -> Vec<(&'static str, JsonValue)> {
    vec![
        ("velocity_filename", text("speeds.txt")),
        ("routee_filename", text("model.bin")),
        ("time_unit", text("hours")),
        ("energy_unit", text("gallons_gasoline")),
    ]
}

fn build(parameters: &JsonValue) -> Result<EnergyModelSettings<String, String>, CompassConfigurationError> {
    EnergyModelBuilder {}.build(parameters, parse_time, parse_energy)
}

fn expect_missing(
    res: Result<EnergyModelSettings<String, String>, CompassConfigurationError>,
    field: &str,
    component: &str,
) {
    match res {
        Err(CompassConfigurationError::ExpectedFieldForComponent(f, c)) => {
            assert_eq!(f, field);
            assert_eq!(c, component);
        }
        _ => panic!("expected a missing-field error for {}", field),
    }
}

fn expect_wrong_type(
    res: Result<EnergyModelSettings<String, String>, CompassConfigurationError>,
    field: &str,
) {
    match res {
        Err(CompassConfigurationError::ExpectedFieldWithType(f, t)) => {
            assert_eq!(f, field);
            assert_eq!(t, "String");
        }
        _ => panic!("expected a wrong-type error for {}", field),
    }
}

fn without(field: &str) -> JsonValue {
    object(full_parameters().into_iter().filter(|(k, _)| *k != field).collect())
}

fn replaced(field: &str, value: JsonValue) -> JsonValue {
    let mut members = full_parameters();
    for m in members.iter_mut() {
        if m.0 == field {
            m.1 = value;
            return object(members);
        }
    }
    panic!("no such field")
}

#[test]
fn get_finds_member_of_object() {
    let v = object(vec![("a", text("x")), ("b", JsonValue::Bool(true))]);
    match v.get(&s("b")) {
        Some(JsonValue::Bool(b)) => assert!(*b),
        _ => panic!("member b not found"),
    }
    assert!(v.get(&s("c")).is_none());
}

#[test]
fn get_takes_first_of_repeated_members() {
    let v = object(vec![("a", text("first")), ("a", text("second"))]);
    assert_eq!(v.get(&s("a")).and_then(|x| x.as_str()), Some("first"));
}

#[test]
fn get_on_non_object_is_none() {
    assert!(text("a").get(&s("a")).is_none());
    assert!(JsonValue::Null.get(&s("a")).is_none());
    assert!(JsonValue::Array(vec![text("a")]).get(&s("a")).is_none());
}

#[test]
fn as_str_only_for_strings() {
    assert_eq!(text("abc").as_str(), Some("abc"));
    assert_eq!(JsonValue::Number(s("3")).as_str(), None);
    assert_eq!(JsonValue::Bool(false).as_str(), None);
}

#[test]
fn build_reads_all_settings() {
    let settings = build(&object(full_parameters())).ok().unwrap();
    assert_eq!(settings.velocity_filename, "speeds.txt");
    assert_eq!(settings.routee_filename, "model.bin");
    assert_eq!(settings.time_unit, "hours");
    assert_eq!(settings.energy_rate_unit, "gallons_gasoline");
}

#[test]
fn build_missing_velocity_filename() {
    expect_missing(build(&without("velocity_filename")), "velocity_filename", "traversal");
}

#[test]
fn build_on_non_object_reports_velocity_filename() {
    expect_missing(build(&JsonValue::Null), "velocity_filename", "traversal");
}

#[test]
fn build_velocity_filename_not_string() {
    expect_wrong_type(
        build(&replaced("velocity_filename", JsonValue::Number(s("7")))),
        "velocity_filename",
    );
}

#[test]
fn build_missing_routee_filename() {
    expect_missing(build(&without("routee_filename")), "routee_filename", "traversal");
}

#[test]
fn build_routee_filename_not_string() {
    expect_wrong_type(
        build(&replaced("routee_filename", JsonValue::Bool(true))),
        "routee_filename",
    );
}

#[test]
fn build_missing_time_unit() {
    expect_missing(build(&without("time_unit")), "velocity_filename", "time_unit");
}

#[test]
fn build_bad_time_unit() {
    match build(&replaced("time_unit", text("fortnights"))) {
        Err(CompassConfigurationError::SerdeDeserializationError(_)) => {}
        _ => panic!("expected a deserialization error"),
    }
}

#[test]
fn build_missing_energy_unit() {
    expect_missing(build(&without("energy_unit")), "velocity_filename", "energy_unit");
}

#[test]
fn build_bad_energy_unit() {
    match build(&replaced("energy_unit", text("joules"))) {
        Err(CompassConfigurationError::SerdeDeserializationError(_)) => {}
        _ => panic!("expected a deserialization error"),
    }
}

#[test]
fn build_first_failing_field_decides() {
    // both file names are broken: the velocity file name is read first
    let p = object(vec![
        ("velocity_filename", JsonValue::Null),
        ("time_unit", text("hours")),
    ]);
    expect_wrong_type(build(&p), "velocity_filename");
    // a bad time unit is reported before a missing energy unit
    let p = object(vec![
        ("velocity_filename", text("a")),
        ("routee_filename", text("b")),
        ("time_unit", text("fortnights")),
    ]);
    match build(&p) {
        Err(CompassConfigurationError::SerdeDeserializationError(_)) => {}
        _ => panic!("expected a deserialization error"),
    }
}
