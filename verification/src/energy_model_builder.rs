use vstd::prelude::*;

use crate::json::JsonValue;

verus! {

#[verifier::external_type_specification]
#[verifier::external_body]
pub struct ExSerdeJsonError(serde_json::Error);

/// Errors raised while reading a component's configuration.
#[derive(Debug)]
pub enum CompassConfigurationError {
    /// A field (first) that the component (second) needs is absent.
    ExpectedFieldForComponent(String, String),
    /// A field (first) is present but not of the expected type (second).
    ExpectedFieldWithType(String, String),
    /// A field could not be deserialized into the type it names.
    SerdeDeserializationError(serde_json::Error),
}

/// Builds the RouteE energy traversal model from its configuration section.
pub struct EnergyModelBuilder {}

/// What the RouteE random-forest energy model is constructed from: the file
/// of edge speeds, the file of the RouteE model, and the units in which
/// travel time and energy are reported.
pub struct EnergyModelSettings<T, U> {
    pub velocity_filename: String,
    pub routee_filename: String,
    pub time_unit: T,
    pub energy_rate_unit: U,
}

pub open spec fn velocity_filename_key() -> Seq<char> {
    "velocity_filename"@
}

pub open spec fn routee_filename_key() -> Seq<char> {
    "routee_filename"@
}

pub open spec fn time_unit_key() -> Seq<char> {
    "time_unit"@
}

pub open spec fn energy_rate_unit_key() -> Seq<char> {
    "energy_unit"@
}

/// The name of the configuration section that traversal models live in.
pub open spec fn traversal_key() -> Seq<char> {
    "traversal"@
}

/// `parameters` holds a string under `key`.
pub open spec fn has_string_field(parameters: JsonValue, key: Seq<char>) -> bool {
    parameters.spec_get(key) matches Some(v) && v.spec_as_str() is Some
}

/// The string that `parameters` holds under `key`.
pub open spec fn string_field(parameters: JsonValue, key: Seq<char>) -> Seq<char> {
    parameters.spec_get(key).unwrap().spec_as_str().unwrap()
}

pub open spec fn is_missing_field(
    res: Result<(), CompassConfigurationError>,
    field: Seq<char>,
    component: Seq<char>,
) -> bool {
    res matches Err(CompassConfigurationError::ExpectedFieldForComponent(f, c)) && f@ == field
        && c@ == component
}

pub open spec fn is_wrong_type(
    res: Result<(), CompassConfigurationError>,
    field: Seq<char>,
    expected_type: Seq<char>,
) -> bool {
    res matches Err(CompassConfigurationError::ExpectedFieldWithType(f, t)) && f@ == field
        && t@ == expected_type
}

/// The outcome of `res` without its value.
pub open spec fn outcome<T>(res: Result<T, CompassConfigurationError>) -> Result<(), CompassConfigurationError> {
    match res {
        Ok(_) => Ok(()),
        Err(e) => Err(e),
    }
}

/// Reads a string field of `parameters`, failing as the energy model's
/// configuration does when it is absent or not a string.
fn string_parameter(parameters: &JsonValue, key: &String, component: &String) -> (res: Result<
    String,
    CompassConfigurationError,
>)
    ensures
        parameters.spec_get(key@) is None ==> is_missing_field(outcome(res), key@, component@),
        parameters.spec_get(key@) is Some && !has_string_field(*parameters, key@) ==> is_wrong_type(
            outcome(res),
            key@,
            "String"@,
        ),
        has_string_field(*parameters, key@) ==> (res matches Ok(s) && s@ == string_field(
            *parameters,
            key@,
        )),
        forall|s: String|
            parameters.spec_get(key@) == Some(JsonValue::String(s)) ==> (res matches Ok(r) && r@
                == s@),
        res is Ok ==> exists|s: String| parameters.spec_get(key@) == Some(JsonValue::String(s)),
{
    match parameters.get(key) {
        None => Err(CompassConfigurationError::ExpectedFieldForComponent(key.clone(), component.clone())),
        Some(v) => match v.as_str() {
            Some(s) => Ok(s.to_owned()),
            None => Err(CompassConfigurationError::ExpectedFieldWithType(key.clone(), "String".to_owned())),
        },
    }
}

/// What `build` returns once both file names have been read: it depends on
/// the unit fields and on what the unit parsers make of them.
pub open spec fn units_outcome<T, U, FT, FU>(
    parameters: JsonValue,
    parse_time_unit: FT,
    parse_energy_unit: FU,
    res: Result<EnergyModelSettings<T, U>, CompassConfigurationError>,
) -> bool where
    FT: Fn(&JsonValue) -> Result<T, serde_json::Error>,
    FU: Fn(&JsonValue) -> Result<U, serde_json::Error>,
 {
    match parameters.spec_get(time_unit_key()) {
        None => is_missing_field(outcome(res), velocity_filename_key(), time_unit_key()),
        Some(tv) => exists|rt: Result<T, serde_json::Error>|
            #[trigger] parse_time_unit.ensures((&tv,), rt) && match rt {
                Err(e) => res == Err::<EnergyModelSettings<T, U>, _>(
                    CompassConfigurationError::SerdeDeserializationError(e),
                ),
                Ok(t) => match parameters.spec_get(energy_rate_unit_key()) {
                    None => is_missing_field(
                        outcome(res),
                        velocity_filename_key(),
                        energy_rate_unit_key(),
                    ),
                    Some(ev) => exists|ru: Result<U, serde_json::Error>|
                        #[trigger] parse_energy_unit.ensures((&ev,), ru) && match ru {
                            Err(e) => res == Err::<EnergyModelSettings<T, U>, _>(
                                CompassConfigurationError::SerdeDeserializationError(e),
                            ),
                            Ok(u) => res matches Ok(settings) && settings.velocity_filename@
                                == string_field(parameters, velocity_filename_key())
                                && settings.routee_filename@ == string_field(
                                parameters,
                                routee_filename_key(),
                            ) && settings.time_unit == t && settings.energy_rate_unit == u,
                        },
                },
            },
    }
}

impl EnergyModelBuilder {
    /// Reads the energy model's settings from its configuration section.
    ///
    /// The fields are read in this order, and the first that fails decides
    /// the error: `velocity_filename` and `routee_filename` (each must be
    /// present and a string), then `time_unit` and `energy_unit` (each must be
    /// present and is handed to its parser). An absent unit field is reported
    /// as `ExpectedFieldForComponent("velocity_filename", <unit field>)`.
    pub fn build<T, U, FT, FU>(
        &self,
        parameters: &JsonValue,
        parse_time_unit: FT,
        parse_energy_unit: FU,
    ) -> (res: Result<EnergyModelSettings<T, U>, CompassConfigurationError>) where
        FT: Fn(&JsonValue) -> Result<T, serde_json::Error>,
        FU: Fn(&JsonValue) -> Result<U, serde_json::Error>,

        requires
            forall|v: &JsonValue| #[trigger] parse_time_unit.requires((v,)),
            forall|v: &JsonValue| #[trigger] parse_energy_unit.requires((v,)),
        ensures
            parameters.spec_get(velocity_filename_key()) is None ==> is_missing_field(
                outcome(res),
                velocity_filename_key(),
                traversal_key(),
            ),
            parameters.spec_get(velocity_filename_key()) is Some && !has_string_field(
                *parameters,
                velocity_filename_key(),
            ) ==> is_wrong_type(outcome(res), velocity_filename_key(), "String"@),
            has_string_field(*parameters, velocity_filename_key()) && parameters.spec_get(
                routee_filename_key(),
            ) is None ==> is_missing_field(outcome(res), routee_filename_key(), traversal_key()),
            has_string_field(*parameters, velocity_filename_key()) && parameters.spec_get(
                routee_filename_key(),
            ) is Some && !has_string_field(*parameters, routee_filename_key()) ==> is_wrong_type(
                outcome(res),
                routee_filename_key(),
                "String"@,
            ),
            has_string_field(*parameters, velocity_filename_key()) && has_string_field(
                *parameters,
                routee_filename_key(),
            ) ==> units_outcome(*parameters, parse_time_unit, parse_energy_unit, res),
            res matches Ok(settings) ==> (parameters.spec_get(velocity_filename_key()) matches Some(
                JsonValue::String(v),
            ) && v@ == settings.velocity_filename@),
            res matches Ok(settings) ==> (parameters.spec_get(routee_filename_key()) matches Some(
                JsonValue::String(r),
            ) && r@ == settings.routee_filename@),
    {
        let velocity_filename_key = "velocity_filename".to_owned();
        let routee_filename_key = "routee_filename".to_owned();
        let time_unit_key = "time_unit".to_owned();
        let energy_rate_unit_key = "energy_unit".to_owned();
        let traversal_key = "traversal".to_owned();

        let velocity_filename = match string_parameter(
            parameters,
            &velocity_filename_key,
            &traversal_key,
        ) {
            Ok(s) => s,
            Err(e) => return Err(e),
        };
        let routee_filename = match string_parameter(
            parameters,
            &routee_filename_key,
            &traversal_key,
        ) {
            Ok(s) => s,
            Err(e) => return Err(e),
        };

        let time_unit = match parameters.get(&time_unit_key) {
            None => {
                return Err(
                    CompassConfigurationError::ExpectedFieldForComponent(
                        velocity_filename_key.clone(),
                        time_unit_key.clone(),
                    ),
                )
            },
            Some(t) => match parse_time_unit(t) {
                Ok(unit) => unit,
                Err(e) => return Err(CompassConfigurationError::SerdeDeserializationError(e)),
            },
        };

        let energy_rate_unit = match parameters.get(&energy_rate_unit_key) {
            None => {
                return Err(
                    CompassConfigurationError::ExpectedFieldForComponent(
                        velocity_filename_key.clone(),
                        energy_rate_unit_key.clone(),
                    ),
                )
            },
            Some(t) => match parse_energy_unit(t) {
                Ok(unit) => unit,
                Err(e) => return Err(CompassConfigurationError::SerdeDeserializationError(e)),
            },
        };

        Ok(EnergyModelSettings { velocity_filename, routee_filename, time_unit, energy_rate_unit })
    }
}

/// A field holding a string value reads as that string's whole text.
pub proof fn lemma_string_field_is_stored_text(parameters: JsonValue, key: Seq<char>, s: String)
    requires
        parameters.spec_get(key) == Some(JsonValue::String(s)),
    ensures
        has_string_field(parameters, key),
        string_field(parameters, key) == s@,
{
}

/// Whatever the unit parsers return, settings read from `parameters` carry
/// the file names exactly as they are stored there.
pub proof fn lemma_settings_keep_file_names<T, U, FT, FU>(
    parameters: JsonValue,
    parse_time_unit: FT,
    parse_energy_unit: FU,
    res: Result<EnergyModelSettings<T, U>, CompassConfigurationError>,
    velocity_filename: String,
    routee_filename: String,
) where
    FT: Fn(&JsonValue) -> Result<T, serde_json::Error>,
    FU: Fn(&JsonValue) -> Result<U, serde_json::Error>,

    requires
        parameters.spec_get(velocity_filename_key()) == Some(JsonValue::String(velocity_filename)),
        parameters.spec_get(routee_filename_key()) == Some(JsonValue::String(routee_filename)),
        units_outcome(parameters, parse_time_unit, parse_energy_unit, res),
    ensures
        res matches Ok(settings) ==> settings.velocity_filename@ == velocity_filename@
            && settings.routee_filename@ == routee_filename@,
{
}

} // verus!
