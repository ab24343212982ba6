//! Parameter handling, cost-model layout and search-result types of the
//! RouteE Compass routing engine.

pub mod assoc;
pub mod json;
pub mod energy_model_builder;
pub mod cost_model;
pub mod search_algorithm_result;
