# routee_compass

Verified pieces of the RouteE Compass routing engine.

- `src/json.rs`: a JSON document type and member lookup.
- `src/assoc.rs`: lookup in lists of named entries.
- `src/energy_model_builder.rs`: reading the energy model's settings from
  its configuration section, with the order in which fields are checked.
- `src/cost_model.rs`: the per-feature layout of a cost model and the
  per-feature costs of a state.
- `src/search_algorithm_result.rs`: the result of a search.
- `app/lib.rs`: conversion from and to `serde_json` values, unit
  deserialization, and the floating-point parts of the cost model.
