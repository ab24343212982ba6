use vstd::prelude::*;

use crate::assoc::{assoc_value, is_first_named, lemma_assoc_value_first_match, lookup};

verus! {

/// Errors raised while building a cost model or computing costs with it.
#[derive(Debug)]
pub enum CostError {
    /// Every feature's weight is zero, so no cost could ever be counted.
    InvalidCostVariables,
    /// The state has no variable at this index, which the named feature uses.
    StateIndexOutOfBounds(usize, String),
    /// A feature (first) has no entry in a collection (second); the third
    /// lists the features that do.
    StateVariableNotFound(String, String, String),
}

/// A model for the cost of a state transition, laid out by feature: entry
/// `i` of each vector belongs to the state variable at index `i` of the
/// search's state model.
///
/// `W` is the weight of a feature, `V` and `N` its vehicle and network cost
/// rates, and `A` the function that aggregates the per-feature costs.
pub struct CostModel<W, V, N, A> {
    indices: Vec<(String, usize)>,
    weights: Vec<W>,
    vehicle_rates: Vec<V>,
    network_rates: Vec<N>,
    cost_aggregation: A,
}

/// `value` is what a feature gets from its `mapping` entry under `name`: a
/// clone of the mapped value, or the type's default where there is none.
pub open spec fn mapped_or_default<X: Clone + Default>(
    mapping: Seq<(String, X)>,
    name: Seq<char>,
    value: X,
) -> bool {
    match assoc_value(mapping, name) {
        Some(m) => cloned(m, value),
        None => X::default.ensures((), value),
    }
}

/// `values` holds, in order, what each of `names` gets from `mapping`.
pub open spec fn laid_out<X: Clone + Default>(
    values: Seq<X>,
    mapping: Seq<(String, X)>,
    names: Seq<String>,
) -> bool {
    &&& values.len() == names.len()
    &&& forall|i: int| 0 <= i < names.len() ==> mapped_or_default(mapping, names[i]@, #[trigger] values[i])
}

impl<W, V, N, A> CostModel<W, V, N, A> {
    #[verifier::type_invariant]
    spec fn well_formed(self) -> bool {
        &&& self.weights.len() == self.indices.len()
        &&& self.vehicle_rates.len() == self.indices.len()
        &&& self.network_rates.len() == self.indices.len()
        &&& forall|i: int| 0 <= i < self.indices.len() ==> #[trigger] self.indices@[i].1 == i
    }

    /// The features' names with their state indices, in state-model order.
    pub closed spec fn spec_indices(self) -> Seq<(String, usize)> {
        self.indices@
    }

    /// The weight vector, one entry per feature.
    pub closed spec fn spec_weights(self) -> Vec<W> {
        self.weights
    }

    pub closed spec fn spec_vehicle_rates(self) -> Seq<V> {
        self.vehicle_rates@
    }

    pub closed spec fn spec_network_rates(self) -> Seq<N> {
        self.network_rates@
    }

    pub closed spec fn spec_cost_aggregation(self) -> A {
        self.cost_aggregation
    }
}

impl<W: Clone + Default, V: Clone + Default, N: Clone + Default, A> CostModel<W, V, N, A> {
    /// The model that `new` lays out for `feature_names` from the three
    /// mappings and the aggregation function.
    pub open spec fn built_from(
        self,
        weights_mapping: Seq<(String, W)>,
        vehicle_rate_mapping: Seq<(String, V)>,
        network_rate_mapping: Seq<(String, N)>,
        cost_aggregation: A,
        feature_names: Seq<String>,
    ) -> bool {
        &&& self.spec_indices().len() == feature_names.len()
        &&& forall|i: int|
            0 <= i < feature_names.len() ==> (#[trigger] self.spec_indices()[i]).0@
                == feature_names[i]@ && self.spec_indices()[i].1 == i
        &&& laid_out(self.spec_weights()@, weights_mapping, feature_names)
        &&& laid_out(self.spec_vehicle_rates(), vehicle_rate_mapping, feature_names)
        &&& laid_out(self.spec_network_rates(), network_rate_mapping, feature_names)
        &&& self.spec_cost_aggregation() == cost_aggregation
    }

    /// Builds a cost model for the features of a search's state model.
    ///
    /// `feature_names` are the state model's features in its sorted order.
    /// Each feature gets a weight, a vehicle cost rate and a network cost rate
    /// from the mappings, or the type's default (zero-valued) where a mapping
    /// has no entry for it. A zero weight deactivates the feature's costs.
    /// `weights_sum_is_zero` says whether the weights add up to zero; if they
    /// do, no cost could be counted and the model is refused.
    pub fn new<F>(
        weights_mapping: &Vec<(String, W)>,
        vehicle_rate_mapping: &Vec<(String, V)>,
        network_rate_mapping: &Vec<(String, N)>,
        cost_aggregation: A,
        feature_names: &Vec<String>,
        weights_sum_is_zero: F,
    ) -> (res: Result<Self, CostError>) where F: Fn(&Vec<W>) -> bool
        requires
            forall|w: &Vec<W>| #[trigger] weights_sum_is_zero.requires((w,)),
        ensures
            match res {
                Ok(model) => model.built_from(
                    weights_mapping@,
                    vehicle_rate_mapping@,
                    network_rate_mapping@,
                    cost_aggregation,
                    feature_names@,
                ) && weights_sum_is_zero.ensures((&model.spec_weights(),), false),
                Err(e) => e == CostError::InvalidCostVariables && exists|w: Vec<W>|
                    laid_out(w@, weights_mapping@, feature_names@)
                        && #[trigger] weights_sum_is_zero.ensures((&w,), true),
            },
    {
        let mut indices: Vec<(String, usize)> = Vec::new();
        let mut weights: Vec<W> = Vec::new();
        let mut vehicle_rates: Vec<V> = Vec::new();
        let mut network_rates: Vec<N> = Vec::new();

        let mut index: usize = 0;
        while index < feature_names.len()
            invariant
                0 <= index <= feature_names.len(),
                indices.len() == index,
                forall|i: int|
                    0 <= i < index ==> (#[trigger] indices@[i]).0@ == feature_names@[i]@
                        && indices@[i].1 == i,
                laid_out(weights@, weights_mapping@, feature_names@.take(index as int)),
                laid_out(vehicle_rates@, vehicle_rate_mapping@, feature_names@.take(index as int)),
                laid_out(network_rates@, network_rate_mapping@, feature_names@.take(index as int)),
            decreases feature_names.len() - index,
        {
            let name = &feature_names[index];
            let weight = lookup(weights_mapping, name).cloned().unwrap_or_default();
            let v_rate = lookup(vehicle_rate_mapping, name).cloned().unwrap_or_default();
            let n_rate = lookup(network_rate_mapping, name).cloned().unwrap_or_default();

            indices.push((name.clone(), index));
            weights.push(weight);
            vehicle_rates.push(v_rate);
            network_rates.push(n_rate);
            index = index + 1;
        }
        assert(feature_names@.take(index as int) =~= feature_names@);

        if weights_sum_is_zero(&weights) {
            return Err(CostError::InvalidCostVariables);
        }
        Ok(CostModel { indices, weights, vehicle_rates, network_rates, cost_aggregation })
    }
}

impl<W, V, N, A> CostModel<W, V, N, A> {
    /// The cost of each feature in `state`, computed by `map_value` from the
    /// feature's vehicle cost rate and its state variable, listed by feature in
    /// state-model order.
    ///
    /// Fails at the first feature whose state index lies beyond `state`, with
    /// that index and the feature's name. Since feature `i` reads index `i`,
    /// this succeeds exactly when `state` has a variable for every feature.
    pub fn serialize_cost<S, C, F>(&self, state: &[S], map_value: F) -> (res: Result<
        Vec<(String, C)>,
        CostError,
    >) where F: Fn(&V, &S) -> C
        requires
            forall|r: &V, x: &S| #[trigger] map_value.requires((r, x)),
        ensures
            res is Ok <==> self.spec_indices().len() <= state@.len(),
            match res {
                Ok(costs) => {
                    &&& costs@.len() == self.spec_indices().len()
                    &&& forall|i: int|
                        0 <= i < costs@.len() ==> (#[trigger] costs@[i]).0@
                            == self.spec_indices()[i].0@ && map_value.ensures(
                            (&self.spec_vehicle_rates()[i], &state@[i]),
                            costs@[i].1,
                        )
                },
                Err(e) => {
                    let j = state@.len() as int;
                    e matches CostError::StateIndexOutOfBounds(idx, name) && idx == j
                        && name@ == self.spec_indices()[j].0@
                },
            },
    {
        proof {
            use_type_invariant(self);
        }
        let mut costs: Vec<(String, C)> = Vec::new();
        let mut k: usize = 0;
        while k < self.indices.len()
            invariant
                0 <= k <= self.indices.len(),
                k <= state@.len(),
                self.weights.len() == self.indices.len(),
                self.vehicle_rates.len() == self.indices.len(),
                forall|i: int| 0 <= i < self.indices.len() ==> #[trigger] self.indices@[i].1 == i,
                forall|r: &V, x: &S| #[trigger] map_value.requires((r, x)),
                costs@.len() == k,
                forall|i: int|
                    0 <= i < k ==> (#[trigger] costs@[i]).0@ == self.indices@[i].0@
                        && map_value.ensures((&self.vehicle_rates@[i], &state@[i]), costs@[i].1),
            decreases self.indices.len() - k,
        {
            let name = &self.indices[k].0;
            let idx = self.indices[k].1;
            assert(idx == k);
            if idx >= state.len() {
                return Err(CostError::StateIndexOutOfBounds(idx, name.clone()));
            }
            let state_var = &state[idx];
            let rate = &self.vehicle_rates[idx];
            let cost = map_value(rate, state_var);
            costs.push((name.clone(), cost));
            k = k + 1;
        }
        Ok(costs)
    }
}

/// What a feature gets from a mapping, spelled out by position: a clone of
/// the value of the first entry named like the feature, or the type's default
/// when no entry is.
pub proof fn lemma_laid_out_by_position<X: Clone + Default>(
    values: Seq<X>,
    mapping: Seq<(String, X)>,
    names: Seq<String>,
)
    requires
        laid_out(values, mapping, names),
    ensures
        values.len() == names.len(),
        forall|i: int, k: int|
            0 <= i < names.len() && is_first_named(mapping, names[i]@, k) ==> cloned(
                mapping[k].1,
                #[trigger] values[i],
            ) && #[trigger] mapping[k].0@ == names[i]@,
        forall|i: int|
            0 <= i < names.len() && (forall|k: int|
                0 <= k < mapping.len() ==> (#[trigger] mapping[k]).0@ != names[i]@)
                ==> X::default.ensures((), #[trigger] values[i]),
{
    assert forall|i: int| 0 <= i < names.len() implies #[trigger] mapped_or_default(mapping, names[i]@, values[i]) by {}
    assert forall|i: int, k: int|
        0 <= i < names.len() && is_first_named(mapping, names[i]@, k) implies cloned(
            mapping[k].1,
            #[trigger] values[i],
        ) && #[trigger] mapping[k].0@ == names[i]@ by {
        lemma_assoc_value_first_match(mapping, names[i]@);
        let k2 = choose|k2: int| is_first_named(mapping, names[i]@, k2) && assoc_value(mapping, names[i]@) == Some(mapping[k2].1);
        assert(k2 == k) by {
            if k2 < k {
                assert(mapping[k2].0@ != names[i]@);
            } else if k < k2 {
                assert(mapping[k].0@ != names[i]@);
            }
        }
    }
    assert forall|i: int|
        0 <= i < names.len() && (forall|k: int|
            0 <= k < mapping.len() ==> (#[trigger] mapping[k]).0@ != names[i]@)
            implies X::default.ensures((), #[trigger] values[i]) by {
        lemma_assoc_value_first_match(mapping, names[i]@);
    }
}

/// A model laid out for `feature_names` has one entry per feature, in order:
/// feature `i` is named `feature_names[i]`, reads state index `i`, and its
/// weight and rates come from the mappings as `lemma_laid_out_by_position`
/// spells out; the aggregation function is the one given.
pub proof fn lemma_built_from_layout<W: Clone + Default, V: Clone + Default, N: Clone + Default, A>(
    model: CostModel<W, V, N, A>,
    weights_mapping: Seq<(String, W)>,
    vehicle_rate_mapping: Seq<(String, V)>,
    network_rate_mapping: Seq<(String, N)>,
    cost_aggregation: A,
    feature_names: Seq<String>,
)
    requires
        model.built_from(
            weights_mapping,
            vehicle_rate_mapping,
            network_rate_mapping,
            cost_aggregation,
            feature_names,
        ),
    ensures
        model.spec_indices().len() == feature_names.len(),
        model.spec_weights()@.len() == feature_names.len(),
        model.spec_vehicle_rates().len() == feature_names.len(),
        model.spec_network_rates().len() == feature_names.len(),
        forall|i: int|
            0 <= i < feature_names.len() ==> (#[trigger] model.spec_indices()[i]).0@
                == feature_names[i]@ && model.spec_indices()[i].1 == i,
        forall|i: int, k: int|
            0 <= i < feature_names.len() && #[trigger] is_first_named(weights_mapping, feature_names[i]@, k)
                ==> cloned(weights_mapping[k].1, #[trigger] model.spec_weights()@[i]),
        forall|i: int, k: int|
            0 <= i < feature_names.len() && #[trigger] is_first_named(vehicle_rate_mapping, feature_names[i]@, k)
                ==> cloned(vehicle_rate_mapping[k].1, #[trigger] model.spec_vehicle_rates()[i]),
        forall|i: int, k: int|
            0 <= i < feature_names.len() && #[trigger] is_first_named(network_rate_mapping, feature_names[i]@, k)
                ==> cloned(network_rate_mapping[k].1, #[trigger] model.spec_network_rates()[i]),
        model.spec_cost_aggregation() == cost_aggregation,
{
    lemma_laid_out_by_position(model.spec_weights()@, weights_mapping, feature_names);
    lemma_laid_out_by_position(model.spec_vehicle_rates(), vehicle_rate_mapping, feature_names);
    lemma_laid_out_by_position(model.spec_network_rates(), network_rate_mapping, feature_names);
    assert forall|i: int, k: int|
        0 <= i < feature_names.len() && #[trigger] is_first_named(weights_mapping, feature_names[i]@, k)
            implies cloned(weights_mapping[k].1, #[trigger] model.spec_weights()@[i]) by {
        assert(weights_mapping[k].0@ == feature_names[i]@);
    }
    assert forall|i: int, k: int|
        0 <= i < feature_names.len() && #[trigger] is_first_named(vehicle_rate_mapping, feature_names[i]@, k)
            implies cloned(vehicle_rate_mapping[k].1, #[trigger] model.spec_vehicle_rates()[i]) by {
        assert(vehicle_rate_mapping[k].0@ == feature_names[i]@);
    }
    assert forall|i: int, k: int|
        0 <= i < feature_names.len() && #[trigger] is_first_named(network_rate_mapping, feature_names[i]@, k)
            implies cloned(network_rate_mapping[k].1, #[trigger] model.spec_network_rates()[i]) by {
        assert(network_rate_mapping[k].0@ == feature_names[i]@);
    }
}

/// A model built by `new` for `feature_names` can serialize the costs of any
/// state that has a variable for each of those features.
pub proof fn lemma_new_model_serializes_full_states<W: Clone + Default, V: Clone + Default, N: Clone + Default, A>(
    model: CostModel<W, V, N, A>,
    weights_mapping: Seq<(String, W)>,
    vehicle_rate_mapping: Seq<(String, V)>,
    network_rate_mapping: Seq<(String, N)>,
    cost_aggregation: A,
    feature_names: Seq<String>,
    state_len: nat,
)
    requires
        model.built_from(
            weights_mapping,
            vehicle_rate_mapping,
            network_rate_mapping,
            cost_aggregation,
            feature_names,
        ),
        feature_names.len() <= state_len,
    ensures
        model.spec_indices().len() <= state_len,
{
}

impl<W, V, N, A> CostModel<W, V, N, A> {
    /// The features' names with their state indices.
    pub fn indices(&self) -> (res: &Vec<(String, usize)>)
        ensures
            res@ == self.spec_indices(),
    {
        &self.indices
    }

    /// The features' weights.
    pub fn weights(&self) -> (res: &Vec<W>)
        ensures
            *res == self.spec_weights(),
    {
        &self.weights
    }

    /// The features' vehicle cost rates.
    pub fn vehicle_rates(&self) -> (res: &Vec<V>)
        ensures
            res@ == self.spec_vehicle_rates(),
    {
        &self.vehicle_rates
    }

    /// The features' network cost rates.
    pub fn network_rates(&self) -> (res: &Vec<N>)
        ensures
            res@ == self.spec_network_rates(),
    {
        &self.network_rates
    }

    /// The function that aggregates the per-feature costs.
    pub fn cost_aggregation(&self) -> (res: &A)
        ensures
            *res == self.spec_cost_aggregation(),
    {
        &self.cost_aggregation
    }
}

} // verus!
