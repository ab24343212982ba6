use std::collections::HashMap;

use routee_compass::search_algorithm_result::{SearchAlgorithmResult, VertexId};

#[test]
fn search_result_holds_trees_and_routes() {
    let mut tree: HashMap<VertexId, &str> = HashMap::new();
    tree.insert(VertexId(3), "branch to 3");
    let result = SearchAlgorithmResult {
        trees: vec![tree],
        routes: vec![vec![1u64, 2, 3]],
        iterations: 42,
    };
    assert_eq!(result.trees[0].get(&VertexId(3)), Some(&"branch to 3"));
    assert_eq!(result.routes[0].len(), 3);
    assert_eq!(result.iterations, 42);
    assert!(VertexId(1) < VertexId(2));
}
