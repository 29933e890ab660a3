use qlik_rs::hypercube_def::QHyperCubeDef;

#[test]
fn new_hypercube_def_uses_default_state() {
    let cube = QHyperCubeDef::new();

    assert_eq!(cube.q_state_name, Some("$".to_string()));
    assert!(cube.q_dimensions.is_empty());
    assert!(cube.q_measures.is_empty());
    assert!(cube.q_initial_data_fetch.is_empty());
}
