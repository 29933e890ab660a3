//! Declarative data shapes describing an analytic result set request.
//!
//! These structures carry no behavior of their own: they are filled in by a
//! caller and consumed by the engine only after a connection is
//! established.

use vstd::prelude::*;

verus! {

/// A hypercube definition: the dimensions, measures and initial data
/// window of one analytic request.
pub struct QHyperCubeDef {
    pub q_state_name: Option<String>,
    pub q_dimensions: Vec<QDimension>,
    pub q_measures: Vec<QMeasure>,
    pub q_initial_data_fetch: Vec<QInitialDataFetch>,
}

/// One dimension of a hypercube.
pub struct QDimension {
    pub q_library_id: Option<String>,
    pub q_null_suppression: bool,
    pub q_def: QDimensionQDef,
}

/// The inline definition of a dimension.
pub struct QDimensionQDef {
    pub q_grouping: String,
    pub q_field_defs: Vec<String>,
    pub q_field_labels: Vec<String>,
}

/// The window of data to fetch when the hypercube is first evaluated.
pub struct QInitialDataFetch {
    pub q_top: i64,
    pub q_left: i64,
    pub q_height: i64,
    pub q_width: i64,
}

/// One measure of a hypercube.
pub struct QMeasure {
    pub q_library_id: String,
    pub q_sort_by: QSortBy,
    pub q_def: QMeasureQDef,
}

/// The inline definition of a measure.
pub struct QMeasureQDef {
    pub q_label: String,
    pub q_description: String,
    pub q_tags: Vec<String>,
    pub q_grouping: String,
    pub q_def: String,
}

/// The sort criteria of a measure.
pub struct QSortBy {
    pub q_sort_by_state: i64,
    pub q_sort_by_frequency: i64,
    pub q_sort_by_numeric: i64,
    pub q_sort_by_ascii: i64,
    pub q_sort_by_load_order: i64,
    pub q_sort_by_expression: i64,
    pub q_expression: QExpression,
}

/// A sort expression.
pub struct QExpression {
    pub qv: String,
}

impl QHyperCubeDef {
    /// Creates an empty hypercube definition in the default state `$`.
    pub fn new() -> (r: QHyperCubeDef)
        ensures
            r.q_state_name matches Some(s) && s@ == "$"@,
            r.q_dimensions@.len() == 0,
            r.q_measures@.len() == 0,
            r.q_initial_data_fetch@.len() == 0,
    {
        QHyperCubeDef {
            q_state_name: Some(String::from_str("$")),
            q_dimensions: Vec::new(),
            q_measures: Vec::new(),
            q_initial_data_fetch: Vec::new(),
        }
    }
}

impl Default for QHyperCubeDef {
    /// A hypercube definition with every attribute left unset or empty.
    fn default() -> (r: QHyperCubeDef)
        ensures
            r.q_state_name is None,
            r.q_dimensions@.len() == 0,
            r.q_measures@.len() == 0,
            r.q_initial_data_fetch@.len() == 0,
    {
        QHyperCubeDef {
            q_state_name: None,
            q_dimensions: Vec::new(),
            q_measures: Vec::new(),
            q_initial_data_fetch: Vec::new(),
        }
    }
}

} // verus!
