//! Static property inference and propagation for differentially-private
//! computation graphs: a typed value model, the properties that describe a
//! value without holding it, inference of properties from public values, and
//! the propagation rule of the binning operator.

mod args;
mod bin;
mod bounds;
mod error;
mod fixed;
mod inference;
mod laws;
mod order;
mod properties;
mod value;

pub use args::{find_argument, is_first_key, lookup};
pub use bin::{
    all_present, bin_columns, bin_failure, bin_output, binned_columns, column_categories,
    columns_present, edge_column, edges_fit, edges_fit_columns, fits_columns, keeps_other_fields,
    nature_from_edges, null_at, num_cells, numeric_pair, parse_side, side_categories, side_from, Bin,
    BinSide, PrivacyDefinition,
};
pub use bounds::{
    bound_of_ints, bound_of_reals, extreme_int, extreme_real, int_bound, lemma_int_bounds_ordered,
    lemma_real_bounds_ordered, real_bound,
};
pub use error::{Error, ErrorKind};
pub use fixed::{
    half_sum_trunc, half_trunc, lemma_real_of_int_monotone, real_of_int, Edge, Real, TICKS_PER_UNIT,
};
pub use inference::{
    array_described, bounds_failure, bounds_of, categories_describe, categories_failure,
    column_copies, column_count, copy_all, dense_column_lists, dense_columns, dense_int_bounds,
    dense_real_bounds, describes, get_shape, infer_c_stability, infer_categories, infer_max,
    infer_min, infer_nature, infer_nullity, infer_num_columns, infer_num_rows, infer_property,
    jagged_distinct_lists, jagged_int_bounds, jagged_real_bounds, lists_columns, lists_distinct,
    nature_describes, nature_failure, ones, property_ok, real_of_opt, row_count, type_of, value_wf,
};
pub use laws::{
    lemma_bounds_match_columns, lemma_edge_count_mismatch, lemma_inference_idempotent,
    lemma_min_le_max, lemma_shared_edges_broadcast,
    lemma_mixed_types_rejected, same_array_properties, same_jagged, same_lists, same_nature,
    same_properties,
};
pub use order::{
    has_like, lemma_lex_strict_total, lex_before, sorted_distinct, sorted_distinct_of,
    strictly_sorted, Category,
};
pub use properties::{
    copy_name, copy_reals, ArrayProperties, DataType, HashmapProperties, JaggedProperties,
    KeyedProperties, Nature, NatureCategorical, NatureContinuous, ValueProperties,
};
pub use value::{cells, ArrayND, DenseArray, Hashmap, Value, Vector2DJagged};
