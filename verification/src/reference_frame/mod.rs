//! Geodetic reference frames
//!
//! Reference frames are identified by name. Transformations between frames
//! form a graph; converting a position between two frames follows the
//! shortest chain of transformations that joins them.
mod frame;
mod graph;

pub use graph::{
    distinct_edges, edge_keys, edge_map, holds_key, is_edge_path, is_symmetric, is_walk,
    lemma_add_transformation_symmetric, lemma_reverse_path, lemma_shortest_path_symmetric, lookup,
    positions, walk_end, FrameEdge, FrameGraph, FrameKey,
};

pub use frame::{
    bracket_free, lemma_alias_is_bracket_free_name, lemma_frame_name_round_trip, lemma_same_frame_key, InvalidReferenceFrameName, ReferenceFrame,
    TransformationNotFound, KNOWN_FRAME_COUNT,
};
