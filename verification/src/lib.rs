//! Core engine of a modal terminal text editor: a line-structured text
//! buffer, a movable range selection over it, and the editing operations
//! that mutate both.
//!
//! Positions are `(column, line)` pairs counted in Unicode scalar values.
//! Stored ("raw") positions may be stale with respect to the current buffer;
//! every read clamps them against the current line contents, which yields
//! the "true" position actually used for rendering and editing.

mod action;
mod document;
mod fuzzy;
mod mode;
mod pos;
mod selection;
mod single_line_document;
mod text;

pub use action::DocumentAction;
pub use action::SingleLineDocumentAction;
pub use document::lemma_insert_delete_inverse;
pub use document::lemma_move_left_right_inverse;
pub use document::lemma_split_merge_inverse;
pub use document::spec_action;
pub use document::spec_delete_before;
pub use document::spec_insert;
pub use document::spec_split_line;
pub use document::DocState;
pub use document::Document;
pub use document::DocumentName;
pub use document::WriteRequest;
pub use fuzzy::capped;
pub use fuzzy::fuzzy_score;
pub use fuzzy::fuzzy_score_spec;
pub use mode::Focused;
pub use mode::Mode;
pub use pos::buf_of;
pub use pos::char_len;
pub use pos::clamp_pos;
pub use pos::is_true;
pub use pos::lemma_clamp_total;
pub use pos::lemma_step_left_right_inverse;
pub use pos::lex_leq;
pub use pos::pos_view;
pub use pos::row_len;
pub use pos::step_down;
pub use pos::step_left;
pub use pos::step_right;
pub use pos::step_up;
pub use pos::true_pos;
pub use pos::true_row;
pub use pos::Buf;
pub use selection::lemma_min_max_ordered;
pub use selection::spec_max;
pub use selection::spec_min;
pub use selection::span_len;
pub use selection::InternalSelection;
pub use selection::Selection;
pub use single_line_document::SingleLineDocument;
pub use text::join_lines;
pub use text::join_upto;
pub use text::join_with_newlines;
