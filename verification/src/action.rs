//! The operations a document accepts, as plain data.
//!
//! The single-line actions are the ones meaningful for a one-line field as
//! well; the remaining document actions are structurally multiline.

use vstd::prelude::*;

verus! {

/// An action meaningful for any document, including a single-line one.
#[derive(Clone, Copy, Debug)]
pub enum SingleLineDocumentAction {
    MoveLeft,
    MoveRight,
    Insert { ch: char },
    DeleteBefore,
}

/// An action on a full document.
#[derive(Clone, Copy, Debug)]
pub enum DocumentAction {
    SingleLine(SingleLineDocumentAction),
    MoveUp,
    MoveDown,
    ExtendStartLeft,
    ExtendStartRight,
    ExtendStartUp,
    ExtendStartDown,
    ExtendEndLeft,
    ExtendEndRight,
    ExtendEndUp,
    ExtendEndDown,
    MoveSelectionLeft,
    MoveSelectionRight,
    MoveSelectionUp,
    MoveSelectionDown,
    InsertLineBeforeCursor,
    Write,
}

} // verus!
