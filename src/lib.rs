//! Indentation indicator and indentation picker: the candidate list, the
//! filtering of that list against a typed query, the picker's selection state
//! machine and the path-scoped settings override that a confirmation writes.

pub mod decimal;
pub mod settings_override;
pub mod matching;
pub mod selection;
pub mod indentation;
