use vstd::prelude::*;

use crate::decimal::{decimal, push_decimal};

verus! {

/// A file inside the project: the worktree that owns it and its path relative
/// to that worktree's root.
pub struct ProjectPath {
    pub worktree_id: usize,
    pub path: String,
}

/// A local, path-scoped editorconfig fragment to be stored for `path` under
/// the worktree `worktree_id`.
pub struct SettingsOverride {
    pub worktree_id: usize,
    pub path: String,
    pub config: String,
}

/// The editorconfig fragment that sets the indentation of the scoped path and
/// everything beneath it to `width` spaces.
pub open spec fn editorconfig_text(width: nat) -> Seq<char> {
    "[/**]\nindent_size = "@ + decimal(width) + "\nindent_style = space\ntab_width="@ + decimal(
        width,
    )
}

/// Builds the editorconfig fragment for an indentation of `width` spaces.
pub fn editorconfig_override(width: usize) -> (r: String)
    ensures
        r@ == editorconfig_text(width as nat),
{
    let mut text = String::from_str("[/**]\nindent_size = ");
    push_decimal(&mut text, width);
    text.append("\nindent_style = space\ntab_width=");
    push_decimal(&mut text, width);
    text
}

/// The override that sets the indentation of `file` to `width` spaces.
pub fn override_for_file(file: &ProjectPath, width: usize) -> (r: SettingsOverride)
    ensures
        r.worktree_id == file.worktree_id,
        r.path@ == file.path@,
        r.config@ == editorconfig_text(width as nat),
{
    SettingsOverride {
        worktree_id: file.worktree_id,
        path: file.path.clone(),
        config: editorconfig_override(width),
    }
}

} // verus!
