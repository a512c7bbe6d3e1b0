use vstd::prelude::*;

use crate::decimal::{decimal, push_decimal};

verus! {

/// Whether a level of indentation is made of spaces or of tabs.
#[derive(PartialEq, Eq, Structural, Clone, Copy, Debug)]
pub enum IndentKind {
    Space,
    Tab,
}

/// The indentation of a document: a width and a kind.
#[derive(PartialEq, Eq, Structural, Clone, Copy, Debug)]
pub struct IndentSize {
    pub len: u32,
    pub kind: IndentKind,
}

/// The indentation settings that apply to a document of a known language.
#[derive(PartialEq, Eq, Structural, Clone, Copy, Debug)]
pub struct LanguageIndentSettings {
    pub tab_size: u32,
    pub hard_tabs: bool,
}

/// The indentation that `settings` give.
pub open spec fn indent_of(settings: LanguageIndentSettings) -> IndentSize {
    IndentSize {
        len: settings.tab_size,
        kind: if settings.hard_tabs {
            IndentKind::Tab
        } else {
            IndentKind::Space
        },
    }
}

/// The indentation shown for a document whose language has `settings`, or
/// none for a document with no language.
pub open spec fn indent_of_language(settings: Option<LanguageIndentSettings>) -> Option<IndentSize> {
    match settings {
        Some(s) => Some(indent_of(s)),
        None => None,
    }
}

/// The effective indentation of a document from the settings of its language;
/// `None` stands for a document with no language, which shows no indentation.
pub fn read_indent_size(settings: Option<LanguageIndentSettings>) -> (r: Option<IndentSize>)
    ensures
        r == indent_of_language(settings),
{
    match settings {
        Some(s) => Some(
            IndentSize {
                len: s.tab_size,
                kind: if s.hard_tabs {
                    IndentKind::Tab
                } else {
                    IndentKind::Space
                },
            },
        ),
        None => None,
    }
}

/// The status-bar text for an indentation: `"Tab: 4"` or `"Space: 2"`.
pub open spec fn status_text(size: IndentSize) -> Seq<char> {
    (if size.kind == IndentKind::Tab {
        "Tab: "@
    } else {
        "Space: "@
    }) + decimal(size.len as nat)
}

/// The status-bar indicator: the indentation of the active document, if it
/// has one.
pub struct Indentation {
    indent_size: Option<IndentSize>,
}

impl Indentation {
    /// What the indicator shows.
    pub closed spec fn shown(&self) -> Option<IndentSize> {
        self.indent_size
    }

    /// An indicator that shows nothing yet.
    pub fn new() -> (r: Self)
        ensures
            r.shown() is None,
    {
        Indentation { indent_size: None }
    }

    /// The indentation shown.
    pub fn indent_size(&self) -> (r: Option<IndentSize>)
        ensures
            r == self.shown(),
    {
        self.indent_size
    }

    /// Shows the indentation of the active editor's document, given the
    /// settings of its language (`None` when it has none).
    pub fn update_indentation(&mut self, settings: Option<LanguageIndentSettings>)
        ensures
            final(self).shown() == indent_of_language(settings),
    {
        self.indent_size = read_indent_size(settings);
    }

    /// Follows a change of the active pane item: `editor_settings` is `None`
    /// when the item is not an editor, else the settings of its document's
    /// language, if any.
    pub fn set_active_pane_item(
        &mut self,
        editor_settings: Option<Option<LanguageIndentSettings>>,
    )
        ensures
            final(self).shown() == (match editor_settings {
                Some(s) => indent_of_language(s),
                None => None,
            }),
    {
        match editor_settings {
            Some(s) => self.update_indentation(s),
            None => {
                self.indent_size = None;
            },
        }
    }

    /// The text of the indicator, if it shows anything.
    pub fn label(&self) -> (r: Option<String>)
        ensures
            r is Some <==> self.shown() is Some,
            r matches Some(t) ==> t@ == status_text(self.shown()->0),
    {
        match self.indent_size {
            Some(size) => {
                let mut text = match size.kind {
                    IndentKind::Tab => String::from_str("Tab: "),
                    IndentKind::Space => String::from_str("Space: "),
                };
                push_decimal(&mut text, size.len as usize);
                Some(text)
            },
            None => None,
        }
    }
}

} // verus!
