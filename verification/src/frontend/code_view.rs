//! A tab that edits a drawing script.
use crate::shared::Shared;
use vstd::prelude::*;

verus! {

/// A tab that edits a script; the text is shared with whatever runs it.
pub struct CodeView {
    language: String,
    code: Shared<String>,
    show_theme: bool,
}

impl CodeView {
    /// A JavaScript editor on `code`, without the theme panel.
    pub fn create(code: String) -> (view: CodeView)
        ensures
            view.language()@ == "js"@,
            !view.show_theme(),
    {
        CodeView { language: "js".to_owned(), code: Shared::new(code), show_theme: false }
    }

    /// A shared JavaScript editor on `code`, without the theme panel.
    pub fn new(code: String) -> Shared<CodeView> {
        Shared::new(CodeView::create(code))
    }

    /// The language the text is highlighted as.
    pub closed spec fn language(&self) -> String {
        self.language
    }

    /// The handle on the edited text that the view holds.
    pub closed spec fn code(&self) -> Shared<String> {
        self.code
    }

    /// Whether the theme panel is shown.
    pub closed spec fn show_theme(&self) -> bool {
        self.show_theme
    }

    /// The language the text is highlighted as.
    pub fn get_language(&self) -> (language: &String)
        ensures
            *language == self.language(),
    {
        &self.language
    }

    /// Whether the theme panel is shown.
    pub fn get_show_theme(&self) -> (shown: bool)
        ensures
            shown == self.show_theme(),
    {
        self.show_theme
    }

    /// Another handle on the edited text: the same shared cell that the
    /// view holds, so edits through either are seen by both.
    pub fn get_code(&self) -> (code: Shared<String>)
        ensures
            code == self.code(),
    {
        self.code.clone()
    }
}

} // verus!
