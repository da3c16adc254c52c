//! The two records that the store holds.

use vstd::prelude::*;

verus! {

/// The user's display preferences.
#[derive(Clone, Debug, PartialEq, Eq)]
pub struct AppSettings {
    /// The colour theme, `"light"` or `"dark"`.
    pub theme: String,
    /// Whether the rendered preview pane is shown.
    pub preview: bool,
}

/// The mathematical value of an [`AppSettings`].
pub struct AppSettingsView {
    pub theme: Seq<char>,
    pub preview: bool,
}

impl View for AppSettings {
    type V = AppSettingsView;

    open spec fn view(&self) -> AppSettingsView {
        AppSettingsView { theme: self.theme@, preview: self.preview }
    }
}

/// The text being edited, saved so that it survives a restart.
#[derive(Clone, Debug, PartialEq, Eq)]
pub struct EditorDraft {
    /// The document's Markdown source.
    pub markdown: String,
    /// The editor's selections, in order.
    pub selections: Vec<String>,
}

/// The mathematical value of an [`EditorDraft`].
pub struct EditorDraftView {
    pub markdown: Seq<char>,
    pub selections: Seq<Seq<char>>,
}

/// The characters of each string, in order.
pub open spec fn strings_view(v: Seq<String>) -> Seq<Seq<char>> {
    v.map_values(|s: String| s@)
}

impl View for EditorDraft {
    type V = EditorDraftView;

    open spec fn view(&self) -> EditorDraftView {
        EditorDraftView { markdown: self.markdown@, selections: strings_view(self.selections@) }
    }
}

/// The theme that a new installation starts with.
pub open spec fn default_theme() -> Seq<char> {
    seq!['l', 'i', 'g', 'h', 't']
}

/// The settings of a new installation: the light theme, with the preview shown.
pub open spec fn default_settings() -> AppSettingsView {
    AppSettingsView { theme: default_theme(), preview: true }
}

/// The draft of a new installation: no text and no selections.
pub open spec fn default_draft() -> EditorDraftView {
    EditorDraftView { markdown: Seq::empty(), selections: Seq::empty() }
}

impl AppSettings {
    /// Returns a copy with the same value.
    pub fn duplicate(&self) -> (r: AppSettings)
        ensures
            r@ == self@,
    {
        AppSettings { theme: self.theme.clone(), preview: self.preview }
    }
}

impl Default for AppSettings {
    fn default() -> (r: AppSettings)
        ensures
            r@ == default_settings(),
    {
        let theme = "light".to_owned();
        proof {
            reveal_strlit("light");
        }
        assert(theme@ =~= default_theme());
        AppSettings { theme, preview: true }
    }
}

impl EditorDraft {
    /// Returns a copy with the same value.
    pub fn duplicate(&self) -> (r: EditorDraft)
        ensures
            r@ == self@,
    {
        let mut selections: Vec<String> = Vec::new();
        let n = self.selections.len();
        let mut i: usize = 0;
        while i < n
            invariant
                n == self.selections@.len(),
                i <= n,
                selections@ == self.selections@.subrange(0, i as int),
            decreases n - i,
        {
            selections.push(self.selections[i].clone());
            assert(selections@ =~= self.selections@.subrange(0, i + 1));
            i = i + 1;
        }
        assert(self.selections@.subrange(0, n as int) =~= self.selections@);
        EditorDraft { markdown: self.markdown.clone(), selections }
    }
}

impl Default for EditorDraft {
    fn default() -> (r: EditorDraft)
        ensures
            r@ == default_draft(),
    {
        let r = EditorDraft { markdown: String::new(), selections: Vec::new() };
        assert(r@.selections =~= Seq::<Seq<char>>::empty());
        r
    }
}

} // verus!
