//! Laws that relate the store's operations to one another, stated over the
//! document's view, which each operation's contract speaks of.

use vstd::prelude::*;
use crate::state::{AppSettingsView, EditorDraftView, default_draft, default_settings};
use crate::store::{StoreKey, StoreView};

verus! {

/// Reading the settings after writing `s` gives back `s` exactly, and the draft
/// is left as it was.
pub proof fn lemma_settings_round_trip(st: StoreView, s: AppSettingsView)
    ensures
        st.with_settings(s).settings.value() == Some(s),
        st.with_settings(s).draft == st.draft,
{
}

/// Reading the draft after writing `d` gives back `d` exactly, and the
/// settings are left as they were.
pub proof fn lemma_draft_round_trip(st: StoreView, d: EditorDraftView)
    ensures
        st.with_draft(d).draft.value() == Some(d),
        st.with_draft(d).settings == st.settings,
{
}

/// Reading the settings after clearing them finds them absent; the draft is
/// left as it was.
pub proof fn lemma_clear_settings_absent(st: StoreView)
    ensures
        st.without_settings().settings.value() is None,
        st.without_settings().draft == st.draft,
{
}

/// Reading the draft after clearing it finds it absent; the settings are left
/// as they were.
pub proof fn lemma_clear_draft_absent(st: StoreView)
    ensures
        st.without_draft().draft.value() is None,
        st.without_draft().settings == st.settings,
{
}

/// On a first launch, with no document, start-up leaves the default settings
/// (light theme, preview shown) and the default draft (no text, no selections),
/// and it writes both keys, settings first.
pub proof fn lemma_first_launch_defaults()
    ensures
        StoreView::empty().with_defaults().settings.value() == Some(default_settings()),
        StoreView::empty().with_defaults().draft.value() == Some(default_draft()),
        default_settings().theme == seq!['l', 'i', 'g', 'h', 't'],
        default_settings().preview,
        default_draft().markdown.len() == 0,
        default_draft().selections.len() == 0,
        StoreView::empty().missing_keys() == seq![
            StoreKey::Settings,
            StoreKey::Draft,
        ],
{
    assert(StoreView::empty().missing_keys() =~= seq![
        StoreKey::Settings,
        StoreKey::Draft,
    ]);
}

/// Writing the same settings twice leaves the same document as writing them once.
pub proof fn lemma_set_settings_idempotent(st: StoreView, s: AppSettingsView)
    ensures
        st.with_settings(s).with_settings(s) == st.with_settings(s),
{
}

/// Writing the same draft twice leaves the same document as writing it once.
pub proof fn lemma_set_draft_idempotent(st: StoreView, d: EditorDraftView)
    ensures
        st.with_draft(d).with_draft(d) == st.with_draft(d),
{
}

/// Start-up keeps every key that is there, whether or not it decodes, and
/// writes only missing ones; running it a second time changes nothing and
/// writes no key.
pub proof fn lemma_defaults_idempotent(st: StoreView)
    ensures
        !(st.settings is Absent) ==> st.with_defaults().settings == st.settings,
        !(st.draft is Absent) ==> st.with_defaults().draft == st.draft,
        st.settings is Absent <==> st.missing_keys().contains(StoreKey::Settings),
        st.draft is Absent <==> st.missing_keys().contains(StoreKey::Draft),
        st.with_defaults().with_defaults() == st.with_defaults(),
        st.with_defaults().missing_keys().len() == 0,
{
    let m = st.missing_keys();
    let s = if st.settings is Absent { seq![StoreKey::Settings] } else { Seq::empty() };
    if st.settings is Absent {
        assert(s[0] == StoreKey::Settings);
    }
    if st.draft is Absent {
        assert(m == s.push(StoreKey::Draft));
        assert(m[m.len() - 1] == StoreKey::Draft);
    } else {
        assert(m == s);
    }
    if st.settings is Absent {
        assert(m[0] == StoreKey::Settings);
    }
}

} // verus!
