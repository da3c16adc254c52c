//! The settings store: one document with the keys `settings` and `draft`.
//!
//! The store holds the document as it stands in memory. The host that owns the
//! file reads it in once (finding each key missing, undecodable or holding its
//! record), calls these operations, and writes back and flushes the keys that
//! changed.

use vstd::prelude::*;
use crate::state::{
    AppSettings, AppSettingsView, EditorDraft, EditorDraftView, default_draft, default_settings,
};

verus! {

/// One of the two keys of the document.
#[derive(Clone, Copy, Debug, PartialEq, Eq)]
pub enum StoreKey {
    Settings,
    Draft,
}

/// The key's name in the document on disk.
pub open spec fn key_name(k: StoreKey) -> Seq<char> {
    match k {
        StoreKey::Settings => seq!['s', 'e', 't', 't', 'i', 'n', 'g', 's'],
        StoreKey::Draft => seq!['d', 'r', 'a', 'f', 't'],
    }
}

impl StoreKey {
    /// The key's name in the document on disk.
    pub fn name(&self) -> (r: &'static str)
        ensures
            r@ == key_name(*self),
    {
        match self {
            StoreKey::Settings => {
                let r = "settings";
                proof {
                    reveal_strlit("settings");
                }
                assert(r@ =~= key_name(*self));
                r
            },
            StoreKey::Draft => {
                let r = "draft";
                proof {
                    reveal_strlit("draft");
                }
                assert(r@ =~= key_name(*self));
                r
            },
        }
    }
}

/// What the document holds under one key.
#[derive(Clone, Debug, PartialEq, Eq)]
pub enum Stored<T> {
    /// The key is missing.
    Absent,
    /// The key is there, but what it holds does not decode as the record.
    Undecodable,
    /// The key holds this record.
    Present(T),
}

impl<T> Stored<T> {
    /// What a read finds: the record, or `None` where the key is missing or
    /// does not decode.
    pub open spec fn value(self) -> Option<T> {
        match self {
            Stored::Present(x) => Some(x),
            _ => None,
        }
    }

    /// The record held, or `fallback` where the key is missing. A key that
    /// does not decode is kept as it is.
    pub open spec fn or_default(self, fallback: T) -> Stored<T> {
        match self {
            Stored::Absent => Stored::Present(fallback),
            _ => self,
        }
    }
}

/// The mathematical value of a stored settings record.
pub open spec fn stored_settings(s: Stored<AppSettings>) -> Stored<AppSettingsView> {
    match s {
        Stored::Absent => Stored::Absent,
        Stored::Undecodable => Stored::Undecodable,
        Stored::Present(x) => Stored::Present(x@),
    }
}

/// The mathematical value of a stored draft record.
pub open spec fn stored_draft(s: Stored<EditorDraft>) -> Stored<EditorDraftView> {
    match s {
        Stored::Absent => Stored::Absent,
        Stored::Undecodable => Stored::Undecodable,
        Stored::Present(x) => Stored::Present(x@),
    }
}

/// The document's contents: what each of the two keys holds.
pub struct StoreView {
    pub settings: Stored<AppSettingsView>,
    pub draft: Stored<EditorDraftView>,
}

impl StoreView {
    /// The document of a first launch: no key at all.
    pub open spec fn empty() -> StoreView {
        StoreView { settings: Stored::Absent, draft: Stored::Absent }
    }

    /// The document with `settings` replaced wholesale by `s`.
    pub open spec fn with_settings(self, s: AppSettingsView) -> StoreView {
        StoreView { settings: Stored::Present(s), ..self }
    }

    /// The document with the key `settings` removed.
    pub open spec fn without_settings(self) -> StoreView {
        StoreView { settings: Stored::Absent, ..self }
    }

    /// The document with `draft` replaced wholesale by `d`.
    pub open spec fn with_draft(self, d: EditorDraftView) -> StoreView {
        StoreView { draft: Stored::Present(d), ..self }
    }

    /// The document with the key `draft` removed.
    pub open spec fn without_draft(self) -> StoreView {
        StoreView { draft: Stored::Absent, ..self }
    }

    /// The document after start-up: each missing key holds its record's
    /// default; every key that is there, readable or not, is kept.
    pub open spec fn with_defaults(self) -> StoreView {
        StoreView {
            settings: self.settings.or_default(default_settings()),
            draft: self.draft.or_default(default_draft()),
        }
    }

    /// The keys that start-up writes, in the order written: each one missing.
    pub open spec fn missing_keys(self) -> Seq<StoreKey> {
        let s = if self.settings is Absent { seq![StoreKey::Settings] } else { Seq::empty() };
        if self.draft is Absent { s.push(StoreKey::Draft) } else { s }
    }
}

/// What a read returns: the record held, or `None`.
pub open spec fn read_settings(r: Option<AppSettings>) -> Option<AppSettingsView> {
    match r {
        Some(s) => Some(s@),
        None => None,
    }
}

/// What a read returns: the record held, or `None`.
pub open spec fn read_draft(r: Option<EditorDraft>) -> Option<EditorDraftView> {
    match r {
        Some(d) => Some(d@),
        None => None,
    }
}

/// A settings document held in memory, passed explicitly to each operation.
pub struct SettingsStore {
    settings: Stored<AppSettings>,
    draft: Stored<EditorDraft>,
}

impl View for SettingsStore {
    type V = StoreView;

    closed spec fn view(&self) -> StoreView {
        StoreView { settings: stored_settings(self.settings), draft: stored_draft(self.draft) }
    }
}

impl SettingsStore {
    /// A store with no document yet, as on first launch.
    pub fn new() -> (r: SettingsStore)
        ensures
            r@ == StoreView::empty(),
    {
        SettingsStore { settings: Stored::Absent, draft: Stored::Absent }
    }

    /// A store over a document read from disk, given what each key holds.
    pub fn from_records(settings: Stored<AppSettings>, draft: Stored<EditorDraft>) -> (r:
        SettingsStore)
        ensures
            r@ == (StoreView { settings: stored_settings(settings), draft: stored_draft(draft) }),
    {
        SettingsStore { settings, draft }
    }

    /// The stored settings, or `None` where the key is missing or does not
    /// decode.
    pub fn get_settings(&self) -> (r: Option<AppSettings>)
        ensures
            read_settings(r) == self@.settings.value(),
    {
        match &self.settings {
            Stored::Present(s) => Some(s.duplicate()),
            _ => None,
        }
    }

    /// Replaces the stored settings wholesale.
    pub fn set_settings(&mut self, s: AppSettings)
        ensures
            final(self)@ == old(self)@.with_settings(s@),
    {
        self.settings = Stored::Present(s);
    }

    /// Removes the key `settings`; an absent key stays absent.
    pub fn clear_settings(&mut self)
        ensures
            final(self)@ == old(self)@.without_settings(),
    {
        self.settings = Stored::Absent;
    }

    /// The stored draft, or `None` where the key is missing or does not
    /// decode.
    pub fn get_draft(&self) -> (r: Option<EditorDraft>)
        ensures
            read_draft(r) == self@.draft.value(),
    {
        match &self.draft {
            Stored::Present(d) => Some(d.duplicate()),
            _ => None,
        }
    }

    /// Replaces the stored draft wholesale.
    pub fn set_draft(&mut self, d: EditorDraft)
        ensures
            final(self)@ == old(self)@.with_draft(d@),
    {
        self.draft = Stored::Present(d);
    }

    /// Removes the key `draft`; an absent key stays absent.
    pub fn clear_draft(&mut self)
        ensures
            final(self)@ == old(self)@.without_draft(),
    {
        self.draft = Stored::Absent;
    }

    /// Start-up: writes the default record under each missing key, and returns
    /// those keys in the order written, for the host to flush. A key that holds
    /// something that does not decode is left as it is.
    pub fn ensure_defaults(&mut self) -> (written: Vec<StoreKey>)
        ensures
            final(self)@ == old(self)@.with_defaults(),
            written@ == old(self)@.missing_keys(),
    {
        let mut written: Vec<StoreKey> = Vec::new();
        if let Stored::Absent = self.settings {
            self.settings = Stored::Present(AppSettings::default());
            written.push(StoreKey::Settings);
        }
        if let Stored::Absent = self.draft {
            self.draft = Stored::Present(EditorDraft::default());
            written.push(StoreKey::Draft);
        }
        assert(written@ =~= old(self)@.missing_keys());
        written
    }
}

} // verus!
