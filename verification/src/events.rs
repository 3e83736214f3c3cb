//! The already-decoded events the core consumes.
//!
//! The binary decodes each bus notification into these plain shapes before
//! handing it to the core, failing closed: a recognized key whose value has
//! the wrong shape, or an unrecognized key, becomes [`PropertyChange::Other`].

use vstd::prelude::*;

verus! {

/// One changed entry of a property-change notification.
pub enum PropertyChange {
    /// The `"PlaybackStatus"` key, carrying a string value.
    PlaybackStatus(String),
    /// The `"Metadata"` key, carrying a dictionary value.
    Metadata(MetadataChange),
    /// Any other key, or a recognized key with a value of the wrong shape.
    Other,
}

/// The two fields the core reads out of a `"Metadata"` dictionary, each
/// absent when the dictionary lacks it or holds it with the wrong shape.
pub struct MetadataChange {
    /// The `"xesam:title"` entry, a string.
    pub title: Option<String>,
    /// The `"xesam:artist"` entry, a list of strings.
    pub artist: Option<Vec<String>>,
}

/// Spec-level image of a changed entry.
pub enum ChangeView {
    PlaybackStatus(Seq<char>),
    Metadata { title: Option<Seq<char>>, artist: Option<Seq<Seq<char>>> },
    Other,
}

impl DeepView for PropertyChange {
    type V = ChangeView;

    open spec fn deep_view(&self) -> ChangeView {
        match self {
            PropertyChange::PlaybackStatus(value) => ChangeView::PlaybackStatus(value@),
            PropertyChange::Metadata(m) => ChangeView::Metadata {
                title: m.title.deep_view(),
                artist: m.artist.deep_view(),
            },
            PropertyChange::Other => ChangeView::Other,
        }
    }
}

} // verus!
