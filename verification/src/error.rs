use vstd::prelude::*;

verus! {

/// Failures surfaced by the profile store.
///
/// Load corruption is not represented here: a caller that fails to load a
/// stored document falls back to a fresh template instead of reporting.
#[derive(Clone, Copy, Debug, PartialEq, Eq, Structural)]
pub enum PrfError {
    /// A record offered for appending carries no identifier.
    UidRequired,
    /// A record offered for appending carries content but no file name.
    FileRequired,
    /// No item in the collection has the requested identifier.
    ItemNotFound,
    /// The identifier offered as the new active profile is unknown.
    InvalidUid,
    /// The active item has no content file to resolve.
    FileFieldMissing,
    /// The active identifier no longer resolves to any item.
    CurrentNotFound,
}

} // verus!
