use vstd::prelude::*;

verus! {

/// A profile record: metadata for one named configuration document.
///
/// Every field is optional; a record is built up from whichever fields a
/// caller supplies. The store treats the payload-bearing fields as opaque
/// and only ever assigns them whole.
#[derive(Debug, Clone, PartialEq, Eq)]
pub struct PrfItem {
    /// Unique identifier, stable for the item's lifetime.
    pub uid: Option<String>,
    /// The kind of profile this record describes.
    pub itype: Option<String>,
    /// Display name.
    pub name: Option<String>,
    /// Free-form description.
    pub desc: Option<String>,
    /// Relative name of the content file backing this record.
    pub file: Option<String>,
    /// Source location the record was fetched from.
    pub url: Option<String>,
    /// Remembered selections, opaque to the store.
    pub selected: Option<Vec<PrfSelected>>,
    /// Usage counters reported by the source, opaque to the store.
    pub extra: Option<PrfExtra>,
    /// Timestamp of the last refresh.
    pub updated: Option<u64>,
    /// Nested per-record settings, opaque to the store.
    pub option: Option<PrfOption>,
    /// Raw content payload, present only on create/update requests.
    ///
    /// It is handed back to the caller to be written to the record's own
    /// content file and is cleared before the record enters the collection;
    /// content never lives inside the store document.
    pub file_data: Option<String>,
}

/// One remembered selection inside a profile record.
#[derive(Debug, Clone, PartialEq, Eq)]
pub struct PrfSelected {
    pub name: Option<String>,
    pub now: Option<String>,
}

/// Usage counters attached to a fetched profile.
#[derive(Debug, Clone, Copy, PartialEq, Eq, Structural)]
pub struct PrfExtra {
    pub upload: u64,
    pub download: u64,
    pub total: u64,
    pub expire: u64,
}

/// Per-record settings controlling how a profile is refreshed.
#[derive(Debug, Clone, PartialEq, Eq)]
pub struct PrfOption {
    pub user_agent: Option<String>,
    pub with_proxy: Option<bool>,
    pub self_proxy: Option<bool>,
    pub update_interval: Option<u64>,
}

/// An override unit: the chain-applicable form of a profile record.
///
/// It references the record's content file; loading and interpreting the
/// payload is the downstream consumer's concern.
#[derive(Debug, Clone, PartialEq, Eq)]
pub struct ChainItem {
    pub uid: String,
    pub itype: String,
    pub file: String,
}

/// Whether `it` carries the identifier `uid`.
pub open spec fn item_matches(it: PrfItem, uid: Seq<char>) -> bool {
    it.uid is Some && it.uid->0@ == uid
}

/// `it` with its transient content payload cleared, as stored in the
/// collection.
pub open spec fn spec_cleared(it: PrfItem) -> PrfItem {
    PrfItem { file_data: None, ..it }
}

/// Field-level merge: every field set on `p` overwrites the one on `base`;
/// absent fields keep the stored value. The identifier and the transient
/// payload are never patched.
pub open spec fn spec_patched(base: PrfItem, p: PrfItem) -> PrfItem {
    PrfItem {
        uid: base.uid,
        itype: if p.itype is Some { p.itype } else { base.itype },
        name: if p.name is Some { p.name } else { base.name },
        desc: if p.desc is Some { p.desc } else { base.desc },
        file: if p.file is Some { p.file } else { base.file },
        url: if p.url is Some { p.url } else { base.url },
        selected: if p.selected is Some { p.selected } else { base.selected },
        extra: if p.extra is Some { p.extra } else { base.extra },
        updated: if p.updated is Some { p.updated } else { base.updated },
        option: if p.option is Some { p.option } else { base.option },
        file_data: base.file_data,
    }
}

/// `it` with the identifier backfilled from `fresh` when it has none;
/// an identifier already present is never regenerated.
pub open spec fn spec_migrated(it: PrfItem, fresh: String) -> PrfItem {
    if it.uid is Some {
        it
    } else {
        PrfItem { uid: Some(fresh), ..it }
    }
}

/// The chain-applicable form of `it`: available exactly when the record
/// carries an identifier, a kind, and a content file.
pub open spec fn spec_to_enhance(it: PrfItem) -> Option<ChainItem> {
    match (it.uid, it.itype, it.file) {
        (Some(uid), Some(itype), Some(file)) => Some(ChainItem { uid, itype, file }),
        _ => None,
    }
}

impl PrfItem {
    /// Convert this record into its chain-applicable form, if it has one.
    pub fn to_enhance(&self) -> (r: Option<ChainItem>)
        ensures
            r == spec_to_enhance(*self),
    {
        match (&self.uid, &self.itype, &self.file) {
            (Some(uid), Some(itype), Some(file)) => Some(
                ChainItem { uid: uid.clone(), itype: itype.clone(), file: file.clone() },
            ),
            _ => None,
        }
    }
}

/// Whether some item of `items` carries the identifier `uid`.
pub open spec fn seq_has_uid(items: Seq<PrfItem>, uid: Seq<char>) -> bool {
    exists|i: int| 0 <= i < items.len() && item_matches(items[i], uid)
}

/// Index of the first item of `items` carrying `uid`, or `-1` if none does.
pub open spec fn find_uid(items: Seq<PrfItem>, uid: Seq<char>) -> int
    decreases items.len(),
{
    if items.len() == 0 {
        -1
    } else if item_matches(items[0], uid) {
        0
    } else if find_uid(items.drop_first(), uid) == -1 {
        -1
    } else {
        find_uid(items.drop_first(), uid) + 1
    }
}

/// `find_uid` returns `-1` exactly when no item matches, and otherwise the
/// index of a matching item that no earlier index matches.
pub proof fn lemma_find_uid_props(items: Seq<PrfItem>, uid: Seq<char>)
    ensures
        seq_has_uid(items, uid) ==> {
            let i = find_uid(items, uid);
            &&& 0 <= i < items.len()
            &&& item_matches(items[i], uid)
            &&& forall|j: int| 0 <= j < i ==> !item_matches(items[j], uid)
        },
        !seq_has_uid(items, uid) ==> find_uid(items, uid) == -1,
    decreases items.len(),
{
    if items.len() > 0 {
        let rest = items.drop_first();
        lemma_find_uid_props(rest, uid);
        assert(forall|j: int| 0 <= j < rest.len() ==> rest[j] == items[j + 1]);
        if item_matches(items[0], uid) {
            assert(seq_has_uid(items, uid));
        } else {
            if seq_has_uid(items, uid) {
                let w = choose|w: int| 0 <= w < items.len() && item_matches(items[w], uid);
                assert(item_matches(rest[w - 1], uid));
                assert(seq_has_uid(rest, uid));
            }
            if seq_has_uid(rest, uid) {
                let w = choose|w: int| 0 <= w < rest.len() && item_matches(rest[w], uid);
                assert(item_matches(items[w + 1], uid));
                assert(seq_has_uid(items, uid));
                let i = find_uid(rest, uid) + 1;
                assert forall|j: int| 1 <= j < i implies !item_matches(items[j], uid) by {
                    assert(items[j] == rest[j - 1]);
                }
            }
        }
    }
}

/// `find_uid` agrees with any index that matches and has no earlier match.
pub proof fn lemma_find_uid_at(items: Seq<PrfItem>, uid: Seq<char>, i: int)
    requires
        0 <= i < items.len(),
        item_matches(items[i], uid),
        forall|j: int| 0 <= j < i ==> !item_matches(items[j], uid),
    ensures
        find_uid(items, uid) == i,
{
    assert(seq_has_uid(items, uid));
    lemma_find_uid_props(items, uid);
}

/// Apply a field-level merge, consuming both records.
pub(crate) fn patched_item(base: PrfItem, p: PrfItem) -> (r: PrfItem)
    ensures
        r == spec_patched(base, p),
{
    PrfItem {
        uid: base.uid,
        itype: if p.itype.is_some() { p.itype } else { base.itype },
        name: if p.name.is_some() { p.name } else { base.name },
        desc: if p.desc.is_some() { p.desc } else { base.desc },
        file: if p.file.is_some() { p.file } else { base.file },
        url: if p.url.is_some() { p.url } else { base.url },
        selected: if p.selected.is_some() { p.selected } else { base.selected },
        extra: if p.extra.is_some() { p.extra } else { base.extra },
        updated: if p.updated.is_some() { p.updated } else { base.updated },
        option: if p.option.is_some() { p.option } else { base.option },
        file_data: base.file_data,
    }
}

} // verus!
