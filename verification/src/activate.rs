use crate::item::ChainItem;
use crate::item::PrfItem;
use crate::item::find_uid;
use crate::item::seq_has_uid;
use crate::item::spec_to_enhance;
use vstd::prelude::*;

verus! {

/// The resolved activation snapshot handed to the downstream consumer.
///
/// `current` names the active profile's content file, or is `None` when no
/// profile is active (the quiescent state, an empty configuration).
/// `chain` lists, in order, the override units of every chain entry that
/// resolved; entries that did not are dropped. `valid` is the whitelist of
/// authoritative configuration fields. Loading and merging the referenced
/// documents is the caller's concern; the snapshot never mutates the store.
#[derive(Debug, Clone, PartialEq, Eq)]
pub struct PrfActivate {
    pub current: Option<String>,
    pub chain: Vec<ChainItem>,
    pub valid: Vec<String>,
}

/// The override unit a single chain entry resolves to: the first item
/// carrying `uid`, in chain-applicable form; `None` when no item carries
/// `uid` or the item has no such form.
pub open spec fn resolve_one(items: Seq<PrfItem>, uid: Seq<char>) -> Option<ChainItem> {
    if seq_has_uid(items, uid) {
        spec_to_enhance(items[find_uid(items, uid)])
    } else {
        None
    }
}

/// The override units of the chain entries that resolve, in chain order.
pub open spec fn resolve_chain(items: Seq<PrfItem>, chain: Seq<String>) -> Seq<ChainItem>
    decreases chain.len(),
{
    if chain.len() == 0 {
        Seq::empty()
    } else {
        let init = resolve_chain(items, chain.drop_last());
        match resolve_one(items, chain.last()@) {
            Some(ci) => init.push(ci),
            None => init,
        }
    }
}

} // verus!
