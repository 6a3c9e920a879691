//! Store-level guarantees proved once and for all, stated over the same
//! spec-level descriptions the operations' own contracts use.

use crate::error::PrfError;
use crate::item::PrfItem;
use crate::item::find_uid;
use crate::item::item_matches;
use crate::item::lemma_find_uid_at;
use crate::item::seq_has_uid;
use crate::item::spec_cleared;
use crate::item::spec_patched;
use crate::profiles::IProfiles;
use crate::profiles::append_post_ok;
use crate::profiles::delete_post;
use crate::profiles::patch_config_post;
use crate::profiles::patch_item_post;
use vstd::prelude::*;

verus! {

/// A field-level merge changes exactly the fields the partial record sets:
/// every field set on `p` is taken from `p`, every field absent from `p`
/// keeps the stored value, and the identifier and transient payload always
/// keep the stored value.
pub proof fn lemma_patched_sets_exactly_given_fields(base: PrfItem, p: PrfItem)
    ensures
        spec_patched(base, p).uid == base.uid,
        spec_patched(base, p).file_data == base.file_data,
        spec_patched(base, p).itype == (if p.itype is Some {
            p.itype
        } else {
            base.itype
        }),
        spec_patched(base, p).name == (if p.name is Some {
            p.name
        } else {
            base.name
        }),
        spec_patched(base, p).desc == (if p.desc is Some {
            p.desc
        } else {
            base.desc
        }),
        spec_patched(base, p).file == (if p.file is Some {
            p.file
        } else {
            base.file
        }),
        spec_patched(base, p).url == (if p.url is Some {
            p.url
        } else {
            base.url
        }),
        spec_patched(base, p).selected == (if p.selected is Some {
            p.selected
        } else {
            base.selected
        }),
        spec_patched(base, p).extra == (if p.extra is Some {
            p.extra
        } else {
            base.extra
        }),
        spec_patched(base, p).updated == (if p.updated is Some {
            p.updated
        } else {
            base.updated
        }),
        spec_patched(base, p).option == (if p.option is Some {
            p.option
        } else {
            base.option
        }),
{
}

/// A field-level patch against an identifier no record carries fails with
/// the not-found error and leaves the whole store — in particular the
/// collection's order and contents — unchanged.
pub proof fn lemma_patch_item_unknown_uid_is_noop(
    pre: IProfiles,
    post: IProfiles,
    uid: Seq<char>,
    p: PrfItem,
    r: Result<(), PrfError>,
)
    requires
        patch_item_post(pre, post, uid, p, r),
        !seq_has_uid(pre.items_seq(), uid),
    ensures
        r == Err::<(), PrfError>(PrfError::ItemNotFound),
        post.items matches Some(v) && v@ == pre.items_seq(),
        post.current == pre.current,
        post.chain == pre.chain,
        post.valid == pre.valid,
{
}

/// Deleting the active profile reports `true` and makes the first remaining
/// record active, or leaves nothing active when the collection emptied.
pub proof fn lemma_delete_active_reassigns_current(
    pre: IProfiles,
    post: IProfiles,
    uid: Seq<char>,
    was_current: bool,
)
    requires
        delete_post(pre, post, uid, was_current),
        pre.current matches Some(c) && c@ == uid,
    ensures
        was_current == true,
        post.items matches Some(v) && {
            &&& v@.len() > 0 ==> post.current == v@[0].uid
            &&& v@.len() == 0 ==> post.current is None
        },
{
}

/// Deleting anything but the active profile reports `false` and leaves the
/// active identifier untouched.
pub proof fn lemma_delete_inactive_keeps_current(
    pre: IProfiles,
    post: IProfiles,
    uid: Seq<char>,
    was_current: bool,
)
    requires
        delete_post(pre, post, uid, was_current),
        pre.current matches Some(c) && c@ != uid,
    ensures
        was_current == false,
        post.current == pre.current,
{
}

/// Round trip: after appending a record whose identifier is new to the
/// collection, looking that identifier up finds exactly the appended record
/// — equal to the input in every field, except that the transient content
/// payload has been cleared.
pub proof fn lemma_append_then_get_roundtrip(pre: IProfiles, post: IProfiles, item: PrfItem)
    requires
        append_post_ok(pre, post, item),
        item.uid matches Some(u) && !seq_has_uid(pre.items_seq(), u@),
    ensures
        item.uid matches Some(u) && {
            &&& post.has_item(u@)
            &&& find_uid(post.items_seq(), u@) == pre.items_seq().len()
            &&& post.items_seq()[find_uid(post.items_seq(), u@)] == spec_cleared(item)
        },
{
    let u = item.uid->0;
    let n = pre.items_seq().len() as int;
    assert(item_matches(post.items_seq()[n], u@));
    assert(forall|j: int| 0 <= j < n ==> post.items_seq()[j] == pre.items_seq()[j]);
    lemma_find_uid_at(post.items_seq(), u@, n);
}

/// A selective patch that sets nothing is a no-op on the active identifier,
/// the chain and the whitelist.
pub proof fn lemma_patch_config_all_absent_is_noop(
    pre: IProfiles,
    post: IProfiles,
    patch: IProfiles,
)
    requires
        patch_config_post(pre, post, patch),
        patch.current is None,
        patch.chain is None,
        patch.valid is None,
    ensures
        post.current == pre.current,
        post.chain == pre.chain,
        post.valid == pre.valid,
        post.items matches Some(v) && v@ == pre.items_seq(),
{
}

} // verus!
