use crate::activate::PrfActivate;
use crate::activate::resolve_chain;
use crate::error::PrfError;
use crate::item::PrfItem;
use crate::item::find_uid;
use crate::item::item_matches;
use crate::item::lemma_find_uid_at;
use crate::item::lemma_find_uid_props;
use crate::item::patched_item;
use crate::item::seq_has_uid;
use crate::item::spec_cleared;
use crate::item::spec_migrated;
use crate::item::spec_patched;
use vstd::prelude::*;
use vstd::string::StringExecFns;

verus! {

/// The profile store: the full collection of profile records, the active
/// one, the override chain applied on top of it, and the whitelist of
/// authoritative configuration fields.
///
/// The store is pure in-memory state. A caller owns persistence: it loads a
/// stored document (or nothing) into [`IProfiles::new`], and writes the whole
/// store back out after every mutating call.
#[derive(Debug, Clone, PartialEq, Eq)]
pub struct IProfiles {
    /// Identifier of the active item, or none.
    pub current: Option<String>,
    /// Ordered identifiers of the override documents applied on top of the
    /// active item.
    pub chain: Option<Vec<String>>,
    /// Whitelist of downstream configuration fields considered
    /// authoritative.
    pub valid: Option<Vec<String>>,
    /// The profile collection, in insertion order; the first item is the
    /// fallback when the active one is deleted.
    pub items: Option<Vec<PrfItem>>,
}

impl IProfiles {
    /// The collection as a sequence; an absent collection reads as empty.
    pub open spec fn items_seq(self) -> Seq<PrfItem> {
        match self.items {
            Some(v) => v@,
            None => Seq::empty(),
        }
    }

    /// The override chain as a sequence; an absent chain reads as empty.
    pub open spec fn chain_seq(self) -> Seq<String> {
        match self.chain {
            Some(v) => v@,
            None => Seq::empty(),
        }
    }

    /// The whitelist as a sequence; an absent whitelist reads as empty.
    pub open spec fn valid_seq(self) -> Seq<String> {
        match self.valid {
            Some(v) => v@,
            None => Seq::empty(),
        }
    }

    /// Whether some item of the collection carries the identifier `uid`.
    pub open spec fn has_item(self, uid: Seq<char>) -> bool {
        seq_has_uid(self.items_seq(), uid)
    }
}

/// A fresh store as built when no stored document can be loaded: nothing
/// active, no chain, an empty collection, and a whitelist holding only the
/// name-resolution field.
pub open spec fn is_template(p: IProfiles) -> bool {
    &&& p.current is None
    &&& p.chain is None
    &&& p.valid matches Some(v) && v@.len() == 1 && v@[0]@ == "dns"@
    &&& p.items matches Some(it) && it@.len() == 0
}

/// Index of the first item of `items` carrying `uid`, if any.
fn find_item_idx(items: &Vec<PrfItem>, uid: &String) -> (r: Option<usize>)
    ensures
        r is Some <==> seq_has_uid(items@, uid@),
        r matches Some(i) ==> i == find_uid(items@, uid@) && i < items@.len()
            && item_matches(items@[i as int], uid@),
{
    let n = items.len();
    let mut i: usize = 0;
    while i < n
        invariant
            n == items@.len(),
            i <= n,
            forall|j: int| 0 <= j < i ==> !item_matches(items@[j], uid@),
        decreases n - i,
    {
        let matched = match &items[i].uid {
            Some(u) => *u == *uid,
            None => false,
        };
        if matched {
            proof {
                lemma_find_uid_at(items@, uid@, i as int);
            }
            return Some(i);
        }
        i += 1;
    }
    proof {
        lemma_find_uid_props(items@, uid@);
    }
    None
}

/// Copy a list of field names; the caller keeps the original.
fn clone_string_vec(v: &Vec<String>) -> (r: Vec<String>)
    ensures
        r@ == v@,
{
    let n = v.len();
    let mut r: Vec<String> = Vec::new();
    let mut i: usize = 0;
    while i < n
        invariant
            n == v@.len(),
            i <= n,
            r@ == v@.take(i as int),
        decreases n - i,
    {
        r.push(v[i].clone());
        proof {
            assert(r@ =~= v@.take(i as int + 1));
        }
        i += 1;
    }
    proof {
        assert(v@.take(n as int) =~= v@);
    }
    r
}

impl IProfiles {
    /// Build the store from a loaded document, or fall back to the template
    /// when none could be loaded.
    ///
    /// An absent collection is normalized to empty, and every item lacking
    /// an identifier is backfilled with the caller-generated identifier at
    /// its position in `fresh_uids`; identifiers already present are never
    /// regenerated.
    pub fn new(loaded: Option<IProfiles>, fresh_uids: Vec<String>) -> (r: Self)
        requires
            loaded matches Some(p) ==> fresh_uids@.len() == p.items_seq().len(),
        ensures
            (match loaded {
                None => is_template(r),
                Some(p) => {
                    &&& r.current == p.current
                    &&& r.chain == p.chain
                    &&& r.valid == p.valid
                    &&& r.items matches Some(v) && v@.len() == p.items_seq().len() && (forall|
                        i: int,
                    |
                        0 <= i < v@.len() ==> v@[i] == spec_migrated(
                            p.items_seq()[i],
                            fresh_uids@[i],
                        ))
                },
            }),
    {
        match loaded {
            None => Self::template(),
            Some(p) => {
                let IProfiles { current, chain, valid, items } = p;
                let mut rest: Vec<PrfItem> = match items {
                    Some(v) => v,
                    None => Vec::new(),
                };
                let ghost items0 = rest@;
                let n = rest.len();
                let mut out: Vec<PrfItem> = Vec::new();
                let mut i: usize = 0;
                while i < n
                    invariant
                        n == items0.len(),
                        i <= n,
                        rest@ == items0.skip(i as int),
                        fresh_uids@.len() == items0.len(),
                        out@.len() == i,
                        forall|j: int|
                            0 <= j < i ==> out@[j] == spec_migrated(items0[j], fresh_uids@[j]),
                    decreases n - i,
                {
                    let it = rest.remove(0);
                    proof {
                        assert(items0.skip(i as int)[0] == items0[i as int]);
                        assert(items0.skip(i as int).remove(0) =~= items0.skip(i as int + 1));
                    }
                    let it = if it.uid.is_none() {
                        PrfItem { uid: Some(fresh_uids[i].clone()), ..it }
                    } else {
                        it
                    };
                    out.push(it);
                    i += 1;
                }
                IProfiles { current, chain, valid, items: Some(out) }
            },
        }
    }

    /// A fresh store: empty collection, nothing active, and a whitelist
    /// holding only the name-resolution field.
    pub fn template() -> (r: Self)
        ensures
            is_template(r),
    {
        let mut valid: Vec<String> = Vec::new();
        valid.push("dns".to_owned());
        IProfiles { current: None, chain: None, valid: Some(valid), items: Some(Vec::new()) }
    }

    /// The identifier of the active item, or none.
    pub fn get_current(&self) -> (r: Option<String>)
        ensures
            r == self.current,
    {
        match &self.current {
            Some(c) => Some(c.clone()),
            None => None,
        }
    }

    /// The profile collection, if one has been set.
    pub fn get_items(&self) -> (r: Option<&Vec<PrfItem>>)
        ensures
            match r {
                Some(v) => self.items matches Some(w) && *v == w,
                None => self.items is None,
            },
    {
        self.items.as_ref()
    }

    /// The first item carrying `uid`.
    pub fn get_item(&self, uid: &String) -> (r: Result<&PrfItem, PrfError>)
        ensures
            r is Ok <==> self.has_item(uid@),
            r matches Ok(it) ==> *it == self.items_seq()[find_uid(self.items_seq(), uid@)],
            r matches Err(e) ==> e == PrfError::ItemNotFound,
    {
        match self.items.as_ref() {
            Some(items) => match find_item_idx(items, uid) {
                Some(i) => Ok(&items[i]),
                None => Err(PrfError::ItemNotFound),
            },
            None => Err(PrfError::ItemNotFound),
        }
    }
}

/// A content-file write owed by the caller after an update: `data` is to be
/// written to the profiles directory under the name `file`.
#[derive(Debug, Clone, PartialEq, Eq)]
pub struct FileWrite {
    pub file: String,
    pub data: String,
}

/// How a selective patch changes the store: `current` is applied only when
/// it resolves to an existing item, `chain` and `valid` replace the stored
/// value wholesale when present, the collection is only normalized.
pub open spec fn patch_config_post(pre: IProfiles, post: IProfiles, patch: IProfiles) -> bool {
    &&& post.items matches Some(v) && v@ == pre.items_seq()
    &&& post.current == (match patch.current {
        Some(c) => if seq_has_uid(pre.items_seq(), c@) {
            Some(c)
        } else {
            pre.current
        },
        None => pre.current,
    })
    &&& post.chain == (if patch.chain is Some {
        patch.chain
    } else {
        pre.chain
    })
    &&& post.valid == (if patch.valid is Some {
        patch.valid
    } else {
        pre.valid
    })
}

/// How a successful append changes the store: the record, with its transient
/// payload cleared, goes to the tail of the collection; nothing else moves.
pub open spec fn append_post_ok(pre: IProfiles, post: IProfiles, item: PrfItem) -> bool {
    &&& post.items matches Some(v) && v@ == pre.items_seq().push(spec_cleared(item))
    &&& post.current == pre.current
    &&& post.chain == pre.chain
    &&& post.valid == pre.valid
}

/// How a field-level patch changes the store: when `uid` resolves, exactly
/// the first matching item is replaced by its merge with `p`; when it does
/// not, the collection is restored unchanged and the call fails.
pub open spec fn patch_item_post(
    pre: IProfiles,
    post: IProfiles,
    uid: Seq<char>,
    p: PrfItem,
    r: Result<(), PrfError>,
) -> bool {
    &&& post.current == pre.current
    &&& post.chain == pre.chain
    &&& post.valid == pre.valid
    &&& if seq_has_uid(pre.items_seq(), uid) {
        let i = find_uid(pre.items_seq(), uid);
        &&& r is Ok
        &&& post.items matches Some(v) && v@ == pre.items_seq().update(
            i,
            spec_patched(pre.items_seq()[i], p),
        )
    } else {
        &&& r == Err::<(), PrfError>(PrfError::ItemNotFound)
        &&& post.items matches Some(v) && v@ == pre.items_seq()
    }
}

/// Whether a delete of `uid` targets the active profile: it does when `uid`
/// is the active identifier, and also when nothing is active.
pub open spec fn delete_targets_current(pre: IProfiles, uid: Seq<char>) -> bool {
    match pre.current {
        Some(c) => c@ == uid,
        None => true,
    }
}

/// How a delete changes the store: the first item carrying `uid` leaves the
/// collection (order preserved); when the delete targeted the active
/// profile, the first remaining item becomes active, or none.
pub open spec fn delete_post(
    pre: IProfiles,
    post: IProfiles,
    uid: Seq<char>,
    was_current: bool,
) -> bool {
    let remaining = if seq_has_uid(pre.items_seq(), uid) {
        pre.items_seq().remove(find_uid(pre.items_seq(), uid))
    } else {
        pre.items_seq()
    };
    &&& was_current == delete_targets_current(pre, uid)
    &&& post.items matches Some(v) && v@ == remaining
    &&& post.chain == pre.chain
    &&& post.valid == pre.valid
    &&& post.current == (if was_current {
        if remaining.len() > 0 {
            remaining[0].uid
        } else {
            None
        }
    } else {
        pre.current
    })
}

/// How a metadata refresh changes one record: `extra` and `updated` are
/// overwritten unconditionally; when the request carries a content payload,
/// `w` is the owed content-file write, whose name falls back from the stored
/// name to the requested one to a default derived from `uid`, and the record
/// names that file afterwards.
pub open spec fn update_item_ok(
    pre: IProfiles,
    post: IProfiles,
    uid: Seq<char>,
    p: PrfItem,
    w: Option<FileWrite>,
) -> bool {
    let i = find_uid(pre.items_seq(), uid);
    let base = pre.items_seq()[i];
    &&& post.current == pre.current
    &&& post.chain == pre.chain
    &&& post.valid == pre.valid
    &&& (w is Some <==> p.file_data is Some)
    &&& post.items matches Some(v) && {
        let cur = v@[i];
        &&& v@ == pre.items_seq().update(i, cur)
        &&& cur.uid == base.uid
        &&& cur.itype == base.itype
        &&& cur.name == base.name
        &&& cur.desc == base.desc
        &&& cur.url == base.url
        &&& cur.selected == base.selected
        &&& cur.option == base.option
        &&& cur.extra == p.extra
        &&& cur.updated == p.updated
        &&& cur.file_data == base.file_data
        &&& match w {
            Some(fw) => {
                &&& p.file_data matches Some(d) && fw.data == d
                &&& cur.file == Some(fw.file)
                &&& match base.file {
                    Some(f) => fw.file == f,
                    None => match p.file {
                        Some(f) => fw.file == f,
                        None => fw.file@ == uid + ".yaml"@,
                    },
                }
            },
            None => cur.file == base.file,
        }
    }
}

impl IProfiles {
    /// Apply a partial store: `current` only when it resolves to an existing
    /// item (silently ignored otherwise), `chain` and `valid` wholesale when
    /// present. The offered collection is ignored. Never fails; the caller
    /// decides when to persist.
    pub fn patch_config(&mut self, patch: IProfiles) -> (r: Result<(), PrfError>)
        ensures
            r is Ok,
            patch_config_post(*old(self), *final(self), patch),
    {
        if self.items.is_none() {
            self.items = Some(Vec::new());
        }
        match patch.current {
            Some(current) => {
                let found = match &self.items {
                    Some(items) => find_item_idx(items, &current).is_some(),
                    None => false,
                };
                if found {
                    self.current = Some(current);
                }
            },
            None => {},
        }
        match patch.chain {
            Some(chain) => {
                self.chain = Some(chain);
            },
            None => {},
        }
        match patch.valid {
            Some(valid) => {
                self.valid = Some(valid);
            },
            None => {},
        }
        Ok(())
    }

    /// Make `uid` the active profile, if an item carries it; fail without
    /// touching the active identifier otherwise.
    pub fn put_current(&mut self, uid: String) -> (r: Result<(), PrfError>)
        ensures
            final(self).items matches Some(v) && v@ == old(self).items_seq(),
            final(self).chain == old(self).chain,
            final(self).valid == old(self).valid,
            r is Ok <==> seq_has_uid(old(self).items_seq(), uid@),
            r is Ok ==> final(self).current == Some(uid),
            r matches Err(e) ==> final(self).current == old(self).current && e
                == PrfError::InvalidUid,
    {
        if self.items.is_none() {
            self.items = Some(Vec::new());
        }
        let found = match &self.items {
            Some(items) => find_item_idx(items, &uid).is_some(),
            None => false,
        };
        if found {
            self.current = Some(uid);
            Ok(())
        } else {
            Err(PrfError::InvalidUid)
        }
    }

    /// Replace the override chain wholesale. The caller persists afterwards.
    pub fn put_chain(&mut self, chain: Option<Vec<String>>) -> (r: Result<(), PrfError>)
        ensures
            r is Ok,
            final(self).chain == chain,
            final(self).current == old(self).current,
            final(self).valid == old(self).valid,
            final(self).items == old(self).items,
    {
        self.chain = chain;
        Ok(())
    }

    /// Replace the whitelist wholesale. The caller persists afterwards.
    pub fn put_valid(&mut self, valid: Option<Vec<String>>) -> (r: Result<(), PrfError>)
        ensures
            r is Ok,
            final(self).valid == valid,
            final(self).current == old(self).current,
            final(self).chain == old(self).chain,
            final(self).items == old(self).items,
    {
        self.valid = valid;
        Ok(())
    }

    /// Append a record to the tail of the collection.
    ///
    /// Fails when the record carries no identifier, or carries a content
    /// payload but no file name; the store is then left untouched. On
    /// success the transient payload is cleared before the record is stored:
    /// the caller has already written it to the record's content file.
    pub fn append_item(&mut self, item: PrfItem) -> (r: Result<(), PrfError>)
        ensures
            item.uid is None ==> r == Err::<(), PrfError>(PrfError::UidRequired) && *final(self)
                == *old(self),
            item.uid is Some && item.file_data is Some && item.file is None ==> r == Err::<
                (),
                PrfError,
            >(PrfError::FileRequired) && *final(self) == *old(self),
            item.uid is Some && (item.file_data is None || item.file is Some) ==> r is Ok
                && append_post_ok(*old(self), *final(self), item),
    {
        if item.uid.is_none() {
            return Err(PrfError::UidRequired);
        }
        if item.file_data.is_some() && item.file.is_none() {
            return Err(PrfError::FileRequired);
        }
        let stored = PrfItem { file_data: None, ..item };
        let mut items = match self.items.take() {
            Some(v) => v,
            None => Vec::new(),
        };
        items.push(stored);
        self.items = Some(items);
        Ok(())
    }

    /// Merge `item` field-by-field into the first record carrying `uid`:
    /// fields absent from `item` keep their stored value. Fails, restoring
    /// the collection unchanged, when no record carries `uid`.
    pub fn patch_item(&mut self, uid: String, item: PrfItem) -> (r: Result<(), PrfError>)
        ensures
            patch_item_post(*old(self), *final(self), uid@, item, r),
    {
        let mut items = match self.items.take() {
            Some(v) => v,
            None => Vec::new(),
        };
        match find_item_idx(&items, &uid) {
            Some(i) => {
                let ghost items0 = items@;
                let base = items.remove(i);
                let merged = patched_item(base, item);
                items.insert(i, merged);
                proof {
                    assert(items@ =~= items0.update(
                        i as int,
                        spec_patched(items0[i as int], item),
                    ));
                }
                self.items = Some(items);
                Ok(())
            },
            None => {
                self.items = Some(items);
                Err(PrfError::ItemNotFound)
            },
        }
    }

    /// Refresh the first record carrying `uid`: overwrite `extra` and
    /// `updated` from `item`, and, when `item` carries a content payload,
    /// hand back the content-file write owed by the caller; the record then
    /// names that file. Fails when no record carries `uid`.
    pub fn update_item(&mut self, uid: String, item: PrfItem) -> (r: Result<
        Option<FileWrite>,
        PrfError,
    >)
        ensures
            r is Ok <==> seq_has_uid(old(self).items_seq(), uid@),
            r matches Err(e) ==> e == PrfError::ItemNotFound && final(self).current == old(
                self,
            ).current && final(self).chain == old(self).chain && final(self).valid == old(
                self,
            ).valid && (final(self).items matches Some(v) && v@ == old(self).items_seq()),
            r matches Ok(w) ==> update_item_ok(*old(self), *final(self), uid@, item, w),
    {
        let mut items = match self.items.take() {
            Some(v) => v,
            None => Vec::new(),
        };
        match find_item_idx(&items, &uid) {
            None => {
                self.items = Some(items);
                Err(PrfError::ItemNotFound)
            },
            Some(i) => {
                let ghost items0 = items@;
                let base = items.remove(i);
                let new_file: Option<String>;
                let w: Option<FileWrite> = match item.file_data {
                    Some(data) => {
                        let fname: String = match base.file {
                            Some(f) => f,
                            None => match item.file {
                                Some(f) => f,
                                None => uid.clone().concat(".yaml"),
                            },
                        };
                        new_file = Some(fname.clone());
                        Some(FileWrite { file: fname, data })
                    },
                    None => {
                        new_file = base.file;
                        None
                    },
                };
                let cur = PrfItem {
                    uid: base.uid,
                    itype: base.itype,
                    name: base.name,
                    desc: base.desc,
                    file: new_file,
                    url: base.url,
                    selected: base.selected,
                    extra: item.extra,
                    updated: item.updated,
                    option: base.option,
                    file_data: base.file_data,
                };
                items.insert(i, cur);
                proof {
                    assert(items@ =~= items0.update(i as int, items@[i as int]));
                }
                self.items = Some(items);
                Ok(w)
            },
        }
    }

    /// Remove the first record carrying `uid`, order preserved, and report
    /// whether the delete targeted the active profile; when it did, the
    /// first remaining record becomes active, or none remains active.
    /// Deleting an unknown identifier removes nothing but still reassigns
    /// the active profile by the same rule.
    pub fn delete_item(&mut self, uid: String) -> (r: Result<bool, PrfError>)
        ensures
            r is Ok,
            delete_post(*old(self), *final(self), uid@, r->Ok_0),
    {
        let was_current = match &self.current {
            Some(c) => *c == uid,
            None => true,
        };
        let mut items = match self.items.take() {
            Some(v) => v,
            None => Vec::new(),
        };
        match find_item_idx(&items, &uid) {
            Some(i) => {
                let _ = items.remove(i);
            },
            None => {},
        }
        if was_current {
            self.current = if items.len() > 0 {
                match &items[0].uid {
                    Some(u) => Some(u.clone()),
                    None => None,
                }
            } else {
                None
            };
        }
        self.items = Some(items);
        Ok(was_current)
    }
}

/// The content file the active profile resolves to: none when nothing is
/// active (or no collection is set), the active item's file when it has one;
/// an active identifier that no item carries, or an active item without a
/// file, is a failure.
pub open spec fn spec_gen_current(s: IProfiles) -> Result<Option<String>, PrfError> {
    if s.current is None || s.items is None {
        Ok(None)
    } else if !seq_has_uid(s.items_seq(), s.current->0@) {
        Err(PrfError::CurrentNotFound)
    } else {
        match s.items_seq()[find_uid(s.items_seq(), s.current->0@)].file {
            Some(f) => Ok(Some(f)),
            None => Err(PrfError::FileFieldMissing),
        }
    }
}

impl IProfiles {
    /// Resolve the active profile to its content file.
    fn gen_current(&self) -> (r: Result<Option<String>, PrfError>)
        ensures
            r == spec_gen_current(*self),
    {
        let current = match (&self.current, &self.items) {
            (Some(c), Some(_)) => c,
            _ => {
                return Ok(None);
            },
        };
        let items = match &self.items {
            Some(items) => items,
            None => {
                return Ok(None);
            },
        };
        match find_item_idx(items, current) {
            None => Err(PrfError::CurrentNotFound),
            Some(i) => match &items[i].file {
                Some(f) => Ok(Some(f.clone())),
                None => Err(PrfError::FileFieldMissing),
            },
        }
    }

    /// Resolve the whole store into an activation snapshot: the active
    /// profile's content file, the override units of the chain entries that
    /// resolve (entries that do not are dropped, in order, without error),
    /// and a copy of the whitelist, empty when unset. Read-only.
    pub fn gen_activate(&self) -> (r: Result<PrfActivate, PrfError>)
        ensures
            r is Ok <==> spec_gen_current(*self) is Ok,
            r matches Err(e) ==> spec_gen_current(*self) == Err::<Option<String>, PrfError>(e),
            r matches Ok(a) ==> {
                &&& spec_gen_current(*self) == Ok::<Option<String>, PrfError>(a.current)
                &&& a.chain@ == resolve_chain(self.items_seq(), self.chain_seq())
                &&& a.valid@ == self.valid_seq()
            },
    {
        let current = match self.gen_current() {
            Ok(c) => c,
            Err(e) => {
                return Err(e);
            },
        };
        let mut chain_out: Vec<crate::item::ChainItem> = Vec::new();
        match &self.chain {
            Some(chain) => {
                let n = chain.len();
                let mut j: usize = 0;
                while j < n
                    invariant
                        n == chain@.len(),
                        j <= n,
                        self.chain matches Some(c0) && c0@ == chain@,
                        chain_out@ == resolve_chain(self.items_seq(), chain@.take(j as int)),
                    decreases n - j,
                {
                    match self.get_item(&chain[j]) {
                        Ok(it) => match it.to_enhance() {
                            Some(ci) => chain_out.push(ci),
                            None => {},
                        },
                        Err(_) => {},
                    }
                    proof {
                        assert(chain@.take(j as int + 1).drop_last() =~= chain@.take(j as int));
                        assert(chain@.take(j as int + 1).last() == chain@[j as int]);
                    }
                    j += 1;
                }
                proof {
                    assert(chain@.take(n as int) =~= chain@);
                }
            },
            None => {},
        }
        let valid = match &self.valid {
            Some(v) => clone_string_vec(v),
            None => Vec::new(),
        };
        Ok(PrfActivate { current, chain: chain_out, valid })
    }
}

} // verus!
