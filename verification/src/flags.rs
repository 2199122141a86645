//! The change flags of the native notification service, and their translation into portable
//! change kinds.

use vstd::prelude::*;
use crate::op::{Op, ALL, CHMOD, CREATE, REMOVE, RENAME, WRITE};

verus! {

/// No flag.
pub const NONE: u32 = 0x0000_0000;

/// The directory must be scanned again with all that lies below it.
pub const MUST_SCAN_SUBDIRS: u32 = 0x0000_0001;

/// Events were dropped on the way to the client.
pub const USER_DROPPED: u32 = 0x0000_0002;

/// Events were dropped inside the service.
pub const KERNEL_DROPPED: u32 = 0x0000_0004;

/// The counter of event ids has wrapped round.
pub const IDS_WRAPPED: u32 = 0x0000_0008;

/// The events of the past have all been delivered.
pub const HISTORY_DONE: u32 = 0x0000_0010;

/// A directory on the way to a watched path has changed.
pub const ROOT_CHANGED: u32 = 0x0000_0020;

/// A volume was mounted below a watched path.
pub const MOUNT: u32 = 0x0000_0040;

/// A volume was unmounted below a watched path.
pub const UNMOUNT: u32 = 0x0000_0080;

/// The item was created.
pub const ITEM_CREATED: u32 = 0x0000_0100;

/// The item was removed.
pub const ITEM_REMOVED: u32 = 0x0000_0200;

/// The item's inode metadata was modified.
pub const INODE_META_MOD: u32 = 0x0000_0400;

/// The item was renamed.
pub const ITEM_RENAMED: u32 = 0x0000_0800;

/// The item's content was modified.
pub const ITEM_MODIFIED: u32 = 0x0000_1000;

/// The item's Finder information was modified.
pub const FINDER_INFO_MOD: u32 = 0x0000_2000;

/// The item's owner was changed.
pub const ITEM_CHANGE_OWNER: u32 = 0x0000_4000;

/// An extended attribute of the item was modified.
pub const ITEM_XATTR_MOD: u32 = 0x0000_8000;

/// The item is a file.
pub const IS_FILE: u32 = 0x0001_0000;

/// The item is a directory.
pub const IS_DIR: u32 = 0x0002_0000;

/// The item is a symbolic link.
pub const IS_SYMLINK: u32 = 0x0004_0000;

/// The event was caused by the watching process itself.
pub const OWN_EVENT: u32 = 0x0008_0000;

/// The item is a hard link.
pub const IS_HARDLINK: u32 = 0x0010_0000;

/// The item was the last hard link to its file.
pub const IS_LAST_HARDLINK: u32 = 0x0020_0000;

/// The item is a clone, or was cloned.
pub const ITEM_CLONED: u32 = 0x0040_0000;

/// Every flag that the service is known to deliver.
pub const KNOWN: u32 = MUST_SCAN_SUBDIRS | USER_DROPPED | KERNEL_DROPPED | IDS_WRAPPED | HISTORY_DONE
    | ROOT_CHANGED | MOUNT | UNMOUNT | ITEM_CREATED | ITEM_REMOVED | INODE_META_MOD | ITEM_RENAMED
    | ITEM_MODIFIED | FINDER_INFO_MOD | ITEM_CHANGE_OWNER | ITEM_XATTR_MOD | IS_FILE | IS_DIR
    | IS_SYMLINK | OWN_EVENT | IS_HARDLINK | IS_LAST_HARDLINK | ITEM_CLONED;

/// Whether every bit of `raw` is a flag that the service is known to deliver.
pub open spec fn recognized(raw: u32) -> bool {
    raw & !KNOWN == 0
}

/// Whether every bit of `flag` is set in `raw`.
pub open spec fn has(raw: u32, flag: u32) -> bool {
    raw & flag == flag
}

/// The change kind `kind` if `flag` is set in `raw`, else nothing.
pub open spec fn kind_if(raw: u32, flag: u32, kind: u32) -> u32 {
    if has(raw, flag) {
        kind
    } else {
        0
    }
}

/// The portable change kinds that the native flags `raw` stand for: each of the five flags below
/// gives its kind, whatever else is set, and no other flag gives anything.
pub open spec fn translate(raw: u32) -> u32 {
    kind_if(raw, ITEM_XATTR_MOD, CHMOD) | kind_if(raw, ITEM_CREATED, CREATE) | kind_if(
        raw,
        ITEM_REMOVED,
        REMOVE,
    ) | kind_if(raw, ITEM_RENAMED, RENAME) | kind_if(raw, ITEM_MODIFIED, WRITE)
}

/// The change kind that the single flag `flag` stands for, or nothing.
pub open spec fn kind_of(flag: u32) -> u32 {
    if flag == ITEM_XATTR_MOD {
        CHMOD
    } else if flag == ITEM_CREATED {
        CREATE
    } else if flag == ITEM_REMOVED {
        REMOVE
    } else if flag == ITEM_RENAMED {
        RENAME
    } else if flag == ITEM_MODIFIED {
        WRITE
    } else {
        0
    }
}

/// A kind is in the translation exactly if its flag is set, and the translation holds nothing
/// but kinds.
pub proof fn translate_by_kind(raw: u32)
    by (bit_vector)
    ensures
        has(translate(raw), CHMOD) <==> has(raw, ITEM_XATTR_MOD),
        has(translate(raw), CREATE) <==> has(raw, ITEM_CREATED),
        has(translate(raw), REMOVE) <==> has(raw, ITEM_REMOVED),
        has(translate(raw), RENAME) <==> has(raw, ITEM_RENAMED),
        has(translate(raw), WRITE) <==> has(raw, ITEM_MODIFIED),
        translate(raw) & !ALL == 0,
{
}

/// A single flag, whichever of the thirty-two bits it is, translates into the one kind that it
/// stands for and no other, or into nothing where it stands for none.
pub proof fn translate_single(bit: u32)
    by (bit_vector)
    requires
        bit < 32,
    ensures
        translate(1u32 << bit) == kind_of(1u32 << bit),
{
}

/// Flags that are set together translate into the union of what each translates into.
pub proof fn translate_union(a: u32, b: u32)
    by (bit_vector)
    ensures
        translate(a | b) == translate(a) | translate(b),
{
}

/// A set of native change flags. It never holds a bit outside [`KNOWN`].
#[derive(Clone, Copy, Debug, PartialEq, Eq, Structural)]
pub struct StreamFlags {
    bits: u32,
}

impl View for StreamFlags {
    type V = u32;

    /// The bits of the set.
    closed spec fn view(&self) -> u32 {
        self.bits
    }
}

impl StreamFlags {
    #[verifier::type_invariant]
    spec fn within_known(self) -> bool {
        recognized(self.bits)
    }

    /// The set for the raw value `bits`, unless it holds a bit that stands for no known flag.
    pub fn from_bits(bits: u32) -> (r: Option<StreamFlags>)
        ensures
            r is Some <==> recognized(bits),
            r is Some ==> r->0@ == bits,
    {
        if bits & !KNOWN == 0 {
            Some(StreamFlags { bits })
        } else {
            None
        }
    }

    /// The raw value of the set.
    pub fn bits(&self) -> (b: u32)
        ensures
            b == self@,
            recognized(b),
    {
        proof {
            use_type_invariant(self);
        }
        self.bits
    }

    /// Whether every bit of the raw value `flag` is set.
    pub fn contains(&self, flag: u32) -> (r: bool)
        ensures
            r == has(self@, flag),
    {
        self.bits & flag == flag
    }
}

/// Translates a set of native flags into the set of portable change kinds.
pub fn translate_flags(flags: StreamFlags) -> (ret: Op)
    ensures
        ret@ == translate(flags@),
{
    let mut ret = Op::empty();
    if flags.contains(ITEM_XATTR_MOD) {
        ret.insert(Op::chmod());
    }
    if flags.contains(ITEM_CREATED) {
        ret.insert(Op::create());
    }
    if flags.contains(ITEM_REMOVED) {
        ret.insert(Op::remove());
    }
    if flags.contains(ITEM_RENAMED) {
        ret.insert(Op::rename());
    }
    if flags.contains(ITEM_MODIFIED) {
        ret.insert(Op::write());
    }
    proof {
        let r = ret@;
        let a = kind_if(flags@, ITEM_XATTR_MOD, CHMOD);
        let b = kind_if(flags@, ITEM_CREATED, CREATE);
        let c = kind_if(flags@, ITEM_REMOVED, REMOVE);
        let d = kind_if(flags@, ITEM_RENAMED, RENAME);
        let e = kind_if(flags@, ITEM_MODIFIED, WRITE);
        assert(forall|x: u32| #[trigger] (x | 0) == x) by (bit_vector);
        assert(r == ((((0u32 | a) | b) | c) | d) | e);
        assert(r == a | b | c | d | e) by (bit_vector)
            requires
                r == ((((0u32 | a) | b) | c) | d) | e,
        ;
    }
    ret
}

} // verus!
