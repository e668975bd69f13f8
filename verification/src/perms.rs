//! Permission bitmasks for remote user accounts.
//!
//! A permission value is a 4-bit set: `read = 1`, `write = 2`, `delete = 4`,
//! `exec = 8`. When a caller gives no permissions, the default grants
//! read and exec.

use vstd::prelude::*;

verus! {

/// A decomposed permission bitmask.
#[derive(Clone, Copy, Debug, PartialEq, Eq, Structural)]
pub struct PermSet {
    pub read: bool,
    pub write: bool,
    pub delete: bool,
    pub execute: bool,
}

pub open spec fn has_read(v: u8) -> bool {
    v & 1 != 0
}

pub open spec fn has_write(v: u8) -> bool {
    v & 2 != 0
}

pub open spec fn has_delete(v: u8) -> bool {
    v & 4 != 0
}

pub open spec fn has_exec(v: u8) -> bool {
    v & 8 != 0
}

/// The bitmask holding exactly the permissions of `p`.
pub open spec fn perm_bits(p: PermSet) -> u8 {
    (if p.read { 1u8 } else { 0u8 }) | (if p.write { 2u8 } else { 0u8 })
        | (if p.delete { 4u8 } else { 0u8 }) | (if p.execute { 8u8 } else { 0u8 })
}

/// Splits a permission value into its four flags.
pub fn decompose_perms(v: u8) -> (p: PermSet)
    ensures
        p.read == has_read(v),
        p.write == has_write(v),
        p.delete == has_delete(v),
        p.execute == has_exec(v),
{
    PermSet { read: v & 1 != 0, write: v & 2 != 0, delete: v & 4 != 0, execute: v & 8 != 0 }
}

/// Builds the permission value carrying exactly the flags of `p`.
pub fn compose_perms(p: PermSet) -> (v: u8)
    ensures
        v == perm_bits(p),
        v <= 15,
        has_read(v) == p.read,
        has_write(v) == p.write,
        has_delete(v) == p.delete,
        has_exec(v) == p.execute,
{
    let v: u8 = (if p.read { 1u8 } else { 0u8 }) | (if p.write { 2u8 } else { 0u8 })
        | (if p.delete { 4u8 } else { 0u8 }) | (if p.execute { 8u8 } else { 0u8 });
    proof {
        lemma_decompose_compose(p);
    }
    v
}

/// The default permission value: read and exec, nothing else.
pub fn default_perms() -> (v: u8)
    ensures
        v == 9,
        has_read(v) && has_exec(v) && !has_write(v) && !has_delete(v),
{
    proof {
        assert(9u8 & 1 != 0 && 9u8 & 8 != 0 && 9u8 & 2 == 0 && 9u8 & 4 == 0) by (bit_vector);
    }
    9
}

/// Decomposing a composed bitmask gives back the same flags.
pub proof fn lemma_decompose_compose(p: PermSet)
    ensures
        has_read(perm_bits(p)) == p.read,
        has_write(perm_bits(p)) == p.write,
        has_delete(perm_bits(p)) == p.delete,
        has_exec(perm_bits(p)) == p.execute,
        perm_bits(p) <= 15,
{
    let r: u8 = if p.read { 1u8 } else { 0u8 };
    let w: u8 = if p.write { 2u8 } else { 0u8 };
    let d: u8 = if p.delete { 4u8 } else { 0u8 };
    let e: u8 = if p.execute { 8u8 } else { 0u8 };
    assert((r | w | d | e) & 1 != 0 <==> r == 1) by (bit_vector)
        requires
            r == 0 || r == 1,
            w == 0 || w == 2,
            d == 0 || d == 4,
            e == 0 || e == 8,
    ;
    assert((r | w | d | e) & 2 != 0 <==> w == 2) by (bit_vector)
        requires
            r == 0 || r == 1,
            w == 0 || w == 2,
            d == 0 || d == 4,
            e == 0 || e == 8,
    ;
    assert((r | w | d | e) & 4 != 0 <==> d == 4) by (bit_vector)
        requires
            r == 0 || r == 1,
            w == 0 || w == 2,
            d == 0 || d == 4,
            e == 0 || e == 8,
    ;
    assert((r | w | d | e) & 8 != 0 <==> e == 8) by (bit_vector)
        requires
            r == 0 || r == 1,
            w == 0 || w == 2,
            d == 0 || d == 4,
            e == 0 || e == 8,
    ;
    assert((r | w | d | e) <= 15) by (bit_vector)
        requires
            r == 0 || r == 1,
            w == 0 || w == 2,
            d == 0 || d == 4,
            e == 0 || e == 8,
    ;
}

/// Composing the flags decomposed from the low four bits of a value gives
/// back those bits.
pub proof fn lemma_compose_decompose(v: u8)
    requires
        v <= 15,
    ensures
        perm_bits(
            PermSet {
                read: has_read(v),
                write: has_write(v),
                delete: has_delete(v),
                execute: has_exec(v),
            },
        ) == v,
{
    let r: u8 = if v & 1 != 0 { 1u8 } else { 0u8 };
    let w: u8 = if v & 2 != 0 { 2u8 } else { 0u8 };
    let d: u8 = if v & 4 != 0 { 4u8 } else { 0u8 };
    let e: u8 = if v & 8 != 0 { 8u8 } else { 0u8 };
    assert((r | w | d | e) == v) by (bit_vector)
        requires
            v <= 15,
            r == (if v & 1 != 0 { 1u8 } else { 0u8 }),
            w == (if v & 2 != 0 { 2u8 } else { 0u8 }),
            d == (if v & 4 != 0 { 4u8 } else { 0u8 }),
            e == (if v & 8 != 0 { 8u8 } else { 0u8 }),
    ;
}

} // verus!
