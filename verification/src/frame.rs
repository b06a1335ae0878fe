//! Words pushed on a downward-growing stack, and objects placed on it.

use vstd::prelude::*;

verus! {

/// Alignment of the stack pointer at function-call boundaries.
pub const STACK_ALIGNMENT: usize = 16;

/// Distance of the parent link below the stack base.
pub const PARENT_LINK_OFFSET: usize = 16;

/// Size in bytes of one stack word (a `u64`).
pub const STACK_WORD_SIZE: usize = 8;

/// Size of the area in which a stack switch saves r6-r15 (ten 8-byte registers).
pub const SAVED_REGS_SIZE: usize = 80;

/// Largest object that may be placed on a stack.
pub const MAX_STACK_OBJ_SIZE: usize = 1024;

/// One word stored at an address of the stack.
#[derive(Clone, Copy, Debug, PartialEq, Eq, Structural)]
pub struct StackWrite {
    pub addr: usize,
    pub value: u64,
}

/// A valid alignment: a power of two.
pub open spec fn is_alignment(align: usize) -> bool {
    align > 0 && align & ((align - 1) as usize) == 0
}

/// `x` rounded down to a multiple of `align`.
pub open spec fn align_down(x: int, align: int) -> int {
    x - x % align
}

/// Bytes of padding after an object that ends `total` bytes above an aligned
/// address, so that the padding brings it to a multiple of `STACK_ALIGNMENT`.
pub open spec fn padding_to_alignment(total: int) -> int {
    if total % (STACK_ALIGNMENT as int) == 0 {
        0
    } else {
        STACK_ALIGNMENT - total % (STACK_ALIGNMENT as int)
    }
}

/// Where an object of `size` bytes and alignment `align` is placed below the
/// stack pointer `sp`, `sp_offset` being the distance from `sp` up to an
/// address aligned to `STACK_ALIGNMENT`. This is also the stack pointer after
/// the placement.
pub open spec fn placed_obj_addr(sp: int, sp_offset: int, size: int, align: int) -> int {
    if align > STACK_ALIGNMENT {
        align_down(sp - size, align)
    } else {
        sp - padding_to_alignment(sp_offset + size) - size
    }
}

/// The stack below `sp` has room for the object.
pub open spec fn obj_fits(sp: int, sp_offset: int, size: int, align: int) -> bool {
    &&& sp >= size
    &&& placed_obj_addr(sp, sp_offset, size, align) >= 0
}

/// Every object that leaves at least its size, its alignment and
/// `STACK_ALIGNMENT` bytes of room below `sp` can be placed there, whatever
/// its size and alignment.
pub proof fn lemma_room_for_obj(sp: int, sp_offset: int, size: int, align: usize)
    requires
        0 <= size,
        is_alignment(align),
        sp >= size + align + STACK_ALIGNMENT,
    ensures
        obj_fits(sp, sp_offset, size, align as int),
{
    if align > STACK_ALIGNMENT {
        let x: int = sp - size;
        vstd::arithmetic::div_mod::lemma_mod_bound(x, align as int);
        assert(align_down(x, align as int) >= 0);
    } else {
        assert(padding_to_alignment(sp_offset + size) < STACK_ALIGNMENT);
    }
}

/// For a power of two `align`, masking with `align - 1` keeps the remainder.
proof fn lemma_low_mask_is_mod(x: usize, align: usize)
    requires
        is_alignment(align),
    ensures
        x & ((align - 1) as usize) == x % align,
    decreases align,
{
    if align == 1 {
        assert(x & 0usize == 0usize) by (bit_vector);
    } else {
        let half: usize = align / 2;
        assert(half & ((half - 1) as usize) == 0 && half > 0 && align == half * 2) by (bit_vector)
            requires
                align > 1,
                align & ((align - 1) as usize) == 0,
                half == align / 2,
        ;
        lemma_low_mask_is_mod(x / 2, half);
        assert(x & ((align - 1) as usize) == ((x / 2) & ((half - 1) as usize)) * 2 + x % 2)
            by (bit_vector)
            requires
                align > 1,
                align == half * 2,
                half & ((half - 1) as usize) == 0,
        ;
        vstd::arithmetic::div_mod::lemma_mod_breakdown(x as int, 2, half as int);
    }
}

/// Clearing the bits below a power of two `align` rounds down to a multiple of it.
proof fn lemma_mask_is_align_down(x: usize, align: usize)
    requires
        is_alignment(align),
    ensures
        x & !((align - 1) as usize) == align_down(x as int, align as int),
        align_down(x as int, align as int) % (align as int) == 0,
{
    lemma_low_mask_is_mod(x, align);
    vstd::arithmetic::div_mod::lemma_fundamental_div_mod(x as int, align as int);
    lemma_multiple_of(x as int - x as int % align as int, x as int / align as int, align as int);
    let m: usize = (align - 1) as usize;
    assert(x & !m == x - (x & m)) by (bit_vector);
}

/// A multiple of an alignment above 16 is a multiple of 16.
proof fn lemma_large_alignment(y: usize, align: usize)
    requires
        align > 16,
        is_alignment(align),
        y % align == 0,
    ensures
        y % 16 == 0,
{
    assert(align % 16 == 0) by (bit_vector)
        requires
            align > 16,
            align & ((align - 1) as usize) == 0,
    ;
    let q: int = y as int / align as int;
    let r: int = align as int / 16;
    vstd::arithmetic::div_mod::lemma_fundamental_div_mod(y as int, align as int);
    vstd::arithmetic::div_mod::lemma_fundamental_div_mod(align as int, 16);
    assert(y as int == (r * q) * 16) by (nonlinear_arith)
        requires
            y as int == align * q,
            align as int == 16 * r,
    {
    }
    lemma_multiple_of(y as int, r * q, 16);
}

/// A multiple of 16 is a multiple of every alignment up to 16.
proof fn lemma_small_alignment(y: usize, align: usize)
    requires
        align <= 16,
        is_alignment(align),
        y % 16 == 0,
    ensures
        y % align == 0,
{
    assert(align == 1 || align == 2 || align == 4 || align == 8 || align == 16) by (bit_vector)
        requires
            0 < align <= 16,
            align & ((align - 1) as usize) == 0,
    ;
    let k: int = y as int / 16;
    vstd::arithmetic::div_mod::lemma_fundamental_div_mod(y as int, 16);
    if align == 1 {
        lemma_multiple_of(y as int, 16 * k, 1);
    } else if align == 2 {
        lemma_multiple_of(y as int, 8 * k, 2);
    } else if align == 4 {
        lemma_multiple_of(y as int, 4 * k, 4);
    } else if align == 8 {
        lemma_multiple_of(y as int, 2 * k, 8);
    } else {
        lemma_multiple_of(y as int, k, 16);
    }
}

/// `k * m` is a multiple of `m`.
proof fn lemma_multiple_of(y: int, k: int, m: int)
    requires
        m > 0,
        y == k * m,
    ensures
        y % m == 0,
{
    vstd::arithmetic::div_mod::lemma_mod_multiples_basic(k, m);
}

/// Pushes one word: the stack pointer moves down by one word and, where a
/// value is given, that value is stored at the new stack pointer. A `None`
/// leaves the slot as it was (padding or a placeholder).
pub fn push(sp: &mut usize, val: Option<u64>, writes: &mut Vec<StackWrite>)
    requires
        *old(sp) >= STACK_WORD_SIZE,
    ensures
        *final(sp) == *old(sp) - STACK_WORD_SIZE,
        final(writes)@ == match val {
            Some(v) => old(writes)@.push(StackWrite { addr: *final(sp), value: v }),
            None => old(writes)@,
        },
{
    *sp = *sp - STACK_WORD_SIZE;
    match val {
        Some(v) => writes.push(StackWrite { addr: *sp, value: v }),
        None => {},
    }
}

/// Places an object of `obj_size` bytes and alignment `obj_align` on the
/// stack below `*sp` and moves `*sp` down to the object's address, where the
/// caller then stores the object. `sp_offset` is the distance from `*sp` up to
/// an address aligned to `STACK_ALIGNMENT`.
///
/// An alignment above `STACK_ALIGNMENT` rounds the address down to it. A
/// smaller one adds the least padding after the object that makes
/// `sp_offset`, the padding and the object together a multiple of
/// `STACK_ALIGNMENT`, so that the new stack pointer is aligned again.
pub fn allocate_obj_on_stack(sp: &mut usize, sp_offset: usize, obj_size: usize, obj_align: usize)
    requires
        obj_size <= MAX_STACK_OBJ_SIZE,
        is_alignment(obj_align),
        sp_offset + obj_size <= usize::MAX,
        obj_fits(*old(sp) as int, sp_offset as int, obj_size as int, obj_align as int),
    ensures
        *final(sp) == placed_obj_addr(
            *old(sp) as int,
            sp_offset as int,
            obj_size as int,
            obj_align as int,
        ),
        *final(sp) + obj_size <= *old(sp),
        obj_align > STACK_ALIGNMENT ==> *old(sp) - *final(sp) < obj_size + obj_align,
        obj_align <= STACK_ALIGNMENT ==> *old(sp) - *final(sp) < obj_size + STACK_ALIGNMENT,
        obj_align <= STACK_ALIGNMENT ==> (*old(sp) - *final(sp) + sp_offset) % (
        STACK_ALIGNMENT as int) == 0,
        (*old(sp) + sp_offset) % (STACK_ALIGNMENT as int) == 0 || obj_align > STACK_ALIGNMENT
            ==> *final(sp) % STACK_ALIGNMENT == 0 && *final(sp) % obj_align == 0,
        obj_align <= STACK_ALIGNMENT ==> *final(sp) == *old(sp) - obj_size - (STACK_ALIGNMENT - (
        sp_offset + obj_size) % (STACK_ALIGNMENT as int)) % (STACK_ALIGNMENT as int),
        obj_align > STACK_ALIGNMENT ==> *final(sp) == (*old(sp) - obj_size) - (*old(sp)
            - obj_size) % (obj_align as int),
{
    let ghost start: usize = *sp;
    if obj_align > STACK_ALIGNMENT {
        *sp = *sp - obj_size;
        proof {
            lemma_mask_is_align_down(*sp, obj_align);
        }
        *sp = *sp & !(obj_align - 1);
        proof {
            assert(*sp % obj_align == 0);
            lemma_large_alignment(*sp, obj_align);
        }
    } else {
        let total_size = sp_offset + obj_size;
        let align_offset = total_size % STACK_ALIGNMENT;
        if align_offset != 0 {
            *sp = *sp - (STACK_ALIGNMENT - align_offset);
        }
        *sp = *sp - obj_size;
        proof {
            if (start + sp_offset) % (STACK_ALIGNMENT as int) == 0 {
                assert(*sp % STACK_ALIGNMENT == 0);
                lemma_small_alignment(*sp, obj_align);
            }
        }
    }
}

} // verus!
