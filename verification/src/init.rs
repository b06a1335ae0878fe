//! The frame of a coroutine that has been initialized but not yet started.
//!
//! ```text
//! +------------------+  <- Stack base
//! | Initial func     |
//! +------------------+
//! | Parent link      |
//! +------------------+
//! |                  |
//! ~ Initial obj      ~
//! |                  |
//! +------------------+
//! | Padding          |
//! +------------------+
//! | Initial PC       |
//! +------------------+
//! | Padding          |
//! +------------------+
//! | Padding          |
//! +------------------+  <- Initial stack pointer
//! ```

use vstd::prelude::*;
use crate::frame::{
    allocate_obj_on_stack, is_alignment, lemma_room_for_obj, obj_fits, padding_to_alignment,
    placed_obj_addr, push, StackWrite,
    MAX_STACK_OBJ_SIZE, PARENT_LINK_OFFSET, STACK_ALIGNMENT, STACK_WORD_SIZE,
};

verus! {

/// Distance from the initial stack pointer up to the initial object: two
/// padding words, the initial PC and one more padding word.
pub const INITIAL_OBJ_OFFSET: usize = 32;

/// What `init_stack` lays out: the initial stack pointer, the address where
/// the initial object is to be stored, and the words to store.
pub struct InitialStack {
    pub sp: usize,
    pub obj_addr: usize,
    pub writes: Vec<StackWrite>,
}

/// Address of the initial object on a stack whose base is `stack_base`.
pub open spec fn initial_obj_addr(stack_base: int, obj_size: int, obj_align: int) -> int {
    placed_obj_addr(stack_base - PARENT_LINK_OFFSET, PARENT_LINK_OFFSET as int, obj_size, obj_align)
}

/// Initial stack pointer of a stack whose base is `stack_base`.
pub open spec fn initial_sp(stack_base: int, obj_size: int, obj_align: int) -> int {
    initial_obj_addr(stack_base, obj_size, obj_align) - INITIAL_OBJ_OFFSET
}

/// The initial frame fits between address 0 and `stack_base`.
pub open spec fn initial_frame_fits(stack_base: int, obj_size: int, obj_align: int) -> bool {
    &&& stack_base >= PARENT_LINK_OFFSET
    &&& obj_fits(stack_base - PARENT_LINK_OFFSET, PARENT_LINK_OFFSET as int, obj_size, obj_align)
    &&& initial_sp(stack_base, obj_size, obj_align) >= 0
}

/// Every initial frame fits on a stack whose base leaves room for the object,
/// its alignment and 64 bytes of frame and padding, whatever the object.
pub proof fn lemma_room_for_initial_frame(stack_base: int, obj_size: int, obj_align: usize)
    requires
        0 <= obj_size,
        is_alignment(obj_align),
        stack_base >= obj_size + obj_align + 64,
    ensures
        initial_frame_fits(stack_base, obj_size, obj_align as int),
{
    let top: int = stack_base - PARENT_LINK_OFFSET;
    lemma_room_for_obj(top, PARENT_LINK_OFFSET as int, obj_size, obj_align);
    if obj_align > STACK_ALIGNMENT {
        vstd::arithmetic::div_mod::lemma_mod_bound(top - obj_size, obj_align as int);
    } else {
        assert(padding_to_alignment(PARENT_LINK_OFFSET + obj_size) < STACK_ALIGNMENT);
    }
}

/// Where the initial object of a stack whose initial stack pointer is `sp` lies.
pub open spec fn initial_obj_at(sp: int) -> int {
    sp + INITIAL_OBJ_OFFSET
}

/// Lays out the initial frame of a coroutine stack whose base is `stack_base`:
/// the initial function `func` in the top word, a placeholder for the parent
/// link, room for the initial object, then a padding word, the entry point
/// `trampoline` (the initial PC) and two more padding words.
///
/// The words to store are returned in the order they are pushed; padding and
/// the parent link are left as they are.
pub fn init_stack(
    stack_base: usize,
    func: u64,
    trampoline: u64,
    obj_size: usize,
    obj_align: usize,
) -> (r: InitialStack)
    requires
        stack_base % STACK_ALIGNMENT == 0,
        obj_size <= MAX_STACK_OBJ_SIZE,
        is_alignment(obj_align),
        initial_frame_fits(stack_base as int, obj_size as int, obj_align as int),
    ensures
        r.obj_addr == initial_obj_addr(stack_base as int, obj_size as int, obj_align as int),
        r.sp == initial_sp(stack_base as int, obj_size as int, obj_align as int),
        r.writes@ == seq![
            StackWrite { addr: (stack_base - STACK_WORD_SIZE) as usize, value: func },
            StackWrite { addr: (r.sp + 2 * STACK_WORD_SIZE) as usize, value: trampoline },
        ],
        r.sp % STACK_ALIGNMENT == 0,
        r.obj_addr % obj_align == 0,
        r.obj_addr == initial_obj_at(r.sp as int),
        r.obj_addr + obj_size <= stack_base - PARENT_LINK_OFFSET,
        r.obj_addr == r.sp + INITIAL_OBJ_OFFSET,
        r.obj_addr % STACK_ALIGNMENT == 0,
        (stack_base - PARENT_LINK_OFFSET - obj_size) - r.obj_addr < (if obj_align > STACK_ALIGNMENT {
            obj_align
        } else {
            STACK_ALIGNMENT
        }),
        forall|i: int|
            0 <= i < r.writes@.len() ==> {
                let a = #[trigger] r.writes@[i].addr;
                &&& r.sp <= a
                &&& a + STACK_WORD_SIZE <= stack_base
                &&& a % STACK_WORD_SIZE == 0
                &&& a != stack_base - PARENT_LINK_OFFSET
                &&& (a + STACK_WORD_SIZE <= r.obj_addr || r.obj_addr + obj_size <= a)
            },
{
    let mut sp = stack_base;
    let mut writes: Vec<StackWrite> = Vec::new();

    // Initial function.
    push(&mut sp, Some(func), &mut writes);

    // Placeholder for the parent link.
    push(&mut sp, None, &mut writes);

    // Room for the initial object.
    allocate_obj_on_stack(&mut sp, PARENT_LINK_OFFSET, obj_size, obj_align);
    let obj_addr = sp;

    // Padding.
    push(&mut sp, None, &mut writes);

    // Entry point called on the first switch into the coroutine.
    push(&mut sp, Some(trampoline), &mut writes);

    // Padding that keeps the stack pointer aligned.
    push(&mut sp, None, &mut writes);
    push(&mut sp, None, &mut writes);

    InitialStack { sp, obj_addr, writes }
}

/// Address of the initial object of a coroutine that has not been started,
/// given its stack pointer: the place at which that object is dropped.
pub fn initial_obj_ptr(stack_ptr: usize) -> (r: usize)
    requires
        stack_ptr + INITIAL_OBJ_OFFSET <= usize::MAX,
    ensures
        r == initial_obj_at(stack_ptr as int),
{
    stack_ptr + INITIAL_OBJ_OFFSET
}

/// The object that is dropped for a coroutine that never started is the one
/// that `init_stack` placed: from the initial stack pointer, `initial_obj_ptr`
/// finds the initial object's address.
pub proof fn lemma_dropped_obj_is_initial_obj(stack_base: int, obj_size: int, obj_align: int)
    requires
        initial_frame_fits(stack_base, obj_size, obj_align),
    ensures
        initial_obj_at(initial_sp(stack_base, obj_size, obj_align)) == initial_obj_addr(
            stack_base,
            obj_size,
            obj_align,
        ),
{
}

} // verus!
