//! Entering a trap handler on a coroutine stack.

use vstd::prelude::*;
use crate::frame::{
    allocate_obj_on_stack, is_alignment, obj_fits, placed_obj_addr, MAX_STACK_OBJ_SIZE,
    PARENT_LINK_OFFSET, STACK_ALIGNMENT,
};
use crate::init::initial_obj_addr;

verus! {

/// Registers which must be updated upon return from a trap handler.
#[derive(Clone, Copy, Debug, PartialEq, Eq, Structural)]
pub struct TrapHandlerRegs {
    pub pc: u64,
    pub sp: u64,
    pub r2: u64,
    pub r3: u64,
    pub r11: u64,
    pub r14: u64,
}

/// Address at which the value handed to a trap handler is stored.
pub open spec fn trap_value_addr(stack_base: int, val_size: int, val_align: int) -> int {
    placed_obj_addr(stack_base - PARENT_LINK_OFFSET, PARENT_LINK_OFFSET as int, val_size, val_align)
}

/// The registers with which the trap handler is entered.
pub open spec fn trap_regs(
    stack_base: int,
    val_size: int,
    val_align: int,
    handler: u64,
    trampoline_return: u64,
) -> TrapHandlerRegs {
    let v = trap_value_addr(stack_base, val_size, val_align);
    TrapHandlerRegs {
        pc: handler,
        sp: v as u64,
        r2: v as u64,
        r3: (stack_base - PARENT_LINK_OFFSET) as u64,
        r11: stack_base as u64,
        r14: trampoline_return,
    }
}

/// Sets up entry into the trap handler `handler` on the coroutine stack whose
/// base is `stack_base`. The top 16 bytes, which hold the parent link, are
/// kept; below them room is made for a value of `val_size` bytes and alignment
/// `val_align`, which the caller stores at the returned `sp`.
///
/// The handler receives a pointer to the value in r2 and the address of the
/// parent link in r3; r11 (the frame pointer) is the stack base, and r14 (the
/// return address) is `trampoline_return`.
pub fn setup_trap_trampoline(
    stack_base: usize,
    val_size: usize,
    val_align: usize,
    handler: u64,
    trampoline_return: u64,
) -> (regs: TrapHandlerRegs)
    requires
        stack_base % STACK_ALIGNMENT == 0,
        stack_base >= PARENT_LINK_OFFSET,
        val_size <= MAX_STACK_OBJ_SIZE,
        is_alignment(val_align),
        obj_fits(
            stack_base - PARENT_LINK_OFFSET,
            PARENT_LINK_OFFSET as int,
            val_size as int,
            val_align as int,
        ),
    ensures
        regs == trap_regs(
            stack_base as int,
            val_size as int,
            val_align as int,
            handler,
            trampoline_return,
        ),
        regs.sp == regs.r2,
        regs.sp % (STACK_ALIGNMENT as u64) == 0,
        regs.sp % (val_align as u64) == 0,
        regs.sp + val_size <= regs.r3,
        regs.r3 + PARENT_LINK_OFFSET == regs.r11,
        regs.pc == handler,
        regs.r14 == trampoline_return,
        regs.r3 == stack_base - PARENT_LINK_OFFSET,
        regs.r11 == stack_base,
        (stack_base - PARENT_LINK_OFFSET - val_size) - regs.sp < (if val_align > STACK_ALIGNMENT {
            val_align
        } else {
            STACK_ALIGNMENT
        }),
{
    // The top 16 bytes of the stack hold the parent link and are kept.
    let parent_link = stack_base - PARENT_LINK_OFFSET;

    // The value goes below them.
    let mut sp = parent_link;
    allocate_obj_on_stack(&mut sp, PARENT_LINK_OFFSET, val_size, val_align);
    let val_ptr = sp;

    TrapHandlerRegs {
        pc: handler,
        sp: sp as u64,
        r2: val_ptr as u64,
        r3: parent_link as u64,
        r11: stack_base as u64,
        r14: trampoline_return,
    }
}

/// On a stack with a given base, the value handed to a trap handler is stored
/// where `init_stack` places the initial object of the same size and
/// alignment.
pub proof fn lemma_trap_value_in_initial_obj_slot(stack_base: int, val_size: int, val_align: int)
    ensures
        trap_value_addr(stack_base, val_size, val_align) == initial_obj_addr(
            stack_base,
            val_size,
            val_align,
        ),
{
}

} // verus!
