//! Stack-frame layout for s390x coroutine stacks.
//!
//! The library computes, as plain addresses and words, what the s390x
//! context-switching code writes on a coroutine stack: the initial frame built
//! before a coroutine first runs, the place of the initial object that is
//! dropped when a coroutine never starts, the register set with which a trap
//! handler is entered, and the decoding of what a stack switch hands back.
//! The stores themselves and the assembly stay with the caller.

mod frame;
mod init;
mod switch;
mod trap;

pub use frame::{
    allocate_obj_on_stack, align_down, is_alignment, lemma_room_for_obj, obj_fits, padding_to_alignment,
    placed_obj_addr, push, StackWrite, MAX_STACK_OBJ_SIZE, PARENT_LINK_OFFSET, SAVED_REGS_SIZE,
    STACK_ALIGNMENT, STACK_WORD_SIZE,
};
pub use init::{
    init_stack, initial_frame_fits, lemma_room_for_initial_frame, initial_obj_addr, initial_obj_at, initial_obj_ptr, initial_sp,
    lemma_dropped_obj_is_initial_obj, InitialStack, INITIAL_OBJ_OFFSET,
};
pub use switch::switch_and_link_result;
pub use trap::{
    lemma_trap_value_in_initial_obj_slot, setup_trap_trampoline, trap_regs, trap_value_addr,
    TrapHandlerRegs,
};
