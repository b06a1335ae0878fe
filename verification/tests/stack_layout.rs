use s390x_stack::{
    allocate_obj_on_stack, init_stack, initial_obj_ptr, push, setup_trap_trampoline,
    switch_and_link_result, StackWrite, TrapHandlerRegs, INITIAL_OBJ_OFFSET,
    PARENT_LINK_OFFSET, SAVED_REGS_SIZE, STACK_ALIGNMENT, STACK_WORD_SIZE,
};

#[test]
fn layout_constants() {
    assert_eq!(STACK_ALIGNMENT, 16);
    assert_eq!(PARENT_LINK_OFFSET, 16);
    assert_eq!(STACK_WORD_SIZE, 8);
    assert_eq!(SAVED_REGS_SIZE, 80);
    assert_eq!(INITIAL_OBJ_OFFSET, 32);
}

#[test]
fn push_some_stores_at_new_sp() {
    let mut sp: usize = 0x100;
    let mut writes = Vec::new();
    push(&mut sp, Some(7), &mut writes);
    assert_eq!(sp, 0xf8);
    assert_eq!(writes, vec![StackWrite { addr: 0xf8, value: 7 }]);
}

#[test]
fn push_none_stores_nothing() {
    let mut sp: usize = 0x100;
    let mut writes = Vec::new();
    push(&mut sp, None, &mut writes);
    assert_eq!(sp, 0xf8);
    assert!(writes.is_empty());
}

#[test]
fn allocate_pads_to_stack_alignment() {
    // 8 + 24 = 32 is already a multiple of 16: no padding.
    let mut sp: usize = 0x1008;
    allocate_obj_on_stack(&mut sp, 8, 24, 8);
    assert_eq!(sp, 0xff0);
    // 8 + 16 = 24: 8 bytes of padding.
    let mut sp: usize = 0x1008;
    allocate_obj_on_stack(&mut sp, 8, 16, 8);
    assert_eq!(sp, 0xff0);
    // 16 + 1 = 17: 15 bytes of padding.
    let mut sp: usize = 0x1000;
    allocate_obj_on_stack(&mut sp, 16, 1, 1);
    assert_eq!(sp, 0xff0);
}

#[test]
fn allocate_rounds_down_for_large_alignment() {
    let mut sp: usize = 0xfff0;
    allocate_obj_on_stack(&mut sp, 16, 24, 64);
    assert_eq!(sp, 0xffc0);
    let mut sp: usize = 0x1fff0;
    allocate_obj_on_stack(&mut sp, 16, 8, 4096);
    assert_eq!(sp, 0x1f000);
}

#[test]
fn allocate_zero_sized_object() {
    let mut sp: usize = 0xfff0;
    allocate_obj_on_stack(&mut sp, 16, 0, 1);
    assert_eq!(sp, 0xfff0);
}

#[test]
fn init_stack_small_object() {
    let r = init_stack(0x10000, 0x1111, 0x2222, 24, 8);
    assert_eq!(r.obj_addr, 0xffd0);
    assert_eq!(r.sp, 0xffb0);
    assert_eq!(
        r.writes,
        vec![
            StackWrite { addr: 0xfff8, value: 0x1111 },
            StackWrite { addr: 0xffc0, value: 0x2222 },
        ]
    );
}

#[test]
fn init_stack_object_without_padding() {
    let r = init_stack(0x10000, 1, 2, 32, 16);
    assert_eq!(r.obj_addr, 0xffd0);
    assert_eq!(r.sp, 0xffb0);
}

#[test]
fn init_stack_zero_sized_object() {
    let r = init_stack(0x10000, 1, 2, 0, 1);
    assert_eq!(r.obj_addr, 0xfff0);
    assert_eq!(r.sp, 0xffd0);
    assert_eq!(r.writes[1], StackWrite { addr: 0xffe0, value: 2 });
}

#[test]
fn init_stack_largest_object() {
    let r = init_stack(0x10000, 1, 2, 1024, 8);
    assert_eq!(r.obj_addr, 0xfbf0);
    assert_eq!(r.sp, 0xfbd0);
}

#[test]
fn init_stack_over_aligned_object() {
    let r = init_stack(0x10000, 1, 2, 24, 64);
    assert_eq!(r.obj_addr, 0xffc0);
    assert_eq!(r.sp, 0xffa0);
    let r = init_stack(0x20000, 1, 2, 8, 4096);
    assert_eq!(r.obj_addr, 0x1f000);
    assert_eq!(r.sp, 0x1efe0);
}

#[test]
fn init_stack_sp_is_aligned_and_below_object() {
    for &(size, align) in &[(0usize, 1usize), (1, 1), (3, 2), (24, 8), (40, 8), (48, 16), (100, 32)] {
        let r = init_stack(0x40000, 1, 2, size, align);
        assert_eq!(r.sp % STACK_ALIGNMENT, 0);
        assert_eq!(r.obj_addr % align, 0);
        assert!(r.obj_addr + size <= 0x40000 - PARENT_LINK_OFFSET);
        assert_eq!(r.sp + 32, r.obj_addr);
    }
}

#[test]
fn dropped_object_is_the_initial_object() {
    let r = init_stack(0x10000, 1, 2, 24, 8);
    assert_eq!(initial_obj_ptr(r.sp), r.obj_addr);
    let r = init_stack(0x10000, 1, 2, 24, 64);
    assert_eq!(initial_obj_ptr(r.sp), r.obj_addr);
}

#[test]
fn initial_obj_ptr_adds_offset() {
    assert_eq!(initial_obj_ptr(0xffb0), 0xffd0);
}

#[test]
fn trap_trampoline_registers() {
    let regs = setup_trap_trampoline(0x10000, 24, 8, 0xaaaa, 0xbbbb);
    assert_eq!(
        regs,
        TrapHandlerRegs {
            pc: 0xaaaa,
            sp: 0xffd0,
            r2: 0xffd0,
            r3: 0xfff0,
            r11: 0x10000,
            r14: 0xbbbb,
        }
    );
}

#[test]
fn trap_value_uses_initial_object_slot() {
    let regs = setup_trap_trampoline(0x10000, 24, 64, 1, 2);
    let r = init_stack(0x10000, 1, 2, 24, 64);
    assert_eq!(regs.sp as usize, r.obj_addr);
    assert_eq!(regs.r3 + 16, regs.r11);
}

#[test]
fn switch_result_finished_coroutine() {
    assert_eq!(switch_and_link_result(5, 0), (5, None));
}

#[test]
fn switch_result_suspended_coroutine() {
    assert_eq!(switch_and_link_result(5, 0x1000), (5, Some(0x1000)));
}
