use usertask::context::{
    enter_user, EnterError, EnterStep, TrapFrame, UspaceContext, NUM_REGS, REG_A0, REG_A7,
    REG_SP, SSTATUS_SPP, TRAP_FRAME_SIZE, USER_SSTATUS,
};
use usertask::launch::{
    launch, load_user_app, page_of_image, plan_launch, LaunchError, APP_ENTRY, USER_STACK_SIZE,
};
use usertask::page_table::PhysMem;
use usertask::syscall::{
    errno_result, handle_syscall, Errno, SyscallOutcome, SYS_EXIT, SYS_WRITE,
};
use usertask::task::{spawn_user_task, TaskError, TaskState, UserTask, FAULT_EXIT_CODE};
use usertask::trap::{decode_cause, example_trap_handler, TrapAction, TrapCause};

const V: u64 = 1;
const LEAF: u64 = 1 | 2 | 4 | 8 | 16;

/// Root in frame 1, tables in frames 2 and 3; user page 0x1000 in frame 4
/// and user page 0x2000 in frame 5.
fn user_memory() -> PhysMem {
    let mut m = PhysMem::new(8);
    m.set_word(1, 0, (2 << 10) | V);
    m.set_word(2, 0, (3 << 10) | V);
    m.set_word(3, 1, (4 << 10) | LEAF);
    m.set_word(3, 2, (5 << 10) | LEAF);
    m
}

const ROOT: u64 = 0x1000;

fn frame_with(num: usize, a0: usize, a1: usize, a2: usize) -> TrapFrame {
    let mut tf = TrapFrame::zeroed();
    tf.set_reg(REG_A7, num);
    tf.set_reg(REG_A0, a0);
    tf.set_reg(REG_A0 + 1, a1);
    tf.set_reg(REG_A0 + 2, a2);
    tf
}

fn put_bytes(m: &mut PhysMem, va: u64, bytes: &[u8]) {
    let mut word = [0u8; 8];
    word[..bytes.len()].copy_from_slice(bytes);
    m.write_u64(ROOT, va, u64::from_le_bytes(word)).unwrap();
}

#[test]
fn errno_results_are_negated_linux_codes() {
    assert_eq!(errno_result(Errno::InvalidArgument), -22);
    assert_eq!(errno_result(Errno::BadAddress), -14);
    assert_eq!(errno_result(Errno::NotImplemented), -38);
}

#[test]
fn write_to_stdout_returns_length() {
    let mut m = user_memory();
    put_bytes(&mut m, 0x2000, b"hello\n");
    let mut out = Vec::new();
    let tf = frame_with(SYS_WRITE, 1, 0x2000, 6);
    assert_eq!(handle_syscall(&tf, SYS_WRITE, &m, ROOT, &mut out), SyscallOutcome::Return(6));
    assert_eq!(out, b"hello\n".to_vec());
}

#[test]
fn write_of_nothing_and_of_a_full_page() {
    let m = user_memory();
    let mut out = Vec::new();
    let tf = frame_with(SYS_WRITE, 2, 0x1000, 0);
    assert_eq!(handle_syscall(&tf, SYS_WRITE, &m, ROOT, &mut out), SyscallOutcome::Return(0));
    assert!(out.is_empty());
    let tf = frame_with(SYS_WRITE, 1, 0x1000, 4096);
    assert_eq!(handle_syscall(&tf, SYS_WRITE, &m, ROOT, &mut out), SyscallOutcome::Return(4096));
    assert_eq!(out.len(), 4096);
    let tf = frame_with(SYS_WRITE, 1, 0x1800, 8192);
    assert_eq!(handle_syscall(&tf, SYS_WRITE, &m, ROOT, &mut out), SyscallOutcome::Return(-14));
}

#[test]
fn write_to_other_fd_is_invalid() {
    let m = user_memory();
    let mut out = Vec::new();
    let tf = frame_with(SYS_WRITE, 3, 0x2000, 6);
    assert_eq!(handle_syscall(&tf, SYS_WRITE, &m, ROOT, &mut out), SyscallOutcome::Return(-22));
    assert!(out.is_empty());
}

#[test]
fn write_past_mapped_memory_faults() {
    let m = user_memory();
    let mut out = Vec::new();
    let tf = frame_with(SYS_WRITE, 1, 0x2ffc, 8);
    assert_eq!(handle_syscall(&tf, SYS_WRITE, &m, ROOT, &mut out), SyscallOutcome::Return(-14));
    let tf = frame_with(SYS_WRITE, 1, 0x7000_0000, 1);
    assert_eq!(handle_syscall(&tf, SYS_WRITE, &m, ROOT, &mut out), SyscallOutcome::Return(-14));
    let tf = frame_with(SYS_WRITE, 1, 0x1000, usize::MAX);
    assert_eq!(handle_syscall(&tf, SYS_WRITE, &m, ROOT, &mut out), SyscallOutcome::Return(-14));
    assert!(out.is_empty());
}

#[test]
fn write_from_kernel_only_page_faults() {
    let mut m = user_memory();
    m.set_word(3, 3, (6 << 10) | V | 2 | 4);
    let mut out = Vec::new();
    let tf = frame_with(SYS_WRITE, 1, 0x3000, 8);
    assert_eq!(handle_syscall(&tf, SYS_WRITE, &m, ROOT, &mut out), SyscallOutcome::Return(-14));
    assert!(out.is_empty());
}

#[test]
fn unknown_syscall_is_not_implemented() {
    let m = user_memory();
    let mut out = Vec::new();
    let tf = frame_with(17, 0, 0, 0);
    assert_eq!(handle_syscall(&tf, 17, &m, ROOT, &mut out), SyscallOutcome::Return(-38));
}

fn trapped_task(tf: TrapFrame) -> UserTask {
    let mut t = spawn_user_task(ROOT, UspaceContext::new(0x1000, 0x3000), 0x8000_0000);
    t.start(0x8000_1000).unwrap();
    t.trap(tf).unwrap();
    t
}

fn exit_code_seen(a0: usize) -> Option<i32> {
    let m = user_memory();
    let mut out = Vec::new();
    let mut t = trapped_task(frame_with(SYS_EXIT, a0, 0, 0));
    assert_eq!(t.join(), None);
    t.on_syscall(&m, &mut out).unwrap();
    t.join()
}

#[test]
fn exit_code_reaches_join() {
    assert_eq!(exit_code_seen(0), Some(0));
    assert_eq!(exit_code_seen(1), Some(1));
    assert_eq!(exit_code_seen(usize::MAX), Some(-1));
    assert_eq!(exit_code_seen((-42i64) as usize), Some(-42));
}

#[test]
fn terminated_task_never_resumes() {
    let m = user_memory();
    let mut out = Vec::new();
    let mut t = trapped_task(frame_with(SYS_EXIT, 3, 0, 0));
    t.on_syscall(&m, &mut out).unwrap();
    assert_eq!(t.state, TaskState::Terminated(3));
    assert_eq!(t.resume(), Err(TaskError::WrongState));
    assert_eq!(t.trap(TrapFrame::zeroed()), Err(TaskError::WrongState));
    assert_eq!(t.on_syscall(&m, &mut out), Err(TaskError::WrongState));
    assert_eq!(t.start(0), Err(TaskError::WrongState));
    assert_eq!(t.join(), Some(3));
}

#[test]
fn syscall_result_lands_in_a0_past_ecall() {
    let m = user_memory();
    let mut out = Vec::new();
    let mut tf = frame_with(SYS_WRITE, 9, 0x2000, 1);
    tf.sepc = 0x1010;
    let mut t = trapped_task(tf);
    assert_eq!(t.on_syscall(&m, &mut out), Ok(SyscallOutcome::Return(-22)));
    assert_eq!(t.state, TaskState::User);
    assert_eq!(t.ext.uctx.0.reg(REG_A0), (-22isize) as usize);
    assert_eq!(t.ext.uctx.0.sepc, 0x1014);
}

#[test]
fn launch_writes_hello_then_exits() {
    let mut m = user_memory();
    let image: Vec<u8> = vec![0x13, 0, 0, 0, 0x73, 0, 0, 0];
    let mut t = launch(&mut m, ROOT, &image, APP_ENTRY, 0x1000, 0x1000, 0x3000, 0x8000_0000).unwrap();
    assert_eq!(t.state, TaskState::Unstarted);
    assert_eq!(t.ext.uctx.get_sp(), 0x3000);
    assert_eq!(m.read_u64(ROOT, 0x1000), Ok(0x0000_0073_0000_0013));
    assert_eq!(m.read_u64(ROOT, 0x1ff8), Ok(0));
    let steps = t.start(0x7fff_0000).unwrap();
    assert_eq!(steps[2], EnterStep::SetResumePc(APP_ENTRY));

    // The program stores "hello\n" below its stack top and writes it out.
    put_bytes(&mut m, 0x2ff8, b"hello\n");
    let mut out = Vec::new();
    let mut tf = frame_with(SYS_WRITE, 1, 0x2ff8, 6);
    tf.sepc = 0x1004;
    t.trap(tf).unwrap();
    assert_eq!(t.on_syscall(&m, &mut out), Ok(SyscallOutcome::Return(6)));
    assert_eq!(t.ext.uctx.0.reg(REG_A0), 6);
    let mut tf = frame_with(SYS_EXIT, 0, 0, 0);
    tf.sepc = 0x1010;
    t.trap(tf).unwrap();
    assert_eq!(t.on_syscall(&m, &mut out), Ok(SyscallOutcome::Exit(0)));
    assert_eq!(t.join(), Some(0));
    assert_eq!(out, b"hello\n".to_vec());
}

#[test]
fn failed_launch_changes_nothing() {
    let mut m = user_memory();
    let before: Vec<u64> = (0..512).map(|i| m.word(4, i)).collect();
    let image = vec![1u8, 2, 3];
    assert!(matches!(
        launch(&mut m, ROOT, &image, 0x1000, 0x1000, 0x1000, 0x1800, 0x8000_0000),
        Err(LaunchError::MappingFailure)
    ));
    assert!(matches!(
        launch(&mut m, ROOT, &Vec::new(), 0x1000, 0x1000, 0x1000, 0x3000, 0x8000_0000),
        Err(LaunchError::LoadFailure)
    ));
    assert!(matches!(
        launch(&mut m, ROOT, &image, 0x5000, 0x1000, 0x1000, 0x8000, 0x8000_0000),
        Err(LaunchError::MappingFailure)
    ));
    let after: Vec<u64> = (0..512).map(|i| m.word(4, i)).collect();
    assert_eq!(before, after);
}

#[test]
fn load_user_app_failures() {
    let mut m = user_memory();
    assert_eq!(load_user_app(&mut m, ROOT, 0x1000, &Vec::new()), Err(LaunchError::LoadFailure));
    assert_eq!(load_user_app(&mut m, ROOT, 0x1008, &vec![1]), Err(LaunchError::MappingFailure));
    assert_eq!(load_user_app(&mut m, ROOT, 0x5000, &vec![1]), Err(LaunchError::MappingFailure));
}

#[test]
fn image_is_cut_or_padded_to_a_page() {
    let short = page_of_image(&vec![7u8; 3]);
    assert_eq!(short.len(), 4096);
    assert_eq!(&short[..4], &[7, 7, 7, 0]);
    let long = page_of_image(&vec![9u8; 5000]);
    assert_eq!(long, vec![9u8; 4096]);
}

#[test]
fn plan_launch_places_stack_at_top() {
    let plan = plan_launch(APP_ENTRY, USER_STACK_SIZE, 0x1000, 0x4000_0000).unwrap();
    assert_eq!(plan.stack_top, 0x4000_0000);
    assert_eq!(plan.stack_base, 0x4000_0000 - USER_STACK_SIZE);
    assert_eq!(plan.ctx.get_ip(), APP_ENTRY);
    assert_eq!(plan.ctx.get_sp(), 0x4000_0000);
    assert_eq!(plan.ctx.0.sstatus, USER_SSTATUS);
    for k in 0..NUM_REGS {
        if k != REG_SP {
            assert_eq!(plan.ctx.0.reg(k), 0);
        }
    }
}

#[test]
fn plan_launch_rejects_bad_layouts() {
    assert!(matches!(plan_launch(0x1001, 0x1000, 0, 0x10000), Err(LaunchError::MappingFailure)));
    assert!(matches!(plan_launch(0x1000, 0, 0, 0x10000), Err(LaunchError::MappingFailure)));
    assert!(matches!(plan_launch(0x1000, 0x1800, 0, 0x10000), Err(LaunchError::MappingFailure)));
    assert!(matches!(plan_launch(0x1000, 0x1000, 0x2000, 0x10000), Err(LaunchError::MappingFailure)));
    assert!(matches!(plan_launch(0x1000, 0x1000, 0, 0x2000), Err(LaunchError::MappingFailure)));
    assert!(plan_launch(0x1000, 0x1000, 0, 0x3000).is_ok());
}

#[test]
fn enter_user_steps_in_order() {
    let ctx = UspaceContext::new(0x1000, 0x3000);
    let steps = enter_user(&ctx, 0x9000, 0x8000_0000).unwrap();
    assert_eq!(
        steps,
        vec![
            EnterStep::DisableInterrupts,
            EnterStep::SetScratch(0x8000_0000),
            EnterStep::SetResumePc(0x1000),
            EnterStep::SaveKernelPointers(0x8000_0000 - TRAP_FRAME_SIZE),
            EnterStep::LoadContext(0x9000),
            EnterStep::ReturnToUser,
        ]
    );
    assert_eq!(enter_user(&ctx, 0x9000, 16), Err(EnterError::KernelStackTooSmall));
}

#[test]
fn supervisor_context_is_not_entered() {
    let mut ctx = UspaceContext::new(0x1000, 0x3000);
    ctx.0.sstatus |= SSTATUS_SPP;
    let mut t = spawn_user_task(ROOT, ctx, 0x8000_0000);
    assert_eq!(t.start(0), Err(TaskError::WrongState));
    assert_eq!(t.state, TaskState::Unstarted);
    let mut t = spawn_user_task(ROOT, UspaceContext::new(0x1000, 0x3000), 8);
    assert_eq!(t.start(0), Err(TaskError::KernelStackTooSmall));
}

#[test]
fn trap_causes_decode() {
    assert_eq!(decode_cause(13), TrapCause::LoadPageFault);
    assert_eq!(decode_cause(8), TrapCause::UserEnvCall);
    assert_eq!(decode_cause(2), TrapCause::OtherException(2));
    assert_eq!(decode_cause((1 << 63) | 5), TrapCause::SupervisorTimer);
    assert_eq!(decode_cause((1 << 63) | 9), TrapCause::OtherInterrupt(9));
}

#[test]
fn load_page_fault_skips_instruction() {
    let mut tf = TrapFrame::zeroed();
    tf.sepc = 0x8020_0000;
    assert_eq!(example_trap_handler(&mut tf, 13), TrapAction::Resume);
    assert_eq!(tf.sepc, 0x8020_0004);
    assert_eq!(example_trap_handler(&mut tf, (1 << 63) | 5), TrapAction::ClearTimerAndResume);
    assert_eq!(example_trap_handler(&mut tf, 8), TrapAction::Syscall);
    assert_eq!(
        example_trap_handler(&mut tf, 15),
        TrapAction::Fatal(TrapCause::OtherException(15))
    );
    assert_eq!(tf.sepc, 0x8020_0004);
}

#[test]
fn user_fault_is_skipped_or_ends_the_task() {
    let mut tf = TrapFrame::zeroed();
    tf.sepc = 0x1008;
    let mut t = trapped_task(tf);
    assert_eq!(t.on_trap(13), Ok(TrapAction::Resume));
    assert_eq!(t.state, TaskState::User);
    assert_eq!(t.ext.uctx.get_ip(), 0x100c);
    assert_eq!(t.on_trap(13), Err(TaskError::WrongState));

    t.trap(TrapFrame::zeroed()).unwrap();
    assert_eq!(t.on_trap((1 << 63) | 5), Ok(TrapAction::ClearTimerAndResume));
    assert_eq!(t.state, TaskState::User);

    t.trap(TrapFrame::zeroed()).unwrap();
    assert_eq!(t.on_trap(8), Ok(TrapAction::Syscall));
    assert_eq!(t.state, TaskState::Kernel);

    assert_eq!(t.on_trap(2), Ok(TrapAction::Fatal(TrapCause::OtherException(2))));
    assert_eq!(t.join(), Some(FAULT_EXIT_CODE));
}
