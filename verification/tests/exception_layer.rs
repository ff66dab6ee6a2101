use rrtos::exceptions::pendsv_handler;
use rrtos::exceptions::set_pendsv;
use rrtos::exceptions::svcall_handler;
use rrtos::exceptions::Cpu;
use rrtos::exceptions::CpuMode;
use rrtos::exceptions::CONTROL_PRIVILEGED;
use rrtos::exceptions::CONTROL_UNPRIVILEGED;
use rrtos::exceptions::EXC_RETURN_THREAD_MSP;
use rrtos::exceptions::EXC_RETURN_THREAD_PSP;

#[test]
fn test_svcall_requests_deferred_service() {
    let mut cpu = Cpu::new();
    assert!(!cpu.pendsv_pending);
    svcall_handler(&mut cpu);
    assert!(cpu.pendsv_pending);
    assert_eq!(CpuMode::Kernel, cpu.mode); // the call itself switches nothing
    assert_eq!(CONTROL_PRIVILEGED, cpu.control);
}

#[test]
fn test_privilege_toggle_strictly_alternates() {
    let mut cpu = Cpu::new();

    // entered from the kernel side: drop privilege, resume on process stack
    set_pendsv(&mut cpu);
    let r = pendsv_handler(&mut cpu, EXC_RETURN_THREAD_MSP);
    assert_eq!(EXC_RETURN_THREAD_PSP, r);
    assert_eq!(CpuMode::Task, cpu.mode);
    assert_eq!(CONTROL_UNPRIVILEGED, cpu.control);
    assert!(!cpu.pendsv_pending);

    // entered from the task side: raise privilege, resume on main stack
    set_pendsv(&mut cpu);
    let r = pendsv_handler(&mut cpu, EXC_RETURN_THREAD_PSP);
    assert_eq!(EXC_RETURN_THREAD_MSP, r);
    assert_eq!(CpuMode::Kernel, cpu.mode);
    assert_eq!(CONTROL_PRIVILEGED, cpu.control);
}

#[test]
fn test_privilege_toggle_parity() {
    // an even number of supervisor calls lands back in kernel mode,
    // an odd number in task mode
    let mut cpu = Cpu::new();
    for n in 1..=8u32 {
        let exc_return = match cpu.mode {
            CpuMode::Kernel => EXC_RETURN_THREAD_MSP,
            CpuMode::Task => EXC_RETURN_THREAD_PSP,
        };
        pendsv_handler(&mut cpu, exc_return);
        if n % 2 == 0 {
            assert_eq!(CpuMode::Kernel, cpu.mode);
        } else {
            assert_eq!(CpuMode::Task, cpu.mode);
        }
    }
}
