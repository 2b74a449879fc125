//! Boot, PMP, the idle loop, the UART and the build paths.

use rustsbi_jh7100::boot::boot_plan;
use rustsbi_jh7100::boot::implementation_name;
use rustsbi_jh7100::boot::stack_top_offset;
use rustsbi_jh7100::boot::BootAction;
use rustsbi_jh7100::boot::SbiBindings;
use rustsbi_jh7100::boot::SUPERVISOR_ENTRY;
use rustsbi_jh7100::csr::MachineCsrs;
use rustsbi_jh7100::csr::MIE_MSIE;
use rustsbi_jh7100::csr::MIP_MSIP;
use rustsbi_jh7100::dist::build_steps;
use rustsbi_jh7100::dist::dist_dir;
use rustsbi_jh7100::dist::BuildStep;
use rustsbi_jh7100::dist::CompileMode;
use rustsbi_jh7100::dist::Subcommand;
use rustsbi_jh7100::pause::pause;
use rustsbi_jh7100::pause::pause_finish;
use rustsbi_jh7100::pause::pause_prepare;
use rustsbi_jh7100::pmp::calc_pmpaddr;
use rustsbi_jh7100::pmp::pmp_boot_values;
use rustsbi_jh7100::uart::RegWrite;
use rustsbi_jh7100::uart::Uart;
use rustsbi_jh7100::uart::reg_byte_offset;

/// Cold boot of hart 0: global init, banner, payload at the supervisor
/// entry, hart 1 released; hart 1 parks first.
#[test]
fn cold_boot_plans() {
    let opaque: u64 = 0x8060_0000;
    let plan0 = boot_plan(0, opaque);
    assert_eq!(
        plan0,
        vec![
            BootAction::InitBss,
            BootAction::InitHeap,
            BootAction::BindStdio,
            BootAction::LoadKernel,
            BootAction::PrintBanner,
            BootAction::BindClint,
            BootAction::PeekDeviceTree,
            BootAction::WakeHart { hart: 1 },
            BootAction::SetPmp,
            BootAction::Delegate,
            BootAction::EnterSupervisor { mepc: 0x8020_0000, a0: 0, a1: opaque },
        ]
    );
    let plan1 = boot_plan(1, opaque);
    assert_eq!(
        plan1,
        vec![
            BootAction::Park,
            BootAction::SetPmp,
            BootAction::Delegate,
            BootAction::EnterSupervisor { mepc: 0x8020_0000, a0: 1, a1: opaque },
        ]
    );
    assert_eq!(SUPERVISOR_ENTRY, 0x8020_0000);
}

#[test]
fn banner_names_the_implementation() {
    let name = implementation_name();
    assert_eq!(name, "RustSBI-JH7100");
    let banner = format!("[rustsbi] Implementation: {}", name);
    assert!(banner.contains("RustSBI-JH7100"));
}

#[test]
fn per_hart_stack_tops() {
    assert_eq!(stack_top_offset(0), 0x4000);
    assert_eq!(stack_top_offset(1), 0x8000);
}

#[test]
fn providers_bind_exactly_once() {
    let mut b = SbiBindings::new();
    assert!(b.init_rustsbi_stdio());
    assert!(!b.init_rustsbi_stdio());
    assert!(b.init_rustsbi_clint());
    assert!(!b.init_rustsbi_clint());
}

#[test]
fn pmp_regions_follow_the_napot_formula() {
    assert_eq!(calc_pmpaddr(0x1000_0000, 0x800_0000), (0x1000_0000u64 >> 2) | ((0x800_0000u64 >> 2) - 1));
    let (cfg0, addr0, addr1, addr2) = pmp_boot_values();
    assert_eq!(cfg0, 0x1F1B1B);
    assert_eq!(addr0, 0x5FF_FFFF);
    assert_eq!(addr1, 0x80_3FFF);
    assert_eq!(addr2, 0x7FFF_FFFF);
}

#[test]
fn pause_exits_at_the_first_wake() {
    assert_eq!(pause(&vec![false, false, true, true]), Some(2));
    assert_eq!(pause(&vec![true]), Some(0));
    assert_eq!(pause(&vec![false, false]), None);
    assert_eq!(pause(&vec![]), None);
}

#[test]
fn pause_csr_bookkeeping_restores_the_enable() {
    let mut cs = MachineCsrs {
        mstatus: 0,
        mip: MIP_MSIP,
        mie: 0,
        medeleg: 0,
        mideleg: 0,
        satp: 0,
        scause: 0,
        sepc: 0,
        stval: 0,
        stvec: 0,
    };
    let prev = pause_prepare(&mut cs);
    assert!(!prev);
    assert_eq!(cs.mip & MIP_MSIP, 0);
    assert_ne!(cs.mie & MIE_MSIE, 0);
    pause_finish(&mut cs, prev);
    assert_eq!(cs.mie & MIE_MSIE, 0);
    // A hart that was already listening keeps listening.
    let prev = pause_prepare(&mut cs);
    assert!(!prev);
    pause_finish(&mut cs, true);
    assert_ne!(cs.mie & MIE_MSIE, 0);
}

#[test]
fn uart_setup_sequence() {
    let (_, writes) = Uart::preloaded_uart0(0x03);
    assert_eq!(
        writes,
        vec![
            RegWrite { reg: 3, val: 0x83 },
            RegWrite { reg: 0, val: 54 },
            RegWrite { reg: 1, val: 0 },
            RegWrite { reg: 3, val: 0x03 },
            RegWrite { reg: 3, val: 0x03 },
            RegWrite { reg: 4, val: 0 },
            RegWrite { reg: 2, val: 0x8B },
            RegWrite { reg: 1, val: 0 },
        ]
    );
    assert_eq!(Uart::divisor(), 54);
    assert_eq!(reg_byte_offset(5), 20);
}

#[test]
fn uart_read_write_flush_decisions() {
    let uart = Uart;
    assert_eq!(uart.read(0x01, 0x41), Some(0x41));
    assert_eq!(uart.read(0x60, 0x41), None);
    assert_eq!(uart.write(b'R'), RegWrite { reg: 0, val: 0x52 });
    assert!(uart.flush(0x20));
    assert!(!uart.flush(0x01));
}

#[test]
fn build_steps_per_subcommand() {
    assert_eq!(
        build_steps(Subcommand::Make),
        vec![BuildStep::BuildSbi, BuildStep::BinarySbi]
    );
    assert_eq!(
        build_steps(Subcommand::Asm),
        vec![BuildStep::BuildSbi, BuildStep::AsmSbi]
    );
    assert_eq!(
        build_steps(Subcommand::Image { with_payload: true }),
        vec![
            BuildStep::BuildSbi,
            BuildStep::BinarySbi,
            BuildStep::BuildTestKernel,
            BuildStep::BinaryTestKernel,
            BuildStep::WriteImage,
        ]
    );
    assert_eq!(
        build_steps(Subcommand::Gdb),
        vec![BuildStep::BuildSbi, BuildStep::BinarySbi, BuildStep::AttachGdb]
    );
    assert_eq!(rustsbi_jh7100::boot::PAYLOAD_IMAGE_OFFSET, 128 * 1024);
}

#[test]
fn dist_dir_per_compile_mode() {
    assert_eq!(
        dist_dir(CompileMode::Debug),
        "target/riscv64imac-unknown-none-elf/debug"
    );
    assert_eq!(
        dist_dir(CompileMode::Release),
        "target/riscv64imac-unknown-none-elf/release"
    );
}
