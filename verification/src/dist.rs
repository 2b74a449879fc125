//! The build tool's decisions: which steps each subcommand performs and
//! where the built artifacts land.
//!
//! The tool itself — invoking the compiler, objcopy and the image
//! writer — is host-side process work outside the library; the mapping
//! from a subcommand to its step sequence, and the artifact paths, are
//! decided here.

use vstd::prelude::*;

verus! {

/// The compile mode of a build.
#[derive(Clone, Copy, PartialEq, Eq, Structural, Debug)]
pub enum CompileMode {
    /// An unoptimised build.
    Debug,
    /// An optimised build.
    Release,
}

/// A subcommand of the build tool.
#[derive(Clone, Copy, PartialEq, Eq, Structural, Debug)]
pub enum Subcommand {
    /// Build the firmware.
    Make,
    /// Build the firmware and show its disassembly.
    Asm,
    /// Build the firmware, and with the embedded-client payload also
    /// build that and write the flashable image.
    Image {
        /// Whether the embedded-client payload was named.
        with_payload: bool,
    },
    /// Build the firmware and attach the debugger.
    Gdb,
}

/// One step the build tool performs.
#[derive(Clone, Copy, PartialEq, Eq, Structural, Debug)]
pub enum BuildStep {
    /// Compile the firmware for the RISC-V target.
    BuildSbi,
    /// Turn the firmware ELF into a raw binary.
    BinarySbi,
    /// Disassemble the firmware ELF.
    AsmSbi,
    /// Compile the embedded client for the RISC-V target.
    BuildTestKernel,
    /// Turn the client ELF into a raw binary.
    BinaryTestKernel,
    /// Concatenate firmware and payload into the flashable image: the
    /// payload sits at the 128 KiB mark.
    WriteImage,
    /// Attach the remote debugger to the firmware ELF.
    AttachGdb,
}

/// The steps a subcommand performs, in order.
pub fn build_steps(cmd: Subcommand) -> (r: Vec<BuildStep>)
    ensures
        cmd == Subcommand::Make ==> r@ =~= seq![BuildStep::BuildSbi, BuildStep::BinarySbi],
        cmd == Subcommand::Asm ==> r@ =~= seq![BuildStep::BuildSbi, BuildStep::AsmSbi],
        cmd == (Subcommand::Image { with_payload: false }) ==> r@ =~= seq![
            BuildStep::BuildSbi,
            BuildStep::BinarySbi,
        ],
        cmd == (Subcommand::Image { with_payload: true }) ==> r@ =~= seq![
            BuildStep::BuildSbi,
            BuildStep::BinarySbi,
            BuildStep::BuildTestKernel,
            BuildStep::BinaryTestKernel,
            BuildStep::WriteImage,
        ],
        cmd == Subcommand::Gdb ==> r@ =~= seq![
            BuildStep::BuildSbi,
            BuildStep::BinarySbi,
            BuildStep::AttachGdb,
        ],
{
    let mut steps: Vec<BuildStep> = Vec::new();
    steps.push(BuildStep::BuildSbi);
    match cmd {
        Subcommand::Make => {
            steps.push(BuildStep::BinarySbi);
        },
        Subcommand::Asm => {
            steps.push(BuildStep::AsmSbi);
        },
        Subcommand::Image { with_payload } => {
            steps.push(BuildStep::BinarySbi);
            if with_payload {
                steps.push(BuildStep::BuildTestKernel);
                steps.push(BuildStep::BinaryTestKernel);
                steps.push(BuildStep::WriteImage);
            }
        },
        Subcommand::Gdb => {
            steps.push(BuildStep::BinarySbi);
            steps.push(BuildStep::AttachGdb);
        },
    }
    steps
}

/// The directory, relative to the project root, that holds the built
/// artifacts of the firmware's target for `mode`.
pub fn dist_dir(mode: CompileMode) -> (r: String)
    ensures
        mode == CompileMode::Debug ==> r@ == "target/riscv64imac-unknown-none-elf/debug"@,
        mode == CompileMode::Release ==> r@ == "target/riscv64imac-unknown-none-elf/release"@,
{
    match mode {
        CompileMode::Debug => {
            let r = String::from_str("target/riscv64imac-unknown-none-elf/debug");
            r
        },
        CompileMode::Release => {
            let r = String::from_str("target/riscv64imac-unknown-none-elf/release");
            r
        },
    }
}

} // verus!
