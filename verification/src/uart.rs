//! The 16550-style UART: the register writes of its one-time setup and
//! the byte-level read/write/flush decisions.
//!
//! The device sits at `0x1244_0000` with one 32-bit word per register.
//! An earlier boot stage has already brought the line up; the firmware
//! re-programs the divisor for 115200 baud at the 100 MHz UART clock,
//! sets 8N1, disables flow control and interrupts, and enables the
//! FIFOs. The MMIO accesses themselves are the shell's; this module
//! decides which registers receive which values, and what a line-status
//! value means.

use vstd::prelude::*;

verus! {

/// MMIO base address of UART0.
pub const UART_BASE: u64 = 0x1244_0000;
/// Register index: transmitter holding register (write).
pub const REG_THR: u32 = 0x00;
/// Register index: receiver data register (read).
pub const REG_RDR: u32 = 0x00;
/// Register index: baud-rate divisor, low byte (with DLAB set).
pub const REG_BRDL: u32 = 0x00;
/// Register index: baud-rate divisor, high byte (with DLAB set).
pub const REG_BRDH: u32 = 0x01;
/// Register index: interrupt enable register.
pub const REG_IER: u32 = 0x01;
/// Register index: FIFO control register.
pub const REG_FCR: u32 = 0x02;
/// Register index: line control register.
pub const REG_LCR: u32 = 0x03;
/// Register index: modem control register.
pub const REG_MDC: u32 = 0x04;
/// Register index: line status register.
pub const REG_LSR: u32 = 0x05;

/// Line control: divisor latch access enable.
pub const LCR_DLAB: u32 = 0x80;
/// Line control: eight data bits.
pub const LCR_CS8: u32 = 0x03;
/// Line control: one stop bit.
pub const LCR_1_STB: u32 = 0x01;
/// Line control: parity disabled.
pub const LCR_PDIS: u32 = 0x00;
/// Line status: data ready.
pub const LSR_DR: u32 = 0x01;
/// Line status: transmit holding register empty.
pub const LSR_THRE: u32 = 0x20;
/// FIFO control: enable the FIFOs.
pub const FCR_FIFO: u32 = 0x01;
/// FIFO control: clear the receive FIFO.
pub const FCR_RCVRCLR: u32 = 0x02;
/// FIFO control: clear the transmit FIFO.
pub const FCR_XMITCLR: u32 = 0x03;
/// FIFO control: receiver mode 1.
pub const FCR_MODE1: u32 = 0x08;
/// FIFO control: interrupt at the eighth received byte.
pub const FCR_FIFO_8: u32 = 0x80;

/// The UART input clock, in Hz.
pub const UART_CLK: u32 = 100_000_000;
/// The configured baud rate.
pub const UART_BAUD: u32 = 115_200;

/// One register write of the setup sequence.
#[derive(Clone, Copy, PartialEq, Eq, Structural, Debug)]
pub struct RegWrite {
    /// The register index (the MMIO offset is four bytes per index).
    pub reg: u32,
    /// The 32-bit value written.
    pub val: u32,
}

/// The byte offset of a register from `UART_BASE`: registers sit on a
/// four-byte stride.
pub fn reg_byte_offset(reg: u32) -> (r: u32)
    requires
        reg <= REG_LSR,
    ensures
        r == reg * 4,
{
    proof {
        assert(reg <= 5 ==> reg << 2 == reg * 4) by (bit_vector);
    }
    reg << 2
}

/// UART0, already brought up by the earlier boot stage.
#[derive(Clone, Copy, PartialEq, Eq, Structural, Debug)]
pub struct Uart;

impl Uart {
    /// The divisor latch value for 115200 baud at the 100 MHz clock.
    pub fn divisor() -> (r: u32)
        ensures
            r == (UART_CLK / UART_BAUD) >> 4,
            r == 54,
    {
        proof {
            assert((100_000_000u32 / 115_200u32) >> 4 == 54) by (bit_vector);
        }
        (UART_CLK / UART_BAUD) >> 4
    }

    /// Take over the preloaded UART0: the setup writes, in order, given
    /// `lcr_cache`, the line-control value read from the device first.
    /// The sequence programs the divisor under DLAB, restores the line
    /// control, sets 8N1, disables flow control, enables and clears the
    /// FIFOs, and masks the UART interrupts.
    pub fn preloaded_uart0(lcr_cache: u8) -> (r: (Uart, Vec<RegWrite>))
        ensures
            r.1@ =~= seq![
                RegWrite { reg: REG_LCR, val: LCR_DLAB | lcr_cache as u32 },
                RegWrite { reg: REG_BRDL, val: 54u32 & 0xff },
                RegWrite { reg: REG_BRDH, val: (54u32 >> 8) & 0xff },
                RegWrite { reg: REG_LCR, val: lcr_cache as u32 },
                RegWrite { reg: REG_LCR, val: LCR_CS8 | LCR_1_STB | LCR_PDIS },
                RegWrite { reg: REG_MDC, val: 0 },
                RegWrite { reg: REG_FCR, val: FCR_FIFO | FCR_MODE1 | FCR_FIFO_8 | FCR_RCVRCLR | FCR_XMITCLR },
                RegWrite { reg: REG_IER, val: 0 },
            ],
    {
        let divisor = Self::divisor();
        let mut writes: Vec<RegWrite> = Vec::new();
        writes.push(RegWrite { reg: REG_LCR, val: LCR_DLAB | lcr_cache as u32 });
        writes.push(RegWrite { reg: REG_BRDL, val: divisor & 0xff });
        writes.push(RegWrite { reg: REG_BRDH, val: (divisor >> 8) & 0xff });
        writes.push(RegWrite { reg: REG_LCR, val: lcr_cache as u32 });
        writes.push(RegWrite { reg: REG_LCR, val: LCR_CS8 | LCR_1_STB | LCR_PDIS });
        writes.push(RegWrite { reg: REG_MDC, val: 0 });
        writes.push(
            RegWrite { reg: REG_FCR, val: FCR_FIFO | FCR_MODE1 | FCR_FIFO_8 | FCR_RCVRCLR | FCR_XMITCLR },
        );
        writes.push(RegWrite { reg: REG_IER, val: 0 });
        proof {
            assert((100_000_000u32 / 115_200u32) >> 4 == 54) by (bit_vector);
            assert(54u32 & 0xff == 54) by (bit_vector);
            assert((54u32 >> 8) & 0xff == 0) by (bit_vector);
        }
        (Uart, writes)
    }

    /// The read decision: with line status `lsr` and receiver data
    /// `rdr`, a byte is available exactly when the data-ready bit is
    /// set, and then the byte is the low eight bits of `rdr`. `None`
    /// means the caller would block and should poll again.
    pub fn read(&self, lsr: u32, rdr: u32) -> (r: Option<u8>)
        ensures
            r is Some <==> lsr & LSR_DR != 0,
            r matches Some(b) ==> b == rdr as u8,
    {
        if lsr & LSR_DR != 0 {
            Some(rdr as u8)
        } else {
            None
        }
    }

    /// The write decision: a byte is sent by writing it to the
    /// transmitter holding register.
    pub fn write(&self, byte: u8) -> (r: RegWrite)
        ensures
            r == (RegWrite { reg: REG_THR, val: byte as u32 }),
    {
        RegWrite { reg: REG_THR, val: byte as u32 }
    }

    /// The flush decision: the transmitter is drained exactly when the
    /// holding-register-empty bit of the line status is set; otherwise
    /// the caller would block and should poll again.
    pub fn flush(&self, lsr: u32) -> (r: bool)
        ensures
            r <==> lsr & LSR_THRE != 0,
    {
        lsr & LSR_THRE != 0
    }
}

} // verus!
