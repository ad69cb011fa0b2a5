//! The UART, its port window and what carries its output away.

use vmm::access::RWOp;
use vmm::uart::backend::{flush_stdout, FlushStep, OutputQueue, SerialBackend, STDOUT_QUEUE_CAP};
use vmm::uart::lpc::{LpcUart, COM1_BASE, COM1_IRQ, COM2_BASE, COM2_IRQ, REGISTER_LEN};
use vmm::uart::uart16550::Uart;

// Register offsets.
const REG_RBR: u8 = 0;
const REG_THR: u8 = 0;
const REG_IER: u8 = 1;
const REG_IIR: u8 = 2;
const REG_LCR: u8 = 3;
const REG_MCR: u8 = 4;
const REG_LSR: u8 = 5;
const REG_SCR: u8 = 7;

// IER bits.
const IER_ERBFI: u8 = 1 << 0;
const IER_ETBEI: u8 = 1 << 1;
const IER_ELSI: u8 = 1 << 2;
const IER_EDSSI: u8 = 1 << 3;

// IIR sources.
const IIR_NONE: u8 = 0b0001;
const IIR_THRE: u8 = 0b0010;
const IIR_DR: u8 = 0b0100;
const IIR_RLS: u8 = 0b0110;

// LSR bits.
const LSR_DR: u8 = 1 << 0;
const LSR_OE: u8 = 1 << 1;
const LSR_THRE: u8 = 1 << 5;
const LSR_TEMT: u8 = 1 << 6;

// MCR bits.
const MCR_LOOP: u8 = 1 << 4;

// LCR bits.
const LCR_DLAB: u8 = 1 << 7;

// IIR mask.
const MASK_IIR: u8 = 0b0000_1111;

#[test]
fn reset_state() {
    let mut uart = Uart::new();
    assert_eq!(uart.reg_read(REG_IER), 0);
    assert_eq!(uart.reg_read(REG_IIR), IIR_NONE);
    assert_eq!(uart.reg_read(REG_LCR), 0);
    assert_eq!(uart.reg_read(REG_MCR), 0);
    assert_eq!(
        uart.reg_read(REG_LSR),
        LSR_THRE | LSR_TEMT,
        "LSR should show THRE|TEMT at reset"
    );
}

#[test]
fn scratch_register_roundtrip() {
    let mut uart = Uart::new();
    uart.reg_write(REG_SCR, 0xA5);
    assert_eq!(uart.reg_read(REG_SCR), 0xA5);
    uart.reg_write(REG_SCR, 0x00);
    assert_eq!(uart.reg_read(REG_SCR), 0x00);
}

#[test]
fn dlab_divisor_latch() {
    let mut uart = Uart::new();
    // Enable DLAB.
    uart.reg_write(REG_LCR, LCR_DLAB);
    // Write divisor latch registers (offset 0 and 1).
    uart.reg_write(0, 0x0C); // DLL
    uart.reg_write(1, 0x00); // DLH
    assert_eq!(uart.reg_read(0), 0x0C);
    assert_eq!(uart.reg_read(1), 0x00);
    // Clear DLAB -- offset 0 should now be RBR/THR again.
    uart.reg_write(REG_LCR, 0);
    assert_eq!(uart.reg_read(0), 0); // RBR (empty)
}

#[test]
fn intr_thre_on_etbei_toggle() {
    let mut uart = Uart::new();
    // No interrupts enabled -- none should be asserted.
    uart.reg_write(REG_IER, 0);
    assert_eq!(uart.reg_read(REG_LSR) & LSR_THRE, LSR_THRE);
    assert_eq!(uart.reg_read(REG_IIR) & MASK_IIR, IIR_NONE);
    assert!(!uart.intr_state());

    // Enable THRE interrupt.
    uart.reg_write(REG_IER, IER_ETBEI);
    assert_eq!(uart.reg_read(REG_LSR) & LSR_THRE, LSR_THRE);
    assert!(uart.intr_state());
    assert_eq!(uart.reg_read(REG_IIR) & MASK_IIR, IIR_THRE);

    // After reading IIR, THRE interrupt should deassert.
    assert!(!uart.intr_state());
    assert_eq!(uart.reg_read(REG_IIR) & MASK_IIR, IIR_NONE);

    // LSR should still show THRE.
    assert_eq!(uart.reg_read(REG_LSR) & LSR_THRE, LSR_THRE);
}

#[test]
fn intr_dr_on_incoming() {
    let mut uart = Uart::new();
    let tval: u8 = 0x20;

    uart.reg_write(REG_IER, IER_ERBFI);
    assert!(!uart.intr_state());
    assert_eq!(uart.reg_read(REG_IIR) & MASK_IIR, IIR_NONE);

    uart.data_write(tval);
    assert!(uart.intr_state());
    assert_eq!(uart.reg_read(REG_IIR) & MASK_IIR, IIR_DR);
    assert_eq!(uart.reg_read(REG_RBR), tval);
    assert!(!uart.intr_state());
    assert_eq!(uart.reg_read(REG_IIR) & MASK_IIR, IIR_NONE);
}

#[test]
fn intr_thre_on_outgoing() {
    let mut uart = Uart::new();
    let tval: u8 = 0x20;

    uart.reg_write(REG_IER, 0);
    assert!(!uart.intr_state());

    // The instant TX model sets THRE on the THR write.
    uart.reg_write(REG_THR, tval);
    // THRE is set, so enabling the interrupt fires it at once.
    uart.reg_write(REG_IER, IER_ETBEI);
    assert!(uart.intr_state());
    assert_eq!(uart.reg_read(REG_IIR) & MASK_IIR, IIR_THRE);

    // Cleared after IIR read.
    assert!(!uart.intr_state());

    // External consumer can still drain TX FIFO.
    assert_eq!(uart.data_read(), Some(tval));
}

#[test]
fn interrupt_priority_order() {
    let mut uart = Uart::new();

    // Enable all interrupt sources.
    uart.reg_write(REG_IER, IER_ERBFI | IER_ETBEI | IER_ELSI | IER_EDSSI);

    // TX empty so THRE fires.
    assert_eq!(uart.reg_read(REG_IIR), IIR_THRE);

    // Loopback lets the test cause an overrun.
    uart.reg_write(REG_MCR, MCR_LOOP);

    // Loopback data to fill the RX FIFO and assert DR.
    let rval: u8 = 0x20;
    for _ in 0..256 {
        uart.reg_write(REG_THR, rval);
    }
    assert_eq!(uart.reg_read(REG_IIR), IIR_DR);

    // Overrun: write again with RX FIFO full.
    uart.reg_write(REG_THR, rval);
    assert_eq!(uart.reg_read(REG_IIR), IIR_RLS);

    // Clear OE by reading LSR.
    assert_ne!(uart.reg_read(REG_LSR) & LSR_OE, 0);
    assert_eq!(uart.reg_read(REG_IIR), IIR_DR);

    // Clear DR by reading all RBR bytes.
    for _ in 0..256 {
        assert_eq!(uart.reg_read(REG_RBR), rval);
    }
    assert_eq!(uart.reg_read(REG_IIR), IIR_THRE);

    // Leave loopback, queue outgoing data.
    // With instant TX, THRE stays set after THR write.
    uart.reg_write(REG_MCR, 0);
    let tval: u8 = 0x40;
    uart.reg_write(REG_THR, tval);
    // THRE interrupt fires since ETBEI is enabled and THRE is set
    assert_eq!(uart.reg_read(REG_IIR) & MASK_IIR, IIR_THRE);
    assert_eq!(uart.data_read(), Some(tval));
}

#[test]
fn safe_read_write_all_offsets() {
    let mut uart = Uart::new();

    // All offsets 0-7 must be safe to read and write.
    for i in 0..=7 {
        let _ = uart.reg_read(i);
    }
    for i in 0..=7 {
        uart.reg_write(i, 0xFF);
    }
    // DLAB is now set (LCR was written with 0xFF).
    // Verify divisor registers are accessible.
    let _ = uart.reg_read(0);
    let _ = uart.reg_read(1);
    uart.reg_write(0, 0xFF);
    uart.reg_write(1, 0xFF);
}

#[test]
fn out_of_range_offset_is_safe() {
    let mut uart = Uart::new();
    // Offsets >= 8 must not panic.
    assert_eq!(uart.reg_read(8), 0);
    assert_eq!(uart.reg_read(255), 0);
    uart.reg_write(8, 0xFF);
    uart.reg_write(255, 0xFF);
}

#[test]
fn loopback_discards_external_input() {
    let mut uart = Uart::new();
    uart.reg_write(REG_MCR, MCR_LOOP);
    // External data_write should be silently discarded.
    assert!(uart.data_write(0x42));
    // RX FIFO should remain empty (no DR).
    assert_eq!(uart.reg_read(REG_LSR) & LSR_DR, 0);
}

#[test]
fn data_write_returns_false_when_full() {
    let mut uart = Uart::new();
    for i in 0..256 {
        assert!(uart.data_write(i as u8), "write {i} should succeed");
    }
    // The 256-byte FIFO is full.
    assert!(!uart.data_write(0xFF));
}

#[test]
fn data_read_returns_none_when_empty() {
    let mut uart = Uart::new();
    assert_eq!(uart.data_read(), None);
}

#[test]
fn reset_clears_state() {
    let mut uart = Uart::new();
    uart.reg_write(REG_IER, IER_ERBFI | IER_ETBEI);
    uart.reg_write(REG_SCR, 0xAB);
    uart.data_write(0x42);
    uart.reset();

    assert_eq!(uart.reg_read(REG_IER), 0);
    assert_eq!(uart.reg_read(REG_SCR), 0);
    assert_eq!(uart.reg_read(REG_IIR), IIR_NONE);
    assert!(!uart.intr_state());
    assert_eq!(uart.reg_read(REG_LSR), LSR_THRE | LSR_TEMT,);
}

fn guest_in(uart: &mut LpcUart, offset: u16) -> u8 {
    let r = uart.pio_rw(offset, RWOp::Read(1));
    assert_eq!(r.len(), 1);
    r[0]
}

fn guest_out(uart: &mut LpcUart, offset: u16, value: u8) {
    uart.pio_rw(offset, RWOp::Write(&[value]));
}

#[test]
fn attach_and_read_lsr() {
    let mut uart = LpcUart::new();
    // Read LSR (offset 5 from base) -- should show THRE|TEMT.
    assert_eq!(guest_in(&mut uart, 5), 0x60, "LSR should be THRE|TEMT at reset");
    assert_eq!(COM1_BASE, 0x3F8);
}

#[test]
fn input_output_byte() {
    let mut uart = LpcUart::new();
    // Feed bytes in until FIFO is full (256 bytes).
    for i in 0..256u16 {
        assert!(uart.input_byte(i as u8), "input_byte {i} should succeed");
    }
    // The FIFO is full, so the next byte is rejected.
    assert!(!uart.input_byte(0xFF));
    // Nothing in TX yet.
    assert_eq!(uart.output_byte(), None);
}

#[test]
fn guest_tx_and_output_byte() {
    let mut uart = LpcUart::new();
    // Guest writes to THR (offset 0).
    guest_out(&mut uart, 0, 0x61);
    // External consumer drains it.
    assert_eq!(uart.output_byte(), Some(0x61));
    assert_eq!(uart.output_byte(), None);
}

#[test]
fn guest_rx_and_input_byte() {
    let mut uart = LpcUart::new();
    // External source feeds data.
    assert!(uart.input_byte(0x62));
    // Guest reads RBR (offset 0).
    assert_eq!(guest_in(&mut uart, 0), 0x62);
}

#[test]
fn interrupt_pin_synced() {
    let mut uart = LpcUart::new();
    // Enable ERBFI (data available interrupt).
    guest_out(&mut uart, 1, 0x01);
    assert!(!uart.irq_asserted());
    // Feed data -- pin should assert.
    assert!(uart.input_byte(0x42));
    assert!(uart.irq_asserted());
    // Guest reads the byte -- pin should deassert.
    let _ = guest_in(&mut uart, 0);
    assert!(!uart.irq_asserted());
}

#[test]
fn reset_deasserts_pin() {
    let mut uart = LpcUart::new();
    // IER = ETBEI gives a THRE interrupt.
    guest_out(&mut uart, 1, 0x02);
    assert!(uart.irq_asserted());
    uart.reset();
    assert!(!uart.irq_asserted());
}

/// Everything the guest wrote goes to the queue its port feeds.
fn pumped(uart: &mut LpcUart, queue: &mut OutputQueue) {
    for b in uart.take_sunk() {
        queue.push(b);
    }
}

#[test]
fn a_stalled_consumer_does_not_park_the_port_write() {
    let mut uart = LpcUart::new();
    uart.set_tx_sink();
    let mut queue = OutputQueue::new();
    for _ in 0..(4 * STDOUT_QUEUE_CAP) {
        guest_out(&mut uart, 0, b'x');
        pumped(&mut uart, &mut queue);
    }
    // Nobody took a byte: the queue is full and the rest is counted.
    assert_eq!(queue.dropped(), 3 * STDOUT_QUEUE_CAP as u64);
}

#[test]
fn a_closed_consumer_does_not_panic_the_sink() {
    let mut uart = LpcUart::new();
    uart.set_tx_sink();
    let mut queue = OutputQueue::new();
    for _ in 0..64 {
        guest_out(&mut uart, 0, b'x');
    }
    pumped(&mut uart, &mut queue);
    let chunk = queue.take_chunk();
    assert_eq!(chunk.map(|c| c.len()), Some(64));
    queue.chunk_written(false);
    assert!(queue.is_closed(), "the broken pipe was not noticed");
    assert_eq!(queue.flush(5000), FlushStep::Drained, "flush did not return");

    guest_out(&mut uart, 0, b'x');
    pumped(&mut uart, &mut queue);
    assert!(queue.take_chunk().is_none(), "nothing is left for a closed consumer");
}

#[test]
fn flush_waits_for_the_consumer_to_have_the_bytes() {
    let mut uart = LpcUart::new();
    uart.set_tx_sink();
    let mut queue = OutputQueue::new();
    let want: Vec<u8> = (0..200u32).map(|i| b'a' + (i % 26) as u8).collect();
    for b in &want {
        guest_out(&mut uart, 0, *b);
    }
    pumped(&mut uart, &mut queue);
    assert_ne!(queue.flush(5000), FlushStep::Drained);

    let mut got: Vec<u8> = Vec::new();
    while let Some(chunk) = queue.take_chunk() {
        // The bytes are with the writer, and not yet with the consumer.
        assert_ne!(queue.flush(5000), FlushStep::Drained);
        got.extend_from_slice(&chunk);
        queue.chunk_written(true);
    }
    assert_eq!(queue.flush(5000), FlushStep::Drained, "the queue did not drain");
    assert_eq!(got, want);
}

#[test]
fn a_flush_gives_up_when_its_time_is_spent() {
    let mut queue = OutputQueue::new();
    queue.push(b'x');
    assert_eq!(queue.flush(0), FlushStep::GaveUp);
    assert_eq!(flush_stdout(None, 0), FlushStep::Drained);
    assert_eq!(flush_stdout(Some(&queue), 0), FlushStep::GaveUp);
}

#[test]
fn only_the_stdio_backend_reads_stdin() {
    assert!(SerialBackend::Stdio.uses_stdout());
    assert!(SerialBackend::Stdio.uses_stdin());
    assert!(!SerialBackend::Device("/dev/zconsole").uses_stdout());
    assert!(!SerialBackend::Device("/dev/zconsole").uses_stdin());
}

#[test]
fn ports_and_lines_of_the_two_uarts() {
    assert_eq!((COM1_BASE, COM1_IRQ), (0x3F8, 4));
    assert_eq!((COM2_BASE, COM2_IRQ), (0x2F8, 3));
    assert_eq!(REGISTER_LEN, 8, "port window unchanged");
}

/// A transmit sink gets every byte in order, and nothing is left to drain.
#[test]
fn the_sink_gets_what_the_guest_wrote() {
    let mut uart = LpcUart::new();
    uart.set_tx_sink();
    for b in b"hello" {
        uart.pio_rw(0, RWOp::Write(&[*b]));
    }
    assert_eq!(uart.take_sunk(), b"hello");
    assert_eq!(uart.take_sunk(), b"");
    assert_eq!(uart.output_byte(), None);
}
