use adc_capsule::can::{
    get_bits, set_bit, set_bits, BitTiming, Can, CanClock, CanInterruptMode, CanState,
    FilterParameters, Id, IdentifierMode, OperationMode, Registers, ScaleBits, State,
};
use adc_capsule::errors::ErrorCode;

fn fresh_can() -> Can {
    Can::new(Registers::new(), CanClock::new())
}

/// Take a controller through configuration into normal mode.
fn running_can() -> Can {
    let mut can = fresh_can();
    can.enable_clock();
    can.set_bit_timing(
        BitTiming { segment1: 11, segment2: 2, sync_jump_width: 1, baud_rate_prescaler: 5 },
    )
    .unwrap();
    can.set_operation_mode(OperationMode::Normal).unwrap();
    assert_eq!(can.enable_controller(), Ok(State::Running));
    can
}

#[test]
fn bit_field_helpers_round_trip() {
    let r = set_bits(0, 16, 4, 0xB);
    assert_eq!(get_bits(r, 16, 4), 0xB);
    assert_eq!(get_bits(r, 0, 16), 0);
    assert_eq!(get_bits(r, 20, 12), 0);
    let r2 = set_bit(r, 0);
    assert_eq!(get_bits(r2, 0, 1), 1);
    assert_eq!(get_bits(r2, 16, 4), 0xB);
    // a field write truncates to the field's width
    let r3 = set_bits(0, 4, 3, 0xFF);
    assert_eq!(get_bits(r3, 4, 3), 7);
    assert_eq!(r3, 0x70);
}

#[test]
fn clock_control() {
    let mut can = fresh_can();
    assert!(!can.is_enabled_clock());
    can.enable_clock();
    assert!(can.is_enabled_clock());
    can.disable_clock();
    assert!(!can.is_enabled_clock());
}

#[test]
fn enable_requires_bit_timing() {
    let mut can = fresh_can();
    assert_eq!(can.enable(), Err(ErrorCode::Inval));
    assert_eq!(can.can_state, CanState::Sleep);
    // with a bit timing the controller reaches initialization mode
    can.set_bit_timing(
        BitTiming { segment1: 11, segment2: 2, sync_jump_width: 1, baud_rate_prescaler: 5 },
    )
    .unwrap();
    assert_eq!(can.enable(), Ok(()));
    assert_eq!(can.can_state, CanState::Initialization);
    // the timing fields landed in the bit timing register
    assert_eq!(get_bits(can.registers.can_btr, 16, 4), 11);
    assert_eq!(get_bits(can.registers.can_btr, 20, 3), 2);
    assert_eq!(get_bits(can.registers.can_btr, 24, 2), 1);
    assert_eq!(get_bits(can.registers.can_btr, 0, 10), 5);
}

#[test]
fn controller_lifecycle() {
    let mut can = running_can();
    assert_eq!(can.can_state, CanState::Normal);
    assert_eq!(can.get_state(), Ok(State::Running));
    assert_eq!(can.enable_controller(), Err(ErrorCode::Busy));
    assert_eq!(can.disable(), Ok(()));
    assert_eq!(can.can_state, CanState::Sleep);
    assert_eq!(can.get_state(), Ok(State::Disabled));
    assert_eq!(can.disable(), Err(ErrorCode::Off));
}

#[test]
fn enable_controller_needs_operation_mode() {
    let mut can = fresh_can();
    can.set_bit_timing(
        BitTiming { segment1: 1, segment2: 1, sync_jump_width: 0, baud_rate_prescaler: 1 },
    )
    .unwrap();
    assert_eq!(can.enable_controller(), Err(ErrorCode::Inval));
}

#[test]
fn configure_refused_while_running() {
    let mut can = running_can();
    let bt = BitTiming { segment1: 1, segment2: 1, sync_jump_width: 0, baud_rate_prescaler: 1 };
    assert_eq!(can.set_bit_timing(bt), Err(ErrorCode::Busy));
    assert_eq!(can.set_operation_mode(OperationMode::Loopback), Err(ErrorCode::Busy));
    assert_eq!(can.set_automatic_retransmission(true), Err(ErrorCode::Busy));
    assert_eq!(can.set_wake_up(true), Err(ErrorCode::Busy));
}

#[test]
fn configure_getters() {
    let mut can = fresh_can();
    assert_eq!(can.get_bit_timing(), Err(ErrorCode::Inval));
    assert_eq!(can.get_operation_mode(), Err(ErrorCode::Inval));
    assert_eq!(can.get_automatic_retransmission(), Ok(false));
    assert_eq!(can.get_wake_up(), Ok(false));
    assert_eq!(can.receive_fifo_count(), 2);
    can.set_automatic_retransmission(true).unwrap();
    can.set_wake_up(true).unwrap();
    assert_eq!(can.get_automatic_retransmission(), Ok(true));
    assert_eq!(can.get_wake_up(), Ok(true));
    let bt = BitTiming { segment1: 3, segment2: 2, sync_jump_width: 1, baud_rate_prescaler: 9 };
    can.set_bit_timing(bt).unwrap();
    assert_eq!(can.get_bit_timing(), Ok(bt));
}

#[test]
fn state_from_can_state() {
    assert_eq!(State::from(CanState::Normal), State::Running);
    assert_eq!(State::from(CanState::Sleep), State::Disabled);
    assert_eq!(State::from(CanState::Initialization), State::Disabled);
}

#[test]
fn find_empty_mailbox_order() {
    let mut can = fresh_can();
    assert_eq!(can.find_empty_mailbox(), None);
    can.registers.can_tsr = 1 << 28;
    assert_eq!(can.find_empty_mailbox(), Some(2));
    can.registers.can_tsr |= 1 << 27;
    assert_eq!(can.find_empty_mailbox(), Some(1));
    can.registers.can_tsr |= 1 << 26;
    assert_eq!(can.find_empty_mailbox(), Some(0));
}

#[test]
fn convert_words_to_bytes() {
    let can = fresh_can();
    let arr = can.convert_u32_to_arr(0x4433_2211, 0x8877_6655);
    assert_eq!(arr, [0x11, 0x22, 0x33, 0x44, 0x55, 0x66, 0x77, 0x88]);
}

#[test]
fn irq_masks() {
    let mut can = fresh_can();
    can.enable_irqs();
    assert_eq!(get_bits(can.registers.can_ier, 0, 1), 1);
    assert_eq!(get_bits(can.registers.can_ier, 1, 1), 1);
    assert_eq!(get_bits(can.registers.can_ier, 4, 1), 1);
    assert_eq!(get_bits(can.registers.can_ier, 15, 1), 1);
    can.disable_irqs();
    assert_eq!(can.registers.can_ier & 0x3_FF7F, 0);
    can.enable_irq(CanInterruptMode::Fifo1Interrupt);
    assert_eq!(get_bits(can.registers.can_ier, 4, 1), 1);
    assert_eq!(get_bits(can.registers.can_ier, 5, 1), 1);
    assert_eq!(get_bits(can.registers.can_ier, 6, 1), 1);
    can.disable_irq(CanInterruptMode::Fifo1Interrupt);
    assert_eq!(get_bits(can.registers.can_ier, 4, 3), 0);
}

#[test]
fn config_filter_bits() {
    let mut can = fresh_can();
    can.registers.can_firx[6] = 0xDEAD;
    can.registers.can_firx[7] = 0xBEEF;
    can.config_filter(
        FilterParameters {
            number: 3,
            scale_bits: ScaleBits::Bits16,
            identifier_mode: IdentifierMode::List,
            fifo_number: 1,
        },
        true,
    );
    assert_eq!(get_bits(can.registers.can_fmr, 0, 1), 1);
    assert_eq!(get_bits(can.registers.can_fa1r, 3, 1), 1);
    assert_eq!(get_bits(can.registers.can_fs1r, 3, 1), 1);
    assert_eq!(get_bits(can.registers.can_fm1r, 3, 1), 1);
    assert_eq!(get_bits(can.registers.can_ffa1r, 3, 1), 1);
    assert_eq!(can.registers.can_firx[6], 0);
    assert_eq!(can.registers.can_firx[7], 0);
    can.config_filter(
        FilterParameters {
            number: 3,
            scale_bits: ScaleBits::Bits32,
            identifier_mode: IdentifierMode::Mask,
            fifo_number: 0,
        },
        false,
    );
    assert_eq!(get_bits(can.registers.can_fa1r, 3, 1), 0);
    assert_eq!(get_bits(can.registers.can_fs1r, 3, 1), 0);
    assert_eq!(get_bits(can.registers.can_fm1r, 3, 1), 0);
    assert_eq!(get_bits(can.registers.can_ffa1r, 3, 1), 0);
    can.enable_filter_config();
    assert_eq!(get_bits(can.registers.can_fmr, 0, 1), 0);
}

#[test]
fn send_message_requires_normal_mode() {
    let mut can = fresh_can();
    assert_eq!(can.send_8byte_message(Id::Standard(5), 8, 0), Err(ErrorCode::Off));
}

#[test]
fn send_message_without_mailbox_is_busy() {
    let mut can = running_can();
    // no TME bit set: every mailbox is in use
    assert_eq!(can.failed_messages, 0);
    assert_eq!(can.send_8byte_message(Id::Standard(5), 8, 0), Err(ErrorCode::Busy));
    assert_eq!(can.failed_messages, 1);
}

#[test]
fn send_loads_mailbox_and_requests_transmission() {
    let mut can = running_can();
    can.registers.can_tsr = 1 << 26;
    let data: [u8; 8] = [0, 1, 2, 3, 4, 5, 6, 7];
    assert_eq!(can.send(Id::Standard(0x123), data, 8), Ok(()));
    let mbx = &can.registers.can_tx_mailbox[0];
    assert_eq!(get_bits(mbx.can_tir, 0, 1), 1); // transmit requested
    assert_eq!(get_bits(mbx.can_tir, 2, 1), 0); // standard identifier
    assert_eq!(get_bits(mbx.can_tir, 21, 11), 0x123 & 0xeff);
    assert_eq!(get_bits(mbx.can_tdtr, 0, 4), 8);
    assert_eq!(mbx.can_tdlr, 0x0302_0100);
    assert_eq!(mbx.can_tdhr, 0x0706_0504);
    // the buffer stays with the driver until the transmit interrupt
    assert_eq!(can.tx_buffer, Some(data));
    let back = can.handle_transmit_interrupt();
    assert_eq!(back, Some(data));
    assert_eq!(can.tx_buffer, None);
}

#[test]
fn send_extended_identifier() {
    let mut can = running_can();
    can.registers.can_tsr = 1 << 26;
    can.tx_buffer = Some([0; 8]);
    assert_eq!(can.send_8byte_message(Id::Extended(0x0ABC_DEF1), 8, 0), Ok(()));
    let mbx = &can.registers.can_tx_mailbox[0];
    assert_eq!(get_bits(mbx.can_tir, 2, 1), 1); // extended identifier
    assert_eq!(get_bits(mbx.can_tir, 21, 11), (0x0ABC_DEF1 & 0xffc_0000) >> 18);
    assert_eq!(get_bits(mbx.can_tir, 3, 18), 0x0ABC_DEF1 & 0x003f_ffff & 0x3ffff);
}

#[test]
fn send_outside_normal_mode_returns_buffer() {
    let mut can = fresh_can();
    let data: [u8; 8] = [9; 8];
    assert_eq!(can.send(Id::Standard(1), data, 8), Err((ErrorCode::Off, data)));
}

#[test]
fn receive_process_lifecycle() {
    let mut can = running_can();
    assert_eq!(can.stop_receive(), Err(ErrorCode::Fail));
    assert_eq!(can.start_receive_process(vec![0u8; 16]), Ok(()));
    assert_eq!(get_bits(can.registers.can_fa1r, 0, 1), 1);
    assert_eq!(get_bits(can.registers.can_fa1r, 1, 1), 1);
    assert_eq!(get_bits(can.registers.can_ier, 1, 1), 1);
    assert_eq!(get_bits(can.registers.can_ier, 4, 1), 1);
    let rx = can.stop_receive().unwrap();
    assert_eq!(rx.len(), 16);
    assert_eq!(get_bits(can.registers.can_fa1r, 0, 1), 0);
    assert_eq!(get_bits(can.registers.can_ier, 1, 1), 0);
}

#[test]
fn receive_refused_while_asleep() {
    let mut can = fresh_can();
    match can.start_receive_process(vec![0u8; 8]) {
        Err((e, b)) => {
            assert_eq!(e, ErrorCode::Off);
            assert_eq!(b.len(), 8);
        }
        Ok(_) => panic!("receive must be refused while asleep"),
    }
    assert_eq!(can.stop_receive(), Err(ErrorCode::Off));
}

#[test]
fn fifo0_delivers_standard_frame() {
    let mut can = running_can();
    can.start_receive_process(vec![0u8; 8]).unwrap();
    // nothing pending: no message
    assert_eq!(can.handle_fifo0_interrupt(), None);
    // one message pending, standard id 0x55, four bytes
    can.registers.can_rf0r = 1;
    {
        let mbx = &mut can.registers.can_rx_mailbox[0];
        mbx.can_rir = 0x55 << 21;
        mbx.can_rdtr = 4;
        mbx.can_rdlr = 0x4433_2211;
        mbx.can_rdhr = 0x8877_6655;
    }
    let msg = can.handle_fifo0_interrupt().unwrap();
    assert_eq!(msg.id, Id::Standard(0x55));
    assert_eq!(msg.length, 4);
    assert_eq!(msg.data, [0x11, 0x22, 0x33, 0x44, 0x55, 0x66, 0x77, 0x88]);
    // the frame was mirrored into the registered receive buffer
    assert_eq!(can.rx_buffer.as_ref().unwrap()[0], 0x11);
    assert_eq!(can.rx_buffer.as_ref().unwrap()[7], 0x88);
    // the release bit was written
    assert_eq!(get_bits(can.registers.can_rf0r, 5, 1), 1);
    assert_eq!(can.fifo0_interrupt_counter, 1);
}

#[test]
fn fifo1_delivers_extended_frame() {
    let mut can = running_can();
    can.registers.can_rf1r = 2;
    {
        let mbx = &mut can.registers.can_rx_mailbox[1];
        mbx.can_rir = (0x44 << 21) | (0x1234 << 3) | (1 << 2);
        mbx.can_rdtr = 8;
        mbx.can_rdlr = 0;
        mbx.can_rdhr = 0;
    }
    let msg = can.handle_fifo1_interrupt().unwrap();
    assert_eq!(msg.id, Id::Extended((0x44 << 18) | 0x1234));
    assert_eq!(msg.length, 8);
    assert_eq!(can.fifo1_interrupt_counter, 1);
}

#[test]
fn error_interrupts_eventually_muted() {
    let mut can = fresh_can();
    can.enable_irq(CanInterruptMode::ErrorAndStatusChangeInterrupt);
    assert_eq!(get_bits(can.registers.can_ier, 15, 1), 1);
    for _ in 0..11 {
        can.handle_error_status_interrupt();
    }
    assert_eq!(can.error_interrupt_counter, 11);
    // after more than ten events the error interrupt group is muted
    assert_eq!(get_bits(can.registers.can_ier, 15, 1), 0);
}

#[test]
fn wait_for_reports_missing_acknowledge() {
    assert_eq!(Can::wait_for(true), Ok(()));
    assert_eq!(Can::wait_for(false), Err(ErrorCode::Fail));
}
