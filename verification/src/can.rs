//! A bxCAN-style CAN controller: the register-level driver logic, modeled
//! over an owned register file.
//!
//! The hardware's memory-mapped registers are held as plain words, and
//! every operation states exactly which fields it reads and writes. Bits
//! that the peripheral itself sets asynchronously (such as the
//! initialization and sleep acknowledges) are simply read from the model:
//! a harness stands in for the hardware by setting them between calls.
//! Client notifications (received frames, completed transmissions) are
//! returned as values instead of being delivered through callbacks.

use vstd::prelude::*;

use crate::errors::ErrorCode;

verus! {

/// A CAN data frame's payload size, in bytes.
pub const STANDARD_CAN_PACKET_SIZE: usize = 8;

/// The low `width` bits set.
pub open spec fn spec_field_mask(width: u32) -> u32 {
    if width >= 32 {
        0xFFFF_FFFFu32
    } else {
        ((1u32 << width) - 1) as u32
    }
}

/// A register's field of `width` bits starting at `offset`.
pub open spec fn spec_get_bits(reg: u32, offset: u32, width: u32) -> u32 {
    (reg >> offset) & spec_field_mask(width)
}

/// The register with the field of `width` bits at `offset` replaced by
/// the low bits of `val`, all other bits kept.
pub open spec fn spec_set_bits(reg: u32, offset: u32, width: u32, val: u32) -> u32 {
    (reg & !(spec_field_mask(width) << offset)) | ((val & spec_field_mask(width)) << offset)
}

/// Bit `k` of a register.
pub open spec fn bit_set(reg: u32, k: u32) -> bool {
    (reg >> k) & 1 == 1
}

/// Run-time form of `spec_field_mask`.
fn field_mask(width: u32) -> (m: u32)
    requires
        width <= 32,
    ensures
        m == spec_field_mask(width),
{
    if width >= 32 {
        0xFFFF_FFFF
    } else {
        proof {
            assert(1u32 << width >= 1) by (bit_vector)
                requires
                    width < 32,
            ;
        }
        (1u32 << width) - 1
    }
}

/// Read a register field.
pub fn get_bits(reg: u32, offset: u32, width: u32) -> (v: u32)
    requires
        1 <= width,
        offset + width <= 32,
    ensures
        v == spec_get_bits(reg, offset, width),
{
    let m = field_mask(width);
    (reg >> offset) & m
}

/// Write a register field, leaving every other bit unchanged.
pub fn set_bits(reg: u32, offset: u32, width: u32, val: u32) -> (r: u32)
    requires
        1 <= width,
        offset + width <= 32,
    ensures
        r == spec_set_bits(reg, offset, width, val),
        spec_get_bits(r, offset, width) == (val & spec_field_mask(width)),
        forall|k: u32|
            k < 32 && (k < offset || offset + width <= k) ==> bit_set(r, k) == bit_set(reg, k),
        forall|o2: u32, w2: u32|
            1 <= w2 && o2 + w2 <= 32 && (o2 + w2 <= offset || offset + width <= o2)
                ==> #[trigger] spec_get_bits(r, o2, w2) == spec_get_bits(reg, o2, w2),
{
    let m = field_mask(width);
    let r = (reg & !(m << offset)) | ((val & m) << offset);
    proof {
        assert(((((reg & !(m << offset)) | ((val & m) << offset)) >> offset) & m) == (val
            & m)) by (bit_vector)
            requires
                m == (if width >= 32 {
                    0xFFFF_FFFFu32
                } else {
                    ((1u32 << width) - 1) as u32
                }),
                1 <= width,
                offset + width <= 32,
        ;
        assert forall|k: u32|
            k < 32 && (k < offset || offset + width <= k) implies bit_set(r, k) == bit_set(
            reg,
            k,
        ) by {
            assert(((((reg & !(m << offset)) | ((val & m) << offset)) >> k) & 1) == ((reg >> k)
                & 1)) by (bit_vector)
                requires
                    m == (if width >= 32 {
                        0xFFFF_FFFFu32
                    } else {
                        ((1u32 << width) - 1) as u32
                    }),
                    1 <= width,
                    offset + width <= 32,
                    k < 32,
                    k < offset || offset + width <= k,
            ;
        };
        assert forall|o2: u32, w2: u32|
            1 <= w2 && o2 + w2 <= 32 && (o2 + w2 <= offset || offset + width <= o2)
                implies #[trigger] spec_get_bits(r, o2, w2) == spec_get_bits(reg, o2, w2) by {
            let m2 = spec_field_mask(w2);
            assert(((((reg & !(m << offset)) | ((val & m) << offset)) >> o2) & m2) == ((reg >> o2)
                & m2)) by (bit_vector)
                requires
                    m == (if width >= 32 {
                        0xFFFF_FFFFu32
                    } else {
                        ((1u32 << width) - 1) as u32
                    }),
                    m2 == (if w2 >= 32 {
                        0xFFFF_FFFFu32
                    } else {
                        ((1u32 << w2) - 1) as u32
                    }),
                    1 <= width,
                    offset + width <= 32,
                    1 <= w2,
                    o2 + w2 <= 32,
                    o2 + w2 <= offset || offset + width <= o2,
            ;
        };
    }
    r
}

/// A one-bit field reads as one exactly when the bit is set.
pub proof fn lemma_bit_get(reg: u32, k: u32)
    requires
        k < 32,
    ensures
        bit_set(reg, k) <==> spec_get_bits(reg, k, 1) == 1,
        spec_get_bits(reg, k, 1) == 0 <==> !bit_set(reg, k),
{
    assert((1u32 << 1u32) - 1 == 1) by (bit_vector);
    assert(((reg >> k) & 1) == 1 || ((reg >> k) & 1) == 0) by (bit_vector);
}

/// Set a one-bit field.
pub fn set_bit(reg: u32, offset: u32) -> (r: u32)
    requires
        offset < 32,
    ensures
        r == spec_set_bits(reg, offset, 1, 1),
        spec_get_bits(r, offset, 1) == 1,
        bit_set(r, offset),
        forall|k: u32| k < 32 && k != offset ==> bit_set(r, k) == bit_set(reg, k),
        forall|o2: u32, w2: u32|
            1 <= w2 && o2 + w2 <= 32 && (o2 + w2 <= offset || offset + 1 <= o2)
                ==> #[trigger] spec_get_bits(r, o2, w2) == spec_get_bits(reg, o2, w2),
{
    proof {
        assert((1u32 << 1u32) - 1 == 1) by (bit_vector);
        assert(1u32 & 1u32 == 1u32) by (bit_vector);
    }
    let r = set_bits(reg, offset, 1, 1);
    proof {
        lemma_bit_get(r, offset);
    }
    r
}

/// Clear a one-bit field.
pub fn clear_bit(reg: u32, offset: u32) -> (r: u32)
    requires
        offset < 32,
    ensures
        r == spec_set_bits(reg, offset, 1, 0),
        spec_get_bits(r, offset, 1) == 0,
        !bit_set(r, offset),
        forall|k: u32| k < 32 && k != offset ==> bit_set(r, k) == bit_set(reg, k),
        forall|o2: u32, w2: u32|
            1 <= w2 && o2 + w2 <= 32 && (o2 + w2 <= offset || offset + 1 <= o2)
                ==> #[trigger] spec_get_bits(r, o2, w2) == spec_get_bits(reg, o2, w2),
{
    proof {
        assert((1u32 << 1u32) - 1 == 1) by (bit_vector);
        assert(0u32 & 1u32 == 0u32) by (bit_vector);
    }
    let r = set_bits(reg, offset, 1, 0);
    proof {
        lemma_bit_get(r, offset);
    }
    r
}

/// The controller's lifecycle states.
#[derive(Copy, Clone, Debug, PartialEq, Eq, Structural)]
pub enum CanState {
    Initialization,
    Normal,
    Sleep,
}

/// The state a controller reports to its users.
#[derive(Copy, Clone, Debug, PartialEq, Eq, Structural)]
pub enum State {
    Running,
    Disabled,
}

impl From<CanState> for State {
    /// Only normal mode counts as running; initialization and sleep both
    /// report as disabled.
    fn from(state: CanState) -> (s: State) {
        match state {
            CanState::Initialization | CanState::Sleep => State::Disabled,
            CanState::Normal => State::Running,
        }
    }
}

impl vstd::std_specs::convert::FromSpecImpl<CanState> for State {
    open spec fn obeys_from_spec() -> bool {
        true
    }

    open spec fn from_spec(state: CanState) -> State {
        match state {
            CanState::Initialization | CanState::Sleep => State::Disabled,
            CanState::Normal => State::Running,
        }
    }
}

/// A frame identifier: standard (11-bit) or extended (29-bit).
#[derive(Copy, Clone, Debug, PartialEq, Eq, Structural)]
pub enum Id {
    Standard(u16),
    Extended(u32),
}

/// Bit timing parameters for the controller.
#[derive(Copy, Clone, Debug, PartialEq, Eq, Structural)]
pub struct BitTiming {
    pub segment1: u8,
    pub segment2: u8,
    pub sync_jump_width: u32,
    pub baud_rate_prescaler: u32,
}

/// The controller's operating regime.
#[derive(Copy, Clone, Debug, PartialEq, Eq, Structural)]
pub enum OperationMode {
    Loopback,
    Monitoring,
    Freeze,
    Normal,
}

/// A receive filter's width.
#[derive(Copy, Clone, Debug, PartialEq, Eq, Structural)]
pub enum ScaleBits {
    Bits16,
    Bits32,
}

/// A receive filter's matching mode.
#[derive(Copy, Clone, Debug, PartialEq, Eq, Structural)]
pub enum IdentifierMode {
    List,
    Mask,
}

/// One receive filter's configuration.
#[derive(Copy, Clone, Debug, PartialEq, Eq, Structural)]
pub struct FilterParameters {
    pub number: u32,
    pub scale_bits: ScaleBits,
    pub identifier_mode: IdentifierMode,
    pub fifo_number: usize,
}

/// The interrupt groups the driver can switch on and off.
#[derive(Copy, Clone, Debug, PartialEq, Eq, Structural)]
pub enum CanInterruptMode {
    TransmitInterrupt,
    Fifo0Interrupt,
    Fifo1Interrupt,
    ErrorAndStatusChangeInterrupt,
}

/// A received frame, as handed to the receive client.
#[derive(Copy, Clone, Debug, PartialEq, Eq)]
pub struct CanMessage {
    pub id: Id,
    pub data: [u8; 8],
    pub length: usize,
}

/// One transmit mailbox's registers.
pub struct TransmitMailBox {
    pub can_tir: u32,
    pub can_tdtr: u32,
    pub can_tdlr: u32,
    pub can_tdhr: u32,
}

/// One receive mailbox's registers.
pub struct ReceiveMailBox {
    pub can_rir: u32,
    pub can_rdtr: u32,
    pub can_rdlr: u32,
    pub can_rdhr: u32,
}

/// The controller's register file, as plain words.
pub struct Registers {
    pub can_mcr: u32,
    pub can_msr: u32,
    pub can_tsr: u32,
    pub can_rf0r: u32,
    pub can_rf1r: u32,
    pub can_ier: u32,
    pub can_esr: u32,
    pub can_btr: u32,
    pub can_tx_mailbox: Vec<TransmitMailBox>,
    pub can_rx_mailbox: Vec<ReceiveMailBox>,
    pub can_fmr: u32,
    pub can_fm1r: u32,
    pub can_fs1r: u32,
    pub can_ffa1r: u32,
    pub can_fa1r: u32,
    pub can_firx: Vec<u32>,
}

impl Registers {
    /// The register file has three transmit mailboxes, two receive
    /// mailboxes, and fifty-six filter bank words.
    pub open spec fn wf(&self) -> bool {
        &&& self.can_tx_mailbox@.len() == 3
        &&& self.can_rx_mailbox@.len() == 2
        &&& self.can_firx@.len() == 56
    }

    /// A zeroed register file.
    pub fn new() -> (regs: Registers)
        ensures
            regs.wf(),
            regs.can_mcr == 0,
            regs.can_msr == 0,
            regs.can_tsr == 0,
            regs.can_ier == 0,
    {
        let mut tx: Vec<TransmitMailBox> = Vec::new();
        let mut i: usize = 0;
        while i < 3
            invariant
                i <= 3,
                tx@.len() == i,
            decreases 3 - i,
        {
            tx.push(TransmitMailBox { can_tir: 0, can_tdtr: 0, can_tdlr: 0, can_tdhr: 0 });
            i = i + 1;
        }
        let mut rx: Vec<ReceiveMailBox> = Vec::new();
        let mut j: usize = 0;
        while j < 2
            invariant
                j <= 2,
                rx@.len() == j,
            decreases 2 - j,
        {
            rx.push(ReceiveMailBox { can_rir: 0, can_rdtr: 0, can_rdlr: 0, can_rdhr: 0 });
            j = j + 1;
        }
        let mut firx: Vec<u32> = Vec::new();
        let mut k: usize = 0;
        while k < 56
            invariant
                k <= 56,
                firx@.len() == k,
            decreases 56 - k,
        {
            firx.push(0);
            k = k + 1;
        }
        Registers {
            can_mcr: 0,
            can_msr: 0,
            can_tsr: 0,
            can_rf0r: 0,
            can_rf1r: 0,
            can_ier: 0,
            can_esr: 0,
            can_btr: 0,
            can_tx_mailbox: tx,
            can_rx_mailbox: rx,
            can_fmr: 0,
            can_fm1r: 0,
            can_fs1r: 0,
            can_ffa1r: 0,
            can_fa1r: 0,
            can_firx: firx,
        }
    }
}

/// The peripheral clock feeding the controller.
pub struct CanClock {
    pub enabled: bool,
}

impl CanClock {
    pub fn new() -> (c: CanClock)
        ensures
            !c.enabled,
    {
        CanClock { enabled: false }
    }

    pub fn is_enabled(&self) -> (r: bool)
        ensures
            r == self.enabled,
    {
        self.enabled
    }

    pub fn enable(&mut self)
        ensures
            final(self).enabled,
    {
        self.enabled = true;
    }

    pub fn disable(&mut self)
        ensures
            !final(self).enabled,
    {
        self.enabled = false;
    }
}

// Master control register bits.
pub const MCR_INRQ: u32 = 0;

pub const MCR_SLEEP: u32 = 1;

pub const MCR_TXFP: u32 = 2;

pub const MCR_RFLM: u32 = 3;

pub const MCR_NART: u32 = 4;

pub const MCR_AWUM: u32 = 5;

pub const MCR_ABOM: u32 = 6;

pub const MCR_TTCM: u32 = 7;

// Master status register bits.
pub const MSR_INAK: u32 = 0;

pub const MSR_SLAK: u32 = 1;

pub const MSR_WKUI: u32 = 3;

// Transmit status register bits.
pub const TSR_RQCP0: u32 = 0;

pub const TSR_TXOK0: u32 = 1;

pub const TSR_RQCP1: u32 = 8;

pub const TSR_TXOK1: u32 = 9;

pub const TSR_RQCP2: u32 = 16;

pub const TSR_TXOK2: u32 = 17;

pub const TSR_TME0: u32 = 26;

pub const TSR_TME1: u32 = 27;

pub const TSR_TME2: u32 = 28;

// Receive FIFO register bits (same layout in both FIFO registers).
pub const RFR_FMP: u32 = 0;

pub const RFR_FULL: u32 = 3;

pub const RFR_FOVR: u32 = 4;

pub const RFR_RFOM: u32 = 5;

// Interrupt enable register bits.
pub const IER_TMEIE: u32 = 0;

pub const IER_FMPIE0: u32 = 1;

pub const IER_FFIE0: u32 = 2;

pub const IER_FOVIE0: u32 = 3;

pub const IER_FMPIE1: u32 = 4;

pub const IER_FFIE1: u32 = 5;

pub const IER_FOVIE1: u32 = 6;

pub const IER_EWGIE: u32 = 8;

pub const IER_EPVIE: u32 = 9;

pub const IER_BOFIE: u32 = 10;

pub const IER_LECIE: u32 = 11;

pub const IER_ERRIE: u32 = 15;

pub const IER_WKUIE: u32 = 16;

pub const IER_SLKIE: u32 = 17;

// Bit timing register fields.
pub const BTR_BRP_OFFSET: u32 = 0;

pub const BTR_BRP_WIDTH: u32 = 10;

pub const BTR_TS1_OFFSET: u32 = 16;

pub const BTR_TS1_WIDTH: u32 = 4;

pub const BTR_TS2_OFFSET: u32 = 20;

pub const BTR_TS2_WIDTH: u32 = 3;

pub const BTR_SJW_OFFSET: u32 = 24;

pub const BTR_SJW_WIDTH: u32 = 2;

// Mailbox identifier register fields (transmit and receive alike).
pub const TIR_TXRQ: u32 = 0;

pub const TIR_RTR: u32 = 1;

pub const TIR_IDE: u32 = 2;

pub const TIR_EXID_OFFSET: u32 = 3;

pub const TIR_EXID_WIDTH: u32 = 18;

pub const TIR_STID_OFFSET: u32 = 21;

pub const TIR_STID_WIDTH: u32 = 11;

// Mailbox data length register field.
pub const TDTR_DLC_OFFSET: u32 = 0;

pub const TDTR_DLC_WIDTH: u32 = 4;

// Filter master register bit.
pub const FMR_FINIT: u32 = 0;

/// The controller driver: the register file, its clock, and the driver's
/// own bookkeeping. At most 28 receive filters exist; client
/// notifications are returned as values by the interrupt handlers.
pub struct Can {
    pub registers: Registers,
    pub clock: CanClock,
    pub can_state: CanState,
    pub error_interrupt_counter: u32,
    pub fifo0_interrupt_counter: u32,
    pub fifo1_interrupt_counter: u32,
    pub failed_messages: u32,
    pub automatic_retransmission: bool,
    pub automatic_wake_up: bool,
    pub operating_mode: Option<OperationMode>,
    pub bit_timing: Option<BitTiming>,
    pub rx_buffer: Option<Vec<u8>>,
    pub tx_buffer: Option<[u8; STANDARD_CAN_PACKET_SIZE]>,
}

impl Can {
    /// The register file keeps its mailbox and filter bank shape.
    pub open spec fn wf(&self) -> bool {
        self.registers.wf()
    }

    /// The driver's bookkeeping outside the register file, the clock and
    /// the lifecycle state: counters, flags, recorded configuration, and
    /// the two client buffers are all equal.
    pub open spec fn same_bookkeeping(pre: &Can, post: &Can) -> bool {
        &&& post.error_interrupt_counter == pre.error_interrupt_counter
        &&& post.fifo0_interrupt_counter == pre.fifo0_interrupt_counter
        &&& post.fifo1_interrupt_counter == pre.fifo1_interrupt_counter
        &&& post.failed_messages == pre.failed_messages
        &&& post.automatic_retransmission == pre.automatic_retransmission
        &&& post.automatic_wake_up == pre.automatic_wake_up
        &&& post.operating_mode == pre.operating_mode
        &&& post.bit_timing == pre.bit_timing
        &&& post.rx_buffer == pre.rx_buffer
        &&& post.tx_buffer == pre.tx_buffer
    }

    /// Create the driver around a register file and its peripheral clock.
    pub fn new(registers: Registers, clock: CanClock) -> (can: Can)
        requires
            registers.wf(),
        ensures
            can.wf(),
            can.registers == registers,
            can.clock == clock,
            can.can_state == CanState::Sleep,
            can.error_interrupt_counter == 0,
            can.fifo0_interrupt_counter == 0,
            can.fifo1_interrupt_counter == 0,
            can.failed_messages == 0,
            !can.automatic_retransmission,
            !can.automatic_wake_up,
            can.operating_mode is None,
            can.bit_timing is None,
            can.rx_buffer is None,
            can.tx_buffer is None,
    {
        Can {
            registers,
            clock,
            can_state: CanState::Sleep,
            error_interrupt_counter: 0,
            fifo0_interrupt_counter: 0,
            fifo1_interrupt_counter: 0,
            failed_messages: 0,
            automatic_retransmission: false,
            automatic_wake_up: false,
            operating_mode: None,
            bit_timing: None,
            rx_buffer: None,
            tx_buffer: None,
        }
    }

    /// Poll for a hardware acknowledge. The registers are plain data
    /// here, so the acknowledge either is already present or never
    /// comes, and a bounded spin on it reduces to one test.
    pub fn wait_for(ready: bool) -> (r: Result<(), ErrorCode>)
        ensures
            r is Ok <==> ready,
            !ready ==> r == Err::<(), ErrorCode>(ErrorCode::Fail),
    {
        if ready {
            Ok(())
        } else {
            Err(ErrorCode::Fail)
        }
    }

    pub fn is_enabled_clock(&self) -> (r: bool)
        ensures
            r == self.clock.enabled,
    {
        self.clock.is_enabled()
    }

    pub fn enable_clock(&mut self)
        ensures
            final(self).clock.enabled,
            final(self).registers == old(self).registers,
            final(self).can_state == old(self).can_state,
            Self::same_bookkeeping(old(self), final(self)),
    {
        self.clock.enable();
    }

    pub fn disable_clock(&mut self)
        ensures
            !final(self).clock.enabled,
            final(self).registers == old(self).registers,
            final(self).can_state == old(self).can_state,
            Self::same_bookkeeping(old(self), final(self)),
    {
        self.clock.disable();
    }

    /// Request sleep mode: set the sleep bit and record the state. The
    /// peripheral's sleep acknowledge is folded into the request: the
    /// model answers synchronously where the hardware answers within a
    /// bounded wait.
    pub fn enter_sleep_mode(&mut self)
        ensures
            final(self).can_state == CanState::Sleep,
            bit_set(final(self).registers.can_mcr, MCR_SLEEP),
            bit_set(final(self).registers.can_msr, MSR_SLAK),
            forall|k: u32|
                k < 32 && k != MCR_SLEEP ==> bit_set(final(self).registers.can_mcr, k) == bit_set(
                    old(self).registers.can_mcr,
                    k,
                ),
            forall|k: u32|
                k < 32 && k != MSR_SLAK ==> bit_set(final(self).registers.can_msr, k) == bit_set(
                    old(self).registers.can_msr,
                    k,
                ),
            final(self).registers == (Registers {
                can_mcr: final(self).registers.can_mcr,
                can_msr: final(self).registers.can_msr,
                ..old(self).registers
            }),
            final(self).clock == old(self).clock,
            Self::same_bookkeeping(old(self), final(self)),
    {
        self.registers.can_mcr = set_bit(self.registers.can_mcr, MCR_SLEEP);
        self.registers.can_msr = set_bit(self.registers.can_msr, MSR_SLAK);
        self.can_state = CanState::Sleep;
    }

    /// Leave sleep and request initialization mode, then configure the
    /// controller: communication flags and bit timing. The peripheral's
    /// acknowledges (`INAK` rising, `SLAK` falling) are folded into the
    /// requests, so the bounded waits on them always complete.
    /// With no bit timing configured the controller backs out into sleep
    /// mode.
    pub fn enable(&mut self) -> (r: Result<(), ErrorCode>)
        ensures
            final(self).registers.wf() == old(self).registers.wf(),
            final(self).bit_timing == old(self).bit_timing,
            final(self).clock == old(self).clock,
            final(self).tx_buffer == old(self).tx_buffer,
            final(self).rx_buffer == old(self).rx_buffer,
            bit_set(final(self).registers.can_mcr, MCR_INRQ),
            bit_set(final(self).registers.can_msr, MSR_INAK),
            old(self).bit_timing is None ==> r == Err::<(), ErrorCode>(ErrorCode::Inval)
                && final(self).can_state == CanState::Sleep && bit_set(
                final(self).registers.can_mcr,
                MCR_SLEEP,
            ),
            old(self).bit_timing matches Some(bt) ==> {
                &&& r is Ok
                &&& final(self).can_state == CanState::Initialization
                &&& !bit_set(final(self).registers.can_mcr, MCR_SLEEP)
                &&& !bit_set(final(self).registers.can_mcr, MCR_TTCM)
                &&& !bit_set(final(self).registers.can_mcr, MCR_ABOM)
                &&& !bit_set(final(self).registers.can_mcr, MCR_RFLM)
                &&& !bit_set(final(self).registers.can_mcr, MCR_TXFP)
                &&& bit_set(final(self).registers.can_mcr, MCR_AWUM) == old(self).automatic_retransmission
                &&& bit_set(final(self).registers.can_mcr, MCR_NART) == !old(self).automatic_wake_up
                &&& spec_get_bits(final(self).registers.can_btr, BTR_TS1_OFFSET, BTR_TS1_WIDTH)
                    == ((bt.segment1 as u32) & spec_field_mask(BTR_TS1_WIDTH))
                &&& spec_get_bits(final(self).registers.can_btr, BTR_TS2_OFFSET, BTR_TS2_WIDTH)
                    == ((bt.segment2 as u32) & spec_field_mask(BTR_TS2_WIDTH))
                &&& spec_get_bits(final(self).registers.can_btr, BTR_SJW_OFFSET, BTR_SJW_WIDTH)
                    == (bt.sync_jump_width & spec_field_mask(BTR_SJW_WIDTH))
                &&& spec_get_bits(final(self).registers.can_btr, BTR_BRP_OFFSET, BTR_BRP_WIDTH)
                    == (bt.baud_rate_prescaler & spec_field_mask(BTR_BRP_WIDTH))
            },
    {
        // leave sleep mode; the peripheral drops its sleep acknowledge
        self.registers.can_mcr = clear_bit(self.registers.can_mcr, MCR_SLEEP);
        self.registers.can_msr = clear_bit(self.registers.can_msr, MSR_SLAK);

        // request initialization; the peripheral raises its acknowledge
        self.registers.can_mcr = set_bit(self.registers.can_mcr, MCR_INRQ);
        self.registers.can_msr = set_bit(self.registers.can_msr, MSR_INAK);

        // wait for the hardware acknowledge (INAK set)
        proof {
            lemma_bit_get(self.registers.can_msr, MSR_INAK);
            lemma_bit_get(self.registers.can_msr, MSR_SLAK);
        }
        let inak = get_bits(self.registers.can_msr, MSR_INAK, 1) == 1;
        if let Err(inak_err) = Can::wait_for(inak) {
            return Err(inak_err);
        }
        self.can_state = CanState::Initialization;

        // wait for the sleep acknowledge to drop (SLAK clear)
        let slak = get_bits(self.registers.can_msr, MSR_SLAK, 1) == 1;
        if let Err(slak_err) = Can::wait_for(!slak) {
            return Err(slak_err);
        }
        // set communication mode
        self.registers.can_mcr = clear_bit(self.registers.can_mcr, MCR_TTCM);
        self.registers.can_mcr = clear_bit(self.registers.can_mcr, MCR_ABOM);
        self.registers.can_mcr = clear_bit(self.registers.can_mcr, MCR_RFLM);
        self.registers.can_mcr = clear_bit(self.registers.can_mcr, MCR_TXFP);
        if self.automatic_retransmission {
            self.registers.can_mcr = set_bit(self.registers.can_mcr, MCR_AWUM);
        } else {
            self.registers.can_mcr = clear_bit(self.registers.can_mcr, MCR_AWUM);
        }
        if self.automatic_wake_up {
            self.registers.can_mcr = clear_bit(self.registers.can_mcr, MCR_NART);
        } else {
            self.registers.can_mcr = set_bit(self.registers.can_mcr, MCR_NART);
        }
        // set bit timing
        match self.bit_timing {
            Some(bit_timing_settings) => {
                self.registers.can_btr = set_bits(
                    self.registers.can_btr,
                    BTR_TS1_OFFSET,
                    BTR_TS1_WIDTH,
                    bit_timing_settings.segment1 as u32,
                );
                self.registers.can_btr = set_bits(
                    self.registers.can_btr,
                    BTR_TS2_OFFSET,
                    BTR_TS2_WIDTH,
                    bit_timing_settings.segment2 as u32,
                );
                self.registers.can_btr = set_bits(
                    self.registers.can_btr,
                    BTR_SJW_OFFSET,
                    BTR_SJW_WIDTH,
                    bit_timing_settings.sync_jump_width,
                );
                self.registers.can_btr = set_bits(
                    self.registers.can_btr,
                    BTR_BRP_OFFSET,
                    BTR_BRP_WIDTH,
                    bit_timing_settings.baud_rate_prescaler,
                );
                Ok(())
            },
            None => {
                self.enter_sleep_mode();
                Err(ErrorCode::Inval)
            },
        }
    }

    /// Which transmit mailbox is free, searching in a fixed order.
    pub fn find_empty_mailbox(&self) -> (r: Option<usize>)
        ensures
            bit_set(self.registers.can_tsr, TSR_TME0) ==> r == Some(0usize),
            !bit_set(self.registers.can_tsr, TSR_TME0) && bit_set(
                self.registers.can_tsr,
                TSR_TME1,
            ) ==> r == Some(1usize),
            !bit_set(self.registers.can_tsr, TSR_TME0) && !bit_set(
                self.registers.can_tsr,
                TSR_TME1,
            ) && bit_set(self.registers.can_tsr, TSR_TME2) ==> r == Some(2usize),
            !bit_set(self.registers.can_tsr, TSR_TME0) && !bit_set(
                self.registers.can_tsr,
                TSR_TME1,
            ) && !bit_set(self.registers.can_tsr, TSR_TME2) ==> r is None,
            r matches Some(mb) ==> mb < 3,
    {
        proof {
            lemma_bit_get(self.registers.can_tsr, TSR_TME0);
            lemma_bit_get(self.registers.can_tsr, TSR_TME1);
            lemma_bit_get(self.registers.can_tsr, TSR_TME2);
        }
        if get_bits(self.registers.can_tsr, TSR_TME0, 1) == 1 {
            Some(0)
        } else if get_bits(self.registers.can_tsr, TSR_TME1, 1) == 1 {
            Some(1)
        } else if get_bits(self.registers.can_tsr, TSR_TME2, 1) == 1 {
            Some(2)
        } else {
            None
        }
    }

    /// Split two register words into eight bytes, least significant byte
    /// of the first word first.
    pub fn convert_u32_to_arr(&self, input1: u32, input2: u32) -> (r: [u8; 8])
        ensures
            r@[0] == (input1 & 0xff) as u8,
            r@[1] == ((input1 >> 8) & 0xff) as u8,
            r@[2] == ((input1 >> 16) & 0xff) as u8,
            r@[3] == ((input1 >> 24) & 0xff) as u8,
            r@[4] == (input2 & 0xff) as u8,
            r@[5] == ((input2 >> 8) & 0xff) as u8,
            r@[6] == ((input2 >> 16) & 0xff) as u8,
            r@[7] == ((input2 >> 24) & 0xff) as u8,
    {
        let b1: u8 = ((input1 >> 24) & 0xff) as u8;
        let b2: u8 = ((input1 >> 16) & 0xff) as u8;
        let b3: u8 = ((input1 >> 8) & 0xff) as u8;
        let b4: u8 = (input1 & 0xff) as u8;
        let b5: u8 = ((input2 >> 24) & 0xff) as u8;
        let b6: u8 = ((input2 >> 16) & 0xff) as u8;
        let b7: u8 = ((input2 >> 8) & 0xff) as u8;
        let b8: u8 = (input2 & 0xff) as u8;
        [b4, b3, b2, b1, b8, b7, b6, b5]
    }

    /// Switch one interrupt group on.
    pub fn enable_irq(&mut self, interrupt: CanInterruptMode)
        ensures
            final(self).registers == (Registers {
                can_ier: final(self).registers.can_ier,
                ..old(self).registers
            }),
            final(self).can_state == old(self).can_state,
            final(self).clock == old(self).clock,
            Self::same_bookkeeping(old(self), final(self)),
            interrupt == CanInterruptMode::TransmitInterrupt ==> bit_set(
                final(self).registers.can_ier,
                IER_TMEIE,
            ) && (forall|k: u32|
                k < 32 && k != IER_TMEIE ==> bit_set(final(self).registers.can_ier, k) == bit_set(
                    old(self).registers.can_ier,
                    k,
                )),
            interrupt == CanInterruptMode::Fifo0Interrupt ==> bit_set(
                final(self).registers.can_ier,
                IER_FMPIE0,
            ) && bit_set(final(self).registers.can_ier, IER_FFIE0) && bit_set(
                final(self).registers.can_ier,
                IER_FOVIE0,
            ) && (forall|k: u32|
                k < 32 && k != IER_FMPIE0 && k != IER_FFIE0 && k != IER_FOVIE0 ==> bit_set(
                    final(self).registers.can_ier,
                    k,
                ) == bit_set(old(self).registers.can_ier, k)),
            interrupt == CanInterruptMode::Fifo1Interrupt ==> bit_set(
                final(self).registers.can_ier,
                IER_FMPIE1,
            ) && bit_set(final(self).registers.can_ier, IER_FFIE1) && bit_set(
                final(self).registers.can_ier,
                IER_FOVIE1,
            ) && (forall|k: u32|
                k < 32 && k != IER_FMPIE1 && k != IER_FFIE1 && k != IER_FOVIE1 ==> bit_set(
                    final(self).registers.can_ier,
                    k,
                ) == bit_set(old(self).registers.can_ier, k)),
            interrupt == CanInterruptMode::ErrorAndStatusChangeInterrupt ==> bit_set(
                final(self).registers.can_ier,
                IER_ERRIE,
            ) && bit_set(final(self).registers.can_ier, IER_EWGIE) && bit_set(
                final(self).registers.can_ier,
                IER_EPVIE,
            ) && bit_set(final(self).registers.can_ier, IER_BOFIE) && bit_set(
                final(self).registers.can_ier,
                IER_LECIE,
            ) && bit_set(final(self).registers.can_ier, IER_WKUIE) && bit_set(
                final(self).registers.can_ier,
                IER_SLKIE,
            ) && (forall|k: u32|
                k < 32 && k != IER_ERRIE && k != IER_EWGIE && k != IER_EPVIE && k != IER_BOFIE
                    && k != IER_LECIE && k != IER_WKUIE && k != IER_SLKIE ==> bit_set(
                    final(self).registers.can_ier,
                    k,
                ) == bit_set(old(self).registers.can_ier, k)),
    {
        match interrupt {
            CanInterruptMode::TransmitInterrupt => {
                self.registers.can_ier = set_bit(self.registers.can_ier, IER_TMEIE);
            },
            CanInterruptMode::Fifo0Interrupt => {
                self.registers.can_ier = set_bit(self.registers.can_ier, IER_FMPIE0);
                self.registers.can_ier = set_bit(self.registers.can_ier, IER_FFIE0);
                self.registers.can_ier = set_bit(self.registers.can_ier, IER_FOVIE0);
            },
            CanInterruptMode::Fifo1Interrupt => {
                self.registers.can_ier = set_bit(self.registers.can_ier, IER_FMPIE1);
                self.registers.can_ier = set_bit(self.registers.can_ier, IER_FFIE1);
                self.registers.can_ier = set_bit(self.registers.can_ier, IER_FOVIE1);
            },
            CanInterruptMode::ErrorAndStatusChangeInterrupt => {
                self.registers.can_ier = set_bit(self.registers.can_ier, IER_ERRIE);
                self.registers.can_ier = set_bit(self.registers.can_ier, IER_EWGIE);
                self.registers.can_ier = set_bit(self.registers.can_ier, IER_EPVIE);
                self.registers.can_ier = set_bit(self.registers.can_ier, IER_BOFIE);
                self.registers.can_ier = set_bit(self.registers.can_ier, IER_LECIE);
                self.registers.can_ier = set_bit(self.registers.can_ier, IER_WKUIE);
                self.registers.can_ier = set_bit(self.registers.can_ier, IER_SLKIE);
            },
        }
    }

    /// Switch one interrupt group off.
    pub fn disable_irq(&mut self, interrupt: CanInterruptMode)
        ensures
            final(self).registers == (Registers {
                can_ier: final(self).registers.can_ier,
                ..old(self).registers
            }),
            final(self).can_state == old(self).can_state,
            final(self).clock == old(self).clock,
            Self::same_bookkeeping(old(self), final(self)),
            interrupt == CanInterruptMode::TransmitInterrupt ==> !bit_set(
                final(self).registers.can_ier,
                IER_TMEIE,
            ) && (forall|k: u32|
                k < 32 && k != IER_TMEIE ==> bit_set(final(self).registers.can_ier, k) == bit_set(
                    old(self).registers.can_ier,
                    k,
                )),
            interrupt == CanInterruptMode::Fifo0Interrupt ==> !bit_set(
                final(self).registers.can_ier,
                IER_FMPIE0,
            ) && !bit_set(final(self).registers.can_ier, IER_FFIE0) && !bit_set(
                final(self).registers.can_ier,
                IER_FOVIE0,
            ) && (forall|k: u32|
                k < 32 && k != IER_FMPIE0 && k != IER_FFIE0 && k != IER_FOVIE0 ==> bit_set(
                    final(self).registers.can_ier,
                    k,
                ) == bit_set(old(self).registers.can_ier, k)),
            interrupt == CanInterruptMode::Fifo1Interrupt ==> !bit_set(
                final(self).registers.can_ier,
                IER_FMPIE1,
            ) && !bit_set(final(self).registers.can_ier, IER_FFIE1) && !bit_set(
                final(self).registers.can_ier,
                IER_FOVIE1,
            ) && (forall|k: u32|
                k < 32 && k != IER_FMPIE1 && k != IER_FFIE1 && k != IER_FOVIE1 ==> bit_set(
                    final(self).registers.can_ier,
                    k,
                ) == bit_set(old(self).registers.can_ier, k)),
            interrupt == CanInterruptMode::ErrorAndStatusChangeInterrupt ==> !bit_set(
                final(self).registers.can_ier,
                IER_ERRIE,
            ) && !bit_set(final(self).registers.can_ier, IER_EWGIE) && !bit_set(
                final(self).registers.can_ier,
                IER_EPVIE,
            ) && !bit_set(final(self).registers.can_ier, IER_BOFIE) && !bit_set(
                final(self).registers.can_ier,
                IER_LECIE,
            ) && !bit_set(final(self).registers.can_ier, IER_WKUIE) && !bit_set(
                final(self).registers.can_ier,
                IER_SLKIE,
            ) && (forall|k: u32|
                k < 32 && k != IER_ERRIE && k != IER_EWGIE && k != IER_EPVIE && k != IER_BOFIE
                    && k != IER_LECIE && k != IER_WKUIE && k != IER_SLKIE ==> bit_set(
                    final(self).registers.can_ier,
                    k,
                ) == bit_set(old(self).registers.can_ier, k)),
    {
        match interrupt {
            CanInterruptMode::TransmitInterrupt => {
                self.registers.can_ier = clear_bit(self.registers.can_ier, IER_TMEIE);
            },
            CanInterruptMode::Fifo0Interrupt => {
                self.registers.can_ier = clear_bit(self.registers.can_ier, IER_FMPIE0);
                self.registers.can_ier = clear_bit(self.registers.can_ier, IER_FFIE0);
                self.registers.can_ier = clear_bit(self.registers.can_ier, IER_FOVIE0);
            },
            CanInterruptMode::Fifo1Interrupt => {
                self.registers.can_ier = clear_bit(self.registers.can_ier, IER_FMPIE1);
                self.registers.can_ier = clear_bit(self.registers.can_ier, IER_FFIE1);
                self.registers.can_ier = clear_bit(self.registers.can_ier, IER_FOVIE1);
            },
            CanInterruptMode::ErrorAndStatusChangeInterrupt => {
                self.registers.can_ier = clear_bit(self.registers.can_ier, IER_ERRIE);
                self.registers.can_ier = clear_bit(self.registers.can_ier, IER_EWGIE);
                self.registers.can_ier = clear_bit(self.registers.can_ier, IER_EPVIE);
                self.registers.can_ier = clear_bit(self.registers.can_ier, IER_BOFIE);
                self.registers.can_ier = clear_bit(self.registers.can_ier, IER_LECIE);
                self.registers.can_ier = clear_bit(self.registers.can_ier, IER_WKUIE);
                self.registers.can_ier = clear_bit(self.registers.can_ier, IER_SLKIE);
            },
        }
    }

    /// Switch every interrupt group on: all fourteen group bits are set
    /// and no other bit of the interrupt enable register moves.
    pub fn enable_irqs(&mut self)
        ensures
            final(self).can_state == old(self).can_state,
            final(self).clock == old(self).clock,
            Self::same_bookkeeping(old(self), final(self)),
            final(self).registers == (Registers {
                can_ier: final(self).registers.can_ier,
                ..old(self).registers
            }),
            bit_set(final(self).registers.can_ier, IER_TMEIE),
            bit_set(final(self).registers.can_ier, IER_FMPIE0),
            bit_set(final(self).registers.can_ier, IER_FFIE0),
            bit_set(final(self).registers.can_ier, IER_FOVIE0),
            bit_set(final(self).registers.can_ier, IER_FMPIE1),
            bit_set(final(self).registers.can_ier, IER_FFIE1),
            bit_set(final(self).registers.can_ier, IER_FOVIE1),
            bit_set(final(self).registers.can_ier, IER_ERRIE),
            bit_set(final(self).registers.can_ier, IER_EWGIE),
            bit_set(final(self).registers.can_ier, IER_EPVIE),
            bit_set(final(self).registers.can_ier, IER_BOFIE),
            bit_set(final(self).registers.can_ier, IER_LECIE),
            bit_set(final(self).registers.can_ier, IER_WKUIE),
            bit_set(final(self).registers.can_ier, IER_SLKIE),
            forall|k: u32|
                k < 32 && k != IER_TMEIE && k != IER_FMPIE0 && k != IER_FFIE0 && k != IER_FOVIE0
                    && k != IER_FMPIE1 && k != IER_FFIE1 && k != IER_FOVIE1 && k != IER_ERRIE && k
                    != IER_EWGIE && k != IER_EPVIE && k != IER_BOFIE && k != IER_LECIE && k
                    != IER_WKUIE && k != IER_SLKIE ==> bit_set(final(self).registers.can_ier, k)
                    == bit_set(old(self).registers.can_ier, k),
    {
        let ghost g0 = self.registers.can_ier;
        self.enable_irq(CanInterruptMode::TransmitInterrupt);
        let ghost g1 = self.registers.can_ier;
        self.enable_irq(CanInterruptMode::Fifo0Interrupt);
        let ghost g2 = self.registers.can_ier;
        proof {
            assert(bit_set(self.registers.can_ier, IER_TMEIE));
        }
        self.enable_irq(CanInterruptMode::Fifo1Interrupt);
        let ghost g3 = self.registers.can_ier;
        proof {
            assert(bit_set(self.registers.can_ier, IER_TMEIE));
            assert(bit_set(self.registers.can_ier, IER_FMPIE0));
            assert(bit_set(self.registers.can_ier, IER_FFIE0));
            assert(bit_set(self.registers.can_ier, IER_FOVIE0));
        }
        self.enable_irq(CanInterruptMode::ErrorAndStatusChangeInterrupt);
        proof {
            assert(bit_set(self.registers.can_ier, IER_TMEIE));
            assert(bit_set(self.registers.can_ier, IER_FMPIE0));
            assert(bit_set(self.registers.can_ier, IER_FFIE0));
            assert(bit_set(self.registers.can_ier, IER_FOVIE0));
            assert(bit_set(self.registers.can_ier, IER_FMPIE1));
            assert(bit_set(self.registers.can_ier, IER_FFIE1));
            assert(bit_set(self.registers.can_ier, IER_FOVIE1));
            assert forall|k: u32|
                k < 32 && k != IER_TMEIE && k != IER_FMPIE0 && k != IER_FFIE0 && k != IER_FOVIE0
                    && k != IER_FMPIE1 && k != IER_FFIE1 && k != IER_FOVIE1 && k != IER_ERRIE && k
                    != IER_EWGIE && k != IER_EPVIE && k != IER_BOFIE && k != IER_LECIE && k
                    != IER_WKUIE && k != IER_SLKIE implies bit_set(self.registers.can_ier, k)
                == bit_set(g0, k) by {
                assert(bit_set(g1, k) == bit_set(g0, k));
                assert(bit_set(g2, k) == bit_set(g1, k));
                assert(bit_set(g3, k) == bit_set(g2, k));
                assert(bit_set(self.registers.can_ier, k) == bit_set(g3, k));
            };
        }
    }

    /// Switch every interrupt group off: all fourteen group bits are
    /// cleared and no other bit of the interrupt enable register moves.
    pub fn disable_irqs(&mut self)
        ensures
            final(self).can_state == old(self).can_state,
            final(self).clock == old(self).clock,
            Self::same_bookkeeping(old(self), final(self)),
            final(self).registers == (Registers {
                can_ier: final(self).registers.can_ier,
                ..old(self).registers
            }),
            !bit_set(final(self).registers.can_ier, IER_TMEIE),
            !bit_set(final(self).registers.can_ier, IER_FMPIE0),
            !bit_set(final(self).registers.can_ier, IER_FFIE0),
            !bit_set(final(self).registers.can_ier, IER_FOVIE0),
            !bit_set(final(self).registers.can_ier, IER_FMPIE1),
            !bit_set(final(self).registers.can_ier, IER_FFIE1),
            !bit_set(final(self).registers.can_ier, IER_FOVIE1),
            !bit_set(final(self).registers.can_ier, IER_ERRIE),
            !bit_set(final(self).registers.can_ier, IER_EWGIE),
            !bit_set(final(self).registers.can_ier, IER_EPVIE),
            !bit_set(final(self).registers.can_ier, IER_BOFIE),
            !bit_set(final(self).registers.can_ier, IER_LECIE),
            !bit_set(final(self).registers.can_ier, IER_WKUIE),
            !bit_set(final(self).registers.can_ier, IER_SLKIE),
            forall|k: u32|
                k < 32 && k != IER_TMEIE && k != IER_FMPIE0 && k != IER_FFIE0 && k != IER_FOVIE0
                    && k != IER_FMPIE1 && k != IER_FFIE1 && k != IER_FOVIE1 && k != IER_ERRIE && k
                    != IER_EWGIE && k != IER_EPVIE && k != IER_BOFIE && k != IER_LECIE && k
                    != IER_WKUIE && k != IER_SLKIE ==> bit_set(final(self).registers.can_ier, k)
                    == bit_set(old(self).registers.can_ier, k),
    {
        let ghost g0 = self.registers.can_ier;
        self.disable_irq(CanInterruptMode::TransmitInterrupt);
        let ghost g1 = self.registers.can_ier;
        self.disable_irq(CanInterruptMode::Fifo0Interrupt);
        let ghost g2 = self.registers.can_ier;
        proof {
            assert(!bit_set(self.registers.can_ier, IER_TMEIE));
        }
        self.disable_irq(CanInterruptMode::Fifo1Interrupt);
        let ghost g3 = self.registers.can_ier;
        proof {
            assert(!bit_set(self.registers.can_ier, IER_TMEIE));
            assert(!bit_set(self.registers.can_ier, IER_FMPIE0));
            assert(!bit_set(self.registers.can_ier, IER_FFIE0));
            assert(!bit_set(self.registers.can_ier, IER_FOVIE0));
        }
        self.disable_irq(CanInterruptMode::ErrorAndStatusChangeInterrupt);
        proof {
            assert(!bit_set(self.registers.can_ier, IER_TMEIE));
            assert(!bit_set(self.registers.can_ier, IER_FMPIE0));
            assert(!bit_set(self.registers.can_ier, IER_FFIE0));
            assert(!bit_set(self.registers.can_ier, IER_FOVIE0));
            assert(!bit_set(self.registers.can_ier, IER_FMPIE1));
            assert(!bit_set(self.registers.can_ier, IER_FFIE1));
            assert(!bit_set(self.registers.can_ier, IER_FOVIE1));
            assert forall|k: u32|
                k < 32 && k != IER_TMEIE && k != IER_FMPIE0 && k != IER_FFIE0 && k != IER_FOVIE0
                    && k != IER_FMPIE1 && k != IER_FFIE1 && k != IER_FOVIE1 && k != IER_ERRIE && k
                    != IER_EWGIE && k != IER_EPVIE && k != IER_BOFIE && k != IER_LECIE && k
                    != IER_WKUIE && k != IER_SLKIE implies bit_set(self.registers.can_ier, k)
                == bit_set(g0, k) by {
                assert(bit_set(g1, k) == bit_set(g0, k));
                assert(bit_set(g2, k) == bit_set(g1, k));
                assert(bit_set(g3, k) == bit_set(g2, k));
                assert(bit_set(self.registers.can_ier, k) == bit_set(g3, k));
            };
        }
    }

    /// Request normal mode. The peripheral's acknowledge (`INAK`
    /// falling) is folded into the request.
    pub fn enter_normal_mode(&mut self) -> (r: Result<(), ErrorCode>)
        ensures
            r is Ok,
            final(self).can_state == CanState::Normal,
            !bit_set(final(self).registers.can_mcr, MCR_INRQ),
            !bit_set(final(self).registers.can_msr, MSR_INAK),
            forall|k: u32|
                k < 32 && k != MCR_INRQ ==> bit_set(final(self).registers.can_mcr, k) == bit_set(
                    old(self).registers.can_mcr,
                    k,
                ),
            final(self).registers == (Registers {
                can_mcr: final(self).registers.can_mcr,
                can_msr: final(self).registers.can_msr,
                ..old(self).registers
            }),
            final(self).bit_timing == old(self).bit_timing,
            final(self).operating_mode == old(self).operating_mode,
            final(self).tx_buffer == old(self).tx_buffer,
            final(self).rx_buffer == old(self).rx_buffer,
    {
        // request normal mode by clearing INRQ; the acknowledge drops
        self.registers.can_mcr = clear_bit(self.registers.can_mcr, MCR_INRQ);
        self.registers.can_msr = clear_bit(self.registers.can_msr, MSR_INAK);
        proof {
            lemma_bit_get(self.registers.can_msr, MSR_INAK);
        }
        let inak = get_bits(self.registers.can_msr, MSR_INAK, 1) == 1;
        if let Err(inak_err) = Can::wait_for(!inak) {
            return Err(inak_err);
        }
        self.can_state = CanState::Normal;
        Ok(())
    }

    /// Activate the filter configuration written by `config_filter`.
    pub fn enable_filter_config(&mut self)
        ensures
            !bit_set(final(self).registers.can_fmr, FMR_FINIT),
            forall|k: u32|
                k < 32 && k != FMR_FINIT ==> bit_set(final(self).registers.can_fmr, k) == bit_set(
                    old(self).registers.can_fmr,
                    k,
                ),
            final(self).registers == (Registers {
                can_fmr: final(self).registers.can_fmr,
                ..old(self).registers
            }),
            final(self).can_state == old(self).can_state,
            final(self).clock == old(self).clock,
            Self::same_bookkeeping(old(self), final(self)),
    {
        self.registers.can_fmr = clear_bit(self.registers.can_fmr, FMR_FINIT);
    }

    /// Configure one of the 28 receive filters: its width, matching
    /// mode, FIFO assignment and activation, and zero its two bank
    /// words. Leaves the filter configuration in its initialization
    /// phase; `enable_filter_config` activates it.
    pub fn config_filter(&mut self, filter_info: FilterParameters, enable: bool)
        requires
            old(self).wf(),
            filter_info.number < 28,
        ensures
            final(self).wf(),
            final(self).can_state == old(self).can_state,
            final(self).clock == old(self).clock,
            Self::same_bookkeeping(old(self), final(self)),
            bit_set(final(self).registers.can_fmr, FMR_FINIT),
            bit_set(final(self).registers.can_fa1r, filter_info.number) == enable,
            bit_set(final(self).registers.can_fs1r, filter_info.number) == (filter_info.scale_bits
                == ScaleBits::Bits16),
            bit_set(final(self).registers.can_fm1r, filter_info.number) == (
            filter_info.identifier_mode == IdentifierMode::List),
            bit_set(final(self).registers.can_ffa1r, filter_info.number) == (
            filter_info.fifo_number != 0),
            final(self).registers.can_firx@[2 * filter_info.number as int] == 0u32,
            final(self).registers.can_firx@[2 * filter_info.number as int + 1] == 0u32,
            forall|k: u32|
                k < 32 && k != filter_info.number ==> bit_set(final(self).registers.can_fa1r, k)
                    == bit_set(old(self).registers.can_fa1r, k),
            forall|k: u32|
                k < 32 && k != filter_info.number ==> bit_set(final(self).registers.can_fs1r, k)
                    == bit_set(old(self).registers.can_fs1r, k),
            forall|k: u32|
                k < 32 && k != filter_info.number ==> bit_set(final(self).registers.can_fm1r, k)
                    == bit_set(old(self).registers.can_fm1r, k),
            forall|k: u32|
                k < 32 && k != filter_info.number ==> bit_set(final(self).registers.can_ffa1r, k)
                    == bit_set(old(self).registers.can_ffa1r, k),
            forall|j: int|
                0 <= j < 56 && j != 2 * filter_info.number as int && j != 2
                    * filter_info.number as int + 1 ==> final(self).registers.can_firx@[j] == old(self).registers.can_firx@[j],
            final(self).registers.can_mcr == old(self).registers.can_mcr,
            final(self).registers.can_ier == old(self).registers.can_ier,
            final(self).registers.can_tsr == old(self).registers.can_tsr,
            final(self).registers.can_tx_mailbox == old(self).registers.can_tx_mailbox,
            final(self).registers.can_rx_mailbox == old(self).registers.can_rx_mailbox,
    {
        let n: u32 = filter_info.number;
        // start the filter configuration phase
        self.registers.can_fmr = set_bit(self.registers.can_fmr, FMR_FINIT);
        // deactivate the filter while it is being reconfigured
        self.registers.can_fa1r = clear_bit(self.registers.can_fa1r, n);
        // filter width
        match filter_info.scale_bits {
            ScaleBits::Bits16 => {
                self.registers.can_fs1r = set_bit(self.registers.can_fs1r, n);
            },
            ScaleBits::Bits32 => {
                self.registers.can_fs1r = clear_bit(self.registers.can_fs1r, n);
            },
        }
        // clear the filter's two bank words
        let idx: usize = 2 * (n as usize);
        self.registers.can_firx[idx] = 0;
        self.registers.can_firx[idx + 1] = 0;
        // matching mode
        match filter_info.identifier_mode {
            IdentifierMode::List => {
                self.registers.can_fm1r = set_bit(self.registers.can_fm1r, n);
            },
            IdentifierMode::Mask => {
                self.registers.can_fm1r = clear_bit(self.registers.can_fm1r, n);
            },
        }
        // FIFO assignment
        if filter_info.fifo_number == 0 {
            self.registers.can_ffa1r = clear_bit(self.registers.can_ffa1r, n);
        } else {
            self.registers.can_ffa1r = set_bit(self.registers.can_ffa1r, n);
        }
        // activation
        if enable {
            self.registers.can_fa1r = set_bit(self.registers.can_fa1r, n);
        } else {
            self.registers.can_fa1r = clear_bit(self.registers.can_fa1r, n);
        }
    }
}

/// Which transmit mailbox a send would pick, from the empty flags.
pub open spec fn spec_empty_mailbox(tsr: u32) -> Option<int> {
    if bit_set(tsr, TSR_TME0) {
        Some(0int)
    } else if bit_set(tsr, TSR_TME1) {
        Some(1int)
    } else if bit_set(tsr, TSR_TME2) {
        Some(2int)
    } else {
        None
    }
}

impl Can {
    /// Load an eight-byte frame into an empty transmit mailbox and
    /// request its transmission. Fails `Off` outside normal mode, `Busy`
    /// (counting the lost message) when no mailbox is empty, and `Fail`
    /// when no transmit buffer was supplied.
    pub fn send_8byte_message(&mut self, id: Id, dlc: usize, rtr: u8) -> (r: Result<(), ErrorCode>)
        requires
            old(self).wf(),
        ensures
            final(self).wf(),
            final(self).can_state == old(self).can_state,
            final(self).tx_buffer == old(self).tx_buffer,
            final(self).rx_buffer == old(self).rx_buffer,
            bit_set(final(self).registers.can_ier, IER_ERRIE),
            old(self).can_state != CanState::Normal ==> r == Err::<(), ErrorCode>(ErrorCode::Off)
                && final(self).registers.can_tx_mailbox == old(self).registers.can_tx_mailbox
                && final(self).failed_messages == old(self).failed_messages,
            old(self).can_state == CanState::Normal && spec_empty_mailbox(
                old(self).registers.can_tsr,
            ) is None ==> r == Err::<(), ErrorCode>(ErrorCode::Busy) && final(self).failed_messages
                == vstd::wrapping::u32_specs::wrapping_add(old(self).failed_messages, 1) && final(self).registers.can_tx_mailbox == old(self).registers.can_tx_mailbox,
            old(self).can_state == CanState::Normal && spec_empty_mailbox(
                old(self).registers.can_tsr,
            ) is Some ==> {
                let mb = spec_empty_mailbox(old(self).registers.can_tsr)->0;
                &&& old(self).tx_buffer is None ==> r == Err::<(), ErrorCode>(ErrorCode::Fail)
                &&& old(self).tx_buffer matches Some(tx) ==> {
                    let mbx = final(self).registers.can_tx_mailbox@[mb];
                    &&& r is Ok
                    &&& bit_set(mbx.can_tir, TIR_TXRQ)
                    &&& spec_get_bits(mbx.can_tdtr, TDTR_DLC_OFFSET, TDTR_DLC_WIDTH) == ((
                    dlc as u32) & spec_field_mask(TDTR_DLC_WIDTH))
                    &&& spec_get_bits(mbx.can_tir, TIR_RTR, 1) == ((rtr as u32) & 1)
                    &&& id matches Id::Standard(sid) ==> spec_get_bits(mbx.can_tir, TIR_IDE, 1)
                        == 0 && spec_get_bits(mbx.can_tir, TIR_STID_OFFSET, TIR_STID_WIDTH) == (((
                    sid as u32) & 0xeff) & spec_field_mask(TIR_STID_WIDTH)) && spec_get_bits(
                        mbx.can_tir,
                        TIR_EXID_OFFSET,
                        TIR_EXID_WIDTH,
                    ) == 0
                    &&& id matches Id::Extended(eid) ==> spec_get_bits(mbx.can_tir, TIR_IDE, 1)
                        == 1 && spec_get_bits(mbx.can_tir, TIR_STID_OFFSET, TIR_STID_WIDTH) == (((
                    eid & 0xffc0000) >> 18) & spec_field_mask(TIR_STID_WIDTH)) && spec_get_bits(
                        mbx.can_tir,
                        TIR_EXID_OFFSET,
                        TIR_EXID_WIDTH,
                    ) == ((eid & 0x003fffff) & spec_field_mask(TIR_EXID_WIDTH))
                    &&& spec_get_bits(mbx.can_tdlr, 0, 8) == ((tx@[0] as u32) & 0xff)
                    &&& spec_get_bits(mbx.can_tdlr, 8, 8) == ((tx@[1] as u32) & 0xff)
                    &&& spec_get_bits(mbx.can_tdlr, 16, 8) == ((tx@[2] as u32) & 0xff)
                    &&& spec_get_bits(mbx.can_tdlr, 24, 8) == ((tx@[3] as u32) & 0xff)
                    &&& spec_get_bits(mbx.can_tdhr, 0, 8) == ((tx@[4] as u32) & 0xff)
                    &&& spec_get_bits(mbx.can_tdhr, 8, 8) == ((tx@[5] as u32) & 0xff)
                    &&& spec_get_bits(mbx.can_tdhr, 16, 8) == ((tx@[6] as u32) & 0xff)
                    &&& spec_get_bits(mbx.can_tdhr, 24, 8) == ((tx@[7] as u32) & 0xff)
                    &&& forall|j: int|
                        0 <= j < 3 && j != mb ==> final(self).registers.can_tx_mailbox@[j] == old(self).registers.can_tx_mailbox@[j]
                }
            },
    {
        self.enable_irq(CanInterruptMode::ErrorAndStatusChangeInterrupt);
        if !(self.can_state == CanState::Normal) {
            return Err(ErrorCode::Off);
        }
        let tx_mailbox = match self.find_empty_mailbox() {
            Some(mb) => mb,
            None => {
                // no mailbox empty: the message is lost
                self.failed_messages = self.failed_messages.wrapping_add(1);
                return Err(ErrorCode::Busy);
            },
        };
        let tx = self.tx_buffer;
        proof {
            assert(spec_field_mask(1) == 1 && spec_field_mask(8) == 0xff) by {
                assert((1u32 << 1u32) - 1 == 1) by (bit_vector);
                assert((1u32 << 8u32) - 1 == 0xff) by (bit_vector);
            };
            let m18: u32 = spec_field_mask(TIR_EXID_WIDTH);
            assert(0u32 & m18 == 0) by (bit_vector);
        }
        {
            let mbx = &mut self.registers.can_tx_mailbox[tx_mailbox];
            // set standard or extended identifier
            match id {
                Id::Standard(sid) => {
                    mbx.can_tir = clear_bit(mbx.can_tir, TIR_IDE);
                    mbx.can_tir = set_bits(
                        mbx.can_tir,
                        TIR_STID_OFFSET,
                        TIR_STID_WIDTH,
                        (sid as u32) & 0xeff,
                    );
                    mbx.can_tir = set_bits(mbx.can_tir, TIR_EXID_OFFSET, TIR_EXID_WIDTH, 0);
                },
                Id::Extended(eid) => {
                    mbx.can_tir = set_bit(mbx.can_tir, TIR_IDE);
                    mbx.can_tir = set_bits(
                        mbx.can_tir,
                        TIR_STID_OFFSET,
                        TIR_STID_WIDTH,
                        (eid & 0xffc0000) >> 18,
                    );
                    mbx.can_tir = set_bits(
                        mbx.can_tir,
                        TIR_EXID_OFFSET,
                        TIR_EXID_WIDTH,
                        eid & 0x003fffff,
                    );
                },
            }
            // write the remote transmission request and the data length
            mbx.can_tir = set_bits(mbx.can_tir, TIR_RTR, 1, rtr as u32);
            mbx.can_tdtr = set_bits(mbx.can_tdtr, TDTR_DLC_OFFSET, TDTR_DLC_WIDTH, dlc as u32);
            match tx {
                Some(tx) => {
                    // write the eight data bytes and request transmission
                    mbx.can_tdlr = set_bits(mbx.can_tdlr, 0, 8, tx[0] as u32);
                    mbx.can_tdlr = set_bits(mbx.can_tdlr, 8, 8, tx[1] as u32);
                    mbx.can_tdlr = set_bits(mbx.can_tdlr, 16, 8, tx[2] as u32);
                    mbx.can_tdlr = set_bits(mbx.can_tdlr, 24, 8, tx[3] as u32);
                    mbx.can_tdhr = set_bits(mbx.can_tdhr, 0, 8, tx[4] as u32);
                    mbx.can_tdhr = set_bits(mbx.can_tdhr, 8, 8, tx[5] as u32);
                    mbx.can_tdhr = set_bits(mbx.can_tdhr, 16, 8, tx[6] as u32);
                    mbx.can_tdhr = set_bits(mbx.can_tdhr, 24, 8, tx[7] as u32);
                    mbx.can_tir = set_bit(mbx.can_tir, TIR_TXRQ);
                    Ok(())
                },
                None => Err(ErrorCode::Fail),
            }
        }
    }

    /// Transmission completed: notifications are returned by
    /// `handle_transmit_interrupt` instead of being scheduled here.
    pub fn send_transmit_callback(&self) {
    }

    /// Acknowledge completed transmissions and hand the transmit buffer
    /// back for the client.
    pub fn handle_transmit_interrupt(&mut self) -> (tx: Option<[u8; 8]>)
        requires
            old(self).wf(),
        ensures
            final(self).wf(),
            tx == old(self).tx_buffer,
            final(self).tx_buffer is None,
            final(self).can_state == old(self).can_state,
            final(self).clock == old(self).clock,
            final(self).rx_buffer == old(self).rx_buffer,
            final(self).registers == (Registers {
                can_tsr: final(self).registers.can_tsr,
                ..old(self).registers
            }),
            // each mailbox whose request completed successfully is
            // acknowledged; the other status bits are untouched
            bit_set(old(self).registers.can_tsr, TSR_RQCP0) && bit_set(
                old(self).registers.can_tsr,
                TSR_TXOK0,
            ) ==> bit_set(final(self).registers.can_tsr, TSR_RQCP0),
            !(bit_set(old(self).registers.can_tsr, TSR_RQCP0) && bit_set(
                old(self).registers.can_tsr,
                TSR_TXOK0,
            )) ==> bit_set(final(self).registers.can_tsr, TSR_RQCP0) == bit_set(
                old(self).registers.can_tsr,
                TSR_RQCP0,
            ),
            bit_set(old(self).registers.can_tsr, TSR_RQCP1) && bit_set(
                old(self).registers.can_tsr,
                TSR_TXOK1,
            ) ==> bit_set(final(self).registers.can_tsr, TSR_RQCP1),
            !(bit_set(old(self).registers.can_tsr, TSR_RQCP1) && bit_set(
                old(self).registers.can_tsr,
                TSR_TXOK1,
            )) ==> bit_set(final(self).registers.can_tsr, TSR_RQCP1) == bit_set(
                old(self).registers.can_tsr,
                TSR_RQCP1,
            ),
            bit_set(old(self).registers.can_tsr, TSR_RQCP2) && bit_set(
                old(self).registers.can_tsr,
                TSR_TXOK2,
            ) ==> bit_set(final(self).registers.can_tsr, TSR_RQCP2),
            !(bit_set(old(self).registers.can_tsr, TSR_RQCP2) && bit_set(
                old(self).registers.can_tsr,
                TSR_TXOK2,
            )) ==> bit_set(final(self).registers.can_tsr, TSR_RQCP2) == bit_set(
                old(self).registers.can_tsr,
                TSR_RQCP2,
            ),
            forall|k: u32|
                k < 32 && k != TSR_RQCP0 && k != TSR_RQCP1 && k != TSR_RQCP2 ==> bit_set(
                    final(self).registers.can_tsr,
                    k,
                ) == bit_set(old(self).registers.can_tsr, k),
    {
        proof {
            lemma_bit_get(self.registers.can_tsr, TSR_RQCP0);
            lemma_bit_get(self.registers.can_tsr, TSR_TXOK0);
            lemma_bit_get(self.registers.can_tsr, TSR_RQCP1);
            lemma_bit_get(self.registers.can_tsr, TSR_TXOK1);
            lemma_bit_get(self.registers.can_tsr, TSR_RQCP2);
            lemma_bit_get(self.registers.can_tsr, TSR_TXOK2);
        }
        // check the mailboxes whose request completed successfully and
        // mark the interrupt as handled
        let mailbox0_status = get_bits(self.registers.can_tsr, TSR_RQCP0, 1);
        if mailbox0_status == 1 {
            let transmit_status = get_bits(self.registers.can_tsr, TSR_TXOK0, 1);
            if transmit_status == 1 {
                self.registers.can_tsr = set_bit(self.registers.can_tsr, TSR_RQCP0);
            }
        }
        let mailbox1_status = get_bits(self.registers.can_tsr, TSR_RQCP1, 1);
        if mailbox1_status == 1 {
            let transmit_status = get_bits(self.registers.can_tsr, TSR_TXOK1, 1);
            if transmit_status == 1 {
                self.registers.can_tsr = set_bit(self.registers.can_tsr, TSR_RQCP1);
            }
        }
        let mailbox2_status = get_bits(self.registers.can_tsr, TSR_RQCP2, 1);
        if mailbox2_status == 1 {
            let transmit_status = get_bits(self.registers.can_tsr, TSR_TXOK2, 1);
            if transmit_status == 1 {
                self.registers.can_tsr = set_bit(self.registers.can_tsr, TSR_RQCP2);
            }
        }
        // hand the buffer back to the transmit client
        self.tx_buffer.take()
    }

    /// A frame arrived in receive FIFO 0: acknowledge the FIFO flags,
    /// read the frame out of the mailbox, copy it into the receive
    /// buffer, and hand the frame to the receive client.
    pub fn handle_fifo0_interrupt(&mut self) -> (msg: Option<CanMessage>)
        requires
            old(self).wf(),
        ensures
            final(self).wf(),
            final(self).can_state == old(self).can_state,
            final(self).clock == old(self).clock,
            final(self).tx_buffer == old(self).tx_buffer,
            // only this FIFO's register changes; the mailboxes are read,
            // never written
            final(self).registers == (Registers {
                can_rf0r: final(self).registers.can_rf0r,
                ..old(self).registers
            }),
            // the full and overrun conditions are acknowledged exactly
            // when flagged; every other bit of the FIFO register keeps
            // its value, but for the release below
            bit_set(old(self).registers.can_rf0r, RFR_FULL) ==> bit_set(
                final(self).registers.can_rf0r,
                RFR_FULL,
            ),
            !bit_set(old(self).registers.can_rf0r, RFR_FULL) ==> bit_set(
                final(self).registers.can_rf0r,
                RFR_FULL,
            ) == bit_set(old(self).registers.can_rf0r, RFR_FULL),
            bit_set(old(self).registers.can_rf0r, RFR_FOVR) ==> bit_set(
                final(self).registers.can_rf0r,
                RFR_FOVR,
            ),
            !bit_set(old(self).registers.can_rf0r, RFR_FOVR) ==> bit_set(
                final(self).registers.can_rf0r,
                RFR_FOVR,
            ) == bit_set(old(self).registers.can_rf0r, RFR_FOVR),
            forall|k: u32|
                k < 32 && k != RFR_FULL && k != RFR_FOVR && k != RFR_RFOM ==> bit_set(
                    final(self).registers.can_rf0r,
                    k,
                ) == bit_set(old(self).registers.can_rf0r, k),
            spec_get_bits(old(self).registers.can_rf0r, RFR_FMP, 2) == 0 ==> msg is None && final(self).rx_buffer == old(self).rx_buffer && final(self).fifo0_interrupt_counter == old(self).fifo0_interrupt_counter && bit_set(final(self).registers.can_rf0r, RFR_RFOM) == bit_set(
                old(self).registers.can_rf0r,
                RFR_RFOM,
            ),
            spec_get_bits(old(self).registers.can_rf0r, RFR_FMP, 2) != 0 ==> {
                let rir = old(self).registers.can_rx_mailbox@[0].can_rir;
                let stid = spec_get_bits(rir, TIR_STID_OFFSET, TIR_STID_WIDTH);
                let exid = spec_get_bits(rir, TIR_EXID_OFFSET, TIR_EXID_WIDTH);
                &&& msg matches Some(m) && {
                    &&& spec_get_bits(rir, TIR_IDE, 1) == 0 ==> m.id == Id::Standard(stid as u16)
                    &&& spec_get_bits(rir, TIR_IDE, 1) != 0 ==> m.id == Id::Extended(
                        (stid << 18) | exid,
                    )
                    &&& m.length == spec_get_bits(
                        old(self).registers.can_rx_mailbox@[0].can_rdtr,
                        TDTR_DLC_OFFSET,
                        TDTR_DLC_WIDTH,
                    ) as usize
                    &&& {
                        let rdlr = old(self).registers.can_rx_mailbox@[0].can_rdlr;
                        let rdhr = old(self).registers.can_rx_mailbox@[0].can_rdhr;
                        &&& m.data@[0] == (rdlr & 0xff) as u8
                        &&& m.data@[1] == ((rdlr >> 8) & 0xff) as u8
                        &&& m.data@[2] == ((rdlr >> 16) & 0xff) as u8
                        &&& m.data@[3] == ((rdlr >> 24) & 0xff) as u8
                        &&& m.data@[4] == (rdhr & 0xff) as u8
                        &&& m.data@[5] == ((rdhr >> 8) & 0xff) as u8
                        &&& m.data@[6] == ((rdhr >> 16) & 0xff) as u8
                        &&& m.data@[7] == ((rdhr >> 24) & 0xff) as u8
                    }
                    // the frame is mirrored into the receive buffer, as
                    // far as it fits; bytes past the frame are untouched
                    &&& old(self).rx_buffer is None ==> final(self).rx_buffer is None
                    &&& old(self).rx_buffer matches Some(rx) ==> final(self).rx_buffer matches Some(
                        rx2,
                    ) && rx2@.len() == rx@.len() && (forall|j: int|
                        0 <= j < rx@.len() && j < 8 ==> rx2@[j] == m.data@[j]) && (forall|j: int|
                        8 <= j < rx@.len() ==> rx2@[j] == rx@[j])
                }
                &&& bit_set(final(self).registers.can_rf0r, RFR_RFOM)
                &&& final(self).fifo0_interrupt_counter == vstd::wrapping::u32_specs::wrapping_add(
                    old(self).fifo0_interrupt_counter,
                    1,
                )
            },
    {
        proof {
            lemma_bit_get(self.registers.can_rf0r, RFR_FULL);
            lemma_bit_get(self.registers.can_rf0r, RFR_FOVR);
        }
        let new_message_reception_status = get_bits(self.registers.can_rf0r, RFR_FMP, 2);
        let full_condition_status = get_bits(self.registers.can_rf0r, RFR_FULL, 1);
        let overrun_condition_status = get_bits(self.registers.can_rf0r, RFR_FOVR, 1);
        if full_condition_status == 1 {
            // acknowledge the full-FIFO condition
            self.registers.can_rf0r = set_bit(self.registers.can_rf0r, RFR_FULL);
        }
        if overrun_condition_status == 1 {
            // acknowledge the overrun condition
            self.registers.can_rf0r = set_bit(self.registers.can_rf0r, RFR_FOVR);
        }
        if new_message_reception_status != 0 {
            let (rir, rdtr, rdlr, rdhr): (u32, u32, u32, u32) = {
                let mbx = &self.registers.can_rx_mailbox[0];
                (mbx.can_rir, mbx.can_rdtr, mbx.can_rdlr, mbx.can_rdhr)
            };
            let message_id = if get_bits(rir, TIR_IDE, 1) == 0 {
                Id::Standard(get_bits(rir, TIR_STID_OFFSET, TIR_STID_WIDTH) as u16)
            } else {
                Id::Extended(
                    (get_bits(rir, TIR_STID_OFFSET, TIR_STID_WIDTH) << 18) | get_bits(
                        rir,
                        TIR_EXID_OFFSET,
                        TIR_EXID_WIDTH,
                    ),
                )
            };
            let message_length = get_bits(rdtr, TDTR_DLC_OFFSET, TDTR_DLC_WIDTH) as usize;
            let rx_buf = self.convert_u32_to_arr(rdlr, rdhr);
            // mirror the frame into the registered receive buffer; a
            // buffer shorter than a frame takes what fits
            match &mut self.rx_buffer {
                Some(rx) => {
                    let ghost rx0 = rx@;
                    let n: usize = if rx.len() < 8 {
                        rx.len()
                    } else {
                        8
                    };
                    let mut i: usize = 0;
                    while i < n
                        invariant
                            i <= n,
                            n <= rx@.len(),
                            n <= 8,
                            n == (if rx0.len() < 8 {
                                rx0.len() as int
                            } else {
                                8int
                            }),
                            rx@.len() == rx0.len(),
                            forall|j: int| 0 <= j < i ==> rx@[j] == rx_buf@[j],
                            forall|j: int| i <= j < rx0.len() ==> rx@[j] == rx0[j],
                        decreases n - i,
                    {
                        let b: u8 = rx_buf[i];
                        rx[i] = b;
                        i = i + 1;
                    }
                },
                None => {},
            }
            self.fifo0_interrupt_counter = self.fifo0_interrupt_counter.wrapping_add(1);
            // mark the interrupt as handled
            self.registers.can_rf0r = set_bit(self.registers.can_rf0r, RFR_RFOM);
            Some(CanMessage { id: message_id, data: rx_buf, length: message_length })
        } else {
            None
        }
    }

    /// A frame arrived in receive FIFO 1; as for FIFO 0.
    pub fn handle_fifo1_interrupt(&mut self) -> (msg: Option<CanMessage>)
        requires
            old(self).wf(),
        ensures
            final(self).wf(),
            final(self).can_state == old(self).can_state,
            final(self).clock == old(self).clock,
            final(self).tx_buffer == old(self).tx_buffer,
            // only this FIFO's register changes; the mailboxes are read,
            // never written
            final(self).registers == (Registers {
                can_rf1r: final(self).registers.can_rf1r,
                ..old(self).registers
            }),
            // the full and overrun conditions are acknowledged exactly
            // when flagged; every other bit of the FIFO register keeps
            // its value, but for the release below
            bit_set(old(self).registers.can_rf1r, RFR_FULL) ==> bit_set(
                final(self).registers.can_rf1r,
                RFR_FULL,
            ),
            !bit_set(old(self).registers.can_rf1r, RFR_FULL) ==> bit_set(
                final(self).registers.can_rf1r,
                RFR_FULL,
            ) == bit_set(old(self).registers.can_rf1r, RFR_FULL),
            bit_set(old(self).registers.can_rf1r, RFR_FOVR) ==> bit_set(
                final(self).registers.can_rf1r,
                RFR_FOVR,
            ),
            !bit_set(old(self).registers.can_rf1r, RFR_FOVR) ==> bit_set(
                final(self).registers.can_rf1r,
                RFR_FOVR,
            ) == bit_set(old(self).registers.can_rf1r, RFR_FOVR),
            forall|k: u32|
                k < 32 && k != RFR_FULL && k != RFR_FOVR && k != RFR_RFOM ==> bit_set(
                    final(self).registers.can_rf1r,
                    k,
                ) == bit_set(old(self).registers.can_rf1r, k),
            spec_get_bits(old(self).registers.can_rf1r, RFR_FMP, 2) == 0 ==> msg is None && final(self).rx_buffer == old(self).rx_buffer && final(self).fifo1_interrupt_counter == old(self).fifo1_interrupt_counter && bit_set(final(self).registers.can_rf1r, RFR_RFOM) == bit_set(
                old(self).registers.can_rf1r,
                RFR_RFOM,
            ),
            spec_get_bits(old(self).registers.can_rf1r, RFR_FMP, 2) != 0 ==> {
                let rir = old(self).registers.can_rx_mailbox@[1].can_rir;
                let stid = spec_get_bits(rir, TIR_STID_OFFSET, TIR_STID_WIDTH);
                let exid = spec_get_bits(rir, TIR_EXID_OFFSET, TIR_EXID_WIDTH);
                &&& msg matches Some(m) && {
                    &&& spec_get_bits(rir, TIR_IDE, 1) == 0 ==> m.id == Id::Standard(stid as u16)
                    &&& spec_get_bits(rir, TIR_IDE, 1) != 0 ==> m.id == Id::Extended(
                        (stid << 18) | exid,
                    )
                    &&& m.length == spec_get_bits(
                        old(self).registers.can_rx_mailbox@[1].can_rdtr,
                        TDTR_DLC_OFFSET,
                        TDTR_DLC_WIDTH,
                    ) as usize
                    &&& {
                        let rdlr = old(self).registers.can_rx_mailbox@[1].can_rdlr;
                        let rdhr = old(self).registers.can_rx_mailbox@[1].can_rdhr;
                        &&& m.data@[0] == (rdlr & 0xff) as u8
                        &&& m.data@[1] == ((rdlr >> 8) & 0xff) as u8
                        &&& m.data@[2] == ((rdlr >> 16) & 0xff) as u8
                        &&& m.data@[3] == ((rdlr >> 24) & 0xff) as u8
                        &&& m.data@[4] == (rdhr & 0xff) as u8
                        &&& m.data@[5] == ((rdhr >> 8) & 0xff) as u8
                        &&& m.data@[6] == ((rdhr >> 16) & 0xff) as u8
                        &&& m.data@[7] == ((rdhr >> 24) & 0xff) as u8
                    }
                    &&& old(self).rx_buffer is None ==> final(self).rx_buffer is None
                    &&& old(self).rx_buffer matches Some(rx) ==> final(self).rx_buffer matches Some(
                        rx2,
                    ) && rx2@.len() == rx@.len() && (forall|j: int|
                        0 <= j < rx@.len() && j < 8 ==> rx2@[j] == m.data@[j]) && (forall|j: int|
                        8 <= j < rx@.len() ==> rx2@[j] == rx@[j])
                }
                &&& bit_set(final(self).registers.can_rf1r, RFR_RFOM)
                &&& final(self).fifo1_interrupt_counter == vstd::wrapping::u32_specs::wrapping_add(
                    old(self).fifo1_interrupt_counter,
                    1,
                )
            },
    {
        proof {
            lemma_bit_get(self.registers.can_rf1r, RFR_FULL);
            lemma_bit_get(self.registers.can_rf1r, RFR_FOVR);
        }
        let new_message_reception_status = get_bits(self.registers.can_rf1r, RFR_FMP, 2);
        let full_condition_status = get_bits(self.registers.can_rf1r, RFR_FULL, 1);
        let overrun_condition_status = get_bits(self.registers.can_rf1r, RFR_FOVR, 1);
        if full_condition_status == 1 {
            self.registers.can_rf1r = set_bit(self.registers.can_rf1r, RFR_FULL);
        }
        if overrun_condition_status == 1 {
            self.registers.can_rf1r = set_bit(self.registers.can_rf1r, RFR_FOVR);
        }
        if new_message_reception_status != 0 {
            self.fifo1_interrupt_counter = self.fifo1_interrupt_counter.wrapping_add(1);
            let (rir, rdtr, rdlr, rdhr): (u32, u32, u32, u32) = {
                let mbx = &self.registers.can_rx_mailbox[1];
                (mbx.can_rir, mbx.can_rdtr, mbx.can_rdlr, mbx.can_rdhr)
            };
            let message_id = if get_bits(rir, TIR_IDE, 1) == 0 {
                Id::Standard(get_bits(rir, TIR_STID_OFFSET, TIR_STID_WIDTH) as u16)
            } else {
                Id::Extended(
                    (get_bits(rir, TIR_STID_OFFSET, TIR_STID_WIDTH) << 18) | get_bits(
                        rir,
                        TIR_EXID_OFFSET,
                        TIR_EXID_WIDTH,
                    ),
                )
            };
            let message_length = get_bits(rdtr, TDTR_DLC_OFFSET, TDTR_DLC_WIDTH) as usize;
            let rx_buf = self.convert_u32_to_arr(rdlr, rdhr);
            match &mut self.rx_buffer {
                Some(rx) => {
                    let ghost rx0 = rx@;
                    let n: usize = if rx.len() < 8 {
                        rx.len()
                    } else {
                        8
                    };
                    let mut i: usize = 0;
                    while i < n
                        invariant
                            i <= n,
                            n <= rx@.len(),
                            n <= 8,
                            n == (if rx0.len() < 8 {
                                rx0.len() as int
                            } else {
                                8int
                            }),
                            rx@.len() == rx0.len(),
                            forall|j: int| 0 <= j < i ==> rx@[j] == rx_buf@[j],
                            forall|j: int| i <= j < rx0.len() ==> rx@[j] == rx0[j],
                        decreases n - i,
                    {
                        let b: u8 = rx_buf[i];
                        rx[i] = b;
                        i = i + 1;
                    }
                },
                None => {},
            }
            // mark the interrupt as handled
            self.registers.can_rf1r = set_bit(self.registers.can_rf1r, RFR_RFOM);
            Some(CanMessage { id: message_id, data: rx_buf, length: message_length })
        } else {
            None
        }
    }

    /// An error or status-change interrupt fired: acknowledge a wakeup
    /// flag, count the event, and after more than ten events mute the
    /// error interrupt group.
    pub fn handle_error_status_interrupt(&mut self)
        requires
            old(self).wf(),
        ensures
            final(self).wf(),
            final(self).can_state == old(self).can_state,
            final(self).tx_buffer == old(self).tx_buffer,
            final(self).rx_buffer == old(self).rx_buffer,
            final(self).error_interrupt_counter == vstd::wrapping::u32_specs::wrapping_add(
                old(self).error_interrupt_counter,
                1,
            ),
            bit_set(old(self).registers.can_msr, MSR_WKUI) ==> bit_set(
                final(self).registers.can_msr,
                MSR_WKUI,
            ),
            final(self).error_interrupt_counter > 10 ==> !bit_set(
                final(self).registers.can_ier,
                IER_ERRIE,
            ),
    {
        if get_bits(self.registers.can_msr, MSR_WKUI, 1) == 1 {
            // acknowledge the wakeup interrupt
            self.registers.can_msr = set_bit(self.registers.can_msr, MSR_WKUI);
        }
        self.error_interrupt_counter = self.error_interrupt_counter.wrapping_add(1);
        if self.error_interrupt_counter > 10 {
            self.disable_irq(CanInterruptMode::ErrorAndStatusChangeInterrupt);
        }
    }

    /// Record the bit timing; refused while the controller runs.
    pub fn set_bit_timing(&mut self, bit_timing: BitTiming) -> (r: Result<(), ErrorCode>)
        ensures
            old(self).can_state == CanState::Sleep ==> r is Ok && final(self).bit_timing == Some(
                bit_timing,
            ),
            old(self).can_state != CanState::Sleep ==> r == Err::<(), ErrorCode>(ErrorCode::Busy)
                && final(self).bit_timing == old(self).bit_timing,
            final(self).can_state == old(self).can_state,
            final(self).registers == old(self).registers,
            final(self).operating_mode == old(self).operating_mode,
    {
        match self.can_state {
            CanState::Sleep => {
                self.bit_timing = Some(bit_timing);
                Ok(())
            },
            CanState::Normal | CanState::Initialization => Err(ErrorCode::Busy),
        }
    }

    /// Record the operating regime; refused while the controller runs.
    pub fn set_operation_mode(&mut self, mode: OperationMode) -> (r: Result<(), ErrorCode>)
        ensures
            old(self).can_state == CanState::Sleep ==> r is Ok && final(self).operating_mode
                == Some(mode),
            old(self).can_state != CanState::Sleep ==> r == Err::<(), ErrorCode>(ErrorCode::Busy)
                && final(self).operating_mode == old(self).operating_mode,
            final(self).can_state == old(self).can_state,
            final(self).registers == old(self).registers,
            final(self).bit_timing == old(self).bit_timing,
    {
        match self.can_state {
            CanState::Sleep => {
                self.operating_mode = Some(mode);
                Ok(())
            },
            CanState::Normal | CanState::Initialization => Err(ErrorCode::Busy),
        }
    }

    /// The recorded bit timing, if any was set.
    pub fn get_bit_timing(&self) -> (r: Result<BitTiming, ErrorCode>)
        ensures
            self.bit_timing matches Some(bt) ==> r == Ok::<BitTiming, ErrorCode>(bt),
            self.bit_timing is None ==> r == Err::<BitTiming, ErrorCode>(ErrorCode::Inval),
    {
        match self.bit_timing {
            Some(bit_timing) => Ok(bit_timing),
            None => Err(ErrorCode::Inval),
        }
    }

    /// The recorded operating regime, if any was set.
    pub fn get_operation_mode(&self) -> (r: Result<OperationMode, ErrorCode>)
        ensures
            self.operating_mode matches Some(m) ==> r == Ok::<OperationMode, ErrorCode>(m),
            self.operating_mode is None ==> r == Err::<OperationMode, ErrorCode>(ErrorCode::Inval),
    {
        match self.operating_mode {
            Some(operation_mode) => Ok(operation_mode),
            None => Err(ErrorCode::Inval),
        }
    }

    /// Record whether frames are retransmitted automatically; refused
    /// while the controller runs.
    pub fn set_automatic_retransmission(&mut self, automatic: bool) -> (r: Result<(), ErrorCode>)
        ensures
            old(self).can_state == CanState::Sleep ==> r is Ok && final(self).automatic_retransmission == automatic,
            old(self).can_state != CanState::Sleep ==> r == Err::<(), ErrorCode>(ErrorCode::Busy)
                && final(self).automatic_retransmission == old(self).automatic_retransmission,
            final(self).can_state == old(self).can_state,
            final(self).registers == old(self).registers,
    {
        match self.can_state {
            CanState::Sleep => {
                self.automatic_retransmission = automatic;
                Ok(())
            },
            CanState::Normal | CanState::Initialization => Err(ErrorCode::Busy),
        }
    }

    /// Record whether the controller wakes up automatically; refused
    /// while the controller runs.
    pub fn set_wake_up(&mut self, wake_up: bool) -> (r: Result<(), ErrorCode>)
        ensures
            old(self).can_state == CanState::Sleep ==> r is Ok && final(self).automatic_wake_up
                == wake_up,
            old(self).can_state != CanState::Sleep ==> r == Err::<(), ErrorCode>(ErrorCode::Busy)
                && final(self).automatic_wake_up == old(self).automatic_wake_up,
            final(self).can_state == old(self).can_state,
            final(self).registers == old(self).registers,
    {
        match self.can_state {
            CanState::Sleep => {
                self.automatic_wake_up = wake_up;
                Ok(())
            },
            CanState::Normal | CanState::Initialization => Err(ErrorCode::Busy),
        }
    }

    pub fn get_automatic_retransmission(&self) -> (r: Result<bool, ErrorCode>)
        ensures
            r == Ok::<bool, ErrorCode>(self.automatic_retransmission),
    {
        Ok(self.automatic_retransmission)
    }

    pub fn get_wake_up(&self) -> (r: Result<bool, ErrorCode>)
        ensures
            r == Ok::<bool, ErrorCode>(self.automatic_wake_up),
    {
        Ok(self.automatic_wake_up)
    }

    /// How many receive FIFOs the controller has.
    pub fn receive_fifo_count(&self) -> (n: usize)
        ensures
            n == 2,
    {
        2
    }

    /// Bring the controller up from sleep into normal mode. Refused
    /// while not asleep, and invalid until both the bit timing and the
    /// operating regime were recorded. On success the reported running
    /// state is returned for the controller client.
    pub fn enable_controller(&mut self) -> (r: Result<State, ErrorCode>)
        ensures
            old(self).can_state != CanState::Sleep ==> r == Err::<State, ErrorCode>(
                ErrorCode::Busy,
            ) && final(self).can_state == old(self).can_state,
            old(self).can_state == CanState::Sleep && (old(self).bit_timing is None || old(self).operating_mode is None) ==> r == Err::<State, ErrorCode>(ErrorCode::Inval) && final(self).can_state == old(self).can_state,
            old(self).can_state == CanState::Sleep && old(self).bit_timing is Some && old(self).operating_mode is Some ==> r == Ok::<State, ErrorCode>(State::Running) && final(self).can_state == CanState::Normal,
    {
        match self.can_state {
            CanState::Sleep => {
                if self.bit_timing.is_none() || self.operating_mode.is_none() {
                    Err(ErrorCode::Inval)
                } else {
                    match self.enable() {
                        Err(err) => Err(err),
                        Ok(()) => {
                            match self.enter_normal_mode() {
                                Err(enable_err) => Err(enable_err),
                                Ok(()) => Ok(State::Running),
                            }
                        },
                    }
                }
            },
            CanState::Normal | CanState::Initialization => Err(ErrorCode::Busy),
        }
    }

    /// Put a running controller to sleep; the disabled notification is
    /// implied by the result.
    pub fn disable(&mut self) -> (r: Result<(), ErrorCode>)
        ensures
            old(self).can_state == CanState::Normal ==> r is Ok && final(self).can_state
                == CanState::Sleep,
            old(self).can_state != CanState::Normal ==> r == Err::<(), ErrorCode>(ErrorCode::Off)
                && *final(self) == *old(self),
    {
        match self.can_state {
            CanState::Normal => {
                self.enter_sleep_mode();
                Ok(())
            },
            CanState::Sleep | CanState::Initialization => Err(ErrorCode::Off),
        }
    }

    /// The state the controller reports to its users.
    pub fn get_state(&self) -> (r: Result<State, ErrorCode>)
        ensures
            self.can_state == CanState::Normal ==> r == Ok::<State, ErrorCode>(State::Running),
            self.can_state != CanState::Normal ==> r == Ok::<State, ErrorCode>(State::Disabled),
    {
        Ok(State::from(self.can_state))
    }

    /// Queue one frame for transmission. Outside normal mode the buffer
    /// comes straight back with `Off`; a rejected send hands it back with
    /// the rejection.
    pub fn send(&mut self, id: Id, buffer: [u8; STANDARD_CAN_PACKET_SIZE], len: usize) -> (r:
        Result<(), (ErrorCode, [u8; STANDARD_CAN_PACKET_SIZE])>)
        requires
            old(self).wf(),
        ensures
            final(self).wf(),
            old(self).can_state != CanState::Normal ==> r == Err::<
                (),
                (ErrorCode, [u8; STANDARD_CAN_PACKET_SIZE]),
            >((ErrorCode::Off, buffer)) && final(self).tx_buffer == old(self).tx_buffer,
            old(self).can_state == CanState::Normal ==> {
                &&& r is Ok ==> final(self).tx_buffer == Some(buffer)
                &&& r matches Err((e, b)) ==> b == buffer && final(self).tx_buffer is None
            },
    {
        match self.can_state {
            CanState::Normal => {
                self.tx_buffer = Some(buffer);
                self.enable_irq(CanInterruptMode::TransmitInterrupt);
                match self.send_8byte_message(id, len, 0) {
                    Ok(()) => Ok(()),
                    Err(err) => {
                        let b = self.tx_buffer.take();
                        Err((err, b.unwrap()))
                    },
                }
            },
            CanState::Sleep | CanState::Initialization => Err((ErrorCode::Off, buffer)),
        }
    }

    /// Begin receiving: configure one filter onto each FIFO, activate
    /// the configuration, unmask the FIFO interrupts, and register the
    /// receive buffer.
    pub fn start_receive_process(&mut self, buffer: Vec<u8>) -> (r: Result<
        (),
        (ErrorCode, Vec<u8>),
    >)
        requires
            old(self).wf(),
        ensures
            final(self).wf(),
            old(self).can_state != CanState::Normal ==> (r matches Err((e, b)) && e
                == ErrorCode::Off && b == buffer) && final(self).rx_buffer == old(self).rx_buffer,
            old(self).can_state == CanState::Normal ==> r is Ok && final(self).rx_buffer == Some(
                buffer,
            ) && bit_set(final(self).registers.can_fa1r, 0) && bit_set(
                final(self).registers.can_fa1r,
                1,
            ) && !bit_set(final(self).registers.can_fmr, FMR_FINIT) && bit_set(
                final(self).registers.can_ier,
                IER_FMPIE0,
            ) && bit_set(final(self).registers.can_ier, IER_FMPIE1),
            final(self).can_state == old(self).can_state,
            final(self).tx_buffer == old(self).tx_buffer,
    {
        match self.can_state {
            CanState::Normal => {
                self.config_filter(
                    FilterParameters {
                        number: 0,
                        scale_bits: ScaleBits::Bits32,
                        identifier_mode: IdentifierMode::Mask,
                        fifo_number: 0,
                    },
                    true,
                );
                self.config_filter(
                    FilterParameters {
                        number: 1,
                        scale_bits: ScaleBits::Bits32,
                        identifier_mode: IdentifierMode::Mask,
                        fifo_number: 1,
                    },
                    true,
                );
                self.enable_filter_config();
                self.enable_irq(CanInterruptMode::Fifo0Interrupt);
                self.enable_irq(CanInterruptMode::Fifo1Interrupt);
                self.rx_buffer = Some(buffer);
                Ok(())
            },
            CanState::Sleep | CanState::Initialization => Err((ErrorCode::Off, buffer)),
        }
    }

    /// Stop receiving: deactivate the two filters, mask the FIFO
    /// interrupts, and hand the receive buffer back for the client.
    pub fn stop_receive(&mut self) -> (r: Result<Vec<u8>, ErrorCode>)
        requires
            old(self).wf(),
        ensures
            final(self).wf(),
            old(self).can_state != CanState::Normal ==> r == Err::<Vec<u8>, ErrorCode>(
                ErrorCode::Off,
            ) && final(self).rx_buffer == old(self).rx_buffer,
            old(self).can_state == CanState::Normal && old(self).rx_buffer is None ==> r == Err::<
                Vec<u8>,
                ErrorCode,
            >(ErrorCode::Fail),
            old(self).can_state == CanState::Normal ==> (old(self).rx_buffer matches Some(rx)
                ==> r == Ok::<Vec<u8>, ErrorCode>(rx)) && final(self).rx_buffer is None && !bit_set(
                final(self).registers.can_fa1r,
                0,
            ) && !bit_set(final(self).registers.can_fa1r, 1) && !bit_set(
                final(self).registers.can_ier,
                IER_FMPIE0,
            ) && !bit_set(final(self).registers.can_ier, IER_FMPIE1),
            final(self).can_state == old(self).can_state,
            final(self).tx_buffer == old(self).tx_buffer,
    {
        match self.can_state {
            CanState::Normal => {
                self.config_filter(
                    FilterParameters {
                        number: 0,
                        scale_bits: ScaleBits::Bits32,
                        identifier_mode: IdentifierMode::Mask,
                        fifo_number: 0,
                    },
                    false,
                );
                self.config_filter(
                    FilterParameters {
                        number: 1,
                        scale_bits: ScaleBits::Bits32,
                        identifier_mode: IdentifierMode::Mask,
                        fifo_number: 1,
                    },
                    false,
                );
                self.enable_filter_config();
                self.disable_irq(CanInterruptMode::Fifo0Interrupt);
                self.disable_irq(CanInterruptMode::Fifo1Interrupt);
                match self.rx_buffer.take() {
                    Some(rx) => Ok(rx),
                    None => Err(ErrorCode::Fail),
                }
            },
            CanState::Sleep | CanState::Initialization => Err(ErrorCode::Off),
        }
    }
}

} // verus!
