use adc_capsule::adc::{
    mode_tag, AdcChannelHardware, AdcDedicated, AdcHardware, AdcMode, AdcVirtualized, Operation,
    Upcall,
};
use adc_capsule::app_buffer::{
    copy_samples, plan_continuous, plan_single_buffer, App, AppBuffer, BufferPlan,
};
use adc_capsule::errors::{CommandReturn, ErrorCode};
use adc_capsule::grant::{ProcessError, ProcessTable};
use adc_capsule::pool::BufferPool;

/// A stand-in peripheral: it records requests and keeps the kernel
/// buffers handed to it, so a test can play the hardware's part.
struct MockAdc {
    held: Vec<Vec<u16>>,
    request_lens: Vec<usize>,
    reject_scalar: bool,
    reject_highspeed: bool,
    stops: usize,
}

impl MockAdc {
    fn new() -> MockAdc {
        MockAdc {
            held: Vec::new(),
            request_lens: Vec::new(),
            reject_scalar: false,
            reject_highspeed: false,
            stops: 0,
        }
    }
}

impl AdcHardware for MockAdc {
    fn sample(&mut self, _channel: usize) -> Result<(), ErrorCode> {
        if self.reject_scalar {
            Err(ErrorCode::Off)
        } else {
            Ok(())
        }
    }

    fn sample_continuous(&mut self, _channel: usize, _frequency: u32) -> Result<(), ErrorCode> {
        if self.reject_scalar {
            Err(ErrorCode::Off)
        } else {
            Ok(())
        }
    }

    fn stop_sampling(&mut self) -> Result<(), ErrorCode> {
        self.stops += 1;
        Ok(())
    }

    fn get_resolution_bits(&self) -> usize {
        12
    }

    fn get_voltage_reference_mv(&self) -> Option<usize> {
        Some(3300)
    }

    fn sample_highspeed(
        &mut self,
        _channel: usize,
        _frequency: u32,
        buf1: Vec<u16>,
        len1: usize,
        buf2: Vec<u16>,
        len2: usize,
    ) -> Result<(), (ErrorCode, Vec<u16>, Vec<u16>)> {
        if self.reject_highspeed {
            return Err((ErrorCode::Fail, buf1, buf2));
        }
        self.request_lens.push(len1);
        self.request_lens.push(len2);
        self.held.push(buf1);
        self.held.push(buf2);
        Ok(())
    }

    fn provide_buffer(&mut self, buf: Vec<u16>, len: usize) -> Result<(), (ErrorCode, Vec<u16>)> {
        self.request_lens.push(len);
        self.held.push(buf);
        Ok(())
    }

    fn retrieve_buffers(&mut self) -> Result<(Option<Vec<u16>>, Option<Vec<u16>>), ErrorCode> {
        let b1 = if self.held.is_empty() { None } else { Some(self.held.remove(0)) };
        let b2 = if self.held.is_empty() { None } else { Some(self.held.remove(0)) };
        Ok((b1, b2))
    }
}

fn kernel_buf(n: usize) -> Vec<u16> {
    vec![0u16; n]
}

fn dma_buf() -> Vec<u16> {
    kernel_buf(adc_capsule::ADC_BUF_SAMPLES)
}

fn app_buf(addr: usize, len: usize) -> AppBuffer {
    AppBuffer::new(addr, vec![0u8; len])
}

/// A driver with one live process (id 7) and 128-sample kernel buffers.
fn fresh_driver() -> AdcDedicated<MockAdc> {
    let mut apps: ProcessTable<App> = ProcessTable::new();
    apps.add_process(7, App::default()).unwrap();
    AdcDedicated::new(MockAdc::new(), apps, 6, dma_buf(), dma_buf(), dma_buf())
}

fn owner_app(drv: &AdcDedicated<MockAdc>) -> &App {
    let i = drv.apps.find(7).unwrap();
    &drv.apps.procs[i].ctx
}

/// Bind process 7 as owner and hand it a primary buffer of `len` bytes.
fn give_buffer(drv: &mut AdcDedicated<MockAdc>, allow_num: usize, addr: usize, len: usize) {
    let prev = drv.allow_readwrite(7, allow_num, app_buf(addr, len)).unwrap();
    assert_eq!(prev.addr, 0);
    assert_eq!(prev.data.len(), 0);
}

// Pool slot conservation: over any deposit/withdraw sequence, stored
// plus on-loan is three.
#[test]
fn pool_conservation_over_operations() {
    let mut pool = BufferPool::new(kernel_buf(4), kernel_buf(4), kernel_buf(4));
    let mut loaned: usize = 0;
    assert_eq!(pool.count() + loaned, 3);
    let a = pool.withdraw().unwrap();
    loaned += 1;
    assert_eq!(pool.count() + loaned, 3);
    let b = pool.withdraw().unwrap();
    loaned += 1;
    assert_eq!(pool.count() + loaned, 3);
    let c = pool.withdraw().unwrap();
    loaned += 1;
    assert_eq!(pool.count() + loaned, 3);
    assert!(pool.withdraw().is_none());
    assert_eq!(pool.count(), 0);
    pool.deposit(a);
    loaned -= 1;
    assert_eq!(pool.count() + loaned, 3);
    pool.deposit(b);
    loaned -= 1;
    pool.deposit(c);
    loaned -= 1;
    assert_eq!(pool.count() + loaned, 3);
    assert_eq!(pool.count(), 3);
}

// A deposit always lands in the last slot; the previous occupant is
// promoted into an earlier empty slot.
#[test]
fn pool_deposit_lands_last() {
    let mut pool = BufferPool::new(vec![1u16], vec![2u16], vec![3u16]);
    let first = pool.withdraw().unwrap();
    assert_eq!(first, vec![1u16]);
    let second = pool.withdraw().unwrap();
    assert_eq!(second, vec![2u16]);
    // slot3 still holds [3]; depositing [1] promotes [3] into slot2
    pool.deposit(first);
    assert_eq!(pool.slot1, None);
    assert_eq!(pool.slot2, Some(vec![3u16]));
    assert_eq!(pool.slot3, Some(vec![1u16]));
    // a withdraw now returns the promoted buffer, not the fresh one
    assert_eq!(pool.withdraw().unwrap(), vec![3u16]);
}

// The three planning formulas.
#[test]
fn plan_single_buffer_formulas() {
    assert_eq!(
        plan_single_buffer(256, 128, 128),
        BufferPlan { len1: 128, len2: 0, remaining: 0 }
    );
    assert_eq!(
        plan_single_buffer(512, 128, 128),
        BufferPlan { len1: 128, len2: 128, remaining: 0 }
    );
    assert_eq!(
        plan_single_buffer(1024, 128, 128),
        BufferPlan { len1: 128, len2: 128, remaining: 256 }
    );
}

#[test]
fn plan_continuous_reserves_for_next_buffer() {
    // current demand fits the first slot: the second slot pre-fills the
    // next caller buffer
    let p = plan_continuous(256, 512, 128, 128);
    assert_eq!(p.len1, 128);
    assert_eq!(p.len2, 128);
    assert_eq!(p.remaining, 0);
    assert_eq!(p.outstanding, 128);
    assert_eq!(p.next_outstanding, 128);
    // current demand spans both slots: nothing reserved ahead
    let p = plan_continuous(512, 512, 128, 128);
    assert_eq!(p.len1, 128);
    assert_eq!(p.len2, 128);
    assert_eq!(p.outstanding, 256);
    assert_eq!(p.next_outstanding, 0);
    // oversized demand: request the slot maxima
    let p = plan_continuous(1024, 512, 128, 128);
    assert_eq!(p.remaining, 256);
    assert_eq!(p.outstanding, 256);
    assert_eq!(p.next_outstanding, 0);
}

// Little-endian packing: low byte first.
#[test]
fn copy_samples_little_endian() {
    let mut dst = vec![0u8; 8];
    let src: Vec<u16> = vec![0x1234, 0xABCD];
    copy_samples(&mut dst, 1, &src, 2);
    assert_eq!(dst, vec![0, 0, 0x34, 0x12, 0xCD, 0xAB, 0, 0]);
}

#[test]
fn copy_samples_truncated_destination() {
    // an odd-length destination takes only the low byte of the last
    // sample that fits
    let mut dst = vec![0u8; 3];
    let src: Vec<u16> = vec![0x1234, 0xABCD];
    copy_samples(&mut dst, 0, &src, 2);
    assert_eq!(dst, vec![0x34, 0x12, 0xCD]);
}

#[test]
fn mode_tags_match_upcall_encoding() {
    assert_eq!(mode_tag(AdcMode::SingleSample), 0);
    assert_eq!(mode_tag(AdcMode::ContinuousSample), 1);
    assert_eq!(mode_tag(AdcMode::SingleBuffer), 2);
    assert_eq!(mode_tag(AdcMode::ContinuousBuffer), 3);
    assert_eq!(mode_tag(AdcMode::NoMode), usize::MAX);
}

#[test]
fn single_sample_round_trip() {
    let mut drv = fresh_driver();
    let r = drv.command(1, 2, 0, 7);
    assert_eq!(r, CommandReturn::Success);
    assert!(drv.active);
    let up = drv.sample_ready(0x0123);
    assert_eq!(up, Some(Upcall { mode: 0, arg2: 2, arg3: 0x0123 }));
    assert!(!drv.active);
    assert_eq!(drv.mode, AdcMode::NoMode);
}

#[test]
fn continuous_sample_keeps_state() {
    let mut drv = fresh_driver();
    assert_eq!(drv.command(2, 1, 100, 7), CommandReturn::Success);
    let up = drv.sample_ready(44);
    assert_eq!(up, Some(Upcall { mode: 1, arg2: 1, arg3: 44 }));
    assert!(drv.active);
    assert_eq!(drv.mode, AdcMode::ContinuousSample);
    // stop ends it
    assert_eq!(drv.stop_sampling(), Ok(()));
    assert!(!drv.active);
}

#[test]
fn sample_channel_out_of_range_is_inval() {
    let mut drv = fresh_driver();
    assert_eq!(drv.sample(6), Err(ErrorCode::Inval));
    assert_eq!(drv.command(1, 99, 0, 7), CommandReturn::Failure(ErrorCode::Inval));
}

#[test]
fn scalar_rejection_unwinds_to_idle() {
    let mut drv = fresh_driver();
    drv.adc.reject_scalar = true;
    assert_eq!(drv.sample(0), Err(ErrorCode::Off));
    assert!(!drv.active);
    assert_eq!(drv.mode, AdcMode::NoMode);
}

// Starting a buffered sample while active always fails busy and leaves
// mode and counters unchanged.
#[test]
fn buffered_start_while_active_is_busy() {
    let mut drv = fresh_driver();
    give_buffer(&mut drv, 0, 0x4000, 256);
    give_buffer(&mut drv, 1, 0x5000, 256);
    assert_eq!(drv.sample_buffer(0, 1000), Ok(()));
    assert!(drv.active);
    let mode_before = drv.mode;
    let rem = owner_app(&drv).samples_remaining;
    let out = owner_app(&drv).samples_outstanding;
    assert_eq!(drv.sample_buffer(0, 1000), Err(ErrorCode::Busy));
    assert_eq!(drv.sample_buffer_continuous(0, 1000), Err(ErrorCode::Busy));
    assert_eq!(drv.command(3, 0, 1000, 7), CommandReturn::Failure(ErrorCode::Busy));
    assert_eq!(drv.command(4, 0, 1000, 7), CommandReturn::Failure(ErrorCode::Busy));
    assert_eq!(drv.mode, mode_before);
    assert_eq!(owner_app(&drv).samples_remaining, rem);
    assert_eq!(owner_app(&drv).samples_outstanding, out);
}

#[test]
fn buffered_start_without_buffer_is_nomem() {
    let mut drv = fresh_driver();
    // bind the owner without sharing a buffer
    assert_eq!(drv.command(0, 0, 0, 7), CommandReturn::SuccessU32(6));
    assert_eq!(drv.sample_buffer(0, 1000), Err(ErrorCode::NoMem));
    // continuous needs both buffers
    give_buffer(&mut drv, 0, 0x4000, 256);
    assert_eq!(drv.sample_buffer_continuous(0, 1000), Err(ErrorCode::NoMem));
}

#[test]
fn highspeed_rejection_deposits_buffers_back() {
    let mut drv = fresh_driver();
    give_buffer(&mut drv, 0, 0x4000, 256);
    drv.adc.reject_highspeed = true;
    assert_eq!(drv.sample_buffer(0, 1000), Err(ErrorCode::Fail));
    assert!(!drv.active);
    assert_eq!(drv.mode, AdcMode::NoMode);
    assert_eq!(drv.pool.count(), 3);
    assert_eq!(drv.loaned, 0);
    assert_eq!(owner_app(&drv).samples_remaining, 0);
    assert_eq!(owner_app(&drv).samples_outstanding, 0);
}

// A single-buffer operation whose demand exactly equals one slot's
// capacity completes with exactly one upcall, reverts to idle, and all
// kernel slots are back in the pool.
#[test]
fn single_buffer_exact_fit_completes_once() {
    let mut drv = fresh_driver();
    // 128-sample demand == 128-sample slot capacity
    give_buffer(&mut drv, 0, 0x4000, 256);
    assert_eq!(drv.sample_buffer(3, 44100), Ok(()));
    assert_eq!(drv.adc.request_lens, vec![128, 0]);
    assert_eq!(drv.loaned, 2);
    assert_eq!(owner_app(&drv).samples_outstanding, 128);
    assert_eq!(owner_app(&drv).samples_remaining, 0);
    // the hardware fills the first buffer and hands it back
    let mut filled = drv.adc.held.remove(0);
    for (i, s) in filled.iter_mut().enumerate() {
        *s = i as u16;
    }
    let up = drv.samples_ready(filled, 128);
    assert_eq!(up, Some(Upcall { mode: 2, arg2: (128 << 8) | 3, arg3: 0x4000 }));
    assert!(!drv.active);
    assert_eq!(drv.mode, AdcMode::NoMode);
    assert_eq!(drv.pool.count(), 3);
    assert_eq!(drv.loaned, 0);
    assert_eq!(owner_app(&drv).app_buf_offset, 0);
    // the samples landed little-endian in the caller buffer
    let data = &owner_app(&drv).app_buf1.data;
    assert_eq!(data[0], 0);
    assert_eq!(data[2], 1);
    assert_eq!(data[3], 0);
    assert_eq!(data[254], 127);
    assert_eq!(data[255], 0);
    // no second upcall arrives once idle
    let spare = drv.pool.withdraw().unwrap();
    drv.loaned += 1;
    assert_eq!(drv.samples_ready(spare, 0), None);
}

#[test]
fn single_buffer_two_rounds() {
    let mut drv = fresh_driver();
    // 256-sample demand: 128 into each slot
    give_buffer(&mut drv, 0, 0x4000, 512);
    assert_eq!(drv.sample_buffer(0, 1000), Ok(()));
    assert_eq!(drv.adc.request_lens, vec![128, 128]);
    let first = drv.adc.held.remove(0);
    assert_eq!(drv.samples_ready(first, 128), None);
    assert_eq!(owner_app(&drv).samples_outstanding, 128);
    assert_eq!(owner_app(&drv).app_buf_offset, 256);
    let second = drv.adc.held.remove(0);
    let up = drv.samples_ready(second, 128);
    assert_eq!(up, Some(Upcall { mode: 2, arg2: (256 << 8) | 0, arg3: 0x4000 }));
    assert_eq!(drv.pool.count(), 3);
}

// A continuous-buffer operation across two caller-buffer swaps never
// double-copies a sample, and the offset after each upcall is zero.
#[test]
fn continuous_buffer_two_swaps() {
    let mut drv = fresh_driver();
    give_buffer(&mut drv, 0, 0x4000, 256);
    give_buffer(&mut drv, 1, 0x5000, 256);
    assert_eq!(drv.sample_buffer_continuous(2, 8000), Ok(()));
    // 128 samples for the current buffer, 128 reserved for the next one
    assert_eq!(drv.adc.request_lens, vec![128, 128]);
    assert_eq!(owner_app(&drv).samples_outstanding, 128);
    assert_eq!(owner_app(&drv).next_samples_outstanding, 128);
    assert!(owner_app(&drv).using_app_buf1);

    // first fill completes the first caller buffer
    let mut filled = drv.adc.held.remove(0);
    for (i, s) in filled.iter_mut().enumerate() {
        *s = 0x0100 + i as u16;
    }
    let up = drv.samples_ready(filled, 128);
    assert_eq!(up, Some(Upcall { mode: 3, arg2: (128 << 8) | 2, arg3: 0x4000 }));
    assert!(drv.active);
    assert_eq!(drv.mode, AdcMode::ContinuousBuffer);
    assert!(!owner_app(&drv).using_app_buf1);
    assert_eq!(owner_app(&drv).app_buf_offset, 0);
    // the swap consumed the reservation and re-requested ahead
    assert_eq!(owner_app(&drv).samples_outstanding, 128);
    assert_eq!(owner_app(&drv).next_samples_outstanding, 128);

    // second fill completes the second caller buffer
    let mut filled = drv.adc.held.remove(0);
    for (i, s) in filled.iter_mut().enumerate() {
        *s = 0x0200 + i as u16;
    }
    let up = drv.samples_ready(filled, 128);
    assert_eq!(up, Some(Upcall { mode: 3, arg2: (128 << 8) | 2, arg3: 0x5000 }));
    assert!(owner_app(&drv).using_app_buf1);
    assert_eq!(owner_app(&drv).app_buf_offset, 0);

    // each buffer holds exactly its own batch: no sample was copied twice
    let a = &owner_app(&drv).app_buf1.data;
    let b = &owner_app(&drv).app_buf2.data;
    assert_eq!(a[0], 0x00);
    assert_eq!(a[1], 0x01);
    assert_eq!(a[2], 0x01);
    assert_eq!(a[3], 0x01);
    assert_eq!(b[0], 0x00);
    assert_eq!(b[1], 0x02);
    assert_eq!(b[2], 0x01);
    assert_eq!(b[3], 0x02);
}

// Revoking the process while an operation is active: hardware stop
// requested, all on-loan slots return within one callback cycle, no
// upcall, and the slot-count invariant holds.
#[test]
fn revoked_process_reclaims_buffers() {
    let mut drv = fresh_driver();
    give_buffer(&mut drv, 0, 0x4000, 512);
    assert_eq!(drv.sample_buffer(0, 1000), Ok(()));
    assert_eq!(drv.loaned, 2);
    let stops_before = drv.adc.stops;
    // the process crashes: context entry starts failing
    drv.apps.set_inactive(7);
    let filled = drv.adc.held.remove(0);
    let up = drv.samples_ready(filled, 128);
    assert_eq!(up, None);
    assert!(!drv.active);
    assert_eq!(drv.mode, AdcMode::NoMode);
    assert_eq!(drv.appid, None);
    assert!(drv.adc.stops > stops_before);
    assert_eq!(drv.pool.count(), 3);
    assert_eq!(drv.loaned, 0);
}

// Buffer registration swap is idempotent under crash: registering for a
// process whose registration fails to enter returns the buffer just
// passed in, unchanged.
#[test]
fn allow_for_crashed_process_returns_buffer() {
    let mut drv = fresh_driver();
    drv.apps.set_inactive(7);
    let mine = AppBuffer::new(0xBEE5, vec![9u8; 16]);
    match drv.allow_readwrite(7, 0, mine) {
        Err((back, e)) => {
            assert_eq!(e, ErrorCode::Fail);
            assert_eq!(back.addr, 0xBEE5);
            assert_eq!(back.data, vec![9u8; 16]);
        }
        Ok(_) => panic!("allow must fail for a crashed process"),
    }
    assert_eq!(drv.appid, None);
}

#[test]
fn allow_swaps_and_returns_previous() {
    let mut drv = fresh_driver();
    give_buffer(&mut drv, 0, 0x4000, 8);
    let replacement = AppBuffer::new(0x7000, vec![1u8; 4]);
    let prev = drv.allow_readwrite(7, 0, replacement).unwrap();
    assert_eq!(prev.addr, 0x4000);
    assert_eq!(prev.data.len(), 8);
    // unknown allow numbers are refused
    match drv.allow_readwrite(7, 2, AppBuffer::new(1, vec![])) {
        Err((_, e)) => assert_eq!(e, ErrorCode::NoSupport),
        Ok(_) => panic!("allow number 2 must be refused"),
    }
}

#[test]
fn second_process_cannot_take_owned_capsule() {
    let mut drv = fresh_driver();
    drv.apps.add_process(8, App::default()).unwrap();
    give_buffer(&mut drv, 0, 0x4000, 256);
    // the owner is live and bound: another process is refused
    assert_eq!(drv.command(1, 0, 0, 8), CommandReturn::Failure(ErrorCode::NoMem));
    match drv.allow_readwrite(8, 0, AppBuffer::new(2, vec![0u8; 2])) {
        Err((_, e)) => assert_eq!(e, ErrorCode::NoMem),
        Ok(_) => panic!("owned capsule must refuse another process"),
    }
    // once the owner is revoked and idle, the capsule can be re-bound
    drv.apps.set_inactive(7);
    assert_eq!(drv.command(0, 0, 0, 8), CommandReturn::SuccessU32(6));
    assert_eq!(drv.appid, Some(8));
}

#[test]
fn command_metadata_queries() {
    let mut drv = fresh_driver();
    assert_eq!(drv.command(0, 0, 0, 7), CommandReturn::SuccessU32(6));
    assert_eq!(drv.command(101, 0, 0, 7), CommandReturn::SuccessU32(12));
    assert_eq!(drv.command(102, 0, 0, 7), CommandReturn::SuccessU32(3300));
    assert_eq!(drv.command(77, 0, 0, 7), CommandReturn::Failure(ErrorCode::NoSupport));
    assert_eq!(drv.command(5, 0, 0, 7), CommandReturn::Success);
}

#[test]
fn allocate_grant_reports_liveness() {
    let drv = fresh_driver();
    assert_eq!(drv.allocate_grant(7), Ok(()));
    assert_eq!(drv.allocate_grant(9), Err(ProcessError::NoSuchApp));
}

#[test]
fn process_table_distinguishes_gone_and_inactive() {
    let mut t: ProcessTable<App> = ProcessTable::new();
    assert_eq!(t.find(3).unwrap_err(), ProcessError::NoSuchApp);
    t.add_process(3, App::default()).unwrap();
    assert!(t.find(3).is_ok());
    assert!(t.add_process(3, App::default()).is_err());
    t.set_inactive(3);
    assert_eq!(t.find(3).unwrap_err(), ProcessError::InactiveApp);
}

/// A stand-in single channel for the virtualized driver.
struct MockChannel {
    reject: bool,
}

impl AdcChannelHardware for MockChannel {
    fn sample(&self) -> Result<(), ErrorCode> {
        if self.reject {
            Err(ErrorCode::Off)
        } else {
            Ok(())
        }
    }

    fn get_resolution_bits(&self) -> usize {
        10
    }

    fn get_voltage_reference_mv(&self) -> Option<usize> {
        None
    }
}

fn fresh_virtualized() -> AdcVirtualized<MockChannel> {
    let drivers = vec![MockChannel { reject: false }, MockChannel { reject: false }];
    let mut apps: ProcessTable<adc_capsule::adc::AppSys> = ProcessTable::new();
    apps.add_process(1, adc_capsule::adc::AppSys::default()).unwrap();
    apps.add_process(2, adc_capsule::adc::AppSys::default()).unwrap();
    AdcVirtualized::new(drivers, apps)
}

#[test]
fn virtualized_single_sample_and_upcall() {
    let mut drv = fresh_virtualized();
    assert_eq!(drv.command(0, 0, 0, 1), CommandReturn::SuccessU32(2));
    assert_eq!(drv.command(1, 1, 0, 1), CommandReturn::Success);
    assert_eq!(drv.current_app, Some(1));
    let up = drv.sample_ready(77);
    // the upcall carries the context's recorded channel; an immediate
    // dispatch leaves that record untouched, so it is still zero
    assert_eq!(up, Some(Upcall { mode: 0, arg2: 0, arg3: 77 }));
    assert_eq!(drv.current_app, None);
}

#[test]
fn virtualized_queues_one_pending_request() {
    let mut drv = fresh_virtualized();
    assert_eq!(drv.enqueue_command(Operation::OneSample, 0, 1), Ok(()));
    // a second process queues while a request is in flight
    assert_eq!(drv.enqueue_command(Operation::OneSample, 1, 2), Ok(()));
    let i = drv.apps.find(2).unwrap();
    assert!(drv.apps.procs[i].ctx.pending_command);
    assert_eq!(drv.apps.procs[i].ctx.channel, 1);
    // but only one pending request per process
    assert_eq!(drv.enqueue_command(Operation::OneSample, 0, 2), Err(ErrorCode::Busy));
}

#[test]
fn virtualized_channel_out_of_range_is_nodevice() {
    let mut drv = fresh_virtualized();
    assert_eq!(drv.enqueue_command(Operation::OneSample, 5, 1), Err(ErrorCode::NoDevice));
    assert_eq!(drv.command(1, 9, 0, 1), CommandReturn::Failure(ErrorCode::NoDevice));
    assert_eq!(drv.command(101, 9, 0, 1), CommandReturn::Failure(ErrorCode::NoDevice));
}

#[test]
fn virtualized_unknown_process_fails() {
    let mut drv = fresh_virtualized();
    assert_eq!(drv.enqueue_command(Operation::OneSample, 0, 42), Err(ErrorCode::Fail));
}

#[test]
fn virtualized_metadata_queries() {
    let mut drv = fresh_virtualized();
    assert_eq!(drv.command(101, 0, 0, 1), CommandReturn::SuccessU32(10));
    assert_eq!(drv.command(102, 0, 0, 1), CommandReturn::Failure(ErrorCode::NoSupport));
    assert_eq!(drv.command(55, 0, 0, 1), CommandReturn::Failure(ErrorCode::NoSupport));
}

#[test]
fn scalar_callback_after_revocation_cleans_up() {
    let mut drv = fresh_driver();
    assert_eq!(drv.command(2, 0, 50, 7), CommandReturn::Success);
    drv.apps.set_inactive(7);
    let stops_before = drv.adc.stops;
    assert_eq!(drv.sample_ready(5), None);
    assert!(!drv.active);
    assert_eq!(drv.mode, AdcMode::NoMode);
    assert_eq!(drv.appid, None);
    assert!(drv.adc.stops > stops_before);
}

#[test]
fn buffered_start_without_pool_buffers_is_busy() {
    let mut drv = fresh_driver();
    give_buffer(&mut drv, 0, 0x4000, 256);
    // drain the pool, as if the buffers were on loan
    let _a = drv.pool.withdraw().unwrap();
    let _b = drv.pool.withdraw().unwrap();
    drv.loaned += 2;
    assert_eq!(drv.sample_buffer(0, 1000), Err(ErrorCode::Busy));
    assert!(!drv.active);
    assert_eq!(drv.mode, AdcMode::NoMode);
    assert_eq!(drv.pool.count(), 1);
    assert_eq!(owner_app(&drv).samples_outstanding, 0);
}

#[test]
fn stop_sampling_reclaims_loaned_buffers() {
    let mut drv = fresh_driver();
    give_buffer(&mut drv, 0, 0x4000, 512);
    assert_eq!(drv.sample_buffer(0, 1000), Ok(()));
    assert_eq!(drv.loaned, 2);
    assert_eq!(drv.command(5, 0, 0, 7), CommandReturn::Success);
    assert!(!drv.active);
    assert_eq!(drv.mode, AdcMode::NoMode);
    assert_eq!(drv.pool.count(), 3);
    assert_eq!(drv.loaned, 0);
    assert_eq!(owner_app(&drv).app_buf_offset, 0);
}

#[test]
fn oversized_buffer_requests_more_rounds() {
    let mut drv = fresh_driver();
    // 512-sample demand over 128-sample slots: two rounds up front,
    // then one more per callback
    give_buffer(&mut drv, 0, 0x4000, 1024);
    assert_eq!(drv.sample_buffer(0, 1000), Ok(()));
    assert_eq!(owner_app(&drv).samples_remaining, 256);
    assert_eq!(owner_app(&drv).samples_outstanding, 256);
    let filled = drv.adc.held.remove(0);
    assert_eq!(drv.samples_ready(filled, 128), None);
    // one more round was requested from the pool
    assert_eq!(owner_app(&drv).samples_remaining, 128);
    assert_eq!(owner_app(&drv).samples_outstanding, 256);
    assert_eq!(drv.adc.request_lens, vec![128, 128, 128]);
    assert_eq!(drv.loaned, 2);
}

#[test]
fn replace_buffer_banks_a_returned_slot() {
    let mut drv = fresh_driver();
    let b = drv.pool.withdraw().unwrap();
    drv.loaned += 1;
    drv.replace_buffer(b);
    drv.loaned -= 1;
    assert_eq!(drv.pool.count(), 3);
}

// An explicit stop with an unreachable owner still forces the hardware
// off, reclaims the on-loan slots, and reverts to idle.
#[test]
fn stop_with_revoked_owner_still_cleans_up() {
    let mut drv = fresh_driver();
    give_buffer(&mut drv, 0, 0x4000, 512);
    assert_eq!(drv.sample_buffer(0, 1000), Ok(()));
    assert_eq!(drv.loaned, 2);
    drv.apps.set_inactive(7);
    let stops_before = drv.adc.stops;
    assert_eq!(drv.stop_sampling(), Err(ErrorCode::Fail));
    assert!(!drv.active);
    assert_eq!(drv.mode, AdcMode::NoMode);
    assert_eq!(drv.appid, None);
    assert!(drv.adc.stops > stops_before);
    assert_eq!(drv.pool.count(), 3);
    assert_eq!(drv.loaned, 0);
}
