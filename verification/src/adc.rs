//! The ADC syscall drivers.
//!
//! `AdcDedicated` assumes complete control of the kernel ADC: it admits a
//! single owning process and supports single, continuous, and high-speed
//! buffered sampling. `AdcVirtualized` multiplexes single-sample requests
//! from many processes over a set of lower-capability channels.
//!
//! The hardware peripheral is reached through the capability traits
//! `AdcHardware` and `AdcChannelHardware`; chips implement them. Every
//! hardware request is asynchronous fire-and-return: results arrive as
//! later calls of `sample_ready` / `samples_ready`, and completion
//! notifications to the process are handed back to the caller as `Upcall`
//! values rather than scheduled directly.

use vstd::prelude::*;

use crate::app_buffer::{plan_continuous, plan_continuous_spec, plan_single_buffer, plan_single_spec,
    write_back};
use crate::app_buffer::{App, AppBuffer};
use crate::errors::{CommandReturn, ErrorCode};
use crate::grant::{others_unchanged, ProcessError, ProcessTable};
use crate::pool::BufferPool;

verus! {

/// ADC modes: the driver's internal state, and the tag a completion upcall
/// carries so the application knows which operation finished.
#[derive(Copy, Clone, Debug, PartialEq, Eq, Structural)]
pub enum AdcMode {
    NoMode,
    SingleSample,
    ContinuousSample,
    SingleBuffer,
    ContinuousBuffer,
}

/// The upcall tag of a mode: the "none" mode is tagged with the all-ones
/// word (a two's-complement minus one), the active modes count up from
/// zero.
pub open spec fn spec_mode_tag(m: AdcMode) -> usize {
    match m {
        AdcMode::NoMode => usize::MAX,
        AdcMode::SingleSample => 0,
        AdcMode::ContinuousSample => 1,
        AdcMode::SingleBuffer => 2,
        AdcMode::ContinuousBuffer => 3,
    }
}

/// Run-time form of `spec_mode_tag`.
pub fn mode_tag(m: AdcMode) -> (t: usize)
    ensures
        t == spec_mode_tag(m),
{
    match m {
        AdcMode::NoMode => usize::MAX,
        AdcMode::SingleSample => 0,
        AdcMode::ContinuousSample => 1,
        AdcMode::SingleBuffer => 2,
        AdcMode::ContinuousBuffer => 3,
    }
}

/// Whether a mode is one of the two buffered ones.
pub open spec fn buffered(m: AdcMode) -> bool {
    m == AdcMode::SingleBuffer || m == AdcMode::ContinuousBuffer
}

/// A process context after a failed start was unwound: all three counters
/// reset to zero, write offset reset, primary buffer marked active; the
/// buffers themselves are untouched.
pub open spec fn unwound_ctx(c: App) -> App {
    App {
        app_buf1: c.app_buf1,
        app_buf2: c.app_buf2,
        app_buf_offset: 0,
        samples_remaining: 0,
        samples_outstanding: 0,
        next_samples_outstanding: 0,
        using_app_buf1: true,
    }
}

/// An asynchronous notification owed to a process. For scalar modes
/// `arg2` is the channel index and `arg3` the raw sample; for buffered
/// modes `arg2` packs the completed buffer's half-length with the channel
/// and `arg3` is the caller buffer's address.
#[derive(Copy, Clone, Debug, PartialEq, Eq, Structural)]
pub struct Upcall {
    pub mode: usize,
    pub arg2: usize,
    pub arg3: usize,
}

/// The dedicated ADC peripheral capability: single and continuous scalar
/// conversions plus the high-speed double-buffered interface. Chips
/// implement this; the driver is verified against the contracts below,
/// which state only the ownership discipline of the kernel buffers.
pub trait AdcHardware {
    /// Start a single conversion; the result arrives by `sample_ready`.
    fn sample(&mut self, channel: usize) -> Result<(), ErrorCode>;

    /// Start repeated conversions at `frequency`; each result arrives by
    /// `sample_ready` and the hardware re-arms itself.
    fn sample_continuous(&mut self, channel: usize, frequency: u32) -> Result<(), ErrorCode>;

    /// Stop any outstanding sampling operation.
    fn stop_sampling(&mut self) -> Result<(), ErrorCode>;

    /// Resolution of a conversion, in bits.
    fn get_resolution_bits(&self) -> usize;

    /// Reference voltage in millivolts, if the hardware knows it.
    fn get_voltage_reference_mv(&self) -> Option<usize>;

    /// Hand two kernel buffers to the hardware and request `len1` samples
    /// into the first and then `len2` into the second. A rejection
    /// returns both buffers to the caller unchanged.
    fn sample_highspeed(
        &mut self,
        channel: usize,
        frequency: u32,
        buf1: Vec<u16>,
        len1: usize,
        buf2: Vec<u16>,
        len2: usize,
    ) -> (r: Result<(), (ErrorCode, Vec<u16>, Vec<u16>)>)
        requires
            len1 <= buf1@.len(),
            len2 <= buf2@.len(),
        ensures
            r matches Err((e, b1, b2)) ==> b1 == buf1 && b2 == buf2,
    ;

    /// Hand one further kernel buffer to the hardware for the next round.
    /// A rejection returns the buffer to the caller unchanged.
    fn provide_buffer(&mut self, buf: Vec<u16>, len: usize) -> (r: Result<
        (),
        (ErrorCode, Vec<u16>),
    >)
        requires
            len <= buf@.len(),
        ensures
            r matches Err((e, b)) ==> b == buf,
    ;

    /// Reclaim the kernel buffers the hardware still holds.
    fn retrieve_buffers(&mut self) -> Result<(Option<Vec<u16>>, Option<Vec<u16>>), ErrorCode>;
}

/// One virtualized ADC channel: the lower-capability interface the shared
/// driver multiplexes.
pub trait AdcChannelHardware {
    /// Start a single conversion on this channel.
    fn sample(&self) -> Result<(), ErrorCode>;

    /// Resolution of a conversion, in bits.
    fn get_resolution_bits(&self) -> usize;

    /// Reference voltage in millivolts, if the hardware knows it.
    fn get_voltage_reference_mv(&self) -> Option<usize>;
}

/// The dedicated ADC syscall driver: one owning process, full-featured.
pub struct AdcDedicated<A: AdcHardware> {
    /// The peripheral.
    pub adc: A,
    /// How many channels the hardware exposes.
    pub n_channels: usize,
    /// Whether a hardware operation is outstanding.
    pub active: bool,
    /// The current sampling mode.
    pub mode: AdcMode,
    /// Per-process contexts.
    pub apps: ProcessTable<App>,
    /// The owning process, if any is bound.
    pub appid: Option<u32>,
    /// The channel of the current operation.
    pub channel: usize,
    /// The pool of kernel sample buffers not currently on loan.
    pub pool: BufferPool,
    /// How many kernel buffers are on loan to the hardware.
    pub loaned: usize,
}

impl<A: AdcHardware> AdcDedicated<A> {
    /// Driver well-formedness: the three kernel buffers are accounted for
    /// between the pool and the loan to the hardware, process identities
    /// are unique, and the busy flag agrees with the mode register.
    pub open spec fn wf(&self) -> bool {
        &&& self.pool.stored() + self.loaned == 3
        &&& self.apps.wf()
        &&& (self.active <==> self.mode != AdcMode::NoMode)
    }

    /// Everything the driver owns except the peripheral itself is equal.
    pub open spec fn same_state(pre: &Self, post: &Self) -> bool {
        &&& post.n_channels == pre.n_channels
        &&& post.active == pre.active
        &&& post.mode == pre.mode
        &&& post.apps == pre.apps
        &&& post.appid == pre.appid
        &&& post.channel == pre.channel
        &&& post.pool == pre.pool
        &&& post.loaned == pre.loaned
    }

    /// Create the driver around a peripheral, a context table, and the
    /// three kernel sample buffers.
    pub fn new(
        adc: A,
        apps: ProcessTable<App>,
        n_channels: usize,
        buf1: Vec<u16>,
        buf2: Vec<u16>,
        buf3: Vec<u16>,
    ) -> (drv: AdcDedicated<A>)
        requires
            apps.wf(),
        ensures
            drv.wf(),
            !drv.active,
            drv.mode == AdcMode::NoMode,
            drv.appid is None,
            drv.n_channels == n_channels,
            drv.apps == apps,
            drv.pool.stored() == 3,
            drv.loaned == 0,
            drv.channel == 0,
    {
        AdcDedicated {
            adc,
            n_channels,
            active: false,
            mode: AdcMode::NoMode,
            apps,
            appid: None,
            channel: 0,
            pool: BufferPool::new(buf1, buf2, buf3),
            loaned: 0,
        }
    }

    /// Resolution of a conversion, in bits.
    pub fn get_resolution_bits(&self) -> usize {
        self.adc.get_resolution_bits()
    }

    /// Reference voltage in millivolts, if the hardware knows it.
    pub fn get_voltage_reference_mv(&self) -> Option<usize> {
        self.adc.get_voltage_reference_mv()
    }

    /// Store a kernel buffer we have regained ownership of: the pool's
    /// unconditional landing spot for returned buffers. The buffer lands
    /// in the last slot; that slot's previous occupant is promoted into
    /// an earlier empty slot, so with at most two slots occupied no
    /// stored buffer is dropped or duplicated.
    pub fn replace_buffer(&mut self, buf: Vec<u16>)
        ensures
            final(self).pool == old(self).pool.spec_deposit(buf),
            final(self).pool.slot3 == Some(buf),
            old(self).pool.slot3 is None ==> final(self).pool.slot1 == old(self).pool.slot1
                && final(self).pool.slot2 == old(self).pool.slot2,
            old(self).pool.slot3 is Some && old(self).pool.slot2 is None ==> final(self).pool.slot2
                == old(self).pool.slot3 && final(self).pool.slot1 == old(self).pool.slot1,
            old(self).pool.slot3 is Some && old(self).pool.slot2 is Some ==> final(self).pool.slot1
                == old(self).pool.slot3 && final(self).pool.slot2 == old(self).pool.slot2,
            old(self).pool.stored() < 3 ==> final(self).pool.stored() == old(self).pool.stored()
                + 1,
            old(self).pool.stored() == 3 ==> final(self).pool.stored() == 3,
            final(self).n_channels == old(self).n_channels,
            final(self).active == old(self).active,
            final(self).mode == old(self).mode,
            final(self).apps == old(self).apps,
            final(self).appid == old(self).appid,
            final(self).channel == old(self).channel,
            final(self).loaned == old(self).loaned,
            final(self).adc == old(self).adc,
    {
        self.pool.deposit(buf);
    }

    /// Collect a single analog sample on a channel.
    pub fn sample(&mut self, channel: usize) -> (r: Result<(), ErrorCode>)
        requires
            old(self).wf(),
        ensures
            final(self).wf(),
            old(self).active ==> r == Err::<(), ErrorCode>(ErrorCode::Busy) && Self::same_state(
                old(self),
                final(self),
            ),
            !old(self).active && channel >= old(self).n_channels ==> r == Err::<(), ErrorCode>(
                ErrorCode::Inval,
            ) && Self::same_state(old(self), final(self)),
            !old(self).active && channel < old(self).n_channels ==> {
                &&& r is Ok ==> final(self).active && final(self).mode == AdcMode::SingleSample
                    && final(self).channel == channel && final(self).apps == old(self).apps
                    && final(self).appid == old(self).appid && final(self).pool == old(self).pool
                    && final(self).loaned == old(self).loaned
                    && final(self).n_channels == old(self).n_channels
                &&& r is Err ==> !final(self).active && final(self).mode == AdcMode::NoMode
                    && final(self).channel == channel && final(self).apps == old(self).apps
                    && final(self).appid == old(self).appid && final(self).pool == old(self).pool
                    && final(self).loaned == old(self).loaned
                    && final(self).n_channels == old(self).n_channels
            },
    {
        // only one sample at a time
        if self.active {
            return Err(ErrorCode::Busy);
        }
        // convert channel index
        if channel >= self.n_channels {
            return Err(ErrorCode::Inval);
        }
        // save state for callback
        self.active = true;
        self.mode = AdcMode::SingleSample;
        self.channel = channel;

        // start a single sample
        let res = self.adc.sample(channel);
        if res.is_err() {
            // failure, clear state
            self.active = false;
            self.mode = AdcMode::NoMode;
            return res;
        }
        Ok(())
    }

    /// Collect repeated single analog samples on a channel.
    pub fn sample_continuous(&mut self, channel: usize, frequency: u32) -> (r: Result<
        (),
        ErrorCode,
    >)
        requires
            old(self).wf(),
        ensures
            final(self).wf(),
            old(self).active ==> r == Err::<(), ErrorCode>(ErrorCode::Busy) && Self::same_state(
                old(self),
                final(self),
            ),
            !old(self).active && channel >= old(self).n_channels ==> r == Err::<(), ErrorCode>(
                ErrorCode::Inval,
            ) && Self::same_state(old(self), final(self)),
            !old(self).active && channel < old(self).n_channels ==> {
                &&& r is Ok ==> final(self).active && final(self).mode
                    == AdcMode::ContinuousSample && final(self).channel == channel
                    && final(self).apps == old(self).apps && final(self).appid == old(self).appid
                    && final(self).pool == old(self).pool && final(self).loaned == old(self).loaned
                    && final(self).n_channels == old(self).n_channels
                &&& r is Err ==> !final(self).active && final(self).mode == AdcMode::NoMode
                    && final(self).channel == channel && final(self).apps == old(self).apps
                    && final(self).appid == old(self).appid && final(self).pool == old(self).pool
                    && final(self).loaned == old(self).loaned
                    && final(self).n_channels == old(self).n_channels
            },
    {
        // only one sample at a time
        if self.active {
            return Err(ErrorCode::Busy);
        }
        // convert channel index
        if channel >= self.n_channels {
            return Err(ErrorCode::Inval);
        }
        // save state for callback
        self.active = true;
        self.mode = AdcMode::ContinuousSample;
        self.channel = channel;

        let res = self.adc.sample_continuous(channel, frequency);
        if res.is_err() {
            // failure, clear state
            self.active = false;
            self.mode = AdcMode::NoMode;
            return res;
        }
        Ok(())
    }

    /// The driver is idle and the channel index is in range.
    pub open spec fn idle_ready(&self, channel: usize) -> bool {
        !self.active && channel < self.n_channels
    }

    /// The identity of the bound owner (meaningful when one is bound).
    pub open spec fn owner_id(&self) -> u32 {
        self.appid->0
    }

    /// An owner is bound and its context can still be entered.
    pub open spec fn bound_live(&self) -> bool {
        self.appid is Some && self.apps.live(self.owner_id())
    }

    /// The bound owner's context (meaningful when `bound_live()`).
    pub open spec fn owner_ctx(&self) -> App {
        self.apps.ctx_of(self.owner_id())
    }

    /// Unwind a failed buffered start: revert to idle, reset the owner's
    /// counters and offset, and surface the error.
    fn unwind_start(&mut self, i: usize, e: ErrorCode) -> (r: Result<(), ErrorCode>)
        requires
            old(self).apps.wf(),
            i < old(self).apps.procs@.len(),
        ensures
            r == Err::<(), ErrorCode>(e),
            !final(self).active,
            final(self).mode == AdcMode::NoMode,
            final(self).apps.wf(),
            final(self).apps.procs@.len() == old(self).apps.procs@.len(),
            final(self).apps.ctx_of(old(self).apps.procs@[i as int].id) == unwound_ctx(
                old(self).apps.procs@[i as int].ctx,
            ),
            others_unchanged(&old(self).apps, &final(self).apps, old(self).apps.procs@[i as int].id),
            final(self).apps.idx(old(self).apps.procs@[i as int].id) == i,
            forall|p: u32| #[trigger] final(self).apps.live(p) == old(self).apps.live(p),
            final(self).pool == old(self).pool,
            final(self).loaned == old(self).loaned,
            final(self).appid == old(self).appid,
            final(self).channel == old(self).channel,
            final(self).n_channels == old(self).n_channels,
            final(self).adc == old(self).adc,
    {
        self.active = false;
        self.mode = AdcMode::NoMode;
        let ghost apps0 = self.apps;
        {
            let entry = &mut self.apps.procs[i];
            entry.ctx.app_buf_offset = 0;
            entry.ctx.samples_remaining = 0;
            entry.ctx.samples_outstanding = 0;
            entry.ctx.next_samples_outstanding = 0;
            entry.ctx.using_app_buf1 = true;
        }
        proof {
            ProcessTable::lemma_ctx_update(&apps0, &self.apps, i as int);
        }
        Err(e)
    }

    /// Collect a buffer-full of analog samples into the owner's primary
    /// caller buffer; the demand is half the buffer's byte length.
    pub fn sample_buffer(&mut self, channel: usize, frequency: u32) -> (r: Result<(), ErrorCode>)
        requires
            old(self).wf(),
        ensures
            final(self).wf(),
            final(self).n_channels == old(self).n_channels,
            old(self).active ==> r == Err::<(), ErrorCode>(ErrorCode::Busy) && Self::same_state(
                old(self),
                final(self),
            ),
            !old(self).active && channel >= old(self).n_channels ==> r == Err::<(), ErrorCode>(
                ErrorCode::Inval,
            ) && Self::same_state(old(self), final(self)),
            old(self).idle_ready(channel) && old(self).appid is None ==> r == Err::<(), ErrorCode>(
                ErrorCode::NoMem,
            ) && Self::same_state(old(self), final(self)),
            old(self).idle_ready(channel) && old(self).appid is Some && !old(self).apps.live(
                old(self).owner_id(),
            ) ==> r == Err::<(), ErrorCode>(ErrorCode::NoMem) && final(self).appid is None
                && final(self).active == old(self).active && final(self).mode == old(self).mode
                && final(self).apps == old(self).apps && final(self).pool == old(self).pool
                && final(self).loaned == old(self).loaned && final(self).channel == old(self).channel,
            old(self).idle_ready(channel) && old(self).bound_live() && old(self).owner_ctx().app_buf1.data@.len() == 0 ==> r == Err::<(), ErrorCode>(ErrorCode::NoMem)
                && Self::same_state(old(self), final(self)),
            old(self).idle_ready(channel) && old(self).bound_live() && old(self).owner_ctx().app_buf1.data@.len() > 0 ==> {
                &&& final(self).channel == channel
                &&& final(self).appid == old(self).appid
                &&& others_unchanged(&old(self).apps, &final(self).apps, old(self).owner_id())
                &&& final(self).apps.live(old(self).owner_id())
                &&& old(self).pool.stored() < 2 ==> r == Err::<(), ErrorCode>(ErrorCode::Busy)
                    && !final(self).active && final(self).mode == AdcMode::NoMode && final(self).pool.stored() == old(self).pool.stored() && final(self).loaned == old(self).loaned && final(self).owner_ctx() == unwound_ctx(old(self).owner_ctx())
                &&& old(self).pool.stored() >= 2 ==> {
                    let plan = plan_single_spec(
                        old(self).owner_ctx().app_buf1.data@.len() as int,
                        old(self).pool.first_stored().len() as int,
                        old(self).pool.second_stored().len() as int,
                    );
                    &&& r is Ok ==> final(self).active && final(self).mode == AdcMode::SingleBuffer
                        && final(self).loaned == old(self).loaned + 2 && final(self).pool.stored()
                        == old(self).pool.stored() - 2 && final(self).owner_ctx() == (App {
                        app_buf1: old(self).owner_ctx().app_buf1,
                        app_buf2: old(self).owner_ctx().app_buf2,
                        app_buf_offset: 0,
                        samples_remaining: plan.remaining,
                        samples_outstanding: (plan.len1 + plan.len2) as usize,
                        next_samples_outstanding: old(self).owner_ctx().next_samples_outstanding,
                        using_app_buf1: true,
                    })
                    &&& r is Err ==> !final(self).active && final(self).mode == AdcMode::NoMode
                        && final(self).loaned == old(self).loaned && final(self).pool.stored()
                        == old(self).pool.stored() && final(self).owner_ctx() == unwound_ctx(
                        old(self).owner_ctx(),
                    )
                }
            },
    {
        // only one operation at a time
        if self.active {
            return Err(ErrorCode::Busy);
        }
        // convert channel index
        if channel >= self.n_channels {
            return Err(ErrorCode::Inval);
        }
        // cannot sample a buffer without a buffer to sample into
        let id = match self.appid {
            Some(id) => id,
            None => {
                return Err(ErrorCode::NoMem);
            },
        };
        let i = match self.apps.find(id) {
            Ok(i) => i,
            Err(_) => {
                // the owner is gone or revoked: forget it
                self.appid = None;
                return Err(ErrorCode::NoMem);
            },
        };
        let app_buf_length: usize = {
            let entry = &self.apps.procs[i];
            entry.ctx.app_buf1.data.len()
        };
        if app_buf_length == 0 {
            return Err(ErrorCode::NoMem);
        }
        // save state for callback
        self.active = true;
        self.mode = AdcMode::SingleBuffer;
        self.channel = channel;
        let ghost apps0 = self.apps;
        {
            let entry = &mut self.apps.procs[i];
            entry.ctx.app_buf_offset = 0;
            entry.ctx.using_app_buf1 = true;
        }
        proof {
            ProcessTable::lemma_ctx_update(&apps0, &self.apps, i as int);
        }
        let ghost apps_armed = self.apps;
        // withdraw the two kernel buffers for the first round
        let buf1 = match self.pool.withdraw() {
            Some(b) => b,
            None => {
                let r = self.unwind_start(i, ErrorCode::Busy);
                proof {
                    ProcessTable::lemma_others_unchanged_trans(
                        &apps0,
                        &apps_armed,
                        &self.apps,
                        id,
                    );
                }
                return r;
            },
        };
        let buf2 = match self.pool.withdraw() {
            Some(b) => b,
            None => {
                self.pool.deposit(buf1);
                let r = self.unwind_start(i, ErrorCode::Busy);
                proof {
                    ProcessTable::lemma_others_unchanged_trans(
                        &apps0,
                        &apps_armed,
                        &self.apps,
                        id,
                    );
                }
                return r;
            },
        };
        // determine request length and begin sampling
        let plan = plan_single_buffer(app_buf_length, buf1.len(), buf2.len());
        let ghost apps1 = self.apps;
        {
            let entry = &mut self.apps.procs[i];
            entry.ctx.samples_remaining = plan.remaining;
            entry.ctx.samples_outstanding = plan.len1 + plan.len2;
        }
        proof {
            ProcessTable::lemma_ctx_update(&apps1, &self.apps, i as int);
            ProcessTable::lemma_others_unchanged_trans(&apps0, &apps1, &self.apps, id);
        }
        let ghost apps2 = self.apps;
        let res = self.adc.sample_highspeed(channel, frequency, buf1, plan.len1, buf2, plan.len2);
        match res {
            Ok(()) => {
                self.loaned = self.loaned + 2;
                Ok(())
            },
            Err((e, b1, b2)) => {
                // store buffers again, then clear state
                self.pool.deposit(b1);
                self.pool.deposit(b2);
                let r = self.unwind_start(i, e);
                proof {
                    ProcessTable::lemma_others_unchanged_trans(&apps0, &apps2, &self.apps, id);
                }
                r
            },
        }
    }

    /// Collect analog samples continuously, filling the owner's two caller
    /// buffers alternately; an upcall is owed each time one fills.
    /// Requires both caller buffers to be present and non-empty.
    pub fn sample_buffer_continuous(&mut self, channel: usize, frequency: u32) -> (r: Result<
        (),
        ErrorCode,
    >)
        requires
            old(self).wf(),
        ensures
            final(self).wf(),
            final(self).n_channels == old(self).n_channels,
            old(self).active ==> r == Err::<(), ErrorCode>(ErrorCode::Busy) && Self::same_state(
                old(self),
                final(self),
            ),
            !old(self).active && channel >= old(self).n_channels ==> r == Err::<(), ErrorCode>(
                ErrorCode::Inval,
            ) && Self::same_state(old(self), final(self)),
            old(self).idle_ready(channel) && old(self).appid is None ==> r == Err::<(), ErrorCode>(
                ErrorCode::NoMem,
            ) && Self::same_state(old(self), final(self)),
            old(self).idle_ready(channel) && old(self).appid is Some && !old(self).apps.live(
                old(self).owner_id(),
            ) ==> r == Err::<(), ErrorCode>(ErrorCode::NoMem) && final(self).appid is None
                && final(self).active == old(self).active && final(self).mode == old(self).mode
                && final(self).apps == old(self).apps && final(self).pool == old(self).pool
                && final(self).loaned == old(self).loaned && final(self).channel == old(self).channel,
            old(self).idle_ready(channel) && old(self).bound_live() && (old(self).owner_ctx().app_buf1.data@.len() == 0 || old(self).owner_ctx().app_buf2.data@.len()
                == 0) ==> r == Err::<(), ErrorCode>(ErrorCode::NoMem) && Self::same_state(
                old(self),
                final(self),
            ),
            old(self).idle_ready(channel) && old(self).bound_live() && old(self).owner_ctx().app_buf1.data@.len() > 0 && old(self).owner_ctx().app_buf2.data@.len()
                > 0 ==> {
                &&& final(self).channel == channel
                &&& final(self).appid == old(self).appid
                &&& others_unchanged(&old(self).apps, &final(self).apps, old(self).owner_id())
                &&& final(self).apps.live(old(self).owner_id())
                &&& old(self).pool.stored() < 2 ==> r == Err::<(), ErrorCode>(ErrorCode::Busy)
                    && !final(self).active && final(self).mode == AdcMode::NoMode && final(self).pool.stored() == old(self).pool.stored() && final(self).loaned == old(self).loaned && final(self).owner_ctx() == unwound_ctx(old(self).owner_ctx())
                &&& old(self).pool.stored() >= 2 ==> {
                    let plan = plan_continuous_spec(
                        old(self).owner_ctx().app_buf1.data@.len() as int,
                        old(self).owner_ctx().app_buf2.data@.len() as int,
                        old(self).pool.first_stored().len() as int,
                        old(self).pool.second_stored().len() as int,
                    );
                    &&& r is Ok ==> final(self).active && final(self).mode
                        == AdcMode::ContinuousBuffer && final(self).loaned == old(self).loaned + 2
                        && final(self).pool.stored() == old(self).pool.stored() - 2 && final(self).owner_ctx() == (App {
                        app_buf1: old(self).owner_ctx().app_buf1,
                        app_buf2: old(self).owner_ctx().app_buf2,
                        app_buf_offset: 0,
                        samples_remaining: plan.remaining,
                        samples_outstanding: plan.outstanding,
                        next_samples_outstanding: plan.next_outstanding,
                        using_app_buf1: true,
                    })
                    &&& r is Err ==> !final(self).active && final(self).mode == AdcMode::NoMode
                        && final(self).loaned == old(self).loaned && final(self).pool.stored()
                        == old(self).pool.stored() && final(self).owner_ctx() == unwound_ctx(
                        old(self).owner_ctx(),
                    )
                }
            },
    {
        // only one operation at a time
        if self.active {
            return Err(ErrorCode::Busy);
        }
        // convert channel index
        if channel >= self.n_channels {
            return Err(ErrorCode::Inval);
        }
        // cannot continuously sample without two buffers
        let id = match self.appid {
            Some(id) => id,
            None => {
                return Err(ErrorCode::NoMem);
            },
        };
        let i = match self.apps.find(id) {
            Ok(i) => i,
            Err(_) => {
                // the owner is gone or revoked: forget it
                self.appid = None;
                return Err(ErrorCode::NoMem);
            },
        };
        let (app_buf_length, next_app_buf_length): (usize, usize) = {
            let entry = &self.apps.procs[i];
            (entry.ctx.app_buf1.data.len(), entry.ctx.app_buf2.data.len())
        };
        if app_buf_length == 0 || next_app_buf_length == 0 {
            return Err(ErrorCode::NoMem);
        }
        // save state for callback
        self.active = true;
        self.mode = AdcMode::ContinuousBuffer;
        self.channel = channel;
        let ghost apps0 = self.apps;
        {
            let entry = &mut self.apps.procs[i];
            entry.ctx.app_buf_offset = 0;
            entry.ctx.using_app_buf1 = true;
        }
        proof {
            ProcessTable::lemma_ctx_update(&apps0, &self.apps, i as int);
        }
        let ghost apps_armed = self.apps;
        // withdraw the two kernel buffers for the first round
        let buf1 = match self.pool.withdraw() {
            Some(b) => b,
            None => {
                let r = self.unwind_start(i, ErrorCode::Busy);
                proof {
                    ProcessTable::lemma_others_unchanged_trans(
                        &apps0,
                        &apps_armed,
                        &self.apps,
                        id,
                    );
                }
                return r;
            },
        };
        let buf2 = match self.pool.withdraw() {
            Some(b) => b,
            None => {
                self.pool.deposit(buf1);
                let r = self.unwind_start(i, ErrorCode::Busy);
                proof {
                    ProcessTable::lemma_others_unchanged_trans(
                        &apps0,
                        &apps_armed,
                        &self.apps,
                        id,
                    );
                }
                return r;
            },
        };
        // determine request lengths, reserving spare capacity in the second
        // kernel buffer for the next caller buffer where possible
        let plan = plan_continuous(app_buf_length, next_app_buf_length, buf1.len(), buf2.len());
        let ghost apps1 = self.apps;
        {
            let entry = &mut self.apps.procs[i];
            entry.ctx.samples_remaining = plan.remaining;
            entry.ctx.samples_outstanding = plan.outstanding;
            entry.ctx.next_samples_outstanding = plan.next_outstanding;
        }
        proof {
            ProcessTable::lemma_ctx_update(&apps1, &self.apps, i as int);
            ProcessTable::lemma_others_unchanged_trans(&apps0, &apps1, &self.apps, id);
        }
        let ghost apps2 = self.apps;
        let res = self.adc.sample_highspeed(channel, frequency, buf1, plan.len1, buf2, plan.len2);
        match res {
            Ok(()) => {
                self.loaned = self.loaned + 2;
                Ok(())
            },
            Err((e, b1, b2)) => {
                // store buffers again, then clear state
                self.pool.deposit(b1);
                self.pool.deposit(b2);
                let r = self.unwind_start(i, e);
                proof {
                    ProcessTable::lemma_others_unchanged_trans(&apps0, &apps2, &self.apps, id);
                }
                r
            },
        }
    }

    /// The transition a buffered-mode completion callback makes when the
    /// bound owner's context can be entered. `buf` and `length` are the
    /// returned kernel buffer's samples and the delivered count; `up` is
    /// the upcall owed to the process, if any.
    ///
    /// The copy clause pins every byte: exactly this callback's samples
    /// land in the active caller buffer at the old write offset, so no
    /// sample is ever copied twice; the offset clause resets the offset to
    /// zero exactly when an upcall is delivered.
    pub open spec fn buffered_callback_rel(
        pre: Self,
        post: Self,
        buf: Vec<u16>,
        length: int,
        up: Option<Upcall>,
    ) -> bool {
        let id = pre.owner_id();
        let c = pre.owner_ctx();
        let c2 = post.apps.ctx_of(id);
        let out = c.samples_outstanding - length;
        let cur = if c.using_app_buf1 {
            c.app_buf1
        } else {
            c.app_buf2
        };
        let nxt = if c.using_app_buf1 {
            c.app_buf2
        } else {
            c.app_buf1
        };
        let next_needed = nxt.data@.len() as int / 2;
        let cur_needed = cur.data@.len() as int / 2;
        let perform = c.samples_remaining == 0 && out == 0;
        // the returned buffer is banked first, so the pool a further
        // round is withdrawn from, and hence the withdrawn slot's
        // capacity, are functions of the pre-state
        let cap = pre.pool.spec_deposit(buf).first_stored().len() as int;
        &&& post.n_channels == pre.n_channels
        &&& post.channel == pre.channel
        &&& post.appid == pre.appid
        &&& others_unchanged(&pre.apps, &post.apps, id)
        &&& post.apps.live(id)
        // this callback's samples land at the old offset; no other byte of
        // either caller buffer moves
        &&& (if c.using_app_buf1 {
            c2.app_buf1.data@ == write_back(
                c.app_buf1.data@,
                buf@,
                c.app_buf_offset as int / 2,
                length,
            ) && c2.app_buf2 == c.app_buf2 && c2.app_buf1.addr == c.app_buf1.addr
        } else {
            c2.app_buf2.data@ == write_back(
                c.app_buf2.data@,
                buf@,
                c.app_buf_offset as int / 2,
                length,
            ) && c2.app_buf1 == c.app_buf1 && c2.app_buf2.addr == c.app_buf2.addr
        })
        // the write offset advances by the bytes copied, and is reset to
        // zero exactly when the caller buffer completed
        &&& c2.app_buf_offset == (if perform {
            0int
        } else {
            c.app_buf_offset + 2 * length
        })
        // an upcall is owed exactly when the caller buffer completed, and
        // carries the mode tag, the packed half-length and channel, and
        // the buffer's address
        &&& (up is Some <==> perform)
        &&& perform ==> up == Some(
            Upcall {
                mode: spec_mode_tag(pre.mode),
                arg2: (((cur.data@.len() as usize) / 2) << 8) | (pre.channel & 0xFF),
                arg3: cur.addr,
            },
        )
        // a completed single-buffer operation reverts to idle; everything
        // else stays in its mode
        &&& (if perform && pre.mode == AdcMode::SingleBuffer {
            !post.active && post.mode == AdcMode::NoMode
        } else {
            post.active == pre.active && post.mode == pre.mode
        })
        // which caller buffer is active flips exactly at a continuous swap
        &&& c2.using_app_buf1 == (if perform && pre.mode == AdcMode::ContinuousBuffer {
            !c.using_app_buf1
        } else {
            c.using_app_buf1
        })
        // counter bookkeeping
        &&& (if perform {
            if pre.mode == AdcMode::SingleBuffer {
                // nothing left to request, and the loan shrinks as the
                // hardware hands its buffers back
                &&& c2.samples_remaining == 0
                &&& c2.samples_outstanding == 0
                &&& c2.next_samples_outstanding == c.next_samples_outstanding
                &&& post.loaned <= pre.loaned - 1
                &&& post.pool.stored() >= pre.pool.stored() + 1
            } else {
                // swap: the counters account exactly for the next caller
                // buffer's demand, the reservation carried into the swap
                // is consumed, and a further round is withdrawn in the
                // same callback where the reservation undershoots
                let new_rem = if c.next_samples_outstanding <= next_needed {
                    next_needed - c.next_samples_outstanding
                } else {
                    0int
                };
                if new_rem == 0 {
                    // the next buffer is fully reserved: pre-request for
                    // the one after it, the buffer just completed
                    &&& c2.samples_remaining == 0
                    &&& c2.samples_outstanding == c.next_samples_outstanding
                    &&& c2.next_samples_outstanding == (if cur_needed <= cap {
                        cur_needed
                    } else {
                        cap
                    })
                } else {
                    let rl = if new_rem <= cap {
                        new_rem
                    } else {
                        cap
                    };
                    &&& c2.samples_remaining == new_rem - rl
                    &&& c2.samples_outstanding == c.next_samples_outstanding + rl
                    &&& c2.next_samples_outstanding == 0
                }
            }
        } else if c.samples_remaining == 0 {
            // the current buffer is fully requested but not fully
            // delivered: the reservation for the next buffer may grow,
            // never past its demand
            &&& c2.samples_remaining == 0
            &&& c2.samples_outstanding == out
            &&& (if pre.mode == AdcMode::ContinuousBuffer {
                // the reservation for the next buffer grows by one round,
                // clamped to that buffer's demand and the slot's capacity
                let quota = if c.next_samples_outstanding <= next_needed {
                    next_needed - c.next_samples_outstanding
                } else {
                    0int
                };
                c2.next_samples_outstanding == c.next_samples_outstanding + (if quota <= cap {
                    quota
                } else {
                    cap
                })
            } else {
                c2.next_samples_outstanding == c.next_samples_outstanding
            })
        } else {
            // more to request for the current buffer: one further round
            // of the withdrawn slot's capacity moves from `remaining`
            // into `outstanding`
            let rl = if c.samples_remaining <= cap {
                c.samples_remaining as int
            } else {
                cap
            };
            &&& c2.samples_remaining == c.samples_remaining - rl
            &&& c2.samples_outstanding == out + rl
            &&& c2.next_samples_outstanding == c.next_samples_outstanding
        })
    }

    /// Stop sampling: cancel any active operation, reclaim the kernel
    /// buffers the hardware holds, and deposit them back in the pool,
    /// reverting to idle before returning. No further upcall will be
    /// owed.
    ///
    /// A missing or revoked owner still forces the hardware off and
    /// reclaims the on-loan buffers; the entry failure is surfaced as a
    /// generic failure after that cleanup, with the cached ownership
    /// forgotten.
    pub fn stop_sampling(&mut self) -> (r: Result<(), ErrorCode>)
        requires
            old(self).wf(),
        ensures
            final(self).wf(),
            final(self).n_channels == old(self).n_channels,
            !old(self).active ==> r is Ok && Self::same_state(old(self), final(self)),
            old(self).active && old(self).appid is None ==> r == Err::<(), ErrorCode>(
                ErrorCode::Fail,
            ) && !final(self).active && final(self).mode == AdcMode::NoMode && final(self).appid
                is None && final(self).apps == old(self).apps && final(self).pool.stored()
                >= old(self).pool.stored() && final(self).loaned <= old(self).loaned
                && final(self).channel == old(self).channel,
            old(self).active && old(self).appid is Some && !old(self).apps.live(
                old(self).owner_id(),
            ) ==> r == Err::<(), ErrorCode>(ErrorCode::Fail) && !final(self).active
                && final(self).mode == AdcMode::NoMode && final(self).appid is None
                && final(self).apps == old(self).apps && final(self).pool.stored()
                >= old(self).pool.stored() && final(self).loaned <= old(self).loaned
                && final(self).channel == old(self).channel,
            old(self).active && old(self).bound_live() ==> {
                &&& !final(self).active
                &&& final(self).mode == AdcMode::NoMode
                &&& final(self).appid == old(self).appid
                &&& final(self).channel == old(self).channel
                &&& others_unchanged(&old(self).apps, &final(self).apps, old(self).owner_id())
                &&& final(self).apps.live(old(self).owner_id())
                &&& final(self).owner_ctx() == (App {
                    app_buf1: old(self).owner_ctx().app_buf1,
                    app_buf2: old(self).owner_ctx().app_buf2,
                    app_buf_offset: 0,
                    samples_remaining: old(self).owner_ctx().samples_remaining,
                    samples_outstanding: old(self).owner_ctx().samples_outstanding,
                    next_samples_outstanding: old(self).owner_ctx().next_samples_outstanding,
                    using_app_buf1: old(self).owner_ctx().using_app_buf1,
                })
                &&& final(self).pool.stored() >= old(self).pool.stored()
                &&& final(self).loaned <= old(self).loaned
            },
    {
        if !self.active {
            // already inactive!
            return Ok(());
        }
        let id = match self.appid {
            Some(id) => id,
            None => {
                // no owner is recorded, but a stop must still force the
                // hardware off and reclaim the on-loan buffers
                let _ = self.cleanup_unexpected();
                return Err(ErrorCode::Fail);
            },
        };
        let i = match self.apps.find(id) {
            Ok(i) => i,
            Err(_) => {
                // the owner crashed or was revoked: forget it, but still
                // stop the hardware and reclaim the buffers
                self.appid = None;
                let _ = self.cleanup_unexpected();
                return Err(ErrorCode::Fail);
            },
        };
        // clean up state
        self.active = false;
        self.mode = AdcMode::NoMode;
        let ghost apps0 = self.apps;
        {
            let entry = &mut self.apps.procs[i];
            entry.ctx.app_buf_offset = 0;
        }
        proof {
            ProcessTable::lemma_ctx_update(&apps0, &self.apps, i as int);
        }
        // actually cancel the operation
        let rc = self.adc.stop_sampling();
        if let Err(e) = rc {
            return Err(e);
        }
        // reclaim buffers
        match self.adc.retrieve_buffers() {
            Ok((b1, b2)) => {
                if let Some(b) = b1 {
                    self.pool.deposit(b);
                    // the returned buffer was on loan; the guard only
                    // shields the arithmetic
                    if self.loaned > 0 {
                        self.loaned = self.loaned - 1;
                    }
                }
                if let Some(b) = b2 {
                    self.pool.deposit(b);
                    if self.loaned > 0 {
                        self.loaned = self.loaned - 1;
                    }
                }
                Ok(())
            },
            Err(e) => Err(e),
        }
    }

    /// A callback arrived that no process is listening to (wrong mode, or
    /// the owner crashed): force the state machine back to idle, stop the
    /// hardware, and reclaim any buffers still on loan. No upcall.
    fn cleanup_unexpected(&mut self) -> (up: Option<Upcall>)
        requires
            old(self).wf(),
        ensures
            final(self).wf(),
            up is None,
            !final(self).active,
            final(self).mode == AdcMode::NoMode,
            final(self).n_channels == old(self).n_channels,
            final(self).channel == old(self).channel,
            final(self).pool.stored() >= old(self).pool.stored(),
            final(self).loaned <= old(self).loaned,
            old(self).appid is Some && old(self).apps.live(old(self).owner_id()) ==> final(self).appid == old(self).appid && others_unchanged(
                &old(self).apps,
                &final(self).apps,
                old(self).owner_id(),
            ) && final(self).apps.live(old(self).owner_id()) && final(self).owner_ctx() == (App {
                app_buf1: old(self).owner_ctx().app_buf1,
                app_buf2: old(self).owner_ctx().app_buf2,
                app_buf_offset: 0,
                samples_remaining: old(self).owner_ctx().samples_remaining,
                samples_outstanding: old(self).owner_ctx().samples_outstanding,
                next_samples_outstanding: old(self).owner_ctx().next_samples_outstanding,
                using_app_buf1: old(self).owner_ctx().using_app_buf1,
            }),
            old(self).appid is Some && !old(self).apps.live(old(self).owner_id()) ==> final(self).appid is None && final(self).apps == old(self).apps,
            old(self).appid is None ==> final(self).appid is None && final(self).apps == old(self).apps,
    {
        self.active = false;
        self.mode = AdcMode::NoMode;
        if let Some(id) = self.appid {
            match self.apps.find(id) {
                Ok(i) => {
                    let ghost apps0 = self.apps;
                    {
                        let entry = &mut self.apps.procs[i];
                        entry.ctx.app_buf_offset = 0;
                    }
                    proof {
                        ProcessTable::lemma_ctx_update(&apps0, &self.apps, i as int);
                    }
                },
                Err(_) => {
                    self.appid = None;
                },
            }
        }
        // make sure no more samples are taken: nobody is waiting on them
        let _ = self.adc.stop_sampling();
        // retrieve any buffers still with the hardware
        match self.adc.retrieve_buffers() {
            Ok((b1, b2)) => {
                if let Some(b) = b1 {
                    self.pool.deposit(b);
                    // the returned buffer was on loan; the guard only
                    // shields the arithmetic
                    if self.loaned > 0 {
                        self.loaned = self.loaned - 1;
                    }
                }
                if let Some(b) = b2 {
                    self.pool.deposit(b);
                    if self.loaned > 0 {
                        self.loaned = self.loaned - 1;
                    }
                }
            },
            Err(_) => {},
        }
        None
    }

    /// A single scalar conversion finished. In single-sample mode the
    /// operation completes and an upcall is owed; in continuous-sample
    /// mode the state is kept and an upcall is owed for this sample. A
    /// callback with no listening owner forces the machine back to idle
    /// and stops the hardware.
    pub fn sample_ready(&mut self, sample: u16) -> (up: Option<Upcall>)
        requires
            old(self).wf(),
        ensures
            final(self).wf(),
            final(self).n_channels == old(self).n_channels,
            final(self).pool == old(self).pool,
            final(self).loaned == old(self).loaned,
            final(self).channel == old(self).channel,
            final(self).apps == old(self).apps,
            old(self).active && old(self).mode == AdcMode::SingleSample && old(self).bound_live()
                ==> up == Some(
                Upcall {
                    mode: spec_mode_tag(AdcMode::SingleSample),
                    arg2: old(self).channel,
                    arg3: sample as usize,
                },
            ) && !final(self).active && final(self).mode == AdcMode::NoMode && final(self).appid
                == old(self).appid,
            old(self).active && old(self).mode == AdcMode::ContinuousSample && old(self).bound_live() ==> up == Some(
                Upcall {
                    mode: spec_mode_tag(AdcMode::ContinuousSample),
                    arg2: old(self).channel,
                    arg3: sample as usize,
                },
            ) && final(self).active && final(self).mode == AdcMode::ContinuousSample && final(self).appid == old(self).appid,
            !(old(self).active && (old(self).mode == AdcMode::SingleSample || old(self).mode
                == AdcMode::ContinuousSample) && old(self).bound_live()) ==> up is None && !final(self).active && final(self).mode == AdcMode::NoMode,
            old(self).active && (old(self).mode == AdcMode::SingleSample || old(self).mode
                == AdcMode::ContinuousSample) && old(self).appid is Some && !old(self).apps.live(
                old(self).owner_id(),
            ) ==> final(self).appid is None,
            !(old(self).active && (old(self).mode == AdcMode::SingleSample || old(self).mode
                == AdcMode::ContinuousSample)) || old(self).appid is None ==> final(self).appid
                == old(self).appid,
    {
        let mut calledback = false;
        let mut up: Option<Upcall> = None;
        if self.active && self.mode == AdcMode::SingleSample {
            // single sample complete, clean up state
            self.active = false;
            self.mode = AdcMode::NoMode;
            // perform callback
            if let Some(id) = self.appid {
                match self.apps.find(id) {
                    Ok(_) => {
                        calledback = true;
                        up = Some(
                            Upcall {
                                mode: mode_tag(AdcMode::SingleSample),
                                arg2: self.channel,
                                arg3: sample as usize,
                            },
                        );
                    },
                    Err(_) => {
                        self.appid = None;
                    },
                }
            }
        } else if self.active && self.mode == AdcMode::ContinuousSample {
            // sample ready in continuous sampling operation, keep state
            if let Some(id) = self.appid {
                match self.apps.find(id) {
                    Ok(_) => {
                        calledback = true;
                        up = Some(
                            Upcall {
                                mode: mode_tag(AdcMode::ContinuousSample),
                                arg2: self.channel,
                                arg3: sample as usize,
                            },
                        );
                    },
                    Err(_) => {
                        self.appid = None;
                    },
                }
            }
        }
        if !calledback {
            // operation probably canceled. Make sure state is consistent;
            // no callback, and no more samples taken
            self.active = false;
            self.mode = AdcMode::NoMode;
            let _ = self.adc.stop_sampling();
        }
        up
    }

    /// A kernel buffer came back from the hardware holding `length` valid
    /// samples. The buffer is first unconditionally deposited; then the
    /// samples are copied into the owner's active caller buffer, further
    /// rounds are requested as needed, and an upcall is returned when a
    /// caller buffer completed. A callback whose owner crashed or was
    /// revoked stops the hardware, reclaims all buffers, and owes no
    /// upcall.
    ///
    /// The delivered count never exceeds what was requested for the
    /// round, and a completion only arrives while at least one buffer is
    /// on loan: both are part of the hardware's callback contract.
    pub fn samples_ready(&mut self, buf: Vec<u16>, length: usize) -> (up: Option<Upcall>)
        requires
            old(self).wf(),
            old(self).loaned >= 1,
            length <= buf@.len(),
            old(self).active && buffered(old(self).mode) && old(self).bound_live() ==> {
                &&& length <= old(self).owner_ctx().samples_outstanding
                &&& old(self).owner_ctx().app_buf_offset + 2 * length <= usize::MAX
                &&& old(self).owner_ctx().samples_outstanding + old(self).owner_ctx().samples_remaining <= usize::MAX
            },
        ensures
            final(self).wf(),
            final(self).n_channels == old(self).n_channels,
            final(self).channel == old(self).channel,
            // a callback nobody expects forces the machine back to idle
            !(old(self).active && buffered(old(self).mode)) ==> up is None && !final(self).active
                && final(self).mode == AdcMode::NoMode && final(self).pool.stored() > old(self).pool.stored() && final(self).loaned < old(self).loaned,
            // no owner is recorded: the buffer is banked, nothing else moves
            old(self).active && buffered(old(self).mode) && old(self).appid is None ==> up is None
                && final(self).active == old(self).active && final(self).mode == old(self).mode
                && final(self).apps == old(self).apps && final(self).appid is None && final(self).pool.stored() == old(self).pool.stored() + 1 && final(self).loaned == old(self).loaned - 1,
            // the owner crashed or was revoked: hardware stopped, buffers
            // reclaimed, ownership forgotten, and no upcall delivered
            old(self).active && buffered(old(self).mode) && old(self).appid is Some && !old(self).apps.live(old(self).owner_id()) ==> up is None && !final(self).active && final(self).mode == AdcMode::NoMode && final(self).appid is None && final(self).apps == old(self).apps && final(self).pool.stored() > old(self).pool.stored() && final(self).loaned
                < old(self).loaned,
            // the expected case: the full completion transition
            old(self).active && buffered(old(self).mode) && old(self).bound_live() ==>
                Self::buffered_callback_rel(*old(self), *final(self), buf, length as int, up),
    {
        // Make sure in all cases we regain ownership of the buffer, and
        // fold it into the pool before any error path can short-circuit.
        self.pool.deposit(buf);
        self.loaned = self.loaned - 1;

        // do we expect a buffer?
        if !(self.active && (self.mode == AdcMode::SingleBuffer || self.mode
            == AdcMode::ContinuousBuffer)) {
            // operation was likely canceled; clean up, no callback
            return self.cleanup_unexpected();
        }
        let id = match self.appid {
            Some(id) => id,
            None => {
                // no owner recorded: nothing to copy into, nothing to stop
                return None;
            },
        };
        let i = match self.apps.find(id) {
            Ok(i) => i,
            Err(_) => {
                // the owner crashed or was revoked: forget it, stop the
                // hardware, reclaim buffers, and suppress the upcall
                self.appid = None;
                return self.cleanup_unexpected();
            },
        };
        // read the owner's bookkeeping
        let (use1, out0, rem, next_out, cur_len, next_len): (
            bool,
            usize,
            usize,
            usize,
            usize,
            usize,
        ) = {
            let entry = &self.apps.procs[i];
            (
                entry.ctx.using_app_buf1,
                entry.ctx.samples_outstanding,
                entry.ctx.samples_remaining,
                entry.ctx.next_samples_outstanding,
                if entry.ctx.using_app_buf1 {
                    entry.ctx.app_buf1.data.len()
                } else {
                    entry.ctx.app_buf2.data.len()
                },
                if entry.ctx.using_app_buf1 {
                    entry.ctx.app_buf2.data.len()
                } else {
                    entry.ctx.app_buf1.data.len()
                },
            )
        };
        // update the count of outstanding sample requests, and copy the
        // delivered samples into the active caller buffer at the current
        // offset
        let out = out0 - length;
        let ghost apps0 = self.apps;
        {
            let src = self.pool.slot3.as_ref().unwrap();
            let entry = &mut self.apps.procs[i];
            entry.ctx.samples_outstanding = out;
            entry.ctx.copy_in(src, length);
        }
        proof {
            ProcessTable::lemma_ctx_update(&apps0, &self.apps, i as int);
        }
        let mut perform_callback = false;
        if rem == 0 {
            if out == 0 {
                // the samples just delivered were the last ones needed
                perform_callback = true;
                if self.mode == AdcMode::ContinuousBuffer {
                    // switch to the next caller buffer, accounting for the
                    // request already placed for it ahead of time
                    let next_needed: usize = next_len / 2;
                    let new_rem: usize = if next_out <= next_needed {
                        next_needed - next_out
                    } else {
                        0
                    };
                    let ghost apps1 = self.apps;
                    {
                        let entry = &mut self.apps.procs[i];
                        entry.ctx.samples_remaining = new_rem;
                        entry.ctx.samples_outstanding = next_out;
                        entry.ctx.next_samples_outstanding = 0;
                        entry.ctx.using_app_buf1 = !use1;
                    }
                    proof {
                        ProcessTable::lemma_ctx_update(&apps1, &self.apps, i as int);
                        ProcessTable::lemma_others_unchanged_trans(&apps0, &apps1, &self.apps, id);
                    }
                    if new_rem == 0 {
                        // the standing reservation already covers the new
                        // buffer: pre-request for the one after it, which
                        // is the buffer just completed
                        if let Some(adc_buf) = self.pool.withdraw() {
                            let nn_needed: usize = cur_len / 2;
                            let rl: usize = if nn_needed <= adc_buf.len() {
                                nn_needed
                            } else {
                                adc_buf.len()
                            };
                            let ghost apps2 = self.apps;
                            {
                                let entry = &mut self.apps.procs[i];
                                entry.ctx.next_samples_outstanding = rl;
                            }
                            proof {
                                ProcessTable::lemma_ctx_update(&apps2, &self.apps, i as int);
                                ProcessTable::lemma_others_unchanged_trans(
                                    &apps0,
                                    &apps2,
                                    &self.apps,
                                    id,
                                );
                            }
                            match self.adc.provide_buffer(adc_buf, rl) {
                                Ok(()) => {
                                    self.loaned = self.loaned + 1;
                                },
                                Err((_, b)) => {
                                    self.pool.deposit(b);
                                },
                            }
                        }
                    } else {
                        // more samples are needed for the new buffer
                        if let Some(adc_buf) = self.pool.withdraw() {
                            let rl: usize = if new_rem <= adc_buf.len() {
                                new_rem
                            } else {
                                adc_buf.len()
                            };
                            let ghost apps2 = self.apps;
                            {
                                let entry = &mut self.apps.procs[i];
                                entry.ctx.samples_remaining = new_rem - rl;
                                entry.ctx.samples_outstanding = next_out + rl;
                            }
                            proof {
                                ProcessTable::lemma_ctx_update(&apps2, &self.apps, i as int);
                                ProcessTable::lemma_others_unchanged_trans(
                                    &apps0,
                                    &apps2,
                                    &self.apps,
                                    id,
                                );
                            }
                            match self.adc.provide_buffer(adc_buf, rl) {
                                Ok(()) => {
                                    self.loaned = self.loaned + 1;
                                },
                                Err((_, b)) => {
                                    self.pool.deposit(b);
                                },
                            }
                        }
                    }
                }
            } else {
                // outstanding requests for the current buffer remain: no
                // upcall yet. In continuous mode, begin pre-filling the
                // next caller buffer.
                if self.mode == AdcMode::ContinuousBuffer {
                    if let Some(adc_buf) = self.pool.withdraw() {
                        let next_needed: usize = next_len / 2;
                        let quota: usize = if next_out <= next_needed {
                            next_needed - next_out
                        } else {
                            0
                        };
                        let rl: usize = if quota <= adc_buf.len() {
                            quota
                        } else {
                            adc_buf.len()
                        };
                        if rl > 0 {
                            let ghost apps2 = self.apps;
                            {
                                let entry = &mut self.apps.procs[i];
                                entry.ctx.next_samples_outstanding = next_out + rl;
                            }
                            proof {
                                ProcessTable::lemma_ctx_update(&apps2, &self.apps, i as int);
                                ProcessTable::lemma_others_unchanged_trans(
                                    &apps0,
                                    &apps2,
                                    &self.apps,
                                    id,
                                );
                            }
                            match self.adc.provide_buffer(adc_buf, rl) {
                                Ok(()) => {
                                    self.loaned = self.loaned + 1;
                                },
                                Err((_, b)) => {
                                    self.pool.deposit(b);
                                },
                            }
                        } else {
                            // the next buffer is already fully reserved
                            self.pool.deposit(adc_buf);
                        }
                    }
                }
            }
        } else {
            // more samples are needed for the current buffer
            if let Some(adc_buf) = self.pool.withdraw() {
                let rl: usize = if rem <= adc_buf.len() {
                    rem
                } else {
                    adc_buf.len()
                };
                let ghost apps2 = self.apps;
                {
                    let entry = &mut self.apps.procs[i];
                    entry.ctx.samples_remaining = rem - rl;
                    entry.ctx.samples_outstanding = out + rl;
                }
                proof {
                    ProcessTable::lemma_ctx_update(&apps2, &self.apps, i as int);
                    ProcessTable::lemma_others_unchanged_trans(&apps0, &apps2, &self.apps, id);
                }
                match self.adc.provide_buffer(adc_buf, rl) {
                    Ok(()) => {
                        self.loaned = self.loaned + 1;
                    },
                    Err((_, b)) => {
                        self.pool.deposit(b);
                    },
                }
            }
        }
        // if the caller buffer filled, perform the callback
        if perform_callback {
            let (buf_len, buf_addr): (usize, usize) = {
                let entry = &self.apps.procs[i];
                if use1 {
                    (entry.ctx.app_buf1.data.len(), entry.ctx.app_buf1.addr)
                } else {
                    (entry.ctx.app_buf2.data.len(), entry.ctx.app_buf2.addr)
                }
            };
            let len_chan: usize = ((buf_len / 2) << 8usize) | (self.channel & 0xFF);
            let up = Upcall { mode: mode_tag(self.mode), arg2: len_chan, arg3: buf_addr };
            if self.mode == AdcMode::SingleBuffer {
                // the operation is complete: clean up and stop sampling
                self.active = false;
                self.mode = AdcMode::NoMode;
                let ghost apps3 = self.apps;
                {
                    let entry = &mut self.apps.procs[i];
                    entry.ctx.app_buf_offset = 0;
                }
                proof {
                    ProcessTable::lemma_ctx_update(&apps3, &self.apps, i as int);
                    ProcessTable::lemma_others_unchanged_trans(&apps0, &apps3, &self.apps, id);
                }
                let _ = self.adc.stop_sampling();
                // reclaim buffers and store them
                if let Ok((b1, b2)) = self.adc.retrieve_buffers() {
                    if let Some(b) = b1 {
                        self.pool.deposit(b);
                        // the returned buffer was on loan; the guard only
                        // shields the arithmetic
                        if self.loaned > 0 {
                            self.loaned = self.loaned - 1;
                        }
                    }
                    if let Some(b) = b2 {
                        self.pool.deposit(b);
                        if self.loaned > 0 {
                            self.loaned = self.loaned - 1;
                        }
                    }
                }
            } else {
                // a continuous swap: reset the offset for the new buffer
                let ghost apps3 = self.apps;
                {
                    let entry = &mut self.apps.procs[i];
                    entry.ctx.app_buf_offset = 0;
                }
                proof {
                    ProcessTable::lemma_ctx_update(&apps3, &self.apps, i as int);
                    ProcessTable::lemma_others_unchanged_trans(&apps0, &apps3, &self.apps, id);
                }
            }
            Some(up)
        } else {
            None
        }
    }

    /// Whether a process may bind as the capsule's owner: no owner is
    /// recorded, the recorded owner is the caller itself, or the recorded
    /// owner can no longer be entered while no operation is active
    /// (treated as abandoned).
    pub open spec fn may_bind(&self, appid: u32) -> bool {
        match self.appid {
            None => true,
            Some(owning) => if self.active {
                owning == appid
            } else {
                !self.apps.live(owning) || owning == appid
            },
        }
    }

    /// Run-time form of the ownership check. Does not modify the driver.
    fn check_ownership(&self, appid: u32) -> (ok: bool)
        requires
            self.apps.wf(),
        ensures
            ok == self.may_bind(appid),
    {
        match self.appid {
            None => true,
            Some(owning) => {
                if self.active {
                    owning == appid
                } else {
                    match self.apps.find(owning) {
                        Ok(_) => owning == appid,
                        Err(_) => true,
                    }
                }
            },
        }
    }

    /// Accept a caller buffer from a process: allow number `0` swaps in
    /// the primary buffer, `1` the secondary one, and the previous buffer
    /// is handed back. A context-entry failure hands back the buffer just
    /// passed in, unchanged, and forgets the cached ownership.
    pub fn allow_readwrite(&mut self, appid: u32, allow_num: usize, slice: AppBuffer) -> (res:
        Result<AppBuffer, (AppBuffer, ErrorCode)>)
        requires
            old(self).wf(),
        ensures
            final(self).wf(),
            final(self).n_channels == old(self).n_channels,
            final(self).active == old(self).active,
            final(self).mode == old(self).mode,
            final(self).pool == old(self).pool,
            final(self).loaned == old(self).loaned,
            final(self).channel == old(self).channel,
            // another live owner holds the capsule
            !old(self).may_bind(appid) ==> res == Err::<AppBuffer, (AppBuffer, ErrorCode)>(
                (slice, ErrorCode::NoMem),
            ) && final(self).apps == old(self).apps && final(self).appid == old(self).appid,
            // unknown allow number
            old(self).may_bind(appid) && allow_num >= 2 ==> res == Err::<
                AppBuffer,
                (AppBuffer, ErrorCode),
            >((slice, ErrorCode::NoSupport)) && final(self).apps == old(self).apps && final(self).appid == Some(appid),
            // the caller itself cannot be entered: the buffer just passed
            // in comes straight back and ownership is forgotten
            old(self).may_bind(appid) && allow_num < 2 && !old(self).apps.live(appid) ==> res
                == Err::<AppBuffer, (AppBuffer, ErrorCode)>((slice, ErrorCode::Fail)) && final(self).apps == old(self).apps && final(self).appid is None,
            // the swap: the new buffer is stored, the previous one is
            // handed back
            old(self).may_bind(appid) && allow_num == 0 && old(self).apps.live(appid) ==> res
                == Ok::<AppBuffer, (AppBuffer, ErrorCode)>(old(self).apps.ctx_of(appid).app_buf1)
                && final(self).appid == Some(appid) && final(self).apps.live(appid) && final(self).apps.ctx_of(appid) == (App {
                app_buf1: slice,
                app_buf2: old(self).apps.ctx_of(appid).app_buf2,
                app_buf_offset: old(self).apps.ctx_of(appid).app_buf_offset,
                samples_remaining: old(self).apps.ctx_of(appid).samples_remaining,
                samples_outstanding: old(self).apps.ctx_of(appid).samples_outstanding,
                next_samples_outstanding: old(self).apps.ctx_of(appid).next_samples_outstanding,
                using_app_buf1: old(self).apps.ctx_of(appid).using_app_buf1,
            }) && others_unchanged(&old(self).apps, &final(self).apps, appid),
            old(self).may_bind(appid) && allow_num == 1 && old(self).apps.live(appid) ==> res
                == Ok::<AppBuffer, (AppBuffer, ErrorCode)>(old(self).apps.ctx_of(appid).app_buf2)
                && final(self).appid == Some(appid) && final(self).apps.live(appid) && final(self).apps.ctx_of(appid) == (App {
                app_buf1: old(self).apps.ctx_of(appid).app_buf1,
                app_buf2: slice,
                app_buf_offset: old(self).apps.ctx_of(appid).app_buf_offset,
                samples_remaining: old(self).apps.ctx_of(appid).samples_remaining,
                samples_outstanding: old(self).apps.ctx_of(appid).samples_outstanding,
                next_samples_outstanding: old(self).apps.ctx_of(appid).next_samples_outstanding,
                using_app_buf1: old(self).apps.ctx_of(appid).using_app_buf1,
            }) && others_unchanged(&old(self).apps, &final(self).apps, appid),
    {
        // Succeed if this app already owns the capsule, if no app owns
        // it, or if the recorded owner no longer exists.
        if !self.check_ownership(appid) {
            return Err((slice, ErrorCode::NoMem));
        }
        self.appid = Some(appid);
        if allow_num >= 2 {
            return Err((slice, ErrorCode::NoSupport));
        }
        let i = match self.apps.find(appid) {
            Ok(i) => i,
            Err(_) => {
                self.appid = None;
                return Err((slice, ErrorCode::Fail));
            },
        };
        let mut slice = slice;
        let ghost apps0 = self.apps;
        if allow_num == 0 {
            // pass buffer for samples to go into
            let entry = &mut self.apps.procs[i];
            core::mem::swap(&mut entry.ctx.app_buf1, &mut slice);
        } else {
            // second buffer, for double-buffered continuous sampling
            let entry = &mut self.apps.procs[i];
            core::mem::swap(&mut entry.ctx.app_buf2, &mut slice);
        }
        proof {
            ProcessTable::lemma_ctx_update(&apps0, &self.apps, i as int);
        }
        Ok(slice)
    }

    /// Command dispatch: map a command number to an operation and encode
    /// the result. Ownership is checked first: a process that may not
    /// bind is refused with `NoMem`, modeling exhaustion of the
    /// single-owner resource.
    pub fn command(&mut self, command_num: usize, channel: usize, frequency: usize, appid: u32) -> (r:
        CommandReturn)
        requires
            old(self).wf(),
        ensures
            final(self).wf(),
            final(self).n_channels == old(self).n_channels,
            !old(self).may_bind(appid) ==> r == CommandReturn::Failure(ErrorCode::NoMem)
                && Self::same_state(old(self), final(self)),
            old(self).may_bind(appid) ==> {
                &&& command_num == 0 ==> r == CommandReturn::SuccessU32(
                    old(self).n_channels as u32,
                ) && final(self).appid == Some(appid) && final(self).active == old(self).active
                    && final(self).mode == old(self).mode && final(self).apps == old(self).apps
                    && final(self).pool == old(self).pool && final(self).loaned == old(self).loaned
                &&& (command_num == 1 || command_num == 2 || command_num == 3 || command_num == 4)
                    && old(self).active ==> r == CommandReturn::Failure(ErrorCode::Busy)
                &&& (command_num == 1 || command_num == 2 || command_num == 3 || command_num == 4)
                    && !old(self).active && channel >= old(self).n_channels ==> r
                    == CommandReturn::Failure(ErrorCode::Inval)
                &&& command_num == 1 && r is Success ==> final(self).active && final(self).mode
                    == AdcMode::SingleSample && final(self).channel == channel
                &&& command_num == 2 && r is Success ==> final(self).active && final(self).mode
                    == AdcMode::ContinuousSample && final(self).channel == channel
                &&& command_num == 3 && r is Success ==> final(self).active && final(self).mode
                    == AdcMode::SingleBuffer && final(self).channel == channel
                &&& command_num == 4 && r is Success ==> final(self).active && final(self).mode
                    == AdcMode::ContinuousBuffer && final(self).channel == channel
                // starting from idle, success is reported exactly when the
                // operation armed
                &&& (command_num == 1 || command_num == 2 || command_num == 3 || command_num == 4)
                    && !old(self).active ==> (r == CommandReturn::Success <==> final(self).active)
                &&& (command_num == 3 || command_num == 4) && !old(self).active && channel < old(self).n_channels && !old(self).apps.live(appid) ==> r == CommandReturn::Failure(
                    ErrorCode::NoMem,
                )
                // the caller is adopted as owner; only an operation that
                // finds the caller's own context dead forgets it again
                &&& (command_num == 1 || command_num == 2) ==> final(self).appid == Some(appid)
                &&& (command_num == 3 || command_num == 4) ==> {
                    &&& old(self).active || channel >= old(self).n_channels ==> final(self).appid
                        == Some(appid)
                    &&& !old(self).active && channel < old(self).n_channels ==> {
                        &&& old(self).apps.live(appid) ==> final(self).appid == Some(appid)
                        &&& !old(self).apps.live(appid) ==> final(self).appid is None
                    }
                }
                &&& command_num == 5 ==> {
                    &&& !old(self).active ==> final(self).appid == Some(appid)
                    &&& old(self).active ==> {
                        &&& old(self).apps.live(appid) ==> final(self).appid == Some(appid)
                        &&& !old(self).apps.live(appid) ==> final(self).appid is None
                    }
                }
                &&& command_num == 5 && !old(self).active ==> r == CommandReturn::Success && final(self).mode == old(self).mode && final(self).active == old(self).active
                &&& command_num == 5 && r is Success ==> !final(self).active && final(self).mode
                    == AdcMode::NoMode
                &&& command_num == 101 ==> r is SuccessU32 && final(self).appid == Some(appid)
                    && final(self).active == old(self).active && final(self).mode == old(self).mode
                    && final(self).apps == old(self).apps && final(self).pool == old(self).pool
                    && final(self).loaned == old(self).loaned
                &&& command_num == 102 ==> (r is SuccessU32 || r == CommandReturn::Failure(
                    ErrorCode::NoSupport,
                )) && final(self).appid == Some(appid) && final(self).active == old(self).active
                    && final(self).mode == old(self).mode && final(self).apps == old(self).apps
                    && final(self).pool == old(self).pool && final(self).loaned == old(self).loaned
                &&& !(command_num == 0 || command_num == 1 || command_num == 2 || command_num == 3
                    || command_num == 4 || command_num == 5 || command_num == 101 || command_num
                    == 102) ==> r == CommandReturn::Failure(ErrorCode::NoSupport) && final(self).appid == Some(appid) && final(self).active == old(self).active && final(self).mode == old(self).mode && final(self).apps == old(self).apps && final(self).pool
                    == old(self).pool && final(self).loaned == old(self).loaned
            },
    {
        // Succeed if this app already owns the capsule, if no app owns
        // it, or if the recorded owner no longer exists.
        if !self.check_ownership(appid) {
            return CommandReturn::Failure(ErrorCode::NoMem);
        }
        self.appid = Some(appid);
        if command_num == 0 {
            // check if present: report the channel count
            CommandReturn::SuccessU32(self.n_channels as u32)
        } else if command_num == 1 {
            // single sample on channel
            match self.sample(channel) {
                Ok(()) => CommandReturn::Success,
                Err(e) => CommandReturn::Failure(e),
            }
        } else if command_num == 2 {
            // repeated single samples on a channel
            match self.sample_continuous(channel, frequency as u32) {
                Ok(()) => CommandReturn::Success,
                Err(e) => CommandReturn::Failure(e),
            }
        } else if command_num == 3 {
            // multiple sample on a channel
            match self.sample_buffer(channel, frequency as u32) {
                Ok(()) => CommandReturn::Success,
                Err(e) => CommandReturn::Failure(e),
            }
        } else if command_num == 4 {
            // continuous buffered sampling on a channel
            match self.sample_buffer_continuous(channel, frequency as u32) {
                Ok(()) => CommandReturn::Success,
                Err(e) => CommandReturn::Failure(e),
            }
        } else if command_num == 5 {
            // stop sampling
            match self.stop_sampling() {
                Ok(()) => CommandReturn::Success,
                Err(e) => CommandReturn::Failure(e),
            }
        } else if command_num == 101 {
            // get resolution bits
            CommandReturn::SuccessU32(self.get_resolution_bits() as u32)
        } else if command_num == 102 {
            // get reference voltage, in millivolts
            match self.get_voltage_reference_mv() {
                Some(voltage) => CommandReturn::SuccessU32(voltage as u32),
                None => CommandReturn::Failure(ErrorCode::NoSupport),
            }
        } else {
            CommandReturn::Failure(ErrorCode::NoSupport)
        }
    }

    /// Ensure the calling process's context exists and can be entered.
    pub fn allocate_grant(&self, processid: u32) -> (r: Result<(), ProcessError>)
        requires
            self.apps.wf(),
        ensures
            r is Ok <==> self.apps.live(processid),
    {
        match self.apps.find(processid) {
            Ok(_) => Ok(()),
            Err(e) => Err(e),
        }
    }
}

/// The operations the virtualized driver can queue.
#[derive(Copy, Clone, Debug, PartialEq, Eq, Structural)]
pub enum Operation {
    OneSample,
}

/// Per-process context of the virtualized driver: whether a request is
/// queued, and which operation and channel it names.
pub struct AppSys {
    pub pending_command: bool,
    pub command: Option<Operation>,
    pub channel: usize,
}

impl Default for AppSys {
    /// The zero-initialized context a process starts with.
    fn default() -> (a: AppSys)
        ensures
            !a.pending_command,
            a.command is None,
            a.channel == 0,
    {
        AppSys { pending_command: false, command: None, channel: 0 }
    }
}

/// The multiplexed ADC syscall driver: many processes, single samples
/// only, at most one request in flight across the whole set of channels.
pub struct AdcVirtualized<C: AdcChannelHardware> {
    /// One lower-capability driver per channel.
    pub drivers: Vec<C>,
    /// Per-process contexts.
    pub apps: ProcessTable<AppSys>,
    /// The process whose request is currently in flight, if any.
    pub current_app: Option<u32>,
}

impl<C: AdcChannelHardware> AdcVirtualized<C> {
    /// Process identities are unique.
    pub open spec fn wf(&self) -> bool {
        self.apps.wf()
    }

    /// Create the driver around the per-channel drivers and a context
    /// table.
    pub fn new(drivers: Vec<C>, apps: ProcessTable<AppSys>) -> (drv: AdcVirtualized<C>)
        requires
            apps.wf(),
        ensures
            drv.wf(),
            drv.drivers == drivers,
            drv.apps == apps,
            drv.current_app is None,
    {
        AdcVirtualized { drivers, apps, current_app: None }
    }

    /// Request the sample from the specified channel.
    fn call_driver(&self, command: Operation, channel: usize) -> (r: Result<(), ErrorCode>)
        requires
            channel < self.drivers@.len(),
    {
        match command {
            Operation::OneSample => self.drivers[channel].sample(),
        }
    }

    /// Enqueue a command: dispatch it at once if no request is in flight,
    /// else queue at most one pending request in the caller's own
    /// context; a second enqueue while one is pending fails busy.
    pub fn enqueue_command(&mut self, command: Operation, channel: usize, appid: u32) -> (r: Result<
        (),
        ErrorCode,
    >)
        requires
            old(self).wf(),
        ensures
            final(self).wf(),
            final(self).drivers == old(self).drivers,
            channel >= old(self).drivers@.len() ==> r == Err::<(), ErrorCode>(ErrorCode::NoDevice)
                && final(self).apps == old(self).apps && final(self).current_app == old(self).current_app,
            channel < old(self).drivers@.len() && !old(self).apps.live(appid) ==> r == Err::<
                (),
                ErrorCode,
            >(ErrorCode::Fail) && final(self).apps == old(self).apps && final(self).current_app
                == old(self).current_app,
            channel < old(self).drivers@.len() && old(self).apps.live(appid) && old(self).current_app is None ==> final(self).apps == old(self).apps && (r is Ok ==> final(self).current_app == Some(appid)) && (r is Err ==> final(self).current_app is None),
            channel < old(self).drivers@.len() && old(self).apps.live(appid) && old(self).current_app is Some ==> final(self).current_app == old(self).current_app && {
                &&& old(self).apps.ctx_of(appid).pending_command ==> r == Err::<(), ErrorCode>(
                    ErrorCode::Busy,
                ) && final(self).apps == old(self).apps
                &&& !old(self).apps.ctx_of(appid).pending_command ==> r is Ok && final(self).apps.ctx_of(appid) == (AppSys {
                    pending_command: true,
                    command: Some(command),
                    channel,
                }) && others_unchanged(&old(self).apps, &final(self).apps, appid) && final(self).apps.live(appid)
            },
    {
        if channel >= self.drivers.len() {
            return Err(ErrorCode::NoDevice);
        }
        let i = match self.apps.find(appid) {
            Ok(i) => i,
            Err(_) => {
                // entry failed: surface a generic failure to the caller
                return Err(ErrorCode::Fail);
            },
        };
        if self.current_app.is_none() {
            // nothing in flight: dispatch immediately
            self.current_app = Some(appid);
            let value = self.call_driver(command, channel);
            if value.is_err() {
                self.current_app = None;
            }
            value
        } else {
            let pending: bool = {
                let entry = &self.apps.procs[i];
                entry.ctx.pending_command
            };
            if pending {
                Err(ErrorCode::Busy)
            } else {
                let ghost apps0 = self.apps;
                {
                    let entry = &mut self.apps.procs[i];
                    entry.ctx.pending_command = true;
                    entry.ctx.command = Some(command);
                    entry.ctx.channel = channel;
                }
                proof {
                    ProcessTable::lemma_ctx_update(&apps0, &self.apps, i as int);
                }
                Ok(())
            }
        }
    }

    /// Command dispatch for the virtualized driver.
    pub fn command(&mut self, command_num: usize, channel: usize, data: usize, appid: u32) -> (r:
        CommandReturn)
        requires
            old(self).wf(),
        ensures
            final(self).wf(),
            final(self).drivers == old(self).drivers,
            command_num == 0 ==> r == CommandReturn::SuccessU32(old(self).drivers@.len() as u32)
                && final(self).apps == old(self).apps && final(self).current_app == old(self).current_app,
            command_num == 1 && channel >= old(self).drivers@.len() ==> r == CommandReturn::Failure(
                ErrorCode::NoDevice,
            ),
            command_num == 1 && channel < old(self).drivers@.len() && !old(self).apps.live(appid)
                ==> r == CommandReturn::Failure(ErrorCode::Fail),
            command_num == 1 && channel < old(self).drivers@.len() && old(self).apps.live(appid)
                ==> {
                &&& old(self).current_app is None ==> final(self).apps == old(self).apps && (r
                    == CommandReturn::Success <==> final(self).current_app == Some(appid)) && (r
                    is Failure ==> final(self).current_app is None)
                &&& old(self).current_app is Some ==> final(self).current_app == old(self).current_app && {
                    &&& old(self).apps.ctx_of(appid).pending_command ==> r
                        == CommandReturn::Failure(ErrorCode::Busy) && final(self).apps == old(self).apps
                    &&& !old(self).apps.ctx_of(appid).pending_command ==> r
                        == CommandReturn::Success && final(self).apps.ctx_of(appid) == (AppSys {
                        pending_command: true,
                        command: Some(Operation::OneSample),
                        channel,
                    }) && others_unchanged(&old(self).apps, &final(self).apps, appid)
                }
            },
            command_num == 101 || command_num == 102 ==> final(self).apps == old(self).apps
                && final(self).current_app == old(self).current_app && (channel >= old(self).drivers@.len() ==> r == CommandReturn::Failure(ErrorCode::NoDevice)),
            command_num == 101 && channel < old(self).drivers@.len() ==> r is SuccessU32,
            command_num == 102 && channel < old(self).drivers@.len() ==> r is SuccessU32 || r
                == CommandReturn::Failure(ErrorCode::NoSupport),
            !(command_num == 0 || command_num == 1 || command_num == 101 || command_num == 102)
                ==> r == CommandReturn::Failure(ErrorCode::NoSupport) && final(self).apps == old(self).apps && final(self).current_app == old(self).current_app,
    {
        if command_num == 0 {
            // this driver exists; report the number of channels
            CommandReturn::SuccessU32(self.drivers.len() as u32)
        } else if command_num == 1 {
            // single sample
            match self.enqueue_command(Operation::OneSample, channel, appid) {
                Ok(()) => CommandReturn::Success,
                Err(e) => CommandReturn::Failure(e),
            }
        } else if command_num == 101 {
            // get resolution bits
            if channel < self.drivers.len() {
                let bits = self.drivers[channel].get_resolution_bits();
                CommandReturn::SuccessU32(bits as u32)
            } else {
                CommandReturn::Failure(ErrorCode::NoDevice)
            }
        } else if command_num == 102 {
            // get reference voltage, in millivolts
            if channel < self.drivers.len() {
                match self.drivers[channel].get_voltage_reference_mv() {
                    Some(voltage) => CommandReturn::SuccessU32(voltage as u32),
                    None => CommandReturn::Failure(ErrorCode::NoSupport),
                }
            } else {
                CommandReturn::Failure(ErrorCode::NoDevice)
            }
        } else {
            CommandReturn::Failure(ErrorCode::NoSupport)
        }
    }

    /// Ensure the calling process's context exists and can be entered.
    pub fn allocate_grant(&self, processid: u32) -> (r: Result<(), ProcessError>)
        requires
            self.apps.wf(),
        ensures
            r is Ok <==> self.apps.live(processid),
    {
        match self.apps.find(processid) {
            Ok(_) => Ok(()),
            Err(e) => Err(e),
        }
    }

    /// A conversion finished: unbind the in-flight process, clear its
    /// pending flag, and owe it the upcall with the sample.
    ///
    /// A request another process queued meanwhile is not promoted into
    /// flight here; it is dispatched only by a later `enqueue_command`.
    pub fn sample_ready(&mut self, sample: u16) -> (up: Option<Upcall>)
        requires
            old(self).wf(),
        ensures
            final(self).wf(),
            final(self).drivers == old(self).drivers,
            final(self).current_app is None,
            old(self).current_app is None ==> up is None && final(self).apps == old(self).apps,
            old(self).current_app matches Some(id) ==> {
                &&& !old(self).apps.live(id) ==> up is None && final(self).apps == old(self).apps
                &&& old(self).apps.live(id) ==> up == Some(
                    Upcall {
                        mode: spec_mode_tag(AdcMode::SingleSample),
                        arg2: old(self).apps.ctx_of(id).channel,
                        arg3: sample as usize,
                    },
                ) && final(self).apps.ctx_of(id) == (AppSys {
                    pending_command: false,
                    command: old(self).apps.ctx_of(id).command,
                    channel: old(self).apps.ctx_of(id).channel,
                }) && others_unchanged(&old(self).apps, &final(self).apps, id)
            },
    {
        if let Some(id) = self.current_app.take() {
            match self.apps.find(id) {
                Ok(i) => {
                    let channel: usize = {
                        let entry = &self.apps.procs[i];
                        entry.ctx.channel
                    };
                    let ghost apps0 = self.apps;
                    {
                        let entry = &mut self.apps.procs[i];
                        entry.ctx.pending_command = false;
                    }
                    proof {
                        ProcessTable::lemma_ctx_update(&apps0, &self.apps, i as int);
                    }
                    Some(
                        Upcall {
                            mode: mode_tag(AdcMode::SingleSample),
                            arg2: channel,
                            arg3: sample as usize,
                        },
                    )
                },
                Err(_) => None,
            }
        } else {
            None
        }
    }
}

/// Law: a single-buffer operation whose whole demand was requested in one
/// round completes on the callback that delivers the last outstanding
/// samples with exactly one upcall, and the machine reverts to idle. Once
/// idle, every kernel buffer the hardware handed back is accounted for:
/// whenever nothing remains on loan, all three buffers are in the pool.
pub proof fn lemma_single_buffer_completion<A: AdcHardware>(
    pre: AdcDedicated<A>,
    post: AdcDedicated<A>,
    buf: Vec<u16>,
    length: int,
    up: Option<Upcall>,
)
    requires
        pre.wf(),
        post.wf(),
        pre.active,
        pre.mode == AdcMode::SingleBuffer,
        pre.bound_live(),
        pre.owner_ctx().samples_remaining == 0,
        pre.owner_ctx().samples_outstanding == length,
        AdcDedicated::buffered_callback_rel(pre, post, buf, length, up),
    ensures
        up is Some,
        !post.active,
        post.mode == AdcMode::NoMode,
        post.apps.ctx_of(pre.owner_id()).samples_outstanding == 0,
        post.apps.ctx_of(pre.owner_id()).samples_remaining == 0,
        post.apps.ctx_of(pre.owner_id()).app_buf_offset == 0,
        post.pool.stored() + post.loaned == 3,
        post.loaned == 0 ==> post.pool.stored() == 3,
{
}

/// Law: within one filling of a caller buffer, two successive buffered
/// callbacks never copy a sample onto the same byte. The first writes the
/// byte range starting at its offset, the second starts where the first
/// left off, so the written ranges are disjoint; and the write offset is
/// reset to zero exactly when an upcall hands the buffer over.
pub proof fn lemma_no_double_copy<A: AdcHardware>(
    s0: AdcDedicated<A>,
    s1: AdcDedicated<A>,
    s2: AdcDedicated<A>,
    buf_a: Vec<u16>,
    len_a: int,
    buf_b: Vec<u16>,
    len_b: int,
)
    requires
        s0.bound_live(),
        s1.appid == s0.appid,
        AdcDedicated::buffered_callback_rel(s0, s1, buf_a, len_a, None),
        AdcDedicated::buffered_callback_rel(s1, s2, buf_b, len_b, None),
        len_a >= 0,
        len_b >= 0,
    ensures
        // the first callback writes bytes [off, off + 2 * len_a), the
        // second writes [off + 2 * len_a, off + 2 * (len_a + len_b)):
        // every byte is written at most once
        s1.apps.ctx_of(s0.owner_id()).app_buf_offset == s0.owner_ctx().app_buf_offset + 2 * len_a,
        s2.apps.ctx_of(s0.owner_id()).app_buf_offset == s0.owner_ctx().app_buf_offset + 2 * len_a
            + 2 * len_b,
{
    assert(s1.apps.live(s0.owner_id()));
}

} // verus!
