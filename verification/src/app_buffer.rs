//! Per-process caller-buffer bookkeeping: the buffers a process has shared
//! with the driver, the write offset into the active one, and the
//! outstanding / remaining sample counters, together with the planning
//! arithmetic that splits a request across two kernel buffer slots.

use vstd::prelude::*;

verus! {

/// A caller-supplied buffer: a byte region shared by a process.
///
/// `addr` stands for the userspace address of the region; it is what the
/// completion upcall carries back to the process.
#[derive(Debug)]
pub struct AppBuffer {
    pub addr: usize,
    pub data: Vec<u8>,
}

impl AppBuffer {
    pub fn new(addr: usize, data: Vec<u8>) -> (b: AppBuffer)
        ensures
            b.addr == addr,
            b.data == data,
    {
        AppBuffer { addr, data }
    }

    /// Byte length of the shared region.
    pub fn len(&self) -> (n: usize)
        ensures
            n == self.data@.len(),
    {
        self.data.len()
    }
}

impl Default for AppBuffer {
    /// The empty buffer: what a process that has shared nothing holds.
    fn default() -> (b: AppBuffer)
        ensures
            b.addr == 0,
            b.data@ == Seq::<u8>::empty(),
    {
        AppBuffer { addr: 0, data: Vec::new() }
    }
}

/// Per-process context of the dedicated driver: up to two caller buffers,
/// the byte write-offset into the active one, which of the two is being
/// filled, and the three sample counters.
pub struct App {
    pub app_buf1: AppBuffer,
    pub app_buf2: AppBuffer,
    pub app_buf_offset: usize,
    pub samples_remaining: usize,
    pub samples_outstanding: usize,
    pub next_samples_outstanding: usize,
    pub using_app_buf1: bool,
}

impl Default for App {
    /// The zero-initialized context a process starts with.
    fn default() -> (app: App)
        ensures
            app.app_buf1.addr == 0,
            app.app_buf1.data@ == Seq::<u8>::empty(),
            app.app_buf2.addr == 0,
            app.app_buf2.data@ == Seq::<u8>::empty(),
            app.app_buf_offset == 0,
            app.samples_remaining == 0,
            app.samples_outstanding == 0,
            app.next_samples_outstanding == 0,
            app.using_app_buf1,
    {
        App {
            app_buf1: AppBuffer::default(),
            app_buf2: AppBuffer::default(),
            app_buf_offset: 0,
            samples_remaining: 0,
            samples_outstanding: 0,
            next_samples_outstanding: 0,
            using_app_buf1: true,
        }
    }
}

/// How one round of a single-buffer operation is split across the two
/// kernel buffer slots.
#[derive(Copy, Clone, Debug, PartialEq, Eq, Structural)]
pub struct BufferPlan {
    /// Samples requested from the first slot.
    pub len1: usize,
    /// Samples requested from the second slot.
    pub len2: usize,
    /// Samples still to request before the caller buffer is full.
    pub remaining: usize,
}

/// How the first round of a continuous double-buffered operation is split,
/// including the spare second-slot capacity reserved for the next caller
/// buffer.
#[derive(Copy, Clone, Debug, PartialEq, Eq, Structural)]
pub struct ContinuousPlan {
    /// Samples requested from the first slot.
    pub len1: usize,
    /// Samples requested from the second slot.
    pub len2: usize,
    /// Samples still to request for the current caller buffer.
    pub remaining: usize,
    /// Samples requested-and-pending for the current caller buffer.
    pub outstanding: usize,
    /// Samples already requested for the next caller buffer.
    pub next_outstanding: usize,
}

/// The single-buffer split, at the specification level: fill the first
/// slot, spill the overflow into the second, cap at the slots' capacities.
pub open spec fn plan_single_spec(caller_len: int, cap_a: int, cap_b: int) -> BufferPlan {
    let request = caller_len / 2;
    if request <= cap_a {
        BufferPlan { len1: request as usize, len2: 0, remaining: 0 }
    } else if request <= cap_a + cap_b {
        BufferPlan { len1: cap_a as usize, len2: (request - cap_a) as usize, remaining: 0 }
    } else {
        BufferPlan {
            len1: cap_a as usize,
            len2: cap_b as usize,
            remaining: (request - cap_a - cap_b) as usize,
        }
    }
}

/// Split one caller-buffer demand across two kernel slots: fill the first
/// slot, spill the overflow into the second, cap at the slots' capacities.
///
/// `caller_len` is the caller buffer's byte length; the demand is
/// `caller_len / 2` samples.
pub fn plan_single_buffer(caller_len: usize, cap_a: usize, cap_b: usize) -> (p: BufferPlan)
    ensures
        p == plan_single_spec(caller_len as int, cap_a as int, cap_b as int),
        p.len1 + p.len2 + p.remaining == caller_len / 2,
        p.len1 <= cap_a,
        p.len2 <= cap_b,
{
    let request_len: usize = caller_len / 2;
    if request_len <= cap_a {
        BufferPlan { len1: request_len, len2: 0, remaining: 0 }
    } else if request_len - cap_a <= cap_b {
        BufferPlan { len1: cap_a, len2: request_len - cap_a, remaining: 0 }
    } else {
        BufferPlan { len1: cap_a, len2: cap_b, remaining: request_len - cap_a - cap_b }
    }
}

/// The continuous split, at the specification level.
pub open spec fn plan_continuous_spec(
    caller_len: int,
    next_caller_len: int,
    cap_a: int,
    cap_b: int,
) -> ContinuousPlan {
    let needed = caller_len / 2;
    let next_needed = next_caller_len / 2;
    if needed <= cap_a {
        let len2 = if next_needed <= cap_b {
            next_needed as usize
        } else {
            cap_b as usize
        };
        ContinuousPlan {
            len1: needed as usize,
            len2,
            remaining: 0,
            outstanding: needed as usize,
            next_outstanding: len2,
        }
    } else if needed <= cap_a + cap_b {
        ContinuousPlan {
            len1: cap_a as usize,
            len2: (needed - cap_a) as usize,
            remaining: 0,
            outstanding: needed as usize,
            next_outstanding: 0,
        }
    } else {
        ContinuousPlan {
            len1: cap_a as usize,
            len2: cap_b as usize,
            remaining: (needed - cap_a - cap_b) as usize,
            outstanding: (cap_a + cap_b) as usize,
            next_outstanding: 0,
        }
    }
}

/// As `plan_single_buffer`, but when the current demand is satisfied
/// within the first slot, reserve spare second-slot capacity for the next
/// caller buffer, anticipating the double-buffer hand-off.
///
/// `caller_len` and `next_caller_len` are byte lengths of the current and
/// next caller buffers.
pub fn plan_continuous(caller_len: usize, next_caller_len: usize, cap_a: usize, cap_b: usize) -> (p:
    ContinuousPlan)
    ensures
        p == plan_continuous_spec(
            caller_len as int,
            next_caller_len as int,
            cap_a as int,
            cap_b as int,
        ),
        p.len1 <= cap_a,
        p.len2 <= cap_b,
        p.outstanding + p.remaining == caller_len / 2,
        p.next_outstanding <= next_caller_len / 2,
{
    let samples_needed: usize = caller_len / 2;
    let next_samples_needed: usize = next_caller_len / 2;
    if samples_needed <= cap_a {
        // The whole current demand fits in the first slot; the second slot
        // starts pre-filling the next caller buffer.
        let len2: usize = if next_samples_needed <= cap_b {
            next_samples_needed
        } else {
            cap_b
        };
        ContinuousPlan {
            len1: samples_needed,
            len2,
            remaining: 0,
            outstanding: samples_needed,
            next_outstanding: len2,
        }
    } else if samples_needed - cap_a <= cap_b {
        // The current demand fits across the two slots.
        ContinuousPlan {
            len1: cap_a,
            len2: samples_needed - cap_a,
            remaining: 0,
            outstanding: samples_needed,
            next_outstanding: 0,
        }
    } else {
        // The caller buffer outsizes both slots: request the maximum.
        ContinuousPlan {
            len1: cap_a,
            len2: cap_b,
            remaining: samples_needed - cap_a - cap_b,
            outstanding: cap_a + cap_b,
            next_outstanding: 0,
        }
    }
}

/// Low byte of a sample: what lands first in the caller buffer.
pub open spec fn low_byte(s: u16) -> u8 {
    (s & 0xff) as u8
}

/// High byte of a sample: what lands second.
pub open spec fn high_byte(s: u16) -> u8 {
    (s >> 8) as u8
}

/// The byte sequence `dst` after `count` samples of `src` have been packed
/// little-endian into it, two bytes per sample, starting at sample slot
/// `skip` (byte `2 * skip`). Bytes outside the written range, and bytes
/// past the end of `dst`, keep their old value.
pub open spec fn write_back(dst: Seq<u8>, src: Seq<u16>, skip: int, count: int) -> Seq<u8> {
    Seq::new(
        dst.len(),
        |j: int|
            if 2 * skip <= j && (j - 2 * skip) / 2 < count {
                if (j - 2 * skip) % 2 == 0 {
                    low_byte(src[(j - 2 * skip) / 2])
                } else {
                    high_byte(src[(j - 2 * skip) / 2])
                }
            } else {
                dst[j]
            },
    )
}

/// Pack `length` samples of `src` little-endian into `dst`, starting at
/// sample slot `skip`; samples that would land past the end of `dst` are
/// dropped (a truncated last sample writes its low byte only).
pub fn copy_samples(dst: &mut Vec<u8>, skip: usize, src: &Vec<u16>, length: usize)
    requires
        length <= src@.len(),
    ensures
        final(dst)@ == write_back(old(dst)@, src@, skip as int, length as int),
{
    let dst_len: usize = dst.len();
    // Number of sample slots in `dst`, a truncated final slot included.
    let half_ceil: usize = dst_len / 2 + dst_len % 2;
    let mut k: usize = 0;
    while k < length
        invariant
            k <= length,
            length <= src@.len(),
            dst@.len() == old(dst)@.len(),
            dst_len == dst@.len(),
            half_ceil == dst_len / 2 + dst_len % 2,
            dst@ == write_back(old(dst)@, src@, skip as int, k as int),
        ensures
            dst@ == write_back(old(dst)@, src@, skip as int, length as int),
        decreases length - k,
    {
        if skip >= half_ceil || k >= half_ceil - skip {
            // No byte of this sample fits in `dst`: every later sample is
            // dropped too, so the remaining copy is a no-op.
            proof {
                assert(dst@ =~= write_back(old(dst)@, src@, skip as int, length as int)) by {
                    assert forall|j: int| 0 <= j < old(dst)@.len() implies write_back(
                        old(dst)@,
                        src@,
                        skip as int,
                        length as int,
                    )[j] == dst@[j] by {
                        if 2 * (skip as int) <= j && (j - 2 * (skip as int)) / 2 < length {
                            assert(skip as int + k as int >= half_ceil as int);
                            assert(j < dst_len);
                            assert(dst_len <= 2 * (half_ceil as int));
                            assert(j - 2 * (skip as int) < 2 * (k as int));
                            assert((j - 2 * (skip as int)) / 2 < k);
                        }
                    };
                };
            }
            break ;
        }
        let pos: usize = skip + k;
        let sample: u16 = src[k];
        let lo: u8 = (sample & 0xff) as u8;
        if pos < dst_len / 2 {
            let hi: u8 = (sample >> 8) as u8;
            dst[2 * pos] = lo;
            dst[2 * pos + 1] = hi;
        } else {
            // Odd-length destination: only the low byte of this sample fits.
            dst[2 * pos] = lo;
        }
        proof {
            assert(dst@ =~= write_back(old(dst)@, src@, skip as int, (k + 1) as int));
        }
        k = k + 1;
    }
}

impl App {
    /// Byte length of the caller buffer currently being filled.
    pub fn active_buffer_len(&self) -> (n: usize)
        ensures
            self.using_app_buf1 ==> n == self.app_buf1.data@.len(),
            !self.using_app_buf1 ==> n == self.app_buf2.data@.len(),
    {
        if self.using_app_buf1 {
            self.app_buf1.data.len()
        } else {
            self.app_buf2.data.len()
        }
    }

    /// Copy `length` samples into the active caller buffer at the current
    /// byte offset, little-endian, and advance the offset by `2 * length`.
    pub fn copy_in(&mut self, adc_buf: &Vec<u16>, length: usize)
        requires
            length <= adc_buf@.len(),
            old(self).app_buf_offset + 2 * length <= usize::MAX,
        ensures
            final(self).app_buf_offset == old(self).app_buf_offset + 2 * length,
            old(self).using_app_buf1 ==> final(self).app_buf1.data@ == write_back(
                old(self).app_buf1.data@,
                adc_buf@,
                old(self).app_buf_offset as int / 2,
                length as int,
            ) && final(self).app_buf2 == old(self).app_buf2,
            !old(self).using_app_buf1 ==> final(self).app_buf2.data@ == write_back(
                old(self).app_buf2.data@,
                adc_buf@,
                old(self).app_buf_offset as int / 2,
                length as int,
            ) && final(self).app_buf1 == old(self).app_buf1,
            final(self).app_buf1.addr == old(self).app_buf1.addr,
            final(self).app_buf2.addr == old(self).app_buf2.addr,
            final(self).samples_remaining == old(self).samples_remaining,
            final(self).samples_outstanding == old(self).samples_outstanding,
            final(self).next_samples_outstanding == old(self).next_samples_outstanding,
            final(self).using_app_buf1 == old(self).using_app_buf1,
    {
        let skip: usize = self.app_buf_offset / 2;
        if self.using_app_buf1 {
            copy_samples(&mut self.app_buf1.data, skip, adc_buf, length);
        } else {
            copy_samples(&mut self.app_buf2.data, skip, adc_buf, length);
        }
        self.app_buf_offset = self.app_buf_offset + 2 * length;
    }

    /// Toggle which caller buffer is active and reset the write offset;
    /// called only at a caller-buffer boundary.
    pub fn swap_active(&mut self)
        ensures
            final(self).using_app_buf1 == !old(self).using_app_buf1,
            final(self).app_buf_offset == 0,
            final(self).app_buf1 == old(self).app_buf1,
            final(self).app_buf2 == old(self).app_buf2,
            final(self).samples_remaining == old(self).samples_remaining,
            final(self).samples_outstanding == old(self).samples_outstanding,
            final(self).next_samples_outstanding == old(self).next_samples_outstanding,
    {
        self.using_app_buf1 = !self.using_app_buf1;
        self.app_buf_offset = 0;
    }
}

} // verus!
