use vstd::prelude::*;

verus! {

/// `a - b`, or 0 when `b` exceeds `a`.
pub open spec fn sat_sub(a: u64, b: u64) -> u64 {
    if a >= b {
        (a - b) as u64
    } else {
        0
    }
}

/// The `/proc/meminfo` fields (in kilobytes) that decide the non-reclaimable
/// RAM footprint.
///
/// ## Formula
///
/// ```text
/// reclaimable  = Buffers + max(Cached − Dirty, 0) + SReclaimable
/// must_save_kb = MemTotal − MemFree − reclaimable      (each step floored at 0)
/// ```
///
/// Under `image_size=0` the kernel drops every reclaimable page before taking
/// the hibernation snapshot; what remains must be written to the swapfile.
#[derive(Debug, Clone, Copy, PartialEq, Eq)]
pub struct MemProbe {
    pub mem_total: u64,
    pub mem_free: u64,
    pub buffers: u64,
    pub cached: u64,
    pub dirty: u64,
    /// `SReclaimable`, absent on kernels before 2.6.19.
    pub s_reclaimable: Option<u64>,
}

impl MemProbe {
    /// Reclaimable kilobytes: buffers, clean page cache and reclaimable slab.
    pub open spec fn reclaimable(self) -> int {
        self.buffers + sat_sub(self.cached, self.dirty) + match self.s_reclaimable {
            Some(v) => v as int,
            None => 0,
        }
    }

    /// The non-reclaimable footprint the formula gives.
    pub open spec fn must_save(self) -> int {
        let used = sat_sub(self.mem_total, self.mem_free);
        if used >= self.reclaimable() {
            used - self.reclaimable()
        } else {
            0
        }
    }

    /// Returns the non-reclaimable RAM footprint in kilobytes.
    pub fn must_save_kb(&self) -> (kb: u64)
        requires
            self.reclaimable() <= u64::MAX,
        ensures
            kb == self.must_save(),
    {
        let total = self.mem_total;
        let free = self.mem_free;
        let s_reclaimable = match self.s_reclaimable {
            Some(v) => v,
            None => 0,
        };
        let clean_cache = self.cached.saturating_sub(self.dirty);
        let reclaimable = self.buffers + clean_cache + s_reclaimable;
        total.saturating_sub(free).saturating_sub(reclaimable)
    }
}


/// The footprint to save never exceeds the RAM in use (total minus free).
pub proof fn law_must_save_within_used(m: MemProbe)
    ensures
        0 <= m.must_save() <= sat_sub(m.mem_total, m.mem_free) <= m.mem_total,
{
}

} // verus!
