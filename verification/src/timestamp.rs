//! Expansion of the chip's wrapping 27-bit counters into monotonic 32-bit
//! timestamps, and the deduplicated history of PPS counter snapshots.

use vstd::prelude::*;

verus! {

/// Number of slots in the PPS history ring.
pub const MAX_TIMESTAMP_PPS_HISTORY: usize = 16;

/// One counter domain: the last raw 27-bit value seen and how often the
/// hardware register has rolled over (modulo 32).
#[derive(Clone, Copy, Debug, PartialEq, Eq, Structural)]
pub struct TimestampInfo {
    /// Reference value: the raw 27-bit counter at the last update.
    pub counter_us_27bits_ref: u32,
    /// Rollover count, always below 32.
    pub counter_us_27bits_wrap: u8,
}

/// The two counter domains sampled together from the chip: the free-running
/// (instantaneous) counter and the PPS-latched counter.
#[derive(Clone, Copy, Debug, PartialEq, Eq, Structural)]
pub struct TimestampCounter {
    /// Current reference of the instantaneous counter.
    pub inst: TimestampInfo,
    /// Current reference of the PPS-latched counter.
    pub pps: TimestampInfo,
}

/// A counter domain is well formed when its raw reference fits in 27 bits
/// and its wrap count stays below 32.
pub open spec fn info_wf(info: TimestampInfo) -> bool {
    info.counter_us_27bits_ref < 0x8000000 && info.counter_us_27bits_wrap < 32
}

/// Wrap count after observing `raw`: one more (modulo 32) exactly when the
/// hardware register rolled over, which shows as `raw` below the reference.
pub open spec fn wrap_after(info: TimestampInfo, raw: u32) -> u8 {
    if raw < info.counter_us_27bits_ref {
        ((info.counter_us_27bits_wrap + 1) % 32) as u8
    } else {
        info.counter_us_27bits_wrap
    }
}

/// The monotonic 32-bit value of a domain: wrap count in the top five bits,
/// raw 27-bit value below.
pub open spec fn expanded(wrap: u8, raw: u32) -> u32 {
    (wrap * 0x8000000 + raw) as u32
}

impl TimestampCounter {
    /// Both domains start at reference 0 with no rollover seen.
    pub fn new() -> (r: Self)
        ensures
            r.inst == (TimestampInfo { counter_us_27bits_ref: 0, counter_us_27bits_wrap: 0 }),
            r.pps == (TimestampInfo { counter_us_27bits_ref: 0, counter_us_27bits_wrap: 0 }),
    {
        Self {
            inst: TimestampInfo { counter_us_27bits_ref: 0, counter_us_27bits_wrap: 0 },
            pps: TimestampInfo { counter_us_27bits_ref: 0, counter_us_27bits_wrap: 0 },
        }
    }

    /// Observes a fresh raw sample of each domain, stepping the wrap count
    /// of a domain exactly when its counter rolled over since the last
    /// update, and moving the references to the new samples.
    pub fn update(&mut self, pps: u32, inst: u32)
        requires
            info_wf(old(self).pps),
            info_wf(old(self).inst),
        ensures
            final(self).pps.counter_us_27bits_wrap == wrap_after(old(self).pps, pps),
            final(self).inst.counter_us_27bits_wrap == wrap_after(old(self).inst, inst),
            final(self).pps.counter_us_27bits_ref == pps,
            final(self).inst.counter_us_27bits_ref == inst,
            pps < 0x8000000 && inst < 0x8000000 ==> info_wf(final(self).pps) && info_wf(final(self).inst),
    {
        if pps < self.pps.counter_us_27bits_ref {
            self.pps.counter_us_27bits_wrap = (self.pps.counter_us_27bits_wrap + 1) % 32;
        }
        if inst < self.inst.counter_us_27bits_ref {
            self.inst.counter_us_27bits_wrap = (self.inst.counter_us_27bits_wrap + 1) % 32;
        }
        self.pps.counter_us_27bits_ref = pps;
        self.inst.counter_us_27bits_ref = inst;
    }

    /// Expands a raw 27-bit sample of the chosen domain (PPS-latched when
    /// `pps` is set, instantaneous otherwise) to the monotonic 32-bit clock.
    pub fn expand(&mut self, pps: bool, cnt_us: u32) -> (r: u32)
        requires
            cnt_us < 0x8000000,
            info_wf(old(self).pps),
            info_wf(old(self).inst),
        ensures
            *final(self) == *old(self),
            pps ==> r == expanded(old(self).pps.counter_us_27bits_wrap, cnt_us),
            !pps ==> r == expanded(old(self).inst.counter_us_27bits_wrap, cnt_us),
    {
        let tinfo = if pps { &self.pps } else { &self.inst };
        let wrap: u32 = tinfo.counter_us_27bits_wrap as u32;
        wrap * 0x8000000 + cnt_us
    }

    /// Expands a packet's raw 27-bit timestamp in the instantaneous domain.
    /// A packet sits in the chip FIFO before software reads it, so its
    /// timestamp may predate the last reference across one rollover: when
    /// the reference is below the packet value, the previous wrap count
    /// (modulo 32) is the right one.
    pub fn pkt_expand(&mut self, pkt_cnt_us: u32) -> (r: u32)
        requires
            pkt_cnt_us < 0x8000000,
            info_wf(old(self).inst),
        ensures
            *final(self) == *old(self),
            r == expanded(pkt_wrap(old(self).inst, pkt_cnt_us), pkt_cnt_us),
    {
        let wrap_status: u32 =
            if self.inst.counter_us_27bits_ref >= pkt_cnt_us {
                self.inst.counter_us_27bits_wrap as u32
            } else {
                (self.inst.counter_us_27bits_wrap as u32 + 31) % 32
            };
        wrap_status * 0x8000000 + pkt_cnt_us
    }
}

/// Wrap count used to expand a packet timestamp: the current one when the
/// reference has already reached the packet value, else the previous one.
pub open spec fn pkt_wrap(info: TimestampInfo, pkt_cnt_us: u32) -> u8 {
    if info.counter_us_27bits_ref >= pkt_cnt_us {
        info.counter_us_27bits_wrap
    } else {
        ((info.counter_us_27bits_wrap + 31) % 32) as u8
    }
}

/// Circular log of the last raw PPS counter snapshots. A snapshot is stored
/// only when it differs from the most recently stored one, so duplicate
/// reads of the same PPS edge never count twice.
#[derive(Clone, Debug)]
pub struct TimestampPpsHistory {
    /// The stored snapshots; always exactly [`MAX_TIMESTAMP_PPS_HISTORY`] slots.
    pub history: Vec<u32>,
    /// Slot holding the most recently stored snapshot.
    pub idx: usize,
    /// How many slots hold real data, up to the capacity.
    pub size: usize,
}

/// Model of the ring: slot contents, write index, and fill count.
pub struct PpsHistoryModel {
    pub history: Seq<u32>,
    pub idx: int,
    pub size: int,
}

/// The ring is well formed when it has exactly its fixed capacity of slots,
/// the write index points at a slot, and the fill count is within capacity.
pub open spec fn history_wf(h: TimestampPpsHistory) -> bool {
    h.history@.len() == MAX_TIMESTAMP_PPS_HISTORY
        && h.idx < MAX_TIMESTAMP_PPS_HISTORY
        && h.size <= MAX_TIMESTAMP_PPS_HISTORY
}

impl View for TimestampPpsHistory {
    type V = PpsHistoryModel;

    open spec fn view(&self) -> PpsHistoryModel {
        PpsHistoryModel { history: self.history@, idx: self.idx as int, size: self.size as int }
    }
}

/// What one `save` does to the ring model: nothing when the value repeats
/// the most recently stored one (and some entry exists); otherwise the
/// write index advances circularly (staying put on the very first entry),
/// the value lands there, and the fill count grows up to capacity.
pub open spec fn save_spec(m: PpsHistoryModel, v: u32) -> PpsHistoryModel {
    if v == m.history[m.idx] && m.size != 0 {
        m
    } else {
        let idx2 = if m.size > 0 {
            if m.idx + 1 == MAX_TIMESTAMP_PPS_HISTORY { 0 } else { m.idx + 1 }
        } else {
            m.idx
        };
        PpsHistoryModel {
            history: m.history.update(idx2, v),
            idx: idx2,
            size: if m.size < MAX_TIMESTAMP_PPS_HISTORY { m.size + 1 } else { m.size },
        }
    }
}

impl TimestampPpsHistory {
    /// An empty ring: all slots zeroed, write index at the first slot.
    pub fn new() -> (r: Self)
        ensures
            history_wf(r),
            r@.history == Seq::<u32>::new(16, |i: int| 0u32),
            r@.idx == 0,
            r@.size == 0,
    {
        let mut history: Vec<u32> = Vec::new();
        let mut i: usize = 0;
        while i < MAX_TIMESTAMP_PPS_HISTORY
            invariant
                i <= 16,
                history@.len() == i,
                forall|j: int| 0 <= j < i ==> history@[j] == 0u32,
            decreases 16 - i,
        {
            history.push(0);
            i = i + 1;
        }
        proof {
            assert(history@ =~= Seq::<u32>::new(16, |i: int| 0u32));
        }
        Self { history, idx: 0, size: 0 }
    }

    /// Stores a PPS snapshot unless it repeats the most recently stored one.
    pub fn save(&mut self, timestamp_pps_reg: u32)
        requires
            history_wf(*old(self)),
        ensures
            history_wf(*final(self)),
            final(self)@ == save_spec(old(self)@, timestamp_pps_reg),
    {
        if timestamp_pps_reg != self.history[self.idx] || self.size == 0 {
            if self.size > 0 {
                self.idx = self.idx + 1;
            }
            if self.idx == MAX_TIMESTAMP_PPS_HISTORY {
                self.idx = 0;
            }
            self.history.set(self.idx, timestamp_pps_reg);
            if self.size < MAX_TIMESTAMP_PPS_HISTORY {
                self.size = self.size + 1;
            }
        }
    }
}

/// The ring model after `n` further saves of the same value `v`.
pub open spec fn save_n(m: PpsHistoryModel, v: u32, n: nat) -> PpsHistoryModel
    decreases n,
{
    if n == 0 {
        m
    } else {
        save_spec(save_n(m, v, (n - 1) as nat), v)
    }
}

/// Law: saving the same snapshot any number of further times changes
/// nothing. In particular, starting from any ring, `n >= 1` saves of one
/// value leave exactly the state after the first save — so on an empty
/// ring the fill count stays at 1 and the write index never moves again.
pub proof fn lemma_save_idempotent(m: PpsHistoryModel, v: u32, n: nat)
    requires
        0 <= m.idx < MAX_TIMESTAMP_PPS_HISTORY,
        0 <= m.size <= MAX_TIMESTAMP_PPS_HISTORY,
        m.history.len() == MAX_TIMESTAMP_PPS_HISTORY,
        n >= 1,
    ensures
        save_n(m, v, n) == save_spec(m, v),
    decreases n,
{
    assert(save_n(m, v, n) == save_spec(save_n(m, v, (n - 1) as nat), v));
    if n == 1 {
        assert(save_n(m, v, 0) == m);
    } else {
        lemma_save_idempotent(m, v, (n - 1) as nat);
        let s1 = save_spec(m, v);
        assert(s1.history[s1.idx] == v);
        assert(s1.size != 0);
        assert(save_spec(s1, v) == s1);
    }
}

} // verus!
