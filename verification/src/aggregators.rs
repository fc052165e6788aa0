//! Per-metric view models. Each consumes one `DataUpdate` at a time and
//! deterministically folds it into bounded sliding windows: CPU usage per
//! core, memory and swap percentages, and network throughput sums.

use vstd::prelude::*;
use crate::events::Event;
use crate::metrics::{CpuData, DiskData, MemoryData, NetworkData, ProcessData, percent_spec};
use crate::window::{SlidingWindow, window_push};

verus! {

/// Samples retained per CPU core series.
pub const MAX_DATA_POINTS: usize = 50;

/// Samples retained per memory and per swap series.
pub const MEMORY_WINDOW_SIZE: usize = 10;

/// Samples retained per network direction series.
pub const NETWORK_WINDOW_SIZE: usize = 55;

pub open spec fn max_int(a: int, b: int) -> int {
    if a >= b {
        a
    } else {
        b
    }
}

/// Addition clamped to the `u64` range.
pub open spec fn sat_add64(a: int, b: int) -> int {
    if a + b <= u64::MAX {
        a + b
    } else {
        u64::MAX as int
    }
}

/// One charted CPU core: its stable name and its usage series.
pub struct CpuSeries {
    pub name: String,
    pub window: SlidingWindow,
}

/// The CPU aggregator: one sliding window per core ever seen, the number of
/// updates folded in, and the highest usage ever observed (used to scale the
/// chart axes; monotonically non-decreasing).
pub struct CpuStats {
    pub points: u64,
    pub max_usage: u64,
    pub series: Vec<CpuSeries>,
}

/// Index of the first series named `name`, or -1 when none is.
pub open spec fn find_group(g: Seq<(Seq<char>, Seq<u64>)>, name: Seq<char>) -> int
    decreases g.len(),
{
    if g.len() == 0 {
        -1
    } else if g[0].0 == name {
        0
    } else {
        let r = find_group(g.skip(1), name);
        if r == -1 {
            -1
        } else {
            r + 1
        }
    }
}

proof fn lemma_find_group_props(g: Seq<(Seq<char>, Seq<u64>)>, name: Seq<char>)
    ensures
        find_group(g, name) == -1 ==> forall|i: int| 0 <= i < g.len() ==> (#[trigger] g[i]).0 != name,
        find_group(g, name) != -1 ==> {
            &&& 0 <= find_group(g, name) < g.len()
            &&& g[find_group(g, name)].0 == name
            &&& forall|i: int| 0 <= i < find_group(g, name) ==> (#[trigger] g[i]).0 != name
        },
    decreases g.len(),
{
    if g.len() > 0 && g[0].0 != name {
        let t = g.skip(1);
        lemma_find_group_props(t, name);
        if find_group(t, name) == -1 {
            assert forall|i: int| 0 <= i < g.len() implies (#[trigger] g[i]).0 != name by {
                if i > 0 {
                    assert(t[i - 1] == g[i]);
                }
            }
        } else {
            let r = find_group(t, name);
            assert(g[r + 1] == t[r]);
            assert forall|i: int| 0 <= i < r + 1 implies (#[trigger] g[i]).0 != name by {
                if i > 0 {
                    assert(t[i - 1] == g[i]);
                }
            }
        }
    }
}

/// Fold one core's reading into the group sequence: push into the first
/// series of that name, or append a fresh one-sample series for a core not
/// seen before.
pub open spec fn apply_cpu_record(
    g: Seq<(Seq<char>, Seq<u64>)>,
    cap: int,
    name: Seq<char>,
    usage: u64,
) -> Seq<(Seq<char>, Seq<u64>)> {
    let i = find_group(g, name);
    if i == -1 {
        g.push((name, seq![usage]))
    } else {
        g.update(i, (name, window_push(g[i].1, cap, usage)))
    }
}

/// Fold a whole update, oldest record first.
pub open spec fn apply_cpu_records(
    g: Seq<(Seq<char>, Seq<u64>)>,
    cap: int,
    data: Seq<CpuData>,
) -> Seq<(Seq<char>, Seq<u64>)>
    decreases data.len(),
{
    if data.len() == 0 {
        g
    } else {
        apply_cpu_records(
            apply_cpu_record(g, cap, data[0].cpu_name@, data[0].cpu_usage),
            cap,
            data.skip(1),
        )
    }
}

proof fn lemma_apply_cpu_records_snoc(
    g: Seq<(Seq<char>, Seq<u64>)>,
    cap: int,
    data: Seq<CpuData>,
    x: CpuData,
)
    ensures
        apply_cpu_records(g, cap, data.push(x)) == apply_cpu_record(
            apply_cpu_records(g, cap, data),
            cap,
            x.cpu_name@,
            x.cpu_usage,
        ),
    decreases data.len(),
{
    let s = data.push(x);
    if data.len() == 0 {
        assert(s[0] == x);
        assert(s.skip(1) =~= Seq::<CpuData>::empty());
        assert(apply_cpu_records(g, cap, s) == apply_cpu_records(
            apply_cpu_record(g, cap, x.cpu_name@, x.cpu_usage),
            cap,
            s.skip(1),
        ));
        assert(apply_cpu_records(apply_cpu_record(g, cap, x.cpu_name@, x.cpu_usage), cap, Seq::<
            CpuData,
        >::empty()) == apply_cpu_record(g, cap, x.cpu_name@, x.cpu_usage));
        assert(apply_cpu_records(g, cap, data) == g);
    } else {
        let g1 = apply_cpu_record(g, cap, data[0].cpu_name@, data[0].cpu_usage);
        assert(s[0] == data[0]);
        assert(s.skip(1) =~= data.skip(1).push(x));
        assert(apply_cpu_records(g, cap, s) == apply_cpu_records(g1, cap, data.skip(1).push(x)));
        lemma_apply_cpu_records_snoc(g1, cap, data.skip(1), x);
        assert(apply_cpu_records(g, cap, data) == apply_cpu_records(g1, cap, data.skip(1)));
    }
}

/// The highest usage in one update; 0 for an empty one.
pub open spec fn max_usage_of(data: Seq<CpuData>) -> int
    decreases data.len(),
{
    if data.len() == 0 {
        0
    } else {
        max_int(data[0].cpu_usage as int, max_usage_of(data.skip(1)))
    }
}

proof fn lemma_max_usage_of_snoc(data: Seq<CpuData>, x: CpuData)
    ensures
        max_usage_of(data.push(x)) == max_int(max_usage_of(data), x.cpu_usage as int),
    decreases data.len(),
{
    let s = data.push(x);
    if data.len() == 0 {
        assert(s[0] == x);
        assert(s.skip(1) =~= Seq::<CpuData>::empty());
        assert(max_usage_of(Seq::<CpuData>::empty()) == 0);
        assert(max_usage_of(s) == max_int(x.cpu_usage as int, 0));
    } else {
        assert(s[0] == data[0]);
        assert(s.skip(1) =~= data.skip(1).push(x));
        assert(max_usage_of(s) == max_int(data[0].cpu_usage as int, max_usage_of(
            data.skip(1).push(x),
        )));
        lemma_max_usage_of_snoc(data.skip(1), x);
        assert(max_usage_of(data) == max_int(data[0].cpu_usage as int, max_usage_of(data.skip(1))));
    }
}

/// The CPU rows carried by an event, when it is a data update that has them.
pub open spec fn cpu_rows_of(event: Event) -> Option<Seq<CpuData>> {
    match event {
        Event::DataUpdate(d) => match d.cpu {
            Some(v) => Some(v@),
            None => None,
        },
        _ => None,
    }
}

impl CpuStats {
    /// The charted state: for each core ever seen, its name and its retained
    /// usage values, oldest first.
    pub open spec fn groups(&self) -> Seq<(Seq<char>, Seq<u64>)> {
        self.series@.map(|_i: int, s: CpuSeries| (s.name@, s.window.values()))
    }

    pub open spec fn wf(&self) -> bool {
        forall|i: int|
            0 <= i < self.series@.len() ==> (#[trigger] self.series@[i]).window.wf()
                && self.series@[i].window.cap() == MAX_DATA_POINTS
    }

    pub fn new() -> (s: CpuStats)
        ensures
            s.wf(),
            s.points == 0,
            s.max_usage == 0,
            s.groups() == Seq::<(Seq<char>, Seq<u64>)>::empty(),
    {
        let s = CpuStats { points: 0, max_usage: 0, series: Vec::new() };
        proof {
            assert(s.groups() =~= Seq::<(Seq<char>, Seq<u64>)>::empty());
        }
        s
    }

    /// Index of the series for `name`, or the series count when none exists.
    fn find_series(&self, name: &String) -> (r: usize)
        ensures
            find_group(self.groups(), name@) == -1 ==> r == self.series@.len(),
            find_group(self.groups(), name@) != -1 ==> r as int == find_group(
                self.groups(),
                name@,
            ),
    {
        proof {
            lemma_find_group_props(self.groups(), name@);
        }
        let mut i: usize = 0;
        while i < self.series.len()
            invariant
                0 <= i <= self.series@.len(),
                forall|k: int| 0 <= k < i ==> (#[trigger] self.groups()[k]).0 != name@,
            decreases self.series@.len() - i,
        {
            if self.series[i].name == *name {
                proof {
                    assert(self.groups()[i as int].0 == name@);
                    lemma_find_group_first(self.groups(), name@, i as int);
                }
                return i;
            }
            proof {
                assert(self.groups()[i as int].0 == self.series@[i as int].name@);
            }
            i += 1;
        }
        proof {
            lemma_find_group_props(self.groups(), name@);
            if find_group(self.groups(), name@) != -1 {
                assert(self.groups()[find_group(self.groups(), name@)].0 == name@);
            }
        }
        i
    }

    /// Fold one update into the per-core windows: every reported core's
    /// series gets one push (a core not seen before gets a fresh series),
    /// the update counter advances, and the running maximum absorbs the
    /// update's highest usage — so it never decreases.
    pub fn update(&mut self, new_data: &Vec<CpuData>)
        requires
            old(self).wf(),
        ensures
            final(self).wf(),
            final(self).groups() == apply_cpu_records(
                old(self).groups(),
                MAX_DATA_POINTS as int,
                new_data@,
            ),
            final(self).max_usage as int == max_int(
                old(self).max_usage as int,
                max_usage_of(new_data@),
            ),
            final(self).max_usage >= old(self).max_usage,
            final(self).points as int == sat_add64(old(self).points as int, 1),
    {
        self.points = self.points.saturating_add(1);
        let ghost g0 = old(self).groups();
        let ghost cap = MAX_DATA_POINTS as int;
        let mut k: usize = 0;
        proof {
            assert(new_data@.take(0) =~= Seq::<CpuData>::empty());
        }
        while k < new_data.len()
            invariant
                0 <= k <= new_data@.len(),
                self.wf(),
                self.groups() == apply_cpu_records(g0, cap, new_data@.take(k as int)),
                self.max_usage as int == max_int(
                    old(self).max_usage as int,
                    max_usage_of(new_data@.take(k as int)),
                ),
                self.max_usage >= old(self).max_usage,
                self.points as int == sat_add64(old(self).points as int, 1),
                cap == MAX_DATA_POINTS as int,
            decreases new_data@.len() - k,
        {
            let ghost g_before = self.groups();
            let ghost pre_series = self.series@;
            let rec = &new_data[k];
            let idx = self.find_series(&rec.cpu_name);
            proof {
                lemma_find_group_props(g_before, rec.cpu_name@);
            }
            if idx < self.series.len() {
                let mut entry = self.series.remove(idx);
                entry.window.push(rec.cpu_usage);
                let ghost e2 = entry;
                self.series.insert(idx, entry);
                proof {
                    vstd::seq_lib::lemma_update_is_remove_insert(pre_series, idx as int, e2);
                    assert(self.series@ =~= pre_series.update(idx as int, e2));
                    assert(g_before[idx as int].0 == pre_series[idx as int].name@);
                    assert(g_before[idx as int].1 == pre_series[idx as int].window.values());
                    assert(e2.window.values() == window_push(
                        g_before[idx as int].1,
                        cap,
                        rec.cpu_usage,
                    ));
                    assert(self.groups() =~= g_before.update(
                        idx as int,
                        (rec.cpu_name@, e2.window.values()),
                    ));
                    assert(self.groups() =~= apply_cpu_record(
                        g_before,
                        cap,
                        rec.cpu_name@,
                        rec.cpu_usage,
                    ));
                }
            } else {
                let mut w = SlidingWindow::new(MAX_DATA_POINTS);
                w.push(rec.cpu_usage);
                self.series.push(CpuSeries { name: rec.cpu_name.clone(), window: w });
                proof {
                    assert(window_push(Seq::<u64>::empty(), cap, rec.cpu_usage) =~= seq![
                        rec.cpu_usage,
                    ]);
                    assert(self.groups() =~= apply_cpu_record(
                        g_before,
                        cap,
                        rec.cpu_name@,
                        rec.cpu_usage,
                    ));
                }
            }
            if rec.cpu_usage > self.max_usage {
                self.max_usage = rec.cpu_usage;
            }
            proof {
                assert(new_data@.take(k as int + 1) =~= new_data@.take(k as int).push(
                    new_data@[k as int],
                ));
                lemma_apply_cpu_records_snoc(g0, cap, new_data@.take(k as int), new_data@[k as int]);
                lemma_max_usage_of_snoc(new_data@.take(k as int), new_data@[k as int]);
            }
            k += 1;
        }
        proof {
            assert(new_data@.take(new_data@.len() as int) =~= new_data@);
        }
    }

    /// Route one event: only a data update that carries CPU rows changes the
    /// state.
    pub fn apply(&mut self, event: &Event)
        requires
            old(self).wf(),
        ensures
            final(self).wf(),
            match cpu_rows_of(*event) {
                Some(rows) => {
                    &&& final(self).groups() == apply_cpu_records(
                        old(self).groups(),
                        MAX_DATA_POINTS as int,
                        rows,
                    )
                    &&& final(self).max_usage as int == max_int(
                        old(self).max_usage as int,
                        max_usage_of(rows),
                    )
                    &&& final(self).points as int == sat_add64(old(self).points as int, 1)
                },
                None => *final(self) == *old(self),
            },
    {
        match event {
            Event::DataUpdate(d) => match &d.cpu {
                Some(v) => self.update(v),
                None => (),
            },
            _ => (),
        }
    }
}

/// Clamp to the `u64` range.
pub open spec fn clamp64(x: int) -> int {
    if x <= u64::MAX {
        x
    } else {
        u64::MAX as int
    }
}

/// The mathematical sum of the per-interface received-byte deltas.
pub open spec fn sum_received(s: Seq<NetworkData>) -> int
    decreases s.len(),
{
    if s.len() == 0 {
        0
    } else {
        s[0].received + sum_received(s.skip(1))
    }
}

/// The mathematical sum of the per-interface transmitted-byte deltas.
pub open spec fn sum_transmitted(s: Seq<NetworkData>) -> int
    decreases s.len(),
{
    if s.len() == 0 {
        0
    } else {
        s[0].transmitted + sum_transmitted(s.skip(1))
    }
}

proof fn lemma_sum_received_snoc(s: Seq<NetworkData>, x: NetworkData)
    ensures
        sum_received(s.push(x)) == sum_received(s) + x.received,
    decreases s.len(),
{
    let t = s.push(x);
    if s.len() == 0 {
        assert(t[0] == x);
        assert(t.skip(1) =~= Seq::<NetworkData>::empty());
        assert(sum_received(Seq::<NetworkData>::empty()) == 0);
    } else {
        assert(t[0] == s[0]);
        assert(t.skip(1) =~= s.skip(1).push(x));
        lemma_sum_received_snoc(s.skip(1), x);
    }
}

proof fn lemma_sum_transmitted_snoc(s: Seq<NetworkData>, x: NetworkData)
    ensures
        sum_transmitted(s.push(x)) == sum_transmitted(s) + x.transmitted,
    decreases s.len(),
{
    let t = s.push(x);
    if s.len() == 0 {
        assert(t[0] == x);
        assert(t.skip(1) =~= Seq::<NetworkData>::empty());
        assert(sum_transmitted(Seq::<NetworkData>::empty()) == 0);
    } else {
        assert(t[0] == s[0]);
        assert(t.skip(1) =~= s.skip(1).push(x));
        lemma_sum_transmitted_snoc(s.skip(1), x);
    }
}

proof fn lemma_sum_received_nonneg(s: Seq<NetworkData>)
    ensures
        sum_received(s) >= 0,
    decreases s.len(),
{
    if s.len() > 0 {
        lemma_sum_received_nonneg(s.skip(1));
    }
}

proof fn lemma_sum_transmitted_nonneg(s: Seq<NetworkData>)
    ensures
        sum_transmitted(s) >= 0,
    decreases s.len(),
{
    if s.len() > 0 {
        lemma_sum_transmitted_nonneg(s.skip(1));
    }
}

/// Sum the received-byte deltas of one update, clamped to `u64`.
fn total_received_delta(data: &Vec<NetworkData>) -> (r: u64)
    ensures
        r as int == clamp64(sum_received(data@)),
{
    let mut acc: u64 = 0;
    let mut i: usize = 0;
    proof {
        assert(data@.take(0) =~= Seq::<NetworkData>::empty());
    }
    while i < data.len()
        invariant
            0 <= i <= data@.len(),
            acc as int == clamp64(sum_received(data@.take(i as int))),
        decreases data@.len() - i,
    {
        proof {
            assert(data@.take(i as int + 1) =~= data@.take(i as int).push(data@[i as int]));
            lemma_sum_received_snoc(data@.take(i as int), data@[i as int]);
            lemma_sum_received_nonneg(data@.take(i as int));
        }
        acc = acc.saturating_add(data[i].received);
        i += 1;
    }
    proof {
        assert(data@.take(data@.len() as int) =~= data@);
    }
    acc
}

/// Sum the transmitted-byte deltas of one update, clamped to `u64`.
fn total_transmitted_delta(data: &Vec<NetworkData>) -> (r: u64)
    ensures
        r as int == clamp64(sum_transmitted(data@)),
{
    let mut acc: u64 = 0;
    let mut i: usize = 0;
    proof {
        assert(data@.take(0) =~= Seq::<NetworkData>::empty());
    }
    while i < data.len()
        invariant
            0 <= i <= data@.len(),
            acc as int == clamp64(sum_transmitted(data@.take(i as int))),
        decreases data@.len() - i,
    {
        proof {
            assert(data@.take(i as int + 1) =~= data@.take(i as int).push(data@[i as int]));
            lemma_sum_transmitted_snoc(data@.take(i as int), data@[i as int]);
            lemma_sum_transmitted_nonneg(data@.take(i as int));
        }
        acc = acc.saturating_add(data[i].transmitted);
        i += 1;
    }
    proof {
        assert(data@.take(data@.len() as int) =~= data@);
    }
    acc
}

/// The memory aggregator: RAM and swap usage percentages, each in a bounded
/// window, plus the most recent totals.
pub struct MemoryViewModel {
    pub available_ram: SlidingWindow,
    pub available_swap: SlidingWindow,
    pub total_ram: u64,
    pub total_swap: u64,
}

impl MemoryViewModel {
    pub open spec fn wf(&self) -> bool {
        &&& self.available_ram.wf()
        &&& self.available_ram.cap() == MEMORY_WINDOW_SIZE
        &&& self.available_swap.wf()
        &&& self.available_swap.cap() == MEMORY_WINDOW_SIZE
    }

    pub fn new() -> (m: MemoryViewModel)
        ensures
            m.wf(),
            m.available_ram.values() == Seq::<u64>::empty(),
            m.available_swap.values() == Seq::<u64>::empty(),
            m.total_ram == 0,
            m.total_swap == 0,
    {
        MemoryViewModel {
            available_ram: SlidingWindow::new(MEMORY_WINDOW_SIZE),
            available_swap: SlidingWindow::new(MEMORY_WINDOW_SIZE),
            total_ram: 0,
            total_swap: 0,
        }
    }

    /// Fold one memory reading in: push this cycle's RAM and swap usage
    /// percentages (0 whenever the respective total is 0) and remember the
    /// totals.
    pub fn update(&mut self, new_data: &MemoryData)
        requires
            old(self).wf(),
        ensures
            final(self).wf(),
            final(self).available_ram.values() == window_push(
                old(self).available_ram.values(),
                MEMORY_WINDOW_SIZE as int,
                percent_spec(new_data.free_ram, new_data.total_ram) as u64,
            ),
            final(self).available_swap.values() == window_push(
                old(self).available_swap.values(),
                MEMORY_WINDOW_SIZE as int,
                percent_spec(new_data.free_swap, new_data.total_swap) as u64,
            ),
            final(self).total_ram == new_data.total_ram,
            final(self).total_swap == new_data.total_swap,
    {
        self.total_ram = new_data.total_ram;
        self.total_swap = new_data.total_swap;
        let (ram_percent, swap_percent) = new_data.usage_percentages();
        self.available_ram.push(ram_percent);
        self.available_swap.push(swap_percent);
    }
}

/// The network aggregator: one bounded window per direction of the
/// per-update delta sums, plus monotonically accumulating running totals of
/// every delta ever observed (independent of window eviction).
pub struct NetworkViewModel {
    pub received: SlidingWindow,
    pub transmitted: SlidingWindow,
    pub total_received: u64,
    pub total_transmitted: u64,
}

/// The network rows carried by an event, when it is a data update that has
/// them.
pub open spec fn network_rows_of(event: Event) -> Option<Seq<NetworkData>> {
    match event {
        Event::DataUpdate(d) => match d.networks {
            Some(v) => Some(v@),
            None => None,
        },
        _ => None,
    }
}

impl NetworkViewModel {
    pub open spec fn wf(&self) -> bool {
        &&& self.received.wf()
        &&& self.received.cap() == NETWORK_WINDOW_SIZE
        &&& self.transmitted.wf()
        &&& self.transmitted.cap() == NETWORK_WINDOW_SIZE
    }

    pub fn new() -> (m: NetworkViewModel)
        ensures
            m.wf(),
            m.received.values() == Seq::<u64>::empty(),
            m.transmitted.values() == Seq::<u64>::empty(),
            m.total_received == 0,
            m.total_transmitted == 0,
    {
        NetworkViewModel {
            received: SlidingWindow::new(NETWORK_WINDOW_SIZE),
            transmitted: SlidingWindow::new(NETWORK_WINDOW_SIZE),
            total_received: 0,
            total_transmitted: 0,
        }
    }

    /// Fold one update in: each direction's window gets the sum of that
    /// update's per-interface deltas, and the running totals grow by the
    /// same sums (clamped at the `u64` range rather than overflowing).
    pub fn update(&mut self, new_data: &Vec<NetworkData>)
        requires
            old(self).wf(),
        ensures
            final(self).wf(),
            final(self).received.values() == window_push(
                old(self).received.values(),
                NETWORK_WINDOW_SIZE as int,
                clamp64(sum_received(new_data@)) as u64,
            ),
            final(self).transmitted.values() == window_push(
                old(self).transmitted.values(),
                NETWORK_WINDOW_SIZE as int,
                clamp64(sum_transmitted(new_data@)) as u64,
            ),
            final(self).total_received as int == sat_add64(
                old(self).total_received as int,
                clamp64(sum_received(new_data@)),
            ),
            final(self).total_transmitted as int == sat_add64(
                old(self).total_transmitted as int,
                clamp64(sum_transmitted(new_data@)),
            ),
            final(self).total_received >= old(self).total_received,
            final(self).total_transmitted >= old(self).total_transmitted,
    {
        proof {
            lemma_sum_received_nonneg(new_data@);
            lemma_sum_transmitted_nonneg(new_data@);
        }
        let received_sum = total_received_delta(new_data);
        self.received.push(received_sum);
        self.total_received = self.total_received.saturating_add(received_sum);
        let transmitted_sum = total_transmitted_delta(new_data);
        self.transmitted.push(transmitted_sum);
        self.total_transmitted = self.total_transmitted.saturating_add(transmitted_sum);
    }

    /// Route one event: only a data update that carries network rows changes
    /// the state.
    pub fn apply(&mut self, event: &Event)
        requires
            old(self).wf(),
        ensures
            final(self).wf(),
            match network_rows_of(*event) {
                Some(rows) => {
                    &&& final(self).received.values() == window_push(
                        old(self).received.values(),
                        NETWORK_WINDOW_SIZE as int,
                        clamp64(sum_received(rows)) as u64,
                    )
                    &&& final(self).transmitted.values() == window_push(
                        old(self).transmitted.values(),
                        NETWORK_WINDOW_SIZE as int,
                        clamp64(sum_transmitted(rows)) as u64,
                    )
                    &&& final(self).total_received as int == sat_add64(
                        old(self).total_received as int,
                        clamp64(sum_received(rows)),
                    )
                    &&& final(self).total_transmitted as int == sat_add64(
                        old(self).total_transmitted as int,
                        clamp64(sum_transmitted(rows)),
                    )
                },
                None => *final(self) == *old(self),
            },
    {
        match event {
            Event::DataUpdate(d) => match &d.networks {
                Some(v) => self.update(v),
                None => (),
            },
            _ => (),
        }
    }
}

/// The process table's state: simply the latest process rows.
pub struct ProcessTable {
    pub collected_data: Vec<ProcessData>,
}

impl ProcessTable {
    pub fn new() -> (t: ProcessTable)
        ensures
            t.collected_data@ == Seq::<ProcessData>::empty(),
    {
        ProcessTable { collected_data: Vec::new() }
    }

    /// A data update that carries process rows replaces the table wholesale;
    /// anything else leaves it as it was.
    pub fn apply(&mut self, event: Event)
        ensures
            match event {
                Event::DataUpdate(d) => match d.processes {
                    Some(v) => final(self).collected_data == v,
                    None => *final(self) == *old(self),
                },
                _ => *final(self) == *old(self),
            },
    {
        match event {
            Event::DataUpdate(d) => {
                let snapshot = *d;
                match snapshot.processes {
                    Some(v) => {
                        self.collected_data = v;
                    },
                    None => (),
                }
            },
            _ => (),
        }
    }
}

/// The disk table's state: simply the latest disk rows.
pub struct DiskTable {
    pub collected_data: Vec<DiskData>,
}

impl DiskTable {
    pub fn new() -> (t: DiskTable)
        ensures
            t.collected_data@ == Seq::<DiskData>::empty(),
    {
        DiskTable { collected_data: Vec::new() }
    }

    /// A data update that carries disk rows replaces the table wholesale;
    /// anything else leaves it as it was.
    pub fn apply(&mut self, event: Event)
        ensures
            match event {
                Event::DataUpdate(d) => match d.disk {
                    Some(v) => final(self).collected_data == v,
                    None => *final(self) == *old(self),
                },
                _ => *final(self) == *old(self),
            },
    {
        match event {
            Event::DataUpdate(d) => {
                let snapshot = *d;
                match snapshot.disk {
                    Some(v) => {
                        self.collected_data = v;
                    },
                    None => (),
                }
            },
            _ => (),
        }
    }
}

proof fn lemma_find_group_first(g: Seq<(Seq<char>, Seq<u64>)>, name: Seq<char>, k: int)
    requires
        0 <= k < g.len(),
        g[k].0 == name,
        forall|i: int| 0 <= i < k ==> (#[trigger] g[i]).0 != name,
    ensures
        find_group(g, name) == k,
    decreases k,
{
    if k > 0 {
        lemma_find_group_first(g.skip(1), name, k - 1);
    }
}

} // verus!
