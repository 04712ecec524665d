//! Readings of the system and of this process, taken from the `sysinfo` crate.
//!
//! A [`::sysinfo::System`] is handed in by the caller, which keeps it between
//! calls. CPU usage comes out of `sysinfo` as a float and is read by the
//! caller; memory sizes (in bytes) and CPU counts are read here. The caches
//! of the module ([`CpuUsageCache`], [`OnceReading`]) are here too.

use vstd::prelude::*;

verus! {

/// The system and process information that `sysinfo` keeps.
#[verifier::external_type_specification]
#[verifier::external_body]
pub struct ExSystem(::sysinfo::System);

/// One process as `sysinfo` last read it.
#[verifier::external_type_specification]
#[verifier::external_body]
pub struct ExProcess(::sysinfo::Process);

/// A process identifier.
#[verifier::external_type_specification]
#[verifier::external_body]
pub struct ExPid(::sysinfo::Pid);

/// The CPUs that a `System` value holds, each by its name, in order: one
/// per logical CPU (hardware thread), as `sysinfo` lists them from
/// `/proc/stat` on Linux and from the per-processor counters on Windows.
pub uninterp spec fn cpus_of(sys: ::sysinfo::System) -> Seq<Seq<char>>;

/// `System::cpus`, of which only the length is kept: the number of CPUs
/// that the value holds.
#[verifier::external_body]
fn cpu_count(sys: &::sysinfo::System) -> (n: usize)
    ensures
        n == cpus_of(*sys).len(),
{
    sys.cpus().len()
}

/// `System::refresh_cpu`: reads the CPUs (filling the list on its first
/// call) and their times. Nothing is stated of what it reads; it touches
/// only the CPU list, so the memory figures and the processes stay as they
/// were.
#[verifier::external_body]
fn refresh_cpu(sys: &mut ::sysinfo::System)
    ensures
        total_memory_of(*final(sys)) == total_memory_of(*old(sys)),
        available_memory_of(*final(sys)) == available_memory_of(*old(sys)),
        used_memory_of(*final(sys)) == used_memory_of(*old(sys)),
        forall|pid: ::sysinfo::Pid|
            #[trigger] process_of(*final(sys), pid) == process_of(*old(sys), pid),
{
    sys.refresh_cpu()
}

/// `System::physical_core_count`: `None` where the count could not be
/// read. The count is read from the machine at each call, so nothing is
/// stated of it.
#[verifier::external_body]
fn physical_core_count(sys: &::sysinfo::System) -> Option<usize> {
    sys.physical_core_count()
}

/// `System::refresh_memory`: re-reads the memory figures. Nothing is stated
/// of what it reads; it touches only the memory figures, so the CPU list
/// and the processes stay as they were.
#[verifier::external_body]
fn refresh_memory(sys: &mut ::sysinfo::System)
    ensures
        cpus_of(*final(sys)) == cpus_of(*old(sys)),
        forall|pid: ::sysinfo::Pid|
            #[trigger] process_of(*final(sys), pid) == process_of(*old(sys), pid),
{
    sys.refresh_memory()
}

/// The used memory, in bytes, that a `System` value reports from the
/// figures it last read.
pub uninterp spec fn used_memory_of(sys: ::sysinfo::System) -> u64;

/// The total memory, in bytes, that a `System` value last read.
pub uninterp spec fn total_memory_of(sys: ::sysinfo::System) -> u64;

/// The available memory, in bytes, that a `System` value last read.
pub uninterp spec fn available_memory_of(sys: ::sysinfo::System) -> u64;

/// The process `pid` among those that a `System` value holds.
pub uninterp spec fn process_of(sys: ::sysinfo::System, pid: ::sysinfo::Pid) -> Option<::sysinfo::Process>;

/// The memory, in bytes, that a `Process` value last read.
pub uninterp spec fn process_memory_of(process: ::sysinfo::Process) -> u64;

/// `System::used_memory`, in bytes: a function of the figures held in the
/// value ([`used_memory_of`]). On Linux and Windows, the systems this module
/// is built for, it is the total less the available memory, a subtraction
/// that overflows where the available figure exceeds the total; this is
/// called only where it does not. What the figures are is not stated.
#[verifier::external_body]
fn used_memory(sys: &::sysinfo::System) -> (r: u64)
    requires
        available_memory_of(*sys) <= total_memory_of(*sys),
    ensures
        r == used_memory_of(*sys),
        r == total_memory_of(*sys) - available_memory_of(*sys),
{
    sys.used_memory()
}

/// `System::total_memory`, in bytes: the figure held in the value
/// ([`total_memory_of`]). What it is is not stated.
#[verifier::external_body]
fn total_memory(sys: &::sysinfo::System) -> (r: u64)
    ensures
        r == total_memory_of(*sys),
{
    sys.total_memory()
}

/// `System::available_memory`, in bytes: the figure held in the value
/// ([`available_memory_of`]). What it is is not stated.
#[verifier::external_body]
fn available_memory(sys: &::sysinfo::System) -> (r: u64)
    ensures
        r == available_memory_of(*sys),
{
    sys.available_memory()
}

/// `System::refresh_process`: re-reads one process; `true` where it was
/// found. Nothing is stated of it.
#[verifier::external_body]
fn refresh_process(sys: &mut ::sysinfo::System, pid: ::sysinfo::Pid) -> bool {
    sys.refresh_process(pid)
}

/// `System::process`: the process `pid` among those that the value holds
/// ([`process_of`]), `None` where it holds no such process. Which processes
/// it holds is not stated.
#[verifier::external_body]
fn find_process(sys: &::sysinfo::System, pid: ::sysinfo::Pid) -> (r: Option<&::sysinfo::Process>)
    ensures
        match r {
            Some(p) => process_of(*sys, pid) == Some(*p),
            None => process_of(*sys, pid) is None,
        },
{
    sys.process(pid)
}

/// `Process::memory`: the memory of the process in bytes, the figure held
/// in the value ([`process_memory_of`]). What it is is not stated.
#[verifier::external_body]
fn memory_of(process: &::sysinfo::Process) -> (r: u64)
    ensures
        r == process_memory_of(*process),
{
    process.memory()
}

/// A count as the module reports it: the low 16 bits, as a `u16` cast keeps them.
pub fn count_as_u16(count: usize) -> (r: u16)
    ensures
        r == count as int % 0x10000,
{
    (count % 0x10000) as u16
}

/// The physical core count as the module reports it: `0` where it is unknown.
pub fn physical_count_or_zero(count: Option<usize>) -> (r: u16)
    ensures
        r == match count {
            Some(n) => n as int % 0x10000,
            None => 0,
        },
{
    match count {
        Some(n) => count_as_u16(n),
        None => 0,
    }
}

/// The number of logical CPUs, after reading the CPUs of `sys`: the length
/// of its CPU list, kept to 16 bits.
pub fn logical_cpus(sys: &mut ::sysinfo::System) -> (r: u16)
    ensures
        r == cpus_of(*final(sys)).len() % 0x10000,
        total_memory_of(*final(sys)) == total_memory_of(*old(sys)),
        available_memory_of(*final(sys)) == available_memory_of(*old(sys)),
        used_memory_of(*final(sys)) == used_memory_of(*old(sys)),
        forall|pid: ::sysinfo::Pid|
            #[trigger] process_of(*final(sys), pid) == process_of(*old(sys), pid),
{
    refresh_cpu(sys);
    count_as_u16(cpu_count(sys))
}

/// The number of physical CPU cores, after refreshing the CPUs of `sys`:
/// `0` where `sysinfo` cannot tell, kept to 16 bits otherwise (see
/// [`physical_count_or_zero`]). The memory figures and the processes that
/// `sys` holds stay as they were.
pub fn physical_cpus(sys: &mut ::sysinfo::System) -> (r: u16)
    ensures
        total_memory_of(*final(sys)) == total_memory_of(*old(sys)),
        available_memory_of(*final(sys)) == available_memory_of(*old(sys)),
        used_memory_of(*final(sys)) == used_memory_of(*old(sys)),
        forall|pid: ::sysinfo::Pid|
            #[trigger] process_of(*final(sys), pid) == process_of(*old(sys), pid),
{
    refresh_cpu(sys);
    physical_count_or_zero(physical_core_count(sys))
}

/// The memory in use on the system, in bytes, after refreshing the memory
/// figures of `sys`: the used memory that `sys` reports once refreshed.
/// `None` where the figures read are inconsistent (more memory available
/// than in total), where `sysinfo` would overflow. The memory in use is the
/// total less the available memory, so the two figures read add up to the
/// total. The CPU list and the processes that `sys` holds stay as they were.
pub fn system_memory_usage(sys: &mut ::sysinfo::System) -> (r: Option<u64>)
    ensures
        r == if available_memory_of(*final(sys)) <= total_memory_of(*final(sys)) {
            Some(used_memory_of(*final(sys)))
        } else {
            None
        },
        r matches Some(used) ==> used + available_memory_of(*final(sys)) == total_memory_of(
            *final(sys),
        ),
        cpus_of(*final(sys)) == cpus_of(*old(sys)),
        forall|pid: ::sysinfo::Pid|
            #[trigger] process_of(*final(sys), pid) == process_of(*old(sys), pid),
{
    refresh_memory(sys);
    let total = total_memory(sys);
    let available = available_memory(sys);
    if available <= total {
        Some(used_memory(sys))
    } else {
        None
    }
}

/// The memory installed on the system, in bytes, after refreshing the
/// memory figures of `sys`: the total that `sys` holds once refreshed.
pub fn system_total_memory(sys: &mut ::sysinfo::System) -> (r: u64)
    ensures
        r == total_memory_of(*final(sys)),
        cpus_of(*final(sys)) == cpus_of(*old(sys)),
        forall|pid: ::sysinfo::Pid|
            #[trigger] process_of(*final(sys), pid) == process_of(*old(sys), pid),
{
    refresh_memory(sys);
    total_memory(sys)
}

/// The memory available on the system, in bytes, after refreshing the
/// memory figures of `sys`: the figure that `sys` holds once refreshed.
pub fn system_available_memory(sys: &mut ::sysinfo::System) -> (r: u64)
    ensures
        r == available_memory_of(*final(sys)),
        cpus_of(*final(sys)) == cpus_of(*old(sys)),
        forall|pid: ::sysinfo::Pid|
            #[trigger] process_of(*final(sys), pid) == process_of(*old(sys), pid),
{
    refresh_memory(sys);
    available_memory(sys)
}

/// The memory of process `pid`, in bytes, after refreshing the memory
/// figures and that process in `sys`: that of the process `pid` that `sys`
/// holds once refreshed, `None` where it holds no such process.
pub fn process_memory_usage(sys: &mut ::sysinfo::System, pid: ::sysinfo::Pid) -> (r: Option<u64>)
    ensures
        r == match process_of(*final(sys), pid) {
            Some(p) => Some(process_memory_of(p)),
            None => None,
        },
{
    refresh_memory(sys);
    refresh_process(sys, pid);
    match find_process(sys, pid) {
        Some(process) => Some(memory_of(process)),
        None => None,
    }
}

/// A reading taken once and kept for the rest of the process: the first read
/// stores the value it is handed, and every read returns the stored value.
pub struct OnceReading<T> {
    pub value: Option<T>,
}

impl<T: Copy> OnceReading<T> {
    /// A reading not taken yet.
    pub fn new() -> (c: Self)
        ensures
            c.value is None,
    {
        OnceReading { value: None }
    }

    /// Whether the reading is still to be taken.
    pub fn is_empty(&self) -> (b: bool)
        ensures
            b == self.value is None,
    {
        self.value.is_none()
    }

    /// A read: `sample` is the reading, taken by the caller exactly where
    /// none is stored yet. It is stored then; the stored reading is returned.
    pub fn read(&mut self, sample: Option<T>) -> (r: T)
        requires
            sample is Some <==> old(self).value is None,
        ensures
            final(self).value == Some(r),
            r == match old(self).value {
                Some(v) => v,
                None => sample->0,
            },
    {
        match self.value {
            Some(v) => v,
            None => {
                let v = sample.unwrap();
                self.value = Some(v);
                v
            },
        }
    }
}

/// The reading that a [`OnceReading`] returns after reads handed the given
/// samples (`None` where the caller took none): the first sample.
pub open spec fn read_once<T>(stored: Option<T>, samples: Seq<Option<T>>) -> Option<T>
    decreases samples.len(),
{
    if samples.len() == 0 {
        stored
    } else {
        match read_once(stored, samples.drop_last()) {
            Some(v) => Some(v),
            None => samples.last(),
        }
    }
}

/// Once a reading is stored, every later read returns it, whatever the
/// machine would report then: the first reading is kept for good.
pub proof fn lemma_read_once_keeps_first<T>(v: T, samples: Seq<Option<T>>)
    ensures
        read_once(Some(v), samples) == Some(v),
    decreases samples.len(),
{
    if samples.len() > 0 {
        lemma_read_once_keeps_first(v, samples.drop_last());
    }
}

/// A read of a [`OnceReading`] that holds `read_once(stored, samples)` holds,
/// after the next read with `sample`, what [`read_once`] gives with that
/// sample added: [`OnceReading::read`] follows [`read_once`].
pub proof fn lemma_read_follows_read_once<T>(
    stored: Option<T>,
    samples: Seq<Option<T>>,
    sample: Option<T>,
    after: Option<T>,
)
    requires
        after == match read_once(stored, samples) {
            Some(v) => Some(v),
            None => sample,
        },
    ensures
        after == read_once(stored, samples.push(sample)),
{
    assert(samples.push(sample).drop_last() =~= samples);
}

/// How long a CPU usage reading stays fresh: 200 ms.
pub const CPU_REFRESH_INTERVAL_NANOS: u128 = 200_000_000;

/// Whether a CPU usage reading is taken again, `elapsed` nanoseconds after
/// the first one: once more than the refresh interval has passed.
pub open spec fn refresh_is_due(elapsed: int) -> bool {
    elapsed > CPU_REFRESH_INTERVAL_NANOS
}

/// Whether a CPU usage reading is taken again, `elapsed_nanos` after the
/// first reading.
pub fn cpu_refresh_due(elapsed_nanos: u128) -> (due: bool)
    ensures
        due == refresh_is_due(elapsed_nanos as int),
{
    elapsed_nanos > CPU_REFRESH_INTERVAL_NANOS
}

/// The time is measured from the first reading and never reset: once a new
/// reading is due, it is due at every later call.
pub proof fn lemma_refresh_stays_due(earlier: int, later: int)
    requires
        earlier <= later,
        refresh_is_due(earlier),
    ensures
        refresh_is_due(later),
{
}

/// A cached CPU usage reading. It is taken when the cache is made, and taken
/// again at a read only once more than the refresh interval has passed since
/// then.
pub struct CpuUsageCache<N> {
    pub value: N,
}

impl<N: Copy> CpuUsageCache<N> {
    /// A cache holding the first reading.
    pub fn new(first: N) -> (c: Self)
        ensures
            c.value == first,
    {
        CpuUsageCache { value: first }
    }

    /// A read, `elapsed_nanos` after the first reading: `sample` is the new
    /// reading, taken by the caller exactly where [`cpu_refresh_due`] says
    /// so. The new reading is kept and returned where one is due; otherwise
    /// the cached one is returned.
    pub fn read(&mut self, elapsed_nanos: u128, sample: Option<N>) -> (r: N)
        requires
            sample is Some <==> refresh_is_due(elapsed_nanos as int),
        ensures
            final(self).value == if refresh_is_due(elapsed_nanos as int) {
                sample->0
            } else {
                old(self).value
            },
            r == final(self).value,
    {
        if let Some(v) = sample {
            self.value = v;
        }
        self.value
    }
}

/// The reading served by a cache made with `first`, after reads at the
/// given times, each with the reading that the machine would give then.
pub open spec fn served<N>(first: N, reads: Seq<(int, N)>) -> N
    decreases reads.len(),
{
    if reads.len() == 0 {
        first
    } else if refresh_is_due(reads.last().0) {
        reads.last().1
    } else {
        served(first, reads.drop_last())
    }
}

/// Until the refresh interval has passed, every read serves the first
/// reading.
pub proof fn lemma_served_first_until_due<N>(first: N, reads: Seq<(int, N)>)
    requires
        forall|i: int| 0 <= i < reads.len() ==> !refresh_is_due(#[trigger] reads[i].0),
    ensures
        served(first, reads) == first,
    decreases reads.len(),
{
    if reads.len() > 0 {
        let init = reads.drop_last();
        assert(!refresh_is_due(reads[reads.len() - 1].0));
        assert forall|i: int| 0 <= i < init.len() implies !refresh_is_due(#[trigger] init[i].0) by {
            assert(init[i] == reads[i]);
        }
        lemma_served_first_until_due(first, init);
    }
}

/// Once the refresh interval has passed, every read serves the reading
/// taken at that read.
pub proof fn lemma_served_fresh_once_due<N>(first: N, reads: Seq<(int, N)>)
    requires
        reads.len() > 0,
        refresh_is_due(reads.last().0),
    ensures
        served(first, reads) == reads.last().1,
{
}

/// A read of a cache that serves `served(first, reads)` serves the next
/// reading in the same way: [`CpuUsageCache::read`] follows [`served`].
pub proof fn lemma_read_follows_served<N>(first: N, reads: Seq<(int, N)>, elapsed: int, reading: N, after: N)
    requires
        after == if refresh_is_due(elapsed) { reading } else { served(first, reads) },
    ensures
        after == served(first, reads.push((elapsed, reading))),
{
    assert(reads.push((elapsed, reading)).drop_last() =~= reads);
}

/// Everything the module reports of the system. `N` is the type of the
/// fractional readings.
#[derive(Clone, Copy, Debug)]
pub struct AllSystem<N> {
    pub cpu_usage: N,
    pub memory_usage: N,
    pub total_memory: N,
    pub available_memory: N,
    pub logical_cpus: u16,
    pub physical_cpus: u16,
}

/// Everything the module reports of its own process.
#[derive(Clone, Copy, Debug)]
pub struct AllProcess<N> {
    pub cpu_usage: N,
    pub memory_usage: N,
}

/// The readings that the realtime interface refreshes.
#[derive(Clone, Copy, Debug)]
pub struct RealtimeData<N> {
    pub system_cpu_usage: N,
    pub system_memory_usage: N,
    pub system_available_memory: N,
    pub process_cpu_usage: N,
    pub process_memory_usage: N,
}

} // verus!
