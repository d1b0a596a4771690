use vstd::prelude::*;
use crate::bytes::{lemma_words_bytes_len, words_be_bytes, words_le_bytes};
pub use crate::compute::{ACCESS_SHADER_STORAGE_READ, ACCESS_SHADER_STORAGE_WRITE};
use crate::compute::{ceil_div, GroupCounts};

verus! {

broadcast use vstd::layout::layout_of_primitives;

/// Number of key bits consumed by one radix-sort pass.
pub const BITS_PER_PASS: u32 = 4;
/// Number of histogram bins of one pass (`1 << BITS_PER_PASS`).
pub const BIN_COUNT: u32 = 16;
/// Keys handled by one thread.
pub const ELEMENTS_PER_THREAD: u32 = 4;
/// Threads of one thread group.
pub const THREADS_PER_GROUP: u32 = 128;
/// Number of passes needed for full 32-bit keys.
pub const NUM_PASSES: u32 = 8;
/// Keys handled by one block (`THREADS_PER_GROUP * ELEMENTS_PER_THREAD`).
pub const BLOCK_SIZE: u32 = 512;
/// Upper bound on the number of thread groups of a counting or scatter pass.
pub const MAX_THREAD_GROUPS: u32 = 800;
/// Key width assumed when the caller does not give one.
pub const DEFAULT_KEY_BITS: u32 = 32;


/// Number of blocks of `block_size` keys needed to hold `num_keys` keys.
pub fn calculate_num_blocks(num_keys: u32, block_size: u32) -> (r: u32)
    requires
        block_size > 0,
        num_keys + block_size <= u32::MAX,
    ensures
        r == ceil_div(num_keys as int, block_size as int),
{
    (num_keys + block_size - 1) / block_size
}

/// Length, in `u32` entries, of the per-block histogram table for `num_keys` keys:
/// one row of `BIN_COUNT` bins for every block.
pub open spec fn histogram_len_spec(num_keys: int) -> int {
    BIN_COUNT * ceil_div(num_keys, BLOCK_SIZE as int)
}

/// Length, in `u32` entries, of the reduce table for `num_keys` keys: one row of
/// `BIN_COUNT` bins for every group of `BLOCK_SIZE` blocks.
pub open spec fn reduce_table_len_spec(num_keys: int) -> int {
    BIN_COUNT * ceil_div(ceil_div(num_keys, BLOCK_SIZE as int), BLOCK_SIZE as int)
}

/// Sizes of the scratch buffers that a radix sort uses, and its number of passes.
#[derive(Clone, Copy, Debug, PartialEq, Eq, Structural)]
pub struct SortingLayout {
    /// The maximum number of bits the keys use.
    pub keys_bit_count: u32,
    /// Number of passes needed to sort the keys.
    pub num_passes: u32,
    /// Capacity, in keys, of the sort.
    pub num_keys: u32,
    /// Entries of the histogram buffer.
    pub histogram_len: u64,
    /// Entries of the key and payload scratch buffers.
    pub keys_b_len: u64,
    /// Entries of the reduce table.
    pub reduce_table_len: u64,
    /// Entries of the scan scratch buffer.
    pub scan_scratch_len: u64,
    /// Byte size of the histogram buffer.
    pub histogram_bytes: u64,
    /// Byte size of each of the key and payload scratch buffers.
    pub keys_b_bytes: u64,
    /// Byte size of the reduce table.
    pub reduce_table_bytes: u64,
    /// Byte size of the scan scratch buffer.
    pub scan_scratch_bytes: u64,
}

/// The layout of a sort of up to `max_keys` keys of `keys_bit_count` bits.
pub open spec fn sorting_layout_spec(max_keys: u32, keys_bit_count: u32) -> SortingLayout {
    SortingLayout {
        keys_bit_count,
        num_passes: keys_bit_count / BITS_PER_PASS,
        num_keys: max_keys,
        histogram_len: histogram_len_spec(max_keys as int) as u64,
        keys_b_len: max_keys as u64,
        reduce_table_len: reduce_table_len_spec(max_keys as int) as u64,
        scan_scratch_len: reduce_table_len_spec(max_keys as int) as u64,
        histogram_bytes: (4 * histogram_len_spec(max_keys as int)) as u64,
        keys_b_bytes: (4 * max_keys) as u64,
        reduce_table_bytes: (4 * reduce_table_len_spec(max_keys as int)) as u64,
        scan_scratch_bytes: (4 * reduce_table_len_spec(max_keys as int)) as u64,
    }
}

/// The scratch-buffer layout and pass count of a radix sort of up to `num_keys`
/// keys; its layout is always the one `new` computes.
pub struct SortingData {
    layout: SortingLayout,
}

impl View for SortingData {
    type V = SortingLayout;

    closed spec fn view(&self) -> SortingLayout {
        self.layout
    }
}

impl SortingData {
    #[verifier::type_invariant]
    spec fn wf(self) -> bool {
        &&& self.layout.num_keys + BLOCK_SIZE <= u32::MAX
        &&& self.layout == sorting_layout_spec(self.layout.num_keys, self.layout.keys_bit_count)
    }

    /// The layout, with its invariant: the keys fit the block arithmetic and the
    /// sizes are those of `sorting_layout_spec`.
    pub fn layout(&self) -> (r: SortingLayout)
        ensures
            r == self@,
            r.num_keys + BLOCK_SIZE <= u32::MAX,
            r == sorting_layout_spec(r.num_keys, r.keys_bit_count),
    {
        proof {
            use_type_invariant(self);
        }
        self.layout
    }

    /// Sizes of the scratch buffers for a sort of up to `max_keys` keys of
    /// `keys_bit_count` bits (32 when `None`).
    pub fn new(max_keys: u32, keys_bit_count: Option<u32>) -> (r: SortingData)
        requires
            max_keys + BLOCK_SIZE <= u32::MAX,
        ensures
            r@ == sorting_layout_spec(max_keys, match keys_bit_count {
                Some(b) => b,
                None => DEFAULT_KEY_BITS,
            }),
            r@.histogram_len % (BIN_COUNT as u64) == 0,
            (r@.histogram_len as int / (BIN_COUNT as int)) * BLOCK_SIZE >= max_keys,
            (r@.histogram_len as int / (BIN_COUNT as int)) * BLOCK_SIZE < max_keys + BLOCK_SIZE,
            r@.histogram_bytes == 4 * r@.histogram_len,
    {
        proof {
            lemma_layout_covers_blocks(max_keys, match keys_bit_count {
                Some(b) => b,
                None => DEFAULT_KEY_BITS,
            });
        }
        let histogram_len = Self::calculate_histogram_len(max_keys);
        let reduce_table_len = Self::calculate_reduce_table_len(max_keys);
        assert(histogram_len <= 0x1000_0000);
        let scan_scratch_len = Self::calculate_scan_scratch_len(max_keys);
        let keys_b_len = max_keys as u64;
        let word = std::mem::size_of::<u32>() as u64;
        assert(word == 4);
        assert(reduce_table_len <= 0x10_0000);
        let bits = match keys_bit_count {
            Some(b) => b,
            None => DEFAULT_KEY_BITS,
        };
        let num_passes = Self::calculate_number_of_passes(bits);
        let layout = SortingLayout {
            keys_bit_count: bits,
            num_passes,
            num_keys: max_keys,
            histogram_len,
            keys_b_len,
            reduce_table_len,
            scan_scratch_len,
            histogram_bytes: word * histogram_len,
            keys_b_bytes: word * keys_b_len,
            reduce_table_bytes: word * reduce_table_len,
            scan_scratch_bytes: word * scan_scratch_len,
        };
        SortingData { layout }
    }

    /// Number of `BITS_PER_PASS`-bit passes for keys of `keys_bit_count` bits.
    pub fn calculate_number_of_passes(keys_bit_count: u32) -> (r: u32)
        ensures
            r == keys_bit_count / BITS_PER_PASS,
    {
        keys_bit_count / BITS_PER_PASS
    }

    /// Entries of the histogram table for `num_keys` keys: `BIN_COUNT` bins per block.
    pub fn calculate_histogram_len(num_keys: u32) -> (r: u64)
        requires
            num_keys + BLOCK_SIZE <= u32::MAX,
        ensures
            r == histogram_len_spec(num_keys as int),
    {
        let block_size = ELEMENTS_PER_THREAD * THREADS_PER_GROUP;
        let num_blocks = (num_keys + block_size - 1) / block_size;
        (BIN_COUNT * num_blocks) as u64
    }

    /// Entries of the reduce table for `num_keys` keys: `BIN_COUNT` bins for every
    /// group of `BLOCK_SIZE` blocks.
    pub fn calculate_reduce_table_len(num_keys: u32) -> (r: u64)
        requires
            num_keys + BLOCK_SIZE <= u32::MAX,
        ensures
            r == reduce_table_len_spec(num_keys as int),
            r <= 0x10_0000,
    {
        let block_size = ELEMENTS_PER_THREAD * THREADS_PER_GROUP;
        let num_blocks = (num_keys + block_size - 1) / block_size;
        let num_reduced_blocks = (num_blocks + block_size - 1) / block_size;
        let reduce_size = BIN_COUNT as u64 * num_reduced_blocks as u64;
        reduce_size
    }

    /// Entries of the scan scratch buffer: as many as the reduce table.
    pub fn calculate_scan_scratch_len(num_keys: u32) -> (r: u64)
        requires
            num_keys + BLOCK_SIZE <= u32::MAX,
        ensures
            r == reduce_table_len_spec(num_keys as int),
    {
        Self::calculate_reduce_table_len(num_keys)
    }
}


/// Push constants of every pass of one radix-sort iteration.
#[derive(Clone, Copy, Debug, PartialEq, Eq, Structural)]
pub struct SortingPushConstants {
    pub num_keys: u32,
    pub num_blocks_per_thread_group: i32,
    pub num_thread_groups: u32,
    pub num_thread_groups_with_additional_blocks: u32,
    pub num_reduce_thread_group_per_bin: u32,
    pub num_scan_values: u32,
    pub shift: u32,
    pub padding: u32,
}

/// Number of thread groups of the counting and scatter passes for `num_keys` keys.
pub open spec fn thread_groups_spec(num_keys: int) -> int {
    let total = ceil_div(num_keys, BLOCK_SIZE as int);
    if total > MAX_THREAD_GROUPS { MAX_THREAD_GROUPS as int } else { total }
}

/// Number of reduce-pass thread groups (`BIN_COUNT` per group of `BLOCK_SIZE`
/// thread groups) for `num_keys` keys.
pub open spec fn scan_values_spec(num_keys: int) -> int {
    BIN_COUNT * ceil_div(thread_groups_spec(num_keys), BLOCK_SIZE as int)
}

/// The push constants that `get_dispatch_data` computes for `num_keys` keys and
/// the key bit offset `shift`.
pub open spec fn dispatch_data_spec(num_keys: u32, shift: u32) -> SortingPushConstants {
    let total = ceil_div(num_keys as int, BLOCK_SIZE as int);
    let groups = thread_groups_spec(num_keys as int);
    SortingPushConstants {
        num_keys,
        num_blocks_per_thread_group: (total / groups) as i32,
        num_thread_groups: groups as u32,
        num_thread_groups_with_additional_blocks: (if total < MAX_THREAD_GROUPS {
            0
        } else {
            total % groups
        }) as u32,
        num_reduce_thread_group_per_bin: (scan_values_spec(num_keys as int) / BIN_COUNT as int) as u32,
        num_scan_values: scan_values_spec(num_keys as int) as u32,
        shift,
        padding: 0,
    }
}

/// Splits the blocks of `num_keys` keys over at most `MAX_THREAD_GROUPS` thread
/// groups and sizes the reduce and scan passes.
pub fn get_dispatch_data(num_keys: u32, shift: u32) -> (r: SortingPushConstants)
    requires
        num_keys >= 1,
        num_keys + BLOCK_SIZE <= u32::MAX,
    ensures
        r == dispatch_data_spec(num_keys, shift),
        r.num_reduce_thread_group_per_bin == ceil_div(r.num_thread_groups as int, BLOCK_SIZE as int),
        r.num_scan_values == BIN_COUNT * r.num_reduce_thread_group_per_bin,
        r.num_reduce_thread_group_per_bin * BLOCK_SIZE >= r.num_thread_groups,
{
    proof {
        lemma_scan_values_per_bin(num_keys, shift);
    }
    let total_blocks = calculate_num_blocks(num_keys, BLOCK_SIZE);
    // Cap the thread groups.
    let mut num_thread_groups = total_blocks;
    if num_thread_groups > MAX_THREAD_GROUPS {
        num_thread_groups = MAX_THREAD_GROUPS;
    }
    let blocks_per_thread_group = total_blocks / num_thread_groups;
    let mut num_thread_groups_with_additional_blocks = total_blocks % num_thread_groups;
    if total_blocks < MAX_THREAD_GROUPS {
        num_thread_groups_with_additional_blocks = 0;
    }
    // One reduced value for every bin, even with a single thread group.
    let num_reduce_thread_groups = BIN_COUNT * ((num_thread_groups + BLOCK_SIZE - 1) / BLOCK_SIZE);
    let num_reduce_thread_group_per_bin = num_reduce_thread_groups / BIN_COUNT;
    SortingPushConstants {
        num_keys,
        num_blocks_per_thread_group: blocks_per_thread_group as i32,
        num_thread_groups,
        num_thread_groups_with_additional_blocks,
        num_reduce_thread_group_per_bin,
        num_scan_values: num_reduce_thread_groups,
        shift,
        padding: 0,
    }
}

impl SortingPushConstants {
    /// The eight 32-bit words of the push constants, in field order; the signed
    /// field is stored by its two's-complement bits.
    pub open spec fn words_spec(self) -> Seq<u32> {
        seq![
            self.num_keys,
            self.num_blocks_per_thread_group as u32,
            self.num_thread_groups,
            self.num_thread_groups_with_additional_blocks,
            self.num_reduce_thread_group_per_bin,
            self.num_scan_values,
            self.shift,
            self.padding,
        ]
    }

    /// The eight 32-bit words of the push constants, in field order.
    pub fn to_words(&self) -> (r: [u32; 8])
        ensures
            r@ == self.words_spec(),
    {
        [
            self.num_keys,
            self.num_blocks_per_thread_group as u32,
            self.num_thread_groups,
            self.num_thread_groups_with_additional_blocks,
            self.num_reduce_thread_group_per_bin,
            self.num_scan_values,
            self.shift,
            self.padding,
        ]
    }

    /// The push constants as the GPU reads them: the words of `to_words`, each in
    /// the machine's byte order (little- or big-endian, the same for all words).
    pub fn to_bytes(&self) -> (r: Vec<u8>)
        ensures
            r@ == words_le_bytes(self.words_spec()) || r@ == words_be_bytes(self.words_spec()),
            r.len() == 32,
    {
        let words = self.to_words();
        proof {
            lemma_words_bytes_len(words@);
        }
        words_as_bytes(&words)
    }
}

/// `bytemuck::bytes_of` on eight `u32` words, copied out: the in-memory bytes of
/// the words, which are the words' little-endian bytes on a little-endian machine
/// and their big-endian bytes on a big-endian one. Which of the two is not stated.
#[verifier::external_body]
fn words_as_bytes(words: &[u32; 8]) -> (r: Vec<u8>)
    ensures
        r@ == words_le_bytes(words@) || r@ == words_be_bytes(words@),
{
    bytemuck::bytes_of(words).to_vec()
}

/// Which of the two key (and payload) buffers a pass reads or writes.
#[derive(Clone, Copy, Debug, PartialEq, Eq, Structural)]
pub enum SortBuffer {
    /// The caller's keys and payload.
    Caller,
    /// The sort's own scratch keys and payload.
    Scratch,
}

/// The five passes of one sort iteration.
#[derive(Clone, Copy, Debug, PartialEq, Eq, Structural)]
pub enum SortStage {
    Counting,
    Reduce,
    Scan,
    ScanAdd,
    Scatter,
}

/// A buffer that a sort pass synchronizes on.
#[derive(Clone, Copy, Debug, PartialEq, Eq, Structural)]
pub enum SortResource {
    Histogram,
    ReduceTable,
    /// The keys buffer the iteration writes.
    DestinationKeys,
    /// The payload buffer the iteration writes.
    DestinationPayload,
}

/// A compute-to-compute memory barrier on one buffer: the accesses before it
/// that later accesses wait for.
#[derive(Clone, Copy, Debug, PartialEq, Eq, Structural)]
pub struct SortBarrier {
    pub resource: SortResource,
    pub src_access: u64,
    pub dst_access: u64,
}

/// The barriers recorded after `stage`: the counting pass publishes the
/// histogram, reduce and scan the reduce table, scan-add the histogram, and the
/// scatter hands the histogram back for writing and publishes the keys and payload
/// it wrote.
pub open spec fn stage_barriers_spec(stage: SortStage) -> Seq<SortBarrier> {
    let read = ACCESS_SHADER_STORAGE_READ;
    let write = ACCESS_SHADER_STORAGE_WRITE;
    let read_write = ACCESS_SHADER_STORAGE_READ | ACCESS_SHADER_STORAGE_WRITE;
    match stage {
        SortStage::Counting => seq![SortBarrier { resource: SortResource::Histogram, src_access: read_write, dst_access: read }],
        SortStage::Reduce => seq![SortBarrier { resource: SortResource::ReduceTable, src_access: write, dst_access: read_write }],
        SortStage::Scan => seq![SortBarrier { resource: SortResource::ReduceTable, src_access: read_write, dst_access: read }],
        SortStage::ScanAdd => seq![SortBarrier { resource: SortResource::Histogram, src_access: read_write, dst_access: read }],
        SortStage::Scatter => seq![
            SortBarrier { resource: SortResource::Histogram, src_access: read, dst_access: write },
            SortBarrier { resource: SortResource::DestinationKeys, src_access: write, dst_access: read },
            SortBarrier { resource: SortResource::DestinationPayload, src_access: write, dst_access: read },
        ],
    }
}

/// The barriers to record after `stage` of a sort iteration.
pub fn barriers_after(stage: SortStage) -> (r: Vec<SortBarrier>)
    ensures
        r@ == stage_barriers_spec(stage),
{
    let read = ACCESS_SHADER_STORAGE_READ;
    let write = ACCESS_SHADER_STORAGE_WRITE;
    let read_write = ACCESS_SHADER_STORAGE_READ | ACCESS_SHADER_STORAGE_WRITE;
    let r = match stage {
        SortStage::Counting => vec![SortBarrier { resource: SortResource::Histogram, src_access: read_write, dst_access: read }],
        SortStage::Reduce => vec![SortBarrier { resource: SortResource::ReduceTable, src_access: write, dst_access: read_write }],
        SortStage::Scan => vec![SortBarrier { resource: SortResource::ReduceTable, src_access: read_write, dst_access: read }],
        SortStage::ScanAdd => vec![SortBarrier { resource: SortResource::Histogram, src_access: read_write, dst_access: read }],
        SortStage::Scatter => vec![
            SortBarrier { resource: SortResource::Histogram, src_access: read, dst_access: write },
            SortBarrier { resource: SortResource::DestinationKeys, src_access: write, dst_access: read },
            SortBarrier { resource: SortResource::DestinationPayload, src_access: write, dst_access: read },
        ],
    };
    assert(r@ =~= stage_barriers_spec(stage));
    r
}

/// Every buffer a pass writes is behind a barrier before the next pass reads it:
/// the histogram after counting and scan-add, the reduce table after reduce and
/// scan, and the keys and payload after the scatter.
pub proof fn lemma_writes_are_published()
    ensures
        stage_barriers_spec(SortStage::Counting)[0].resource == SortResource::Histogram,
        stage_barriers_spec(SortStage::Reduce)[0].resource == SortResource::ReduceTable,
        stage_barriers_spec(SortStage::Scan)[0].resource == SortResource::ReduceTable,
        stage_barriers_spec(SortStage::ScanAdd)[0].resource == SortResource::Histogram,
        stage_barriers_spec(SortStage::Scatter)[1].resource == SortResource::DestinationKeys,
        stage_barriers_spec(SortStage::Scatter)[2].resource == SortResource::DestinationPayload,
        forall|st: SortStage, i: int| 0 <= i < stage_barriers_spec(st).len() ==>
            (#[trigger] stage_barriers_spec(st)[i]).src_access & ACCESS_SHADER_STORAGE_WRITE != 0
            || stage_barriers_spec(st)[i].dst_access & ACCESS_SHADER_STORAGE_WRITE != 0,
{
    assert((ACCESS_SHADER_STORAGE_READ | ACCESS_SHADER_STORAGE_WRITE) & ACCESS_SHADER_STORAGE_WRITE != 0) by (bit_vector);
    assert(ACCESS_SHADER_STORAGE_WRITE & ACCESS_SHADER_STORAGE_WRITE != 0) by (bit_vector);
}

/// One iteration of the radix sort: the bits it sorts by, where it reads and
/// writes the keys and payload, and its push constants.
#[derive(Clone, Copy, Debug, PartialEq, Eq, Structural)]
pub struct SortPass {
    pub shift: u32,
    pub source: SortBuffer,
    pub destination: SortBuffer,
    pub push_constants: SortingPushConstants,
}

/// The `i`-th iteration of a sort of `num_keys` keys.
pub open spec fn sort_pass_spec(num_keys: u32, i: int) -> SortPass {
    SortPass {
        shift: (i * BITS_PER_PASS) as u32,
        source: if i % 2 == 0 { SortBuffer::Caller } else { SortBuffer::Scratch },
        destination: if i % 2 == 0 { SortBuffer::Scratch } else { SortBuffer::Caller },
        push_constants: dispatch_data_spec(num_keys, (i * BITS_PER_PASS) as u32),
    }
}

/// One command of a recorded sort.
#[derive(Clone, Copy, Debug, PartialEq, Eq, Structural)]
pub enum SortCommand {
    /// Start an iteration: bind its source and destination buffers and push its
    /// constants.
    BeginIteration(SortPass),
    /// Dispatch the pipeline of `stage`.
    Dispatch { stage: SortStage, groups: GroupCounts },
    /// Record a memory barrier.
    Barrier(SortBarrier),
}

/// Thread groups of `stage` for the push constants `pc`: the counting and
/// scatter passes run one group per thread group of keys, the reduce and
/// scan-add passes one per scan value, the scan a single group.
pub open spec fn stage_groups_spec(pc: SortingPushConstants, stage: SortStage) -> GroupCounts {
    match stage {
        SortStage::Counting => GroupCounts { x: pc.num_thread_groups, y: 1, z: 1 },
        SortStage::Reduce => GroupCounts { x: pc.num_scan_values, y: 1, z: 1 },
        SortStage::Scan => GroupCounts { x: 1, y: 1, z: 1 },
        SortStage::ScanAdd => GroupCounts { x: pc.num_scan_values, y: 1, z: 1 },
        SortStage::Scatter => GroupCounts { x: pc.num_thread_groups, y: 1, z: 1 },
    }
}

/// The dispatch of `stage`, followed by its barriers.
pub open spec fn stage_commands_spec(pc: SortingPushConstants, stage: SortStage) -> Seq<SortCommand> {
    seq![SortCommand::Dispatch { stage, groups: stage_groups_spec(pc, stage) }]
        + stage_barriers_spec(stage).map_values(|b: SortBarrier| SortCommand::Barrier(b))
}

/// The commands of iteration `i` of a sort of `num_keys` keys: begin the
/// iteration, then count, reduce, scan, scan-add and scatter, each followed by
/// its barriers.
pub open spec fn iteration_commands_spec(num_keys: u32, i: int) -> Seq<SortCommand> {
    let pass = sort_pass_spec(num_keys, i);
    let pc = pass.push_constants;
    seq![SortCommand::BeginIteration(pass)]
        + stage_commands_spec(pc, SortStage::Counting)
        + stage_commands_spec(pc, SortStage::Reduce)
        + stage_commands_spec(pc, SortStage::Scan)
        + stage_commands_spec(pc, SortStage::ScanAdd)
        + stage_commands_spec(pc, SortStage::Scatter)
}

/// The commands of the first `passes` iterations of a sort of `num_keys` keys.
pub open spec fn sort_commands_spec(num_keys: u32, passes: nat) -> Seq<SortCommand>
    decreases passes,
{
    if passes == 0 {
        seq![]
    } else {
        sort_commands_spec(num_keys, (passes - 1) as nat) + iteration_commands_spec(num_keys, passes - 1)
    }
}

/// Thread groups of `stage` for the push constants `pc`.
pub fn stage_groups(pc: &SortingPushConstants, stage: SortStage) -> (r: GroupCounts)
    ensures
        r == stage_groups_spec(*pc, stage),
        r.y == 1 && r.z == 1,
        (stage == SortStage::Counting || stage == SortStage::Scatter) ==> r.x == pc.num_thread_groups,
        (stage == SortStage::Reduce || stage == SortStage::ScanAdd) ==> r.x == pc.num_scan_values,
        stage == SortStage::Scan ==> r.x == 1,
{
    match stage {
        SortStage::Counting => GroupCounts::linear(pc.num_thread_groups),
        SortStage::Reduce => GroupCounts::linear(pc.num_scan_values),
        SortStage::Scan => GroupCounts::linear(1),
        SortStage::ScanAdd => GroupCounts::linear(pc.num_scan_values),
        SortStage::Scatter => GroupCounts::linear(pc.num_thread_groups),
    }
}

/// Appends the dispatch of `stage` and its barriers.
fn push_stage(plan: &mut Vec<SortCommand>, pc: &SortingPushConstants, stage: SortStage)
    ensures
        final(plan)@ == old(plan)@ + stage_commands_spec(*pc, stage),
{
    plan.push(SortCommand::Dispatch { stage, groups: stage_groups(pc, stage) });
    let barriers = barriers_after(stage);
    let ghost head = plan@;
    let mut i: usize = 0;
    while i < barriers.len()
        invariant
            i <= barriers.len(),
            barriers@ == stage_barriers_spec(stage),
            plan@ == head + barriers@.take(i as int).map_values(|b: SortBarrier| SortCommand::Barrier(b)),
        decreases barriers.len() - i,
    {
        plan.push(SortCommand::Barrier(barriers[i]));
        i = i + 1;
        assert(barriers@.take(i as int).map_values(|b: SortBarrier| SortCommand::Barrier(b))
            =~= barriers@.take(i - 1).map_values(|b: SortBarrier| SortCommand::Barrier(b)).push(
            SortCommand::Barrier(barriers@[i - 1])));
        assert(plan@ =~= head + barriers@.take(i as int).map_values(|b: SortBarrier| SortCommand::Barrier(b)));
    }
    assert(barriers@.take(barriers.len() as int) =~= barriers@);
    assert(plan@ =~= old(plan)@ + stage_commands_spec(*pc, stage));
}

impl SortingData {
    /// The commands of a sort of `self@.num_keys` keys, one iteration per pass,
    /// in order. Even iterations move the keys from the caller's buffers to the
    /// scratch buffers, odd ones move them back.
    pub fn pass_plan(&self) -> (r: Vec<SortCommand>)
        requires
            self@.num_passes == 0 || self@.num_keys >= 1,
        ensures
            r@ == sort_commands_spec(self@.num_keys, self@.num_passes as nat),
    {
        let layout = self.layout();
        let mut plan: Vec<SortCommand> = Vec::new();
        let mut i: u32 = 0;
        while i < layout.num_passes
            invariant
                i <= layout.num_passes,
                layout == self@,
                layout.num_passes == 0 || layout.num_keys >= 1,
                layout.num_keys + BLOCK_SIZE <= u32::MAX,
                layout.num_passes == layout.keys_bit_count / BITS_PER_PASS,
                plan@ == sort_commands_spec(layout.num_keys, i as nat),
            decreases layout.num_passes - i,
        {
            let shift = i * BITS_PER_PASS;
            let pc = get_dispatch_data(layout.num_keys, shift);
            let even = i % 2 == 0;
            let pass = SortPass {
                shift,
                source: if even { SortBuffer::Caller } else { SortBuffer::Scratch },
                destination: if even { SortBuffer::Scratch } else { SortBuffer::Caller },
                push_constants: pc,
            };
            let ghost before = plan@;
            plan.push(SortCommand::BeginIteration(pass));
            push_stage(&mut plan, &pc, SortStage::Counting);
            push_stage(&mut plan, &pc, SortStage::Reduce);
            push_stage(&mut plan, &pc, SortStage::Scan);
            push_stage(&mut plan, &pc, SortStage::ScanAdd);
            push_stage(&mut plan, &pc, SortStage::Scatter);
            assert(pass == sort_pass_spec(layout.num_keys, i as int));
            assert(plan@ =~= before + iteration_commands_spec(layout.num_keys, i as int));
            i = i + 1;
        }
        plan
    }
}

/// Each iteration of a sort is 13 commands: the begin, then the five dispatches
/// in the order count, reduce, scan, scan-add, scatter at offsets 1, 3, 5, 7 and 9,
/// each directly followed by its barriers; a sort of `passes` iterations is
/// `13 * passes` commands, iteration `i` starting at `13 * i`.
pub proof fn lemma_sort_command_layout(num_keys: u32, passes: nat, i: int)
    requires
        0 <= i < passes,
    ensures
        iteration_commands_spec(num_keys, i).len() == 13,
        sort_commands_spec(num_keys, passes).len() == 13 * passes,
        sort_commands_spec(num_keys, passes).subrange(13 * i, 13 * i + 13) == iteration_commands_spec(num_keys, i),
        iteration_commands_spec(num_keys, i)[1] matches SortCommand::Dispatch { stage: SortStage::Counting, .. },
        iteration_commands_spec(num_keys, i)[2] matches SortCommand::Barrier(_),
        iteration_commands_spec(num_keys, i)[3] matches SortCommand::Dispatch { stage: SortStage::Reduce, .. },
        iteration_commands_spec(num_keys, i)[4] matches SortCommand::Barrier(_),
        iteration_commands_spec(num_keys, i)[5] matches SortCommand::Dispatch { stage: SortStage::Scan, .. },
        iteration_commands_spec(num_keys, i)[6] matches SortCommand::Barrier(_),
        iteration_commands_spec(num_keys, i)[7] matches SortCommand::Dispatch { stage: SortStage::ScanAdd, .. },
        iteration_commands_spec(num_keys, i)[8] matches SortCommand::Barrier(_),
        iteration_commands_spec(num_keys, i)[9] matches SortCommand::Dispatch { stage: SortStage::Scatter, .. },
        iteration_commands_spec(num_keys, i)[10] matches SortCommand::Barrier(_),
    decreases passes,
{
    lemma_iteration_len(num_keys, i);
    let it = iteration_commands_spec(num_keys, i);
    let pc = sort_pass_spec(num_keys, i).push_constants;
    let c = stage_commands_spec(pc, SortStage::Counting);
    let rd = stage_commands_spec(pc, SortStage::Reduce);
    let sc = stage_commands_spec(pc, SortStage::Scan);
    let sa = stage_commands_spec(pc, SortStage::ScanAdd);
    assert(it[1] == c[0]);
    assert(it[2] == c[1]);
    assert(it[3] == rd[0]);
    assert(it[4] == rd[1]);
    assert(it[5] == sc[0]);
    assert(it[6] == sc[1]);
    assert(it[7] == sa[0]);
    assert(it[8] == sa[1]);
    lemma_sort_commands_len(num_keys, passes);
    if i + 1 == passes {
        let prev = sort_commands_spec(num_keys, (passes - 1) as nat);
        lemma_sort_commands_len(num_keys, (passes - 1) as nat);
        assert(sort_commands_spec(num_keys, passes).subrange(13 * i, 13 * i + 13) =~= it);
    } else {
        lemma_sort_command_layout(num_keys, (passes - 1) as nat, i);
        let prev = sort_commands_spec(num_keys, (passes - 1) as nat);
        assert(sort_commands_spec(num_keys, passes).subrange(13 * i, 13 * i + 13) =~= prev.subrange(13 * i, 13 * i + 13));
    }
}

proof fn lemma_iteration_len(num_keys: u32, i: int)
    ensures
        iteration_commands_spec(num_keys, i).len() == 13,
{
    let pc = sort_pass_spec(num_keys, i).push_constants;
    assert(stage_commands_spec(pc, SortStage::Counting).len() == 2);
    assert(stage_commands_spec(pc, SortStage::Reduce).len() == 2);
    assert(stage_commands_spec(pc, SortStage::Scan).len() == 2);
    assert(stage_commands_spec(pc, SortStage::ScanAdd).len() == 2);
    assert(stage_commands_spec(pc, SortStage::Scatter).len() == 4);
}

proof fn lemma_sort_commands_len(num_keys: u32, passes: nat)
    ensures
        sort_commands_spec(num_keys, passes).len() == 13 * passes,
    decreases passes,
{
    if passes > 0 {
        lemma_sort_commands_len(num_keys, (passes - 1) as nat);
        lemma_iteration_len(num_keys, passes - 1);
    }
}

/// Every block of keys is handled: the counting and scatter passes run between
/// one and `MAX_THREAD_GROUPS` thread groups, each takes
/// `num_blocks_per_thread_group` blocks, and the first
/// `num_thread_groups_with_additional_blocks` of them take one more, which adds
/// up to exactly the number of blocks.
pub proof fn lemma_dispatch_covers_all_blocks(num_keys: u32, shift: u32)
    requires
        num_keys >= 1,
        num_keys + BLOCK_SIZE <= u32::MAX,
    ensures
        ({
            let pc = dispatch_data_spec(num_keys, shift);
            &&& 1 <= pc.num_thread_groups <= MAX_THREAD_GROUPS
            &&& pc.num_blocks_per_thread_group >= 1
            &&& pc.num_thread_groups_with_additional_blocks < pc.num_thread_groups
            &&& pc.num_blocks_per_thread_group * pc.num_thread_groups
                + pc.num_thread_groups_with_additional_blocks
                == ceil_div(num_keys as int, BLOCK_SIZE as int)
        }),
{
    let total = ceil_div(num_keys as int, BLOCK_SIZE as int);
    let groups = thread_groups_spec(num_keys as int);
    assert(1 <= total <= 0x80_0000);
    if total >= MAX_THREAD_GROUPS {
        assert(groups == 800);
        assert(total == (total / 800) * 800 + total % 800);
    } else {
        assert(groups == total);
        assert(total / groups == 1) by (nonlinear_arith)
            requires
                total == groups,
                groups >= 1,
        ;
    }
}

/// The reduce and scan passes run `BIN_COUNT` thread groups per reduced group of
/// thread groups: at least one group per bin, and never more than two. The
/// reduce groups of one bin are exactly as many as it takes to cover all the
/// thread groups of the counting pass, `BLOCK_SIZE` thread groups each.
pub proof fn lemma_scan_values_per_bin(num_keys: u32, shift: u32)
    requires
        num_keys >= 1,
        num_keys + BLOCK_SIZE <= u32::MAX,
    ensures
        ({
            let pc = dispatch_data_spec(num_keys, shift);
            &&& pc.num_scan_values == BIN_COUNT * pc.num_reduce_thread_group_per_bin
            &&& 1 <= pc.num_reduce_thread_group_per_bin <= 2
            &&& pc.num_reduce_thread_group_per_bin == ceil_div(pc.num_thread_groups as int, BLOCK_SIZE as int)
            &&& pc.num_reduce_thread_group_per_bin * BLOCK_SIZE >= pc.num_thread_groups
            &&& (pc.num_reduce_thread_group_per_bin - 1) * BLOCK_SIZE < pc.num_thread_groups
        }),
{
    let groups = thread_groups_spec(num_keys as int);
    assert(1 <= groups <= 800);
    assert(1 <= ceil_div(groups, BLOCK_SIZE as int) <= 2);
    assert(groups <= 512 ==> ceil_div(groups, BLOCK_SIZE as int) == 1);
    assert(groups > 512 ==> ceil_div(groups, BLOCK_SIZE as int) == 2);
}

proof fn lemma_ceil_div_monotonic(a: int, b: int, d: int)
    requires
        0 <= a <= b,
        d > 0,
    ensures
        0 <= ceil_div(a, d) <= ceil_div(b, d),
{
    assert((a + d - 1) / d <= (b + d - 1) / d) by (nonlinear_arith)
        requires
            0 <= a <= b,
            d > 0,
    ;
    assert(0 <= (a + d - 1) / d) by (nonlinear_arith)
        requires
            0 <= a,
            d > 0,
    ;
}

/// A sort of `num_keys` keys, with buffers sized for `max_keys >= num_keys` keys,
/// stays within its buffers: the counting pass writes `BIN_COUNT` bins per block,
/// which fit the histogram table, and the reduce pass writes `num_scan_values`
/// entries, which fit the reduce table.
pub proof fn lemma_dispatch_fits_buffers(num_keys: u32, max_keys: u32, shift: u32)
    requires
        1 <= num_keys <= max_keys,
        max_keys + BLOCK_SIZE <= u32::MAX,
    ensures
        BIN_COUNT * ceil_div(num_keys as int, BLOCK_SIZE as int) <= histogram_len_spec(max_keys as int),
        dispatch_data_spec(num_keys, shift).num_scan_values <= reduce_table_len_spec(max_keys as int),
{
    let b = BLOCK_SIZE as int;
    let t = ceil_div(num_keys as int, b);
    let big_t = ceil_div(max_keys as int, b);
    lemma_ceil_div_monotonic(num_keys as int, max_keys as int, b);
    let groups = thread_groups_spec(num_keys as int);
    assert(groups <= t);
    lemma_ceil_div_monotonic(groups, t, b);
    lemma_ceil_div_monotonic(t, big_t, b);
    assert(1 <= groups <= 800);
    assert(ceil_div(groups, b) <= 2);
}

/// The iterations of a sort hand the keys on from one to the next: the first
/// reads the caller's buffers, each later one reads where the one before it
/// wrote, and each sorts by a window of `BITS_PER_PASS` bits inside the key
/// width, lowest bits first. The sorted keys end up in the caller's buffers
/// exactly when the number of passes is even.
pub proof fn lemma_sort_passes_chain(data: SortingLayout)
    requires
        data.num_passes == data.keys_bit_count / BITS_PER_PASS,
    ensures
        data.num_passes > 0 ==> sort_pass_spec(data.num_keys, 0).source == SortBuffer::Caller,
        forall|i: int| 0 <= i && i + 1 < data.num_passes ==>
            #[trigger] sort_pass_spec(data.num_keys, i + 1).source == sort_pass_spec(data.num_keys, i).destination,
        forall|i: int| 0 <= i < data.num_passes ==>
            #[trigger] sort_pass_spec(data.num_keys, i).shift == i * BITS_PER_PASS
            && sort_pass_spec(data.num_keys, i).shift + BITS_PER_PASS <= data.keys_bit_count,
        data.num_passes > 0 ==> (sort_pass_spec(data.num_keys, data.num_passes - 1).destination == SortBuffer::Caller
            <==> data.num_passes % 2 == 0),
{
    assert forall|i: int| 0 <= i < data.num_passes implies
        #[trigger] sort_pass_spec(data.num_keys, i).shift == i * BITS_PER_PASS
        && sort_pass_spec(data.num_keys, i).shift + BITS_PER_PASS <= data.keys_bit_count by {
        assert(i * 4 + 4 <= data.num_passes * 4);
        assert(data.num_passes * 4 <= data.keys_bit_count);
    }
}

/// With the default key width every one of the 32 key bits is sorted by, in
/// `NUM_PASSES` passes, and the sorted keys end up back in the caller's buffers.
pub proof fn lemma_default_width_sorts_all_bits(data: SortingLayout)
    requires
        data.keys_bit_count == DEFAULT_KEY_BITS,
        data.num_passes == data.keys_bit_count / BITS_PER_PASS,
    ensures
        data.num_passes == NUM_PASSES,
        data.num_passes * BITS_PER_PASS == DEFAULT_KEY_BITS,
        sort_pass_spec(data.num_keys, data.num_passes - 1).destination == SortBuffer::Caller,
{
}

/// In every iteration of a sort the five dispatches run: the counting and the
/// scatter pass one thread group per thread group of keys
/// (`num_thread_groups`), the reduce and the scan-add pass one per scan value
/// (`num_scan_values`), and the scan a single thread group; each along x only.
/// The push constants of iteration `i` are those of the keys shifted by
/// `i * BITS_PER_PASS` bits.
pub proof fn lemma_sort_dispatch_groups(num_keys: u32, passes: nat, i: int)
    requires
        0 <= i < passes,
    ensures
        ({
            let cmds = sort_commands_spec(num_keys, passes);
            let pc = dispatch_data_spec(num_keys, (i * BITS_PER_PASS) as u32);
            &&& cmds[13 * i] matches SortCommand::BeginIteration(p) && p.push_constants == pc
            &&& cmds[13 * i + 1] == (SortCommand::Dispatch {
                stage: SortStage::Counting,
                groups: GroupCounts { x: pc.num_thread_groups, y: 1, z: 1 },
            })
            &&& cmds[13 * i + 3] == (SortCommand::Dispatch {
                stage: SortStage::Reduce,
                groups: GroupCounts { x: pc.num_scan_values, y: 1, z: 1 },
            })
            &&& cmds[13 * i + 5] == (SortCommand::Dispatch { stage: SortStage::Scan, groups: GroupCounts { x: 1, y: 1, z: 1 } })
            &&& cmds[13 * i + 7] == (SortCommand::Dispatch {
                stage: SortStage::ScanAdd,
                groups: GroupCounts { x: pc.num_scan_values, y: 1, z: 1 },
            })
            &&& cmds[13 * i + 9] == (SortCommand::Dispatch {
                stage: SortStage::Scatter,
                groups: GroupCounts { x: pc.num_thread_groups, y: 1, z: 1 },
            })
        }),
{
    lemma_sort_command_layout(num_keys, passes, i);
    let cmds = sort_commands_spec(num_keys, passes);
    let it = iteration_commands_spec(num_keys, i);
    assert forall|j: int| 0 <= j < 13 implies cmds[13 * i + j] == it[j] by {
        assert(cmds.subrange(13 * i, 13 * i + 13)[j] == cmds[13 * i + j]);
    }
    let pc = sort_pass_spec(num_keys, i).push_constants;
    let c = stage_commands_spec(pc, SortStage::Counting);
    let rd = stage_commands_spec(pc, SortStage::Reduce);
    let sc = stage_commands_spec(pc, SortStage::Scan);
    let sa = stage_commands_spec(pc, SortStage::ScanAdd);
    let sx = stage_commands_spec(pc, SortStage::Scatter);
    assert(it[0] == SortCommand::BeginIteration(sort_pass_spec(num_keys, i)));
    assert(it[1] == c[0]);
    assert(it[3] == rd[0]);
    assert(it[5] == sc[0]);
    assert(it[7] == sa[0]);
    assert(it[9] == sx[0]);
}

/// The histogram holds the `BIN_COUNT` bins of every block of `BLOCK_SIZE` keys
/// that the counting pass writes, and no more: its length is `BIN_COUNT` times
/// the least number of blocks covering `max_keys` keys, and its byte size is four
/// bytes per entry. Likewise the reduce table and the scan scratch hold
/// `BIN_COUNT` entries for every `BLOCK_SIZE` blocks, and the key and payload
/// scratch buffers one entry per key.
pub proof fn lemma_layout_covers_blocks(max_keys: u32, keys_bit_count: u32)
    requires
        max_keys + BLOCK_SIZE <= u32::MAX,
    ensures
        ({
            let l = sorting_layout_spec(max_keys, keys_bit_count);
            let blocks = l.histogram_len as int / (BIN_COUNT as int);
            &&& l.histogram_len % (BIN_COUNT as u64) == 0
            &&& blocks * BLOCK_SIZE >= max_keys
            &&& blocks * BLOCK_SIZE < max_keys + BLOCK_SIZE
            &&& l.histogram_bytes == 4 * l.histogram_len
            &&& l.reduce_table_len % (BIN_COUNT as u64) == 0
            &&& (l.reduce_table_len as int / (BIN_COUNT as int)) * BLOCK_SIZE >= blocks
            &&& (l.reduce_table_len as int / (BIN_COUNT as int)) * BLOCK_SIZE < blocks + BLOCK_SIZE
            &&& l.reduce_table_bytes == 4 * l.reduce_table_len
            &&& l.scan_scratch_len == l.reduce_table_len
            &&& l.scan_scratch_bytes == 4 * l.scan_scratch_len
            &&& l.keys_b_len == max_keys
            &&& l.keys_b_bytes == 4 * l.keys_b_len
            &&& l.num_keys == max_keys
            &&& l.num_passes * BITS_PER_PASS <= keys_bit_count < (l.num_passes + 1) * BITS_PER_PASS
        }),
{
    let b = BLOCK_SIZE as int;
    let n = max_keys as int;
    let t = ceil_div(n, b);
    assert(t * b >= n && t * b < n + b) by (nonlinear_arith)
        requires
            t == (n + b - 1) / b,
            b == 512,
            n >= 0,
    ;
    assert(0 <= t <= 0x80_0000);
    let u = ceil_div(t, b);
    assert(u * b >= t && u * b < t + b) by (nonlinear_arith)
        requires
            u == (t + b - 1) / b,
            b == 512,
            t >= 0,
    ;
    assert(0 <= u <= 0x8000);
}

} // verus!
