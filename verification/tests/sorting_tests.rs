use fluid_sim::sorting::{
    barriers_after, calculate_num_blocks, get_dispatch_data, stage_groups, SortBarrier, SortBuffer, SortCommand, SortPass,
    SortResource, SortStage, SortingData, ACCESS_SHADER_STORAGE_READ as R, ACCESS_SHADER_STORAGE_WRITE as W,
};

fn iterations(plan: &[SortCommand]) -> Vec<SortPass> {
    plan.iter()
        .filter_map(|c| match c {
            SortCommand::BeginIteration(p) => Some(*p),
            _ => None,
        })
        .collect()
}

#[test]
fn histogram_len_of_one_block() {
    assert_eq!(SortingData::calculate_histogram_len(1), 16);
    assert_eq!(SortingData::calculate_histogram_len(512), 16);
    assert_eq!(SortingData::calculate_histogram_len(513), 32);
    assert_eq!(SortingData::calculate_histogram_len(0), 0);
}

#[test]
fn dispatch_for_one_million_keys() {
    let pc = get_dispatch_data(1_000_000, 4);
    // 1_000_000 keys -> 1954 blocks over 800 groups.
    assert_eq!(calculate_num_blocks(1_000_000, 512), 1954);
    assert_eq!(pc.num_thread_groups, 800);
    assert_eq!(pc.num_blocks_per_thread_group, 2);
    assert_eq!(pc.num_thread_groups_with_additional_blocks, 354);
    assert_eq!(pc.num_scan_values, 32);
    assert_eq!(pc.num_reduce_thread_group_per_bin, 2);
    assert_eq!(pc.shift, 4);
}

#[test]
fn default_sort_has_eight_passes_ending_in_caller_buffer() {
    let data = SortingData::new(1000, None);
    assert_eq!(data.layout().num_passes, 8);
    let plan = iterations(&data.pass_plan());
    assert_eq!(plan.len(), 8);
    assert_eq!(plan[0].source, SortBuffer::Caller);
    assert_eq!(plan[7].destination, SortBuffer::Caller);
    assert_eq!(plan[7].shift, 28);
}

#[test]
fn reduce_table_and_scan_scratch_lengths() {
    assert_eq!(SortingData::calculate_reduce_table_len(1), 16);
    assert_eq!(SortingData::calculate_reduce_table_len(512 * 512), 16);
    assert_eq!(SortingData::calculate_reduce_table_len(512 * 512 + 1), 32);
    assert_eq!(SortingData::calculate_scan_scratch_len(512 * 512 + 1), 32);
    assert_eq!(SortingData::calculate_reduce_table_len(0), 0);
}

#[test]
fn number_of_passes_per_key_width() {
    assert_eq!(SortingData::calculate_number_of_passes(32), 8);
    assert_eq!(SortingData::calculate_number_of_passes(30), 7);
    assert_eq!(SortingData::calculate_number_of_passes(3), 0);
}

#[test]
fn sorting_data_sizes() {
    let data = SortingData::new(2048, Some(30)).layout();
    assert_eq!(data.keys_bit_count, 30);
    assert_eq!(data.num_passes, 7);
    assert_eq!(data.num_keys, 2048);
    assert_eq!(data.histogram_len, 64);
    assert_eq!(data.histogram_bytes, 256);
    assert_eq!(data.keys_b_len, 2048);
    assert_eq!(data.keys_b_bytes, 8192);
    assert_eq!(data.reduce_table_len, 16);
    assert_eq!(data.reduce_table_bytes, 64);
    assert_eq!(data.scan_scratch_len, 16);
    assert_eq!(data.scan_scratch_bytes, 64);
}

#[test]
fn dispatch_for_few_keys_has_no_additional_blocks() {
    let pc = get_dispatch_data(5000, 0);
    // 10 blocks, 10 groups of one block each.
    assert_eq!(pc.num_thread_groups, 10);
    assert_eq!(pc.num_blocks_per_thread_group, 1);
    assert_eq!(pc.num_thread_groups_with_additional_blocks, 0);
    assert_eq!(pc.num_scan_values, 16);
    assert_eq!(pc.num_reduce_thread_group_per_bin, 1);
    assert_eq!(pc.num_keys, 5000);
    assert_eq!(pc.padding, 0);
}

#[test]
fn dispatch_covers_every_block_exactly() {
    for &n in &[1u32, 511, 512, 513, 409_600, 409_601, 1_000_000, 4_000_000] {
        let pc = get_dispatch_data(n, 0);
        let total = calculate_num_blocks(n, 512);
        assert!(pc.num_thread_groups >= 1 && pc.num_thread_groups <= 800);
        assert!(pc.num_thread_groups_with_additional_blocks < pc.num_thread_groups);
        assert_eq!(
            pc.num_blocks_per_thread_group as u32 * pc.num_thread_groups + pc.num_thread_groups_with_additional_blocks,
            total
        );
        assert_eq!(pc.num_scan_values, 16 * pc.num_reduce_thread_group_per_bin);
        assert!(pc.num_scan_values as u64 <= SortingData::calculate_reduce_table_len(n));
    }
}

#[test]
fn dispatch_at_exactly_max_thread_groups() {
    let pc = get_dispatch_data(800 * 512, 8);
    assert_eq!(pc.num_thread_groups, 800);
    assert_eq!(pc.num_blocks_per_thread_group, 1);
    assert_eq!(pc.num_thread_groups_with_additional_blocks, 0);
    assert_eq!(pc.num_scan_values, 32);
}

#[test]
fn push_constant_words_and_bytes() {
    let pc = get_dispatch_data(1_000_000, 12);
    let words = pc.to_words();
    assert_eq!(words, [1_000_000, 2, 800, 354, 2, 32, 12, 0]);
    let bytes = pc.to_bytes();
    let mut expected = Vec::new();
    for w in words.iter() {
        expected.extend_from_slice(&w.to_ne_bytes());
    }
    assert_eq!(bytes, expected);
}

#[test]
fn push_constant_bytes_are_the_words_in_one_byte_order() {
    let pc = get_dispatch_data(5000, 8);
    let words = pc.to_words();
    let le: Vec<u8> = words.iter().flat_map(|w| w.to_le_bytes()).collect();
    let be: Vec<u8> = words.iter().flat_map(|w| w.to_be_bytes()).collect();
    let bytes = pc.to_bytes();
    assert_eq!(bytes.len(), 32);
    assert!(bytes == le || bytes == be);
}

#[test]
fn passes_alternate_buffers_and_shift_by_four_bits() {
    let data = SortingData::new(100_000, Some(12));
    let commands = data.pass_plan();
    assert_eq!(commands.len(), 3 * 13);
    let plan = iterations(&commands);
    assert_eq!(plan.len(), 3);
    assert_eq!(plan[0].source, SortBuffer::Caller);
    assert_eq!(plan[0].destination, SortBuffer::Scratch);
    assert_eq!(plan[1].source, SortBuffer::Scratch);
    assert_eq!(plan[1].destination, SortBuffer::Caller);
    assert_eq!(plan[2].source, SortBuffer::Caller);
    // an odd number of passes leaves the keys in the scratch buffer
    assert_eq!(plan[2].destination, SortBuffer::Scratch);
    for (i, p) in plan.iter().enumerate() {
        assert_eq!(p.shift, 4 * i as u32);
        assert_eq!(p.push_constants.shift, p.shift);
        assert_eq!(p.push_constants, get_dispatch_data(100_000, 4 * i as u32));
    }
}

#[test]
fn each_iteration_dispatches_five_stages_each_followed_by_its_barriers() {
    let data = SortingData::new(100_000, Some(8));
    let commands = data.pass_plan();
    assert_eq!(commands.len(), 2 * 13);
    let stages = [SortStage::Counting, SortStage::Reduce, SortStage::Scan, SortStage::ScanAdd, SortStage::Scatter];
    for it in 0..2usize {
        let base = 13 * it;
        let pc = match commands[base] {
            SortCommand::BeginIteration(p) => p.push_constants,
            _ => panic!("iteration {} does not begin with its buffers and constants", it),
        };
        assert_eq!(pc.shift, 4 * it as u32);
        let mut k = base + 1;
        for stage in stages.iter() {
            match commands[k] {
                SortCommand::Dispatch { stage: s, groups } => {
                    assert_eq!(s, *stage);
                    assert_eq!(groups, stage_groups(&pc, *stage));
                }
                _ => panic!("expected a dispatch at {}", k),
            }
            k += 1;
            for b in barriers_after(*stage) {
                assert_eq!(commands[k], SortCommand::Barrier(b));
                k += 1;
            }
        }
        assert_eq!(k, base + 13);
    }
    // 100_000 keys -> 196 blocks, one per thread group
    assert_eq!(
        commands[1],
        SortCommand::Dispatch { stage: SortStage::Counting, groups: stage_groups(&get_dispatch_data(100_000, 0), SortStage::Counting) }
    );
    match commands[1] {
        SortCommand::Dispatch { groups, .. } => assert_eq!((groups.x, groups.y, groups.z), (196, 1, 1)),
        _ => unreachable!(),
    }
    match commands[5] {
        SortCommand::Dispatch { stage: SortStage::Scan, groups } => assert_eq!((groups.x, groups.y, groups.z), (1, 1, 1)),
        _ => panic!("scan expected at 5"),
    }
}

#[test]
fn empty_sort_has_no_passes() {
    let data = SortingData::new(0, Some(0));
    assert_eq!(data.pass_plan().len(), 0);
}

#[test]
fn barriers_after_each_sort_stage() {
    assert_eq!(R, 1u64 << 33);
    assert_eq!(W, 1u64 << 34);
    assert_eq!(
        barriers_after(SortStage::Counting),
        vec![SortBarrier { resource: SortResource::Histogram, src_access: R | W, dst_access: R }]
    );
    assert_eq!(
        barriers_after(SortStage::Reduce),
        vec![SortBarrier { resource: SortResource::ReduceTable, src_access: W, dst_access: R | W }]
    );
    assert_eq!(
        barriers_after(SortStage::Scan),
        vec![SortBarrier { resource: SortResource::ReduceTable, src_access: R | W, dst_access: R }]
    );
    assert_eq!(
        barriers_after(SortStage::ScanAdd),
        vec![SortBarrier { resource: SortResource::Histogram, src_access: R | W, dst_access: R }]
    );
    assert_eq!(
        barriers_after(SortStage::Scatter),
        vec![
            SortBarrier { resource: SortResource::Histogram, src_access: R, dst_access: W },
            SortBarrier { resource: SortResource::DestinationKeys, src_access: W, dst_access: R },
            SortBarrier { resource: SortResource::DestinationPayload, src_access: W, dst_access: R },
        ]
    );
}
