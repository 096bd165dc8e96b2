use web_audio_api::fast_track::plan_fast_track;
use web_audio_api::lifecycle::{
    receive_buffer, AlignmentFacts, BlockEntry, EndFacts, RenderFlags,
};

fn aligned_facts() -> AlignmentFacts {
    AlignmentFacts {
        starts_on_block_without_offset: true,
        same_sample_rate: true,
        unit_playback_rate: true,
        default_loop_points: true,
        duration_after_block: true,
        stop_after_block: true,
    }
}

fn no_end(is_looping: bool) -> EndFacts {
    EndFacts {
        reached_stop: false,
        reached_duration: false,
        is_looping,
        forward_past_end: false,
        backward_before_start: false,
    }
}

#[test]
fn new_flags_are_clear() {
    let flags = RenderFlags::new();
    assert!(!flags.started());
    assert!(!flags.entered_loop());
    assert!(!flags.is_aligned());
    assert!(!flags.ended());
}

#[test]
fn block_entry_early_exits() {
    let flags = RenderFlags::new();
    assert_eq!(flags.block_entry(true, true, true), BlockEntry::Silent { tail: false });
    assert_eq!(flags.block_entry(true, false, true), BlockEntry::Silent { tail: true });
    assert_eq!(flags.block_entry(false, false, false), BlockEntry::Silent { tail: false });
    assert_eq!(flags.block_entry(false, false, true), BlockEntry::Render);
}

#[test]
fn alignment_needs_every_condition() {
    let mut flags = RenderFlags::new();
    assert!(flags.update_alignment(aligned_facts()));
    assert!(flags.is_aligned());
    // once aligned, the start condition is no longer needed
    let later = AlignmentFacts { starts_on_block_without_offset: false, ..aligned_facts() };
    assert!(flags.update_alignment(later));

    let breakers = [
        AlignmentFacts { same_sample_rate: false, ..aligned_facts() },
        AlignmentFacts { unit_playback_rate: false, ..aligned_facts() },
        AlignmentFacts { default_loop_points: false, ..aligned_facts() },
        AlignmentFacts { duration_after_block: false, ..aligned_facts() },
        AlignmentFacts { stop_after_block: false, ..aligned_facts() },
    ];
    for facts in breakers {
        let mut flags = RenderFlags::new();
        assert!(!flags.update_alignment(facts));
        assert!(!flags.is_aligned());
    }
}

#[test]
fn alignment_is_lost_for_good() {
    let mut flags = RenderFlags::new();
    assert!(flags.update_alignment(aligned_facts()));
    assert!(!flags.update_alignment(AlignmentFacts { stop_after_block: false, ..aligned_facts() }));
    let later = AlignmentFacts { starts_on_block_without_offset: false, ..aligned_facts() };
    assert!(!flags.update_alignment(later));
}

#[test]
fn resampling_takes_the_slow_path() {
    let mut flags = RenderFlags::new();
    let facts = AlignmentFacts { same_sample_rate: false, ..aligned_facts() };
    assert!(!flags.update_alignment(facts));
    let mut flags = RenderFlags::new();
    assert!(flags.update_alignment(aligned_facts()));
}

#[test]
fn stop_in_block_ends_the_source() {
    let mut flags = RenderFlags::new();
    assert!(!flags.finish_block(no_end(false)));
    assert!(!flags.ended());
    let stop = EndFacts { reached_stop: true, ..no_end(false) };
    assert!(flags.finish_block(stop));
    assert!(flags.ended());
    assert_eq!(flags.block_entry(false, false, true), BlockEntry::Silent { tail: false });
}

#[test]
fn end_of_buffer_ends_only_without_loop() {
    let mut looping = RenderFlags::new();
    let past_end = EndFacts { forward_past_end: true, ..no_end(true) };
    assert!(!looping.finish_block(past_end));
    assert!(!looping.ended());

    let mut once = RenderFlags::new();
    let past_end = EndFacts { forward_past_end: true, ..no_end(false) };
    assert!(once.finish_block(past_end));

    let mut reverse = RenderFlags::new();
    let before_start = EndFacts { backward_before_start: true, ..no_end(false) };
    assert!(reverse.finish_block(before_start));

    let mut duration = RenderFlags::new();
    let reached = EndFacts { reached_duration: true, ..no_end(true) };
    assert!(duration.finish_block(reached));
}

#[test]
fn onended_fires_once_and_loop_does_not_restart() {
    let mut flags = RenderFlags::new();
    let past_end = EndFacts { forward_past_end: true, ..no_end(false) };
    let mut sent = 0;
    if flags.finish_block(past_end) {
        sent += 1;
    }
    // looping switched on from the ended callback
    for _ in 0..4 {
        match flags.block_entry(false, false, true) {
            BlockEntry::Silent { tail } => assert!(!tail),
            BlockEntry::Render => {
                if flags.finish_block(no_end(true)) {
                    sent += 1;
                }
            }
        }
    }
    if flags.before_drop(true) {
        sent += 1;
    }
    assert_eq!(sent, 1);
}

#[test]
fn drop_before_start_time_sends_nothing() {
    let mut flags = RenderFlags::new();
    assert!(!flags.before_drop(false));
    assert!(!flags.ended());
    assert!(flags.before_drop(true));
    assert!(flags.ended());
    assert!(!flags.before_drop(true));
}

#[test]
fn started_and_loop_flags() {
    let mut flags = RenderFlags::new();
    flags.mark_started();
    assert!(flags.started());
    flags.set_entered_loop(true);
    assert!(flags.entered_loop());
    flags.set_entered_loop(false);
    assert!(!flags.entered_loop());
    assert!(flags.started());
}

#[test]
fn first_buffer_is_installed() {
    let mut slot: Option<Vec<u8>> = None;
    let mut incoming = vec![1, 2, 3];
    assert!(receive_buffer(&mut slot, &mut incoming, Vec::new()));
    assert_eq!(slot, Some(vec![1, 2, 3]));
    assert!(incoming.is_empty());
}

#[test]
fn second_buffer_is_swapped() {
    let mut slot: Option<Vec<u8>> = Some(vec![1]);
    let mut incoming = vec![2, 2];
    assert!(!receive_buffer(&mut slot, &mut incoming, Vec::new()));
    assert_eq!(slot, Some(vec![2, 2]));
    assert_eq!(incoming, vec![1]);
}

#[test]
fn loop_entry_from_before_and_after() {
    let mut before = RenderFlags::new();
    // began before the loop end, not at the loop start yet
    assert!(!before.detect_loop_entry(true, false, true));
    assert!(before.detect_loop_entry(true, true, true));
    // stays entered whatever comes next
    assert!(before.detect_loop_entry(false, false, false));

    let mut after = RenderFlags::new();
    // began past the loop end, still past it
    assert!(!after.detect_loop_entry(false, true, false));
    assert!(after.detect_loop_entry(false, true, true));
    assert!(after.entered_loop());
}

#[test]
fn test_onended_before_drop() {
    let q = web_audio_api::RENDER_QUANTUM_SIZE;
    // the buffer outlasts the rendering, so no block ends the source
    let mut buffer = vec![0.0f32; q * 2];
    buffer[0] = 1.;
    let mut flags = RenderFlags::new();
    assert_eq!(flags.block_entry(false, false, true), BlockEntry::Render);
    assert!(flags.update_alignment(aligned_facts()));
    flags.mark_started();
    let plan = plan_fast_track(0, buffer.len(), false);
    let channel: Vec<f32> = plan.frames.iter().map(|f| f.map_or(0., |i| buffer[i])).collect();
    let ended = flags.finish_block(EndFacts {
        forward_past_end: plan.next_position >= buffer.len(),
        ..no_end(false)
    });
    assert!(!ended);

    // the handle goes away after the start time
    let onended_called = flags.before_drop(true);

    let mut expected = vec![0.; q];
    expected[0] = 1.;
    assert_eq!(channel, expected);
    assert!(onended_called);
}
