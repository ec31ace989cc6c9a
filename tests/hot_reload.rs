use shaderpg::lifecycle::PipelineSlots;
use shaderpg::source::{reader, DEFAULT_FRAG_REF, PATH};
use shaderpg::trigger::{ChangeDetector, UpdateTrigger};

#[test]
fn swap_then_age_past_frames_in_flight() {
    let mut slots = PipelineSlots::new(1u32, 3);
    assert!(slots.apply_rebuild::<String>(Ok(2)).is_ok());
    assert_eq!(*slots.current(), 2);
    assert_eq!(slots.discarded_len(), 1);
    assert_eq!(slots.in_use(), 0);

    slots.record_frame();
    slots.record_frame();
    assert_eq!(slots.sweep(), 0);
    assert_eq!(slots.discarded_len(), 1);

    slots.record_frame();
    assert_eq!(slots.sweep(), 1);
    assert_eq!(slots.discarded_len(), 0);
    assert_eq!(*slots.current(), 2);
}

#[test]
fn rapid_rebuilds_release_together() {
    let mut slots = PipelineSlots::new(10u32, 3);
    assert!(slots.apply_rebuild::<String>(Ok(11)).is_ok());
    assert_eq!(*slots.record_frame(), 11);
    assert!(slots.apply_rebuild::<String>(Ok(12)).is_ok());
    assert_eq!(slots.discarded_len(), 2);
    assert_eq!(slots.in_use(), 0);

    for _ in 0..2 {
        assert_eq!(*slots.record_frame(), 12);
        assert_eq!(slots.sweep(), 0);
        assert_eq!(slots.discarded_len(), 2);
    }
    slots.record_frame();
    assert_eq!(slots.sweep(), 2);
    assert_eq!(slots.discarded_len(), 0);
}

#[test]
fn failed_rebuild_changes_nothing() {
    let mut slots = PipelineSlots::new(7u32, 3);
    assert!(slots.apply_rebuild::<String>(Ok(8)).is_ok());
    slots.record_frame();
    let r = slots.apply_rebuild(Err(String::from("1 error: syntax error at line 3")));
    assert_eq!(r, Err(String::from("1 error: syntax error at line 3")));
    assert_eq!(*slots.current(), 8);
    assert_eq!(slots.discarded_len(), 1);
    assert_eq!(slots.in_use(), 1);
}

#[test]
fn manual_trigger_bypasses_mtime() {
    let mut detector = ChangeDetector::new(500);
    let mut slots = PipelineSlots::new(1u32, 3);
    assert!(!detector.should_rebuild(UpdateTrigger::Poll(Some(500))));
    assert!(detector.should_rebuild(UpdateTrigger::Manual));
    assert_eq!(detector.last_modified, 500);
    assert!(slots.apply_rebuild::<String>(Ok(2)).is_ok());
    assert_eq!(*slots.current(), 2);
    assert_eq!(slots.discarded_len(), 1);
}

#[test]
fn poll_reports_each_change_once() {
    let mut detector = ChangeDetector::new(100);
    assert!(!detector.poll(Some(100)));
    assert!(!detector.poll(Some(50)));
    assert_eq!(detector.last_modified, 100);
    assert!(detector.poll(Some(101)));
    assert_eq!(detector.last_modified, 101);
    assert!(!detector.poll(Some(101)));
    assert!(!detector.poll(None));
    assert_eq!(detector.last_modified, 101);
}

#[test]
fn missing_source_is_replaced_by_default() {
    let r = reader(None);
    assert!(r.write_default);
    assert_eq!(r.text, DEFAULT_FRAG_REF);
    assert_eq!(PATH, "shader.glsl");
}

#[test]
fn existing_source_is_compiled_as_read() {
    let r = reader(Some(String::from("void main() {}")));
    assert!(!r.write_default);
    assert_eq!(r.text, "void main() {}");
}

#[test]
fn frame_binds_the_single_current_pipeline() {
    let mut slots = PipelineSlots::new(4u32, 2);
    assert_eq!(slots.in_use(), 2);
    assert_eq!(slots.frames_in_flight(), 2);
    assert_eq!(*slots.record_frame(), 4);
    assert_eq!(slots.in_use(), 3);
    slots.install(5);
    assert_eq!(*slots.record_frame(), 5);
    assert_eq!(slots.in_use(), 1);
    assert_eq!(slots.sweep(), 0);
    assert_eq!(*slots.record_frame(), 5);
    assert_eq!(slots.sweep(), 1);
}

#[test]
fn sweep_with_nothing_retired_releases_nothing() {
    let mut slots = PipelineSlots::new(0u32, 3);
    assert_eq!(slots.sweep(), 0);
    assert_eq!(slots.discarded_len(), 0);
    assert_eq!(*slots.current(), 0);
}

#[test]
fn frame_counter_stops_at_usize_max() {
    let mut slots = PipelineSlots::new(0u32, usize::MAX);
    assert_eq!(slots.in_use(), usize::MAX);
    slots.record_frame();
    assert_eq!(slots.in_use(), usize::MAX);
    slots.install(1);
    assert_eq!(slots.in_use(), 0);
    assert_eq!(slots.sweep(), 0);
    assert_eq!(slots.discarded_len(), 1);
}
