use web_audio_api::context::{AudioNodeId, NodeIdAllocator};
use web_audio_api::control::{Schedule, SourceControl};
use web_audio_api::IndexSizeError;

#[test]
fn start_then_stop() {
    let mut control = SourceControl::new(false);
    assert_eq!(control.schedule(), Schedule::Unscheduled);
    assert!(control.can_start());
    assert!(!control.can_stop());
    control.start();
    assert_eq!(control.schedule(), Schedule::Started);
    assert!(!control.can_start());
    assert!(control.can_stop());
    control.stop();
    assert_eq!(control.schedule(), Schedule::Stopped);
    assert!(!control.can_start());
    assert!(!control.can_stop());
}

#[test]
fn buffer_is_set_once() {
    let mut control = SourceControl::new(true);
    assert!(!control.has_buffer());
    control.set_buffer();
    assert!(control.has_buffer());
    assert!(control.loop_());
    control.set_loop(false);
    assert!(!control.loop_());
    assert!(control.has_buffer());
}

#[test]
fn node_ids_count_up_from_one() {
    let mut ids = NodeIdAllocator::new();
    assert!(ids.has_next());
    let a = ids.allocate();
    let b = ids.allocate();
    assert_eq!(a.value(), 1);
    assert_eq!(b.value(), 2);
    assert_ne!(a, AudioNodeId::destination());
    assert_eq!(AudioNodeId::destination().value(), 0);
}

#[test]
fn index_size_error_compares() {
    assert_eq!(IndexSizeError {}, IndexSizeError {});
}
