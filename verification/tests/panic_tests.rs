use null_chat::panic_engine::{PanicEngine, HEAP_DECOY_BYTES, WIPE_FRAME_BYTES};

#[test]
fn panic_scrubbing_runs() {
    PanicEngine::wipe_stack_entropy_frames();
    PanicEngine::wipe_heap_decoy_region();
    assert_eq!(WIPE_FRAME_BYTES, 131072);
    assert_eq!(HEAP_DECOY_BYTES, 2 * 1024 * 1024);
}
