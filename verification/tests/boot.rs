use cjn_os::{BootStage, InitSequencer};

#[test]
fn bring_up_steps_pass_in_strict_order() {
    let mut seq = InitSequencer::new();
    assert_eq!(seq.stage(), BootStage::Start);
    seq.segments_loaded();
    assert_eq!(seq.stage(), BootStage::SegmentsLoaded);
    seq.dispatch_loaded();
    assert_eq!(seq.stage(), BootStage::DispatchLoaded);
    seq.controllers_ready();
    assert_eq!(seq.stage(), BootStage::ControllersReady);
    seq.interrupts_enabled();
    assert_eq!(seq.stage(), BootStage::InterruptsEnabled);
}
