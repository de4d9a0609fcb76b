use mdr_engine::engine::{MdrControlFlow, MdrEngineAction, MdrEvent};
use mdr_engine::{MdrEngine, MdrEngineOptions};

#[test]
fn close_requested_exits() {
    let mut engine = MdrEngine::new(MdrEngineOptions { debug: false });
    let r = engine.handle_event(MdrEvent::CloseRequested);
    assert_eq!(r.control_flow, Some(MdrControlFlow::Exit));
}

#[test]
fn other_events_keep_running() {
    let mut engine = MdrEngine::new(MdrEngineOptions { debug: true });
    let cases = [
        (MdrEvent::Resized, MdrEngineAction::NotifyResized),
        (MdrEvent::MouseInput, MdrEngineAction::ForwardMouseInput),
        (MdrEvent::CursorMoved, MdrEngineAction::ForwardCursorMoved),
        (MdrEvent::KeyboardInput, MdrEngineAction::ForwardKeyboardInput),
        (MdrEvent::MainEventsCleared, MdrEngineAction::UpdateScene),
        (MdrEvent::RedrawEventsCleared, MdrEngineAction::Draw),
        (MdrEvent::Other, MdrEngineAction::Nothing),
    ];
    for (event, action) in cases {
        let r = engine.handle_event(event);
        assert_eq!(r.control_flow, None);
        assert_eq!(r.action, action);
    }
    assert!(engine.options.debug);
}

#[test]
fn new_engine_has_empty_resources() {
    let engine = MdrEngine::new(MdrEngineOptions { debug: false });
    let m = engine.manage_resources();
    assert_eq!(m.mesh_count(), 0);
    assert_eq!(m.texture_count(), 0);
    assert_eq!(m.material_count(), 0);
    assert_eq!(m.sampler_count(), 0);
}
