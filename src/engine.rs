use vstd::prelude::*;

use crate::resources::MdrResourceManager;

verus! {

/// Options the engine is started with.
#[derive(Clone, Copy, Debug, PartialEq, Eq, Structural)]
pub struct MdrEngineOptions {
    pub debug: bool,
}

/// A window-system event, by kind; its payload stays with the event loop.
#[derive(Clone, Copy, Debug, PartialEq, Eq, Structural)]
pub enum MdrEvent {
    CloseRequested,
    Resized,
    MouseInput,
    CursorMoved,
    KeyboardInput,
    MainEventsCleared,
    RedrawEventsCleared,
    Other,
}

/// What the event loop is to do next.
#[derive(Clone, Copy, Debug, PartialEq, Eq, Structural)]
pub enum MdrControlFlow {
    Exit,
}

/// The work an event calls for, carried out by the event loop.
#[derive(Clone, Copy, Debug, PartialEq, Eq, Structural)]
pub enum MdrEngineAction {
    Nothing,
    NotifyResized,
    ForwardMouseInput,
    ForwardCursorMoved,
    ForwardKeyboardInput,
    UpdateScene,
    Draw,
}

/// The answer to one event.
#[derive(Clone, Copy, Debug, PartialEq, Eq, Structural)]
pub struct MdrEventResponse {
    pub control_flow: Option<MdrControlFlow>,
    pub action: MdrEngineAction,
}

/// Closing the window exits; every other event keeps the loop running and maps to
/// the work it calls for.
pub open spec fn response_to(event: MdrEvent) -> MdrEventResponse {
    match event {
        MdrEvent::CloseRequested => MdrEventResponse {
            control_flow: Some(MdrControlFlow::Exit),
            action: MdrEngineAction::Nothing,
        },
        MdrEvent::Resized => MdrEventResponse { control_flow: None, action: MdrEngineAction::NotifyResized },
        MdrEvent::MouseInput => MdrEventResponse {
            control_flow: None,
            action: MdrEngineAction::ForwardMouseInput,
        },
        MdrEvent::CursorMoved => MdrEventResponse {
            control_flow: None,
            action: MdrEngineAction::ForwardCursorMoved,
        },
        MdrEvent::KeyboardInput => MdrEventResponse {
            control_flow: None,
            action: MdrEngineAction::ForwardKeyboardInput,
        },
        MdrEvent::MainEventsCleared => MdrEventResponse {
            control_flow: None,
            action: MdrEngineAction::UpdateScene,
        },
        MdrEvent::RedrawEventsCleared => MdrEventResponse { control_flow: None, action: MdrEngineAction::Draw },
        MdrEvent::Other => MdrEventResponse { control_flow: None, action: MdrEngineAction::Nothing },
    }
}

/// The engine: its options and the resource manager the scene draws from.
pub struct MdrEngine {
    pub options: MdrEngineOptions,
    pub resource_manager: MdrResourceManager,
}

impl MdrEngine {
    pub open spec fn wf(&self) -> bool {
        self.resource_manager.wf()
    }

    /// An engine with an empty resource manager.
    pub fn new(options: MdrEngineOptions) -> (r: Self)
        ensures
            r.wf(),
            r.options == options,
            r.resource_manager.meshes().is_empty(),
            r.resource_manager.textures().is_empty(),
            r.resource_manager.materials().is_empty(),
            r.resource_manager.pending_uploads().len() == 0,
    {
        MdrEngine { options, resource_manager: MdrResourceManager::new() }
    }

    /// The resource manager.
    pub fn manage_resources(&self) -> (r: &MdrResourceManager)
        ensures
            *r == self.resource_manager,
    {
        &self.resource_manager
    }

    /// Decides what `event` calls for.
    pub fn handle_event(&mut self, event: MdrEvent) -> (r: MdrEventResponse)
        ensures
            r == response_to(event),
            *final(self) == *old(self),
    {
        match event {
            MdrEvent::CloseRequested => MdrEventResponse {
                control_flow: Some(MdrControlFlow::Exit),
                action: MdrEngineAction::Nothing,
            },
            MdrEvent::Resized => MdrEventResponse { control_flow: None, action: MdrEngineAction::NotifyResized },
            MdrEvent::MouseInput => MdrEventResponse {
                control_flow: None,
                action: MdrEngineAction::ForwardMouseInput,
            },
            MdrEvent::CursorMoved => MdrEventResponse {
                control_flow: None,
                action: MdrEngineAction::ForwardCursorMoved,
            },
            MdrEvent::KeyboardInput => MdrEventResponse {
                control_flow: None,
                action: MdrEngineAction::ForwardKeyboardInput,
            },
            MdrEvent::MainEventsCleared => MdrEventResponse {
                control_flow: None,
                action: MdrEngineAction::UpdateScene,
            },
            MdrEvent::RedrawEventsCleared => MdrEventResponse { control_flow: None, action: MdrEngineAction::Draw },
            MdrEvent::Other => MdrEventResponse { control_flow: None, action: MdrEngineAction::Nothing },
        }
    }
}

} // verus!
