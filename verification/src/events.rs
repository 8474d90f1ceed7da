//! What the application does in answer to each event of the window system.
//!
//! The event loop itself, the window and the user interface belong to the
//! caller. It reports each event here, together with what the user
//! interface currently captures, and carries out the actions it gets back,
//! in order.

use crate::input::{ElementState, Input, InputModel, KeyCode, MouseButton};
use crate::wgpu_ctx::{
    step_views, FrameStep, FrameStepView, ResizeStep, WgpuCtx, WgpuCtxModel,
};
use vstd::prelude::*;

verus! {

/// Edge length of the window when it is first created.
pub const INITIAL_WINDOW_SIZE: u32 = 800;

/// Smallest edge length the window may be resized to.
pub const MIN_WINDOW_SIZE: u32 = 200;

/// An event of the window, reduced to what the application reacts to.
#[derive(Clone, Copy, Debug, PartialEq, Eq, Structural)]
pub enum WindowEvent {
    CloseRequested,
    Resized { width: u32, height: u32 },
    /// A key went down or came up. `escape` says whether it is the Escape
    /// key; `key` is its physical code, if it has one.
    KeyboardInput { escape: bool, key: Option<KeyCode>, state: ElementState },
    RedrawRequested,
    MouseInput { button: MouseButton, state: ElementState },
    CursorMoved,
    MouseWheel,
    /// Any other event.
    Other,
}

/// What the user interface wants for itself at the moment.
#[derive(Clone, Copy, Debug, PartialEq, Eq, Structural)]
pub struct UiCapture {
    pub keyboard: bool,
    pub mouse: bool,
}

/// One thing for the caller to do.
#[derive(Debug, PartialEq, Eq)]
pub enum AppAction {
    /// Create the window, [`INITIAL_WINDOW_SIZE`] square and no smaller
    /// than [`MIN_WINDOW_SIZE`] square, then the device context for it and
    /// the camera.
    CreateWindow,
    /// Leave the event loop.
    Exit,
    /// Carry out these resize steps on the device, in order.
    Resize(Vec<ResizeStep>),
    /// Set the camera's aspect ratio to `width / height`.
    SetCameraAspect { width: u32, height: u32 },
    /// Ask the window system for a redraw.
    RequestRedraw,
    /// Move the camera by the input since the last frame and upload it.
    UpdateCamera,
    /// Carry out these frame steps, in order.
    Draw(Vec<FrameStep>),
    /// End the input frame, by [`App::end_input_frame`].
    EndInputFrame,
    /// Remember where the cursor is.
    TrackCursor,
    /// Add the mouse motion to this frame's total.
    TrackMotion,
    /// Add the wheel motion to this frame's total.
    TrackScroll,
    /// Hand the event to the user interface.
    ForwardToUi,
}

/// An action as a mathematical value.
pub enum AppActionView {
    CreateWindow,
    Exit,
    Resize(Seq<ResizeStep>),
    SetCameraAspect { width: u32, height: u32 },
    RequestRedraw,
    UpdateCamera,
    Draw(Seq<FrameStepView>),
    EndInputFrame,
    TrackCursor,
    TrackMotion,
    TrackScroll,
    ForwardToUi,
}

impl View for AppAction {
    type V = AppActionView;

    open spec fn view(&self) -> AppActionView {
        match self {
            AppAction::CreateWindow => AppActionView::CreateWindow,
            AppAction::Exit => AppActionView::Exit,
            AppAction::Resize(steps) => AppActionView::Resize(steps@),
            AppAction::SetCameraAspect { width, height } => AppActionView::SetCameraAspect {
                width: *width,
                height: *height,
            },
            AppAction::RequestRedraw => AppActionView::RequestRedraw,
            AppAction::UpdateCamera => AppActionView::UpdateCamera,
            AppAction::Draw(steps) => AppActionView::Draw(step_views(steps@)),
            AppAction::EndInputFrame => AppActionView::EndInputFrame,
            AppAction::TrackCursor => AppActionView::TrackCursor,
            AppAction::TrackMotion => AppActionView::TrackMotion,
            AppAction::TrackScroll => AppActionView::TrackScroll,
            AppAction::ForwardToUi => AppActionView::ForwardToUi,
        }
    }
}

/// The mathematical values of a list of actions, in order.
pub open spec fn action_views(actions: Seq<AppAction>) -> Seq<AppActionView> {
    actions.map_values(|a: AppAction| a@)
}

/// The application's state as mathematical values.
pub struct AppModel {
    pub ctx: WgpuCtxModel,
    pub input: InputModel,
}

/// Whether a key event asks to leave: Escape going down while the user
/// interface does not capture the keyboard.
pub open spec fn spec_is_exit_key(event: WindowEvent, capture: UiCapture) -> bool {
    match event {
        WindowEvent::KeyboardInput { escape, key, state } => !capture.keyboard && escape && state
            == ElementState::Pressed,
        _ => false,
    }
}

impl AppModel {
    /// The state after `event`.
    pub open spec fn after(self, event: WindowEvent, capture: UiCapture) -> AppModel {
        match event {
            WindowEvent::Resized { width, height } => AppModel {
                ctx: self.ctx.resized((width, height)),
                input: self.input,
            },
            WindowEvent::KeyboardInput { escape, key, state } => if !capture.keyboard && key
                is Some {
                AppModel { ctx: self.ctx, input: self.input.with_key(key.unwrap(), state) }
            } else {
                self
            },
            WindowEvent::RedrawRequested => AppModel { ctx: self.ctx.drawn(), input: self.input },
            WindowEvent::MouseInput { button, state } => if !capture.mouse {
                AppModel { ctx: self.ctx, input: self.input.with_button(button, state) }
            } else {
                self
            },
            _ => self,
        }
    }

    /// What to do in answer to `event`, in order. Whatever else happens,
    /// the event is handed to the user interface last.
    pub open spec fn actions(self, event: WindowEvent, capture: UiCapture) -> Seq<AppActionView> {
        let own: Seq<AppActionView> = match event {
            WindowEvent::CloseRequested => seq![AppActionView::Exit],
            WindowEvent::Resized { width, height } => seq![
                AppActionView::Resize(self.ctx.resized((width, height)).resize_steps()),
                AppActionView::SetCameraAspect { width, height },
                AppActionView::RequestRedraw,
            ],
            WindowEvent::KeyboardInput { escape, key, state } => if spec_is_exit_key(
                event,
                capture,
            ) {
                seq![AppActionView::Exit]
            } else {
                Seq::empty()
            },
            WindowEvent::RedrawRequested => seq![
                AppActionView::UpdateCamera,
                AppActionView::Draw(self.ctx.drawn().frame()),
                AppActionView::EndInputFrame,
            ],
            WindowEvent::MouseInput { button, state } => Seq::empty(),
            WindowEvent::CursorMoved => if !capture.mouse {
                seq![AppActionView::TrackCursor]
            } else {
                Seq::empty()
            },
            WindowEvent::MouseWheel => seq![AppActionView::TrackScroll],
            WindowEvent::Other => Seq::empty(),
        };
        own.push(AppActionView::ForwardToUi)
    }
}

/// The application once its window exists: the frame orchestrator and the
/// input state.
pub struct App {
    wgpu_ctx: WgpuCtx,
    input_system: Input,
}

impl View for App {
    type V = AppModel;

    closed spec fn view(&self) -> AppModel {
        AppModel { ctx: self.wgpu_ctx@, input: self.input_system@ }
    }
}

/// What to do when the application is resumed: create the window and all
/// that hangs on it if there is none yet, and in any case ask for a redraw.
pub fn resumed(window_exists: bool) -> (actions: Vec<AppAction>)
    ensures
        action_views(actions@) == if window_exists {
            seq![AppActionView::RequestRedraw]
        } else {
            seq![AppActionView::CreateWindow, AppActionView::RequestRedraw]
        },
{
    let mut actions: Vec<AppAction> = Vec::new();
    if !window_exists {
        actions.push(AppAction::CreateWindow);
    }
    actions.push(AppAction::RequestRedraw);
    assert(action_views(actions@) =~= if window_exists {
        seq![AppActionView::RequestRedraw]
    } else {
        seq![AppActionView::CreateWindow, AppActionView::RequestRedraw]
    });
    actions
}

/// What to do with an event of an input device: mouse motion is added to
/// the frame's total, and every event is handed to the user interface.
pub fn device_event(mouse_motion: bool) -> (actions: Vec<AppAction>)
    ensures
        action_views(actions@) == if mouse_motion {
            seq![AppActionView::TrackMotion, AppActionView::ForwardToUi]
        } else {
            seq![AppActionView::ForwardToUi]
        },
{
    let mut actions: Vec<AppAction> = Vec::new();
    if mouse_motion {
        actions.push(AppAction::TrackMotion);
    }
    actions.push(AppAction::ForwardToUi);
    assert(action_views(actions@) =~= if mouse_motion {
        seq![AppActionView::TrackMotion, AppActionView::ForwardToUi]
    } else {
        seq![AppActionView::ForwardToUi]
    });
    actions
}

/// What to do with an event of the application's own: hand it to the user
/// interface.
pub fn user_event() -> (actions: Vec<AppAction>)
    ensures
        action_views(actions@) == seq![AppActionView::ForwardToUi],
{
    let mut actions: Vec<AppAction> = Vec::new();
    actions.push(AppAction::ForwardToUi);
    assert(action_views(actions@) =~= seq![AppActionView::ForwardToUi]);
    actions
}

/// What to do when the event queue has run dry: ask for the next redraw
/// and tell the user interface.
pub fn about_to_wait() -> (actions: Vec<AppAction>)
    ensures
        action_views(actions@) == seq![AppActionView::RequestRedraw, AppActionView::ForwardToUi],
{
    let mut actions: Vec<AppAction> = Vec::new();
    actions.push(AppAction::RequestRedraw);
    actions.push(AppAction::ForwardToUi);
    assert(action_views(actions@) =~= seq![
        AppActionView::RequestRedraw,
        AppActionView::ForwardToUi,
    ]);
    actions
}

impl App {
    /// The application for a window whose inner size is `width` by `height`.
    pub fn new(width: u32, height: u32) -> (app: App)
        ensures
            app@ == (AppModel {
                ctx: crate::wgpu_ctx::spec_initial(width, height),
                input: InputModel::empty(),
            }),
    {
        App { wgpu_ctx: WgpuCtx::new(width, height), input_system: Input::new() }
    }

    /// Takes an event of the window and says what to do about it.
    pub fn window_event(&mut self, event: WindowEvent, capture: UiCapture) -> (actions: Vec<
        AppAction,
    >)
        ensures
            final(self)@ == old(self)@.after(event, capture),
            action_views(actions@) == old(self)@.actions(event, capture),
    {
        let mut actions: Vec<AppAction> = Vec::new();
        let ghost before = self@;
        match event {
            WindowEvent::CloseRequested => {
                actions.push(AppAction::Exit);
            },
            WindowEvent::Resized { width, height } => {
                let steps = self.wgpu_ctx.resize((width, height));
                actions.push(AppAction::Resize(steps));
                actions.push(AppAction::SetCameraAspect { width, height });
                actions.push(AppAction::RequestRedraw);
            },
            WindowEvent::KeyboardInput { escape, key, state } => {
                if !capture.keyboard {
                    if escape && state == ElementState::Pressed {
                        actions.push(AppAction::Exit);
                    }
                    match key {
                        Some(key) => {
                            self.input_system.handle_key_input(key, state);
                        },
                        None => {},
                    }
                }
            },
            WindowEvent::RedrawRequested => {
                actions.push(AppAction::UpdateCamera);
                let steps = self.wgpu_ctx.draw();
                actions.push(AppAction::Draw(steps));
                actions.push(AppAction::EndInputFrame);
            },
            WindowEvent::MouseInput { button, state } => {
                if !capture.mouse {
                    self.input_system.handle_mouse_button(button, state);
                }
            },
            WindowEvent::CursorMoved => {
                if !capture.mouse {
                    actions.push(AppAction::TrackCursor);
                }
            },
            WindowEvent::MouseWheel => {
                actions.push(AppAction::TrackScroll);
            },
            WindowEvent::Other => {},
        }
        actions.push(AppAction::ForwardToUi);
        assert(action_views(actions@) =~= before.actions(event, capture));
        actions
    }

    /// Ends the input frame: what is current becomes previous.
    pub fn end_input_frame(&mut self)
        ensures
            final(self)@ == (AppModel { ctx: old(self)@.ctx, input: old(self)@.input.updated() }),
    {
        self.input_system.update();
    }

    /// The frame orchestrator.
    pub fn wgpu_ctx(&self) -> (ctx: &WgpuCtx)
        ensures
            ctx@ == self@.ctx,
    {
        &self.wgpu_ctx
    }

    /// The input state.
    pub fn input_system(&self) -> (input: &Input)
        ensures
            input@ == self@.input,
    {
        &self.input_system
    }
}

/// Every window event is handed to the user interface, exactly once and
/// after everything else; the application leaves exactly on a close
/// request or on Escape going down outside the user interface; and while
/// the user interface captures the keyboard or the mouse, key or button
/// events leave the input state alone.
pub proof fn lemma_window_event_protocol(model: AppModel, event: WindowEvent, capture: UiCapture)
    ensures
        ({
            let actions = model.actions(event, capture);
            &&& actions.len() >= 1
            &&& actions.last() is ForwardToUi
            &&& forall|i: int|
                0 <= i < actions.len() - 1 ==> !((#[trigger] actions[i]) is ForwardToUi)
            &&& (exists|i: int| 0 <= i < actions.len() && (#[trigger] actions[i]) is Exit) <==> (
            event is CloseRequested || spec_is_exit_key(event, capture))
        }),
        event is KeyboardInput && capture.keyboard ==> model.after(event, capture) == model,
        event is MouseInput && capture.mouse ==> model.after(event, capture) == model,
        !(event is Resized) && !(event is RedrawRequested) ==> model.after(event, capture).ctx
            == model.ctx,
{
    let actions = model.actions(event, capture);
    if event is CloseRequested || spec_is_exit_key(event, capture) {
        assert(actions[0] is Exit);
    }
}

} // verus!
