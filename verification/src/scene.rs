//! Scene flow: commands that scenes return each frame and the switching between scenes.
use crate::assets::AssetsLoadingStatus;
use vstd::prelude::*;

verus! {

/// What a scene asks the application to do after a frame.
#[derive(Clone, Debug, PartialEq)]
pub enum FrameCommand {
    ChangeScene { name: String },
    ResetScene,
    Exit,
}

/// Which scene runs, which one comes next, and whether the application keeps running.
pub struct SceneFlow {
    pub current_scene: String,
    pub next_scene: Option<String>,
    pub running: bool,
}

/// Mathematical model of a [`SceneFlow`].
pub struct SceneFlowView {
    pub current: Seq<char>,
    pub next: Option<Seq<char>>,
    pub running: bool,
}

impl View for SceneFlow {
    type V = SceneFlowView;

    open spec fn view(&self) -> SceneFlowView {
        SceneFlowView {
            current: self.current_scene@,
            next: match self.next_scene {
                Some(next) => Some(next@),
                None => None,
            },
            running: self.running,
        }
    }
}

/// Mathematical model of a [`FrameCommand`].
pub enum FrameCommandView {
    ChangeScene { name: Seq<char> },
    ResetScene,
    Exit,
}

impl View for FrameCommand {
    type V = FrameCommandView;

    open spec fn view(&self) -> FrameCommandView {
        match self {
            FrameCommand::ChangeScene { name } => FrameCommandView::ChangeScene { name: name@ },
            FrameCommand::ResetScene => FrameCommandView::ResetScene,
            FrameCommand::Exit => FrameCommandView::Exit,
        }
    }
}

/// The flow after a scene returned `command`: a change of scene is queued, an exit stops
/// the application, anything else changes nothing.
pub open spec fn after_command(flow: SceneFlowView, command: Option<FrameCommandView>) -> SceneFlowView {
    match command {
        Some(FrameCommandView::ChangeScene { name }) => SceneFlowView { next: Some(name), ..flow },
        Some(FrameCommandView::Exit) => SceneFlowView { running: false, ..flow },
        _ => flow,
    }
}

/// The flow after the queued scene, if any, was activated.
pub open spec fn after_switch(flow: SceneFlowView) -> SceneFlowView {
    match flow.next {
        Some(next) => SceneFlowView { current: next, next: None, ..flow },
        None => flow,
    }
}

/// Model of an optional command.
pub open spec fn command_view(command: Option<FrameCommand>) -> Option<FrameCommandView> {
    match command {
        Some(command) => Some(command@),
        None => None,
    }
}

/// Names of the scenes involved in a switch.
pub struct SceneSwitch {
    /// Scene to deactivate first, if a scene runs.
    pub deactivate: Option<String>,
    /// Scene to activate.
    pub activate: String,
}

impl SceneFlow {
    /// Running application that will start with the scene `first`.
    pub fn new(first: String) -> (flow: Self)
        ensures
            flow@ == (SceneFlowView { current: Seq::<char>::empty(), next: Some(first@), running: true }),
    {
        SceneFlow { current_scene: String::new(), next_scene: Some(first), running: true }
    }

    /// Applies the command that a scene returned: a change of scene is queued for the next
    /// frame, an exit stops the application, and other commands change nothing here.
    pub fn process_frame_command(&mut self, command: Option<FrameCommand>)
        ensures
            final(self)@ == after_command(old(self)@, command_view(command)),
    {
        match command {
            Some(FrameCommand::ChangeScene { name }) => self.next_scene = Some(name),
            Some(FrameCommand::Exit) => self.running = false,
            _ => {},
        }
    }

    /// The switch that the next frame starts with, if a scene change is queued: the running
    /// scene, if any, is deactivated, then the queued one activated.
    pub fn pending_switch(&self) -> (switch: Option<SceneSwitch>)
        ensures
            match self@.next {
                Some(next) => switch matches Some(s) && s.activate@ == next && match s.deactivate {
                    Some(current) => current@ == self@.current && self@.current.len() > 0,
                    None => self@.current.len() == 0,
                },
                None => switch is None,
            },
    {
        match &self.next_scene {
            Some(next) => {
                let deactivate = if self.current_scene.as_str().is_empty() {
                    None
                } else {
                    Some(self.current_scene.clone())
                };
                Some(SceneSwitch { deactivate, activate: next.clone() })
            },
            None => None,
        }
    }

    /// The queued scene was activated: it becomes the running scene.
    pub fn complete_switch(&mut self)
        ensures
            final(self)@ == after_switch(old(self)@),
    {
        if let Some(next) = self.next_scene.take() {
            self.current_scene = next;
        }
    }
}

/// A scene change asked for by a scene makes that scene the running one at the next
/// switch, and keeps the application running; an exit stops it whatever follows.
pub proof fn lemma_change_scene_takes_effect(flow: SceneFlowView, name: Seq<char>)
    ensures
        after_switch(after_command(flow, Some(FrameCommandView::ChangeScene { name }))).current
            == name,
        after_switch(after_command(flow, Some(FrameCommandView::ChangeScene { name }))).next is None,
        after_switch(after_command(flow, Some(FrameCommandView::ChangeScene { name }))).running
            == flow.running,
        !after_switch(after_command(flow, Some(FrameCommandView::Exit))).running,
{
}

/// First scene of a game: waits until the boot archive is loaded, then hands over to the
/// loading scene.
#[derive(Default)]
pub struct BootScene {}

impl BootScene {
    /// Command after a frame in which the boot archive reached `status`: once it is loaded,
    /// change to the scene named "LoadingScene"; until then, nothing.
    pub fn frame_command(&self, status: AssetsLoadingStatus) -> (command: Option<FrameCommand>)
        ensures
            status == AssetsLoadingStatus::Finished ==> (command matches Some(
                FrameCommand::ChangeScene { name },
            ) && name@ == "LoadingScene"@),
            status != AssetsLoadingStatus::Finished ==> command is None,
    {
        if status == AssetsLoadingStatus::Finished {
            let name = "LoadingScene".to_owned();
            Some(FrameCommand::ChangeScene { name })
        } else {
            None
        }
    }
}

} // verus!
