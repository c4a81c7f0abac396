//! Bringing a graphics context up: which step comes next, and when the
//! whole thing is given up. The back end carries out each action it is
//! handed and reports how it went.

use crate::g2d::g2d::fresh;
use crate::g2d::g2d::swap_for;
use crate::g2d::g2d::unit_scale;
use crate::g2d::g2d::Graphics2D;
use crate::g2d::gpu::SwapConfig;
use crate::g2d::gpu::TextureFormat;
use crate::g2d::instance::BYTES_PER_INSTANCE;
use crate::g2d::pipeline::bind_group_layouts;
use crate::g2d::pipeline::instance_attributes;
use crate::g2d::pipeline::sprite_pipeline;
use crate::g2d::pipeline::sprite_states;
use crate::g2d::pipeline::texture_entries;
use crate::g2d::pipeline::uniform_entries;
use crate::g2d::pipeline::BindGroupLayouts;
use crate::g2d::pipeline::PipelineDesc;
use crate::g2d::shader::read_spirv;
use crate::g2d::shader::spirv_words;
use crate::g2d::wire::is_memory_image;
use vstd::prelude::*;

verus! {

/// The action that is under way, or how the setup ended.
#[derive(Clone, Copy, Debug, PartialEq, Eq, Structural)]
pub enum SetupStage {
    Surface,
    Adapter,
    Device,
    SwapChain,
    ShaderModules,
    Layouts,
    Pipeline,
    ScaleUniform,
    Ready,
    Failed,
}

/// What the back end reports of the action it was handed.
#[derive(Clone, Copy, Debug, PartialEq, Eq, Structural)]
pub enum SetupEvent {
    /// The action was carried out.
    Completed,
    /// No adapter fits the surface.
    NoAdapter,
}

/// Why a setup was given up.
#[derive(Clone, Copy, Debug, PartialEq, Eq, Structural)]
pub enum SetupError {
    /// No adapter fits the surface.
    NoAdapter,
    /// The vertex shader is no SPIR-V module.
    BadVertexShader,
    /// The fragment shader is no SPIR-V module.
    BadFragmentShader,
    /// An adapter was reported missing while none was asked for.
    OutOfTurn,
}

#[derive(Clone, Copy, Debug, PartialEq, Eq, Structural)]
pub enum PowerPreference {
    Default,
    LowPower,
    HighPerformance,
}

#[derive(Clone, Copy, Debug, PartialEq, Eq, Structural)]
pub enum Backends {
    Primary,
    Secondary,
}

/// The adapter to ask for.
#[derive(Clone, Copy, Debug, PartialEq, Eq, Structural)]
pub struct AdapterRequest {
    pub power_preference: PowerPreference,
    /// The adapter must be able to present to the surface just created.
    pub compatible_with_surface: bool,
    pub backends: Backends,
}

/// The device to ask for; its limits are the defaults.
#[derive(Clone, Copy, Debug, PartialEq, Eq, Structural)]
pub struct DeviceRequest {
    pub anisotropic_filtering: bool,
}

/// What the back end does next.
pub enum SetupAction {
    CreateSurface,
    RequestAdapter(AdapterRequest),
    RequestDevice(DeviceRequest),
    CreateSwapChain(SwapConfig),
    CreateShaderModules { vertex: Vec<u32>, fragment: Vec<u32> },
    CreateBindGroupLayouts(BindGroupLayouts),
    CreatePipeline(PipelineDesc),
    /// Create the scale uniform with these contents.
    UploadScale(Vec<u8>),
    /// The setup is done: this is the context.
    Finish(Graphics2D),
    /// The setup is given up: drop what was made.
    Abort(SetupError),
    /// The setup has ended before; there is nothing to do.
    Idle,
}

pub open spec fn adapter_request() -> AdapterRequest {
    AdapterRequest {
        power_preference: PowerPreference::Default,
        compatible_with_surface: true,
        backends: Backends::Primary,
    }
}

pub open spec fn device_request() -> DeviceRequest {
    DeviceRequest { anisotropic_filtering: false }
}

/// Why the shaders cannot be used, if they cannot. The vertex shader is
/// looked at first.
pub open spec fn shader_fault(vertex: Seq<u8>, fragment: Seq<u8>) -> Option<SetupError> {
    if spirv_words(vertex) is None {
        Some(SetupError::BadVertexShader)
    } else if spirv_words(fragment) is None {
        Some(SetupError::BadFragmentShader)
    } else {
        None
    }
}

/// The stage after `event` arrives in `stage`. The steps follow each other
/// in one order; a missing adapter or an unusable shader ends the setup, and
/// an ended setup stays as it is.
pub open spec fn next_stage(
    stage: SetupStage,
    event: SetupEvent,
    vertex: Seq<u8>,
    fragment: Seq<u8>,
) -> SetupStage {
    match stage {
        SetupStage::Ready => SetupStage::Ready,
        SetupStage::Failed => SetupStage::Failed,
        _ => match event {
            SetupEvent::NoAdapter => SetupStage::Failed,
            SetupEvent::Completed => match stage {
                SetupStage::Surface => SetupStage::Adapter,
                SetupStage::Adapter => SetupStage::Device,
                SetupStage::Device => SetupStage::SwapChain,
                SetupStage::SwapChain => if shader_fault(vertex, fragment) is None {
                    SetupStage::ShaderModules
                } else {
                    SetupStage::Failed
                },
                SetupStage::ShaderModules => SetupStage::Layouts,
                SetupStage::Layouts => SetupStage::Pipeline,
                SetupStage::Pipeline => SetupStage::ScaleUniform,
                SetupStage::ScaleUniform => SetupStage::Ready,
                SetupStage::Ready => SetupStage::Ready,
                SetupStage::Failed => SetupStage::Failed,
            },
        },
    }
}

/// What a setup holds, as a value of the specification.
pub struct SetupView {
    pub stage: SetupStage,
    pub width: u32,
    pub height: u32,
    pub vertex_shader: Seq<u8>,
    pub fragment_shader: Seq<u8>,
}

/// A setup in progress.
pub struct Setup {
    stage: SetupStage,
    width: u32,
    height: u32,
    vertex_shader: Vec<u8>,
    fragment_shader: Vec<u8>,
}

impl View for Setup {
    type V = SetupView;

    closed spec fn view(&self) -> SetupView {
        SetupView {
            stage: self.stage,
            width: self.width,
            height: self.height,
            vertex_shader: self.vertex_shader@,
            fragment_shader: self.fragment_shader@,
        }
    }
}

impl SetupAction {
    /// This action is the one that answers `event` in the state `before`.
    pub open spec fn answers(self, before: SetupView, event: SetupEvent) -> bool {
        let stage = before.stage;
        let done = event == SetupEvent::Completed;
        match self {
            SetupAction::CreateSurface => false,
            SetupAction::RequestAdapter(request) => {
                &&& stage == SetupStage::Surface
                &&& done
                &&& request == adapter_request()
            },
            SetupAction::RequestDevice(request) => {
                &&& stage == SetupStage::Adapter
                &&& done
                &&& request == device_request()
            },
            SetupAction::CreateSwapChain(config) => {
                &&& stage == SetupStage::Device
                &&& done
                &&& config == swap_for(before.width, before.height)
            },
            SetupAction::CreateShaderModules { vertex, fragment } => {
                &&& stage == SetupStage::SwapChain
                &&& done
                &&& spirv_words(before.vertex_shader) == Some(vertex@)
                &&& spirv_words(before.fragment_shader) == Some(fragment@)
            },
            SetupAction::CreateBindGroupLayouts(layouts) => {
                &&& stage == SetupStage::ShaderModules
                &&& done
                &&& layouts.texture@ == texture_entries()
                &&& layouts.scale@ == uniform_entries()
                &&& layouts.translation@ == uniform_entries()
            },
            SetupAction::CreatePipeline(pipeline) => {
                &&& stage == SetupStage::Layouts
                &&& done
                &&& pipeline.states == sprite_states(TextureFormat::Bgra8UnormSrgb)
                &&& pipeline.vertex.stride == BYTES_PER_INSTANCE
                &&& pipeline.vertex.per_instance
                &&& pipeline.vertex.attributes@ == instance_attributes()
            },
            SetupAction::UploadScale(data) => {
                &&& stage == SetupStage::Pipeline
                &&& done
                &&& is_memory_image(unit_scale(), data@)
            },
            SetupAction::Finish(context) => {
                &&& stage == SetupStage::ScaleUniform
                &&& done
                &&& context@ == fresh(before.width, before.height)
            },
            SetupAction::Abort(error) => {
                &&& stage != SetupStage::Ready
                &&& stage != SetupStage::Failed
                &&& if !done {
                    error == if stage == SetupStage::Adapter {
                        SetupError::NoAdapter
                    } else {
                        SetupError::OutOfTurn
                    }
                } else {
                    &&& stage == SetupStage::SwapChain
                    &&& shader_fault(before.vertex_shader, before.fragment_shader) == Some(error)
                }
            },
            SetupAction::Idle => stage == SetupStage::Ready || stage == SetupStage::Failed,
        }
    }
}

impl Setup {
    /// Starts the setup of a context for a window of the given physical
    /// size, with the two shaders as SPIR-V bytes. The first action is to
    /// create the surface.
    pub fn begin(width: u32, height: u32, vertex_shader: Vec<u8>, fragment_shader: Vec<u8>) -> (r:
        (Setup, SetupAction))
        ensures
            r.0@ == (SetupView {
                stage: SetupStage::Surface,
                width,
                height,
                vertex_shader: vertex_shader@,
                fragment_shader: fragment_shader@,
            }),
            r.1 is CreateSurface,
    {
        (
            Setup { stage: SetupStage::Surface, width, height, vertex_shader, fragment_shader },
            SetupAction::CreateSurface,
        )
    }

    pub fn stage(&self) -> (r: SetupStage)
        ensures
            r == self@.stage,
    {
        self.stage
    }

    /// Takes the report on the action under way and returns the next one.
    pub fn advance(&mut self, event: SetupEvent) -> (action: SetupAction)
        ensures
            final(self)@ == (SetupView {
                stage: next_stage(
                    old(self)@.stage,
                    event,
                    old(self)@.vertex_shader,
                    old(self)@.fragment_shader,
                ),
                ..old(self)@
            }),
            action.answers(old(self)@, event),
    {
        match self.stage {
            SetupStage::Ready => {
                return SetupAction::Idle;
            },
            SetupStage::Failed => {
                return SetupAction::Idle;
            },
            _ => {},
        }
        match event {
            SetupEvent::NoAdapter => {
                let error = match self.stage {
                    SetupStage::Adapter => SetupError::NoAdapter,
                    _ => SetupError::OutOfTurn,
                };
                self.stage = SetupStage::Failed;
                return SetupAction::Abort(error);
            },
            SetupEvent::Completed => {},
        }
        match self.stage {
            SetupStage::Surface => {
                self.stage = SetupStage::Adapter;
                SetupAction::RequestAdapter(
                    AdapterRequest {
                        power_preference: PowerPreference::Default,
                        compatible_with_surface: true,
                        backends: Backends::Primary,
                    },
                )
            },
            SetupStage::Adapter => {
                self.stage = SetupStage::Device;
                SetupAction::RequestDevice(DeviceRequest { anisotropic_filtering: false })
            },
            SetupStage::Device => {
                self.stage = SetupStage::SwapChain;
                let context = Graphics2D::new(self.width, self.height);
                SetupAction::CreateSwapChain(context.swap_config())
            },
            SetupStage::SwapChain => {
                let vertex = read_spirv(self.vertex_shader.as_slice());
                match vertex {
                    None => {
                        self.stage = SetupStage::Failed;
                        SetupAction::Abort(SetupError::BadVertexShader)
                    },
                    Some(vertex) => {
                        let fragment = read_spirv(self.fragment_shader.as_slice());
                        match fragment {
                            None => {
                                self.stage = SetupStage::Failed;
                                SetupAction::Abort(SetupError::BadFragmentShader)
                            },
                            Some(fragment) => {
                                self.stage = SetupStage::ShaderModules;
                                SetupAction::CreateShaderModules { vertex, fragment }
                            },
                        }
                    },
                }
            },
            SetupStage::ShaderModules => {
                self.stage = SetupStage::Layouts;
                SetupAction::CreateBindGroupLayouts(bind_group_layouts())
            },
            SetupStage::Layouts => {
                self.stage = SetupStage::Pipeline;
                SetupAction::CreatePipeline(sprite_pipeline(TextureFormat::Bgra8UnormSrgb))
            },
            SetupStage::Pipeline => {
                self.stage = SetupStage::ScaleUniform;
                let context = Graphics2D::new(self.width, self.height);
                SetupAction::UploadScale(context.scale_data())
            },
            SetupStage::ScaleUniform => {
                self.stage = SetupStage::Ready;
                SetupAction::Finish(Graphics2D::new(self.width, self.height))
            },
            SetupStage::Ready => SetupAction::Idle,
            SetupStage::Failed => SetupAction::Idle,
        }
    }
}

/// The stage reached from `stage` when every one of `n` actions is reported
/// as carried out.
pub open spec fn after_completions(
    stage: SetupStage,
    n: nat,
    vertex: Seq<u8>,
    fragment: Seq<u8>,
) -> SetupStage
    decreases n,
{
    if n == 0 {
        stage
    } else {
        next_stage(
            after_completions(stage, (n - 1) as nat, vertex, fragment),
            SetupEvent::Completed,
            vertex,
            fragment,
        )
    }
}

/// With usable shaders, the steps are taken in one order: surface, adapter,
/// device, swap chain, shader modules, bind group layouts, pipeline, scale
/// uniform; after the eighth the context is ready.
pub proof fn lemma_setup_order(vertex: Seq<u8>, fragment: Seq<u8>)
    requires
        shader_fault(vertex, fragment) is None,
    ensures
        after_completions(SetupStage::Surface, 0, vertex, fragment) == SetupStage::Surface,
        after_completions(SetupStage::Surface, 1, vertex, fragment) == SetupStage::Adapter,
        after_completions(SetupStage::Surface, 2, vertex, fragment) == SetupStage::Device,
        after_completions(SetupStage::Surface, 3, vertex, fragment) == SetupStage::SwapChain,
        after_completions(SetupStage::Surface, 4, vertex, fragment) == SetupStage::ShaderModules,
        after_completions(SetupStage::Surface, 5, vertex, fragment) == SetupStage::Layouts,
        after_completions(SetupStage::Surface, 6, vertex, fragment) == SetupStage::Pipeline,
        after_completions(SetupStage::Surface, 7, vertex, fragment) == SetupStage::ScaleUniform,
        after_completions(SetupStage::Surface, 8, vertex, fragment) == SetupStage::Ready,
{
    reveal_with_fuel(after_completions, 9);
}

/// A setup that was given up stays given up, and one that is ready stays
/// ready, whatever is reported; a missing adapter gives up any setup that
/// has not ended.
pub proof fn lemma_setup_ends(
    stage: SetupStage,
    event: SetupEvent,
    vertex: Seq<u8>,
    fragment: Seq<u8>,
)
    ensures
        stage == SetupStage::Failed ==> next_stage(stage, event, vertex, fragment)
            == SetupStage::Failed,
        stage == SetupStage::Ready ==> next_stage(stage, event, vertex, fragment)
            == SetupStage::Ready,
        stage != SetupStage::Ready && event == SetupEvent::NoAdapter ==> next_stage(
            stage,
            event,
            vertex,
            fragment,
        ) == SetupStage::Failed,
{
}

} // verus!
