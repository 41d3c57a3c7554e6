//! How the particles are drawn: the state of the pipeline and the names by
//! which the fragment shader is handed its inputs.
use vstd::prelude::*;

verus! {

/// Which triangles are skipped.
#[derive(Clone, Copy, Debug, PartialEq, Eq, Structural)]
pub enum Cull {
    Neither,
    Back,
    Front,
    FrontAndBack,
}

/// When a fragment passes the depth test.
#[derive(Clone, Copy, Debug, PartialEq, Eq, Structural)]
pub enum DepthTest {
    Never,
    Less,
    Equal,
    LessOrEqual,
    Greater,
    NotEqual,
    GreaterOrEqual,
    Always,
}

/// Which channels are written.
#[derive(Clone, Copy, Debug, PartialEq, Eq, Structural)]
pub struct WriteMask {
    pub red: bool,
    pub green: bool,
    pub blue: bool,
    pub alpha: bool,
    pub depth: bool,
}

/// By what a colour is multiplied before it is blended.
#[derive(Clone, Copy, Debug, PartialEq, Eq, Structural)]
pub enum BlendMultiplierType {
    Zero,
    One,
    SrcColor,
    OneMinusSrcColor,
    DstColor,
    OneMinusDstColor,
    SrcAlpha,
    OneMinusSrcAlpha,
    DstAlpha,
    OneMinusDstAlpha,
    SrcAlphaSaturate,
}

/// How the two colours are combined.
#[derive(Clone, Copy, Debug, PartialEq, Eq, Structural)]
pub enum BlendEquationType {
    Add,
    Subtract,
    ReverseSubtract,
    Max,
    Min,
}

/// How a fragment is combined with what the target already holds.
#[derive(Clone, Copy, Debug, PartialEq, Eq, Structural)]
pub enum Blend {
    Enabled {
        source_rgb_multiplier: BlendMultiplierType,
        source_alpha_multiplier: BlendMultiplierType,
        destination_rgb_multiplier: BlendMultiplierType,
        destination_alpha_multiplier: BlendMultiplierType,
        rgb_equation: BlendEquationType,
        alpha_equation: BlendEquationType,
    },
    Disabled,
}

/// The state of the pipeline for one draw.
#[derive(Clone, Copy, Debug, PartialEq, Eq, Structural)]
pub struct RenderStates {
    pub write_mask: WriteMask,
    pub depth_test: DepthTest,
    pub blend: Blend,
    pub cull: Cull,
}

/// In which pass a material is drawn.
#[derive(Clone, Copy, Debug, PartialEq, Eq, Structural)]
pub enum MaterialType {
    Opaque,
    Transparent,
}

/// The look of a scene. It is chosen once for a scene and never changes
/// while the scene runs.
#[derive(Clone, Copy, Debug, PartialEq, Eq, Structural)]
pub enum RenderStyle {
    /// Particles glow: they are added onto what lies behind them, and none
    /// hides another.
    Glow,
    /// Particles are solid: the nearest one hides what lies behind it.
    Solid,
}

/// An input of the fragment shader.
#[derive(Clone, Copy, Debug, PartialEq, Eq, Structural)]
pub enum Uniform {
    /// The elapsed time.
    Time,
    /// A flat colour.
    Color,
    /// The size of the target.
    Resolution,
    /// Where the camera is.
    CameraPosition,
}

/// The mask that lets every colour channel and the depth be written.
pub open spec fn color_and_depth() -> WriteMask {
    WriteMask { red: true, green: true, blue: true, alpha: true, depth: true }
}

/// The state of the pipeline for a look. Both write colour and depth and
/// skip the triangles that face away. Glowing particles always pass the
/// depth test and are added onto the target, each channel weighted by
/// itself, while the target's alpha stays; solid ones pass where they are
/// nearer and are not blended.
pub open spec fn states_of(style: RenderStyle) -> RenderStates {
    match style {
        RenderStyle::Glow => RenderStates {
            write_mask: color_and_depth(),
            depth_test: DepthTest::Always,
            blend: Blend::Enabled {
                source_rgb_multiplier: BlendMultiplierType::SrcColor,
                source_alpha_multiplier: BlendMultiplierType::Zero,
                destination_rgb_multiplier: BlendMultiplierType::One,
                destination_alpha_multiplier: BlendMultiplierType::One,
                rgb_equation: BlendEquationType::Add,
                alpha_equation: BlendEquationType::Add,
            },
            cull: Cull::Back,
        },
        RenderStyle::Solid => RenderStates {
            write_mask: color_and_depth(),
            depth_test: DepthTest::Less,
            blend: Blend::Disabled,
            cull: Cull::Back,
        },
    }
}

/// The pass in which a look is drawn: glowing particles with the transparent
/// objects, solid ones with the opaque.
pub open spec fn pass_of(style: RenderStyle) -> MaterialType {
    match style {
        RenderStyle::Glow => MaterialType::Transparent,
        RenderStyle::Solid => MaterialType::Opaque,
    }
}

impl Uniform {
    /// The name by which the fragment shader knows this input.
    pub fn name(self) -> (name: &'static str)
        ensures
            self == Uniform::Time ==> name@ == "uTime"@,
            self == Uniform::Color ==> name@ == "uColor"@,
            self == Uniform::Resolution ==> name@ == "uIResolution"@,
            self == Uniform::CameraPosition ==> name@ == "cameraPosition"@,
    {
        match self {
            Uniform::Time => "uTime",
            Uniform::Color => "uColor",
            Uniform::Resolution => "uIResolution",
            Uniform::CameraPosition => "cameraPosition",
        }
    }
}

/// The material of the particles: the time that its shader is handed, and
/// the look of the scene.
#[derive(Clone, Copy, Debug, PartialEq, Eq, Structural)]
pub struct StarMaterial {
    /// The elapsed time, in fixed-point seconds.
    pub time: u64,
    /// The look of the scene.
    pub style: RenderStyle,
}

impl StarMaterial {
    /// The pass in which the particles are drawn.
    pub fn material_type(&self) -> (pass: MaterialType)
        ensures
            pass == pass_of(self.style),
    {
        match self.style {
            RenderStyle::Glow => MaterialType::Transparent,
            RenderStyle::Solid => MaterialType::Opaque,
        }
    }

    /// The state of the pipeline in which the particles are drawn.
    pub fn render_states(&self) -> (states: RenderStates)
        ensures
            states == states_of(self.style),
    {
        let write_mask = WriteMask { red: true, green: true, blue: true, alpha: true, depth: true };
        match self.style {
            RenderStyle::Glow => RenderStates {
                write_mask,
                depth_test: DepthTest::Always,
                blend: Blend::Enabled {
                    source_rgb_multiplier: BlendMultiplierType::SrcColor,
                    source_alpha_multiplier: BlendMultiplierType::Zero,
                    destination_rgb_multiplier: BlendMultiplierType::One,
                    destination_alpha_multiplier: BlendMultiplierType::One,
                    rgb_equation: BlendEquationType::Add,
                    alpha_equation: BlendEquationType::Add,
                },
                cull: Cull::Back,
            },
            RenderStyle::Solid => RenderStates {
                write_mask,
                depth_test: DepthTest::Less,
                blend: Blend::Disabled,
                cull: Cull::Back,
            },
        }
    }
}

} // verus!
