use starfield::material::{
    Blend, BlendEquationType, BlendMultiplierType, Cull, DepthTest, MaterialType, RenderStates,
    RenderStyle, StarMaterial, Uniform, WriteMask,
};

const ALL: WriteMask = WriteMask { red: true, green: true, blue: true, alpha: true, depth: true };

#[test]
fn glowing_particles_are_added_onto_the_target() {
    let material = StarMaterial { time: 0, style: RenderStyle::Glow };
    assert_eq!(
        material.render_states(),
        RenderStates {
            write_mask: ALL,
            depth_test: DepthTest::Always,
            blend: Blend::Enabled {
                source_rgb_multiplier: BlendMultiplierType::SrcColor,
                source_alpha_multiplier: BlendMultiplierType::Zero,
                destination_rgb_multiplier: BlendMultiplierType::One,
                destination_alpha_multiplier: BlendMultiplierType::One,
                rgb_equation: BlendEquationType::Add,
                alpha_equation: BlendEquationType::Add,
            },
            cull: Cull::Back,
        }
    );
    assert_eq!(material.material_type(), MaterialType::Transparent);
}

#[test]
fn solid_particles_are_depth_tested() {
    let material = StarMaterial { time: 99, style: RenderStyle::Solid };
    assert_eq!(
        material.render_states(),
        RenderStates {
            write_mask: ALL,
            depth_test: DepthTest::Less,
            blend: Blend::Disabled,
            cull: Cull::Back,
        }
    );
    assert_eq!(material.material_type(), MaterialType::Opaque);
}

#[test]
fn render_states_do_not_depend_on_the_time() {
    let early = StarMaterial { time: 0, style: RenderStyle::Glow };
    let late = StarMaterial { time: u64::MAX, style: RenderStyle::Glow };
    assert_eq!(early.render_states(), late.render_states());
    assert_eq!(early.material_type(), late.material_type());
}

#[test]
fn uniform_names() {
    assert_eq!(Uniform::Time.name(), "uTime");
    assert_eq!(Uniform::Color.name(), "uColor");
    assert_eq!(Uniform::Resolution.name(), "uIResolution");
    assert_eq!(Uniform::CameraPosition.name(), "cameraPosition");
}
