use alfredgf::config_structs::AFUniform;
use alfredgf::enums::AFBindingType;
use alfredgf::enums::AFShaderStage;
use alfredgf::enums::AFUniformType;
use alfredgf::pipeline::uniform_bindings;
use alfredgf::pipeline::uniform_buffer_sizes;
use alfredgf::pipeline::AFBinding;

fn uniform(location: u32, stage: AFShaderStage, byte_size: u32) -> AFUniform {
    AFUniform { location, stage, dynamic: false, byte_size, uniform_type: AFUniformType::Buffer }
}

#[test]
fn bindings_mirror_declarations_in_order() {
    let uniforms = vec![
        uniform(0, AFShaderStage::Vertex, 4),
        uniform(2, AFShaderStage::Fragment, 16),
    ];
    let layouts = uniform_bindings(&uniforms);
    assert_eq!(
        layouts,
        vec![
            AFBinding {
                id: 0,
                binding: AFBindingType::Buffer { size: 4, dynamic: false, readonly: true },
                visibility: AFShaderStage::Vertex,
            },
            AFBinding {
                id: 2,
                binding: AFBindingType::Buffer { size: 16, dynamic: false, readonly: true },
                visibility: AFShaderStage::Fragment,
            },
        ]
    );
}

#[test]
fn bindings_of_empty_list_are_empty() {
    let layouts = uniform_bindings(&vec![]);
    assert!(layouts.is_empty());
}

#[test]
fn buffer_plan_keeps_first_occurrence_order_and_last_size() {
    let uniforms = vec![
        uniform(0, AFShaderStage::Vertex, 4),
        uniform(1, AFShaderStage::Vertex, 8),
        uniform(0, AFShaderStage::Fragment, 16),
    ];
    let plan = uniform_buffer_sizes(&uniforms);
    assert_eq!(plan, vec![(0, 16), (1, 8)]);
}

#[test]
fn buffer_plan_of_empty_list_is_empty() {
    let plan = uniform_buffer_sizes(&vec![]);
    assert!(plan.is_empty());
}

#[test]
fn buffer_plan_with_equal_keys_only() {
    let uniforms = vec![
        uniform(3, AFShaderStage::Vertex, 4),
        uniform(3, AFShaderStage::Vertex, 4),
        uniform(3, AFShaderStage::Compute, 32),
    ];
    let plan = uniform_buffer_sizes(&uniforms);
    assert_eq!(plan, vec![(3, 32)]);
}
