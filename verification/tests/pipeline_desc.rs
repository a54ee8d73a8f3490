use pentamesh::pipeline::BindGroupLayoutId;
use pentamesh::pipeline::BlendMode;
use pentamesh::pipeline::COLOR_WRITES_ALL;
use pentamesh::pipeline::Face;
use pentamesh::pipeline::FrontFace;
use pentamesh::pipeline::PolygonMode;
use pentamesh::pipeline::PrimitiveTopology;
use pentamesh::pipeline::ShaderPipeline;
use pentamesh::pipeline::ShaderSource;
use pentamesh::pipeline::SurfaceConfiguration;
use pentamesh::pipeline::TextureFormat;
use pentamesh::vertex::VertexData;
use pentamesh::vertex::VertexFlat;
use pentamesh::vertex::VertexTextured;

fn build(format_code: u32, label: &str) -> ShaderPipeline {
    let config = SurfaceConfiguration {
        format: TextureFormat { code: format_code },
        width: 1024,
        height: 768,
    };
    ShaderPipeline::new::<VertexTextured>(
        &config,
        label,
        ShaderSource { wgsl: String::from("@vertex fn vs_main() {} @fragment fn fs_main() {}") },
        vec![BindGroupLayoutId { handle: 11 }],
    )
}

#[test]
fn one_color_target_in_the_surface_format_with_replace_blend() {
    for code in [3u32, 18, 77] {
        let pipeline = build(code, "Demo");
        let descriptor = pipeline.descriptor();
        assert_eq!(descriptor.color_targets.len(), 1);
        assert_eq!(descriptor.color_targets[0].format, TextureFormat { code });
        assert_eq!(descriptor.color_targets[0].blend, Some(BlendMode::Replace));
        assert_eq!(descriptor.color_targets[0].write_mask, COLOR_WRITES_ALL);
    }
}

#[test]
fn rasterizer_state_is_ccw_front_backface_culled_triangles() {
    let pipeline = build(5, "Demo");
    let primitive = &pipeline.descriptor().primitive;
    assert_eq!(primitive.topology, PrimitiveTopology::TriangleList);
    assert_eq!(primitive.strip_index_format, None);
    assert_eq!(primitive.front_face, FrontFace::Ccw);
    assert_eq!(primitive.cull_mode, Some(Face::Back));
    assert_eq!(primitive.polygon_mode, PolygonMode::Fill);
    assert!(!primitive.unclipped_depth);
    assert!(!primitive.conservative);
}

#[test]
fn entry_points_and_labels() {
    let pipeline = build(5, "Pentagon");
    let descriptor = pipeline.descriptor();
    assert_eq!(descriptor.vertex_entry_point, "vs_main");
    assert_eq!(descriptor.fragment_entry_point, "fs_main");
    assert_eq!(descriptor.label, "Pentagon Pipeline");
    assert_eq!(descriptor.layout_label, "Pentagon Pipeline Layout");
}

#[test]
fn bind_group_layouts_kept_in_order_with_no_push_constants() {
    let config = SurfaceConfiguration { format: TextureFormat { code: 1 }, width: 1, height: 1 };
    let layouts =
        vec![BindGroupLayoutId { handle: 7 }, BindGroupLayoutId { handle: 3 }];
    let pipeline = ShaderPipeline::new::<VertexFlat>(
        &config,
        "L",
        ShaderSource { wgsl: String::new() },
        layouts.clone(),
    );
    assert_eq!(pipeline.descriptor().bind_group_layouts, layouts);
}

#[test]
fn vertex_input_is_the_record_types_layout() {
    let pipeline = build(5, "Demo");
    let descriptor = pipeline.descriptor();
    assert_eq!(descriptor.vertex_buffers.len(), 1);
    assert_eq!(descriptor.vertex_buffers[0], VertexTextured::desc());

    let config = SurfaceConfiguration { format: TextureFormat { code: 5 }, width: 1, height: 1 };
    let flat = ShaderPipeline::new::<VertexFlat>(
        &config,
        "Demo",
        ShaderSource { wgsl: String::new() },
        Vec::new(),
    );
    assert_eq!(flat.descriptor().vertex_buffers[0], VertexFlat::desc());
}

#[test]
fn no_depth_stencil_no_multisampling_no_multiview() {
    let pipeline = build(5, "Demo");
    let descriptor = pipeline.descriptor();
    assert!(!descriptor.has_depth_stencil);
    assert_eq!(descriptor.multisample.count, 1);
    assert_eq!(descriptor.multisample.mask, !0u64);
    assert!(!descriptor.multisample.alpha_to_coverage_enabled);
    assert_eq!(descriptor.multiview, None);
}
