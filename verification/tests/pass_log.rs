use pentamesh::mesh::Model;
use pentamesh::pass::IndexFormat;
use pentamesh::pass::PassCommand;
use pentamesh::pass::RenderPass;
use pentamesh::pipeline::BindGroupLayoutId;
use pentamesh::pipeline::ShaderPipeline;
use pentamesh::pipeline::ShaderSource;
use pentamesh::pipeline::SurfaceConfiguration;
use pentamesh::pipeline::TextureFormat;
use pentamesh::vertex::VertexFlat;
use pentamesh::vertex::VertexTextured;

fn demo_config() -> SurfaceConfiguration {
    SurfaceConfiguration { format: TextureFormat { code: 18 }, width: 800, height: 600 }
}

#[test]
fn draw_issues_all_indices_once_for_one_instance() {
    let model = Model::<VertexTextured>::new();
    let mut pass = RenderPass::new();
    model.render(&mut pass);
    assert_eq!(
        pass.commands().as_slice(),
        &[
            PassCommand::SetVertexBuffer { slot: 0 },
            PassCommand::SetIndexBuffer { format: IndexFormat::Uint16 },
            PassCommand::DrawIndexed {
                first_index: 0,
                index_count: 9,
                base_vertex: 0,
                first_instance: 0,
                instance_count: 1,
            },
        ]
    );
}

#[test]
fn bind_then_draw_records_the_expected_log() {
    let model = Model::<VertexFlat>::new();
    let layouts = vec![BindGroupLayoutId { handle: 1 }, BindGroupLayoutId { handle: 2 }];
    let pipeline = ShaderPipeline::new::<VertexFlat>(
        &demo_config(),
        "Pentagon",
        ShaderSource { wgsl: String::from("@vertex fn vs_main() {} @fragment fn fs_main() {}") },
        layouts,
    );
    let mut pass = RenderPass::new();
    pipeline.start(&mut pass);
    model.render(&mut pass);
    assert_eq!(
        pass.commands().as_slice(),
        &[
            PassCommand::SetPipeline,
            PassCommand::SetVertexBuffer { slot: 0 },
            PassCommand::SetIndexBuffer { format: IndexFormat::Uint16 },
            PassCommand::DrawIndexed {
                first_index: 0,
                index_count: 9,
                base_vertex: 0,
                first_instance: 0,
                instance_count: 1,
            },
        ]
    );
}

#[test]
fn a_fresh_pass_has_no_commands() {
    let pass = RenderPass::new();
    assert!(pass.commands().is_empty());
}

#[test]
fn drawing_twice_appends_in_order() {
    let model = Model::<VertexTextured>::new();
    let mut pass = RenderPass::new();
    model.render(&mut pass);
    model.render(&mut pass);
    assert_eq!(pass.commands().len(), 6);
    assert_eq!(pass.commands()[0], pass.commands()[3]);
    assert_eq!(pass.commands()[1], pass.commands()[4]);
    assert_eq!(pass.commands()[2], pass.commands()[5]);
}
