use amethyst_imgui::draw::{
    first_unknown_texture, fits_ranges, is_culled, scissor, translate, CallbackSite, ClipRect, DrawCommand,
    DrawData, DrawList, ImguiColor, Scissor, Viewport,
};
use amethyst_imgui::texture::{TextureRegistry, Upload, FONT_TEXTURE_ID};

/// Coordinates are held in thousandths of a GUI unit, scales in thousandths.
const ONE: i32 = 1000;

fn viewport_800x600() -> Viewport {
    Viewport { x: 0, y: 0, width: 800 * ONE, height: 600 * ONE, scale_x: 1000, scale_y: 1000 }
}

/// A clip rectangle given in whole GUI units.
fn clip(left: i32, top: i32, right: i32, bottom: i32) -> ClipRect {
    ClipRect { left: left * ONE, top: top * ONE, right: right * ONE, bottom: bottom * ONE }
}

fn elements(count: u32, c: ClipRect, texture: usize, vertex_offset: u32, index_offset: u32) -> DrawCommand {
    DrawCommand::Elements { count, clip: c, texture, vertex_offset, index_offset }
}

fn one_list(commands: Vec<DrawCommand>) -> DrawData<u32> {
    DrawData {
        viewport: viewport_800x600(),
        lists: vec![DrawList { vertices: vec![10, 11, 12], indices: vec![0, 1, 2], commands }],
    }
}

/// A registry with one texture (engine handle 42) resident under binding 5.
fn registry_with_resolved_texture() -> (TextureRegistry, usize) {
    let mut reg = TextureRegistry::new(1);
    let id = reg.register(42);
    reg.maintain(&vec![Upload { handle: 42, binding: 5 }]);
    (reg, id)
}

#[test]
fn scenario_visible_command_gives_one_op() {
    let (reg, id) = registry_with_resolved_texture();
    let data = one_list(vec![elements(3, clip(100, 100, 200, 200), id, 0, 0)]);
    let out = translate(&data, &reg);
    assert_eq!(out.ops.len(), 1);
    let op = out.ops[0];
    assert_eq!(op.scissor, Scissor { x: 100, y: 100, w: 100, h: 100 });
    assert_eq!(op.binding, 5);
    assert_eq!(op.texture, id);
    assert_eq!(op.index_count, 3);
    assert_eq!(op.index_start, 0);
    assert_eq!(op.vertex_offset, 0);
}

#[test]
fn scenario_pending_texture_then_maintain() {
    let mut reg = TextureRegistry::new(1);
    let id = reg.register(42);
    let data = one_list(vec![elements(3, clip(100, 100, 200, 200), id, 0, 0)]);
    let first = translate(&data, &reg);
    assert_eq!(first.ops.len(), 0);
    reg.maintain(&vec![Upload { handle: 42, binding: 9 }]);
    let second = translate(&data, &reg);
    assert_eq!(second.ops.len(), 1);
    assert_eq!(second.ops[0].binding, 9);
    assert_eq!(second.ops[0].scissor, Scissor { x: 100, y: 100, w: 100, h: 100 });
}

#[test]
fn scenario_negative_origin_is_clamped() {
    let (reg, id) = registry_with_resolved_texture();
    let data = one_list(vec![elements(3, clip(-50, -50, 30, 30), id, 0, 0)]);
    let out = translate(&data, &reg);
    assert_eq!(out.ops.len(), 1);
    let s = out.ops[0].scissor;
    assert_eq!((s.x, s.y), (0, 0));
    assert_eq!((s.x + s.w, s.y + s.h), (30, 30));
}

#[test]
fn scenario_right_of_framebuffer_is_dropped() {
    let (reg, id) = registry_with_resolved_texture();
    let data = one_list(vec![elements(3, clip(900, 10, 950, 50), id, 0, 0)]);
    let out = translate(&data, &reg);
    assert_eq!(out.ops.len(), 0);
}

#[test]
fn culling_on_each_edge() {
    let v = viewport_800x600();
    assert!(is_culled(clip(-20, 10, 0, 50), v));
    assert!(is_culled(clip(10, -20, 50, 0), v));
    assert!(is_culled(clip(800, 10, 900, 50), v));
    assert!(is_culled(clip(10, 600, 50, 700), v));
    assert!(!is_culled(clip(-20, -20, 1, 1), v));
    assert!(!is_culled(clip(799, 599, 900, 700), v));
}

#[test]
fn scissor_uses_offset_and_scale() {
    let v = Viewport { x: 10 * ONE, y: 20 * ONE, width: 400 * ONE, height: 300 * ONE, scale_x: 2000, scale_y: 3000 };
    assert_eq!(scissor(clip(15, 30, 60, 70), v), Scissor { x: 10, y: 30, w: 90, h: 120 });
    assert!(is_culled(clip(410, 30, 420, 70), v));
    assert!(!is_culled(clip(409, 30, 420, 70), v));
}

#[test]
fn scissor_keeps_far_edge_beyond_framebuffer() {
    let v = viewport_800x600();
    assert_eq!(scissor(clip(700, 500, 900, 650), v), Scissor { x: 700, y: 500, w: 200, h: 150 });
}

#[test]
fn ops_keep_emission_order_across_lists() {
    let mut reg = TextureRegistry::new(1);
    let a = reg.register(42);
    let b = reg.register(43);
    let pending = reg.register(44);
    reg.maintain(&vec![Upload { handle: 42, binding: 5 }, Upload { handle: 43, binding: 6 }]);
    let data = DrawData {
        viewport: viewport_800x600(),
        lists: vec![
            DrawList {
                vertices: vec![1u32, 2, 3, 4],
                indices: vec![0, 1, 2, 1, 2, 3],
                commands: vec![
                    elements(3, clip(0, 0, 100, 100), a, 0, 0),
                    elements(3, clip(900, 0, 950, 100), a, 0, 3),
                    elements(3, clip(0, 0, 100, 100), b, 0, 3),
                ],
            },
            DrawList {
                vertices: vec![5u32, 6, 7],
                indices: vec![0, 1, 2, 2, 1, 0],
                commands: vec![
                    elements(3, clip(0, 0, 10, 10), pending, 0, 0),
                    DrawCommand::ResetRenderState,
                    elements(3, clip(5, 5, 10, 10), b, 1, 3),
                    DrawCommand::RawCallback,
                    elements(3, clip(0, 0, 50, 50), a, 0, 0),
                ],
            },
        ],
    };
    let out = translate(&data, &reg);
    assert_eq!(out.vertices, vec![1, 2, 3, 4, 5, 6, 7]);
    assert_eq!(out.indices, vec![0, 1, 2, 1, 2, 3, 0, 1, 2, 2, 1, 0]);
    let summary: Vec<(usize, u64, u64)> = out.ops.iter().map(|o| (o.texture, o.vertex_offset, o.index_start)).collect();
    assert_eq!(summary, vec![(a, 0, 0), (b, 0, 3), (b, 5, 9), (a, 4, 6)]);
    assert_eq!(out.callbacks, vec![CallbackSite { list: 1, command: 3 }]);
}

#[test]
fn reset_marker_and_callback_carry_no_draw() {
    let (reg, _) = registry_with_resolved_texture();
    let data = one_list(vec![DrawCommand::ResetRenderState, DrawCommand::RawCallback]);
    let out = translate(&data, &reg);
    assert!(out.ops.is_empty());
    assert_eq!(out.callbacks, vec![CallbackSite { list: 0, command: 1 }]);
    assert_eq!(out.vertices, vec![10, 11, 12]);
}

#[test]
fn empty_draw_data_gives_empty_batch() {
    let reg = TextureRegistry::new(1);
    let data: DrawData<u32> = DrawData { viewport: viewport_800x600(), lists: Vec::new() };
    let out = translate(&data, &reg);
    assert!(out.vertices.is_empty() && out.indices.is_empty() && out.ops.is_empty() && out.callbacks.is_empty());
}

#[test]
fn font_texture_resolves_through_sentinel() {
    let mut reg = TextureRegistry::new(7);
    let data = one_list(vec![elements(3, clip(0, 0, 10, 10), FONT_TEXTURE_ID, 0, 0)]);
    assert_eq!(translate(&data, &reg).ops.len(), 0);
    reg.maintain(&vec![Upload { handle: 7, binding: 2 }]);
    let out = translate(&data, &reg);
    assert_eq!(out.ops.len(), 1);
    assert_eq!(out.ops[0].binding, 2);
    assert_eq!(out.ops[0].texture, FONT_TEXTURE_ID);
}

#[test]
fn unknown_texture_is_found_before_translation() {
    let (reg, id) = registry_with_resolved_texture();
    let bad = one_list(vec![elements(3, clip(0, 0, 10, 10), id, 0, 0), elements(3, clip(0, 0, 10, 10), 17, 0, 0)]);
    assert_eq!(first_unknown_texture(&bad, &reg), Some(17));
    let culled = one_list(vec![elements(3, clip(900, 0, 950, 10), 17, 0, 0)]);
    assert_eq!(first_unknown_texture(&culled, &reg), None);
    let good = one_list(vec![elements(3, clip(0, 0, 10, 10), id, 0, 0)]);
    assert_eq!(first_unknown_texture(&good, &reg), None);
}

#[test]
fn ops_reference_only_registered_textures() {
    let (reg, id) = registry_with_resolved_texture();
    let data = one_list(vec![
        elements(3, clip(0, 0, 10, 10), id, 0, 0),
        elements(3, clip(0, 0, 10, 10), FONT_TEXTURE_ID, 0, 0),
    ]);
    let out = translate(&data, &reg);
    for op in &out.ops {
        assert!(reg.is_known(op.texture));
        assert_eq!(reg.resolve(op.texture), Some(op.binding));
    }
    assert_eq!(out.ops.len(), 1);
}

#[test]
fn range_limits_are_checked() {
    let data = one_list(Vec::new());
    assert!(fits_ranges(&data));
}

#[test]
fn color_from_packed_integer() {
    assert_eq!(ImguiColor::from(0x11223344u32), ImguiColor(0x11223344));
}

#[test]
fn fractional_scale_of_one_and_a_quarter() {
    let v = Viewport { x: 0, y: 0, width: 800 * ONE, height: 600 * ONE, scale_x: 1250, scale_y: 1250 };
    assert_eq!(scissor(clip(100, 100, 200, 200), v), Scissor { x: 125, y: 125, w: 125, h: 125 });
    assert!(!is_culled(ClipRect { left: 799_900, top: 0, right: 900 * ONE, bottom: 10 * ONE }, v));
    assert!(is_culled(clip(800, 0, 900, 10), v));
    assert!(!is_culled(ClipRect { left: -10 * ONE, top: -10 * ONE, right: 1, bottom: 1 }, v));
    assert!(is_culled(ClipRect { left: -10 * ONE, top: -10 * ONE, right: 0, bottom: 1 }, v));
}

#[test]
fn fractional_scale_rounds_edges_outward() {
    let v = Viewport { x: 0, y: 0, width: 800 * ONE, height: 600 * ONE, scale_x: 1500, scale_y: 1500 };
    let c = ClipRect { left: 10_100, top: 10_100, right: 20_100, bottom: 20_100 };
    assert_eq!(scissor(c, v), Scissor { x: 15, y: 15, w: 16, h: 16 });
    let negative = ClipRect { left: -10_100, top: -10_100, right: 20_100, bottom: 20_100 };
    assert_eq!(scissor(negative, v), Scissor { x: 0, y: 0, w: 31, h: 31 });
}

#[test]
fn fractional_scale_through_translation() {
    let (reg, id) = registry_with_resolved_texture();
    let mut data = one_list(vec![elements(3, clip(100, 100, 200, 200), id, 0, 0)]);
    data.viewport = Viewport { x: 0, y: 0, width: 800 * ONE, height: 600 * ONE, scale_x: 1500, scale_y: 1500 };
    let out = translate(&data, &reg);
    assert_eq!(out.ops.len(), 1);
    assert_eq!(out.ops[0].scissor, Scissor { x: 150, y: 150, w: 150, h: 150 });
}

#[test]
fn first_unknown_texture_is_the_earliest() {
    let (reg, id) = registry_with_resolved_texture();
    let data = DrawData {
        viewport: viewport_800x600(),
        lists: vec![
            DrawList { vertices: vec![1u32], indices: vec![0], commands: vec![elements(1, clip(0, 0, 10, 10), id, 0, 0)] },
            DrawList {
                vertices: vec![2u32],
                indices: vec![0],
                commands: vec![
                    elements(1, clip(900, 0, 950, 10), 30, 0, 0),
                    elements(1, clip(0, 0, 10, 10), 21, 0, 0),
                    elements(1, clip(0, 0, 10, 10), 22, 0, 0),
                ],
            },
        ],
    };
    assert_eq!(first_unknown_texture(&data, &reg), Some(21));
}
