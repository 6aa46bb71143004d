use nukly::allocator::create;
use nukly::draw::{
    ConvertConfig, ConvertOutcome, DrawCommand, PanelFlags, Rect, Vertex, WidgetOp,
    PANEL_BORDER, PANEL_TITLE, VERTEX_ALIGNMENT, VERTEX_SIZE,
};
use nukly::font::{Atlas, AtlasFormat, BakeResponse};
use nukly::input::Button;
use nukly::{Error, Nuklear, Phase};

fn fresh_context() -> Nuklear {
    let allocator = create();
    let atlas = Atlas::new(&allocator).with_default();
    let len = 4 * 8 * 8;
    let image = atlas
        .bake(
            AtlasFormat::Rgba32,
            BakeResponse { width: 8, height: 8, pixels: Some(vec![0; len]) },
        )
        .unwrap()
        .build(1);
    Nuklear::create(&allocator, &image.atlas().fonts()[0]).unwrap()
}

fn rect(x: i32, y: i32, w: u32, h: u32) -> Rect {
    Rect { x, y, w, h }
}

fn command(texture: i32, elem_count: u32) -> DrawCommand {
    DrawCommand { texture, clip: rect(0, 0, 64, 64), elem_count }
}

#[test]
fn full_test() {
    let allocator = create();

    let atlas = Atlas::new(&allocator);
    let len = 4 * 4 * 4;
    let image = atlas
        .with_default()
        .bake(AtlasFormat::Rgba32, BakeResponse { width: 4, height: 4, pixels: Some(vec![0; len]) })
        .unwrap()
        .build(1);
    let _context = Nuklear::create(&allocator, &image.atlas().fonts()[0]).unwrap();
}

#[test]
fn create_fixes_the_convert_configuration() {
    let ctx = fresh_context();
    assert_eq!(ctx.phase, Phase::Idle);
    assert_eq!(ctx.convert_config.circle_segment_count, 22);
    assert_eq!(ctx.convert_config.curve_segment_count, 22);
    assert_eq!(ctx.convert_config.arc_segment_count, 22);
    assert_eq!(ctx.convert_config.global_alpha, 255);
    assert!(ctx.convert_config.shape_aa);
    assert_eq!(ctx.convert_config.vertex_size, VERTEX_SIZE);
    assert_eq!(ctx.convert_config.vertex_alignment, VERTEX_ALIGNMENT);
    assert_eq!(ctx.convert_config.vertex_layout.len(), 4);
}

#[test]
fn vertex_apply_sets_layout() {
    let mut config = ConvertConfig {
        circle_segment_count: 1,
        curve_segment_count: 2,
        arc_segment_count: 3,
        global_alpha: 9,
        shape_aa: false,
        vertex_size: 0,
        vertex_alignment: 0,
        vertex_layout: Vec::new(),
    };
    Vertex::apply(&mut config);
    assert_eq!(config.vertex_size, 20);
    assert_eq!(config.vertex_alignment, 4);
    assert_eq!(config.vertex_layout.len(), 4);
    assert_eq!(config.vertex_layout[0].offset, 0);
    assert_eq!(config.vertex_layout[1].offset, 8);
    assert_eq!(config.vertex_layout[2].offset, 16);
    // untouched settings stay as they were
    assert_eq!(config.circle_segment_count, 1);
    assert_eq!(config.global_alpha, 9);
}

#[test]
fn begin_closes_exactly_once_when_visible() {
    let mut ctx = fresh_context();
    ctx.begin_input();
    ctx.end_input();
    let body = vec![
        WidgetOp::LayoutRowStatic { height: 30, item_width: 80, cols: 1 },
        WidgetOp::ButtonLabel { label: String::from("ok") },
        WidgetOp::ButtonLabel { label: String::from("cancel") },
    ];
    let verdicts = vec![true, false];
    let r = ctx.begin(
        "demo",
        rect(50, 50, 200, 200),
        PanelFlags { bits: PANEL_BORDER | PANEL_TITLE },
        true,
        &body,
        &verdicts,
    );
    assert_eq!(r, vec![true, false]);
    assert_eq!(ctx.panels_opened, 1);
    assert_eq!(ctx.panels_closed, 1);
    assert!(!ctx.in_panel);
}

#[test]
fn begin_closes_exactly_once_when_invisible() {
    let mut ctx = fresh_context();
    ctx.begin_input();
    ctx.end_input();
    let body = vec![WidgetOp::ButtonLabel { label: String::from("hidden") }];
    let verdicts = vec![true];
    let r = ctx.begin(
        "demo",
        rect(0, 0, 10, 10),
        PanelFlags { bits: 0 },
        false,
        &body,
        &verdicts,
    );
    assert!(r.is_empty());
    assert_eq!(ctx.panels_opened, 1);
    assert_eq!(ctx.panels_closed, 1);
    assert!(!ctx.in_panel);
}

#[test]
fn empty_frame_draws_nothing() {
    let mut ctx = fresh_context();
    ctx.begin_input();
    ctx.end_input();
    let mut vertices = vec![0u8; 64];
    let mut elements = vec![0u8; 64];
    // the engine is not consulted for a frame with no declarations, whatever
    // an outcome would have said
    let outcome = ConvertOutcome {
        succeeded: false,
        commands: vec![command(1, 3)],
        vertex_data: vec![1, 2, 3],
        element_data: vec![4, 5],
    };
    let handle = ctx.prepare_draw(&mut vertices, &mut elements, outcome).unwrap();
    assert!(handle.commands.is_empty());
    assert_eq!(handle.total_elements, 0);
    let emissions = ctx.draw(handle).unwrap();
    assert!(emissions.is_empty());
    let offset: u64 = emissions.iter().map(|e| e.elem_count as u64).sum();
    assert_eq!(offset, 0);
    assert_eq!(ctx.phase, Phase::Idle);
}

#[test]
fn draw_skips_empty_commands_and_accumulates_offsets() {
    let mut ctx = fresh_context();
    ctx.begin_input();
    ctx.end_input();
    let body = vec![
        WidgetOp::LayoutRowDynamic { height: 30, cols: 1 },
        WidgetOp::ButtonLabel { label: String::from("ok") },
    ];
    let verdicts = vec![false];
    ctx.begin("demo", rect(0, 0, 100, 100), PanelFlags { bits: 0 }, true, &body, &verdicts);
    let mut vertices = vec![0u8; 16];
    let mut elements = vec![0u8; 16];
    let outcome = ConvertOutcome {
        succeeded: true,
        commands: vec![command(1, 6), command(1, 0), command(2, 9)],
        vertex_data: vec![7, 7, 7, 7],
        element_data: vec![9, 9],
    };
    let handle = ctx.prepare_draw(&mut vertices, &mut elements, outcome).unwrap();
    assert_eq!(handle.total_elements, 15);
    assert_eq!(&vertices[..4], &[7, 7, 7, 7]);
    assert_eq!(&elements[..2], &[9, 9]);
    let emissions = ctx.draw(handle).unwrap();
    assert_eq!(emissions.len(), 2);
    assert_eq!(emissions[0].texture, 1);
    assert_eq!(emissions[0].elem_count, 6);
    assert_eq!(emissions[0].index_offset, 0);
    assert_eq!(emissions[1].texture, 2);
    assert_eq!(emissions[1].elem_count, 9);
    assert_eq!(emissions[1].index_offset, 6);
    assert_eq!(ctx.phase, Phase::Idle);
    assert_eq!(ctx.decl_count, 0);
}

#[test]
fn failed_conversion_discards_the_frame() {
    let mut ctx = fresh_context();
    ctx.begin_input();
    ctx.end_input();
    ctx.begin("demo", rect(0, 0, 10, 10), PanelFlags { bits: 0 }, true, &Vec::new(), &Vec::new());
    let mut vertices = vec![0u8; 16];
    let mut elements = vec![0u8; 16];
    let outcome = ConvertOutcome {
        succeeded: false,
        commands: Vec::new(),
        vertex_data: Vec::new(),
        element_data: Vec::new(),
    };
    let r = ctx.prepare_draw(&mut vertices, &mut elements, outcome);
    assert_eq!(r, Err(Error::Unknown));
    assert_eq!(ctx.phase, Phase::Idle);
    assert_eq!(ctx.decl_count, 0);
    assert_eq!(Error::Unknown.message(), "an unknown engine error occurred");
}

#[test]
fn oversized_payload_is_a_configuration_error() {
    let mut ctx = fresh_context();
    ctx.begin_input();
    ctx.end_input();
    ctx.begin("demo", rect(0, 0, 10, 10), PanelFlags { bits: 0 }, true, &Vec::new(), &Vec::new());
    let mut vertices = vec![0u8; 2];
    let mut elements = vec![0u8; 2];
    let outcome = ConvertOutcome {
        succeeded: true,
        commands: Vec::new(),
        vertex_data: vec![1, 2, 3, 4],
        element_data: Vec::new(),
    };
    let r = ctx.prepare_draw(&mut vertices, &mut elements, outcome);
    assert_eq!(r, Err(Error::Unknown));
    assert_eq!(vertices, vec![0u8; 2]);
}

#[test]
fn input_is_bracketed_and_recorded() {
    let mut ctx = fresh_context();
    ctx.begin_input();
    assert_eq!(ctx.phase, Phase::InputPhase);
    ctx.input_motion(17, 23);
    assert_eq!((ctx.mouse_x, ctx.mouse_y), (17, 23));
    ctx.input_button(17, 23, Button::Left, true);
    assert!(ctx.left_pressed);
    ctx.input_button(18, 24, Button::Right, true);
    assert!(ctx.right_pressed);
    ctx.input_button(18, 24, Button::Left, false);
    assert!(!ctx.left_pressed);
    assert!(ctx.right_pressed);
    ctx.end_input();
    assert_eq!(ctx.phase, Phase::BuildPhase);
}

#[test]
fn button_codes_match_the_engine() {
    assert_eq!(Button::Left.code(), 0);
    assert_eq!(Button::Middle.code(), 1);
    assert_eq!(Button::Right.code(), 2);
    assert_eq!(Button::Double.code(), 3);
}

#[test]
fn row_layouts_advance_the_cursor_state() {
    let mut ctx = fresh_context();
    ctx.begin_input();
    ctx.end_input();
    let before = ctx.decl_count;
    let body = vec![
        WidgetOp::LayoutRowStatic { height: 30, item_width: 80, cols: 2 },
        WidgetOp::LayoutRowDynamic { height: 20, cols: 3 },
    ];
    ctx.begin("rows", rect(0, 0, 10, 10), PanelFlags { bits: 0 }, true, &body, &Vec::new());
    assert_eq!(ctx.decl_count, before + 3);
    assert!(ctx.current_row.is_some());
}

#[test]
fn scope_wraps_a_context() {
    let ctx = fresh_context();
    let scope: nukly::NuklearScope<nukly::input::Scope> = nukly::NuklearScope::new(ctx);
    let ctx = scope.into_inner();
    assert_eq!(ctx.phase, Phase::Idle);
}
