//! The per-frame draw pipeline: panel and row declarations, and the
//! conversion of the frame's retained declarations into a command list plus
//! vertex/index byte streams.
//!
//! The engine performs tessellation and hit testing; its results — panel
//! visibility, button activation, the converted command list and byte
//! payloads — enter the pipeline as plain values supplied by the host layer
//! that performs the foreign calls.  The pipeline owns the frame state
//! machine, the capacity discipline of the caller-provided fixed-size
//! regions, and the ordering and index-offset arithmetic of the emitted draw
//! calls.

use crate::{Error, Nuklear, Phase};
use vstd::prelude::*;

verus! {

/// Interleaved vertex size in bytes: two 4-byte position coordinates, two
/// 4-byte texture coordinates, and four colour bytes.
pub const VERTEX_SIZE: usize = 20;

/// Alignment in bytes of the interleaved vertex, that of its widest field.
pub const VERTEX_ALIGNMENT: usize = 4;

/// Byte offset of the position attribute inside a vertex.
pub const POSITION_OFFSET: usize = 0;

/// Byte offset of the texture-coordinate attribute inside a vertex.
pub const TEXCOORD_OFFSET: usize = 8;

/// Byte offset of the colour attribute inside a vertex.
pub const COLOR_OFFSET: usize = 16;

/// Panel gets a border.
pub const PANEL_BORDER: u32 = 0x1;

/// Panel can be moved by its header.
pub const PANEL_MOVABLE: u32 = 0x2;

/// Panel can be resized.
pub const PANEL_SCALABLE: u32 = 0x4;

/// Panel gets a close button.
pub const PANEL_CLOSABLE: u32 = 0x8;

/// Panel gets a minimize button.
pub const PANEL_MINIMIZABLE: u32 = 0x10;

/// Panel hides its scrollbar.
pub const PANEL_NO_SCROLLBAR: u32 = 0x20;

/// Panel shows its title in the header.
pub const PANEL_TITLE: u32 = 0x40;

/// Panel hides the scrollbar after a period without interaction.
pub const PANEL_SCROLL_AUTO_HIDE: u32 = 0x80;

/// Panel stays in the background.
pub const PANEL_BACKGROUND: u32 = 0x100;

/// Panel scales from the left side.
pub const PANEL_SCALE_LEFT: u32 = 0x200;

/// Panel receives no input.
pub const PANEL_NO_INPUT: u32 = 0x400;

/// A set of panel flags, combined with bitwise or from the `PANEL_*`
/// constants.
#[derive(Debug, Clone, Copy, PartialEq, Eq, Structural)]
pub struct PanelFlags {
    /// The raw flag bits, in the engine's encoding.
    pub bits: u32,
}

/// A rectangle in pixel space.
#[derive(Debug, Clone, Copy, PartialEq, Eq, Structural)]
pub struct Rect {
    /// Left edge.
    pub x: i32,
    /// Top edge.
    pub y: i32,
    /// Width.
    pub w: u32,
    /// Height.
    pub h: u32,
}

/// A vertex attribute named in the conversion layout.
#[derive(Debug, Clone, Copy, PartialEq, Eq, Structural)]
pub enum VertexAttribute {
    /// 2D position.
    Position,
    /// Texture coordinate.
    Texcoord,
    /// Colour.
    Color,
    /// The sentinel closing the layout array.
    Count,
}

/// The storage format of a vertex attribute.
#[derive(Debug, Clone, Copy, PartialEq, Eq, Structural)]
pub enum VertexFormat {
    /// Two 4-byte floating-point lanes.
    Float,
    /// Four colour bytes: red, green, blue, alpha.
    R8G8B8A8,
    /// The sentinel closing the layout array.
    Count,
}

/// One entry of the sentinel-terminated vertex-attribute layout.
#[derive(Debug, Clone, Copy, PartialEq, Eq, Structural)]
pub struct VertexLayoutElement {
    /// Which attribute the entry describes.
    pub attribute: VertexAttribute,
    /// How the attribute is stored.
    pub format: VertexFormat,
    /// Byte offset of the attribute inside a vertex.
    pub offset: usize,
}

/// The vertex conversion configuration handed to the engine at frame end.
pub struct ConvertConfig {
    /// Tessellation segments for circles.
    pub circle_segment_count: u32,
    /// Tessellation segments for curves.
    pub curve_segment_count: u32,
    /// Tessellation segments for arcs.
    pub arc_segment_count: u32,
    /// Global alpha on the byte colour scale; 255 is fully opaque.
    pub global_alpha: u8,
    /// Whether shapes are anti-aliased.
    pub shape_aa: bool,
    /// Size in bytes of one interleaved vertex.
    pub vertex_size: usize,
    /// Alignment in bytes of one interleaved vertex.
    pub vertex_alignment: usize,
    /// The sentinel-terminated attribute layout.
    pub vertex_layout: Vec<VertexLayoutElement>,
}

/// The interleaved vertex the conversion produces: 2D position, texture
/// coordinate, and four colour bytes.  The position and texture lanes are
/// 4-byte floats on the engine side; the library only describes their
/// layout.
pub struct Vertex;

impl Vertex {
    /// The attribute layout of the interleaved vertex.
    pub open spec fn spec_layout() -> Seq<VertexLayoutElement> {
        seq![
            VertexLayoutElement {
                attribute: VertexAttribute::Position,
                format: VertexFormat::Float,
                offset: POSITION_OFFSET,
            },
            VertexLayoutElement {
                attribute: VertexAttribute::Texcoord,
                format: VertexFormat::Float,
                offset: TEXCOORD_OFFSET,
            },
            VertexLayoutElement {
                attribute: VertexAttribute::Color,
                format: VertexFormat::R8G8B8A8,
                offset: COLOR_OFFSET,
            },
            VertexLayoutElement {
                attribute: VertexAttribute::Count,
                format: VertexFormat::Count,
                offset: 0,
            },
        ]
    }

    /// Installs the vertex layout, size and alignment into a conversion
    /// configuration, leaving every other setting as it was.
    pub fn apply(config: &mut ConvertConfig)
        ensures
            final(config).vertex_layout@ == Vertex::spec_layout(),
            final(config).vertex_size == VERTEX_SIZE,
            final(config).vertex_alignment == VERTEX_ALIGNMENT,
            final(config).circle_segment_count == old(config).circle_segment_count,
            final(config).curve_segment_count == old(config).curve_segment_count,
            final(config).arc_segment_count == old(config).arc_segment_count,
            final(config).global_alpha == old(config).global_alpha,
            final(config).shape_aa == old(config).shape_aa,
    {
        let mut layout: Vec<VertexLayoutElement> = Vec::new();
        layout.push(VertexLayoutElement {
            attribute: VertexAttribute::Position,
            format: VertexFormat::Float,
            offset: POSITION_OFFSET,
        });
        layout.push(VertexLayoutElement {
            attribute: VertexAttribute::Texcoord,
            format: VertexFormat::Float,
            offset: TEXCOORD_OFFSET,
        });
        layout.push(VertexLayoutElement {
            attribute: VertexAttribute::Color,
            format: VertexFormat::R8G8B8A8,
            offset: COLOR_OFFSET,
        });
        layout.push(VertexLayoutElement {
            attribute: VertexAttribute::Count,
            format: VertexFormat::Count,
            offset: 0,
        });
        assert(layout@ =~= Vertex::spec_layout());
        config.vertex_layout = layout;
        config.vertex_size = VERTEX_SIZE;
        config.vertex_alignment = VERTEX_ALIGNMENT;
    }
}

/// The conversion configuration a context is created with.
pub open spec fn is_default_convert_config(c: ConvertConfig) -> bool {
    &&& c.circle_segment_count == 22
    &&& c.curve_segment_count == 22
    &&& c.arc_segment_count == 22
    &&& c.global_alpha == 255
    &&& c.shape_aa
    &&& c.vertex_size == VERTEX_SIZE
    &&& c.vertex_alignment == VERTEX_ALIGNMENT
    &&& c.vertex_layout@ == Vertex::spec_layout()
}

/// How the columns of a declared row are sized.
#[derive(Debug, Clone, Copy, PartialEq, Eq, Structural)]
pub enum LayoutFormat {
    /// Columns scale with the panel width.
    Dynamic,
    /// Columns have fixed pixel widths.
    Static,
}

/// The row layout governing subsequently declared widgets.
#[derive(Debug, Clone, Copy, PartialEq, Eq, Structural)]
pub enum RowLayout {
    /// A row of `cols` items of fixed width `item_width`.
    Static {
        /// Row height in pixels.
        height: u32,
        /// Width in pixels of each item.
        item_width: u32,
        /// Number of columns.
        cols: usize,
    },
    /// A row of `cols` items sharing the panel width.
    Dynamic {
        /// Row height in pixels.
        height: u32,
        /// Number of columns.
        cols: usize,
    },
    /// A row opened for itemwise layout.
    Begun {
        /// How the columns are sized.
        format: LayoutFormat,
        /// Row height in pixels.
        height: u32,
        /// Number of columns.
        cols: usize,
    },
}

/// One declaration inside a panel body, executed by [`Nuklear::begin`].
#[derive(Debug, PartialEq, Eq)]
pub enum WidgetOp {
    /// Declare a fixed-width row layout.
    LayoutRowStatic {
        /// Row height in pixels.
        height: u32,
        /// Width in pixels of each item.
        item_width: u32,
        /// Number of columns.
        cols: usize,
    },
    /// Declare a panel-width row layout.
    LayoutRowDynamic {
        /// Row height in pixels.
        height: u32,
        /// Number of columns.
        cols: usize,
    },
    /// Open a row for itemwise layout.
    LayoutRowBegin {
        /// How the columns are sized.
        format: LayoutFormat,
        /// Row height in pixels.
        height: u32,
        /// Number of columns.
        cols: usize,
    },
    /// Declare a button with the given label.
    ButtonLabel {
        /// The label drawn on the button.
        label: String,
    },
}

/// The number of button declarations in a panel body.
pub open spec fn spec_button_count(ops: Seq<WidgetOp>) -> int
    decreases ops.len(),
{
    if ops.len() == 0 {
        0
    } else {
        (if ops[0] is ButtonLabel {
            1int
        } else {
            0int
        }) + spec_button_count(ops.skip(1))
    }
}

proof fn lemma_button_count_nonneg(ops: Seq<WidgetOp>)
    ensures
        spec_button_count(ops) >= 0,
    decreases ops.len(),
{
    if ops.len() > 0 {
        lemma_button_count_nonneg(ops.skip(1));
    }
}

/// One engine-emitted unit of drawing work.
#[derive(Debug, Clone, Copy, PartialEq, Eq, Structural)]
pub struct DrawCommand {
    /// The engine handle of the texture to bind.
    pub texture: i32,
    /// The clip rectangle in pixel space, applied as a scissor test.
    pub clip: Rect,
    /// How many indices the command consumes.
    pub elem_count: u32,
}

/// The engine's answer to a conversion request: whether it succeeded, the
/// command list, and the vertex and index bytes it produced.
pub struct ConvertOutcome {
    /// Whether the engine's conversion call succeeded.
    pub succeeded: bool,
    /// The flat command list, in emission order.
    pub commands: Vec<DrawCommand>,
    /// The vertex bytes produced by the conversion.
    pub vertex_data: Vec<u8>,
    /// The index bytes produced by the conversion.
    pub element_data: Vec<u8>,
}

/// A converted frame waiting to be drawn: the command list and the total
/// index count over all commands.
#[derive(Debug, PartialEq, Eq)]
pub struct PrepareDrawHandle {
    /// The flat command list, in emission order.
    pub commands: Vec<DrawCommand>,
    /// The sum of the element counts of all commands.
    pub total_elements: u64,
}

impl PrepareDrawHandle {
    /// The recorded total agrees with the command list.
    pub open spec fn wf(&self) -> bool {
        self.total_elements == sum_elements(self.commands@)
    }
}

/// One draw call the host must issue: texture, scissor rectangle, index
/// count, and the running index offset accumulated from all prior commands
/// of the frame.
#[derive(Debug, Clone, Copy, PartialEq, Eq, Structural)]
pub struct Emission {
    /// The engine handle of the texture to bind.
    pub texture: i32,
    /// The clip rectangle to apply as a scissor test.
    pub clip: Rect,
    /// How many indices to draw.
    pub elem_count: u32,
    /// Index offset at which this command's indices start.
    pub index_offset: u64,
}

/// Sum of the element counts of a command sequence.
pub open spec fn sum_elements(cmds: Seq<DrawCommand>) -> int
    decreases cmds.len(),
{
    if cmds.len() == 0 {
        0
    } else {
        cmds[0].elem_count + sum_elements(cmds.skip(1))
    }
}

proof fn lemma_sum_elements_nonneg(cmds: Seq<DrawCommand>)
    ensures
        sum_elements(cmds) >= 0,
    decreases cmds.len(),
{
    if cmds.len() > 0 {
        lemma_sum_elements_nonneg(cmds.skip(1));
    }
}

/// The draw calls emitted for a command list whose first command starts at
/// index offset `offset`: commands with a zero element count are skipped,
/// order is kept, and every command advances the offset by its element
/// count.
pub open spec fn emissions_from(cmds: Seq<DrawCommand>, offset: int) -> Seq<Emission>
    decreases cmds.len(),
{
    if cmds.len() == 0 {
        Seq::empty()
    } else {
        let head = cmds[0];
        let rest = emissions_from(cmds.skip(1), offset + head.elem_count);
        if head.elem_count > 0 {
            seq![
                Emission {
                    texture: head.texture,
                    clip: head.clip,
                    elem_count: head.elem_count,
                    index_offset: offset as u64,
                },
            ] + rest
        } else {
            rest
        }
    }
}

/// The draw calls emitted for a frame's command list.
pub open spec fn spec_emissions(cmds: Seq<DrawCommand>) -> Seq<Emission> {
    emissions_from(cmds, 0)
}

/// A frame with no declarations converts to an empty command list, draws
/// nothing, and leaves the host's running index offset at zero.
pub proof fn lemma_empty_frame()
    ensures
        spec_emissions(Seq::<DrawCommand>::empty()) == Seq::<Emission>::empty(),
        sum_elements(Seq::<DrawCommand>::empty()) == 0,
{
}

/// Sum of the element counts of emitted draw calls.
pub open spec fn sum_emitted(es: Seq<Emission>) -> int
    decreases es.len(),
{
    if es.len() == 0 {
        0
    } else {
        es[0].elem_count + sum_emitted(es.skip(1))
    }
}

proof fn lemma_emissions_from_offsets(cmds: Seq<DrawCommand>, offset: int)
    requires
        0 <= offset,
        offset + sum_elements(cmds) <= u64::MAX,
    ensures
        sum_emitted(emissions_from(cmds, offset)) == sum_elements(cmds),
        forall|k: int|
            0 <= k < emissions_from(cmds, offset).len()
                ==> (#[trigger] emissions_from(cmds, offset)[k]).index_offset == offset
                + sum_emitted(emissions_from(cmds, offset).take(k)),
    decreases cmds.len(),
{
    if cmds.len() > 0 {
        let head = cmds[0];
        let es = emissions_from(cmds, offset);
        lemma_sum_elements_nonneg(cmds.skip(1));
        lemma_emissions_from_offsets(cmds.skip(1), offset + head.elem_count);
        let rest = emissions_from(cmds.skip(1), offset + head.elem_count);
        if head.elem_count > 0 {
            let e = Emission {
                texture: head.texture,
                clip: head.clip,
                elem_count: head.elem_count,
                index_offset: offset as u64,
            };
            assert(es == seq![e] + rest);
            assert(es[0] == e);
            assert(es.skip(1) =~= rest);
            assert(sum_emitted(es) == e.elem_count + sum_emitted(rest));
            assert forall|k: int| 0 <= k < es.len() implies (#[trigger] es[k]).index_offset
                == offset + sum_emitted(es.take(k)) by {
                if k == 0 {
                    assert(es.take(0) =~= Seq::<Emission>::empty());
                    assert(sum_emitted(es.take(0)) == 0);
                } else {
                    assert(es[k] == rest[k - 1]);
                    assert(es.take(k) =~= seq![e] + rest.take(k - 1));
                    assert((seq![e] + rest.take(k - 1)).skip(1) =~= rest.take(k - 1));
                    assert(sum_emitted(es.take(k)) == e.elem_count + sum_emitted(rest.take(k - 1)));
                }
            }
        } else {
            assert(es == rest);
        }
    }
}

/// Each emitted draw call starts at the index offset accumulated from all
/// draw calls emitted before it, and the emitted element counts add up to
/// the command list's total — after the last command the host's running
/// offset equals the frame's total element count.
pub proof fn lemma_emission_offsets(cmds: Seq<DrawCommand>)
    requires
        sum_elements(cmds) <= u64::MAX,
    ensures
        sum_emitted(spec_emissions(cmds)) == sum_elements(cmds),
        forall|k: int|
            0 <= k < spec_emissions(cmds).len()
                ==> (#[trigger] spec_emissions(cmds)[k]).index_offset == sum_emitted(
                spec_emissions(cmds).take(k),
            ),
{
    lemma_emissions_from_offsets(cmds, 0);
}

/// Whether a conversion outcome can be accepted into regions of the given
/// byte capacities: the engine must report success, the produced bytes must
/// fit, and the total element count must be representable.
pub open spec fn spec_convert_accepted(outcome: &ConvertOutcome, vertex_capacity: int, element_capacity: int) -> bool {
    &&& outcome.succeeded
    &&& outcome.vertex_data@.len() <= vertex_capacity
    &&& outcome.element_data@.len() <= element_capacity
    &&& sum_elements(outcome.commands@) <= u64::MAX
}

fn write_prefix(dst: &mut Vec<u8>, src: &Vec<u8>)
    requires
        src@.len() <= old(dst)@.len(),
    ensures
        final(dst)@.len() == old(dst)@.len(),
        final(dst)@ == src@ + old(dst)@.skip(src@.len() as int),
{
    let n = src.len();
    let mut i: usize = 0;
    while i < n
        invariant
            n == src@.len() <= dst@.len(),
            0 <= i <= n,
            dst@.len() == old(dst)@.len(),
            forall|k: int| 0 <= k < i ==> dst@[k] == src@[k],
            forall|k: int| i <= k < dst@.len() ==> dst@[k] == old(dst)@[k],
        decreases n - i,
    {
        let b = src[i];
        dst.set(i, b);
        i = i + 1;
    }
    assert(dst@ =~= src@ + old(dst)@.skip(src@.len() as int));
}

impl Nuklear {
    /// Opens a panel with the given title, position and flags; `visible` is
    /// the engine's report of whether the panel contents are to be
    /// processed this frame.  The panel must be closed with [`Nuklear::end_panel`]
    /// whether or not it is visible.
    #[allow(unused_variables)]
    pub fn begin_panel(&mut self, title: &str, bounds: Rect, flags: PanelFlags, visible: bool) -> (r:
        bool)
        requires
            old(self).wf(),
            old(self).phase is BuildPhase,
            !old(self).in_panel,
            old(self).panels_opened < u64::MAX,
            old(self).decl_count < u64::MAX,
        ensures
            final(self).wf(),
            r == visible,
            *final(self) == (Nuklear {
                in_panel: true,
                panels_opened: (old(self).panels_opened + 1) as u64,
                decl_count: (old(self).decl_count + 1) as u64,
                ..*old(self)
            }),
    {
        self.panels_opened = self.panels_opened + 1;
        self.decl_count = self.decl_count + 1;
        self.in_panel = true;
        visible
    }

    /// Closes the currently open panel.
    pub fn end_panel(&mut self)
        requires
            old(self).wf(),
            old(self).in_panel,
        ensures
            final(self).wf(),
            *final(self) == (Nuklear {
                in_panel: false,
                panels_closed: (old(self).panels_closed + 1) as u64,
                ..*old(self)
            }),
    {
        self.panels_closed = self.panels_closed + 1;
        self.in_panel = false;
    }

    /// Declares a row of `cols` items of fixed pixel width for the widgets
    /// that follow.
    pub fn layout_row_static(&mut self, height: u32, item_width: u32, cols: usize)
        requires
            old(self).wf(),
            old(self).phase is BuildPhase,
            old(self).in_panel,
            old(self).decl_count < u64::MAX,
        ensures
            final(self).wf(),
            *final(self) == (Nuklear {
                current_row: Some(RowLayout::Static { height, item_width, cols }),
                decl_count: (old(self).decl_count + 1) as u64,
                ..*old(self)
            }),
    {
        self.current_row = Some(RowLayout::Static { height, item_width, cols });
        self.decl_count = self.decl_count + 1;
    }

    /// Declares a row of `cols` items sharing the panel width for the
    /// widgets that follow.
    pub fn layout_row_dynamic(&mut self, height: u32, cols: usize)
        requires
            old(self).wf(),
            old(self).phase is BuildPhase,
            old(self).in_panel,
            old(self).decl_count < u64::MAX,
        ensures
            final(self).wf(),
            *final(self) == (Nuklear {
                current_row: Some(RowLayout::Dynamic { height, cols }),
                decl_count: (old(self).decl_count + 1) as u64,
                ..*old(self)
            }),
    {
        self.current_row = Some(RowLayout::Dynamic { height, cols });
        self.decl_count = self.decl_count + 1;
    }

    /// Opens a row for itemwise layout.
    pub fn layout_row_begin(&mut self, format: LayoutFormat, height: u32, cols: usize)
        requires
            old(self).wf(),
            old(self).phase is BuildPhase,
            old(self).in_panel,
            old(self).decl_count < u64::MAX,
        ensures
            final(self).wf(),
            *final(self) == (Nuklear {
                current_row: Some(RowLayout::Begun { format, height, cols }),
                decl_count: (old(self).decl_count + 1) as u64,
                ..*old(self)
            }),
    {
        self.current_row = Some(RowLayout::Begun { format, height, cols });
        self.decl_count = self.decl_count + 1;
    }

    /// Declares a button for the current row and reports whether it was
    /// activated during this frame's input processing; the verdict comes
    /// from the engine as `activated`.
    #[allow(unused_variables)]
    pub fn button_label(&mut self, label: &str, activated: bool) -> (r: bool)
        requires
            old(self).wf(),
            old(self).phase is BuildPhase,
            old(self).in_panel,
            old(self).decl_count < u64::MAX,
        ensures
            final(self).wf(),
            r == activated,
            *final(self) == (Nuklear {
                decl_count: (old(self).decl_count + 1) as u64,
                ..*old(self)
            }),
    {
        self.decl_count = self.decl_count + 1;
        activated
    }

    /// Opens a panel, executes the body declarations if the engine reports
    /// the panel visible, and closes the panel — the close happens exactly
    /// once on every path, whether or not the panel was visible.
    ///
    /// `button_verdicts` carries the engine's activation verdict for each
    /// button of the body, in declaration order; the returned vector hands
    /// those verdicts back for a visible panel and is empty for an
    /// invisible one.
    pub fn begin(
        &mut self,
        title: &str,
        bounds: Rect,
        flags: PanelFlags,
        visible: bool,
        body: &Vec<WidgetOp>,
        button_verdicts: &Vec<bool>,
    ) -> (r: Vec<bool>)
        requires
            old(self).wf(),
            old(self).phase is BuildPhase,
            !old(self).in_panel,
            old(self).panels_opened < u64::MAX,
            old(self).decl_count + 1 + body@.len() <= u64::MAX,
            visible ==> button_verdicts@.len() == spec_button_count(body@),
        ensures
            final(self).wf(),
            !final(self).in_panel,
            final(self).phase is BuildPhase,
            final(self).panels_opened == old(self).panels_opened + 1,
            final(self).panels_closed == old(self).panels_closed + 1,
            final(self).decl_count == old(self).decl_count + 1 + (if visible {
                body@.len() as int
            } else {
                0int
            }),
            r@ == if visible {
                button_verdicts@
            } else {
                Seq::<bool>::empty()
            },
            !visible ==> final(self).current_row == old(self).current_row,
            final(self).mouse_x == old(self).mouse_x,
            final(self).mouse_y == old(self).mouse_y,
            final(self).left_pressed == old(self).left_pressed,
            final(self).middle_pressed == old(self).middle_pressed,
            final(self).right_pressed == old(self).right_pressed,
            final(self).double_pressed == old(self).double_pressed,
            final(self).font == old(self).font,
            final(self).convert_config == old(self).convert_config,
    {
        let vis = self.begin_panel(title, bounds, flags, visible);
        let mut results: Vec<bool> = Vec::new();
        proof {
            assert(results@ =~= Seq::<bool>::empty());
        }
        if vis {
            let n = body.len();
            let m = button_verdicts.len();
            let mut i: usize = 0;
            let mut j: usize = 0;
            proof {
                assert(body@.skip(0) =~= body@);
            }
            while i < n
                invariant
                    self.wf(),
                    self.phase is BuildPhase,
                    self.in_panel,
                    n == body@.len(),
                    m == button_verdicts@.len(),
                    0 <= i <= n,
                    0 <= j <= m,
                    self.panels_opened == old(self).panels_opened + 1,
                    self.panels_closed == old(self).panels_closed,
                    self.decl_count == old(self).decl_count + 1 + i,
                    old(self).decl_count + 1 + n <= u64::MAX,
                    button_verdicts@.len() == spec_button_count(body@),
                    j + spec_button_count(body@.skip(i as int)) == spec_button_count(body@),
                    results@ == button_verdicts@.take(j as int),
                    self.mouse_x == old(self).mouse_x,
                    self.mouse_y == old(self).mouse_y,
                    self.left_pressed == old(self).left_pressed,
                    self.middle_pressed == old(self).middle_pressed,
                    self.right_pressed == old(self).right_pressed,
                    self.double_pressed == old(self).double_pressed,
                    self.font == old(self).font,
                    self.convert_config == old(self).convert_config,
                decreases n - i,
            {
                proof {
                    assert(body@.skip(i as int)[0] == body@[i as int]);
                    assert(body@.skip(i as int).skip(1) =~= body@.skip(i + 1));
                    lemma_button_count_nonneg(body@.skip(i + 1));
                    assert(spec_button_count(body@.skip(i as int)) == (if body@[i as int] is ButtonLabel {
                        1int
                    } else {
                        0int
                    }) + spec_button_count(body@.skip(i + 1)));
                }
                match &body[i] {
                    WidgetOp::LayoutRowStatic { height, item_width, cols } => {
                        self.layout_row_static(*height, *item_width, *cols);
                    },
                    WidgetOp::LayoutRowDynamic { height, cols } => {
                        self.layout_row_dynamic(*height, *cols);
                    },
                    WidgetOp::LayoutRowBegin { format, height, cols } => {
                        self.layout_row_begin(*format, *height, *cols);
                    },
                    WidgetOp::ButtonLabel { label } => {
                        proof {
                            assert(body@[i as int] is ButtonLabel);
                            assert(j < button_verdicts@.len());
                        }
                        let activated = self.button_label(label.as_str(), button_verdicts[j]);
                        results.push(activated);
                        proof {
                            assert(button_verdicts@.take(j + 1)
                                =~= button_verdicts@.take(j as int).push(button_verdicts@[j as int]));
                        }
                        j = j + 1;
                    },
                }
                i = i + 1;
            }
            proof {
                assert(body@.skip(n as int) =~= Seq::<WidgetOp>::empty());
                assert(results@ =~= button_verdicts@);
            }
        }
        self.end_panel();
        results
    }

    /// Converts the frame's retained declarations into a command list and
    /// writes the produced vertex and index bytes into the caller-supplied
    /// fixed-capacity regions.
    ///
    /// A frame in which nothing was declared converts to an empty command
    /// list without consulting the engine.  Otherwise `outcome` is the
    /// engine's conversion result; a failed conversion, byte payloads that
    /// exceed the region capacities, or a command list whose total element
    /// count is not representable fail with `Unknown` and discard the
    /// frame's declarations, leaving the session clean for the next frame.
    pub fn prepare_draw(
        &mut self,
        vertices: &mut Vec<u8>,
        elements: &mut Vec<u8>,
        outcome: ConvertOutcome,
    ) -> (r: Result<PrepareDrawHandle, Error>)
        requires
            old(self).wf(),
            old(self).phase is BuildPhase,
            !old(self).in_panel,
        ensures
            final(self).wf(),
            old(self).decl_count == 0 ==> {
                &&& r matches Ok(h) && h.commands@ == Seq::<DrawCommand>::empty()
                    && h.total_elements == 0 && h.wf()
                &&& final(vertices)@ == old(vertices)@
                &&& final(elements)@ == old(elements)@
                &&& *final(self) == (Nuklear { phase: Phase::ConvertedPhase, ..*old(self) })
            },
            old(self).decl_count != 0 ==> {
                if spec_convert_accepted(&outcome, old(vertices)@.len() as int, old(elements)@.len() as int) {
                    &&& r matches Ok(h) && h.commands@ == outcome.commands@
                        && h.total_elements == sum_elements(outcome.commands@) && h.wf()
                    &&& final(vertices)@ == outcome.vertex_data@
                        + old(vertices)@.skip(outcome.vertex_data@.len() as int)
                    &&& final(elements)@ == outcome.element_data@
                        + old(elements)@.skip(outcome.element_data@.len() as int)
                    &&& *final(self) == (Nuklear { phase: Phase::ConvertedPhase, ..*old(self) })
                } else {
                    &&& r == Err::<PrepareDrawHandle, Error>(Error::Unknown)
                    &&& final(vertices)@ == old(vertices)@
                    &&& final(elements)@ == old(elements)@
                    &&& *final(self) == (Nuklear {
                        phase: Phase::Idle,
                        decl_count: 0,
                        current_row: None,
                        ..*old(self)
                    })
                }
            },
    {
        if self.decl_count == 0 {
            self.phase = Phase::ConvertedPhase;
            let handle = PrepareDrawHandle { commands: Vec::new(), total_elements: 0 };
            proof {
                assert(handle.commands@ =~= Seq::<DrawCommand>::empty());
            }
            return Ok(handle);
        }
        if !outcome.succeeded || outcome.vertex_data.len() > vertices.len() || outcome.element_data.len()
            > elements.len() {
            self.phase = Phase::Idle;
            self.decl_count = 0;
            self.current_row = None;
            return Err(Error::Unknown);
        }
        let n = outcome.commands.len();
        let mut total: u64 = 0;
        let mut i: usize = 0;
        proof {
            assert(outcome.commands@.skip(0) =~= outcome.commands@);
        }
        while i < n
            invariant
                self == old(self),
                vertices == old(vertices),
                elements == old(elements),
                old(self).wf(),
                old(self).phase is BuildPhase,
                !old(self).in_panel,
                old(self).decl_count != 0,
                outcome.succeeded,
                outcome.vertex_data@.len() <= vertices@.len(),
                outcome.element_data@.len() <= elements@.len(),
                n == outcome.commands@.len(),
                0 <= i <= n,
                total + sum_elements(outcome.commands@.skip(i as int))
                    == sum_elements(outcome.commands@),
            decreases n - i,
        {
            proof {
                assert(outcome.commands@.skip(i as int)[0] == outcome.commands@[i as int]);
                assert(outcome.commands@.skip(i as int).skip(1) =~= outcome.commands@.skip(i + 1));
                lemma_sum_elements_nonneg(outcome.commands@.skip(i + 1));
            }
            let c = outcome.commands[i].elem_count;
            total = match total.checked_add(c as u64) {
                Some(t) => t,
                None => {
                    self.phase = Phase::Idle;
                    self.decl_count = 0;
                    self.current_row = None;
                    return Err(Error::Unknown);
                },
            };
            i = i + 1;
        }
        proof {
            assert(outcome.commands@.skip(n as int) =~= Seq::<DrawCommand>::empty());
            assert(sum_elements(outcome.commands@.skip(n as int)) == 0);
        }
        write_prefix(vertices, &outcome.vertex_data);
        write_prefix(elements, &outcome.element_data);
        self.phase = Phase::ConvertedPhase;
        Ok(PrepareDrawHandle { commands: outcome.commands, total_elements: total })
    }

    /// Iterates the command list in emission order and returns one draw
    /// call per command with a nonzero element count, each carrying the
    /// running index offset accumulated from all prior commands of the
    /// frame.  The frame's retained declarations are discarded: nothing
    /// survives into the next frame.
    pub fn draw(&mut self, handle: PrepareDrawHandle) -> (r: Result<Vec<Emission>, Error>)
        requires
            old(self).wf(),
            old(self).phase is ConvertedPhase,
            handle.wf(),
        ensures
            final(self).wf(),
            r matches Ok(emissions) && emissions@ == spec_emissions(handle.commands@),
            *final(self) == (Nuklear {
                phase: Phase::Idle,
                decl_count: 0,
                current_row: None,
                ..*old(self)
            }),
    {
        let commands = handle.commands;
        let n = commands.len();
        let mut out: Vec<Emission> = Vec::new();
        let mut offset: u64 = 0;
        let mut i: usize = 0;
        proof {
            assert(commands@.skip(0) =~= commands@);
            lemma_sum_elements_nonneg(commands@);
        }
        while i < n
            invariant
                n == commands@.len(),
                0 <= i <= n,
                offset + sum_elements(commands@.skip(i as int)) == handle.total_elements,
                handle.total_elements <= u64::MAX,
                out@ + emissions_from(commands@.skip(i as int), offset as int)
                    == spec_emissions(commands@),
            decreases n - i,
        {
            proof {
                assert(commands@.skip(i as int).skip(1) =~= commands@.skip(i + 1));
                lemma_sum_elements_nonneg(commands@.skip(i + 1));
            }
            let c = commands[i];
            if c.elem_count > 0 {
                let e = Emission {
                    texture: c.texture,
                    clip: c.clip,
                    elem_count: c.elem_count,
                    index_offset: offset,
                };
                out.push(e);
                proof {
                    assert(out@ + emissions_from(commands@.skip(i + 1), offset + c.elem_count)
                        =~= spec_emissions(commands@));
                }
            } else {
                proof {
                    assert(out@ + emissions_from(commands@.skip(i + 1), offset + c.elem_count)
                        =~= spec_emissions(commands@));
                }
            }
            offset = offset + (c.elem_count as u64);
            i = i + 1;
        }
        proof {
            assert(commands@.skip(n as int) =~= Seq::<DrawCommand>::empty());
            assert(out@ =~= spec_emissions(commands@));
        }
        self.phase = Phase::Idle;
        self.decl_count = 0;
        self.current_row = None;
        Ok(out)
    }
}

} // verus!
