//! A safe, verified core for embedding a foreign, C-ABI immediate-mode GUI
//! engine.
//!
//! The engine owns all widget and layout logic; this crate owns everything
//! that must be correct for the engine to be usable from a host application:
//! the allocator bridge that supplies the engine with memory ([`allocator`]),
//! the
//! font-atlas bake pipeline that produces the pixel buffer a context is
//! created from ([`font`]), and the per-frame pipeline that turns retained
//! widget declarations into a command list with vertex and index byte
//! streams ([`draw`]).  Results that only the engine can compute — the baked
//! pixels, panel visibility, button activation, the converted command list —
//! enter these functions as plain values supplied by the host layer that
//! performs the foreign calls.

pub mod allocator;
pub mod draw;
pub mod font;
pub mod input;

use vstd::prelude::*;

verus! {

/// Types that stand for a native engine object, exposing the handle the
/// engine knows them by.
pub trait NuklearType {
    /// The native handle of the underlying engine object.
    fn native_handle(&self) -> u64;
}

/// Errors reported by the context and the draw pipeline.
#[derive(Debug, Clone, Copy, PartialEq, Eq, Structural)]
pub enum Error {
    /// A generic engine-reported failure.
    Unknown,
}

impl Error {
    /// A human-readable description of the error.
    pub fn message(&self) -> (r: &'static str)
        ensures
            r@ == "an unknown engine error occurred"@,
    {
        "an unknown engine error occurred"
    }
}

/// The phases of one frame.  Input is gathered first, widgets are declared
/// next, and the retained declarations are converted and emitted at frame
/// end; nothing persists implicitly into the next frame.
#[derive(Debug, Clone, Copy, PartialEq, Eq, Structural)]
pub enum Phase {
    /// Between frames: no input bracket is open and nothing is declared.
    Idle,
    /// Inside the `begin_input` .. `end_input` bracket.
    InputPhase,
    /// Widget declarations are being collected.
    BuildPhase,
    /// Declarations have been converted; the frame waits to be drawn.
    ConvertedPhase,
}

/// The live UI session: the frame state machine, the per-frame declaration
/// bookkeeping, the gathered input state, and the fixed vertex conversion
/// configuration built at creation.
pub struct Nuklear {
    /// Where the current frame stands.
    pub phase: Phase,
    /// Whether a panel is currently open.
    pub in_panel: bool,
    /// Panels ever opened in this session.
    pub panels_opened: u64,
    /// Panels ever closed in this session.
    pub panels_closed: u64,
    /// Panels and widgets declared in the current frame.
    pub decl_count: u64,
    /// The row layout declared for the widgets that follow, if any.
    pub current_row: Option<draw::RowLayout>,
    /// Last reported mouse position.
    pub mouse_x: i32,
    /// Last reported mouse position.
    pub mouse_y: i32,
    /// Pressed state of the left mouse button.
    pub left_pressed: bool,
    /// Pressed state of the middle mouse button.
    pub middle_pressed: bool,
    /// Pressed state of the right mouse button.
    pub right_pressed: bool,
    /// Pressed state of the double-click pseudo button.
    pub double_pressed: bool,
    /// Native handle of the font the context was created from.
    pub font: u64,
    /// The vertex conversion configuration used at frame end.
    pub convert_config: draw::ConvertConfig,
}

impl Nuklear {
    /// The session bookkeeping is consistent: the panel flag agrees with the
    /// open/close counters, and a panel can only be open while widgets are
    /// being declared.
    pub open spec fn wf(&self) -> bool {
        &&& self.panels_closed <= self.panels_opened
        &&& if self.in_panel {
            self.panels_opened == self.panels_closed + 1
        } else {
            self.panels_opened == self.panels_closed
        }
        &&& self.in_panel ==> self.phase is BuildPhase
    }

    /// Creates the UI context bound to the given allocator bridge and font.
    ///
    /// The vertex conversion configuration is fixed here: an interleaved
    /// vertex of 2D position, texture coordinate and 4-byte colour, segment
    /// counts of 22 for circles, curves and arcs, full global alpha, and
    /// anti-aliasing enabled.
    pub fn create(allocator: &allocator::Allocator, font: &font::Font) -> (r: Result<Nuklear, Error>)
        requires
            allocator.wf(),
        ensures
            r matches Ok(ctx) && ctx.wf(),
            r matches Ok(ctx) ==> {
                &&& ctx.phase is Idle
                &&& !ctx.in_panel
                &&& ctx.panels_opened == 0
                &&& ctx.panels_closed == 0
                &&& ctx.decl_count == 0
                &&& ctx.current_row is None
                &&& ctx.font == font.id
                &&& draw::is_default_convert_config(ctx.convert_config)
            },
    {
        let mut config = draw::ConvertConfig {
            circle_segment_count: 22,
            curve_segment_count: 22,
            arc_segment_count: 22,
            global_alpha: 255,
            shape_aa: true,
            vertex_size: 0,
            vertex_alignment: 0,
            vertex_layout: Vec::new(),
        };
        draw::Vertex::apply(&mut config);
        Ok(Nuklear {
            phase: Phase::Idle,
            in_panel: false,
            panels_opened: 0,
            panels_closed: 0,
            decl_count: 0,
            current_row: None,
            mouse_x: 0,
            mouse_y: 0,
            left_pressed: false,
            middle_pressed: false,
            right_pressed: false,
            double_pressed: false,
            font: font.handle(),
            convert_config: config,
        })
    }
}

/// A context paired with a scope marker type, such as [`input::Scope`];
/// reserved for typed scoping of the frame machine.
#[verifier::reject_recursive_types(T)]
pub struct NuklearScope<T> {
    /// The wrapped context.
    pub inner: Nuklear,
    /// The scope marker.
    pub marker: core::marker::PhantomData<T>,
}

impl<T> NuklearScope<T> {
    /// Pairs a context with a scope marker.
    pub fn new(inner: Nuklear) -> (r: Self)
        ensures
            r.inner == inner,
    {
        NuklearScope { inner, marker: core::marker::PhantomData }
    }

    /// Releases the wrapped context.
    pub fn into_inner(self) -> (r: Nuklear)
        ensures
            r == self.inner,
    {
        self.inner
    }
}

} // verus!
