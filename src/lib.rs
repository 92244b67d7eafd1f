//! Escape-time rendering of the Mandelbrot set and the click/drag/click
//! selection logic that drives successive zooms.
//!
//! The integer side of the work lives here and is verified: the colour
//! palette, the layout of the RGBA pixel buffer, square-forcing of the
//! selection box and the selection state machine. Floating-point work (the
//! escape-time iteration itself and the pixel-to-complex remap) is done by
//! the host around this library.

mod draw;
mod state;
mod view;

pub use draw::{channel, color_of, color_spec, fill_image, pixel_offset, MAX_ITERATIONS};
pub use state::{EventType, Rect, State, CANVAS_HEIGHT, CANVAS_WIDTH};
pub use view::{
    force_square, forced_x, lemma_click_move_click, lemma_forced_x_by_signs, lemma_full_canvas_drag_selects_canvas,
    lemma_zoom_rect_ordered, max_int, min_int, rect_int, selection_rect, selection_spec, sign,
    transition, Action, ViewController,
};
