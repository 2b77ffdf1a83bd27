//! Integer vectors, integer rectangles and packed RGBA colors, with
//! contracts that pin down every result.
//!
//! Arithmetic that could leave the range of `i32` is ruled out by each
//! function's preconditions; division and remainder round toward zero, as
//! Rust's signed operators do, and color channels saturate.

mod color;
mod helper;
mod int2;
mod int3;
mod int_rect;
mod text;

pub use color::{lemma_packed_round_trip, sat_add_u8, sat_sub_u8, Color};
pub use helper::{
    div_ok_i32, in_i32, sign_i32, spec_abs, spec_max, spec_min, spec_sign, trunc_div, trunc_rem,
};
pub use int2::{int2, Int2};
pub use int3::{int3, Int3};
pub use int_rect::{irect, IntRect, IntRectIter, IntRectIterState, OverlapBounds};
pub use text::{dec_text, digit_chars, hex_text, int_text};
