//! Platform key codes, as reported by the browser's keyboard events.
use vstd::prelude::*;

verus! {

pub const BACKSPACE: usize = 8;
pub const TAB: usize = 9;
pub const ENTER: usize = 13;
pub const SHIFT: usize = 16;
pub const CTRL: usize = 17;
pub const ALT: usize = 18;
pub const ESCAPE: usize = 27;
pub const SPACE: usize = 32;
pub const LEFT_ARROW: usize = 37;
pub const UP_ARROW: usize = 38;
pub const RIGHT_ARROW: usize = 39;
pub const DOWN_ARROW: usize = 40;
pub const A: usize = 65;
pub const B: usize = 66;
pub const C: usize = 67;
pub const D: usize = 68;
pub const E: usize = 69;
pub const F: usize = 70;
pub const G: usize = 71;
pub const H: usize = 72;
pub const I: usize = 73;
pub const J: usize = 74;
pub const K: usize = 75;
pub const L: usize = 76;
pub const M: usize = 77;
pub const N: usize = 78;
pub const O: usize = 79;
pub const P: usize = 80;
pub const Q: usize = 81;
pub const R: usize = 82;
pub const S: usize = 83;
pub const T: usize = 84;
pub const U: usize = 85;
pub const V: usize = 86;
pub const W: usize = 87;
pub const X: usize = 88;
pub const Y: usize = 89;
pub const Z: usize = 90;
pub const F1: usize = 112;
pub const F2: usize = 113;
pub const F3: usize = 114;
pub const F4: usize = 115;
pub const F5: usize = 116;
pub const F6: usize = 117;
pub const F7: usize = 118;
pub const F8: usize = 119;
pub const F9: usize = 120;
pub const F10: usize = 121;
pub const F11: usize = 122;
pub const F12: usize = 123;

} // verus!
