//! The eight standard terminal colours, numbered as ANSI numbers them.

use vstd::prelude::*;

verus! {

pub const BLACK: u32 = 0;

pub const RED: u32 = 1;

pub const GREEN: u32 = 2;

pub const YELLOW: u32 = 3;

pub const BLUE: u32 = 4;

pub const MAGENTA: u32 = 5;

pub const CYAN: u32 = 6;

pub const WHITE: u32 = 7;

} // verus!
