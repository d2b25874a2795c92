//! System registers.

pub mod scr_el3;
