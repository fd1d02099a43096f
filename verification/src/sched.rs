//! Traffic control: IFE metadata operations, ematches and the blackhole
//! queue discipline.
pub mod act_meta_mark;
pub mod act_meta_skbprio;
pub mod act_meta_skbtcindex;
pub mod em_cmp;
pub mod em_nbyte;
pub mod em_u32;
pub mod sch_blackhole;
