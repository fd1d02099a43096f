pub mod xt_string;
pub mod xt_tcpmss;
pub mod xt_trace;
pub mod xt_u32;
