pub mod af_nfc;
pub mod llc_nop;
pub mod nci;
