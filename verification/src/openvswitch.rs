//! Open vSwitch: datapath netdevice notifications and GRE vports.
pub mod dp_notify;
pub mod vport_gre;
