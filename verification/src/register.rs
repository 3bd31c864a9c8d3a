//! The control and status registers that are particular to QingKe cores,
//! each as an accessor on the hart that holds it.

pub mod corecfgr;
pub mod gintenr;
pub mod intsyscr;
pub mod mcause;
pub mod mtvec;
