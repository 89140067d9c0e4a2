//! Start-up logic of the Mushin desktop application: which log records are
//! kept in each kind of build, and the order of the start-up steps that run
//! before the window opens.
pub mod severity;
pub mod startup;
