pub mod case;
pub mod checks;
pub mod env;
pub mod pipe;
pub mod runner;
pub mod scenario;
pub mod scope;
pub mod syscall;
pub mod transfer;
