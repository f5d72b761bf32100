pub mod decimal;
pub mod least;
pub mod file;
pub mod io;
pub mod repeat;
pub mod ris_error;
pub mod testing;
pub mod bytes_report;
pub mod reflection;
pub mod name_order;
pub mod fallback_file;
pub mod atomic_lock;
pub mod test_lock;
pub mod vec;
pub mod video;
