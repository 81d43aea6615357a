//! Classification of file system entries: the type that an entry's metadata
//! gives, the script kind that a shebang line names, a MIME type or an
//! extension, and the plan of a run over many paths.

pub mod dispatch;
pub mod file_system;
pub mod inside_file;
pub mod text;
