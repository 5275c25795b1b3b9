//! Directory listings for a file browser: icon resolution for entries and
//! depth-bounded scans of directory trees read from the filesystem.

pub mod icons;
pub mod scan;
pub mod tree_laws;
