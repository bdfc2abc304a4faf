//! Best-effort parallel archiving library.
//!
//! A run packages many files into one compressed container: each file's
//! bytes are compressed individually, described by an entry, and the
//! successful entries are serialized into a tar stream that is compressed
//! once more as a whole.  Per-file failures (an unreadable file, an
//! unencodable path) are recorded against that file alone and never
//! abort the run.  The reader decodes such a container back into
//! entries, refusing any entry whose path could escape the target
//! directory.

pub mod codec;
pub mod container;
pub mod laws;
pub mod paths;
pub mod pipeline;
pub mod reader;
pub mod writer;

pub use codec::decode_payload;
pub use codec::DEFAULT_LEVEL;
pub use paths::check_rel_path;
pub use paths::check_tar_encodable;
pub use pipeline::process_file;
pub use pipeline::results_well_formed;
pub use pipeline::run_pipeline;
pub use pipeline::total_expected_bytes;
pub use pipeline::FileInput;
pub use pipeline::ProcessedEntry;
pub use reader::read_archive;
pub use reader::ArchiveError;
pub use reader::ExtractedFile;
pub use writer::write_archive;
