//! A small filesystem-utility facade: path manipulation, file-path/URI
//! conversion, temporary-file lifecycle tracking, and hex decoding.
//!
//! All path reasoning here is over plain strings with `/` as the separator;
//! the operations that actually touch the disk live outside this library and
//! hand it plain values.

mod chars;
mod errors;
mod hex;
mod paths;
mod tracker;
mod uri;

pub use chars::eq_ignore_ascii_case;
pub use chars::lower_scalar;
pub use errors::FsError;
pub use hex::hex_digit_val;
pub use hex::is_hex_digit;
pub use hex::spec_hex_decode;
pub use paths::spec_directory;
pub use paths::spec_extension;
pub use paths::spec_file_name;
pub use paths::ends_with_dot_segment;
pub use paths::spec_join;
pub use paths::strip_trailing_dot_segments;
pub use paths::strip_trailing_slashes;
pub use paths::suffix_after_last;
pub use tracker::lemma_temp_path_distinct;
pub use tracker::temp_path_of;
pub use tracker::FileUtil;
pub use uri::dot_segment_at;
pub use uri::dotdot_segment_at;
pub use uri::file_uri_of;
pub use uri::is_abs_path;
pub use uri::is_ascii_alpha;
pub use uri::piped_drive_first_segment;
pub use uri::uri_parse_of;
pub use uri::uri_round_trippable;
