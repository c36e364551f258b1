//! Classification of module specifiers into media types.
//!
//! A module reference (a URL-shaped specifier, optionally accompanied by a
//! declared content-type hint) is mapped to exactly one [`MediaType`], the
//! value that downstream compiler stages use to decide how to parse the
//! module's source. Classification is total: unrecognized input yields
//! [`MediaType::Unknown`], never an error.

mod bridge;
mod chars;
mod classify;
mod laws;
mod media_type;
mod mime;
mod specifier;

pub use bridge::from_specifier;
pub use bridge::url_parse_ok;
pub use bridge::url_path;
pub use bridge::url_scheme;
pub use bridge::ParseError;
pub use chars::first_index_of;
pub use chars::last_index_of;
pub use chars::seq_ends_with;
pub use chars::seq_starts_with;
pub use classify::classify;
pub use classify::classify_spec;
pub use classify::extension_table;
pub use classify::hint_view;
pub use classify::last_segment;
pub use classify::media_type_of_path;
pub use classify::media_type_of_segment;
pub use laws::lemma_classification_stable;
pub use laws::lemma_compound_extension_wins;
pub use laws::lemma_data_mime_parameters_stripped;
pub use laws::lemma_no_extension_no_hint_unknown;
pub use laws::lemma_recognized_hint_overrides_extension;
pub use laws::lemma_single_extension_ts;
pub use laws::lemma_unrecognized_hint_never_overrides;
pub use media_type::render_spec;
pub use media_type::MediaType;
pub use mime::lower;
pub use mime::lower_char;
pub use mime::media_type_of_mime;
pub use mime::mime_essence;
pub use mime::mime_table;
pub use mime::trim;
pub use specifier::Specifier;
