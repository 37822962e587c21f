//! A small library for locating, naming and caching versioned data files
//! published by a fixed set of external sources. Each source has its own
//! remote version-discovery and download scheme, but all sources share one
//! local naming convention (`<source>_<version>.<extension>`) and one caching
//! policy. The decision logic — naming, version recognition, cache
//! resolution, offline scanning and listing — is verified; network and file
//! system work is left to the surrounding application.

mod chembl;
mod drugsatfda;
mod errors;
mod lister;
mod naming;
mod oncotree;
mod provider;
mod resolver;
mod storage;
mod versioning;

pub use errors::ConfigError;
pub use errors::DownloadError;
pub use errors::FetchError;
pub use errors::LookupError;
pub use errors::ParseError;
pub use errors::ResolveError;

pub use versioning::DataVersion;
pub use versioning::IsoDateVersion;
pub use versioning::VersionOrder;
pub use versioning::WildcardVersion;
pub use versioning::is_ascii_digit;
pub use versioning::iso_date_accepts;
pub use versioning::lemma_lex_le_antisymmetric;
pub use versioning::lemma_lex_le_refl;
pub use versioning::lemma_lex_le_total;
pub use versioning::lemma_lex_le_trans;
pub use versioning::lex_le;
pub use versioning::lex_le_str;
pub use versioning::wildcard_accepts;

pub use naming::canonical_name;
pub use naming::canonical_name_spec;
pub use naming::conforms;
pub use naming::embedded_token;
pub use naming::extract_version;
pub use naming::extract_version_spec;
pub use naming::lemma_canonical_name_round_trip;
pub use naming::lemma_conforming_name_is_canonical;

pub use chembl::ChemblData;
pub use chembl::is_wspace;
pub use chembl::manifest_parse_spec;
pub use chembl::release_match_at;
pub use chembl::release_version_at;
pub use chembl::wspace_end;

pub use drugsatfda::DrugsAtFDA;

pub use oncotree::JsonDoc;
pub use oncotree::OncoTreeData;
pub use oncotree::first_release_date;
pub use oncotree::json_doc_of;
pub use oncotree::json_view;
pub use oncotree::versions_response_spec;

pub use provider::DataProvider;
pub use provider::ascii_lower;
pub use provider::get_provider;
pub use provider::lower_char;

pub use resolver::RemotePlan;
pub use resolver::conform_pred;
pub use resolver::conforming_entries;
pub use resolver::finish_remote;
pub use resolver::lemma_offline_selection_deterministic;
pub use resolver::lemma_refresh_forces_download;
pub use resolver::lemma_remote_plan_deterministic;
pub use resolver::lemma_remote_resolution_idempotent;
pub use resolver::matching_entries;
pub use resolver::offline_scan;
pub use resolver::plan_remote;
pub use resolver::remote_plan_spec;
pub use resolver::select_latest;
pub use resolver::spec_version_of;

pub use lister::ListPrintMode;
pub use lister::list;
pub use lister::render_fn;
pub use lister::render_spec;

pub use storage::default_root;
pub use storage::join_colon_spec;
pub use storage::join_path;
pub use storage::joined_path_spec;
pub use storage::pick_xdg_data_dir;
pub use storage::select_storage_root;
pub use storage::split_colon;
