//! The drug-approval feed source: its identity and version pattern. The
//! feed integration publishes no version manifest and no download scheme
//! yet, so this source offers neither; resolution against it reports that
//! plainly instead of succeeding vacuously.

use vstd::prelude::*;

use crate::versioning::DataVersion;

verus! {

/// The source that will publish a drug-approval dataset; its remote side is
/// not yet provided.
pub struct DrugsAtFDA {}

impl DrugsAtFDA {
    pub fn src_name(&self) -> (r: &'static str)
        ensures
            r@ == "drugsatfda"@,
    {
        "drugsatfda"
    }

    pub fn file_type(&self) -> (r: &'static str)
        ensures
            r@ == "json"@,
    {
        "json"
    }

    pub fn get_versioner(&self) -> (r: DataVersion)
        ensures
            r == DataVersion::IsoDate,
    {
        DataVersion::IsoDate
    }
}

} // verus!
