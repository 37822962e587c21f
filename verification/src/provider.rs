//! The polymorphic provider core: one value per source, all behind one
//! closed sum, looked up by (case-insensitive) source name and dispatched
//! through one capability surface — identity, version pattern, naming,
//! remote-version parsing and download URL scheme.

use vstd::prelude::*;

use crate::chembl;
use crate::chembl::ChemblData;
use crate::drugsatfda::DrugsAtFDA;
use crate::errors::FetchError;
use crate::errors::LookupError;
use crate::errors::ParseError;
use crate::naming;
use crate::oncotree;
use crate::oncotree::OncoTreeData;
use crate::versioning::DataVersion;

verus! {

/// ASCII lowercasing of one character: `A`..`Z` map to `a`..`z`, everything
/// else stays.
pub open spec fn lower_char(c: char) -> char {
    if 65 <= c as int && c as int <= 90 {
        ((c as int) + 32) as char
    } else {
        c
    }
}

/// ASCII lowercasing of a whole token.
pub open spec fn ascii_lower(s: Seq<char>) -> Seq<char> {
    s.map_values(|c: char| lower_char(c))
}

/// A sequence without ASCII uppercase characters is its own lowercasing.
proof fn lemma_ascii_lower_fixed(s: Seq<char>)
    requires
        forall|k: int| 0 <= k < s.len() ==> !(65 <= #[trigger] s[k] as int <= 90),
    ensures
        ascii_lower(s) == s,
{
    assert(ascii_lower(s) =~= s);
}

/// Compares two tokens up to ASCII case.
fn eq_ignore_ascii_case_str(a: &str, b: &str) -> (r: bool)
    ensures
        r == (ascii_lower(a@) == ascii_lower(b@)),
{
    let an = a.unicode_len();
    let bn = b.unicode_len();
    if an != bn {
        proof {
            assert(ascii_lower(a@).len() != ascii_lower(b@).len());
        }
        return false;
    }
    let mut i: usize = 0;
    while i < an
        invariant
            0 <= i <= an,
            an == a@.len(),
            an == b@.len(),
            forall|k: int| 0 <= k < i ==> lower_char(#[trigger] a@[k]) == lower_char(b@[k]),
        decreases an - i,
    {
        let ca = a.get_char(i);
        let cb = b.get_char(i);
        let la = lower_char_exec(ca);
        let lb = lower_char_exec(cb);
        if la != lb {
            proof {
                assert(ascii_lower(a@)[i as int] != ascii_lower(b@)[i as int]);
            }
            return false;
        }
        i += 1;
    }
    proof {
        assert(ascii_lower(a@) =~= ascii_lower(b@));
    }
    true
}

/// Lowercases one character.
fn lower_char_exec(c: char) -> (r: char)
    ensures
        r == lower_char(c),
{
    let u = c as u32;
    if 65 <= u && u <= 90 {
        ((u + 32) as u8) as char
    } else {
        c
    }
}

/// One logical instance per source: a closed sum over the known sources,
/// dispatched through the shared capability surface below.
pub enum DataProvider {
    Chembl(ChemblData),
    OncoTree(OncoTreeData),
    DrugsAtFda(DrugsAtFDA),
}

impl DataProvider {
    /// The stable lowercase identifier of the source.
    pub open spec fn spec_src_name(self) -> Seq<char> {
        match self {
            DataProvider::Chembl(_) => "chembl"@,
            DataProvider::OncoTree(_) => "oncotree"@,
            DataProvider::DrugsAtFda(_) => "drugsatfda"@,
        }
    }

    /// The file-type extension, without a leading dot.
    pub open spec fn spec_file_type(self) -> Seq<char> {
        match self {
            DataProvider::Chembl(_) => "db"@,
            DataProvider::OncoTree(_) => "json"@,
            DataProvider::DrugsAtFda(_) => "json"@,
        }
    }

    /// The version pattern the source names its files with.
    pub open spec fn spec_versioner(self) -> DataVersion {
        match self {
            DataProvider::Chembl(_) => DataVersion::Wildcard,
            DataProvider::OncoTree(_) => DataVersion::Wildcard,
            DataProvider::DrugsAtFda(_) => DataVersion::IsoDate,
        }
    }

    pub fn src_name(&self) -> (r: &'static str)
        ensures
            r@ == self.spec_src_name(),
    {
        match self {
            DataProvider::Chembl(p) => p.src_name(),
            DataProvider::OncoTree(p) => p.src_name(),
            DataProvider::DrugsAtFda(p) => p.src_name(),
        }
    }

    pub fn file_type(&self) -> (r: &'static str)
        ensures
            r@ == self.spec_file_type(),
    {
        match self {
            DataProvider::Chembl(p) => p.file_type(),
            DataProvider::OncoTree(p) => p.file_type(),
            DataProvider::DrugsAtFda(p) => p.file_type(),
        }
    }

    pub fn get_versioner(&self) -> (r: DataVersion)
        ensures
            r == self.spec_versioner(),
    {
        match self {
            DataProvider::Chembl(p) => p.get_versioner(),
            DataProvider::OncoTree(p) => p.get_versioner(),
            DataProvider::DrugsAtFda(p) => p.get_versioner(),
        }
    }

    /// The name of the source's cache subdirectory under the root cache
    /// directory: the source identifier itself.
    pub fn data_dir_name(&self) -> (r: &'static str)
        ensures
            r@ == self.spec_src_name(),
    {
        self.src_name()
    }

    /// Whether a file name follows this source's naming convention.
    pub open spec fn spec_conforms(self, name: Seq<char>) -> bool {
        naming::conforms(self.spec_src_name(), self.spec_file_type(), self.spec_versioner(), name)
    }

    /// The canonical file name this source gives one version of its data.
    pub fn file_name(&self, version: &str) -> (r: String)
        ensures
            r@ == naming::canonical_name_spec(self.spec_src_name(), version@, self.spec_file_type()),
    {
        naming::canonical_name(self.src_name(), version, self.file_type())
    }

    /// Parses the version out of a cached file's name; any unrelated file
    /// name is reported as `ParseError::NoMatch`, never a failure of the
    /// whole scan.
    pub fn parse_version(&self, file_name: &str) -> (r: Result<String, ParseError>)
        ensures
            match r {
                Ok(v) => naming::extract_version_spec(
                    self.spec_src_name(),
                    self.spec_file_type(),
                    self.spec_versioner(),
                    file_name@,
                ) == Some(v@),
                Err(e) => !self.spec_conforms(file_name@) && e == ParseError::NoMatch,
            },
    {
        let pattern = self.get_versioner();
        naming::extract_version(self.src_name(), self.file_type(), &pattern, file_name)
    }

    /// The URL whose response names the latest remote version, where the
    /// source publishes one.
    pub fn version_manifest_url(&self) -> (r: Option<&'static str>)
        ensures
            match self {
                DataProvider::Chembl(_) => r matches Some(u) && u@ == "https://ftp.ebi.ac.uk/pub/databases/chembl/ChEMBLdb/latest/README"@,
                DataProvider::OncoTree(_) => r matches Some(u) && u@ == "http://oncotree.info/api/versions"@,
                DataProvider::DrugsAtFda(_) => r is None,
            },
    {
        match self {
            DataProvider::Chembl(p) => Some(p.version_manifest_url()),
            DataProvider::OncoTree(p) => Some(p.versions_url()),
            DataProvider::DrugsAtFda(_) => None,
        }
    }

    /// Reads the latest remote version out of the response text of the
    /// source's version manifest. For the feed that publishes no manifest
    /// the answer is `FetchError::NotFound`, whatever the text.
    pub fn parse_latest_version(&self, body: &str) -> (r: Result<String, FetchError>)
        ensures
            match self {
                DataProvider::Chembl(_) => chembl::manifest_parse_spec(body@, r),
                DataProvider::OncoTree(_) => oncotree::versions_response_spec(body@, r),
                DataProvider::DrugsAtFda(_) => r matches Err(e) && e == FetchError::NotFound,
            },
    {
        match self {
            DataProvider::Chembl(p) => p.parse_latest_version(body),
            DataProvider::OncoTree(p) => p.parse_latest_version(body),
            DataProvider::DrugsAtFda(_) => Err(FetchError::NotFound),
        }
    }

    /// The URL raw bytes for one version are fetched from, where the source
    /// has a download scheme.
    pub fn download_url(&self, version: &str) -> (r: Option<String>)
        ensures
            match self {
                DataProvider::Chembl(_) => r matches Some(u) && u@ == "https://ftp.ebi.ac.uk/pub/databases/chembl/ChEMBLdb/latest/chembl_"@
                    + version@ + "_sqlite.tar.gz"@,
                DataProvider::OncoTree(_) => r matches Some(u) && u@ == "http://oncotree.info/api/tumorTypes/tree?version="@ + version@,
                DataProvider::DrugsAtFda(_) => r is None,
            },
    {
        match self {
            DataProvider::Chembl(p) => Some(p.download_url(version)),
            DataProvider::OncoTree(p) => Some(p.download_url(version)),
            DataProvider::DrugsAtFda(_) => None,
        }
    }
}

/// Looks a provider up by source name, up to ASCII case; exactly the three
/// known identifiers succeed.
pub fn get_provider(source_name: &str) -> (r: Result<DataProvider, LookupError>)
    ensures
        match r {
            Ok(p) => ascii_lower(source_name@) == p.spec_src_name(),
            Err(e) => {
                &&& e == LookupError::UnknownSource
                &&& ascii_lower(source_name@) != "chembl"@
                &&& ascii_lower(source_name@) != "oncotree"@
                &&& ascii_lower(source_name@) != "drugsatfda"@
            },
        },
{
    proof {
        lemma_source_names_lowercase();
    }
    if eq_ignore_ascii_case_str(source_name, "chembl") {
        Ok(DataProvider::Chembl(ChemblData {}))
    } else if eq_ignore_ascii_case_str(source_name, "oncotree") {
        Ok(DataProvider::OncoTree(OncoTreeData {}))
    } else if eq_ignore_ascii_case_str(source_name, "drugsatfda") {
        Ok(DataProvider::DrugsAtFda(DrugsAtFDA {}))
    } else {
        Err(LookupError::UnknownSource)
    }
}

/// The three source identifiers are already lowercase.
proof fn lemma_source_names_lowercase()
    ensures
        ascii_lower("chembl"@) == "chembl"@,
        ascii_lower("oncotree"@) == "oncotree"@,
        ascii_lower("drugsatfda"@) == "drugsatfda"@,
{
    reveal_strlit("chembl");
    reveal_strlit("oncotree");
    reveal_strlit("drugsatfda");
    lemma_ascii_lower_fixed("chembl"@);
    lemma_ascii_lower_fixed("oncotree"@);
    lemma_ascii_lower_fixed("drugsatfda"@);
}

} // verus!
