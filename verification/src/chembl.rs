//! The chemistry-database mirror source: its identity, the parser that reads
//! the latest release number out of the mirror's plaintext README manifest,
//! and its URL scheme.

use vstd::prelude::*;

use crate::errors::FetchError;
use crate::versioning::DataVersion;
use crate::versioning::is_ascii_digit;

verus! {

/// The source publishing releases of a chemistry database as SQLite dumps.
pub struct ChemblData {}

/// True when `c` counts as whitespace between the release tag and the
/// release token (space, tab, or one of the ASCII line-break characters).
pub open spec fn is_wspace(c: char) -> bool {
    c == ' ' || c == '\t' || c == '\n' || c == '\r' || c == '\u{b}' || c == '\u{c}'
}

/// The position of the first non-whitespace character at or after `k`.
pub open spec fn wspace_end(t: Seq<char>, k: int) -> int
    decreases t.len() - k,
{
    if 0 <= k < t.len() && is_wspace(t[k]) {
        wspace_end(t, k + 1)
    } else {
        k
    }
}

/// A release line matches at position `i` when `Release:` stands there,
/// followed by at least one whitespace character, then `chembl_` and two
/// ASCII digits — the release number.
pub open spec fn release_match_at(t: Seq<char>, i: int) -> bool {
    let j = wspace_end(t, i + 8);
    &&& 0 <= i
    &&& i + 8 <= t.len()
    &&& t.subrange(i, i + 8) == "Release:"@
    &&& j > i + 8
    &&& j + 9 <= t.len()
    &&& t.subrange(j, j + 7) == "chembl_"@
    &&& is_ascii_digit(t[j + 7])
    &&& is_ascii_digit(t[j + 8])
}

/// The two-digit release number of the match at position `i`.
pub open spec fn release_version_at(t: Seq<char>, i: int) -> Seq<char> {
    let j = wspace_end(t, i + 8);
    t.subrange(j + 7, j + 9)
}

/// What parsing the manifest yields: the release number of the leftmost
/// matching line, or `FetchError::UnexpectedResponse` exactly when no line
/// matches.
pub open spec fn manifest_parse_spec(body: Seq<char>, r: Result<String, FetchError>) -> bool {
    &&& (r is Ok <==> exists|i: int| release_match_at(body, i))
    &&& match r {
        Ok(v) => exists|i: int|
            {
                &&& #[trigger] release_match_at(body, i)
                &&& v@ == release_version_at(body, i)
                &&& forall|k: int| 0 <= k < i ==> !release_match_at(body, k)
            },
        Err(e) => e == FetchError::UnexpectedResponse,
    }
}

impl ChemblData {
    pub fn src_name(&self) -> (r: &'static str)
        ensures
            r@ == "chembl"@,
    {
        "chembl"
    }

    pub fn file_type(&self) -> (r: &'static str)
        ensures
            r@ == "db"@,
    {
        "db"
    }

    pub fn get_versioner(&self) -> (r: DataVersion)
        ensures
            r == DataVersion::Wildcard,
    {
        DataVersion::Wildcard
    }

    /// The URL of the plaintext manifest naming the latest release.
    pub fn version_manifest_url(&self) -> (r: &'static str)
        ensures
            r@ == "https://ftp.ebi.ac.uk/pub/databases/chembl/ChEMBLdb/latest/README"@,
    {
        "https://ftp.ebi.ac.uk/pub/databases/chembl/ChEMBLdb/latest/README"
    }

    /// The download URL for one release of the SQLite dump.
    pub fn download_url(&self, version: &str) -> (r: String)
        ensures
            r@ == "https://ftp.ebi.ac.uk/pub/databases/chembl/ChEMBLdb/latest/chembl_"@ + version@
                + "_sqlite.tar.gz"@,
    {
        let mut s = "https://ftp.ebi.ac.uk/pub/databases/chembl/ChEMBLdb/latest/chembl_".to_owned();
        s.append(version);
        s.append("_sqlite.tar.gz");
        s
    }

    /// Reads the latest release number out of the manifest text: the
    /// two-digit token of the leftmost release line. Fails with
    /// `FetchError::UnexpectedResponse` exactly when no line of the text
    /// matches.
    pub fn parse_latest_version(&self, body: &str) -> (r: Result<String, FetchError>)
        ensures
            manifest_parse_spec(body@, r),
    {
        let n = body.unicode_len();
        let mut i: usize = 0;
        while i < n
            invariant
                0 <= i <= n,
                n == body@.len(),
                forall|k: int| 0 <= k < i ==> !release_match_at(body@, k),
            decreases n - i,
        {
            match try_release_match(body, i) {
                Some(v) => {
                    return Ok(v);
                },
                None => {
                },
            }
            i += 1;
        }
        assert(forall|k: int| release_match_at(body@, k) ==> 0 <= k < n);
        Err(FetchError::UnexpectedResponse)
    }
}

/// The characters of the release tag, by position.
proof fn lemma_release_tag_chars()
    ensures
        "Release:"@.len() == 8,
        "Release:"@[0] == 'R',
        "Release:"@[1] == 'e',
        "Release:"@[2] == 'l',
        "Release:"@[3] == 'e',
        "Release:"@[4] == 'a',
        "Release:"@[5] == 's',
        "Release:"@[6] == 'e',
        "Release:"@[7] == ':',
{
    reveal_strlit("Release:");
}

/// The characters of the release-token prefix, by position.
proof fn lemma_chembl_tag_chars()
    ensures
        "chembl_"@.len() == 7,
        "chembl_"@[0] == 'c',
        "chembl_"@[1] == 'h',
        "chembl_"@[2] == 'e',
        "chembl_"@[3] == 'm',
        "chembl_"@[4] == 'b',
        "chembl_"@[5] == 'l',
        "chembl_"@[6] == '_',
{
    reveal_strlit("chembl_");
}

/// Unfolds `wspace_end` over one whitespace step.
proof fn lemma_wspace_end_step(t: Seq<char>, k: int)
    requires
        0 <= k < t.len(),
        is_wspace(t[k]),
    ensures
        wspace_end(t, k) == wspace_end(t, k + 1),
{
}

/// Tries to match a release line at position `i` of the text, returning its
/// release number on success.
fn try_release_match(body: &str, i: usize) -> (r: Option<String>)
    ensures
        r is Some <==> release_match_at(body@, i as int),
        r matches Some(v) ==> v@ == release_version_at(body@, i as int),
{
    let n = body.unicode_len();
    if n < 8 || i > n - 8 {
        return None;
    }
    if body.get_char(i) != 'R' || body.get_char(i + 1) != 'e' || body.get_char(i + 2) != 'l'
        || body.get_char(i + 3) != 'e' || body.get_char(i + 4) != 'a' || body.get_char(i + 5)
        != 's' || body.get_char(i + 6) != 'e' || body.get_char(i + 7) != ':' {
        proof {
            assert(body@.subrange(i as int, i + 8) != "Release:"@) by {
                lemma_release_tag_chars();
                if body@.subrange(i as int, i + 8) == "Release:"@ {
                    assert(forall|k: int|
                        0 <= k < 8 ==> body@[i + k] == #[trigger] body@.subrange(i as int, i + 8)[k]);
                }
            }
        }
        return None;
    }
    proof {
        lemma_release_tag_chars();
        assert(body@.subrange(i as int, i + 8) =~= "Release:"@);
    }
    let mut j: usize = i + 8;
    while j < n && is_wspace_char(body.get_char(j))
        invariant
            i + 8 <= j <= n,
            n == body@.len(),
            wspace_end(body@, i + 8) == wspace_end(body@, j as int),
        decreases n - j,
    {
        proof {
            lemma_wspace_end_step(body@, j as int);
        }
        j += 1;
    }
    assert(wspace_end(body@, i + 8) == j as int);
    if j == i + 8 {
        return None;
    }
    if n - j < 9 {
        return None;
    }
    if body.get_char(j) != 'c' || body.get_char(j + 1) != 'h' || body.get_char(j + 2) != 'e'
        || body.get_char(j + 3) != 'm' || body.get_char(j + 4) != 'b' || body.get_char(j + 5)
        != 'l' || body.get_char(j + 6) != '_' {
        proof {
            assert(body@.subrange(j as int, j + 7) != "chembl_"@) by {
                lemma_chembl_tag_chars();
                if body@.subrange(j as int, j + 7) == "chembl_"@ {
                    assert(forall|k: int|
                        0 <= k < 7 ==> body@[j + k] == #[trigger] body@.subrange(j as int, j + 7)[k]);
                }
            }
        }
        return None;
    }
    proof {
        lemma_chembl_tag_chars();
        assert(body@.subrange(j as int, j + 7) =~= "chembl_"@);
    }
    let d0 = body.get_char(j + 7);
    let d1 = body.get_char(j + 8);
    if !(48 <= d0 as u32 && d0 as u32 <= 57) || !(48 <= d1 as u32 && d1 as u32 <= 57) {
        return None;
    }
    let token = body.substring_char(j + 7, j + 9);
    proof {
        assert(token@ =~= release_version_at(body@, i as int));
    }
    Some(token.to_owned())
}

/// Decides the whitespace class used between the release tag and token.
fn is_wspace_char(c: char) -> (r: bool)
    ensures
        r == is_wspace(c),
{
    c == ' ' || c == '\t' || c == '\n' || c == '\r' || c == '\u{b}' || c == '\u{c}'
}

} // verus!
