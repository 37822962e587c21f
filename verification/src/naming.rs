//! The file namer: the sole authority translating between the structured
//! form of a cached file — source identifier, version, file-type extension —
//! and the canonical on-disk name `<source_id>_<version>.<file_type>`.

use vstd::prelude::*;

use crate::errors::ParseError;
use crate::versioning::DataVersion;

verus! {

/// The canonical file name for one version of one source's data.
pub open spec fn canonical_name_spec(
    source_id: Seq<char>,
    version: Seq<char>,
    file_type: Seq<char>,
) -> Seq<char> {
    source_id + seq!['_'] + version + seq!['.'] + file_type
}

/// The version token embedded in a conforming file name: everything between
/// the `<source_id>_` prefix and the `.<file_type>` suffix.
pub open spec fn embedded_token(
    source_id: Seq<char>,
    file_type: Seq<char>,
    name: Seq<char>,
) -> Seq<char> {
    name.subrange(source_id.len() + 1 as int, name.len() - file_type.len() - 1)
}

/// The version carried by `name` under the source's convention, or `None`
/// when `name` does not conform: it must start with `<source_id>_`, end with
/// `.<file_type>`, and carry a token in between that the source's version
/// pattern accepts.
pub open spec fn extract_version_spec(
    source_id: Seq<char>,
    file_type: Seq<char>,
    pattern: DataVersion,
    name: Seq<char>,
) -> Option<Seq<char>> {
    if {
        &&& name.len() >= source_id.len() + file_type.len() + 2
        &&& name.subrange(0, source_id.len() as int) == source_id
        &&& name[source_id.len() as int] == '_'
        &&& name[name.len() - file_type.len() - 1] == '.'
        &&& name.subrange(name.len() - file_type.len(), name.len() as int) == file_type
        &&& pattern.spec_accepts(embedded_token(source_id, file_type, name))
    } {
        Some(embedded_token(source_id, file_type, name))
    } else {
        None
    }
}

/// Whether `name` follows the source's naming convention.
pub open spec fn conforms(
    source_id: Seq<char>,
    file_type: Seq<char>,
    pattern: DataVersion,
    name: Seq<char>,
) -> bool {
    extract_version_spec(source_id, file_type, pattern, name) is Some
}

/// Round-trip law: rendering any version the pattern accepts into the
/// canonical name and parsing that name back yields exactly that version,
/// whatever the source identifier and extension are.
pub proof fn lemma_canonical_name_round_trip(
    source_id: Seq<char>,
    version: Seq<char>,
    file_type: Seq<char>,
    pattern: DataVersion,
)
    requires
        pattern.spec_accepts(version),
    ensures
        extract_version_spec(
            source_id,
            file_type,
            pattern,
            canonical_name_spec(source_id, version, file_type),
        ) == Some(version),
{
    let name = canonical_name_spec(source_id, version, file_type);
    assert(name.subrange(0, source_id.len() as int) =~= source_id);
    assert(name.subrange(name.len() - file_type.len(), name.len() as int) =~= file_type);
    assert(embedded_token(source_id, file_type, name) =~= version);
}

/// The namer is the sole authority in the other direction too: a
/// conforming name is exactly the canonical rendering of the version it
/// carries, so no two distinct conforming names carry the same version.
pub proof fn lemma_conforming_name_is_canonical(
    source_id: Seq<char>,
    file_type: Seq<char>,
    pattern: DataVersion,
    name: Seq<char>,
)
    requires
        conforms(source_id, file_type, pattern, name),
    ensures
        name == canonical_name_spec(
            source_id,
            embedded_token(source_id, file_type, name),
            file_type,
        ),
{
    let canon = canonical_name_spec(source_id, embedded_token(source_id, file_type, name), file_type);
    assert(name =~= canon) by {
        assert(forall|k: int|
            0 <= k < source_id.len() ==> #[trigger] name[k] == name.subrange(
                0,
                source_id.len() as int,
            )[k]);
        assert(forall|k: int|
            name.len() - file_type.len() <= k < name.len() ==> #[trigger] name[k] == name.subrange(
                name.len() - file_type.len(),
                name.len() as int,
            )[k - (name.len() - file_type.len())]);
    }
}

/// Renders the canonical file name `<source_id>_<version>.<file_type>`.
pub fn canonical_name(source_id: &str, version: &str, file_type: &str) -> (r: String)
    ensures
        r@ == canonical_name_spec(source_id@, version@, file_type@),
{
    let mut s = source_id.to_owned();
    s.append("_");
    s.append(version);
    s.append(".");
    s.append(file_type);
    proof {
        reveal_strlit("_");
        reveal_strlit(".");
        assert(s@ =~= canonical_name_spec(source_id@, version@, file_type@));
    }
    s
}

/// Parses the version out of a file name, failing with `ParseError::NoMatch`
/// on any name — however unrelated — that does not follow the convention.
pub fn extract_version(source_id: &str, file_type: &str, pattern: &DataVersion, name: &str) -> (r:
    Result<String, ParseError>)
    ensures
        match r {
            Ok(v) => extract_version_spec(source_id@, file_type@, *pattern, name@) == Some(v@),
            Err(e) => extract_version_spec(source_id@, file_type@, *pattern, name@) is None
                && e == ParseError::NoMatch,
        },
{
    let nl = name.unicode_len();
    let sl = source_id.unicode_len();
    let fl = file_type.unicode_len();
    if nl < sl || nl - sl < fl || (nl - sl) - fl < 2 {
        return Err(ParseError::NoMatch);
    }
    let mut i: usize = 0;
    while i < sl
        invariant
            0 <= i <= sl,
            sl == source_id@.len(),
            nl == name@.len(),
            nl >= sl + fl + 2,
            forall|k: int| 0 <= k < i ==> name@[k] == source_id@[k],
        decreases sl - i,
    {
        if name.get_char(i) != source_id.get_char(i) {
            proof {
                assert(name@.subrange(0, sl as int)[i as int] == name@[i as int]);
            }
            return Err(ParseError::NoMatch);
        }
        i += 1;
    }
    proof {
        assert(name@.subrange(0, sl as int) =~= source_id@);
    }
    if name.get_char(sl) != '_' {
        return Err(ParseError::NoMatch);
    }
    let dot = nl - fl - 1;
    if name.get_char(dot) != '.' {
        return Err(ParseError::NoMatch);
    }
    let mut j: usize = 0;
    while j < fl
        invariant
            0 <= j <= fl,
            sl == source_id@.len(),
            fl == file_type@.len(),
            nl == name@.len(),
            nl >= sl + fl + 2,
            dot == nl - fl - 1,
            forall|k: int| 0 <= k < j ==> name@[dot + 1 + k] == file_type@[k],
        decreases fl - j,
    {
        if name.get_char(dot + 1 + j) != file_type.get_char(j) {
            proof {
                assert(name@.subrange(nl - fl, nl as int)[j as int] == name@[dot + 1 + j]);
            }
            return Err(ParseError::NoMatch);
        }
        j += 1;
    }
    proof {
        assert(name@.subrange(nl - fl, nl as int) =~= file_type@);
    }
    let token = name.substring_char(sl + 1, dot);
    proof {
        assert(token@ =~= embedded_token(source_id@, file_type@, name@));
    }
    if !pattern.matches(token) {
        return Err(ParseError::NoMatch);
    }
    Ok(token.to_owned())
}

} // verus!
