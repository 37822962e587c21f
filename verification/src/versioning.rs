//! Version patterns: recognizers that decide whether a token inside a file
//! name is a version for a given source, together with the total order (if
//! any) by which versions of that pattern rank.

use vstd::prelude::*;

verus! {

/// True when `c` is one of the ASCII digits `0`..`9`.
pub open spec fn is_ascii_digit(c: char) -> bool {
    48 <= c as int && c as int <= 57
}

/// The wildcard pattern accepts any non-empty token.
pub open spec fn wildcard_accepts(v: Seq<char>) -> bool {
    v.len() > 0
}

/// The ISO-date pattern accepts exactly eight consecutive ASCII digits:
/// a seven- or nine-character run is rejected.
pub open spec fn iso_date_accepts(v: Seq<char>) -> bool {
    &&& v.len() == 8
    &&& forall|i: int| 0 <= i < v.len() ==> is_ascii_digit(#[trigger] v[i])
}

/// Recognizes a version token as any non-empty run of characters.
pub struct WildcardVersion {}

/// Recognizes a version token as an eight-digit date such as `20240601`.
pub struct IsoDateVersion {}

impl WildcardVersion {
    pub fn matches(&self, token: &str) -> (r: bool)
        ensures
            r == wildcard_accepts(token@),
    {
        token.unicode_len() > 0
    }
}

impl IsoDateVersion {
    pub fn matches(&self, token: &str) -> (r: bool)
        ensures
            r == iso_date_accepts(token@),
    {
        let n = token.unicode_len();
        if n != 8 {
            return false;
        }
        let mut i: usize = 0;
        while i < 8
            invariant
                token@.len() == 8,
                0 <= i <= 8,
                forall|k: int| 0 <= k < i ==> is_ascii_digit(#[trigger] token@[k]),
            decreases 8 - i,
        {
            let c = token.get_char(i);
            let u = c as u32;
            if !(48 <= u && u <= 57) {
                return false;
            }
            i += 1;
        }
        true
    }
}

/// The total orders a version pattern may declare for ranking versions.
#[derive(Debug, Clone, Copy, PartialEq, Eq, Structural)]
pub enum VersionOrder {
    /// Character-by-character lexicographic order. Correct for eight-digit
    /// dates and for opaque wildcard tokens.
    Lexicographic,
}

/// The version recognizers available to the sources, as a closed sum; each
/// source declares the one it names its files with.
#[derive(Debug, Clone, Copy, PartialEq, Eq, Structural)]
pub enum DataVersion {
    Wildcard,
    IsoDate,
}

impl DataVersion {
    /// Which tokens this pattern accepts as a version.
    pub open spec fn spec_accepts(self, v: Seq<char>) -> bool {
        match self {
            DataVersion::Wildcard => wildcard_accepts(v),
            DataVersion::IsoDate => iso_date_accepts(v),
        }
    }

    pub fn matches(&self, token: &str) -> (r: bool)
        ensures
            r == self.spec_accepts(token@),
    {
        match self {
            DataVersion::Wildcard => (WildcardVersion {}).matches(token),
            DataVersion::IsoDate => (IsoDateVersion {}).matches(token),
        }
    }

    /// The order declared for this pattern, if any. Resolution of "latest"
    /// among several cached versions is only defined when this is `Some`.
    pub open spec fn spec_comparator(self) -> Option<VersionOrder> {
        match self {
            DataVersion::Wildcard => Some(VersionOrder::Lexicographic),
            DataVersion::IsoDate => Some(VersionOrder::Lexicographic),
        }
    }

    pub fn comparator(&self) -> (r: Option<VersionOrder>)
        ensures
            r == self.spec_comparator(),
    {
        match self {
            DataVersion::Wildcard => Some(VersionOrder::Lexicographic),
            DataVersion::IsoDate => Some(VersionOrder::Lexicographic),
        }
    }
}

/// Character-by-character lexicographic order on version tokens: `a` ranks
/// no later than `b`.
pub open spec fn lex_le(a: Seq<char>, b: Seq<char>) -> bool
    decreases a.len(),
{
    if a.len() == 0 {
        true
    } else if b.len() == 0 {
        false
    } else if (a[0] as int) < (b[0] as int) {
        true
    } else if (a[0] as int) > (b[0] as int) {
        false
    } else {
        lex_le(a.drop_first(), b.drop_first())
    }
}

/// Every token ranks no later than itself.
pub proof fn lemma_lex_le_refl(a: Seq<char>)
    ensures
        lex_le(a, a),
    decreases a.len(),
{
    if a.len() > 0 {
        lemma_lex_le_refl(a.drop_first());
    }
}

/// Any two tokens are comparable under `lex_le`.
pub proof fn lemma_lex_le_total(a: Seq<char>, b: Seq<char>)
    ensures
        lex_le(a, b) || lex_le(b, a),
    decreases a.len(),
{
    if a.len() > 0 && b.len() > 0 && a[0] == b[0] {
        lemma_lex_le_total(a.drop_first(), b.drop_first());
    }
}

/// `lex_le` is transitive.
pub proof fn lemma_lex_le_trans(a: Seq<char>, b: Seq<char>, c: Seq<char>)
    requires
        lex_le(a, b),
        lex_le(b, c),
    ensures
        lex_le(a, c),
    decreases a.len(),
{
    if a.len() > 0 && b.len() > 0 && c.len() > 0 && a[0] == b[0] && b[0] == c[0] {
        lemma_lex_le_trans(a.drop_first(), b.drop_first(), c.drop_first());
    }
}

/// Tokens ranking no later than each other are the same token.
pub proof fn lemma_lex_le_antisymmetric(a: Seq<char>, b: Seq<char>)
    requires
        lex_le(a, b),
        lex_le(b, a),
    ensures
        a == b,
    decreases a.len(),
{
    if a.len() == 0 {
        assert(a =~= b);
    } else {
        lemma_lex_le_antisymmetric(a.drop_first(), b.drop_first());
        assert(a =~= b) by {
            assert(forall|i: int|
                1 <= i < a.len() ==> #[trigger] a[i] == a.drop_first()[i - 1] && b[i]
                    == b.drop_first()[i - 1]);
        }
    }
}

/// Compares two version tokens in lexicographic order.
pub fn lex_le_str(a: &str, b: &str) -> (r: bool)
    ensures
        r == lex_le(a@, b@),
{
    let an = a.unicode_len();
    let bn = b.unicode_len();
    let mut i: usize = 0;
    proof {
        assert(a@.skip(0) =~= a@);
        assert(b@.skip(0) =~= b@);
    }
    loop
        invariant
            0 <= i <= an,
            0 <= i <= bn,
            an == a@.len(),
            bn == b@.len(),
            forall|k: int| 0 <= k < i ==> a@[k] == b@[k],
            lex_le(a@, b@) == lex_le(a@.skip(i as int), b@.skip(i as int)),
        decreases an - i,
    {
        if i >= an {
            return true;
        }
        if i >= bn {
            return false;
        }
        let ca = a.get_char(i);
        let cb = b.get_char(i);
        if (ca as u32) < (cb as u32) {
            proof {
                assert(lex_le(a@.skip(i as int), b@.skip(i as int)));
            }
            return true;
        }
        if (ca as u32) > (cb as u32) {
            proof {
                assert(!lex_le(a@.skip(i as int), b@.skip(i as int)));
            }
            return false;
        }
        proof {
            assert(a@.skip(i as int).drop_first() =~= a@.skip(i + 1));
            assert(b@.skip(i as int).drop_first() =~= b@.skip(i + 1));
        }
        i += 1;
    }
}

} // verus!
