//! Storage location logic: path rendering and the precedence by which the
//! root cache directory is chosen from the caller's environment settings.
//! Reading the environment and creating the directory are the caller's
//! side; every decision about what those values mean is made — and
//! verified — here.

use vstd::prelude::*;

use crate::errors::ConfigError;

verus! {

/// The path of an entry inside a directory.
pub open spec fn joined_path_spec(dir: Seq<char>, name: Seq<char>) -> Seq<char> {
    dir + seq!['/'] + name
}

/// Renders the path of an entry inside a directory.
pub fn join_path(dir: &str, name: &str) -> (r: String)
    ensures
        r@ == joined_path_spec(dir@, name@),
{
    let mut s = dir.to_owned();
    s.append("/");
    s.append(name);
    proof {
        reveal_strlit("/");
        assert(s@ =~= joined_path_spec(dir@, name@));
    }
    s
}

/// Joins pieces back with `:` between them; the inverse of splitting.
pub open spec fn join_colon_spec(pieces: Seq<Seq<char>>) -> Seq<char>
    decreases pieces.len(),
{
    if pieces.len() == 0 {
        Seq::empty()
    } else if pieces.len() == 1 {
        pieces[0]
    } else {
        pieces[0] + seq![':'] + join_colon_spec(pieces.drop_first())
    }
}

/// Unfolds `join_colon_spec` at the back.
proof fn lemma_join_colon_push(pieces: Seq<Seq<char>>, last: Seq<char>)
    ensures
        join_colon_spec(pieces.push(last)) == if pieces.len() == 0 {
            last
        } else {
            join_colon_spec(pieces) + seq![':'] + last
        },
    decreases pieces.len(),
{
    if pieces.len() > 0 {
        lemma_join_colon_push(pieces.drop_first(), last);
        assert(pieces.push(last).drop_first() =~= pieces.drop_first().push(last));
        if pieces.len() == 1 {
            assert(pieces.drop_first().push(last) =~= seq![last]);
        } else {
            assert(join_colon_spec(pieces.push(last)) =~= join_colon_spec(pieces) + seq![':']
                + last);
        }
    }
}

/// Splits a colon-separated search list into its entries: the result is the
/// unique decomposition into colon-free pieces whose rejoining with `:`
/// gives the list back. A list without any colon is one entry; empty pieces
/// are kept.
pub fn split_colon(s: &str) -> (r: Vec<String>)
    ensures
        r.deep_view().len() >= 1,
        join_colon_spec(r.deep_view()) == s@,
        forall|k: int, j: int|
            0 <= k < r.deep_view().len() && 0 <= j < r.deep_view()[k].len() ==> r.deep_view()[k][j]
                != ':',
{
    let n = s.unicode_len();
    let mut done: Vec<String> = Vec::new();
    let mut start: usize = 0;
    let mut i: usize = 0;
    while i < n
        invariant
            0 <= start <= i <= n,
            n == s@.len(),
            join_colon_spec(done.deep_view().push(s@.subrange(start as int, i as int))) == s@
                .subrange(0, i as int),
            forall|k: int, j: int|
                0 <= k < done.deep_view().len() && 0 <= j < done.deep_view()[k].len()
                    ==> done.deep_view()[k][j] != ':',
            forall|j: int| start <= j < i ==> s@[j] != ':',
        decreases n - i,
    {
        let c = s.get_char(i);
        if c == ':' {
            let ghost old_dv = done.deep_view();
            let ghost piece_v = s@.subrange(start as int, i as int);
            let piece = s.substring_char(start, i).to_owned();
            done.push(piece);
            proof {
                assert(done.deep_view() =~= old_dv.push(piece_v));
                assert forall|j: int| 0 <= j < piece_v.len() implies piece_v[j] != ':' by {
                    assert(s@[start + j] != ':');
                }
                lemma_join_colon_push(old_dv, piece_v);
                lemma_join_colon_push(done.deep_view(), s@.subrange(i + 1, i + 1));
                assert(join_colon_spec(done.deep_view()) == s@.subrange(0, i as int));
                assert(s@.subrange(i + 1, i + 1) =~= Seq::<char>::empty());
                assert(join_colon_spec(done.deep_view().push(s@.subrange(i + 1, i + 1))) =~= s@
                    .subrange(0, i + 1));
            }
            start = i + 1;
        } else {
            proof {
                let dv = done.deep_view();
                lemma_join_colon_push(dv, s@.subrange(start as int, i as int));
                lemma_join_colon_push(dv, s@.subrange(start as int, i + 1));
                assert(s@.subrange(start as int, i + 1) =~= s@.subrange(start as int, i as int)
                    + seq![s@[i as int]]);
                assert(s@.subrange(0, i + 1) =~= s@.subrange(0, i as int) + seq![s@[i as int]]);
                assert(join_colon_spec(dv.push(s@.subrange(start as int, i + 1))) =~= s@.subrange(
                    0,
                    i + 1,
                ));
            }
        }
        i += 1;
    }
    let ghost old_dv = done.deep_view();
    let ghost piece_v = s@.subrange(start as int, n as int);
    let piece = s.substring_char(start, n).to_owned();
    done.push(piece);
    proof {
        assert(done.deep_view() =~= old_dv.push(piece_v));
        assert forall|j: int| 0 <= j < piece_v.len() implies piece_v[j] != ':' by {
            assert(s@[start + j] != ':');
        }
        assert(s@.subrange(0, n as int) =~= s@);
    }
    done
}

/// Picks the first usable entry of the data-directory search list; `usable`
/// says, entry by entry, whether the caller found the path acceptable (it
/// does not exist yet, or exists as a directory).
pub fn pick_xdg_data_dir(entries: &Vec<String>, usable: &Vec<bool>) -> (r: Result<
    String,
    ConfigError,
>)
    requires
        entries@.len() == usable@.len(),
    ensures
        match r {
            Ok(e) => exists|i: int|
                {
                    &&& 0 <= i < usable@.len()
                    &&& #[trigger] usable@[i]
                    &&& e@ == entries.deep_view()[i]
                    &&& forall|j: int| 0 <= j < i ==> !usable@[j]
                },
            Err(err) => {
                &&& err == ConfigError::NoUsablePath
                &&& forall|i: int| 0 <= i < usable@.len() ==> !usable@[i]
            },
        },
{
    let mut i: usize = 0;
    while i < entries.len()
        invariant
            0 <= i <= entries@.len(),
            entries@.len() == usable@.len(),
            forall|j: int| 0 <= j < i ==> !usable@[j],
        decreases entries@.len() - i,
    {
        if usable[i] {
            return Ok(entries[i].clone());
        }
        i += 1;
    }
    Err(ConfigError::NoUsablePath)
}

/// The fixed path used when no environment setting names a root.
pub fn default_root() -> (r: &'static str)
    ensures
        r@ == "/users/jss009/.local/share/wags_tails"@,
{
    "/users/jss009/.local/share/wags_tails"
}

/// Chooses the root cache directory: an explicit override wins, then the
/// data-home setting, then the pick from the data-directory search list,
/// and the fixed default stands last.
pub fn select_storage_root(
    override_dir: Option<String>,
    data_home: Option<String>,
    xdg_pick: Option<String>,
) -> (r: String)
    ensures
        match override_dir {
            Some(d) => r@ == d@,
            None => match data_home {
                Some(h) => r@ == h@,
                None => match xdg_pick {
                    Some(x) => r@ == x@,
                    None => r@ == "/users/jss009/.local/share/wags_tails"@,
                },
            },
        },
{
    match override_dir {
        Some(d) => d,
        None => match data_home {
            Some(h) => h,
            None => match xdg_pick {
                Some(x) => x,
                None => default_root().to_owned(),
            },
        },
    }
}

} // verus!
