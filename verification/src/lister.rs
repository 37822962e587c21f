//! The local lister: renders the conforming entries of a source's cache
//! directory in one of several representations — bare file name, parsed
//! version, or full path. Non-conforming entries are skipped silently; one
//! unrelated file never aborts the whole listing.

use vstd::prelude::*;

use crate::provider::DataProvider;
use crate::resolver::conforming_entries;
use crate::resolver::matching_entries;
use crate::resolver::spec_version_of;
use crate::resolver::version_of;
use crate::storage::join_path;
use crate::storage::joined_path_spec;

verus! {

/// How a listed entry is rendered.
#[derive(Debug, Clone, Copy, PartialEq, Eq, Structural)]
pub enum ListPrintMode {
    Filename,
    Version,
    Path,
}

impl ListPrintMode {
    /// The name under which the mode is selected.
    pub fn mode_name(&self) -> (r: &'static str)
        ensures
            match *self {
                ListPrintMode::Filename => r@ == "filename"@,
                ListPrintMode::Version => r@ == "version"@,
                ListPrintMode::Path => r@ == "path"@,
            },
    {
        match self {
            ListPrintMode::Filename => "filename",
            ListPrintMode::Version => "version",
            ListPrintMode::Path => "path",
        }
    }
}

/// What one conforming entry renders to under a mode.
pub open spec fn render_spec(
    p: DataProvider,
    dir: Seq<char>,
    mode: ListPrintMode,
    name: Seq<char>,
) -> Seq<char> {
    match mode {
        ListPrintMode::Filename => name,
        ListPrintMode::Version => spec_version_of(p, name),
        ListPrintMode::Path => joined_path_spec(dir, name),
    }
}

/// The rendering of one mode, as a function value for mapping.
pub open spec fn render_fn(p: DataProvider, dir: Seq<char>, mode: ListPrintMode) -> spec_fn(
    Seq<char>,
) -> Seq<char> {
    |name: Seq<char>| render_spec(p, dir, mode, name)
}

/// Lists a source's cache directory: exactly the conforming entries, in
/// listing order, each rendered under the chosen mode.
pub fn list(p: &DataProvider, dir_path: &str, entries: &Vec<String>, mode: &ListPrintMode) -> (r:
    Vec<String>)
    ensures
        r.deep_view() == conforming_entries(*p, entries.deep_view()).map_values(
            render_fn(*p, dir_path@, *mode),
        ),
{
    let matched = matching_entries(p, entries);
    let ghost conf = conforming_entries(*p, entries.deep_view());
    let mut out: Vec<String> = Vec::new();
    let mut i: usize = 0;
    while i < matched.len()
        invariant
            0 <= i <= matched@.len(),
            matched.deep_view() == conf,
            matched.deep_view().len() == matched@.len(),
            conforming_entries(*p, entries.deep_view()) == conf,
            out.deep_view().len() == i,
            forall|k: int|
                0 <= k < i ==> out.deep_view()[k] == render_spec(
                    *p,
                    dir_path@,
                    *mode,
                    #[trigger] conf[k],
                ),
        decreases matched@.len() - i,
    {
        let name = &matched[i];
        proof {
            assert(matched.deep_view()[i as int] == matched@[i as int]@);
            entries.deep_view().lemma_filter_pred(crate::resolver::conform_pred(*p), i as int);
        }
        let ghost old_out = out.deep_view();
        let rendered: String = match mode {
            ListPrintMode::Filename => name.clone(),
            ListPrintMode::Version => version_of(p, name.as_str()),
            ListPrintMode::Path => join_path(dir_path, name.as_str()),
        };
        out.push(rendered);
        proof {
            assert(out.deep_view() =~= old_out.push(out.deep_view().last()));
        }
        i += 1;
    }
    proof {
        assert(out.deep_view() =~= conf.map_values(render_fn(*p, dir_path@, *mode)));
    }
    out
}

} // verus!
