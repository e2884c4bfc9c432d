//! Application identity: what the monitor hands its callback for each
//! qualifying foreground change, and how it is assembled from the values
//! the operating system's queries came back with.
//!
//! The identity carries the executable's path, a human-readable
//! description, and the executable's icon as PNG bytes. The description is
//! the version resource's file description when one is present and
//! non-empty, and otherwise the file's name without its extension. A window
//! whose owning process cannot be read yields no identity at all; a missing
//! icon degrades to an empty byte sequence.

use crate::icon::IconBitmap;
use crate::icon::get_image_by_path;
use crate::icon::png_of;
use crate::icon::png_signature;
use crate::icon::rgba_of;
use vstd::prelude::*;
use vstd::string::StrSliceExecFns;
use vstd::string::StringExecFns;

verus! {

/// What the foreground watcher delivers to its callback: the executable's
/// absolute path, a non-empty human-readable description (the version
/// resource's file description, or the file stem), and the executable's
/// icon encoded as PNG — possibly empty when no icon could be extracted.
pub struct ApplicationIdentity {
    pub path: String,
    pub description: String,
    pub icon: Vec<u8>,
}

/// A path separator: paths come from the operating system in native form,
/// where both the backslash and the slash separate components.
pub open spec fn is_sep(c: char) -> bool {
    c == '\\' || c == '/'
}

/// The index where the file name starts: right after the last separator,
/// or zero when the path holds none.
pub open spec fn file_name_start(p: Seq<char>) -> int
    decreases p.len(),
{
    if p.len() == 0 {
        0
    } else if is_sep(p[p.len() - 1]) {
        p.len() as int
    } else {
        file_name_start(p.drop_last())
    }
}

/// The index of the last dot of `name`, or minus one when it has none.
pub open spec fn last_dot(name: Seq<char>) -> int
    decreases name.len(),
{
    if name.len() == 0 {
        -1
    } else if name[name.len() - 1] == '.' {
        name.len() - 1
    } else {
        last_dot(name.drop_last())
    }
}

/// The stem of a file name: the name itself when it holds no dot, or only
/// a leading one, and otherwise the part before the last dot.
pub open spec fn stem_of(name: Seq<char>) -> Seq<char> {
    if last_dot(name) <= 0 {
        name
    } else {
        name.subrange(0, last_dot(name))
    }
}

/// The file name of a path without its extension: the part after the last
/// separator, stripped of everything from its last dot on.
pub open spec fn file_stem_spec(p: Seq<char>) -> Seq<char> {
    stem_of(p.subrange(file_name_start(p), p.len() as int))
}

proof fn lemma_file_name_start_bounds(p: Seq<char>)
    ensures
        0 <= file_name_start(p) <= p.len(),
    decreases p.len(),
{
    if p.len() != 0 && !is_sep(p[p.len() - 1]) {
        lemma_file_name_start_bounds(p.drop_last());
    }
}

proof fn lemma_last_dot_bounds(name: Seq<char>)
    ensures
        -1 <= last_dot(name) < name.len(),
    decreases name.len(),
{
    if name.len() != 0 && name[name.len() - 1] != '.' {
        lemma_last_dot_bounds(name.drop_last());
    }
}

/// A scan from the end that stopped at `k` found the file name's start:
/// no separator stands at or after `k`, and either `k` is zero or a
/// separator stands right before it.
proof fn lemma_file_name_start_scan(p: Seq<char>, k: int)
    requires
        0 <= k <= p.len(),
        forall|j: int| k <= j < p.len() ==> !is_sep(p[j]),
        k > 0 ==> is_sep(p[k - 1]),
    ensures
        file_name_start(p) == k,
    decreases p.len(),
{
    if p.len() == 0 {
    } else if k == p.len() {
    } else {
        assert(!is_sep(p[p.len() - 1]));
        lemma_file_name_start_scan(p.drop_last(), k);
    }
}

/// A scan from the end that stopped at `k` found the last dot: no dot
/// stands after `k`, and either `k` is minus one or a dot stands at `k`.
proof fn lemma_last_dot_scan(name: Seq<char>, k: int)
    requires
        -1 <= k < name.len(),
        forall|j: int| k < j < name.len() ==> name[j] != '.',
        k >= 0 ==> name[k] == '.',
    ensures
        last_dot(name) == k,
    decreases name.len(),
{
    if name.len() == 0 {
    } else if k == name.len() - 1 {
    } else {
        assert(name[name.len() - 1] != '.');
        lemma_last_dot_scan(name.drop_last(), k);
    }
}

fn is_separator(c: char) -> (r: bool)
    ensures
        r == is_sep(c),
{
    c == '\\' || c == '/'
}

/// The file name of a path without its extension, the fallback description
/// of an executable that carries no usable version resource.
pub fn file_stem(path: &String) -> (r: String)
    ensures
        r@ == file_stem_spec(path@),
{
    let s = path.as_str();
    let n = s.unicode_len();
    let mut start: usize = n;
    while start > 0 && !is_separator(s.get_char(start - 1))
        invariant
            start <= n,
            n == s@.len(),
            forall|j: int| start <= j < n ==> !is_sep(s@[j]),
        decreases start,
    {
        start = start - 1;
    }
    proof {
        lemma_file_name_start_scan(s@, start as int);
    }
    let name = s.substring_char(start, n);
    let m = name.unicode_len();
    let mut d: usize = m;
    while d > 0 && name.get_char(d - 1) != '.'
        invariant
            d <= m,
            m == name@.len(),
            forall|j: int| d <= j < m ==> name@[j] != '.',
        decreases d,
    {
        d = d - 1;
    }
    proof {
        lemma_last_dot_scan(name@, d as int - 1);
    }
    if d <= 1 {
        String::from_str(name)
    } else {
        String::from_str(name.substring_char(0, d - 1))
    }
}

/// The view of an optional description as handed back by the version
/// query: the string's characters when one came back, nothing otherwise.
pub open spec fn description_view(d: Option<String>) -> Option<Seq<char>> {
    match d {
        Some(s) => Some(s@),
        None => None,
    }
}

/// The description an identity carries: the version resource's file
/// description when present and non-empty, and otherwise the path's file
/// stem.
pub open spec fn chosen_description(path: Seq<char>, description: Option<Seq<char>>) -> Seq<char> {
    match description {
        Some(d) => if d.len() > 0 {
            d
        } else {
            file_stem_spec(path)
        },
        None => file_stem_spec(path),
    }
}

/// A present, non-empty version description is what the identity carries
/// as its description — never the file stem.
pub proof fn lemma_description_prefers_version(path: Seq<char>, d: Seq<char>)
    requires
        d.len() > 0,
    ensures
        chosen_description(path, Some(d)) == d,
{
}

/// An absent or empty version description makes the identity carry the
/// file name without its extension.
pub proof fn lemma_description_falls_back_to_stem(path: Seq<char>, d: Option<Seq<char>>)
    requires
        d is None || d == Some(Seq::<char>::empty()),
    ensures
        chosen_description(path, d) == file_stem_spec(path),
{
}

/// The description of a delivered identity is populated — never the empty
/// string — as long as the path carries a file name, as every executable
/// path does. A present, non-empty version description is kept as it is;
/// any other case falls back to the file stem, and the stem of a non-empty
/// file name is itself non-empty. Together with the contract of
/// [`resolve`], an identity delivered for such a path always holds the
/// path and a populated description, whether or not icon extraction
/// succeeded.
pub proof fn lemma_description_populated(path: Seq<char>, description: Option<Seq<char>>)
    requires
        file_name_start(path) < path.len(),
    ensures
        chosen_description(path, description).len() > 0,
{
    let keep_given = match description {
        Some(d) => d.len() > 0,
        None => false,
    };
    if !keep_given {
        lemma_file_name_start_bounds(path);
        let name = path.subrange(file_name_start(path), path.len() as int);
        lemma_last_dot_bounds(name);
        assert(name.len() > 0);
    }
}

/// Chooses the description for the identity of the executable at `path`:
/// a present, non-empty version description wins; an absent or empty one
/// falls back to the file name without its extension.
pub fn choose_description(path: &String, description: Option<String>) -> (r: String)
    ensures
        r@ == chosen_description(path@, description_view(description)),
{
    match description {
        Some(d) => if d.as_str().unicode_len() > 0 {
            d
        } else {
            file_stem(path)
        },
        None => file_stem(path),
    }
}

/// Assembles the identity of the application owning a window, from what
/// the operating system's queries handed back: the owning executable's
/// path if the process could be read, the version resource's description
/// if one was found, and the extracted icon bitmap if there was one.
///
/// No path — the window could not be mapped to a readable process — yields
/// no identity. A missing icon degrades to an empty icon while resolution
/// still succeeds; a well-formed icon bitmap always yields an identity
/// carrying its PNG encoding. A malformed icon bitmap aborts resolution
/// for this event rather than hand on a corrupt image.
pub fn resolve(path: Option<String>, description: Option<String>, icon: Option<IconBitmap>) -> (r:
    Option<ApplicationIdentity>)
    ensures
        path is None ==> r is None,
        path matches Some(p) ==> {
            &&& icon is None ==> (r matches Some(id) && id.path@ == p@ && id.description@
                == chosen_description(p@, description_view(description)) && id.icon@
                == Seq::<u8>::empty())
            &&& (icon matches Some(b) && !b.valid()) ==> r is None
            &&& icon matches Some(b) ==> (b.valid() ==> (r matches Some(id) && id.path@ == p@
                && id.description@ == chosen_description(p@, description_view(description))
                && id.icon@ == png_of(b.width as u32, b.height as u32, rgba_of(b.bgra@))
                && id.icon@.len() >= 8 && id.icon@.subrange(0, 8) == png_signature()))
        },
{
    let p = match path {
        Some(p) => p,
        None => {
            return None;
        },
    };
    let icon_png = match get_image_by_path(icon) {
        Some(v) => v,
        None => {
            return None;
        },
    };
    let desc = choose_description(&p, description);
    Some(ApplicationIdentity { path: p, description: desc, icon: icon_png })
}

} // verus!
