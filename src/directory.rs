use vstd::prelude::*;
use vstd::string::StrSliceExecFns;
use vstd::string::StringExecFns;

verus! {

/// The character that separates the components of a path.
pub open spec fn separator() -> char {
    '/'
}

/// A path that names its location from the root.
pub open spec fn is_absolute(p: Seq<char>) -> bool {
    p.len() > 0 && p[0] == separator()
}

/// `cand` read relative to `base`: an absolute `cand` replaces `base`, otherwise the two
/// are joined by one separator (none is added where `base` is empty or already ends in
/// one).
pub open spec fn path_join(base: Seq<char>, cand: Seq<char>) -> Seq<char> {
    if is_absolute(cand) {
        cand
    } else if base.len() == 0 || base.last() == separator() {
        base + cand
    } else {
        base + seq![separator()] + cand
    }
}

/// A path that starts at the home directory: `~` alone, or `~/` followed by the rest.
pub open spec fn is_home_relative(p: Seq<char>) -> bool {
    p =~= seq!['~'] || (p.len() >= 2 && p[0] == '~' && p[1] == separator())
}

/// `p` with a leading home marker replaced by the home directory. A path that is not
/// home-relative is kept as it is; a home-relative one cannot be expanded without a
/// home directory.
pub open spec fn expand_home(p: Seq<char>, home: Option<Seq<char>>) -> Option<Seq<char>> {
    if !is_home_relative(p) {
        Some(p)
    } else {
        match home {
            None => None,
            Some(h) => if p.len() == 1 {
                Some(h)
            } else {
                Some(path_join(h, p.subrange(2, p.len() as int)))
            },
        }
    }
}

/// The directory chosen once the filesystem has answered: the joined path if it is a
/// directory, else the expanded path if there is one and it is a directory, else none.
pub open spec fn pick(
    joined: Seq<char>,
    joined_is_dir: bool,
    expanded: Option<Seq<char>>,
    expanded_is_dir: bool,
) -> Option<Seq<char>> {
    if joined_is_dir {
        Some(joined)
    } else {
        match expanded {
            Some(e) => if expanded_is_dir {
                Some(e)
            } else {
                None
            },
            None => None,
        }
    }
}

/// `p` is one of the paths that resolving `cand` against `base` may yield: the join of
/// the two, or, where `cand` starts with the home marker, `cand` with that marker
/// expanded for some home directory.
pub open spec fn is_candidate(base: Seq<char>, cand: Seq<char>, p: Seq<char>) -> bool {
    p == path_join(base, cand) || (is_home_relative(cand) && exists|h: Seq<char>|
        #[trigger] expand_home(cand, Some(h)) == Some(p))
}

/// The view of an optional string.
pub open spec fn opt_str(s: Option<String>) -> Option<Seq<char>> {
    match s {
        Some(v) => Some(v@),
        None => None,
    }
}

/// Relies on `dirs::home_dir`: the home directory of the user running the process, if
/// one can be found (from `HOME`, else from the password database). It depends on the
/// environment, so nothing is promised of it.
#[verifier::external_body]
fn home_dir() -> (r: Option<String>) {
    match dirs::home_dir() {
        Some(p) => Some(p.to_string_lossy().into_owned()),
        None => None,
    }
}

/// Relies on `std::path::Path::is_dir`: whether the path names an existing directory.
/// It depends on what is on disk, so nothing is promised of it.
#[verifier::external_body]
fn is_valid_directory(path: &str) -> (r: bool) {
    std::path::Path::new(path).is_dir()
}

/// Whether `p` starts with the home marker.
fn home_relative(p: &str) -> (r: bool)
    ensures
        r == is_home_relative(p@),
{
    let n = p.unicode_len();
    if n == 1 {
        p.get_char(0) == '~'
    } else if n >= 2 {
        p.get_char(0) == '~' && p.get_char(1) == '/'
    } else {
        false
    }
}

/// Joins `cand` onto `base`.
pub fn join_path(base: &str, cand: &str) -> (r: String)
    ensures
        r@ == path_join(base@, cand@),
{
    proof {
        reveal_strlit("/");
    }
    let cand_len = cand.unicode_len();
    if cand_len > 0 && cand.get_char(0) == '/' {
        return String::from_str(cand);
    }
    let base_len = base.unicode_len();
    if base_len == 0 || base.get_char(base_len - 1) == '/' {
        String::from_str(base).concat(cand)
    } else {
        String::from_str(base).concat("/").concat(cand)
    }
}

/// Expands a leading home marker of `path` against `home`.
pub fn sanitize_path(path: &str, home: Option<String>) -> (r: Option<String>)
    ensures
        opt_str(r) == expand_home(path@, opt_str(home)),
{
    if !home_relative(path) {
        return Some(String::from_str(path));
    }
    match home {
        None => None,
        Some(h) => {
            let n = path.unicode_len();
            if n == 1 {
                Some(h)
            } else {
                let rest = path.substring_char(2, n);
                Some(join_path(h.as_str(), rest))
            }
        },
    }
}

/// Chooses among the interpretations of a directory, given what the filesystem said of
/// each.
pub fn pick_directory(
    joined: String,
    joined_is_dir: bool,
    expanded: Option<String>,
    expanded_is_dir: bool,
) -> (r: Option<String>)
    ensures
        opt_str(r) == pick(joined@, joined_is_dir, opt_str(expanded), expanded_is_dir),
{
    if joined_is_dir {
        Some(joined)
    } else {
        match expanded {
            Some(e) => if expanded_is_dir {
                Some(e)
            } else {
                None
            },
            None => None,
        }
    }
}

/// Finds the existing directory that `new_dir` names when read from `current_dir`: first
/// the two joined; then, only where `new_dir` starts with the home marker, `new_dir` with
/// that marker expanded to the home directory. Anything else is not found. Only the
/// filesystem and the home directory are consulted.
pub fn determine_new_directory(current_dir: &str, new_dir: &str) -> (r: Option<String>)
    ensures
        match r {
            Some(p) => is_candidate(current_dir@, new_dir@, p@),
            None => true,
        },
{
    let joined = join_path(current_dir, new_dir);
    let joined_is_dir = is_valid_directory(joined.as_str());
    if joined_is_dir {
        return pick_directory(joined, true, None, false);
    }
    if !home_relative(new_dir) {
        return pick_directory(joined, false, None, false);
    }
    let home = home_dir();
    let ghost home_view = opt_str(home);
    let expanded = sanitize_path(new_dir, home);
    let expanded_is_dir = match &expanded {
        Some(e) => is_valid_directory(e.as_str()),
        None => false,
    };
    let r = pick_directory(joined, false, expanded, expanded_is_dir);
    proof {
        if r is Some {
            let h = home_view->Some_0;
            assert(expand_home(new_dir@, Some(h)) == Some(r->Some_0@));
        }
    }
    r
}

/// A directory written with the home marker resolves to the same location as the same
/// directory written out from an (absolute) home directory: expanding `~` gives the home
/// directory, expanding `~/rest` gives the home directory joined with `rest`, and that
/// explicit path, being absolute, is left as it is when read from any base directory.
pub proof fn lemma_tilde_same_as_home(base: Seq<char>, home: Seq<char>, rest: Seq<char>)
    requires
        is_absolute(home),
    ensures
        expand_home(seq!['~'], Some(home)) == Some(home),
        expand_home(seq!['~', separator()] + rest, Some(home)) == Some(path_join(home, rest)),
        path_join(base, path_join(home, rest)) == path_join(home, rest),
        path_join(base, home) == home,
{
    let p = seq!['~', separator()] + rest;
    assert(p.subrange(2, p.len() as int) =~= rest);
    assert(is_home_relative(p));
    let j = path_join(home, rest);
    if !is_absolute(rest) {
        if home.last() == separator() {
            assert(j[0] == (home + rest)[0]);
        } else {
            assert(j[0] == (home + seq![separator()] + rest)[0]);
        }
    }
    assert(is_absolute(j));
}

} // verus!
