//! The home directory of the user.

use crate::text::{option_view, same_text};
use vstd::prelude::*;

verus! {

/// Whether `expanded` is the path with the home directory in place of a leading `~`: one that is
/// all there is, or that a separator follows. A slash is a separator; a backslash is on some
/// systems. Where the home directory is not known, the path stays as it is.
pub open spec fn expands_to(
    path: Seq<char>,
    home: Option<Seq<char>>,
    expanded: Seq<char>,
) -> bool {
    match home {
        Some(home) => if path.len() == 0 || path[0] != '~' {
            expanded == path
        } else if path.len() == 1 || path[1] == '/' {
            expanded == home + path.skip(1)
        } else if path[1] == '\\' {
            expanded == path || expanded == home + path.skip(1)
        } else {
            expanded == path
        },
        None => expanded == path,
    }
}

/// `shellexpand::tilde_with_context`: a `~` at the beginning that is all there is or that a
/// separator follows is replaced by the home directory that is given.
#[verifier::external_body]
pub(crate) fn expand_tilde_at(path: &str, home: &Option<String>) -> (expanded: String)
    ensures
        expands_to(path@, option_view(*home), expanded@),
{
    shellexpand::tilde_with_context(path, || home.as_deref()).into_owned()
}

/// `shellexpand::tilde`: the same with the home directory that the machine knows, if it knows one.
/// Which directory that is, is up to the machine.
#[verifier::external_body]
fn expand_tilde(path: &str) -> (expanded: String)
    ensures
        exists|home: Option<Seq<char>>| #[trigger] expands_to(path@, home, expanded@),
{
    shellexpand::tilde(path).into_owned()
}

/// The home directory, where the machine knows it.
pub(crate) fn home_directory() -> (home: Option<String>)
    ensures
        home matches Some(home) ==> home@ != "~"@,
{
    let home: String = expand_tilde("~");
    if same_text(home.as_str(), "~") {
        None
    } else {
        Some(home)
    }
}

/// A path that does not begin with `~` stays as it is, and so does every path where the home
/// directory is not known.
pub proof fn other_paths_stay(path: Seq<char>, home: Option<Seq<char>>, expanded: Seq<char>)
    requires
        path.len() == 0 || path[0] != '~' || home is None,
        expands_to(path, home, expanded),
    ensures
        expanded == path,
{
}

/// A path that begins with `~` and a slash leads to the same place below the home directory.
pub proof fn paths_at_home_lead_there(
    path: Seq<char>,
    home: Seq<char>,
    expanded: Seq<char>,
)
    requires
        expands_to(seq!['~', '/'] + path, Some(home), expanded),
    ensures
        expanded == home + seq!['/'] + path,
{
    let whole = seq!['~', '/'] + path;
    assert(whole[0] == '~' && whole[1] == '/');
    assert(home + whole.skip(1) =~= home + seq!['/'] + path);
}

/// `~` alone is the home directory; what begins with `~` and anything but a separator is as it is.
pub proof fn only_the_own_home_is_known(
    path: Seq<char>,
    home: Seq<char>,
    expanded: Seq<char>,
)
    requires
        expands_to(path, Some(home), expanded),
    ensures
        path == seq!['~'] ==> expanded == home,
        path.len() > 1 && path[0] == '~' && path[1] != '/' && path[1] != '\\' ==> expanded == path,
{
    if path == seq!['~'] {
        assert(home + path.skip(1) =~= home);
    }
}

} // verus!
