//! Home-directory expansion of file paths.

use vstd::prelude::*;

verus! {

/// `path` with a leading `~/` replaced by the home directory `home/`, when
/// a home directory is known.
pub open spec fn expanded(path: Seq<char>, home: Option<Seq<char>>) -> Seq<char> {
    if path.len() >= 2 && path[0] == '~' && path[1] == '/' && home is Some {
        home->0 + path.drop_first()
    } else {
        path
    }
}

/// Replaces a leading `~` of a `~/...` path by the home directory, when one
/// is given; any other path is returned as it is.
pub fn expand_tilde(path: &str, home: Option<&str>) -> (r: String)
    ensures
        r@ == expanded(path@, match home {
            Some(h) => Some(h@),
            None => None::<Seq<char>>,
        }),
{
    let n = path.unicode_len();
    if n >= 2 && path.get_char(0) == '~' && path.get_char(1) == '/' {
        match home {
            Some(h) => {
                let rest = path.substring_char(1, n);
                assert(rest@ =~= path@.drop_first());
                String::from_str(h).concat(rest)
            },
            None => String::from_str(path),
        }
    } else {
        String::from_str(path)
    }
}

} // verus!
