//! Shortening paths for display.

use crate::text::{append, occurs_at, starts_with};
use vstd::prelude::*;

verus! {

/// A directory and the shorthand that stands for it when a path is shown.
#[derive(Debug, PartialEq, Eq)]
pub struct PathRoot {
    pub directory: String,
    pub shorthand: String,
}

impl View for PathRoot {
    type V = (Seq<char>, Seq<char>);

    open spec fn view(&self) -> (Seq<char>, Seq<char>) {
        (self.directory@, self.shorthand@)
    }
}

impl DeepView for PathRoot {
    type V = (Seq<char>, Seq<char>);

    open spec fn deep_view(&self) -> (Seq<char>, Seq<char>) {
        self@
    }
}

/// Whether `path` is the directory `dir` or lies below it.
pub open spec fn is_under(dir: Seq<char>, path: Seq<char>) -> bool {
    dir.len() > 0 && occurs_at(path, dir, 0) && (path.len() == dir.len() || path[dir.len() as int]
        == '/')
}

/// `path` with the first root that it lies under replaced by that root's
/// shorthand; `path` itself where it lies under none.
pub open spec fn simplified(roots: Seq<(Seq<char>, Seq<char>)>, path: Seq<char>) -> Seq<char>
    decreases roots.len(),
{
    if roots.len() == 0 {
        path
    } else if is_under(roots[0].0, path) {
        roots[0].1 + path.skip(roots[0].0.len() as int)
    } else {
        simplified(roots.drop_first(), path)
    }
}

/// Shortens paths against a list of known roots, the first that fits.
#[derive(Debug, PartialEq, Eq)]
pub struct PathSimplifier {
    roots: Vec<PathRoot>,
}

impl View for PathSimplifier {
    type V = Seq<(Seq<char>, Seq<char>)>;

    closed spec fn view(&self) -> Seq<(Seq<char>, Seq<char>)> {
        self.roots.deep_view()
    }
}

impl PathSimplifier {
    /// A simplifier for the given roots, tried in their order.
    pub fn new(roots: Vec<PathRoot>) -> (r: Self)
        ensures
            r@ == roots.deep_view(),
    {
        PathSimplifier { roots }
    }

    /// The simplifier of a user's session: the configuration directory is
    /// shown as `$XDG_CONFIG_HOME`, the home directory as `~`.
    pub fn for_user(home: Option<String>, config_home: Option<String>) -> (r: Self)
        ensures
            r@ == user_roots(home.deep_view(), config_home.deep_view()),
    {
        let mut roots: Vec<PathRoot> = Vec::new();
        if let Some(dir) = config_home {
            roots.push(PathRoot { directory: dir, shorthand: "$XDG_CONFIG_HOME".to_owned() });
        }
        if let Some(dir) = home {
            roots.push(PathRoot { directory: dir, shorthand: "~".to_owned() });
        }
        assert(roots.deep_view() =~= user_roots(home.deep_view(), config_home.deep_view()));
        PathSimplifier { roots }
    }

    /// `path` as it is shown.
    pub fn simplify(&self, path: &str) -> (r: String)
        ensures
            r@ == simplified(self@, path@),
    {
        let n: usize = path.unicode_len();
        let mut i: usize = 0;
        assert(self@.skip(0) =~= self@);
        while i < self.roots.len()
            invariant
                i <= self.roots.len(),
                n == path@.len(),
                simplified(self@, path@) == simplified(self@.skip(i as int), path@),
            decreases self.roots.len() - i,
        {
            let root = &self.roots[i];
            let dir = root.directory.as_str();
            let m: usize = dir.unicode_len();
            proof {
                let rest = self@.skip(i as int);
                assert(rest[0] == root@);
                assert(rest.drop_first() =~= self@.skip(i + 1));
            }
            if m > 0 && starts_with(path, dir) && (n == m || path.get_char(m) == '/') {
                assert(path@.skip(m as int) =~= path@.subrange(m as int, n as int));
                return append(root.shorthand.as_str(), path.substring_char(m, n));
            }
            i = i + 1;
        }
        path.to_owned()
    }
}

/// The roots of a user's session, the more specific first.
pub open spec fn user_roots(home: Option<Seq<char>>, config_home: Option<Seq<char>>) -> Seq<
    (Seq<char>, Seq<char>),
> {
    let first = match config_home {
        Some(dir) => seq![(dir, "$XDG_CONFIG_HOME"@)],
        None => Seq::empty(),
    };
    let second = match home {
        Some(dir) => seq![(dir, "~"@)],
        None => Seq::empty(),
    };
    first + second
}

} // verus!
