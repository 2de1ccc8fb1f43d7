use vstd::prelude::*;

verus! {

/// Position of the dot that begins the extension of a path's file name,
/// or -1 when the file name has none. The file name is what follows the
/// last separator; a dot that opens the file name begins no extension.
pub open spec fn spec_ext_dot(p: Seq<char>) -> int
    decreases p.len(),
{
    if p.len() == 0 {
        -1
    } else if p.last() == '/' {
        -1
    } else if p.last() == '.' {
        if p.len() >= 2 && p[p.len() - 2] != '/' {
            p.len() - 1
        } else {
            -1
        }
    } else {
        spec_ext_dot(p.drop_last())
    }
}

/// The path with the extension of its file name replaced by `ext`:
/// everything from the extension dot on is dropped, and a dot plus `ext`
/// is appended.
pub open spec fn spec_with_ext(p: Seq<char>, ext: Seq<char>) -> Seq<char> {
    (if spec_ext_dot(p) >= 0 {
        p.take(spec_ext_dot(p))
    } else {
        p
    }) + "."@ + ext
}

/// A relative path joined onto a base path: an absolute path replaces the
/// base; an empty base adds nothing; otherwise the two are joined with a
/// single separator.
pub open spec fn spec_resolve(base: Seq<char>, rel: Seq<char>) -> Seq<char> {
    if rel.len() > 0 && rel[0] == '/' {
        rel
    } else if base.len() == 0 {
        rel
    } else if base.last() == '/' {
        base + rel
    } else {
        base + "/"@ + rel
    }
}

/// Finds the extension dot of `path`'s file name: the last dot of the
/// final path component, unless it opens that component.
fn ext_dot(path: &str) -> (r: Option<usize>)
    ensures
        r matches Some(i) ==> spec_ext_dot(path@) == i && i < path@.len(),
        r is None ==> spec_ext_dot(path@) == -1,
{
    let n = path.unicode_len();
    let mut i: usize = n;
    proof {
        assert(path@.take(n as int) =~= path@);
    }
    loop
        invariant
            i <= n,
            n == path@.len(),
            spec_ext_dot(path@) == spec_ext_dot(path@.take(i as int)),
        decreases i,
    {
        if i == 0 {
            return None;
        }
        let c = path.get_char(i - 1);
        if c == '/' {
            return None;
        }
        if c == '.' {
            if i >= 2 {
                let d = path.get_char(i - 2);
                if d != '/' {
                    return Some(i - 1);
                }
            }
            return None;
        }
        proof {
            assert(path@.take(i as int).drop_last() =~= path@.take(i - 1 as int));
        }
        i = i - 1;
    }
}

/// The path with the extension of its file name replaced by `ext`.
fn with_ext(path: &str, ext: &str) -> (r: String)
    ensures
        r@ == spec_with_ext(path@, ext@),
{
    let n = path.unicode_len();
    let stem_end = match ext_dot(path) {
        Some(i) => i,
        None => n,
    };
    let mut s = String::from_str(path.substring_char(0, stem_end));
    s.append(".");
    s.append(ext);
    proof {
        assert(s@ =~= spec_with_ext(path@, ext@));
    }
    s
}

/// A logical source name: a path from which the physical file variants —
/// the plain source, the preprocessed variant and the helper file — are
/// derived by replacing the extension.
#[derive(Clone, Debug)]
pub struct Source(String);

impl Source {
    /// The stored path.
    pub closed spec fn path(self) -> Seq<char> {
        self.0@
    }

    /// The path to the plain source file for this source.
    pub fn gml(&self) -> (r: String)
        ensures
            r@ == spec_with_ext(self.path(), "gml"@),
    {
        with_ext(self.0.as_str(), "gml")
    }

    /// The path to the preprocessed variant for this source.
    pub fn gmlpp(&self) -> (r: String)
        ensures
            r@ == spec_with_ext(self.path(), "gmlpp"@),
    {
        with_ext(self.0.as_str(), "gmlpp")
    }

    /// The path to the helper file for this source; it currently resolves
    /// to the same path as the plain source file.
    pub fn helper(&self) -> (r: String)
        ensures
            r@ == spec_with_ext(self.path(), "gml"@),
    {
        with_ext(self.0.as_str(), "gml")
    }

    /// Determines the source record for a source or preprocessed file path.
    pub fn from(path: String) -> (r: Source)
        ensures
            r.path() == path@,
    {
        Source(path)
    }

    /// Adjusts the path of this source to the provided base path.
    pub fn resolved_to(self, path: String) -> (r: Source)
        ensures
            r.path() == spec_resolve(path@, self.path()),
    {
        let rn = self.0.as_str().unicode_len();
        if rn > 0 {
            let first = self.0.as_str().get_char(0);
            if first == '/' {
                return Source(self.0);
            }
        }
        let bn = path.as_str().unicode_len();
        if bn == 0 {
            return Source(self.0);
        }
        let last = path.as_str().get_char(bn - 1);
        let mut s = path;
        if last != '/' {
            s.append("/");
        }
        s.append(self.0.as_str());
        Source(s)
    }
}

} // verus!
