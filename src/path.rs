use vstd::prelude::*;

use vstd::string::StringSliceAdditionalSpecFns;

use crate::error::FsError;

verus! {

/// One component of a slash-separated path. A named component is given by
/// the byte range of its name within the path.
#[derive(Debug, Clone, Copy, PartialEq, Eq, Structural)]
pub enum Component {
    RootDir,
    CurDir,
    ParentDir,
    Normal { start: usize, end: usize },
}

/// One move of the walk from the root directory to a path's parent.
#[derive(Debug, Clone, Copy, PartialEq, Eq, Structural)]
pub enum Step {
    /// Look up (or create) the child directory named by this byte range of
    /// the path under the current directory, and enter it.
    Descend { start: usize, end: usize },
    /// Go back to the directory entered before the current one.
    Ascend,
    /// The path climbs above the root: the walk fails here.
    Denied,
}

/// The end of the segment that starts at `i`: the first slash at or after
/// `i`, or the end of the path.
pub open spec fn seg_end(p: Seq<u8>, i: int) -> int
    decreases p.len() - i,
{
    if i < 0 || i >= p.len() || p[i] == 47u8 {
        i
    } else {
        seg_end(p, i + 1)
    }
}

/// The component that the segment `p[s..e]` contributes: `..` is the
/// parent, `.` is dropped but at the very start of a relative path, any
/// other segment is a name.
pub open spec fn segment_component(p: Seq<u8>, s: int, e: int) -> Seq<Component> {
    if e - s == 1 && p[s] == 46u8 {
        if s == 0 {
            seq![Component::CurDir]
        } else {
            seq![]
        }
    } else if e - s == 2 && p[s] == 46u8 && p[s + 1] == 46u8 {
        seq![Component::ParentDir]
    } else {
        seq![Component::Normal { start: s as usize, end: e as usize }]
    }
}

/// The components of the segments of `p` from byte `i` on; empty segments
/// (repeated or trailing slashes) are skipped.
pub open spec fn components_from(p: Seq<u8>, i: int) -> Seq<Component>
    decreases p.len() - i,
{
    if i < 0 || i >= p.len() {
        seq![]
    } else if p[i] == 47u8 {
        components_from(p, i + 1)
    } else {
        let e = seg_end(p, i);
        if i < e <= p.len() {
            segment_component(p, i, e) + components_from(p, e)
        } else {
            seq![]
        }
    }
}

/// The components of path `p`: the root first where `p` starts with a
/// slash, then those of its segments.
pub open spec fn path_components(p: Seq<u8>) -> Seq<Component> {
    if p.len() > 0 && p[0] == 47u8 {
        seq![Component::RootDir] + components_from(p, 0)
    } else {
        components_from(p, 0)
    }
}

/// Whether `p[s..e]` is a whole name: not empty, free of slashes, and
/// bounded by slashes or by the ends of the path.
pub open spec fn is_name_range(p: Seq<u8>, s: int, e: int) -> bool {
    &&& 0 <= s < e <= p.len()
    &&& s == 0 || p[s - 1] == 47u8
    &&& e == p.len() || p[e] == 47u8
    &&& forall|k: int| s <= k < e ==> p[k] != 47u8
}

/// Every named component of `comps` is a whole name of `p`.
pub open spec fn names_in(p: Seq<u8>, comps: Seq<Component>) -> bool {
    forall|j: int|
        0 <= j < comps.len() && (#[trigger] comps[j]) is Normal ==> is_name_range(
            p,
            comps[j]->start as int,
            comps[j]->end as int,
        )
}

proof fn lemma_seg_end(p: Seq<u8>, i: int)
    requires
        0 <= i <= p.len(),
    ensures
        i <= seg_end(p, i) <= p.len(),
        i < p.len() && p[i] != 47u8 ==> i < seg_end(p, i),
        seg_end(p, i) == p.len() || p[seg_end(p, i)] == 47u8,
        forall|k: int| i <= k < seg_end(p, i) ==> p[k] != 47u8,
    decreases p.len() - i,
{
    if i < p.len() && p[i] != 47u8 {
        lemma_seg_end(p, i + 1);
    }
}

proof fn lemma_components_are_names(p: Seq<u8>, i: int)
    requires
        0 <= i <= p.len(),
        i == 0 || i == p.len() || p[i - 1] == 47u8 || p[i] == 47u8,
        p.len() <= usize::MAX,
    ensures
        names_in(p, components_from(p, i)),
    decreases p.len() - i,
{
    if i < p.len() {
        if p[i] == 47u8 {
            lemma_components_are_names(p, i + 1);
        } else {
            let e = seg_end(p, i);
            lemma_seg_end(p, i);
            lemma_components_are_names(p, e);
            let head = segment_component(p, i, e);
            let tail = components_from(p, e);
            assert(names_in(p, head));
            assert(components_from(p, i) == head + tail);
            assert forall|j: int|
                0 <= j < (head + tail).len() && (#[trigger] (head + tail)[j]) is Normal implies is_name_range(
                p,
                (head + tail)[j]->start as int,
                (head + tail)[j]->end as int,
            ) by {
                if j < head.len() {
                    assert((head + tail)[j] == head[j]);
                } else {
                    assert((head + tail)[j] == tail[j - head.len()]);
                }
            }
        }
    }
}

proof fn lemma_walk_names(p: Seq<u8>, comps: Seq<Component>, i: int, depth: nat)
    requires
        names_in(p, comps),
        0 <= i,
    ensures
        forall|k: int|
            0 <= k < walk_from(comps, i, depth).len() && (#[trigger] walk_from(comps, i, depth)[k]) is Descend
                ==> is_name_range(
                p,
                walk_from(comps, i, depth)[k]->start as int,
                walk_from(comps, i, depth)[k]->end as int,
            ),
    decreases comps.len() - i,
{
    if i < comps.len() {
        let w = walk_from(comps, i, depth);
        match comps[i] {
            Component::RootDir | Component::CurDir => {
                lemma_walk_names(p, comps, i + 1, depth);
            },
            Component::ParentDir => {
                if depth > 0 {
                    lemma_walk_names(p, comps, i + 1, (depth - 1) as nat);
                    let rest = walk_from(comps, i + 1, (depth - 1) as nat);
                    assert forall|k: int| 0 <= k < w.len() && (#[trigger] w[k]) is Descend implies is_name_range(
                        p,
                        w[k]->start as int,
                        w[k]->end as int,
                    ) by {
                        assert(k > 0);
                        assert(w[k] == rest[k - 1]);
                    }
                }
            },
            Component::Normal { start, end } => {
                lemma_walk_names(p, comps, i + 1, depth + 1);
                let rest = walk_from(comps, i + 1, depth + 1);
                assert forall|k: int| 0 <= k < w.len() && (#[trigger] w[k]) is Descend implies is_name_range(
                    p,
                    w[k]->start as int,
                    w[k]->end as int,
                ) by {
                    if k > 0 {
                        assert(w[k] == rest[k - 1]);
                    }
                }
            },
        }
    }
}

/// Splits `path` into its components.
pub fn components(path: &str) -> (r: Vec<Component>)
    ensures
        r@ == path_components(path.spec_bytes()),
{
    let b = path.as_bytes();
    let n = b.len();
    let ghost p = b@;
    let mut out: Vec<Component> = Vec::new();
    if n > 0 && b[0] == 47u8 {
        out.push(Component::RootDir);
    }
    let mut i: usize = 0;
    while i < n
        invariant
            p == b@,
            n == p.len(),
            i <= n,
            out@ + components_from(p, i as int) == path_components(p),
        decreases n - i,
    {
        if b[i] == 47u8 {
            i = i + 1;
        } else {
            let mut j: usize = i;
            while j < n && b[j] != 47u8
                invariant
                    p == b@,
                    n == p.len(),
                    i <= j <= n,
                    seg_end(p, i as int) == seg_end(p, j as int),
                decreases n - j,
            {
                j = j + 1;
            }
            proof {
                lemma_seg_end(p, i as int);
            }
            let ghost before = out@;
            if j - i == 1 && b[i] == 46u8 {
                if i == 0 {
                    out.push(Component::CurDir);
                }
            } else if j - i == 2 && b[i] == 46u8 && b[i + 1] == 46u8 {
                out.push(Component::ParentDir);
            } else {
                out.push(Component::Normal { start: i, end: j });
            }
            assert(out@ == before + segment_component(p, i as int, j as int));
            assert(components_from(p, i as int) == segment_component(p, i as int, j as int)
                + components_from(p, j as int));
            assert(out@ + components_from(p, j as int) == before + components_from(p, i as int));
            i = j;
        }
    }
    out
}

/// The walk over `comps` from index `i` on, `depth` directories below the
/// root: `.` and the root are no moves, `..` goes back up unless already
/// at the root (where the walk is denied and stops), a name goes down.
pub open spec fn walk_from(comps: Seq<Component>, i: int, depth: nat) -> Seq<Step>
    decreases comps.len() - i,
{
    if i < 0 || i >= comps.len() {
        seq![]
    } else {
        match comps[i] {
            Component::RootDir | Component::CurDir => walk_from(comps, i + 1, depth),
            Component::ParentDir => if depth == 0 {
                seq![Step::Denied]
            } else {
                seq![Step::Ascend] + walk_from(comps, i + 1, (depth - 1) as nat)
            },
            Component::Normal { start, end } => seq![Step::Descend { start, end }] + walk_from(
                comps,
                i + 1,
                depth + 1,
            ),
        }
    }
}

/// The components that lead to the parent of the last one.
pub open spec fn parent_components(comps: Seq<Component>) -> Seq<Component> {
    if comps.len() == 0 {
        comps
    } else {
        comps.drop_last()
    }
}

/// The name the path ends in, if its last component is a name.
pub open spec fn final_name(comps: Seq<Component>) -> Option<(usize, usize)> {
    if comps.len() > 0 && comps.last() is Normal {
        Some((comps.last()->start, comps.last()->end))
    } else {
        None
    }
}

/// How a path is resolved: the walk from the root to its parent directory,
/// and the byte range of the name it ends in, if any.
#[derive(Debug)]
pub struct Resolution {
    pub steps: Vec<Step>,
    pub target: Option<(usize, usize)>,
}

/// The walk over `comps[..stop]` from the root.
fn walk(comps: &Vec<Component>, stop: usize) -> (r: Vec<Step>)
    requires
        stop <= comps@.len(),
    ensures
        r@ == walk_from(comps@.subrange(0, stop as int), 0, 0),
{
    let ghost pc = comps@.subrange(0, stop as int);
    let mut out: Vec<Step> = Vec::new();
    let mut depth: usize = 0;
    let mut i: usize = 0;
    while i < stop
        invariant
            stop <= comps@.len(),
            pc == comps@.subrange(0, stop as int),
            i <= stop,
            depth <= i,
            out@ + walk_from(pc, i as int, depth as nat) == walk_from(pc, 0, 0),
        decreases stop - i,
    {
        let ghost before = out@;
        let ghost d0 = depth as nat;
        assert(pc[i as int] == comps@[i as int]);
        match comps[i] {
            Component::RootDir | Component::CurDir => {},
            Component::ParentDir => {
                if depth == 0 {
                    out.push(Step::Denied);
                    assert(out@ == before + walk_from(pc, i as int, depth as nat));
                    assert(walk_from(pc, stop as int, 0) =~= Seq::<Step>::empty());
                    assert(out@ + walk_from(pc, stop as int, 0) =~= out@);
                    return out;
                }
                out.push(Step::Ascend);
                depth = depth - 1;
            },
            Component::Normal { start, end } => {
                out.push(Step::Descend { start, end });
                depth = depth + 1;
            },
        }
        assert(before + walk_from(pc, i as int, d0) =~= out@ + walk_from(pc, i + 1, depth as nat));
        i = i + 1;
    }
    assert(walk_from(pc, i as int, depth as nat) =~= Seq::<Step>::empty());
    assert(out@ + walk_from(pc, i as int, depth as nat) =~= out@);
    out
}

/// Resolves `path`: the walk from the root to the directory that holds its
/// last component, and the name that component gives, if any. An empty
/// path, or one without a final name, stands for that directory itself.
pub fn resolve(path: &str) -> (r: Resolution)
    ensures
        r.steps@ == walk_from(parent_components(path_components(path.spec_bytes())), 0, 0),
        r.target == final_name(path_components(path.spec_bytes())),
        forall|k: int|
            0 <= k < r.steps@.len() && (#[trigger] r.steps@[k]) is Descend ==> is_name_range(
                path.spec_bytes(),
                r.steps@[k]->start as int,
                r.steps@[k]->end as int,
            ),
        r.target matches Some(t) ==> is_name_range(path.spec_bytes(), t.0 as int, t.1 as int),
{
    let comps = components(path);
    let len = path.as_bytes().len();
    proof {
        let p = path.spec_bytes();
        assert(p.len() == len);
        lemma_components_are_names(p, 0);
        let c = path_components(p);
        if p.len() > 0 && p[0] == 47u8 {
            let tail = components_from(p, 0);
            assert forall|j: int| 0 <= j < c.len() && (#[trigger] c[j]) is Normal implies is_name_range(
                p,
                c[j]->start as int,
                c[j]->end as int,
            ) by {
                assert(c[j] == tail[j - 1]);
            }
        }
        let pc = parent_components(c);
        assert forall|j: int| 0 <= j < pc.len() && (#[trigger] pc[j]) is Normal implies is_name_range(
            p,
            pc[j]->start as int,
            pc[j]->end as int,
        ) by {
            assert(pc[j] == c[j]);
        }
        lemma_walk_names(p, pc, 0, 0);
        if c.len() > 0 {
            assert(c.last() == c[c.len() - 1]);
        }
    }
    let n = comps.len();
    let stop: usize = if n == 0 {
        0
    } else {
        n - 1
    };
    let steps = walk(&comps, stop);
    proof {
        if n > 0 {
            assert(comps@.subrange(0, stop as int) =~= comps@.drop_last());
        } else {
            assert(comps@.subrange(0, 0) =~= comps@);
        }
    }
    let target = if n > 0 {
        match comps[n - 1] {
            Component::Normal { start, end } => Some((start, end)),
            _ => None,
        }
    } else {
        None
    };
    Resolution { steps, target }
}

impl Resolution {
    /// The name of the file to open. A path without a final name names no
    /// file: it stands for a directory, which already exists.
    pub fn file_target(&self) -> (r: Result<(usize, usize), FsError>)
        ensures
            match self.target {
                Some(t) => r == Ok::<(usize, usize), FsError>(t),
                None => r matches Err(FsError::AlreadyExists),
            },
    {
        match self.target {
            Some(t) => Ok(t),
            None => Err(FsError::AlreadyExists),
        }
    }

    /// The name of the entry to remove. A path without a final name names
    /// no entry of its parent.
    pub fn entry_target(&self) -> (r: Result<(usize, usize), FsError>)
        ensures
            match self.target {
                Some(t) => r == Ok::<(usize, usize), FsError>(t),
                None => r matches Err(FsError::NotFound),
            },
    {
        match self.target {
            Some(t) => Ok(t),
            None => Err(FsError::NotFound),
        }
    }
}

} // verus!
