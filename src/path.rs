//! Paths as sequences of components, and where a dotfile goes.

use vstd::prelude::*;
use vstd::string::*;

verus! {

/// Pieces of `s` between `/` separators, in order, empty pieces included.
pub open spec fn pieces(s: Seq<char>) -> Seq<Seq<char>>
    decreases s.len(),
{
    if s.len() == 0 {
        seq![Seq::empty()]
    } else {
        let p = pieces(s.drop_last());
        if s.last() == '/' {
            p.push(Seq::empty())
        } else {
            p.update(p.len() - 1, p.last().push(s.last()))
        }
    }
}

/// A piece names a component unless it is empty or the current-directory mark.
pub open spec fn is_component(piece: Seq<char>) -> bool {
    piece.len() > 0 && piece != seq!['.']
}

/// The pieces that name components, in order.
pub open spec fn kept(ps: Seq<Seq<char>>) -> Seq<Seq<char>>
    decreases ps.len(),
{
    if ps.len() == 0 {
        Seq::empty()
    } else {
        let k = kept(ps.drop_last());
        if is_component(ps.last()) {
            k.push(ps.last())
        } else {
            k
        }
    }
}

pub open spec fn is_absolute(s: Seq<char>) -> bool {
    s.len() > 0 && s[0] == '/'
}

/// The component that marks an absolute path.
pub open spec fn root_mark() -> Seq<char> {
    seq!['/']
}

/// Components of a path: the root mark for an absolute path, then every
/// non-empty piece between separators other than `.`.
pub open spec fn components(s: Seq<char>) -> Seq<Seq<char>> {
    if is_absolute(s) {
        seq![root_mark()] + kept(pieces(s))
    } else {
        kept(pieces(s))
    }
}

/// A component with its first character removed when that character is a dot.
pub open spec fn strip_dot(c: Seq<char>) -> Seq<char> {
    if c.len() > 0 && c[0] == '.' {
        c.subrange(1, c.len() as int)
    } else {
        c
    }
}

/// Components left after the first `n`; none when there are not that many.
pub open spec fn after(cs: Seq<Seq<char>>, n: nat) -> Seq<Seq<char>> {
    if n <= cs.len() {
        cs.subrange(n as int, cs.len() as int)
    } else {
        Seq::empty()
    }
}

/// `base` extended by `rel`; an absolute `rel` replaces `base`.
pub open spec fn join(base: Seq<Seq<char>>, rel: Seq<Seq<char>>) -> Seq<Seq<char>> {
    if rel.len() > 0 && rel[0] == root_mark() {
        rel
    } else {
        base + rel
    }
}

/// Text of a component sequence: each component is appended after a
/// separator, unless the text so far is empty or already ends in one.
pub open spec fn render(cs: Seq<Seq<char>>) -> Seq<char>
    decreases cs.len(),
{
    if cs.len() == 0 {
        Seq::empty()
    } else {
        let r = render(cs.drop_last());
        if r.len() == 0 || r.last() == '/' {
            r + cs.last()
        } else {
            r + seq!['/'] + cs.last()
        }
    }
}

/// Components of the place a file goes: as many leading components of `full`
/// as `home` has are dropped, the rest is joined to `root`, and every
/// component loses a leading dot.
pub open spec fn dest_components(full: Seq<char>, home: Seq<char>, root: Seq<char>) -> Seq<
    Seq<char>,
> {
    join(components(root), after(components(full), components(home).len())).map_values(
        |c: Seq<char>| strip_dot(c),
    )
}

/// The text of the place a file goes.
pub open spec fn dest_path(full: Seq<char>, home: Seq<char>, root: Seq<char>) -> Seq<char> {
    render(dest_components(full, home, root))
}

/// Text of the directory that holds the place a file goes.
pub open spec fn parent_path(full: Seq<char>, home: Seq<char>, root: Seq<char>) -> Seq<char> {
    let d = dest_components(full, home, root);
    if d.len() > 0 {
        render(d.drop_last())
    } else {
        render(d)
    }
}

/// Removes one leading dot from a path segment, and nothing else.
pub fn strip_leading_dot(seg: &str) -> (r: String)
    ensures
        r@ == strip_dot(seg@),
        seg@.len() > 0 && seg@[0] == '.' ==> r@ == seg@.subrange(1, seg@.len() as int),
        !(seg@.len() > 0 && seg@[0] == '.') ==> r@ == seg@,
        seg@ == seq!['.'] ==> r@.len() == 0,
{
    let n = seg.unicode_len();
    if n > 0 && seg.get_char(0) == '.' {
        String::from_str(seg.substring_char(1, n))
    } else {
        String::from_str(seg)
    }
}

proof fn lemma_pieces_nonempty(s: Seq<char>)
    ensures
        pieces(s).len() >= 1,
    decreases s.len(),
{
    if s.len() > 0 {
        lemma_pieces_nonempty(s.drop_last());
    }
}

fn is_root_mark(c: &str) -> (r: bool)
    ensures
        r == (c@ == root_mark()),
{
    let n = c.unicode_len();
    if n == 1 && c.get_char(0) == '/' {
        assert(c@ =~= root_mark());
        true
    } else {
        false
    }
}

fn names_component(piece: &str) -> (r: bool)
    ensures
        r == is_component(piece@),
{
    let n = piece.unicode_len();
    if n == 0 {
        false
    } else if n == 1 && piece.get_char(0) == '.' {
        assert(piece@ =~= seq!['.']);
        false
    } else {
        true
    }
}

/// Splits a path into its components.
pub fn components_of(s: &str) -> (r: Vec<String>)
    ensures
        r.deep_view() == components(s@),
{
    let n = s.unicode_len();
    let mut out: Vec<String> = Vec::new();
    let ghost lead: Seq<Seq<char>> = Seq::empty();
    if n > 0 && s.get_char(0) == '/' {
        let mark = "/";
        proof {
            reveal_strlit("/");
        }
        assert(mark@ =~= root_mark());
        out.push(String::from_str(mark));
        proof {
            lead = seq![root_mark()];
        }
        assert(out.deep_view() =~= lead);
    }
    assert(out.deep_view() =~= lead + kept(Seq::empty()));
    let mut start: usize = 0;
    let mut i: usize = 0;
    let ghost mut raw: Seq<Seq<char>> = Seq::empty();
    assert(s@.subrange(0, 0) =~= Seq::<char>::empty());
    assert(pieces(s@.subrange(0, 0)) =~= raw.push(s@.subrange(0, 0)));
    while i < n
        invariant
            n == s@.len(),
            start <= i <= n,
            lead == (if is_absolute(s@) { seq![root_mark()] } else { Seq::<Seq<char>>::empty() }),
            pieces(s@.subrange(0, i as int)) == raw.push(s@.subrange(start as int, i as int)),
            out.deep_view() == lead + kept(raw),
        decreases n - i,
    {
        let c = s.get_char(i);
        let ghost t = s@.subrange(0, i + 1);
        let ghost cur = s@.subrange(start as int, i as int);
        assert(t.drop_last() =~= s@.subrange(0, i as int));
        if c == '/' {
            let piece = s.substring_char(start, i);
            proof {
                assert(raw.push(cur).drop_last() =~= raw);
                raw = raw.push(cur);
            }
            if names_component(piece) {
                let ghost before = out.deep_view();
                out.push(String::from_str(piece));
                assert(out.deep_view() =~= before.push(piece@));
            }
            start = i + 1;
            assert(s@.subrange(start as int, i + 1) =~= Seq::<char>::empty());
            assert(pieces(t) =~= raw.push(s@.subrange(start as int, i + 1)));
        } else {
            assert(s@.subrange(start as int, i + 1) =~= cur.push(c));
            assert(pieces(t) =~= raw.push(s@.subrange(start as int, i + 1)));
        }
        i = i + 1;
    }
    let piece = s.substring_char(start, n);
    let ghost cur = s@.subrange(start as int, n as int);
    assert(s@.subrange(0, n as int) =~= s@);
    assert(raw.push(cur).drop_last() =~= raw);
    if names_component(piece) {
        let ghost before = out.deep_view();
        out.push(String::from_str(piece));
        assert(out.deep_view() =~= before.push(piece@));
    }
    out
}

/// Writes a component sequence out as path text.
pub fn render_components(cs: &Vec<String>) -> (r: String)
    ensures
        r@ == render(cs.deep_view()),
{
    let mut r = String::new();
    let mut i: usize = 0;
    assert(cs.deep_view().subrange(0, 0) =~= Seq::<Seq<char>>::empty());
    while i < cs.len()
        invariant
            i <= cs.len(),
            r@ == render(cs.deep_view().subrange(0, i as int)),
        decreases cs.len() - i,
    {
        let ghost done = cs.deep_view().subrange(0, i + 1);
        assert(done.drop_last() =~= cs.deep_view().subrange(0, i as int));
        let n = r.as_str().unicode_len();
        if n == 0 || r.as_str().get_char(n - 1) == '/' {
            r.append(cs[i].as_str());
        } else {
            let sep = "/";
            proof {
                reveal_strlit("/");
            }
            assert(sep@ =~= seq!['/']);
            r.append(sep);
            r.append(cs[i].as_str());
        }
        i = i + 1;
    }
    assert(cs.deep_view().subrange(0, cs.len() as int) =~= cs.deep_view());
    r
}

/// Appends to `out` the components of `src` from index `from` on, each
/// without its leading dot.
fn push_stripped(out: &mut Vec<String>, src: &Vec<String>, from: usize)
    requires
        from <= src.len(),
    ensures
        final(out).deep_view() == old(out).deep_view() + src.deep_view().subrange(
            from as int,
            src.len() as int,
        ).map_values(|c: Seq<char>| strip_dot(c)),
{
    let mut i: usize = from;
    let ghost start = out.deep_view();
    assert(src.deep_view().subrange(from as int, from as int).map_values(
        |c: Seq<char>| strip_dot(c),
    ) =~= Seq::<Seq<char>>::empty());
    assert(start + Seq::<Seq<char>>::empty() =~= start);
    while i < src.len()
        invariant
            from <= i <= src.len(),
            out.deep_view() == start + src.deep_view().subrange(from as int, i as int).map_values(
                |c: Seq<char>| strip_dot(c),
            ),
        decreases src.len() - i,
    {
        let ghost before = out.deep_view();
        out.push(strip_leading_dot(src[i].as_str()));
        assert(out.deep_view() =~= before.push(strip_dot(src.deep_view()[i as int])));
        assert(src.deep_view().subrange(from as int, i + 1).map_values(|c: Seq<char>| strip_dot(c))
            =~= src.deep_view().subrange(from as int, i as int).map_values(
            |c: Seq<char>| strip_dot(c),
        ).push(strip_dot(src.deep_view()[i as int])));
        i = i + 1;
    }
}

/// Components of the place a dotfile at `fullpath` is linked.
pub fn dest_components_of(fullpath: &str, home: &str, dotfile_path: &str) -> (r: Vec<String>)
    ensures
        r.deep_view() == dest_components(fullpath@, home@, dotfile_path@),
{
    let home_size = components_of(home).len();
    let full = components_of(fullpath);
    let root = components_of(dotfile_path);
    let ghost rel = after(full.deep_view(), home_size as nat);
    let ghost f = |c: Seq<char>| strip_dot(c);
    let mut dest: Vec<String> = Vec::new();
    if home_size <= full.len() {
        assert(rel == full.deep_view().subrange(home_size as int, full.len() as int));
        if home_size < full.len() && is_root_mark(full[home_size].as_str()) {
            push_stripped(&mut dest, &full, home_size);
            assert(dest.deep_view() =~= join(root.deep_view(), rel).map_values(f));
        } else {
            push_stripped(&mut dest, &root, 0);
            push_stripped(&mut dest, &full, home_size);
            assert(root.deep_view().subrange(0, root.len() as int) =~= root.deep_view());
            assert(join(root.deep_view(), rel) == root.deep_view() + rel);
            assert(dest.deep_view() =~= (root.deep_view() + rel).map_values(f));
        }
    } else {
        push_stripped(&mut dest, &root, 0);
        assert(root.deep_view().subrange(0, root.len() as int) =~= root.deep_view());
        assert(rel =~= Seq::<Seq<char>>::empty());
        assert(join(root.deep_view(), rel) =~= root.deep_view());
        assert(dest.deep_view() =~= join(root.deep_view(), rel).map_values(f));
    }
    dest
}

/// Where a dotfile at `fullpath` is linked: the components of `fullpath`
/// after as many as `home` has, placed under `dotfile_path`, with one leading
/// dot removed from every component.
pub fn get_dest(fullpath: &str, home: &str, dotfile_path: &str) -> (r: String)
    ensures
        r@ == dest_path(fullpath@, home@, dotfile_path@),
{
    render_components(&dest_components_of(fullpath, home, dotfile_path))
}

/// The directory that holds the place a dotfile at `fullpath` is linked: all
/// of its components but the last.
pub fn dest_parent(fullpath: &str, home: &str, dotfile_path: &str) -> (r: String)
    ensures
        r@ == parent_path(fullpath@, home@, dotfile_path@),
{
    let mut cs = dest_components_of(fullpath, home, dotfile_path);
    if cs.len() > 0 {
        let ghost before = cs.deep_view();
        cs.pop();
        assert(cs.deep_view() =~= before.drop_last());
    }
    render_components(&cs)
}

/// Path text with a relative `path` resolved against the directory `base`;
/// an absolute `path` stands as it is.
pub open spec fn resolved(base: Seq<char>, path: Seq<char>) -> Seq<char> {
    if is_absolute(path) {
        path
    } else if base.len() == 0 || base.last() == '/' {
        base + path
    } else {
        base + seq!['/'] + path
    }
}

/// Resolves `path` against the directory `base`.
pub fn resolve(base: &str, path: &str) -> (r: String)
    ensures
        r@ == resolved(base@, path@),
{
    let p = path.unicode_len();
    if p > 0 && path.get_char(0) == '/' {
        return String::from_str(path);
    }
    let n = base.unicode_len();
    let mut r = String::from_str(base);
    if n > 0 && base.get_char(n - 1) != '/' {
        let sep = "/";
        proof {
            reveal_strlit("/");
        }
        assert(sep@ =~= seq!['/']);
        r.append(sep);
    }
    r.append(path);
    r
}

proof fn lemma_pieces_have_no_separator(s: Seq<char>)
    ensures
        forall|j: int, k: int|
            0 <= j < pieces(s).len() && 0 <= k < pieces(s)[j].len() ==> pieces(s)[j][k] != '/',
    decreases s.len(),
{
    if s.len() > 0 {
        lemma_pieces_have_no_separator(s.drop_last());
        lemma_pieces_nonempty(s.drop_last());
        let p = pieces(s.drop_last());
        if s.last() != '/' {
            let q = p.last().push(s.last());
            assert forall|k: int| 0 <= k < q.len() implies q[k] != '/' by {
                if k < p.last().len() {
                    assert(q[k] == p[p.len() - 1][k]);
                }
            }
        }
    }
}

proof fn lemma_kept_have_no_separator(ps: Seq<Seq<char>>)
    requires
        forall|j: int, k: int| 0 <= j < ps.len() && 0 <= k < ps[j].len() ==> ps[j][k] != '/',
    ensures
        forall|j: int| 0 <= j < kept(ps).len() ==> kept(ps)[j] != root_mark(),
    decreases ps.len(),
{
    if ps.len() > 0 {
        lemma_kept_have_no_separator(ps.drop_last());
        let k = kept(ps.drop_last());
        if is_component(ps.last()) {
            assert forall|j: int| 0 <= j < kept(ps).len() implies kept(ps)[j] != root_mark() by {
                if j == k.len() {
                    assert(ps.last()[0] != '/');
                }
            }
        }
    }
}

proof fn lemma_render_extends(a: Seq<Seq<char>>, b: Seq<Seq<char>>)
    ensures
        render(a).len() <= render(a + b).len(),
        render(a + b).subrange(0, render(a).len() as int) == render(a),
    decreases b.len(),
{
    if b.len() == 0 {
        assert(a + b =~= a);
        assert(render(a).subrange(0, render(a).len() as int) =~= render(a));
    } else {
        lemma_render_extends(a, b.drop_last());
        assert((a + b).drop_last() =~= a + b.drop_last());
        let r = render(a + b.drop_last());
        assert(render(a + b).subrange(0, r.len() as int) =~= r);
        assert(render(a + b).subrange(0, render(a).len() as int) =~= r.subrange(
            0,
            render(a).len() as int,
        ));
    }
}

/// A file under the home directory is placed under the dotfile root: the
/// destination begins with the root's own components, each without its
/// leading dot, and its text begins with the text of those components.
pub proof fn lemma_dest_within_root(full: Seq<char>, home: Seq<char>, root: Seq<char>)
    requires
        is_absolute(full),
        is_absolute(home),
        components(home).len() <= components(full).len(),
        components(full).subrange(0, components(home).len() as int) == components(home),
    ensures
        ({
            let base = components(root).map_values(|c: Seq<char>| strip_dot(c));
            &&& dest_components(full, home, root).subrange(0, base.len() as int) == base
            &&& render(base).len() <= dest_path(full, home, root).len()
            &&& dest_path(full, home, root).subrange(0, render(base).len() as int) == render(base)
        }),
{
    let f = |c: Seq<char>| strip_dot(c);
    let h = components(home).len();
    let cf = components(full);
    let rel = after(cf, h);
    lemma_pieces_have_no_separator(full);
    lemma_kept_have_no_separator(pieces(full));
    assert(h >= 1);
    if rel.len() > 0 {
        assert(rel[0] == kept(pieces(full))[h - 1]);
    }
    let base = components(root).map_values(f);
    let tail = rel.map_values(f);
    assert(dest_components(full, home, root) =~= base + tail);
    assert((base + tail).subrange(0, base.len() as int) =~= base);
    lemma_render_extends(base, tail);
}

/// The destination depends on the three paths alone: computing it again for
/// the same inputs gives the same path.
pub proof fn lemma_dest_deterministic(
    full: Seq<char>,
    home: Seq<char>,
    root: Seq<char>,
    first: Seq<char>,
    second: Seq<char>,
)
    requires
        first == dest_path(full, home, root),
        second == dest_path(full, home, root),
    ensures
        first == second,
{
}

/// Every component of the destination is the matching component of the
/// joined path with one leading dot removed: a component that begins with a
/// dot loses exactly that character, any other is kept as it is.
pub proof fn lemma_dest_strips_each_component(
    full: Seq<char>,
    home: Seq<char>,
    root: Seq<char>,
    j: int,
)
    requires
        0 <= j < join(components(root), after(components(full), components(home).len())).len(),
    ensures
        ({
            let c = join(components(root), after(components(full), components(home).len()))[j];
            let d = dest_components(full, home, root)[j];
            &&& c.len() > 0 && c[0] == '.' ==> d == c.subrange(1, c.len() as int)
            &&& !(c.len() > 0 && c[0] == '.') ==> d == c
        }),
{
}

} // verus!
