//! The direction flipper: rewrites an interface description from the
//! provider's viewpoint to the consumer's, line by line.
//!
//! A line is classified by its first whitespace-delimited token: lines led by
//! `import` are dropped, lines led by `export` keep everything but that token,
//! which becomes `import`, and every other line passes through verbatim.
use vstd::prelude::*;

verus! {

/// True exactly when `c` is one of the ASCII whitespace characters that
/// delimit tokens in a description line.
pub open spec fn is_space(c: char) -> bool {
    c == ' ' || c == '\t' || c == '\r' || c == '\n' || c == '\u{c}'
}

/// Executable whitespace test, equal to the spec-level one.
pub fn is_space_char(c: char) -> (r: bool)
    ensures
        r == is_space(c),
{
    c == ' ' || c == '\t' || c == '\r' || c == '\n' || c == '\u{c}'
}

/// The keyword that marks a dependency line.
pub open spec fn import_kw() -> Seq<char> {
    seq!['i', 'm', 'p', 'o', 'r', 't']
}

/// The keyword that marks a provided-capability line.
pub open spec fn export_kw() -> Seq<char> {
    seq!['e', 'x', 'p', 'o', 'r', 't']
}

/// The line's leading token is exactly `kw`: some run of whitespace, then the
/// characters of `kw`, then either the end of the line or more whitespace.
pub open spec fn has_leading_token(l: Seq<char>, kw: Seq<char>) -> bool {
    exists|k: int|
        0 <= k && k + kw.len() <= l.len() && (forall|j: int| 0 <= j < k ==> is_space(#[trigger] l[j]))
            && #[trigger] l.subrange(k, k + kw.len()) == kw && (k + kw.len() == l.len() || is_space(
            l[k + kw.len()],
        ))
}

/// The line's leading token is `import`.
pub open spec fn is_import_line(l: Seq<char>) -> bool {
    has_leading_token(l, import_kw())
}

/// The line's leading token is `export`.
pub open spec fn is_export_line(l: Seq<char>) -> bool {
    has_leading_token(l, export_kw())
}

/// How many whitespace characters the line starts with.
pub open spec fn ws_count(l: Seq<char>) -> nat
    decreases l.len(),
{
    if l.len() == 0 {
        0
    } else if is_space(l[0]) {
        1 + ws_count(l.drop_first())
    } else {
        0
    }
}

/// An export line with its keyword replaced by `import`: the leading
/// whitespace, then `import`, then the rest of the line verbatim.  The
/// replacement touches only the first occurrence of `export`, which is the
/// keyword itself.
pub open spec fn flip_export_line(l: Seq<char>) -> Seq<char> {
    l.subrange(0, ws_count(l) as int) + import_kw() + l.subrange(
        ws_count(l) + export_kw().len() as int,
        l.len() as int,
    )
}

/// What one kept line becomes: export lines have their keyword replaced,
/// every other line is unchanged.
pub open spec fn flip_line(l: Seq<char>) -> Seq<char> {
    if is_export_line(l) {
        flip_export_line(l)
    } else {
        l
    }
}

/// The flip of a whole description: import lines are dropped, export lines
/// have their keyword replaced, other lines pass through, in order.
pub open spec fn flip_lines_spec(ls: Seq<Seq<char>>) -> Seq<Seq<char>>
    decreases ls.len(),
{
    if ls.len() == 0 {
        Seq::empty()
    } else {
        let prev = flip_lines_spec(ls.drop_last());
        if is_import_line(ls.last()) {
            prev
        } else {
            prev.push(flip_line(ls.last()))
        }
    }
}

/// The lines of a description that the flip keeps, still in their original
/// form: every line not led by `import`.
pub open spec fn kept_lines(ls: Seq<Seq<char>>) -> Seq<Seq<char>>
    decreases ls.len(),
{
    if ls.len() == 0 {
        Seq::empty()
    } else {
        let prev = kept_lines(ls.drop_last());
        if is_import_line(ls.last()) {
            prev
        } else {
            prev.push(ls.last())
        }
    }
}

/// How many lines of the description are led by `import`.
pub open spec fn import_count(ls: Seq<Seq<char>>) -> nat
    decreases ls.len(),
{
    if ls.len() == 0 {
        0
    } else {
        import_count(ls.drop_last()) + if is_import_line(ls.last()) {
            1nat
        } else {
            0nat
        }
    }
}

/// The first `ws_count(l)` characters of a line are whitespace, and the next
/// one, if any, is not.
proof fn lemma_ws_count(l: Seq<char>)
    ensures
        ws_count(l) <= l.len(),
        forall|j: int| 0 <= j < ws_count(l) ==> is_space(#[trigger] l[j]),
        ws_count(l) < l.len() ==> !is_space(l[ws_count(l) as int]),
    decreases l.len(),
{
    if l.len() != 0 && is_space(l[0]) {
        lemma_ws_count(l.drop_first());
        assert forall|j: int| 0 <= j < ws_count(l) implies is_space(#[trigger] l[j]) by {
            if j > 0 {
                assert(l.drop_first()[j - 1] == l[j]);
            }
        }
        if ws_count(l) < l.len() {
            assert(l.drop_first()[ws_count(l) - 1] == l[ws_count(l) as int]);
        }
    }
}

/// Only one position can both follow a run of whitespace and hold a
/// non-whitespace character (or the line end).
proof fn lemma_ws_boundary_unique(l: Seq<char>, k1: int, k2: int)
    requires
        0 <= k1 <= l.len(),
        0 <= k2 <= l.len(),
        forall|j: int| 0 <= j < k1 ==> is_space(#[trigger] l[j]),
        forall|j: int| 0 <= j < k2 ==> is_space(#[trigger] l[j]),
        k1 < l.len() ==> !is_space(l[k1]),
        k2 < l.len() ==> !is_space(l[k2]),
    ensures
        k1 == k2,
{
    if k1 < k2 {
        assert(is_space(l[k1]));
    }
    if k2 < k1 {
        assert(is_space(l[k2]));
    }
}

/// If the line's leading token is `kw`, then `kw` sits exactly at the end of
/// the leading whitespace run, wherever that run was found to end.
proof fn lemma_token_at_boundary(l: Seq<char>, kw: Seq<char>, k: int)
    requires
        kw.len() > 0,
        !is_space(kw[0]),
        0 <= k <= l.len(),
        forall|j: int| 0 <= j < k ==> is_space(#[trigger] l[j]),
        k < l.len() ==> !is_space(l[k]),
        has_leading_token(l, kw),
    ensures
        k + kw.len() <= l.len(),
        l.subrange(k, k + kw.len()) == kw,
        k + kw.len() == l.len() || is_space(l[k + kw.len()]),
{
    let w = choose|w: int|
        0 <= w && w + kw.len() <= l.len() && (forall|j: int|
            0 <= j < w ==> is_space(#[trigger] l[j])) && #[trigger] l.subrange(w, w + kw.len())
            == kw && (w + kw.len() == l.len() || is_space(l[w + kw.len()]));
    assert(l.subrange(w, w + kw.len())[0] == l[w]);
    assert(!is_space(l[w]));
    lemma_ws_boundary_unique(l, k, w);
}

/// `ws_count` marks where a leading token must sit.
proof fn lemma_token_at_ws_count(l: Seq<char>, kw: Seq<char>)
    requires
        kw.len() > 0,
        !is_space(kw[0]),
        has_leading_token(l, kw),
    ensures
        ws_count(l) + kw.len() <= l.len(),
        l.subrange(ws_count(l) as int, ws_count(l) + kw.len() as int) == kw,
        ws_count(l) + kw.len() == l.len() || is_space(l[ws_count(l) + kw.len() as int]),
{
    lemma_ws_count(l);
    lemma_token_at_boundary(l, kw, ws_count(l) as int);
}

/// Flipping an export line yields an import line, and in particular no longer
/// an export line; the line keeps its length.
pub proof fn lemma_flip_export_line_is_import(l: Seq<char>)
    requires
        is_export_line(l),
    ensures
        is_import_line(flip_export_line(l)),
        !is_export_line(flip_export_line(l)),
        flip_export_line(l).len() == l.len(),
{
    let k = ws_count(l) as int;
    lemma_ws_count(l);
    lemma_token_at_ws_count(l, export_kw());
    let f = flip_export_line(l);
    assert(f.len() == l.len());
    assert(forall|j: int| 0 <= j < k ==> f[j] == l.subrange(0, k)[j]);
    assert(f.subrange(k, k + 6) =~= import_kw());
    assert(k + 6 == f.len() || f[k + 6] == l.subrange(k + 6, l.len() as int)[0]);
    assert(0 <= k && k + import_kw().len() <= f.len() && (forall|j: int|
        0 <= j < k ==> is_space(#[trigger] f[j])) && f.subrange(k, k + import_kw().len())
        == import_kw() && (k + import_kw().len() == f.len() || is_space(f[k + import_kw().len()])));
    assert(is_import_line(f));
    if is_export_line(f) {
        assert(!is_space(f[k]));
        lemma_token_at_boundary(f, export_kw(), k);
        assert(f.subrange(k, k + 6)[0] == 'e');
        assert(f.subrange(k, k + 6)[0] == 'i');
    }
}

/// Flip correctness: the flipped description consists exactly of the input's
/// lines that are not led by `import`, in their original order; among those,
/// each line led by `export` appears with that keyword replaced by `import`
/// and is otherwise identical, and every other line appears verbatim.
pub proof fn lemma_flip_correct(ls: Seq<Seq<char>>)
    ensures
        flip_lines_spec(ls).len() == kept_lines(ls).len(),
        forall|j: int|
            0 <= j < kept_lines(ls).len() ==> !is_import_line(#[trigger] kept_lines(ls)[j]),
        forall|j: int|
            0 <= j < kept_lines(ls).len() ==> #[trigger] flip_lines_spec(ls)[j] == flip_line(
                kept_lines(ls)[j],
            ),
    decreases ls.len(),
{
    if ls.len() > 0 {
        lemma_flip_correct(ls.drop_last());
    }
}

/// No line of a flipped description is led by `export`: the exports were
/// rewritten to imports and nothing else gained the keyword.
pub proof fn lemma_flip_no_export_remains(ls: Seq<Seq<char>>)
    ensures
        forall|j: int|
            0 <= j < flip_lines_spec(ls).len() ==> !is_export_line(
                #[trigger] flip_lines_spec(ls)[j],
            ),
    decreases ls.len(),
{
    if ls.len() > 0 {
        lemma_flip_no_export_remains(ls.drop_last());
        if !is_import_line(ls.last()) {
            if is_export_line(ls.last()) {
                lemma_flip_export_line_is_import(ls.last());
            }
            let prev = flip_lines_spec(ls.drop_last());
            assert forall|j: int| 0 <= j < flip_lines_spec(ls).len() implies !is_export_line(
                #[trigger] flip_lines_spec(ls)[j],
            ) by {
                if j < prev.len() {
                    assert(flip_lines_spec(ls)[j] == prev[j]);
                } else {
                    assert(flip_lines_spec(ls)[j] == flip_line(ls.last()));
                }
            }
        }
    }
}

/// Line-count law: flipping removes exactly the lines led by `import`.
pub proof fn lemma_flip_line_count(ls: Seq<Seq<char>>)
    ensures
        flip_lines_spec(ls).len() + import_count(ls) == ls.len(),
    decreases ls.len(),
{
    if ls.len() > 0 {
        lemma_flip_line_count(ls.drop_last());
    }
}

/// A description in which no line is led by `import` and none by `export`
/// flips to itself.
pub proof fn lemma_flip_noop(ls: Seq<Seq<char>>)
    requires
        forall|j: int| 0 <= j < ls.len() ==> !is_import_line(#[trigger] ls[j]),
        forall|j: int| 0 <= j < ls.len() ==> !is_export_line(#[trigger] ls[j]),
    ensures
        flip_lines_spec(ls) == ls,
    decreases ls.len(),
{
    if ls.len() > 0 {
        assert(forall|j: int|
            0 <= j < ls.drop_last().len() ==> #[trigger] ls.drop_last()[j] == ls[j]);
        lemma_flip_noop(ls.drop_last());
        assert(flip_lines_spec(ls) =~= ls);
    } else {
        assert(flip_lines_spec(ls) =~= ls);
    }
}

/// Once flipped, flipping again changes nothing, provided the first flip left
/// no line led by `import` — that is, the input had no export lines to turn
/// into imports.  (An input with an export line is flipped to an import line,
/// which a second flip would drop.)
pub proof fn lemma_flip_idempotent_after_first(ls: Seq<Seq<char>>)
    requires
        forall|j: int|
            0 <= j < flip_lines_spec(ls).len() ==> !is_import_line(
                #[trigger] flip_lines_spec(ls)[j],
            ),
    ensures
        flip_lines_spec(flip_lines_spec(ls)) == flip_lines_spec(ls),
{
    lemma_flip_no_export_remains(ls);
    lemma_flip_noop(flip_lines_spec(ls));
}

/// A line's classification by its leading token.
#[derive(Clone, Copy, PartialEq, Eq, Structural, Debug)]
pub enum Direction {
    Import,
    Export,
    Other,
}

/// Scan the leading whitespace run of `s`, returning its length.
fn leading_ws(s: &str) -> (k: usize)
    ensures
        k == ws_count(s@),
{
    let n: usize = s.unicode_len();
    let mut k: usize = 0;
    while k < n && is_space_char(s.get_char(k))
        invariant
            0 <= k <= n,
            n == s@.len(),
            forall|j: int| 0 <= j < k ==> is_space(#[trigger] s@[j]),
        decreases n - k,
    {
        k = k + 1;
    }
    proof {
        lemma_ws_count(s@);
        lemma_ws_boundary_unique(s@, k as int, ws_count(s@) as int);
    }
    k
}

/// Classify a line by its first whitespace-delimited token.
pub fn classify_line(s: &str) -> (d: Direction)
    ensures
        (d is Import) == is_import_line(s@),
        (d is Export) == is_export_line(s@),
{
    let n: usize = s.unicode_len();
    let k: usize = leading_ws(s);
    proof {
        lemma_ws_count(s@);
    }
    if n - k < 6 {
        proof {
            if is_import_line(s@) {
                lemma_token_at_ws_count(s@, import_kw());
            }
            if is_export_line(s@) {
                lemma_token_at_ws_count(s@, export_kw());
            }
        }
        return Direction::Other;
    }
    let bounded: bool = k + 6 == n || is_space_char(s.get_char(k + 6));
    let c0 = s.get_char(k);
    let c1 = s.get_char(k + 1);
    let c2 = s.get_char(k + 2);
    let c3 = s.get_char(k + 3);
    let c4 = s.get_char(k + 4);
    let c5 = s.get_char(k + 5);
    let is_exp: bool = bounded && c0 == 'e' && c1 == 'x' && c2 == 'p' && c3 == 'o' && c4 == 'r'
        && c5 == 't';
    let is_imp: bool = bounded && c0 == 'i' && c1 == 'm' && c2 == 'p' && c3 == 'o' && c4 == 'r'
        && c5 == 't';
    proof {
        if is_exp {
            assert(s@.subrange(k as int, k + 6) =~= export_kw());
            assert(is_export_line(s@));
        } else if is_export_line(s@) {
            lemma_token_at_ws_count(s@, export_kw());
            assert(s@.subrange(k as int, k + 6) == export_kw());
            assert(forall|i: int|
                0 <= i < 6 ==> #[trigger] export_kw()[i] == s@.subrange(k as int, k + 6)[i]);
            assert(false);
        }
        if is_imp {
            assert(s@.subrange(k as int, k + 6) =~= import_kw());
            assert(is_import_line(s@));
        } else if is_import_line(s@) {
            lemma_token_at_ws_count(s@, import_kw());
            assert(s@.subrange(k as int, k + 6) == import_kw());
            assert(forall|i: int|
                0 <= i < 6 ==> #[trigger] import_kw()[i] == s@.subrange(k as int, k + 6)[i]);
            assert(false);
        }
    }
    if is_exp {
        Direction::Export
    } else if is_imp {
        Direction::Import
    } else {
        Direction::Other
    }
}

/// Flip one line that the flip keeps: an export line loses its keyword to
/// `import`, any other line comes back unchanged.
pub fn flip_line_exec(s: &str) -> (r: String)
    ensures
        r@ == flip_line(s@),
{
    let d = classify_line(s);
    match d {
        Direction::Export => {
            proof {
                lemma_token_at_ws_count(s@, export_kw());
            }
            let n: usize = s.unicode_len();
            let k: usize = leading_ws(s);
            let mut out = String::from_str(s.substring_char(0, k));
            out.append("import");
            out.append(s.substring_char(k + 6, n));
            proof {
                reveal_strlit("import");
                assert("import"@ =~= import_kw());
                assert(out@ =~= flip_export_line(s@));
            }
            out
        },
        _ => String::from_str(s),
    }
}

/// Flip a whole description, given as its sequence of lines: drop the import
/// lines, rewrite the export lines, keep the rest, in order.
pub fn flip_lines(lines: &Vec<String>) -> (r: Vec<String>)
    ensures
        r.deep_view() == flip_lines_spec(lines.deep_view()),
{
    let mut out: Vec<String> = Vec::new();
    let n: usize = lines.len();
    let ghost all = lines.deep_view();
    let mut i: usize = 0;
    while i < n
        invariant
            0 <= i <= n,
            n == lines@.len(),
            all == lines.deep_view(),
            all.len() == n,
            out.deep_view() == flip_lines_spec(all.take(i as int)),
        decreases n - i,
    {
        let ghost prefix = all.take(i as int);
        let ghost prev = out.deep_view();
        proof {
            assert(all.take(i + 1).drop_last() =~= prefix);
            assert(all.take(i + 1).last() == all[i as int]);
            assert(all[i as int] == lines@[i as int]@);
        }
        let d = classify_line(lines[i].as_str());
        match d {
            Direction::Import => {},
            _ => {
                let f = flip_line_exec(lines[i].as_str());
                out.push(f);
                proof {
                    assert(out.deep_view() =~= prev.push(flip_line(all[i as int])));
                }
            },
        }
        i = i + 1;
    }
    proof {
        assert(all.take(n as int) =~= all);
    }
    out
}

/// The lines of a description rejoined into one text, with a single newline
/// between consecutive lines and none at the end.
pub open spec fn joined_lines(ls: Seq<Seq<char>>) -> Seq<char>
    decreases ls.len(),
{
    if ls.len() == 0 {
        Seq::empty()
    } else if ls.len() == 1 {
        ls[0]
    } else {
        joined_lines(ls.drop_last()) + seq!['\n'] + ls.last()
    }
}

/// Rejoin a sequence of lines into the text that replaces the description.
pub fn join_lines(lines: &Vec<String>) -> (r: String)
    ensures
        r@ == joined_lines(lines.deep_view()),
{
    let mut out = String::new();
    let n: usize = lines.len();
    let ghost all = lines.deep_view();
    let mut i: usize = 0;
    while i < n
        invariant
            0 <= i <= n,
            n == lines@.len(),
            all == lines.deep_view(),
            all.len() == n,
            out@ == joined_lines(all.take(i as int)),
        decreases n - i,
    {
        proof {
            assert(all.take(i + 1).drop_last() =~= all.take(i as int));
            assert(all.take(i + 1).last() == all[i as int]);
            assert(all[i as int] == lines@[i as int]@);
            reveal_strlit("\n");
            assert("\n"@ =~= seq!['\n']);
        }
        if i > 0 {
            out.append("\n");
        }
        out.append(lines[i].as_str());
        proof {
            if i == 0 {
                assert(out@ =~= joined_lines(all.take(1)));
            }
        }
        i = i + 1;
    }
    proof {
        assert(all.take(n as int) =~= all);
    }
    out
}

} // verus!
