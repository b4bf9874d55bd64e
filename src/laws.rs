use crate::element::{
    document_segment, lemma_level_lines_push, level_lines, meta_segment, packages_segment, render, Element,
};
use crate::level::Level;
use crate::text::{join, nl};
use crate::ty::Metadata;
use vstd::prelude::*;

verus! {

/// Three lines joined by a separator.
pub proof fn lemma_join3(a: Seq<char>, b: Seq<char>, c: Seq<char>, sep: Seq<char>)
    ensures
        join(seq![a, b, c], sep) == a + sep + b + sep + c,
{
    let s3 = seq![a, b, c];
    assert(s3.drop_last() =~= seq![a, b]);
    assert(seq![a, b].drop_last() =~= seq![a]);
    assert(join(seq![a], sep) == a);
    assert(join(seq![a, b], sep) == a + sep + b);
    assert(join(s3, sep) == join(seq![a, b], sep) + sep + c);
    assert(a + sep + b + sep + c =~= (a + sep + b) + sep + c);
}

/// `s` with the elements at `i` and `i + 1` exchanged.
pub open spec fn swap_adjacent(s: Seq<Element>, i: int) -> Seq<Element> {
    s.update(i, s[i + 1]).update(i + 1, s[i])
}

/// Exchanging two neighbours of different levels leaves the lines of every level as they were.
pub proof fn lemma_swap_keeps_level_lines(s: Seq<Element>, i: int, l: Level)
    requires
        0 <= i,
        i + 1 < s.len(),
        s[i].level != s[i + 1].level,
    ensures
        level_lines(swap_adjacent(s, i), l) == level_lines(s, l),
    decreases s.len(),
{
    let t = swap_adjacent(s, i);
    if i + 2 == s.len() {
        let u = s.drop_last().drop_last();
        let a = s[i];
        let b = s[i + 1];
        assert(s =~= u.push(a).push(b));
        assert(t =~= u.push(b).push(a));
        lemma_level_lines_push(u, a, l);
        lemma_level_lines_push(u.push(a), b, l);
        lemma_level_lines_push(u, b, l);
        lemma_level_lines_push(u.push(b), a, l);
    } else {
        assert(t.drop_last() =~= swap_adjacent(s.drop_last(), i));
        lemma_swap_keeps_level_lines(s.drop_last(), i, l);
    }
}

/// Placement does not depend on the relative order of elements of different levels:
/// exchanging two neighbours of different levels renders the same document.
pub proof fn lemma_order_across_levels_irrelevant(m: Metadata, s: Seq<Element>, i: int)
    requires
        0 <= i,
        i + 1 < s.len(),
        s[i].level != s[i + 1].level,
    ensures
        render(m, swap_adjacent(s, i)) == render(m, s),
{
    lemma_swap_keeps_level_lines(s, i, Level::Meta);
    lemma_swap_keeps_level_lines(s, i, Level::Packages);
    lemma_swap_keeps_level_lines(s, i, Level::Document);
}

/// A package element and a document element render the same document in either order;
/// the package line forms the packages part and the other line is the only element line
/// of the body.
pub proof fn lemma_package_and_body_in_either_order(m: Metadata, p: Element, x: Element)
    requires
        p.level == Level::Packages,
        x.level == Level::Document,
    ensures
        render(m, seq![p, x]) == render(m, seq![x, p]),
        packages_segment(seq![p, x]) == p.latex@,
        level_lines(seq![p, x], Level::Document) == seq![x.latex@],
        level_lines(seq![p, x], Level::Meta) == Seq::<Seq<char>>::empty(),
{
    lemma_order_across_levels_irrelevant(m, seq![p, x], 0);
    assert(swap_adjacent(seq![p, x], 0) =~= seq![x, p]);
    let e = Seq::<Element>::empty();
    assert(seq![p, x] =~= e.push(p).push(x));
    assert(level_lines(e, Level::Packages) =~= Seq::<Seq<char>>::empty());
    assert(level_lines(e, Level::Document) =~= Seq::<Seq<char>>::empty());
    assert(level_lines(e, Level::Meta) =~= Seq::<Seq<char>>::empty());
    lemma_level_lines_push(e, p, Level::Packages);
    lemma_level_lines_push(e.push(p), x, Level::Packages);
    lemma_level_lines_push(e, p, Level::Document);
    lemma_level_lines_push(e.push(p), x, Level::Document);
    lemma_level_lines_push(e, p, Level::Meta);
    lemma_level_lines_push(e.push(p), x, Level::Meta);
    assert(level_lines(seq![p, x], Level::Packages) =~= seq![p.latex@]);
    assert(level_lines(seq![p, x], Level::Document) =~= seq![x.latex@]);
}

/// The lines of one level do not depend on the elements of other levels.
pub proof fn lemma_level_lines_filter(s: Seq<Element>, l: Level)
    ensures
        level_lines(s.filter(|e: Element| e.level == l), l) == level_lines(s, l),
    decreases s.len(),
{
    reveal_with_fuel(Seq::filter, 1);
    if s.len() > 0 {
        lemma_level_lines_filter(s.drop_last(), l);
        let f = s.drop_last().filter(|e: Element| e.level == l);
        if s.last().level == l {
            assert(f.push(s.last()).drop_last() =~= f);
        }
    }
}

/// The packages part of the whole document, which a split rendering returns on its own,
/// stands between the preamble and the body, and holds the lines of the `Packages`
/// elements and nothing else: it stays the same when every other element is removed.
pub proof fn lemma_packages_segment(m: Metadata, s: Seq<Element>)
    ensures
        render(m, s) == meta_segment(m, s) + nl() + packages_segment(s) + nl()
            + document_segment(m, s),
        packages_segment(s) == packages_segment(s.filter(|e: Element| e.level == Level::Packages)),
{
    lemma_join3(meta_segment(m, s), packages_segment(s), document_segment(m, s), nl());
    lemma_level_lines_filter(s, Level::Packages);
}

} // verus!
