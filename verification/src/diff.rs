//! What changed between two snapshots of a page.

use vstd::hash_set::StringHashSet;
use vstd::prelude::*;

use crate::text;

verus! {

/// Whether a text has a line that reads `t` once it is trimmed.
pub open spec fn has_line(text: Seq<char>, t: Seq<char>) -> bool {
    exists|i: int|
        0 <= i < text::lines(text).len() && #[trigger] text::trim(
            text::lines(text)[i],
        ) == t
}

/// Whether a line is worth telling to a reader of another text: it is not blank
/// and, indentation aside, not a line of that text.
pub open spec fn is_news(line: Seq<char>, other: Seq<char>) -> bool {
    text::trim(line).len() > 0 && !has_line(other, text::trim(line))
}

/// Those of the given lines that are news to a reader of another text, in their
/// order.
pub open spec fn news(ls: Seq<Seq<char>>, other: Seq<char>) -> Seq<Seq<char>> {
    ls.filter(|l: Seq<char>| is_news(l, other))
}

/// The lines of the text after that the text before does not have.
pub open spec fn appeared(before: Seq<char>, after: Seq<char>) -> Seq<Seq<char>> {
    news(text::lines(after), before)
}

/// The lines of the text before that the text after does not have.
pub open spec fn disappeared(before: Seq<char>, after: Seq<char>) -> Seq<Seq<char>> {
    news(text::lines(before), after)
}

/// Lines below each other, each behind a mark.
pub open spec fn marked(mark: Seq<char>, ls: Seq<Seq<char>>) -> Seq<char>
    decreases ls.len(),
{
    if ls.len() == 0 {
        Seq::empty()
    } else {
        marked(mark, ls.drop_last()) + mark + ls.last() + seq!['\n']
    }
}

/// What appeared, then what disappeared.
pub open spec fn delta(before: Seq<char>, after: Seq<char>) -> Seq<char> {
    marked("+ "@, appeared(before, after)) + marked("- "@, disappeared(before, after))
}

/// The report on two snapshots.
pub open spec fn report(before: Seq<char>, after: Seq<char>) -> Seq<char> {
    if delta(before, after).len() == 0 {
        "(no visible change)"@
    } else {
        delta(before, after)
    }
}

/// The trimmed lines of a text, as a set.
fn trimmed_lines(ls: &Vec<String>, Ghost(text): Ghost<Seq<char>>) -> (r: StringHashSet)
    requires
        text::views(ls@) == text::lines(text),
    ensures
        forall|t: Seq<char>| #[trigger] r@.contains(t) <==> has_line(text, t),
{
    let mut set = StringHashSet::new();
    let mut i: usize = 0;
    while i < ls.len()
        invariant
            i <= ls.len(),
            text::views(ls@) == text::lines(text),
            forall|t: Seq<char>| #[trigger]
                set@.contains(t) <==> exists|j: int|
                    0 <= j < i && #[trigger] text::trim(text::lines(text)[j]) == t,
        decreases ls.len() - i,
    {
        let ghost before = set@;
        set.insert(text::trimmed(ls[i].as_str()));
        proof {
            let lines = text::lines(text);
            assert(lines[i as int] == ls@[i as int]@);
            assert forall|t: Seq<char>| #[trigger] set@.contains(t) <==> exists|j: int|
                0 <= j < i + 1 && #[trigger] text::trim(lines[j]) == t by {
                if set@.contains(t) {
                    if before.contains(t) {
                        let j = choose|j: int|
                            0 <= j < i && #[trigger] text::trim(lines[j]) == t;
                        assert(0 <= j < i + 1 && text::trim(lines[j]) == t);
                    } else {
                        assert(text::trim(lines[i as int]) == t);
                    }
                }
                if exists|j: int| 0 <= j < i + 1 && #[trigger] text::trim(lines[j]) == t {
                    let j = choose|j: int|
                        0 <= j < i + 1 && #[trigger] text::trim(lines[j]) == t;
                    if j < i {
                        assert(before.contains(t));
                    }
                }
            }
        }
        i = i + 1;
    }
    set
}

/// Writes the lines that are news to a reader of another text, whose trimmed
/// lines are given.
fn push_news(
    out: &mut String,
    mark: &str,
    ls: &Vec<String>,
    known: &StringHashSet,
    Ghost(other): Ghost<Seq<char>>,
)
    requires
        forall|t: Seq<char>| #[trigger] known@.contains(t) <==> has_line(other, t),
    ensures
        final(out)@ == old(out)@ + marked(mark@, news(text::views(ls@), other)),
{
    let ghost all = text::views(ls@);
    let mut i: usize = 0;
    proof {
        reveal(Seq::filter);
        assert(out@ =~= old(out)@ + marked(mark@, news(all.take(0), other)));
    }
    while i < ls.len()
        invariant
            i <= ls.len(),
            all == text::views(ls@),
            forall|t: Seq<char>| #[trigger] known@.contains(t) <==> has_line(other, t),
            out@ == old(out)@ + marked(mark@, news(all.take(i as int), other)),
        decreases ls.len() - i,
    {
        let t = text::trimmed(ls[i].as_str());
        proof {
            reveal(Seq::filter);
            assert(all[i as int] == ls@[i as int]@);
            assert(all.take(i + 1).drop_last() =~= all.take(i as int));
            let kept = news(all.take(i as int), other);
            assert(kept.push(all[i as int]).drop_last() =~= kept);
        }
        if !t.as_str().is_empty() && !known.contains(t.as_str()) {
            let ghost before = out@;
            out.append(mark);
            out.append(ls[i].as_str());
            out.push('\n');
            assert(out@ =~= before + (mark@ + all[i as int] + seq!['\n']));
            assert(out@ =~= old(out)@ + marked(mark@, news(all.take(i + 1), other)));
        }
        i = i + 1;
    }
    assert(all.take(i as int) =~= all);
}

/// Order-insensitive line diff: what appeared and what disappeared between two
/// snapshots. Lines are compared without the blanks around them, and blank lines
/// are left out.
pub fn snapshot_diff(before: &str, after: &str) -> (r: String)
    ensures
        r@ == report(before@, after@),
{
    let old_lines = text::lines_of(before);
    let new_lines = text::lines_of(after);
    let old_set = trimmed_lines(&old_lines, Ghost(before@));
    let new_set = trimmed_lines(&new_lines, Ghost(after@));
    let mut out = String::new();
    push_news(&mut out, "+ ", &new_lines, &old_set, Ghost(before@));
    push_news(&mut out, "- ", &old_lines, &new_set, Ghost(after@));
    assert(out@ =~= delta(before@, after@));
    if out.as_str().is_empty() {
        "(no visible change)".to_owned()
    } else {
        out
    }
}

/// Whether two texts have the same lines, blanks and order aside.
pub open spec fn same_lines(one: Seq<char>, other: Seq<char>) -> bool {
    forall|t: Seq<char>| t.len() > 0 ==> (#[trigger] has_line(one, t) <==> has_line(other, t))
}

proof fn lemma_marked(mark: Seq<char>, ls: Seq<Seq<char>>)
    ensures
        marked(mark, ls).len() == 0 <==> ls.len() == 0,
        ls.len() > 0 ==> marked(mark, ls).last() == '\n',
{
}

proof fn lemma_news(ls: Seq<Seq<char>>, other: Seq<char>, line: Seq<char>)
    ensures
        news(ls, other).contains(line) <==> ls.contains(line) && is_news(line, other),
    decreases ls.len(),
{
    reveal(Seq::filter);
    if ls.len() > 0 {
        let rest = ls.drop_last();
        lemma_news(rest, other, line);
        let kept = news(rest, other);
        assert(ls =~= rest.push(ls.last()));
        if ls.contains(line) {
            let i = choose|i: int| 0 <= i < ls.len() && ls[i] == line;
            if i < rest.len() {
                assert(rest[i] == line);
            }
        }
        if rest.contains(line) {
            let i = choose|i: int| 0 <= i < rest.len() && rest[i] == line;
            assert(ls[i] == line);
        }
        if is_news(ls.last(), other) {
            assert(news(ls, other) == kept.push(ls.last()));
            if kept.contains(line) {
                let i = choose|i: int| 0 <= i < kept.len() && kept[i] == line;
                assert(news(ls, other)[i] == line);
            }
            assert(news(ls, other)[kept.len() as int] == ls.last());
            assert(ls[ls.len() - 1] == ls.last());
            if news(ls, other).contains(line) {
                let i = choose|i: int|
                    0 <= i < news(ls, other).len() && news(ls, other)[i] == line;
                if i < kept.len() {
                    assert(kept[i] == line);
                }
            }
        }
    }
}

/// A line is reported as new exactly if it is a line of the text after, is not
/// blank, and is, blanks around it aside, no line of the text before.
pub proof fn appeared_exactly(before: Seq<char>, after: Seq<char>, line: Seq<char>)
    ensures
        appeared(before, after).contains(line) <==> text::lines(after).contains(line)
            && text::trim(line).len() > 0 && !has_line(before, text::trim(line)),
{
    lemma_news(text::lines(after), before, line);
}

/// A line is reported as gone exactly if it is a line of the text before, is not
/// blank, and is, blanks around it aside, no line of the text after.
pub proof fn disappeared_exactly(before: Seq<char>, after: Seq<char>, line: Seq<char>)
    ensures
        disappeared(before, after).contains(line) <==> text::lines(before).contains(line)
            && text::trim(line).len() > 0 && !has_line(after, text::trim(line)),
{
    lemma_news(text::lines(before), after, line);
}

/// The report says that nothing changed exactly if the two texts have the same
/// lines, in whatever order, with whatever blanks around them.
pub proof fn unchanged_exactly(before: Seq<char>, after: Seq<char>)
    ensures
        report(before, after) == "(no visible change)"@ <==> same_lines(before, after),
{
    reveal_strlit("(no visible change)");
    let plus = appeared(before, after);
    let minus = disappeared(before, after);
    lemma_marked("+ "@, plus);
    lemma_marked("- "@, minus);
    if delta(before, after).len() > 0 {
        assert(delta(before, after).last() == '\n');
    }
    if plus.len() == 0 && minus.len() == 0 {
        assert forall|t: Seq<char>| t.len() > 0 implies (#[trigger] has_line(before, t)
            <==> has_line(after, t)) by {
            if has_line(before, t) && !has_line(after, t) {
                let i = choose|i: int|
                    0 <= i < text::lines(before).len() && #[trigger] text::trim(
                        text::lines(before)[i],
                    ) == t;
                disappeared_exactly(before, after, text::lines(before)[i]);
                assert(minus.contains(text::lines(before)[i]));
            }
            if has_line(after, t) && !has_line(before, t) {
                let i = choose|i: int|
                    0 <= i < text::lines(after).len() && #[trigger] text::trim(
                        text::lines(after)[i],
                    ) == t;
                appeared_exactly(before, after, text::lines(after)[i]);
                assert(plus.contains(text::lines(after)[i]));
            }
        }
    }
    if same_lines(before, after) {
        if plus.len() > 0 {
            appeared_exactly(before, after, plus[0]);
            assert(plus.contains(plus[0]));
            let i = choose|i: int| 0 <= i < text::lines(after).len() && text::lines(after)[i] == plus[0];
            assert(text::trim(text::lines(after)[i]) == text::trim(plus[0]));
            assert(has_line(after, text::trim(plus[0])));
        }
        if minus.len() > 0 {
            disappeared_exactly(before, after, minus[0]);
            assert(minus.contains(minus[0]));
            let i = choose|i: int| 0 <= i < text::lines(before).len() && text::lines(before)[i] == minus[0];
            assert(text::trim(text::lines(before)[i]) == text::trim(minus[0]));
            assert(has_line(before, text::trim(minus[0])));
        }
    }
}

/// The order of the lines and the blanks around them do not matter on the side
/// that is compared against: texts with the same lines make the same lines of a
/// third text news.
pub proof fn order_does_not_matter(one: Seq<char>, other: Seq<char>, third: Seq<char>)
    requires
        same_lines(one, other),
    ensures
        appeared(one, third) == appeared(other, third),
        disappeared(third, one) == disappeared(third, other),
{
    lemma_same_news(text::lines(third), one, other);
}

proof fn lemma_same_news(ls: Seq<Seq<char>>, one: Seq<char>, other: Seq<char>)
    requires
        same_lines(one, other),
    ensures
        news(ls, one) == news(ls, other),
    decreases ls.len(),
{
    reveal(Seq::filter);
    if ls.len() > 0 {
        lemma_same_news(ls.drop_last(), one, other);
        assert(is_news(ls.last(), one) == is_news(ls.last(), other));
    }
}

/// Whether two lists hold the same texts, each as often, in whatever order.
pub open spec fn permuted(one: Seq<Seq<char>>, other: Seq<Seq<char>>) -> bool {
    one.to_multiset() == other.to_multiset()
}

proof fn lemma_news_count(ls: Seq<Seq<char>>, other: Seq<char>, line: Seq<char>)
    ensures
        news(ls, other).to_multiset().count(line) == if is_news(line, other) {
            ls.to_multiset().count(line)
        } else {
            0
        },
    decreases ls.len(),
{
    broadcast use vstd::seq_lib::group_to_multiset_ensures;

    reveal(Seq::filter);
    if ls.len() > 0 {
        lemma_news_count(ls.drop_last(), other, line);
        assert(ls =~= ls.drop_last().push(ls.last()));
    }
}

proof fn lemma_permuted_has_line(one: Seq<char>, other: Seq<char>)
    requires
        permuted(text::lines(one), text::lines(other)),
    ensures
        same_lines(one, other),
{
    broadcast use vstd::seq_lib::group_to_multiset_ensures;

    let (a, b) = (text::lines(one), text::lines(other));
    assert forall|t: Seq<char>| t.len() > 0 implies (#[trigger] has_line(one, t) <==> has_line(
        other,
        t,
    )) by {
        if has_line(one, t) {
            let i = choose|i: int| 0 <= i < a.len() && #[trigger] text::trim(a[i]) == t;
            assert(a.contains(a[i]));
            assert(a.to_multiset().count(a[i]) > 0);
            assert(b.contains(a[i]));
            let j = b.index_of(a[i]);
            assert(text::trim(b[j]) == t);
        }
        if has_line(other, t) {
            let j = choose|j: int| 0 <= j < b.len() && #[trigger] text::trim(b[j]) == t;
            assert(b.contains(b[j]));
            assert(b.to_multiset().count(b[j]) > 0);
            assert(a.contains(b[j]));
            let i = a.index_of(b[j]);
            assert(text::trim(a[i]) == t);
        }
    }
}

proof fn lemma_permuted_news(
    one: Seq<Seq<char>>,
    other: Seq<Seq<char>>,
    left: Seq<char>,
    right: Seq<char>,
)
    requires
        permuted(one, other),
        same_lines(left, right),
    ensures
        permuted(news(one, left), news(other, right)),
{
    assert forall|l: Seq<char>|
        news(one, left).to_multiset().count(l) == news(other, right).to_multiset().count(l) by {
        lemma_news_count(one, left, l);
        lemma_news_count(other, right, l);
        assert(is_news(l, left) == is_news(l, right));
    }
    assert(news(one, left).to_multiset() =~= news(other, right).to_multiset());
}

/// Lines as they stand in the report, each behind the mark.
pub open spec fn shown(mark: Seq<char>, ls: Seq<Seq<char>>) -> Seq<Seq<char>> {
    ls.map_values(|l: Seq<char>| text::chop(mark + l))
}

proof fn lemma_permuted_shown(mark: Seq<char>, one: Seq<Seq<char>>, other: Seq<Seq<char>>)
    requires
        permuted(one, other),
    ensures
        permuted(shown(mark, one), shown(mark, other)),
    decreases one.len(),
{
    broadcast use vstd::seq_lib::group_to_multiset_ensures;

    assert(one.len() == one.to_multiset().len());
    assert(other.len() == other.to_multiset().len());
    if one.len() == 0 {
        assert(shown(mark, one) =~= shown(mark, other));
    } else {
        let l = one.last();
        let i = one.len() - 1;
        assert(one.contains(one[i]));
        assert(other.to_multiset().count(l) > 0);
        let j = other.index_of(l);
        assert(other[j] == l);
        lemma_permuted_shown(mark, one.remove(i), other.remove(j));
        assert(shown(mark, one).remove(i) =~= shown(mark, one.remove(i)));
        assert(shown(mark, other).remove(j) =~= shown(mark, other.remove(j)));
        let (x, y) = (shown(mark, one), shown(mark, other));
        assert(x[i] == y[j]);
        assert(x.contains(x[i]) && y.contains(y[j]));
        assert(x.to_multiset() =~= x.remove(i).to_multiset().insert(x[i]));
        assert(y.to_multiset() =~= y.remove(j).to_multiset().insert(y[j]));
    }
}

proof fn lemma_marked_lines(above: Seq<char>, mark: Seq<char>, ls: Seq<Seq<char>>)
    requires
        above.len() > 0 ==> above.last() == '\n',
        !mark.contains('\n'),
        forall|i: int| 0 <= i < ls.len() ==> !(#[trigger] ls[i]).contains('\n'),
    ensures
        text::lines(above + marked(mark, ls)) == text::lines(above) + shown(mark, ls),
    decreases ls.len(),
{
    if ls.len() == 0 {
        assert(above + marked(mark, ls) =~= above);
        assert(text::lines(above) + shown(mark, ls) =~= text::lines(above));
    } else {
        let rest = ls.drop_last();
        let upper = above + marked(mark, rest);
        let line = mark + ls.last();
        assert forall|i: int| 0 <= i < rest.len() implies !(#[trigger] rest[i]).contains('\n') by {
            assert(rest[i] == ls[i]);
        }
        lemma_marked_lines(above, mark, rest);
        lemma_marked(mark, rest);
        assert(!line.contains('\n')) by {
            if line.contains('\n') {
                let k = line.index_of('\n');
                if k < mark.len() {
                    assert(mark[k] == '\n');
                } else {
                    assert(ls.last()[k - mark.len()] == '\n');
                    assert(ls[ls.len() - 1].contains('\n'));
                }
            }
        }
        text::line_is_put_behind(upper, line);
        assert(above + marked(mark, ls) =~= upper + line + seq!['\n']);
        assert(shown(mark, ls) =~= shown(mark, rest).push(text::chop(line)));
        assert(text::lines(above) + shown(mark, ls) =~= (text::lines(above) + shown(mark, rest)).push(
            text::chop(line),
        ));
    }
}

proof fn lemma_news_clean(text: Seq<char>, other: Seq<char>)
    ensures
        forall|i: int|
            0 <= i < news(text::lines(text), other).len() ==> !(#[trigger] news(
                text::lines(text),
                other,
            )[i]).contains('\n'),
{
    let kept = news(text::lines(text), other);
    assert forall|i: int| 0 <= i < kept.len() implies !(#[trigger] kept[i]).contains('\n') by {
        lemma_news(text::lines(text), other, kept[i]);
        assert(kept.contains(kept[i]));
        let j = text::lines(text).index_of(kept[i]);
        text::lines_hold_no_break(text, j);
    }
}

/// A report of changes has a line for each line that appeared, then one for each
/// that disappeared, and no other.
pub proof fn report_lists_the_changes(before: Seq<char>, after: Seq<char>)
    ensures
        text::lines(delta(before, after)) == shown("+ "@, appeared(before, after)) + shown(
            "- "@,
            disappeared(before, after),
        ),
{
    reveal_strlit("+ ");
    reveal_strlit("- ");
    let plus = marked("+ "@, appeared(before, after));
    lemma_news_clean(after, before);
    lemma_news_clean(before, after);
    lemma_marked("+ "@, appeared(before, after));
    lemma_marked_lines(Seq::empty(), "+ "@, appeared(before, after));
    assert(Seq::<char>::empty() + plus =~= plus);
    lemma_marked_lines(plus, "- "@, disappeared(before, after));
    assert(text::lines(Seq::<char>::empty()) + shown("+ "@, appeared(before, after)) =~= shown(
        "+ "@,
        appeared(before, after),
    ));
}

/// The diff does not depend on the order of lines: where the lines of both texts
/// are permuted, the lines that appeared, those that disappeared, and with them
/// the lines of the report are permuted too, and none comes or goes.
pub proof fn permuted_texts_permute_the_report(
    before: Seq<char>,
    after: Seq<char>,
    before_permuted: Seq<char>,
    after_permuted: Seq<char>,
)
    requires
        permuted(text::lines(before), text::lines(before_permuted)),
        permuted(text::lines(after), text::lines(after_permuted)),
    ensures
        permuted(appeared(before, after), appeared(before_permuted, after_permuted)),
        permuted(disappeared(before, after), disappeared(before_permuted, after_permuted)),
        permuted(
            text::lines(report(before, after)),
            text::lines(report(before_permuted, after_permuted)),
        ),
{
    broadcast use vstd::seq_lib::group_to_multiset_ensures;

    lemma_permuted_has_line(before, before_permuted);
    lemma_permuted_has_line(after, after_permuted);
    let (p, q) = (appeared(before, after), appeared(before_permuted, after_permuted));
    let (m, n) = (disappeared(before, after), disappeared(before_permuted, after_permuted));
    lemma_permuted_news(
        text::lines(after),
        text::lines(after_permuted),
        before,
        before_permuted,
    );
    lemma_permuted_news(
        text::lines(before),
        text::lines(before_permuted),
        after,
        after_permuted,
    );
    lemma_permuted_shown("+ "@, p, q);
    lemma_permuted_shown("- "@, m, n);
    report_lists_the_changes(before, after);
    report_lists_the_changes(before_permuted, after_permuted);
    lemma_marked("+ "@, p);
    lemma_marked("+ "@, q);
    lemma_marked("- "@, m);
    lemma_marked("- "@, n);
    assert(p.len() == p.to_multiset().len() && q.len() == q.to_multiset().len());
    assert(m.len() == m.to_multiset().len() && n.len() == n.to_multiset().len());
    vstd::seq_lib::lemma_multiset_commutative(shown("+ "@, p), shown("- "@, m));
    vstd::seq_lib::lemma_multiset_commutative(shown("+ "@, q), shown("- "@, n));
}

/// What appears on the way from one text to another disappears on the way back.
pub proof fn turned_round(one: Seq<char>, other: Seq<char>)
    ensures
        appeared(one, other) == disappeared(other, one),
        disappeared(one, other) == appeared(other, one),
{
}

/// The lines of one text that are told to a reader of another, by their places:
/// they come in their order, each as it stands, and the line in a place is told
/// exactly if it is not blank and reads, once trimmed, like no trimmed line of the
/// other text.
pub proof fn told_lines_exactly(one: Seq<char>, other: Seq<char>) -> (at: Seq<int>)
    ensures
        appeared(other, one).len() == at.len(),
        disappeared(one, other).len() == at.len(),
        forall|k: int|
            #![trigger at[k]]
            0 <= k < at.len() ==> {
                &&& 0 <= at[k] < text::lines(one).len()
                &&& appeared(other, one)[k] == text::lines(one)[at[k]]
                &&& disappeared(one, other)[k] == text::lines(one)[at[k]]
            },
        forall|k: int, m: int| 0 <= k < m < at.len() ==> #[trigger] at[k] < #[trigger] at[m],
        forall|i: int|
            0 <= i < text::lines(one).len() ==> (#[trigger] at.contains(i) <==> text::trim(
                text::lines(one)[i],
            ).len() > 0 && forall|j: int|
                0 <= j < text::lines(other).len() ==> #[trigger] text::trim(text::lines(other)[j])
                    != text::trim(text::lines(one)[i])),
{
    let ls = text::lines(one);
    let at = lemma_places(ls, other);
    assert forall|i: int| 0 <= i < ls.len() implies (#[trigger] at.contains(i) <==> text::trim(
        ls[i],
    ).len() > 0 && forall|j: int|
        0 <= j < text::lines(other).len() ==> #[trigger] text::trim(text::lines(other)[j])
            != text::trim(ls[i])) by {
        assert(at.contains(i) <==> is_news(ls[i], other));
    }
    at
}

proof fn lemma_places(ls: Seq<Seq<char>>, other: Seq<char>) -> (at: Seq<int>)
    ensures
        news(ls, other).len() == at.len(),
        forall|k: int|
            #![trigger at[k]]
            0 <= k < at.len() ==> 0 <= at[k] < ls.len() && news(ls, other)[k] == ls[at[k]],
        forall|k: int, m: int| 0 <= k < m < at.len() ==> #[trigger] at[k] < #[trigger] at[m],
        forall|i: int| 0 <= i < ls.len() ==> (#[trigger] at.contains(i) <==> is_news(ls[i], other)),
    decreases ls.len(),
{
    reveal(Seq::filter);
    if ls.len() == 0 {
        Seq::empty()
    } else {
        let rest = ls.drop_last();
        let before = lemma_places(rest, other);
        let n = ls.len() - 1;
        let at = if is_news(ls.last(), other) {
            before.push(n)
        } else {
            before
        };
        assert forall|i: int| 0 <= i < ls.len() implies (#[trigger] at.contains(i) <==> is_news(
            ls[i],
            other,
        )) by {
            if before.contains(i) {
                let k = before.index_of(i);
                assert(at[k] == i);
            }
            if at.contains(i) {
                let k = at.index_of(i);
                if k < before.len() {
                    assert(before[k] == i);
                }
            }
            if i < n {
                assert(rest[i] == ls[i]);
                assert(before.contains(i) <==> is_news(rest[i], other));
            } else if is_news(ls.last(), other) {
                assert(at[before.len() as int] == i);
            }
        }
        at
    }
}

/// The report is made of the lines that appeared, each behind a plus sign, then
/// of those that disappeared, each behind a minus sign, whole and with a line feed
/// behind each. Only where there are none it says so instead.
pub proof fn report_word_for_word(before: Seq<char>, after: Seq<char>)
    ensures
        ({
            let plus = appeared(before, after).map_values(|l: Seq<char>| "+ "@ + l + seq!['\n']);
            let minus = disappeared(before, after).map_values(
                |l: Seq<char>| "- "@ + l + seq!['\n'],
            );
            report(before, after) == if plus.len() == 0 && minus.len() == 0 {
                "(no visible change)"@
            } else {
                plus.flatten() + minus.flatten()
            }
        }),
{
    lemma_marked("+ "@, appeared(before, after));
    lemma_marked("- "@, disappeared(before, after));
    lemma_marked_flat("+ "@, appeared(before, after));
    lemma_marked_flat("- "@, disappeared(before, after));
    assert(appeared(before, after).map_values(|l: Seq<char>| "+ "@ + l + seq!['\n'])
        =~= appeared(before, after).map_values(flat("+ "@)));
    assert(disappeared(before, after).map_values(|l: Seq<char>| "- "@ + l + seq!['\n'])
        =~= disappeared(before, after).map_values(flat("- "@)));
}

spec fn flat(mark: Seq<char>) -> spec_fn(Seq<char>) -> Seq<char> {
    |l: Seq<char>| mark + l + seq!['\n']
}

proof fn lemma_marked_flat(mark: Seq<char>, ls: Seq<Seq<char>>)
    ensures
        marked(mark, ls) == ls.map_values(flat(mark)).flatten(),
    decreases ls.len(),
{
    if ls.len() == 0 {
        assert(ls.map_values(flat(mark)).flatten() =~= Seq::<char>::empty());
    } else {
        let rest = ls.drop_last();
        lemma_marked_flat(mark, rest);
        rest.map_values(flat(mark)).lemma_flatten_push(mark + ls.last() + seq!['\n']);
        assert(ls.map_values(flat(mark)) =~= rest.map_values(flat(mark)).push(
            mark + ls.last() + seq!['\n'],
        ));
        assert(marked(mark, ls) =~= marked(mark, rest) + (mark + ls.last() + seq!['\n']));
    }
}

/// Of two snapshots of one line each, where the lines begin and end in something
/// else than a blank and differ, the report has both lines, whole: the later one
/// appeared, the earlier one disappeared.
pub proof fn changed_line_is_told(before: Seq<char>, after: Seq<char>)
    requires
        before.len() > 0 && !text::is_blank(before[0]) && !text::is_blank(before.last()),
        after.len() > 0 && !text::is_blank(after[0]) && !text::is_blank(after.last()),
        !before.contains('\n'),
        !after.contains('\n'),
        before != after,
    ensures
        report(before, after) == "+ "@ + after + seq!['\n'] + "- "@ + before + seq!['\n'],
{
    let none = Seq::<char>::empty();
    text::blanks_around_are_trimmed(none, before, none);
    text::blanks_around_are_trimmed(none, after, none);
    assert(none + before + none =~= before);
    assert(none + after + none =~= after);
    text::text_without_break_is_one_line(before);
    text::text_without_break_is_one_line(after);
    assert(text::lines(before)[0] == before && text::lines(after)[0] == after);
    let no_lines = Seq::<Seq<char>>::empty();
    lemma_no_news(no_lines, before);
    lemma_no_news(no_lines, after);
    lemma_news_behind(no_lines, after, before);
    lemma_news_behind(no_lines, before, after);
    assert(no_lines.push(after) =~= seq![after] && no_lines.push(before) =~= seq![before]);
    lemma_marked_one("+ "@, after);
    lemma_marked_one("- "@, before);
    assert(delta(before, after) =~= "+ "@ + after + seq!['\n'] + "- "@ + before + seq!['\n']);
}

/// A snapshot compared with itself shows no change.
pub proof fn same_snapshot_shows_no_change(s: Seq<char>)
    ensures
        report(s, s) == "(no visible change)"@,
{
    unchanged_exactly(s, s);
}

/// Of a line put behind the others the report tells exactly that line, if it is
/// not blank and reads, once trimmed, like no line before it.
pub proof fn added_line_is_told(s: Seq<char>, line: Seq<char>)
    requires
        s.len() > 0 ==> s.last() == '\n',
        !line.contains('\n'),
        line.len() > 0 ==> line.last() != '\r',
        text::trim(line).len() > 0,
        forall|j: int|
            0 <= j < text::lines(s).len() ==> #[trigger] text::trim(text::lines(s)[j])
                != text::trim(line),
    ensures
        report(s, s + line + seq!['\n']) == "+ "@ + line + seq!['\n'],
        report(s + line + seq!['\n'], s) == "- "@ + line + seq!['\n'],
{
    let more = s + line + seq!['\n'];
    let ls = text::lines(s);
    text::line_is_put_behind(s, line);
    assert(text::lines(more) == ls.push(line));
    assert forall|i: int| 0 <= i < ls.len() implies !is_news(#[trigger] ls[i], s) by {
        assert(text::trim(text::lines(s)[i]) == text::trim(ls[i]));
    }
    assert forall|i: int| 0 <= i < ls.len() implies !is_news(#[trigger] ls[i], more) by {
        assert(text::lines(more)[i] == ls[i]);
        assert(text::trim(text::lines(more)[i]) == text::trim(ls[i]));
    }
    lemma_no_news(ls, s);
    lemma_no_news(ls, more);
    lemma_news_behind(ls, line, s);
    lemma_marked_one("+ "@, line);
    lemma_marked_one("- "@, line);
    assert(delta(s, more) =~= "+ "@ + line + seq!['\n']);
    assert(delta(more, s) =~= "- "@ + line + seq!['\n']);
}

proof fn lemma_marked_one(mark: Seq<char>, line: Seq<char>)
    ensures
        marked(mark, seq![line]) == mark + line + seq!['\n'],
{
    assert(seq![line].drop_last() =~= Seq::<Seq<char>>::empty());
    assert(marked(mark, Seq::empty()) =~= Seq::<char>::empty());
    assert(marked(mark, seq![line]) =~= mark + line + seq!['\n']);
}

proof fn lemma_news_behind(ls: Seq<Seq<char>>, line: Seq<char>, other: Seq<char>)
    requires
        news(ls, other) == Seq::<Seq<char>>::empty(),
        is_news(line, other),
    ensures
        news(ls.push(line), other) == seq![line],
{
    reveal(Seq::filter);
    assert(ls.push(line).drop_last() =~= ls);
    assert(news(ls.push(line), other) =~= seq![line]);
}

proof fn lemma_no_news(ls: Seq<Seq<char>>, other: Seq<char>)
    requires
        forall|i: int| 0 <= i < ls.len() ==> !is_news(#[trigger] ls[i], other),
    ensures
        news(ls, other) == Seq::<Seq<char>>::empty(),
    decreases ls.len(),
{
    reveal(Seq::filter);
    if ls.len() > 0 {
        assert forall|i: int| 0 <= i < ls.drop_last().len() implies !is_news(
            #[trigger] ls.drop_last()[i],
            other,
        ) by {
            assert(ls.drop_last()[i] == ls[i]);
        }
        lemma_no_news(ls.drop_last(), other);
        assert(!is_news(ls[ls.len() - 1], other));
    }
}

} // verus!
