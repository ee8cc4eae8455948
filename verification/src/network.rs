//! The requests that a page made, as a table.

use vstd::prelude::*;

use crate::text;

verus! {

/// A request that a page made, and what came of it.
pub struct NetEntry {
    pub url: String,
    pub method: String,
    pub resource_type: String,
    /// The status of the response, once there is one.
    pub status: Option<i64>,
    pub failed: bool,
}

/// How a request went: failed, its status, or still open.
pub open spec fn outcome(e: NetEntry) -> Seq<char> {
    if e.failed {
        "FAIL"@
    } else {
        match e.status {
            Some(s) => text::decimal_signed(s as int),
            None => "…"@,
        }
    }
}

/// The row of a request: outcome, method and type in columns, then the address.
pub open spec fn row(e: NetEntry) -> Seq<char> {
    text::right(outcome(e), 4) + " "@ + text::left(e.method@, 6) + " "@ + text::left(
        e.resource_type@,
        10,
    ) + " "@ + e.url@ + seq!['\n']
}

/// A row for each request, in their order.
pub open spec fn table(entries: Seq<NetEntry>) -> Seq<char>
    decreases entries.len(),
{
    if entries.len() == 0 {
        Seq::empty()
    } else {
        table(entries.drop_last()) + row(entries.last())
    }
}

/// What is told of the requests of a page.
pub open spec fn listed(entries: Seq<NetEntry>) -> Seq<char> {
    if entries.len() == 0 {
        "(no requests)"@
    } else {
        table(entries)
    }
}

/// Puts the row of a request behind a table.
fn push_row(out: &mut String, e: &NetEntry)
    ensures
        final(out)@ == old(out)@ + row(*e),
{
    let mut status = String::new();
    if e.failed {
        status.append("FAIL");
    } else {
        match e.status {
            Some(s) => text::push_signed(&mut status, s),
            None => status.append("…"),
        }
    }
    assert(status@ =~= outcome(*e));
    text::push_right(out, status.as_str(), 4);
    out.append(" ");
    text::push_left(out, e.method.as_str(), 6);
    out.append(" ");
    text::push_left(out, e.resource_type.as_str(), 10);
    out.append(" ");
    out.append(e.url.as_str());
    out.push('\n');
    assert(out@ =~= old(out)@ + row(*e));
}

/// Tells the requests of a page, one below the other.
pub fn list_requests(entries: &Vec<NetEntry>) -> (r: String)
    ensures
        r@ == listed(entries@),
{
    if entries.len() == 0 {
        return "(no requests)".to_owned();
    }
    let mut out = String::new();
    let mut i: usize = 0;
    while i < entries.len()
        invariant
            i <= entries.len(),
            out@ == table(entries@.take(i as int)),
        decreases entries.len() - i,
    {
        push_row(&mut out, &entries[i]);
        assert(entries@.take(i + 1).drop_last() =~= entries@.take(i as int));
        i = i + 1;
    }
    assert(entries@.take(i as int) =~= entries@);
    out
}

/// One request is told as one row: its outcome at the right end of four columns,
/// its method in six, its type in ten, and then its address, each whole and a
/// space apart. The outcome is `FAIL` where it failed, else the status, else an
/// ellipsis while there is none.
pub proof fn request_is_told_as_a_row(e: NetEntry)
    ensures
        ({
            let status = if e.failed {
                "FAIL"@
            } else if e.status is Some {
                text::decimal_signed(e.status->0 as int)
            } else {
                "…"@
            };
            listed(seq![e]) == text::right(status, 4) + " "@ + text::left(e.method@, 6) + " "@
                + text::left(e.resource_type@, 10) + " "@ + e.url@ + seq!['\n']
        }),
{
    reveal_with_fuel(table, 2);
    assert(seq![e].drop_last() =~= Seq::<NetEntry>::empty());
    assert(listed(seq![e]) =~= row(e));
}

/// Every request is told, in the order of the requests: what is told of two lists
/// together is what is told of the one and then of the other. Only of none it is
/// said that there are none.
pub proof fn requests_are_told_in_order(one: Seq<NetEntry>, other: Seq<NetEntry>)
    ensures
        listed(Seq::empty()) == "(no requests)"@,
        one.len() > 0 && other.len() > 0 ==> listed(one + other) == listed(one) + listed(other),
    decreases other.len(),
{
    if one.len() > 0 && other.len() > 0 {
        let all = one + other;
        assert(all.drop_last() =~= one + other.drop_last());
        assert(all.last() == other.last());
        if other.len() == 1 {
            assert(one + other.drop_last() =~= one);
            assert(table(other.drop_last()) =~= Seq::<char>::empty());
            assert(table(other) =~= row(other.last()));
        } else {
            requests_are_told_in_order(one, other.drop_last());
        }
        assert(table(all) =~= table(one) + table(other));
    }
}

} // verus!
