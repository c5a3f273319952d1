//! The top-consumers query: sorting a snapshot by running total and
//! rendering the listing, two decimal places per amount.

use vstd::prelude::*;
use crate::consumer::{entries_view, ConsumerData};

verus! {

/// How many consumers the report lists at most.
pub const TOP_LIMIT: usize = 5;

/// The character of one decimal digit.
pub open spec fn digit_char(d: int) -> char
    recommends
        0 <= d < 10,
{
    if d == 0 {
        '0'
    } else if d == 1 {
        '1'
    } else if d == 2 {
        '2'
    } else if d == 3 {
        '3'
    } else if d == 4 {
        '4'
    } else if d == 5 {
        '5'
    } else if d == 6 {
        '6'
    } else if d == 7 {
        '7'
    } else if d == 8 {
        '8'
    } else {
        '9'
    }
}

/// The decimal numeral of `n`, most significant digit first.
pub open spec fn dec_str(n: int) -> Seq<char>
    recommends
        n >= 0,
    decreases n,
{
    if n < 10 {
        seq![digit_char(n)]
    } else {
        dec_str(n / 10).push(digit_char(n % 10))
    }
}

/// A consumption held in hundredths, printed with two decimal places: the
/// whole part, a dot, then the two fraction digits.
pub open spec fn amount_str(n: u64) -> Seq<char> {
    dec_str(n as int / 100) + seq!['.', digit_char((n as int / 10) % 10), digit_char(n as int % 10)]
}

/// One line of the report.
pub open spec fn line_str(k: Seq<char>, total: u64) -> Seq<char> {
    "Consumer ID: "@ + k + ", Total Consumption: "@ + amount_str(total) + " kWh"@
}

/// The first `m` report lines of `s`, separated by line breaks.
pub open spec fn lines_str(s: Seq<(Seq<char>, ConsumerData)>, m: int) -> Seq<char>
    recommends
        0 <= m <= s.len(),
    decreases m,
{
    if m <= 0 {
        Seq::empty()
    } else if m == 1 {
        line_str(s[0].0, s[0].1.total_consumption)
    } else {
        lines_str(s, m - 1) + "\n"@ + line_str(s[m - 1].0, s[m - 1].1.total_consumption)
    }
}

/// What the top-consumers query returns for the already-sorted entries `s`:
/// the fixed empty-store message, or the heading and the first lines.
pub open spec fn report_str(s: Seq<(Seq<char>, ConsumerData)>) -> Seq<char> {
    if s.len() == 0 {
        "No consumers data available."@
    } else {
        "Top Consumers:\n"@ + lines_str(
            s,
            if s.len() < TOP_LIMIT { s.len() as int } else { TOP_LIMIT as int },
        )
    }
}

/// Appends one decimal digit.
fn push_digit(out: &mut String, d: u64)
    requires
        d < 10,
    ensures
        final(out)@ == old(out)@ + seq![digit_char(d as int)],
{
    if d == 0 {
        out.append("0");
        proof {
            reveal_strlit("0");
            assert("0"@ =~= seq![digit_char(0)]);
        }
    } else if d == 1 {
        out.append("1");
        proof {
            reveal_strlit("1");
            assert("1"@ =~= seq![digit_char(1)]);
        }
    } else if d == 2 {
        out.append("2");
        proof {
            reveal_strlit("2");
            assert("2"@ =~= seq![digit_char(2)]);
        }
    } else if d == 3 {
        out.append("3");
        proof {
            reveal_strlit("3");
            assert("3"@ =~= seq![digit_char(3)]);
        }
    } else if d == 4 {
        out.append("4");
        proof {
            reveal_strlit("4");
            assert("4"@ =~= seq![digit_char(4)]);
        }
    } else if d == 5 {
        out.append("5");
        proof {
            reveal_strlit("5");
            assert("5"@ =~= seq![digit_char(5)]);
        }
    } else if d == 6 {
        out.append("6");
        proof {
            reveal_strlit("6");
            assert("6"@ =~= seq![digit_char(6)]);
        }
    } else if d == 7 {
        out.append("7");
        proof {
            reveal_strlit("7");
            assert("7"@ =~= seq![digit_char(7)]);
        }
    } else if d == 8 {
        out.append("8");
        proof {
            reveal_strlit("8");
            assert("8"@ =~= seq![digit_char(8)]);
        }
    } else {
        out.append("9");
        proof {
            reveal_strlit("9");
            assert("9"@ =~= seq![digit_char(9)]);
        }
    }
}

/// Appends the decimal numeral of `n`.
fn push_number(out: &mut String, n: u64)
    ensures
        final(out)@ == old(out)@ + dec_str(n as int),
    decreases n,
{
    if n >= 10 {
        push_number(out, n / 10);
        push_digit(out, n % 10);
        proof {
            assert(out@ =~= old(out)@ + dec_str(n as int));
        }
    } else {
        push_digit(out, n);
    }
}

/// Appends a consumption held in hundredths, with two decimal places.
fn push_amount(out: &mut String, n: u64)
    ensures
        final(out)@ == old(out)@ + amount_str(n),
{
    push_number(out, n / 100);
    out.append(".");
    push_digit(out, (n / 10) % 10);
    push_digit(out, n % 10);
    proof {
        reveal_strlit(".");
        assert("."@ =~= seq!['.']);
        assert(out@ =~= old(out)@ + amount_str(n));
    }
}

/// Entries ordered by running total, largest first.
pub open spec fn sorted_desc(s: Seq<(Seq<char>, ConsumerData)>) -> bool {
    forall|a: int, b: int|
        #![trigger s[a], s[b]]
        0 <= a <= b < s.len() ==> s[a].1.total_consumption >= s[b].1.total_consumption
}

proof fn lemma_view_remove(s: Seq<(String, ConsumerData)>, i: int)
    requires
        0 <= i < s.len(),
    ensures
        entries_view(s.remove(i)) =~~= entries_view(s).remove(i),
{
    s.remove_ensures(i);
    entries_view(s).remove_ensures(i);
}

proof fn lemma_view_insert(s: Seq<(String, ConsumerData)>, j: int, e: (String, ConsumerData))
    requires
        0 <= j <= s.len(),
    ensures
        entries_view(s.insert(j, e)) =~~= entries_view(s).insert(j, (e.0@, e.1)),
{
    s.insert_ensures(j, e);
    entries_view(s).insert_ensures(j, (e.0@, e.1));
}

/// Sorts the snapshot in place, descending by running total: afterwards the
/// entries are ordered largest first and are, as a bag, exactly the entries
/// given.
#[verifier::loop_isolation(false)]
pub fn sort_by_consumption(entries: &mut Vec<(String, ConsumerData)>)
    ensures
        sorted_desc(entries_view(final(entries)@)),
        entries_view(final(entries)@).to_multiset() == entries_view(old(entries)@).to_multiset(),
{
    if entries.len() <= 1 {
        return;
    }
    let mut i: usize = 1;
    while i < entries.len()
        invariant
            1 <= i <= entries@.len(),
            entries@.len() == old(entries)@.len(),
            sorted_desc(entries_view(entries@).take(i as int)),
            entries_view(entries@).to_multiset() == entries_view(old(entries)@).to_multiset(),
        decreases entries@.len() - i,
    {
        let pivot_total = entries[i].1.total_consumption;
        let mut j: usize = i;
        while j > 0 && entries[j - 1].1.total_consumption < pivot_total
            invariant
                j <= i,
                forall|t: int|
                    #![trigger entries@[t]]
                    j <= t < i ==> entries@[t].1.total_consumption < pivot_total,
            decreases j,
        {
            j = j - 1;
        }
        let ghost s = entries@;
        let ghost sv = entries_view(entries@);
        let e = entries.remove(i);
        let ghost ev = (e.0@, e.1);
        entries.insert(j, e);
        proof {
            broadcast use vstd::seq_lib::to_multiset_remove;
            broadcast use vstd::seq_lib::to_multiset_insert;
            broadcast use vstd::multiset::group_multiset_axioms;

            lemma_view_remove(s, i as int);
            lemma_view_insert(s.remove(i as int), j as int, e);
            sv.remove_ensures(i as int);
            (sv.remove(i as int)).insert_ensures(j as int, ev);
            let nv = entries_view(entries@);
            assert(nv =~~= sv.remove(i as int).insert(j as int, ev));
            assert(ev == sv[i as int]);
            vstd::seq_lib::to_multiset_remove(sv, i as int);
            vstd::seq_lib::to_multiset_insert(sv.remove(i as int), j as int, ev);
            assert(sv.contains(ev)) by {
                assert(0 <= i < sv.len() && sv[i as int] == ev);
            }
            vstd::seq_lib::to_multiset_contains(sv, ev);
            assert(nv.to_multiset() =~~= sv.to_multiset());
            assert(forall|t: int| #![trigger nv[t]] 0 <= t < j ==> nv[t] == sv[t]);
            assert(nv[j as int] == ev);
            assert(forall|t: int| #![trigger nv[t]] j < t <= i ==> nv[t] == sv[t - 1]);
            assert(ev.1.total_consumption == pivot_total);
            assert(forall|t: int|
                #![trigger sv[t]]
                j <= t < i ==> sv[t].1.total_consumption < pivot_total);
            assert(j == 0 || sv[j - 1].1.total_consumption >= pivot_total);
            assert(forall|a: int, b: int|
                #![trigger sv[a], sv[b]]
                0 <= a <= b < i ==> sv[a].1.total_consumption >= sv[b].1.total_consumption) by {
                assert(forall|t: int|
                    #![trigger sv[t]]
                    0 <= t < i ==> sv.take(i as int)[t] == sv[t]);
            }
            assert forall|a: int, b: int|
                0 <= a <= b < i + 1 implies nv[a].1.total_consumption
                >= nv[b].1.total_consumption by {
                if a < j {
                    assert(nv[a] == sv[a]);
                }
                if b < j {
                    assert(nv[b] == sv[b]);
                }
                if j < a {
                    assert(nv[a] == sv[a - 1]);
                }
                if j < b {
                    assert(nv[b] == sv[b - 1]);
                }
            }
            assert(sorted_desc(nv.take(i as int + 1)));
        }
        i = i + 1;
    }
    proof {
        assert(entries_view(entries@).take(entries@.len() as int) =~~= entries_view(entries@));
    }
}

/// Renders the report for an already-sorted snapshot: the fixed message for
/// an empty store, else the heading and one line for each of the first
/// consumers, amounts printed with two decimals.
pub fn render_top_consumers(sorted: &Vec<(String, ConsumerData)>) -> (r: String)
    ensures
        r@ == report_str(entries_view(sorted@)),
{
    let n = sorted.len();
    if n == 0 {
        let r = String::from_str("No consumers data available.");
        proof {
            assert(entries_view(sorted@).len() == 0);
        }
        return r;
    }
    let ghost view = entries_view(sorted@);
    let mut out = String::from_str("Top Consumers:\n");
    let m = if n < TOP_LIMIT {
        n
    } else {
        TOP_LIMIT
    };
    proof {
        assert(out@ =~= "Top Consumers:\n"@ + lines_str(view, 0));
    }
    let mut i: usize = 0;
    while i < m
        invariant
            i <= m,
            m <= n,
            n == sorted@.len(),
            view == entries_view(sorted@),
            out@ == "Top Consumers:\n"@ + lines_str(view, i as int),
        decreases m - i,
    {
        if i > 0 {
            out.append("\n");
        }
        out.append("Consumer ID: ");
        out.append(sorted[i].0.as_str());
        out.append(", Total Consumption: ");
        push_amount(&mut out, sorted[i].1.total_consumption);
        out.append(" kWh");
        proof {
            assert(view[i as int].0 == sorted@[i as int].0@);
            assert(out@ =~= "Top Consumers:\n"@ + lines_str(view, i as int + 1));
        }
        i = i + 1;
    }
    proof {
        assert(out@ == report_str(view));
    }
    out
}

/// The full top-consumers query on a snapshot of the store: sorts it
/// descending by running total and renders the listing of the top
/// consumers, or the fixed message when the store is empty.
pub fn top_consumers_report(snapshot: Vec<(String, ConsumerData)>) -> (r: String)
    ensures
        exists|s: Seq<(Seq<char>, ConsumerData)>|
            #[trigger] report_str(s) == r@ && sorted_desc(s) && s.to_multiset()
                == entries_view(snapshot@).to_multiset(),
        entries_view(snapshot@).len() == 0 ==> r@ == "No consumers data available."@,
{
    let mut sorted = snapshot;
    sort_by_consumption(&mut sorted);
    let r = render_top_consumers(&sorted);
    proof {
        let s = entries_view(sorted@);
        assert(report_str(s) == r@ && sorted_desc(s) && s.to_multiset()
            == entries_view(snapshot@).to_multiset());
        if entries_view(snapshot@).len() == 0 {
            vstd::seq_lib::to_multiset_len(s);
            vstd::seq_lib::to_multiset_len(entries_view(snapshot@));
            assert(s.len() == 0);
        }
    }
    r
}

} // verus!
