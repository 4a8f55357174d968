use vstd::prelude::*;

use crate::text::{decimal, decimal_text};

verus! {

/// The line that opens and closes the results.
pub open spec fn banner() -> Seq<char> {
    "-------TESTER RESULTS------"@
}

/// The line that reports the choose benchmark of the `n`-th item (from 1).
pub open spec fn choose_line(n: nat, output: Seq<char>) -> Seq<char> {
    "No."@ + decimal_text(n) + " choose:\n"@ + output
}

/// The line that reports the drop benchmark of the `n`-th item (from 1).
pub open spec fn drop_line(n: nat, output: Seq<char>) -> Seq<char> {
    "No."@ + decimal_text(n) + " drop:\n"@ + output
}

/// The lines that report the benchmarks, item after item, choose before drop.
pub open spec fn result_lines(results: Seq<(Seq<char>, Seq<char>)>) -> Seq<Seq<char>> {
    Seq::new(
        2 * results.len(),
        |k: int| if k % 2 == 0 {
            choose_line((k / 2 + 1) as nat, results[k / 2].0)
        } else {
            drop_line((k / 2 + 1) as nat, results[k / 2].1)
        },
    )
}

/// The report of a test run: the banner, the number of items, the output of
/// each item's two benchmarks, and the banner again.
pub open spec fn report_text(results: Seq<(Seq<char>, Seq<char>)>) -> Seq<Seq<char>> {
    seq![banner(), "Perfermance test "@ + decimal_text(results.len()) + " times."@] + result_lines(results)
        + seq![banner()]
}

/// The lines of the report of a test run, given what each item's choose and
/// drop benchmarks printed.
pub fn report_lines(results: &Vec<(String, String)>) -> (lines: Vec<String>)
    ensures
        lines.deep_view() == report_text(results.deep_view()),
{
    let ghost rs = results.deep_view();
    let mut lines: Vec<String> = Vec::new();
    lines.push(String::from_str("-------TESTER RESULTS------"));
    let count = decimal(results.len() as u64);
    let mut summary = String::from_str("Perfermance test ");
    summary.append(count.as_str());
    summary.append(" times.");
    lines.push(summary);
    let mut i: usize = 0;
    while i < results.len()
        invariant
            i <= results@.len(),
            rs == results.deep_view(),
            lines.deep_view() =~= seq![banner(), "Perfermance test "@ + decimal_text(rs.len()) + " times."@]
                + result_lines(rs.take(i as int)),
        decreases results@.len() - i,
    {
        let n: usize = i + 1;
        let number = decimal(n as u64);
        let mut choose = String::from_str("No.");
        choose.append(number.as_str());
        choose.append(" choose:\n");
        choose.append(results[i].0.as_str());
        let mut dropped = String::from_str("No.");
        dropped.append(number.as_str());
        dropped.append(" drop:\n");
        dropped.append(results[i].1.as_str());
        let ghost before = lines.deep_view();
        lines.push(choose);
        lines.push(dropped);
        proof {
            let prefix = rs.take(i + 1);
            assert(rs[i as int] == (results@[i as int].0@, results@[i as int].1@));
            assert(result_lines(prefix) =~= result_lines(rs.take(i as int)).push(choose@).push(dropped@)) by {
                assert forall|k: int| 0 <= k < 2 * prefix.len() implies #[trigger] result_lines(prefix)[k]
                    == result_lines(rs.take(i as int)).push(choose@).push(dropped@)[k] by {
                    if k < 2 * i {
                        assert(prefix[k / 2] == rs.take(i as int)[k / 2]);
                    }
                }
            }
            assert(lines.deep_view() =~= before.push(choose@).push(dropped@));
        }
        i = i + 1;
    }
    lines.push(String::from_str("-------TESTER RESULTS------"));
    assert(rs.take(i as int) =~= rs);
    lines
}

/// The report of `n` results has `2 n + 3` lines: the banner; the count
/// `Perfermance test <n> times.`, which counts every result whatever its
/// texts; then, for the `i`-th item (from 1), its choose line and its drop
/// line, each followed by what that benchmark printed; and the banner again.
pub proof fn report_counts_and_lists_every_result(results: Seq<(Seq<char>, Seq<char>)>)
    ensures
        report_text(results).len() == 2 * results.len() + 3,
        report_text(results)[0] == "-------TESTER RESULTS------"@,
        report_text(results)[1] == "Perfermance test "@ + decimal_text(results.len()) + " times."@,
        forall|i: int|
            #![trigger results[i]]
            0 <= i < results.len() ==> {
                &&& report_text(results)[2 + 2 * i] == "No."@ + decimal_text((i + 1) as nat) + " choose:\n"@
                    + results[i].0
                &&& report_text(results)[3 + 2 * i] == "No."@ + decimal_text((i + 1) as nat) + " drop:\n"@
                    + results[i].1
            },
        report_text(results)[2 * results.len() + 2int] == "-------TESTER RESULTS------"@,
{
    let lines = result_lines(results);
    let head = seq![banner(), "Perfermance test "@ + decimal_text(results.len()) + " times."@];
    assert forall|i: int| #![trigger results[i]] 0 <= i < results.len() implies {
        &&& report_text(results)[2 + 2 * i] == "No."@ + decimal_text((i + 1) as nat) + " choose:\n"@ + results[i].0
        &&& report_text(results)[3 + 2 * i] == "No."@ + decimal_text((i + 1) as nat) + " drop:\n"@ + results[i].1
    } by {
        assert((2 * i) % 2 == 0 && (2 * i) / 2 == i);
        assert((2 * i + 1) % 2 == 1 && (2 * i + 1) / 2 == i);
        assert(report_text(results)[2 + 2 * i] == lines[2 * i]);
        assert(report_text(results)[3 + 2 * i] == lines[2 * i + 1]);
    }
}

} // verus!
