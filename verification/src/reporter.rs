//! The reporter: a summary of a run, computed from its results alone.
//!
//! For each lesson that occurs in the results, in the order of its first
//! occurrence, the summary counts the results that matched their unit's
//! expectation and those that did not. It then gives the totals and, if any
//! result did not match, the detail of the first such result.

use vstd::prelude::*;
use vstd::string::StringExecFns;
use crate::names::Name;
use crate::runner::{Outcome, RunResult};
use crate::text::{decimal, push_decimal};

verus! {

/// The counts of one lesson.
#[derive(Debug, PartialEq, Eq)]
pub struct LessonTally {
    pub lesson: String,
    pub matched: usize,
    pub mismatched: usize,
}

/// A `LessonTally` as the contracts see it.
pub struct Tally {
    pub lesson: Name,
    pub matched: nat,
    pub mismatched: nat,
}

impl View for LessonTally {
    type V = Tally;

    open spec fn view(&self) -> Tally {
        Tally { lesson: self.lesson@, matched: self.matched as nat, mismatched: self.mismatched as nat }
    }
}

/// The views of `tallies`, in order.
pub open spec fn tally_views(tallies: Seq<LessonTally>) -> Seq<Tally> {
    tallies.map_values(|t: LessonTally| t@)
}

/// The number of results of the lesson `lesson` whose `matched` flag is
/// `matched`.
pub open spec fn count_in(results: Seq<RunResult>, lesson: Name, matched: bool) -> nat
    decreases results.len(),
{
    if results.len() == 0 {
        0
    } else {
        let last = results.last();
        let here: nat = if last.lesson@ == lesson && last.matched == matched {
            1
        } else {
            0
        };
        count_in(results.drop_last(), lesson, matched) + here
    }
}

/// The number of results whose `matched` flag is `matched`.
pub open spec fn count_all(results: Seq<RunResult>, matched: bool) -> nat
    decreases results.len(),
{
    if results.len() == 0 {
        0
    } else {
        let here: nat = if results.last().matched == matched {
            1
        } else {
            0
        };
        count_all(results.drop_last(), matched) + here
    }
}

/// The lessons that occur in `results`, each once, in the order of their
/// first occurrence.
pub open spec fn lessons_seen(results: Seq<RunResult>) -> Seq<Name>
    decreases results.len(),
{
    if results.len() == 0 {
        Seq::empty()
    } else {
        let earlier = lessons_seen(results.drop_last());
        if earlier.contains(results.last().lesson@) {
            earlier
        } else {
            earlier.push(results.last().lesson@)
        }
    }
}

/// The tallies of `results`: one for each lesson seen, in that order.
pub open spec fn tallies_of(results: Seq<RunResult>) -> Seq<Tally> {
    Seq::new(
        lessons_seen(results).len(),
        |k: int|
            Tally {
                lesson: lessons_seen(results)[k],
                matched: count_in(results, lessons_seen(results)[k], true),
                mismatched: count_in(results, lessons_seen(results)[k], false),
            },
    )
}

/// `k` is the position of the first result that did not match.
pub open spec fn is_first_mismatch(results: Seq<RunResult>, k: int) -> bool {
    &&& 0 <= k < results.len()
    &&& !results[k].matched
    &&& forall|i: int| 0 <= i < k ==> results[i].matched
}

/// Every result matched.
pub open spec fn all_matched(results: Seq<RunResult>) -> bool {
    forall|i: int| 0 <= i < results.len() ==> results[i].matched
}

/// The lessons seen are pairwise different, and a lesson is among them
/// exactly when some result has it.
pub proof fn lemma_lessons_seen(results: Seq<RunResult>)
    ensures
        lessons_seen(results).no_duplicates(),
        forall|lesson: Name|
            lessons_seen(results).contains(lesson) <==> exists|i: int|
                0 <= i < results.len() && (#[trigger] results[i]).lesson@ == lesson,
    decreases results.len(),
{
    if results.len() > 0 {
        let shorter = results.drop_last();
        let last = results.last();
        let earlier = lessons_seen(shorter);
        lemma_lessons_seen(shorter);
        if !earlier.contains(last.lesson@) {
            crate::names::lemma_push_fresh(earlier, last.lesson@);
        }
        assert forall|lesson: Name|
            lessons_seen(results).contains(lesson) <==> exists|i: int|
                0 <= i < results.len() && (#[trigger] results[i]).lesson@ == lesson by {
            if lessons_seen(results).contains(lesson) {
                if earlier.contains(lesson) {
                    let i = choose|i: int| 0 <= i < shorter.len() && (#[trigger] shorter[i]).lesson@ == lesson;
                    assert(results[i].lesson@ == lesson);
                } else {
                    let at = choose|at: int|
                        0 <= at < lessons_seen(results).len() && lessons_seen(results)[at] == lesson;
                    assert(at == earlier.len());
                    assert(results[results.len() - 1].lesson@ == lesson);
                }
            }
            if exists|i: int| 0 <= i < results.len() && (#[trigger] results[i]).lesson@ == lesson {
                let i = choose|i: int| 0 <= i < results.len() && (#[trigger] results[i]).lesson@ == lesson;
                if i < shorter.len() {
                    assert(shorter[i].lesson@ == lesson);
                    assert(earlier.contains(lesson));
                    let at = choose|at: int| 0 <= at < earlier.len() && earlier[at] == lesson;
                    assert(lessons_seen(results)[at] == lesson);
                } else {
                    if earlier.contains(lesson) {
                        let at = choose|at: int| 0 <= at < earlier.len() && earlier[at] == lesson;
                        assert(lessons_seen(results)[at] == lesson);
                    } else {
                        assert(lessons_seen(results)[earlier.len() as int] == lesson);
                    }
                }
            }
        }
    }
}

/// A lesson's two counts together are the number of its results, which is
/// no more than the number of all results; and a lesson that was not seen
/// has no results.
pub proof fn lemma_counts(results: Seq<RunResult>, lesson: Name)
    ensures
        count_in(results, lesson, true) + count_in(results, lesson, false) <= results.len(),
        !lessons_seen(results).contains(lesson) ==> count_in(results, lesson, true) == 0 && count_in(
            results,
            lesson,
            false,
        ) == 0,
    decreases results.len(),
{
    if results.len() > 0 {
        lemma_counts(results.drop_last(), lesson);
        let earlier = lessons_seen(results.drop_last());
        if !lessons_seen(results).contains(lesson) {
            if earlier.contains(lesson) {
                let at = choose|at: int| 0 <= at < earlier.len() && earlier[at] == lesson;
                assert(lessons_seen(results)[at] == lesson);
            }
            if results.last().lesson@ == lesson {
                if !earlier.contains(lesson) {
                    assert(lessons_seen(results)[earlier.len() as int] == lesson);
                }
            }
        }
    }
}

/// The matched and the mismatched results together are all results.
pub proof fn lemma_count_all(results: Seq<RunResult>)
    ensures
        count_all(results, true) + count_all(results, false) == results.len(),
        count_all(results, false) == 0 <==> all_matched(results),
    decreases results.len(),
{
    if results.len() > 0 {
        let shorter = results.drop_last();
        lemma_count_all(shorter);
        if all_matched(results) {
            assert forall|i: int| 0 <= i < shorter.len() implies shorter[i].matched by {
                assert(results[i].matched);
            }
            assert(results[results.len() - 1].matched);
        }
        if count_all(results, false) == 0 {
            assert forall|i: int| 0 <= i < results.len() implies results[i].matched by {
                if i < shorter.len() {
                    assert(shorter[i].matched);
                }
            }
        }
    }
}

/// The sum of the counts of `tallies`: of the matched results if `matched`
/// is set, of the others if not.
pub open spec fn tallied(tallies: Seq<Tally>, matched: bool) -> nat
    decreases tallies.len(),
{
    if tallies.len() == 0 {
        0
    } else {
        tallied(tallies.drop_last(), matched) + if matched {
            tallies.last().matched
        } else {
            tallies.last().mismatched
        }
    }
}

/// The number of results whose lesson is one of `lessons` and whose
/// `matched` flag is `matched`, each lesson counted for itself.
pub open spec fn counted(lessons: Seq<Name>, results: Seq<RunResult>, matched: bool) -> nat
    decreases lessons.len(),
{
    if lessons.len() == 0 {
        0
    } else {
        counted(lessons.drop_last(), results, matched) + count_in(results, lessons.last(), matched)
    }
}

/// One more result adds one to the count over a list of different lessons
/// if its lesson is in the list and its flag is the one counted, and
/// nothing if not.
proof fn lemma_counted_next(lessons: Seq<Name>, results: Seq<RunResult>, matched: bool)
    requires
        lessons.no_duplicates(),
        results.len() > 0,
    ensures
        counted(lessons, results, matched) == counted(lessons, results.drop_last(), matched) + if lessons.contains(
            results.last().lesson@,
        ) && results.last().matched == matched {
            1nat
        } else {
            0nat
        },
    decreases lessons.len(),
{
    if lessons.len() > 0 {
        let fewer = lessons.drop_last();
        let lesson = results.last().lesson@;
        assert(fewer.no_duplicates()) by {
            assert forall|i: int, j: int| 0 <= i < fewer.len() && 0 <= j < fewer.len() && i != j implies fewer[i]
                != fewer[j] by {
                assert(lessons[i] != lessons[j]);
            }
        }
        lemma_counted_next(fewer, results, matched);
        if fewer.contains(lesson) {
            let at = choose|at: int| 0 <= at < fewer.len() && fewer[at] == lesson;
            assert(lessons[at] == lesson);
            assert(lessons[lessons.len() - 1] != lessons[at]);
            assert(lessons.contains(lesson));
        } else if lessons.last() == lesson {
            assert(lessons[lessons.len() - 1] == lesson);
            assert(lessons.contains(lesson));
        } else {
            if lessons.contains(lesson) {
                let at = choose|at: int| 0 <= at < lessons.len() && lessons[at] == lesson;
                assert(fewer[at] == lesson);
            }
        }
    }
}

/// The counts of the first `n` tallies are the counts over the first `n`
/// lessons seen.
proof fn lemma_tallied_prefix(results: Seq<RunResult>, matched: bool, n: int)
    requires
        0 <= n <= lessons_seen(results).len(),
    ensures
        tallied(tallies_of(results).take(n), matched) == counted(lessons_seen(results).take(n), results, matched),
    decreases n,
{
    if n > 0 {
        lemma_tallied_prefix(results, matched, n - 1);
        assert(tallies_of(results).take(n).drop_last() == tallies_of(results).take(n - 1));
        assert(lessons_seen(results).take(n).drop_last() == lessons_seen(results).take(n - 1));
    }
}

/// Every result is counted once. The counts of the lessons add up to the
/// totals: the matched counts to the number of results that matched, the
/// others to the number of results that did not.
pub proof fn lemma_tallies_add_up(results: Seq<RunResult>, matched: bool)
    ensures
        tallied(tallies_of(results), matched) == count_all(results, matched),
    decreases results.len(),
{
    let seen = lessons_seen(results);
    lemma_tallied_prefix(results, matched, seen.len() as int);
    assert(tallies_of(results).take(seen.len() as int) == tallies_of(results));
    assert(seen.take(seen.len() as int) == seen);
    if results.len() > 0 {
        let shorter = results.drop_last();
        let earlier = lessons_seen(shorter);
        let lesson = results.last().lesson@;
        lemma_tallies_add_up(shorter, matched);
        lemma_tallied_prefix(shorter, matched, earlier.len() as int);
        assert(tallies_of(shorter).take(earlier.len() as int) == tallies_of(shorter));
        assert(earlier.take(earlier.len() as int) == earlier);
        lemma_lessons_seen(shorter);
        lemma_counted_next(earlier, results, matched);
        if !earlier.contains(lesson) {
            assert(seen.drop_last() == earlier);
            lemma_counts(shorter, lesson);
        }
    }
}

/// The prefix of length `n + 1` is the prefix of length `n` followed by the
/// result at `n`, and the counts of a lesson grow accordingly.
proof fn lemma_take_next(results: Seq<RunResult>, n: int)
    requires
        0 <= n < results.len(),
    ensures
        results.take(n + 1).drop_last() == results.take(n),
        results.take(n + 1).last() == results[n],
        forall|lesson: Name, matched: bool| #[trigger]
            count_in(results.take(n + 1), lesson, matched) == count_in(results.take(n), lesson, matched) + (if results[n].lesson@
                == lesson && results[n].matched == matched {
                1nat
            } else {
                0nat
            }),
{
    assert(results.take(n + 1).drop_last() == results.take(n));
}

/// The position in `tallies` of the lesson called `lesson`, if it has a
/// tally.
fn tally_index(tallies: &Vec<LessonTally>, lesson: &String) -> (found: Option<usize>)
    ensures
        match found {
            Some(k) => k < tallies@.len() && tallies@[k as int].lesson@ == lesson@,
            None => forall|k: int| 0 <= k < tallies@.len() ==> tallies@[k].lesson@ != lesson@,
        },
{
    let mut k: usize = 0;
    while k < tallies.len()
        invariant
            k <= tallies.len(),
            forall|e: int| 0 <= e < k ==> tallies@[e].lesson@ != lesson@,
        decreases tallies.len() - k,
    {
        if tallies[k].lesson == *lesson {
            return Some(k);
        }
        k += 1;
    }
    None
}

/// Counts, lesson by lesson, the results that matched and those that did
/// not. The lessons come in the order in which they first occur in
/// `results`.
pub fn tally(results: &Vec<RunResult>) -> (tallies: Vec<LessonTally>)
    ensures
        tally_views(tallies@) == tallies_of(results@),
{
    let mut tallies: Vec<LessonTally> = Vec::new();
    let mut n: usize = 0;
    proof {
        assert(tally_views(tallies@) =~= tallies_of(results@.take(0)));
    }
    while n < results.len()
        invariant
            n <= results.len(),
            tally_views(tallies@) == tallies_of(results@.take(n as int)),
        decreases results.len() - n,
    {
        let ghost before = results@.take(n as int);
        let ghost after = results@.take(n + 1);
        let ghost seen = lessons_seen(before);
        let ghost old_tallies = tallies@;
        let result = &results[n];
        proof {
            lemma_take_next(results@, n as int);
            lemma_lessons_seen(before);
            assert(tally_views(tallies@).len() == tallies@.len());
            assert(tallies_of(before).len() == seen.len());
            assert(tallies@.len() == seen.len());
            assert forall|k: int| 0 <= k < tallies@.len() implies tallies@[k]@ == tallies_of(before)[k] by {
                assert(tally_views(tallies@)[k] == tallies@[k]@);
            }
        }
        match tally_index(&tallies, &result.lesson) {
            Some(k) => {
                proof {
                    assert(tallies@[k as int]@ == tallies_of(before)[k as int]);
                    assert(seen[k as int] == result.lesson@);
                    assert(seen.contains(result.lesson@));
                    assert(lessons_seen(after) == seen);
                    lemma_counts(before, result.lesson@);
                }
                let updated = if result.matched {
                    LessonTally {
                        lesson: tallies[k].lesson.clone(),
                        matched: tallies[k].matched + 1,
                        mismatched: tallies[k].mismatched,
                    }
                } else {
                    LessonTally {
                        lesson: tallies[k].lesson.clone(),
                        matched: tallies[k].matched,
                        mismatched: tallies[k].mismatched + 1,
                    }
                };
                tallies.set(k, updated);
                proof {
                    assert forall|e: int| 0 <= e < tallies@.len() implies tallies@[e]@ == tallies_of(after)[e] by {
                        assert(old_tallies[e]@ == tallies_of(before)[e]);
                        if e != k {
                            assert(tallies@[e] == old_tallies[e]);
                            assert(seen[e] != seen[k as int]);
                        }
                    }
                    assert(tally_views(tallies@) =~= tallies_of(after));
                }
            },
            None => {
                proof {
                    assert(!seen.contains(result.lesson@)) by {
                        if seen.contains(result.lesson@) {
                            let at = choose|at: int| 0 <= at < seen.len() && seen[at] == result.lesson@;
                            assert(tallies@[at]@ == tallies_of(before)[at]);
                        }
                    }
                    assert(lessons_seen(after) == seen.push(result.lesson@));
                    lemma_counts(before, result.lesson@);
                }
                let added = if result.matched {
                    LessonTally { lesson: result.lesson.clone(), matched: 1, mismatched: 0 }
                } else {
                    LessonTally { lesson: result.lesson.clone(), matched: 0, mismatched: 1 }
                };
                tallies.push(added);
                proof {
                    assert forall|e: int| 0 <= e < tallies@.len() implies tallies@[e]@ == tallies_of(after)[e] by {
                        if e < old_tallies.len() {
                            assert(tallies@[e] == old_tallies[e]);
                            assert(old_tallies[e]@ == tallies_of(before)[e]);
                            assert(seen[e] != result.lesson@);
                        }
                    }
                    assert(tally_views(tallies@) =~= tallies_of(after));
                }
            },
        }
        n += 1;
    }
    proof {
        assert(results@.take(n as int) == results@);
    }
    tallies
}

/// The number of results whose `matched` flag is `matched`.
pub fn count_results(results: &Vec<RunResult>, matched: bool) -> (count: usize)
    ensures
        count == count_all(results@, matched),
{
    let mut count: usize = 0;
    let mut n: usize = 0;
    proof {
        assert(count_all(results@.take(0), matched) == 0);
    }
    while n < results.len()
        invariant
            n <= results.len(),
            count <= n,
            count == count_all(results@.take(n as int), matched),
        decreases results.len() - n,
    {
        proof {
            lemma_take_next(results@, n as int);
        }
        if results[n].matched == matched {
            count += 1;
        }
        n += 1;
    }
    proof {
        assert(results@.take(n as int) == results@);
    }
    count
}

/// The position of the first result that did not match its unit's
/// expectation; none when every result matched.
pub fn first_mismatch(results: &Vec<RunResult>) -> (found: Option<usize>)
    ensures
        match found {
            Some(k) => is_first_mismatch(results@, k as int),
            None => all_matched(results@),
        },
{
    let mut k: usize = 0;
    while k < results.len()
        invariant
            k <= results.len(),
            forall|i: int| 0 <= i < k ==> results@[i].matched,
        decreases results.len() - k,
    {
        if !results[k].matched {
            return Some(k);
        }
        k += 1;
    }
    None
}

/// The exit code of a run: zero when every result matched, one otherwise.
pub fn exit_code(results: &Vec<RunResult>) -> (code: i32)
    ensures
        code == if all_matched(results@) {
            0i32
        } else {
            1i32
        },
{
    match first_mismatch(results) {
        Some(k) => {
            assert(!results@[k as int].matched);
            1
        },
        None => 0,
    }
}

/// The line of one lesson: its name and its two counts.
pub open spec fn tally_line(tally: Tally) -> Seq<char> {
    tally.lesson + ": "@ + decimal(tally.matched) + " matched, "@ + decimal(tally.mismatched)
        + " mismatched\n"@
}

/// The lines of `tallies`, in order.
pub open spec fn tally_lines(tallies: Seq<Tally>) -> Seq<char>
    decreases tallies.len(),
{
    if tallies.len() == 0 {
        Seq::empty()
    } else {
        tally_lines(tallies.drop_last()) + tally_line(tallies.last())
    }
}

/// The line of totals over all results.
pub open spec fn total_line(results: Seq<RunResult>) -> Seq<char> {
    "total: "@ + decimal(count_all(results, true)) + " matched, "@ + decimal(count_all(results, false))
        + " mismatched\n"@
}

/// What went wrong in a result that did not match: the reason of a failure
/// that was not expected, or the remark that a failure was expected and did
/// not come.
pub open spec fn failure_detail(outcome: Outcome) -> Seq<char> {
    match outcome {
        Outcome::Failed(reason) => "failed: "@ + reason@,
        Outcome::Succeeded => "succeeded, but was expected to fail"@,
    }
}

/// The line that names a result that did not match and says what went
/// wrong.
pub open spec fn failure_line(result: RunResult) -> Seq<char> {
    "first failure: "@ + result.lesson@ + "/"@ + result.unit@ + ": "@ + failure_detail(result.outcome)
        + "\n"@
}

/// The line about the first result that did not match; empty when every
/// result matched.
pub open spec fn first_failure_text(results: Seq<RunResult>) -> Seq<char> {
    if all_matched(results) {
        Seq::empty()
    } else {
        failure_line(results[choose|k: int| is_first_mismatch(results, k)])
    }
}

/// The summary of `results`: a line for each lesson seen, the totals, and
/// the first failure if there is one.
pub open spec fn report_text(results: Seq<RunResult>) -> Seq<char> {
    tally_lines(tallies_of(results)) + total_line(results) + first_failure_text(results)
}

/// Appends the line of `tally` to `text`.
fn push_tally_line(text: &mut String, tally: &LessonTally)
    ensures
        final(text)@ == old(text)@ + tally_line(tally@),
{
    text.append(tally.lesson.as_str());
    text.append(": ");
    push_decimal(text, tally.matched);
    text.append(" matched, ");
    push_decimal(text, tally.mismatched);
    text.append(" mismatched\n");
    proof {
        assert(text@ =~= old(text)@ + tally_line(tally@));
    }
}

/// Appends the line about `result`, a result that did not match, to `text`.
fn push_failure_line(text: &mut String, result: &RunResult)
    ensures
        final(text)@ == old(text)@ + failure_line(*result),
{
    text.append("first failure: ");
    text.append(result.lesson.as_str());
    text.append("/");
    text.append(result.unit.as_str());
    text.append(": ");
    match &result.outcome {
        Outcome::Failed(reason) => {
            text.append("failed: ");
            text.append(reason.as_str());
        },
        Outcome::Succeeded => {
            text.append("succeeded, but was expected to fail");
        },
    }
    text.append("\n");
    proof {
        assert(text@ =~= old(text)@ + failure_line(*result));
    }
}

/// Renders the summary of a run as text.
pub fn render(results: &Vec<RunResult>) -> (text: String)
    ensures
        text@ == report_text(results@),
{
    let tallies = tally(results);
    let mut text = String::new();
    let mut k: usize = 0;
    proof {
        assert(tally_views(tallies@).take(0) =~= Seq::<Tally>::empty());
    }
    while k < tallies.len()
        invariant
            k <= tallies.len(),
            text@ == tally_lines(tally_views(tallies@).take(k as int)),
        decreases tallies.len() - k,
    {
        push_tally_line(&mut text, &tallies[k]);
        proof {
            let longer = tally_views(tallies@).take(k + 1);
            assert(longer.drop_last() == tally_views(tallies@).take(k as int));
            assert(longer.last() == tallies@[k as int]@);
        }
        k += 1;
    }
    proof {
        assert(tally_views(tallies@).take(k as int) == tally_views(tallies@));
    }
    let matched = count_results(results, true);
    let mismatched = count_results(results, false);
    let ghost lines = text@;
    text.append("total: ");
    push_decimal(&mut text, matched);
    text.append(" matched, ");
    push_decimal(&mut text, mismatched);
    text.append(" mismatched\n");
    proof {
        assert(text@ =~= lines + total_line(results@));
    }
    match first_mismatch(results) {
        Some(at) => {
            push_failure_line(&mut text, &results[at]);
            proof {
                assert(!all_matched(results@));
                lemma_first_mismatch_is(results@, at as int);
            }
        },
        None => {
            proof {
                assert(text@ =~= lines + total_line(results@) + Seq::<char>::empty());
            }
        },
    }
    text
}

/// A first mismatch is the only first mismatch.
pub proof fn lemma_first_mismatch_is(results: Seq<RunResult>, k: int)
    requires
        is_first_mismatch(results, k),
    ensures
        (choose|c: int| is_first_mismatch(results, c)) == k,
{
    let c = choose|c: int| is_first_mismatch(results, c);
    assert(is_first_mismatch(results, c));
    if c < k {
        assert(results[c].matched);
    } else if k < c {
        assert(results[k].matched);
    }
}

} // verus!
