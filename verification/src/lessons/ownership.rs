//! Ownership, references and borrowing.

use vstd::prelude::*;
use vstd::string::StringExecFns;
use vstd::utf8::encode_utf8;
use crate::names::{lemma_position_found, lemma_position_is_first, lemma_push_fresh, position, Name};

verus! {

/// What a reference points to can be mutable, and so can the reference
/// itself: `y` first changes the string it points to, and is then made to
/// point elsewhere.
pub fn mutability() {
    let mut first = "asd".to_owned();
    let x: &mut String = &mut first;
    let other = "ad".to_owned();
    let mut z: &String = &other;
    z = z;
    let mut second = "asdasd".to_owned();
    let mut y: &mut String = &mut second;
    y.push('a');
    y = x;
    assert(second@ == "asdasd"@.push('a'));
    assert(z@ == "ad"@);
}

/// The length of `s`, counted in the bytes of its UTF-8 encoding, through a
/// shared reference: the caller keeps the string.
pub fn calculate_length(s: &String) -> (length: usize)
    ensures
        length == encode_utf8(s@).len() as usize,
{
    s.as_str().len()
}

/// Appends `", world"` to the string behind a mutable reference.
pub fn change(some_string: &mut String)
    ensures
        final(some_string)@ == old(some_string)@ + ", world"@,
{
    some_string.append(", world");
}

/// Returns an owned string, which moves out to the caller; there is nothing
/// left behind that a reference could dangle into.
pub fn no_dangle() -> (s: String)
    ensures
        s@ == "hello"@,
{
    let s = "hello".to_owned();
    s
}

/// A string literal lives for the whole program, so a reference to it can
/// be returned.
pub fn danglestr() -> (ss: &'static str)
    ensures
        ss@ == "hi"@,
{
    let ss = "hi";
    ss
}

/// `at` is where the first `6` of `v` stands.
pub open spec fn is_first_six(v: Seq<i32>, at: int) -> bool {
    &&& 0 <= at < v.len()
    &&& v[at] == 6
    &&& forall|k: int| 0 <= k < at ==> v[k] != 6
}

/// The position of the first `6` in `v`, or `-1` when `v` holds none.
pub fn findinv(v: &Vec<i32>) -> (found: i32)
    requires
        v@.len() <= i32::MAX,
    ensures
        found == -1 <==> !v@.contains(6),
        found != -1 ==> is_first_six(v@, found as int),
{
    let mut counter: i32 = 0;
    for x in it: v.iter()
        invariant
            it.seq() == v@.as_ref(),
            counter == it.index(),
            v@.len() <= i32::MAX,
            forall|k: int| 0 <= k < it.index() ==> v@[k] != 6,
    {
        if *x == 6 {
            assert(v@[counter as int] == 6);
            return counter;
        }
        counter += 1;
    }
    return -1;
}

/// A vector stays usable after a function has borrowed it: the search
/// finds the `6` that was pushed second, and the vector can be pushed to
/// again.
pub fn testvec() {
    let mut v = vec![5];
    v.push(6);
    let sixindex = findinv(&v);
    assert(sixindex == 1) by {
        assert(v@[1] == 6);
        assert(v@.contains(6));
    }
    v.push(9);
    assert(v@ =~= seq![5, 6, 9]);
}

/// Takes a string by value and hands it back as the text to show: the
/// caller has given the string away.
fn takes_ownership(some_string: String) -> (shown: String)
    ensures
        shown == some_string,
{
    some_string
}

/// Takes a number by value and hands it back as the number to show: the
/// caller still has its copy.
fn makes_copy(some_integer: i32) -> (shown: i32)
    ensures
        shown == some_integer,
{
    some_integer
}

/// A string is moved into a function and a number is copied into one.
/// Returns what the two functions show.
pub fn ownership_for_functions() -> (shown: (String, i32))
    ensures
        shown.0@ == "hello"@,
        shown.1 == 5,
{
    let s = "hello".to_owned();
    let first = takes_ownership(s);
    let x: i32 = 5;
    let second = makes_copy(x);
    assert(x == 5);
    (first, second)
}

/// Moves, clones and copies: a string is moved, a string is cloned and both
/// clones are used, a number is copied and both copies are used. Returns
/// the two clones, the two copies, and what `ownership_for_functions`
/// shows.
pub fn ownership() -> (shown: (String, String, i32, i32, String, i32))
    ensures
        shown.0@ == "hello"@,
        shown.1@ == "hello"@,
        shown.2 == 5,
        shown.3 == 5,
        shown.4@ == "hello"@,
        shown.5 == 5,
{
    let moved = "hello".to_owned();
    {
        let _s2 = moved;
    }
    let s1 = "hello".to_owned();
    let s2 = s1.clone();
    let x: i32 = 5;
    let y = x;
    let (text, number) = ownership_for_functions();
    (s1, s2, x, y, text, number)
}

/// The scores of teams, found by the team's name. A team has one score:
/// setting a score for a team that has one replaces it.
pub struct Scores {
    entries: Vec<(String, i32)>,
}

/// The names of the teams of `entries`, in order.
pub open spec fn teams(entries: Seq<(String, i32)>) -> Seq<Name> {
    entries.map_values(|entry: (String, i32)| entry.0@)
}

/// The score that `entries` hold for `team`, if they hold one.
pub open spec fn score_of(entries: Seq<(String, i32)>, team: Name) -> Option<i32> {
    match position(teams(entries), team) {
        Some(i) => Some(entries[i].1),
        None => None,
    }
}

impl Scores {
    /// The teams with their scores, in the order in which the teams were
    /// first given a score.
    pub closed spec fn view(&self) -> Seq<(String, i32)> {
        self.entries@
    }

    /// No team occurs twice.
    pub open spec fn wf(&self) -> bool {
        teams(self@).no_duplicates()
    }

    /// No scores.
    pub fn new() -> (scores: Scores)
        ensures
            scores.wf(),
            scores@.len() == 0,
    {
        Scores { entries: Vec::new() }
    }

    /// Where `team` stands, if it has a score.
    fn index_of(&self, team: &String) -> (found: Option<usize>)
        ensures
            match found {
                Some(i) => i < self@.len() && position(teams(self@), team@) == Some(i as int),
                None => position(teams(self@), team@) is None,
            },
    {
        let mut i: usize = 0;
        while i < self.entries.len()
            invariant
                i <= self.entries.len(),
                forall|k: int| 0 <= k < i ==> teams(self.entries@)[k] != team@,
            decreases self.entries.len() - i,
        {
            if self.entries[i].0 == *team {
                proof {
                    lemma_position_is_first(teams(self.entries@), team@, i as int);
                }
                return Some(i);
            }
            i += 1;
        }
        None
    }

    /// Sets the score of `team` and returns the score it had before, if it
    /// had one. The scores of the other teams stay as they are.
    pub fn insert(&mut self, team: String, score: i32) -> (before: Option<i32>)
        requires
            old(self).wf(),
        ensures
            final(self).wf(),
            before == score_of(old(self)@, team@),
            score_of(final(self)@, team@) == Some(score),
            forall|other: Name| other != team@ ==> score_of(final(self)@, other) == score_of(old(self)@, other),
            match position(teams(old(self)@), team@) {
                Some(i) => teams(final(self)@) == teams(old(self)@),
                None => teams(final(self)@) == teams(old(self)@).push(team@),
            },
    {
        let ghost old_entries = self.entries@;
        let ghost name = team@;
        match self.index_of(&team) {
            Some(i) => {
                let before = self.entries[i].1;
                self.entries.set(i, (team, score));
                proof {
                    lemma_position_found(teams(old_entries), name);
                    assert(teams(self.entries@) =~= teams(old_entries));
                    assert forall|other: Name| other != name implies score_of(self.entries@, other) == score_of(
                        old_entries,
                        other,
                    ) by {
                        if teams(old_entries).contains(other) {
                            lemma_position_found(teams(old_entries), other);
                            let at = position(teams(old_entries), other)->0;
                            assert(teams(old_entries)[at] == other);
                            assert(at != i);
                        }
                    }
                }
                Some(before)
            },
            None => {
                self.entries.push((team, score));
                proof {
                    let names = teams(self.entries@);
                    assert(names =~= teams(old_entries).push(name));
                    lemma_push_fresh(teams(old_entries), name);
                    assert forall|k: int| 0 <= k < old_entries.len() implies names[k] != name by {
                        assert(teams(old_entries)[k] == names[k]);
                        assert(teams(old_entries).contains(names[k]));
                    }
                    lemma_position_is_first(names, name, old_entries.len() as int);
                    assert forall|other: Name| other != name implies score_of(self.entries@, other) == score_of(
                        old_entries,
                        other,
                    ) by {
                        if teams(old_entries).contains(other) {
                            lemma_position_found(teams(old_entries), other);
                            let at = position(teams(old_entries), other)->0;
                            assert(names[at] == other);
                            assert forall|k: int| 0 <= k < at implies names[k] != other by {
                                assert(teams(old_entries)[k] == names[k]);
                            }
                            lemma_position_is_first(names, other, at);
                        } else {
                            if names.contains(other) {
                                let at = choose|at: int| 0 <= at < names.len() && names[at] == other;
                                assert(teams(old_entries)[at] == other);
                            }
                        }
                    }
                }
                None
            },
        }
    }

    /// The score of `team`, if it has one.
    pub fn get(&self, team: &str) -> (score: Option<i32>)
        ensures
            score == score_of(self@, team@),
    {
        let wanted = team.to_owned();
        match self.index_of(&wanted) {
            Some(i) => Some(self.entries[i].1),
            None => None,
        }
    }

    /// The teams with their scores, in the order in which the teams were
    /// first given a score.
    pub fn entries(&self) -> (entries: &Vec<(String, i32)>)
        ensures
            entries@ == self@,
    {
        &self.entries
    }
}

/// Two teams are given scores, then the first is given another score, which
/// replaces the one it had. Returns the scores as they were before that,
/// team by team, and the score of the first team at the end.
pub fn hashmap() -> (shown: (Vec<(String, i32)>, i32))
    ensures
        shown.0@.len() == 2,
        shown.0@[0].0@ == "Blue"@ && shown.0@[0].1 == 10,
        shown.0@[1].0@ == "Yellow"@ && shown.0@[1].1 == 50,
        shown.1 == 25,
{
    let mut scores = Scores::new();
    proof {
        reveal_strlit("Blue");
        reveal_strlit("Yellow");
        assert("Blue"@.len() != "Yellow"@.len());
    }
    scores.insert("Blue".to_owned(), 10);
    assert(teams(scores@) =~= seq!["Blue"@]);
    scores.insert("Yellow".to_owned(), 50);
    assert(teams(scores@) =~= seq!["Blue"@, "Yellow"@]);
    proof {
        lemma_position_is_first(teams(scores@), "Blue"@, 0);
        lemma_position_is_first(teams(scores@), "Yellow"@, 1);
    }
    let mut listed: Vec<(String, i32)> = Vec::new();
    let first = &scores.entries()[0];
    listed.push((first.0.clone(), first.1));
    let second = &scores.entries()[1];
    listed.push((second.0.clone(), second.1));
    scores.insert("Blue".to_owned(), 25);
    let blue_scores = scores.get("Blue");
    (listed, blue_scores.unwrap())
}

} // verus!
