//! Enums, `Option`, and counting with `match`-like tests.

use vstd::prelude::*;

verus! {

/// The two kinds of internet address.
#[derive(Clone, Copy, Debug, PartialEq, Eq, Structural)]
pub enum IpAddrKind {
    V4,
    V6,
}

/// An internet address with its data: variants of one enum may carry
/// different fields, or none.
pub enum IpAddr {
    V4(i32, i32, i32, i32),
    V6(String),
    V0(),
}

/// The first field of a version-four address; zero for every other address.
pub fn first_field(address: &IpAddr) -> (field: i32)
    ensures
        field == match *address {
            IpAddr::V4(a, _, _, _) => a,
            _ => 0i32,
        },
{
    match address {
        IpAddr::V4(a, _, _, _) => *a,
        _ => 0,
    }
}

/// Whether two optional numbers are both present and equal.
pub fn both_same(left: Option<i32>, right: Option<i32>) -> (same: bool)
    ensures
        same == (left is Some && right is Some && left->0 == right->0),
{
    match (left, right) {
        (Some(o), Some(n)) => o == n,
        (Some(_), None) => false,
        (None, Some(_)) => false,
        (None, None) => false,
    }
}

/// Builds values of both enums.
pub fn enum_usage() {
    let _four = IpAddrKind::V4;
    let _six = IpAddrKind::V6;
    let loopback = IpAddr::V6("::1".to_owned());
    let home = IpAddr::V4(127, 0, 0, 1);
    assert(home is V4 && home->V4_0 == 127);
    assert(loopback is V6);
}

/// Always `None`.
pub fn retn() -> (r: Option<i32>)
    ensures
        r is None,
{
    return None;
}

/// `c` is the letter s, small or capital.
pub open spec fn is_s(c: char) -> bool {
    c == 's' || c == 'S'
}

/// The number of letters s, small or capital, in `text`.
pub open spec fn count_s(text: Seq<char>) -> nat {
    text.filter(|c: char| is_s(c)).len()
}

/// Counts the letters s, small or capital, in `string`.
#[allow(non_snake_case)]
pub fn calculateS(string: &String) -> (count: i32)
    requires
        count_s(string@) <= i32::MAX,
    ensures
        count == count_s(string@),
{
    let mut count: i32 = 0;
    for x in it: string.as_str().chars()
        invariant
            it.seq() == string@,
            count == count_s(string@.take(it.index())),
            count_s(string@) <= i32::MAX,
    {
        proof {
            lemma_count_s_next(string@, it.index());
            lemma_count_s_prefix(string@, it.index() + 1);
        }
        if x == 's' || x == 'S' {
            count += 1;
        }
    }
    proof {
        assert(string@.take(string@.len() as int) == string@);
    }
    return count;
}

/// Counting one character further adds one exactly when that character is
/// a letter s.
pub proof fn lemma_count_s_next(text: Seq<char>, n: int)
    requires
        0 <= n < text.len(),
    ensures
        count_s(text.take(n + 1)) == count_s(text.take(n)) + if is_s(text[n]) {
            1nat
        } else {
            0nat
        },
{
    let longer = text.take(n + 1);
    assert(longer.drop_last() == text.take(n));
    assert(longer.last() == text[n]);
    reveal(Seq::filter);
}

/// A prefix holds no more letters s than the whole text.
pub proof fn lemma_count_s_prefix(text: Seq<char>, n: int)
    requires
        0 <= n <= text.len(),
    ensures
        count_s(text.take(n)) <= count_s(text),
    decreases text.len() - n,
{
    if n < text.len() {
        lemma_count_s_next(text, n);
        lemma_count_s_prefix(text, n + 1);
    } else {
        assert(text.take(n) == text);
    }
}

/// Two ways to read a vector: indexing, which needs an index that is there,
/// and `get`, which answers with an option. Returns the two elements by
/// index, the two elements by `get`, and whether there is a third element,
/// asked with a `match` and asked with `is_some`.
pub fn collectionerrors() -> (shown: (i32, i32, i32, i32, bool, bool))
    ensures
        shown == (10i32, 20i32, 10i32, 20i32, false, false),
{
    let num: Vec<i32> = vec![10, 20];
    let first = num[0];
    let second = num[1];
    let first_again = *num.get(0).unwrap();
    let second_again = *num.get(1).unwrap();
    let found_by_match = match num.get(2) {
        Some(_n) => true,
        None => false,
    };
    let found_by_test = num.get(2).is_some();
    (first, second, first_again, second_again, found_by_match, found_by_test)
}

} // verus!
