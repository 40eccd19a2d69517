//! Ownership, as the classes show it: the examples whose course of events
//! differs from that of the full files.

use vstd::prelude::*;
use vstd::string::{StrSliceExecFns, StringExecFns};
use vstd::utf8::{is_ascii_chars, is_ascii_chars_encode_utf8};
use crate::lessons::ownership::{calculate_length, change, no_dangle};

verus! {

/// A vector is pushed to and popped from; two of its elements are read
/// through references, and one of the references is then made to point at
/// their sum, so that what is added up in the end is the sum and the first
/// element. A string in another vector is pushed to through a mutable
/// reference. Then fifty is added to each element of the first vector in
/// place. Returns the number added up, the string, the elements before
/// fifty was added, and the vector at the end.
pub fn vec() -> (values: (i32, String, Vec<i32>, Vec<i32>))
    ensures
        values.0 == 16,
        values.1@ == "asd"@.push('a'),
        values.2@ == seq![5i32, 5i32, 6i32],
        values.3@ == seq![55i32, 55i32, 56i32],
{
    let mut v: Vec<i32> = Vec::new();
    v.push(5);
    v.push(5);
    v.push(6);
    v.push(5);
    v.pop();
    let n: &i32 = &v[0];
    let mut nn: &i32 = &v[2];
    let nn3: i32 = *nn + *n;
    nn = &nn3;
    let sum: i32 = *nn + *n;
    let mut x = "asd".to_owned();
    x.push('a');
    let before = v.clone();
    assert(before@ =~= seq![5i32, 5i32, 6i32]);
    let mut i: usize = 0;
    while i < v.len()
        invariant
            i <= v.len(),
            v@.len() == 3,
            forall|k: int| 0 <= k < i ==> v@[k] == seq![55i32, 55i32, 56i32][k],
            forall|k: int| i <= k < 3 ==> v@[k] == seq![5i32, 5i32, 6i32][k],
        decreases v.len() - i,
    {
        let raised: i32 = v[i] + 50;
        v.set(i, raised);
        i += 1;
    }
    assert(v@ =~= seq![55i32, 55i32, 56i32]);
    (sum, x, before, v)
}

/// Strings and string slices: a slice of the first two characters of a
/// string, a sentence put together from two strings, and the characters of
/// a string one by one. Returns the three.
pub fn strings() -> (shown: (String, String, Vec<char>))
    ensures
        shown.0@ == "wa"@,
        shown.1@ == "hell is real to worldlings"@,
        shown.2@ == seq!['h', 'e', 'l', 'l'],
{
    let str_string: &str = "wat";
    let mut str_string2 = "wht";
    let _s: String = "asd".to_owned();
    str_string2 = "mehs";
    let str_string = str_string.to_owned();
    let strptr_string: &String = &str_string;
    proof {
        reveal_strlit("wat");
        reveal_strlit("wa");
        reveal_strlit("hell");
        reveal_strlit("o world");
        reveal_strlit(" is real t");
        reveal_strlit("lings");
        reveal_strlit("hell is real to worldlings");
        assert(is_ascii_chars(str_string@));
    }
    let str_slice: &str = strptr_string.as_str().substring_ascii(0, 2);
    let s0 = "hell".to_owned();
    let mut s = "hell".to_owned();
    let t = "o world".to_owned();
    s.append(t.as_str());
    let r = s0.clone().concat(" is real t").concat(t.as_str()).concat("lings");
    let mut chars: Vec<char> = Vec::new();
    for c in it: s0.as_str().chars()
        invariant
            it.seq() == s0@,
            chars@ == s0@.take(it.index()),
    {
        chars.push(c);
    }
    proof {
        assert(s0@.take(4) =~= seq!['h', 'e', 'l', 'l']);
        assert(str_slice@ =~= "wa"@);
        assert(r@ =~= "hell is real to worldlings"@);
    }
    (str_slice.to_owned(), r, chars)
}

/// References and borrowing: the length of a string is taken through a
/// shared reference, the string is then pushed to twice, another string is
/// changed through a mutable reference, and a string comes back from a
/// function by value. Returns the length, the first string at the end, the
/// changed string, and the string that came back.
pub fn refs_and_borrowing() -> (shown: (usize, String, String, String))
    ensures
        shown.0 == 5,
        shown.1@ == "hello"@.push('a').push('a'),
        shown.2@ == "hello"@ + ", world"@,
        shown.3@ == "hello"@,
{
    let mut s1 = "hello".to_owned();
    proof {
        reveal_strlit("hello");
        is_ascii_chars_encode_utf8("hello"@);
    }
    let len = calculate_length(&s1);
    s1.push('a');
    s1.push('a');
    let mut s = "hello".to_owned();
    change(&mut s);
    let string = no_dangle();
    (len, s1, s, string)
}

/// Slices of a string, an array and a vector. Returns the two words of
/// `hello world`, the third element of the vector's slice read by index,
/// and the same element asked for with `get`.
pub fn slices() -> (shown: (String, String, i32, Option<i32>))
    ensures
        shown.0@ == "hello"@,
        shown.1@ == "world"@,
        shown.2 == 4,
        shown.3 == Some(4i32),
{
    let s: String = "hello world".to_owned();
    proof {
        reveal_strlit("hello world");
        reveal_strlit("hello");
        reveal_strlit("world");
        assert(is_ascii_chars(s@));
    }
    let hello: &str = s.as_str().substring_ascii(0, 5);
    let world: &str = s.as_str().substring_ascii(6, 11);
    proof {
        assert(hello@ =~= "hello"@);
        assert(world@ =~= "world"@);
    }
    let a: [i32; 5] = [1, 2, 3, 4, 5];
    let slice = &a[1..3];
    assert(slice@ == seq![2i32, 3i32]);
    let v: Vec<i32> = vec![1, 2, 3, 4, 5];
    let v = &v[1..4];
    let third: &i32 = &v[2];
    let asked = match v.get(2) {
        Some(third) => Some(*third),
        None => None,
    };
    (hello.to_owned(), world.to_owned(), *third, asked)
}

} // verus!
