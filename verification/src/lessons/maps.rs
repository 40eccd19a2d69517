//! Mapping over collections.

use vstd::prelude::*;
use crate::std_specs::{
    digits_value, is_digit, parse_u32, parsed_u32, replace_char, replaced, without_plus,
};

verus! {

/// A node that holds a number.
#[derive(Debug)]
pub struct Node {
    content: i32,
}

impl Node {
    /// The number that the node holds.
    pub closed spec fn spec_content(&self) -> i32 {
        self.content
    }

    /// A node that holds `content`.
    pub fn new(content: i32) -> (node: Node)
        ensures
            node.content() == content,
    {
        Node { content }
    }

    /// The number that the node holds.
    #[verifier::when_used_as_spec(spec_content)]
    pub fn content(&self) -> (content: i32)
        ensures
            content == self.content(),
    {
        self.content
    }

    /// Whether the two nodes hold the same number.
    fn eq_content(&self, o: &Node) -> (same: bool)
        ensures
            same == (self.content() == o.content()),
    {
        self.content == o.content
    }

    /// Whether the two nodes hold the same number.
    pub fn eq(&self, o: &Node) -> (same: bool)
        ensures
            same == (self.content() == o.content()),
    {
        self.eq_content(o)
    }

    /// Adds one to the number that the node holds.
    pub fn inc_content(&mut self)
        requires
            old(self).content() < i32::MAX,
        ensures
            final(self).content() == old(self).content() + 1,
    {
        self.content += 1;
    }
}

/// The numbers 3, 6, 9 and 12, each times ten.
pub fn singlemap() -> (result: Vec<i32>)
    ensures
        result@ == seq![30i32, 60i32, 90i32, 120i32],
{
    let numbers: Vec<i32> = vec![3, 6, 9, 12];
    let mut result: Vec<i32> = Vec::new();
    for n in it: numbers.iter()
        invariant
            it.seq() == numbers@.as_ref(),
            numbers@ == seq![3i32, 6i32, 9i32, 12i32],
            result@.len() == it.index(),
            forall|k: int| 0 <= k < result@.len() ==> result@[k] == numbers@[k] * 10,
    {
        result.push(*n * 10);
    }
    assert(result@ =~= seq![30i32, 60i32, 90i32, 120i32]);
    result
}

/// The numbers 3, 6, 9 and 12, each times ten and then divided by three.
pub fn twomaps() -> (result: Vec<i32>)
    ensures
        result@ == seq![10i32, 20i32, 30i32, 40i32],
{
    let numbers: Vec<i32> = vec![3, 6, 9, 12];
    let mut result: Vec<i32> = Vec::new();
    for n in it: numbers.iter()
        invariant
            it.seq() == numbers@.as_ref(),
            numbers@ == seq![3i32, 6i32, 9i32, 12i32],
            result@.len() == it.index(),
            forall|k: int| 0 <= k < result@.len() ==> result@[k] == numbers@[k] * 10 / 3,
    {
        let ten_times: i32 = *n * 10;
        result.push(ten_times / 3);
    }
    assert(result@ =~= seq![10i32, 20i32, 30i32, 40i32]);
    result
}

/// The numbers as `singlemap` gives them, and how often the mapped
/// function ran to give them: once for each number, as the results were
/// collected.
pub fn lazymap_collect() -> (outcome: (Vec<i32>, i32))
    ensures
        outcome.0@ == seq![30i32, 60i32, 90i32, 120i32],
        outcome.1 == 4,
{
    let numbers: Vec<i32> = vec![3, 6, 9, 12];
    let mut number_of_times: i32 = 0;
    let mut result: Vec<i32> = Vec::new();
    for n in it: numbers.iter()
        invariant
            it.seq() == numbers@.as_ref(),
            numbers@ == seq![3i32, 6i32, 9i32, 12i32],
            result@.len() == it.index(),
            number_of_times == it.index(),
            forall|k: int| 0 <= k < result@.len() ==> result@[k] == numbers@[k] * 10,
    {
        number_of_times += 1;
        result.push(*n * 10);
    }
    assert(result@ =~= seq![30i32, 60i32, 90i32, 120i32]);
    (result, number_of_times)
}

/// The numbers that the texts of `texts` write, in order; a text that is
/// not a number is left out.
pub open spec fn numbers_in(texts: Seq<Seq<char>>) -> Seq<u32>
    decreases texts.len(),
{
    if texts.len() == 0 {
        Seq::empty()
    } else {
        match parsed_u32(texts.last()) {
            Some(number) => numbers_in(texts.drop_last()).push(number),
            None => numbers_in(texts.drop_last()),
        }
    }
}

/// Parses each text as a number and keeps the numbers: mapping to an
/// optional value and flattening drops what did not parse.
pub fn numbers_of(str_numbers: &Vec<&str>) -> (numbers: Vec<u32>)
    ensures
        numbers@ == numbers_in(str_numbers@.map_values(|text: &str| text@)),
{
    let ghost texts = str_numbers@.map_values(|text: &str| text@);
    let mut numbers: Vec<u32> = Vec::new();
    let mut i: usize = 0;
    proof {
        assert(texts.take(0) =~= Seq::<Seq<char>>::empty());
    }
    while i < str_numbers.len()
        invariant
            i <= str_numbers.len(),
            texts == str_numbers@.map_values(|text: &str| text@),
            numbers@ == numbers_in(texts.take(i as int)),
        decreases str_numbers.len() - i,
    {
        proof {
            assert(texts.take(i + 1).drop_last() == texts.take(i as int));
            assert(texts.take(i + 1).last() == str_numbers@[i as int]@);
        }
        match parse_u32(str_numbers[i]) {
            Ok(number) => {
                numbers.push(number);
            },
            Err(_) => {},
        }
        i += 1;
    }
    proof {
        assert(texts.take(i as int) == texts);
    }
    numbers
}

/// The numbers among the texts `1`, `2`, `3` and `I am not a number`.
pub fn maps_options() -> (numbers: Vec<u32>)
    ensures
        numbers@ == seq![1u32, 2u32, 3u32],
{
    let str_numbers: Vec<&str> = vec!["1", "2", "3", "I am not a number"];
    let numbers = numbers_of(&str_numbers);
    proof {
        let texts = str_numbers@.map_values(|text: &str| text@);
        reveal_strlit("1");
        reveal_strlit("2");
        reveal_strlit("3");
        reveal_strlit("I am not a number");
        assert(texts =~= seq!["1"@, "2"@, "3"@, "I am not a number"@]);
        reveal_with_fuel(numbers_in, 5);
        reveal_with_fuel(digits_value, 2);
        assert("1"@.drop_last() =~= Seq::<char>::empty());
        assert("2"@.drop_last() =~= Seq::<char>::empty());
        assert("3"@.drop_last() =~= Seq::<char>::empty());
        assert(parsed_u32("1"@) == Some(1u32));
        assert(parsed_u32("2"@) == Some(2u32));
        assert(parsed_u32("3"@) == Some(3u32));
        assert(parsed_u32("I am not a number"@) is None) by {
            let text = "I am not a number"@;
            assert(without_plus(text) == text);
            assert(!is_digit(text[0]));
        }
        let t3 = texts.drop_last();
        let t2 = t3.drop_last();
        let t1 = t2.drop_last();
        let t0 = t1.drop_last();
        assert(t0 =~= Seq::<Seq<char>>::empty());
        assert(numbers_in(t0) =~= Seq::<u32>::empty());
        assert(t1.last() == "1"@);
        assert(numbers_in(t1) =~= seq![1u32]);
        assert(t2.last() == "2"@);
        assert(numbers_in(t2) =~= seq![1u32, 2u32]);
        assert(t3.last() == "3"@);
        assert(numbers_in(t3) =~= seq![1u32, 2u32, 3u32]);
        assert(numbers_in(texts) =~= seq![1u32, 2u32, 3u32]);
    }
    numbers
}

/// Each text of `texts` with every `a` doubled, in the same order. The
/// texts are only read, so the caller keeps them.
pub fn doubled_a(texts: &Vec<String>) -> (doubled: Vec<String>)
    ensures
        doubled@.len() == texts@.len(),
        forall|k: int| 0 <= k < texts@.len() ==> (#[trigger] doubled@[k])@ == replaced(texts@[k]@, 'a', "aa"@),
{
    let mut doubled: Vec<String> = Vec::new();
    for x in it: texts.iter()
        invariant
            it.seq() == texts@.as_ref(),
            doubled@.len() == it.index(),
            forall|k: int| 0 <= k < doubled@.len() ==> (#[trigger] doubled@[k])@ == replaced(texts@[k]@, 'a', "aa"@),
    {
        doubled.push(replace_char(x.as_str(), 'a', "aa"));
    }
    doubled
}

/// Adds one to the number of each node, in place.
pub fn inc_all(nodes: &mut Vec<Node>)
    requires
        forall|k: int| 0 <= k < old(nodes)@.len() ==> (#[trigger] old(nodes)@[k]).content() < i32::MAX,
    ensures
        final(nodes)@.len() == old(nodes)@.len(),
        forall|k: int|
            0 <= k < old(nodes)@.len() ==> (#[trigger] final(nodes)@[k]).content() == old(nodes)@[k].content() + 1,
{
    let mut i: usize = 0;
    while i < nodes.len()
        invariant
            i <= nodes@.len(),
            nodes@.len() == old(nodes)@.len(),
            forall|k: int| 0 <= k < i ==> (#[trigger] nodes@[k]).content() == old(nodes)@[k].content() + 1,
            forall|k: int| i <= k < nodes@.len() ==> nodes@[k] == old(nodes)@[k],
            forall|k: int| 0 <= k < old(nodes)@.len() ==> (#[trigger] old(nodes)@[k]).content() < i32::MAX,
        decreases nodes@.len() - i,
    {
        let raised = Node::new(nodes[i].content() + 1);
        nodes.set(i, raised);
        i += 1;
    }
}

/// Three ways to map over a vector. Four texts are mapped by reference to
/// texts with every `a` doubled, and are still there afterwards. Four nodes
/// are changed in place through mutable references. Then the nodes are
/// moved out, one by one, into another vector. Returns the texts, the
/// mapped texts, and the vector that the nodes ended up in.
pub fn mapsownership() -> (outcome: (Vec<String>, Vec<String>, Vec<Node>))
    ensures
        outcome.0@.len() == 4 && outcome.1@.len() == 4 && outcome.2@.len() == 4,
        outcome.0@[0]@ == "asd1"@ && outcome.0@[1]@ == "asd2"@ && outcome.0@[2]@ == "asd3"@ && outcome.0@[3]@
            == "asd4"@,
        outcome.1@[0]@ == "aasd1"@ && outcome.1@[1]@ == "aasd2"@ && outcome.1@[2]@ == "aasd3"@
            && outcome.1@[3]@ == "aasd4"@,
        outcome.2@[0].content() == 11 && outcome.2@[1].content() == 21 && outcome.2@[2].content() == 41
            && outcome.2@[3].content() == 24,
{
    let mut v: Vec<String> = Vec::new();
    v.push("asd1".to_owned());
    v.push("asd2".to_owned());
    v.push("asd3".to_owned());
    v.push("asd4".to_owned());
    let newv = doubled_a(&v);
    proof {
        reveal_strlit("asd1");
        reveal_strlit("asd2");
        reveal_strlit("asd3");
        reveal_strlit("asd4");
        reveal_strlit("aasd1");
        reveal_strlit("aasd2");
        reveal_strlit("aasd3");
        reveal_strlit("aasd4");
        assert("aasd1"@ =~= seq!['a', 'a', 's', 'd', '1']);
        assert("aasd2"@ =~= seq!['a', 'a', 's', 'd', '2']);
        assert("aasd3"@ =~= seq!['a', 'a', 's', 'd', '3']);
        assert("aasd4"@ =~= seq!['a', 'a', 's', 'd', '4']);
        assert("asd1"@ =~= seq!['a', 's', 'd', '1']);
        assert("asd2"@ =~= seq!['a', 's', 'd', '2']);
        assert("asd3"@ =~= seq!['a', 's', 'd', '3']);
        assert("asd4"@ =~= seq!['a', 's', 'd', '4']);
        lemma_doubled_a_of_asd("asd1"@, '1');
        lemma_doubled_a_of_asd("asd2"@, '2');
        lemma_doubled_a_of_asd("asd3"@, '3');
        lemma_doubled_a_of_asd("asd4"@, '4');
    }
    let mut vv: Vec<Node> = Vec::new();
    vv.push(Node::new(10));
    vv.push(Node::new(20));
    vv.push(Node::new(40));
    vv.push(Node::new(23));
    inc_all(&mut vv);
    let mut v2: Vec<Node> = Vec::new();
    let ghost moved = vv@;
    for el in it: vv
        invariant
            it.seq() == moved,
            v2@ == moved.take(it.index()),
    {
        v2.push(el);
    }
    proof {
        assert(moved.take(4) == moved);
    }
    (v, newv, v2)
}

/// Doubling the `a` of the four characters `a`, `s`, `d` and one more that
/// is not an `a` gives five characters.
proof fn lemma_doubled_a_of_asd(text: Seq<char>, last: char)
    requires
        text == seq!['a', 's', 'd', last],
        last != 'a',
    ensures
        replaced(text, 'a', "aa"@) == seq!['a', 'a', 's', 'd', last],
{
    reveal_strlit("aa");
    let t3 = text.drop_last();
    let t2 = t3.drop_last();
    let t1 = t2.drop_last();
    let t0 = t1.drop_last();
    assert(t0.len() == 0);
    assert(replaced(t0, 'a', "aa"@) =~= Seq::<char>::empty());
    assert(t1.last() == 'a');
    assert(replaced(t1, 'a', "aa"@) =~= seq!['a', 'a']);
    assert(t2.last() == 's');
    assert(replaced(t2, 'a', "aa"@) =~= seq!['a', 'a', 's']);
    assert(t3.last() == 'd');
    assert(replaced(t3, 'a', "aa"@) =~= seq!['a', 'a', 's', 'd']);
    assert(text.last() == last);
    assert(replaced(text, 'a', "aa"@) =~= seq!['a', 'a', 's', 'd', last]);
}

} // verus!
