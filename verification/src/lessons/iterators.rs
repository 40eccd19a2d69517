//! Iterators: going through a collection, filtering it, and an iterator of
//! one's own.

use vstd::prelude::*;

verus! {

/// A shoe.
#[derive(PartialEq, Debug)]
pub struct Shoe {
    pub size: u32,
    pub style: String,
}

/// The shoes of `shoes` that have the size `shoe_size`, in their order.
pub open spec fn in_size(shoes: Seq<Shoe>, shoe_size: u32) -> Seq<Shoe> {
    shoes.filter(|s: Shoe| s.size == shoe_size)
}

/// Keeps the shoes of the given size. The vector is taken over, and the
/// shoes that fit move on into the result.
pub fn shoes_in_size(shoes: Vec<Shoe>, shoe_size: u32) -> (fitting: Vec<Shoe>)
    ensures
        fitting@ == in_size(shoes@, shoe_size),
{
    let ghost all = shoes@;
    let mut fitting: Vec<Shoe> = Vec::new();
    proof {
        assert(all.take(0) =~= Seq::<Shoe>::empty());
        assert(in_size(all.take(0), shoe_size) =~= Seq::<Shoe>::empty()) by {
            reveal(Seq::filter);
        }
    }
    for s in it: shoes
        invariant
            it.seq() == all,
            fitting@ == in_size(all.take(it.index()), shoe_size),
    {
        proof {
            let n = it.index();
            assert(all.take(n + 1).drop_last() == all.take(n));
            assert(all.take(n + 1).last() == s);
            reveal(Seq::filter);
        }
        if s.size == shoe_size {
            fitting.push(s);
        }
    }
    proof {
        assert(all.take(all.len() as int) == all);
    }
    fitting
}

/// Counts from one to five.
pub struct Counter {
    count: u32,
}

impl Counter {
    /// How far the counter has counted.
    pub closed spec fn count(&self) -> u32 {
        self.count
    }

    /// A counter that has not counted yet.
    pub fn new() -> (counter: Counter)
        ensures
            counter.count() == 0,
    {
        Counter { count: 0 }
    }

    /// The next number, up to five; after five there is none, and the
    /// counter stays as it is.
    pub fn next(&mut self) -> (item: Option<u32>)
        ensures
            old(self).count() < 5 ==> final(self).count() == old(self).count() + 1 && item == Some(
                final(self).count(),
            ),
            old(self).count() >= 5 ==> final(self).count() == old(self).count() && item is None,
    {
        if self.count < 5 {
            self.count += 1;
            Some(self.count)
        } else {
            None
        }
    }
}

/// Asks a counter for its next number six times: there are five numbers
/// and then no more.
pub fn calling_next_directly() {
    let mut counter = Counter::new();
    let first = counter.next();
    assert(first == Some(1u32));
    let second = counter.next();
    assert(second == Some(2u32));
    let third = counter.next();
    assert(third == Some(3u32));
    let fourth = counter.next();
    assert(fourth == Some(4u32));
    let fifth = counter.next();
    assert(fifth == Some(5u32));
    let sixth = counter.next();
    assert(sixth is None);
}

/// The sum, over the numbers `1` to `pairs`, of the products of a number
/// and its successor that can be divided by three.
pub open spec fn paired_sum(pairs: nat) -> nat
    decreases pairs,
{
    if pairs == 0 {
        0
    } else {
        paired_sum((pairs - 1) as nat) + if (pairs * (pairs + 1)) % 3 == 0 {
            pairs * (pairs + 1)
        } else {
            0
        }
    }
}

/// Pairs the numbers of one counter with those of another that is one
/// ahead, multiplies each pair, keeps the products that can be divided by
/// three, and adds them up. The second counter ends first, so there are
/// four pairs, and the sum is 18.
pub fn using_other_iterator_trait_methods() -> (sum: u32)
    ensures
        sum == 18,
{
    let mut first = Counter::new();
    let mut second = Counter::new();
    let _skipped = second.next();
    let mut sum: u32 = 0;
    loop
        invariant_except_break
            first.count() <= 4,
            second.count() == first.count() + 1,
            sum == paired_sum(first.count() as nat),
            sum <= first.count() * 30,
        ensures
            sum == paired_sum(4),
        decreases 5 - first.count(),
    {
        let ghost pairs = first.count();
        let a = match first.next() {
            Some(a) => a,
            None => {
                break;
            },
        };
        let b = match second.next() {
            Some(b) => b,
            None => {
                break;
            },
        };
        assert(a == pairs + 1 && b == pairs + 2);
        assert(a * b <= 30) by (nonlinear_arith)
            requires
                a <= 5,
                b <= 6,
        ;
        let product: u32 = a * b;
        if product % 3 == 0 {
            sum += product;
        }
    }
    proof {
        reveal_with_fuel(paired_sum, 5);
    }
    sum
}

/// The numbers one, two and three: their sum, and each of them plus one.
pub fn iteratorexample() -> (values: (i32, Vec<i32>))
    ensures
        values.0 == 6,
        values.1@ == seq![2i32, 3i32, 4i32],
{
    let v1: Vec<i32> = vec![1, 2, 3];
    let mut total: i32 = 0;
    let mut v2: Vec<i32> = Vec::new();
    for x in it: v1.iter()
        invariant
            it.seq() == v1@.as_ref(),
            v1@ == seq![1i32, 2i32, 3i32],
            0 <= total <= 3 * it.index(),
            it.index() == 0 ==> total == 0,
            it.index() == 1 ==> total == 1,
            it.index() == 2 ==> total == 3,
            it.index() == 3 ==> total == 6,
            v2@.len() == it.index(),
            forall|k: int| 0 <= k < v2@.len() ==> v2@[k] == v1@[k] + 1,
    {
        total += *x;
        v2.push(*x + 1);
    }
    assert(v2@ =~= seq![2i32, 3i32, 4i32]);
    (total, v2)
}

/// Each number of `numbers` doubled, in the same order.
pub fn doubled(numbers: &Vec<i32>) -> (twice: Vec<i32>)
    requires
        forall|k: int| 0 <= k < numbers@.len() ==> i32::MIN <= 2 * #[trigger] numbers@[k] <= i32::MAX,
    ensures
        twice@.len() == numbers@.len(),
        forall|k: int| 0 <= k < numbers@.len() ==> #[trigger] twice@[k] == 2 * numbers@[k],
{
    let mut twice: Vec<i32> = Vec::new();
    for x in it: numbers.iter()
        invariant
            it.seq() == numbers@.as_ref(),
            twice@.len() == it.index(),
            forall|k: int| 0 <= k < numbers@.len() ==> i32::MIN <= 2 * #[trigger] numbers@[k] <= i32::MAX,
            forall|k: int| 0 <= k < twice@.len() ==> #[trigger] twice@[k] == 2 * numbers@[k],
    {
        assert(i32::MIN <= 2 * numbers@[it.index()] <= i32::MAX);
        twice.push(*x * 2);
    }
    twice
}

/// The sum of `numbers`.
pub open spec fn total(numbers: Seq<u32>) -> nat
    decreases numbers.len(),
{
    if numbers.len() == 0 {
        0
    } else {
        total(numbers.drop_last()) + numbers.last() as nat
    }
}

/// Adds up `numbers`, folding them into a sum that starts at zero.
pub fn folded_sum(numbers: &Vec<u32>) -> (sum: u32)
    requires
        total(numbers@) <= u32::MAX,
    ensures
        sum == total(numbers@),
{
    let mut summ: u32 = 0;
    let mut i: usize = 0;
    proof {
        assert(numbers@.take(0) =~= Seq::<u32>::empty());
    }
    while i < numbers.len()
        invariant
            i <= numbers.len(),
            summ == total(numbers@.take(i as int)),
            total(numbers@) <= u32::MAX,
        decreases numbers.len() - i,
    {
        proof {
            assert(numbers@.take(i + 1).drop_last() == numbers@.take(i as int));
            lemma_total_prefix(numbers@, i + 1);
        }
        summ += numbers[i];
        i += 1;
    }
    proof {
        assert(numbers@.take(i as int) == numbers@);
    }
    summ
}

/// The sum of a prefix is no more than the sum of the whole.
pub proof fn lemma_total_prefix(numbers: Seq<u32>, n: int)
    requires
        0 <= n <= numbers.len(),
    ensures
        total(numbers.take(n)) <= total(numbers),
    decreases numbers.len() - n,
{
    if n < numbers.len() {
        assert(numbers.take(n + 1).drop_last() == numbers.take(n));
        lemma_total_prefix(numbers, n + 1);
    } else {
        assert(numbers.take(n) == numbers);
    }
}

/// The numbers one, two and three doubled, and the sum of the numbers one
/// to six.
pub fn examplefpiterators() -> (values: (Vec<i32>, u32))
    ensures
        values.0@ == seq![2i32, 4i32, 6i32],
        values.1 == 21,
{
    let vector: Vec<i32> = vec![1, 2, 3];
    let result = doubled(&vector);
    let numbers: Vec<u32> = vec![1, 2, 3, 4, 5, 6];
    proof {
        assert(result@ =~= seq![2i32, 4i32, 6i32]);
        lemma_total_one_to_six(numbers@);
    }
    let sum = folded_sum(&numbers);
    (result, sum)
}

/// One to six add up to twenty-one.
proof fn lemma_total_one_to_six(numbers: Seq<u32>)
    requires
        numbers == seq![1u32, 2u32, 3u32, 4u32, 5u32, 6u32],
    ensures
        total(numbers) == 21,
{
    let s5 = numbers.drop_last();
    let s4 = s5.drop_last();
    let s3 = s4.drop_last();
    let s2 = s3.drop_last();
    let s1 = s2.drop_last();
    let s0 = s1.drop_last();
    assert(s0.len() == 0);
    assert(total(s0) == 0);
    assert(total(s1) == 1);
    assert(total(s2) == 3);
    assert(total(s3) == 6);
    assert(total(s4) == 10);
    assert(total(s5) == 15);
}

/// The shoes of size ten among a sneaker of size ten, a sandal of size
/// thirteen and a boot of size ten: the sneaker and the boot.
pub fn filters_by_size() -> (in_my_size: Vec<Shoe>)
    ensures
        in_my_size@.len() == 2,
        in_my_size@[0].size == 10 && in_my_size@[0].style@ == "sneaker"@,
        in_my_size@[1].size == 10 && in_my_size@[1].style@ == "boot"@,
{
    let mut shoes: Vec<Shoe> = Vec::new();
    shoes.push(Shoe { size: 10, style: "sneaker".to_owned() });
    shoes.push(Shoe { size: 13, style: "sandal".to_owned() });
    shoes.push(Shoe { size: 10, style: "boot".to_owned() });
    let ghost all = shoes@;
    let in_my_size = shoes_in_size(shoes, 10);
    proof {
        reveal(Seq::filter);
        let keep = |s: Shoe| s.size == 10u32;
        let s2 = all.drop_last();
        let s1 = s2.drop_last();
        let s0 = s1.drop_last();
        assert(s0.len() == 0);
        assert(s0.filter(keep) =~= Seq::<Shoe>::empty());
        assert(s1.filter(keep) =~= seq![all[0]]);
        assert(s2.filter(keep) =~= seq![all[0]]);
        assert(all.filter(keep) =~= seq![all[0], all[2]]);
    }
    in_my_size
}

} // verus!
