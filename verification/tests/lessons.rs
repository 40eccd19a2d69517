use std::cell::RefCell;

use lesson_catalog::lessons::basics::{
    array_steps, element_at, expressions, fizzbuzz, parse_index,
};
use lesson_catalog::lessons::closures::{
    apply_Fn, apply_FnMut, apply_FnOnce, apply_to_3, call_me, closures_output, closuresexample,
    fntypes, function,
};
use lesson_catalog::lessons::enums::{
    both_same, calculateS, collectionerrors, enum_usage, first_field, retn, IpAddr, IpAddrKind,
};
use lesson_catalog::lessons::fprules::{fprules, is_odd, odd_squares_sum_from, sum_of_odd_squares};
use lesson_catalog::lessons::generics::{
    explicit_type, generics_example, some_function, some_function_where,
    the_large_one_gen_correct, the_large_one_i16, the_large_one_i8, Pair, Point,
};
use lesson_catalog::lessons::heap::{
    example_smart1, hello, implitictderef, it_sends_an_over_75_percent_warning_message,
    level_of, one_two_three, quota_message, recursivetypes, LimitTracker, List, Messenger,
    MockMessenger, MyBox, NaiveRc, QuotaLevel,
};
use lesson_catalog::lessons::iterators::{
    calling_next_directly, doubled, examplefpiterators, filters_by_size, folded_sum, iteratorexample,
    shoes_in_size, using_other_iterator_trait_methods, Counter, Shoe,
};
use lesson_catalog::lessons::lifetimes::{
    another_longest, correct_longest, lifetime_test, outliving_longest, testintuser, use_lifetimes,
    uselongest, what,
};
use lesson_catalog::lessons::maps::{
    doubled_a, inc_all, lazymap_collect, maps_options, mapsownership, numbers_of, singlemap,
    twomaps, Node,
};
use lesson_catalog::lessons::modules::{externalcall, random_line};
use lesson_catalog::lessons::oop::{
    example_animals_oop, quack_ref, quack_trait, transferLocation, transferShow,
    wrong_Vecs, AveragedCollection, Duck, Foo, Location, Quack, RandomBird, Show,
};
use lesson_catalog::lessons::ownership::{
    calculate_length, change, danglestr, findinv, hashmap, mutability, no_dangle, ownership,
    ownership_for_functions, testvec, Scores,
};
use lesson_catalog::lessons::questions::{
    alsogoodmodder, container_example, goodmodder, number_of, testit, Addable, Container,
    Inner, Numbered, S1, S2,
};
use lesson_catalog::lessons::structs::{
    new_rhombus, ownstructs, struct_impl, struct_printing, struct_usage, Rectangle, Square,
    _new_square,
};
use lesson_catalog::lessons::structshelper::_showcase_access;
use lesson_catalog::lessons::traits::{
    notify_bound, notify_fn, notify_fn2, notify_bound2,
    random_animal, random_noise, ret_trait, sample_article, sample_tweet, traitexample, Animal,
    Cow, NewsArticle, Sheep, Summary, Tweet, ST, T,
};

#[test]
fn ownership_strings() {
    mutability();
    assert_eq!(calculate_length(&"hello".to_string()), 5);
    assert_eq!(calculate_length(&"héllo".to_string()), 6);
    assert_eq!(calculate_length(&String::new()), 0);
    let mut s = "hello".to_string();
    change(&mut s);
    assert_eq!(s, "hello, world");
    assert_eq!(no_dangle(), "hello");
    assert_eq!(danglestr(), "hi");
    assert_eq!(ownership_for_functions(), ("hello".to_string(), 5));
    assert_eq!(
        ownership(),
        ("hello".to_string(), "hello".to_string(), 5, 5, "hello".to_string(), 5)
    );
}

#[test]
fn ownership_scores() {
    assert_eq!(
        hashmap(),
        (vec![("Blue".to_string(), 10), ("Yellow".to_string(), 50)], 25)
    );
    let mut scores = Scores::new();
    assert_eq!(scores.get("Blue"), None);
    assert_eq!(scores.insert("Blue".to_string(), 10), None);
    assert_eq!(scores.insert("Yellow".to_string(), 50), None);
    assert_eq!(scores.insert("Blue".to_string(), 25), Some(10));
    assert_eq!(scores.insert("".to_string(), -1), None);
    assert_eq!(scores.get("Blue"), Some(25));
    assert_eq!(scores.get("Yellow"), Some(50));
    assert_eq!(scores.get(""), Some(-1));
    assert_eq!(scores.get("blue"), None);
    assert_eq!(
        *scores.entries(),
        vec![("Blue".to_string(), 25), ("Yellow".to_string(), 50), ("".to_string(), -1)]
    );
}

#[test]
fn ownership_findinv() {
    testvec();
    assert_eq!(findinv(&vec![5, 6]), 1);
    assert_eq!(findinv(&vec![6, 6, 6]), 0);
    assert_eq!(findinv(&vec![1, 2, 3]), -1);
    assert_eq!(findinv(&vec![]), -1);
    assert_eq!(findinv(&vec![-1, 7, 8, 6, 6]), 3);
}

#[test]
fn enums_values() {
    enum_usage();
    assert_ne!(IpAddrKind::V4, IpAddrKind::V6);
    assert_eq!(first_field(&IpAddr::V4(10, 20, 30, 40)), 10);
    assert_eq!(first_field(&IpAddr::V6("::1".to_string())), 0);
    assert_eq!(first_field(&IpAddr::V0()), 0);
    assert!(!both_same(Some(3), None));
    assert!(!both_same(None, None));
    assert!(!both_same(Some(3), Some(4)));
    assert!(both_same(Some(3), Some(3)));
}

#[test]
fn enums_question_mark() {
    assert_eq!(collectionerrors(), (10, 20, 10, 20, false, false));
    assert_eq!(retn(), None);
}

#[test]
fn enums_count_s() {
    assert_eq!(calculateS(&"ssSSSss".to_string()), 7);
    assert_eq!(calculateS(&"adv prog sssss".to_string()), 5);
    assert_eq!(calculateS(&"".to_string()), 0);
    assert_eq!(calculateS(&"Strasse ſ".to_string()), 3);
}

#[test]
fn structs_values() {
    struct_usage();
    _showcase_access();
    let mut r = Rectangle::new();
    assert_eq!((r.width, r.height), (10, 20));
    assert_eq!(r.area(), 200);
    assert_eq!(r.perimeter(), 60);
    r.double();
    assert_eq!((r.width, r.height), (20, 40));
    let s = Rectangle::square(3);
    assert_eq!((s.width, s.height), (3, 3));
    let p = Rectangle::new_with_params(4, 5);
    assert_eq!(p.perimeter(), 18);
    p.take_ownership();
    assert_eq!(new_rhombus().side, 0);
    assert_eq!(new_rhombus().side(), 0);
    assert_eq!(new_rhombus().acute_angle(), 0);
    assert_eq!(_new_square().side(), 0);
    assert_eq!(Square::with_side(10).to_text(), "10x10");
    assert_eq!(Square::with_side(0).to_text(), "0x0");
    assert_eq!(ownstructs(), (32, vec![1]));
    assert_eq!(struct_printing(), "10x10");
    assert_eq!(struct_impl(), (200, 60));
}

#[test]
fn lifetimes_values() {
    testintuser();
    use_lifetimes();
    assert_eq!(correct_longest("hi", "there"), "there");
    assert_eq!(correct_longest("there", "hi"), "there");
    assert_eq!(correct_longest("ab", "cd"), "cd");
    assert_eq!(correct_longest("é", "z"), "é");
    assert_eq!(outliving_longest("hi", "there"), "there");
    assert_eq!(outliving_longest("longer", "hi"), "longer");
    assert_eq!(another_longest("longer", "hi"), "hi");
    assert_eq!(what("a", "b"), "Asd");
    assert_eq!(lifetime_test(), 0);
    assert_eq!(uselongest(), "there");
}

#[test]
fn generics_values() {
    explicit_type();
    generics_example();
    let p = Point { x: 7u8, y: "y" };
    assert_eq!(*p.x(), 7);
    assert_eq!(Point { x: 1, y: 2 }.xx(), 0);
    assert_eq!(Point { x: 1, y: 'c' }.xxx(), 0);
    assert_eq!(the_large_one_i8(3, -4), 3);
    assert_eq!(the_large_one_i8(-4, 3), 3);
    assert_eq!(the_large_one_i16(300, 300), 300);
    assert_eq!(the_large_one_gen_correct(2u64, 9u64), 9);
    assert_eq!(the_large_one_gen_correct('b', 'a'), 'b');
    assert_eq!(the_large_one_gen_correct("abc", "abd"), "abd");
    assert_eq!(some_function(&1, &'c'), 0);
    assert_eq!(some_function_where(&"a", &2u8), 0);
    let pair = Pair::new(3, 2);
    assert_eq!((pair.x, pair.y), (3, 2));
    assert!(pair.first_is_largest());
    assert!(Pair::new(2, 2).first_is_largest());
    assert!(!Pair::new(1, 2).first_is_largest());
}

#[test]
fn traits_summaries() {
    assert_eq!(sample_tweet().summarize(), "Marco: no way jose");
    assert_eq!(sample_article().summarize(), "Wasps!, by Patrignani (Povo)");
    assert_eq!(NewsArticle::say_hello(), "Hello");
    assert_eq!(Tweet::say_hello(), "Yello!");
    assert_eq!(traitexample(), ("Hello".to_string(), "Yello!".to_string()));
    assert_eq!(notify_fn(&sample_tweet()), "Breaking news! Marco: no way jose");
    assert_eq!(
        notify_bound(&sample_article()),
        "More Breaking news! Wasps!, by Patrignani (Povo)"
    );
    notify_fn2(&sample_tweet(), &sample_article());
    notify_bound2(&sample_tweet(), &sample_tweet());
    assert_eq!(ret_trait().summarize(), "Marco: no way jose");
}

#[test]
fn traits_animals() {
    assert_eq!(Sheep {}.noise(), "baaaaah!");
    assert_eq!(Cow {}.noise(), "moooooo!");
    assert_eq!(random_animal(true).noise(), "baaaaah!");
    assert_eq!(random_animal(false).noise(), "moooooo!");
    assert_eq!(random_noise(true), "baaaaah!");
    assert_eq!(random_noise(false), "moooooo!");
}

#[test]
fn traits_self_and_supertraits() {
    lesson_catalog::lessons::traits::test();
    assert_eq!(ST::new().f(), 9);
    assert_eq!(<ST as T>::C, 9);
}

#[test]
fn questions_values() {
    container_example();
    let a = Inner::new();
    assert_eq!(a.value, 0);
    let b = Inner { value: 7 };
    let c = Inner { value: 9 };
    let mut container = Container::new(&a);
    assert_eq!((container.content.value, container.data), (0, 0));
    container.addinner(&b);
    assert_eq!(container.content.value, 7);
    alsogoodmodder(&mut container, &c);
    assert_eq!(container.content.value, 9);
    goodmodder(&mut container, &a);
    assert_eq!((container.content.value, container.data), (0, 0));
}

#[test]
fn questions_addable() {
    assert_eq!(testit(), (vec![0, 1, 0, 10], 1));
    let mut s1 = S1 { f1: 10 };
    s1.add(&S1 { f1: 100 });
    assert_eq!(s1.get_i32(), 110);
    s1.add(&S2 { f2: true });
    assert_eq!(s1.get_i32(), 110);
    let mut s2 = S2 { f2: true };
    s2.add(&S1 { f1: 0 });
    assert_eq!(s2.get_i32(), 0);
    let mut s3 = S2 { f2: false };
    s3.add(&s1);
    assert_eq!(s3.get_i32(), 1);
    assert_eq!(number_of(&s3), 1);
}

#[test]
fn maps_values() {
    assert_eq!(singlemap(), vec![30, 60, 90, 120]);
    assert_eq!(twomaps(), vec![10, 20, 30, 40]);
    assert_eq!(lazymap_collect(), (vec![30, 60, 90, 120], 4));
    assert_eq!(maps_options(), vec![1, 2, 3]);
}

#[test]
fn maps_parsing() {
    assert_eq!(
        numbers_of(&vec!["1", "+2", "007", "", "+", "-3", " 4", "5 ", "1_000", "4294967295", "4294967296", "x"]),
        vec![1, 2, 7, 4294967295]
    );
    assert_eq!(numbers_of(&vec!["-0", "+0", "00", "++1", "+-1", "1+", "٣", "１", "0x10", "1e3"]), vec![0, 0]);
    assert_eq!(numbers_of(&vec![]), Vec::<u32>::new());
}

#[test]
fn maps_nodes() {
    let mut n = Node::new(10);
    assert_eq!(n.content(), 10);
    assert!(n.eq(&Node::new(10)));
    assert!(!n.eq(&Node::new(11)));
    n.inc_content();
    assert_eq!(n.content(), 11);
    assert!(n.eq(&Node::new(11)));
    let mut nodes = vec![Node::new(-1), Node::new(0), Node::new(i32::MAX - 1)];
    inc_all(&mut nodes);
    let contents: Vec<i32> = nodes.iter().map(|node| node.content()).collect();
    assert_eq!(contents, vec![0, 1, i32::MAX]);
}

#[test]
fn maps_replacing() {
    let texts = vec!["asd1".to_string(), "banana".to_string(), "".to_string(), "xyz".to_string()];
    assert_eq!(doubled_a(&texts), vec!["aasd1", "baanaanaa", "", "xyz"]);
    let (v, newv, v2) = mapsownership();
    assert_eq!(v, vec!["asd1", "asd2", "asd3", "asd4"]);
    assert_eq!(newv, vec!["aasd1", "aasd2", "aasd3", "aasd4"]);
    let contents: Vec<i32> = v2.iter().map(|node| node.content()).collect();
    assert_eq!(contents, vec![11, 21, 41, 24]);
}

#[test]
fn oop_values() {
    wrong_Vecs();
    let _r = lesson_catalog::lessons::oop::Rectangle::new(3, 4);
    assert_eq!(42.show(), "four-byte signed 42");
    assert_eq!((-7).show(), "four-byte signed -7");
    assert_eq!(Duck().quack(), "quack!");
    assert_eq!(RandomBird { is_a_parrot: true }.quack(), "squawk!");
    assert_eq!(quack_ref(&RandomBird { is_a_parrot: false }), "quack!");
    assert_eq!(quack_trait(&RandomBird { is_a_parrot: true }), "squawk!");
    assert_eq!(
        example_animals_oop(),
        vec!["quack!", "quack!", "squawk!", "quack!", "squawk!", "quack!", "squawk!"]
    );
    let f = Foo::new("n", "a");
    assert_eq!(f.show(), "n");
    assert_eq!(f.location(), "a");
    assert_eq!(transferShow(&f).show(), "n");
    assert_eq!(transferLocation(&f).location(), "a");
}

#[test]
fn oop_averaged_collection() {
    let mut collection = AveragedCollection::new();
    assert_eq!((collection.len(), collection.total()), (0, 0));
    collection.add(3);
    collection.add(-10);
    collection.add(4);
    assert_eq!((collection.len(), collection.total()), (3, -3));
}

#[test]
fn heap_values() {
    recursivetypes();
    match one_two_three() {
        List::Cons(1, rest) => match *rest {
            List::Cons(2, rest) => match *rest {
                List::Cons(3, rest) => assert!(matches!(*rest, List::Nil)),
                _ => panic!("third"),
            },
            _ => panic!("second"),
        },
        _ => panic!("first"),
    }
    assert_eq!(example_smart1(), (5, 5, 5));
    assert_eq!(*MyBox::new('x'), 'x');
    assert_eq!(hello("Rust"), "Hello, Rust!");
    assert_eq!(implitictderef(), "Hello, Rust!");
    let mut rc = NaiveRc { reference_count: 1, inner_value: 'v' };
    let copy = rc.clone();
    assert_eq!((rc.reference_count, copy.reference_count, copy.inner_value), (1, 1, 'v'));
    let counted = rc.clone_mut();
    assert_eq!((rc.reference_count, counted.reference_count, counted.inner_value), (2, 2, 'v'));
}

#[test]
fn heap_quota_levels() {
    assert_eq!(level_of(0, 100), QuotaLevel::Fine);
    assert_eq!(level_of(74, 100), QuotaLevel::Fine);
    assert_eq!(level_of(75, 100), QuotaLevel::Warning);
    assert_eq!(level_of(89, 100), QuotaLevel::Warning);
    assert_eq!(level_of(90, 100), QuotaLevel::Urgent);
    assert_eq!(level_of(99, 100), QuotaLevel::Urgent);
    assert_eq!(level_of(100, 100), QuotaLevel::Over);
    assert_eq!(level_of(101, 100), QuotaLevel::Over);
    assert_eq!(level_of(0, 0), QuotaLevel::Fine);
    assert_eq!(level_of(1, 0), QuotaLevel::Over);
    assert_eq!(level_of(usize::MAX - 1, usize::MAX), QuotaLevel::Urgent);
    assert_eq!(level_of(3, 4), QuotaLevel::Warning);
    assert_eq!(level_of(2, 3), QuotaLevel::Fine);
    assert_eq!(quota_message(10, 100), None);
    assert_eq!(quota_message(80, 100), Some("Warning: You've used up over 75% of your quota!"));
    assert_eq!(
        quota_message(95, 100),
        Some("Urgent warning: You've used up over 90% of your quota!")
    );
    assert_eq!(quota_message(100, 100), Some("Error: You are over your quota!"));
}

struct KeepingMessenger {
    sent_messages: RefCell<Vec<String>>,
}

impl Messenger for KeepingMessenger {
    fn send(&self, message: &str) {
        self.sent_messages.borrow_mut().push(String::from(message));
    }
}

#[test]
fn heap_tracker_sends_through_its_messenger() {
    it_sends_an_over_75_percent_warning_message();
    let unable = MockMessenger::new();
    let mut tracker = LimitTracker::new(&unable, 100);
    assert_eq!(tracker.set_value(80), Some("Warning: You've used up over 75% of your quota!"));
    assert_eq!(unable.sent_messages.len(), 0);
    let keeping = KeepingMessenger { sent_messages: RefCell::new(vec![]) };
    let mut limit_tracker = LimitTracker::new(&keeping, 100);
    let mut returned = Vec::new();
    returned.push(limit_tracker.set_value(80));
    assert_eq!(keeping.sent_messages.borrow().len(), 1);
    returned.push(limit_tracker.set_value(10));
    returned.push(limit_tracker.set_value(100));
    returned.push(limit_tracker.set_value(91));
    assert_eq!(
        *keeping.sent_messages.borrow(),
        vec![
            "Warning: You've used up over 75% of your quota!".to_string(),
            "Error: You are over your quota!".to_string(),
            "Urgent warning: You've used up over 90% of your quota!".to_string(),
        ]
    );
    assert_eq!(
        returned,
        vec![
            Some("Warning: You've used up over 75% of your quota!"),
            None,
            Some("Error: You are over your quota!"),
            Some("Urgent warning: You've used up over 90% of your quota!"),
        ]
    );
}

#[test]
fn closures_values() {
    assert_eq!(function(1), 2);
    assert_eq!(function(-1), 0);
    assert_eq!(closuresexample(), (2, 2, 2, 1));
    let calls = RefCell::new(Vec::new());
    call_me(|i| {
        calls.borrow_mut().push(i);
        i
    });
    assert_eq!(*calls.borrow(), vec![1]);
    let mut ran = 0;
    apply_FnOnce(|| ran += 1);
    assert_eq!(ran, 1);
    let mut times = 0;
    apply_FnMut(|| times += 2);
    assert_eq!(times, 2);
    apply_Fn(|| calls.borrow_mut().push(7));
    assert_eq!(*calls.borrow(), vec![1, 7]);
    assert_eq!(apply_to_3(|x| 2 * x), 6);
    assert_eq!(apply_to_3(function), 4);
    assert_eq!(fntypes(), 6);
    assert_eq!(
        closures_output(),
        (
            "This is a: Fn".to_string(),
            "This is a: FnMut".to_string(),
            "This is a: FnOnce".to_string()
        )
    );
}

#[test]
fn fprules_values() {
    assert!(is_odd(1));
    assert!(!is_odd(0));
    assert!(is_odd(961));
    assert_eq!(fprules(), (5456, 5456));
    assert_eq!(sum_of_odd_squares(0), 0);
    assert_eq!(sum_of_odd_squares(1), 0);
    assert_eq!(sum_of_odd_squares(2), 1);
    assert_eq!(sum_of_odd_squares(9), 1);
    assert_eq!(sum_of_odd_squares(10), 10);
    assert_eq!(sum_of_odd_squares(26), 35);
    assert_eq!(odd_squares_sum_from(0, 26), 35);
    assert_eq!(odd_squares_sum_from(4, 26), 25);
    assert_eq!(odd_squares_sum_from(6, 26), 0);
    assert_eq!(odd_squares_sum_from(65535, u32::MAX), 65535 * 65535);
    assert_eq!(odd_squares_sum_from(65536, u32::MAX), 0);
    assert_eq!(odd_squares_sum_from(65537, u32::MAX), 0);
    assert_eq!(odd_squares_sum_from(u32::MAX, u32::MAX), 0);
    let mut expected: u64 = 0;
    let mut n: u64 = 1;
    while n * n < 2_000_000 {
        expected += n * n;
        n += 2;
    }
    assert_eq!(sum_of_odd_squares(2_000_000), expected);
}

#[test]
fn iterators_shoes() {
    let shoe = |size: u32, style: &str| Shoe { size, style: style.to_string() };
    let shoes = vec![shoe(10, "sneaker"), shoe(13, "sandal"), shoe(10, "boot")];
    assert_eq!(shoes_in_size(shoes, 10), vec![shoe(10, "sneaker"), shoe(10, "boot")]);
    assert_eq!(shoes_in_size(vec![shoe(10, "sneaker")], 11), vec![]);
    assert_eq!(shoes_in_size(vec![], 10), vec![]);
    assert_eq!(filters_by_size(), vec![shoe(10, "sneaker"), shoe(10, "boot")]);
}

#[test]
fn iterators_counter() {
    calling_next_directly();
    let mut counter = Counter::new();
    let mut seen = Vec::new();
    while let Some(n) = counter.next() {
        seen.push(n);
    }
    assert_eq!(seen, vec![1, 2, 3, 4, 5]);
    assert_eq!(counter.next(), None);
    assert_eq!(using_other_iterator_trait_methods(), 18);
    assert_eq!(iteratorexample(), (6, vec![2, 3, 4]));
}

#[test]
fn modules_random_line() {
    assert_eq!(random_line(0), "Random u8: 0");
    assert_eq!(random_line(255), "Random u8: 255");
    for _ in 0..20 {
        let line = externalcall();
        let number = line.strip_prefix("Random u8: ").unwrap();
        let byte: u8 = number.parse().unwrap();
        assert_eq!(line, random_line(byte));
    }
}

#[test]
fn basics_fizzbuzz() {
    assert_eq!(fizzbuzz(1), "1");
    assert_eq!(fizzbuzz(3), "fizz");
    assert_eq!(fizzbuzz(5), "buzz");
    assert_eq!(fizzbuzz(15), "fizzbuzz");
    assert_eq!(fizzbuzz(0), "fizzbuzz");
    assert_eq!(fizzbuzz(49), "49");
    assert_eq!(fizzbuzz(50), "buzz");
    assert_eq!(fizzbuzz(4294967295), "fizzbuzz");
    assert_eq!(fizzbuzz(4294967294), "4294967294");
    let lines = expressions();
    assert_eq!(lines.len(), 63);
    assert_eq!(&lines[..4], &["This will never stop"; 4]);
    assert_eq!(
        &lines[4..8],
        &["Cycle with while 4!", "Cycle with while 3!", "Cycle with while 2!", "Cycle with while 1!"]
    );
    assert_eq!(&lines[8..13], &["1", "2", "fizz", "4", "buzz"]);
    assert_eq!(lines[22], "fizzbuzz");
    assert_eq!(lines[57], "buzz");
    assert_eq!(
        &lines[58..],
        &[
            "Iteration loop: the value is: 10",
            "Iteration loop: the value is: 20",
            "Iteration loop: the value is: 30",
            "Iteration loop: the value is: 40",
            "Iteration loop: the value is: 50",
        ]
    );
    assert_eq!(
        array_steps(),
        ([(1, 2), (1, 4)], [(1, 2), (4, 5)], [(1, 2), (3, 5)])
    );
}

#[test]
fn basics_index_lookup() {
    assert_eq!(parse_index("3\n"), Some(3));
    assert_eq!(parse_index("  42 \t"), Some(42));
    assert_eq!(parse_index("\u{a0}7\u{3000}"), Some(7));
    assert_eq!(parse_index("six"), None);
    assert_eq!(parse_index(""), None);
    assert_eq!(parse_index("1 2"), None);
    let whitespace = [
        '\u{9}', '\u{a}', '\u{b}', '\u{c}', '\u{d}', '\u{20}', '\u{85}', '\u{a0}', '\u{1680}',
        '\u{2000}', '\u{2001}', '\u{2002}', '\u{2003}', '\u{2004}', '\u{2005}', '\u{2006}',
        '\u{2007}', '\u{2008}', '\u{2009}', '\u{200a}', '\u{2028}', '\u{2029}', '\u{202f}',
        '\u{205f}', '\u{3000}',
    ];
    assert_eq!(whitespace.len(), 25);
    for c in whitespace {
        assert_eq!(parse_index(&format!("{}12{}", c, c)), Some(12));
    }
    for c in ['\u{8}', '\u{e}', '\u{1f}', '\u{180e}', '\u{200b}', '\u{2060}', '\u{feff}', '\u{1fff}', '\u{3001}'] {
        assert_eq!(parse_index(&format!("{}12", c)), None);
        assert_eq!(parse_index(&format!("12{}", c)), None);
    }
    let a = [3, 4, 5, 6, 7];
    assert_eq!(element_at(&a, 0), Some(3));
    assert_eq!(element_at(&a, 4), Some(7));
    assert_eq!(element_at(&a, 5), None);
}

#[test]
fn iterators_doubling_and_folding() {
    assert_eq!(doubled(&vec![1, -2, 0]), vec![2, -4, 0]);
    assert_eq!(doubled(&vec![]), Vec::<i32>::new());
    assert_eq!(folded_sum(&vec![1, 2, 3, 4, 5, 6]), 21);
    assert_eq!(folded_sum(&vec![]), 0);
    assert_eq!(folded_sum(&vec![u32::MAX]), u32::MAX);
    assert_eq!(examplefpiterators(), (vec![2, 4, 6], 21));
}
