use intro_basics::adders::{crapadd, okadd};
use intro_basics::fizzbuzz::{fizzbuzz_line, fizzbuzz_sequence, u32_to_string};
use intro_basics::lookup::element_at;

#[test]
fn test_crapadd() {
    assert_eq!(crapadd(1, 2), 2);
}

#[test]
fn test_okadd() {
    assert_eq!(okadd(1, 5), 6);
}

#[test]
fn okadd_more_pairs() {
    assert_eq!(okadd(-3, 3), 0);
    assert_eq!(okadd(0, 0), 0);
    assert_eq!(okadd(i32::MAX - 1, 1), i32::MAX);
    assert_eq!(okadd(i32::MIN, i32::MAX), -1);
}

#[test]
fn crapadd_ignores_second_argument() {
    assert_eq!(crapadd(4, 100), 8);
    assert_eq!(crapadd(4, -100), 8);
    assert_eq!(crapadd(0, 7), 0);
}

#[test]
fn decimal_rendering() {
    assert_eq!(u32_to_string(0), "0");
    assert_eq!(u32_to_string(7), "7");
    assert_eq!(u32_to_string(10), "10");
    assert_eq!(u32_to_string(305), "305");
    assert_eq!(u32_to_string(4294967295), "4294967295");
}

#[test]
fn fizzbuzz_words() {
    assert_eq!(fizzbuzz_line(15), "fizzbuzz");
    assert_eq!(fizzbuzz_line(30), "fizzbuzz");
    assert_eq!(fizzbuzz_line(45), "fizzbuzz");
    assert_eq!(fizzbuzz_line(3), "fizz");
    assert_eq!(fizzbuzz_line(9), "fizz");
    assert_eq!(fizzbuzz_line(5), "buzz");
    assert_eq!(fizzbuzz_line(50), "buzz");
    assert_eq!(fizzbuzz_line(1), "1");
    assert_eq!(fizzbuzz_line(49), "49");
}

#[test]
fn fizzbuzz_first_fifty() {
    let lines = fizzbuzz_sequence(50);
    assert_eq!(lines.len(), 50);
    for k in 0..50u32 {
        let n = k + 1;
        let line = lines[k as usize].as_str();
        if n % 3 == 0 && n % 5 == 0 {
            assert_eq!(line, "fizzbuzz");
        } else if n % 3 == 0 {
            assert_eq!(line, "fizz");
        } else if n % 5 == 0 {
            assert_eq!(line, "buzz");
        } else {
            assert_eq!(line, n.to_string());
        }
    }
}

#[test]
fn fizzbuzz_sequence_empty() {
    let lines = fizzbuzz_sequence(0);
    assert_eq!(lines.len(), 0);
}

#[test]
fn element_at_in_range() {
    let a: [i32; 5] = [1, 2, 3, 4, 5];
    assert_eq!(element_at(&a, 0), Some(1));
    assert_eq!(element_at(&a, 1), Some(2));
    assert_eq!(element_at(&a, 2), Some(3));
    assert_eq!(element_at(&a, 3), Some(4));
    assert_eq!(element_at(&a, 4), Some(5));
}

#[test]
fn element_at_out_of_range() {
    let a: [i32; 5] = [1, 2, 3, 4, 5];
    assert_eq!(element_at(&a, 5), None);
    assert_eq!(element_at(&a, 6), None);
    assert_eq!(element_at(&a, usize::MAX), None);
}
