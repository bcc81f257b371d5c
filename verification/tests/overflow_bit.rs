use nesru::cpu::utils::{calculate_overflow_bit, msb};

#[test]
fn msb_value() {
    assert_eq!(msb, 128);
}

#[test]
fn overflow_case_1() {
    let a: u8 = 80;
    let b: u8 = 80;
    let c = a + b;

    println!("c as i8 is: {}", c as i8);
    assert_eq!(c as i8, -96);
    assert!(calculate_overflow_bit(a, b, c))
}

#[test]
fn overflow_case_2() {
    let a: u8 = 150;
    let b: u8 = 150;
    let c = a.wrapping_add(b);

    assert_eq!(c as i8, 44);
    assert!(calculate_overflow_bit(a, b, c))
}

#[test]
fn non_overlfow_cases() {
    assert!(!calculate_overflow_bit(1, 1, 2));
    assert!(!calculate_overflow_bit(128, 2, 130));
    assert!(!calculate_overflow_bit(256u16 as u8, 1, 0));
    assert!(!calculate_overflow_bit(2, 128, 130));
    assert!(!calculate_overflow_bit(4, 256u16 as u8, 3));
    assert!(!calculate_overflow_bit(200, 200, 144));
}

#[test]
fn overflow_bit_matches_the_xor_form() {
    for a in [0u8, 1, 0x7F, 0x80, 0xFF, 80, 150, 200] {
        for b in [0u8, 1, 0x7F, 0x80, 0xFF, 80, 150, 200] {
            let c = a.wrapping_add(b);
            let xor_form = ((a ^ c) & (b ^ c) & 0x80) != 0;
            assert_eq!(calculate_overflow_bit(a, b, c), xor_form);
        }
    }
}
