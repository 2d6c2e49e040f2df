use md2_digest::Padding;

#[test]
fn padding_at_the_block_boundary() {
    assert_eq!(Padding::new(15).len(), 1);
    assert_eq!(Padding::new(16).len(), 16);
    assert_eq!(Padding::new(17).len(), 15);
}

#[test]
fn empty_message_gets_a_full_block() {
    assert_eq!(Padding::new(0).len(), 16);
    assert!(matches!(Padding::new(0), Padding::Zero));
}

#[test]
fn padding_follows_the_length() {
    let mut len: usize = 0;
    while len <= 4096 {
        let expected = if len % 16 == 0 { 16 } else { 16 - len % 16 };
        assert_eq!(Padding::new(len).len(), expected);
        len += 1;
    }
}

#[test]
fn padding_is_one_to_sixteen_and_fills_the_block() {
    let mut len: usize = 0;
    while len <= 4096 {
        let amount = Padding::new(len).len();
        assert!(1 <= amount && amount <= 16);
        assert_eq!((len + amount) % 16, 0);
        len += 1;
    }
}

#[test]
fn multiples_of_sixteen_get_sixteen() {
    assert_eq!(Padding::new(32).len(), 16);
    assert_eq!(Padding::new(80).len(), 16);
    assert_eq!(Padding::new(1 << 20).len(), 16);
}

#[test]
fn padding_of_the_longest_lengths() {
    assert_eq!(Padding::new(usize::MAX).len(), 1);
    assert_eq!(Padding::new(usize::MAX - 1).len(), 2);
    assert_eq!(Padding::new(usize::MAX - 15).len(), 16);
}

#[test]
fn each_variant_has_its_amount() {
    assert_eq!(Padding::Zero.len(), 16);
    assert_eq!(Padding::One.len(), 1);
    assert_eq!(Padding::Two.len(), 2);
    assert_eq!(Padding::Three.len(), 3);
    assert_eq!(Padding::Four.len(), 4);
    assert_eq!(Padding::Five.len(), 5);
    assert_eq!(Padding::Six.len(), 6);
    assert_eq!(Padding::Seven.len(), 7);
    assert_eq!(Padding::Eight.len(), 8);
    assert_eq!(Padding::Nine.len(), 9);
    assert_eq!(Padding::Ten.len(), 10);
    assert_eq!(Padding::Eleven.len(), 11);
    assert_eq!(Padding::Twelve.len(), 12);
    assert_eq!(Padding::Thirteen.len(), 13);
    assert_eq!(Padding::Fourteen.len(), 14);
    assert_eq!(Padding::Fifteen.len(), 15);
}

#[test]
fn new_picks_the_variant_of_the_amount() {
    assert!(matches!(Padding::new(1), Padding::Fifteen));
    assert!(matches!(Padding::new(3), Padding::Thirteen));
    assert!(matches!(Padding::new(14), Padding::Two));
    assert!(matches!(Padding::new(26), Padding::Six));
    assert!(matches!(Padding::new(62), Padding::Two));
    assert!(matches!(Padding::new(80), Padding::Zero));
}
