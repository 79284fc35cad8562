use sfhash::digest;

#[test]
fn test_digest() {
    assert_eq!(digest(b"Hello World!"), 1774740540);
    assert_eq!(digest(b"Hsieh Hash"), 1552477933);
    assert_eq!(digest(b"SuperFastHash"), 2245601745);
    assert_eq!(digest(b"pirateDay"), 2774317235);
}

#[test]
fn known_vectors_from_str_bytes() {
    assert_eq!(digest("Hello World!".as_bytes()), 1774740540);
    assert_eq!(digest("Hsieh Hash".as_bytes()), 1552477933);
    assert_eq!(digest("SuperFastHash".as_bytes()), 2245601745);
    assert_eq!(digest("pirateDay".as_bytes()), 2774317235);
}

#[test]
fn empty_input_has_digest_zero() {
    assert_eq!(digest(b""), 0);
    assert_eq!(digest(&[]), 0);
    let nothing: Vec<u8> = Vec::new();
    assert_eq!(digest(&nothing), 0);
}

#[test]
fn repeated_calls_agree() {
    let input = b"the same bytes every time";
    let first = digest(input);
    for _ in 0..10 {
        assert_eq!(digest(input), first);
    }
}

#[test]
fn equal_bytes_in_different_buffers_agree() {
    let array = [104u8, 101, 108, 108, 111];
    let vector: Vec<u8> = vec![104, 101, 108, 108, 111];
    let text = String::from("hello");
    assert_eq!(digest(&array), 2963130491);
    assert_eq!(digest(&vector), 2963130491);
    assert_eq!(digest(text.as_bytes()), 2963130491);
}

#[test]
fn input_is_left_unchanged() {
    let input = vec![1u8, 2, 3, 4, 5, 6, 7];
    let copy = input.clone();
    let _ = digest(&input);
    assert_eq!(input, copy);
}

#[test]
fn length_is_part_of_the_digest() {
    assert_eq!(digest(&[0]), 1431525722);
    assert_eq!(digest(&[0, 0]), 1840907564);
    assert_eq!(digest(&[0, 0, 0]), 2515860824);
    assert_eq!(digest(&[0, 0, 0, 0]), 723601210);
    assert_ne!(digest(&[0]), digest(&[0, 0]));
    assert_ne!(digest(b"abc"), digest(b"abcd"));
    assert_ne!(digest(&[]), digest(&[0]));
}

#[test]
fn growing_prefixes_have_their_own_digests() {
    assert_eq!(digest(b"a"), 291415938);
    assert_eq!(digest(b"ab"), 1366002500);
    assert_eq!(digest(b"abc"), 3535673738);
    assert_eq!(digest(b"abcd"), 3671636187);
    assert_eq!(digest(b"abcde"), 1374488366);
    assert_eq!(digest(b"abcdef"), 2520489434);
    assert_eq!(digest(b"abcdefg"), 4033987565);
    assert_eq!(digest(b"abcdefgh"), 3188683816);
}

#[test]
fn pairs_are_read_low_byte_first() {
    assert_eq!(digest(&[1, 2]), 2790220116);
    assert_eq!(digest(&[2, 1]), 1720733608);
    assert_eq!(digest(&[1, 2, 3, 4]), 3018816787);
    assert_eq!(digest(&[2, 1, 4, 3]), 2377520097);
    assert_eq!(digest(&[3, 4, 1, 2]), 2023759537);
}

#[test]
fn tail_of_one_byte() {
    assert_eq!(digest(&[0xff]), 2850657893);
    assert_eq!(digest(b"hello"), 2963130491);
}

#[test]
fn tail_of_two_bytes() {
    assert_eq!(digest(&[0xff, 0xff]), 729712199);
    assert_eq!(digest(b"abcdef"), 2520489434);
}

#[test]
fn tail_of_three_bytes() {
    assert_eq!(digest(&[0xff, 0xff, 0xff]), 1408897555);
    assert_eq!(digest(&[0x80; 7]), 2003125959);
}

#[test]
fn no_tail_after_full_blocks() {
    assert_eq!(digest(&[0xff, 0xff, 0xff, 0xff]), 908488043);
    assert_eq!(digest(b"abcdefgh"), 3188683816);
}

#[test]
fn long_runs_of_high_bytes_wrap_silently() {
    assert_eq!(digest(&[0xff; 64]), 1156113518);
    assert_eq!(digest(&vec![0xffu8; 1000]), 406801873);
    assert_eq!(digest(&vec![0xffu8; 1001]), 2837703814);
    assert_eq!(digest(&vec![0xffu8; 1002]), 4070870340);
    assert_eq!(digest(&vec![0xffu8; 1003]), 1168222078);
}

#[test]
fn every_byte_value_in_order() {
    let input: Vec<u8> = (0..=255u8).collect();
    assert_eq!(digest(&input), 3840866583);
}

#[test]
fn encoding_of_text_decides_the_digest() {
    let utf8 = "héllo wörld".as_bytes();
    assert_eq!(utf8.len(), 13);
    assert_eq!(digest(utf8), 2694463481);
    let latin1: Vec<u8> = "héllo wörld".chars().map(|c| c as u32 as u8).collect();
    assert_eq!(latin1.len(), 11);
    assert_ne!(digest(&latin1), digest(utf8));
}
