use bytesub::copier::fixing_copy;
use bytesub::copier::SwapByteCopier;
use bytesub::subst::swap_bytes;
use bytesub::subst::FROM_BYTE;
use bytesub::subst::TO_BYTE;

#[test]
fn no_replacements() {
    let input = b"no changes needed";
    assert_eq!(fixing_copy(input), b"no changes needed".to_vec());
}

#[test]
fn oops_all_replacements() {
    let input = b";;;;;;;;;;;;;;;;;;;;";
    assert_eq!(fixing_copy(input), b"::::::::::::::::::::".to_vec());
}

#[test]
fn middle_replacement() {
    let input = b"wrong character 2; electric boogaloo";
    assert_eq!(
        fixing_copy(input),
        b"wrong character 2: electric boogaloo".to_vec()
    );
}

#[test]
fn outer_replacements() {
    let input = b";_;";
    assert_eq!(fixing_copy(input), b":_:".to_vec());
}

#[test]
fn empty_input() {
    assert_eq!(fixing_copy(b""), Vec::<u8>::new());
}

#[test]
fn binary_bytes_pass_through() {
    let input = vec![0x00, 0x80, 0xFF, 0x3A, 0x3B, 0x00];
    let expected = vec![0x00, 0x80, 0xFF, 0x3A, 0x3A, 0x00];
    assert_eq!(fixing_copy(&input), expected);
}

#[test]
fn boundary_substitutions() {
    assert_eq!(fixing_copy(b";middle;"), b":middle:".to_vec());
    assert_eq!(fixing_copy(b";"), b":".to_vec());
}

#[test]
fn total_substitution_repeated() {
    let input = vec![FROM_BYTE; 100];
    let out = fixing_copy(&input);
    assert_eq!(out, vec![TO_BYTE; 100]);
}

#[test]
fn generic_swap_pair() {
    let out = swap_bytes(b'a', b'b', b"banana");
    assert_eq!(out, b"bbnbnb".to_vec());
}

#[test]
fn streaming_chunks_match_whole() {
    let mut copier = SwapByteCopier::fixing();
    let mut streamed: Vec<u8> = Vec::new();
    streamed.extend(copier.process_chunk(b"wrong char"));
    streamed.extend(copier.process_chunk(b"acter 2; electric"));
    streamed.extend(copier.process_chunk(b" boogaloo"));
    assert_eq!(
        streamed,
        fixing_copy(b"wrong character 2; electric boogaloo")
    );
    assert_eq!(copier.bytes_transferred(), 36);
}

#[test]
fn fresh_copier_counts_nothing() {
    let copier = SwapByteCopier::new(b'x', b'y');
    assert_eq!(copier.bytes_transferred(), 0);
}
