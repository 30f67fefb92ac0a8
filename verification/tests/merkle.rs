use bazuka::types::merkle::compute_root;

struct Sum;

impl bazuka::types::hash::Hash for Sum {
    /// The bytes of the input added up, in the first byte; the length of the
    /// input in the second.
    fn hash(data: &[u8]) -> [u8; 32] {
        let mut out = [0u8; 32];
        out[0] = data.iter().fold(0u8, |sum, byte| sum.wrapping_add(*byte));
        out[1] = data.len() as u8;
        out
    }
}

fn leaf(n: u8) -> [u8; 32] {
    let mut out = [0u8; 32];
    out[0] = n;
    out
}

fn node(sum: u8) -> [u8; 32] {
    let mut out = [0u8; 32];
    out[0] = sum;
    out[1] = 64;
    out
}

#[test]
fn the_root_of_no_leaves_is_the_hash_of_nothing() {
    assert_eq!(compute_root::<Sum>(&Vec::new()), [0u8; 32]);
}

#[test]
fn the_root_of_one_leaf_is_the_leaf() {
    assert_eq!(compute_root::<Sum>(&vec![leaf(7)]), leaf(7));
}

#[test]
fn the_root_of_two_leaves_is_the_hash_of_the_pair() {
    assert_eq!(compute_root::<Sum>(&vec![leaf(1), leaf(2)]), node(3));
}

#[test]
fn an_odd_leaf_is_paired_with_itself() {
    // Level 1: hash(1, 2) and hash(3, 3); level 2: the hash of the two.
    assert_eq!(
        compute_root::<Sum>(&vec![leaf(1), leaf(2), leaf(3)]),
        node((3 + 64) + (6 + 64))
    );
}

#[test]
fn the_root_of_four_leaves() {
    assert_eq!(
        compute_root::<Sum>(&vec![leaf(1), leaf(2), leaf(3), leaf(4)]),
        node((3 + 64) + (7 + 64))
    );
}
