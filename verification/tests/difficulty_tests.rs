use powchain::difficulty::hash_meets_difficulty;
use powchain::difficulty::hash_to_binary_representation;

#[test]
fn rendering_is_minimal_width() {
    assert_eq!(hash_to_binary_representation(&vec![0]), "0");
    assert_eq!(hash_to_binary_representation(&vec![1]), "1");
    assert_eq!(hash_to_binary_representation(&vec![3]), "11");
    assert_eq!(hash_to_binary_representation(&vec![8]), "1000");
    assert_eq!(hash_to_binary_representation(&vec![255, 0]), "111111110");
    assert_eq!(hash_to_binary_representation(&vec![0, 0, 5]), "00101");
    assert_eq!(hash_to_binary_representation(&Vec::new()), "");
}

#[test]
fn difficulty_holds_when_rendering_starts_with_two_zeroes() {
    let satisfying = vec![0, 0, 5, 77];
    assert!(hash_to_binary_representation(&satisfying).starts_with("00"));
    assert!(hash_meets_difficulty(&satisfying));

    let all_zero = vec![0, 0];
    assert!(hash_to_binary_representation(&all_zero).starts_with("00"));
    assert!(hash_meets_difficulty(&all_zero));
}

#[test]
fn difficulty_fails_when_rendering_does_not() {
    let nonzero_first = vec![1, 0, 0];
    assert!(!hash_to_binary_representation(&nonzero_first).starts_with("00"));
    assert!(!hash_meets_difficulty(&nonzero_first));

    let nonzero_second = vec![0, 1, 0];
    assert_eq!(hash_to_binary_representation(&nonzero_second), "010");
    assert!(!hash_meets_difficulty(&nonzero_second));

    let too_short = vec![0];
    assert!(!hash_meets_difficulty(&too_short));
    assert!(!hash_meets_difficulty(&Vec::new()));
}

#[test]
fn difficulty_agrees_with_rendering_prefix_in_both_directions() {
    let samples: Vec<Vec<u8>> = vec![
        vec![],
        vec![0],
        vec![0, 0],
        vec![0, 0, 255],
        vec![0, 1],
        vec![1, 0],
        vec![2, 0, 0],
        vec![128, 200, 3],
        vec![0, 0, 0, 0],
    ];
    for digest in samples {
        let rendered = hash_to_binary_representation(&digest);
        assert_eq!(hash_meets_difficulty(&digest), rendered.starts_with("00"));
    }
}
