use starship_core::picking::{closest_hit, HitCandidate};

fn c(hit: bool, distance_key: u32) -> HitCandidate {
    HitCandidate { hit, distance_key }
}

#[test]
fn nearest_hit_wins() {
    assert_eq!(closest_hit(&vec![c(true, 9), c(true, 4), c(true, 7)]), Some(1));
}

#[test]
fn misses_are_ignored_even_when_nearer() {
    assert_eq!(closest_hit(&vec![c(false, 1), c(true, 5), c(false, 0)]), Some(1));
}

#[test]
fn first_of_equally_near_wins() {
    assert_eq!(closest_hit(&vec![c(true, 6), c(true, 3), c(true, 3)]), Some(1));
}

#[test]
fn no_hit_no_choice() {
    assert_eq!(closest_hit(&vec![c(false, 1), c(false, 2)]), None);
    assert_eq!(closest_hit(&vec![]), None);
}

#[test]
fn float_distances_order_like_their_keys() {
    let keys: Vec<u32> = [0.0f32, 0.5, 1.0, 250.0, 1e6].iter().map(|d| d.to_bits()).collect();
    assert!(keys.windows(2).all(|w| w[0] < w[1]));
}
