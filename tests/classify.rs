use basins::classify::{class_color, nearest_index, Color};

fn key(d: f64) -> u64 {
    d.to_bits()
}

#[test]
fn nearest_of_one_attractor() {
    assert_eq!(nearest_index(&vec![key(7.5)]), 0);
}

#[test]
fn nearest_picks_least_distance() {
    let keys = vec![key(2.0), key(0.5), key(1.0)];
    assert_eq!(nearest_index(&keys), 1);
}

#[test]
fn nearest_at_the_end() {
    let keys = vec![key(3.0), key(2.0), key(1.0), key(0.0)];
    assert_eq!(nearest_index(&keys), 3);
}

#[test]
fn nearest_tie_goes_to_lowest_index() {
    let d = (2.0f64).sqrt();
    let keys = vec![key(d), key(d)];
    assert_eq!(nearest_index(&keys), 0);
    let keys = vec![key(4.0), key(1.0), key(1.0), key(1.0)];
    assert_eq!(nearest_index(&keys), 1);
}

#[test]
fn nearest_is_no_farther_than_any_other() {
    let dists = [0.3f64, 0.1, 0.7, 0.1, 0.05, 9.0];
    let keys: Vec<u64> = dists.iter().map(|d| key(*d)).collect();
    let r = nearest_index(&keys);
    assert!(r < dists.len());
    for d in dists.iter() {
        assert!(dists[r] <= *d);
    }
    assert_eq!(r, 4);
}

#[test]
fn palette_colours() {
    assert_eq!(class_color(0), Color { r: 255, g: 255, b: 255 });
    assert_eq!(class_color(1), Color { r: 0, g: 0, b: 0 });
    assert_eq!(class_color(2), Color { r: 0, g: 0, b: 255 });
    assert_eq!(class_color(3), Color { r: 255, g: 255, b: 0 });
    assert_eq!(class_color(4), Color { r: 255, g: 255, b: 255 });
    assert_eq!(class_color(5), Color { r: 0, g: 0, b: 0 });
    assert_eq!(class_color(usize::MAX), Color { r: 0, g: 0, b: 0 });
}
