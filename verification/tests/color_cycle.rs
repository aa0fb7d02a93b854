use spinning_square::color::{recompute_colors, ColorUpdate, Rgba};

fn rgba(r: u8, g: u8, b: u8, a: u8) -> Rgba {
    Rgba { r, g, b, a }
}

#[test]
fn seed_black_increments_blue() {
    // Ripple formula on (0,0,0,1): b'=1 carries nothing, so only blue flips,
    // and the background is the fill color with every channel flipped.
    let u = recompute_colors(rgba(0, 0, 0, 1));
    assert_eq!(u.color, rgba(0, 0, 1, 1));
    assert_eq!(u.background, rgba(1, 1, 0, 1));
}

#[test]
fn blue_carries_into_green() {
    let u = recompute_colors(rgba(0, 0, 1, 1));
    assert_eq!(u.color, rgba(0, 1, 0, 1));
    assert_eq!(u.background, rgba(1, 0, 1, 1));
}

#[test]
fn carry_ripples_through_green_into_red() {
    let u = recompute_colors(rgba(0, 1, 1, 1));
    assert_eq!(u.color, rgba(1, 0, 0, 1));
    assert_eq!(u.background, rgba(0, 1, 1, 1));
}

#[test]
fn all_ones_wraps_to_black() {
    let u = recompute_colors(rgba(1, 1, 1, 1));
    assert_eq!(u.color, rgba(0, 0, 0, 1));
    assert_eq!(u.background, rgba(1, 1, 1, 1));
}

#[test]
fn no_carry_without_saturated_blue() {
    let u = recompute_colors(rgba(1, 0, 0, 1));
    assert_eq!(u.color, rgba(1, 0, 1, 1));
    assert_eq!(u.background, rgba(0, 1, 0, 1));
}

#[test]
fn cycle_closes_after_eight_steps() {
    // The fill color is a mod-8 ripple counter with blue as the lowest bit:
    // eight recomputes, each seeded with the previous fill color, return to
    // the starting color.
    let start = rgba(0, 0, 0, 1);
    let mut seed = start;
    let mut seen: Vec<Rgba> = Vec::new();
    for _ in 0..8 {
        let u: ColorUpdate = recompute_colors(seed);
        seed = u.color;
        seen.push(u.color);
    }
    assert_eq!(seed, start);
    // All eight intermediate colors are distinct.
    for i in 0..8 {
        for j in 0..i {
            assert_ne!(seen[i], seen[j]);
        }
    }
}

#[test]
fn alpha_of_seed_never_leaks() {
    // The produced pair always carries full alpha, whatever the seed's alpha.
    let u = recompute_colors(rgba(0, 1, 0, 0));
    assert_eq!(u.color.a, 1);
    assert_eq!(u.background.a, 1);
}
