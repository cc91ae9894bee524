use lifegame::lensfilter::{Blockify, Digitize, Dye, Emojify, LensFilter};
use lifegame::matrix::Matrix;

fn gen_of(states: &[bool], shape: (usize, usize)) -> Matrix<bool> {
    Matrix::from_slice(states, shape)
}

#[test]
fn test_blockify_projects_rows() {
    let gen = gen_of(&[true, false, false, true], (2, 2));
    let rows = Blockify::new().observe(&gen);
    assert_eq!(rows, vec!["██  ", "  ██"]);
}

#[test]
fn test_digitize_paints_rows_green() {
    let gen = gen_of(&[true, false], (1, 2));
    let rows = Digitize::ascii_compatible().observe(&gen);
    assert_eq!(rows.len(), 1);
    assert_eq!(
        rows[0],
        "\x1b[32m\x1b[1m1\x1b[22m\x1b[1m\x1b[2m0\x1b[22m\x1b[39m"
    );
}

#[test]
fn test_digitize_full_width() {
    let gen = gen_of(&[true], (1, 1));
    let rows = Digitize::new().observe(&gen);
    assert_eq!(rows[0], "\x1b[32m\x1b[1m１\x1b[22m\x1b[39m");
}

#[test]
fn test_dye_lens_rows_end_with_full_reset() {
    let gen = gen_of(&[true, false], (1, 2));
    let rows = Dye::new("white", "green").observe(&gen);
    assert_eq!(rows[0], "\x1b[47m  \x1b[42m  \x1b[0m");
}

#[test]
fn test_dye_lens_random_colors_differ() {
    let alive_only = gen_of(&[true], (1, 1));
    let dead_only = gen_of(&[false], (1, 1));
    for _ in 0..20 {
        let dye = Dye::random();
        assert_ne!(dye.observe(&alive_only), dye.observe(&dead_only));
    }
}

#[test]
fn test_emojify_uses_given_faces() {
    let gen = gen_of(&[true, false], (1, 2));
    let rows = Emojify::new('😊', '👻').observe(&gen);
    assert_eq!(rows, vec!["😊👻"]);
}

#[test]
fn test_emojify_random_draws_from_its_sets() {
    let alive_faces = ["😆", "🤣", "😊", "🥰", "😍", "🤗", "🤭", "😋", "🤤", "😤"];
    let dead_faces = ["🤢", "🥶", "🥵", "😡", "🤬", "😈", "👿", "🤡", "👻"];
    let alive_only = gen_of(&[true], (1, 1));
    let dead_only = gen_of(&[false], (1, 1));
    for _ in 0..20 {
        let lens = Emojify::random();
        assert!(alive_faces.contains(&lens.observe(&alive_only)[0].as_str()));
        assert!(dead_faces.contains(&lens.observe(&dead_only)[0].as_str()));
    }
}

#[test]
fn test_empty_generation_has_no_rows() {
    let gen = gen_of(&[], (0, 0));
    assert!(Blockify::new().observe(&gen).is_empty());
}
