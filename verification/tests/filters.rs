use lifegame::cell::Cell;
use lifegame::cli::{ColorKind, FilterKind};
use lifegame::filter::{Bit, Block, Dye, Emoji, Filter, Hanzi};

#[test]
fn test_cell_transitions() {
    let mut cell = Cell::Dead;
    assert!(!cell.is_alive());
    cell.revive();
    assert!(cell.is_alive());
    cell.revive();
    assert!(cell.is_alive());
    cell.die();
    assert!(!cell.is_alive());
    assert_eq!(Cell::from(true), Cell::Alive);
    assert_eq!(Cell::from(false), Cell::Dead);
    assert_eq!(Cell::default(), Cell::Dead);
}

#[test]
fn test_block_filter() {
    assert_eq!(Block.filter(Cell::Dead), "  ");
    assert_eq!(Block.filter(Cell::Alive), "██");
}

#[test]
fn test_bit_filter() {
    assert_eq!(Bit.filter(Cell::Dead), "\x1b[1m\x1b[2m\x1b[32m0 \x1b[39m\x1b[22m");
    assert_eq!(Bit.filter(Cell::Alive), "\x1b[1m\x1b[32m1 \x1b[39m\x1b[22m");
}

#[test]
fn test_hanzi_filter() {
    assert_eq!(Hanzi.filter(Cell::Dead), "\x1b[1m\x1b[2m死\x1b[22m");
    assert_eq!(Hanzi.filter(Cell::Alive), "\x1b[1m生\x1b[22m");
}

#[test]
fn test_dye_filter_paints_backgrounds() {
    let dye = Dye::new(ColorKind::Green, ColorKind::White);
    assert_eq!(dye.filter(Cell::Dead), "\x1b[42m  \x1b[49m");
    assert_eq!(dye.filter(Cell::Alive), "\x1b[47m  \x1b[49m");

    let dark = Dye::new(ColorKind::Black, ColorKind::Red);
    assert_eq!(dark.filter(Cell::Dead), "\x1b[40m  \x1b[49m");
    assert_eq!(dark.filter(Cell::Alive), "\x1b[41m  \x1b[49m");
}

#[test]
fn test_emoji_filter_draws_from_its_sets() {
    let dead_faces = ["🤢", "🥶", "🥵", "😡", "🤬", "😈", "👿", "🤡", "👻"];
    let alive_faces = ["🤣", "😊", "🥰", "😍", "🤗", "🤭", "😋", "😤", "🤤"];
    let mut seen_dead: Vec<String> = Vec::new();
    for _ in 0..40 {
        let emoji = Emoji::random();
        assert!(dead_faces.contains(&emoji.filter(Cell::Dead)));
        assert!(alive_faces.contains(&emoji.filter(Cell::Alive)));
        let face = emoji.filter(Cell::Dead).to_string();
        if !seen_dead.contains(&face) {
            seen_dead.push(face);
        }
    }
    // Forty draws landing on one single face would mean the draw is not
    // random at all.
    assert!(seen_dead.len() > 1);
}

#[test]
fn test_color_kind_names() {
    assert_eq!(ColorKind::Black.name(), "black");
    assert_eq!(ColorKind::Red.name(), "red");
    assert_eq!(ColorKind::Green.name(), "green");
    assert_eq!(ColorKind::Yellow.name(), "yellow");
    assert_eq!(ColorKind::Blue.name(), "blue");
    assert_eq!(ColorKind::Magenta.name(), "magenta");
    assert_eq!(ColorKind::Cyan.name(), "cyan");
    assert_eq!(ColorKind::White.name(), "white");
}

#[test]
fn test_filter_kind_is_plain_data() {
    assert_eq!(FilterKind::Dye, FilterKind::Dye);
    assert_ne!(FilterKind::Bit, FilterKind::Hanzi);
}
