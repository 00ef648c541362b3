use xpt2046::menu::{input_chars, string_dingle};
use xpt2046::{MainMenu, Point, SlideshowLength};

#[test]
fn rows_are_thirty_pixels_apart() {
    let rows = MainMenu::vert_regions(Some(Point::new(20, 50)));
    let expected = vec![
        (MainMenu::Start, Point::new(20, 50)),
        (MainMenu::NameInput, Point::new(20, 80)),
        (MainMenu::Slideshow, Point::new(20, 110)),
        (MainMenu::HrSelect, Point::new(20, 140)),
        (MainMenu::Doodle, Point::new(20, 170)),
    ];
    assert_eq!(rows, expected);
    let rows = MainMenu::vert_regions(None);
    assert_eq!(rows[0].1, Point::new(0, 0));
    assert_eq!(rows[4].1, Point::new(0, 120));
}

#[test]
fn touch_picks_the_row_above_it() {
    let offset = Some(Point::new(20, 50));
    // font of height 20: the first row starts at y = 30
    assert_eq!(MainMenu::from_touch(offset, &Point::new(100, 29), 20), None);
    assert_eq!(MainMenu::from_touch(offset, &Point::new(100, 30), 20), Some(MainMenu::Start));
    assert_eq!(MainMenu::from_touch(offset, &Point::new(100, 50), 20), Some(MainMenu::Start));
    assert_eq!(MainMenu::from_touch(offset, &Point::new(100, 51), 20), Some(MainMenu::NameInput));
    assert_eq!(MainMenu::from_touch(offset, &Point::new(100, 170), 20), Some(MainMenu::Doodle));
    assert_eq!(MainMenu::from_touch(offset, &Point::new(100, 171), 20), None);
    assert_eq!(MainMenu::from_touch(None, &Point::new(0, -5), 10), Some(MainMenu::Start));
    assert_eq!(MainMenu::from_touch(None, &Point::new(0, -11), 10), None);
}

#[test]
fn menu_labels() {
    let labels: Vec<&str> = MainMenu::variants().iter().map(|m| m.label()).collect();
    assert_eq!(labels, vec!["Start Badge", "Name Input", "Slideshow", "BLE HR Monitor Selection", "Doodle"]);
}

#[test]
fn slideshow_lengths() {
    assert_eq!(SlideshowLength::default(), SlideshowLength::Off);
    assert_eq!(SlideshowLength::FiveSec.label(), "5s");
    assert_eq!(SlideshowLength::ThreeMin.label(), "3m");
    assert_eq!(SlideshowLength::Off.label(), "Off");
}

#[test]
fn name_characters_cycle() {
    let chars = input_chars();
    assert_eq!(chars.len(), 88);
    assert_eq!(chars[0], b' ');
    assert_eq!(chars[87], b'9');
    let mut name = b"Abz9".to_vec();
    string_dingle(&mut name, 0, true);
    assert_eq!(name, b"Bbz9".to_vec());
    string_dingle(&mut name, 2, true);
    assert_eq!(name, b"Bb~9".to_vec());
    string_dingle(&mut name, 3, true);
    assert_eq!(name, b"Bb~ ".to_vec());
    string_dingle(&mut name, 3, false);
    assert_eq!(name, b"Bb~9".to_vec());
    string_dingle(&mut name, 4, true);
    assert_eq!(name, b"Bb~9".to_vec());
    // a character not in the list counts as the first one
    let mut other = b"{".to_vec();
    string_dingle(&mut other, 0, true);
    assert_eq!(other, b"A".to_vec());
    // a multi-byte character is left alone
    let mut wide = "é".as_bytes().to_vec();
    string_dingle(&mut wide, 0, true);
    assert_eq!(wide, "é".as_bytes().to_vec());
}
