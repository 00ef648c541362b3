//! Menu logic of the badge: the main menu's entries laid out in rows, which
//! entry a touch lands on, and the slideshow lengths a user can pick.

use vstd::prelude::*;
use crate::touch::Point;

verus! {

/// Vertical distance between the baselines of two menu rows.
pub const SPACING: i32 = 30;

/// Number of main menu entries.
pub const MENU_LEN: usize = 5;

/// The entries of the main menu, top to bottom.
#[derive(Clone, Copy, Debug, PartialEq, Eq, Structural)]
pub enum MainMenu {
    Start,
    NameInput,
    Slideshow,
    HrSelect,
    Doodle,
}

/// The entries in display order.
pub open spec fn menu_entries() -> Seq<MainMenu> {
    seq![MainMenu::Start, MainMenu::NameInput, MainMenu::Slideshow, MainMenu::HrSelect, MainMenu::Doodle]
}

/// The baseline of row `i`: rows are `SPACING` apart, from the offset when
/// there is one and from the origin otherwise.
pub open spec fn row_baseline(offset: Option<Point>, i: int) -> Point {
    match offset {
        Some(o) => Point { x: o.x, y: (i * SPACING + o.y) as i32 },
        None => Point { x: 0, y: (i * SPACING) as i32 },
    }
}

/// The offset leaves room for every row within `i32`.
pub open spec fn offset_fits(offset: Option<Point>) -> bool {
    offset matches Some(o) ==> o.y <= i32::MAX - 4 * SPACING
}

/// The entry hit by a touch at height `y`, searching rows from `k` on: the
/// first row whose baseline is at or below `y`, provided `y` is not above
/// `top`.
pub open spec fn hit_from(offset: Option<Point>, y: int, top: int, k: int) -> Option<MainMenu>
    decreases MENU_LEN - k,
{
    if k < 0 || k >= MENU_LEN {
        None
    } else if top <= y && y <= row_baseline(offset, k).y {
        Some(menu_entries()[k])
    } else {
        hit_from(offset, y, top, k + 1)
    }
}

/// The top of the first row: one font height above the offset, or above
/// the origin.
pub open spec fn menu_top(offset: Option<Point>, font_height: u32) -> int {
    match offset {
        Some(o) => o.y - font_height,
        None => -(font_height as int),
    }
}

impl MainMenu {
    /// The entries in display order.
    pub fn variants() -> (r: Vec<MainMenu>)
        ensures
            r@ == menu_entries(),
    {
        let r = vec![MainMenu::Start, MainMenu::NameInput, MainMenu::Slideshow, MainMenu::HrSelect, MainMenu::Doodle];
        assert(r@ =~= menu_entries());
        r
    }

    /// The text shown for the entry.
    pub fn label(&self) -> (r: &'static str)
        ensures
            *self == MainMenu::Start ==> r@ == "Start Badge"@,
            *self == MainMenu::NameInput ==> r@ == "Name Input"@,
            *self == MainMenu::Slideshow ==> r@ == "Slideshow"@,
            *self == MainMenu::HrSelect ==> r@ == "BLE HR Monitor Selection"@,
            *self == MainMenu::Doodle ==> r@ == "Doodle"@,
    {
        match self {
            MainMenu::Start => "Start Badge",
            MainMenu::NameInput => "Name Input",
            MainMenu::Slideshow => "Slideshow",
            MainMenu::HrSelect => "BLE HR Monitor Selection",
            MainMenu::Doodle => "Doodle",
        }
    }

    /// Each entry with the baseline of its row.
    pub fn vert_regions(offset: Option<Point>) -> (r: Vec<(MainMenu, Point)>)
        requires
            offset_fits(offset),
        ensures
            r@.len() == MENU_LEN,
            forall|i: int| 0 <= i < MENU_LEN ==> #[trigger] r@[i] == (menu_entries()[i], row_baseline(offset, i)),
    {
        let entries = MainMenu::variants();
        let mut r: Vec<(MainMenu, Point)> = Vec::new();
        let mut i: usize = 0;
        while i < MENU_LEN
            invariant
                0 <= i <= MENU_LEN,
                entries@ == menu_entries(),
                offset_fits(offset),
                r@.len() == i,
                forall|j: int| 0 <= j < i ==> #[trigger] r@[j] == (menu_entries()[j], row_baseline(offset, j)),
            decreases MENU_LEN - i,
        {
            let step = i as i32 * SPACING;
            let p = match offset {
                Some(o) => Point { x: o.x, y: step + o.y },
                None => Point { x: 0, y: step },
            };
            r.push((entries[i], p));
            i = i + 1;
        }
        r
    }

    /// The entry a touch lands on, given where the menu is drawn and the
    /// height of its font; `None` above the first row or below the last.
    pub fn from_touch(offset: Option<Point>, touch: &Point, font_height: u32) -> (r: Option<MainMenu>)
        requires
            offset_fits(offset),
        ensures
            r == hit_from(offset, touch.y as int, menu_top(offset, font_height), 0),
    {
        let top: i64 = match offset {
            Some(o) => o.y as i64 - font_height as i64,
            None => -(font_height as i64),
        };
        let regions = MainMenu::vert_regions(offset);
        let y = touch.y as i64;
        let mut k: usize = 0;
        while k < MENU_LEN
            invariant
                0 <= k <= MENU_LEN,
                regions@.len() == MENU_LEN,
                forall|i: int| 0 <= i < MENU_LEN ==> #[trigger] regions@[i] == (menu_entries()[i], row_baseline(offset, i)),
                top == menu_top(offset, font_height),
                y == touch.y as i64,
                hit_from(offset, y as int, top as int, 0) == hit_from(offset, y as int, top as int, k as int),
            decreases MENU_LEN - k,
        {
            let (entry, bottom) = regions[k];
            if y >= top && y <= bottom.y as i64 {
                return Some(entry);
            }
            k = k + 1;
        }
        None
    }
}

/// How long each image of the slideshow stays up.
#[derive(Clone, Copy, Debug, PartialEq, Eq, Structural)]
pub enum SlideshowLength {
    Off,
    FiveSec,
    TenSec,
    ThirtySec,
    OneMin,
    ThreeMin,
}

impl Default for SlideshowLength {
    /// The slideshow is off.
    fn default() -> (r: SlideshowLength)
        ensures
            r == SlideshowLength::Off,
    {
        SlideshowLength::Off
    }
}

impl SlideshowLength {
    /// The text shown for the length.
    pub fn label(&self) -> (r: &'static str)
        ensures
            *self == SlideshowLength::Off ==> r@ == "Off"@,
            *self == SlideshowLength::FiveSec ==> r@ == "5s"@,
            *self == SlideshowLength::TenSec ==> r@ == "10s"@,
            *self == SlideshowLength::ThirtySec ==> r@ == "30s"@,
            *self == SlideshowLength::OneMin ==> r@ == "1m"@,
            *self == SlideshowLength::ThreeMin ==> r@ == "3m"@,
    {
        match self {
            SlideshowLength::Off => "Off",
            SlideshowLength::FiveSec => "5s",
            SlideshowLength::TenSec => "10s",
            SlideshowLength::ThirtySec => "30s",
            SlideshowLength::OneMin => "1m",
            SlideshowLength::ThreeMin => "3m",
        }
    }
}

/// Number of characters a name can be made of.
pub const INPUT_CHARS_LEN: usize = 88;

/// The characters a name can be made of, in the order they cycle through:
/// space, `A`-`Z`, `a`-`z`, punctuation, `0`-`9`.
pub open spec fn input_chars_spec() -> Seq<u8> {
    seq![32u8, 65u8, 66u8, 67u8, 68u8, 69u8, 70u8, 71u8, 72u8, 73u8, 74u8, 75u8, 76u8, 77u8, 78u8, 79u8, 80u8, 81u8, 82u8, 83u8, 84u8, 85u8, 86u8, 87u8, 88u8, 89u8, 90u8, 97u8, 98u8, 99u8, 100u8, 101u8, 102u8, 103u8, 104u8, 105u8, 106u8, 107u8, 108u8, 109u8, 110u8, 111u8, 112u8, 113u8, 114u8, 115u8, 116u8, 117u8, 118u8, 119u8, 120u8, 121u8, 122u8, 126u8, 33u8, 35u8, 36u8, 37u8, 38u8, 40u8, 41u8, 42u8, 43u8, 44u8, 45u8, 46u8, 47u8, 58u8, 59u8, 60u8, 61u8, 62u8, 63u8, 64u8, 91u8, 93u8, 94u8, 95u8, 48u8, 49u8, 50u8, 51u8, 52u8, 53u8, 54u8, 55u8, 56u8, 57u8]
}

/// The name characters.
pub fn input_chars() -> (r: Vec<u8>)
    ensures
        r@ == input_chars_spec(),
{
    let r = vec![32u8, 65u8, 66u8, 67u8, 68u8, 69u8, 70u8, 71u8, 72u8, 73u8, 74u8, 75u8, 76u8, 77u8, 78u8, 79u8, 80u8, 81u8, 82u8, 83u8, 84u8, 85u8, 86u8, 87u8, 88u8, 89u8, 90u8, 97u8, 98u8, 99u8, 100u8, 101u8, 102u8, 103u8, 104u8, 105u8, 106u8, 107u8, 108u8, 109u8, 110u8, 111u8, 112u8, 113u8, 114u8, 115u8, 116u8, 117u8, 118u8, 119u8, 120u8, 121u8, 122u8, 126u8, 33u8, 35u8, 36u8, 37u8, 38u8, 40u8, 41u8, 42u8, 43u8, 44u8, 45u8, 46u8, 47u8, 58u8, 59u8, 60u8, 61u8, 62u8, 63u8, 64u8, 91u8, 93u8, 94u8, 95u8, 48u8, 49u8, 50u8, 51u8, 52u8, 53u8, 54u8, 55u8, 56u8, 57u8];
    assert(r@ =~= input_chars_spec());
    r
}

/// Position of `c` among the name characters: the first one equal to it,
/// or 0 when there is none.
pub open spec fn char_position(c: u8) -> int {
    if exists|i: int| 0 <= i < INPUT_CHARS_LEN && input_chars_spec()[i] == c {
        choose|i: int|
            0 <= i < INPUT_CHARS_LEN && input_chars_spec()[i] == c && forall|j: int|
                0 <= j < i ==> input_chars_spec()[j] != c
    } else {
        0
    }
}

/// The character `up` (or down) from `c` in the cycle of name characters.
pub open spec fn cycled_char(c: u8, up: bool) -> u8 {
    let p = char_position(c);
    let n = INPUT_CHARS_LEN as int;
    input_chars_spec()[if up {
        (p + 1) % n
    } else {
        (p + n - 1) % n
    }]
}

/// The name after cycling the character at byte `index`: only a one-byte
/// (ASCII) character there is cycled; otherwise the name stays.
pub open spec fn dingled(name: Seq<u8>, index: int, up: bool) -> Seq<u8> {
    if 0 <= index < name.len() && name[index] < 128 {
        name.update(index, cycled_char(name[index], up))
    } else {
        name
    }
}

/// Cycles the character at byte `index` of a UTF-8 name one step up or down
/// through the name characters. A character missing from that list counts
/// as the first one.
pub fn string_dingle(input: &mut Vec<u8>, index: usize, up: bool)
    ensures
        final(input)@ == dingled(old(input)@, index as int, up),
{
    if index >= input.len() || input[index] >= 128 {
        return;
    }
    let chars = input_chars();
    let c = input[index];
    let mut pos: usize = 0;
    let mut k: usize = 0;
    let mut found = false;
    while k < INPUT_CHARS_LEN
        invariant
            0 <= k <= INPUT_CHARS_LEN,
            chars@ == input_chars_spec(),
            !found ==> pos == 0,
            !found ==> forall|j: int| 0 <= j < k ==> input_chars_spec()[j] != c,
            found ==> pos < INPUT_CHARS_LEN && input_chars_spec()[pos as int] == c && forall|j: int|
                0 <= j < pos ==> input_chars_spec()[j] != c,
        ensures
            !found ==> k == INPUT_CHARS_LEN,
            !found ==> pos == 0,
            !found ==> forall|j: int| 0 <= j < k ==> input_chars_spec()[j] != c,
            found ==> pos < INPUT_CHARS_LEN && input_chars_spec()[pos as int] == c && forall|j: int|
                0 <= j < pos ==> input_chars_spec()[j] != c,
        decreases INPUT_CHARS_LEN - k,
    {
        if chars[k] == c {
            pos = k;
            found = true;
            break;
        }
        k = k + 1;
    }
    proof {
        if found {
            let q = pos as int;
            assert(0 <= q < INPUT_CHARS_LEN && input_chars_spec()[q] == c);
            let ch = char_position(c);
            assert(0 <= ch < INPUT_CHARS_LEN && input_chars_spec()[ch] == c && forall|j: int|
                0 <= j < ch ==> input_chars_spec()[j] != c);
            assert(ch == q);
        } else {
            assert(!exists|i: int| 0 <= i < INPUT_CHARS_LEN && input_chars_spec()[i] == c);
            assert(char_position(c) == 0);
        }
    }
    let next = if up {
        (pos + 1) % INPUT_CHARS_LEN
    } else {
        (pos + INPUT_CHARS_LEN - 1) % INPUT_CHARS_LEN
    };
    input.set(index, chars[next]);
    assert(chars[next as int] == cycled_char(c, up));
}

} // verus!
