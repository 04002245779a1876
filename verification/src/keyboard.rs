use vstd::prelude::*;
use crate::event::{Key, KeyEvent, Modifiers};
use x11rb::protocol::xproto::KeyButMask;

verus! {

/// The modifier bits of the X11 key/button state mask that the toolkit reads.
struct ModifierMasks {
    shift: u16,
    lock: u16,
    control: u16,
    mod1: u16,
    mod2: u16,
    mod4: u16,
}

/// Reads the bit values of x11rb's `KeyButMask::{SHIFT, LOCK, CONTROL, MOD1,
/// MOD2, MOD4}` constants; the contract states the values that x11rb defines
/// (`1 << 0`, `1 << 1`, `1 << 2`, `1 << 3`, `1 << 4`, `1 << 6`).
#[verifier::external_body]
fn modifier_masks() -> (m: ModifierMasks)
    ensures
        m.shift == 1,
        m.lock == 2,
        m.control == 4,
        m.mod1 == 8,
        m.mod2 == 16,
        m.mod4 == 64,
{
    ModifierMasks {
        shift: u16::from(KeyButMask::SHIFT),
        lock: u16::from(KeyButMask::LOCK),
        control: u16::from(KeyButMask::CONTROL),
        mod1: u16::from(KeyButMask::MOD1),
        mod2: u16::from(KeyButMask::MOD2),
        mod4: u16::from(KeyButMask::MOD4),
    }
}

/// Calls x11rb's `KeyButMask::contains` on the mask `state`; the contract
/// states its definition: every bit of `flag` is set in `state`.
#[verifier::external_body]
fn mask_contains(state: u16, flag: u16) -> (b: bool)
    ensures
        b == (state & flag == flag),
{
    KeyButMask::from(state).contains(flag)
}

/// Calls `char::to_ascii_uppercase`: ASCII lowercase letters map to their
/// uppercase forms, every other character is unchanged.
#[verifier::external_body]
fn ascii_uppercase(c: char) -> (u: char)
    ensures
        u == ascii_upper(c),
{
    c.to_ascii_uppercase()
}

/// ASCII uppercase of a character.
pub open spec fn ascii_upper(c: char) -> char {
    if 'a' <= c <= 'z' {
        ((c as u32) - 32) as char
    } else {
        c
    }
}

/// The modifier state that an X11 key/button mask denotes: Shift, Control,
/// Mod1 (Alt), Mod4 (Super), Lock (Caps Lock) and Mod2 (Num Lock).
pub open spec fn modifiers_of(state: u16) -> Modifiers {
    Modifiers {
        shift: state & 1 == 1,
        ctrl: state & 4 == 4,
        alt: state & 8 == 8,
        super_key: state & 64 == 64,
        caps_lock: state & 2 == 2,
        num_lock: state & 16 == 16,
    }
}

/// Convert an X11 modifier mask to the toolkit's modifier state.
pub fn modifiers_from_x11(state: u16) -> (m: Modifiers)
    ensures
        m == modifiers_of(state),
{
    let masks = modifier_masks();
    Modifiers {
        shift: mask_contains(state, masks.shift),
        ctrl: mask_contains(state, masks.control),
        alt: mask_contains(state, masks.mod1),
        super_key: mask_contains(state, masks.mod4),
        caps_lock: mask_contains(state, masks.lock),
        num_lock: mask_contains(state, masks.mod2),
    }
}

/// The key that an (evdev-based) X11 keycode denotes under the given
/// modifiers, for a US layout.
pub open spec fn key_of(keycode: u8, m: Modifiers) -> Key {
    match keycode {
        9 => Key::Escape,
        36 => Key::Return,
        23 => Key::Tab,
        22 => Key::Backspace,
        119 => Key::Delete,
        118 => Key::Insert,
        110 => Key::Home,
        115 => Key::End,
        112 => Key::PageUp,
        117 => Key::PageDown,
        113 => Key::Left,
        114 => Key::Right,
        111 => Key::Up,
        116 => Key::Down,
        67 => Key::F1,
        68 => Key::F2,
        69 => Key::F3,
        70 => Key::F4,
        71 => Key::F5,
        72 => Key::F6,
        73 => Key::F7,
        74 => Key::F8,
        75 => Key::F9,
        76 => Key::F10,
        95 => Key::F11,
        96 => Key::F12,
        65 => Key::Space,
        10 => Key::Char(if m.shift { '!' } else { '1' }),
        11 => Key::Char(if m.shift { '@' } else { '2' }),
        12 => Key::Char(if m.shift { '#' } else { '3' }),
        13 => Key::Char(if m.shift { '$' } else { '4' }),
        14 => Key::Char(if m.shift { '%' } else { '5' }),
        15 => Key::Char(if m.shift { '^' } else { '6' }),
        16 => Key::Char(if m.shift { '&' } else { '7' }),
        17 => Key::Char(if m.shift { '*' } else { '8' }),
        18 => Key::Char(if m.shift { '(' } else { '9' }),
        19 => Key::Char(if m.shift { ')' } else { '0' }),
        20 => Key::Char(if m.shift { '_' } else { '-' }),
        21 => Key::Char(if m.shift { '+' } else { '=' }),
        34 => Key::Char(if m.shift { '{' } else { '[' }),
        35 => Key::Char(if m.shift { '}' } else { ']' }),
        47 => Key::Char(if m.shift { ':' } else { ';' }),
        48 => Key::Char(if m.shift { '"' } else { '\'' }),
        51 => Key::Char(if m.shift { '|' } else { '\\' }),
        59 => Key::Char(if m.shift { '<' } else { ',' }),
        60 => Key::Char(if m.shift { '>' } else { '.' }),
        61 => Key::Char(if m.shift { '?' } else { '/' }),
        49 => Key::Char(if m.shift { '~' } else { '`' }),
        24 => Key::Char(if m.shift != m.caps_lock { 'Q' } else { 'q' }),
        25 => Key::Char(if m.shift != m.caps_lock { 'W' } else { 'w' }),
        26 => Key::Char(if m.shift != m.caps_lock { 'E' } else { 'e' }),
        27 => Key::Char(if m.shift != m.caps_lock { 'R' } else { 'r' }),
        28 => Key::Char(if m.shift != m.caps_lock { 'T' } else { 't' }),
        29 => Key::Char(if m.shift != m.caps_lock { 'Y' } else { 'y' }),
        30 => Key::Char(if m.shift != m.caps_lock { 'U' } else { 'u' }),
        31 => Key::Char(if m.shift != m.caps_lock { 'I' } else { 'i' }),
        32 => Key::Char(if m.shift != m.caps_lock { 'O' } else { 'o' }),
        33 => Key::Char(if m.shift != m.caps_lock { 'P' } else { 'p' }),
        38 => Key::Char(if m.shift != m.caps_lock { 'A' } else { 'a' }),
        39 => Key::Char(if m.shift != m.caps_lock { 'S' } else { 's' }),
        40 => Key::Char(if m.shift != m.caps_lock { 'D' } else { 'd' }),
        41 => Key::Char(if m.shift != m.caps_lock { 'F' } else { 'f' }),
        42 => Key::Char(if m.shift != m.caps_lock { 'G' } else { 'g' }),
        43 => Key::Char(if m.shift != m.caps_lock { 'H' } else { 'h' }),
        44 => Key::Char(if m.shift != m.caps_lock { 'J' } else { 'j' }),
        45 => Key::Char(if m.shift != m.caps_lock { 'K' } else { 'k' }),
        46 => Key::Char(if m.shift != m.caps_lock { 'L' } else { 'l' }),
        52 => Key::Char(if m.shift != m.caps_lock { 'Z' } else { 'z' }),
        53 => Key::Char(if m.shift != m.caps_lock { 'X' } else { 'x' }),
        54 => Key::Char(if m.shift != m.caps_lock { 'C' } else { 'c' }),
        55 => Key::Char(if m.shift != m.caps_lock { 'V' } else { 'v' }),
        56 => Key::Char(if m.shift != m.caps_lock { 'B' } else { 'b' }),
        57 => Key::Char(if m.shift != m.caps_lock { 'N' } else { 'n' }),
        58 => Key::Char(if m.shift != m.caps_lock { 'M' } else { 'm' }),
        _ => Key::Unknown(keycode),
    }
}

/// Convert an X11 keycode to a key (US layout on evdev keycodes): letters
/// are uppercase when exactly one of Shift and Caps Lock is active, other
/// printable keys take their shifted symbol when Shift is held.
pub fn key_from_keycode(keycode: u8, modifiers: &Modifiers) -> (k: Key)
    ensures
        k == key_of(keycode, *modifiers),
{
    match keycode {
        9 => Key::Escape,
        36 => Key::Return,
        23 => Key::Tab,
        22 => Key::Backspace,
        119 => Key::Delete,
        118 => Key::Insert,
        110 => Key::Home,
        115 => Key::End,
        112 => Key::PageUp,
        117 => Key::PageDown,
        113 => Key::Left,
        114 => Key::Right,
        111 => Key::Up,
        116 => Key::Down,
        67 => Key::F1,
        68 => Key::F2,
        69 => Key::F3,
        70 => Key::F4,
        71 => Key::F5,
        72 => Key::F6,
        73 => Key::F7,
        74 => Key::F8,
        75 => Key::F9,
        76 => Key::F10,
        95 => Key::F11,
        96 => Key::F12,
        65 => Key::Space,
        10 => char_key('1', '!', modifiers),
        11 => char_key('2', '@', modifiers),
        12 => char_key('3', '#', modifiers),
        13 => char_key('4', '$', modifiers),
        14 => char_key('5', '%', modifiers),
        15 => char_key('6', '^', modifiers),
        16 => char_key('7', '&', modifiers),
        17 => char_key('8', '*', modifiers),
        18 => char_key('9', '(', modifiers),
        19 => char_key('0', ')', modifiers),
        20 => char_key('-', '_', modifiers),
        21 => char_key('=', '+', modifiers),
        34 => char_key('[', '{', modifiers),
        35 => char_key(']', '}', modifiers),
        47 => char_key(';', ':', modifiers),
        48 => char_key('\'', '"', modifiers),
        51 => char_key('\\', '|', modifiers),
        59 => char_key(',', '<', modifiers),
        60 => char_key('.', '>', modifiers),
        61 => char_key('/', '?', modifiers),
        49 => char_key('`', '~', modifiers),
        24 => alpha_key('q', modifiers),
        25 => alpha_key('w', modifiers),
        26 => alpha_key('e', modifiers),
        27 => alpha_key('r', modifiers),
        28 => alpha_key('t', modifiers),
        29 => alpha_key('y', modifiers),
        30 => alpha_key('u', modifiers),
        31 => alpha_key('i', modifiers),
        32 => alpha_key('o', modifiers),
        33 => alpha_key('p', modifiers),
        38 => alpha_key('a', modifiers),
        39 => alpha_key('s', modifiers),
        40 => alpha_key('d', modifiers),
        41 => alpha_key('f', modifiers),
        42 => alpha_key('g', modifiers),
        43 => alpha_key('h', modifiers),
        44 => alpha_key('j', modifiers),
        45 => alpha_key('k', modifiers),
        46 => alpha_key('l', modifiers),
        52 => alpha_key('z', modifiers),
        53 => alpha_key('x', modifiers),
        54 => alpha_key('c', modifiers),
        55 => alpha_key('v', modifiers),
        56 => alpha_key('b', modifiers),
        57 => alpha_key('n', modifiers),
        58 => alpha_key('m', modifiers),
        _ => Key::Unknown(keycode),
    }
}

/// A letter key: uppercase when Shift and Caps Lock differ.
fn alpha_key(lower: char, modifiers: &Modifiers) -> (k: Key)
    ensures
        k == Key::Char(if modifiers.shift != modifiers.caps_lock { ascii_upper(lower) } else { lower }),
{
    let upper = ascii_uppercase(lower);
    let shifted = modifiers.shift != modifiers.caps_lock;
    Key::Char(if shifted { upper } else { lower })
}

/// A symbol key: the shifted symbol when Shift is held.
fn char_key(normal: char, shifted: char, modifiers: &Modifiers) -> (k: Key)
    ensures
        k == Key::Char(if modifiers.shift { shifted } else { normal }),
{
    Key::Char(if modifiers.shift { shifted } else { normal })
}

/// Build a key event from the keycode (`detail`) and modifier mask (`state`)
/// of an X11 key press or release.
pub fn key_event_from_x11(detail: u8, state: u16, pressed: bool) -> (e: KeyEvent)
    ensures
        e.modifiers == modifiers_of(state),
        e.key == key_of(detail, modifiers_of(state)),
        e.keycode == detail,
        e.pressed == pressed,
{
    let modifiers = modifiers_from_x11(state);
    let key = key_from_keycode(detail, &modifiers);
    KeyEvent { key, keycode: detail, modifiers, pressed }
}

/// An ASCII letter.
pub open spec fn is_ascii_letter(c: char) -> bool {
    ('a' <= c <= 'z') || ('A' <= c <= 'Z')
}

/// Which key a keycode denotes depends on Shift and Caps Lock only:
/// Control, Alt, Super and Num Lock never change it.
pub proof fn law_key_ignores_other_modifiers(keycode: u8, a: Modifiers, b: Modifiers)
    requires
        a.shift == b.shift,
        a.caps_lock == b.caps_lock,
    ensures
        key_of(keycode, a) == key_of(keycode, b),
{
}

/// Caps Lock changes letters only: where toggling it changes the key, both
/// keys are letters, and they differ.
pub proof fn law_caps_lock_changes_only_letters(keycode: u8, m: Modifiers)
    ensures
        ({
            let flipped = Modifiers { caps_lock: !m.caps_lock, ..m };
            key_of(keycode, m) != key_of(keycode, flipped) ==> (key_of(keycode, m) matches Key::Char(
                c,
            ) && key_of(keycode, flipped) matches Key::Char(d) && is_ascii_letter(c)
                && is_ascii_letter(d) && c != d)
        }),
{
}

/// The X11 keycode of a Linux evdev key code: X servers on evdev report
/// the evdev code plus 8.
pub open spec fn x11_keycode(evdev: u8) -> u8 {
    (evdev + 8) as u8
}

/// Special keys follow the evdev key codes of `linux/input-event-codes.h`
/// (named beside each line), whatever the modifiers.
pub proof fn law_special_keys_follow_evdev(m: Modifiers)
    ensures
        key_of(x11_keycode(1), m) == Key::Escape,  // KEY_ESC
        key_of(x11_keycode(28), m) == Key::Return,  // KEY_ENTER
        key_of(x11_keycode(15), m) == Key::Tab,  // KEY_TAB
        key_of(x11_keycode(14), m) == Key::Backspace,  // KEY_BACKSPACE
        key_of(x11_keycode(111), m) == Key::Delete,  // KEY_DELETE
        key_of(x11_keycode(110), m) == Key::Insert,  // KEY_INSERT
        key_of(x11_keycode(102), m) == Key::Home,  // KEY_HOME
        key_of(x11_keycode(107), m) == Key::End,  // KEY_END
        key_of(x11_keycode(104), m) == Key::PageUp,  // KEY_PAGEUP
        key_of(x11_keycode(109), m) == Key::PageDown,  // KEY_PAGEDOWN
        key_of(x11_keycode(105), m) == Key::Left,  // KEY_LEFT
        key_of(x11_keycode(106), m) == Key::Right,  // KEY_RIGHT
        key_of(x11_keycode(103), m) == Key::Up,  // KEY_UP
        key_of(x11_keycode(108), m) == Key::Down,  // KEY_DOWN
        key_of(x11_keycode(59), m) == Key::F1,  // KEY_F1
        key_of(x11_keycode(60), m) == Key::F2,  // KEY_F2
        key_of(x11_keycode(61), m) == Key::F3,  // KEY_F3
        key_of(x11_keycode(62), m) == Key::F4,  // KEY_F4
        key_of(x11_keycode(63), m) == Key::F5,  // KEY_F5
        key_of(x11_keycode(64), m) == Key::F6,  // KEY_F6
        key_of(x11_keycode(65), m) == Key::F7,  // KEY_F7
        key_of(x11_keycode(66), m) == Key::F8,  // KEY_F8
        key_of(x11_keycode(67), m) == Key::F9,  // KEY_F9
        key_of(x11_keycode(68), m) == Key::F10,  // KEY_F10
        key_of(x11_keycode(87), m) == Key::F11,  // KEY_F11
        key_of(x11_keycode(88), m) == Key::F12,  // KEY_F12
        key_of(x11_keycode(57), m) == Key::Space,  // KEY_SPACE
{
}

/// Letter keys follow the evdev key codes (US layout); a letter is
/// uppercase exactly when one of Shift and Caps Lock is active.
pub proof fn law_letter_keys_follow_evdev(m: Modifiers, upper: bool)
    requires
        upper == (m.shift != m.caps_lock),
    ensures
        key_of(x11_keycode(16), m) == Key::Char(if upper { 'Q' } else { 'q' }),  // KEY_Q
        key_of(x11_keycode(17), m) == Key::Char(if upper { 'W' } else { 'w' }),  // KEY_W
        key_of(x11_keycode(18), m) == Key::Char(if upper { 'E' } else { 'e' }),  // KEY_E
        key_of(x11_keycode(19), m) == Key::Char(if upper { 'R' } else { 'r' }),  // KEY_R
        key_of(x11_keycode(20), m) == Key::Char(if upper { 'T' } else { 't' }),  // KEY_T
        key_of(x11_keycode(21), m) == Key::Char(if upper { 'Y' } else { 'y' }),  // KEY_Y
        key_of(x11_keycode(22), m) == Key::Char(if upper { 'U' } else { 'u' }),  // KEY_U
        key_of(x11_keycode(23), m) == Key::Char(if upper { 'I' } else { 'i' }),  // KEY_I
        key_of(x11_keycode(24), m) == Key::Char(if upper { 'O' } else { 'o' }),  // KEY_O
        key_of(x11_keycode(25), m) == Key::Char(if upper { 'P' } else { 'p' }),  // KEY_P
        key_of(x11_keycode(30), m) == Key::Char(if upper { 'A' } else { 'a' }),  // KEY_A
        key_of(x11_keycode(31), m) == Key::Char(if upper { 'S' } else { 's' }),  // KEY_S
        key_of(x11_keycode(32), m) == Key::Char(if upper { 'D' } else { 'd' }),  // KEY_D
        key_of(x11_keycode(33), m) == Key::Char(if upper { 'F' } else { 'f' }),  // KEY_F
        key_of(x11_keycode(34), m) == Key::Char(if upper { 'G' } else { 'g' }),  // KEY_G
        key_of(x11_keycode(35), m) == Key::Char(if upper { 'H' } else { 'h' }),  // KEY_H
        key_of(x11_keycode(36), m) == Key::Char(if upper { 'J' } else { 'j' }),  // KEY_J
        key_of(x11_keycode(37), m) == Key::Char(if upper { 'K' } else { 'k' }),  // KEY_K
        key_of(x11_keycode(38), m) == Key::Char(if upper { 'L' } else { 'l' }),  // KEY_L
        key_of(x11_keycode(44), m) == Key::Char(if upper { 'Z' } else { 'z' }),  // KEY_Z
        key_of(x11_keycode(45), m) == Key::Char(if upper { 'X' } else { 'x' }),  // KEY_X
        key_of(x11_keycode(46), m) == Key::Char(if upper { 'C' } else { 'c' }),  // KEY_C
        key_of(x11_keycode(47), m) == Key::Char(if upper { 'V' } else { 'v' }),  // KEY_V
        key_of(x11_keycode(48), m) == Key::Char(if upper { 'B' } else { 'b' }),  // KEY_B
        key_of(x11_keycode(49), m) == Key::Char(if upper { 'N' } else { 'n' }),  // KEY_N
        key_of(x11_keycode(50), m) == Key::Char(if upper { 'M' } else { 'm' }),  // KEY_M
{
}

/// Digit and punctuation keys follow the evdev key codes (US layout); Shift
/// gives the symbol printed above, Caps Lock changes nothing.
pub proof fn law_symbol_keys_follow_evdev(m: Modifiers)
    ensures
        key_of(x11_keycode(2), m) == Key::Char(if m.shift { '!' } else { '1' }),  // KEY_1
        key_of(x11_keycode(3), m) == Key::Char(if m.shift { '@' } else { '2' }),  // KEY_2
        key_of(x11_keycode(4), m) == Key::Char(if m.shift { '#' } else { '3' }),  // KEY_3
        key_of(x11_keycode(5), m) == Key::Char(if m.shift { '$' } else { '4' }),  // KEY_4
        key_of(x11_keycode(6), m) == Key::Char(if m.shift { '%' } else { '5' }),  // KEY_5
        key_of(x11_keycode(7), m) == Key::Char(if m.shift { '^' } else { '6' }),  // KEY_6
        key_of(x11_keycode(8), m) == Key::Char(if m.shift { '&' } else { '7' }),  // KEY_7
        key_of(x11_keycode(9), m) == Key::Char(if m.shift { '*' } else { '8' }),  // KEY_8
        key_of(x11_keycode(10), m) == Key::Char(if m.shift { '(' } else { '9' }),  // KEY_9
        key_of(x11_keycode(11), m) == Key::Char(if m.shift { ')' } else { '0' }),  // KEY_0
        key_of(x11_keycode(12), m) == Key::Char(if m.shift { '_' } else { '-' }),  // KEY_MINUS
        key_of(x11_keycode(13), m) == Key::Char(if m.shift { '+' } else { '=' }),  // KEY_EQUAL
        key_of(x11_keycode(26), m) == Key::Char(if m.shift { '{' } else { '[' }),  // KEY_LEFTBRACE
        key_of(x11_keycode(27), m) == Key::Char(if m.shift { '}' } else { ']' }),  // KEY_RIGHTBRACE
        key_of(x11_keycode(39), m) == Key::Char(if m.shift { ':' } else { ';' }),  // KEY_SEMICOLON
        key_of(x11_keycode(40), m) == Key::Char(if m.shift { '"' } else { '\'' }),  // KEY_APOSTROPHE
        key_of(x11_keycode(41), m) == Key::Char(if m.shift { '~' } else { '`' }),  // KEY_GRAVE
        key_of(x11_keycode(43), m) == Key::Char(if m.shift { '|' } else { '\\' }),  // KEY_BACKSLASH
        key_of(x11_keycode(51), m) == Key::Char(if m.shift { '<' } else { ',' }),  // KEY_COMMA
        key_of(x11_keycode(52), m) == Key::Char(if m.shift { '>' } else { '.' }),  // KEY_DOT
        key_of(x11_keycode(53), m) == Key::Char(if m.shift { '?' } else { '/' }),  // KEY_SLASH
{
}

} // verus!
