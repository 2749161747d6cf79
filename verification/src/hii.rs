//! Descriptors of the human-interface tables that firmware hands over.
//!
//! These are plain records. Their fields mean what the firmware interface
//! says they mean; nothing here interprets them.

use vstd::prelude::*;

verus! {

/// A 16-bit character of firmware text.
pub type Char16 = u16;

/// `uguid::Guid`, a globally unique identifier as firmware writes it.
/// Nothing is claimed of a value of this type; it is stored and handed on.
#[verifier::external_type_specification]
#[verifier::external_body]
pub struct ExGuid(uguid::Guid);

/// The header every package starts with.
#[derive(Debug)]
pub struct HiiPackageHeader {
    /// Length of the package in the low 24 bits, its type in the high 8.
    pub length_and_type: u32,
    /// Marks where the package's data begins.
    pub data: [u8; 0],
}

/// The header of a list of packages.
#[derive(Debug)]
pub struct HiiPackageListHeader {
    /// Identifies the list.
    pub package_list_guid: uguid::Guid,
    /// Length of the whole list in bytes, this header included.
    pub package_length: u32,
}

/// A physical key on a keyboard, by its position.
#[derive(Clone, Copy, Debug, PartialEq, Eq, PartialOrd, Ord, Hash)]
pub struct Key(pub u32);

impl Key {
    pub const LCTRL: u32 = 0;

    pub const A0: u32 = 1;

    pub const LALT: u32 = 2;

    pub const SPACEBAR: u32 = 3;

    pub const A2: u32 = 4;

    pub const A3: u32 = 5;

    pub const A4: u32 = 6;

    pub const RCTRL: u32 = 7;

    pub const LEFT_ARROW: u32 = 8;

    pub const DOWN_ARROW: u32 = 9;

    pub const RIGHT_ARROW: u32 = 10;

    pub const ZERO: u32 = 11;

    pub const PERIOD: u32 = 12;

    pub const ENTER: u32 = 13;

    pub const LSHIFT: u32 = 14;

    pub const B0: u32 = 15;

    pub const B1: u32 = 16;

    pub const B2: u32 = 17;

    pub const B3: u32 = 18;

    pub const B4: u32 = 19;

    pub const B5: u32 = 20;

    pub const B6: u32 = 21;

    pub const B7: u32 = 22;

    pub const B8: u32 = 23;

    pub const B9: u32 = 24;

    pub const B10: u32 = 25;

    pub const RSHIFT: u32 = 26;

    pub const UP_ARROW: u32 = 27;

    pub const ONE: u32 = 28;

    pub const TWO: u32 = 29;

    pub const THREE: u32 = 30;

    pub const CAPS_LOCK: u32 = 31;

    pub const C1: u32 = 32;

    pub const C2: u32 = 33;

    pub const C3: u32 = 34;

    pub const C4: u32 = 35;

    pub const C5: u32 = 36;

    pub const C6: u32 = 37;

    pub const C7: u32 = 38;

    pub const C8: u32 = 39;

    pub const C9: u32 = 40;

    pub const C10: u32 = 41;

    pub const C11: u32 = 42;

    pub const C12: u32 = 43;

    pub const FOUR: u32 = 44;

    pub const FIVE: u32 = 45;

    pub const SIX: u32 = 46;

    pub const PLUS: u32 = 47;

    pub const TAB: u32 = 48;

    pub const D1: u32 = 49;

    pub const D2: u32 = 50;

    pub const D3: u32 = 51;

    pub const D4: u32 = 52;

    pub const D5: u32 = 53;

    pub const D6: u32 = 54;

    pub const D7: u32 = 55;

    pub const D8: u32 = 56;

    pub const D9: u32 = 57;

    pub const D10: u32 = 58;

    pub const D11: u32 = 59;

    pub const D12: u32 = 60;

    pub const D13: u32 = 61;

    pub const DEL: u32 = 62;

    pub const END: u32 = 63;

    pub const PG_DN: u32 = 64;

    pub const SEVEN: u32 = 65;

    pub const EIGHT: u32 = 66;

    pub const NINE: u32 = 67;

    pub const E0: u32 = 68;

    pub const E1: u32 = 69;

    pub const E2: u32 = 70;

    pub const E3: u32 = 71;

    pub const E4: u32 = 72;

    pub const E5: u32 = 73;

    pub const E6: u32 = 74;

    pub const E7: u32 = 75;

    pub const E8: u32 = 76;

    pub const E9: u32 = 77;

    pub const E10: u32 = 78;

    pub const E11: u32 = 79;

    pub const E12: u32 = 80;

    pub const BACK_SPACE: u32 = 81;

    pub const INS: u32 = 82;

    pub const HOME: u32 = 83;

    pub const PG_UP: u32 = 84;

    pub const NLCK: u32 = 85;

    pub const SLASH: u32 = 86;

    pub const ASTERISK: u32 = 87;

    pub const MINUS: u32 = 88;

    pub const ESC: u32 = 89;

    pub const F1: u32 = 90;

    pub const F2: u32 = 91;

    pub const F3: u32 = 92;

    pub const F4: u32 = 93;

    pub const F5: u32 = 94;

    pub const F6: u32 = 95;

    pub const F7: u32 = 96;

    pub const F8: u32 = 97;

    pub const F9: u32 = 98;

    pub const F10: u32 = 99;

    pub const F11: u32 = 100;

    pub const F12: u32 = 101;

    pub const PRINT: u32 = 102;

    pub const SLCK: u32 = 103;

    pub const PAUSE: u32 = 104;

    pub const INTL0: u32 = 105;

    pub const INTL1: u32 = 106;

    pub const INTL2: u32 = 107;

    pub const INTL3: u32 = 108;

    pub const INTL4: u32 = 109;

    pub const INTL5: u32 = 110;

    pub const INTL6: u32 = 111;

    pub const INTL7: u32 = 112;

    pub const INTL8: u32 = 113;

    pub const INTL9: u32 = 114;
}

/// What a modifier key does. The values stand in
/// [`KeyDescriptor::modifier`].
#[derive(Clone, Copy, Debug, PartialEq, Eq, PartialOrd, Ord, Hash)]
pub struct Modifier(pub u16);

impl Modifier {
    pub const NULL: u16 = 0x0000;

    pub const LEFT_CONTROL: u16 = 0x0001;

    pub const RIGHT_CONTROL: u16 = 0x0002;

    pub const LEFT_ALT: u16 = 0x0003;

    pub const RIGHT_ALT: u16 = 0x0004;

    pub const ALT_GR: u16 = 0x0005;

    pub const INSERT: u16 = 0x0006;

    pub const DELETE: u16 = 0x0007;

    pub const PAGE_DOWN: u16 = 0x0008;

    pub const PAGE_UP: u16 = 0x0009;

    pub const HOME: u16 = 0x000A;

    pub const END: u16 = 0x000B;

    pub const LEFT_SHIFT: u16 = 0x000C;

    pub const RIGHT_SHIFT: u16 = 0x000D;

    pub const CAPS_LOCK: u16 = 0x000E;

    pub const NUM_LOCK: u16 = 0x000F;

    pub const LEFT_ARROW: u16 = 0x0010;

    pub const RIGHT_ARROW: u16 = 0x0011;

    pub const DOWN_ARROW: u16 = 0x0012;

    pub const UP_ARROW: u16 = 0x0013;

    pub const NS_KEY: u16 = 0x0014;

    pub const NS_KEY_DEPENDENCY: u16 = 0x0015;

    pub const FUNCTION_KEY_ONE: u16 = 0x0016;

    pub const FUNCTION_KEY_TWO: u16 = 0x0017;

    pub const FUNCTION_KEY_THREE: u16 = 0x0018;

    pub const FUNCTION_KEY_FOUR: u16 = 0x0019;

    pub const FUNCTION_KEY_FIVE: u16 = 0x001A;

    pub const FUNCTION_KEY_SIX: u16 = 0x001B;

    pub const FUNCTION_KEY_SEVEN: u16 = 0x001C;

    pub const FUNCTION_KEY_EIGHT: u16 = 0x001D;

    pub const FUNCTION_KEY_NINE: u16 = 0x001E;

    pub const FUNCTION_KEY_TEN: u16 = 0x001F;

    pub const FUNCTION_KEY_ELEVEN: u16 = 0x0020;

    pub const FUNCTION_KEY_TWELVE: u16 = 0x0021;

    pub const PRINT: u16 = 0x0022;

    pub const SYS_REQUEST: u16 = 0x0023;

    pub const SCROLL_LOCK: u16 = 0x0024;

    pub const PAUSE: u16 = 0x0025;

    pub const BREAK: u16 = 0x0026;

    pub const LEFT_LOGO: u16 = 0x0027;

    pub const RIGHT_LOGO: u16 = 0x0028;

    pub const MENU: u16 = 0x0029;
}

/// How one key of a keyboard layout is read.
#[derive(Debug)]
pub struct KeyDescriptor {
    /// The key described.
    pub key: Key,
    /// The character the key gives by itself.
    pub unicode: Char16,
    /// The character it gives with shift.
    pub shifted_unicode: Char16,
    /// The character it gives with alt-gr.
    pub alt_gr_unicode: Char16,
    /// The character it gives with shift and alt-gr.
    pub shifted_alt_gr_unicode: Char16,
    /// What the key does as a modifier; one of the values of [`Modifier`].
    pub modifier: u16,
    /// Which of the other modifiers change what this key gives.
    pub affected_attribute: u16,
}

} // verus!
