//! Configuration data: hotkeys with modifiers, key-name tables, and the
//! settings structures, with the parsing and display rules they follow.

use vstd::prelude::*;
use vstd::string::StrSliceExecFns;
use vstd::string::StringExecFns;
use crate::outside::lower_of;
use crate::outside::lowercase;
use crate::strtext::split_char;
use crate::strtext::split_seq;
use crate::strtext::str_eq;
use crate::strtext::trim_seq;
use crate::strtext::trim;

verus! {

/// Key code for a lowercased key name; names outside the table have none.
pub open spec fn keycode_of(s: Seq<char>) -> Option<i32> {
    if s == "a"@ {
        Some(0x41)
    } else if s == "b"@ {
        Some(0x42)
    } else if s == "c"@ {
        Some(0x43)
    } else if s == "d"@ {
        Some(0x44)
    } else if s == "e"@ {
        Some(0x45)
    } else if s == "f"@ {
        Some(0x46)
    } else if s == "g"@ {
        Some(0x47)
    } else if s == "h"@ {
        Some(0x48)
    } else if s == "i"@ {
        Some(0x49)
    } else if s == "j"@ {
        Some(0x4A)
    } else if s == "k"@ {
        Some(0x4B)
    } else if s == "l"@ {
        Some(0x4C)
    } else if s == "m"@ {
        Some(0x4D)
    } else if s == "n"@ {
        Some(0x4E)
    } else if s == "o"@ {
        Some(0x4F)
    } else if s == "p"@ {
        Some(0x50)
    } else if s == "q"@ {
        Some(0x51)
    } else if s == "r"@ {
        Some(0x52)
    } else if s == "s"@ {
        Some(0x53)
    } else if s == "t"@ {
        Some(0x54)
    } else if s == "u"@ {
        Some(0x55)
    } else if s == "v"@ {
        Some(0x56)
    } else if s == "w"@ {
        Some(0x57)
    } else if s == "x"@ {
        Some(0x58)
    } else if s == "y"@ {
        Some(0x59)
    } else if s == "z"@ {
        Some(0x5A)
    } else if s == "0"@ {
        Some(0x30)
    } else if s == "1"@ {
        Some(0x31)
    } else if s == "2"@ {
        Some(0x32)
    } else if s == "3"@ {
        Some(0x33)
    } else if s == "4"@ {
        Some(0x34)
    } else if s == "5"@ {
        Some(0x35)
    } else if s == "6"@ {
        Some(0x36)
    } else if s == "7"@ {
        Some(0x37)
    } else if s == "8"@ {
        Some(0x38)
    } else if s == "9"@ {
        Some(0x39)
    } else if s == "f1"@ {
        Some(0x70)
    } else if s == "f2"@ {
        Some(0x71)
    } else if s == "f3"@ {
        Some(0x72)
    } else if s == "f4"@ {
        Some(0x73)
    } else if s == "f5"@ {
        Some(0x74)
    } else if s == "f6"@ {
        Some(0x75)
    } else if s == "f7"@ {
        Some(0x76)
    } else if s == "f8"@ {
        Some(0x77)
    } else if s == "f9"@ {
        Some(0x78)
    } else if s == "f10"@ {
        Some(0x79)
    } else if s == "f11"@ {
        Some(0x7A)
    } else if s == "f12"@ {
        Some(0x7B)
    } else if s == "numpad0"@ {
        Some(0x60)
    } else if s == "numpad1"@ {
        Some(0x61)
    } else if s == "numpad2"@ {
        Some(0x62)
    } else if s == "numpad3"@ {
        Some(0x63)
    } else if s == "numpad4"@ {
        Some(0x64)
    } else if s == "numpad5"@ {
        Some(0x65)
    } else if s == "numpad6"@ {
        Some(0x66)
    } else if s == "numpad7"@ {
        Some(0x67)
    } else if s == "numpad8"@ {
        Some(0x68)
    } else if s == "numpad9"@ {
        Some(0x69)
    } else if s == "num0"@ {
        Some(0x60)
    } else if s == "num1"@ {
        Some(0x61)
    } else if s == "num2"@ {
        Some(0x62)
    } else if s == "num3"@ {
        Some(0x63)
    } else if s == "num4"@ {
        Some(0x64)
    } else if s == "num5"@ {
        Some(0x65)
    } else if s == "num6"@ {
        Some(0x66)
    } else if s == "num7"@ {
        Some(0x67)
    } else if s == "num8"@ {
        Some(0x68)
    } else if s == "num9"@ {
        Some(0x69)
    } else if s == "multiply"@ {
        Some(0x6A)
    } else if s == "add"@ {
        Some(0x6B)
    } else if s == "subtract"@ {
        Some(0x6D)
    } else if s == "decimal"@ {
        Some(0x6E)
    } else if s == "divide"@ {
        Some(0x6F)
    } else if s == "numpad_multiply"@ {
        Some(0x6A)
    } else if s == "numpad_add"@ {
        Some(0x6B)
    } else if s == "numpad_subtract"@ {
        Some(0x6D)
    } else if s == "numpad_decimal"@ {
        Some(0x6E)
    } else if s == "numpad_divide"@ {
        Some(0x6F)
    } else if s == "insert"@ {
        Some(0x2D)
    } else if s == "ins"@ {
        Some(0x2D)
    } else if s == "delete"@ {
        Some(0x2E)
    } else if s == "del"@ {
        Some(0x2E)
    } else if s == "suppr"@ {
        Some(0x2E)
    } else if s == "home"@ {
        Some(0x24)
    } else if s == "end"@ {
        Some(0x23)
    } else if s == "pageup"@ {
        Some(0x21)
    } else if s == "pagedown"@ {
        Some(0x22)
    } else if s == "pgup"@ {
        Some(0x21)
    } else if s == "pgdn"@ {
        Some(0x22)
    } else if s == "up"@ {
        Some(0x26)
    } else if s == "down"@ {
        Some(0x28)
    } else if s == "left"@ {
        Some(0x25)
    } else if s == "right"@ {
        Some(0x27)
    } else if s == "escape"@ {
        Some(0x1B)
    } else if s == "esc"@ {
        Some(0x1B)
    } else if s == "enter"@ {
        Some(0x0D)
    } else if s == "return"@ {
        Some(0x0D)
    } else if s == "space"@ {
        Some(0x20)
    } else if s == "spacebar"@ {
        Some(0x20)
    } else if s == "tab"@ {
        Some(0x09)
    } else if s == "backspace"@ {
        Some(0x08)
    } else if s == "back"@ {
        Some(0x08)
    } else if s == "capslock"@ {
        Some(0x14)
    } else if s == "caps"@ {
        Some(0x14)
    } else if s == "numlock"@ {
        Some(0x90)
    } else if s == "scrolllock"@ {
        Some(0x91)
    } else if s == "printscreen"@ {
        Some(0x2C)
    } else if s == "print"@ {
        Some(0x2C)
    } else if s == "pause"@ {
        Some(0x13)
    } else if s == "break"@ {
        Some(0x13)
    } else if s == "semicolon"@ {
        Some(0xBA)
    } else if s == ";"@ {
        Some(0xBA)
    } else if s == "equals"@ {
        Some(0xBB)
    } else if s == "="@ {
        Some(0xBB)
    } else if s == "plus"@ {
        Some(0xBB)
    } else if s == "comma"@ {
        Some(0xBC)
    } else if s == ","@ {
        Some(0xBC)
    } else if s == "minus"@ {
        Some(0xBD)
    } else if s == "-"@ {
        Some(0xBD)
    } else if s == "period"@ {
        Some(0xBE)
    } else if s == "."@ {
        Some(0xBE)
    } else if s == "slash"@ {
        Some(0xBF)
    } else if s == "/"@ {
        Some(0xBF)
    } else if s == "backtick"@ {
        Some(0xC0)
    } else if s == "`"@ {
        Some(0xC0)
    } else if s == "grave"@ {
        Some(0xC0)
    } else if s == "openbracket"@ {
        Some(0xDB)
    } else if s == "["@ {
        Some(0xDB)
    } else if s == "backslash"@ {
        Some(0xDC)
    } else if s == "\\"@ {
        Some(0xDC)
    } else if s == "closebracket"@ {
        Some(0xDD)
    } else if s == "]"@ {
        Some(0xDD)
    } else if s == "quote"@ {
        Some(0xDE)
    } else if s == "'"@ {
        Some(0xDE)
    } else {
        None
    }
}

/// Key code for an already-lowercased key name.
fn keycode_for_lower(s: &str) -> (r: Option<i32>)
    ensures
        r == keycode_of(s@),
{
    if str_eq(s, "a") {
        Some(0x41)
    } else if str_eq(s, "b") {
        Some(0x42)
    } else if str_eq(s, "c") {
        Some(0x43)
    } else if str_eq(s, "d") {
        Some(0x44)
    } else if str_eq(s, "e") {
        Some(0x45)
    } else if str_eq(s, "f") {
        Some(0x46)
    } else if str_eq(s, "g") {
        Some(0x47)
    } else if str_eq(s, "h") {
        Some(0x48)
    } else if str_eq(s, "i") {
        Some(0x49)
    } else if str_eq(s, "j") {
        Some(0x4A)
    } else if str_eq(s, "k") {
        Some(0x4B)
    } else if str_eq(s, "l") {
        Some(0x4C)
    } else if str_eq(s, "m") {
        Some(0x4D)
    } else if str_eq(s, "n") {
        Some(0x4E)
    } else if str_eq(s, "o") {
        Some(0x4F)
    } else if str_eq(s, "p") {
        Some(0x50)
    } else if str_eq(s, "q") {
        Some(0x51)
    } else if str_eq(s, "r") {
        Some(0x52)
    } else if str_eq(s, "s") {
        Some(0x53)
    } else if str_eq(s, "t") {
        Some(0x54)
    } else if str_eq(s, "u") {
        Some(0x55)
    } else if str_eq(s, "v") {
        Some(0x56)
    } else if str_eq(s, "w") {
        Some(0x57)
    } else if str_eq(s, "x") {
        Some(0x58)
    } else if str_eq(s, "y") {
        Some(0x59)
    } else if str_eq(s, "z") {
        Some(0x5A)
    } else if str_eq(s, "0") {
        Some(0x30)
    } else if str_eq(s, "1") {
        Some(0x31)
    } else if str_eq(s, "2") {
        Some(0x32)
    } else if str_eq(s, "3") {
        Some(0x33)
    } else if str_eq(s, "4") {
        Some(0x34)
    } else if str_eq(s, "5") {
        Some(0x35)
    } else if str_eq(s, "6") {
        Some(0x36)
    } else if str_eq(s, "7") {
        Some(0x37)
    } else if str_eq(s, "8") {
        Some(0x38)
    } else if str_eq(s, "9") {
        Some(0x39)
    } else if str_eq(s, "f1") {
        Some(0x70)
    } else if str_eq(s, "f2") {
        Some(0x71)
    } else if str_eq(s, "f3") {
        Some(0x72)
    } else if str_eq(s, "f4") {
        Some(0x73)
    } else if str_eq(s, "f5") {
        Some(0x74)
    } else if str_eq(s, "f6") {
        Some(0x75)
    } else if str_eq(s, "f7") {
        Some(0x76)
    } else if str_eq(s, "f8") {
        Some(0x77)
    } else if str_eq(s, "f9") {
        Some(0x78)
    } else if str_eq(s, "f10") {
        Some(0x79)
    } else if str_eq(s, "f11") {
        Some(0x7A)
    } else if str_eq(s, "f12") {
        Some(0x7B)
    } else if str_eq(s, "numpad0") {
        Some(0x60)
    } else if str_eq(s, "numpad1") {
        Some(0x61)
    } else if str_eq(s, "numpad2") {
        Some(0x62)
    } else if str_eq(s, "numpad3") {
        Some(0x63)
    } else if str_eq(s, "numpad4") {
        Some(0x64)
    } else if str_eq(s, "numpad5") {
        Some(0x65)
    } else if str_eq(s, "numpad6") {
        Some(0x66)
    } else if str_eq(s, "numpad7") {
        Some(0x67)
    } else if str_eq(s, "numpad8") {
        Some(0x68)
    } else if str_eq(s, "numpad9") {
        Some(0x69)
    } else if str_eq(s, "num0") {
        Some(0x60)
    } else if str_eq(s, "num1") {
        Some(0x61)
    } else if str_eq(s, "num2") {
        Some(0x62)
    } else if str_eq(s, "num3") {
        Some(0x63)
    } else if str_eq(s, "num4") {
        Some(0x64)
    } else if str_eq(s, "num5") {
        Some(0x65)
    } else if str_eq(s, "num6") {
        Some(0x66)
    } else if str_eq(s, "num7") {
        Some(0x67)
    } else if str_eq(s, "num8") {
        Some(0x68)
    } else if str_eq(s, "num9") {
        Some(0x69)
    } else if str_eq(s, "multiply") {
        Some(0x6A)
    } else if str_eq(s, "add") {
        Some(0x6B)
    } else if str_eq(s, "subtract") {
        Some(0x6D)
    } else if str_eq(s, "decimal") {
        Some(0x6E)
    } else if str_eq(s, "divide") {
        Some(0x6F)
    } else if str_eq(s, "numpad_multiply") {
        Some(0x6A)
    } else if str_eq(s, "numpad_add") {
        Some(0x6B)
    } else if str_eq(s, "numpad_subtract") {
        Some(0x6D)
    } else if str_eq(s, "numpad_decimal") {
        Some(0x6E)
    } else if str_eq(s, "numpad_divide") {
        Some(0x6F)
    } else if str_eq(s, "insert") {
        Some(0x2D)
    } else if str_eq(s, "ins") {
        Some(0x2D)
    } else if str_eq(s, "delete") {
        Some(0x2E)
    } else if str_eq(s, "del") {
        Some(0x2E)
    } else if str_eq(s, "suppr") {
        Some(0x2E)
    } else if str_eq(s, "home") {
        Some(0x24)
    } else if str_eq(s, "end") {
        Some(0x23)
    } else if str_eq(s, "pageup") {
        Some(0x21)
    } else if str_eq(s, "pagedown") {
        Some(0x22)
    } else if str_eq(s, "pgup") {
        Some(0x21)
    } else if str_eq(s, "pgdn") {
        Some(0x22)
    } else if str_eq(s, "up") {
        Some(0x26)
    } else if str_eq(s, "down") {
        Some(0x28)
    } else if str_eq(s, "left") {
        Some(0x25)
    } else if str_eq(s, "right") {
        Some(0x27)
    } else if str_eq(s, "escape") {
        Some(0x1B)
    } else if str_eq(s, "esc") {
        Some(0x1B)
    } else if str_eq(s, "enter") {
        Some(0x0D)
    } else if str_eq(s, "return") {
        Some(0x0D)
    } else if str_eq(s, "space") {
        Some(0x20)
    } else if str_eq(s, "spacebar") {
        Some(0x20)
    } else if str_eq(s, "tab") {
        Some(0x09)
    } else if str_eq(s, "backspace") {
        Some(0x08)
    } else if str_eq(s, "back") {
        Some(0x08)
    } else if str_eq(s, "capslock") {
        Some(0x14)
    } else if str_eq(s, "caps") {
        Some(0x14)
    } else if str_eq(s, "numlock") {
        Some(0x90)
    } else if str_eq(s, "scrolllock") {
        Some(0x91)
    } else if str_eq(s, "printscreen") {
        Some(0x2C)
    } else if str_eq(s, "print") {
        Some(0x2C)
    } else if str_eq(s, "pause") {
        Some(0x13)
    } else if str_eq(s, "break") {
        Some(0x13)
    } else if str_eq(s, "semicolon") {
        Some(0xBA)
    } else if str_eq(s, ";") {
        Some(0xBA)
    } else if str_eq(s, "equals") {
        Some(0xBB)
    } else if str_eq(s, "=") {
        Some(0xBB)
    } else if str_eq(s, "plus") {
        Some(0xBB)
    } else if str_eq(s, "comma") {
        Some(0xBC)
    } else if str_eq(s, ",") {
        Some(0xBC)
    } else if str_eq(s, "minus") {
        Some(0xBD)
    } else if str_eq(s, "-") {
        Some(0xBD)
    } else if str_eq(s, "period") {
        Some(0xBE)
    } else if str_eq(s, ".") {
        Some(0xBE)
    } else if str_eq(s, "slash") {
        Some(0xBF)
    } else if str_eq(s, "/") {
        Some(0xBF)
    } else if str_eq(s, "backtick") {
        Some(0xC0)
    } else if str_eq(s, "`") {
        Some(0xC0)
    } else if str_eq(s, "grave") {
        Some(0xC0)
    } else if str_eq(s, "openbracket") {
        Some(0xDB)
    } else if str_eq(s, "[") {
        Some(0xDB)
    } else if str_eq(s, "backslash") {
        Some(0xDC)
    } else if str_eq(s, "\\") {
        Some(0xDC)
    } else if str_eq(s, "closebracket") {
        Some(0xDD)
    } else if str_eq(s, "]") {
        Some(0xDD)
    } else if str_eq(s, "quote") {
        Some(0xDE)
    } else if str_eq(s, "'") {
        Some(0xDE)
    } else {
        None
    }
}

/// Canonical display name of a key code.
pub open spec fn keyname_seq(code: i32) -> Seq<char> {
    if code == 0x41 {
        "A"@
    } else if code == 0x42 {
        "B"@
    } else if code == 0x43 {
        "C"@
    } else if code == 0x44 {
        "D"@
    } else if code == 0x45 {
        "E"@
    } else if code == 0x46 {
        "F"@
    } else if code == 0x47 {
        "G"@
    } else if code == 0x48 {
        "H"@
    } else if code == 0x49 {
        "I"@
    } else if code == 0x4A {
        "J"@
    } else if code == 0x4B {
        "K"@
    } else if code == 0x4C {
        "L"@
    } else if code == 0x4D {
        "M"@
    } else if code == 0x4E {
        "N"@
    } else if code == 0x4F {
        "O"@
    } else if code == 0x50 {
        "P"@
    } else if code == 0x51 {
        "Q"@
    } else if code == 0x52 {
        "R"@
    } else if code == 0x53 {
        "S"@
    } else if code == 0x54 {
        "T"@
    } else if code == 0x55 {
        "U"@
    } else if code == 0x56 {
        "V"@
    } else if code == 0x57 {
        "W"@
    } else if code == 0x58 {
        "X"@
    } else if code == 0x59 {
        "Y"@
    } else if code == 0x5A {
        "Z"@
    } else if code == 0x30 {
        "0"@
    } else if code == 0x31 {
        "1"@
    } else if code == 0x32 {
        "2"@
    } else if code == 0x33 {
        "3"@
    } else if code == 0x34 {
        "4"@
    } else if code == 0x35 {
        "5"@
    } else if code == 0x36 {
        "6"@
    } else if code == 0x37 {
        "7"@
    } else if code == 0x38 {
        "8"@
    } else if code == 0x39 {
        "9"@
    } else if code == 0x70 {
        "F1"@
    } else if code == 0x71 {
        "F2"@
    } else if code == 0x72 {
        "F3"@
    } else if code == 0x73 {
        "F4"@
    } else if code == 0x74 {
        "F5"@
    } else if code == 0x75 {
        "F6"@
    } else if code == 0x76 {
        "F7"@
    } else if code == 0x77 {
        "F8"@
    } else if code == 0x78 {
        "F9"@
    } else if code == 0x79 {
        "F10"@
    } else if code == 0x7A {
        "F11"@
    } else if code == 0x7B {
        "F12"@
    } else if code == 0x60 {
        "Numpad0"@
    } else if code == 0x61 {
        "Numpad1"@
    } else if code == 0x62 {
        "Numpad2"@
    } else if code == 0x63 {
        "Numpad3"@
    } else if code == 0x64 {
        "Numpad4"@
    } else if code == 0x65 {
        "Numpad5"@
    } else if code == 0x66 {
        "Numpad6"@
    } else if code == 0x67 {
        "Numpad7"@
    } else if code == 0x68 {
        "Numpad8"@
    } else if code == 0x69 {
        "Numpad9"@
    } else if code == 0x6A {
        "Multiply"@
    } else if code == 0x6B {
        "Add"@
    } else if code == 0x6D {
        "Subtract"@
    } else if code == 0x6E {
        "Decimal"@
    } else if code == 0x6F {
        "Divide"@
    } else if code == 0x2D {
        "Insert"@
    } else if code == 0x2E {
        "Delete"@
    } else if code == 0x24 {
        "Home"@
    } else if code == 0x23 {
        "End"@
    } else if code == 0x21 {
        "PageUp"@
    } else if code == 0x22 {
        "PageDown"@
    } else if code == 0x26 {
        "Up"@
    } else if code == 0x28 {
        "Down"@
    } else if code == 0x25 {
        "Left"@
    } else if code == 0x27 {
        "Right"@
    } else if code == 0x1B {
        "Escape"@
    } else if code == 0x0D {
        "Enter"@
    } else if code == 0x20 {
        "Space"@
    } else if code == 0x09 {
        "Tab"@
    } else if code == 0x08 {
        "Backspace"@
    } else if code == 0x14 {
        "CapsLock"@
    } else if code == 0x90 {
        "NumLock"@
    } else if code == 0x91 {
        "ScrollLock"@
    } else if code == 0x2C {
        "PrintScreen"@
    } else if code == 0x13 {
        "Pause"@
    } else if code == 0xBA {
        ";"@
    } else if code == 0xBB {
        "="@
    } else if code == 0xBC {
        ","@
    } else if code == 0xBD {
        "-"@
    } else if code == 0xBE {
        "."@
    } else if code == 0xBF {
        "/"@
    } else if code == 0xC0 {
        "`"@
    } else if code == 0xDB {
        "["@
    } else if code == 0xDC {
        "\\"@
    } else if code == 0xDD {
        "]"@
    } else if code == 0xDE {
        "'"@
    } else {
        "Unknown"@
    }
}

/// Convert a virtual key code to its canonical display name.
pub fn keycode_to_name(code: i32) -> (r: &'static str)
    ensures
        r@ == keyname_seq(code),
{
    if code == 0x41 {
        "A"
    } else if code == 0x42 {
        "B"
    } else if code == 0x43 {
        "C"
    } else if code == 0x44 {
        "D"
    } else if code == 0x45 {
        "E"
    } else if code == 0x46 {
        "F"
    } else if code == 0x47 {
        "G"
    } else if code == 0x48 {
        "H"
    } else if code == 0x49 {
        "I"
    } else if code == 0x4A {
        "J"
    } else if code == 0x4B {
        "K"
    } else if code == 0x4C {
        "L"
    } else if code == 0x4D {
        "M"
    } else if code == 0x4E {
        "N"
    } else if code == 0x4F {
        "O"
    } else if code == 0x50 {
        "P"
    } else if code == 0x51 {
        "Q"
    } else if code == 0x52 {
        "R"
    } else if code == 0x53 {
        "S"
    } else if code == 0x54 {
        "T"
    } else if code == 0x55 {
        "U"
    } else if code == 0x56 {
        "V"
    } else if code == 0x57 {
        "W"
    } else if code == 0x58 {
        "X"
    } else if code == 0x59 {
        "Y"
    } else if code == 0x5A {
        "Z"
    } else if code == 0x30 {
        "0"
    } else if code == 0x31 {
        "1"
    } else if code == 0x32 {
        "2"
    } else if code == 0x33 {
        "3"
    } else if code == 0x34 {
        "4"
    } else if code == 0x35 {
        "5"
    } else if code == 0x36 {
        "6"
    } else if code == 0x37 {
        "7"
    } else if code == 0x38 {
        "8"
    } else if code == 0x39 {
        "9"
    } else if code == 0x70 {
        "F1"
    } else if code == 0x71 {
        "F2"
    } else if code == 0x72 {
        "F3"
    } else if code == 0x73 {
        "F4"
    } else if code == 0x74 {
        "F5"
    } else if code == 0x75 {
        "F6"
    } else if code == 0x76 {
        "F7"
    } else if code == 0x77 {
        "F8"
    } else if code == 0x78 {
        "F9"
    } else if code == 0x79 {
        "F10"
    } else if code == 0x7A {
        "F11"
    } else if code == 0x7B {
        "F12"
    } else if code == 0x60 {
        "Numpad0"
    } else if code == 0x61 {
        "Numpad1"
    } else if code == 0x62 {
        "Numpad2"
    } else if code == 0x63 {
        "Numpad3"
    } else if code == 0x64 {
        "Numpad4"
    } else if code == 0x65 {
        "Numpad5"
    } else if code == 0x66 {
        "Numpad6"
    } else if code == 0x67 {
        "Numpad7"
    } else if code == 0x68 {
        "Numpad8"
    } else if code == 0x69 {
        "Numpad9"
    } else if code == 0x6A {
        "Multiply"
    } else if code == 0x6B {
        "Add"
    } else if code == 0x6D {
        "Subtract"
    } else if code == 0x6E {
        "Decimal"
    } else if code == 0x6F {
        "Divide"
    } else if code == 0x2D {
        "Insert"
    } else if code == 0x2E {
        "Delete"
    } else if code == 0x24 {
        "Home"
    } else if code == 0x23 {
        "End"
    } else if code == 0x21 {
        "PageUp"
    } else if code == 0x22 {
        "PageDown"
    } else if code == 0x26 {
        "Up"
    } else if code == 0x28 {
        "Down"
    } else if code == 0x25 {
        "Left"
    } else if code == 0x27 {
        "Right"
    } else if code == 0x1B {
        "Escape"
    } else if code == 0x0D {
        "Enter"
    } else if code == 0x20 {
        "Space"
    } else if code == 0x09 {
        "Tab"
    } else if code == 0x08 {
        "Backspace"
    } else if code == 0x14 {
        "CapsLock"
    } else if code == 0x90 {
        "NumLock"
    } else if code == 0x91 {
        "ScrollLock"
    } else if code == 0x2C {
        "PrintScreen"
    } else if code == 0x13 {
        "Pause"
    } else if code == 0xBA {
        ";"
    } else if code == 0xBB {
        "="
    } else if code == 0xBC {
        ","
    } else if code == 0xBD {
        "-"
    } else if code == 0xBE {
        "."
    } else if code == 0xBF {
        "/"
    } else if code == 0xC0 {
        "`"
    } else if code == 0xDB {
        "["
    } else if code == 0xDC {
        "\\"
    } else if code == 0xDD {
        "]"
    } else if code == 0xDE {
        "'"
    } else {
        "Unknown"
    }
}
/// Convert a key name to its virtual key code, case-insensitively.
pub fn name_to_keycode(name: &str) -> (r: Option<i32>)
    ensures
        r == keycode_of(lower_of(name@)),
{
    let l = lowercase(name);
    keycode_for_lower(l.as_str())
}

/// Modifier key flags.
#[derive(Debug, Clone, Copy, Default, PartialEq, Eq, Structural)]
pub struct Modifiers {
    /// Control must be held.
    pub ctrl: bool,
    /// Shift must be held.
    pub shift: bool,
    /// Alt must be held.
    pub alt: bool,
}

/// Display prefix of a modifier set: each required modifier's name with a
/// trailing plus sign.
pub open spec fn prefix_seq(m: Modifiers) -> Seq<char> {
    (if m.ctrl {
        "Ctrl+"@
    } else {
        Seq::<char>::empty()
    }) + (if m.shift {
        "Shift+"@
    } else {
        Seq::<char>::empty()
    }) + (if m.alt {
        "Alt+"@
    } else {
        Seq::<char>::empty()
    })
}

impl Modifiers {
    /// Whether the required modifiers are all held, given which modifier
    /// keys are currently down.
    pub fn are_held(&self, ctrl_down: bool, shift_down: bool, alt_down: bool) -> (r: bool)
        ensures
            r == ((!self.ctrl || ctrl_down) && (!self.shift || shift_down) && (!self.alt
                || alt_down)),
    {
        let ctrl_ok = !self.ctrl || ctrl_down;
        let shift_ok = !self.shift || shift_down;
        let alt_ok = !self.alt || alt_down;
        ctrl_ok && shift_ok && alt_ok
    }

    /// Display string for the modifiers, ending in a plus sign when any
    /// modifier is required.
    pub fn display_prefix(&self) -> (r: String)
        ensures
            r@ == prefix_seq(*self),
    {
        let mut s = String::new();
        if self.ctrl {
            s.append("Ctrl+");
        }
        if self.shift {
            s.append("Shift+");
        }
        if self.alt {
            s.append("Alt+");
        }
        proof {
            assert(s@ =~= prefix_seq(*self));
        }
        s
    }
}

/// A hotkey: a main key with optional modifiers.
#[derive(Debug, Clone, Copy)]
pub struct Hotkey {
    /// Virtual key code of the main key.
    pub key: i32,
    /// Required modifiers.
    pub modifiers: Modifiers,
}

impl Hotkey {
    /// The display name of the hotkey: modifier prefix and key name.
    pub fn name(&self) -> (r: String)
        ensures
            r@ == prefix_seq(self.modifiers) + keyname_seq(self.key),
    {
        let mut s = self.modifiers.display_prefix();
        s.append(keycode_to_name(self.key));
        s
    }

    /// The configuration-file text of the hotkey: lowercased modifier
    /// names and key name, joined by plus signs.
    pub fn to_config_string(&self) -> (r: String)
        ensures
            r@ == (if self.modifiers.ctrl {
                "ctrl+"@
            } else {
                Seq::<char>::empty()
            }) + (if self.modifiers.shift {
                "shift+"@
            } else {
                Seq::<char>::empty()
            }) + (if self.modifiers.alt {
                "alt+"@
            } else {
                Seq::<char>::empty()
            }) + lower_of(keyname_seq(self.key)),
    {
        let mut s = String::new();
        if self.modifiers.ctrl {
            s.append("ctrl+");
        }
        if self.modifiers.shift {
            s.append("shift+");
        }
        if self.modifiers.alt {
            s.append("alt+");
        }
        let lower_name = lowercase(keycode_to_name(self.key));
        s.append(lower_name.as_str());
        proof {
            assert(s@ =~= (if self.modifiers.ctrl {
                "ctrl+"@
            } else {
                Seq::<char>::empty()
            }) + (if self.modifiers.shift {
                "shift+"@
            } else {
                Seq::<char>::empty()
            }) + (if self.modifiers.alt {
                "alt+"@
            } else {
                Seq::<char>::empty()
            }) + lower_of(keyname_seq(self.key)));
        }
        s
    }
}

/// The trimmed plus-separated parts of hotkey text.
pub open spec fn hotkey_parts(s: Seq<char>) -> Seq<Seq<char>> {
    split_seq(s, '+').map_values(|p: Seq<char>| trim_seq(p))
}

/// Parser state after some parts: the modifiers seen, the main key if one
/// was named, and the first error if any.
pub ghost struct HotkeyParse {
    /// Control seen.
    pub ctrl: bool,
    /// Shift seen.
    pub shift: bool,
    /// Alt seen.
    pub alt: bool,
    /// The main key, when one part named one.
    pub main: Option<i32>,
    /// The first error's message.
    pub err: Option<Seq<char>>,
}

/// Error text for a second main key.
pub open spec fn multiple_keys_msg(part: Seq<char>) -> Seq<char> {
    "Multiple main keys specified: already have one, found '"@ + part + "'"@
}

/// Error text for an unknown key name.
pub open spec fn unknown_key_msg(part: Seq<char>) -> Seq<char> {
    "Unknown key name: '"@ + part + "'. See config file for valid key names."@
}

/// The parser's state after the first `n` parts: modifiers accumulate,
/// the first non-modifier part is the main key, a second one or an
/// unknown name is an error, and an error stops everything after it.
pub open spec fn parse_parts(parts: Seq<Seq<char>>, n: int) -> HotkeyParse
    decreases n,
{
    if n <= 0 {
        HotkeyParse { ctrl: false, shift: false, alt: false, main: None, err: None }
    } else {
        let st = parse_parts(parts, n - 1);
        let part = parts[n - 1];
        let pl = lower_of(part);
        if st.err is Some {
            st
        } else if pl == "ctrl"@ || pl == "control"@ {
            HotkeyParse { ctrl: true, ..st }
        } else if pl == "shift"@ {
            HotkeyParse { shift: true, ..st }
        } else if pl == "alt"@ {
            HotkeyParse { alt: true, ..st }
        } else if st.main is Some {
            HotkeyParse { err: Some(multiple_keys_msg(part)), ..st }
        } else {
            match keycode_of(pl) {
                Some(code) => HotkeyParse { main: Some(code), ..st },
                None => HotkeyParse { err: Some(unknown_key_msg(part)), ..st },
            }
        }
    }
}

/// Meaning of hotkey text: the fold over its parts; no main key is an
/// error of its own.
pub open spec fn parse_hotkey_spec(s: Seq<char>) -> Result<Hotkey, Seq<char>> {
    let parts = hotkey_parts(s);
    let st = parse_parts(parts, parts.len() as int);
    if st.err is Some {
        Err(st.err.unwrap())
    } else {
        match st.main {
            Some(code) => Ok(
                Hotkey {
                    key: code,
                    modifiers: Modifiers { ctrl: st.ctrl, shift: st.shift, alt: st.alt },
                },
            ),
            None => Err("No main key specified in hotkey"@),
        }
    }
}

/// An error in the part fold never goes away.
proof fn lemma_parse_parts_err_stable(parts: Seq<Seq<char>>, m: int, n: int)
    requires
        0 <= m <= n,
        parse_parts(parts, m).err is Some,
    ensures
        parse_parts(parts, n) == parse_parts(parts, m),
    decreases n - m,
{
    if n > m {
        lemma_parse_parts_err_stable(parts, m, n - 1);
    }
}

/// Parse hotkey text like `ctrl+shift+f9` or `f9`.
#[verifier::loop_isolation(false)]
pub fn parse_hotkey(s: &str) -> (r: Result<Hotkey, String>)
    ensures
        match r {
            Ok(h) => parse_hotkey_spec(s@) == Ok::<Hotkey, Seq<char>>(h),
            Err(m) => parse_hotkey_spec(s@) matches Err(e) && m@ == e,
        },
{
    let raw = split_char(s, '+');
    let ghost parts = hotkey_parts(s@);
    proof {
        assert(raw@.map_values(|t: String| t@) == split_seq(s@, '+'));
        assert(parts.len() == raw@.len());
    }
    let n = raw.len();
    let mut ctrl = false;
    let mut shift = false;
    let mut alt = false;
    let mut main_key: Option<i32> = None;
    let mut i: usize = 0;
    while i < n
        invariant
            0 <= i <= n,
            parse_parts(parts, i as int) == (HotkeyParse {
                ctrl,
                shift,
                alt,
                main: main_key,
                err: None,
            }),
        decreases n - i,
    {
        let part = trim(raw[i].as_str());
        let pl = lowercase(part);
        proof {
            assert(raw@.map_values(|t: String| t@)[i as int] == raw@[i as int]@);
            assert(parts[i as int] == trim_seq(split_seq(s@, '+')[i as int]));
            assert(part@ == parts[i as int]);
        }
        if str_eq(pl.as_str(), "ctrl") || str_eq(pl.as_str(), "control") {
            ctrl = true;
        } else if str_eq(pl.as_str(), "shift") {
            shift = true;
        } else if str_eq(pl.as_str(), "alt") {
            alt = true;
        } else if main_key.is_some() {
            let mut msg = String::from_str("Multiple main keys specified: already have one, found '");
            msg.append(part);
            msg.append("'");
            proof {
                assert(msg@ =~= multiple_keys_msg(parts[i as int]));
                lemma_parse_parts_err_stable(parts, i as int + 1, parts.len() as int);
            }
            return Err(msg);
        } else {
            match keycode_for_lower(pl.as_str()) {
                Some(code) => {
                    main_key = Some(code);
                },
                None => {
                    let mut msg = String::from_str("Unknown key name: '");
                    msg.append(part);
                    msg.append("'. See config file for valid key names.");
                    proof {
                        assert(msg@ =~= unknown_key_msg(parts[i as int]));
                        lemma_parse_parts_err_stable(parts, i as int + 1, parts.len() as int);
                    }
                    return Err(msg);
                },
            }
        }
        i = i + 1;
    }
    match main_key {
        Some(code) => Ok(Hotkey { key: code, modifiers: Modifiers { ctrl, shift, alt } }),
        None => {
            proof {
                reveal_strlit("No main key specified in hotkey");
            }
            Err(String::from_str("No main key specified in hotkey"))
        },
    }
}

/// Keyboard shortcuts configuration.
#[derive(Debug, Clone)]
pub struct KeyBindings {
    /// Key to toggle UI visibility.
    pub toggle_ui: Hotkey,
    /// Key to start or stop recording.
    pub toggle_recording: Hotkey,
    /// Key to clear the recorded route.
    pub clear_route: Hotkey,
    /// Key to save the recorded route.
    pub save_route: Hotkey,
}

impl Default for KeyBindings {
    /// The stock bindings: F9, F8, F7, and Control-S.
    fn default() -> (r: Self)
        ensures
            r.toggle_ui == (Hotkey { key: 0x78, modifiers: Modifiers { ctrl: false, shift: false, alt: false } }),
            r.toggle_recording == (Hotkey { key: 0x77, modifiers: Modifiers { ctrl: false, shift: false, alt: false } }),
            r.clear_route == (Hotkey { key: 0x76, modifiers: Modifiers { ctrl: false, shift: false, alt: false } }),
            r.save_route == (Hotkey { key: 0x53, modifiers: Modifiers { ctrl: true, shift: false, alt: false } }),
    {
        Self {
            toggle_ui: Hotkey { key: 0x78, modifiers: Modifiers { ctrl: false, shift: false, alt: false } },
            toggle_recording: Hotkey { key: 0x77, modifiers: Modifiers { ctrl: false, shift: false, alt: false } },
            clear_route: Hotkey { key: 0x76, modifiers: Modifiers { ctrl: false, shift: false, alt: false } },
            save_route: Hotkey { key: 0x53, modifiers: Modifiers { ctrl: true, shift: false, alt: false } },
        }
    }
}

/// Recording settings.
#[derive(Debug, Clone)]
pub struct RecordingSettings {
    /// Interval between samples, in milliseconds.
    pub record_interval_ms: u64,
}

impl Default for RecordingSettings {
    /// Ten samples per second.
    fn default() -> (r: Self)
        ensures
            r.record_interval_ms == 100,
    {
        Self { record_interval_ms: 100 }
    }
}

/// Output settings for saving routes.
#[derive(Debug, Clone)]
pub struct OutputSettings {
    /// Directory where route files are saved.
    pub routes_directory: String,
}

impl Default for OutputSettings {
    /// Routes go under `routes`.
    fn default() -> (r: Self)
        ensures
            r.routes_directory@ == "routes"@,
    {
        Self { routes_directory: String::from_str("routes") }
    }
}

/// Server settings for the streaming client.
#[derive(Debug, Clone)]
pub struct ServerSettings {
    /// Whether the server connection is enabled.
    pub enabled: bool,
    /// Server URL.
    pub url: String,
    /// Bearer token for authentication.
    pub api_token: String,
    /// Game id to connect to.
    pub game_id: String,
    /// Reconnect automatically after a dropped connection.
    pub auto_reconnect: bool,
}

/// The stock value of the reconnect switch.
pub fn default_auto_reconnect() -> (r: bool)
    ensures
        r,
{
    true
}

impl Default for ServerSettings {
    /// Disabled, with empty endpoint data and automatic reconnection.
    fn default() -> (r: Self)
        ensures
            !r.enabled,
            r.url@.len() == 0,
            r.api_token@.len() == 0,
            r.game_id@.len() == 0,
            r.auto_reconnect,
    {
        Self {
            enabled: false,
            url: String::new(),
            api_token: String::new(),
            game_id: String::new(),
            auto_reconnect: true,
        }
    }
}

/// Main configuration structure.
#[derive(Debug, Clone)]
pub struct Config {
    /// Keyboard shortcuts.
    pub keybindings: KeyBindings,
    /// Recording settings.
    pub recording: RecordingSettings,
    /// Output settings.
    pub output: OutputSettings,
    /// Server settings.
    pub server: ServerSettings,
}

impl Config {
    /// Name of the configuration file, looked for next to the program.
    pub fn config_filename() -> (r: &'static str)
        ensures
            r@ == "route_tracker_config.toml"@,
    {
        "route_tracker_config.toml"
    }
}

impl Default for Config {
    /// The stock configuration.
    fn default() -> (r: Self)
        ensures
            r.keybindings.toggle_ui.key == 0x78,
            r.keybindings.toggle_recording.key == 0x77,
            r.keybindings.clear_route.key == 0x76,
            r.keybindings.save_route == (Hotkey { key: 0x53, modifiers: Modifiers { ctrl: true, shift: false, alt: false } }),
            r.recording.record_interval_ms == 100,
            r.output.routes_directory@ == "routes"@,
            !r.server.enabled,
            r.server.auto_reconnect,
    {
        Self {
            keybindings: KeyBindings::default(),
            recording: RecordingSettings::default(),
            output: OutputSettings::default(),
            server: ServerSettings::default(),
        }
    }
}

} // verus!
