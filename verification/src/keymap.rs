//! The key resolver: from a physical key code and the shift condition to the
//! text that stands for the key.
//!
//! Two tables of equal length hold the texts, one for each shift condition. A
//! code indexes both; the tables end at [`KEY_MAX`], so the one comparison with
//! that bound is all that guards the lookup.

use vstd::prelude::*;

verus! {

/// The highest key code that has an entry in the tables.
pub const KEY_MAX: u16 = 122;

/// The text of a code inside the tables that no key is bound to.
pub const UNKNOWN: &'static str = "<KR>";

/// The texts of the keys while no Shift key is held, by key code.
pub const KEYS: [&'static str; 123] = [
    UNKNOWN, "<ESC>", "1", "2", "3", "4", "5", "6", "7", "8", "9", "0", "-", "=", "<backspace>",
    "<TAB>", "q", "w", "e", "r", "t", "y", "u", "i", "o", "p", "[", "]", "<Enter>", "<LCTRL>",
    "a", "s", "d", "f", "g", "h", "j", "k", "l", ";", "'", "`", "<LSHIFT>", "\\", "z", "x", "c",
    "v", "b", "n", "m", ",", ".", "/", "<RSHIFT>", "<KP*>", "<LALT>", " ", "<CapsLock>", "<F1>",
    "<F2>", "<F3>", "<F4>", "<F5>", "<F6>", "<F7>", "<F8>", "<F9>", "<F10>", "<NumLock>",
    "<ScrollLock>", "<KP7>", "<KP8>", "<KP9>", "<KPMINUS>", "<KP4>", "<KP5>", "<KP6>",
    "<KPPLUS>", "<KP1>", "<KP2>", "<KP3>", "<KP0>", "<KPDOT>", UNKNOWN, UNKNOWN, UNKNOWN,
    "<F11>", "<F12>", UNKNOWN, UNKNOWN, UNKNOWN, UNKNOWN, UNKNOWN, UNKNOWN, UNKNOWN,
    "<KPEnter>", "<RCTRL>", "<KP/>", "<SysRQ>", "<RALT>", UNKNOWN, "<Home>", "<UP>",
    "<PAGE_UP>", "<LEFT>", "<RIGHT>", "<END>", "<DOWN>", "<PAGEDOWN>", "<INSERT>", "<DELETE>",
    "<DELETE>", "<MACRO>", "<MUTE>", "<VOLUME_DOWN>", "<VOLUME_UP>", "<POWER>", "<KPEqual>",
    "<KPPlusMinus>", "<KPPause>", "<KPScale>", "<KPComma>",
];

/// The texts of the keys while a Shift key is held, by key code.
pub const KEYS_SHIFT: [&'static str; 123] = [
    UNKNOWN, "<ESC>", "!", "@", "#", "$", "%", "^", "&", "*", "(", ")", "_", "+", "<Backspace>",
    "<Tab>", "Q", "W", "E", "R", "T", "Y", "U", "I", "O", "P", "{", "}", "<Enter>", "<LCTRL>",
    "A", "S", "D", "F", "G", "H", "J", "K", "L", ":", "\"", "~", "<LSHIFT>", "|", "Z", "X", "C",
    "V", "B", "N", "M", "<", ">", "?", "<RSHIFT>", "<KP*>", "<LALT>", " ", "<CapsLock>", "<F1>",
    "<F2>", "<F3>", "<F4>", "<F5>", "<F6>", "<F7>", "<F8>", "<F9>", "<F10>", "<NumLock>",
    "<ScrollLock>", "<KP7>", "<KP8>", "<KP9>", "<KPMINUS>", "<KP4>", "<KP5>", "<KP6>",
    "<KPPLUS>", "<KP1>", "<KP2>", "<KP3>", "<KP0>", "<KPDOT>", UNKNOWN, UNKNOWN, UNKNOWN,
    "<F11>", "<F12>", UNKNOWN, UNKNOWN, UNKNOWN, UNKNOWN, UNKNOWN, UNKNOWN, UNKNOWN,
    "<KPEnter>", "<RCTRL>", "<KP/>", "<SysRQ>", "<RALT>", UNKNOWN, "<Home>", "<UP>",
    "<PAGE_UP>", "<LEFT>", "<RIGHT>", "<END>", "<DOWN>", "<PAGEDOWN>", "<INSERT>", "<DELETE>",
    "<DELETE>", "<MACRO>", "<MUTE>", "<VOLUME_DOWN>", "<VOLUME_UP>", "<POWER>", "<KPEqual>",
    "<KPPlusMinus>", "<KPPause>", "<KPScale>", "<KPComma>",
];

/// Why a key code has no text.
#[derive(Debug, Clone, Copy, PartialEq, Eq, Structural)]
pub enum KeyError {
    /// The code, carried here, lies above [`KEY_MAX`].
    OutOfBounds(u16),
}

/// The text of key `code`: its entry in [`KEYS_SHIFT`] if `shifted`, else in
/// [`KEYS`]. It has a meaning for `code <= KEY_MAX` only.
pub open spec fn key_symbol(code: u16, shifted: bool) -> Seq<char>
    recommends
        code <= KEY_MAX,
{
    if shifted {
        KEYS_SHIFT[code as int]@
    } else {
        KEYS[code as int]@
    }
}

/// Whether `text` has the shape of a key's text: a single character, or a name
/// between angle brackets.
pub open spec fn is_key_text(text: Seq<char>) -> bool {
    text.len() == 1 || (text.len() >= 3 && text[0] == '<' && text.last() == '>')
}

/// Resolves a key code to its text.
///
/// `is_shift` is the number of Shift keys held; any number but zero selects
/// the shifted table. Every code up to [`KEY_MAX`] resolves, if only to
/// [`UNKNOWN`], and never to an empty text; a code above it is handed back in
/// the error and no table is read.
pub fn get_key(code: u16, is_shift: u16) -> (key: Result<&'static str, KeyError>)
    ensures
        match key {
            Ok(text) => {
                &&& code <= KEY_MAX
                &&& text@ == key_symbol(code, is_shift != 0)
                &&& is_key_text(text@)
            },
            Err(KeyError::OutOfBounds(refused)) => code > KEY_MAX && refused == code,
        },
{
    proof {
        if code <= KEY_MAX {
            lemma_key_text_shape(code, is_shift != 0);
        }
    }
    if code > KEY_MAX {
        return Err(KeyError::OutOfBounds(code));
    }
    if is_shift != 0 {
        Ok(KEYS_SHIFT[code as usize])
    } else {
        Ok(KEYS[code as usize])
    }
}

/// Every entry of both tables has the shape of a key's text. So no key
/// resolves to an empty text.
pub proof fn lemma_key_text_shape(code: u16, shifted: bool)
    requires
        code <= KEY_MAX,
    ensures
        is_key_text(key_symbol(code, shifted)),
        key_symbol(code, shifted).len() > 0,
{
    assert(is_key_text("<KR>"@)) by { reveal_strlit("<KR>"); }
    assert(is_key_text("<ESC>"@)) by { reveal_strlit("<ESC>"); }
    assert(is_key_text("1"@)) by { reveal_strlit("1"); }
    assert(is_key_text("2"@)) by { reveal_strlit("2"); }
    assert(is_key_text("3"@)) by { reveal_strlit("3"); }
    assert(is_key_text("4"@)) by { reveal_strlit("4"); }
    assert(is_key_text("5"@)) by { reveal_strlit("5"); }
    assert(is_key_text("6"@)) by { reveal_strlit("6"); }
    assert(is_key_text("7"@)) by { reveal_strlit("7"); }
    assert(is_key_text("8"@)) by { reveal_strlit("8"); }
    assert(is_key_text("9"@)) by { reveal_strlit("9"); }
    assert(is_key_text("0"@)) by { reveal_strlit("0"); }
    assert(is_key_text("-"@)) by { reveal_strlit("-"); }
    assert(is_key_text("="@)) by { reveal_strlit("="); }
    assert(is_key_text("<backspace>"@)) by { reveal_strlit("<backspace>"); }
    assert(is_key_text("<TAB>"@)) by { reveal_strlit("<TAB>"); }
    assert(is_key_text("q"@)) by { reveal_strlit("q"); }
    assert(is_key_text("w"@)) by { reveal_strlit("w"); }
    assert(is_key_text("e"@)) by { reveal_strlit("e"); }
    assert(is_key_text("r"@)) by { reveal_strlit("r"); }
    assert(is_key_text("t"@)) by { reveal_strlit("t"); }
    assert(is_key_text("y"@)) by { reveal_strlit("y"); }
    assert(is_key_text("u"@)) by { reveal_strlit("u"); }
    assert(is_key_text("i"@)) by { reveal_strlit("i"); }
    assert(is_key_text("o"@)) by { reveal_strlit("o"); }
    assert(is_key_text("p"@)) by { reveal_strlit("p"); }
    assert(is_key_text("["@)) by { reveal_strlit("["); }
    assert(is_key_text("]"@)) by { reveal_strlit("]"); }
    assert(is_key_text("<Enter>"@)) by { reveal_strlit("<Enter>"); }
    assert(is_key_text("<LCTRL>"@)) by { reveal_strlit("<LCTRL>"); }
    assert(is_key_text("a"@)) by { reveal_strlit("a"); }
    assert(is_key_text("s"@)) by { reveal_strlit("s"); }
    assert(is_key_text("d"@)) by { reveal_strlit("d"); }
    assert(is_key_text("f"@)) by { reveal_strlit("f"); }
    assert(is_key_text("g"@)) by { reveal_strlit("g"); }
    assert(is_key_text("h"@)) by { reveal_strlit("h"); }
    assert(is_key_text("j"@)) by { reveal_strlit("j"); }
    assert(is_key_text("k"@)) by { reveal_strlit("k"); }
    assert(is_key_text("l"@)) by { reveal_strlit("l"); }
    assert(is_key_text(";"@)) by { reveal_strlit(";"); }
    assert(is_key_text("'"@)) by { reveal_strlit("'"); }
    assert(is_key_text("`"@)) by { reveal_strlit("`"); }
    assert(is_key_text("<LSHIFT>"@)) by { reveal_strlit("<LSHIFT>"); }
    assert(is_key_text("\\"@)) by { reveal_strlit("\\"); }
    assert(is_key_text("z"@)) by { reveal_strlit("z"); }
    assert(is_key_text("x"@)) by { reveal_strlit("x"); }
    assert(is_key_text("c"@)) by { reveal_strlit("c"); }
    assert(is_key_text("v"@)) by { reveal_strlit("v"); }
    assert(is_key_text("b"@)) by { reveal_strlit("b"); }
    assert(is_key_text("n"@)) by { reveal_strlit("n"); }
    assert(is_key_text("m"@)) by { reveal_strlit("m"); }
    assert(is_key_text(","@)) by { reveal_strlit(","); }
    assert(is_key_text("."@)) by { reveal_strlit("."); }
    assert(is_key_text("/"@)) by { reveal_strlit("/"); }
    assert(is_key_text("<RSHIFT>"@)) by { reveal_strlit("<RSHIFT>"); }
    assert(is_key_text("<KP*>"@)) by { reveal_strlit("<KP*>"); }
    assert(is_key_text("<LALT>"@)) by { reveal_strlit("<LALT>"); }
    assert(is_key_text(" "@)) by { reveal_strlit(" "); }
    assert(is_key_text("<CapsLock>"@)) by { reveal_strlit("<CapsLock>"); }
    assert(is_key_text("<F1>"@)) by { reveal_strlit("<F1>"); }
    assert(is_key_text("<F2>"@)) by { reveal_strlit("<F2>"); }
    assert(is_key_text("<F3>"@)) by { reveal_strlit("<F3>"); }
    assert(is_key_text("<F4>"@)) by { reveal_strlit("<F4>"); }
    assert(is_key_text("<F5>"@)) by { reveal_strlit("<F5>"); }
    assert(is_key_text("<F6>"@)) by { reveal_strlit("<F6>"); }
    assert(is_key_text("<F7>"@)) by { reveal_strlit("<F7>"); }
    assert(is_key_text("<F8>"@)) by { reveal_strlit("<F8>"); }
    assert(is_key_text("<F9>"@)) by { reveal_strlit("<F9>"); }
    assert(is_key_text("<F10>"@)) by { reveal_strlit("<F10>"); }
    assert(is_key_text("<NumLock>"@)) by { reveal_strlit("<NumLock>"); }
    assert(is_key_text("<ScrollLock>"@)) by { reveal_strlit("<ScrollLock>"); }
    assert(is_key_text("<KP7>"@)) by { reveal_strlit("<KP7>"); }
    assert(is_key_text("<KP8>"@)) by { reveal_strlit("<KP8>"); }
    assert(is_key_text("<KP9>"@)) by { reveal_strlit("<KP9>"); }
    assert(is_key_text("<KPMINUS>"@)) by { reveal_strlit("<KPMINUS>"); }
    assert(is_key_text("<KP4>"@)) by { reveal_strlit("<KP4>"); }
    assert(is_key_text("<KP5>"@)) by { reveal_strlit("<KP5>"); }
    assert(is_key_text("<KP6>"@)) by { reveal_strlit("<KP6>"); }
    assert(is_key_text("<KPPLUS>"@)) by { reveal_strlit("<KPPLUS>"); }
    assert(is_key_text("<KP1>"@)) by { reveal_strlit("<KP1>"); }
    assert(is_key_text("<KP2>"@)) by { reveal_strlit("<KP2>"); }
    assert(is_key_text("<KP3>"@)) by { reveal_strlit("<KP3>"); }
    assert(is_key_text("<KP0>"@)) by { reveal_strlit("<KP0>"); }
    assert(is_key_text("<KPDOT>"@)) by { reveal_strlit("<KPDOT>"); }
    assert(is_key_text("<F11>"@)) by { reveal_strlit("<F11>"); }
    assert(is_key_text("<F12>"@)) by { reveal_strlit("<F12>"); }
    assert(is_key_text("<KPEnter>"@)) by { reveal_strlit("<KPEnter>"); }
    assert(is_key_text("<RCTRL>"@)) by { reveal_strlit("<RCTRL>"); }
    assert(is_key_text("<KP/>"@)) by { reveal_strlit("<KP/>"); }
    assert(is_key_text("<SysRQ>"@)) by { reveal_strlit("<SysRQ>"); }
    assert(is_key_text("<RALT>"@)) by { reveal_strlit("<RALT>"); }
    assert(is_key_text("<Home>"@)) by { reveal_strlit("<Home>"); }
    assert(is_key_text("<UP>"@)) by { reveal_strlit("<UP>"); }
    assert(is_key_text("<PAGE_UP>"@)) by { reveal_strlit("<PAGE_UP>"); }
    assert(is_key_text("<LEFT>"@)) by { reveal_strlit("<LEFT>"); }
    assert(is_key_text("<RIGHT>"@)) by { reveal_strlit("<RIGHT>"); }
    assert(is_key_text("<END>"@)) by { reveal_strlit("<END>"); }
    assert(is_key_text("<DOWN>"@)) by { reveal_strlit("<DOWN>"); }
    assert(is_key_text("<PAGEDOWN>"@)) by { reveal_strlit("<PAGEDOWN>"); }
    assert(is_key_text("<INSERT>"@)) by { reveal_strlit("<INSERT>"); }
    assert(is_key_text("<DELETE>"@)) by { reveal_strlit("<DELETE>"); }
    assert(is_key_text("<MACRO>"@)) by { reveal_strlit("<MACRO>"); }
    assert(is_key_text("<MUTE>"@)) by { reveal_strlit("<MUTE>"); }
    assert(is_key_text("<VOLUME_DOWN>"@)) by { reveal_strlit("<VOLUME_DOWN>"); }
    assert(is_key_text("<VOLUME_UP>"@)) by { reveal_strlit("<VOLUME_UP>"); }
    assert(is_key_text("<POWER>"@)) by { reveal_strlit("<POWER>"); }
    assert(is_key_text("<KPEqual>"@)) by { reveal_strlit("<KPEqual>"); }
    assert(is_key_text("<KPPlusMinus>"@)) by { reveal_strlit("<KPPlusMinus>"); }
    assert(is_key_text("<KPPause>"@)) by { reveal_strlit("<KPPause>"); }
    assert(is_key_text("<KPScale>"@)) by { reveal_strlit("<KPScale>"); }
    assert(is_key_text("<KPComma>"@)) by { reveal_strlit("<KPComma>"); }
    assert(is_key_text("!"@)) by { reveal_strlit("!"); }
    assert(is_key_text("@"@)) by { reveal_strlit("@"); }
    assert(is_key_text("#"@)) by { reveal_strlit("#"); }
    assert(is_key_text("$"@)) by { reveal_strlit("$"); }
    assert(is_key_text("%"@)) by { reveal_strlit("%"); }
    assert(is_key_text("^"@)) by { reveal_strlit("^"); }
    assert(is_key_text("&"@)) by { reveal_strlit("&"); }
    assert(is_key_text("*"@)) by { reveal_strlit("*"); }
    assert(is_key_text("("@)) by { reveal_strlit("("); }
    assert(is_key_text(")"@)) by { reveal_strlit(")"); }
    assert(is_key_text("_"@)) by { reveal_strlit("_"); }
    assert(is_key_text("+"@)) by { reveal_strlit("+"); }
    assert(is_key_text("<Backspace>"@)) by { reveal_strlit("<Backspace>"); }
    assert(is_key_text("<Tab>"@)) by { reveal_strlit("<Tab>"); }
    assert(is_key_text("Q"@)) by { reveal_strlit("Q"); }
    assert(is_key_text("W"@)) by { reveal_strlit("W"); }
    assert(is_key_text("E"@)) by { reveal_strlit("E"); }
    assert(is_key_text("R"@)) by { reveal_strlit("R"); }
    assert(is_key_text("T"@)) by { reveal_strlit("T"); }
    assert(is_key_text("Y"@)) by { reveal_strlit("Y"); }
    assert(is_key_text("U"@)) by { reveal_strlit("U"); }
    assert(is_key_text("I"@)) by { reveal_strlit("I"); }
    assert(is_key_text("O"@)) by { reveal_strlit("O"); }
    assert(is_key_text("P"@)) by { reveal_strlit("P"); }
    assert(is_key_text("{"@)) by { reveal_strlit("{"); }
    assert(is_key_text("}"@)) by { reveal_strlit("}"); }
    assert(is_key_text("A"@)) by { reveal_strlit("A"); }
    assert(is_key_text("S"@)) by { reveal_strlit("S"); }
    assert(is_key_text("D"@)) by { reveal_strlit("D"); }
    assert(is_key_text("F"@)) by { reveal_strlit("F"); }
    assert(is_key_text("G"@)) by { reveal_strlit("G"); }
    assert(is_key_text("H"@)) by { reveal_strlit("H"); }
    assert(is_key_text("J"@)) by { reveal_strlit("J"); }
    assert(is_key_text("K"@)) by { reveal_strlit("K"); }
    assert(is_key_text("L"@)) by { reveal_strlit("L"); }
    assert(is_key_text(":"@)) by { reveal_strlit(":"); }
    assert(is_key_text("\""@)) by { reveal_strlit("\""); }
    assert(is_key_text("~"@)) by { reveal_strlit("~"); }
    assert(is_key_text("|"@)) by { reveal_strlit("|"); }
    assert(is_key_text("Z"@)) by { reveal_strlit("Z"); }
    assert(is_key_text("X"@)) by { reveal_strlit("X"); }
    assert(is_key_text("C"@)) by { reveal_strlit("C"); }
    assert(is_key_text("V"@)) by { reveal_strlit("V"); }
    assert(is_key_text("B"@)) by { reveal_strlit("B"); }
    assert(is_key_text("N"@)) by { reveal_strlit("N"); }
    assert(is_key_text("M"@)) by { reveal_strlit("M"); }
    assert(is_key_text("<"@)) by { reveal_strlit("<"); }
    assert(is_key_text(">"@)) by { reveal_strlit(">"); }
    assert(is_key_text("?"@)) by { reveal_strlit("?"); }
}

} // verus!
