//! The resolved key configuration and the key-hint renderer.
//!
//! [`KeyConfig`] pairs the key-binding list with the key display symbols.
//! [`KeyConfig::get_hint`] is the pure rendering of a captured key event as
//! a short display string: a single modifier glyph (or nothing), then the
//! key's own representation.

use vstd::prelude::*;
use vstd::string::StringExecFns;

use crate::key_list::{GituiKeyEvent, KeyCode, KeyModifiers, KeysList, KeysListPatch};
use crate::key_list::{default_keys_list, keys_list_apply, keys_list_diff};
use crate::key_symbols::{KeySymbols, KeySymbolsModel, KeySymbolsPatch};
use crate::key_symbols::{default_key_symbols, key_symbols_apply, key_symbols_diff};

verus! {

/// The character standing for digit `d`.
pub open spec fn digit_char(d: nat) -> char {
    seq!['0', '1', '2', '3', '4', '5', '6', '7', '8', '9'][d as int]
}

/// The decimal representation of `n`, most significant digit first.
pub open spec fn dec_rep(n: nat) -> Seq<char>
    decreases n,
{
    if n < 10 {
        seq![digit_char(n)]
    } else {
        dec_rep(n / 10) + seq![digit_char(n % 10)]
    }
}

/// The reserved display glyph for the space character.
pub open spec fn space_glyph() -> Seq<char> {
    "\u{02fd}"@
}

/// The modifier prefix of a hint: each of the three recognized modifiers,
/// held alone, yields its own glyph; anything else yields nothing.
pub open spec fn modifier_prefix(m: KeyModifiers, s: KeySymbolsModel) -> Seq<char> {
    if m == (KeyModifiers { control: true, shift: false, alt: false, other: false }) {
        s.control
    } else if m == (KeyModifiers { control: false, shift: true, alt: false, other: false }) {
        s.shift
    } else if m == (KeyModifiers { control: false, shift: false, alt: true, other: false }) {
        s.alt
    } else {
        Seq::empty()
    }
}

/// The display symbol of a control or navigation key; a question mark for
/// any other key.
pub open spec fn key_symbol(k: KeyCode, s: KeySymbolsModel) -> Seq<char> {
    match k {
        KeyCode::Enter => s.enter,
        KeyCode::Left => s.left,
        KeyCode::Right => s.right,
        KeyCode::Up => s.up,
        KeyCode::Down => s.down,
        KeyCode::Backspace => s.backspace,
        KeyCode::Home => s.home,
        KeyCode::End => s.end,
        KeyCode::PageUp => s.page_up,
        KeyCode::PageDown => s.page_down,
        KeyCode::Tab => s.tab,
        KeyCode::BackTab => s.back_tab,
        KeyCode::Delete => s.delete,
        KeyCode::Insert => s.insert,
        KeyCode::Esc => s.esc,
        _ => "?"@,
    }
}

/// What [`KeyConfig::get_hint`] returns: the modifier prefix and the key's
/// own representation, concatenated without a separator.  The space
/// character is shown as the reserved glyph alone, other printable
/// characters as themselves, function keys as `F` and the key number; the
/// no-key sentinel leaves only the prefix, and every other key is unmapped.
pub open spec fn hint_spec(ev: GituiKeyEvent, s: KeySymbolsModel) -> Seq<char> {
    match ev.code {
        KeyCode::Enter | KeyCode::Left | KeyCode::Right | KeyCode::Up | KeyCode::Down
            | KeyCode::Backspace | KeyCode::Home | KeyCode::End | KeyCode::PageUp
            | KeyCode::PageDown | KeyCode::Tab | KeyCode::BackTab | KeyCode::Delete
            | KeyCode::Insert | KeyCode::Esc => modifier_prefix(ev.modifiers, s) + key_symbol(
            ev.code,
            s,
        ),
        KeyCode::Char(c) => if c == ' ' {
            space_glyph()
        } else {
            modifier_prefix(ev.modifiers, s) + seq![c]
        },
        KeyCode::F(n) => modifier_prefix(ev.modifiers, s) + seq!['F'] + dec_rep(n as nat),
        KeyCode::Null => modifier_prefix(ev.modifiers, s),
        KeyCode::Other => Seq::empty(),
    }
}

/// Relies on String::push: appends exactly the given character.
#[verifier::external_body]
fn push_char(s: &mut String, c: char)
    ensures
        final(s)@ == old(s)@ + seq![c],
{
    s.push(c);
}

fn digit_char_exec(d: u8) -> (r: char)
    requires
        d < 10,
    ensures
        r == digit_char(d as nat),
{
    if d == 0 {
        '0'
    } else if d == 1 {
        '1'
    } else if d == 2 {
        '2'
    } else if d == 3 {
        '3'
    } else if d == 4 {
        '4'
    } else if d == 5 {
        '5'
    } else if d == 6 {
        '6'
    } else if d == 7 {
        '7'
    } else if d == 8 {
        '8'
    } else {
        '9'
    }
}

fn append_dec(s: &mut String, n: u8)
    ensures
        final(s)@ == old(s)@ + dec_rep(n as nat),
{
    let q = n / 10;
    let d0 = n % 10;
    if q == 0 {
        push_char(s, digit_char_exec(d0));
        proof {
            assert(s@ =~= old(s)@ + dec_rep(n as nat));
        }
    } else if q < 10 {
        push_char(s, digit_char_exec(q));
        push_char(s, digit_char_exec(d0));
        proof {
            assert(dec_rep((n / 10) as nat) == seq![digit_char((n / 10) as nat)]);
            assert(dec_rep(n as nat) == dec_rep((n / 10) as nat) + seq![
                digit_char((n % 10) as nat),
            ]);
            assert(s@ =~= old(s)@ + dec_rep(n as nat));
        }
    } else {
        let d2 = q / 10;
        let d1 = q % 10;
        push_char(s, digit_char_exec(d2));
        push_char(s, digit_char_exec(d1));
        push_char(s, digit_char_exec(d0));
        proof {
            assert(dec_rep((q / 10) as nat) == seq![digit_char((q / 10) as nat)]);
            assert(dec_rep(q as nat) == dec_rep((q / 10) as nat) + seq![
                digit_char((q % 10) as nat),
            ]);
            assert(dec_rep(n as nat) == dec_rep((n / 10) as nat) + seq![
                digit_char((n % 10) as nat),
            ]);
            assert(s@ =~= old(s)@ + dec_rep(n as nat));
        }
    }
}

/// The resolved key configuration: bindings and display symbols.
#[derive(Clone, Debug, PartialEq)]
pub struct KeyConfig {
    pub keys: KeysList,
    symbols: KeySymbols,
}

/// The mathematical value of a [`KeyConfig`].
#[verifier::ext_equal]
pub struct KeyConfigModel {
    pub keys: KeysList,
    pub symbols: KeySymbolsModel,
}

impl View for KeyConfig {
    type V = KeyConfigModel;

    closed spec fn view(&self) -> KeyConfigModel {
        KeyConfigModel { keys: self.keys, symbols: self.symbols@ }
    }
}

impl KeyConfig {
    /// Resolves what the binary read from the key-binding and key-symbol
    /// files, each independently and exactly as the theme is resolved: a
    /// parsed patch is applied to the defaults, a legacy full value is
    /// adopted and re-encoded for a one-time migration write, and a missing
    /// or unparsable file falls back to the defaults.  Returns the resolved
    /// configuration and the migration writes, if any, for the two files.
    pub fn init(
        keys_patch: Option<KeysListPatch>,
        keys_legacy: Option<KeysList>,
        symbols_patch: Option<KeySymbolsPatch>,
        symbols_legacy: Option<KeySymbols>,
    ) -> (r: (KeyConfig, Option<KeysListPatch>, Option<KeySymbolsPatch>))
        ensures
            keys_patch matches Some(p) ==> r.0@.keys == keys_list_apply(default_keys_list(), p)
                && r.1 is None,
            keys_patch is None ==> (keys_legacy matches Some(t) ==> r.0@.keys == t && r.1 == Some(
                keys_list_diff(t, default_keys_list()),
            )),
            keys_patch is None && keys_legacy is None ==> r.0@.keys == default_keys_list() && r.1
                is None,
            symbols_patch matches Some(p) ==> r.0@.symbols == key_symbols_apply(
                default_key_symbols(),
                p@,
            ) && r.2 is None,
            symbols_patch is None ==> (symbols_legacy matches Some(t) ==> r.0@.symbols == t@ && (
            r.2 matches Some(mp) && mp@ == key_symbols_diff(t@, default_key_symbols()))),
            symbols_patch is None && symbols_legacy is None ==> r.0@.symbols
                == default_key_symbols() && r.2 is None,
    {
        let (keys, keys_migration) = KeysList::init(keys_patch, keys_legacy);
        let (symbols, symbols_migration) = KeySymbols::init(symbols_patch, symbols_legacy);
        (KeyConfig { keys, symbols }, keys_migration, symbols_migration)
    }

    fn get_key_symbol(&self, k: KeyCode) -> (r: &str)
        ensures
            r@ == key_symbol(k, self@.symbols),
    {
        match k {
            KeyCode::Enter => self.symbols.enter.as_str(),
            KeyCode::Left => self.symbols.left.as_str(),
            KeyCode::Right => self.symbols.right.as_str(),
            KeyCode::Up => self.symbols.up.as_str(),
            KeyCode::Down => self.symbols.down.as_str(),
            KeyCode::Backspace => self.symbols.backspace.as_str(),
            KeyCode::Home => self.symbols.home.as_str(),
            KeyCode::End => self.symbols.end.as_str(),
            KeyCode::PageUp => self.symbols.page_up.as_str(),
            KeyCode::PageDown => self.symbols.page_down.as_str(),
            KeyCode::Tab => self.symbols.tab.as_str(),
            KeyCode::BackTab => self.symbols.back_tab.as_str(),
            KeyCode::Delete => self.symbols.delete.as_str(),
            KeyCode::Insert => self.symbols.insert.as_str(),
            KeyCode::Esc => self.symbols.esc.as_str(),
            _ => "?",
        }
    }

    fn get_modifier_hint(&self, modifier: KeyModifiers) -> (r: &str)
        ensures
            r@ == modifier_prefix(modifier, self@.symbols),
    {
        if modifier.control && !modifier.shift && !modifier.alt && !modifier.other {
            self.symbols.control.as_str()
        } else if modifier.shift && !modifier.control && !modifier.alt && !modifier.other {
            self.symbols.shift.as_str()
        } else if modifier.alt && !modifier.control && !modifier.shift && !modifier.other {
            self.symbols.alt.as_str()
        } else {
            proof {
                reveal_strlit("");
                assert(""@ =~= Seq::<char>::empty());
            }
            ""
        }
    }

    /// Renders a key event as its display hint.  Total: every code yields a
    /// string, the unmapped ones the empty string.
    pub fn get_hint(&self, ev: GituiKeyEvent) -> (r: String)
        ensures
            r@ == hint_spec(ev, self@.symbols),
    {
        match ev.code {
            KeyCode::Enter | KeyCode::Left | KeyCode::Right | KeyCode::Up | KeyCode::Down
                | KeyCode::Backspace | KeyCode::Home | KeyCode::End | KeyCode::PageUp
                | KeyCode::PageDown | KeyCode::Tab | KeyCode::BackTab | KeyCode::Delete
                | KeyCode::Insert | KeyCode::Esc => {
                let mut r = self.get_modifier_hint(ev.modifiers).to_owned();
                r.append(self.get_key_symbol(ev.code));
                r
            },
            KeyCode::Char(c) => {
                if c == ' ' {
                    "\u{02fd}".to_owned()
                } else {
                    let mut r = self.get_modifier_hint(ev.modifiers).to_owned();
                    push_char(&mut r, c);
                    r
                }
            },
            KeyCode::F(n) => {
                let mut r = self.get_modifier_hint(ev.modifiers).to_owned();
                r.append("F");
                append_dec(&mut r, n);
                proof {
                    reveal_strlit("F");
                    assert("F"@ =~= seq!['F']);
                    assert(r@ =~= hint_spec(ev, self@.symbols));
                }
                r
            },
            KeyCode::Null => self.get_modifier_hint(ev.modifiers).to_owned(),
            KeyCode::Other => String::new(),
        }
    }
}

impl Default for KeyConfig {
    /// The compiled-in default configuration.
    fn default() -> (r: KeyConfig)
        ensures
            r@.keys == default_keys_list(),
            r@.symbols == default_key_symbols(),
    {
        KeyConfig { keys: KeysList::default(), symbols: KeySymbols::default() }
    }
}

} // verus!
