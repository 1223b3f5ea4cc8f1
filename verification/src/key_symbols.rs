//! Key display symbols with their sparse-patch persistence.
//!
//! [`KeySymbols`] holds the display strings for the non-printable keys and
//! the modifier glyphs that the key-hint renderer emits.  A user file may
//! override any subset; like the theme, only the difference against the
//! compiled-in defaults is stored on disk, with the same legacy-file
//! migration on load.

use vstd::prelude::*;

use crate::patching::{apply_string, diff_string, opt_apply, opt_diff, opt_str_view};

verus! {

/// The display strings for non-printable keys and modifier glyphs, fully
/// populated.
#[derive(Clone, Debug, PartialEq)]
pub struct KeySymbols {
    pub enter: String,
    pub left: String,
    pub right: String,
    pub up: String,
    pub down: String,
    pub backspace: String,
    pub home: String,
    pub end: String,
    pub page_up: String,
    pub page_down: String,
    pub tab: String,
    pub back_tab: String,
    pub delete: String,
    pub insert: String,
    pub esc: String,
    pub control: String,
    pub shift: String,
    pub alt: String,
}

/// The mathematical value of a [`KeySymbols`]: the same strings read as
/// character sequences.
#[verifier::ext_equal]
pub struct KeySymbolsModel {
    pub enter: Seq<char>,
    pub left: Seq<char>,
    pub right: Seq<char>,
    pub up: Seq<char>,
    pub down: Seq<char>,
    pub backspace: Seq<char>,
    pub home: Seq<char>,
    pub end: Seq<char>,
    pub page_up: Seq<char>,
    pub page_down: Seq<char>,
    pub tab: Seq<char>,
    pub back_tab: Seq<char>,
    pub delete: Seq<char>,
    pub insert: Seq<char>,
    pub esc: Seq<char>,
    pub control: Seq<char>,
    pub shift: Seq<char>,
    pub alt: Seq<char>,
}

impl View for KeySymbols {
    type V = KeySymbolsModel;

    open spec fn view(&self) -> KeySymbolsModel {
        KeySymbolsModel {
            enter: self.enter@,
            left: self.left@,
            right: self.right@,
            up: self.up@,
            down: self.down@,
            backspace: self.backspace@,
            home: self.home@,
            end: self.end@,
            page_up: self.page_up@,
            page_down: self.page_down@,
            tab: self.tab@,
            back_tab: self.back_tab@,
            delete: self.delete@,
            insert: self.insert@,
            esc: self.esc@,
            control: self.control@,
            shift: self.shift@,
            alt: self.alt@,
        }
    }
}

/// A sparse override of a [`KeySymbols`].
#[derive(Clone, Debug, PartialEq, Default)]
pub struct KeySymbolsPatch {
    pub enter: Option<String>,
    pub left: Option<String>,
    pub right: Option<String>,
    pub up: Option<String>,
    pub down: Option<String>,
    pub backspace: Option<String>,
    pub home: Option<String>,
    pub end: Option<String>,
    pub page_up: Option<String>,
    pub page_down: Option<String>,
    pub tab: Option<String>,
    pub back_tab: Option<String>,
    pub delete: Option<String>,
    pub insert: Option<String>,
    pub esc: Option<String>,
    pub control: Option<String>,
    pub shift: Option<String>,
    pub alt: Option<String>,
}

/// The mathematical value of a [`KeySymbolsPatch`].
#[verifier::ext_equal]
pub struct KeySymbolsPatchModel {
    pub enter: Option<Seq<char>>,
    pub left: Option<Seq<char>>,
    pub right: Option<Seq<char>>,
    pub up: Option<Seq<char>>,
    pub down: Option<Seq<char>>,
    pub backspace: Option<Seq<char>>,
    pub home: Option<Seq<char>>,
    pub end: Option<Seq<char>>,
    pub page_up: Option<Seq<char>>,
    pub page_down: Option<Seq<char>>,
    pub tab: Option<Seq<char>>,
    pub back_tab: Option<Seq<char>>,
    pub delete: Option<Seq<char>>,
    pub insert: Option<Seq<char>>,
    pub esc: Option<Seq<char>>,
    pub control: Option<Seq<char>>,
    pub shift: Option<Seq<char>>,
    pub alt: Option<Seq<char>>,
}

impl View for KeySymbolsPatch {
    type V = KeySymbolsPatchModel;

    open spec fn view(&self) -> KeySymbolsPatchModel {
        KeySymbolsPatchModel {
            enter: opt_str_view(self.enter),
            left: opt_str_view(self.left),
            right: opt_str_view(self.right),
            up: opt_str_view(self.up),
            down: opt_str_view(self.down),
            backspace: opt_str_view(self.backspace),
            home: opt_str_view(self.home),
            end: opt_str_view(self.end),
            page_up: opt_str_view(self.page_up),
            page_down: opt_str_view(self.page_down),
            tab: opt_str_view(self.tab),
            back_tab: opt_str_view(self.back_tab),
            delete: opt_str_view(self.delete),
            insert: opt_str_view(self.insert),
            esc: opt_str_view(self.esc),
            control: opt_str_view(self.control),
            shift: opt_str_view(self.shift),
            alt: opt_str_view(self.alt),
        }
    }
}

/// The patch that overrides nothing.
pub open spec fn empty_key_symbols_patch() -> KeySymbolsPatchModel {
    KeySymbolsPatchModel {
        enter: None,
        left: None,
        right: None,
        up: None,
        down: None,
        backspace: None,
        home: None,
        end: None,
        page_up: None,
        page_down: None,
        tab: None,
        back_tab: None,
        delete: None,
        insert: None,
        esc: None,
        control: None,
        shift: None,
        alt: None,
    }
}

/// The compiled-in default symbols: unicode placeholders for the keys, a
/// caret and the conventional glyphs for the modifiers.
pub open spec fn default_key_symbols() -> KeySymbolsModel {
    KeySymbolsModel {
        enter: "\u{23ce}"@,
        left: "\u{2190}"@,
        right: "\u{2192}"@,
        up: "\u{2191}"@,
        down: "\u{2193}"@,
        backspace: "\u{232b}"@,
        home: "\u{21f1}"@,
        end: "\u{21f2}"@,
        page_up: "\u{21de}"@,
        page_down: "\u{21df}"@,
        tab: "\u{21e5}"@,
        back_tab: "\u{21e4}"@,
        delete: "\u{2326}"@,
        insert: "\u{2380}"@,
        esc: "\u{238b}"@,
        control: "^"@,
        shift: "\u{21e7}"@,
        alt: "\u{2325}"@,
    }
}

/// Field-wise difference: a symbol is present in the result iff `v`'s value
/// differs from `base`'s.
pub open spec fn key_symbols_diff(v: KeySymbolsModel, base: KeySymbolsModel) -> KeySymbolsPatchModel {
    KeySymbolsPatchModel {
        enter: opt_diff(v.enter, base.enter),
        left: opt_diff(v.left, base.left),
        right: opt_diff(v.right, base.right),
        up: opt_diff(v.up, base.up),
        down: opt_diff(v.down, base.down),
        backspace: opt_diff(v.backspace, base.backspace),
        home: opt_diff(v.home, base.home),
        end: opt_diff(v.end, base.end),
        page_up: opt_diff(v.page_up, base.page_up),
        page_down: opt_diff(v.page_down, base.page_down),
        tab: opt_diff(v.tab, base.tab),
        back_tab: opt_diff(v.back_tab, base.back_tab),
        delete: opt_diff(v.delete, base.delete),
        insert: opt_diff(v.insert, base.insert),
        esc: opt_diff(v.esc, base.esc),
        control: opt_diff(v.control, base.control),
        shift: opt_diff(v.shift, base.shift),
        alt: opt_diff(v.alt, base.alt),
    }
}

/// Field-wise overwrite: symbols present in `p` replace `base`'s values.
pub open spec fn key_symbols_apply(base: KeySymbolsModel, p: KeySymbolsPatchModel) -> KeySymbolsModel {
    KeySymbolsModel {
        enter: opt_apply(base.enter, p.enter),
        left: opt_apply(base.left, p.left),
        right: opt_apply(base.right, p.right),
        up: opt_apply(base.up, p.up),
        down: opt_apply(base.down, p.down),
        backspace: opt_apply(base.backspace, p.backspace),
        home: opt_apply(base.home, p.home),
        end: opt_apply(base.end, p.end),
        page_up: opt_apply(base.page_up, p.page_up),
        page_down: opt_apply(base.page_down, p.page_down),
        tab: opt_apply(base.tab, p.tab),
        back_tab: opt_apply(base.back_tab, p.back_tab),
        delete: opt_apply(base.delete, p.delete),
        insert: opt_apply(base.insert, p.insert),
        esc: opt_apply(base.esc, p.esc),
        control: opt_apply(base.control, p.control),
        shift: opt_apply(base.shift, p.shift),
        alt: opt_apply(base.alt, p.alt),
    }
}

/// Diffing a symbol set against itself yields the empty patch.
pub proof fn lemma_symbols_diff_self_is_empty(v: KeySymbolsModel)
    ensures
        key_symbols_diff(v, v) == empty_key_symbols_patch(),
{
    assert(key_symbols_diff(v, v) =~= empty_key_symbols_patch());
}

/// Applying the empty patch leaves the symbols unchanged.
pub proof fn lemma_symbols_apply_empty_is_identity(base: KeySymbolsModel)
    ensures
        key_symbols_apply(base, empty_key_symbols_patch()) == base,
{
    assert(key_symbols_apply(base, empty_key_symbols_patch()) =~= base);
}

/// Round trip: applying to `base` the difference of any symbol set against
/// `base` restores the set.
pub proof fn lemma_symbols_diff_apply_roundtrip(v: KeySymbolsModel, base: KeySymbolsModel)
    ensures
        key_symbols_apply(base, key_symbols_diff(v, base)) == v,
{
    assert(key_symbols_apply(base, key_symbols_diff(v, base)) =~= v);
}

/// Applying the same patch twice yields the same symbols as applying it
/// once.
pub proof fn lemma_symbols_apply_idempotent(base: KeySymbolsModel, p: KeySymbolsPatchModel)
    ensures
        key_symbols_apply(key_symbols_apply(base, p), p) == key_symbols_apply(base, p),
{
    assert(key_symbols_apply(key_symbols_apply(base, p), p) =~= key_symbols_apply(base, p));
}

impl KeySymbolsPatch {
    /// The patch that overrides nothing.
    pub fn empty() -> (r: KeySymbolsPatch)
        ensures
            r@ == empty_key_symbols_patch(),
    {
        KeySymbolsPatch {
            enter: None,
            left: None,
            right: None,
            up: None,
            down: None,
            backspace: None,
            home: None,
            end: None,
            page_up: None,
            page_down: None,
            tab: None,
            back_tab: None,
            delete: None,
            insert: None,
            esc: None,
            control: None,
            shift: None,
            alt: None,
        }
    }
}

impl KeySymbols {
    /// The difference of `self` against `base`: exactly the symbols whose
    /// values differ are present in the result.
    pub fn diff(&self, base: &KeySymbols) -> (r: KeySymbolsPatch)
        ensures
            r@ == key_symbols_diff(self@, base@),
    {
        let r = KeySymbolsPatch {
            enter: diff_string(&self.enter, &base.enter),
            left: diff_string(&self.left, &base.left),
            right: diff_string(&self.right, &base.right),
            up: diff_string(&self.up, &base.up),
            down: diff_string(&self.down, &base.down),
            backspace: diff_string(&self.backspace, &base.backspace),
            home: diff_string(&self.home, &base.home),
            end: diff_string(&self.end, &base.end),
            page_up: diff_string(&self.page_up, &base.page_up),
            page_down: diff_string(&self.page_down, &base.page_down),
            tab: diff_string(&self.tab, &base.tab),
            back_tab: diff_string(&self.back_tab, &base.back_tab),
            delete: diff_string(&self.delete, &base.delete),
            insert: diff_string(&self.insert, &base.insert),
            esc: diff_string(&self.esc, &base.esc),
            control: diff_string(&self.control, &base.control),
            shift: diff_string(&self.shift, &base.shift),
            alt: diff_string(&self.alt, &base.alt),
        };
        proof {
            assert(r@ =~= key_symbols_diff(self@, base@));
        }
        r
    }

    /// Overwrites every symbol present in `p`; absent symbols keep their
    /// current value.
    pub fn apply(&mut self, p: KeySymbolsPatch)
        ensures
            final(self)@ == key_symbols_apply(old(self)@, p@),
    {
        let enter = apply_string(&self.enter, p.enter);
        self.enter = enter;
        let left = apply_string(&self.left, p.left);
        self.left = left;
        let right = apply_string(&self.right, p.right);
        self.right = right;
        let up = apply_string(&self.up, p.up);
        self.up = up;
        let down = apply_string(&self.down, p.down);
        self.down = down;
        let backspace = apply_string(&self.backspace, p.backspace);
        self.backspace = backspace;
        let home = apply_string(&self.home, p.home);
        self.home = home;
        let end = apply_string(&self.end, p.end);
        self.end = end;
        let page_up = apply_string(&self.page_up, p.page_up);
        self.page_up = page_up;
        let page_down = apply_string(&self.page_down, p.page_down);
        self.page_down = page_down;
        let tab = apply_string(&self.tab, p.tab);
        self.tab = tab;
        let back_tab = apply_string(&self.back_tab, p.back_tab);
        self.back_tab = back_tab;
        let delete = apply_string(&self.delete, p.delete);
        self.delete = delete;
        let insert = apply_string(&self.insert, p.insert);
        self.insert = insert;
        let esc = apply_string(&self.esc, p.esc);
        self.esc = esc;
        let control = apply_string(&self.control, p.control);
        self.control = control;
        let shift = apply_string(&self.shift, p.shift);
        self.shift = shift;
        let alt = apply_string(&self.alt, p.alt);
        self.alt = alt;
        proof {
            assert(self@ =~= key_symbols_apply(old(self)@, p@));
        }
    }

    /// Resolves what the binary read from the key-symbol file, exactly as
    /// the theme is resolved: a parsed patch is applied to the default, a
    /// legacy full value is adopted and re-encoded for a one-time migration
    /// write, and a missing or unparsable file falls back to the default.
    pub fn init(patch: Option<KeySymbolsPatch>, legacy: Option<KeySymbols>) -> (r: (
        KeySymbols,
        Option<KeySymbolsPatch>,
    ))
        ensures
            patch matches Some(p) ==> r.0@ == key_symbols_apply(default_key_symbols(), p@) && r.1
                is None,
            patch is None ==> (legacy matches Some(t) ==> r.0 == t && (r.1 matches Some(mp) && mp@
                == key_symbols_diff(t@, default_key_symbols()))),
            patch is None && legacy is None ==> r.0@ == default_key_symbols() && r.1 is None,
    {
        match patch {
            Some(p) => {
                let mut symbols = KeySymbols::default();
                symbols.apply(p);
                (symbols, None)
            },
            None => match legacy {
                Some(t) => {
                    let migration = t.diff(&KeySymbols::default());
                    (t, Some(migration))
                },
                None => (KeySymbols::default(), None),
            },
        }
    }
}

impl Default for KeySymbols {
    /// The compiled-in default symbols.
    fn default() -> (r: KeySymbols)
        ensures
            r@ == default_key_symbols(),
    {
        let r = KeySymbols {
            enter: "\u{23ce}".to_owned(),
            left: "\u{2190}".to_owned(),
            right: "\u{2192}".to_owned(),
            up: "\u{2191}".to_owned(),
            down: "\u{2193}".to_owned(),
            backspace: "\u{232b}".to_owned(),
            home: "\u{21f1}".to_owned(),
            end: "\u{21f2}".to_owned(),
            page_up: "\u{21de}".to_owned(),
            page_down: "\u{21df}".to_owned(),
            tab: "\u{21e5}".to_owned(),
            back_tab: "\u{21e4}".to_owned(),
            delete: "\u{2326}".to_owned(),
            insert: "\u{2380}".to_owned(),
            esc: "\u{238b}".to_owned(),
            control: "^".to_owned(),
            shift: "\u{21e7}".to_owned(),
            alt: "\u{2325}".to_owned(),
        };
        proof {
            assert(r@ =~= default_key_symbols());
        }
        r
    }
}

} // verus!
