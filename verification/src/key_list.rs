//! Key events and the key-binding list with its sparse-patch persistence.
//!
//! [`KeyCode`] and [`KeyModifiers`] are the library's own plain models of a
//! captured key event; the binary maps the events of its terminal backend
//! onto them one-for-one.  [`KeysList`] holds the named key-binding slots
//! and is persisted exactly like the theme: as a sparse patch against the
//! compiled-in defaults, with the same legacy-file migration on load.

use vstd::prelude::*;

use crate::patching::{opt_apply, opt_diff};

verus! {

/// A key code, as the hint renderer distinguishes them.  `Other` stands for
/// every key the renderer leaves unmapped (caps lock, media keys, ...).
#[derive(Clone, Copy, Debug, PartialEq, Eq, Structural)]
pub enum KeyCode {
    Enter,
    Left,
    Right,
    Up,
    Down,
    Backspace,
    Home,
    End,
    PageUp,
    PageDown,
    Tab,
    BackTab,
    Delete,
    Insert,
    Esc,
    Char(char),
    F(u8),
    Null,
    Other,
}

/// The modifiers held with a key.  `other` is set when any modifier outside
/// the three recognized ones (a super/hyper/meta key) was held.
#[derive(Clone, Copy, Debug, PartialEq, Eq, Structural)]
pub struct KeyModifiers {
    pub control: bool,
    pub shift: bool,
    pub alt: bool,
    pub other: bool,
}

impl KeyModifiers {
    /// No modifier at all.
    pub fn none() -> (r: KeyModifiers)
        ensures
            r == (KeyModifiers { control: false, shift: false, alt: false, other: false }),
    {
        KeyModifiers { control: false, shift: false, alt: false, other: false }
    }

    /// Exactly the control modifier.
    pub fn control() -> (r: KeyModifiers)
        ensures
            r == (KeyModifiers { control: true, shift: false, alt: false, other: false }),
    {
        KeyModifiers { control: true, shift: false, alt: false, other: false }
    }

    /// Exactly the shift modifier.
    pub fn shift() -> (r: KeyModifiers)
        ensures
            r == (KeyModifiers { control: false, shift: true, alt: false, other: false }),
    {
        KeyModifiers { control: false, shift: true, alt: false, other: false }
    }

    /// Exactly the alt modifier.
    pub fn alt() -> (r: KeyModifiers)
        ensures
            r == (KeyModifiers { control: false, shift: false, alt: true, other: false }),
    {
        KeyModifiers { control: false, shift: false, alt: true, other: false }
    }
}

/// A captured key event: a code and the modifiers held with it.
#[derive(Clone, Copy, Debug, PartialEq, Eq, Structural)]
pub struct GituiKeyEvent {
    pub code: KeyCode,
    pub modifiers: KeyModifiers,
}

impl GituiKeyEvent {
    /// Builds the event from its parts.
    pub fn new(code: KeyCode, modifiers: KeyModifiers) -> (r: Self)
        ensures
            r == (GituiKeyEvent { code, modifiers }),
    {
        Self { code, modifiers }
    }
}

/// The named key-binding slots, fully populated.
#[derive(Clone, Copy, Debug, PartialEq, Eq, Structural)]
pub struct KeysList {
    pub tab_status: GituiKeyEvent,
    pub tab_log: GituiKeyEvent,
    pub tab_files: GituiKeyEvent,
}

/// A sparse override of a [`KeysList`].
#[derive(Clone, Copy, Debug, PartialEq, Eq, Structural)]
pub struct KeysListPatch {
    pub tab_status: Option<GituiKeyEvent>,
    pub tab_log: Option<GituiKeyEvent>,
    pub tab_files: Option<GituiKeyEvent>,
}

/// The compiled-in default key bindings.
pub open spec fn default_keys_list() -> KeysList {
    KeysList {
        tab_status: GituiKeyEvent {
            code: KeyCode::Char('1'),
            modifiers: KeyModifiers { control: false, shift: false, alt: false, other: false },
        },
        tab_log: GituiKeyEvent {
            code: KeyCode::Char('2'),
            modifiers: KeyModifiers { control: false, shift: false, alt: false, other: false },
        },
        tab_files: GituiKeyEvent {
            code: KeyCode::Char('3'),
            modifiers: KeyModifiers { control: false, shift: false, alt: false, other: false },
        },
    }
}

/// The patch that overrides nothing.
pub open spec fn empty_keys_list_patch() -> KeysListPatch {
    KeysListPatch { tab_status: None, tab_log: None, tab_files: None }
}

/// Field-wise difference: a slot is present in the result iff `v`'s binding
/// differs from `base`'s.
pub open spec fn keys_list_diff(v: KeysList, base: KeysList) -> KeysListPatch {
    KeysListPatch {
        tab_status: opt_diff(v.tab_status, base.tab_status),
        tab_log: opt_diff(v.tab_log, base.tab_log),
        tab_files: opt_diff(v.tab_files, base.tab_files),
    }
}

/// Field-wise overwrite: slots present in `p` replace `base`'s bindings.
pub open spec fn keys_list_apply(base: KeysList, p: KeysListPatch) -> KeysList {
    KeysList {
        tab_status: opt_apply(base.tab_status, p.tab_status),
        tab_log: opt_apply(base.tab_log, p.tab_log),
        tab_files: opt_apply(base.tab_files, p.tab_files),
    }
}

/// Diffing a binding list against itself yields the empty patch.
pub proof fn lemma_keys_diff_self_is_empty(v: KeysList)
    ensures
        keys_list_diff(v, v) == empty_keys_list_patch(),
{
}

/// Applying the empty patch leaves the bindings unchanged.
pub proof fn lemma_keys_apply_empty_is_identity(base: KeysList)
    ensures
        keys_list_apply(base, empty_keys_list_patch()) == base,
{
}

/// Round trip: applying to `base` the difference of any binding list
/// against `base` restores the list.
pub proof fn lemma_keys_diff_apply_roundtrip(v: KeysList, base: KeysList)
    ensures
        keys_list_apply(base, keys_list_diff(v, base)) == v,
{
}

/// Applying the same patch twice yields the same bindings as applying it
/// once.
pub proof fn lemma_keys_apply_idempotent(base: KeysList, p: KeysListPatch)
    ensures
        keys_list_apply(keys_list_apply(base, p), p) == keys_list_apply(base, p),
{
}

impl KeysListPatch {
    /// The patch that overrides nothing.
    pub fn empty() -> (r: KeysListPatch)
        ensures
            r == empty_keys_list_patch(),
    {
        KeysListPatch { tab_status: None, tab_log: None, tab_files: None }
    }
}

impl KeysList {
    /// The difference of `self` against `base`.
    pub fn diff(&self, base: &KeysList) -> (r: KeysListPatch)
        ensures
            r == keys_list_diff(*self, *base),
    {
        KeysListPatch {
            tab_status: if self.tab_status == base.tab_status {
                None
            } else {
                Some(self.tab_status)
            },
            tab_log: if self.tab_log == base.tab_log {
                None
            } else {
                Some(self.tab_log)
            },
            tab_files: if self.tab_files == base.tab_files {
                None
            } else {
                Some(self.tab_files)
            },
        }
    }

    /// Overwrites every slot present in `p`.
    pub fn apply(&mut self, p: KeysListPatch)
        ensures
            *final(self) == keys_list_apply(*old(self), p),
    {
        if let Some(v) = p.tab_status {
            self.tab_status = v;
        }
        if let Some(v) = p.tab_log {
            self.tab_log = v;
        }
        if let Some(v) = p.tab_files {
            self.tab_files = v;
        }
    }

    /// Resolves what the binary read from the key-binding file, exactly as
    /// the theme is resolved: a parsed patch is applied to the default, a
    /// legacy full value is adopted and re-encoded for a one-time migration
    /// write, and a missing or unparsable file falls back to the default.
    pub fn init(patch: Option<KeysListPatch>, legacy: Option<KeysList>) -> (r: (
        KeysList,
        Option<KeysListPatch>,
    ))
        ensures
            patch matches Some(p) ==> r.0 == keys_list_apply(default_keys_list(), p) && r.1
                is None,
            patch is None ==> (legacy matches Some(t) ==> r.0 == t && r.1 == Some(
                keys_list_diff(t, default_keys_list()),
            )),
            patch is None && legacy is None ==> r.0 == default_keys_list() && r.1 is None,
    {
        match patch {
            Some(p) => {
                let mut keys = KeysList::default();
                keys.apply(p);
                (keys, None)
            },
            None => match legacy {
                Some(t) => {
                    let migration = t.diff(&KeysList::default());
                    (t, Some(migration))
                },
                None => (KeysList::default(), None),
            },
        }
    }
}

impl Default for KeysList {
    /// The compiled-in default key bindings.
    fn default() -> (r: KeysList)
        ensures
            r == default_keys_list(),
    {
        KeysList {
            tab_status: GituiKeyEvent::new(KeyCode::Char('1'), KeyModifiers::none()),
            tab_log: GituiKeyEvent::new(KeyCode::Char('2'), KeyModifiers::none()),
            tab_files: GituiKeyEvent::new(KeyCode::Char('3'), KeyModifiers::none()),
        }
    }
}

} // verus!
