//! The visual theme and its sparse-patch persistence.
//!
//! A [`Theme`] is a fully-populated set of colors, flags and glyphs.  On disk
//! only the *difference* against the compiled-in default is stored, as a
//! [`ThemePatch`]; [`Theme::diff`] produces that difference and
//! [`Theme::apply`] replays it over a base value.  [`Theme::init`] resolves
//! the values the binary parsed from the theme file (a patch, or a legacy
//! full value) into the theme to use, and says which migration write, if any,
//! should be attempted.

use vstd::prelude::*;

use crate::color::{apply_color, diff_color, Color};
use crate::patching::{apply_bool, apply_string, diff_bool, diff_string, opt_apply, opt_diff, opt_str_view};
use crate::style::{empty_style, Modifier, Style};

verus! {

/// A fully-populated visual theme.  Every field has a compiled-in default; a
/// resolved theme never has missing fields.
#[derive(Clone, Debug, PartialEq)]
pub struct Theme {
    selected_tab: Color,
    command_fg: Color,
    selection_bg: Color,
    selection_fg: Color,
    use_selection_fg: bool,
    cmdbar_bg: Color,
    cmdbar_extra_lines_bg: Color,
    disabled_fg: Color,
    diff_line_add: Color,
    diff_line_delete: Color,
    diff_file_added: Color,
    diff_file_removed: Color,
    diff_file_moved: Color,
    diff_file_modified: Color,
    commit_hash: Color,
    commit_time: Color,
    commit_author: Color,
    danger_fg: Color,
    push_gauge_bg: Color,
    push_gauge_fg: Color,
    tag_fg: Color,
    branch_fg: Color,
    line_break: String,
    block_title_focused: Color,
    syntax: String,
}

/// The mathematical value of a [`Theme`]: the same fields with strings read
/// as character sequences.
#[verifier::ext_equal]
pub struct ThemeModel {
    pub selected_tab: Color,
    pub command_fg: Color,
    pub selection_bg: Color,
    pub selection_fg: Color,
    pub use_selection_fg: bool,
    pub cmdbar_bg: Color,
    pub cmdbar_extra_lines_bg: Color,
    pub disabled_fg: Color,
    pub diff_line_add: Color,
    pub diff_line_delete: Color,
    pub diff_file_added: Color,
    pub diff_file_removed: Color,
    pub diff_file_moved: Color,
    pub diff_file_modified: Color,
    pub commit_hash: Color,
    pub commit_time: Color,
    pub commit_author: Color,
    pub danger_fg: Color,
    pub push_gauge_bg: Color,
    pub push_gauge_fg: Color,
    pub tag_fg: Color,
    pub branch_fg: Color,
    pub line_break: Seq<char>,
    pub block_title_focused: Color,
    pub syntax: Seq<char>,
}

impl View for Theme {
    type V = ThemeModel;

    closed spec fn view(&self) -> ThemeModel {
        ThemeModel {
            selected_tab: self.selected_tab,
            command_fg: self.command_fg,
            selection_bg: self.selection_bg,
            selection_fg: self.selection_fg,
            use_selection_fg: self.use_selection_fg,
            cmdbar_bg: self.cmdbar_bg,
            cmdbar_extra_lines_bg: self.cmdbar_extra_lines_bg,
            disabled_fg: self.disabled_fg,
            diff_line_add: self.diff_line_add,
            diff_line_delete: self.diff_line_delete,
            diff_file_added: self.diff_file_added,
            diff_file_removed: self.diff_file_removed,
            diff_file_moved: self.diff_file_moved,
            diff_file_modified: self.diff_file_modified,
            commit_hash: self.commit_hash,
            commit_time: self.commit_time,
            commit_author: self.commit_author,
            danger_fg: self.danger_fg,
            push_gauge_bg: self.push_gauge_bg,
            push_gauge_fg: self.push_gauge_fg,
            tag_fg: self.tag_fg,
            branch_fg: self.branch_fg,
            line_break: self.line_break@,
            block_title_focused: self.block_title_focused,
            syntax: self.syntax@,
        }
    }
}

/// A sparse override of a [`Theme`]: only the fields that differ from the
/// reference default are present.
#[derive(Clone, Debug, PartialEq, Default)]
pub struct ThemePatch {
    pub selected_tab: Option<Color>,
    pub command_fg: Option<Color>,
    pub selection_bg: Option<Color>,
    pub selection_fg: Option<Color>,
    pub use_selection_fg: Option<bool>,
    pub cmdbar_bg: Option<Color>,
    pub cmdbar_extra_lines_bg: Option<Color>,
    pub disabled_fg: Option<Color>,
    pub diff_line_add: Option<Color>,
    pub diff_line_delete: Option<Color>,
    pub diff_file_added: Option<Color>,
    pub diff_file_removed: Option<Color>,
    pub diff_file_moved: Option<Color>,
    pub diff_file_modified: Option<Color>,
    pub commit_hash: Option<Color>,
    pub commit_time: Option<Color>,
    pub commit_author: Option<Color>,
    pub danger_fg: Option<Color>,
    pub push_gauge_bg: Option<Color>,
    pub push_gauge_fg: Option<Color>,
    pub tag_fg: Option<Color>,
    pub branch_fg: Option<Color>,
    pub line_break: Option<String>,
    pub block_title_focused: Option<Color>,
    pub syntax: Option<String>,
}

/// The mathematical value of a [`ThemePatch`].
#[verifier::ext_equal]
pub struct ThemePatchModel {
    pub selected_tab: Option<Color>,
    pub command_fg: Option<Color>,
    pub selection_bg: Option<Color>,
    pub selection_fg: Option<Color>,
    pub use_selection_fg: Option<bool>,
    pub cmdbar_bg: Option<Color>,
    pub cmdbar_extra_lines_bg: Option<Color>,
    pub disabled_fg: Option<Color>,
    pub diff_line_add: Option<Color>,
    pub diff_line_delete: Option<Color>,
    pub diff_file_added: Option<Color>,
    pub diff_file_removed: Option<Color>,
    pub diff_file_moved: Option<Color>,
    pub diff_file_modified: Option<Color>,
    pub commit_hash: Option<Color>,
    pub commit_time: Option<Color>,
    pub commit_author: Option<Color>,
    pub danger_fg: Option<Color>,
    pub push_gauge_bg: Option<Color>,
    pub push_gauge_fg: Option<Color>,
    pub tag_fg: Option<Color>,
    pub branch_fg: Option<Color>,
    pub line_break: Option<Seq<char>>,
    pub block_title_focused: Option<Color>,
    pub syntax: Option<Seq<char>>,
}

impl View for ThemePatch {
    type V = ThemePatchModel;

    open spec fn view(&self) -> ThemePatchModel {
        ThemePatchModel {
            selected_tab: self.selected_tab,
            command_fg: self.command_fg,
            selection_bg: self.selection_bg,
            selection_fg: self.selection_fg,
            use_selection_fg: self.use_selection_fg,
            cmdbar_bg: self.cmdbar_bg,
            cmdbar_extra_lines_bg: self.cmdbar_extra_lines_bg,
            disabled_fg: self.disabled_fg,
            diff_line_add: self.diff_line_add,
            diff_line_delete: self.diff_line_delete,
            diff_file_added: self.diff_file_added,
            diff_file_removed: self.diff_file_removed,
            diff_file_moved: self.diff_file_moved,
            diff_file_modified: self.diff_file_modified,
            commit_hash: self.commit_hash,
            commit_time: self.commit_time,
            commit_author: self.commit_author,
            danger_fg: self.danger_fg,
            push_gauge_bg: self.push_gauge_bg,
            push_gauge_fg: self.push_gauge_fg,
            tag_fg: self.tag_fg,
            branch_fg: self.branch_fg,
            line_break: opt_str_view(self.line_break),
            block_title_focused: self.block_title_focused,
            syntax: opt_str_view(self.syntax),
        }
    }
}

/// The patch that overrides nothing.
pub open spec fn empty_theme_patch() -> ThemePatchModel {
    ThemePatchModel {
        selected_tab: None,
        command_fg: None,
        selection_bg: None,
        selection_fg: None,
        use_selection_fg: None,
        cmdbar_bg: None,
        cmdbar_extra_lines_bg: None,
        disabled_fg: None,
        diff_line_add: None,
        diff_line_delete: None,
        diff_file_added: None,
        diff_file_removed: None,
        diff_file_moved: None,
        diff_file_modified: None,
        commit_hash: None,
        commit_time: None,
        commit_author: None,
        danger_fg: None,
        push_gauge_bg: None,
        push_gauge_fg: None,
        tag_fg: None,
        branch_fg: None,
        line_break: None,
        block_title_focused: None,
        syntax: None,
    }
}

/// The compiled-in default theme.
pub open spec fn default_theme() -> ThemeModel {
    ThemeModel {
        selected_tab: Color::Reset,
        command_fg: Color::White,
        selection_bg: Color::Blue,
        selection_fg: Color::White,
        use_selection_fg: true,
        cmdbar_bg: Color::Blue,
        cmdbar_extra_lines_bg: Color::Blue,
        disabled_fg: Color::DarkGray,
        diff_line_add: Color::Green,
        diff_line_delete: Color::Red,
        diff_file_added: Color::LightGreen,
        diff_file_removed: Color::LightRed,
        diff_file_moved: Color::LightMagenta,
        diff_file_modified: Color::Yellow,
        commit_hash: Color::Magenta,
        commit_time: Color::LightCyan,
        commit_author: Color::Green,
        danger_fg: Color::Red,
        push_gauge_bg: Color::Blue,
        push_gauge_fg: Color::Reset,
        tag_fg: Color::LightMagenta,
        branch_fg: Color::LightYellow,
        line_break: "\u{00b6}"@,
        block_title_focused: Color::Reset,
        syntax: "base16-eighties.dark"@,
    }
}

/// Field-wise difference: a field is present in the result iff `v`'s value
/// differs from `base`'s.
pub open spec fn theme_diff(v: ThemeModel, base: ThemeModel) -> ThemePatchModel {
    ThemePatchModel {
        selected_tab: opt_diff(v.selected_tab, base.selected_tab),
        command_fg: opt_diff(v.command_fg, base.command_fg),
        selection_bg: opt_diff(v.selection_bg, base.selection_bg),
        selection_fg: opt_diff(v.selection_fg, base.selection_fg),
        use_selection_fg: opt_diff(v.use_selection_fg, base.use_selection_fg),
        cmdbar_bg: opt_diff(v.cmdbar_bg, base.cmdbar_bg),
        cmdbar_extra_lines_bg: opt_diff(v.cmdbar_extra_lines_bg, base.cmdbar_extra_lines_bg),
        disabled_fg: opt_diff(v.disabled_fg, base.disabled_fg),
        diff_line_add: opt_diff(v.diff_line_add, base.diff_line_add),
        diff_line_delete: opt_diff(v.diff_line_delete, base.diff_line_delete),
        diff_file_added: opt_diff(v.diff_file_added, base.diff_file_added),
        diff_file_removed: opt_diff(v.diff_file_removed, base.diff_file_removed),
        diff_file_moved: opt_diff(v.diff_file_moved, base.diff_file_moved),
        diff_file_modified: opt_diff(v.diff_file_modified, base.diff_file_modified),
        commit_hash: opt_diff(v.commit_hash, base.commit_hash),
        commit_time: opt_diff(v.commit_time, base.commit_time),
        commit_author: opt_diff(v.commit_author, base.commit_author),
        danger_fg: opt_diff(v.danger_fg, base.danger_fg),
        push_gauge_bg: opt_diff(v.push_gauge_bg, base.push_gauge_bg),
        push_gauge_fg: opt_diff(v.push_gauge_fg, base.push_gauge_fg),
        tag_fg: opt_diff(v.tag_fg, base.tag_fg),
        branch_fg: opt_diff(v.branch_fg, base.branch_fg),
        line_break: opt_diff(v.line_break, base.line_break),
        block_title_focused: opt_diff(v.block_title_focused, base.block_title_focused),
        syntax: opt_diff(v.syntax, base.syntax),
    }
}

/// Field-wise overwrite: fields present in `p` replace `base`'s values,
/// absent fields keep them.
pub open spec fn theme_apply(base: ThemeModel, p: ThemePatchModel) -> ThemeModel {
    ThemeModel {
        selected_tab: opt_apply(base.selected_tab, p.selected_tab),
        command_fg: opt_apply(base.command_fg, p.command_fg),
        selection_bg: opt_apply(base.selection_bg, p.selection_bg),
        selection_fg: opt_apply(base.selection_fg, p.selection_fg),
        use_selection_fg: opt_apply(base.use_selection_fg, p.use_selection_fg),
        cmdbar_bg: opt_apply(base.cmdbar_bg, p.cmdbar_bg),
        cmdbar_extra_lines_bg: opt_apply(base.cmdbar_extra_lines_bg, p.cmdbar_extra_lines_bg),
        disabled_fg: opt_apply(base.disabled_fg, p.disabled_fg),
        diff_line_add: opt_apply(base.diff_line_add, p.diff_line_add),
        diff_line_delete: opt_apply(base.diff_line_delete, p.diff_line_delete),
        diff_file_added: opt_apply(base.diff_file_added, p.diff_file_added),
        diff_file_removed: opt_apply(base.diff_file_removed, p.diff_file_removed),
        diff_file_moved: opt_apply(base.diff_file_moved, p.diff_file_moved),
        diff_file_modified: opt_apply(base.diff_file_modified, p.diff_file_modified),
        commit_hash: opt_apply(base.commit_hash, p.commit_hash),
        commit_time: opt_apply(base.commit_time, p.commit_time),
        commit_author: opt_apply(base.commit_author, p.commit_author),
        danger_fg: opt_apply(base.danger_fg, p.danger_fg),
        push_gauge_bg: opt_apply(base.push_gauge_bg, p.push_gauge_bg),
        push_gauge_fg: opt_apply(base.push_gauge_fg, p.push_gauge_fg),
        tag_fg: opt_apply(base.tag_fg, p.tag_fg),
        branch_fg: opt_apply(base.branch_fg, p.branch_fg),
        line_break: opt_apply(base.line_break, p.line_break),
        block_title_focused: opt_apply(base.block_title_focused, p.block_title_focused),
        syntax: opt_apply(base.syntax, p.syntax),
    }
}

/// Diffing a value against itself yields the empty patch.
pub proof fn lemma_diff_self_is_empty(v: ThemeModel)
    ensures
        theme_diff(v, v) == empty_theme_patch(),
{
    assert(theme_diff(v, v) =~= empty_theme_patch());
}

/// Applying the empty patch leaves the base unchanged.
pub proof fn lemma_apply_empty_is_identity(base: ThemeModel)
    ensures
        theme_apply(base, empty_theme_patch()) == base,
{
    assert(theme_apply(base, empty_theme_patch()) =~= base);
}

/// Round trip: applying to the default the difference of any value against
/// that default restores the value.
pub proof fn lemma_diff_apply_roundtrip(v: ThemeModel, base: ThemeModel)
    ensures
        theme_apply(base, theme_diff(v, base)) == v,
{
    assert(theme_apply(base, theme_diff(v, base)) =~= v);
}

/// Applying the same patch twice yields the same result as applying it once.
pub proof fn lemma_apply_idempotent(base: ThemeModel, p: ThemePatchModel)
    ensures
        theme_apply(theme_apply(base, p), p) == theme_apply(base, p),
{
    assert(theme_apply(theme_apply(base, p), p) =~= theme_apply(base, p));
}

impl ThemePatch {
    /// The patch that overrides nothing.
    pub fn empty() -> (r: ThemePatch)
        ensures
            r@ == empty_theme_patch(),
    {
        ThemePatch {
            selected_tab: None,
            command_fg: None,
            selection_bg: None,
            selection_fg: None,
            use_selection_fg: None,
            cmdbar_bg: None,
            cmdbar_extra_lines_bg: None,
            disabled_fg: None,
            diff_line_add: None,
            diff_line_delete: None,
            diff_file_added: None,
            diff_file_removed: None,
            diff_file_moved: None,
            diff_file_modified: None,
            commit_hash: None,
            commit_time: None,
            commit_author: None,
            danger_fg: None,
            push_gauge_bg: None,
            push_gauge_fg: None,
            tag_fg: None,
            branch_fg: None,
            line_break: None,
            block_title_focused: None,
            syntax: None,
        }
    }
}

impl Theme {
    /// The difference of `self` against `base`: exactly the fields whose
    /// values differ are present in the result.
    pub fn diff(&self, base: &Theme) -> (r: ThemePatch)
        ensures
            r@ == theme_diff(self@, base@),
    {
        let r = ThemePatch {
            selected_tab: diff_color(self.selected_tab, base.selected_tab),
            command_fg: diff_color(self.command_fg, base.command_fg),
            selection_bg: diff_color(self.selection_bg, base.selection_bg),
            selection_fg: diff_color(self.selection_fg, base.selection_fg),
            use_selection_fg: diff_bool(self.use_selection_fg, base.use_selection_fg),
            cmdbar_bg: diff_color(self.cmdbar_bg, base.cmdbar_bg),
            cmdbar_extra_lines_bg: diff_color(self.cmdbar_extra_lines_bg, base.cmdbar_extra_lines_bg),
            disabled_fg: diff_color(self.disabled_fg, base.disabled_fg),
            diff_line_add: diff_color(self.diff_line_add, base.diff_line_add),
            diff_line_delete: diff_color(self.diff_line_delete, base.diff_line_delete),
            diff_file_added: diff_color(self.diff_file_added, base.diff_file_added),
            diff_file_removed: diff_color(self.diff_file_removed, base.diff_file_removed),
            diff_file_moved: diff_color(self.diff_file_moved, base.diff_file_moved),
            diff_file_modified: diff_color(self.diff_file_modified, base.diff_file_modified),
            commit_hash: diff_color(self.commit_hash, base.commit_hash),
            commit_time: diff_color(self.commit_time, base.commit_time),
            commit_author: diff_color(self.commit_author, base.commit_author),
            danger_fg: diff_color(self.danger_fg, base.danger_fg),
            push_gauge_bg: diff_color(self.push_gauge_bg, base.push_gauge_bg),
            push_gauge_fg: diff_color(self.push_gauge_fg, base.push_gauge_fg),
            tag_fg: diff_color(self.tag_fg, base.tag_fg),
            branch_fg: diff_color(self.branch_fg, base.branch_fg),
            line_break: diff_string(&self.line_break, &base.line_break),
            block_title_focused: diff_color(self.block_title_focused, base.block_title_focused),
            syntax: diff_string(&self.syntax, &base.syntax),
        };
        proof {
            assert(r@ =~= theme_diff(self@, base@));
        }
        r
    }

    /// Overwrites every field present in `p`; absent fields keep their
    /// current value.
    pub fn apply(&mut self, p: ThemePatch)
        ensures
            final(self)@ == theme_apply(old(self)@, p@),
    {
        self.selected_tab = apply_color(self.selected_tab, p.selected_tab);
        self.command_fg = apply_color(self.command_fg, p.command_fg);
        self.selection_bg = apply_color(self.selection_bg, p.selection_bg);
        self.selection_fg = apply_color(self.selection_fg, p.selection_fg);
        self.use_selection_fg = apply_bool(self.use_selection_fg, p.use_selection_fg);
        self.cmdbar_bg = apply_color(self.cmdbar_bg, p.cmdbar_bg);
        self.cmdbar_extra_lines_bg = apply_color(self.cmdbar_extra_lines_bg, p.cmdbar_extra_lines_bg);
        self.disabled_fg = apply_color(self.disabled_fg, p.disabled_fg);
        self.diff_line_add = apply_color(self.diff_line_add, p.diff_line_add);
        self.diff_line_delete = apply_color(self.diff_line_delete, p.diff_line_delete);
        self.diff_file_added = apply_color(self.diff_file_added, p.diff_file_added);
        self.diff_file_removed = apply_color(self.diff_file_removed, p.diff_file_removed);
        self.diff_file_moved = apply_color(self.diff_file_moved, p.diff_file_moved);
        self.diff_file_modified = apply_color(self.diff_file_modified, p.diff_file_modified);
        self.commit_hash = apply_color(self.commit_hash, p.commit_hash);
        self.commit_time = apply_color(self.commit_time, p.commit_time);
        self.commit_author = apply_color(self.commit_author, p.commit_author);
        self.danger_fg = apply_color(self.danger_fg, p.danger_fg);
        self.push_gauge_bg = apply_color(self.push_gauge_bg, p.push_gauge_bg);
        self.push_gauge_fg = apply_color(self.push_gauge_fg, p.push_gauge_fg);
        self.tag_fg = apply_color(self.tag_fg, p.tag_fg);
        self.branch_fg = apply_color(self.branch_fg, p.branch_fg);
        let line_break = apply_string(&self.line_break, p.line_break);
        self.line_break = line_break;
        self.block_title_focused = apply_color(self.block_title_focused, p.block_title_focused);
        let syntax = apply_string(&self.syntax, p.syntax);
        self.syntax = syntax;
        proof {
            assert(self@ =~= theme_apply(old(self)@, p@));
        }
    }

    /// Resolves what the binary read from the theme file.  `patch` is the
    /// file parsed as a sparse patch, `legacy` the same file parsed as a
    /// full value (tried only when the patch parse failed); `None` stands
    /// for a missing or unparsable file.  Returns the resolved theme and,
    /// exactly when a legacy value was adopted, the re-encoded patch that
    /// should be written back once for migration.
    pub fn init(patch: Option<ThemePatch>, legacy: Option<Theme>) -> (r: (Theme, Option<ThemePatch>))
        ensures
            patch matches Some(p) ==> r.0@ == theme_apply(default_theme(), p@) && r.1 is None,
            patch is None ==> (legacy matches Some(t) ==> r.0 == t && (r.1 matches Some(mp) && mp@
                == theme_diff(t@, default_theme()))),
            patch is None && legacy is None ==> r.0@ == default_theme() && r.1 is None,
    {
        match patch {
            Some(p) => {
                let mut theme = Theme::default();
                theme.apply(p);
                (theme, None)
            },
            None => match legacy {
                Some(t) => {
                    let migration = t.diff(&Theme::default());
                    (t, Some(migration))
                },
                None => (Theme::default(), None),
            },
        }
    }
}

/// How a selected state recolors a base style: the selection background is
/// applied, and the selection foreground too iff the theme asks for it.
pub open spec fn apply_select_spec(t: ThemeModel, style: Style, selected: bool) -> Style {
    if selected {
        if t.use_selection_fg {
            Style { bg: Some(t.selection_bg), fg: Some(t.selection_fg), ..style }
        } else {
            Style { bg: Some(t.selection_bg), ..style }
        }
    } else {
        style
    }
}

/// Selection composition: with `use_selection_fg` set, selecting overrides
/// both the background and the foreground; without it, only the background
/// changes and the base foreground is preserved.  An unselected style is
/// untouched.
pub proof fn lemma_apply_select(t: ThemeModel, style: Style)
    ensures
        t.use_selection_fg ==> apply_select_spec(t, style, true) == (Style {
            bg: Some(t.selection_bg),
            fg: Some(t.selection_fg),
            ..style
        }),
        !t.use_selection_fg ==> apply_select_spec(t, style, true) == (Style {
            bg: Some(t.selection_bg),
            ..style
        }),
        apply_select_spec(t, style, false) == style,
{
}

/// What [`Theme::text`] returns.
pub open spec fn text_style(t: ThemeModel, enabled: bool, selected: bool) -> Style {
    if !enabled && !selected {
        Style { fg: Some(t.disabled_fg), ..empty_style() }
    } else if !enabled && selected {
        Style { bg: Some(t.selection_bg), ..empty_style() }
    } else if enabled && !selected {
        empty_style()
    } else {
        Style { fg: Some(t.command_fg), bg: Some(t.selection_bg), ..empty_style() }
    }
}

/// What [`Theme::branch`] returns.
pub open spec fn branch_style(t: ThemeModel, selected: bool, head: bool) -> Style {
    apply_select_spec(
        t,
        Style { fg: Some(t.branch_fg), bg: None, bold: head, underlined: false },
        selected,
    )
}

/// What [`Theme::tab`] returns.
pub open spec fn tab_style(t: ThemeModel, selected: bool) -> Style {
    if selected {
        Style { fg: Some(t.selected_tab), underlined: true, ..text_style(t, true, false) }
    } else {
        text_style(t, false, false)
    }
}

/// What [`Theme::tags`] returns.
pub open spec fn tags_style(t: ThemeModel, selected: bool) -> Style {
    Style {
        fg: Some(t.tag_fg),
        bg: Some(if selected { t.selection_bg } else { Color::Reset }),
        bold: true,
        underlined: false,
    }
}

/// What [`Theme::commandbar`] returns.
pub open spec fn commandbar_style(t: ThemeModel, enabled: bool, line: usize) -> Style {
    Style {
        fg: Some(if enabled { t.command_fg } else { t.disabled_fg }),
        bg: Some(if line == 0 { t.cmdbar_bg } else { t.cmdbar_extra_lines_bg }),
        bold: false,
        underlined: false,
    }
}

impl Theme {
    /// Style of the scroll-bar position marker.
    pub fn scroll_bar_pos(&self) -> (r: Style)
        ensures
            r == (Style { fg: Some(self@.selection_bg), ..empty_style() }),
    {
        Style::default().fg(self.selection_bg)
    }

    /// Style of a block border: plain when focused, grayed out otherwise.
    pub fn block(&self, focus: bool) -> (r: Style)
        ensures
            focus ==> r == empty_style(),
            !focus ==> r == (Style { fg: Some(self@.disabled_fg), ..empty_style() }),
    {
        if focus {
            Style::default()
        } else {
            Style::default().fg(self.disabled_fg)
        }
    }

    /// Style of a block title: highlighted and bold when focused, grayed out
    /// otherwise.
    pub fn title(&self, focused: bool) -> (r: Style)
        ensures
            focused ==> r == (Style {
                fg: Some(self@.block_title_focused),
                bg: None,
                bold: true,
                underlined: false,
            }),
            !focused ==> r == (Style { fg: Some(self@.disabled_fg), ..empty_style() }),
    {
        if focused {
            Style::default().fg(self.block_title_focused).add_modifier(Modifier::Bold)
        } else {
            Style::default().fg(self.disabled_fg)
        }
    }

    /// Style of a branch label; the checked-out head is bold, selection
    /// recolors as [`apply_select_spec`] says.
    pub fn branch(&self, selected: bool, head: bool) -> (r: Style)
        ensures
            r == branch_style(self@, selected, head),
    {
        let base = if head {
            Style::default().add_modifier(Modifier::Bold)
        } else {
            Style::default()
        }.fg(self.branch_fg);
        self.apply_select(base, selected)
    }

    /// Style of a tab title.
    pub fn tab(&self, selected: bool) -> (r: Style)
        ensures
            r == tab_style(self@, selected),
    {
        if selected {
            self.text(true, false).fg(self.selected_tab).add_modifier(Modifier::Underlined)
        } else {
            self.text(false, false)
        }
    }

    /// Style of a tag label.
    pub fn tags(&self, selected: bool) -> (r: Style)
        ensures
            r == tags_style(self@, selected),
    {
        Style::default().fg(self.tag_fg).add_modifier(Modifier::Bold).bg(
            if selected {
                self.selection_bg
            } else {
                Color::Reset
            },
        )
    }

    /// Style of generic text for each enabled/selected combination.
    pub fn text(&self, enabled: bool, selected: bool) -> (r: Style)
        ensures
            r == text_style(self@, enabled, selected),
    {
        match (enabled, selected) {
            (false, false) => Style::default().fg(self.disabled_fg),
            (false, true) => Style::default().bg(self.selection_bg),
            (true, false) => Style::default(),
            (true, true) => Style::default().fg(self.command_fg).bg(self.selection_bg),
        }
    }

    /// Style of a file-tree entry: folders plain, files in the modified-file
    /// color; selection recolors as [`apply_select_spec`] says.
    pub fn file_tree_item(&self, is_folder: bool, selected: bool) -> (r: Style)
        ensures
            is_folder ==> r == apply_select_spec(self@, empty_style(), selected),
            !is_folder ==> r == apply_select_spec(
                self@,
                Style { fg: Some(self@.diff_file_modified), ..empty_style() },
                selected,
            ),
    {
        let style = if is_folder {
            Style::default()
        } else {
            Style::default().fg(self.diff_file_modified)
        };
        self.apply_select(style, selected)
    }

    fn apply_select(&self, style: Style, selected: bool) -> (r: Style)
        ensures
            r == apply_select_spec(self@, style, selected),
    {
        if selected {
            if self.use_selection_fg {
                style.bg(self.selection_bg).fg(self.selection_fg)
            } else {
                style.bg(self.selection_bg)
            }
        } else {
            style
        }
    }

    /// Style of a toggleable option: the add color when on, the delete color
    /// when off.
    pub fn option(&self, on: bool) -> (r: Style)
        ensures
            on ==> r == (Style { fg: Some(self@.diff_line_add), ..empty_style() }),
            !on ==> r == (Style { fg: Some(self@.diff_line_delete), ..empty_style() }),
    {
        if on {
            Style::default().fg(self.diff_line_add)
        } else {
            Style::default().fg(self.diff_line_delete)
        }
    }

    /// Style of a diff hunk marker.
    pub fn diff_hunk_marker(&self, selected: bool) -> (r: Style)
        ensures
            selected ==> r == (Style { bg: Some(self@.selection_bg), ..empty_style() }),
            !selected ==> r == (Style { fg: Some(self@.disabled_fg), ..empty_style() }),
    {
        if selected {
            Style::default().bg(self.selection_bg)
        } else {
            Style::default().fg(self.disabled_fg)
        }
    }

    /// Style of dangerous text.
    pub fn text_danger(&self) -> (r: Style)
        ensures
            r == (Style { fg: Some(self@.danger_fg), ..empty_style() }),
    {
        Style::default().fg(self.danger_fg)
    }

    /// The configured line-break glyph.
    pub fn line_break(&self) -> (r: String)
        ensures
            r@ == self@.line_break,
    {
        self.line_break.clone()
    }

    /// Style of the command bar: the first line on the command-bar
    /// background, further lines on the extra-lines background.
    pub fn commandbar(&self, enabled: bool, line: usize) -> (r: Style)
        ensures
            r == commandbar_style(self@, enabled, line),
    {
        if enabled {
            Style::default().fg(self.command_fg)
        } else {
            Style::default().fg(self.disabled_fg)
        }.bg(
            if line == 0 {
                self.cmdbar_bg
            } else {
                self.cmdbar_extra_lines_bg
            },
        )
    }

    /// Style of a commit hash; selection recolors as [`apply_select_spec`]
    /// says.
    pub fn commit_hash(&self, selected: bool) -> (r: Style)
        ensures
            r == apply_select_spec(
                self@,
                Style { fg: Some(self@.commit_hash), ..empty_style() },
                selected,
            ),
    {
        self.apply_select(Style::default().fg(self.commit_hash), selected)
    }

    /// Style of an unhighlighted commit line.
    pub fn commit_unhighlighted(&self) -> (r: Style)
        ensures
            r == (Style { fg: Some(self@.disabled_fg), ..empty_style() }),
    {
        Style::default().fg(self.disabled_fg)
    }

    /// Style of a log marker; selection recolors as [`apply_select_spec`]
    /// says.
    pub fn log_marker(&self, selected: bool) -> (r: Style)
        ensures
            r == apply_select_spec(
                self@,
                Style { fg: Some(self@.commit_author), bg: None, bold: true, underlined: false },
                selected,
            ),
    {
        let style = Style::default().fg(self.commit_author).add_modifier(Modifier::Bold);
        self.apply_select(style, selected)
    }

    /// Style of a commit time; selection recolors as [`apply_select_spec`]
    /// says.
    pub fn commit_time(&self, selected: bool) -> (r: Style)
        ensures
            r == apply_select_spec(
                self@,
                Style { fg: Some(self@.commit_time), ..empty_style() },
                selected,
            ),
    {
        self.apply_select(Style::default().fg(self.commit_time), selected)
    }

    /// Style of a commit author; selection recolors as [`apply_select_spec`]
    /// says.
    pub fn commit_author(&self, selected: bool) -> (r: Style)
        ensures
            r == apply_select_spec(
                self@,
                Style { fg: Some(self@.commit_author), ..empty_style() },
                selected,
            ),
    {
        self.apply_select(Style::default().fg(self.commit_author), selected)
    }

    /// Style of a commit hash in the blame view: bold for the blamed commit.
    pub fn commit_hash_in_blame(&self, is_blamed_commit: bool) -> (r: Style)
        ensures
            is_blamed_commit ==> r == (Style {
                fg: Some(self@.commit_hash),
                bg: None,
                bold: true,
                underlined: false,
            }),
            !is_blamed_commit ==> r == (Style { fg: Some(self@.commit_hash), ..empty_style() }),
    {
        if is_blamed_commit {
            Style::default().fg(self.commit_hash).add_modifier(Modifier::Bold)
        } else {
            Style::default().fg(self.commit_hash)
        }
    }

    /// Style of the push progress gauge.
    pub fn push_gauge(&self) -> (r: Style)
        ensures
            r == (Style {
                fg: Some(self@.push_gauge_fg),
                bg: Some(self@.push_gauge_bg),
                bold: false,
                underlined: false,
            }),
    {
        Style::default().fg(self.push_gauge_fg).bg(self.push_gauge_bg)
    }

    /// Style of an attention block: always yellow, independent of the theme.
    pub fn attention_block() -> (r: Style)
        ensures
            r == (Style { fg: Some(Color::Yellow), ..empty_style() }),
    {
        Style::default().fg(Color::Yellow)
    }

    /// The configured syntax-highlighting theme name.
    pub fn get_syntax(&self) -> (r: String)
        ensures
            r@ == self@.syntax,
    {
        self.syntax.clone()
    }
}

impl Default for Theme {
    /// The compiled-in default theme.
    fn default() -> (r: Theme)
        ensures
            r@ == default_theme(),
    {
        let r = Theme {
            selected_tab: Color::Reset,
            command_fg: Color::White,
            selection_bg: Color::Blue,
            selection_fg: Color::White,
            use_selection_fg: true,
            cmdbar_bg: Color::Blue,
            cmdbar_extra_lines_bg: Color::Blue,
            disabled_fg: Color::DarkGray,
            diff_line_add: Color::Green,
            diff_line_delete: Color::Red,
            diff_file_added: Color::LightGreen,
            diff_file_removed: Color::LightRed,
            diff_file_moved: Color::LightMagenta,
            diff_file_modified: Color::Yellow,
            commit_hash: Color::Magenta,
            commit_time: Color::LightCyan,
            commit_author: Color::Green,
            danger_fg: Color::Red,
            push_gauge_bg: Color::Blue,
            push_gauge_fg: Color::Reset,
            tag_fg: Color::LightMagenta,
            branch_fg: Color::LightYellow,
            line_break: "\u{00b6}".to_owned(),
            block_title_focused: Color::Reset,
            syntax: "base16-eighties.dark".to_owned(),
        };
        proof {
            assert(r@ =~= default_theme());
        }
        r
    }
}

} // verus!
