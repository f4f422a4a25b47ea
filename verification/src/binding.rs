//! Key combinations, actions and bindings.
use vstd::prelude::*;

use crate::error::CoreError;
use crate::text::{
    chars_of, chars_start_with, concat, concat3, find_char, find_char_from, has_prefix, join,
    join_strings, owned, push_char, push_str, slice_chars, spec_to_lowercase, spec_to_uppercase,
    split, split_chars, split_once, str_eq, string_of, string_views, to_lowercase, to_uppercase,
    trim, trim_chars, trim_str, views_of, ascii_lower, ascii_upper, is_ascii_seq, lemma_lower_of_lowercase, trim_start,
    trim_end,
};

verus! {

// ---------------------------------------------------------------------------
// Modifiers
// ---------------------------------------------------------------------------

/// Normalized modifier representation.
#[derive(Debug, Clone, Copy, PartialEq, Eq, PartialOrd, Ord, Hash, Structural)]
pub enum Modifier {
    Super,
    Ctrl,
    Alt,
    Shift,
}

/// Canonical modifier name used in compositor commands.
pub open spec fn modifier_name(m: Modifier) -> Seq<char> {
    match m {
        Modifier::Super => "SUPER"@,
        Modifier::Ctrl => "CTRL"@,
        Modifier::Alt => "ALT"@,
        Modifier::Shift => "SHIFT"@,
    }
}

/// The modifier an upper-cased, trimmed name stands for, aliases included.
pub open spec fn modifier_of_name(t: Seq<char>) -> Option<Modifier> {
    if t == "SUPER"@ || t == "MOD4"@ || t == "WIN"@ || t == "WINDOWS"@ || t == "LOGO"@ || t
        == "CMD"@ || t == "COMMAND"@ {
        Some(Modifier::Super)
    } else if t == "CTRL"@ || t == "CONTROL"@ {
        Some(Modifier::Ctrl)
    } else if t == "ALT"@ || t == "MOD1"@ || t == "OPTION"@ || t == "OPT"@ {
        Some(Modifier::Alt)
    } else if t == "SHIFT"@ {
        Some(Modifier::Shift)
    } else {
        None
    }
}

/// The modifier that a user-written token `s` names.
pub open spec fn spec_parse_modifier(s: Seq<char>) -> Option<Modifier> {
    modifier_of_name(spec_to_uppercase(trim(s)))
}

/// The reason text for an unknown modifier token.
pub open spec fn unknown_modifier_reason(s: Seq<char>) -> Seq<char> {
    "Unknown modifier '"@ + s + "'. Expected SUPER, CTRL, ALT, or SHIFT"@
}

impl Modifier {
    /// Canonical name (e.g. `SUPER`, `CTRL`, `ALT`, `SHIFT`).
    pub fn as_str(&self) -> (r: &'static str)
        ensures
            r@ == modifier_name(*self),
    {
        match self {
            Modifier::Super => "SUPER",
            Modifier::Ctrl => "CTRL",
            Modifier::Alt => "ALT",
            Modifier::Shift => "SHIFT",
        }
    }

    /// Parses a modifier name, case-insensitively and ignoring surrounding
    /// whitespace; `MOD4`, `WIN`, `WINDOWS`, `LOGO`, `CMD`, `COMMAND` name
    /// SUPER, `CONTROL` names CTRL, `MOD1`, `OPTION`, `OPT` name ALT.
    pub fn parse(s: &str) -> (r: Result<Modifier, CoreError>)
        ensures
            match spec_parse_modifier(s@) {
                Some(m) => r == Ok::<Modifier, CoreError>(m),
                None => r matches Err(CoreError::InvalidKeyCombo { raw, reason }) && raw@ == s@
                    && reason@ == unknown_modifier_reason(s@),
            },
            is_ascii_seq(trim(s@)) ==> match modifier_of_name(ascii_upper(trim(s@))) {
                Some(m) => r == Ok::<Modifier, CoreError>(m),
                None => r is Err,
            },
    {
        let t = trim_str(s);
        let u = to_uppercase(t.as_str());
        assert(is_ascii_seq(t@) ==> u@ =~= ascii_upper(t@));
        let us = u.as_str();
        if str_eq(us, "SUPER") || str_eq(us, "MOD4") || str_eq(us, "WIN") || str_eq(us, "WINDOWS")
            || str_eq(us, "LOGO") || str_eq(us, "CMD") || str_eq(us, "COMMAND") {
            Ok(Modifier::Super)
        } else if str_eq(us, "CTRL") || str_eq(us, "CONTROL") {
            Ok(Modifier::Ctrl)
        } else if str_eq(us, "ALT") || str_eq(us, "MOD1") || str_eq(us, "OPTION") || str_eq(
            us,
            "OPT",
        ) {
            Ok(Modifier::Alt)
        } else if str_eq(us, "SHIFT") {
            Ok(Modifier::Shift)
        } else {
            let mut reason = concat3("Unknown modifier '", s, "'. Expected SUPER, CTRL, ALT, or SHIFT");
            Err(CoreError::InvalidKeyCombo { raw: owned(s), reason })
        }
    }
}

impl std::str::FromStr for Modifier {
    type Err = CoreError;

    fn from_str(s: &str) -> (r: Result<Self, Self::Err>)
        ensures
            match spec_parse_modifier(s@) {
                Some(m) => r == Ok::<Modifier, CoreError>(m),
                None => r matches Err(CoreError::InvalidKeyCombo { raw, reason }) && raw@ == s@
                    && reason@ == unknown_modifier_reason(s@),
            },
    {
        Modifier::parse(s)
    }
}

/// A set of modifiers.
#[derive(Debug, Clone, Copy, PartialEq, Eq, Hash, Default, Structural)]
pub struct ModifierSet {
    pub super_key: bool,
    pub ctrl: bool,
    pub alt: bool,
    pub shift: bool,
}

pub open spec fn set_has(s: ModifierSet, m: Modifier) -> bool {
    match m {
        Modifier::Super => s.super_key,
        Modifier::Ctrl => s.ctrl,
        Modifier::Alt => s.alt,
        Modifier::Shift => s.shift,
    }
}

pub open spec fn set_with(s: ModifierSet, m: Modifier) -> ModifierSet {
    match m {
        Modifier::Super => ModifierSet { super_key: true, ..s },
        Modifier::Ctrl => ModifierSet { ctrl: true, ..s },
        Modifier::Alt => ModifierSet { alt: true, ..s },
        Modifier::Shift => ModifierSet { shift: true, ..s },
    }
}

pub open spec fn empty_set() -> ModifierSet {
    ModifierSet { super_key: false, ctrl: false, alt: false, shift: false }
}

/// The set holding exactly the modifiers listed in `ms`.
pub open spec fn set_of(ms: Seq<Modifier>) -> ModifierSet
    decreases ms.len(),
{
    if ms.len() == 0 {
        empty_set()
    } else {
        set_with(set_of(ms.drop_last()), ms.last())
    }
}

/// Names of the modifiers of a set, in the prescribed order SUPER, CTRL,
/// ALT, SHIFT.
pub open spec fn modifier_names(s: ModifierSet) -> Seq<Seq<char>> {
    (if s.super_key {
        seq!["SUPER"@]
    } else {
        seq![]
    }) + (if s.ctrl {
        seq!["CTRL"@]
    } else {
        seq![]
    }) + (if s.alt {
        seq!["ALT"@]
    } else {
        seq![]
    }) + (if s.shift {
        seq!["SHIFT"@]
    } else {
        seq![]
    })
}

pub open spec fn set_len(s: ModifierSet) -> nat {
    modifier_names(s).len()
}

impl ModifierSet {
    pub fn new() -> (r: ModifierSet)
        ensures
            r == empty_set(),
    {
        ModifierSet { super_key: false, ctrl: false, alt: false, shift: false }
    }

    /// Whether `m` is in the set.
    pub fn contains(&self, m: &Modifier) -> (r: bool)
        ensures
            r == set_has(*self, *m),
    {
        match m {
            Modifier::Super => self.super_key,
            Modifier::Ctrl => self.ctrl,
            Modifier::Alt => self.alt,
            Modifier::Shift => self.shift,
        }
    }

    /// Adds `m` to the set.
    pub fn insert(&mut self, m: Modifier)
        ensures
            *final(self) == set_with(*old(self), m),
    {
        match m {
            Modifier::Super => self.super_key = true,
            Modifier::Ctrl => self.ctrl = true,
            Modifier::Alt => self.alt = true,
            Modifier::Shift => self.shift = true,
        }
    }

    /// Number of modifiers in the set.
    pub fn len(&self) -> (r: usize)
        ensures
            r == set_len(*self),
    {
        let mut n: usize = 0;
        if self.super_key {
            n = n + 1;
        }
        if self.ctrl {
            n = n + 1;
        }
        if self.alt {
            n = n + 1;
        }
        if self.shift {
            n = n + 1;
        }
        n
    }

    /// The set holding exactly the listed modifiers.
    pub fn from_list(ms: &Vec<Modifier>) -> (r: ModifierSet)
        ensures
            r == set_of(ms@),
    {
        let mut s = ModifierSet::new();
        let mut i: usize = 0;
        while i < ms.len()
            invariant
                i <= ms.len(),
                s == set_of(ms@.take(i as int)),
            decreases ms.len() - i,
        {
            s.insert(ms[i]);
            assert(ms@.take((i + 1) as int).drop_last() =~= ms@.take(i as int));
            i = i + 1;
        }
        assert(ms@.take(ms@.len() as int) =~= ms@);
        s
    }

    /// Names of the modifiers in the prescribed order SUPER, CTRL, ALT,
    /// SHIFT.
    pub fn names(&self) -> (r: Vec<String>)
        ensures
            string_views(r@) == modifier_names(*self),
    {
        let mut parts: Vec<String> = Vec::new();
        if self.super_key {
            parts.push(owned("SUPER"));
        }
        if self.ctrl {
            parts.push(owned("CTRL"));
        }
        if self.alt {
            parts.push(owned("ALT"));
        }
        if self.shift {
            parts.push(owned("SHIFT"));
        }
        assert(string_views(parts@) =~= modifier_names(*self));
        parts
    }
}

// ---------------------------------------------------------------------------
// Key combos
// ---------------------------------------------------------------------------

/// A normalized key combination, e.g. `SUPER + LEFT`, `ALT + F4`.
#[derive(Debug, Clone, PartialEq, Eq, Hash)]
pub struct KeyCombo {
    pub modifiers: ModifierSet,
    pub key: String,
}

/// The abstract value of a key combo: its modifier set and key name.
pub type ComboView = (ModifierSet, Seq<char>);

impl View for KeyCombo {
    type V = ComboView;

    open spec fn view(&self) -> ComboView {
        (self.modifiers, self.key@)
    }
}

/// Canonical text of a combo: modifiers in the order SUPER, CTRL, ALT,
/// SHIFT, then the key, joined by ` + `.
pub open spec fn canonical(c: ComboView) -> Seq<char> {
    join(modifier_names(c.0).push(c.1), " + "@)
}

/// Modifiers formatted for the compositor, separated by single spaces
/// (empty when there are none).
pub open spec fn hypr_mods(c: ComboView) -> Seq<char> {
    join(modifier_names(c.0), " "@)
}

/// Index of the first token, among all but the last, that names no modifier.
pub open spec fn first_bad_modifier(toks: Seq<Seq<char>>) -> Option<int>
    decreases toks.len(),
{
    if toks.len() <= 1 {
        None
    } else {
        match first_bad_modifier(toks.drop_last()) {
            Some(i) => Some(i),
            None => if spec_parse_modifier(toks[toks.len() - 2]) is None {
                Some(toks.len() - 2)
            } else {
                None
            },
        }
    }
}

/// The set of modifiers named by all tokens but the last.
pub open spec fn modifiers_of_tokens(toks: Seq<Seq<char>>) -> ModifierSet
    decreases toks.len(),
{
    if toks.len() <= 1 {
        empty_set()
    } else {
        set_with(
            modifiers_of_tokens(toks.drop_last()),
            spec_parse_modifier(toks[toks.len() - 2]).unwrap(),
        )
    }
}

/// The trimmed `+`-separated tokens of a trimmed combo text.
pub open spec fn combo_tokens(s: Seq<char>) -> Seq<Seq<char>> {
    split(trim(s), '+').map_values(|t: Seq<char>| trim(t))
}

/// The combo that `s` denotes, when it is well formed.
pub open spec fn spec_parse_combo(s: Seq<char>) -> Option<ComboView> {
    let toks = combo_tokens(s);
    if trim(s).len() == 0 || toks.last().len() == 0 || first_bad_modifier(toks) is Some {
        None
    } else {
        Some((modifiers_of_tokens(toks), spec_to_uppercase(toks.last())))
    }
}

/// The error `KeyCombo::parse` reports for text that is not a combo.
pub open spec fn combo_parse_error(s: Seq<char>, e: CoreError) -> bool {
    let toks = combo_tokens(s);
    if trim(s).len() == 0 {
        e matches CoreError::InvalidKeyCombo { raw, reason } && raw@ == s && reason@
            == "Key combo cannot be empty"@
    } else if toks.last().len() == 0 {
        e matches CoreError::InvalidKeyCombo { raw, reason } && raw@ == s && reason@
            == "Key part missing after '+'"@
    } else {
        let bad = toks[first_bad_modifier(toks).unwrap()];
        e matches CoreError::InvalidKeyCombo { raw, reason } && raw@ == bad && reason@
            == unknown_modifier_reason(bad)
    }
}

impl KeyCombo {
    /// Builds a combo from modifiers and a key; the key is trimmed and
    /// upper-cased, and must not be empty.
    pub fn new(modifiers: Vec<Modifier>, key: &str) -> (r: Result<KeyCombo, CoreError>)
        ensures
            trim(key@).len() == 0 ==> (r matches Err(
                CoreError::InvalidKeyCombo { raw, reason },
            ) && raw@.len() == 0 && reason@ == "Key part cannot be empty"@),
            trim(key@).len() != 0 ==> (r matches Ok(c) && c@ == (
                set_of(modifiers@),
                spec_to_uppercase(trim(key@)),
            )),
            trim(key@).len() != 0 && is_ascii_seq(trim(key@)) ==> (r matches Ok(c) && c@.1
                == ascii_upper(trim(key@))),
    {
        let t = trim_str(key);
        let key_str = to_uppercase(t.as_str());
        assert(is_ascii_seq(t@) ==> key_str@ =~= ascii_upper(t@));
        if key_str.as_str().is_empty() {
            return Err(
                CoreError::InvalidKeyCombo {
                    raw: String::new(),
                    reason: owned("Key part cannot be empty"),
                },
            );
        }
        Ok(KeyCombo { modifiers: ModifierSet::from_list(&modifiers), key: key_str })
    }

    /// Parses text such as `CTRL + SHIFT + ESCAPE`: `+`-separated tokens,
    /// all but the last naming modifiers, the last naming the key (which is
    /// upper-cased).
    pub fn parse(s: &str) -> (r: Result<KeyCombo, CoreError>)
        ensures
            match spec_parse_combo(s@) {
                Some(c) => r matches Ok(k) && k@ == c,
                None => r matches Err(e) && combo_parse_error(s@, e),
            },
    {
        let chars = chars_of(s);
        let trimmed = trim_chars(&chars);
        if trimmed.len() == 0 {
            return Err(
                CoreError::InvalidKeyCombo {
                    raw: owned(s),
                    reason: owned("Key combo cannot be empty"),
                },
            );
        }
        let pieces = split_chars(&trimmed, '+');
        let ghost toks = combo_tokens(s@);
        let mut tokens: Vec<Vec<char>> = Vec::new();
        let mut i: usize = 0;
        while i < pieces.len()
            invariant
                i <= pieces.len(),
                views_of(pieces@) == split(trim(s@), '+'),
                tokens@.len() == i,
                forall|j: int| 0 <= j < i ==> #[trigger] tokens@[j]@ == toks[j],
                toks == split(trim(s@), '+').map_values(|t: Seq<char>| trim(t)),
            decreases pieces.len() - i,
        {
            assert(pieces@[i as int]@ == views_of(pieces@)[i as int]);
            tokens.push(trim_chars(&pieces[i]));
            i = i + 1;
        }
        assert(toks.len() == tokens@.len());
        assert(toks.len() >= 1) by {
            lemma_split_nonempty(trim(s@), '+');
        }
        let n = tokens.len();
        let key_token = &tokens[n - 1];
        assert(key_token@ == toks.last());
        if key_token.len() == 0 {
            return Err(
                CoreError::InvalidKeyCombo {
                    raw: owned(s),
                    reason: owned("Key part missing after '+'"),
                },
            );
        }
        let mut mods = ModifierSet::new();
        let mut k: usize = 0;
        while k + 1 < n
            invariant
                n == tokens@.len(),
                n == toks.len(),
                n >= 1,
                k + 1 <= n,
                forall|j: int| 0 <= j < n ==> #[trigger] tokens@[j]@ == toks[j],
                first_bad_modifier(toks.take(k + 1)) is None,
                mods == modifiers_of_tokens(toks.take(k + 1)),
                trim(s@).len() != 0,
                toks.last().len() != 0,
                toks == combo_tokens(s@),
            decreases n - k,
        {
            let tok = string_of(&tokens[k]);
            let ghost pre = toks.take(k + 2);
            assert(pre.drop_last() =~= toks.take(k + 1));
            assert(pre[pre.len() - 2] == toks[k as int]);
            match Modifier::parse(tok.as_str()) {
                Ok(m) => {
                    mods.insert(m);
                },
                Err(e) => {
                    proof {
                        lemma_first_bad_extends(toks, k as int + 2);
                        assert(trim(s@).len() != 0);
                        assert(toks.last().len() != 0);
                        assert(first_bad_modifier(toks) == Some(k as int));
                        assert(spec_parse_combo(s@) is None);
                        assert(toks[k as int] == tok@);
                    }
                    return Err(e);
                },
            }
            k = k + 1;
        }
        assert(toks.take(n as int) =~= toks);
        let key_string = string_of(key_token);
        let key = to_uppercase(key_string.as_str());
        Ok(KeyCombo { modifiers: mods, key })
    }

    /// Canonical text, e.g. `CTRL + SHIFT + ESCAPE` (modifiers in the order
    /// SUPER, CTRL, ALT, SHIFT).
    pub fn canonical_str(&self) -> (r: String)
        ensures
            r@ == canonical(self@),
    {
        let mut parts = self.modifiers.names();
        let ghost names = string_views(parts@);
        parts.push(self.key.clone());
        assert(string_views(parts@) =~= names.push(self.key@));
        join_strings(&parts, " + ")
    }

    /// Modifiers formatted for the compositor, e.g. `SUPER` or `CTRL SHIFT`
    /// (empty when there are none).
    pub fn hyprland_mods(&self) -> (r: String)
        ensures
            r@ == hypr_mods(self@),
    {
        let parts = self.modifiers.names();
        join_strings(&parts, " ")
    }

    /// The key name.
    pub fn hyprland_key(&self) -> (r: &str)
        ensures
            r@ == self.key@,
    {
        self.key.as_str()
    }

    /// A copy of this combo.
    pub fn duplicate(&self) -> (r: KeyCombo)
        ensures
            r@ == self@,
    {
        KeyCombo { modifiers: self.modifiers, key: self.key.clone() }
    }

    /// Whether two combos are equal.
    pub fn same(&self, other: &KeyCombo) -> (r: bool)
        ensures
            r == (self@ == other@),
    {
        self.modifiers == other.modifiers && self.key == other.key
    }
}

impl std::str::FromStr for KeyCombo {
    type Err = CoreError;

    fn from_str(s: &str) -> (r: Result<Self, Self::Err>)
        ensures
            match spec_parse_combo(s@) {
                Some(c) => r matches Ok(k) && k@ == c,
                None => r matches Err(e) && combo_parse_error(s@, e),
            },
    {
        KeyCombo::parse(s)
    }
}

proof fn lemma_split_nonempty(s: Seq<char>, d: char)
    ensures
        split(s, d).len() >= 1,
    decreases s.len(),
{
    match find_char(s, d) {
        Some(i) => {
            if 0 <= i < s.len() {
                lemma_split_nonempty(s.skip(i + 1), d);
            }
        },
        None => {},
    }
}

proof fn lemma_first_bad_extends(toks: Seq<Seq<char>>, m: int)
    requires
        2 <= m <= toks.len(),
        first_bad_modifier(toks.take(m - 1)) is None,
        spec_parse_modifier(toks[m - 2]) is None,
    ensures
        first_bad_modifier(toks) == Some(m - 2),
    decreases toks.len(),
{
    let t = toks.take(m);
    assert(t.drop_last() =~= toks.take(m - 1));
    assert(first_bad_modifier(t) == Some(m - 2));
    if m < toks.len() {
        assert(toks.drop_last().take(m) =~= t);
        assert(toks.drop_last().take(m - 1) =~= toks.take(m - 1));
        lemma_first_bad_extends(toks.drop_last(), m);
    } else {
        assert(t =~= toks);
    }
}


// ---------------------------------------------------------------------------
// Actions
// ---------------------------------------------------------------------------

/// Action executed when a binding fires.
#[derive(Debug, Clone, PartialEq, Eq, Hash)]
pub enum Action {
    CloseWindow,
    SnapLeft,
    SnapRight,
    Maximize,
    Restore,
    FloatToggle,
    Fullscreen,
    WorkspaceNext,
    WorkspacePrev,
    CycleWindowNext,
    CycleWindowPrev,
    MoveToWorkspaceNext,
    MoveToWorkspacePrev,
    ToggleSpecialWorkspace(Option<String>),
    ToggleLauncher(Option<String>),
    Exec(String),
    Plugin(String),
    Custom { dispatcher: String, args: String },
}

/// The abstract value of an action: its variant with text as character
/// sequences.
pub enum ActionView {
    CloseWindow,
    SnapLeft,
    SnapRight,
    Maximize,
    Restore,
    FloatToggle,
    Fullscreen,
    WorkspaceNext,
    WorkspacePrev,
    CycleWindowNext,
    CycleWindowPrev,
    MoveToWorkspaceNext,
    MoveToWorkspacePrev,
    ToggleSpecialWorkspace(Option<Seq<char>>),
    ToggleLauncher(Option<Seq<char>>),
    Exec(Seq<char>),
    Plugin(Seq<char>),
    Custom { dispatcher: Seq<char>, args: Seq<char> },
}

pub open spec fn opt_view(o: Option<String>) -> Option<Seq<char>> {
    match o {
        Some(s) => Some(s@),
        None => None,
    }
}

impl View for Action {
    type V = ActionView;

    open spec fn view(&self) -> ActionView {
        match self {
            Action::CloseWindow => ActionView::CloseWindow,
            Action::SnapLeft => ActionView::SnapLeft,
            Action::SnapRight => ActionView::SnapRight,
            Action::Maximize => ActionView::Maximize,
            Action::Restore => ActionView::Restore,
            Action::FloatToggle => ActionView::FloatToggle,
            Action::Fullscreen => ActionView::Fullscreen,
            Action::WorkspaceNext => ActionView::WorkspaceNext,
            Action::WorkspacePrev => ActionView::WorkspacePrev,
            Action::CycleWindowNext => ActionView::CycleWindowNext,
            Action::CycleWindowPrev => ActionView::CycleWindowPrev,
            Action::MoveToWorkspaceNext => ActionView::MoveToWorkspaceNext,
            Action::MoveToWorkspacePrev => ActionView::MoveToWorkspacePrev,
            Action::ToggleSpecialWorkspace(n) => ActionView::ToggleSpecialWorkspace(opt_view(*n)),
            Action::ToggleLauncher(c) => ActionView::ToggleLauncher(opt_view(*c)),
            Action::Exec(c) => ActionView::Exec(c@),
            Action::Plugin(id) => ActionView::Plugin(id@),
            Action::Custom { dispatcher, args } => ActionView::Custom {
                dispatcher: dispatcher@,
                args: args@,
            },
        }
    }
}

/// The text an action is shown as: the snake-case name of its variant,
/// followed by `:` and its argument when it has one.
pub open spec fn action_display(a: ActionView) -> Seq<char> {
    match a {
        ActionView::CloseWindow => "close_window"@,
        ActionView::SnapLeft => "snap_left"@,
        ActionView::SnapRight => "snap_right"@,
        ActionView::Maximize => "maximize"@,
        ActionView::Restore => "restore"@,
        ActionView::FloatToggle => "float_toggle"@,
        ActionView::Fullscreen => "fullscreen"@,
        ActionView::WorkspaceNext => "workspace_next"@,
        ActionView::WorkspacePrev => "workspace_prev"@,
        ActionView::CycleWindowNext => "cycle_window_next"@,
        ActionView::CycleWindowPrev => "cycle_window_prev"@,
        ActionView::MoveToWorkspaceNext => "move_to_workspace_next"@,
        ActionView::MoveToWorkspacePrev => "move_to_workspace_prev"@,
        ActionView::ToggleSpecialWorkspace(None) => "toggle_special_workspace"@,
        ActionView::ToggleSpecialWorkspace(Some(n)) => "toggle_special_workspace:"@ + n,
        ActionView::ToggleLauncher(None) => "toggle_launcher"@,
        ActionView::ToggleLauncher(Some(c)) => "toggle_launcher:"@ + c,
        ActionView::Exec(c) => "exec:"@ + c,
        ActionView::Plugin(id) => "plugin:"@ + id,
        ActionView::Custom { dispatcher, args } => dispatcher + ":"@ + args,
    }
}

/// Launcher command used when a launcher action names none.
pub open spec fn default_launcher() -> Seq<char> {
    "omarchy-launch-walker || rofi -show drun || wofi --show drun"@
}

/// The body of a single-quoted shell word: each `'` becomes `'\''`.
pub open spec fn quote_body(s: Seq<char>) -> Seq<char>
    decreases s.len(),
{
    if s.len() == 0 {
        seq![]
    } else {
        quote_body(s.drop_last()) + if s.last() == '\'' {
            "'\\''"@
        } else {
            seq![s.last()]
        }
    }
}

/// `s` as one single-quoted shell word.
pub open spec fn shell_quote(s: Seq<char>) -> Seq<char> {
    seq!['\''] + quote_body(s) + seq!['\'']
}

/// The compositor dispatcher name and argument for an action.
pub open spec fn dispatcher_of(a: ActionView) -> (Seq<char>, Seq<char>) {
    match a {
        ActionView::CloseWindow => ("killactive"@, ""@),
        ActionView::SnapLeft => ("movefocus"@, "l"@),
        ActionView::SnapRight => ("movefocus"@, "r"@),
        ActionView::Maximize => ("fullscreen"@, "1"@),
        ActionView::Restore => ("fullscreen"@, "0"@),
        ActionView::FloatToggle => ("togglefloating"@, ""@),
        ActionView::Fullscreen => ("fullscreen"@, "0"@),
        ActionView::WorkspaceNext => ("workspace"@, "m+1"@),
        ActionView::WorkspacePrev => ("workspace"@, "m-1"@),
        ActionView::CycleWindowNext => ("cyclenext"@, ""@),
        ActionView::CycleWindowPrev => ("cycleprev"@, ""@),
        ActionView::MoveToWorkspaceNext => ("movetoworkspacesilent"@, "e+1"@),
        ActionView::MoveToWorkspacePrev => ("movetoworkspacesilent"@, "e-1"@),
        ActionView::ToggleSpecialWorkspace(n) => ("togglespecialworkspace"@, match n {
            Some(x) => x,
            None => ""@,
        }),
        ActionView::ToggleLauncher(c) => ("exec"@, match c {
            Some(x) => x,
            None => default_launcher(),
        }),
        ActionView::Exec(c) => ("exec"@, c),
        ActionView::Plugin(id) => ("exec"@, "aethershift plugin run "@ + shell_quote(id)),
        ActionView::Custom { dispatcher, args } => (dispatcher, args),
    }
}

/// The action a lower-cased keyword names, if it is one of the fixed names.
pub open spec fn named_action(l: Seq<char>) -> Option<ActionView> {
    if l == "close"@ || l == "close_window"@ || l == "closewindow"@ || l == "killactive"@ {
        Some(ActionView::CloseWindow)
    } else if l == "snap_left"@ || l == "snapleft"@ || l == "left"@ {
        Some(ActionView::SnapLeft)
    } else if l == "snap_right"@ || l == "snapright"@ || l == "right"@ {
        Some(ActionView::SnapRight)
    } else if l == "maximize"@ || l == "max"@ {
        Some(ActionView::Maximize)
    } else if l == "restore"@ {
        Some(ActionView::Restore)
    } else if l == "float_toggle"@ || l == "togglefloating"@ || l == "toggle_float"@ || l
        == "float"@ {
        Some(ActionView::FloatToggle)
    } else if l == "fullscreen"@ {
        Some(ActionView::Fullscreen)
    } else if l == "workspace_next"@ || l == "workspacenext"@ || l == "next_workspace"@ {
        Some(ActionView::WorkspaceNext)
    } else if l == "workspace_prev"@ || l == "workspaceprev"@ || l == "prev_workspace"@ {
        Some(ActionView::WorkspacePrev)
    } else if l == "cycle_window_next"@ || l == "cycle_next"@ || l == "cyclenext"@ {
        Some(ActionView::CycleWindowNext)
    } else if l == "cycle_window_prev"@ || l == "cycle_prev"@ || l == "cycleprev"@ {
        Some(ActionView::CycleWindowPrev)
    } else if l == "move_to_workspace_next"@ || l == "move_workspace_next"@ {
        Some(ActionView::MoveToWorkspaceNext)
    } else if l == "move_to_workspace_prev"@ || l == "move_workspace_prev"@ {
        Some(ActionView::MoveToWorkspacePrev)
    } else if l == "launcher"@ || l == "toggle_launcher"@ {
        Some(ActionView::ToggleLauncher(None))
    } else if l == "special_workspace"@ || l == "toggle_special_workspace"@ {
        Some(ActionView::ToggleSpecialWorkspace(None))
    } else {
        None
    }
}

/// The text before the first `d` (all of `s` when there is none).
pub open spec fn before_char(s: Seq<char>, d: char) -> Seq<char> {
    match find_char(s, d) {
        Some(i) => s.take(i),
        None => s,
    }
}

/// What the text form of an action denotes, given `lowered`, the lower-cased
/// trimmed text: the action, or the reason it is refused.
pub open spec fn action_text_denotes(s: Seq<char>, lowered: Seq<char>) -> Result<ActionView, Seq<char>> {
    let t = trim(s);
    if t.len() == 0 {
        Err("Action cannot be empty"@)
    } else {
        match named_action(lowered) {
            Some(a) => Ok(a),
            None => if has_prefix(t, "exec:"@) || has_prefix(t, "exec "@) {
                Ok(ActionView::Exec(trim(t.skip(5))))
            } else if has_prefix(t, "plugin:"@) || has_prefix(t, "plugin "@) {
                let id = trim(before_char(t.skip(7), '?'));
                if id.len() == 0 {
                    Err("plugin action requires an id"@)
                } else {
                    Ok(ActionView::Plugin(id))
                }
            } else {
                match split_once(t, ':') {
                    Some((d, a)) => Ok(ActionView::Custom { dispatcher: trim(d), args: trim(a) }),
                    None => Ok(ActionView::Exec(t)),
                }
            },
        }
    }
}

/// What the text form of an action denotes: the action, or the reason it is
/// refused.
pub open spec fn spec_parse_action_text(s: Seq<char>) -> Result<ActionView, Seq<char>> {
    action_text_denotes(s, spec_to_lowercase(trim(s)))
}

/// `r` is what the text `s` denotes, given its lower-cased trimmed text.
pub open spec fn action_parse_result_with(
    s: Seq<char>,
    lowered: Seq<char>,
    r: Result<Action, CoreError>,
) -> bool {
    match action_text_denotes(s, lowered) {
        Ok(a) => r matches Ok(x) && x@ == a,
        Err(why) => r matches Err(CoreError::InvalidAction { raw, reason }) && raw@ == s
            && reason@ == why,
    }
}

/// The result contract shared by the action parsers.
pub open spec fn action_parse_result(s: Seq<char>, r: Result<Action, CoreError>) -> bool {
    action_parse_result_with(s, spec_to_lowercase(trim(s)), r)
}

/// Whether the trimmed text opens with `{`, the encoded (JSON) form.
pub open spec fn is_encoded_form(s: Seq<char>) -> bool {
    trim(s).len() != 0 && trim(s)[0] == '{'
}

fn shell_quote_plugin_id(id: &str) -> (r: String)
    ensures
        r@ == shell_quote(id@),
{
    let chars = chars_of(id);
    let mut quoted = String::new();
    push_char(&mut quoted, '\'');
    let mut i: usize = 0;
    while i < chars.len()
        invariant
            i <= chars.len(),
            quoted@ == seq!['\''] + quote_body(chars@.take(i as int)),
        decreases chars.len() - i,
    {
        assert(chars@.take((i + 1) as int).drop_last() =~= chars@.take(i as int));
        if chars[i] == '\'' {
            push_str(&mut quoted, "'\\''");
        } else {
            push_char(&mut quoted, chars[i]);
        }
        proof {
            let ghost n = chars@.take((i + 1) as int);
            assert(n.last() == chars@[i as int]);
        }
        i = i + 1;
    }
    push_char(&mut quoted, '\'');
    assert(chars@.take(chars@.len() as int) =~= id@);
    quoted
}

fn named_action_of(l: &str) -> (r: Option<Action>)
    ensures
        match named_action(l@) {
            Some(a) => r matches Some(x) && x@ == a,
            None => r is None,
        },
{
    if str_eq(l, "close") || str_eq(l, "close_window") || str_eq(l, "closewindow") || str_eq(
        l,
        "killactive",
    ) {
        Some(Action::CloseWindow)
    } else if str_eq(l, "snap_left") || str_eq(l, "snapleft") || str_eq(l, "left") {
        Some(Action::SnapLeft)
    } else if str_eq(l, "snap_right") || str_eq(l, "snapright") || str_eq(l, "right") {
        Some(Action::SnapRight)
    } else if str_eq(l, "maximize") || str_eq(l, "max") {
        Some(Action::Maximize)
    } else if str_eq(l, "restore") {
        Some(Action::Restore)
    } else if str_eq(l, "float_toggle") || str_eq(l, "togglefloating") || str_eq(
        l,
        "toggle_float",
    ) || str_eq(l, "float") {
        Some(Action::FloatToggle)
    } else if str_eq(l, "fullscreen") {
        Some(Action::Fullscreen)
    } else if str_eq(l, "workspace_next") || str_eq(l, "workspacenext") || str_eq(
        l,
        "next_workspace",
    ) {
        Some(Action::WorkspaceNext)
    } else if str_eq(l, "workspace_prev") || str_eq(l, "workspaceprev") || str_eq(
        l,
        "prev_workspace",
    ) {
        Some(Action::WorkspacePrev)
    } else if str_eq(l, "cycle_window_next") || str_eq(l, "cycle_next") || str_eq(l, "cyclenext") {
        Some(Action::CycleWindowNext)
    } else if str_eq(l, "cycle_window_prev") || str_eq(l, "cycle_prev") || str_eq(l, "cycleprev") {
        Some(Action::CycleWindowPrev)
    } else if str_eq(l, "move_to_workspace_next") || str_eq(l, "move_workspace_next") {
        Some(Action::MoveToWorkspaceNext)
    } else if str_eq(l, "move_to_workspace_prev") || str_eq(l, "move_workspace_prev") {
        Some(Action::MoveToWorkspacePrev)
    } else if str_eq(l, "launcher") || str_eq(l, "toggle_launcher") {
        Some(Action::ToggleLauncher(None))
    } else if str_eq(l, "special_workspace") || str_eq(l, "toggle_special_workspace") {
        Some(Action::ToggleSpecialWorkspace(None))
    } else {
        None
    }
}

pub fn clone_opt(o: &Option<String>) -> (r: Option<String>)
    ensures
        opt_view(r) == opt_view(*o),
{
    match o {
        Some(s) => Some(s.clone()),
        None => None,
    }
}

fn opt_same(a: &Option<String>, b: &Option<String>) -> (r: bool)
    ensures
        r == (opt_view(*a) == opt_view(*b)),
{
    match (a, b) {
        (Some(x), Some(y)) => str_eq(x.as_str(), y.as_str()),
        (None, None) => true,
        _ => false,
    }
}

impl Action {
    /// The text this action is shown as.
    pub fn display_name(&self) -> (r: String)
        ensures
            r@ == action_display(self@),
    {
        match self {
            Action::CloseWindow => owned("close_window"),
            Action::SnapLeft => owned("snap_left"),
            Action::SnapRight => owned("snap_right"),
            Action::Maximize => owned("maximize"),
            Action::Restore => owned("restore"),
            Action::FloatToggle => owned("float_toggle"),
            Action::Fullscreen => owned("fullscreen"),
            Action::WorkspaceNext => owned("workspace_next"),
            Action::WorkspacePrev => owned("workspace_prev"),
            Action::CycleWindowNext => owned("cycle_window_next"),
            Action::CycleWindowPrev => owned("cycle_window_prev"),
            Action::MoveToWorkspaceNext => owned("move_to_workspace_next"),
            Action::MoveToWorkspacePrev => owned("move_to_workspace_prev"),
            Action::ToggleSpecialWorkspace(None) => owned("toggle_special_workspace"),
            Action::ToggleSpecialWorkspace(Some(n)) => concat("toggle_special_workspace:", n.as_str()),
            Action::ToggleLauncher(None) => owned("toggle_launcher"),
            Action::ToggleLauncher(Some(c)) => concat("toggle_launcher:", c.as_str()),
            Action::Exec(c) => concat("exec:", c.as_str()),
            Action::Plugin(id) => concat("plugin:", id.as_str()),
            Action::Custom { dispatcher, args } => concat3(dispatcher.as_str(), ":", args.as_str()),
        }
    }

    /// The compositor dispatcher name and argument for this action.
    pub fn to_hyprland_dispatcher(&self) -> (r: (String, String))
        ensures
            (r.0@, r.1@) == dispatcher_of(self@),
    {
        match self {
            Action::CloseWindow => (owned("killactive"), owned("")),
            Action::SnapLeft => (owned("movefocus"), owned("l")),
            Action::SnapRight => (owned("movefocus"), owned("r")),
            Action::Maximize => (owned("fullscreen"), owned("1")),
            Action::Restore => (owned("fullscreen"), owned("0")),
            Action::FloatToggle => (owned("togglefloating"), owned("")),
            Action::Fullscreen => (owned("fullscreen"), owned("0")),
            Action::WorkspaceNext => (owned("workspace"), owned("m+1")),
            Action::WorkspacePrev => (owned("workspace"), owned("m-1")),
            Action::CycleWindowNext => (owned("cyclenext"), owned("")),
            Action::CycleWindowPrev => (owned("cycleprev"), owned("")),
            Action::MoveToWorkspaceNext => (owned("movetoworkspacesilent"), owned("e+1")),
            Action::MoveToWorkspacePrev => (owned("movetoworkspacesilent"), owned("e-1")),
            Action::ToggleSpecialWorkspace(name) => {
                let arg = match name {
                    Some(n) => n.clone(),
                    None => owned(""),
                };
                (owned("togglespecialworkspace"), arg)
            },
            Action::ToggleLauncher(cmd) => {
                let c = match cmd {
                    Some(c) => c.clone(),
                    None => owned("omarchy-launch-walker || rofi -show drun || wofi --show drun"),
                };
                (owned("exec"), c)
            },
            Action::Exec(cmd) => (owned("exec"), cmd.clone()),
            Action::Plugin(id) => {
                let q = shell_quote_plugin_id(id.as_str());
                (owned("exec"), concat("aethershift plugin run ", q.as_str()))
            },
            Action::Custom { dispatcher, args } => (dispatcher.clone(), args.clone()),
        }
    }

    /// A copy of this action.
    pub fn duplicate(&self) -> (r: Action)
        ensures
            r@ == self@,
    {
        match self {
            Action::ToggleSpecialWorkspace(n) => Action::ToggleSpecialWorkspace(clone_opt(n)),
            Action::ToggleLauncher(c) => Action::ToggleLauncher(clone_opt(c)),
            Action::Exec(c) => Action::Exec(c.clone()),
            Action::Plugin(id) => Action::Plugin(id.clone()),
            Action::Custom { dispatcher, args } => Action::Custom {
                dispatcher: dispatcher.clone(),
                args: args.clone(),
            },
            Action::CloseWindow => Action::CloseWindow,
            Action::SnapLeft => Action::SnapLeft,
            Action::SnapRight => Action::SnapRight,
            Action::Maximize => Action::Maximize,
            Action::Restore => Action::Restore,
            Action::FloatToggle => Action::FloatToggle,
            Action::Fullscreen => Action::Fullscreen,
            Action::WorkspaceNext => Action::WorkspaceNext,
            Action::WorkspacePrev => Action::WorkspacePrev,
            Action::CycleWindowNext => Action::CycleWindowNext,
            Action::CycleWindowPrev => Action::CycleWindowPrev,
            Action::MoveToWorkspaceNext => Action::MoveToWorkspaceNext,
            Action::MoveToWorkspacePrev => Action::MoveToWorkspacePrev,
        }
    }

    /// Whether two actions are equal.
    pub fn same(&self, other: &Action) -> (r: bool)
        ensures
            r == (self@ == other@),
    {
        match (self, other) {
            (Action::CloseWindow, Action::CloseWindow) => true,
            (Action::SnapLeft, Action::SnapLeft) => true,
            (Action::SnapRight, Action::SnapRight) => true,
            (Action::Maximize, Action::Maximize) => true,
            (Action::Restore, Action::Restore) => true,
            (Action::FloatToggle, Action::FloatToggle) => true,
            (Action::Fullscreen, Action::Fullscreen) => true,
            (Action::WorkspaceNext, Action::WorkspaceNext) => true,
            (Action::WorkspacePrev, Action::WorkspacePrev) => true,
            (Action::CycleWindowNext, Action::CycleWindowNext) => true,
            (Action::CycleWindowPrev, Action::CycleWindowPrev) => true,
            (Action::MoveToWorkspaceNext, Action::MoveToWorkspaceNext) => true,
            (Action::MoveToWorkspacePrev, Action::MoveToWorkspacePrev) => true,
            (Action::ToggleSpecialWorkspace(a), Action::ToggleSpecialWorkspace(b)) => opt_same(
                a,
                b,
            ),
            (Action::ToggleLauncher(a), Action::ToggleLauncher(b)) => opt_same(a, b),
            (Action::Exec(a), Action::Exec(b)) => str_eq(a.as_str(), b.as_str()),
            (Action::Plugin(a), Action::Plugin(b)) => str_eq(a.as_str(), b.as_str()),
            (
                Action::Custom { dispatcher: d1, args: a1 },
                Action::Custom { dispatcher: d2, args: a2 },
            ) => str_eq(d1.as_str(), d2.as_str()) && str_eq(a1.as_str(), a2.as_str()),
            _ => false,
        }
    }

    /// Parses the text form of an action: a fixed keyword (case-insensitive,
    /// e.g. `close_window`, `maximize`, `cycle_next`), `exec: CMD` or
    /// `exec CMD`, `plugin: ID[?..]`, `DISPATCHER: ARGS`, and otherwise the
    /// whole text as a command to run. The encoded (JSON) form is decoded by
    /// the caller and handed to `parse_with`.
    pub fn parse(s: &str) -> (r: Result<Action, CoreError>)
        ensures
            action_parse_result(s@, r),
            is_ascii_seq(trim(s@)) ==> action_parse_result_with(s@, ascii_lower(trim(s@)), r),
    {
        let chars = chars_of(s);
        let t = trim_chars(&chars);
        if t.len() == 0 {
            return Err(
                CoreError::InvalidAction { raw: owned(s), reason: owned("Action cannot be empty") },
            );
        }
        let ts = string_of(&t);
        let lower = to_lowercase(ts.as_str());
        assert(is_ascii_seq(t@) ==> lower@ =~= ascii_lower(t@));
        match named_action_of(lower.as_str()) {
            Some(a) => {
                return Ok(a);
            },
            None => {},
        }
        proof {
            reveal_strlit("exec:");
            reveal_strlit("exec ");
            reveal_strlit("plugin:");
            reveal_strlit("plugin ");
        }
        if chars_start_with(&t, "exec:") || chars_start_with(&t, "exec ") {
            let rest = slice_chars(&t, 5, t.len());
            assert(rest@ =~= t@.skip(5));
            let cmd = trim_chars(&rest);
            return Ok(Action::Exec(string_of(&cmd)));
        }
        if chars_start_with(&t, "plugin:") || chars_start_with(&t, "plugin ") {
            let rest = slice_chars(&t, 7, t.len());
            assert(rest@ =~= t@.skip(7));
            let q = find_char_from(&rest, '?', 0);
            assert(rest@.skip(0) =~= rest@);
            let head = slice_chars(&rest, 0, q);
            assert(head@ =~= before_char(rest@, '?'));
            let id = trim_chars(&head);
            if id.len() == 0 {
                return Err(
                    CoreError::InvalidAction {
                        raw: owned(s),
                        reason: owned("plugin action requires an id"),
                    },
                );
            }
            return Ok(Action::Plugin(string_of(&id)));
        }
        let c = find_char_from(&t, ':', 0);
        assert(t@.skip(0) =~= t@);
        if c < t.len() {
            let d = slice_chars(&t, 0, c);
            let a = slice_chars(&t, c + 1, t.len());
            assert(d@ =~= t@.take(c as int));
            assert(a@ =~= t@.skip(c + 1));
            let dt = trim_chars(&d);
            let at = trim_chars(&a);
            Ok(Action::Custom { dispatcher: string_of(&dt), args: string_of(&at) })
        } else {
            Ok(Action::Exec(ts))
        }
    }

    /// Parses an action, taking `decoded` as what decoding the trimmed text
    /// as the encoded (JSON) form gave. When the trimmed text opens with `{`
    /// and that decoding succeeded, its action is the result; otherwise the
    /// text form decides, as in `parse`.
    pub fn parse_with(s: &str, decoded: Option<Action>) -> (r: Result<Action, CoreError>)
        ensures
            is_encoded_form(s@) && decoded is Some ==> (r matches Ok(x) && x@ == decoded->0@),
            !(is_encoded_form(s@) && decoded is Some) ==> action_parse_result(s@, r),
    {
        let chars = chars_of(s);
        let t = trim_chars(&chars);
        if t.len() != 0 && t[0] == '{' {
            match decoded {
                Some(a) => {
                    return Ok(a);
                },
                None => {},
            }
        }
        Action::parse(s)
    }
}

impl std::str::FromStr for Action {
    type Err = CoreError;

    fn from_str(s: &str) -> (r: Result<Self, Self::Err>)
        ensures
            action_parse_result(s@, r),
    {
        Action::parse(s)
    }
}

// ---------------------------------------------------------------------------
// Bindings
// ---------------------------------------------------------------------------

/// One binding: a key combo mapped to an action.
#[derive(Debug, Clone, PartialEq, Eq, Hash)]
pub struct Binding {
    pub key_combo: KeyCombo,
    pub action: Action,
    pub description: Option<String>,
}

/// The abstract value of a binding.
pub struct BindingView {
    pub key_combo: ComboView,
    pub action: ActionView,
    pub description: Option<Seq<char>>,
}

impl View for Binding {
    type V = BindingView;

    open spec fn view(&self) -> BindingView {
        BindingView {
            key_combo: self.key_combo@,
            action: self.action@,
            description: opt_view(self.description),
        }
    }
}

impl Binding {
    pub fn new(key_combo: KeyCombo, action: Action) -> (r: Binding)
        ensures
            r@ == (BindingView { key_combo: key_combo@, action: action@, description: None }),
    {
        Binding { key_combo, action, description: None }
    }

    /// This binding with the given description.
    pub fn with_description(self, desc: &str) -> (r: Binding)
        ensures
            r@ == (BindingView { description: Some(desc@), ..self@ }),
    {
        let mut b = self;
        b.description = Some(owned(desc));
        b
    }

    /// A copy of this binding.
    pub fn duplicate(&self) -> (r: Binding)
        ensures
            r@ == self@,
    {
        Binding {
            key_combo: self.key_combo.duplicate(),
            action: self.action.duplicate(),
            description: clone_opt(&self.description),
        }
    }
}

/// Whether an action carries no argument (its text is a fixed keyword).
pub open spec fn is_keyword_action(a: ActionView) -> bool {
    match a {
        ActionView::ToggleSpecialWorkspace(n) => n is None,
        ActionView::ToggleLauncher(c) => c is None,
        ActionView::Exec(_) | ActionView::Plugin(_) | ActionView::Custom { .. } => false,
        _ => true,
    }
}

proof fn lemma_reads_back_close_window()
    ensures
        named_action("close_window"@) == Some(ActionView::CloseWindow),
        trim("close_window"@) == "close_window"@,
        ascii_lower("close_window"@) == "close_window"@,
        is_ascii_seq("close_window"@),
        "close_window"@.len() > 0,
{
    reveal_strlit("close_window");
    lemma_lower_of_lowercase("close_window"@);
    assert(trim_start("close_window"@) == "close_window"@);
    assert(trim_end("close_window"@) == "close_window"@);
}

proof fn lemma_reads_back_snap_left()
    ensures
        named_action("snap_left"@) == Some(ActionView::SnapLeft),
        trim("snap_left"@) == "snap_left"@,
        ascii_lower("snap_left"@) == "snap_left"@,
        is_ascii_seq("snap_left"@),
        "snap_left"@.len() > 0,
{
    reveal_strlit("snap_left");
    lemma_lower_of_lowercase("snap_left"@);
    assert(trim_start("snap_left"@) == "snap_left"@);
    assert(trim_end("snap_left"@) == "snap_left"@);
    reveal_strlit("close");
    assert("snap_left"@ != "close"@) by { assert("snap_left"@.len() != "close"@.len()); }
    reveal_strlit("close_window");
    assert("snap_left"@ != "close_window"@) by { assert("snap_left"@.len() != "close_window"@.len()); }
    reveal_strlit("closewindow");
    assert("snap_left"@ != "closewindow"@) by { assert("snap_left"@.len() != "closewindow"@.len()); }
    reveal_strlit("killactive");
    assert("snap_left"@ != "killactive"@) by { assert("snap_left"@.len() != "killactive"@.len()); }
}

proof fn lemma_reads_back_snap_right()
    ensures
        named_action("snap_right"@) == Some(ActionView::SnapRight),
        trim("snap_right"@) == "snap_right"@,
        ascii_lower("snap_right"@) == "snap_right"@,
        is_ascii_seq("snap_right"@),
        "snap_right"@.len() > 0,
{
    reveal_strlit("snap_right");
    lemma_lower_of_lowercase("snap_right"@);
    assert(trim_start("snap_right"@) == "snap_right"@);
    assert(trim_end("snap_right"@) == "snap_right"@);
    reveal_strlit("close");
    assert("snap_right"@ != "close"@) by { assert("snap_right"@.len() != "close"@.len()); }
    reveal_strlit("close_window");
    assert("snap_right"@ != "close_window"@) by { assert("snap_right"@.len() != "close_window"@.len()); }
    reveal_strlit("closewindow");
    assert("snap_right"@ != "closewindow"@) by { assert("snap_right"@.len() != "closewindow"@.len()); }
    reveal_strlit("killactive");
    assert("snap_right"@ != "killactive"@) by { assert("snap_right"@[0] != "killactive"@[0]); }
    reveal_strlit("snap_left");
    assert("snap_right"@ != "snap_left"@) by { assert("snap_right"@.len() != "snap_left"@.len()); }
    reveal_strlit("snapleft");
    assert("snap_right"@ != "snapleft"@) by { assert("snap_right"@.len() != "snapleft"@.len()); }
    reveal_strlit("left");
    assert("snap_right"@ != "left"@) by { assert("snap_right"@.len() != "left"@.len()); }
}

proof fn lemma_reads_back_maximize()
    ensures
        named_action("maximize"@) == Some(ActionView::Maximize),
        trim("maximize"@) == "maximize"@,
        ascii_lower("maximize"@) == "maximize"@,
        is_ascii_seq("maximize"@),
        "maximize"@.len() > 0,
{
    reveal_strlit("maximize");
    lemma_lower_of_lowercase("maximize"@);
    assert(trim_start("maximize"@) == "maximize"@);
    assert(trim_end("maximize"@) == "maximize"@);
    reveal_strlit("close");
    assert("maximize"@ != "close"@) by { assert("maximize"@.len() != "close"@.len()); }
    reveal_strlit("close_window");
    assert("maximize"@ != "close_window"@) by { assert("maximize"@.len() != "close_window"@.len()); }
    reveal_strlit("closewindow");
    assert("maximize"@ != "closewindow"@) by { assert("maximize"@.len() != "closewindow"@.len()); }
    reveal_strlit("killactive");
    assert("maximize"@ != "killactive"@) by { assert("maximize"@.len() != "killactive"@.len()); }
    reveal_strlit("snap_left");
    assert("maximize"@ != "snap_left"@) by { assert("maximize"@.len() != "snap_left"@.len()); }
    reveal_strlit("snapleft");
    assert("maximize"@ != "snapleft"@) by { assert("maximize"@[0] != "snapleft"@[0]); }
    reveal_strlit("left");
    assert("maximize"@ != "left"@) by { assert("maximize"@.len() != "left"@.len()); }
    reveal_strlit("snap_right");
    assert("maximize"@ != "snap_right"@) by { assert("maximize"@.len() != "snap_right"@.len()); }
    reveal_strlit("snapright");
    assert("maximize"@ != "snapright"@) by { assert("maximize"@.len() != "snapright"@.len()); }
    reveal_strlit("right");
    assert("maximize"@ != "right"@) by { assert("maximize"@.len() != "right"@.len()); }
}

proof fn lemma_reads_back_restore()
    ensures
        named_action("restore"@) == Some(ActionView::Restore),
        trim("restore"@) == "restore"@,
        ascii_lower("restore"@) == "restore"@,
        is_ascii_seq("restore"@),
        "restore"@.len() > 0,
{
    reveal_strlit("restore");
    lemma_lower_of_lowercase("restore"@);
    assert(trim_start("restore"@) == "restore"@);
    assert(trim_end("restore"@) == "restore"@);
    reveal_strlit("close");
    assert("restore"@ != "close"@) by { assert("restore"@.len() != "close"@.len()); }
    reveal_strlit("close_window");
    assert("restore"@ != "close_window"@) by { assert("restore"@.len() != "close_window"@.len()); }
    reveal_strlit("closewindow");
    assert("restore"@ != "closewindow"@) by { assert("restore"@.len() != "closewindow"@.len()); }
    reveal_strlit("killactive");
    assert("restore"@ != "killactive"@) by { assert("restore"@.len() != "killactive"@.len()); }
    reveal_strlit("snap_left");
    assert("restore"@ != "snap_left"@) by { assert("restore"@.len() != "snap_left"@.len()); }
    reveal_strlit("snapleft");
    assert("restore"@ != "snapleft"@) by { assert("restore"@.len() != "snapleft"@.len()); }
    reveal_strlit("left");
    assert("restore"@ != "left"@) by { assert("restore"@.len() != "left"@.len()); }
    reveal_strlit("snap_right");
    assert("restore"@ != "snap_right"@) by { assert("restore"@.len() != "snap_right"@.len()); }
    reveal_strlit("snapright");
    assert("restore"@ != "snapright"@) by { assert("restore"@.len() != "snapright"@.len()); }
    reveal_strlit("right");
    assert("restore"@ != "right"@) by { assert("restore"@.len() != "right"@.len()); }
    reveal_strlit("maximize");
    assert("restore"@ != "maximize"@) by { assert("restore"@.len() != "maximize"@.len()); }
    reveal_strlit("max");
    assert("restore"@ != "max"@) by { assert("restore"@.len() != "max"@.len()); }
}

proof fn lemma_reads_back_float_toggle()
    ensures
        named_action("float_toggle"@) == Some(ActionView::FloatToggle),
        trim("float_toggle"@) == "float_toggle"@,
        ascii_lower("float_toggle"@) == "float_toggle"@,
        is_ascii_seq("float_toggle"@),
        "float_toggle"@.len() > 0,
{
    reveal_strlit("float_toggle");
    lemma_lower_of_lowercase("float_toggle"@);
    assert(trim_start("float_toggle"@) == "float_toggle"@);
    assert(trim_end("float_toggle"@) == "float_toggle"@);
    reveal_strlit("close");
    assert("float_toggle"@ != "close"@) by { assert("float_toggle"@.len() != "close"@.len()); }
    reveal_strlit("close_window");
    assert("float_toggle"@ != "close_window"@) by { assert("float_toggle"@[0] != "close_window"@[0]); }
    reveal_strlit("closewindow");
    assert("float_toggle"@ != "closewindow"@) by { assert("float_toggle"@.len() != "closewindow"@.len()); }
    reveal_strlit("killactive");
    assert("float_toggle"@ != "killactive"@) by { assert("float_toggle"@.len() != "killactive"@.len()); }
    reveal_strlit("snap_left");
    assert("float_toggle"@ != "snap_left"@) by { assert("float_toggle"@.len() != "snap_left"@.len()); }
    reveal_strlit("snapleft");
    assert("float_toggle"@ != "snapleft"@) by { assert("float_toggle"@.len() != "snapleft"@.len()); }
    reveal_strlit("left");
    assert("float_toggle"@ != "left"@) by { assert("float_toggle"@.len() != "left"@.len()); }
    reveal_strlit("snap_right");
    assert("float_toggle"@ != "snap_right"@) by { assert("float_toggle"@.len() != "snap_right"@.len()); }
    reveal_strlit("snapright");
    assert("float_toggle"@ != "snapright"@) by { assert("float_toggle"@.len() != "snapright"@.len()); }
    reveal_strlit("right");
    assert("float_toggle"@ != "right"@) by { assert("float_toggle"@.len() != "right"@.len()); }
    reveal_strlit("maximize");
    assert("float_toggle"@ != "maximize"@) by { assert("float_toggle"@.len() != "maximize"@.len()); }
    reveal_strlit("max");
    assert("float_toggle"@ != "max"@) by { assert("float_toggle"@.len() != "max"@.len()); }
    reveal_strlit("restore");
    assert("float_toggle"@ != "restore"@) by { assert("float_toggle"@.len() != "restore"@.len()); }
}

proof fn lemma_reads_back_fullscreen()
    ensures
        named_action("fullscreen"@) == Some(ActionView::Fullscreen),
        trim("fullscreen"@) == "fullscreen"@,
        ascii_lower("fullscreen"@) == "fullscreen"@,
        is_ascii_seq("fullscreen"@),
        "fullscreen"@.len() > 0,
{
    reveal_strlit("fullscreen");
    lemma_lower_of_lowercase("fullscreen"@);
    assert(trim_start("fullscreen"@) == "fullscreen"@);
    assert(trim_end("fullscreen"@) == "fullscreen"@);
    reveal_strlit("close");
    assert("fullscreen"@ != "close"@) by { assert("fullscreen"@.len() != "close"@.len()); }
    reveal_strlit("close_window");
    assert("fullscreen"@ != "close_window"@) by { assert("fullscreen"@.len() != "close_window"@.len()); }
    reveal_strlit("closewindow");
    assert("fullscreen"@ != "closewindow"@) by { assert("fullscreen"@.len() != "closewindow"@.len()); }
    reveal_strlit("killactive");
    assert("fullscreen"@ != "killactive"@) by { assert("fullscreen"@[0] != "killactive"@[0]); }
    reveal_strlit("snap_left");
    assert("fullscreen"@ != "snap_left"@) by { assert("fullscreen"@.len() != "snap_left"@.len()); }
    reveal_strlit("snapleft");
    assert("fullscreen"@ != "snapleft"@) by { assert("fullscreen"@.len() != "snapleft"@.len()); }
    reveal_strlit("left");
    assert("fullscreen"@ != "left"@) by { assert("fullscreen"@.len() != "left"@.len()); }
    reveal_strlit("snap_right");
    assert("fullscreen"@ != "snap_right"@) by { assert("fullscreen"@[0] != "snap_right"@[0]); }
    reveal_strlit("snapright");
    assert("fullscreen"@ != "snapright"@) by { assert("fullscreen"@.len() != "snapright"@.len()); }
    reveal_strlit("right");
    assert("fullscreen"@ != "right"@) by { assert("fullscreen"@.len() != "right"@.len()); }
    reveal_strlit("maximize");
    assert("fullscreen"@ != "maximize"@) by { assert("fullscreen"@.len() != "maximize"@.len()); }
    reveal_strlit("max");
    assert("fullscreen"@ != "max"@) by { assert("fullscreen"@.len() != "max"@.len()); }
    reveal_strlit("restore");
    assert("fullscreen"@ != "restore"@) by { assert("fullscreen"@.len() != "restore"@.len()); }
    reveal_strlit("float_toggle");
    assert("fullscreen"@ != "float_toggle"@) by { assert("fullscreen"@.len() != "float_toggle"@.len()); }
    reveal_strlit("togglefloating");
    assert("fullscreen"@ != "togglefloating"@) by { assert("fullscreen"@.len() != "togglefloating"@.len()); }
    reveal_strlit("toggle_float");
    assert("fullscreen"@ != "toggle_float"@) by { assert("fullscreen"@.len() != "toggle_float"@.len()); }
    reveal_strlit("float");
    assert("fullscreen"@ != "float"@) by { assert("fullscreen"@.len() != "float"@.len()); }
}

proof fn lemma_reads_back_workspace_next()
    ensures
        named_action("workspace_next"@) == Some(ActionView::WorkspaceNext),
        trim("workspace_next"@) == "workspace_next"@,
        ascii_lower("workspace_next"@) == "workspace_next"@,
        is_ascii_seq("workspace_next"@),
        "workspace_next"@.len() > 0,
{
    reveal_strlit("workspace_next");
    lemma_lower_of_lowercase("workspace_next"@);
    assert(trim_start("workspace_next"@) == "workspace_next"@);
    assert(trim_end("workspace_next"@) == "workspace_next"@);
    reveal_strlit("close");
    assert("workspace_next"@ != "close"@) by { assert("workspace_next"@.len() != "close"@.len()); }
    reveal_strlit("close_window");
    assert("workspace_next"@ != "close_window"@) by { assert("workspace_next"@.len() != "close_window"@.len()); }
    reveal_strlit("closewindow");
    assert("workspace_next"@ != "closewindow"@) by { assert("workspace_next"@.len() != "closewindow"@.len()); }
    reveal_strlit("killactive");
    assert("workspace_next"@ != "killactive"@) by { assert("workspace_next"@.len() != "killactive"@.len()); }
    reveal_strlit("snap_left");
    assert("workspace_next"@ != "snap_left"@) by { assert("workspace_next"@.len() != "snap_left"@.len()); }
    reveal_strlit("snapleft");
    assert("workspace_next"@ != "snapleft"@) by { assert("workspace_next"@.len() != "snapleft"@.len()); }
    reveal_strlit("left");
    assert("workspace_next"@ != "left"@) by { assert("workspace_next"@.len() != "left"@.len()); }
    reveal_strlit("snap_right");
    assert("workspace_next"@ != "snap_right"@) by { assert("workspace_next"@.len() != "snap_right"@.len()); }
    reveal_strlit("snapright");
    assert("workspace_next"@ != "snapright"@) by { assert("workspace_next"@.len() != "snapright"@.len()); }
    reveal_strlit("right");
    assert("workspace_next"@ != "right"@) by { assert("workspace_next"@.len() != "right"@.len()); }
    reveal_strlit("maximize");
    assert("workspace_next"@ != "maximize"@) by { assert("workspace_next"@.len() != "maximize"@.len()); }
    reveal_strlit("max");
    assert("workspace_next"@ != "max"@) by { assert("workspace_next"@.len() != "max"@.len()); }
    reveal_strlit("restore");
    assert("workspace_next"@ != "restore"@) by { assert("workspace_next"@.len() != "restore"@.len()); }
    reveal_strlit("float_toggle");
    assert("workspace_next"@ != "float_toggle"@) by { assert("workspace_next"@.len() != "float_toggle"@.len()); }
    reveal_strlit("togglefloating");
    assert("workspace_next"@ != "togglefloating"@) by { assert("workspace_next"@[0] != "togglefloating"@[0]); }
    reveal_strlit("toggle_float");
    assert("workspace_next"@ != "toggle_float"@) by { assert("workspace_next"@.len() != "toggle_float"@.len()); }
    reveal_strlit("float");
    assert("workspace_next"@ != "float"@) by { assert("workspace_next"@.len() != "float"@.len()); }
    reveal_strlit("fullscreen");
    assert("workspace_next"@ != "fullscreen"@) by { assert("workspace_next"@.len() != "fullscreen"@.len()); }
}

proof fn lemma_reads_back_workspace_prev()
    ensures
        named_action("workspace_prev"@) == Some(ActionView::WorkspacePrev),
        trim("workspace_prev"@) == "workspace_prev"@,
        ascii_lower("workspace_prev"@) == "workspace_prev"@,
        is_ascii_seq("workspace_prev"@),
        "workspace_prev"@.len() > 0,
{
    reveal_strlit("workspace_prev");
    lemma_lower_of_lowercase("workspace_prev"@);
    assert(trim_start("workspace_prev"@) == "workspace_prev"@);
    assert(trim_end("workspace_prev"@) == "workspace_prev"@);
    reveal_strlit("close");
    assert("workspace_prev"@ != "close"@) by { assert("workspace_prev"@.len() != "close"@.len()); }
    reveal_strlit("close_window");
    assert("workspace_prev"@ != "close_window"@) by { assert("workspace_prev"@.len() != "close_window"@.len()); }
    reveal_strlit("closewindow");
    assert("workspace_prev"@ != "closewindow"@) by { assert("workspace_prev"@.len() != "closewindow"@.len()); }
    reveal_strlit("killactive");
    assert("workspace_prev"@ != "killactive"@) by { assert("workspace_prev"@.len() != "killactive"@.len()); }
    reveal_strlit("snap_left");
    assert("workspace_prev"@ != "snap_left"@) by { assert("workspace_prev"@.len() != "snap_left"@.len()); }
    reveal_strlit("snapleft");
    assert("workspace_prev"@ != "snapleft"@) by { assert("workspace_prev"@.len() != "snapleft"@.len()); }
    reveal_strlit("left");
    assert("workspace_prev"@ != "left"@) by { assert("workspace_prev"@.len() != "left"@.len()); }
    reveal_strlit("snap_right");
    assert("workspace_prev"@ != "snap_right"@) by { assert("workspace_prev"@.len() != "snap_right"@.len()); }
    reveal_strlit("snapright");
    assert("workspace_prev"@ != "snapright"@) by { assert("workspace_prev"@.len() != "snapright"@.len()); }
    reveal_strlit("right");
    assert("workspace_prev"@ != "right"@) by { assert("workspace_prev"@.len() != "right"@.len()); }
    reveal_strlit("maximize");
    assert("workspace_prev"@ != "maximize"@) by { assert("workspace_prev"@.len() != "maximize"@.len()); }
    reveal_strlit("max");
    assert("workspace_prev"@ != "max"@) by { assert("workspace_prev"@.len() != "max"@.len()); }
    reveal_strlit("restore");
    assert("workspace_prev"@ != "restore"@) by { assert("workspace_prev"@.len() != "restore"@.len()); }
    reveal_strlit("float_toggle");
    assert("workspace_prev"@ != "float_toggle"@) by { assert("workspace_prev"@.len() != "float_toggle"@.len()); }
    reveal_strlit("togglefloating");
    assert("workspace_prev"@ != "togglefloating"@) by { assert("workspace_prev"@[0] != "togglefloating"@[0]); }
    reveal_strlit("toggle_float");
    assert("workspace_prev"@ != "toggle_float"@) by { assert("workspace_prev"@.len() != "toggle_float"@.len()); }
    reveal_strlit("float");
    assert("workspace_prev"@ != "float"@) by { assert("workspace_prev"@.len() != "float"@.len()); }
    reveal_strlit("fullscreen");
    assert("workspace_prev"@ != "fullscreen"@) by { assert("workspace_prev"@.len() != "fullscreen"@.len()); }
    reveal_strlit("workspace_next");
    assert("workspace_prev"@ != "workspace_next"@) by { assert("workspace_prev"@[10] != "workspace_next"@[10]); }
    reveal_strlit("workspacenext");
    assert("workspace_prev"@ != "workspacenext"@) by { assert("workspace_prev"@.len() != "workspacenext"@.len()); }
    reveal_strlit("next_workspace");
    assert("workspace_prev"@ != "next_workspace"@) by { assert("workspace_prev"@[0] != "next_workspace"@[0]); }
}

proof fn lemma_reads_back_cycle_window_next()
    ensures
        named_action("cycle_window_next"@) == Some(ActionView::CycleWindowNext),
        trim("cycle_window_next"@) == "cycle_window_next"@,
        ascii_lower("cycle_window_next"@) == "cycle_window_next"@,
        is_ascii_seq("cycle_window_next"@),
        "cycle_window_next"@.len() > 0,
{
    reveal_strlit("cycle_window_next");
    lemma_lower_of_lowercase("cycle_window_next"@);
    assert(trim_start("cycle_window_next"@) == "cycle_window_next"@);
    assert(trim_end("cycle_window_next"@) == "cycle_window_next"@);
    reveal_strlit("close");
    assert("cycle_window_next"@ != "close"@) by { assert("cycle_window_next"@.len() != "close"@.len()); }
    reveal_strlit("close_window");
    assert("cycle_window_next"@ != "close_window"@) by { assert("cycle_window_next"@.len() != "close_window"@.len()); }
    reveal_strlit("closewindow");
    assert("cycle_window_next"@ != "closewindow"@) by { assert("cycle_window_next"@.len() != "closewindow"@.len()); }
    reveal_strlit("killactive");
    assert("cycle_window_next"@ != "killactive"@) by { assert("cycle_window_next"@.len() != "killactive"@.len()); }
    reveal_strlit("snap_left");
    assert("cycle_window_next"@ != "snap_left"@) by { assert("cycle_window_next"@.len() != "snap_left"@.len()); }
    reveal_strlit("snapleft");
    assert("cycle_window_next"@ != "snapleft"@) by { assert("cycle_window_next"@.len() != "snapleft"@.len()); }
    reveal_strlit("left");
    assert("cycle_window_next"@ != "left"@) by { assert("cycle_window_next"@.len() != "left"@.len()); }
    reveal_strlit("snap_right");
    assert("cycle_window_next"@ != "snap_right"@) by { assert("cycle_window_next"@.len() != "snap_right"@.len()); }
    reveal_strlit("snapright");
    assert("cycle_window_next"@ != "snapright"@) by { assert("cycle_window_next"@.len() != "snapright"@.len()); }
    reveal_strlit("right");
    assert("cycle_window_next"@ != "right"@) by { assert("cycle_window_next"@.len() != "right"@.len()); }
    reveal_strlit("maximize");
    assert("cycle_window_next"@ != "maximize"@) by { assert("cycle_window_next"@.len() != "maximize"@.len()); }
    reveal_strlit("max");
    assert("cycle_window_next"@ != "max"@) by { assert("cycle_window_next"@.len() != "max"@.len()); }
    reveal_strlit("restore");
    assert("cycle_window_next"@ != "restore"@) by { assert("cycle_window_next"@.len() != "restore"@.len()); }
    reveal_strlit("float_toggle");
    assert("cycle_window_next"@ != "float_toggle"@) by { assert("cycle_window_next"@.len() != "float_toggle"@.len()); }
    reveal_strlit("togglefloating");
    assert("cycle_window_next"@ != "togglefloating"@) by { assert("cycle_window_next"@.len() != "togglefloating"@.len()); }
    reveal_strlit("toggle_float");
    assert("cycle_window_next"@ != "toggle_float"@) by { assert("cycle_window_next"@.len() != "toggle_float"@.len()); }
    reveal_strlit("float");
    assert("cycle_window_next"@ != "float"@) by { assert("cycle_window_next"@.len() != "float"@.len()); }
    reveal_strlit("fullscreen");
    assert("cycle_window_next"@ != "fullscreen"@) by { assert("cycle_window_next"@.len() != "fullscreen"@.len()); }
    reveal_strlit("workspace_next");
    assert("cycle_window_next"@ != "workspace_next"@) by { assert("cycle_window_next"@.len() != "workspace_next"@.len()); }
    reveal_strlit("workspacenext");
    assert("cycle_window_next"@ != "workspacenext"@) by { assert("cycle_window_next"@.len() != "workspacenext"@.len()); }
    reveal_strlit("next_workspace");
    assert("cycle_window_next"@ != "next_workspace"@) by { assert("cycle_window_next"@.len() != "next_workspace"@.len()); }
    reveal_strlit("workspace_prev");
    assert("cycle_window_next"@ != "workspace_prev"@) by { assert("cycle_window_next"@.len() != "workspace_prev"@.len()); }
    reveal_strlit("workspaceprev");
    assert("cycle_window_next"@ != "workspaceprev"@) by { assert("cycle_window_next"@.len() != "workspaceprev"@.len()); }
    reveal_strlit("prev_workspace");
    assert("cycle_window_next"@ != "prev_workspace"@) by { assert("cycle_window_next"@.len() != "prev_workspace"@.len()); }
}

proof fn lemma_reads_back_cycle_window_prev()
    ensures
        named_action("cycle_window_prev"@) == Some(ActionView::CycleWindowPrev),
        trim("cycle_window_prev"@) == "cycle_window_prev"@,
        ascii_lower("cycle_window_prev"@) == "cycle_window_prev"@,
        is_ascii_seq("cycle_window_prev"@),
        "cycle_window_prev"@.len() > 0,
{
    reveal_strlit("cycle_window_prev");
    lemma_lower_of_lowercase("cycle_window_prev"@);
    assert(trim_start("cycle_window_prev"@) == "cycle_window_prev"@);
    assert(trim_end("cycle_window_prev"@) == "cycle_window_prev"@);
    reveal_strlit("close");
    assert("cycle_window_prev"@ != "close"@) by { assert("cycle_window_prev"@.len() != "close"@.len()); }
    reveal_strlit("close_window");
    assert("cycle_window_prev"@ != "close_window"@) by { assert("cycle_window_prev"@.len() != "close_window"@.len()); }
    reveal_strlit("closewindow");
    assert("cycle_window_prev"@ != "closewindow"@) by { assert("cycle_window_prev"@.len() != "closewindow"@.len()); }
    reveal_strlit("killactive");
    assert("cycle_window_prev"@ != "killactive"@) by { assert("cycle_window_prev"@.len() != "killactive"@.len()); }
    reveal_strlit("snap_left");
    assert("cycle_window_prev"@ != "snap_left"@) by { assert("cycle_window_prev"@.len() != "snap_left"@.len()); }
    reveal_strlit("snapleft");
    assert("cycle_window_prev"@ != "snapleft"@) by { assert("cycle_window_prev"@.len() != "snapleft"@.len()); }
    reveal_strlit("left");
    assert("cycle_window_prev"@ != "left"@) by { assert("cycle_window_prev"@.len() != "left"@.len()); }
    reveal_strlit("snap_right");
    assert("cycle_window_prev"@ != "snap_right"@) by { assert("cycle_window_prev"@.len() != "snap_right"@.len()); }
    reveal_strlit("snapright");
    assert("cycle_window_prev"@ != "snapright"@) by { assert("cycle_window_prev"@.len() != "snapright"@.len()); }
    reveal_strlit("right");
    assert("cycle_window_prev"@ != "right"@) by { assert("cycle_window_prev"@.len() != "right"@.len()); }
    reveal_strlit("maximize");
    assert("cycle_window_prev"@ != "maximize"@) by { assert("cycle_window_prev"@.len() != "maximize"@.len()); }
    reveal_strlit("max");
    assert("cycle_window_prev"@ != "max"@) by { assert("cycle_window_prev"@.len() != "max"@.len()); }
    reveal_strlit("restore");
    assert("cycle_window_prev"@ != "restore"@) by { assert("cycle_window_prev"@.len() != "restore"@.len()); }
    reveal_strlit("float_toggle");
    assert("cycle_window_prev"@ != "float_toggle"@) by { assert("cycle_window_prev"@.len() != "float_toggle"@.len()); }
    reveal_strlit("togglefloating");
    assert("cycle_window_prev"@ != "togglefloating"@) by { assert("cycle_window_prev"@.len() != "togglefloating"@.len()); }
    reveal_strlit("toggle_float");
    assert("cycle_window_prev"@ != "toggle_float"@) by { assert("cycle_window_prev"@.len() != "toggle_float"@.len()); }
    reveal_strlit("float");
    assert("cycle_window_prev"@ != "float"@) by { assert("cycle_window_prev"@.len() != "float"@.len()); }
    reveal_strlit("fullscreen");
    assert("cycle_window_prev"@ != "fullscreen"@) by { assert("cycle_window_prev"@.len() != "fullscreen"@.len()); }
    reveal_strlit("workspace_next");
    assert("cycle_window_prev"@ != "workspace_next"@) by { assert("cycle_window_prev"@.len() != "workspace_next"@.len()); }
    reveal_strlit("workspacenext");
    assert("cycle_window_prev"@ != "workspacenext"@) by { assert("cycle_window_prev"@.len() != "workspacenext"@.len()); }
    reveal_strlit("next_workspace");
    assert("cycle_window_prev"@ != "next_workspace"@) by { assert("cycle_window_prev"@.len() != "next_workspace"@.len()); }
    reveal_strlit("workspace_prev");
    assert("cycle_window_prev"@ != "workspace_prev"@) by { assert("cycle_window_prev"@.len() != "workspace_prev"@.len()); }
    reveal_strlit("workspaceprev");
    assert("cycle_window_prev"@ != "workspaceprev"@) by { assert("cycle_window_prev"@.len() != "workspaceprev"@.len()); }
    reveal_strlit("prev_workspace");
    assert("cycle_window_prev"@ != "prev_workspace"@) by { assert("cycle_window_prev"@.len() != "prev_workspace"@.len()); }
    reveal_strlit("cycle_window_next");
    assert("cycle_window_prev"@ != "cycle_window_next"@) by { assert("cycle_window_prev"@[13] != "cycle_window_next"@[13]); }
    reveal_strlit("cycle_next");
    assert("cycle_window_prev"@ != "cycle_next"@) by { assert("cycle_window_prev"@.len() != "cycle_next"@.len()); }
    reveal_strlit("cyclenext");
    assert("cycle_window_prev"@ != "cyclenext"@) by { assert("cycle_window_prev"@.len() != "cyclenext"@.len()); }
}

proof fn lemma_reads_back_move_to_workspace_next()
    ensures
        named_action("move_to_workspace_next"@) == Some(ActionView::MoveToWorkspaceNext),
        trim("move_to_workspace_next"@) == "move_to_workspace_next"@,
        ascii_lower("move_to_workspace_next"@) == "move_to_workspace_next"@,
        is_ascii_seq("move_to_workspace_next"@),
        "move_to_workspace_next"@.len() > 0,
{
    reveal_strlit("move_to_workspace_next");
    lemma_lower_of_lowercase("move_to_workspace_next"@);
    assert(trim_start("move_to_workspace_next"@) == "move_to_workspace_next"@);
    assert(trim_end("move_to_workspace_next"@) == "move_to_workspace_next"@);
    reveal_strlit("close");
    assert("move_to_workspace_next"@ != "close"@) by { assert("move_to_workspace_next"@.len() != "close"@.len()); }
    reveal_strlit("close_window");
    assert("move_to_workspace_next"@ != "close_window"@) by { assert("move_to_workspace_next"@.len() != "close_window"@.len()); }
    reveal_strlit("closewindow");
    assert("move_to_workspace_next"@ != "closewindow"@) by { assert("move_to_workspace_next"@.len() != "closewindow"@.len()); }
    reveal_strlit("killactive");
    assert("move_to_workspace_next"@ != "killactive"@) by { assert("move_to_workspace_next"@.len() != "killactive"@.len()); }
    reveal_strlit("snap_left");
    assert("move_to_workspace_next"@ != "snap_left"@) by { assert("move_to_workspace_next"@.len() != "snap_left"@.len()); }
    reveal_strlit("snapleft");
    assert("move_to_workspace_next"@ != "snapleft"@) by { assert("move_to_workspace_next"@.len() != "snapleft"@.len()); }
    reveal_strlit("left");
    assert("move_to_workspace_next"@ != "left"@) by { assert("move_to_workspace_next"@.len() != "left"@.len()); }
    reveal_strlit("snap_right");
    assert("move_to_workspace_next"@ != "snap_right"@) by { assert("move_to_workspace_next"@.len() != "snap_right"@.len()); }
    reveal_strlit("snapright");
    assert("move_to_workspace_next"@ != "snapright"@) by { assert("move_to_workspace_next"@.len() != "snapright"@.len()); }
    reveal_strlit("right");
    assert("move_to_workspace_next"@ != "right"@) by { assert("move_to_workspace_next"@.len() != "right"@.len()); }
    reveal_strlit("maximize");
    assert("move_to_workspace_next"@ != "maximize"@) by { assert("move_to_workspace_next"@.len() != "maximize"@.len()); }
    reveal_strlit("max");
    assert("move_to_workspace_next"@ != "max"@) by { assert("move_to_workspace_next"@.len() != "max"@.len()); }
    reveal_strlit("restore");
    assert("move_to_workspace_next"@ != "restore"@) by { assert("move_to_workspace_next"@.len() != "restore"@.len()); }
    reveal_strlit("float_toggle");
    assert("move_to_workspace_next"@ != "float_toggle"@) by { assert("move_to_workspace_next"@.len() != "float_toggle"@.len()); }
    reveal_strlit("togglefloating");
    assert("move_to_workspace_next"@ != "togglefloating"@) by { assert("move_to_workspace_next"@.len() != "togglefloating"@.len()); }
    reveal_strlit("toggle_float");
    assert("move_to_workspace_next"@ != "toggle_float"@) by { assert("move_to_workspace_next"@.len() != "toggle_float"@.len()); }
    reveal_strlit("float");
    assert("move_to_workspace_next"@ != "float"@) by { assert("move_to_workspace_next"@.len() != "float"@.len()); }
    reveal_strlit("fullscreen");
    assert("move_to_workspace_next"@ != "fullscreen"@) by { assert("move_to_workspace_next"@.len() != "fullscreen"@.len()); }
    reveal_strlit("workspace_next");
    assert("move_to_workspace_next"@ != "workspace_next"@) by { assert("move_to_workspace_next"@.len() != "workspace_next"@.len()); }
    reveal_strlit("workspacenext");
    assert("move_to_workspace_next"@ != "workspacenext"@) by { assert("move_to_workspace_next"@.len() != "workspacenext"@.len()); }
    reveal_strlit("next_workspace");
    assert("move_to_workspace_next"@ != "next_workspace"@) by { assert("move_to_workspace_next"@.len() != "next_workspace"@.len()); }
    reveal_strlit("workspace_prev");
    assert("move_to_workspace_next"@ != "workspace_prev"@) by { assert("move_to_workspace_next"@.len() != "workspace_prev"@.len()); }
    reveal_strlit("workspaceprev");
    assert("move_to_workspace_next"@ != "workspaceprev"@) by { assert("move_to_workspace_next"@.len() != "workspaceprev"@.len()); }
    reveal_strlit("prev_workspace");
    assert("move_to_workspace_next"@ != "prev_workspace"@) by { assert("move_to_workspace_next"@.len() != "prev_workspace"@.len()); }
    reveal_strlit("cycle_window_next");
    assert("move_to_workspace_next"@ != "cycle_window_next"@) by { assert("move_to_workspace_next"@.len() != "cycle_window_next"@.len()); }
    reveal_strlit("cycle_next");
    assert("move_to_workspace_next"@ != "cycle_next"@) by { assert("move_to_workspace_next"@.len() != "cycle_next"@.len()); }
    reveal_strlit("cyclenext");
    assert("move_to_workspace_next"@ != "cyclenext"@) by { assert("move_to_workspace_next"@.len() != "cyclenext"@.len()); }
    reveal_strlit("cycle_window_prev");
    assert("move_to_workspace_next"@ != "cycle_window_prev"@) by { assert("move_to_workspace_next"@.len() != "cycle_window_prev"@.len()); }
    reveal_strlit("cycle_prev");
    assert("move_to_workspace_next"@ != "cycle_prev"@) by { assert("move_to_workspace_next"@.len() != "cycle_prev"@.len()); }
    reveal_strlit("cycleprev");
    assert("move_to_workspace_next"@ != "cycleprev"@) by { assert("move_to_workspace_next"@.len() != "cycleprev"@.len()); }
}

proof fn lemma_reads_back_move_to_workspace_prev()
    ensures
        named_action("move_to_workspace_prev"@) == Some(ActionView::MoveToWorkspacePrev),
        trim("move_to_workspace_prev"@) == "move_to_workspace_prev"@,
        ascii_lower("move_to_workspace_prev"@) == "move_to_workspace_prev"@,
        is_ascii_seq("move_to_workspace_prev"@),
        "move_to_workspace_prev"@.len() > 0,
{
    reveal_strlit("move_to_workspace_prev");
    lemma_lower_of_lowercase("move_to_workspace_prev"@);
    assert(trim_start("move_to_workspace_prev"@) == "move_to_workspace_prev"@);
    assert(trim_end("move_to_workspace_prev"@) == "move_to_workspace_prev"@);
    reveal_strlit("close");
    assert("move_to_workspace_prev"@ != "close"@) by { assert("move_to_workspace_prev"@.len() != "close"@.len()); }
    reveal_strlit("close_window");
    assert("move_to_workspace_prev"@ != "close_window"@) by { assert("move_to_workspace_prev"@.len() != "close_window"@.len()); }
    reveal_strlit("closewindow");
    assert("move_to_workspace_prev"@ != "closewindow"@) by { assert("move_to_workspace_prev"@.len() != "closewindow"@.len()); }
    reveal_strlit("killactive");
    assert("move_to_workspace_prev"@ != "killactive"@) by { assert("move_to_workspace_prev"@.len() != "killactive"@.len()); }
    reveal_strlit("snap_left");
    assert("move_to_workspace_prev"@ != "snap_left"@) by { assert("move_to_workspace_prev"@.len() != "snap_left"@.len()); }
    reveal_strlit("snapleft");
    assert("move_to_workspace_prev"@ != "snapleft"@) by { assert("move_to_workspace_prev"@.len() != "snapleft"@.len()); }
    reveal_strlit("left");
    assert("move_to_workspace_prev"@ != "left"@) by { assert("move_to_workspace_prev"@.len() != "left"@.len()); }
    reveal_strlit("snap_right");
    assert("move_to_workspace_prev"@ != "snap_right"@) by { assert("move_to_workspace_prev"@.len() != "snap_right"@.len()); }
    reveal_strlit("snapright");
    assert("move_to_workspace_prev"@ != "snapright"@) by { assert("move_to_workspace_prev"@.len() != "snapright"@.len()); }
    reveal_strlit("right");
    assert("move_to_workspace_prev"@ != "right"@) by { assert("move_to_workspace_prev"@.len() != "right"@.len()); }
    reveal_strlit("maximize");
    assert("move_to_workspace_prev"@ != "maximize"@) by { assert("move_to_workspace_prev"@.len() != "maximize"@.len()); }
    reveal_strlit("max");
    assert("move_to_workspace_prev"@ != "max"@) by { assert("move_to_workspace_prev"@.len() != "max"@.len()); }
    reveal_strlit("restore");
    assert("move_to_workspace_prev"@ != "restore"@) by { assert("move_to_workspace_prev"@.len() != "restore"@.len()); }
    reveal_strlit("float_toggle");
    assert("move_to_workspace_prev"@ != "float_toggle"@) by { assert("move_to_workspace_prev"@.len() != "float_toggle"@.len()); }
    reveal_strlit("togglefloating");
    assert("move_to_workspace_prev"@ != "togglefloating"@) by { assert("move_to_workspace_prev"@.len() != "togglefloating"@.len()); }
    reveal_strlit("toggle_float");
    assert("move_to_workspace_prev"@ != "toggle_float"@) by { assert("move_to_workspace_prev"@.len() != "toggle_float"@.len()); }
    reveal_strlit("float");
    assert("move_to_workspace_prev"@ != "float"@) by { assert("move_to_workspace_prev"@.len() != "float"@.len()); }
    reveal_strlit("fullscreen");
    assert("move_to_workspace_prev"@ != "fullscreen"@) by { assert("move_to_workspace_prev"@.len() != "fullscreen"@.len()); }
    reveal_strlit("workspace_next");
    assert("move_to_workspace_prev"@ != "workspace_next"@) by { assert("move_to_workspace_prev"@.len() != "workspace_next"@.len()); }
    reveal_strlit("workspacenext");
    assert("move_to_workspace_prev"@ != "workspacenext"@) by { assert("move_to_workspace_prev"@.len() != "workspacenext"@.len()); }
    reveal_strlit("next_workspace");
    assert("move_to_workspace_prev"@ != "next_workspace"@) by { assert("move_to_workspace_prev"@.len() != "next_workspace"@.len()); }
    reveal_strlit("workspace_prev");
    assert("move_to_workspace_prev"@ != "workspace_prev"@) by { assert("move_to_workspace_prev"@.len() != "workspace_prev"@.len()); }
    reveal_strlit("workspaceprev");
    assert("move_to_workspace_prev"@ != "workspaceprev"@) by { assert("move_to_workspace_prev"@.len() != "workspaceprev"@.len()); }
    reveal_strlit("prev_workspace");
    assert("move_to_workspace_prev"@ != "prev_workspace"@) by { assert("move_to_workspace_prev"@.len() != "prev_workspace"@.len()); }
    reveal_strlit("cycle_window_next");
    assert("move_to_workspace_prev"@ != "cycle_window_next"@) by { assert("move_to_workspace_prev"@.len() != "cycle_window_next"@.len()); }
    reveal_strlit("cycle_next");
    assert("move_to_workspace_prev"@ != "cycle_next"@) by { assert("move_to_workspace_prev"@.len() != "cycle_next"@.len()); }
    reveal_strlit("cyclenext");
    assert("move_to_workspace_prev"@ != "cyclenext"@) by { assert("move_to_workspace_prev"@.len() != "cyclenext"@.len()); }
    reveal_strlit("cycle_window_prev");
    assert("move_to_workspace_prev"@ != "cycle_window_prev"@) by { assert("move_to_workspace_prev"@.len() != "cycle_window_prev"@.len()); }
    reveal_strlit("cycle_prev");
    assert("move_to_workspace_prev"@ != "cycle_prev"@) by { assert("move_to_workspace_prev"@.len() != "cycle_prev"@.len()); }
    reveal_strlit("cycleprev");
    assert("move_to_workspace_prev"@ != "cycleprev"@) by { assert("move_to_workspace_prev"@.len() != "cycleprev"@.len()); }
    reveal_strlit("move_to_workspace_next");
    assert("move_to_workspace_prev"@ != "move_to_workspace_next"@) by { assert("move_to_workspace_prev"@[18] != "move_to_workspace_next"@[18]); }
    reveal_strlit("move_workspace_next");
    assert("move_to_workspace_prev"@ != "move_workspace_next"@) by { assert("move_to_workspace_prev"@.len() != "move_workspace_next"@.len()); }
}

proof fn lemma_reads_back_toggle_launcher()
    ensures
        named_action("toggle_launcher"@) == Some(ActionView::ToggleLauncher(None)),
        trim("toggle_launcher"@) == "toggle_launcher"@,
        ascii_lower("toggle_launcher"@) == "toggle_launcher"@,
        is_ascii_seq("toggle_launcher"@),
        "toggle_launcher"@.len() > 0,
{
    reveal_strlit("toggle_launcher");
    lemma_lower_of_lowercase("toggle_launcher"@);
    assert(trim_start("toggle_launcher"@) == "toggle_launcher"@);
    assert(trim_end("toggle_launcher"@) == "toggle_launcher"@);
    reveal_strlit("close");
    assert("toggle_launcher"@ != "close"@) by { assert("toggle_launcher"@.len() != "close"@.len()); }
    reveal_strlit("close_window");
    assert("toggle_launcher"@ != "close_window"@) by { assert("toggle_launcher"@.len() != "close_window"@.len()); }
    reveal_strlit("closewindow");
    assert("toggle_launcher"@ != "closewindow"@) by { assert("toggle_launcher"@.len() != "closewindow"@.len()); }
    reveal_strlit("killactive");
    assert("toggle_launcher"@ != "killactive"@) by { assert("toggle_launcher"@.len() != "killactive"@.len()); }
    reveal_strlit("snap_left");
    assert("toggle_launcher"@ != "snap_left"@) by { assert("toggle_launcher"@.len() != "snap_left"@.len()); }
    reveal_strlit("snapleft");
    assert("toggle_launcher"@ != "snapleft"@) by { assert("toggle_launcher"@.len() != "snapleft"@.len()); }
    reveal_strlit("left");
    assert("toggle_launcher"@ != "left"@) by { assert("toggle_launcher"@.len() != "left"@.len()); }
    reveal_strlit("snap_right");
    assert("toggle_launcher"@ != "snap_right"@) by { assert("toggle_launcher"@.len() != "snap_right"@.len()); }
    reveal_strlit("snapright");
    assert("toggle_launcher"@ != "snapright"@) by { assert("toggle_launcher"@.len() != "snapright"@.len()); }
    reveal_strlit("right");
    assert("toggle_launcher"@ != "right"@) by { assert("toggle_launcher"@.len() != "right"@.len()); }
    reveal_strlit("maximize");
    assert("toggle_launcher"@ != "maximize"@) by { assert("toggle_launcher"@.len() != "maximize"@.len()); }
    reveal_strlit("max");
    assert("toggle_launcher"@ != "max"@) by { assert("toggle_launcher"@.len() != "max"@.len()); }
    reveal_strlit("restore");
    assert("toggle_launcher"@ != "restore"@) by { assert("toggle_launcher"@.len() != "restore"@.len()); }
    reveal_strlit("float_toggle");
    assert("toggle_launcher"@ != "float_toggle"@) by { assert("toggle_launcher"@.len() != "float_toggle"@.len()); }
    reveal_strlit("togglefloating");
    assert("toggle_launcher"@ != "togglefloating"@) by { assert("toggle_launcher"@.len() != "togglefloating"@.len()); }
    reveal_strlit("toggle_float");
    assert("toggle_launcher"@ != "toggle_float"@) by { assert("toggle_launcher"@.len() != "toggle_float"@.len()); }
    reveal_strlit("float");
    assert("toggle_launcher"@ != "float"@) by { assert("toggle_launcher"@.len() != "float"@.len()); }
    reveal_strlit("fullscreen");
    assert("toggle_launcher"@ != "fullscreen"@) by { assert("toggle_launcher"@.len() != "fullscreen"@.len()); }
    reveal_strlit("workspace_next");
    assert("toggle_launcher"@ != "workspace_next"@) by { assert("toggle_launcher"@.len() != "workspace_next"@.len()); }
    reveal_strlit("workspacenext");
    assert("toggle_launcher"@ != "workspacenext"@) by { assert("toggle_launcher"@.len() != "workspacenext"@.len()); }
    reveal_strlit("next_workspace");
    assert("toggle_launcher"@ != "next_workspace"@) by { assert("toggle_launcher"@.len() != "next_workspace"@.len()); }
    reveal_strlit("workspace_prev");
    assert("toggle_launcher"@ != "workspace_prev"@) by { assert("toggle_launcher"@.len() != "workspace_prev"@.len()); }
    reveal_strlit("workspaceprev");
    assert("toggle_launcher"@ != "workspaceprev"@) by { assert("toggle_launcher"@.len() != "workspaceprev"@.len()); }
    reveal_strlit("prev_workspace");
    assert("toggle_launcher"@ != "prev_workspace"@) by { assert("toggle_launcher"@.len() != "prev_workspace"@.len()); }
    reveal_strlit("cycle_window_next");
    assert("toggle_launcher"@ != "cycle_window_next"@) by { assert("toggle_launcher"@.len() != "cycle_window_next"@.len()); }
    reveal_strlit("cycle_next");
    assert("toggle_launcher"@ != "cycle_next"@) by { assert("toggle_launcher"@.len() != "cycle_next"@.len()); }
    reveal_strlit("cyclenext");
    assert("toggle_launcher"@ != "cyclenext"@) by { assert("toggle_launcher"@.len() != "cyclenext"@.len()); }
    reveal_strlit("cycle_window_prev");
    assert("toggle_launcher"@ != "cycle_window_prev"@) by { assert("toggle_launcher"@.len() != "cycle_window_prev"@.len()); }
    reveal_strlit("cycle_prev");
    assert("toggle_launcher"@ != "cycle_prev"@) by { assert("toggle_launcher"@.len() != "cycle_prev"@.len()); }
    reveal_strlit("cycleprev");
    assert("toggle_launcher"@ != "cycleprev"@) by { assert("toggle_launcher"@.len() != "cycleprev"@.len()); }
    reveal_strlit("move_to_workspace_next");
    assert("toggle_launcher"@ != "move_to_workspace_next"@) by { assert("toggle_launcher"@.len() != "move_to_workspace_next"@.len()); }
    reveal_strlit("move_workspace_next");
    assert("toggle_launcher"@ != "move_workspace_next"@) by { assert("toggle_launcher"@.len() != "move_workspace_next"@.len()); }
    reveal_strlit("move_to_workspace_prev");
    assert("toggle_launcher"@ != "move_to_workspace_prev"@) by { assert("toggle_launcher"@.len() != "move_to_workspace_prev"@.len()); }
    reveal_strlit("move_workspace_prev");
    assert("toggle_launcher"@ != "move_workspace_prev"@) by { assert("toggle_launcher"@.len() != "move_workspace_prev"@.len()); }
}

proof fn lemma_reads_back_toggle_special_workspace()
    ensures
        named_action("toggle_special_workspace"@) == Some(ActionView::ToggleSpecialWorkspace(None)),
        trim("toggle_special_workspace"@) == "toggle_special_workspace"@,
        ascii_lower("toggle_special_workspace"@) == "toggle_special_workspace"@,
        is_ascii_seq("toggle_special_workspace"@),
        "toggle_special_workspace"@.len() > 0,
{
    reveal_strlit("toggle_special_workspace");
    lemma_lower_of_lowercase("toggle_special_workspace"@);
    assert(trim_start("toggle_special_workspace"@) == "toggle_special_workspace"@);
    assert(trim_end("toggle_special_workspace"@) == "toggle_special_workspace"@);
    reveal_strlit("close");
    assert("toggle_special_workspace"@ != "close"@) by { assert("toggle_special_workspace"@.len() != "close"@.len()); }
    reveal_strlit("close_window");
    assert("toggle_special_workspace"@ != "close_window"@) by { assert("toggle_special_workspace"@.len() != "close_window"@.len()); }
    reveal_strlit("closewindow");
    assert("toggle_special_workspace"@ != "closewindow"@) by { assert("toggle_special_workspace"@.len() != "closewindow"@.len()); }
    reveal_strlit("killactive");
    assert("toggle_special_workspace"@ != "killactive"@) by { assert("toggle_special_workspace"@.len() != "killactive"@.len()); }
    reveal_strlit("snap_left");
    assert("toggle_special_workspace"@ != "snap_left"@) by { assert("toggle_special_workspace"@.len() != "snap_left"@.len()); }
    reveal_strlit("snapleft");
    assert("toggle_special_workspace"@ != "snapleft"@) by { assert("toggle_special_workspace"@.len() != "snapleft"@.len()); }
    reveal_strlit("left");
    assert("toggle_special_workspace"@ != "left"@) by { assert("toggle_special_workspace"@.len() != "left"@.len()); }
    reveal_strlit("snap_right");
    assert("toggle_special_workspace"@ != "snap_right"@) by { assert("toggle_special_workspace"@.len() != "snap_right"@.len()); }
    reveal_strlit("snapright");
    assert("toggle_special_workspace"@ != "snapright"@) by { assert("toggle_special_workspace"@.len() != "snapright"@.len()); }
    reveal_strlit("right");
    assert("toggle_special_workspace"@ != "right"@) by { assert("toggle_special_workspace"@.len() != "right"@.len()); }
    reveal_strlit("maximize");
    assert("toggle_special_workspace"@ != "maximize"@) by { assert("toggle_special_workspace"@.len() != "maximize"@.len()); }
    reveal_strlit("max");
    assert("toggle_special_workspace"@ != "max"@) by { assert("toggle_special_workspace"@.len() != "max"@.len()); }
    reveal_strlit("restore");
    assert("toggle_special_workspace"@ != "restore"@) by { assert("toggle_special_workspace"@.len() != "restore"@.len()); }
    reveal_strlit("float_toggle");
    assert("toggle_special_workspace"@ != "float_toggle"@) by { assert("toggle_special_workspace"@.len() != "float_toggle"@.len()); }
    reveal_strlit("togglefloating");
    assert("toggle_special_workspace"@ != "togglefloating"@) by { assert("toggle_special_workspace"@.len() != "togglefloating"@.len()); }
    reveal_strlit("toggle_float");
    assert("toggle_special_workspace"@ != "toggle_float"@) by { assert("toggle_special_workspace"@.len() != "toggle_float"@.len()); }
    reveal_strlit("float");
    assert("toggle_special_workspace"@ != "float"@) by { assert("toggle_special_workspace"@.len() != "float"@.len()); }
    reveal_strlit("fullscreen");
    assert("toggle_special_workspace"@ != "fullscreen"@) by { assert("toggle_special_workspace"@.len() != "fullscreen"@.len()); }
    reveal_strlit("workspace_next");
    assert("toggle_special_workspace"@ != "workspace_next"@) by { assert("toggle_special_workspace"@.len() != "workspace_next"@.len()); }
    reveal_strlit("workspacenext");
    assert("toggle_special_workspace"@ != "workspacenext"@) by { assert("toggle_special_workspace"@.len() != "workspacenext"@.len()); }
    reveal_strlit("next_workspace");
    assert("toggle_special_workspace"@ != "next_workspace"@) by { assert("toggle_special_workspace"@.len() != "next_workspace"@.len()); }
    reveal_strlit("workspace_prev");
    assert("toggle_special_workspace"@ != "workspace_prev"@) by { assert("toggle_special_workspace"@.len() != "workspace_prev"@.len()); }
    reveal_strlit("workspaceprev");
    assert("toggle_special_workspace"@ != "workspaceprev"@) by { assert("toggle_special_workspace"@.len() != "workspaceprev"@.len()); }
    reveal_strlit("prev_workspace");
    assert("toggle_special_workspace"@ != "prev_workspace"@) by { assert("toggle_special_workspace"@.len() != "prev_workspace"@.len()); }
    reveal_strlit("cycle_window_next");
    assert("toggle_special_workspace"@ != "cycle_window_next"@) by { assert("toggle_special_workspace"@.len() != "cycle_window_next"@.len()); }
    reveal_strlit("cycle_next");
    assert("toggle_special_workspace"@ != "cycle_next"@) by { assert("toggle_special_workspace"@.len() != "cycle_next"@.len()); }
    reveal_strlit("cyclenext");
    assert("toggle_special_workspace"@ != "cyclenext"@) by { assert("toggle_special_workspace"@.len() != "cyclenext"@.len()); }
    reveal_strlit("cycle_window_prev");
    assert("toggle_special_workspace"@ != "cycle_window_prev"@) by { assert("toggle_special_workspace"@.len() != "cycle_window_prev"@.len()); }
    reveal_strlit("cycle_prev");
    assert("toggle_special_workspace"@ != "cycle_prev"@) by { assert("toggle_special_workspace"@.len() != "cycle_prev"@.len()); }
    reveal_strlit("cycleprev");
    assert("toggle_special_workspace"@ != "cycleprev"@) by { assert("toggle_special_workspace"@.len() != "cycleprev"@.len()); }
    reveal_strlit("move_to_workspace_next");
    assert("toggle_special_workspace"@ != "move_to_workspace_next"@) by { assert("toggle_special_workspace"@.len() != "move_to_workspace_next"@.len()); }
    reveal_strlit("move_workspace_next");
    assert("toggle_special_workspace"@ != "move_workspace_next"@) by { assert("toggle_special_workspace"@.len() != "move_workspace_next"@.len()); }
    reveal_strlit("move_to_workspace_prev");
    assert("toggle_special_workspace"@ != "move_to_workspace_prev"@) by { assert("toggle_special_workspace"@.len() != "move_to_workspace_prev"@.len()); }
    reveal_strlit("move_workspace_prev");
    assert("toggle_special_workspace"@ != "move_workspace_prev"@) by { assert("toggle_special_workspace"@.len() != "move_workspace_prev"@.len()); }
    reveal_strlit("launcher");
    assert("toggle_special_workspace"@ != "launcher"@) by { assert("toggle_special_workspace"@.len() != "launcher"@.len()); }
    reveal_strlit("toggle_launcher");
    assert("toggle_special_workspace"@ != "toggle_launcher"@) by { assert("toggle_special_workspace"@.len() != "toggle_launcher"@.len()); }
}

/// The keyword an action is shown as names that action again: reading back
/// the displayed text of any argument-free action gives the same action.
pub proof fn law_keyword_display_reads_back(a: ActionView)
    requires
        is_keyword_action(a),
    ensures
        named_action(action_display(a)) == Some(a),
{
    match a {
        ActionView::CloseWindow => lemma_reads_back_close_window(),
        ActionView::SnapLeft => lemma_reads_back_snap_left(),
        ActionView::SnapRight => lemma_reads_back_snap_right(),
        ActionView::Maximize => lemma_reads_back_maximize(),
        ActionView::Restore => lemma_reads_back_restore(),
        ActionView::FloatToggle => lemma_reads_back_float_toggle(),
        ActionView::Fullscreen => lemma_reads_back_fullscreen(),
        ActionView::WorkspaceNext => lemma_reads_back_workspace_next(),
        ActionView::WorkspacePrev => lemma_reads_back_workspace_prev(),
        ActionView::CycleWindowNext => lemma_reads_back_cycle_window_next(),
        ActionView::CycleWindowPrev => lemma_reads_back_cycle_window_prev(),
        ActionView::MoveToWorkspaceNext => lemma_reads_back_move_to_workspace_next(),
        ActionView::MoveToWorkspacePrev => lemma_reads_back_move_to_workspace_prev(),
        ActionView::ToggleLauncher(_) => lemma_reads_back_toggle_launcher(),
        ActionView::ToggleSpecialWorkspace(_) => lemma_reads_back_toggle_special_workspace(),
        _ => {},
    }
}

/// Parsing the displayed text of any argument-free action gives that action
/// back: the text is plain ASCII with no surrounding space, and what it
/// denotes (lower-cased as `Action::parse` lower-cases ASCII text) is the
/// action itself.
pub proof fn law_keyword_display_parses_back(a: ActionView)
    requires
        is_keyword_action(a),
    ensures
        is_ascii_seq(trim(action_display(a))),
        action_text_denotes(action_display(a), ascii_lower(trim(action_display(a)))) == Ok::<
            ActionView,
            Seq<char>,
        >(a),
{
    law_keyword_display_reads_back(a);
    match a {
        ActionView::CloseWindow => lemma_reads_back_close_window(),
        ActionView::SnapLeft => lemma_reads_back_snap_left(),
        ActionView::SnapRight => lemma_reads_back_snap_right(),
        ActionView::Maximize => lemma_reads_back_maximize(),
        ActionView::Restore => lemma_reads_back_restore(),
        ActionView::FloatToggle => lemma_reads_back_float_toggle(),
        ActionView::Fullscreen => lemma_reads_back_fullscreen(),
        ActionView::WorkspaceNext => lemma_reads_back_workspace_next(),
        ActionView::WorkspacePrev => lemma_reads_back_workspace_prev(),
        ActionView::CycleWindowNext => lemma_reads_back_cycle_window_next(),
        ActionView::CycleWindowPrev => lemma_reads_back_cycle_window_prev(),
        ActionView::MoveToWorkspaceNext => lemma_reads_back_move_to_workspace_next(),
        ActionView::MoveToWorkspacePrev => lemma_reads_back_move_to_workspace_prev(),
        ActionView::ToggleLauncher(_) => lemma_reads_back_toggle_launcher(),
        ActionView::ToggleSpecialWorkspace(_) => lemma_reads_back_toggle_special_workspace(),
        _ => {},
    }
}

} // verus!
