//! The compositor's vocabulary: Lua dispatcher expressions, raw binding
//! records, event lines and the command texts sent over its socket.
use vstd::prelude::*;

use crate::text::{
    chars_of, concat, concat3, decimal, decimal_int, has_prefix, owned, push_char,
    push_decimal_i64, push_str, string_of, string_of_range, str_eq,
};

verus! {

// ---------------------------------------------------------------------------
// Directions and workspace targets
// ---------------------------------------------------------------------------

/// Direction for focus or window movement.
#[derive(Debug, Clone, Copy, PartialEq, Eq, Hash, Structural)]
pub enum Direction {
    Left,
    Right,
    Up,
    Down,
}

pub open spec fn direction_code(d: Direction) -> Seq<char> {
    match d {
        Direction::Left => "l"@,
        Direction::Right => "r"@,
        Direction::Up => "u"@,
        Direction::Down => "d"@,
    }
}

impl Direction {
    /// The compositor's direction code (`l`, `r`, `u`, `d`).
    pub fn as_str(&self) -> (r: &'static str)
        ensures
            r@ == direction_code(*self),
    {
        match self {
            Direction::Left => "l",
            Direction::Right => "r",
            Direction::Up => "u",
            Direction::Down => "d",
        }
    }
}

/// Target workspace: numeric id, name, relative offset or the previous one.
#[derive(Debug, Clone, PartialEq, Eq, Hash)]
pub enum WorkspaceTarget {
    Id(i32),
    Name(String),
    Relative(i32),
    Previous,
}

/// The body of a double-quoted Lua string: `"`, `\`, newline, carriage
/// return, tab and NUL are backslash-escaped.
pub open spec fn lua_escape_body(s: Seq<char>) -> Seq<char>
    decreases s.len(),
{
    if s.len() == 0 {
        seq![]
    } else {
        let c = s.last();
        lua_escape_body(s.drop_last()) + if c == '"' {
            seq!['\\', '"']
        } else if c == '\\' {
            seq!['\\', '\\']
        } else if c == '\n' {
            seq!['\\', 'n']
        } else if c == '\r' {
            seq!['\\', 'r']
        } else if c == '\t' {
            seq!['\\', 't']
        } else if c == '\0' {
            seq!['\\', '0']
        } else {
            seq![c]
        }
    }
}

/// `s` as a double-quoted Lua string literal.
pub open spec fn lua_string(s: Seq<char>) -> Seq<char> {
    seq!['"'] + lua_escape_body(s) + seq!['"']
}

/// Escapes `s` as a double-quoted Lua string literal.
pub fn escape_lua_string(s: &str) -> (r: String)
    ensures
        r@ == lua_string(s@),
{
    let chars = chars_of(s);
    let mut out = String::new();
    push_char(&mut out, '"');
    let mut i: usize = 0;
    while i < chars.len()
        invariant
            i <= chars@.len(),
            out@ == seq!['"'] + lua_escape_body(chars@.take(i as int)),
        decreases chars@.len() - i,
    {
        let c = chars[i];
        assert(chars@.take((i + 1) as int).drop_last() =~= chars@.take(i as int));
        assert(chars@.take((i + 1) as int).last() == c);
        let ghost before = out@;
        if c == '"' {
            push_char(&mut out, '\\');
            push_char(&mut out, '"');
        } else if c == '\\' {
            push_char(&mut out, '\\');
            push_char(&mut out, '\\');
        } else if c == '\n' {
            push_char(&mut out, '\\');
            push_char(&mut out, 'n');
        } else if c == '\r' {
            push_char(&mut out, '\\');
            push_char(&mut out, 'r');
        } else if c == '\t' {
            push_char(&mut out, '\\');
            push_char(&mut out, 't');
        } else if c == '\0' {
            push_char(&mut out, '\\');
            push_char(&mut out, '0');
        } else {
            push_char(&mut out, c);
        }
        assert(out@ =~= seq!['"'] + lua_escape_body(chars@.take((i + 1) as int)));
        i = i + 1;
    }
    push_char(&mut out, '"');
    assert(chars@.take(chars@.len() as int) =~= s@);
    out
}

pub open spec fn workspace_arg(t: WorkspaceTarget) -> Seq<char> {
    match t {
        WorkspaceTarget::Id(id) => decimal_int(id as int),
        WorkspaceTarget::Name(name) => lua_string(name@),
        WorkspaceTarget::Relative(offset) => if offset >= 0 {
            "\"m+"@ + decimal_int(offset as int) + "\""@
        } else {
            "\"m"@ + decimal_int(offset as int) + "\""@
        },
        WorkspaceTarget::Previous => "\"previous\""@,
    }
}

/// The value `s.parse::<i32>()` gives: an optional `+` or `-` sign followed
/// by at least one decimal digit, within the `i32` range.
pub open spec fn parse_i32(s: Seq<char>) -> Option<i32> {
    let (neg, digits) = if s.len() > 0 && s[0] == '-' {
        (true, s.drop_first())
    } else if s.len() > 0 && s[0] == '+' {
        (false, s.drop_first())
    } else {
        (false, s)
    };
    if digits.len() == 0 || !all_digits(digits) {
        None
    } else {
        let v = if neg {
            -digits_value(digits)
        } else {
            digits_value(digits)
        };
        if i32::MIN <= v <= i32::MAX {
            Some(v as i32)
        } else {
            None
        }
    }
}

pub open spec fn all_digits(s: Seq<char>) -> bool {
    forall|i: int| 0 <= i < s.len() ==> '0' <= #[trigger] s[i] <= '9'
}

/// The number a string of decimal digits denotes.
pub open spec fn digits_value(s: Seq<char>) -> int
    decreases s.len(),
{
    if s.len() == 0 {
        0
    } else {
        digits_value(s.drop_last()) * 10 + (s.last() as int - '0' as int)
    }
}

/// `s.parse::<i32>()`.
pub fn parse_i32_text(s: &str) -> (r: Option<i32>)
    ensures
        r == parse_i32(s@),
{
    let chars = chars_of(s);
    let mut start: usize = 0;
    let mut neg = false;
    if chars.len() > 0 && chars[0] == '-' {
        neg = true;
        start = 1;
    } else if chars.len() > 0 && chars[0] == '+' {
        start = 1;
    }
    let ghost digits = chars@.skip(start as int);
    proof {
        if start == 1 {
            assert(digits =~= chars@.drop_first());
        } else {
            assert(digits =~= chars@);
        }
    }
    if start == chars.len() {
        return None;
    }
    let mut v: i64 = 0;
    let mut i: usize = start;
    while i < chars.len()
        invariant
            start <= i <= chars@.len(),
            chars@ == s@,
            neg == (s@.len() > 0 && s@[0] == '-'),
            start == (if s@.len() > 0 && (s@[0] == '-' || s@[0] == '+') { 1usize } else { 0usize }),
            start < chars@.len(),
            digits == chars@.skip(start as int),
            digits == (if s@.len() > 0 && (s@[0] == '-' || s@[0] == '+') { s@.drop_first() } else { s@ }),
            all_digits(chars@.subrange(start as int, i as int)),
            v == digits_value(chars@.subrange(start as int, i as int)),
            0 <= v <= 0x8000_0000,
        decreases chars@.len() - i,
    {
        let c = chars[i];
        if c < '0' || c > '9' {
            proof {
                assert(digits[i - start] == c);
                assert(!('0' <= digits[i - start] <= '9'));
            }
            return None;
        }
        let d = (c as u32 - '0' as u32) as i64;
        let nv = v * 10 + d;
        proof {
            let pre = chars@.subrange(start as int, (i + 1) as int);
            assert(pre.drop_last() =~= chars@.subrange(start as int, i as int));
            assert(pre.last() == c);
        }
        if nv > 0x8000_0000 {
            proof {
                lemma_digits_value_grows(digits, (i + 1 - start) as int);
                assert(digits.take((i + 1 - start) as int) =~= chars@.subrange(start as int, (i + 1) as int));
                if all_digits(digits) {
                    assert(digits_value(digits) > 0x8000_0000);
                }
            }
            return None;
        }
        v = nv;
        i = i + 1;
    }
    assert(chars@.subrange(start as int, chars@.len() as int) =~= digits);
    if neg {
        Some((0 - v) as i32)
    } else if v <= 0x7fff_ffff {
        Some(v as i32)
    } else {
        None
    }
}

/// A digit string's value is at least that of each of its prefixes.
proof fn lemma_digits_value_grows(s: Seq<char>, k: int)
    requires
        0 <= k <= s.len(),
    ensures
        all_digits(s) ==> digits_value(s) >= digits_value(s.take(k)),
    decreases s.len(),
{
    if all_digits(s) && k < s.len() {
        assert(s.drop_last().take(k) =~= s.take(k));
        assert forall|i: int| 0 <= i < s.drop_last().len() implies '0' <= #[trigger] s.drop_last()[i] <= '9' by {
            assert(s.drop_last()[i] == s[i]);
        }
        lemma_digits_value_grows(s.drop_last(), k);
        lemma_digits_value_nonneg(s.drop_last());
        assert('0' <= s[s.len() - 1] <= '9');
    } else if k == s.len() {
        assert(s.take(k) =~= s);
    }
}

proof fn lemma_digits_value_nonneg(s: Seq<char>)
    requires
        all_digits(s),
    ensures
        digits_value(s) >= 0,
    decreases s.len(),
{
    if s.len() > 0 {
        assert forall|i: int| 0 <= i < s.drop_last().len() implies '0' <= #[trigger] s.drop_last()[i] <= '9' by {
            assert(s.drop_last()[i] == s[i]);
        }
        lemma_digits_value_nonneg(s.drop_last());
        assert('0' <= s[s.len() - 1] <= '9');
    }
}

impl WorkspaceTarget {
    /// The target as a Lua value: a number, a quoted name, `"m+N"`/`"m-N"`
    /// or `"previous"`.
    pub fn to_lua_arg(&self) -> (r: String)
        ensures
            r@ == workspace_arg(*self),
    {
        match self {
            WorkspaceTarget::Id(id) => {
                let mut s = String::new();
                push_decimal_i64(&mut s, *id as i64);
                assert(s@ =~= decimal_int(*id as int));
                s
            },
            WorkspaceTarget::Name(name) => escape_lua_string(name.as_str()),
            WorkspaceTarget::Relative(offset) => {
                let mut s = if *offset >= 0 {
                    owned("\"m+")
                } else {
                    owned("\"m")
                };
                push_decimal_i64(&mut s, *offset as i64);
                push_str(&mut s, "\"");
                s
            },
            WorkspaceTarget::Previous => owned("\"previous\""),
        }
    }

    /// A workspace named by text: a number when it parses as one, else a
    /// name.
    pub fn from_text(s: &str) -> (r: WorkspaceTarget)
        ensures
            match parse_i32(s@) {
                Some(id) => r == WorkspaceTarget::Id(id),
                None => r matches WorkspaceTarget::Name(n) && n@ == s@,
            },
    {
        match parse_i32_text(s) {
            Some(id) => WorkspaceTarget::Id(id),
            None => WorkspaceTarget::Name(owned(s)),
        }
    }
}

impl From<i32> for WorkspaceTarget {
    fn from(id: i32) -> (r: WorkspaceTarget) {
        WorkspaceTarget::Id(id)
    }
}

impl vstd::std_specs::convert::FromSpecImpl<i32> for WorkspaceTarget {
    open spec fn obeys_from_spec() -> bool {
        true
    }

    open spec fn from_spec(id: i32) -> WorkspaceTarget {
        WorkspaceTarget::Id(id)
    }
}

// ---------------------------------------------------------------------------
// Dispatcher expressions
// ---------------------------------------------------------------------------

/// Actions the compositor can bind to key combinations.
#[derive(Debug, Clone, PartialEq, Eq, Hash)]
pub enum HyprAction {
    CloseWindow,
    ToggleFullscreen(Option<i32>),
    ToggleFloating,
    Focus(Direction),
    MoveWindow(Direction),
    Workspace(WorkspaceTarget),
    MoveToWorkspace(WorkspaceTarget),
    Exec(String),
    CustomLua(String),
}

/// The Lua dispatcher expression of an action.
pub open spec fn lua_expr(a: HyprAction) -> Seq<char> {
    match a {
        HyprAction::CloseWindow => "hl.dsp.window.close()"@,
        HyprAction::ToggleFullscreen(None) => "hl.dsp.window.fullscreen()"@,
        HyprAction::ToggleFullscreen(Some(mode)) => "hl.dsp.window.fullscreen({ mode = "@
            + decimal_int(mode as int) + " })"@,
        HyprAction::ToggleFloating => "hl.dsp.window.float({ action = \"toggle\" })"@,
        HyprAction::Focus(d) => "hl.dsp.focus({ direction = \""@ + direction_code(d) + "\" })"@,
        HyprAction::MoveWindow(d) => "hl.dsp.window.move({ direction = \""@ + direction_code(d)
            + "\" })"@,
        HyprAction::Workspace(t) => "hl.dsp.focus({ workspace = "@ + workspace_arg(t) + " })"@,
        HyprAction::MoveToWorkspace(t) => "hl.dsp.window.move({ workspace = "@ + workspace_arg(t)
            + " })"@,
        HyprAction::Exec(cmd) => "hl.dsp.exec_cmd("@ + lua_string(cmd@) + ")"@,
        HyprAction::CustomLua(code) => code@,
    }
}

impl HyprAction {
    /// The Lua dispatcher expression of this action.
    pub fn to_lua_expr(&self) -> (r: String)
        ensures
            r@ == lua_expr(*self),
    {
        match self {
            HyprAction::CloseWindow => owned("hl.dsp.window.close()"),
            HyprAction::ToggleFullscreen(None) => owned("hl.dsp.window.fullscreen()"),
            HyprAction::ToggleFullscreen(Some(mode)) => {
                let mut s = owned("hl.dsp.window.fullscreen({ mode = ");
                push_decimal_i64(&mut s, *mode as i64);
                push_str(&mut s, " })");
                s
            },
            HyprAction::ToggleFloating => owned("hl.dsp.window.float({ action = \"toggle\" })"),
            HyprAction::Focus(d) => concat3("hl.dsp.focus({ direction = \"", d.as_str(), "\" })"),
            HyprAction::MoveWindow(d) => concat3(
                "hl.dsp.window.move({ direction = \"",
                d.as_str(),
                "\" })",
            ),
            HyprAction::Workspace(t) => {
                let a = t.to_lua_arg();
                concat3("hl.dsp.focus({ workspace = ", a.as_str(), " })")
            },
            HyprAction::MoveToWorkspace(t) => {
                let a = t.to_lua_arg();
                concat3("hl.dsp.window.move({ workspace = ", a.as_str(), " })")
            },
            HyprAction::Exec(cmd) => {
                let q = escape_lua_string(cmd.as_str());
                concat3("hl.dsp.exec_cmd(", q.as_str(), ")")
            },
            HyprAction::CustomLua(code) => code.clone(),
        }
    }
}

// ---------------------------------------------------------------------------
// Binding records
// ---------------------------------------------------------------------------

/// A binding as the compositor reports it.
#[derive(Debug, Clone, PartialEq, Eq)]
pub struct HyprBind {
    pub locked: bool,
    pub mouse: bool,
    pub release: bool,
    pub repeat: bool,
    pub long_press: bool,
    pub non_consuming: bool,
    pub auto_consuming: bool,
    pub has_description: bool,
    pub modmask: u32,
    pub submap: String,
    pub submap_universal: String,
    pub key: String,
    pub keycode: i32,
    pub catch_all: bool,
    pub description: String,
    pub allow_input_capture: bool,
    pub dispatcher: String,
    pub arg: String,
}

/// Names of the modifiers in a modifier mask (SUPER = 64, CTRL = 4,
/// ALT = 8, SHIFT = 1), in the given order.
pub open spec fn mask_names(m: u32, order_alpha: bool) -> Seq<Seq<char>> {
    if order_alpha {
        (if m & 8 != 0 { seq!["ALT"@] } else { seq![] }) + (if m & 4 != 0 { seq!["CTRL"@] } else { seq![] })
            + (if m & 1 != 0 { seq!["SHIFT"@] } else { seq![] }) + (if m & 64 != 0 { seq!["SUPER"@] } else { seq![] })
    } else {
        (if m & 64 != 0 { seq!["SUPER"@] } else { seq![] }) + (if m & 4 != 0 { seq!["CTRL"@] } else { seq![] })
            + (if m & 8 != 0 { seq!["ALT"@] } else { seq![] }) + (if m & 1 != 0 { seq!["SHIFT"@] } else { seq![] })
    }
}

pub open spec fn str_views(s: Seq<&'static str>) -> Seq<Seq<char>> {
    s.map_values(|x: &'static str| x@)
}

impl HyprBind {
    /// The modifier names of the mask, in alphabetical order.
    pub fn modifiers(&self) -> (r: Vec<&'static str>)
        ensures
            str_views(r@) == mask_names(self.modmask, true),
    {
        let mut mods: Vec<&'static str> = Vec::new();
        if self.modmask & 8 != 0 {
            mods.push("ALT");
        }
        if self.modmask & 4 != 0 {
            mods.push("CTRL");
        }
        if self.modmask & 1 != 0 {
            mods.push("SHIFT");
        }
        if self.modmask & 64 != 0 {
            mods.push("SUPER");
        }
        assert(str_views(mods@) =~= mask_names(self.modmask, true));
        mods
    }

    /// `SUPER + CTRL + ALT + SHIFT + KEY` style text (modifiers present in
    /// the mask, in that order), when a key name is present.
    pub fn formatted_combo(&self) -> (r: Option<String>)
        ensures
            self.key@.len() == 0 ==> r is None,
            self.key@.len() != 0 ==> (r matches Some(s) && s@ == crate::text::join(
                mask_names(self.modmask, false).push(self.key@),
                " + "@,
            )),
    {
        let kc = chars_of(self.key.as_str());
        if kc.len() == 0 {
            return None;
        }
        let mut parts: Vec<String> = Vec::new();
        if self.modmask & 64 != 0 {
            parts.push(owned("SUPER"));
        }
        if self.modmask & 4 != 0 {
            parts.push(owned("CTRL"));
        }
        if self.modmask & 8 != 0 {
            parts.push(owned("ALT"));
        }
        if self.modmask & 1 != 0 {
            parts.push(owned("SHIFT"));
        }
        parts.push(self.key.clone());
        assert(crate::text::string_views(parts@) =~= mask_names(self.modmask, false).push(self.key@));
        Some(crate::text::join_strings(&parts, " + "))
    }
}

/// A binding to install: key text, action and optional description.
#[derive(Debug, Clone, PartialEq, Eq)]
pub struct HyprKeyBinding {
    pub keys: String,
    pub action: HyprAction,
    pub description: Option<String>,
}

impl HyprKeyBinding {
    pub fn new(keys: &str, action: HyprAction) -> (r: HyprKeyBinding)
        ensures
            r.keys@ == keys@,
            r.action == action,
            r.description is None,
    {
        HyprKeyBinding { keys: owned(keys), action, description: None }
    }

    pub fn with_description(self, desc: &str) -> (r: HyprKeyBinding)
        ensures
            r.keys == self.keys,
            r.action == self.action,
            r.description matches Some(d) && d@ == desc@,
    {
        let mut b = self;
        b.description = Some(owned(desc));
        b
    }
}

// ---------------------------------------------------------------------------
// Command texts
// ---------------------------------------------------------------------------

/// `hl.bind(KEYS, ACTION, OPTS)` with the description in `OPTS`.
pub open spec fn bind_lua(keys: Seq<char>, action: HyprAction, description: Option<Seq<char>>) -> Seq<char> {
    "hl.bind("@ + lua_string(keys) + ", "@ + lua_expr(action) + ", "@ + match description {
        Some(d) => "{ desc = "@ + lua_string(d) + " }"@,
        None => "{}"@,
    } + ")"@
}

pub open spec fn unbind_lua(keys: Seq<char>) -> Seq<char> {
    "hl.unbind("@ + lua_string(keys) + ")"@
}

pub open spec fn opt_str_view(o: Option<&str>) -> Option<Seq<char>> {
    match o {
        Some(s) => Some(s@),
        None => None,
    }
}

/// Client of the compositor's control socket, at a path.
#[derive(Debug, Clone)]
pub struct HyprlandClient {
    socket_path: String,
}

impl HyprlandClient {
    /// The control socket's path.
    pub closed spec fn path(&self) -> Seq<char> {
        self.socket_path@
    }

    pub fn new(socket_path: &str) -> (r: HyprlandClient)
        ensures
            r.path() == socket_path@,
    {
        HyprlandClient { socket_path: owned(socket_path) }
    }

    pub fn socket_path(&self) -> (r: &str)
        ensures
            r@ == self.path(),
    {
        self.socket_path.as_str()
    }

    /// A client of the event socket at `socket_path`.
    pub fn new_event_client(socket_path: &str) -> (r: HyprlandClient)
        ensures
            r.path() == socket_path@,
    {
        HyprlandClient::new(socket_path)
    }

    /// The event socket beside the control socket: the control socket's
    /// directory (the text before its last `/`) joined with `.socket2.sock`.
    pub fn socket2_path(&self) -> (r: String)
        ensures
            r@ == match crate::text::find_last_char(self.path(), '/') {
                Some(i) => self.path().take(i) + "/.socket2.sock"@,
                None => ".socket2.sock"@,
            },
    {
        let chars = chars_of(self.socket_path.as_str());
        match crate::text::rfind_char(&chars, '/') {
            Some(i) => {
                let mut s = string_of_range(&chars, 0, i);
                push_str(&mut s, "/.socket2.sock");
                s
            },
            None => owned(".socket2.sock"),
        }
    }

    /// Lua code for one `hl.bind` call.
    pub fn format_bind_lua(keys: &str, action: &HyprAction, description: Option<&str>) -> (r: String)
        ensures
            r@ == bind_lua(keys@, *action, opt_str_view(description)),
    {
        let escaped_keys = escape_lua_string(keys);
        let action_expr = action.to_lua_expr();
        let opts = match description {
            Some(desc) => {
                let d = escape_lua_string(desc);
                concat3("{ desc = ", d.as_str(), " }")
            },
            None => owned("{}"),
        };
        let mut s = concat3("hl.bind(", escaped_keys.as_str(), ", ");
        push_str(&mut s, action_expr.as_str());
        push_str(&mut s, ", ");
        push_str(&mut s, opts.as_str());
        push_str(&mut s, ")");
        s
    }

    /// Lua code for one `hl.unbind` call.
    pub fn format_unbind_lua(keys: &str) -> (r: String)
        ensures
            r@ == unbind_lua(keys@),
    {
        let escaped_keys = escape_lua_string(keys);
        concat3("hl.unbind(", escaped_keys.as_str(), ")")
    }
}

pub open spec fn unbind_op(k: String) -> Seq<char> {
    "eval "@ + unbind_lua(k@)
}

pub open spec fn bind_op(b: HyprKeyBinding) -> Seq<char> {
    "eval "@ + bind_lua(b.keys@, b.action, crate::binding::opt_view(b.description))
}

/// The operations of a batch: each unbind, then each bind, as `eval` lines.
pub open spec fn batch_ops(unbinds: Seq<String>, binds: Seq<HyprKeyBinding>) -> Seq<Seq<char>> {
    unbinds.map_values(|k: String| unbind_op(k)) + binds.map_values(|b: HyprKeyBinding| bind_op(b))
}

/// The single batch command applying all unbinds then all binds, or none
/// when there is nothing to do.
pub fn batch_command(unbinds: &Vec<String>, binds: &Vec<HyprKeyBinding>) -> (r: Option<String>)
    ensures
        unbinds@.len() == 0 && binds@.len() == 0 ==> r is None,
        !(unbinds@.len() == 0 && binds@.len() == 0) ==> (r matches Some(c) && c@ == "[[BATCH]]"@
            + crate::text::join(batch_ops(unbinds@, binds@), "; "@)),
{
    if unbinds.len() == 0 && binds.len() == 0 {
        return None;
    }
    let mut ops: Vec<String> = Vec::new();
    let mut i: usize = 0;
    while i < unbinds.len()
        invariant
            i <= unbinds@.len(),
            crate::text::string_views(ops@) == batch_ops(unbinds@.take(i as int), Seq::empty()),
        decreases unbinds@.len() - i,
    {
        let u = HyprlandClient::format_unbind_lua(unbinds[i].as_str());
        let ghost before = crate::text::string_views(ops@);
        ops.push(concat("eval ", u.as_str()));
        proof {
            let v = crate::text::string_views(ops@);
            let w = batch_ops(unbinds@.take((i + 1) as int), Seq::empty());
            assert(v.len() == w.len());
            assert forall|j: int| 0 <= j < v.len() implies v[j] == w[j] by {
                if j < i {
                    assert(v[j] == before[j]);
                }
            }
            assert(v =~= w);
        }
        i = i + 1;
    }
    assert(unbinds@.take(unbinds@.len() as int) =~= unbinds@);
    let mut k: usize = 0;
    while k < binds.len()
        invariant
            k <= binds@.len(),
            crate::text::string_views(ops@) == batch_ops(unbinds@, binds@.take(k as int)),
        decreases binds@.len() - k,
    {
        let b = &binds[k];
        let desc: Option<&str> = match &b.description {
            Some(d) => Some(d.as_str()),
            None => None,
        };
        let line = HyprlandClient::format_bind_lua(b.keys.as_str(), &b.action, desc);
        let ghost before = crate::text::string_views(ops@);
        ops.push(concat("eval ", line.as_str()));
        proof {
            assert(opt_str_view(desc) == crate::binding::opt_view(b.description));
            let v = crate::text::string_views(ops@);
            let w = batch_ops(unbinds@, binds@.take((k + 1) as int));
            assert(binds@.take(k as int).len() == k);
            assert(binds@.take((k + 1) as int).len() == k + 1);
            assert(before.len() == unbinds@.len() + k);
            assert(w.len() == unbinds@.len() + k + 1);
            assert(v.len() == w.len());
            assert forall|j: int| 0 <= j < v.len() implies v[j] == w[j] by {
                if j < v.len() - 1 {
                    assert(v[j] == before[j]);
                }
            }
            assert(v =~= w);
        }
        k = k + 1;
    }
    assert(binds@.take(binds@.len() as int) =~= binds@);
    let joined = crate::text::join_strings(&ops, "; ");
    Some(concat("[[BATCH]]", joined.as_str()))
}

/// The error a command reply reports: the text after a leading `error:`,
/// trimmed.
pub open spec fn reply_error(reply: Seq<char>) -> Option<Seq<char>> {
    if has_prefix(reply, "error:"@) {
        Some(crate::text::trim(reply.skip(6)))
    } else {
        None
    }
}

/// The error of a command reply, if it reports one.
pub fn reply_error_text(reply: &str) -> (r: Option<String>)
    ensures
        match reply_error(reply@) {
            Some(e) => r matches Some(x) && x@ == e,
            None => r is None,
        },
{
    let chars = chars_of(reply);
    proof {
        reveal_strlit("error:");
    }
    if crate::text::chars_start_with(&chars, "error:") {
        let rest = crate::text::slice_chars(&chars, 6, chars.len());
        assert(rest@ =~= reply@.skip(6));
        let t = crate::text::trim_chars(&rest);
        Some(string_of(&t))
    } else {
        None
    }
}

/// The error an `eval` reply reports: the text after a leading `error: `,
/// trimmed.
pub open spec fn eval_error(reply: Seq<char>) -> Option<Seq<char>> {
    if has_prefix(reply, "error: "@) {
        Some(crate::text::trim(reply.skip(7)))
    } else {
        None
    }
}

/// The error of an `eval` reply, if it reports one.
pub fn eval_error_text(reply: &str) -> (r: Option<String>)
    ensures
        match eval_error(reply@) {
            Some(e) => r matches Some(x) && x@ == e,
            None => r is None,
        },
{
    let chars = chars_of(reply);
    proof {
        reveal_strlit("error: ");
    }
    if crate::text::chars_start_with(&chars, "error: ") {
        let rest = crate::text::slice_chars(&chars, 7, chars.len());
        assert(rest@ =~= reply@.skip(7));
        let t = crate::text::trim_chars(&rest);
        Some(string_of(&t))
    } else {
        None
    }
}

/// `hl.dispatch(hl.dsp.window.float({ action = "ACTION", address = "ADDR" }))`,
/// the address written as it is.
pub open spec fn float_command(action: Seq<char>, address: Seq<char>) -> Seq<char> {
    "hl.dispatch(hl.dsp.window.float({ action = \""@ + action + "\", address = \""@ + address
        + "\" }))"@
}

/// What a newly opened window gets under window policy `policy` while
/// `active_profile` is active: tiled windows are un-floated, floating ones
/// floated, `follow-profile` floats only under `macos`, and `omarchy`
/// leaves the window alone.
pub open spec fn new_window_action(policy: crate::protocol::WindowPolicy, active_profile: Seq<char>) -> Option<Seq<char>> {
    match policy {
        crate::protocol::WindowPolicy::Tiled => Some("disable"@),
        crate::protocol::WindowPolicy::Floating => Some("enable"@),
        crate::protocol::WindowPolicy::FollowProfile => if active_profile == "macos"@ {
            Some("enable"@)
        } else {
            Some("disable"@)
        },
        crate::protocol::WindowPolicy::Omarchy => None,
    }
}

/// The command to run when window `address` opens, if any.
pub fn new_window_command(policy: crate::protocol::WindowPolicy, active_profile: &str, address: &str) -> (r: Option<String>)
    ensures
        match new_window_action(policy, active_profile@) {
            Some(a) => r matches Some(c) && c@ == float_command(a, address@),
            None => r is None,
        },
{
    let action: &str = match policy {
        crate::protocol::WindowPolicy::Tiled => "disable",
        crate::protocol::WindowPolicy::Floating => "enable",
        crate::protocol::WindowPolicy::FollowProfile => if str_eq(active_profile, "macos") {
            "enable"
        } else {
            "disable"
        },
        crate::protocol::WindowPolicy::Omarchy => {
            return None;
        },
    };
    let mut c = concat3("hl.dispatch(hl.dsp.window.float({ action = \"", action, "\", address = \"");
    push_str(&mut c, address);
    push_str(&mut c, "\" }))");
    Some(c)
}

/// The commands placing window `address` at `(x, y)` with size
/// `width` x `height`: optionally floating it first, then resizing, then
/// moving it (the address as a Lua string).
pub open spec fn rect_commands(address: Seq<char>, x: i32, y: i32, width: i32, height: i32, set_floating: bool) -> Seq<Seq<char>> {
    let q = lua_string(address);
    let resize = "hl.dispatch(hl.dsp.window.resize({ x = "@ + decimal_int(width as int) + ", y = "@
        + decimal_int(height as int) + ", mode = \"exact\", address = "@ + q + " }))"@;
    let mv = "hl.dispatch(hl.dsp.window.move({ x = "@ + decimal_int(x as int) + ", y = "@
        + decimal_int(y as int) + ", mode = \"exact\", address = "@ + q + " }))"@;
    if set_floating {
        seq!["hl.dispatch(hl.dsp.window.float({ action = \"enable\", address = "@ + q + " }))"@, resize, mv]
    } else {
        seq![resize, mv]
    }
}

/// The commands that place a window, in the order they are sent.
pub fn window_rect_commands(address: &str, x: i32, y: i32, width: i32, height: i32, set_floating: bool) -> (r: Vec<String>)
    ensures
        r@.map_values(|c: String| c@) == rect_commands(address@, x, y, width, height, set_floating),
{
    let q = escape_lua_string(address);
    let mut out: Vec<String> = Vec::new();
    if set_floating {
        out.push(concat3("hl.dispatch(hl.dsp.window.float({ action = \"enable\", address = ", q.as_str(), " }))"));
    }
    let mut resize = owned("hl.dispatch(hl.dsp.window.resize({ x = ");
    push_decimal_i64(&mut resize, width as i64);
    push_str(&mut resize, ", y = ");
    push_decimal_i64(&mut resize, height as i64);
    push_str(&mut resize, ", mode = \"exact\", address = ");
    push_str(&mut resize, q.as_str());
    push_str(&mut resize, " }))");
    out.push(resize);
    let mut mv = owned("hl.dispatch(hl.dsp.window.move({ x = ");
    push_decimal_i64(&mut mv, x as i64);
    push_str(&mut mv, ", y = ");
    push_decimal_i64(&mut mv, y as i64);
    push_str(&mut mv, ", mode = \"exact\", address = ");
    push_str(&mut mv, q.as_str());
    push_str(&mut mv, " }))");
    out.push(mv);
    assert(out@.map_values(|c: String| c@) =~= rect_commands(address@, x, y, width, height, set_floating));
    out
}

/// The command moving a window (the active one when no address is given)
/// to the monitor named by `direction`.
pub fn move_to_monitor_command(address: Option<&str>, direction: &str) -> (r: String)
    ensures
        r@ == match address {
            Some(a) => "hl.dispatch(hl.dsp.window.move({ monitor = "@ + lua_string(direction@)
                + ", address = "@ + lua_string(a@) + " }))"@,
            None => "hl.dispatch(hl.dsp.window.move({ monitor = "@ + lua_string(direction@) + " }))"@,
        },
{
    let d = escape_lua_string(direction);
    match address {
        Some(a) => {
            let q = escape_lua_string(a);
            let mut c = concat3("hl.dispatch(hl.dsp.window.move({ monitor = ", d.as_str(), ", address = ");
            push_str(&mut c, q.as_str());
            push_str(&mut c, " }))");
            c
        },
        None => concat3("hl.dispatch(hl.dsp.window.move({ monitor = ", d.as_str(), " }))"),
    }
}

/// The workspace a window is on.
#[derive(Debug, Clone, PartialEq, Eq)]
pub struct HyprWindowWorkspace {
    pub id: i64,
    pub name: String,
}

/// A window as the compositor reports it.
#[derive(Debug, PartialEq, Eq)]
pub struct HyprWindow {
    pub address: String,
    pub mapped: Option<bool>,
    pub hidden: Option<bool>,
    pub at: (i32, i32),
    pub size: (i32, i32),
    pub workspace: HyprWindowWorkspace,
    pub floating: bool,
    pub monitor: i64,
    pub window_class: String,
    pub title: String,
    pub pid: u32,
}

/// What the daemon reads of a monitor: its id, name, whether it has focus
/// and its usable work area.
#[derive(Debug, Clone, PartialEq, Eq)]
pub struct MonitorInfo {
    pub id: i64,
    pub name: String,
    pub focused: bool,
    pub area_x: i32,
    pub area_y: i32,
    pub area_width: i32,
    pub area_height: i32,
}

/// Tiling state for a newly opened window.
#[derive(Debug, Clone, Copy, PartialEq, Eq, Structural)]
pub enum HyprWindowState {
    Tiled,
    Floating,
}

/// The dispatch command setting a window's tiling state; the address gets
/// a `0x` prefix when it lacks one.
pub fn window_state_command(address: &str, state: HyprWindowState) -> (r: String)
    ensures
        r@ == "dispatch "@ + (match state {
            HyprWindowState::Tiled => "tile"@,
            HyprWindowState::Floating => "float"@,
        }) + " address:"@ + (if has_prefix(address@, "0x"@) {
            address@
        } else {
            "0x"@ + address@
        }),
{
    let dispatcher = match state {
        HyprWindowState::Tiled => "tile",
        HyprWindowState::Floating => "float",
    };
    let mut s = concat3("dispatch ", dispatcher, " address:");
    if !crate::text::starts_with(address, "0x") {
        push_str(&mut s, "0x");
    }
    push_str(&mut s, address);
    s
}

// ---------------------------------------------------------------------------
// Events
// ---------------------------------------------------------------------------

/// Events read from the compositor's event socket.
#[derive(Debug, Clone, PartialEq, Eq)]
pub enum HyprEvent {
    WindowOpened { address: String, class: String, title: String },
    Unknown(String),
}

/// `s` without its trailing carriage returns and newlines.
pub open spec fn strip_line_end(s: Seq<char>) -> Seq<char>
    decreases s.len(),
{
    if s.len() > 0 && (s.last() == '\r' || s.last() == '\n') {
        strip_line_end(s.drop_last())
    } else {
        s
    }
}

/// Index of the first `>>` in `s`.
pub open spec fn find_arrows(s: Seq<char>) -> Option<int>
    decreases s.len(),
{
    if s.len() < 2 {
        None
    } else if s[0] == '>' && s[1] == '>' {
        Some(0)
    } else {
        match find_arrows(s.drop_first()) {
            Some(i) => Some(i + 1),
            None => None,
        }
    }
}

/// The `n`-th piece of `p.splitn(limit, ',')`, if there is one.
pub open spec fn splitn_field(p: Seq<char>, limit: nat, n: nat) -> Option<Seq<char>>
    decreases limit,
{
    if limit <= 1 {
        if n == 0 {
            Some(p)
        } else {
            None
        }
    } else {
        match crate::text::find_char(p, ',') {
            Some(i) => if n == 0 {
                Some(p.take(i))
            } else {
                splitn_field(p.skip(i + 1), (limit - 1) as nat, (n - 1) as nat)
            },
            None => if n == 0 {
                Some(p)
            } else {
                None
            },
        }
    }
}

/// The `n`-th of the four comma-separated fields (empty when absent).
pub open spec fn field4(p: Seq<char>, n: nat) -> Seq<char> {
    match splitn_field(p, 4, n) {
        Some(f) => f,
        None => seq![],
    }
}

/// What a line read from the event socket denotes: nothing for a blank
/// line; an opened window (`openwindow>>ADDRESS,WORKSPACE,CLASS,TITLE`);
/// otherwise an unknown event holding the line.
pub open spec fn event_of(line: Seq<char>) -> Option<(bool, Seq<char>, Seq<char>, Seq<char>)> {
    let l = strip_line_end(line);
    if l.len() == 0 {
        None
    } else {
        match find_arrows(l) {
            Some(i) => if l.take(i) == "openwindow"@ {
                let p = l.skip(i + 2);
                Some((true, field4(p, 0), field4(p, 2), field4(p, 3)))
            } else {
                Some((false, l, seq![], seq![]))
            },
            None => Some((false, l, seq![], seq![])),
        }
    }
}

proof fn lemma_find_arrows_at(s: Seq<char>, i: int)
    requires
        0 <= i <= s.len(),
        forall|j: int| 0 <= j < i && j + 1 < s.len() ==> !(s[j] == '>' && #[trigger] s[j + 1] == '>'),
        i + 1 < s.len() ==> s[i] == '>' && s[i + 1] == '>',
    ensures
        find_arrows(s) == if i + 1 < s.len() {
            Some(i)
        } else {
            None::<int>
        },
    decreases s.len(),
{
    if s.len() >= 2 && i > 0 {
        let t = s.drop_first();
        assert forall|j: int| 0 <= j < i - 1 && j + 1 < t.len() implies !(t[j] == '>' && #[trigger] t[j + 1] == '>') by {
            assert(t[j] == s[j + 1] && t[j + 1] == s[j + 2]);
        }
        if i - 1 + 1 < t.len() {
            assert(t[i - 1] == s[i] && t[i] == s[i + 1]);
        }
        lemma_find_arrows_at(t, i - 1);
        if s[0] == '>' && s[1] == '>' {
            assert(!(s[0int] == '>' && s[0int + 1] == '>'));
        }
    }
}

/// The `n`-th of the four comma-separated fields of `p`.
fn field4_text(p: &Vec<char>, n: usize) -> (r: String)
    requires
        n <= 3,
    ensures
        r@ == field4(p@, n as nat),
{
    let mut start: usize = 0;
    let mut k: usize = 0;
    let mut limit: usize = 4;
    assert(p@.skip(0) =~= p@);
    while k < n
        invariant
            k <= n <= 3,
            start <= p@.len(),
            limit == 4 - k,
            splitn_field(p@, 4, n as nat) == splitn_field(p@.skip(start as int), limit as nat, (n - k) as nat),
        decreases n - k,
    {
        let e = crate::text::find_char_from(p, ',', start);
        if e == p.len() {
            return String::new();
        }
        assert(p@.skip(start as int).skip(e - start + 1) =~= p@.skip(e + 1));
        start = e + 1;
        k = k + 1;
        limit = limit - 1;
    }
    if limit <= 1 {
        assert(p@.subrange(start as int, p@.len() as int) =~= p@.skip(start as int));
        return string_of_range(p, start, p.len());
    }
    let e = crate::text::find_char_from(p, ',', start);
    assert(p@.skip(start as int).take(e - start) =~= p@.subrange(start as int, e as int));
    if e == p.len() {
        assert(p@.subrange(start as int, p@.len() as int) =~= p@.skip(start as int));
    }
    string_of_range(p, start, e)
}

impl HyprEvent {
    /// Parses one line of the event socket.
    pub fn parse(line: &str) -> (r: Option<HyprEvent>)
        ensures
            match event_of(line@) {
                None => r is None,
                Some((opened, a, c, t)) => if opened {
                    r matches Some(HyprEvent::WindowOpened { address, class, title }) && address@ == a
                        && class@ == c && title@ == t
                } else {
                    r matches Some(HyprEvent::Unknown(s)) && s@ == a
                },
            },
    {
        let chars = chars_of(line);
        let mut end: usize = chars.len();
        assert(chars@.take(end as int) =~= chars@);
        while end > 0 && (chars[end - 1] == '\r' || chars[end - 1] == '\n')
            invariant
                end <= chars@.len(),
                strip_line_end(chars@) == strip_line_end(chars@.take(end as int)),
            decreases end,
        {
            assert(chars@.take(end as int).drop_last() =~= chars@.take(end - 1));
            end = end - 1;
        }
        let l = crate::text::slice_chars(&chars, 0, end);
        assert(l@ =~= chars@.take(end as int));
        if end == 0 {
            return None;
        }
        let ghost lv = l@;
        let mut i: usize = 0;
        while i < l.len() - 1 && !(l[i] == '>' && l[i + 1] == '>')
            invariant
                i <= l@.len(),
                l@.len() >= 1,
                l@ == lv,
                forall|j: int| 0 <= j < i && j + 1 < lv.len() ==> !(lv[j] == '>' && #[trigger] lv[j + 1] == '>'),
            decreases l@.len() - i,
        {
            i = i + 1;
        }
        proof {
            if i >= l@.len() - 1 {
                assert forall|j: int| 0 <= j < l@.len() && j + 1 < lv.len() implies !(lv[j] == '>' && #[trigger] lv[j + 1] == '>') by {
                }
                lemma_find_arrows_at(lv, l@.len() as int);
            } else {
                lemma_find_arrows_at(lv, i as int);
            }
        }
        let whole = string_of(&l);
        if i >= l.len() - 1 {
            return Some(HyprEvent::Unknown(whole));
        }
        let head = crate::text::slice_chars(&l, 0, i);
        assert(head@ =~= lv.take(i as int));
        let hs = string_of(&head);
        if !str_eq(hs.as_str(), "openwindow") {
            return Some(HyprEvent::Unknown(whole));
        }
        let payload = crate::text::slice_chars(&l, i + 2, l.len());
        assert(payload@ =~= lv.skip(i + 2));
        let address = field4_text(&payload, 0);
        let class = field4_text(&payload, 2);
        let title = field4_text(&payload, 3);
        Some(HyprEvent::WindowOpened { address, class, title })
    }
}

/// The usable work area of a monitor at `(x, y)` of size `width` x
/// `height`, minus the reserved `[left, top, right, bottom]` margins
/// (missing ones count as 0); each dimension is at least 1.
pub fn monitor_work_area(x: i32, y: i32, width: i32, height: i32, reserved: &Vec<i32>) -> (r: (i32, i32, i32, i32))
    requires
        ({
            let left = if reserved@.len() > 0 { reserved@[0] as int } else { 0 };
            let top = if reserved@.len() > 1 { reserved@[1] as int } else { 0 };
            let right = if reserved@.len() > 2 { reserved@[2] as int } else { 0 };
            let bottom = if reserved@.len() > 3 { reserved@[3] as int } else { 0 };
            &&& i32::MIN <= x + left <= i32::MAX
            &&& i32::MIN <= y + top <= i32::MAX
            &&& i32::MIN <= width - left <= i32::MAX
            &&& i32::MIN <= width - left - right <= i32::MAX
            &&& i32::MIN <= height - top <= i32::MAX
            &&& i32::MIN <= height - top - bottom <= i32::MAX
        }),
    ensures
        ({
            let left = if reserved@.len() > 0 { reserved@[0] as int } else { 0 };
            let top = if reserved@.len() > 1 { reserved@[1] as int } else { 0 };
            let right = if reserved@.len() > 2 { reserved@[2] as int } else { 0 };
            let bottom = if reserved@.len() > 3 { reserved@[3] as int } else { 0 };
            let w = width - left - right;
            let h = height - top - bottom;
            &&& r.0 == x + left
            &&& r.1 == y + top
            &&& r.2 == if w > 1 { w } else { 1 }
            &&& r.3 == if h > 1 { h } else { 1 }
        }),
{
    let left = if reserved.len() > 0 { reserved[0] } else { 0 };
    let top = if reserved.len() > 1 { reserved[1] } else { 0 };
    let right = if reserved.len() > 2 { reserved[2] } else { 0 };
    let bottom = if reserved.len() > 3 { reserved[3] } else { 0 };
    let w = width - left - right;
    let h = height - top - bottom;
    (x + left, y + top, if w > 1 { w } else { 1 }, if h > 1 { h } else { 1 })
}

/// A piece of a modifier list: `name` when `set`, nothing otherwise.
proof fn lemma_opt_piece(set: bool, name: Seq<char>, x: Seq<char>)
    ensures
        (if set { seq![name] } else { Seq::<Seq<char>>::empty() }).contains(x) <==> (set && x == name),
        (if set { seq![name] } else { Seq::<Seq<char>>::empty() }).len() <= 1,
{
    if set {
        assert(seq![name][0] == name);
    }
}

/// Containment in a concatenation is containment in one of its parts.
proof fn lemma_contains_add(a: Seq<Seq<char>>, b: Seq<Seq<char>>, x: Seq<char>)
    ensures
        (a + b).contains(x) <==> (a.contains(x) || b.contains(x)),
{
    if a.contains(x) {
        let i = choose|i: int| 0 <= i < a.len() && a[i] == x;
        assert((a + b)[i] == x);
    }
    if b.contains(x) {
        let i = choose|i: int| 0 <= i < b.len() && b[i] == x;
        assert((a + b)[a.len() + i] == x);
    }
    if (a + b).contains(x) {
        let i = choose|i: int| 0 <= i < (a + b).len() && (a + b)[i] == x;
        if i < a.len() {
            assert(a[i] == x);
        } else {
            assert(b[i - a.len()] == x);
        }
    }
}

/// The modifier names of a mask, in either order, name exactly the
/// modifier bits set in it (SUPER 64, CTRL 4, ALT 8, SHIFT 1), each at most
/// once, and nothing else.
pub proof fn law_mask_names_are_the_set_bits(m: u32, order_alpha: bool)
    ensures
        mask_names(m, order_alpha).contains("SUPER"@) <==> m & 64 != 0,
        mask_names(m, order_alpha).contains("CTRL"@) <==> m & 4 != 0,
        mask_names(m, order_alpha).contains("ALT"@) <==> m & 8 != 0,
        mask_names(m, order_alpha).contains("SHIFT"@) <==> m & 1 != 0,
        forall|x: Seq<char>| #[trigger] mask_names(m, order_alpha).contains(x) ==> x == "SUPER"@
            || x == "CTRL"@ || x == "ALT"@ || x == "SHIFT"@,
        mask_names(m, order_alpha).len() <= 4,
        mask_names(m, true).to_set() == mask_names(m, false).to_set(),
{
    reveal_strlit("SUPER");
    reveal_strlit("CTRL");
    reveal_strlit("ALT");
    reveal_strlit("SHIFT");
    assert("SUPER"@ != "SHIFT"@) by {
        assert("SUPER"@[1] != "SHIFT"@[1]);
    }
    assert("SUPER"@.len() == 5 && "CTRL"@.len() == 4 && "ALT"@.len() == 3 && "SHIFT"@.len() == 5);
    assert("SUPER"@ != "CTRL"@ && "SUPER"@ != "ALT"@ && "CTRL"@ != "ALT"@);
    assert("CTRL"@ != "SHIFT"@ && "ALT"@ != "SHIFT"@);
    let su = if m & 64 != 0 { seq!["SUPER"@] } else { Seq::<Seq<char>>::empty() };
    let ct = if m & 4 != 0 { seq!["CTRL"@] } else { Seq::<Seq<char>>::empty() };
    let al = if m & 8 != 0 { seq!["ALT"@] } else { Seq::<Seq<char>>::empty() };
    let sh = if m & 1 != 0 { seq!["SHIFT"@] } else { Seq::<Seq<char>>::empty() };
    assert(mask_names(m, false) == su + ct + al + sh);
    assert(mask_names(m, true) == al + ct + sh + su);
    assert forall|x: Seq<char>|
        #![trigger mask_names(m, true).contains(x)]
        #![trigger mask_names(m, false).contains(x)]
        (mask_names(m, true).contains(x) <==> mask_names(m, false).contains(x))
        && (mask_names(m, false).contains(x) <==> ((m & 64 != 0 && x == "SUPER"@) || (m & 4 != 0 && x
        == "CTRL"@) || (m & 8 != 0 && x == "ALT"@) || (m & 1 != 0 && x == "SHIFT"@))) by {
        lemma_opt_piece(m & 64 != 0, "SUPER"@, x);
        lemma_opt_piece(m & 4 != 0, "CTRL"@, x);
        lemma_opt_piece(m & 8 != 0, "ALT"@, x);
        lemma_opt_piece(m & 1 != 0, "SHIFT"@, x);
        lemma_contains_add(su, ct, x);
        lemma_contains_add(su + ct, al, x);
        lemma_contains_add(su + ct + al, sh, x);
        lemma_contains_add(al, ct, x);
        lemma_contains_add(al + ct, sh, x);
        lemma_contains_add(al + ct + sh, su, x);
    }
    assert(mask_names(m, order_alpha).contains("SUPER"@) <==> mask_names(m, false).contains("SUPER"@));
    assert(mask_names(m, order_alpha).contains("CTRL"@) <==> mask_names(m, false).contains("CTRL"@));
    assert(mask_names(m, order_alpha).contains("ALT"@) <==> mask_names(m, false).contains("ALT"@));
    assert(mask_names(m, order_alpha).contains("SHIFT"@) <==> mask_names(m, false).contains("SHIFT"@));
    lemma_opt_piece(m & 64 != 0, "SUPER"@, "SUPER"@);
    lemma_opt_piece(m & 4 != 0, "CTRL"@, "CTRL"@);
    lemma_opt_piece(m & 8 != 0, "ALT"@, "ALT"@);
    lemma_opt_piece(m & 1 != 0, "SHIFT"@, "SHIFT"@);
    assert(mask_names(m, true).to_set() =~= mask_names(m, false).to_set());
}

} // verus!
