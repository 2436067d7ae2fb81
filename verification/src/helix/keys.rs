//! Key bindings per editor mode (`[keys.normal]`, `[keys.insert]`, `[keys.select]`).
use vstd::prelude::*;
use crate::helix::context::{HelixConfig, HelixRenderContext};
use crate::text::{
    cat3, is_empty_str, join, join_strings, owned, push_part, views,
};

verus! {

/// The editor mode a keybinding applies to.
#[derive(Debug, Clone, Copy, PartialEq, Eq)]
pub enum KeyMode {
    Normal,
    Insert,
    Select,
}

impl KeyMode {
    /// The mode's name as used in the table header.
    pub open spec fn spec_str(self) -> Seq<char> {
        match self {
            KeyMode::Normal => "normal"@,
            KeyMode::Insert => "insert"@,
            KeyMode::Select => "select"@,
        }
    }

    pub fn as_str(&self) -> (r: &'static str)
        ensures
            r@ == self.spec_str(),
    {
        match self {
            KeyMode::Normal => "normal",
            KeyMode::Insert => "insert",
            KeyMode::Select => "select",
        }
    }
}

/// The action bound to a key: one command, a sequence of commands, or a
/// nested keymap of `(key, command)` pairs.
#[derive(Debug, Clone)]
pub enum KeyAction {
    /// Single command: `"move_char_right"`
    Command(String),
    /// Sequence of commands: `["cmd1", "cmd2"]`
    Sequence(Vec<String>),
    /// Nested keymap: `{ <key> = "<command>", … }` (one level deep).
    Nested(Vec<(String, String)>),
}

/// `s` between double quotes, with nothing escaped.
pub open spec fn dquoted(s: Seq<char>) -> Seq<char> {
    "\""@ + s + "\""@
}

/// The TOML text of each command of a sequence.
pub open spec fn sequence_items(cmds: Seq<String>) -> Seq<Seq<char>> {
    Seq::new(cmds.len(), |i: int| dquoted(cmds[i]@))
}

/// The `key = "command"` text of each pair of a nested keymap.
pub open spec fn nested_items(pairs: Seq<(String, String)>) -> Seq<Seq<char>> {
    Seq::new(pairs.len(), |i: int| pairs[i].0@ + " = "@ + dquoted(pairs[i].1@))
}

impl KeyAction {
    /// The TOML value this action renders to.
    pub open spec fn spec_toml(&self) -> Seq<char> {
        match self {
            KeyAction::Command(cmd) => dquoted(cmd@),
            KeyAction::Sequence(cmds) => "["@ + join(sequence_items(cmds@), ", "@) + "]"@,
            KeyAction::Nested(pairs) => "{ "@ + join(nested_items(pairs@), ", "@) + " }"@,
        }
    }

    /// A single-command action.
    pub fn cmd(s: &str) -> (r: Self)
        ensures
            r matches KeyAction::Command(c) && c@ == s@,
    {
        KeyAction::Command(owned(s))
    }

    /// A sequence action, commands in order.
    pub fn seq(cmds: Vec<&str>) -> (r: Self)
        ensures
            r matches KeyAction::Sequence(v) && views(v@) == cmds@.map_values(|s: &str| s@),
    {
        let mut v: Vec<String> = Vec::new();
        let mut i: usize = 0;
        while i < cmds.len()
            invariant
                i <= cmds@.len(),
                views(v@) == cmds@.take(i as int).map_values(|s: &str| s@),
            decreases cmds@.len() - i,
        {
            push_part(&mut v, owned(cmds[i]));
            assert(cmds@.take(i + 1).map_values(|s: &str| s@) =~= cmds@.take(i as int).map_values(
                |s: &str| s@,
            ).push(cmds@[i as int]@));
            i = i + 1;
        }
        assert(cmds@.take(cmds@.len() as int) =~= cmds@);
        KeyAction::Sequence(v)
    }

    /// A nested keymap action, pairs in order.
    pub fn nested(pairs: Vec<(&str, &str)>) -> (r: Self)
        ensures
            r matches KeyAction::Nested(v) && v@.len() == pairs@.len() && (forall|i: int|
                0 <= i < pairs@.len() ==> #[trigger] v@[i].0@ == pairs@[i].0@ && v@[i].1@
                    == pairs@[i].1@),
    {
        let mut v: Vec<(String, String)> = Vec::new();
        let mut i: usize = 0;
        while i < pairs.len()
            invariant
                i <= pairs@.len(),
                v@.len() == i,
                forall|j: int|
                    0 <= j < i ==> #[trigger] v@[j].0@ == pairs@[j].0@ && v@[j].1@ == pairs@[j].1@,
            decreases pairs@.len() - i,
        {
            let (k, c) = pairs[i];
            v.push((owned(k), owned(c)));
            i = i + 1;
        }
        KeyAction::Nested(v)
    }

    fn to_toml(&self) -> (r: String)
        ensures
            r@ == self.spec_toml(),
    {
        match self {
            KeyAction::Command(cmd) => cat3("\"", cmd.as_str(), "\""),
            KeyAction::Sequence(cmds) => {
                let mut inner: Vec<String> = Vec::new();
                let mut i: usize = 0;
                while i < cmds.len()
                    invariant
                        i <= cmds@.len(),
                        views(inner@) == sequence_items(cmds@).take(i as int),
                    decreases cmds@.len() - i,
                {
                    push_part(&mut inner, cat3("\"", cmds[i].as_str(), "\""));
                    assert(sequence_items(cmds@).take(i + 1) =~= sequence_items(cmds@).take(
                        i as int,
                    ).push(dquoted(cmds@[i as int]@)));
                    i = i + 1;
                }
                assert(sequence_items(cmds@).take(cmds@.len() as int) =~= sequence_items(cmds@));
                let j = join_strings(&inner, ", ");
                cat3("[", j.as_str(), "]")
            },
            KeyAction::Nested(pairs) => {
                let mut inner: Vec<String> = Vec::new();
                let mut i: usize = 0;
                while i < pairs.len()
                    invariant
                        i <= pairs@.len(),
                        views(inner@) == nested_items(pairs@).take(i as int),
                    decreases pairs@.len() - i,
                {
                    let q = cat3("\"", pairs[i].1.as_str(), "\"");
                    push_part(&mut inner, cat3(pairs[i].0.as_str(), " = ", q.as_str()));
                    assert(nested_items(pairs@).take(i + 1) =~= nested_items(pairs@).take(
                        i as int,
                    ).push(pairs@[i as int].0@ + " = "@ + dquoted(pairs@[i as int].1@)));
                    i = i + 1;
                }
                assert(nested_items(pairs@).take(pairs@.len() as int) =~= nested_items(pairs@));
                let j = join_strings(&inner, ", ");
                cat3("{ ", j.as_str(), " }")
            },
        }
    }
}

/// A single key binding entry: `key = action`.
#[derive(Debug, Clone)]
pub struct KeyBinding {
    pub key: String,
    pub action: KeyAction,
}

impl KeyBinding {
    pub fn new(key: &str, action: KeyAction) -> (r: Self)
        ensures
            r.key@ == key@,
            r.action == action,
    {
        KeyBinding { key: owned(key), action }
    }

    /// The `key = value` line of this binding.
    pub open spec fn spec_line(&self) -> Seq<char> {
        self.key@ + " = "@ + self.action.spec_toml()
    }
}

/// The message of the error for a binding with an empty key.
pub open spec fn empty_key_message() -> Seq<char> {
    "KeysSection: key string cannot be empty"@
}

/// A keybinding table for one editor mode.
pub struct KeysSection {
    pub mode: KeyMode,
    pub bindings: Vec<KeyBinding>,
}

impl KeysSection {
    pub fn new(mode: KeyMode) -> (r: Self)
        ensures
            r.mode == mode,
            r.bindings@.len() == 0,
    {
        KeysSection { mode, bindings: Vec::new() }
    }

    /// Add a key binding (consuming builder).
    pub fn bind(self, binding: KeyBinding) -> (r: Self)
        ensures
            r.mode == self.mode,
            r.bindings@ == self.bindings@.push(binding),
    {
        let mut s = self;
        s.bindings.push(binding);
        s
    }

    /// Add a key binding (mutable borrow).
    pub fn add_bind(&mut self, binding: KeyBinding) -> (r: &mut Self)
        ensures
            r.mode == old(self).mode,
            r.bindings@ == old(self).bindings@.push(binding),
            *final(self) == *final(r),
    {
        self.bindings.push(binding);
        self
    }

    /// Shorthand: add a single-command binding.
    pub fn cmd(self, key: &str, command: &str) -> (r: Self)
        ensures
            r.mode == self.mode,
            r.bindings@.len() == self.bindings@.len() + 1,
            r.bindings@.drop_last() == self.bindings@,
            r.bindings@.last().key@ == key@,
            r.bindings@.last().action matches KeyAction::Command(c) && c@ == command@,
    {
        let b = KeyBinding::new(key, KeyAction::cmd(command));
        let r = self.bind(b);
        assert(r.bindings@.drop_last() =~= self.bindings@);
        r
    }

    /// The lines of the bindings, in order.
    pub open spec fn spec_lines(&self) -> Seq<Seq<char>> {
        Seq::new(self.bindings@.len(), |i: int| self.bindings@[i].spec_line())
    }

    /// Whether some binding has an empty key.
    pub open spec fn has_empty_key(&self) -> bool {
        exists|i: int| 0 <= i < self.bindings@.len() && (#[trigger] self.bindings@[i]).key@.len() == 0
    }
}

impl HelixConfig for KeysSection {
    open spec fn spec_render(&self, ctx: HelixRenderContext) -> Seq<char> {
        if self.bindings@.len() == 0 {
            Seq::empty()
        } else {
            join(seq!["[keys."@ + self.mode.spec_str() + "]"@] + self.spec_lines(), "\n"@)
        }
    }

    open spec fn spec_validate(&self) -> Result<(), Seq<char>> {
        if self.has_empty_key() {
            Err(empty_key_message())
        } else {
            Ok(())
        }
    }

    fn render(&self, ctx: &HelixRenderContext) -> (r: String) {
        if self.bindings.len() == 0 {
            return String::new();
        }
        let mut lines: Vec<String> = Vec::new();
        push_part(&mut lines, cat3("[keys.", self.mode.as_str(), "]"));
        let mut i: usize = 0;
        while i < self.bindings.len()
            invariant
                i <= self.bindings@.len(),
                views(lines@) == seq!["[keys."@ + self.mode.spec_str() + "]"@]
                    + self.spec_lines().take(i as int),
            decreases self.bindings@.len() - i,
        {
            let t = self.bindings[i].action.to_toml();
            push_part(&mut lines, cat3(self.bindings[i].key.as_str(), " = ", t.as_str()));
            assert(self.spec_lines().take(i + 1) =~= self.spec_lines().take(i as int).push(
                self.bindings@[i as int].spec_line(),
            ));
            i = i + 1;
        }
        assert(self.spec_lines().take(self.bindings@.len() as int) =~= self.spec_lines());
        join_strings(&lines, "\n")
    }

    fn validate(&self) -> (r: Result<(), String>) {
        let mut i: usize = 0;
        while i < self.bindings.len()
            invariant
                i <= self.bindings@.len(),
                forall|j: int| 0 <= j < i ==> (#[trigger] self.bindings@[j]).key@.len() != 0,
            decreases self.bindings@.len() - i,
        {
            if is_empty_str(self.bindings[i].key.as_str()) {
                return Err(owned("KeysSection: key string cannot be empty"));
            }
            i = i + 1;
        }
        Ok(())
    }
}

} // verus!
