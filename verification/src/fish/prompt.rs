//! The greeting and the prompt functions.
use vstd::prelude::*;
use crate::base::{Config, RenderContext};
use crate::fish::util::{block_text, double_quote_fish, double_quote_fish_value, render_block};
use crate::text::{opt_as_str, opt_view, owned, owned_all, views};

verus! {

/// Sets the fish greeting shown at session start.
#[derive(Debug, Clone)]
pub enum FishGreeting {
    /// `set -g fish_greeting "message"` – a plain string.
    Message(String),
    /// Custom `fish_greeting` function with body lines.
    Function(Vec<String>),
    /// `set -g fish_greeting` (empty) – disables the greeting.
    Disabled,
}

impl FishGreeting {
    pub fn message(msg: &str) -> (r: Self)
        ensures
            r matches FishGreeting::Message(m) && m@ == msg@,
    {
        FishGreeting::Message(owned(msg))
    }

    pub fn function(body: &[&str]) -> (r: Self)
        ensures
            r matches FishGreeting::Function(b) && views(b@) == body@.map_values(|s: &str| s@),
    {
        FishGreeting::Function(owned_all(body))
    }

    pub fn disabled() -> (r: Self)
        ensures
            r matches FishGreeting::Disabled,
    {
        FishGreeting::Disabled
    }
}

impl Config for FishGreeting {
    open spec fn spec_render(&self, ctx: RenderContext) -> Seq<char> {
        match self {
            FishGreeting::Disabled => ctx.spec_indent() + "set -g fish_greeting"@,
            FishGreeting::Message(msg) => ctx.spec_indent() + "set -g fish_greeting "@
                + double_quote_fish(msg@),
            FishGreeting::Function(body) => block_text(ctx, "function fish_greeting"@, views(body@)),
        }
    }

    open spec fn render_ok(&self, ctx: RenderContext) -> bool {
        ctx.fits() && (self is Function ==> ctx.deeper_fits())
    }

    fn render(&self, ctx: &RenderContext) -> (r: String) {
        match self {
            FishGreeting::Disabled => {
                let mut r = ctx.indent();
                r.append("set -g fish_greeting");
                r
            },
            FishGreeting::Message(msg) => {
                let mut r = ctx.indent();
                r.append("set -g fish_greeting ");
                let q = double_quote_fish_value(msg.as_str());
                r.append(q.as_str());
                r
            },
            FishGreeting::Function(body) => render_block(ctx, "function fish_greeting", body),
        }
    }

    fn doc_comment(&self) -> (r: Option<&str>) {
        None
    }

    fn validate(&self) -> (r: Result<(), String>) {
        Ok(())
    }
}

/// The `fish_prompt` function (left prompt).
#[derive(Debug, Clone)]
pub struct FishPrompt {
    pub body: Vec<String>,
    pub doc: Option<String>,
}

impl FishPrompt {
    pub fn new(body: &[&str]) -> (r: Self)
        ensures
            views(r.body@) == body@.map_values(|s: &str| s@),
            r.doc is None,
    {
        FishPrompt { body: owned_all(body), doc: None }
    }

    pub fn doc(self, d: &str) -> (r: Self)
        ensures
            opt_view(r.doc) == Some(d@),
            r.body == self.body,
    {
        FishPrompt { doc: Some(owned(d)), ..self }
    }
}

impl Config for FishPrompt {
    open spec fn spec_render(&self, ctx: RenderContext) -> Seq<char> {
        block_text(ctx, "function fish_prompt"@, views(self.body@))
    }

    open spec fn render_ok(&self, ctx: RenderContext) -> bool {
        ctx.fits() && ctx.deeper_fits()
    }

    open spec fn spec_doc(&self) -> Option<Seq<char>> {
        opt_view(self.doc)
    }

    fn render(&self, ctx: &RenderContext) -> (r: String) {
        render_block(ctx, "function fish_prompt", &self.body)
    }

    fn doc_comment(&self) -> (r: Option<&str>) {
        opt_as_str(&self.doc)
    }

    fn validate(&self) -> (r: Result<(), String>) {
        Ok(())
    }
}

/// The `fish_right_prompt` function (right side of prompt line).
#[derive(Debug, Clone)]
pub struct FishRightPrompt {
    pub body: Vec<String>,
    pub doc: Option<String>,
}

impl FishRightPrompt {
    pub fn new(body: &[&str]) -> (r: Self)
        ensures
            views(r.body@) == body@.map_values(|s: &str| s@),
            r.doc is None,
    {
        FishRightPrompt { body: owned_all(body), doc: None }
    }

    pub fn doc(self, d: &str) -> (r: Self)
        ensures
            opt_view(r.doc) == Some(d@),
            r.body == self.body,
    {
        FishRightPrompt { doc: Some(owned(d)), ..self }
    }
}

impl Config for FishRightPrompt {
    open spec fn spec_render(&self, ctx: RenderContext) -> Seq<char> {
        block_text(ctx, "function fish_right_prompt"@, views(self.body@))
    }

    open spec fn render_ok(&self, ctx: RenderContext) -> bool {
        ctx.fits() && ctx.deeper_fits()
    }

    open spec fn spec_doc(&self) -> Option<Seq<char>> {
        opt_view(self.doc)
    }

    fn render(&self, ctx: &RenderContext) -> (r: String) {
        render_block(ctx, "function fish_right_prompt", &self.body)
    }

    fn doc_comment(&self) -> (r: Option<&str>) {
        opt_as_str(&self.doc)
    }

    fn validate(&self) -> (r: Result<(), String>) {
        Ok(())
    }
}

/// The `fish_mode_prompt` function (shows vi-mode indicator).
#[derive(Debug, Clone)]
pub struct FishModePrompt {
    pub body: Vec<String>,
}

impl FishModePrompt {
    pub fn new(body: &[&str]) -> (r: Self)
        ensures
            views(r.body@) == body@.map_values(|s: &str| s@),
    {
        FishModePrompt { body: owned_all(body) }
    }
}

impl Config for FishModePrompt {
    open spec fn spec_render(&self, ctx: RenderContext) -> Seq<char> {
        block_text(ctx, "function fish_mode_prompt"@, views(self.body@))
    }

    open spec fn render_ok(&self, ctx: RenderContext) -> bool {
        ctx.fits() && ctx.deeper_fits()
    }

    fn render(&self, ctx: &RenderContext) -> (r: String) {
        render_block(ctx, "function fish_mode_prompt", &self.body)
    }

    fn doc_comment(&self) -> (r: Option<&str>) {
        None
    }

    fn validate(&self) -> (r: Result<(), String>) {
        Ok(())
    }
}

} // verus!
