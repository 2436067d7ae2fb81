//! Permission rules (`permission = pattern, type, action`).
use vstd::prelude::*;
use crate::hyprland::context::{HyprlandConfig, HyprlandRenderContext};
use crate::text::{cat3, is_empty_str, owned};

verus! {

/// The action taken when a permission rule matches.
#[derive(Debug, Clone, Copy, PartialEq, Eq)]
pub enum PermissionAction {
    Allow,
    Deny,
    Ask,
}

impl PermissionAction {
    /// The action's keyword.
    pub open spec fn spec_str(self) -> Seq<char> {
        match self {
            PermissionAction::Allow => "allow"@,
            PermissionAction::Deny => "deny"@,
            PermissionAction::Ask => "ask"@,
        }
    }

    pub fn as_str(&self) -> (r: &'static str)
        ensures
            r@ == self.spec_str(),
    {
        match self {
            PermissionAction::Allow => "allow",
            PermissionAction::Deny => "deny",
            PermissionAction::Ask => "ask",
        }
    }
}

/// The category of capability being controlled.
#[derive(Debug, Clone)]
pub enum PermissionType {
    /// Screen recording / screencopy.
    ScreenCopy,
    /// Access to terminal emulators.
    Terminal,
    /// Camera access.
    Camera,
    /// Microphone access.
    Microphone,
    /// Location services.
    Location,
    /// Any other capability name.
    Custom(String),
}

impl PermissionType {
    /// The capability's keyword.
    pub open spec fn spec_str(&self) -> Seq<char> {
        match self {
            PermissionType::ScreenCopy => "screencopy"@,
            PermissionType::Terminal => "terminal"@,
            PermissionType::Camera => "camera"@,
            PermissionType::Microphone => "microphone"@,
            PermissionType::Location => "location"@,
            PermissionType::Custom(s) => s@,
        }
    }

    pub fn as_str(&self) -> (r: &str)
        ensures
            r@ == self.spec_str(),
    {
        match self {
            PermissionType::ScreenCopy => "screencopy",
            PermissionType::Terminal => "terminal",
            PermissionType::Camera => "camera",
            PermissionType::Microphone => "microphone",
            PermissionType::Location => "location",
            PermissionType::Custom(s) => s.as_str(),
        }
    }
}

/// A Hyprland permission rule: `permission = pattern, type, action`.
pub struct Permission {
    pub pattern: String,
    pub permission_type: PermissionType,
    pub action: PermissionAction,
}

impl Permission {
    pub fn new(pattern: &str, permission_type: PermissionType, action: PermissionAction) -> (r: Self)
        ensures
            r.pattern@ == pattern@,
            r.permission_type == permission_type,
            r.action == action,
    {
        Permission { pattern: owned(pattern), permission_type, action }
    }

    /// Allow an application to record the screen.
    pub fn allow_screencopy(pattern: &str) -> (r: Self)
        ensures
            r.pattern@ == pattern@,
            r.permission_type == PermissionType::ScreenCopy,
            r.action == PermissionAction::Allow,
    {
        Self::new(pattern, PermissionType::ScreenCopy, PermissionAction::Allow)
    }

    /// Deny an application screen recording.
    pub fn deny_screencopy(pattern: &str) -> (r: Self)
        ensures
            r.pattern@ == pattern@,
            r.permission_type == PermissionType::ScreenCopy,
            r.action == PermissionAction::Deny,
    {
        Self::new(pattern, PermissionType::ScreenCopy, PermissionAction::Deny)
    }
}

impl HyprlandConfig for Permission {
    open spec fn spec_render(&self, ctx: HyprlandRenderContext) -> Seq<char> {
        ctx.spec_indent() + "permission = "@ + self.pattern@ + ", "@ + self.permission_type.spec_str()
            + ", "@ + self.action.spec_str()
    }

    open spec fn spec_validate(&self) -> Result<(), Seq<char>> {
        if self.pattern@.len() == 0 {
            Err("Permission pattern cannot be empty"@)
        } else {
            Ok(())
        }
    }

    fn render(&self, ctx: &HyprlandRenderContext) -> (r: String) {
        let ind = ctx.indent();
        let head = cat3(ind.as_str(), "permission = ", self.pattern.as_str());
        let mid = cat3(head.as_str(), ", ", self.permission_type.as_str());
        let r = cat3(mid.as_str(), ", ", self.action.as_str());
        assert(r@ =~= self.spec_render(*ctx));
        r
    }

    fn validate(&self) -> (r: Result<(), String>) {
        if is_empty_str(self.pattern.as_str()) {
            return Err(owned("Permission pattern cannot be empty"));
        }
        Ok(())
    }
}

} // verus!
