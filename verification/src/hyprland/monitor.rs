//! Monitor rules: `monitor=name,resolution,position,scale[,extra...]`.
use vstd::prelude::*;
use crate::hyprland::context::{HyprlandConfig, HyprlandRenderContext};
use crate::text::{
    cat2, cat3, join, join_strings, lemma_join_push, nat_str, opt_view, owned, push_part, u64_str, views,
};

verus! {

/// Monitor configuration line.
///
/// Rendered as: `monitor=name,resolution,position,scale[,extra...]`
///
/// Per-monitor VRR mode 1 (`vrr(1)`) enables adaptive sync / tearing support.
pub struct MonitorConfig {
    pub name: String,
    /// Resolution string, e.g. `"1920x1080@60"`, `"preferred"`, `"highres"`, `"highrr"`.
    pub resolution: String,
    /// Position string, e.g. `"0x0"`, `"auto"`, `"auto-left"`, `"auto-right"`.
    pub position: String,
    /// The scale as decimal text, written without a fraction when it is whole
    /// (e.g. `"1"`, `"1.25"`).
    pub scale: String,
    /// Transform: 0=normal, 1=90°, 2=180°, 3=270°, 4=flipped, 5=flipped+90°, etc.
    pub transform: Option<u8>,
    /// Mirror the named monitor: `mirror:<name>`.
    pub mirror: Option<String>,
    /// Bit depth override (e.g. 10 for HDR).
    pub bitdepth: Option<u8>,
    /// Variable Refresh Rate: 0=off, 1=on, 2=fullscreen only.
    pub vrr: Option<u8>,
}

/// The error for a transform outside 0–7.
pub open spec fn transform_error(t: u8) -> Seq<char> {
    "Monitor transform "@ + nat_str(t as nat) + " is out of range (valid: 0–7)"@
}

/// The error for a VRR mode outside 0–2.
pub open spec fn vrr_error(v: u8) -> Seq<char> {
    "Monitor vrr "@ + nat_str(v as nat) + " is out of range (valid: 0–2)"@
}

/// `label` followed by the decimal text of the number, or nothing.
pub open spec fn tagged_num(label: Seq<char>, o: Option<u8>) -> Seq<Seq<char>> {
    match o {
        Some(n) => seq![label + nat_str(n as nat)],
        None => Seq::empty(),
    }
}

/// Pushes `label` and the decimal text of the number, when there is one.
fn push_tagged_num(parts: &mut Vec<String>, label: &str, o: Option<u8>)
    ensures
        views(final(parts)@) == views(old(parts)@) + tagged_num(label@, o),
{
    match o {
        Some(n) => {
            let digits = u64_str(n as u64);
            let mut s = owned(label);
            s.append(digits.as_str());
            push_part(parts, s);
        },
        None => {},
    }
}

impl MonitorConfig {
    /// Create a monitor rule with the four required fields; the scale is
    /// given as its decimal text.
    pub fn new(name: &str, resolution: &str, position: &str, scale: &str) -> (r: Self)
        ensures
            r.name@ == name@,
            r.resolution@ == resolution@,
            r.position@ == position@,
            r.scale@ == scale@,
            r.transform is None,
            r.mirror is None,
            r.bitdepth is None,
            r.vrr is None,
    {
        MonitorConfig {
            name: owned(name),
            resolution: owned(resolution),
            position: owned(position),
            scale: owned(scale),
            transform: None,
            mirror: None,
            bitdepth: None,
            vrr: None,
        }
    }

    /// Catch-all rule: `monitor=,preferred,auto,1`
    pub fn auto() -> (r: Self)
        ensures
            r.spec_line() == "monitor=,preferred,auto,1"@,
    {
        let r = MonitorConfig::new("", "preferred", "auto", "1");
        proof {
            reveal_strlit("");
            reveal_strlit("preferred");
            reveal_strlit("auto");
            reveal_strlit("1");
            reveal_strlit("monitor=,preferred,auto,1");
            reveal_strlit(",preferred,auto,1");
            reveal_strlit(",");
            reveal_strlit("monitor=");
            let p1 = seq![""@];
            let p2 = p1.push("preferred"@);
            let p3 = p2.push("auto"@);
            let p4 = p3.push("1"@);
            lemma_join_push(p1, ","@, "preferred"@);
            lemma_join_push(p2, ","@, "auto"@);
            lemma_join_push(p3, ","@, "1"@);
            assert(r.spec_parts() =~= p4);
            assert(join(p1, ","@) == ""@);
            assert(join(p4, ","@) == ""@ + ","@ + "preferred"@ + ","@ + "auto"@ + ","@ + "1"@);
            assert(join(p4, ","@) =~= ",preferred,auto,1"@);
        }
        assert(r.spec_line() =~= "monitor=,preferred,auto,1"@);
        r
    }

    /// Set the display transform (rotation/flip). Valid values: 0–7.
    pub fn transform(self, t: u8) -> (r: Self)
        ensures
            r == (MonitorConfig { transform: Some(t), ..self }),
    {
        MonitorConfig { transform: Some(t), ..self }
    }

    /// Mirror another monitor by name.
    pub fn mirror(self, source: &str) -> (r: Self)
        ensures
            opt_view(r.mirror) == Some(source@),
            r == (MonitorConfig { mirror: r.mirror, ..self }),
    {
        MonitorConfig { mirror: Some(owned(source)), ..self }
    }

    /// Override bit depth (e.g. `10` for HDR / 10-bit colour).
    pub fn bitdepth(self, bits: u8) -> (r: Self)
        ensures
            r == (MonitorConfig { bitdepth: Some(bits), ..self }),
    {
        MonitorConfig { bitdepth: Some(bits), ..self }
    }

    /// Enable Variable Refresh Rate.  0 = off, 1 = on, 2 = fullscreen only.
    pub fn vrr(self, mode: u8) -> (r: Self)
        ensures
            r == (MonitorConfig { vrr: Some(mode), ..self }),
    {
        MonitorConfig { vrr: Some(mode), ..self }
    }

    /// The comma-separated fields: name, resolution, position, scale, then
    /// the set extras in order.
    pub open spec fn spec_parts(&self) -> Seq<Seq<char>> {
        seq![self.name@, self.resolution@, self.position@, self.scale@] + tagged_num(
            "transform:"@,
            self.transform,
        ) + match self.mirror {
            Some(m) => seq!["mirror:"@ + m@],
            None => Seq::empty(),
        } + tagged_num("bitdepth:"@, self.bitdepth) + tagged_num("vrr:"@, self.vrr)
    }

    /// `monitor=` and the fields joined by commas.
    pub open spec fn spec_line(&self) -> Seq<char> {
        "monitor="@ + join(self.spec_parts(), ","@)
    }

    /// `monitor=` and the fields joined by commas.
    pub fn line(&self) -> (r: String)
        ensures
            r@ == self.spec_line(),
    {
        let mut parts: Vec<String> = Vec::new();
        push_part(&mut parts, owned(self.name.as_str()));
        push_part(&mut parts, owned(self.resolution.as_str()));
        push_part(&mut parts, owned(self.position.as_str()));
        push_part(&mut parts, owned(self.scale.as_str()));
        push_tagged_num(&mut parts, "transform:", self.transform);
        match &self.mirror {
            Some(m) => {
                push_part(&mut parts, cat2("mirror:", m.as_str()));
            },
            None => {},
        }
        push_tagged_num(&mut parts, "bitdepth:", self.bitdepth);
        push_tagged_num(&mut parts, "vrr:", self.vrr);
        assert(views(parts@) =~= self.spec_parts());
        let joined = join_strings(&parts, ",");
        let mut s = owned("monitor=");
        s.append(joined.as_str());
        s
    }
}

impl HyprlandConfig for MonitorConfig {
    open spec fn spec_render(&self, ctx: HyprlandRenderContext) -> Seq<char> {
        ctx.spec_indent() + self.spec_line()
    }

    /// The transform must lie in 0–7 and the VRR mode in 0–2.
    open spec fn spec_validate(&self) -> Result<(), Seq<char>> {
        match (self.transform, self.vrr) {
            (Some(t), _) if t > 7 => Err(transform_error(t)),
            (_, Some(v)) if v > 2 => Err(vrr_error(v)),
            _ => Ok(()),
        }
    }

    fn render(&self, ctx: &HyprlandRenderContext) -> (r: String) {
        let mut s = ctx.indent();
        let l = self.line();
        s.append(l.as_str());
        s
    }

    fn validate(&self) -> (r: Result<(), String>) {
        match self.transform {
            Some(t) => {
                if t > 7 {
                    let digits = u64_str(t as u64);
                    return Err(
                        cat3("Monitor transform ", digits.as_str(), " is out of range (valid: 0–7)"),
                    );
                }
            },
            None => {},
        }
        match self.vrr {
            Some(v) => {
                if v > 2 {
                    let digits = u64_str(v as u64);
                    return Err(cat3("Monitor vrr ", digits.as_str(), " is out of range (valid: 0–2)"));
                }
            },
            None => {},
        }
        Ok(())
    }
}

} // verus!
