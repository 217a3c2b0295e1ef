//! The mutable state element of the simulation: the body record, its
//! validation, partial updates, and the tagged edit type.

use vstd::prelude::*;
use vstd::string::{StrSliceExecFns, StringExecFns};

use crate::errors::EngineError;
use crate::fbits::{f64_bits_pos, is_pos_bits, Vec2Bits};

verus! {

/// Host-facing annotations that are opaque to the physics.
#[derive(Clone, Debug, PartialEq)]
pub struct BodyMetadata {
    pub label: Option<String>,
    pub kind: Option<String>,
    pub color: Option<String>,
}

/// One point mass.  Real-valued fields carry IEEE-754 double bit patterns.
#[derive(Clone, Debug, PartialEq)]
pub struct Body {
    pub id: String,
    /// Mass; must be finite and > 0.
    pub mass_bits: u64,
    /// Radius; must be finite and > 0.
    pub radius_bits: u64,
    pub position: Vec2Bits,
    pub velocity: Vec2Bits,
    pub alive: bool,
    pub metadata: Option<BodyMetadata>,
}

/// `c` has the Unicode White_Space property (the set `str::trim` removes).
pub open spec fn is_space_char(c: char) -> bool {
    let n = c as u32;
    ||| (0x9 <= n && n <= 0xd)
    ||| n == 0x20
    ||| n == 0x85
    ||| n == 0xa0
    ||| n == 0x1680
    ||| (0x2000 <= n && n <= 0x200a)
    ||| n == 0x2028
    ||| n == 0x2029
    ||| n == 0x202f
    ||| n == 0x205f
    ||| n == 0x3000
}

/// Every character of `s` is whitespace; in particular an empty `s` is
/// blank.  This is exactly "`s.trim()` is empty".
pub open spec fn blank(s: Seq<char>) -> bool {
    forall|i: int| 0 <= i < s.len() ==> is_space_char(#[trigger] s[i])
}

/// Exec check for `is_space_char`.
pub fn is_space(c: char) -> (r: bool)
    ensures
        r == is_space_char(c),
{
    let n = c as u32;
    (0x9 <= n && n <= 0xd) || n == 0x20 || n == 0x85 || n == 0xa0 || n == 0x1680 || (0x2000 <= n
        && n <= 0x200a) || n == 0x2028 || n == 0x2029 || n == 0x202f || n == 0x205f || n == 0x3000
}

/// Exec check for `blank`.
pub fn is_blank(s: &str) -> (r: bool)
    ensures
        r == blank(s@),
{
    let n = s.unicode_len();
    let mut i: usize = 0;
    while i < n
        invariant
            i <= n,
            n == s@.len(),
            forall|j: int| 0 <= j < i ==> is_space_char(#[trigger] s@[j]),
        decreases n - i,
    {
        if !is_space(s.get_char(i)) {
            return false;
        }
        i += 1;
    }
    true
}

impl Body {
    /// Every body invariant holds.
    pub open spec fn valid(self) -> bool {
        &&& !blank(self.id@)
        &&& f64_bits_pos(self.mass_bits)
        &&& f64_bits_pos(self.radius_bits)
        &&& self.position.finite()
        &&& self.velocity.finite()
    }

    /// A fresh, alive body with no metadata.
    pub fn new(id: String, mass_bits: u64, radius_bits: u64, position: Vec2Bits, velocity: Vec2Bits) -> (r: Body)
        ensures
            r == (Body {
                id,
                mass_bits,
                radius_bits,
                position,
                velocity,
                alive: true,
                metadata: None,
            }),
    {
        Body { id, mass_bits, radius_bits, position, velocity, alive: true, metadata: None }
    }

    /// Checks every invariant, reporting the first violation in a fixed
    /// order.  The engine never clamps an offending value.
    pub fn validate(&self) -> (r: Result<(), EngineError>)
        ensures
            r is Ok <==> self.valid(),
            r matches Err(e) ==> is_body_error(e, *self),
    {
        if is_blank(self.id.as_str()) {
            return Err(EngineError::InvalidBody("id must not be empty".to_owned()));
        }
        if !is_pos_bits(self.mass_bits) {
            return Err(EngineError::InvalidBody(body_msg(&self.id, "' mass must be finite and > 0")));
        }
        if !is_pos_bits(self.radius_bits) {
            return Err(
                EngineError::InvalidBody(body_msg(&self.id, "' radius must be finite and > 0")),
            );
        }
        if !self.position.is_finite() {
            return Err(EngineError::InvalidBody(body_msg(&self.id, "' position must be finite")));
        }
        if !self.velocity.is_finite() {
            return Err(EngineError::InvalidBody(body_msg(&self.id, "' velocity must be finite")));
        }
        Ok(())
    }

    /// A copy that is provably equal to `self`.
    pub fn duplicate(&self) -> (r: Body)
        ensures
            r == *self,
    {
        Body {
            id: self.id.clone(),
            mass_bits: self.mass_bits,
            radius_bits: self.radius_bits,
            position: self.position,
            velocity: self.velocity,
            alive: self.alive,
            metadata: duplicate_metadata(&self.metadata),
        }
    }
}

/// A copy of an optional string that is provably equal to the original.
fn duplicate_opt_string(o: &Option<String>) -> (r: Option<String>)
    ensures
        r == *o,
{
    match o {
        None => None,
        Some(s) => Some(s.clone()),
    }
}

/// A copy of optional metadata that is provably equal to the original.
pub fn duplicate_metadata(o: &Option<BodyMetadata>) -> (r: Option<BodyMetadata>)
    ensures
        r == *o,
{
    match o {
        None => None,
        Some(m) => Some(
            BodyMetadata {
                label: duplicate_opt_string(&m.label),
                kind: duplicate_opt_string(&m.kind),
                color: duplicate_opt_string(&m.color),
            },
        ),
    }
}

/// "body '<id><suffix>": the shared shape of the per-body error details.
pub(crate) fn body_msg(id: &String, suffix: &str) -> (r: String)
    ensures
        r@ == "body '"@ + id@ + suffix@,
{
    let mut m = "body '".to_owned();
    m.append(id.as_str());
    m.append(suffix);
    m
}

/// The detail string of the first violated body invariant, in the order
/// `validate` checks them (meaningful only when `!b.valid()`).
pub open spec fn body_error_detail(b: Body) -> Seq<char> {
    if blank(b.id@) {
        "id must not be empty"@
    } else if !f64_bits_pos(b.mass_bits) {
        "body '"@ + b.id@ + "' mass must be finite and > 0"@
    } else if !f64_bits_pos(b.radius_bits) {
        "body '"@ + b.id@ + "' radius must be finite and > 0"@
    } else if !b.position.finite() {
        "body '"@ + b.id@ + "' position must be finite"@
    } else {
        "body '"@ + b.id@ + "' velocity must be finite"@
    }
}

/// `e` is the error `Body::validate` reports for the invalid body `b`.
pub open spec fn is_body_error(e: EngineError, b: Body) -> bool {
    e matches EngineError::InvalidBody(m) && m@ == body_error_detail(b)
}

/// A partial mutation of one body, addressed by id; `None` fields are left
/// unchanged.
#[derive(Clone, Debug, PartialEq)]
pub struct BodyUpdate {
    pub id: String,
    pub mass_bits: Option<u64>,
    pub radius_bits: Option<u64>,
    pub position: Option<Vec2Bits>,
    pub velocity: Option<Vec2Bits>,
    pub alive: Option<bool>,
    pub metadata: Option<BodyMetadata>,
}

/// A tagged edit of the body population.
#[derive(Clone, Debug, PartialEq)]
pub enum BodyEdit {
    Create(Body),
    Update(BodyUpdate),
    Delete { id: String },
}

/// The body `b` after the permitted fields of `u` are applied; the id never
/// changes.
pub open spec fn patched(b: Body, u: BodyUpdate) -> Body {
    Body {
        id: b.id,
        mass_bits: if u.mass_bits is Some {
            u.mass_bits->0
        } else {
            b.mass_bits
        },
        radius_bits: if u.radius_bits is Some {
            u.radius_bits->0
        } else {
            b.radius_bits
        },
        position: if u.position is Some {
            u.position->0
        } else {
            b.position
        },
        velocity: if u.velocity is Some {
            u.velocity->0
        } else {
            b.velocity
        },
        alive: if u.alive is Some {
            u.alive->0
        } else {
            b.alive
        },
        metadata: if u.metadata is Some {
            u.metadata
        } else {
            b.metadata
        },
    }
}

/// Exec form of `patched`: applies the permitted fields of `u` to a copy of
/// `b`.
pub fn patch_body(b: &Body, u: BodyUpdate) -> (r: Body)
    ensures
        r == patched(*b, u),
{
    Body {
        id: b.id.clone(),
        mass_bits: match u.mass_bits {
            Some(m) => m,
            None => b.mass_bits,
        },
        radius_bits: match u.radius_bits {
            Some(x) => x,
            None => b.radius_bits,
        },
        position: match u.position {
            Some(p) => p,
            None => b.position,
        },
        velocity: match u.velocity {
            Some(v) => v,
            None => b.velocity,
        },
        alive: match u.alive {
            Some(a) => a,
            None => b.alive,
        },
        metadata: match u.metadata {
            Some(m) => Some(m),
            None => duplicate_metadata(&b.metadata),
        },
    }
}

} // verus!
