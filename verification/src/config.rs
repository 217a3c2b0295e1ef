//! The engine's immutable-per-step parameter block: the enumerated policies,
//! the configuration record, its validation, and the stable digest that tags
//! snapshots.
//!
//! The digest must be identical across runs and processes, so it is computed
//! here with a fixed algorithm (64-bit FNV-1a over a canonical byte encoding
//! of the configuration) rather than with a seeded hasher.

use vstd::prelude::*;
use vstd::string::StringExecFns;

use crate::errors::EngineError;
use crate::fbits::{
    f64_bits_nonneg, f64_bits_pos, f64_bits_pos_le_two, is_nonneg_bits, is_pos_bits,
    is_pos_le_two_bits,
};

verus! {

/// The time integration scheme.
#[derive(Clone, Copy, Debug, PartialEq, Eq, Hash, Structural)]
pub enum IntegratorKind {
    SemiImplicitEuler,
    VelocityVerlet,
    Rk4,
}

/// How contacts between bodies are resolved.
#[derive(Clone, Copy, Debug, PartialEq, Eq, Hash, Structural)]
pub enum CollisionMode {
    Elastic,
    InelasticMerge,
    Ignore,
}

/// Whether the step size is fixed or adapted per tick.
#[derive(Clone, Copy, Debug, PartialEq, Eq, Hash, Structural)]
pub enum DtPolicy {
    Fixed,
    Adaptive,
}

/// Which gravity solver the engine uses.
#[derive(Clone, Copy, Debug, PartialEq, Eq, Hash, Structural)]
pub enum GravitySolver {
    Pairwise,
    BarnesHut,
    Auto,
}

/// Bit pattern of the default gravitational constant, 6.67430e-11.
pub const DEFAULT_GRAVITY_CONSTANT_BITS: u64 = 0x3dd2589effed8acc;

/// Bit pattern of the default softening, 1e-3.
pub const DEFAULT_SOFTENING_EPSILON_BITS: u64 = 0x3f50624dd2f1a9fc;

/// Bit pattern of the default base step, 1.0.
pub const DEFAULT_DT_BITS: u64 = 0x3ff0000000000000;

/// Bit pattern of the default Barnes-Hut opening angle, 0.6.
pub const DEFAULT_BARNES_HUT_THETA_BITS: u64 = 0x3fe3333333333333;

/// The solver mode used when a host document omits it.
pub fn default_gravity_solver() -> (r: GravitySolver)
    ensures
        r == GravitySolver::Auto,
{
    GravitySolver::Auto
}

/// The opening-angle bit pattern used when a host document omits it.
pub fn default_barnes_hut_theta_bits() -> (r: u64)
    ensures
        r == DEFAULT_BARNES_HUT_THETA_BITS,
{
    DEFAULT_BARNES_HUT_THETA_BITS
}

/// The Barnes-Hut switching threshold used when a host document omits it.
pub fn default_barnes_hut_threshold() -> (r: usize)
    ensures
        r == 256,
{
    256
}

/// The engine's parameter block.  Real-valued fields carry IEEE-754 double
/// bit patterns.
#[derive(Clone, Copy, Debug, PartialEq, Eq, Structural)]
pub struct EngineConfig {
    /// Gravitational constant G; must be finite and > 0.
    pub gravity_constant_bits: u64,
    /// Softening epsilon; must be finite and >= 0.
    pub softening_epsilon_bits: u64,
    /// Base step dt; must be finite and > 0.
    pub dt_bits: u64,
    pub dt_policy: DtPolicy,
    pub integrator: IntegratorKind,
    pub collision_mode: CollisionMode,
    pub deterministic: bool,
    pub gravity_solver: GravitySolver,
    /// Barnes-Hut opening angle theta; must be finite and in (0, 2].
    pub barnes_hut_theta_bits: u64,
    /// Alive-body count at which `Auto` switches to Barnes-Hut; must be >= 1.
    pub barnes_hut_threshold: usize,
}

impl EngineConfig {
    /// Every configuration invariant holds.
    pub open spec fn valid(self) -> bool {
        &&& f64_bits_pos(self.gravity_constant_bits)
        &&& f64_bits_nonneg(self.softening_epsilon_bits)
        &&& f64_bits_pos(self.dt_bits)
        &&& !(self.deterministic && self.dt_policy is Adaptive)
        &&& f64_bits_pos_le_two(self.barnes_hut_theta_bits)
        &&& self.barnes_hut_threshold >= 1
    }

    /// Checks every invariant, reporting the first violation in a fixed
    /// order.
    pub fn validate(&self) -> (r: Result<(), EngineError>)
        ensures
            r is Ok <==> self.valid(),
            r matches Err(e) ==> e matches EngineError::InvalidConfig(m) && m@
                == config_error_detail(*self),
    {
        if !is_pos_bits(self.gravity_constant_bits) {
            return Err(
                EngineError::InvalidConfig("gravity_constant must be finite and > 0".to_owned()),
            );
        }
        if !is_nonneg_bits(self.softening_epsilon_bits) {
            return Err(
                EngineError::InvalidConfig("softening_epsilon must be finite and >= 0".to_owned()),
            );
        }
        if !is_pos_bits(self.dt_bits) {
            return Err(EngineError::InvalidConfig("dt must be finite and > 0".to_owned()));
        }
        if self.deterministic && matches!(self.dt_policy, DtPolicy::Adaptive) {
            return Err(
                EngineError::InvalidConfig(
                    "adaptive dt is not allowed in deterministic mode".to_owned(),
                ),
            );
        }
        if !is_pos_le_two_bits(self.barnes_hut_theta_bits) {
            return Err(
                EngineError::InvalidConfig(
                    "barnes_hut_theta must be finite and in (0, 2]".to_owned(),
                ),
            );
        }
        if self.barnes_hut_threshold == 0 {
            return Err(
                EngineError::InvalidConfig("barnes_hut_threshold must be >= 1".to_owned()),
            );
        }
        Ok(())
    }
}

/// Canonical one-byte code of each integrator, for the digest.
pub open spec fn integrator_code(k: IntegratorKind) -> u8 {
    match k {
        IntegratorKind::SemiImplicitEuler => 0,
        IntegratorKind::VelocityVerlet => 1,
        IntegratorKind::Rk4 => 2,
    }
}

/// Canonical one-byte code of each collision mode, for the digest.
pub open spec fn collision_code(m: CollisionMode) -> u8 {
    match m {
        CollisionMode::Elastic => 0,
        CollisionMode::InelasticMerge => 1,
        CollisionMode::Ignore => 2,
    }
}

/// Canonical one-byte code of each dt policy, for the digest.
pub open spec fn dt_policy_code(p: DtPolicy) -> u8 {
    match p {
        DtPolicy::Fixed => 0,
        DtPolicy::Adaptive => 1,
    }
}

/// Canonical one-byte code of each solver mode, for the digest.
pub open spec fn solver_code(s: GravitySolver) -> u8 {
    match s {
        GravitySolver::Pairwise => 0,
        GravitySolver::BarnesHut => 1,
        GravitySolver::Auto => 2,
    }
}

/// The eight bytes of `x`, least significant first.
pub open spec fn u64_le_bytes(x: u64) -> Seq<u8> {
    seq![
        (x & 0xff) as u8,
        ((x >> 8) & 0xff) as u8,
        ((x >> 16) & 0xff) as u8,
        ((x >> 24) & 0xff) as u8,
        ((x >> 32) & 0xff) as u8,
        ((x >> 40) & 0xff) as u8,
        ((x >> 48) & 0xff) as u8,
        ((x >> 56) & 0xff) as u8,
    ]
}

/// The canonical byte encoding of a configuration that the digest covers:
/// the discrete policies, the deterministic flag, the threshold, and the bit
/// patterns of G, epsilon, dt and theta.
pub open spec fn digest_bytes(c: EngineConfig) -> Seq<u8> {
    seq![
        integrator_code(c.integrator),
        collision_code(c.collision_mode),
        dt_policy_code(c.dt_policy),
        (if c.deterministic {
            1u8
        } else {
            0u8
        }),
        solver_code(c.gravity_solver),
    ] + u64_le_bytes(c.barnes_hut_threshold as u64) + u64_le_bytes(c.gravity_constant_bits)
        + u64_le_bytes(c.softening_epsilon_bits) + u64_le_bytes(c.dt_bits) + u64_le_bytes(
        c.barnes_hut_theta_bits,
    )
}

/// 64-bit FNV-1a over a byte sequence.
pub open spec fn fnv1a64(s: Seq<u8>) -> u64
    decreases s.len(),
{
    if s.len() == 0 {
        0xcbf29ce484222325u64
    } else {
        vstd::wrapping::u64_specs::wrapping_mul(
            fnv1a64(s.drop_last()) ^ (s.last() as u64),
            0x100000001b3u64,
        )
    }
}

/// The lower-case hex character of the low four bits of `d`.
pub open spec fn hex_digit(d: u64) -> char {
    let n = d & 0xf;
    if n == 0 {
        '0'
    } else if n == 1 {
        '1'
    } else if n == 2 {
        '2'
    } else if n == 3 {
        '3'
    } else if n == 4 {
        '4'
    } else if n == 5 {
        '5'
    } else if n == 6 {
        '6'
    } else if n == 7 {
        '7'
    } else if n == 8 {
        '8'
    } else if n == 9 {
        '9'
    } else if n == 10 {
        'a'
    } else if n == 11 {
        'b'
    } else if n == 12 {
        'c'
    } else if n == 13 {
        'd'
    } else if n == 14 {
        'e'
    } else {
        'f'
    }
}

/// The sixteen hex characters of `h`, most significant nibble first.
pub open spec fn hex16(h: u64) -> Seq<char> {
    Seq::new(16, |i: int| hex_digit((h >> ((4 * (15 - i)) as u64)) & 0xf))
}

/// Appends the eight bytes of `x` to `bytes`, least significant first.
fn push_u64_le(bytes: &mut Vec<u8>, x: u64)
    ensures
        final(bytes)@ == old(bytes)@ + u64_le_bytes(x),
{
    bytes.push((x & 0xff) as u8);
    bytes.push(((x >> 8u64) & 0xff) as u8);
    bytes.push(((x >> 16u64) & 0xff) as u8);
    bytes.push(((x >> 24u64) & 0xff) as u8);
    bytes.push(((x >> 32u64) & 0xff) as u8);
    bytes.push(((x >> 40u64) & 0xff) as u8);
    bytes.push(((x >> 48u64) & 0xff) as u8);
    bytes.push(((x >> 56u64) & 0xff) as u8);
    proof {
        assert(bytes@ =~= old(bytes)@ + u64_le_bytes(x));
    }
}

/// A one-character string holding the hex character of `d`.
fn hex_char_str(d: u64) -> (r: &'static str)
    requires
        d < 16,
    ensures
        r@ == seq![hex_digit(d)],
{
    proof {
        reveal_strlit("0");
        reveal_strlit("1");
        reveal_strlit("2");
        reveal_strlit("3");
        reveal_strlit("4");
        reveal_strlit("5");
        reveal_strlit("6");
        reveal_strlit("7");
        reveal_strlit("8");
        reveal_strlit("9");
        reveal_strlit("a");
        reveal_strlit("b");
        reveal_strlit("c");
        reveal_strlit("d");
        reveal_strlit("e");
        reveal_strlit("f");
        assert(d & 0xf == d) by (bit_vector)
            requires
                d < 16,
        ;
    }
    if d == 0 {
        "0"
    } else if d == 1 {
        "1"
    } else if d == 2 {
        "2"
    } else if d == 3 {
        "3"
    } else if d == 4 {
        "4"
    } else if d == 5 {
        "5"
    } else if d == 6 {
        "6"
    } else if d == 7 {
        "7"
    } else if d == 8 {
        "8"
    } else if d == 9 {
        "9"
    } else if d == 10 {
        "a"
    } else if d == 11 {
        "b"
    } else if d == 12 {
        "c"
    } else if d == 13 {
        "d"
    } else if d == 14 {
        "e"
    } else {
        "f"
    }
}

impl EngineConfig {
    /// The 16-hex-digit stable digest of the configuration: 64-bit FNV-1a
    /// over the canonical byte encoding.  It depends on the discrete
    /// policies, the deterministic flag, the threshold, and the exact bit
    /// patterns of G, epsilon, dt and theta, and on nothing else, so equal
    /// configurations hash equally across runs and processes.
    pub fn stable_hash(&self) -> (r: String)
        ensures
            r@ == hex16(fnv1a64(digest_bytes(*self))),
            r@.len() == 16,
    {
        let mut bytes: Vec<u8> = Vec::new();
        let c1: u8 = match self.integrator {
            IntegratorKind::SemiImplicitEuler => 0,
            IntegratorKind::VelocityVerlet => 1,
            IntegratorKind::Rk4 => 2,
        };
        let c2: u8 = match self.collision_mode {
            CollisionMode::Elastic => 0,
            CollisionMode::InelasticMerge => 1,
            CollisionMode::Ignore => 2,
        };
        let c3: u8 = match self.dt_policy {
            DtPolicy::Fixed => 0,
            DtPolicy::Adaptive => 1,
        };
        let c4: u8 = if self.deterministic {
            1
        } else {
            0
        };
        let c5: u8 = match self.gravity_solver {
            GravitySolver::Pairwise => 0,
            GravitySolver::BarnesHut => 1,
            GravitySolver::Auto => 2,
        };
        bytes.push(c1);
        bytes.push(c2);
        bytes.push(c3);
        bytes.push(c4);
        bytes.push(c5);
        push_u64_le(&mut bytes, self.barnes_hut_threshold as u64);
        push_u64_le(&mut bytes, self.gravity_constant_bits);
        push_u64_le(&mut bytes, self.softening_epsilon_bits);
        push_u64_le(&mut bytes, self.dt_bits);
        push_u64_le(&mut bytes, self.barnes_hut_theta_bits);
        proof {
            assert(bytes@ =~= digest_bytes(*self));
        }
        let mut h: u64 = 0xcbf29ce484222325;
        let mut i: usize = 0;
        while i < bytes.len()
            invariant
                i <= bytes@.len(),
                h == fnv1a64(bytes@.take(i as int)),
                bytes@ == digest_bytes(*self),
            decreases bytes@.len() - i,
        {
            let b = bytes[i];
            h = (h ^ (b as u64)).wrapping_mul(0x100000001b3);
            proof {
                assert(bytes@.take((i + 1) as int).drop_last() =~= bytes@.take(i as int));
            }
            i += 1;
        }
        proof {
            assert(bytes@.take(bytes@.len() as int) =~= bytes@);
        }
        let mut out = String::new();
        let mut j: usize = 0;
        while j < 16
            invariant
                j <= 16,
                out@ == hex16(h).take(j as int),
            decreases 16 - j,
        {
            let sh: u64 = 60 - 4 * (j as u64);
            let d: u64 = (h >> sh) & 0xf;
            proof {
                let sh2: u64 = sh;
                assert((h >> sh2) & 0xf < 16) by (bit_vector);
                assert((4 * (15 - (j as int))) as u64 == sh);
            }
            let s = hex_char_str(d);
            out.append(s);
            proof {
                assert(hex_digit((h >> ((4 * (15 - (j as int))) as u64)) & 0xf) == hex_digit(d));
                assert(hex16(h).take((j + 1) as int) =~= hex16(h).take(j as int) + seq![
                    hex16(h)[j as int],
                ]);
            }
            j += 1;
        }
        proof {
            assert(hex16(h).take(16) =~= hex16(h));
        }
        out
    }
}

/// The detail string of the first violated configuration invariant, in the
/// order `validate` checks them (meaningful only when `!c.valid()`).
pub open spec fn config_error_detail(c: EngineConfig) -> Seq<char> {
    if !f64_bits_pos(c.gravity_constant_bits) {
        "gravity_constant must be finite and > 0"@
    } else if !f64_bits_nonneg(c.softening_epsilon_bits) {
        "softening_epsilon must be finite and >= 0"@
    } else if !f64_bits_pos(c.dt_bits) {
        "dt must be finite and > 0"@
    } else if c.deterministic && c.dt_policy is Adaptive {
        "adaptive dt is not allowed in deterministic mode"@
    } else if !f64_bits_pos_le_two(c.barnes_hut_theta_bits) {
        "barnes_hut_theta must be finite and in (0, 2]"@
    } else {
        "barnes_hut_threshold must be >= 1"@
    }
}

/// `e` is the error `validate` reports for the invalid configuration `c`.
pub open spec fn is_config_error(e: EngineError, c: EngineConfig) -> bool {
    e matches EngineError::InvalidConfig(m) && m@ == config_error_detail(c)
}

impl Default for EngineConfig {
    /// The documented defaults: G = 6.67430e-11, epsilon = 1e-3, dt = 1.0,
    /// fixed step, velocity-Verlet, inelastic merge, deterministic, Auto
    /// solver, theta = 0.6, threshold = 256.
    fn default() -> (r: EngineConfig)
        ensures
            r == (EngineConfig {
                gravity_constant_bits: DEFAULT_GRAVITY_CONSTANT_BITS,
                softening_epsilon_bits: DEFAULT_SOFTENING_EPSILON_BITS,
                dt_bits: DEFAULT_DT_BITS,
                dt_policy: DtPolicy::Fixed,
                integrator: IntegratorKind::VelocityVerlet,
                collision_mode: CollisionMode::InelasticMerge,
                deterministic: true,
                gravity_solver: GravitySolver::Auto,
                barnes_hut_theta_bits: DEFAULT_BARNES_HUT_THETA_BITS,
                barnes_hut_threshold: 256,
            }),
            r.valid(),
    {
        proof {
            assert((0x3dd2589effed8accu64 >> 52) & 0x7ff != 0x7ff && 0x3dd2589effed8accu64 >> 63
                == 0) by (bit_vector);
            assert((0x3f50624dd2f1a9fcu64 >> 52) & 0x7ff != 0x7ff && 0x3f50624dd2f1a9fcu64 >> 63
                == 0) by (bit_vector);
            assert((0x3ff0000000000000u64 >> 52) & 0x7ff != 0x7ff && 0x3ff0000000000000u64 >> 63
                == 0) by (bit_vector);
            assert((0x3fe3333333333333u64 >> 52) & 0x7ff != 0x7ff && 0x3fe3333333333333u64 >> 63
                == 0) by (bit_vector);
        }
        EngineConfig {
            gravity_constant_bits: DEFAULT_GRAVITY_CONSTANT_BITS,
            softening_epsilon_bits: DEFAULT_SOFTENING_EPSILON_BITS,
            dt_bits: DEFAULT_DT_BITS,
            dt_policy: DtPolicy::Fixed,
            integrator: IntegratorKind::VelocityVerlet,
            collision_mode: CollisionMode::InelasticMerge,
            deterministic: true,
            gravity_solver: GravitySolver::Auto,
            barnes_hut_theta_bits: DEFAULT_BARNES_HUT_THETA_BITS,
            barnes_hut_threshold: 256,
        }
    }
}

} // verus!
