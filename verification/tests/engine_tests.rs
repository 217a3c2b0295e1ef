//! End-to-end tests that drive the verified orchestrator with a
//! floating-point physics kernel defined here: pairwise and Barnes-Hut
//! gravity, the three integrators, and the collision resolver, all handed to
//! `SimulationEngine::step_with` one tick at a time.

use gravity_engine::{
    Body, CollisionMode, CollisionStats, DtPolicy, EngineConfig, GravitySolver, IntegratorKind,
    SimulationEngine, Vec2Bits,
};
use gravity_engine::engine::TickOutcome;

#[derive(Clone, Copy, Debug, PartialEq)]
struct V2 {
    x: f64,
    y: f64,
}

const V2_ZERO: V2 = V2 { x: 0.0, y: 0.0 };

impl V2 {
    fn new(x: f64, y: f64) -> V2 {
        V2 { x, y }
    }
    fn add(self, o: V2) -> V2 {
        V2::new(self.x + o.x, self.y + o.y)
    }
    fn sub(self, o: V2) -> V2 {
        V2::new(self.x - o.x, self.y - o.y)
    }
    fn scale(self, k: f64) -> V2 {
        V2::new(self.x * k, self.y * k)
    }
    fn div(self, k: f64) -> V2 {
        V2::new(self.x / k, self.y / k)
    }
    fn dot(self, o: V2) -> f64 {
        self.x * o.x + self.y * o.y
    }
    fn norm_squared(self) -> f64 {
        self.dot(self)
    }
    fn norm(self) -> f64 {
        self.norm_squared().sqrt()
    }
    fn is_finite(self) -> bool {
        self.x.is_finite() && self.y.is_finite()
    }
}

#[derive(Clone, Debug)]
struct FBody {
    id: String,
    mass: f64,
    radius: f64,
    position: V2,
    velocity: V2,
    alive: bool,
}

fn to_fbody(b: &Body) -> FBody {
    FBody {
        id: b.id.clone(),
        mass: f64::from_bits(b.mass_bits),
        radius: f64::from_bits(b.radius_bits),
        position: V2::new(f64::from_bits(b.position.x), f64::from_bits(b.position.y)),
        velocity: V2::new(f64::from_bits(b.velocity.x), f64::from_bits(b.velocity.y)),
        alive: b.alive,
    }
}

fn from_fbody(f: &FBody) -> Body {
    Body {
        id: f.id.clone(),
        mass_bits: f.mass.to_bits(),
        radius_bits: f.radius.to_bits(),
        position: Vec2Bits { x: f.position.x.to_bits(), y: f.position.y.to_bits() },
        velocity: Vec2Bits { x: f.velocity.x.to_bits(), y: f.velocity.y.to_bits() },
        alive: f.alive,
        metadata: None,
    }
}

fn body(id: &str, mass: f64, radius: f64, position: V2, velocity: V2) -> Body {
    Body::new(
        id.to_string(),
        mass.to_bits(),
        radius.to_bits(),
        Vec2Bits { x: position.x.to_bits(), y: position.y.to_bits() },
        Vec2Bits { x: velocity.x.to_bits(), y: velocity.y.to_bits() },
    )
}

fn config_bits(
    g: f64,
    epsilon: f64,
    dt: f64,
    integrator: IntegratorKind,
    collision_mode: CollisionMode,
    solver: GravitySolver,
    theta: f64,
    threshold: usize,
) -> EngineConfig {
    EngineConfig {
        gravity_constant_bits: g.to_bits(),
        softening_epsilon_bits: epsilon.to_bits(),
        dt_bits: dt.to_bits(),
        dt_policy: DtPolicy::Fixed,
        integrator,
        collision_mode,
        deterministic: true,
        gravity_solver: solver,
        barnes_hut_theta_bits: theta.to_bits(),
        barnes_hut_threshold: threshold,
    }
}

fn base_config() -> EngineConfig {
    config_bits(
        1.0,
        1e-6,
        0.001,
        IntegratorKind::VelocityVerlet,
        CollisionMode::Ignore,
        GravitySolver::Pairwise,
        0.6,
        256,
    )
}

// ----- gravity solvers -----

fn pairwise_accelerations(bodies: &[FBody], positions: &[V2], g: f64, epsilon: f64) -> Vec<V2> {
    let count = bodies.len();
    let mut acc = vec![V2_ZERO; count];
    let epsilon2 = epsilon * epsilon;
    for i in 0..count {
        if !bodies[i].alive {
            continue;
        }
        for j in (i + 1)..count {
            if !bodies[j].alive {
                continue;
            }
            let delta = positions[j].sub(positions[i]);
            let dist_sq = delta.norm_squared() + epsilon2;
            if dist_sq <= 0.0 {
                continue;
            }
            let inv_dist = dist_sq.sqrt().recip();
            let inv_dist3 = inv_dist * inv_dist * inv_dist;
            let scale = g * inv_dist3;
            acc[i] = acc[i].add(delta.scale(scale * bodies[j].mass));
            acc[j] = acc[j].sub(delta.scale(scale * bodies[i].mass));
        }
    }
    acc
}

struct QuadNode {
    center: V2,
    half_size: f64,
    mass: f64,
    com: V2,
    count: usize,
    body_index: Option<usize>,
    children: [Option<Box<QuadNode>>; 4],
}

impl QuadNode {
    fn new(center: V2, half_size: f64) -> QuadNode {
        QuadNode {
            center,
            half_size,
            mass: 0.0,
            com: V2_ZERO,
            count: 0,
            body_index: None,
            children: [None, None, None, None],
        }
    }

    fn is_leaf(&self) -> bool {
        self.children.iter().all(|c| c.is_none())
    }

    fn insert(&mut self, index: usize, positions: &[V2], masses: &[f64], min_half: f64) {
        let position = positions[index];
        let mass = masses[index];
        if self.count == 0 {
            self.count = 1;
            self.mass = mass;
            self.com = position;
            self.body_index = Some(index);
            return;
        }
        let previous_mass = self.mass;
        let next_mass = previous_mass + mass;
        if next_mass > 0.0 {
            self.com = self.com.scale(previous_mass).add(position.scale(mass)).div(next_mass);
        }
        self.mass = next_mass;
        self.count += 1;
        if self.is_leaf() {
            if let Some(existing) = self.body_index.take() {
                let same_spot = positions[existing].sub(position).norm_squared() <= 1e-18;
                if self.half_size <= min_half || same_spot {
                    self.body_index = None;
                    return;
                }
                self.ensure_children();
                self.insert_into_child(existing, positions, masses, min_half);
                self.insert_into_child(index, positions, masses, min_half);
                return;
            }
            return;
        }
        self.insert_into_child(index, positions, masses, min_half);
    }

    fn insert_into_child(&mut self, index: usize, positions: &[V2], masses: &[f64], min_half: f64) {
        if self.is_leaf() {
            self.ensure_children();
        }
        let child_index = self.child_index(positions[index]);
        if let Some(child) = self.children[child_index].as_mut() {
            child.insert(index, positions, masses, min_half);
        }
    }

    fn ensure_children(&mut self) {
        if !self.is_leaf() {
            return;
        }
        let child_half = self.half_size * 0.5;
        for index in 0..4 {
            let x_offset = if index % 2 == 0 { -child_half } else { child_half };
            let y_offset = if index < 2 { -child_half } else { child_half };
            let center = V2::new(self.center.x + x_offset, self.center.y + y_offset);
            self.children[index] = Some(Box::new(QuadNode::new(center, child_half)));
        }
    }

    fn child_index(&self, position: V2) -> usize {
        let x = usize::from(position.x >= self.center.x);
        let y = if position.y >= self.center.y { 2 } else { 0 };
        x + y
    }
}

fn accumulate_force(
    node: &QuadNode,
    body_index: usize,
    body_position: V2,
    g: f64,
    epsilon2: f64,
    theta: f64,
    out: &mut V2,
) {
    if node.count == 0 || node.mass <= 0.0 {
        return;
    }
    if node.count == 1 && node.body_index == Some(body_index) {
        return;
    }
    let delta = node.com.sub(body_position);
    let dist_sq = delta.norm_squared() + epsilon2;
    if dist_sq <= 0.0 {
        return;
    }
    let distance = dist_sq.sqrt();
    let size = node.half_size * 2.0;
    if node.is_leaf() || (size / distance) < theta {
        let inv_dist = distance.recip();
        let inv_dist3 = inv_dist * inv_dist * inv_dist;
        *out = out.add(delta.scale(g * node.mass * inv_dist3));
        return;
    }
    for child in node.children.iter().flatten() {
        accumulate_force(child, body_index, body_position, g, epsilon2, theta, out);
    }
}

fn barnes_hut_accelerations(
    bodies: &[FBody],
    positions: &[V2],
    g: f64,
    epsilon: f64,
    theta: f64,
) -> Vec<V2> {
    let count = bodies.len();
    let mut acc = vec![V2_ZERO; count];
    let alive_indices: Vec<usize> =
        bodies.iter().enumerate().filter_map(|(i, b)| if b.alive { Some(i) } else { None }).collect();
    if alive_indices.len() < 2 {
        return acc;
    }
    let masses: Vec<f64> = bodies.iter().map(|b| b.mass).collect();
    let mut min_x = f64::INFINITY;
    let mut max_x = f64::NEG_INFINITY;
    let mut min_y = f64::INFINITY;
    let mut max_y = f64::NEG_INFINITY;
    for &i in &alive_indices {
        let p = positions[i];
        min_x = min_x.min(p.x);
        max_x = max_x.max(p.x);
        min_y = min_y.min(p.y);
        max_y = max_y.max(p.y);
    }
    let span = (max_x - min_x).abs().max((max_y - min_y).abs()).max(1e-6);
    let half_size = 0.5 * span + 1e-6;
    let center = V2::new(0.5 * (min_x + max_x), 0.5 * (min_y + max_y));
    let mut root = QuadNode::new(center, half_size);
    let min_half = (half_size * 1e-6).max(1e-9);
    for &i in &alive_indices {
        root.insert(i, positions, &masses, min_half);
    }
    let epsilon2 = epsilon * epsilon;
    for &i in &alive_indices {
        let mut a = V2_ZERO;
        accumulate_force(&root, i, positions[i], g, epsilon2, theta, &mut a);
        acc[i] = a;
    }
    acc
}

fn compute_accelerations(bodies: &[FBody], positions: &[V2], cfg: &EngineConfig) -> Vec<V2> {
    let g = f64::from_bits(cfg.gravity_constant_bits);
    let epsilon = f64::from_bits(cfg.softening_epsilon_bits);
    let theta = f64::from_bits(cfg.barnes_hut_theta_bits);
    let alive = bodies.iter().filter(|b| b.alive).count();
    let use_tree = match cfg.gravity_solver {
        GravitySolver::Pairwise => false,
        GravitySolver::BarnesHut => alive >= 2,
        GravitySolver::Auto => alive >= cfg.barnes_hut_threshold,
    };
    if use_tree {
        barnes_hut_accelerations(bodies, positions, g, epsilon, theta)
    } else {
        pairwise_accelerations(bodies, positions, g, epsilon)
    }
}

// ----- integrators -----

fn effective_dt(bodies: &[FBody], cfg: &EngineConfig) -> f64 {
    let dt = f64::from_bits(cfg.dt_bits);
    if !matches!(cfg.dt_policy, DtPolicy::Adaptive) {
        return dt;
    }
    let mut max_speed = 0.0_f64;
    for b in bodies.iter().filter(|b| b.alive) {
        max_speed = max_speed.max(b.velocity.norm());
    }
    let mut min_distance = f64::INFINITY;
    for i in 0..bodies.len() {
        if !bodies[i].alive {
            continue;
        }
        for j in (i + 1)..bodies.len() {
            if !bodies[j].alive {
                continue;
            }
            let d = bodies[j].position.sub(bodies[i].position).norm();
            if d > 0.0 {
                min_distance = min_distance.min(d);
            }
        }
    }
    if !min_distance.is_finite() || max_speed == 0.0 {
        return dt;
    }
    (0.05 * min_distance / max_speed).clamp(dt * 0.05, dt)
}

/// Integrates one tick; returns Err with the offending body id on a
/// non-finite result.
fn integrate(bodies: &mut [FBody], cfg: &EngineConfig, dt: f64) -> Result<(), String> {
    match cfg.integrator {
        IntegratorKind::SemiImplicitEuler => {
            let positions: Vec<V2> = bodies.iter().map(|b| b.position).collect();
            let acc = compute_accelerations(bodies, &positions, cfg);
            for (i, b) in bodies.iter_mut().enumerate() {
                if !b.alive {
                    continue;
                }
                b.velocity = b.velocity.add(acc[i].scale(dt));
                b.position = b.position.add(b.velocity.scale(dt));
                if !b.position.is_finite() || !b.velocity.is_finite() {
                    return Err(b.id.clone());
                }
            }
        }
        IntegratorKind::VelocityVerlet => {
            let p0: Vec<V2> = bodies.iter().map(|b| b.position).collect();
            let a0 = compute_accelerations(bodies, &p0, cfg);
            let mut p1 = p0.clone();
            for (i, b) in bodies.iter().enumerate() {
                if !b.alive {
                    continue;
                }
                p1[i] = b.position.add(b.velocity.scale(dt)).add(a0[i].scale(0.5 * dt * dt));
            }
            let a1 = compute_accelerations(bodies, &p1, cfg);
            for (i, b) in bodies.iter_mut().enumerate() {
                if !b.alive {
                    continue;
                }
                b.position = p1[i];
                b.velocity = b.velocity.add(a0[i].add(a1[i]).scale(0.5 * dt));
                if !b.position.is_finite() || !b.velocity.is_finite() {
                    return Err(b.id.clone());
                }
            }
        }
        IntegratorKind::Rk4 => {
            let count = bodies.len();
            let p0: Vec<V2> = bodies.iter().map(|b| b.position).collect();
            let v0: Vec<V2> = bodies.iter().map(|b| b.velocity).collect();
            let k1v = compute_accelerations(bodies, &p0, cfg);
            let k1p = v0.clone();
            let p2: Vec<V2> = (0..count).map(|i| p0[i].add(k1p[i].scale(0.5 * dt))).collect();
            let v2: Vec<V2> = (0..count).map(|i| v0[i].add(k1v[i].scale(0.5 * dt))).collect();
            let k2v = compute_accelerations(bodies, &p2, cfg);
            let k2p = v2;
            let p3: Vec<V2> = (0..count).map(|i| p0[i].add(k2p[i].scale(0.5 * dt))).collect();
            let v3: Vec<V2> = (0..count).map(|i| v0[i].add(k2v[i].scale(0.5 * dt))).collect();
            let k3v = compute_accelerations(bodies, &p3, cfg);
            let k3p = v3;
            let p4: Vec<V2> = (0..count).map(|i| p0[i].add(k3p[i].scale(dt))).collect();
            let v4: Vec<V2> = (0..count).map(|i| v0[i].add(k3v[i].scale(dt))).collect();
            let k4v = compute_accelerations(bodies, &p4, cfg);
            let k4p = v4;
            for i in 0..count {
                if !bodies[i].alive {
                    continue;
                }
                let dp = k1p[i].add(k2p[i].scale(2.0)).add(k3p[i].scale(2.0)).add(k4p[i]).scale(dt / 6.0);
                let dv = k1v[i].add(k2v[i].scale(2.0)).add(k3v[i].scale(2.0)).add(k4v[i]).scale(dt / 6.0);
                bodies[i].position = bodies[i].position.add(dp);
                bodies[i].velocity = bodies[i].velocity.add(dv);
                if !bodies[i].position.is_finite() || !bodies[i].velocity.is_finite() {
                    return Err(bodies[i].id.clone());
                }
            }
        }
    }
    Ok(())
}

// ----- collisions -----

fn resolve_collisions(bodies: &mut [FBody], mode: CollisionMode) -> CollisionStats {
    let mut stats = CollisionStats { collisions: 0, merges: 0 };
    if matches!(mode, CollisionMode::Ignore) {
        return stats;
    }
    let count = bodies.len();
    for i in 0..count {
        if !bodies[i].alive {
            continue;
        }
        for j in (i + 1)..count {
            if !bodies[j].alive {
                continue;
            }
            let delta = bodies[j].position.sub(bodies[i].position);
            let distance = delta.norm();
            let collision_distance = bodies[i].radius + bodies[j].radius;
            if distance > collision_distance {
                continue;
            }
            stats.collisions += 1;
            match mode {
                CollisionMode::Elastic => {
                    if !bodies[i].alive || !bodies[j].alive {
                        continue;
                    }
                    let normal = if distance > 0.0 { delta.div(distance) } else { V2::new(1.0, 0.0) };
                    let relative_velocity = bodies[j].velocity.sub(bodies[i].velocity);
                    let vel_along_normal = relative_velocity.dot(normal);
                    if vel_along_normal <= 0.0 {
                        let restitution = 1.0;
                        let inverse_mass_sum = 1.0 / bodies[i].mass + 1.0 / bodies[j].mass;
                        if inverse_mass_sum > 0.0 {
                            let impulse_scalar =
                                -((1.0 + restitution) * vel_along_normal) / inverse_mass_sum;
                            let impulse = normal.scale(impulse_scalar);
                            bodies[i].velocity = bodies[i].velocity.sub(impulse.div(bodies[i].mass));
                            bodies[j].velocity = bodies[j].velocity.add(impulse.div(bodies[j].mass));
                        }
                    }
                    let overlap = (collision_distance - distance).max(0.0);
                    if overlap > 0.0 {
                        let correction = normal.scale(0.5 * overlap + 1e-9);
                        bodies[i].position = bodies[i].position.sub(correction);
                        bodies[j].position = bodies[j].position.add(correction);
                    }
                }
                CollisionMode::InelasticMerge => {
                    stats.merges += 1;
                    if !bodies[i].alive || !bodies[j].alive {
                        continue;
                    }
                    let total_mass = bodies[i].mass + bodies[j].mass;
                    if total_mass <= 0.0 {
                        continue;
                    }
                    let merged_position = bodies[i]
                        .position
                        .scale(bodies[i].mass)
                        .add(bodies[j].position.scale(bodies[j].mass))
                        .div(total_mass);
                    let merged_velocity = bodies[i]
                        .velocity
                        .scale(bodies[i].mass)
                        .add(bodies[j].velocity.scale(bodies[j].mass))
                        .div(total_mass);
                    let merged_radius =
                        (bodies[i].radius * bodies[i].radius + bodies[j].radius * bodies[j].radius)
                            .sqrt();
                    bodies[i].mass = total_mass;
                    bodies[i].position = merged_position;
                    bodies[i].velocity = merged_velocity;
                    bodies[i].radius = merged_radius;
                    bodies[j].alive = false;
                }
                CollisionMode::Ignore => {}
            }
        }
    }
    stats
}

// ----- the per-tick kernel handed to the verified engine -----

fn physics_kernel(cfg: EngineConfig, bodies: Vec<Body>, sim_time_bits: u64) -> TickOutcome {
    let mut fb: Vec<FBody> = bodies.iter().map(to_fbody).collect();
    let dt = effective_dt(&fb, &cfg);
    match integrate(&mut fb, &cfg, dt) {
        Ok(()) => {}
        Err(id) => {
            return TickOutcome {
                bodies: fb.iter().map(from_fbody).collect(),
                sim_time_after_bits: sim_time_bits,
                stats: CollisionStats { collisions: 0, merges: 0 },
                error: Some(gravity_engine::EngineError::NumericalInstability(format!(
                    "body '{}' produced non-finite state",
                    id
                ))),
            };
        }
    }
    let stats = resolve_collisions(&mut fb, cfg.collision_mode);
    let sim_time = f64::from_bits(sim_time_bits) + dt;
    TickOutcome {
        bodies: fb.iter().map(from_fbody).collect(),
        sim_time_after_bits: sim_time.to_bits(),
        stats,
        error: None,
    }
}

fn approx_eq(a: f64, b: f64, tol: f64) {
    let diff = (a - b).abs();
    assert!(diff <= tol, "expected |{} - {}| <= {}, got {}", a, b, tol, diff);
}

fn total_momentum(bodies: &[Body]) -> V2 {
    bodies
        .iter()
        .map(to_fbody)
        .filter(|b| b.alive)
        .fold(V2_ZERO, |acc, b| acc.add(b.velocity.scale(b.mass)))
}

fn center_of_mass(bodies: &[Body]) -> V2 {
    let fb: Vec<FBody> = bodies.iter().map(to_fbody).collect();
    let total_mass: f64 = fb.iter().filter(|b| b.alive).map(|b| b.mass).sum();
    let weighted = fb
        .iter()
        .filter(|b| b.alive)
        .fold(V2_ZERO, |acc, b| acc.add(b.position.scale(b.mass)));
    weighted.div(total_mass)
}

fn total_energy(bodies: &[Body], g: f64) -> f64 {
    let fb: Vec<FBody> = bodies.iter().map(to_fbody).collect();
    let kinetic: f64 = fb
        .iter()
        .filter(|b| b.alive)
        .map(|b| 0.5 * b.mass * b.velocity.norm_squared())
        .sum();
    let mut potential = 0.0;
    for i in 0..fb.len() {
        if !fb[i].alive {
            continue;
        }
        for j in (i + 1)..fb.len() {
            if !fb[j].alive {
                continue;
            }
            let r = fb[j].position.sub(fb[i].position).norm().max(1e-9);
            potential -= g * fb[i].mass * fb[j].mass / r;
        }
    }
    kinetic + potential
}

#[test]
fn two_body_distance_shrinks_under_gravity() {
    let config = EngineConfig { dt_bits: 0.01f64.to_bits(), ..base_config() };
    let bodies = vec![
        body("a", 10.0, 0.1, V2::new(-1.0, 0.0), V2_ZERO),
        body("b", 10.0, 0.1, V2::new(1.0, 0.0), V2_ZERO),
    ];
    let initial_distance =
        to_fbody(&bodies[1]).position.sub(to_fbody(&bodies[0]).position).norm();
    let mut engine = SimulationEngine::with_bodies(config, bodies).unwrap();
    engine.step_with(50, physics_kernel).unwrap();
    let final_bodies = engine.bodies();
    let final_distance =
        to_fbody(&final_bodies[1]).position.sub(to_fbody(&final_bodies[0]).position).norm();
    assert!(final_distance < initial_distance);
}

#[test]
fn momentum_is_conserved_in_closed_system() {
    let config = EngineConfig { softening_epsilon_bits: 1e-5f64.to_bits(), ..base_config() };
    let bodies = vec![
        body("a", 4.0, 0.05, V2::new(-2.0, 0.0), V2::new(0.0, 0.3)),
        body("b", 2.0, 0.05, V2::new(2.0, 0.0), V2::new(0.0, -0.6)),
    ];
    let p0 = total_momentum(&bodies);
    let mut engine = SimulationEngine::with_bodies(config, bodies).unwrap();
    engine.step_with(4000, physics_kernel).unwrap();
    let p1 = total_momentum(engine.bodies());
    approx_eq(p0.x, p1.x, 1e-9);
    approx_eq(p0.y, p1.y, 1e-9);
}

#[test]
fn center_of_mass_is_stable_without_external_force() {
    let config = base_config();
    let bodies = vec![
        body("a", 3.0, 0.05, V2::new(-1.0, 0.0), V2::new(0.0, 0.4)),
        body("b", 3.0, 0.05, V2::new(1.0, 0.0), V2::new(0.0, -0.4)),
    ];
    let com0 = center_of_mass(&bodies);
    let mut engine = SimulationEngine::with_bodies(config, bodies).unwrap();
    engine.step_with(4000, physics_kernel).unwrap();
    let com1 = center_of_mass(engine.bodies());
    approx_eq(com0.x, com1.x, 1e-9);
    approx_eq(com0.y, com1.y, 1e-9);
}

#[test]
fn verlet_energy_drift_is_lower_than_euler() {
    let g: f64 = 1.0;
    let dt: f64 = 0.001;
    let star_mass: f64 = 1000.0;
    let planet_mass: f64 = 1.0;
    let radius: f64 = 10.0;
    let orbital_speed = (g * star_mass / radius).sqrt();

    let base_bodies = vec![
        body(
            "star",
            star_mass,
            0.5,
            V2::new(0.0, 0.0),
            V2::new(0.0, -planet_mass * orbital_speed / star_mass),
        ),
        body("planet", planet_mass, 0.1, V2::new(radius, 0.0), V2::new(0.0, orbital_speed)),
    ];

    let mut config_euler = EngineConfig {
        gravity_constant_bits: g.to_bits(),
        dt_bits: dt.to_bits(),
        integrator: IntegratorKind::SemiImplicitEuler,
        ..base_config()
    };
    let config_verlet =
        EngineConfig { integrator: IntegratorKind::VelocityVerlet, ..config_euler };

    let e0 = total_energy(&base_bodies, g);

    let mut euler_engine =
        SimulationEngine::with_bodies(config_euler, base_bodies.clone()).unwrap();
    euler_engine.step_with(20_000, physics_kernel).unwrap();
    let euler_drift = ((total_energy(euler_engine.bodies(), g) - e0) / e0).abs();

    let mut verlet_engine = SimulationEngine::with_bodies(config_verlet, base_bodies).unwrap();
    verlet_engine.step_with(20_000, physics_kernel).unwrap();
    let verlet_drift = ((total_energy(verlet_engine.bodies(), g) - e0) / e0).abs();

    assert!(
        verlet_drift < euler_drift,
        "expected Verlet drift ({}) < Euler drift ({})",
        verlet_drift,
        euler_drift
    );

    config_euler.integrator = IntegratorKind::SemiImplicitEuler;
    assert!(config_euler.validate().is_ok());
}

#[test]
fn deterministic_replay_produces_identical_snapshots() {
    let config = EngineConfig {
        dt_bits: 0.002f64.to_bits(),
        integrator: IntegratorKind::Rk4,
        ..base_config()
    };
    let bodies = vec![
        body("a", 8.0, 0.2, V2::new(-2.0, 0.0), V2::new(0.0, 0.4)),
        body("b", 3.0, 0.1, V2::new(1.0, 0.0), V2::new(0.0, -0.7)),
        body("c", 1.0, 0.1, V2::new(0.0, 2.0), V2::new(-0.5, 0.0)),
    ];
    let mut engine_a = SimulationEngine::with_bodies(config, bodies.clone()).unwrap();
    let mut engine_b = SimulationEngine::with_bodies(config, bodies).unwrap();
    engine_a.step_with(4000, physics_kernel).unwrap();
    engine_b.step_with(4000, physics_kernel).unwrap();
    assert_eq!(engine_a.snapshot(), engine_b.snapshot());
}

#[test]
fn inelastic_merge_conserves_mass_and_momentum() {
    let config = EngineConfig { collision_mode: CollisionMode::InelasticMerge, ..base_config() };
    let bodies = vec![
        body("a", 2.0, 1.0, V2::new(0.0, 0.0), V2::new(1.0, 0.0)),
        body("b", 3.0, 1.0, V2::new(0.5, 0.0), V2::new(-0.5, 0.0)),
    ];
    let p0 = total_momentum(&bodies);
    let mass0: f64 = bodies.iter().map(|b| f64::from_bits(b.mass_bits)).sum();

    let mut engine = SimulationEngine::with_bodies(config, bodies).unwrap();
    let summary = engine.step_with(1, physics_kernel).unwrap();

    assert_eq!(summary.merged_events, 1);
    assert_eq!(engine.bodies().len(), 1);

    let merged_body = &engine.bodies()[0];
    approx_eq(f64::from_bits(merged_body.mass_bits), mass0, 1e-12);

    let p1 = total_momentum(engine.bodies());
    approx_eq(p0.x, p1.x, 1e-10);
    approx_eq(p0.y, p1.y, 1e-10);
}

#[test]
fn auto_solver_switches_between_pairwise_and_barnes_hut() {
    let bodies = vec![
        body("a", 2.0, 0.2, V2::new(-3.0, 0.0), V2::new(0.0, 0.1)),
        body("b", 2.0, 0.2, V2::new(3.0, 0.0), V2::new(0.0, -0.1)),
        body("c", 2.0, 0.2, V2::new(0.0, 3.0), V2::new(-0.1, 0.0)),
    ];

    let mut pairwise_engine = SimulationEngine::with_bodies(
        EngineConfig {
            gravity_solver: GravitySolver::Auto,
            barnes_hut_threshold: 100,
            ..base_config()
        },
        bodies.clone(),
    )
    .unwrap();
    let pairwise_summary = pairwise_engine.step_with(10, physics_kernel).unwrap();
    assert_eq!(pairwise_summary.barnes_hut_ticks, 0);
    assert_eq!(pairwise_summary.pairwise_ticks, 10);

    let mut bh_engine = SimulationEngine::with_bodies(
        EngineConfig {
            gravity_solver: GravitySolver::Auto,
            barnes_hut_threshold: 2,
            ..base_config()
        },
        bodies,
    )
    .unwrap();
    let bh_summary = bh_engine.step_with(10, physics_kernel).unwrap();
    assert_eq!(bh_summary.pairwise_ticks, 0);
    assert_eq!(bh_summary.barnes_hut_ticks, 10);
}

#[test]
fn barnes_hut_tracks_pairwise_with_reasonable_tolerance() {
    let mut bodies = Vec::new();
    for i in 0..120 {
        let angle = (i as f64) * 0.173;
        let radius = 20.0 + ((i % 17) as f64);
        let position = V2::new(radius * angle.cos(), radius * angle.sin());
        let tangent = V2::new(-angle.sin(), angle.cos());
        let speed = (1000.0 / radius).sqrt();
        bodies.push(body(
            &format!("b{i}"),
            0.2 + ((i % 9) as f64) * 0.03,
            0.2,
            position,
            tangent.scale(speed),
        ));
    }
    bodies.push(body("star", 1000.0, 1.5, V2_ZERO, V2_ZERO));

    let mut pairwise_engine = SimulationEngine::with_bodies(
        EngineConfig { gravity_solver: GravitySolver::Pairwise, ..base_config() },
        bodies.clone(),
    )
    .unwrap();
    let mut bh_engine = SimulationEngine::with_bodies(
        EngineConfig {
            gravity_solver: GravitySolver::BarnesHut,
            barnes_hut_theta_bits: 0.6f64.to_bits(),
            ..base_config()
        },
        bodies,
    )
    .unwrap();

    pairwise_engine.step_with(120, physics_kernel).unwrap();
    bh_engine.step_with(120, physics_kernel).unwrap();

    let com_pairwise = center_of_mass(pairwise_engine.bodies());
    let com_bh = center_of_mass(bh_engine.bodies());
    let momentum_pairwise = total_momentum(pairwise_engine.bodies());
    let momentum_bh = total_momentum(bh_engine.bodies());

    approx_eq(com_pairwise.x, com_bh.x, 1e-3);
    approx_eq(com_pairwise.y, com_bh.y, 1e-3);
    approx_eq(momentum_pairwise.x, momentum_bh.x, 5e-2);
    approx_eq(momentum_pairwise.y, momentum_bh.y, 5e-2);
}

#[test]
fn escape_velocity_threshold_matches_energy_sign() {
    let g: f64 = 1.0;
    let central_mass: f64 = 100.0;
    let r: f64 = 10.0;
    let v_escape = (2.0 * g * central_mass / r).sqrt();

    let specific_energy_below = 0.5 * (0.99 * v_escape).powi(2) - g * central_mass / r;
    let specific_energy_above = 0.5 * (1.01 * v_escape).powi(2) - g * central_mass / r;

    assert!(specific_energy_below < 0.0);
    assert!(specific_energy_above > 0.0);
}
