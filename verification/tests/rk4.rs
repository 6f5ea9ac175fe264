use wave_sim::padded::PaddedArray;
use wave_sim::state::FieldState;
use wave_sim::solver::WaveRk4Solver;

fn rk4_state(pos: &[f64], vel: &[f64], damp: &[f64], wave_coeff: f64) -> FieldState<f64> {
    let size = pos.len();
    let mut s = FieldState::new(size, 0.0);
    s.pos = PaddedArray::create_from_sequence(&pos.to_vec(), 0.0);
    s.vel = PaddedArray::create_from_sequence(&vel.to_vec(), 0.0);
    s.damp = PaddedArray::create_from_sequence(&damp.to_vec(), 0.0);
    s.wave_coeff = wave_coeff;
    s
}

fn rk4_advance(solver: &mut WaveRk4Solver<f64>, duration: f64, num_substeps: u32) {
    let dt = duration / (num_substeps as f64);
    let wc = solver.state.wave_coeff;
    solver.advance(
        num_substeps,
        move |v: f64| dt * v,
        move |l: f64, m: f64, r: f64, d: f64, v: f64| dt * wc * (l - 2.0 * m + r) - dt * d * v,
        |x: f64, d: f64| x + 0.5 * d,
        |x: f64, d: f64| x + 1.0 * d,
        |x: f64, d: f64| x + (1.0 / 6.0) * d,
        |x: f64, d: f64| x + (2.0 / 6.0) * d,
    );
}

fn energy(state: &FieldState<f64>) -> f64 {
    let mut e = 0.0;
    for i in 0..state.size {
        let p = state.pos.get_cell(i);
        let v = state.vel.get_cell(i);
        e += p * p + v * v;
    }
    e
}

#[test]
fn free_flight_reduces_to_constant_velocity() {
    let size = 5usize;
    let s = rk4_state(&[0.0; 5], &[1.0; 5], &[0.0; 5], 0.0);
    let mut solver = WaveRk4Solver::new(s);
    rk4_advance(&mut solver, 1.0, 1);
    // With no force term the four stage velocities are all exactly 1, so the
    // step adds dt * (1/6 + 2/6 + 2/6 + 1/6), accumulated term by term.
    let mut expected = 0.0;
    for w in [1.0 / 6.0, 2.0 / 6.0, 2.0 / 6.0, 1.0 / 6.0] {
        expected += w * 1.0;
    }
    for i in 0..size {
        assert_eq!(solver.state.vel.get_cell(i), 1.0);
        assert_eq!(solver.state.pos.get_cell(i), expected);
        assert!((solver.state.pos.get_cell(i) - 1.0).abs() <= f64::EPSILON);
    }
}

#[test]
fn finer_substeps_track_the_reference_more_closely() {
    let size = 16usize;
    let wc = 0.25;
    let mut pos = vec![0.0; size];
    for i in 0..size {
        pos[i] = (std::f64::consts::PI * ((i + 1) as f64) / ((size + 1) as f64)).sin();
    }
    let zeros = vec![0.0; size];

    let mut reference = WaveRk4Solver::new(rk4_state(&pos, &zeros, &zeros, wc));
    rk4_advance(&mut reference, 1.0, 1024);
    let reference_pos = reference.state.read_positions();

    let mut errors = Vec::new();
    for n in [1u32, 8, 64] {
        let mut solver = WaveRk4Solver::new(rk4_state(&pos, &zeros, &zeros, wc));
        rk4_advance(&mut solver, 1.0, n);
        let p = solver.state.read_positions();
        let mut err = 0.0;
        for i in 0..size {
            let d = (p[i] - reference_pos[i]).abs();
            if d > err {
                err = d;
            }
        }
        errors.push(err);
    }
    assert!(errors[0] > errors[1]);
    assert!(errors[1] > errors[2]);
}

#[test]
fn border_damping_does_not_increase_energy() {
    let size = 80usize;
    let mut pos = vec![0.0; size];
    for i in 0..size {
        let d = i as f64 - 40.0;
        pos[i] = (-d * d / 30.0).exp();
    }
    let zeros = vec![0.0; size];
    let mut damp = vec![0.0; size];
    for i in 0..size {
        if i < 32 || i > size - 32 {
            damp[i] = 0.1;
        }
    }
    let mut solver = WaveRk4Solver::new(rk4_state(&pos, &zeros, &damp, 0.2));
    let before = energy(&solver.state);
    rk4_advance(&mut solver, 0.5, 8);
    let after = energy(&solver.state);
    assert!(after <= before + 1e-12);
}
