use finite_difference::linear_hyperbolic::solver::beamwarming_solver::{
    BeamwarmingSolver, BeamwarmingSolverNewParams,
};
use finite_difference::linear_hyperbolic::solver::ftcs_solver::{FtcsSolver, FtcsSolverNewParams};
use finite_difference::linear_hyperbolic::solver::integrate_to_output;
use finite_difference::linear_hyperbolic::solver::lax_solver::{LaxSolver, LaxSolverNewParams};
use finite_difference::linear_hyperbolic::solver::laxwendroff_solver::{
    LaxwendroffSolver, LaxwendroffSolverNewParams,
};
use finite_difference::linear_hyperbolic::solver::leapfrog_solver::{
    LeapfrogSolver, LeapfrogSolverNewParams,
};
use finite_difference::linear_hyperbolic::solver::maccormack_solver::{
    MaccormackSolver, MaccormackSolverNewParams,
};
use finite_difference::linear_hyperbolic::solver::upwind_solver::{
    UpwindSolver, UpwindSolverNewParams,
};
use finite_difference::linear_hyperbolic::solver::Solver;
use finite_difference::state::StateVector;

fn vector(values: &[f64]) -> StateVector {
    StateVector::from_vec(values.iter().map(|v| v.to_bits()).collect())
}

fn values(vector: &StateVector) -> Vec<f64> {
    vector.to_vec().into_iter().map(f64::from_bits).collect()
}

fn close(found: &[f64], expected: &[f64]) -> bool {
    found.len() == expected.len()
        && found.iter().zip(expected).all(|(a, b)| (a - b).abs() < 1e-10)
}

fn step_function() -> (Vec<f64>, StateVector) {
    let x: Vec<f64> = ndarray::Array1::linspace(-1.0, 1.0, 20 + 1).to_vec();
    let u: Vec<f64> = x.iter().map(|x| if *x < 0.0 { 1.0 } else { 0.0 }).collect();
    let u = vector(&u);
    (x, u)
}

fn output(out: &mut String, step: usize, x: &[f64], u: &StateVector) {
    for (x, u) in x.iter().zip(values(u)) {
        out.push_str(&format!("{} {:.10} {:.10}\n", step, x, u));
    }
    out.push_str("\n\n");
}

fn run<S: Solver>(x: &[f64], solver: &mut S, out: &mut String, ncycle_out: usize) {
    output(out, 0, x, solver.borrow_u());
    while !solver.is_completed() {
        if integrate_to_output(solver, ncycle_out) {
            output(out, solver.get_step(), x, solver.borrow_u());
        }
    }
}

#[test]
fn fn_ftcs_integrate_works() {
    // setup ftcs solver and run integrate()
    let u_init = vector(&[1.0, 1.0, 0.0, 0.0, 0.0]);
    let new_params = FtcsSolverNewParams {
        u: u_init,
        step_max: 6,
        n_cfl: 0.5f64.to_bits(),
    };
    let mut ftcs_solver = FtcsSolver::new(new_params).unwrap();
    ftcs_solver.integrate().unwrap();

    // check if u and step are correctly updated
    let u_exact = [1.0, 1.25, 0.25, 0.0, 0.0];
    assert!(close(&values(ftcs_solver.borrow_u()), &u_exact));
    assert_eq!(ftcs_solver.get_step(), 1);
}

#[test]
fn fn_lax_integrate_works() {
    // setup lax solver and run integrate()
    let u_init = vector(&[1.0, 1.0, 0.0, 0.0, 0.0]);
    let new_params = LaxSolverNewParams {
        u: u_init,
        step_max: 6,
        n_cfl: 0.5f64.to_bits(),
    };
    let mut lax_solver = LaxSolver::new(new_params).unwrap();
    lax_solver.integrate().unwrap();

    // check if u and step are correctly updated
    let u_exact = [1.0, 0.75, 0.75, 0.0, 0.0];
    assert!(close(&values(lax_solver.borrow_u()), &u_exact));
    assert_eq!(lax_solver.get_step(), 1);
}

#[test]
fn fn_leapfrog_integrate_works() {
    // setup leapfrog solver and run integrate()
    let u_init = vector(&[1.0, 1.0, 0.0, 0.0, 0.0]);
    let new_params = LeapfrogSolverNewParams {
        u: u_init,
        step_max: 6,
        n_cfl: 1.0f64.to_bits(),
    };
    let mut leapfrog_solver = LeapfrogSolver::new(new_params).unwrap();
    leapfrog_solver.integrate().unwrap();

    // check if u and step are correctly updated
    let u_exact = [1.0, 1.5, 0.5, 0.0, 0.0];
    assert!(close(&values(leapfrog_solver.borrow_u()), &u_exact));
    assert_eq!(leapfrog_solver.get_step(), 1);
}

#[test]
fn fn_laxwendroff_integrate_works() {
    // setup laxwendroff solver and run integrate()
    let u_init = vector(&[1.0, 1.0, 0.0, 0.0, 0.0]);
    let new_params = LaxwendroffSolverNewParams {
        u: u_init,
        step_max: 6,
        n_cfl: 0.5f64.to_bits(),
    };
    let mut laxwendroff_solver = LaxwendroffSolver::new(new_params).unwrap();
    laxwendroff_solver.integrate().unwrap();

    // check if u and step are correctly updated
    let u_exact = [1.0, 1.125, 0.375, 0.0, 0.0];
    assert!(close(&values(laxwendroff_solver.borrow_u()), &u_exact));
    assert_eq!(laxwendroff_solver.get_step(), 1);
}

#[test]
fn fn_maccormack_integrate_works() {
    // setup maccormack solver and run integrate()
    let u_init = vector(&[1.0, 1.0, 0.0, 0.0, 0.0]);
    let new_params = MaccormackSolverNewParams {
        u: u_init,
        step_max: 6,
        n_cfl: 0.5f64.to_bits(),
    };
    let mut maccormack_solver = MaccormackSolver::new(new_params).unwrap();
    maccormack_solver.integrate().unwrap();

    // check if u and step are correctly updated
    let u_exact = [1.0, 1.125, 0.375, 0.0, 0.0];
    assert!(close(&values(maccormack_solver.borrow_u()), &u_exact));
    assert_eq!(maccormack_solver.get_step(), 1);
}

#[test]
fn fn_upwind_integrate_works() {
    // setup upwind solver and run integrate()
    let u_init = vector(&[1.0, 1.0, 0.0, 0.0, 0.0]);
    let new_params = UpwindSolverNewParams {
        u: u_init,
        step_max: 6,
        n_cfl: 0.5f64.to_bits(),
    };
    let mut upwind_solver = UpwindSolver::new(new_params).unwrap();
    upwind_solver.integrate().unwrap();

    // check if u and step are correctly updated
    let u_exact = [1.0, 1.0, 0.5, 0.0, 0.0];
    assert!(close(&values(upwind_solver.borrow_u()), &u_exact));
    assert_eq!(upwind_solver.get_step(), 1);
}

#[test]
fn fn_beamwarming_integrate_works() {
    // setup beamwarming solver and run integrate()
    let u_init = vector(&[1.0, 1.0, 0.0, 0.0, 0.0]);
    let new_params = BeamwarmingSolverNewParams {
        u: u_init,
        step_max: 3,
        n_cfl: 1.0f64.to_bits(),
        lambda: 0.5f64.to_bits(),
    };
    let mut beamwarming_solver = BeamwarmingSolver::new(new_params).unwrap();
    beamwarming_solver.integrate().unwrap();

    // check if u and step are correctly updated
    let u_exact = [1.0, 1.22910216718, 0.52631578947, 0.12383900929, 0.0];
    assert!(close(&values(beamwarming_solver.borrow_u()), &u_exact));
    assert_eq!(beamwarming_solver.get_step(), 1);
}

#[test]
fn fn_run_works_with_ftcs_solver() {
    // setup output stream
    let mut outputstream = String::new();

    // setup coordinates and the initial state
    let (x, u) = step_function();

    // initialize the solver
    let new_params = FtcsSolverNewParams {
        u,
        step_max: 6,
        n_cfl: 0.5f64.to_bits(),
    };
    let mut solver = FtcsSolver::new(new_params).unwrap();

    // execute run()
    run(&x, &mut solver, &mut outputstream, 6);

    // check if the output is correct
    let output_expected = "\
0 -1.0000000000 1.0000000000
0 -0.9000000000 1.0000000000
0 -0.8000000000 1.0000000000
0 -0.7000000000 1.0000000000
0 -0.6000000000 1.0000000000
0 -0.5000000000 1.0000000000
0 -0.4000000000 1.0000000000
0 -0.3000000000 1.0000000000
0 -0.2000000000 1.0000000000
0 -0.1000000000 1.0000000000
0 0.0000000000 0.0000000000
0 0.1000000000 0.0000000000
0 0.2000000000 0.0000000000
0 0.3000000000 0.0000000000
0 0.4000000000 0.0000000000
0 0.5000000000 0.0000000000
0 0.6000000000 0.0000000000
0 0.7000000000 0.0000000000
0 0.8000000000 0.0000000000
0 0.9000000000 0.0000000000
0 1.0000000000 0.0000000000


6 -1.0000000000 1.0000000000
6 -0.9000000000 1.0000000000
6 -0.8000000000 1.0000000000
6 -0.7000000000 1.0000000000
6 -0.6000000000 0.9997558594
6 -0.5000000000 1.0056152344
6 -0.4000000000 0.9484863281
6 -0.3000000000 1.2316894531
6 -0.2000000000 0.5249023438
6 -0.1000000000 1.1459960938
6 0.0000000000 1.6743164062
6 0.1000000000 1.0532226562
6 0.2000000000 0.3464355469
6 0.3000000000 0.0632324219
6 0.4000000000 0.0061035156
6 0.5000000000 0.0002441406
6 0.6000000000 0.0000000000
6 0.7000000000 0.0000000000
6 0.8000000000 0.0000000000
6 0.9000000000 0.0000000000
6 1.0000000000 0.0000000000


";
    assert_eq!(outputstream, output_expected);
}

#[test]
fn fn_run_works_with_lax_solver() {
    // setup output stream
    let mut outputstream = String::new();

    // setup coordinates and the initial state
    let (x, u) = step_function();

    // initialize the solver
    let new_params = LaxSolverNewParams {
        u,
        step_max: 6,
        n_cfl: 0.5f64.to_bits(),
    };
    let mut solver = LaxSolver::new(new_params).unwrap();

    // execute run()
    run(&x, &mut solver, &mut outputstream, 6);

    // check if the output is correct
    let output_expected = "\
0 -1.0000000000 1.0000000000
0 -0.9000000000 1.0000000000
0 -0.8000000000 1.0000000000
0 -0.7000000000 1.0000000000
0 -0.6000000000 1.0000000000
0 -0.5000000000 1.0000000000
0 -0.4000000000 1.0000000000
0 -0.3000000000 1.0000000000
0 -0.2000000000 1.0000000000
0 -0.1000000000 1.0000000000
0 0.0000000000 0.0000000000
0 0.1000000000 0.0000000000
0 0.2000000000 0.0000000000
0 0.3000000000 0.0000000000
0 0.4000000000 0.0000000000
0 0.5000000000 0.0000000000
0 0.6000000000 0.0000000000
0 0.7000000000 0.0000000000
0 0.8000000000 0.0000000000
0 0.9000000000 0.0000000000
0 1.0000000000 0.0000000000


6 -1.0000000000 1.0000000000
6 -0.9000000000 1.0000000000
6 -0.8000000000 1.0000000000
6 -0.7000000000 1.0000000000
6 -0.6000000000 0.9997558594
6 -0.5000000000 0.9997558594
6 -0.4000000000 0.9953613281
6 -0.3000000000 0.9953613281
6 -0.2000000000 0.9624023438
6 -0.1000000000 0.9624023438
6 0.0000000000 0.8305664062
6 0.1000000000 0.8305664062
6 0.2000000000 0.5339355469
6 0.3000000000 0.5339355469
6 0.4000000000 0.1779785156
6 0.5000000000 0.1779785156
6 0.6000000000 0.0000000000
6 0.7000000000 0.0000000000
6 0.8000000000 0.0000000000
6 0.9000000000 0.0000000000
6 1.0000000000 0.0000000000


";
    assert_eq!(outputstream, output_expected);
}

#[test]
fn fn_run_works_with_leapfrog_solver() {
    // setup output stream
    let mut outputstream = String::new();

    // setup coordinates and the initial state
    let (x, u) = step_function();

    // initialize the solver
    let new_params = LeapfrogSolverNewParams {
        u,
        step_max: 6,
        n_cfl: 1.0f64.to_bits(),
    };
    let mut solver = LeapfrogSolver::new(new_params).unwrap();

    // execute run()
    run(&x, &mut solver, &mut outputstream, 6);

    // check if the output is correct
    let output_expected = "\
0 -1.0000000000 1.0000000000
0 -0.9000000000 1.0000000000
0 -0.8000000000 1.0000000000
0 -0.7000000000 1.0000000000
0 -0.6000000000 1.0000000000
0 -0.5000000000 1.0000000000
0 -0.4000000000 1.0000000000
0 -0.3000000000 1.0000000000
0 -0.2000000000 1.0000000000
0 -0.1000000000 1.0000000000
0 0.0000000000 0.0000000000
0 0.1000000000 0.0000000000
0 0.2000000000 0.0000000000
0 0.3000000000 0.0000000000
0 0.4000000000 0.0000000000
0 0.5000000000 0.0000000000
0 0.6000000000 0.0000000000
0 0.7000000000 0.0000000000
0 0.8000000000 0.0000000000
0 0.9000000000 0.0000000000
0 1.0000000000 0.0000000000


6 -1.0000000000 1.0000000000
6 -0.9000000000 1.0000000000
6 -0.8000000000 1.0000000000
6 -0.7000000000 1.0000000000
6 -0.6000000000 0.9843750000
6 -0.5000000000 1.0156250000
6 -0.4000000000 0.7968750000
6 -0.3000000000 1.1406250000
6 -0.2000000000 0.6562500000
6 -0.1000000000 0.9687500000
6 0.0000000000 1.4062500000
6 0.1000000000 1.0937500000
6 0.2000000000 0.6093750000
6 0.3000000000 0.2656250000
6 0.4000000000 0.0468750000
6 0.5000000000 0.0156250000
6 0.6000000000 0.0000000000
6 0.7000000000 0.0000000000
6 0.8000000000 0.0000000000
6 0.9000000000 0.0000000000
6 1.0000000000 0.0000000000


";
    assert_eq!(outputstream, output_expected);
}

#[test]
fn fn_run_works_with_laxwendroff_solver() {
    // setup output stream
    let mut outputstream = String::new();

    // setup coordinates and the initial state
    let (x, u) = step_function();

    // initialize the solver
    let new_params = LaxwendroffSolverNewParams {
        u,
        step_max: 6,
        n_cfl: 0.5f64.to_bits(),
    };
    let mut solver = LaxwendroffSolver::new(new_params).unwrap();

    // execute run()
    run(&x, &mut solver, &mut outputstream, 6);

    // check if the output is correct
    let output_expected = "\
0 -1.0000000000 1.0000000000
0 -0.9000000000 1.0000000000
0 -0.8000000000 1.0000000000
0 -0.7000000000 1.0000000000
0 -0.6000000000 1.0000000000
0 -0.5000000000 1.0000000000
0 -0.4000000000 1.0000000000
0 -0.3000000000 1.0000000000
0 -0.2000000000 1.0000000000
0 -0.1000000000 1.0000000000
0 0.0000000000 0.0000000000
0 0.1000000000 0.0000000000
0 0.2000000000 0.0000000000
0 0.3000000000 0.0000000000
0 0.4000000000 0.0000000000
0 0.5000000000 0.0000000000
0 0.6000000000 0.0000000000
0 0.7000000000 0.0000000000
0 0.8000000000 0.0000000000
0 0.9000000000 0.0000000000
0 1.0000000000 0.0000000000


6 -1.0000000000 1.0000000000
6 -0.9000000000 1.0000000000
6 -0.8000000000 1.0000000000
6 -0.7000000000 1.0000000000
6 -0.6000000000 0.9999961853
6 -0.5000000000 1.0001335144
6 -0.4000000000 0.9981422424
6 -0.3000000000 1.0125617981
6 -0.2000000000 0.9626083374
6 -0.1000000000 1.0046310425
6 0.0000000000 1.1624221802
6 0.1000000000 1.0363540649
6 0.2000000000 0.5867729187
6 0.3000000000 0.1974449158
6 0.4000000000 0.0361518860
6 0.5000000000 0.0027809143
6 0.6000000000 0.0000000000
6 0.7000000000 0.0000000000
6 0.8000000000 0.0000000000
6 0.9000000000 0.0000000000
6 1.0000000000 0.0000000000


";
    assert_eq!(outputstream, output_expected);
}

#[test]
fn fn_run_works_with_maccormack_solver() {
    // setup output stream
    let mut outputstream = String::new();

    // setup coordinates and the initial state
    let (x, u) = step_function();

    // initialize the solver
    let new_params = MaccormackSolverNewParams {
        u,
        step_max: 6,
        n_cfl: 0.5f64.to_bits(),
    };
    let mut solver = MaccormackSolver::new(new_params).unwrap();

    // execute run()
    run(&x, &mut solver, &mut outputstream, 6);

    // check if the output is correct
    let output_expected = "\
0 -1.0000000000 1.0000000000
0 -0.9000000000 1.0000000000
0 -0.8000000000 1.0000000000
0 -0.7000000000 1.0000000000
0 -0.6000000000 1.0000000000
0 -0.5000000000 1.0000000000
0 -0.4000000000 1.0000000000
0 -0.3000000000 1.0000000000
0 -0.2000000000 1.0000000000
0 -0.1000000000 1.0000000000
0 0.0000000000 0.0000000000
0 0.1000000000 0.0000000000
0 0.2000000000 0.0000000000
0 0.3000000000 0.0000000000
0 0.4000000000 0.0000000000
0 0.5000000000 0.0000000000
0 0.6000000000 0.0000000000
0 0.7000000000 0.0000000000
0 0.8000000000 0.0000000000
0 0.9000000000 0.0000000000
0 1.0000000000 0.0000000000


6 -1.0000000000 1.0000000000
6 -0.9000000000 1.0000000000
6 -0.8000000000 1.0000000000
6 -0.7000000000 1.0000000000
6 -0.6000000000 0.9999961853
6 -0.5000000000 1.0001335144
6 -0.4000000000 0.9981422424
6 -0.3000000000 1.0125617981
6 -0.2000000000 0.9626083374
6 -0.1000000000 1.0046310425
6 0.0000000000 1.1624221802
6 0.1000000000 1.0363540649
6 0.2000000000 0.5867729187
6 0.3000000000 0.1974449158
6 0.4000000000 0.0361518860
6 0.5000000000 0.0027809143
6 0.6000000000 0.0000000000
6 0.7000000000 0.0000000000
6 0.8000000000 0.0000000000
6 0.9000000000 0.0000000000
6 1.0000000000 0.0000000000


";
    assert_eq!(outputstream, output_expected);
}

#[test]
fn fn_run_works_with_upwind_solver() {
    // setup output stream
    let mut outputstream = String::new();

    // setup coordinates and the initial state
    let (x, u) = step_function();

    // initialize the solver
    let new_params = UpwindSolverNewParams {
        u,
        step_max: 6,
        n_cfl: 0.5f64.to_bits(),
    };
    let mut solver = UpwindSolver::new(new_params).unwrap();

    // execute run()
    run(&x, &mut solver, &mut outputstream, 6);

    // check if the output is correct
    let output_expected = "\
0 -1.0000000000 1.0000000000
0 -0.9000000000 1.0000000000
0 -0.8000000000 1.0000000000
0 -0.7000000000 1.0000000000
0 -0.6000000000 1.0000000000
0 -0.5000000000 1.0000000000
0 -0.4000000000 1.0000000000
0 -0.3000000000 1.0000000000
0 -0.2000000000 1.0000000000
0 -0.1000000000 1.0000000000
0 0.0000000000 0.0000000000
0 0.1000000000 0.0000000000
0 0.2000000000 0.0000000000
0 0.3000000000 0.0000000000
0 0.4000000000 0.0000000000
0 0.5000000000 0.0000000000
0 0.6000000000 0.0000000000
0 0.7000000000 0.0000000000
0 0.8000000000 0.0000000000
0 0.9000000000 0.0000000000
0 1.0000000000 0.0000000000


6 -1.0000000000 1.0000000000
6 -0.9000000000 1.0000000000
6 -0.8000000000 1.0000000000
6 -0.7000000000 1.0000000000
6 -0.6000000000 1.0000000000
6 -0.5000000000 1.0000000000
6 -0.4000000000 1.0000000000
6 -0.3000000000 1.0000000000
6 -0.2000000000 1.0000000000
6 -0.1000000000 1.0000000000
6 0.0000000000 0.9843750000
6 0.1000000000 0.8906250000
6 0.2000000000 0.6562500000
6 0.3000000000 0.3437500000
6 0.4000000000 0.1093750000
6 0.5000000000 0.0156250000
6 0.6000000000 0.0000000000
6 0.7000000000 0.0000000000
6 0.8000000000 0.0000000000
6 0.9000000000 0.0000000000
6 1.0000000000 0.0000000000


";
    assert_eq!(outputstream, output_expected);
}

#[test]
fn fn_run_works_with_beamwarming_solver() {
    // setup output stream
    let mut outputstream = String::new();

    // setup coordinates and the initial state
    let (x, u) = step_function();

    // initialize the solver
    let new_params = BeamwarmingSolverNewParams {
        u,
        step_max: 3,
        n_cfl: 1.0f64.to_bits(),
        lambda: 0.5f64.to_bits(),
    };
    let mut solver = BeamwarmingSolver::new(new_params).unwrap();

    // execute run()
    run(&x, &mut solver, &mut outputstream, 3);

    // check if the output is correct
    let output_expected = "\
0 -1.0000000000 1.0000000000
0 -0.9000000000 1.0000000000
0 -0.8000000000 1.0000000000
0 -0.7000000000 1.0000000000
0 -0.6000000000 1.0000000000
0 -0.5000000000 1.0000000000
0 -0.4000000000 1.0000000000
0 -0.3000000000 1.0000000000
0 -0.2000000000 1.0000000000
0 -0.1000000000 1.0000000000
0 0.0000000000 0.0000000000
0 0.1000000000 0.0000000000
0 0.2000000000 0.0000000000
0 0.3000000000 0.0000000000
0 0.4000000000 0.0000000000
0 0.5000000000 0.0000000000
0 0.6000000000 0.0000000000
0 0.7000000000 0.0000000000
0 0.8000000000 0.0000000000
0 0.9000000000 0.0000000000
0 1.0000000000 0.0000000000


3 -1.0000000000 1.0000000000
3 -0.9000000000 0.7769564522
3 -0.8000000000 0.8338211969
3 -0.7000000000 0.9186703690
3 -0.6000000000 0.9522185033
3 -0.5000000000 1.0207447161
3 -0.4000000000 0.9086533220
3 -0.3000000000 1.1851764733
3 -0.2000000000 0.7183036043
3 -0.1000000000 1.1268431186
3 0.0000000000 1.3398428513
3 0.1000000000 0.9316474270
3 0.2000000000 0.4637756569
3 0.3000000000 0.1903174095
3 0.4000000000 0.0695039387
3 0.5000000000 0.0235061476
3 0.6000000000 0.0075308953
3 0.7000000000 0.0023180371
3 0.8000000000 0.0006913478
3 0.9000000000 0.0002031287
3 1.0000000000 0.0000000000


";
    assert_eq!(outputstream, output_expected);
}
