use finite_difference::bad_upwind::input::InputParams;
use finite_difference::bad_upwind::upwind_solver::{step_budget, DiffMethod, UpwindSolver};
use finite_difference::state::StateVector;

fn vector(values: &[f64]) -> StateVector {
    StateVector::from_vec(values.iter().map(|v| v.to_bits()).collect())
}

fn values(vector: &StateVector) -> Vec<f64> {
    vector.to_vec().into_iter().map(f64::from_bits).collect()
}

fn close(found: &[f64], expected: &[f64]) -> bool {
    found.len() == expected.len()
        && found.iter().zip(expected).all(|(a, b)| (a - b).abs() < 1e-10)
}

fn output(out: &mut String, t: f64, x: &[f64], u: &StateVector) {
    for (x, u) in x.iter().zip(values(u)) {
        out.push_str(&format!("{:.2} {:.10} {:.10}\n", t, x, u));
    }
    out.push_str("\n\n");
}

fn run(x: &[f64], upwind_solver: &mut UpwindSolver, out: &mut String, ncycle_out: usize) {
    output(out, 0.0, x, upwind_solver.borrow_u());
    while !upwind_solver.is_completed() {
        if upwind_solver.integrate_to_output(ncycle_out) {
            output(out, f64::from_bits(upwind_solver.get_t()), x, upwind_solver.borrow_u());
        }
    }
}

#[test]
fn upwind_solver_fn_upwind_integrate_works() {
    // setup upwind solver and run integrate()
    let u_init = vector(&[1.0, 1.0, 0.0, 0.0, 0.0]);
    let mut upwind_solver = UpwindSolver::new(
        u_init,
        1.0f64.to_bits(),
        0.1f64.to_bits(),
        0.1f64.to_bits(),
        5,
        DiffMethod::Backward,
    )
    .unwrap();
    upwind_solver.integrate().unwrap();

    // check if u, t and step are correctly updated
    let u_exact = [1.0, 1.0, 1.0, 0.0, 0.0];
    assert!(close(&values(upwind_solver.borrow_u()), &u_exact));
    assert!((f64::from_bits(upwind_solver.get_t()) - 0.1).abs() < 1e-10);
    assert_eq!(upwind_solver.get_step(), 1);
}

#[test]
fn fn_run_works_with_good_upwind_method() {
    // setup input parameters
    let input_params = InputParams {
        v_adv: 1.0f64.to_bits(),
        n_x: 20,
        t_max: 0.5f64.to_bits(),
        dt: 0.1f64.to_bits(),
        ncycle_out: 5,
    };

    // setup output stream
    let mut outputstream = String::new();

    // setup coordinates
    let x: Vec<f64> = ndarray::Array1::linspace(-1.0, 1.0, input_params.n_x + 1).to_vec();
    let u: Vec<f64> = x.iter().map(|x| if *x < 0.0 { 1.0 } else { 0.0 }).collect();

    // initialize the upwind solver, with as many steps as reach t_max
    assert_eq!(input_params.validate_params(), Ok(()));
    let step_max = step_budget(input_params.dt, input_params.t_max, usize::MAX).unwrap();
    assert_eq!(step_max, 5);
    let mut upwind_solver = UpwindSolver::new(
        vector(&u),
        input_params.v_adv,
        (x[1] - x[0]).to_bits(),
        input_params.dt,
        step_max,
        DiffMethod::Backward,
    )
    .unwrap();

    // execute run()
    run(&x, &mut upwind_solver, &mut outputstream, input_params.ncycle_out);

    // check if the output is correct
    let output_expected = "\
0.00 -1.0000000000 1.0000000000
0.00 -0.9000000000 1.0000000000
0.00 -0.8000000000 1.0000000000
0.00 -0.7000000000 1.0000000000
0.00 -0.6000000000 1.0000000000
0.00 -0.5000000000 1.0000000000
0.00 -0.4000000000 1.0000000000
0.00 -0.3000000000 1.0000000000
0.00 -0.2000000000 1.0000000000
0.00 -0.1000000000 1.0000000000
0.00 0.0000000000 0.0000000000
0.00 0.1000000000 0.0000000000
0.00 0.2000000000 0.0000000000
0.00 0.3000000000 0.0000000000
0.00 0.4000000000 0.0000000000
0.00 0.5000000000 0.0000000000
0.00 0.6000000000 0.0000000000
0.00 0.7000000000 0.0000000000
0.00 0.8000000000 0.0000000000
0.00 0.9000000000 0.0000000000
0.00 1.0000000000 0.0000000000


0.50 -1.0000000000 1.0000000000
0.50 -0.9000000000 1.0000000000
0.50 -0.8000000000 1.0000000000
0.50 -0.7000000000 1.0000000000
0.50 -0.6000000000 1.0000000000
0.50 -0.5000000000 1.0000000000
0.50 -0.4000000000 1.0000000000
0.50 -0.3000000000 1.0000000000
0.50 -0.2000000000 1.0000000000
0.50 -0.1000000000 1.0000000000
0.50 0.0000000000 1.0000000000
0.50 0.1000000000 1.0000000000
0.50 0.2000000000 1.0000000000
0.50 0.3000000000 1.0000000000
0.50 0.4000000000 1.0000000000
0.50 0.5000000000 0.0000000000
0.50 0.6000000000 0.0000000000
0.50 0.7000000000 0.0000000000
0.50 0.8000000000 0.0000000000
0.50 0.9000000000 0.0000000000
0.50 1.0000000000 0.0000000000


";
    assert_eq!(outputstream, output_expected);
}

#[test]
fn fn_run_works_with_bad_upwind_method() {
    // setup input parameters
    let input_params = InputParams {
        v_adv: 1.0f64.to_bits(),
        n_x: 20,
        t_max: 0.5f64.to_bits(),
        dt: 0.1f64.to_bits(),
        ncycle_out: 5,
    };

    // setup output stream
    let mut outputstream = String::new();

    // setup coordinates
    let x: Vec<f64> = ndarray::Array1::linspace(-1.0, 1.0, input_params.n_x + 1).to_vec();
    let u: Vec<f64> = x.iter().map(|x| if *x < 0.0 { 1.0 } else { 0.0 }).collect();

    // initialize the upwind solver, with as many steps as reach t_max
    assert_eq!(input_params.validate_params(), Ok(()));
    let step_max = step_budget(input_params.dt, input_params.t_max, usize::MAX).unwrap();
    assert_eq!(step_max, 5);
    let mut upwind_solver = UpwindSolver::new(
        vector(&u),
        input_params.v_adv,
        (x[1] - x[0]).to_bits(),
        input_params.dt,
        step_max,
        DiffMethod::Forward,
    )
    .unwrap();

    // execute run()
    run(&x, &mut upwind_solver, &mut outputstream, input_params.ncycle_out);

    // check if the output is correct
    let output_expected = "\
0.00 -1.0000000000 1.0000000000
0.00 -0.9000000000 1.0000000000
0.00 -0.8000000000 1.0000000000
0.00 -0.7000000000 1.0000000000
0.00 -0.6000000000 1.0000000000
0.00 -0.5000000000 1.0000000000
0.00 -0.4000000000 1.0000000000
0.00 -0.3000000000 1.0000000000
0.00 -0.2000000000 1.0000000000
0.00 -0.1000000000 1.0000000000
0.00 0.0000000000 0.0000000000
0.00 0.1000000000 0.0000000000
0.00 0.2000000000 0.0000000000
0.00 0.3000000000 0.0000000000
0.00 0.4000000000 0.0000000000
0.00 0.5000000000 0.0000000000
0.00 0.6000000000 0.0000000000
0.00 0.7000000000 0.0000000000
0.00 0.8000000000 0.0000000000
0.00 0.9000000000 0.0000000000
0.00 1.0000000000 0.0000000000


0.50 -1.0000000000 1.0000000000
0.50 -0.9000000000 1.0000000000
0.50 -0.8000000000 1.0000000000
0.50 -0.7000000000 1.0000000000
0.50 -0.6000000000 1.0000000000
0.50 -0.5000000000 2.0000000000
0.50 -0.4000000000 -8.0000000000
0.50 -0.3000000000 32.0000000000
0.50 -0.2000000000 -48.0000000000
0.50 -0.1000000000 32.0000000000
0.50 0.0000000000 0.0000000000
0.50 0.1000000000 0.0000000000
0.50 0.2000000000 0.0000000000
0.50 0.3000000000 0.0000000000
0.50 0.4000000000 0.0000000000
0.50 0.5000000000 0.0000000000
0.50 0.6000000000 0.0000000000
0.50 0.7000000000 0.0000000000
0.50 0.8000000000 0.0000000000
0.50 0.9000000000 0.0000000000
0.50 1.0000000000 0.0000000000


";
    assert_eq!(outputstream, output_expected);
}
