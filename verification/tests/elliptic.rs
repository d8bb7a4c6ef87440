use finite_difference::elliptic::solver::point_jacobi_solver::{
    PointJacobiSolver, PointJacobiSolverNewParams,
};
use finite_difference::elliptic::solver::sor_solver::{SorSolver, SorSolverNewParams};
use finite_difference::elliptic::solver::Solver;
use finite_difference::state::StateGrid;

fn grid(rows: &[&[f64]]) -> StateGrid {
    let cols = rows[0].len();
    let cells: Vec<u64> = rows.iter().flat_map(|row| row.iter().map(|v| v.to_bits())).collect();
    StateGrid::from_shape_vec(rows.len(), cols, cells).unwrap()
}

fn values(grid: &StateGrid) -> Vec<Vec<f64>> {
    (0..grid.rows())
        .map(|i| (0..grid.cols()).map(|j| f64::from_bits(grid.get(i, j))).collect())
        .collect()
}

fn close(found: &[Vec<f64>], expected: &[&[f64]], tolerance: f64) -> bool {
    found.len() == expected.len()
        && found.iter().zip(expected).all(|(a, b)| {
            a.len() == b.len() && a.iter().zip(b.iter()).all(|(a, b)| (a - b).abs() < tolerance)
        })
}

fn heated_edge(n_x: usize, n_y: usize) -> StateGrid {
    let mut cells: Vec<u64> = Vec::new();
    for _ in 0..n_x + 1 {
        for i_y in 0..n_y + 1 {
            cells.push(if i_y == n_y { 1.0f64.to_bits() } else { 0.0f64.to_bits() });
        }
    }
    StateGrid::from_shape_vec(n_x + 1, n_y + 1, cells).unwrap()
}

fn output(out: &mut String, u: &StateGrid) {
    for (i_x, u_at_x) in values(u).iter().enumerate() {
        for (i_y, u_val) in u_at_x.iter().enumerate() {
            out.push_str(&format!("{} {} {:.10}\n", i_x, i_y, u_val));
        }
        out.push_str("\n");
    }
}

fn run<S: Solver>(solver: &mut S, out: &mut String) {
    solver.exec().unwrap();
    output(out, solver.borrow_u());
}

#[test]
fn fn_point_jacobi_exec_works() {
    let u_init = grid(&[
        &[0.0, 0.0, 0.0, 1.0],
        &[0.0, 0.0, 0.0, 1.0],
        &[0.0, 0.0, 0.0, 1.0],
        &[0.0, 0.0, 0.0, 1.0],
    ]);
    let new_params = PointJacobiSolverNewParams { u_init, n_iter_max: 100 };
    let mut solver = PointJacobiSolver::new(new_params).unwrap();
    solver.exec().unwrap();

    // check if u is correctly updated
    let u_exact: [&[f64]; 4] = [
        &[0.0, 0.0, 0.0, 1.0],
        &[0.0, 0.12499999994, 0.37499999994, 1.0],
        &[0.0, 0.12499999994, 0.37499999994, 1.0],
        &[0.0, 0.0, 0.0, 1.0],
    ];
    assert!(close(&values(solver.borrow_u()), &u_exact, 1e-10));
}

#[test]
fn fn_sor_exec_works() {
    let u_init = grid(&[
        &[0.0, 0.0, 0.0, 1.0],
        &[0.0, 0.0, 0.0, 1.0],
        &[0.0, 0.0, 0.0, 1.0],
        &[0.0, 0.0, 0.0, 1.0],
    ]);
    let new_params = SorSolverNewParams { u_init, n_iter_max: 100, omega: 1.5f64.to_bits() };
    let mut solver = SorSolver::new(new_params).unwrap();
    solver.exec().unwrap();

    // check if u is correctly updated
    let u_exact: [&[f64]; 4] = [
        &[0.0, 0.0, 0.0, 1.0],
        &[0.0, 0.12500000000, 0.37499999998, 1.0],
        &[0.0, 0.12500000000, 0.37499999998, 1.0],
        &[0.0, 0.0, 0.0, 1.0],
    ];
    assert!(close(&values(solver.borrow_u()), &u_exact, 1e-10));
}

#[test]
fn fn_run_works_with_point_jacobi_solver() {
    // setup input parameters
    let n_x = 8;
    let n_y = 8;

    // setup output stream
    let mut outputstream = String::new();

    // initialize the solver
    let new_params = PointJacobiSolverNewParams { u_init: heated_edge(n_x, n_y), n_iter_max: 300 };
    let mut solver = PointJacobiSolver::new(new_params).unwrap();

    // execute run()
    run(&mut solver, &mut outputstream);

    // check if the output is correct
    let output_expected = "\
0 0 0.0000000000
0 1 0.0000000000
0 2 0.0000000000
0 3 0.0000000000
0 4 0.0000000000
0 5 0.0000000000
0 6 0.0000000000
0 7 0.0000000000
0 8 1.0000000000

1 0 0.0000000000
1 1 0.0174130457
1 2 0.0376833281
1 3 0.0643733244
1 4 0.1029411760
1 5 0.1635678513
1 6 0.2693019654
1 7 0.4825869540
1 8 1.0000000000

2 0 0.0000000000
2 1 0.0319688546
2 2 0.0689469426
2 3 0.1168687935
2 4 0.1838235286
2 5 0.2820282638
2 6 0.4310530562
2 7 0.6610458507
2 8 1.0000000000

3 0 0.0000000000
3 1 0.0415154301
3 2 0.0892667944
3 3 0.1503313786
3 4 0.2334558813
3 5 0.3496686194
3 6 0.5118361453
3 7 0.7305433926
3 8 1.0000000000

4 0 0.0000000000
4 1 0.0448260716
4 2 0.0962734264
4 3 0.1617340455
4 4 0.2499999988
4 5 0.3713541876
4 6 0.5360795131
4 7 0.7492915745
4 8 1.0000000000

5 0 0.0000000000
5 1 0.0415154301
5 2 0.0892667944
5 3 0.1503313786
5 4 0.2334558813
5 5 0.3496686194
5 6 0.5118361453
5 7 0.7305433926
5 8 1.0000000000

6 0 0.0000000000
6 1 0.0319688546
6 2 0.0689469426
6 3 0.1168687935
6 4 0.1838235286
6 5 0.2820282638
6 6 0.4310530562
6 7 0.6610458507
6 8 1.0000000000

7 0 0.0000000000
7 1 0.0174130457
7 2 0.0376833281
7 3 0.0643733244
7 4 0.1029411760
7 5 0.1635678513
7 6 0.2693019654
7 7 0.4825869540
7 8 1.0000000000

8 0 0.0000000000
8 1 0.0000000000
8 2 0.0000000000
8 3 0.0000000000
8 4 0.0000000000
8 5 0.0000000000
8 6 0.0000000000
8 7 0.0000000000
8 8 1.0000000000

";
    assert_eq!(outputstream, output_expected);
}

#[test]
fn fn_run_works_with_sor_solver() {
    // setup input parameters
    let n_x = 8;
    let n_y = 8;

    // setup output stream
    let mut outputstream = String::new();

    // initialize the solver
    let new_params = SorSolverNewParams {
        u_init: heated_edge(n_x, n_y),
        n_iter_max: 300,
        omega: 1.5f64.to_bits(),
    };
    let mut solver = SorSolver::new(new_params).unwrap();

    // execute run()
    run(&mut solver, &mut outputstream);

    // check if the output is correct
    let output_expected = "\
0 0 0.0000000000
0 1 0.0000000000
0 2 0.0000000000
0 3 0.0000000000
0 4 0.0000000000
0 5 0.0000000000
0 6 0.0000000000
0 7 0.0000000000
0 8 1.0000000000

1 0 0.0000000000
1 1 0.0174130458
1 2 0.0376833284
1 3 0.0643733247
1 4 0.1029411764
1 5 0.1635678517
1 6 0.2693019657
1 7 0.4825869542
1 8 1.0000000000

2 0 0.0000000000
2 1 0.0319688548
2 2 0.0689469431
2 3 0.1168687942
2 4 0.1838235294
2 5 0.2820282646
2 6 0.4310530568
2 7 0.6610458510
2 8 1.0000000000

3 0 0.0000000000
3 1 0.0415154305
3 2 0.0892667951
3 3 0.1503313795
3 4 0.2334558823
3 5 0.3496686204
3 6 0.5118361460
3 7 0.7305433930
3 8 1.0000000000

4 0 0.0000000000
4 1 0.0448260720
4 2 0.0962734272
4 3 0.1617340466
4 4 0.2500000000
4 5 0.3713541887
4 6 0.5360795139
4 7 0.7492915750
4 8 1.0000000000

5 0 0.0000000000
5 1 0.0415154305
5 2 0.0892667951
5 3 0.1503313796
5 4 0.2334558823
5 5 0.3496686204
5 6 0.5118361460
5 7 0.7305433930
5 8 1.0000000000

6 0 0.0000000000
6 1 0.0319688549
6 2 0.0689469432
6 3 0.1168687942
6 4 0.1838235294
6 5 0.2820282646
6 6 0.4310530568
6 7 0.6610458510
6 8 1.0000000000

7 0 0.0000000000
7 1 0.0174130458
7 2 0.0376833284
7 3 0.0643733248
7 4 0.1029411765
7 5 0.1635678517
7 6 0.2693019657
7 7 0.4825869542
7 8 1.0000000000

8 0 0.0000000000
8 1 0.0000000000
8 2 0.0000000000
8 3 0.0000000000
8 4 0.0000000000
8 5 0.0000000000
8 6 0.0000000000
8 7 0.0000000000
8 8 1.0000000000

";
    assert_eq!(outputstream, output_expected);
}
