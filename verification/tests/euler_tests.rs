use euler_ode::solver::csv_rows_of;
use euler_ode::{
    parse_expression, EulerSolver1D, InitialConditions, MeshConfig, OdeConfig, OutputConfig, Real,
    SolverConfig, SolverError,
};

fn rv(x: f64) -> Real {
    Real::from_bits(x.to_bits())
}

fn fval(r: Real) -> f64 {
    f64::from_bits(r.bits)
}

#[test]
fn test_expression_parser() {
    let expr_str = "cos(t) - y".to_string();
    let f = parse_expression(expr_str).expect("Failed to parse expression");
    let val = fval(f.eval(rv(0.0), rv(0.0)).unwrap());
    let expected = 1.0;
    assert!((val - expected).abs() < 1e-6);
}

#[test]
fn test_mesh_generation() {
    let mesh = EulerSolver1D::generate_mesh(rv(0.0), rv(1.0), 4).unwrap();
    let expected = vec![rv(0.0), rv(0.25), rv(0.5), rv(0.75), rv(1.0)];
    assert_eq!(mesh, expected);
}

#[test]
fn test_euler_solver_linear_case() {
    let f = parse_expression("y".to_string()).unwrap();
    let solver = EulerSolver1D::new(f, rv(0.0), rv(1.0), rv(1.0), 10).unwrap();
    let approx = fval(*solver.solution.last().unwrap());
    let exact = std::f64::consts::E;
    assert!((approx - exact).abs() < 0.5);
}

#[test]
fn evaluation_is_deterministic() {
    let f = parse_expression("exp(t) * y - sqrt(y)".to_string()).unwrap();
    let a = f.eval(rv(0.7), rv(2.5)).unwrap();
    let b = f.eval(rv(0.7), rv(2.5)).unwrap();
    assert_eq!(a, b);
}

#[test]
fn solution_starts_at_initial_value_exactly() {
    let f = parse_expression("cos(t) - y".to_string()).unwrap();
    let y0 = rv(0.123456789);
    let solver = EulerSolver1D::new(f, rv(0.0), rv(1.0), y0, 5).unwrap();
    assert_eq!(solver.solution[0], y0);
    assert_eq!(solver.mesh[0], rv(0.0));
    assert_eq!(solver.solution.len(), 6);
    assert_eq!(solver.mesh.len(), 6);
}

#[test]
fn identical_inputs_identical_trajectories() {
    let f1 = parse_expression("cos(t) - y".to_string()).unwrap();
    let f2 = parse_expression("cos(t) - y".to_string()).unwrap();
    let s1 = EulerSolver1D::new(f1, rv(0.0), rv(1.0), rv(0.5), 8).unwrap();
    let s2 = EulerSolver1D::new(f2, rv(0.0), rv(1.0), rv(0.5), 8).unwrap();
    assert_eq!(s1.step_size, s2.step_size);
    assert_eq!(s1.mesh, s2.mesh);
    assert_eq!(s1.solution, s2.solution);
}

#[test]
fn zero_steps_is_invalid_configuration() {
    let f = parse_expression("y".to_string()).unwrap();
    let r = EulerSolver1D::new(f, rv(0.0), rv(1.0), rv(1.0), 0);
    assert!(matches!(r, Err(SolverError::InvalidConfiguration)));
    let m = EulerSolver1D::generate_mesh(rv(0.0), rv(1.0), 0);
    assert!(matches!(m, Err(SolverError::InvalidConfiguration)));
}

#[test]
fn malformed_expression_is_parse_error() {
    let r = parse_expression("cos(t".to_string());
    assert!(matches!(r, Err(SolverError::ParseError)));
}

#[test]
fn blank_expression_is_parse_error() {
    assert!(matches!(parse_expression("".to_string()), Err(SolverError::ParseError)));
    assert!(matches!(parse_expression(" ".to_string()), Err(SolverError::ParseError)));
    assert!(matches!(parse_expression(" \t\r\n".to_string()), Err(SolverError::ParseError)));
}

#[test]
fn unknown_variable_is_evaluation_error() {
    let f = parse_expression("z + 1".to_string()).unwrap();
    assert!(f.eval(rv(0.0), rv(0.0)).is_none());
    let g = parse_expression("z + 1".to_string()).unwrap();
    let r = EulerSolver1D::new(g, rv(0.0), rv(1.0), rv(0.0), 2);
    assert!(matches!(r, Err(SolverError::EvaluationError)));
}

#[test]
fn constant_rhs_keeps_initial_value() {
    let f = parse_expression("0".to_string()).unwrap();
    let solver = EulerSolver1D::new(f, rv(0.0), rv(2.0), rv(3.5), 7).unwrap();
    assert_eq!(solver.solution.len(), 8);
    for v in solver.solution.iter() {
        assert_eq!(*v, rv(3.5));
    }
}

#[test]
fn euler_update_matches_hand_computation() {
    let f = parse_expression("y".to_string()).unwrap();
    let s = EulerSolver1D::new(f, rv(0.0), rv(1.0), rv(1.0), 2).unwrap();
    assert_eq!(s.step_size, rv(0.5));
    assert_eq!(s.solution, vec![rv(1.0), rv(1.5), rv(2.25)]);
}

#[test]
fn csv_rows_two_points() {
    let mesh = vec![rv(0.0), rv(1.0)];
    let solution = vec![rv(1.0), rv(2.0)];
    let rows = csv_rows_of(&mesh, &solution);
    assert_eq!(rows, vec!["t,y(t)".to_string(), "0,1".to_string(), "1,2".to_string()]);
}

#[test]
fn csv_rows_of_simple_run() {
    let f = parse_expression("1".to_string()).unwrap();
    let s = EulerSolver1D::new(f, rv(0.0), rv(1.0), rv(1.0), 1).unwrap();
    assert_eq!(s.csv_rows(), vec!["t,y(t)".to_string(), "0,1".to_string(), "1,2".to_string()]);
}

#[test]
fn pairs_align_mesh_and_solution() {
    let f = parse_expression("0".to_string()).unwrap();
    let s = EulerSolver1D::new(f, rv(0.0), rv(1.0), rv(2.0), 2).unwrap();
    let pairs = s.solution_pairs();
    assert_eq!(
        pairs,
        vec![(rv(0.0), rv(2.0)), (rv(0.5), rv(2.0)), (rv(1.0), rv(2.0))]
    );
}

#[test]
fn reverse_interval_is_allowed_with_negative_step() {
    // Policy for t_end <= t_start: it is not rejected; the mesh formula is
    // applied as it stands, yielding a negative step size.
    let mesh = EulerSolver1D::generate_mesh(rv(1.0), rv(0.0), 2).unwrap();
    assert_eq!(mesh, vec![rv(1.0), rv(0.5), rv(0.0)]);
}

#[test]
fn config_groups_carry_their_values() {
    let cfg = SolverConfig {
        mesh_1_d: MeshConfig { n: 4, domain_start: rv(0.0), domain_end: rv(1.0) },
        initial_conditions: InitialConditions { y_0: rv(1.0) },
        ode_function: OdeConfig { expression: "cos(t) - y".to_string() },
        output: OutputConfig { csv_file: "out.csv".to_string() },
    };
    let f = parse_expression(cfg.ode_function.expression.clone()).unwrap();
    let s = EulerSolver1D::new(
        f,
        cfg.mesh_1_d.domain_start,
        cfg.mesh_1_d.domain_end,
        cfg.initial_conditions.y_0,
        cfg.mesh_1_d.n,
    )
    .unwrap();
    assert_eq!(s.mesh.len(), 5);
    assert_eq!(cfg.output.csv_file, "out.csv");
}
