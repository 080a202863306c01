use vstd::prelude::*;

use crate::expr::{
    bind_bits, bind_names, eval_of, eval_raw, has_token, real_bits_of, real_of_usize, OdeFunction,
};
use crate::num::Real;
use crate::SolverError;

verus! {

/// The formula giving the step size, with `b` the end of the domain, `a` its
/// start and `n` the step count.
pub open spec fn step_size_formula() -> Seq<char> {
    "(b - a) / n"@
}

/// The step size h = (t_end - t_start) / n, as the evaluator computes it.
pub open spec fn spec_step_size(a: u64, b: u64, n: nat) -> Option<u64> {
    eval_of(step_size_formula(), seq![('b', b), ('a', a), ('n', real_bits_of(n))])
}

/// The formula giving a mesh point, with `a` the start of the domain, `i` the
/// index of the point and `h` the step size.
pub open spec fn mesh_point_formula() -> Seq<char> {
    "a + i * h"@
}

/// The mesh point t_i = t_start + i * h, as the evaluator computes it.
pub open spec fn spec_mesh_point(a: u64, h: u64, i: nat) -> Option<u64> {
    eval_of(mesh_point_formula(), seq![('a', a), ('i', real_bits_of(i)), ('h', h)])
}

/// The formula of one Euler update, with `y` the current value, `h` the step
/// size and `f` the value of the right-hand side at the current point.
pub open spec fn euler_update_formula() -> Seq<char> {
    "y + h * f"@
}

/// One forward Euler step from (t, y): y + h * f(t, y), `None` as soon as an
/// evaluation fails.
pub open spec fn spec_euler_step(f: OdeFunction, t: u64, y: u64, h: u64) -> Option<u64> {
    match f.spec_eval(t, y) {
        Option::None => Option::None,
        Option::Some(fv) => eval_of(
            euler_update_formula(),
            seq![('y', y), ('h', h), ('f', fv)],
        ),
    }
}

/// The k-th solution value of the forward Euler recurrence started at y0:
/// solution[0] = y0 and solution[k+1] = solution[k] + h * f(t_k, solution[k]).
pub open spec fn spec_solution(f: OdeFunction, a: u64, h: u64, y0: u64, k: nat) -> Option<u64>
    decreases k,
{
    if k == 0 {
        Option::Some(y0)
    } else {
        match (
            spec_mesh_point(a, h, (k - 1) as nat),
            spec_solution(f, a, h, y0, (k - 1) as nat),
        ) {
            (Option::Some(t), Option::Some(y)) => spec_euler_step(f, t, y, h),
            _ => Option::None,
        }
    }
}

/// Every evaluation of the right-hand side behind the whole trajectory
/// succeeds. The step size and the mesh points always evaluate, being fixed
/// arithmetic over bound variables, so only the user's expression can fail.
pub open spec fn spec_traj_ok(f: OdeFunction, a: u64, b: u64, y0: u64, n: nat) -> bool {
    spec_solution(f, a, spec_step_size(a, b, n)->Some_0, y0, n) is Some
}

/// Once one step of the recurrence fails, every later value is `None` too.
proof fn lemma_solution_none_propagates(
    f: OdeFunction,
    a: u64,
    h: u64,
    y0: u64,
    k: nat,
    n: nat,
)
    requires
        k <= n,
        spec_solution(f, a, h, y0, k) is None,
    ensures
        spec_solution(f, a, h, y0, n) is None,
    decreases n,
{
    if k < n {
        lemma_solution_none_propagates(f, a, h, y0, k, (n - 1) as nat);
    }
}

/// The decimal rendering of the double with the given bit pattern.
pub uninterp spec fn decimal_of(bits: u64) -> Seq<char>;

/// Relies on the standard `Display` rendering of a double, via `format!`:
/// the text is a function of the value alone, its shortest decimal form that
/// reads back as the same value. The meval evaluation of a lone variable
/// returns exactly the bound value, so the call renders `v`.
#[verifier::external_body]
fn render_real(v: Real) -> (r: String)
    ensures
        r@ == decimal_of(v.bits),
{
    let mut ctx = meval::Context::new();
    ctx.var("v", bytemuck::cast(v.bits));
    format!("{}", meval::eval_str_with_context("v", &ctx).unwrap())
}

/// One CSV data row: the renderings of t and y joined by a comma.
pub open spec fn spec_csv_row(t: u64, y: u64) -> Seq<char> {
    decimal_of(t) + ","@ + decimal_of(y)
}

/// Produces the rows of the CSV export for index-aligned mesh and solution
/// sequences: the header `t,y(t)`, then one `t,y` row per point, in mesh
/// order.
pub fn csv_rows_of(mesh: &Vec<Real>, solution: &Vec<Real>) -> (rows: Vec<String>)
    requires
        mesh@.len() == solution@.len(),
    ensures
        rows@.len() == mesh@.len() + 1,
        rows@[0]@ == "t,y(t)"@,
        forall|i: int|
            0 <= i < mesh@.len() ==> (#[trigger] rows@[i + 1])@ == spec_csv_row(
                mesh@[i].bits,
                solution@[i].bits,
            ),
{
    let mut rows: Vec<String> = Vec::new();
    rows.push(String::from_str("t,y(t)"));
    let mut i: usize = 0;
    while i < mesh.len()
        invariant
            mesh@.len() == solution@.len(),
            i <= mesh@.len(),
            rows@.len() == i + 1,
            rows@[0]@ == "t,y(t)"@,
            forall|j: int|
                0 <= j < i ==> (#[trigger] rows@[j + 1])@ == spec_csv_row(
                    mesh@[j].bits,
                    solution@[j].bits,
                ),
        decreases mesh@.len() - i,
    {
        let mut row = render_real(mesh[i]);
        row.append(",");
        let ytext = render_real(solution[i]);
        row.append(ytext.as_str());
        proof {
            assert(row@ =~= spec_csv_row(mesh@[i as int].bits, solution@[i as int].bits));
        }
        rows.push(row);
        i = i + 1;
    }
    rows
}

/// The forward Euler solver: the time mesh and the solution values over it,
/// both computed once at construction.
pub struct EulerSolver1D {
    pub expression_fn: OdeFunction,
    pub t_start: Real,
    pub t_end: Real,
    pub y0: Real,
    pub num_steps: usize,
    pub mesh: Vec<Real>,
    pub step_size: Real,
    pub solution: Vec<Real>,
}

impl EulerSolver1D {
    /// The solver holds exactly the step size, mesh and solution that its
    /// inputs determine.
    pub open spec fn wf(&self) -> bool {
        &&& self.num_steps >= 1
        &&& spec_step_size(self.t_start.bits, self.t_end.bits, self.num_steps as nat)
            == Option::Some(self.step_size.bits)
        &&& self.mesh@.len() == self.num_steps + 1
        &&& forall|i: int|
            0 <= i < self.mesh@.len() ==> spec_mesh_point(
                self.t_start.bits,
                self.step_size.bits,
                i as nat,
            ) == Option::Some((#[trigger] self.mesh@[i]).bits)
        &&& self.solution@.len() == self.num_steps + 1
        &&& forall|k: int|
            0 <= k < self.solution@.len() ==> spec_solution(
                self.expression_fn,
                self.t_start.bits,
                self.step_size.bits,
                self.y0.bits,
                k as nat,
            ) == Option::Some((#[trigger] self.solution@[k]).bits)
    }

    /// Computes the step size h = (t_end - t_start) / n. This fixed formula
    /// always evaluates.
    fn step_size_of(t_start: Real, t_end: Real, n: usize) -> (r: Real)
        ensures
            spec_step_size(t_start.bits, t_end.bits, n as nat) == Option::Some(r.bits),
    {
        let binds: Vec<(char, Real)> = vec![('b', t_end), ('a', t_start), ('n', real_of_usize(n))];
        proof {
            assert(has_token("(b - a) / n"@)) by {
                reveal_strlit("(b - a) / n");
                assert("(b - a) / n"@[0] == '(');
            };
            assert(bind_bits(binds@) =~= seq![
                ('b', t_end.bits),
                ('a', t_start.bits),
                ('n', real_bits_of(n as nat)),
            ]);
            assert(bind_names(binds@) =~= seq!['b', 'a', 'n']);
        }
        match eval_raw("(b - a) / n", &binds) {
            Option::Some(v) => v,
            Option::None => {
                // Unreachable: the formula always evaluates.
                proof {
                    assert(false);
                }
                t_start
            },
        }
    }

    /// Computes the mesh point t_i = t_start + i * h. This fixed formula
    /// always evaluates.
    fn mesh_point(t_start: Real, h: Real, i: usize) -> (r: Real)
        ensures
            spec_mesh_point(t_start.bits, h.bits, i as nat) == Option::Some(r.bits),
    {
        let binds: Vec<(char, Real)> = vec![('a', t_start), ('i', real_of_usize(i)), ('h', h)];
        proof {
            assert(has_token("a + i * h"@)) by {
                reveal_strlit("a + i * h");
                assert("a + i * h"@[0] == 'a');
            };
            assert(bind_bits(binds@) =~= seq![
                ('a', t_start.bits),
                ('i', real_bits_of(i as nat)),
                ('h', h.bits),
            ]);
            assert(bind_names(binds@) =~= seq!['a', 'i', 'h']);
        }
        match eval_raw("a + i * h", &binds) {
            Option::Some(v) => v,
            Option::None => {
                // Unreachable: the formula always evaluates.
                proof {
                    assert(false);
                }
                t_start
            },
        }
    }

    /// Generates the uniform mesh of n + 1 points t_i = t_start + i * h with
    /// h = (t_end - t_start) / n. A step count of zero is rejected as
    /// [`SolverError::InvalidConfiguration`]; every other step count yields
    /// the mesh.
    pub fn generate_mesh(t_start: Real, t_end: Real, n: usize) -> (r: Result<
        Vec<Real>,
        SolverError,
    >)
        ensures
            r is Ok <==> n >= 1,
            r == Err::<Vec<Real>, SolverError>(SolverError::InvalidConfiguration) <==> n == 0,
            r matches Ok(m) ==> {
                let h = spec_step_size(t_start.bits, t_end.bits, n as nat)->Some_0;
                &&& spec_step_size(t_start.bits, t_end.bits, n as nat) is Some
                &&& m@.len() == n + 1
                &&& forall|i: int|
                    0 <= i < m@.len() ==> spec_mesh_point(t_start.bits, h, i as nat)
                        == Option::Some((#[trigger] m@[i]).bits)
            },
    {
        if n == 0 {
            return Err(SolverError::InvalidConfiguration);
        }
        let ghost a = t_start.bits;
        let ghost b = t_end.bits;
        let h = Self::step_size_of(t_start, t_end, n);
        let mut mesh: Vec<Real> = Vec::new();
        let mut i: usize = 0;
        while i < n
            invariant
                1 <= n,
                i <= n,
                mesh@.len() == i,
                spec_step_size(a, b, n as nat) == Option::Some(h.bits),
                a == t_start.bits,
                b == t_end.bits,
                forall|j: int|
                    0 <= j < i ==> spec_mesh_point(a, h.bits, j as nat) == Option::Some(
                        (#[trigger] mesh@[j]).bits,
                    ),
            decreases n - i,
        {
            let v = Self::mesh_point(t_start, h, i);
            mesh.push(v);
            i = i + 1;
        }
        let v = Self::mesh_point(t_start, h, n);
        mesh.push(v);
        Ok(mesh)
    }

    /// Computes one Euler update y + h * f from the value `fv` of the
    /// right-hand side. This fixed formula always evaluates.
    fn euler_update(y: Real, h: Real, fv: Real) -> (r: Real)
        ensures
            eval_of(euler_update_formula(), seq![('y', y.bits), ('h', h.bits), ('f', fv.bits)])
                == Option::Some(r.bits),
    {
        let binds: Vec<(char, Real)> = vec![('y', y), ('h', h), ('f', fv)];
        proof {
            assert(has_token("y + h * f"@)) by {
                reveal_strlit("y + h * f");
                assert("y + h * f"@[0] == 'y');
            };
            assert(bind_bits(binds@) =~= seq![('y', y.bits), ('h', h.bits), ('f', fv.bits)]);
            assert(bind_names(binds@) =~= seq!['y', 'h', 'f']);
        }
        match eval_raw("y + h * f", &binds) {
            Option::Some(v) => v,
            Option::None => {
                // Unreachable: the formula always evaluates.
                proof {
                    assert(false);
                }
                y
            },
        }
    }

    /// Constructs a solver and eagerly computes the whole trajectory: the
    /// mesh, the step size, and the solution advanced by the forward Euler
    /// rule solution[k+1] = solution[k] + h * f(mesh[k], solution[k]) from
    /// solution[0] = y0. A step count of zero is rejected as
    /// [`SolverError::InvalidConfiguration`]; otherwise construction fails,
    /// with [`SolverError::EvaluationError`], exactly when an evaluation of
    /// the user's expression does, as it does when the expression names a
    /// variable other than `t` and `y`.
    pub fn new(
        expression_fn: OdeFunction,
        t_start: Real,
        t_end: Real,
        y0: Real,
        num_steps: usize,
    ) -> (r: Result<EulerSolver1D, SolverError>)
        ensures
            r is Ok <==> num_steps >= 1 && spec_traj_ok(
                expression_fn,
                t_start.bits,
                t_end.bits,
                y0.bits,
                num_steps as nat,
            ),
            r == Err::<EulerSolver1D, SolverError>(SolverError::InvalidConfiguration) <==> num_steps
                == 0,
            r matches Err(e) ==> e == SolverError::InvalidConfiguration || e
                == SolverError::EvaluationError,
            r matches Ok(s) ==> {
                &&& s.wf()
                &&& s.expression_fn == expression_fn
                &&& s.t_start == t_start
                &&& s.t_end == t_end
                &&& s.y0 == y0
                &&& s.num_steps == num_steps
                &&& s.solution@[0] == y0
            },
    {
        let ghost a = t_start.bits;
        let ghost b = t_end.bits;
        let mesh = match Self::generate_mesh(t_start, t_end, num_steps) {
            Result::Err(e) => { return Err(e); },
            Result::Ok(m) => m,
        };
        let h = Self::step_size_of(t_start, t_end, num_steps);
        let mut solution: Vec<Real> = Vec::new();
        solution.push(y0);
        let mut k: usize = 0;
        while k < num_steps
            invariant
                1 <= num_steps,
                k <= num_steps,
                solution@.len() == k + 1,
                a == t_start.bits,
                b == t_end.bits,
                spec_step_size(a, b, num_steps as nat) == Option::Some(h.bits),
                mesh@.len() == num_steps + 1,
                forall|j: int|
                    0 <= j < mesh@.len() ==> spec_mesh_point(a, h.bits, j as nat) == Option::Some(
                        (#[trigger] mesh@[j]).bits,
                    ),
                forall|j: int|
                    0 <= j < solution@.len() ==> spec_solution(
                        expression_fn,
                        a,
                        h.bits,
                        y0.bits,
                        j as nat,
                    ) == Option::Some((#[trigger] solution@[j]).bits),
            decreases num_steps - k,
        {
            let t_k = mesh[k];
            let y_k = solution[k];
            let fv = match expression_fn.eval(t_k, y_k) {
                Option::None => {
                    proof {
                        assert(spec_solution(expression_fn, a, h.bits, y0.bits, (k + 1) as nat)
                            is None);
                        lemma_solution_none_propagates(
                            expression_fn,
                            a,
                            h.bits,
                            y0.bits,
                            (k + 1) as nat,
                            num_steps as nat,
                        );
                    }
                    return Err(SolverError::EvaluationError);
                },
                Option::Some(v) => v,
            };
            let y_next = Self::euler_update(y_k, h, fv);
            solution.push(y_next);
            proof {
                assert(spec_solution(expression_fn, a, h.bits, y0.bits, (k + 1) as nat)
                    == Option::Some(y_next.bits));
            }
            k = k + 1;
        }
        proof {
            assert(spec_solution(expression_fn, a, h.bits, y0.bits, num_steps as nat)
                == Option::Some(solution@[num_steps as int].bits));
        }
        Ok(
            EulerSolver1D {
                expression_fn,
                t_start,
                t_end,
                y0,
                num_steps,
                mesh,
                step_size: h,
                solution,
            },
        )
    }

    /// The rows of the CSV export of this solver's trajectory.
    pub fn csv_rows(&self) -> (rows: Vec<String>)
        requires
            self.mesh@.len() == self.solution@.len(),
        ensures
            rows@.len() == self.mesh@.len() + 1,
            rows@[0]@ == "t,y(t)"@,
            forall|i: int|
                0 <= i < self.mesh@.len() ==> (#[trigger] rows@[i + 1])@ == spec_csv_row(
                    self.mesh@[i].bits,
                    self.solution@[i].bits,
                ),
    {
        csv_rows_of(&self.mesh, &self.solution)
    }

    /// The (t, y) pairs of the trajectory, index-aligned across the mesh and
    /// the solution.
    pub fn solution_pairs(&self) -> (pairs: Vec<(Real, Real)>)
        requires
            self.mesh@.len() == self.solution@.len(),
        ensures
            pairs@.len() == self.mesh@.len(),
            forall|i: int|
                0 <= i < pairs@.len() ==> #[trigger] pairs@[i] == (
                    self.mesh@[i],
                    self.solution@[i],
                ),
    {
        let mut pairs: Vec<(Real, Real)> = Vec::new();
        let mut i: usize = 0;
        while i < self.mesh.len()
            invariant
                self.mesh@.len() == self.solution@.len(),
                i <= self.mesh@.len(),
                pairs@.len() == i,
                forall|j: int|
                    0 <= j < i ==> #[trigger] pairs@[j] == (self.mesh@[j], self.solution@[j]),
            decreases self.mesh@.len() - i,
        {
            pairs.push((self.mesh[i], self.solution[i]));
            i = i + 1;
        }
        pairs
    }
}

/// The solution recurrence depends on the right-hand side only through its
/// source text.
proof fn lemma_solution_congruent(
    f1: OdeFunction,
    f2: OdeFunction,
    a: u64,
    h: u64,
    y0: u64,
    k: nat,
)
    requires
        f1.src() == f2.src(),
    ensures
        spec_solution(f1, a, h, y0, k) == spec_solution(f2, a, h, y0, k),
    decreases k,
{
    if k > 0 {
        lemma_solution_congruent(f1, f2, a, h, y0, (k - 1) as nat);
    }
}

/// Construction is idempotent: two solvers built from identical inputs hold
/// identical step sizes, meshes and solutions, element for element.
pub proof fn lemma_solver_deterministic(s1: EulerSolver1D, s2: EulerSolver1D)
    requires
        s1.wf(),
        s2.wf(),
        s1.expression_fn.src() == s2.expression_fn.src(),
        s1.t_start == s2.t_start,
        s1.t_end == s2.t_end,
        s1.y0 == s2.y0,
        s1.num_steps == s2.num_steps,
    ensures
        s1.step_size == s2.step_size,
        s1.mesh@ == s2.mesh@,
        s1.solution@ == s2.solution@,
{
    assert(s1.step_size.bits == s2.step_size.bits);
    assert forall|i: int| 0 <= i < s1.mesh@.len() implies s1.mesh@[i] == s2.mesh@[i] by {
        assert(s1.mesh@[i].bits == s2.mesh@[i].bits);
    };
    assert(s1.mesh@ =~= s2.mesh@);
    assert forall|k: int| 0 <= k < s1.solution@.len() implies s1.solution@[k] == s2.solution@[k] by {
        lemma_solution_congruent(
            s1.expression_fn,
            s2.expression_fn,
            s1.t_start.bits,
            s1.step_size.bits,
            s1.y0.bits,
            k as nat,
        );
        assert(s1.solution@[k].bits == s2.solution@[k].bits);
    };
    assert(s1.solution@ =~= s2.solution@);
}

} // verus!
