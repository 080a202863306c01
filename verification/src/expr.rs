use vstd::prelude::*;

use crate::num::{opt_bits, Real};
use crate::SolverError;

verus! {

/// What the expression evaluator computes for a source text under the given
/// variable bindings, over the built-in functions and constants: `None` when
/// the text does not parse or evaluation fails, otherwise the bit pattern of
/// the resulting double. A pure function of the text and the bound values;
/// the built-in functions go through the platform's math library, so the
/// value behind this name is fixed within a program, and every statement
/// proved here compares evaluations within one program.
pub uninterp spec fn eval_of(src: Seq<char>, binds: Seq<(char, u64)>) -> Option<u64>;

/// Whether the expression grammar accepts a source text.
pub uninterp spec fn meval_parses(src: Seq<char>) -> bool;

/// The bit pattern of the double nearest to the given integer.
pub uninterp spec fn real_bits_of(i: nat) -> u64;

/// A character the tokenizer treats as blank: space, tab, carriage return
/// or line feed.
pub open spec fn is_blank(c: char) -> bool {
    c == ' ' || c == '\t' || c == '\r' || c == '\n'
}

/// The text holds at least one character that is not blank. The tokenizer of
/// meval 0.2 panics on a non-empty text of blanks alone, so the trusted
/// items below admit only texts that satisfy this predicate; a blank-only
/// text has nothing the grammar could accept, and [`parse_expression`]
/// rejects it without consulting the evaluator.
pub open spec fn has_token(s: Seq<char>) -> bool {
    exists|i: int| 0 <= i < s.len() && !is_blank(s[i])
}

/// Whether the text holds a character that is not blank.
fn find_token(s: &str) -> (r: bool)
    ensures
        r == has_token(s@),
{
    let n = s.unicode_len();
    let mut i: usize = 0;
    while i < n
        invariant
            n == s@.len(),
            i <= n,
            forall|j: int| 0 <= j < i ==> is_blank(#[trigger] s@[j]),
        decreases n - i,
    {
        let c = s.get_char(i);
        if !(c == ' ' || c == '\t' || c == '\r' || c == '\n') {
            return true;
        }
        i = i + 1;
    }
    false
}

/// The bit patterns of a binding list.
pub open spec fn bind_bits(binds: Seq<(char, Real)>) -> Seq<(char, u64)> {
    binds.map_values(|p: (char, Real)| (p.0, p.1.bits))
}

/// The names of a binding list, in order.
pub open spec fn bind_names(binds: Seq<(char, Real)>) -> Seq<char> {
    binds.map_values(|p: (char, Real)| p.0)
}

/// Relies on `meval::eval_str_with_context` (meval 0.2): parsing and then
/// evaluating the text with the built-in context extended by the given
/// variable bindings. The result is a pure function of the text and the
/// bound values; `Err` comes exactly when parsing or evaluation fails. The
/// tokenizer panics on a non-empty text of blanks alone, so such texts are
/// excluded by `requires`. The last three clauses hold because each of those
/// fixed texts parses and names only bound variables, numbers and the
/// arithmetic operators, whose evaluation returns a double for every
/// operand.
#[verifier::external_body]
pub(crate) fn eval_raw(src: &str, binds: &Vec<(char, Real)>) -> (r: Option<Real>)
    requires
        has_token(src@),
    ensures
        opt_bits(r) == eval_of(src@, bind_bits(binds@)),
        src@ == "(b - a) / n"@ && bind_names(binds@) == seq!['b', 'a', 'n'] ==> r is Some,
        src@ == "a + i * h"@ && bind_names(binds@) == seq!['a', 'i', 'h'] ==> r is Some,
        src@ == "y + h * f"@ && bind_names(binds@) == seq!['y', 'h', 'f'] ==> r is Some,
{
    let mut ctx = meval::Context::new();
    for p in binds.iter() {
        ctx.var(p.0.to_string(), bytemuck::cast(p.1.bits));
    }
    match meval::eval_str_with_context(src, &ctx) {
        Ok(v) => Some(Real { bits: bytemuck::cast(v) }),
        Err(_) => None,
    }
}

/// Relies on `str::parse::<meval::Expr>` (meval 0.2): whether a text is
/// accepted is a pure function of the text. The tokenizer panics on a
/// non-empty text of blanks alone, so such texts are excluded by `requires`.
#[verifier::external_body]
pub(crate) fn parses_raw(s: &str) -> (r: bool)
    requires
        has_token(s@),
    ensures
        r == meval_parses(s@),
{
    s.parse::<meval::Expr>().is_ok()
}

/// Relies on `meval::eval_str` (meval 0.2): a decimal integer literal
/// evaluates to the double nearest to the integer, a function of the
/// integer alone.
#[verifier::external_body]
pub(crate) fn real_of_usize(i: usize) -> (r: Real)
    ensures
        r.bits == real_bits_of(i as nat),
{
    Real { bits: bytemuck::cast(meval::eval_str(format!("{}", i)).unwrap()) }
}

/// A compiled right-hand side of an ODE dy/dt = f(t, y): the source text of
/// an expression over the variables `t` and `y` that the grammar accepts.
#[derive(Debug)]
pub struct OdeFunction {
    src: String,
}

impl OdeFunction {
    /// The source text of the expression.
    pub closed spec fn src(&self) -> Seq<char> {
        self.src@
    }

    /// Every compiled function holds a text with at least one non-blank
    /// character, so it can always be handed back to the evaluator.
    #[verifier::type_invariant]
    spec fn inv(&self) -> bool {
        has_token(self.src@)
    }

    /// The held text is an expression that the grammar accepts.
    pub open spec fn wf(&self) -> bool {
        has_token(self.src()) && meval_parses(self.src())
    }

    /// What this function computes on arguments with the given bit patterns.
    pub open spec fn spec_eval(&self, t: u64, y: u64) -> Option<u64> {
        eval_of(self.src(), seq![('t', t), ('y', y)])
    }

    /// Evaluates the expression with `t` and `y` bound to the two arguments.
    /// Returns `None` only if evaluation fails, as it does when the
    /// expression names an unknown variable.
    pub fn eval(&self, t: Real, y: Real) -> (r: Option<Real>)
        ensures
            opt_bits(r) == self.spec_eval(t.bits, y.bits),
    {
        proof {
            use_type_invariant(self);
        }
        let binds: Vec<(char, Real)> = vec![('t', t), ('y', y)];
        let r = eval_raw(self.src.as_str(), &binds);
        proof {
            assert(bind_bits(binds@) =~= seq![('t', t.bits), ('y', y.bits)]);
        }
        r
    }
}

/// Compiles a textual expression such as `cos(t) - y` into an [`OdeFunction`].
/// Succeeds exactly when the text holds a non-blank character and the
/// grammar accepts it; otherwise, including for an empty or blank-only text,
/// reports [`SolverError::ParseError`].
pub fn parse_expression(expr_str: String) -> (r: Result<OdeFunction, SolverError>)
    ensures
        r is Ok <==> has_token(expr_str@) && meval_parses(expr_str@),
        r matches Ok(f) ==> f.src() == expr_str@ && f.wf(),
        r matches Err(e) ==> e == SolverError::ParseError,
{
    if !find_token(expr_str.as_str()) {
        return Err(SolverError::ParseError);
    }
    if parses_raw(expr_str.as_str()) {
        Ok(OdeFunction { src: expr_str })
    } else {
        Err(SolverError::ParseError)
    }
}

/// Evaluation of a compiled expression is deterministic: the result depends
/// only on the source text and the two argument values, so two functions
/// compiled from the same text agree everywhere.
pub proof fn lemma_eval_deterministic(f1: OdeFunction, f2: OdeFunction, t: u64, y: u64)
    requires
        f1.src() == f2.src(),
    ensures
        f1.spec_eval(t, y) == f2.spec_eval(t, y),
{
}

} // verus!
