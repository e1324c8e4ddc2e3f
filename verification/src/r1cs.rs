//! A rank-1 constraint system: allocated variables, linear combinations,
//! bilinear constraints, and the dual-mode sink that one synthesis pass
//! fills.  Satisfaction of a constraint system by an assignment is defined
//! here over the field model, together with a verified evaluator that
//! checks it directly — the toy backend that needs no cryptography.

use vstd::prelude::*;

use crate::field::{add_of, mul_of, one_bytes, Fp};

verus! {

/// One addend of a linear combination.
#[derive(Clone, Copy)]
pub enum Term {
    /// The variable with this index, with coefficient one.
    Var { index: usize },
    /// The variable with this index, scaled by a field coefficient.
    Scaled { coeff: Fp, index: usize },
}

/// The mathematical form of a `Term`: the coefficient is the canonical
/// encoding of the field element.
pub enum SpecTerm {
    Var { index: int },
    Scaled { coeff: Seq<u8>, index: int },
}

impl View for Term {
    type V = SpecTerm;

    open spec fn view(&self) -> SpecTerm {
        match self {
            Term::Var { index } => SpecTerm::Var { index: *index as int },
            Term::Scaled { coeff, index } => SpecTerm::Scaled {
                coeff: coeff@,
                index: *index as int,
            },
        }
    }
}

/// A weighted sum of variables (the variable with index 0 is the constant one).
pub struct LinComb {
    pub terms: Vec<Term>,
}

impl View for LinComb {
    type V = Seq<SpecTerm>;

    open spec fn view(&self) -> Seq<SpecTerm> {
        self.terms@.map_values(|t: Term| t@)
    }
}

/// An assertion that `a * b = c` over the linear combinations.
pub struct Constraint {
    pub a: LinComb,
    pub b: LinComb,
    pub c: LinComb,
}

/// The mathematical form of a `Constraint`.
#[verifier::ext_equal]
pub struct SpecConstraint {
    pub a: Seq<SpecTerm>,
    pub b: Seq<SpecTerm>,
    pub c: Seq<SpecTerm>,
}

impl View for Constraint {
    type V = SpecConstraint;

    open spec fn view(&self) -> SpecConstraint {
        SpecConstraint { a: self.a@, b: self.b@, c: self.c@ }
    }
}

/// The value one term contributes under an assignment of encodings to variables.
pub open spec fn term_value(t: SpecTerm, asg: Seq<Seq<u8>>) -> Seq<u8> {
    match t {
        SpecTerm::Var { index } => asg[index],
        SpecTerm::Scaled { coeff, index } => mul_of(coeff, asg[index]),
    }
}

/// The value of a linear combination: its terms summed left to right.
pub open spec fn lc_value(ts: Seq<SpecTerm>, asg: Seq<Seq<u8>>) -> Seq<u8>
    decreases ts.len(),
{
    if ts.len() <= 1 {
        if ts.len() == 1 {
            term_value(ts[0], asg)
        } else {
            Seq::empty()
        }
    } else {
        add_of(lc_value(ts.drop_last(), asg), term_value(ts.last(), asg))
    }
}

/// Whether the constraint holds exactly under the assignment.
pub open spec fn constraint_holds(c: SpecConstraint, asg: Seq<Seq<u8>>) -> bool {
    mul_of(lc_value(c.a, asg), lc_value(c.b, asg)) == lc_value(c.c, asg)
}

/// Whether every constraint of the system holds under the assignment.
pub open spec fn all_constraints_hold(cs: Seq<SpecConstraint>, asg: Seq<Seq<u8>>) -> bool {
    forall|i: int| 0 <= i < cs.len() ==> constraint_holds(#[trigger] cs[i], asg)
}

/// A term speaks only of variables below `n`.
pub open spec fn term_wf(t: SpecTerm, n: int) -> bool {
    match t {
        SpecTerm::Var { index } => 0 <= index < n,
        SpecTerm::Scaled { coeff: _, index } => 0 <= index < n,
    }
}

/// A linear combination is non-empty and speaks only of variables below `n`.
pub open spec fn lc_wf(ts: Seq<SpecTerm>, n: int) -> bool {
    ts.len() >= 1 && forall|i: int| 0 <= i < ts.len() ==> term_wf(#[trigger] ts[i], n)
}

/// All three linear combinations of the constraint are well-formed over `n` variables.
pub open spec fn constraint_wf(c: SpecConstraint, n: int) -> bool {
    lc_wf(c.a, n) && lc_wf(c.b, n) && lc_wf(c.c, n)
}

/// The error a strict sink raises when a value is required but absent.
#[derive(Clone, Copy, PartialEq, Eq, Structural, Debug)]
pub enum SynthError {
    /// A required witness value was never supplied.
    AssignmentMissing,
}

pub open spec fn opt_view(o: Option<Fp>) -> Option<Seq<u8>> {
    match o {
        Some(f) => Some(f@),
        None => None,
    }
}

/// The constraint-system sink one synthesis pass fills.  Variable 0 is the
/// constant one.  In strict mode (proving) an allocation without a value
/// aborts with `AssignmentMissing`; in lenient mode (setup) the slot is
/// recorded without a materialized value.
pub struct R1cs {
    strict: bool,
    values: Vec<Option<Fp>>,
    publics: Vec<usize>,
    constraints: Vec<Constraint>,
}

impl R1cs {
    /// The recorded value of each variable, as optional encodings.
    pub closed spec fn value_views(&self) -> Seq<Option<Seq<u8>>> {
        self.values@.map_values(|o: Option<Fp>| opt_view(o))
    }

    /// The recorded constraints, in order.
    pub closed spec fn constraint_views(&self) -> Seq<SpecConstraint> {
        self.constraints@.map_values(|c: Constraint| c@)
    }

    /// The indices of the public variables, in allocation order.
    pub closed spec fn public_views(&self) -> Seq<int> {
        self.publics@.map_values(|u: usize| u as int)
    }

    /// Whether the sink demands materialized values.
    pub closed spec fn strict_mode(&self) -> bool {
        self.strict
    }

    /// A sink no synthesis pass has touched: only the constant one is allocated.
    pub open spec fn fresh(&self) -> bool {
        &&& self.value_views() == seq![Some(one_bytes())]
        &&& self.public_views() == Seq::<int>::empty()
        &&& self.constraint_views() == Seq::<SpecConstraint>::empty()
    }

    /// A new sink, lenient or strict.
    pub fn new(strict: bool) -> (r: R1cs)
        ensures
            r.fresh(),
            r.strict_mode() == strict,
    {
        let r = R1cs {
            strict,
            values: vec![Some(Fp::one())],
            publics: Vec::new(),
            constraints: Vec::new(),
        };
        proof {
            assert(r.value_views() =~= seq![Some(one_bytes())]);
            assert(r.public_views() =~= Seq::<int>::empty());
            assert(r.constraint_views() =~= Seq::<SpecConstraint>::empty());
        }
        r
    }

    /// Allocates a private variable.  The slot is always registered; only a
    /// strict sink requires the value to be present.
    pub fn allocate(&mut self, value: Option<Fp>) -> (r: Result<usize, SynthError>)
        ensures
            old(self).strict_mode() && value is None ==> {
                &&& r == Err::<usize, SynthError>(SynthError::AssignmentMissing)
                &&& *final(self) == *old(self)
            },
            !(old(self).strict_mode() && value is None) ==> {
                &&& r is Ok
                &&& r.unwrap() as int == old(self).value_views().len()
                &&& final(self).value_views() == old(self).value_views().push(opt_view(value))
                &&& final(self).constraint_views() == old(self).constraint_views()
                &&& final(self).public_views() == old(self).public_views()
            },
            final(self).strict_mode() == old(self).strict_mode(),
    {
        if self.strict && value.is_none() {
            return Err(SynthError::AssignmentMissing);
        }
        let idx = self.values.len();
        self.values.push(value);
        proof {
            assert(self.value_views() =~= old(self).value_views().push(opt_view(value)));
        }
        Ok(idx)
    }

    /// Allocates a public variable: as `alloc`, and the index is also
    /// recorded in the ordered list of public inputs.
    pub fn allocate_public(&mut self, value: Option<Fp>) -> (r: Result<usize, SynthError>)
        ensures
            old(self).strict_mode() && value is None ==> {
                &&& r == Err::<usize, SynthError>(SynthError::AssignmentMissing)
                &&& *final(self) == *old(self)
            },
            !(old(self).strict_mode() && value is None) ==> {
                &&& r is Ok
                &&& r.unwrap() as int == old(self).value_views().len()
                &&& final(self).value_views() == old(self).value_views().push(opt_view(value))
                &&& final(self).constraint_views() == old(self).constraint_views()
                &&& final(self).public_views() == old(self).public_views().push(
                    old(self).value_views().len() as int,
                )
            },
            final(self).strict_mode() == old(self).strict_mode(),
    {
        if self.strict && value.is_none() {
            return Err(SynthError::AssignmentMissing);
        }
        let idx = self.values.len();
        self.values.push(value);
        self.publics.push(idx);
        proof {
            assert(self.value_views() =~= old(self).value_views().push(opt_view(value)));
            assert(self.public_views() =~= old(self).public_views().push(
                old(self).value_views().len() as int,
            ));
        }
        Ok(idx)
    }

    /// Records the constraint `a * b = c`.
    pub fn enforce(&mut self, a: LinComb, b: LinComb, c: LinComb)
        ensures
            final(self).constraint_views() == old(self).constraint_views().push(
                SpecConstraint { a: a@, b: b@, c: c@ },
            ),
            final(self).value_views() == old(self).value_views(),
            final(self).public_views() == old(self).public_views(),
            final(self).strict_mode() == old(self).strict_mode(),
    {
        let ghost spec_c = SpecConstraint { a: a@, b: b@, c: c@ };
        self.constraints.push(Constraint { a, b, c });
        proof {
            assert(self.constraint_views() =~= old(self).constraint_views().push(spec_c));
        }
    }

    /// How many variables are allocated, the constant one included.
    pub fn num_vars(&self) -> (n: usize)
        ensures
            n as int == self.value_views().len(),
    {
        self.values.len()
    }

    /// The recorded value of the variable with index `i`.
    pub fn value_at(&self, i: usize) -> (v: Option<Fp>)
        requires
            (i as int) < self.value_views().len(),
        ensures
            opt_view(v) == self.value_views()[i as int],
    {
        self.values[i]
    }

    /// The indices of the public variables, in allocation order.
    pub fn public_indices(&self) -> (v: &Vec<usize>)
        ensures
            v@.map_values(|u: usize| u as int) == self.public_views(),
    {
        &self.publics
    }

    /// The recorded constraints, in order.
    pub fn constraint_list(&self) -> (v: &Vec<Constraint>)
        ensures
            v@.map_values(|c: Constraint| c@) == self.constraint_views(),
    {
        &self.constraints
    }
}

/// The encodings of a fully materialized assignment.
pub open spec fn assignment_views(s: Seq<Fp>) -> Seq<Seq<u8>> {
    s.map_values(|f: Fp| f@)
}

/// Evaluates one term under the assignment.
pub fn term_eval(t: &Term, asg: &Vec<Fp>) -> (r: Fp)
    requires
        term_wf(t@, asg@.len() as int),
    ensures
        r@ == term_value(t@, assignment_views(asg@)),
{
    match t {
        Term::Var { index } => asg[*index],
        Term::Scaled { coeff, index } => coeff.mul(&asg[*index]),
    }
}

/// Evaluates a linear combination under the assignment.
pub fn lc_eval(lc: &LinComb, asg: &Vec<Fp>) -> (r: Fp)
    requires
        lc_wf(lc@, asg@.len() as int),
    ensures
        r@ == lc_value(lc@, assignment_views(asg@)),
{
    proof {
        assert(term_wf(lc@[0], asg@.len() as int));
        assert(lc@[0] == lc.terms@[0]@);
    }
    let mut acc = term_eval(&lc.terms[0], asg);
    let mut i: usize = 1;
    proof {
        assert(lc@.take(1) =~= seq![lc@[0]]);
    }
    while i < lc.terms.len()
        invariant
            1 <= i <= lc@.len(),
            lc_wf(lc@, asg@.len() as int),
            acc@ == lc_value(lc@.take(i as int), assignment_views(asg@)),
        decreases lc@.len() - i,
    {
        proof {
            assert(term_wf(lc@[i as int], asg@.len() as int));
            assert(lc@[i as int] == lc.terms@[i as int]@);
        }
        let tv = term_eval(&lc.terms[i], asg);
        acc = acc.add(&tv);
        proof {
            let pre = lc@.take(i as int);
            let post = lc@.take(i + 1int);
            assert(post.drop_last() =~= pre);
            assert(post.last() == lc@[i as int]);
        }
        i = i + 1;
    }
    proof {
        assert(lc@.take(lc@.len() as int) =~= lc@);
    }
    acc
}

/// Whether the constraint holds under the assignment; the direct check
/// `a * b = c` over the field.
pub fn constraint_satisfied(c: &Constraint, asg: &Vec<Fp>) -> (b: bool)
    requires
        constraint_wf(c@, asg@.len() as int),
    ensures
        b == constraint_holds(c@, assignment_views(asg@)),
{
    let av = lc_eval(&c.a, asg);
    let bv = lc_eval(&c.b, asg);
    let cv = lc_eval(&c.c, asg);
    let prod = av.mul(&bv);
    prod.eq_value(&cv)
}

/// Whether every constraint of the system holds under the assignment.
pub fn all_satisfied(cs: &Vec<Constraint>, asg: &Vec<Fp>) -> (b: bool)
    requires
        forall|i: int| 0 <= i < cs@.len() ==> constraint_wf(#[trigger] cs@[i]@, asg@.len() as int),
    ensures
        b == all_constraints_hold(cs@.map_values(|c: Constraint| c@), assignment_views(asg@)),
{
    let ghost specs = cs@.map_values(|c: Constraint| c@);
    let mut i: usize = 0;
    while i < cs.len()
        invariant
            0 <= i <= cs@.len(),
            specs == cs@.map_values(|c: Constraint| c@),
            forall|i: int| 0 <= i < cs@.len() ==> constraint_wf(#[trigger] cs@[i]@, asg@.len() as int),
            forall|k: int| 0 <= k < i ==> constraint_holds(#[trigger] specs[k], assignment_views(asg@)),
        decreases cs@.len() - i,
    {
        if !constraint_satisfied(&cs[i], asg) {
            assert(!constraint_holds(specs[i as int], assignment_views(asg@)));
            return false;
        }
        i = i + 1;
    }
    true
}

} // verus!
