//! The relation circuit for `out = x^3 + x + 5`.
//!
//! One synthesis routine translates the relation into allocations and
//! constraints against the sink, identically in shape whether the witness
//! is present (proving) or absent (setup); only the sink's strictness about
//! materialized values differs between the two modes.

use vstd::prelude::*;

use crate::field::{add_of, canonical, from_u64_of, mul_of, one_bytes, Fp};
use crate::r1cs::{
    all_constraints_hold, constraint_holds, constraint_wf, lc_value, opt_view, term_value, LinComb,
    R1cs,
    SpecConstraint, SpecTerm, SynthError, Term,
};

verus! {

/// The circuit instance: an optional witness for the secret input, plus
/// auxiliary round constants that are part of the configuration surface but
/// are never read by the cubic relation itself.
pub struct CubeDemo {
    pub x: Option<Fp>,
    pub constants: Vec<Fp>,
}

/// The constraint shape the synthesis pass records, in order, over the
/// variables `0 = one`, `1 = x`, `2 = x*x`, `3 = x*x*x`, `4 = out`:
/// `x * x = x2`, `x2 * x = x3`, and `(x3 + x + 5*one) * one = out`.
pub open spec fn cube_constraints() -> Seq<SpecConstraint> {
    seq![
        SpecConstraint {
            a: seq![SpecTerm::Var { index: 1 }],
            b: seq![SpecTerm::Var { index: 1 }],
            c: seq![SpecTerm::Var { index: 2 }],
        },
        SpecConstraint {
            a: seq![SpecTerm::Var { index: 2 }],
            b: seq![SpecTerm::Var { index: 1 }],
            c: seq![SpecTerm::Var { index: 3 }],
        },
        SpecConstraint {
            a: seq![
                SpecTerm::Var { index: 3 },
                SpecTerm::Var { index: 1 },
                SpecTerm::Scaled { coeff: from_u64_of(5), index: 0 },
            ],
            b: seq![SpecTerm::Var { index: 0 }],
            c: seq![SpecTerm::Var { index: 4 }],
        },
    ]
}

/// The public output a witness `v` induces: `v^3 + v + 5`, summed in the
/// order the synthesis pass computes it.
pub open spec fn cube_output(v: Seq<u8>) -> Seq<u8> {
    add_of(add_of(mul_of(mul_of(v, v), v), v), from_u64_of(5))
}

/// The values the variables take after one synthesis pass with the given
/// (optional) witness: intermediates materialize only when the witness does.
pub open spec fn synth_value_views(x: Option<Seq<u8>>) -> Seq<Option<Seq<u8>>> {
    match x {
        Some(v) => seq![
            Some(one_bytes()),
            Some(v),
            Some(mul_of(v, v)),
            Some(mul_of(mul_of(v, v), v)),
            Some(cube_output(v)),
        ],
        None => seq![Some(one_bytes()), None, None, None, None],
    }
}

/// The assignment in the circuit's shape for witness `v` and public output
/// `w`: the intermediates derived from `v`, and `out` bound to `w` as the
/// verifier would bind it.
pub open spec fn witness_assignment(v: Seq<u8>, w: Seq<u8>) -> Seq<Seq<u8>> {
    seq![one_bytes(), v, mul_of(v, v), mul_of(mul_of(v, v), v), w]
}

impl CubeDemo {
    /// The witness-less instance used for the setup pass.
    pub fn for_setup(constants: Vec<Fp>) -> (c: CubeDemo)
        ensures
            c.x is None,
            c.constants == constants,
    {
        CubeDemo { x: None, constants }
    }

    /// The witness-bearing instance used for the proving pass.
    pub fn for_proving(x: Fp, constants: Vec<Fp>) -> (c: CubeDemo)
        ensures
            c.x == Some(x),
            c.constants == constants,
    {
        CubeDemo { x: Some(x), constants }
    }

    /// Translates `out = x^3 + x + 5` into variable allocations and
    /// constraint enforcements against the sink.
    ///
    /// In lenient (setup) mode the pass always succeeds and records the
    /// same constraint shape, `cube_constraints()`, as strict (proving)
    /// mode does for any concrete witness.  In strict mode a missing
    /// witness aborts with `AssignmentMissing` and leaves the sink
    /// untouched; a proof is never produced from an absent assignment.
    pub fn synthesize(self, cs: &mut R1cs) -> (r: Result<(), SynthError>)
        requires
            old(cs).fresh(),
        ensures
            old(cs).strict_mode() && self.x is None ==> {
                &&& r == Err::<(), SynthError>(SynthError::AssignmentMissing)
                &&& *final(cs) == *old(cs)
            },
            !(old(cs).strict_mode() && self.x is None) ==> {
                &&& r is Ok
                &&& final(cs).constraint_views() == cube_constraints()
                &&& final(cs).value_views() == synth_value_views(opt_view(self.x))
                &&& final(cs).public_views() == seq![4int]
            },
            final(cs).strict_mode() == old(cs).strict_mode(),
    {
        let x_val = self.x;
        let x = match cs.allocate(x_val) {
            Ok(i) => i,
            Err(e) => {
                return Err(e);
            },
        };
        let x2_val = match &x_val {
            Some(v) => Some(v.square()),
            None => None,
        };
        let x2 = match cs.allocate(x2_val) {
            Ok(i) => i,
            Err(e) => {
                return Err(e);
            },
        };
        cs.enforce(
            LinComb { terms: vec![Term::Var { index: x }] },
            LinComb { terms: vec![Term::Var { index: x }] },
            LinComb { terms: vec![Term::Var { index: x2 }] },
        );
        let x3_val = match &x_val {
            Some(v) => Some(v.cube()),
            None => None,
        };
        let x3 = match cs.allocate(x3_val) {
            Ok(i) => i,
            Err(e) => {
                return Err(e);
            },
        };
        cs.enforce(
            LinComb { terms: vec![Term::Var { index: x2 }] },
            LinComb { terms: vec![Term::Var { index: x }] },
            LinComb { terms: vec![Term::Var { index: x3 }] },
        );
        let five = Fp::from_u64(5);
        let out_val = match (&x3_val, &x_val) {
            (Some(a3), Some(a1)) => Some(a3.add(a1).add(&five)),
            _ => None,
        };
        let out = match cs.allocate_public(out_val) {
            Ok(i) => i,
            Err(e) => {
                return Err(e);
            },
        };
        cs.enforce(
            LinComb {
                terms: vec![
                    Term::Var { index: x3 },
                    Term::Var { index: x },
                    Term::Scaled { coeff: five, index: 0 },
                ],
            },
            LinComb { terms: vec![Term::Var { index: 0 }] },
            LinComb { terms: vec![Term::Var { index: out }] },
        );
        proof {
            assert(cs.constraint_views() =~~= cube_constraints());
            assert(cs.value_views() =~= synth_value_views(opt_view(self.x)));
            assert(cs.public_views() =~= seq![4int]);
        }
        Ok(())
    }
}

/// Computes the public output `x^3 + x + 5` that the witness `x` induces.
///
/// Law: for every field value `x` and every encoding `w`, the assignment in
/// the circuit's shape — `[one, x, x*x, x^3, w]` — satisfies every recorded
/// constraint exactly when `w` is this output.
pub fn expected_public_output(x: &Fp) -> (out: Fp)
    ensures
        out@ == cube_output(x@),
        canonical(out@),
        forall|w: Seq<u8>|
            all_constraints_hold(cube_constraints(), witness_assignment(x@, w)) <==> w
                == cube_output(x@),
{
    // `one` takes no part in the computation; its contract carries the
    // multiplicative-identity fact the proof below leans on.
    let one = Fp::one();
    let x3 = x.cube();
    let s = x3.add(x);
    let five = Fp::from_u64(5);
    let out = s.add(&five);
    proof {
        let cs = cube_constraints();
        assert forall|w: Seq<u8>|
            all_constraints_hold(cs, witness_assignment(x@, w)) <==> w == cube_output(x@) by {
            let asg = witness_assignment(x@, w);
            let a2 = cs[2].a;
            assert(a2.drop_last() =~= seq![
                SpecTerm::Var { index: 3 },
                SpecTerm::Var { index: 1 },
            ]);
            assert(a2.drop_last().drop_last() =~= seq![SpecTerm::Var { index: 3 }]);
            assert(lc_value(a2.drop_last().drop_last(), asg) == asg[3]);
            assert(lc_value(a2.drop_last(), asg) == add_of(asg[3], asg[1]));
            assert(term_value(a2.last(), asg) == mul_of(from_u64_of(5), one_bytes()));
            assert(mul_of(from_u64_of(5), one_bytes()) == from_u64_of(5));
            assert(lc_value(a2, asg) == out@);
            assert(lc_value(cs[2].b, asg) == one_bytes());
            assert(lc_value(cs[2].c, asg) == w);
            assert(mul_of(out@, one_bytes()) == out@);
            assert(constraint_holds(cs[2], asg) <==> w == cube_output(x@));
            assert(constraint_holds(cs[0], asg));
            assert(constraint_holds(cs[1], asg));
            if w == cube_output(x@) {
                assert forall|i: int| 0 <= i < cs.len() implies constraint_holds(
                    #[trigger] cs[i],
                    asg,
                ) by {
                    if i == 0 {
                    } else if i == 1 {
                    } else {
                        assert(i == 2);
                    }
                }
            }
        }
    }
    out
}

/// Law: the recorded shape does not depend on the mode or the witness — it
/// is always `cube_constraints()`: three constraints, well-formed over the
/// five allocated variables, with the single public variable `out`.
pub proof fn lemma_cube_shape_well_formed()
    ensures
        cube_constraints().len() == 3,
        forall|i: int| 0 <= i < 3 ==> constraint_wf(#[trigger] cube_constraints()[i], 5),
        forall|x: Option<Seq<u8>>| synth_value_views(x).len() == 5,
{
    let cs = cube_constraints();
    assert forall|i: int| 0 <= i < 3 implies constraint_wf(#[trigger] cs[i], 5) by {
        if i == 0 {
            assert(constraint_wf(cs[0], 5));
        } else if i == 1 {
            assert(constraint_wf(cs[1], 5));
        } else {
            assert(constraint_wf(cs[2], 5));
        }
    }
}

} // verus!
