//! A small concrete computation, usable as the capability behind the
//! verifier: a single-column trace where each step cubes the previous
//! value, with one boundary assertion pinning the first step.
//!
//! It exists so that the whole verification pipeline can be driven
//! end to end from outside the library, where the [`Air`] trait itself
//! cannot be implemented.

use vstd::prelude::*;

verus! {

use crate::field::Ext;
use crate::field::Felt;
use crate::field::fe_in;
use crate::field::P;
use crate::air::Air;
use crate::air::AirContext;
use crate::air::BoundaryInfo;
use crate::air::Divisor;
use crate::air::ProofOptions;
use crate::transcript::is_pow2;

/// The cubing computation: its shape data plus the asserted first value.
pub struct WorkAir {
    context: AirContext,
    seed_value: Felt,
}

impl WorkAir {
    /// Everything the verifier's contracts need of a well-built value.
    #[verifier::type_invariant]
    spec fn inv(self) -> bool {
        &&& self.context.wf()
        &&& self.context.main_width == 1
        &&& self.context.aux_widths@.len() == 0
        &&& self.context.main_t_adjustments@.len() == 1
        &&& self.context.aux_t_adjustments@.len() == 0
        &&& self.context.num_assertions == 1
        &&& fe_in(Ext::Base, self.seed_value)
    }

    /// Builds the computation for a given trace length, asserted first
    /// value, and protocol options; rejects shapes the protocol cannot
    /// run over.
    pub fn new(trace_length: usize, seed_value: u64, options: ProofOptions) -> (r: Option<WorkAir>)
        ensures
            (r matches Some(a) ==> {
                &&& a.ctx().wf()
                &&& a.ctx().trace_length == trace_length
                &&& a.ctx().options == options
                &&& a.ctx().main_width == 1
                &&& a.ctx().num_assertions == 1
            }),
    {
        let ok_opts = options.num_queries >= 1 && is_pow2(options.blowup) && (options.fri_folding
            == 2 || options.fri_folding == 4 || options.fri_folding == 8 || options.fri_folding
            == 16) && options.fri_max_remainder >= 2 * options.fri_folding && is_pow2(
            options.fri_max_remainder,
        );
        if !ok_opts || !is_pow2(trace_length) || trace_length < 2 || seed_value >= P {
            return None;
        }
        if trace_length > 0x8000 || options.blowup > 0x8000 {
            return None;
        }
        proof {
            assert(trace_length * options.blowup <= 0x4000_0000) by (nonlinear_arith)
                requires
                    trace_length <= 0x8000,
                    options.blowup <= 0x8000,
            ;
        }
        if options.num_queries >= trace_length * options.blowup || options.num_queries >= 255 {
            return None;
        }
        proof {
            crate::air::lemma_spec_pow2_pos(options.blowup as nat);
        }
        let shape = crate::air::fri_shape_counts(
            trace_length * options.blowup,
            options.fri_folding,
            options.fri_max_remainder,
        );
        if shape.1 < options.fri_folding {
            return None;
        }
        let context = AirContext {
            trace_length,
            main_width: 1,
            aux_widths: Vec::new(),
            aux_rand_counts: Vec::new(),
            main_t_adjustments: vec![1u64],
            aux_t_adjustments: Vec::new(),
            num_assertions: 1,
            transition_exemptions: 1,
            ce_blowup: 4,
            options,
        };
        proof {
            assert(context.aux_width_sum(0) == 0);
            assert(context.num_transition_constraints() == 1);
            assert(context.full_width() == 1);
        }
        Some(WorkAir { context, seed_value: Felt { a: seed_value, b: 0, c: 0 } })
    }
}

impl Air for WorkAir {
    closed spec fn ctx(&self) -> AirContext {
        self.context
    }

    fn context(&self) -> (r: &AirContext) {
        proof {
            use_type_invariant(self);
        }
        &self.context
    }

    fn evaluate_transition(
        &self,
        e: Ext,
        main_cur: &Vec<Felt>,
        main_next: &Vec<Felt>,
        aux_cur: &Vec<Felt>,
        aux_next: &Vec<Felt>,
        aux_rand: &Vec<Vec<Felt>>,
        z: Felt,
    ) -> (r: (Vec<Felt>, Vec<Felt>)) {
        proof {
            use_type_invariant(self);
        }
        // the one constraint: next - cur^3 must vanish on the trace
        let cur = main_cur[0];
        let cubed = cur.mul(e, cur).mul(e, cur);
        let eval = main_next[0].sub(cubed);
        (vec![eval], Vec::new())
    }

    fn boundary_constraints(&self, e: Ext, aux_rand: &Vec<Vec<Felt>>) -> (r: Vec<BoundaryInfo>) {
        proof {
            use_type_invariant(self);
        }
        // one assertion: column 0 equals the seed at the first step, so
        // the divisor is (x - 1)
        let b = BoundaryInfo {
            is_aux: false,
            column: 0,
            poly: vec![self.seed_value],
            adjustment: 1,
            divisor: Divisor { xexp: 1, constant: 1, exemptions: Vec::new() },
        };
        vec![b]
    }
}

} // verus!
