//! What every plan satisfies, stated over the planner's stages.
use vstd::prelude::*;
use crate::planner::{
    ComposeBrc20PlanView, PREIMAGE_OK, PlanError, PreimageOutputView, brc20_plan_result,
    commit_stage, estimation_reveal, precondition_error, reversed,
};
use crate::types::OutputRecipientView;

verus! {

/// The commit transaction has one output, which carries the inscription and
/// locks exactly the estimated reveal fee plus the tagged output's value.
pub proof fn lemma_commit_value_balance(
    p: ComposeBrc20PlanView,
    estimate: PreimageOutputView,
    commit_preimage: PreimageOutputView,
)
    requires
        brc20_plan_result(p, estimate, commit_preimage) is Ok,
    ensures
        ({
            let plan = brc20_plan_result(p, estimate, commit_preimage)->Ok_0;
            &&& plan.commit.outputs.len() == 1
            &&& plan.commit.outputs[0].value == estimate.fee_estimate
                + p.tagged_output->0.value
            &&& plan.commit.outputs[0].to_recipient == OutputRecipientView::Brc20Inscribe(
                p.inscription->0,
            )
        }),
{
}

/// The final reveal transaction has the outputs of the provisional one, the
/// tagged output alone, and differs from it only in what its one input spends
/// and the value that the input claims.
pub proof fn lemma_reveal_outputs_stable(
    p: ComposeBrc20PlanView,
    estimate: PreimageOutputView,
    commit_preimage: PreimageOutputView,
)
    requires
        brc20_plan_result(p, estimate, commit_preimage) is Ok,
    ensures
        ({
            let reveal = brc20_plan_result(p, estimate, commit_preimage)->Ok_0.reveal;
            let provisional = estimation_reveal(p);
            &&& reveal.outputs == provisional.outputs
            &&& reveal.outputs == seq![p.tagged_output->0]
            &&& reveal.inputs.len() == 1
            &&& provisional.inputs.len() == 1
            &&& reveal.inputs[0].vout == provisional.inputs[0].vout
            &&& reveal.inputs[0].sighash_type == provisional.inputs[0].sighash_type
            &&& reveal.inputs[0].to_recipient == provisional.inputs[0].to_recipient
            &&& reveal.input_selector == provisional.input_selector
            &&& reveal.fee_per_vb == provisional.fee_per_vb
            &&& reveal.change_output == provisional.change_output
            &&& reveal.disable_change_output
            &&& provisional.disable_change_output
        }),
{
}

/// The final reveal input spends the commit transaction: it holds the
/// identifier that the oracle reported, in reverse byte order.
pub proof fn lemma_reveal_spends_commit(
    p: ComposeBrc20PlanView,
    estimate: PreimageOutputView,
    commit_preimage: PreimageOutputView,
)
    requires
        brc20_plan_result(p, estimate, commit_preimage) is Ok,
    ensures
        ({
            let reveal = brc20_plan_result(p, estimate, commit_preimage)->Ok_0.reveal;
            &&& reveal.inputs[0].txid == reversed(commit_preimage.txid)
            &&& reversed(reveal.inputs[0].txid) == commit_preimage.txid
        }),
{
    let t = commit_preimage.txid;
    assert(reversed(reversed(t)) =~= t);
}

/// A failure that the oracle reports on the provisional reveal transaction
/// ends planning with that status.
pub proof fn lemma_estimate_failure_fails_plan(
    p: ComposeBrc20PlanView,
    estimate: PreimageOutputView,
    commit_preimage: PreimageOutputView,
)
    requires
        precondition_error(p) is None,
        estimate.error_code != PREIMAGE_OK,
    ensures
        brc20_plan_result(p, estimate, commit_preimage) == Err::<
            crate::planner::TransactionPlanView,
            PlanError,
        >(PlanError::PreimageHashFailed(estimate.error_code)),
{
}

/// Once the commit transaction is built, a failure that the oracle reports
/// on it ends planning with that status.
pub proof fn lemma_commit_failure_fails_plan(
    p: ComposeBrc20PlanView,
    estimate: PreimageOutputView,
    commit_preimage: PreimageOutputView,
)
    requires
        commit_stage(p, estimate) is Ok,
        commit_preimage.error_code != PREIMAGE_OK,
    ensures
        brc20_plan_result(p, estimate, commit_preimage) == Err::<
            crate::planner::TransactionPlanView,
            PlanError,
        >(PlanError::PreimageHashFailed(commit_preimage.error_code)),
{
}

/// A plan is made only when the oracle reported success on both transactions.
pub proof fn lemma_plan_needs_both_reports_ok(
    p: ComposeBrc20PlanView,
    estimate: PreimageOutputView,
    commit_preimage: PreimageOutputView,
)
    requires
        brc20_plan_result(p, estimate, commit_preimage) is Ok,
    ensures
        estimate.error_code == PREIMAGE_OK,
        commit_preimage.error_code == PREIMAGE_OK,
{
}

/// A request without inscription fails with `MissingInscriptionData`, and one
/// with an inscription but no tagged output with `MissingTaggedOutput`,
/// whatever the oracle would report.
pub proof fn lemma_missing_parts_fail(
    p: ComposeBrc20PlanView,
    estimate: PreimageOutputView,
    commit_preimage: PreimageOutputView,
)
    ensures
        p.inscription is None ==> brc20_plan_result(p, estimate, commit_preimage) == Err::<
            crate::planner::TransactionPlanView,
            PlanError,
        >(PlanError::MissingInscriptionData),
        p.inscription is Some && p.tagged_output is None ==> brc20_plan_result(
            p,
            estimate,
            commit_preimage,
        ) == Err::<crate::planner::TransactionPlanView, PlanError>(
            PlanError::MissingTaggedOutput,
        ),
{
}

/// Equal requests and equal reports give equal results; of the report on the
/// provisional reveal transaction, only its status and fee estimate count.
pub proof fn lemma_plan_deterministic(
    p1: ComposeBrc20PlanView,
    p2: ComposeBrc20PlanView,
    estimate1: PreimageOutputView,
    estimate2: PreimageOutputView,
    commit_preimage1: PreimageOutputView,
    commit_preimage2: PreimageOutputView,
)
    requires
        p1 == p2,
        estimate1.error_code == estimate2.error_code,
        estimate1.fee_estimate == estimate2.fee_estimate,
        commit_preimage1 == commit_preimage2,
    ensures
        brc20_plan_result(p1, estimate1, commit_preimage1) == brc20_plan_result(
            p2,
            estimate2,
            commit_preimage2,
        ),
{
}

} // verus!
