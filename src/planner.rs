//! Two-phase planning of an inscription's commit and reveal transactions.
use vstd::prelude::*;
use crate::detach::{detach_inputs, detach_inscription, detach_opt_output, detach_output};
use crate::types::{
    Brc20Inscription, Brc20InscriptionView, Input, InputRecipient, InputRecipientView,
    InputSelector, InputView, Output, OutputRecipient, OutputRecipientView, OutputView,
    SighashType, SigningInput, SigningInputView, inputs_view, opt_output_view,
};

verus! {

/// The status code with which the preimage oracle reports success.
pub const PREIMAGE_OK: u32 = 0;

/// The length of a transaction identifier, and of the placeholder used before
/// the commit transaction's identifier is known.
pub const TXID_LEN: usize = 32;

/// What the planner asks for: an inscription to commit to and then reveal.
#[derive(Clone, Debug)]
pub struct ComposeBrc20Plan {
    /// Inputs that fund the commit transaction.
    pub inputs: Vec<Input>,
    pub input_selector: InputSelector,
    /// The dust-sized output that carries the inscription in the reveal transaction.
    pub tagged_output: Option<Output>,
    pub inscription: Option<Brc20Inscription>,
    pub fee_per_vb: u64,
    pub change_output: Option<Output>,
    pub disable_change_output: bool,
}

pub struct ComposeBrc20PlanView {
    pub inputs: Seq<InputView>,
    pub input_selector: InputSelector,
    pub tagged_output: Option<OutputView>,
    pub inscription: Option<Brc20InscriptionView>,
    pub fee_per_vb: u64,
    pub change_output: Option<OutputView>,
    pub disable_change_output: bool,
}

impl View for ComposeBrc20Plan {
    type V = ComposeBrc20PlanView;

    open spec fn view(&self) -> ComposeBrc20PlanView {
        ComposeBrc20PlanView {
            inputs: inputs_view(self.inputs@),
            input_selector: self.input_selector,
            tagged_output: opt_output_view(self.tagged_output),
            inscription: match self.inscription {
                Some(i) => Some(i@),
                None => None,
            },
            fee_per_vb: self.fee_per_vb,
            change_output: opt_output_view(self.change_output),
            disable_change_output: self.disable_change_output,
        }
    }
}

/// A planning request: one variant per inscription protocol.
#[derive(Clone, Debug)]
pub enum ComposePlan {
    Brc20(ComposeBrc20Plan),
    /// No protocol was chosen, or one that this planner does not know.
    Unspecified,
}

pub enum ComposePlanView {
    Brc20(ComposeBrc20PlanView),
    Unspecified,
}

impl View for ComposePlan {
    type V = ComposePlanView;

    open spec fn view(&self) -> ComposePlanView {
        match self {
            ComposePlan::Brc20(p) => ComposePlanView::Brc20(p@),
            ComposePlan::Unspecified => ComposePlanView::Unspecified,
        }
    }
}

/// What the preimage oracle reports on an unsigned transaction.
#[derive(Clone, Debug)]
pub struct PreimageOutput {
    /// `PREIMAGE_OK` on success, another code on failure.
    pub error_code: u32,
    pub fee_estimate: u64,
    /// The transaction's identifier, in internal byte order.
    pub txid: Vec<u8>,
}

pub struct PreimageOutputView {
    pub error_code: u32,
    pub fee_estimate: u64,
    pub txid: Seq<u8>,
}

impl View for PreimageOutput {
    type V = PreimageOutputView;

    open spec fn view(&self) -> PreimageOutputView {
        PreimageOutputView {
            error_code: self.error_code,
            fee_estimate: self.fee_estimate,
            txid: self.txid@,
        }
    }
}

/// The two unsigned transactions of an inscription, to be signed and sent in
/// this order.
#[derive(Clone, Debug)]
pub struct TransactionPlan {
    pub commit: SigningInput,
    pub reveal: SigningInput,
}

pub struct TransactionPlanView {
    pub commit: SigningInputView,
    pub reveal: SigningInputView,
}

impl View for TransactionPlan {
    type V = TransactionPlanView;

    open spec fn view(&self) -> TransactionPlanView {
        TransactionPlanView { commit: self.commit@, reveal: self.reveal@ }
    }
}

/// Why a plan could not be made.
#[derive(Clone, Copy, Debug, PartialEq, Eq, Structural)]
pub enum PlanError {
    UnsupportedComposeVariant,
    MissingInscriptionData,
    MissingTaggedOutput,
    /// The oracle refused a transaction, with this status code.
    PreimageHashFailed(u32),
    /// The reveal fee plus the tagged output's value does not fit in 64 bits.
    CommitValueOverflow,
}

/// A result of the planner's stages, with the success value seen through its view.
pub open spec fn view_result<T: View>(r: Result<T, PlanError>) -> Result<T::V, PlanError> {
    match r {
        Ok(t) => Ok(t@),
        Err(e) => Err(e),
    }
}

/// `s` in reverse order: the byte order in which a spend refers to a transaction.
pub open spec fn reversed(s: Seq<u8>) -> Seq<u8> {
    Seq::new(s.len(), |i: int| s[s.len() - 1 - i])
}

/// The identifier that stands for the commit transaction before it is known.
pub open spec fn placeholder_txid() -> Seq<u8> {
    Seq::new(TXID_LEN as nat, |i: int| 0u8)
}

/// The error that a request's missing parts give, if any.
pub open spec fn precondition_error(p: ComposeBrc20PlanView) -> Option<PlanError> {
    if p.inscription is None {
        Some(PlanError::MissingInscriptionData)
    } else if p.tagged_output is None {
        Some(PlanError::MissingTaggedOutput)
    } else {
        None
    }
}

/// A reveal transaction: one input that spends `txid` and carries the
/// inscription, and the tagged output alone, with no change.
pub open spec fn reveal_view(
    ins: Brc20InscriptionView,
    tagged: OutputView,
    txid: Seq<u8>,
    value: u64,
    fee_per_vb: u64,
) -> SigningInputView {
    SigningInputView {
        inputs: seq![
            InputView {
                txid,
                vout: 0,
                value,
                sighash_type: SighashType::UseDefault,
                to_recipient: InputRecipientView::Brc20Inscribe(ins),
            },
        ],
        outputs: seq![tagged],
        input_selector: InputSelector::UseAll,
        fee_per_vb,
        change_output: None,
        disable_change_output: true,
    }
}

/// The provisional reveal transaction whose fee is estimated: it spends the
/// placeholder identifier with the largest input value, so that the
/// estimate never meets a shortfall.
pub open spec fn estimation_reveal(p: ComposeBrc20PlanView) -> SigningInputView
    recommends
        precondition_error(p) is None,
{
    reveal_view(
        p.inscription->0,
        p.tagged_output->0,
        placeholder_txid(),
        u64::MAX,
        p.fee_per_vb,
    )
}

/// The final reveal transaction: it spends the commit transaction, whose
/// identifier the oracle gave as `commit_txid`.
pub open spec fn final_reveal(p: ComposeBrc20PlanView, commit_txid: Seq<u8>) -> SigningInputView
    recommends
        precondition_error(p) is None,
{
    reveal_view(p.inscription->0, p.tagged_output->0, reversed(commit_txid), 0, p.fee_per_vb)
}

/// The value that the commit transaction locks for the reveal: its fee and
/// the tagged output's value.
pub open spec fn commit_value(p: ComposeBrc20PlanView, fee_estimate: u64) -> int
    recommends
        precondition_error(p) is None,
{
    fee_estimate + p.tagged_output->0.value
}

/// The commit transaction: the request's own inputs, selector and change
/// policy, and one output that locks `commit_value` to the inscription.
pub open spec fn commit_view(p: ComposeBrc20PlanView, fee_estimate: u64) -> SigningInputView
    recommends
        precondition_error(p) is None,
{
    SigningInputView {
        inputs: p.inputs,
        outputs: seq![
            OutputView {
                value: commit_value(p, fee_estimate) as u64,
                to_recipient: OutputRecipientView::Brc20Inscribe(p.inscription->0),
            },
        ],
        input_selector: p.input_selector,
        fee_per_vb: p.fee_per_vb,
        change_output: p.change_output,
        disable_change_output: p.disable_change_output,
    }
}

/// The first stage: the transaction to estimate, or why there is none.
pub open spec fn estimation_stage(p: ComposeBrc20PlanView) -> Result<SigningInputView, PlanError> {
    match precondition_error(p) {
        Some(e) => Err(e),
        None => Ok(estimation_reveal(p)),
    }
}

/// The second stage: the commit transaction, given what the oracle reported
/// on the provisional reveal transaction.
pub open spec fn commit_stage(p: ComposeBrc20PlanView, estimate: PreimageOutputView) -> Result<
    SigningInputView,
    PlanError,
> {
    match precondition_error(p) {
        Some(e) => Err(e),
        None => if estimate.error_code != PREIMAGE_OK {
            Err(PlanError::PreimageHashFailed(estimate.error_code))
        } else if commit_value(p, estimate.fee_estimate) > u64::MAX {
            Err(PlanError::CommitValueOverflow)
        } else {
            Ok(commit_view(p, estimate.fee_estimate))
        },
    }
}

/// The last stage: the plan, given the commit transaction and what the oracle
/// reported on it.
pub open spec fn finish_stage(
    p: ComposeBrc20PlanView,
    commit: SigningInputView,
    commit_preimage: PreimageOutputView,
) -> Result<TransactionPlanView, PlanError> {
    match precondition_error(p) {
        Some(e) => Err(e),
        None => if commit_preimage.error_code != PREIMAGE_OK {
            Err(PlanError::PreimageHashFailed(commit_preimage.error_code))
        } else {
            Ok(TransactionPlanView { commit, reveal: final_reveal(p, commit_preimage.txid) })
        },
    }
}

/// The whole plan of an inscription request, given the oracle's two reports:
/// on the provisional reveal transaction, then on the commit transaction.
pub open spec fn brc20_plan_result(
    p: ComposeBrc20PlanView,
    estimate: PreimageOutputView,
    commit_preimage: PreimageOutputView,
) -> Result<TransactionPlanView, PlanError> {
    match commit_stage(p, estimate) {
        Err(e) => Err(e),
        Ok(commit) => finish_stage(p, commit, commit_preimage),
    }
}

/// The plan of any request, given the oracle's two reports.
pub open spec fn plan_result(
    req: ComposePlanView,
    estimate: PreimageOutputView,
    commit_preimage: PreimageOutputView,
) -> Result<TransactionPlanView, PlanError> {
    match req {
        ComposePlanView::Brc20(p) => brc20_plan_result(p, estimate, commit_preimage),
        ComposePlanView::Unspecified => Err(PlanError::UnsupportedComposeVariant),
    }
}

/// Reports on an unsigned transaction: its fee estimate and its identifier.
pub trait PreimageOracle {
    fn preimage_hashes(&self, input: &SigningInput) -> PreimageOutput;
}

/// Plans the commit and reveal transactions of an inscription.
pub struct BitcoinPlanBuilder;

/// `b` in reverse order.
pub fn reverse_bytes(b: &Vec<u8>) -> (r: Vec<u8>)
    ensures
        r@ == reversed(b@),
{
    let mut r: Vec<u8> = Vec::with_capacity(b.len());
    let mut i: usize = b.len();
    while i > 0
        invariant
            i <= b.len(),
            r@.len() == b.len() - i,
            forall|j: int| 0 <= j < r@.len() ==> #[trigger] r@[j] == b@[b.len() - 1 - j],
        decreases i,
    {
        i = i - 1;
        r.push(b[i]);
    }
    assert(r@ =~= reversed(b@));
    r
}

/// The reveal transaction that spends `txid` with the given input value.
fn build_reveal(
    ins: &Brc20Inscription,
    tagged: &Output,
    txid: Vec<u8>,
    value: u64,
    fee_per_vb: u64,
) -> (r: SigningInput)
    ensures
        r@ == reveal_view(ins@, tagged@, txid@, value, fee_per_vb),
{
    let input = Input {
        txid,
        vout: 0,
        value,
        sighash_type: SighashType::UseDefault,
        to_recipient: InputRecipient::Brc20Inscribe(detach_inscription(ins)),
    };
    let r = SigningInput {
        inputs: vec![input],
        outputs: vec![detach_output(tagged)],
        input_selector: InputSelector::UseAll,
        fee_per_vb,
        change_output: None,
        disable_change_output: true,
    };
    assert(r@.inputs =~= reveal_view(ins@, tagged@, txid@, value, fee_per_vb).inputs);
    assert(r@.outputs =~= reveal_view(ins@, tagged@, txid@, value, fee_per_vb).outputs);
    r
}

impl BitcoinPlanBuilder {
    /// The provisional reveal transaction, on which the oracle estimates the
    /// reveal fee; fails on a request without inscription or tagged output.
    pub fn reveal_estimate(&self, p: &ComposeBrc20Plan) -> (r: Result<SigningInput, PlanError>)
        ensures
            view_result(r) == estimation_stage(p@),
    {
        match (&p.inscription, &p.tagged_output) {
            (None, _) => Err(PlanError::MissingInscriptionData),
            (Some(_), None) => Err(PlanError::MissingTaggedOutput),
            (Some(ins), Some(tagged)) => {
                let placeholder: Vec<u8> = vec![0u8; TXID_LEN];
                assert(placeholder@ =~= placeholder_txid());
                Ok(build_reveal(ins, tagged, placeholder, u64::MAX, p.fee_per_vb))
            },
        }
    }

    /// The commit transaction, given what the oracle reported on the
    /// provisional reveal transaction: one output that locks the reveal fee
    /// plus the tagged output's value to the inscription.
    pub fn commit(&self, p: &ComposeBrc20Plan, estimate: &PreimageOutput) -> (r: Result<
        SigningInput,
        PlanError,
    >)
        ensures
            view_result(r) == commit_stage(p@, estimate@),
    {
        match (&p.inscription, &p.tagged_output) {
            (None, _) => Err(PlanError::MissingInscriptionData),
            (Some(_), None) => Err(PlanError::MissingTaggedOutput),
            (Some(ins), Some(tagged)) => {
                if estimate.error_code != PREIMAGE_OK {
                    return Err(PlanError::PreimageHashFailed(estimate.error_code));
                }
                let value = match estimate.fee_estimate.checked_add(tagged.value) {
                    Some(v) => v,
                    None => return Err(PlanError::CommitValueOverflow),
                };
                let output = Output {
                    value,
                    to_recipient: OutputRecipient::Brc20Inscribe(detach_inscription(ins)),
                };
                let r = SigningInput {
                    inputs: detach_inputs(&p.inputs),
                    outputs: vec![output],
                    input_selector: p.input_selector,
                    fee_per_vb: p.fee_per_vb,
                    change_output: detach_opt_output(&p.change_output),
                    disable_change_output: p.disable_change_output,
                };
                assert(r@.outputs =~= commit_view(p@, estimate.fee_estimate).outputs);
                Ok(r)
            },
        }
    }

    /// The plan, given the commit transaction and what the oracle reported on
    /// it: the reveal transaction spends the commit transaction, whose
    /// identifier it holds in reverse byte order.
    pub fn finish(
        &self,
        p: &ComposeBrc20Plan,
        commit: SigningInput,
        commit_preimage: &PreimageOutput,
    ) -> (r: Result<TransactionPlan, PlanError>)
        ensures
            view_result(r) == finish_stage(p@, commit@, commit_preimage@),
    {
        match (&p.inscription, &p.tagged_output) {
            (None, _) => Err(PlanError::MissingInscriptionData),
            (Some(_), None) => Err(PlanError::MissingTaggedOutput),
            (Some(ins), Some(tagged)) => {
                if commit_preimage.error_code != PREIMAGE_OK {
                    return Err(PlanError::PreimageHashFailed(commit_preimage.error_code));
                }
                let commit_txid = reverse_bytes(&commit_preimage.txid);
                let reveal = build_reveal(ins, tagged, commit_txid, 0, p.fee_per_vb);
                Ok(TransactionPlan { commit, reveal })
            },
        }
    }

    /// Plans an inscription, asking `oracle` first for the fee of the
    /// provisional reveal transaction, then for the commit transaction's
    /// identifier. The result is what the two reports give, whatever they were.
    pub fn plan_brc20<O: PreimageOracle>(&self, oracle: &O, p: ComposeBrc20Plan) -> (r: Result<
        TransactionPlan,
        PlanError,
    >)
        ensures
            exists|estimate: PreimageOutputView, commit_preimage: PreimageOutputView|
                view_result(r) == #[trigger] brc20_plan_result(p@, estimate, commit_preimage),
            p.inscription is None ==> r matches Err(PlanError::MissingInscriptionData),
            p.inscription is Some && p.tagged_output is None ==> r matches Err(
                PlanError::MissingTaggedOutput,
            ),
    {
        let ghost none = PreimageOutputView { error_code: 0, fee_estimate: 0, txid: Seq::empty() };
        let reveal = match self.reveal_estimate(&p) {
            Ok(s) => s,
            Err(e) => {
                assert(view_result(Err::<TransactionPlan, PlanError>(e)) == brc20_plan_result(p@, none, none));
                return Err(e);
            },
        };
        let estimate = oracle.preimage_hashes(&reveal);
        let commit = match self.commit(&p, &estimate) {
            Ok(s) => s,
            Err(e) => {
                assert(view_result(Err::<TransactionPlan, PlanError>(e)) == brc20_plan_result(p@, estimate@, none));
                return Err(e);
            },
        };
        let commit_preimage = oracle.preimage_hashes(&commit);
        let r = self.finish(&p, commit, &commit_preimage);
        assert(view_result(r) == brc20_plan_result(p@, estimate@, commit_preimage@));
        r
    }

    /// Plans a request by its protocol; fails on one that names none that is known.
    pub fn plan<O: PreimageOracle>(&self, oracle: &O, proto: ComposePlan) -> (r: Result<
        TransactionPlan,
        PlanError,
    >)
        ensures
            exists|estimate: PreimageOutputView, commit_preimage: PreimageOutputView|
                view_result(r) == #[trigger] plan_result(proto@, estimate, commit_preimage),
            proto is Unspecified ==> r matches Err(PlanError::UnsupportedComposeVariant),
    {
        let ghost req = proto@;
        match proto {
            ComposePlan::Brc20(p) => {
                let r = self.plan_brc20(oracle, p);
                proof {
                    let (estimate, commit_preimage) = choose|
                        estimate: PreimageOutputView,
                        commit_preimage: PreimageOutputView,
                    | view_result(r) == #[trigger] brc20_plan_result(p@, estimate, commit_preimage);
                    assert(view_result(r) == plan_result(req, estimate, commit_preimage));
                }
                r
            },
            ComposePlan::Unspecified => {
                let ghost none = PreimageOutputView { error_code: 0, fee_estimate: 0, txid: Seq::empty() };
                assert(view_result(Err::<TransactionPlan, PlanError>(PlanError::UnsupportedComposeVariant))
                    == plan_result(proto@, none, none));
                Err(PlanError::UnsupportedComposeVariant)
            },
        }
    }
}

} // verus!
