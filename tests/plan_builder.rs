use std::cell::RefCell;

use tw_bitcoin::detach::{detach_bytes, detach_input, detach_inputs, detach_output};
use tw_bitcoin::planner::{
    reverse_bytes, BitcoinPlanBuilder, ComposeBrc20Plan, ComposePlan, PlanError, PreimageOracle,
    PreimageOutput, TransactionPlan, PREIMAGE_OK, TXID_LEN,
};
use tw_bitcoin::types::{
    Brc20Inscription, Input, InputRecipient, InputSelector, Output, OutputRecipient, SighashType,
    SigningInput,
};

/// Answers each call with the next of its reports and records what it was asked.
struct ScriptedOracle {
    reports: RefCell<Vec<PreimageOutput>>,
    seen: RefCell<Vec<SigningInput>>,
}

impl ScriptedOracle {
    fn new(reports: Vec<PreimageOutput>) -> Self {
        let mut reports = reports;
        reports.reverse();
        ScriptedOracle { reports: RefCell::new(reports), seen: RefCell::new(Vec::new()) }
    }
}

impl PreimageOracle for ScriptedOracle {
    fn preimage_hashes(&self, input: &SigningInput) -> PreimageOutput {
        self.seen.borrow_mut().push(input.clone());
        self.reports.borrow_mut().pop().expect("oracle asked too often")
    }
}

fn ok_report(fee_estimate: u64, txid: Vec<u8>) -> PreimageOutput {
    PreimageOutput { error_code: PREIMAGE_OK, fee_estimate, txid }
}

fn failed_report(code: u32) -> PreimageOutput {
    PreimageOutput { error_code: code, fee_estimate: 0, txid: Vec::new() }
}

fn commit_txid() -> Vec<u8> {
    let mut txid = vec![0u8; 32];
    txid[31] = 1;
    txid
}

fn inscription() -> Brc20Inscription {
    Brc20Inscription {
        one_prevout: false,
        inscribe_to: vec![0x02, 0xab, 0xcd],
        ticker: "ordi".to_string(),
        transfer_amount: 100,
    }
}

fn tagged_output() -> Output {
    Output { value: 546, to_recipient: OutputRecipient::Script(vec![0x51, 0x20, 0x01]) }
}

fn funding_input() -> Input {
    Input {
        txid: vec![0x11; 32],
        vout: 3,
        value: 10_000,
        sighash_type: SighashType::All,
        to_recipient: InputRecipient::Script(vec![0x00, 0x14, 0x99]),
    }
}

fn request() -> ComposeBrc20Plan {
    ComposeBrc20Plan {
        inputs: vec![funding_input()],
        input_selector: InputSelector::SelectAscending,
        tagged_output: Some(tagged_output()),
        inscription: Some(inscription()),
        fee_per_vb: 5,
        change_output: Some(Output {
            value: 0,
            to_recipient: OutputRecipient::Script(vec![0x00, 0x14, 0x42]),
        }),
        disable_change_output: false,
    }
}

fn dump<T: std::fmt::Debug>(t: &T) -> String {
    format!("{:?}", t)
}

fn plan_with(req: ComposePlan, reports: Vec<PreimageOutput>) -> (Result<TransactionPlan, PlanError>, Vec<SigningInput>) {
    let oracle = ScriptedOracle::new(reports);
    let r = BitcoinPlanBuilder.plan(&oracle, req);
    let seen = oracle.seen.borrow().clone();
    (r, seen)
}

#[test]
fn concrete_ordi_transfer() {
    let (r, _) = plan_with(
        ComposePlan::Brc20(request()),
        vec![ok_report(200, Vec::new()), ok_report(0, commit_txid())],
    );
    let plan = r.expect("plan");
    assert_eq!(plan.commit.outputs.len(), 1);
    assert_eq!(plan.commit.outputs[0].value, 746);
    let mut expected = vec![0u8; 32];
    expected[0] = 1;
    assert_eq!(plan.reveal.inputs.len(), 1);
    assert_eq!(plan.reveal.inputs[0].txid, expected);
}

#[test]
fn commit_output_carries_inscription() {
    let (r, _) = plan_with(
        ComposePlan::Brc20(request()),
        vec![ok_report(1234, Vec::new()), ok_report(0, commit_txid())],
    );
    let plan = r.expect("plan");
    assert_eq!(plan.commit.outputs[0].value, 1234 + 546);
    match &plan.commit.outputs[0].to_recipient {
        OutputRecipient::Brc20Inscribe(b) => {
            assert_eq!(b.ticker, "ordi");
            assert_eq!(b.transfer_amount, 100);
            assert_eq!(b.inscribe_to, vec![0x02, 0xab, 0xcd]);
        },
        other => panic!("unexpected recipient {:?}", other),
    }
    assert_eq!(dump(&plan.commit.inputs), dump(&vec![funding_input()]));
    assert_eq!(plan.commit.input_selector, InputSelector::SelectAscending);
    assert!(!plan.commit.disable_change_output);
    assert_eq!(dump(&plan.commit.change_output), dump(&request().change_output));
}

#[test]
fn oracle_sees_estimation_then_commit() {
    let (r, seen) = plan_with(
        ComposePlan::Brc20(request()),
        vec![ok_report(200, Vec::new()), ok_report(0, commit_txid())],
    );
    let plan = r.expect("plan");
    assert_eq!(seen.len(), 2);
    let provisional = &seen[0];
    assert_eq!(provisional.inputs.len(), 1);
    assert_eq!(provisional.inputs[0].txid, vec![0u8; TXID_LEN]);
    assert_eq!(provisional.inputs[0].value, u64::MAX);
    assert_eq!(provisional.input_selector, InputSelector::UseAll);
    assert_eq!(provisional.fee_per_vb, 5);
    assert!(provisional.disable_change_output);
    assert_eq!(dump(&seen[1]), dump(&plan.commit));
}

#[test]
fn reveal_outputs_stay_the_same() {
    let (r, seen) = plan_with(
        ComposePlan::Brc20(request()),
        vec![ok_report(200, Vec::new()), ok_report(0, commit_txid())],
    );
    let plan = r.expect("plan");
    let provisional = &seen[0];
    assert_eq!(dump(&plan.reveal.outputs), dump(&provisional.outputs));
    assert_eq!(dump(&plan.reveal.outputs), dump(&vec![tagged_output()]));
    assert_eq!(dump(&plan.reveal.inputs[0].to_recipient), dump(&provisional.inputs[0].to_recipient));
    assert_eq!(plan.reveal.inputs[0].sighash_type, SighashType::UseDefault);
    assert_eq!(plan.reveal.input_selector, InputSelector::UseAll);
    assert!(plan.reveal.disable_change_output);
    assert!(plan.reveal.change_output.is_none());
}

#[test]
fn reveal_spends_reversed_commit_txid() {
    let txid: Vec<u8> = (0u8..32).collect();
    let (r, _) = plan_with(
        ComposePlan::Brc20(request()),
        vec![ok_report(200, Vec::new()), ok_report(0, txid.clone())],
    );
    let plan = r.expect("plan");
    let expected: Vec<u8> = (0u8..32).rev().collect();
    assert_eq!(plan.reveal.inputs[0].txid, expected);
}

#[test]
fn missing_inscription_fails() {
    let mut req = request();
    req.inscription = None;
    let (r, seen) = plan_with(ComposePlan::Brc20(req), Vec::new());
    assert_eq!(r.unwrap_err(), PlanError::MissingInscriptionData);
    assert!(seen.is_empty());
}

#[test]
fn missing_tagged_output_fails() {
    let mut req = request();
    req.tagged_output = None;
    let (r, seen) = plan_with(ComposePlan::Brc20(req), Vec::new());
    assert_eq!(r.unwrap_err(), PlanError::MissingTaggedOutput);
    assert!(seen.is_empty());
}

#[test]
fn missing_both_reports_inscription_first() {
    let mut req = request();
    req.inscription = None;
    req.tagged_output = None;
    let (r, _) = plan_with(ComposePlan::Brc20(req), Vec::new());
    assert_eq!(r.unwrap_err(), PlanError::MissingInscriptionData);
}

#[test]
fn unspecified_variant_fails() {
    let (r, seen) = plan_with(ComposePlan::Unspecified, Vec::new());
    assert_eq!(r.unwrap_err(), PlanError::UnsupportedComposeVariant);
    assert!(seen.is_empty());
}

#[test]
fn estimate_failure_fails_plan() {
    let (r, seen) = plan_with(ComposePlan::Brc20(request()), vec![failed_report(7)]);
    assert_eq!(r.unwrap_err(), PlanError::PreimageHashFailed(7));
    assert_eq!(seen.len(), 1);
}

#[test]
fn commit_failure_fails_plan() {
    let (r, seen) = plan_with(
        ComposePlan::Brc20(request()),
        vec![ok_report(200, Vec::new()), failed_report(12)],
    );
    assert_eq!(r.unwrap_err(), PlanError::PreimageHashFailed(12));
    assert_eq!(seen.len(), 2);
}

#[test]
fn commit_value_overflow_fails() {
    let (r, seen) = plan_with(ComposePlan::Brc20(request()), vec![ok_report(u64::MAX - 545, Vec::new())]);
    assert_eq!(r.unwrap_err(), PlanError::CommitValueOverflow);
    assert_eq!(seen.len(), 1);
}

#[test]
fn largest_commit_value_fits() {
    let (r, _) = plan_with(
        ComposePlan::Brc20(request()),
        vec![ok_report(u64::MAX - 546, Vec::new()), ok_report(0, commit_txid())],
    );
    assert_eq!(r.expect("plan").commit.outputs[0].value, u64::MAX);
}

#[test]
fn identical_requests_give_identical_plans() {
    let reports = || vec![ok_report(321, vec![9u8; 4]), ok_report(0, commit_txid())];
    let (a, _) = plan_with(ComposePlan::Brc20(request()), reports());
    let (b, _) = plan_with(ComposePlan::Brc20(request()), reports());
    assert_eq!(dump(&a), dump(&b));
}

#[test]
fn stages_match_plan() {
    let b = BitcoinPlanBuilder;
    let req = request();
    let provisional = b.reveal_estimate(&req).expect("provisional");
    let commit = b.commit(&req, &ok_report(200, Vec::new())).expect("commit");
    assert_eq!(commit.outputs[0].value, 746);
    let plan = b.finish(&req, commit, &ok_report(0, commit_txid())).expect("plan");
    assert_eq!(dump(&plan.reveal.outputs), dump(&provisional.outputs));
    assert_eq!(plan.reveal.inputs[0].value, 0);
    assert_eq!(plan.reveal.fee_per_vb, provisional.fee_per_vb);
}

#[test]
fn stage_errors() {
    let b = BitcoinPlanBuilder;
    let mut req = request();
    assert_eq!(b.commit(&req, &failed_report(3)).unwrap_err(), PlanError::PreimageHashFailed(3));
    let commit = b.commit(&req, &ok_report(1, Vec::new())).expect("commit");
    assert_eq!(b.finish(&req, commit, &failed_report(4)).unwrap_err(), PlanError::PreimageHashFailed(4));
    req.tagged_output = None;
    assert_eq!(b.reveal_estimate(&req).unwrap_err(), PlanError::MissingTaggedOutput);
}

#[test]
fn reverse_bytes_reverses() {
    assert_eq!(reverse_bytes(&vec![1, 2, 3, 4]), vec![4, 3, 2, 1]);
    assert_eq!(reverse_bytes(&Vec::new()), Vec::<u8>::new());
    assert_eq!(reverse_bytes(&vec![5]), vec![5]);
}

#[test]
fn detached_copies_are_equal() {
    assert_eq!(detach_bytes(&vec![1, 2, 3]), vec![1, 2, 3]);
    let input = Input {
        txid: vec![0xaa; 32],
        vout: 1,
        value: 99,
        sighash_type: SighashType::Single,
        to_recipient: InputRecipient::Brc20Inscribe(inscription()),
    };
    assert_eq!(dump(&detach_input(&input)), dump(&input));
    assert_eq!(dump(&detach_output(&tagged_output())), dump(&tagged_output()));
    let inputs = vec![funding_input(), input];
    assert_eq!(dump(&detach_inputs(&inputs)), dump(&inputs));
}
