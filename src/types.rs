use vstd::prelude::*;

verus! {

/// How an input signs: the sighash flag that the signer will use.
#[derive(Clone, Copy, Debug, PartialEq, Eq, Structural)]
pub enum SighashType {
    UseDefault,
    All,
    NoOutputs,
    Single,
    AllPlusAnyoneCanPay,
    NoOutputsPlusAnyoneCanPay,
    SinglePlusAnyoneCanPay,
}

/// How the signer picks among the inputs that a transaction offers.
#[derive(Clone, Copy, Debug, PartialEq, Eq, Structural)]
pub enum InputSelector {
    SelectAscending,
    SelectInOrder,
    SelectDescending,
    UseAll,
}

/// A fungible-token transfer to be inscribed: what is moved, how much, and to whom.
#[derive(Clone, Debug)]
pub struct Brc20Inscription {
    pub one_prevout: bool,
    pub inscribe_to: Vec<u8>,
    pub ticker: String,
    pub transfer_amount: u64,
}

pub struct Brc20InscriptionView {
    pub one_prevout: bool,
    pub inscribe_to: Seq<u8>,
    pub ticker: Seq<char>,
    pub transfer_amount: u64,
}

impl View for Brc20Inscription {
    type V = Brc20InscriptionView;

    open spec fn view(&self) -> Brc20InscriptionView {
        Brc20InscriptionView {
            one_prevout: self.one_prevout,
            inscribe_to: self.inscribe_to@,
            ticker: self.ticker@,
            transfer_amount: self.transfer_amount,
        }
    }
}

/// What an input spends from: an ordinary locking script, or an inscription.
#[derive(Clone, Debug)]
pub enum InputRecipient {
    Script(Vec<u8>),
    Brc20Inscribe(Brc20Inscription),
}

pub enum InputRecipientView {
    Script(Seq<u8>),
    Brc20Inscribe(Brc20InscriptionView),
}

impl View for InputRecipient {
    type V = InputRecipientView;

    open spec fn view(&self) -> InputRecipientView {
        match self {
            InputRecipient::Script(s) => InputRecipientView::Script(s@),
            InputRecipient::Brc20Inscribe(b) => InputRecipientView::Brc20Inscribe(b@),
        }
    }
}

/// An unspent output offered as an input: its identifier, index, value and script.
#[derive(Clone, Debug)]
pub struct Input {
    pub txid: Vec<u8>,
    pub vout: u32,
    pub value: u64,
    pub sighash_type: SighashType,
    pub to_recipient: InputRecipient,
}

pub struct InputView {
    pub txid: Seq<u8>,
    pub vout: u32,
    pub value: u64,
    pub sighash_type: SighashType,
    pub to_recipient: InputRecipientView,
}

impl View for Input {
    type V = InputView;

    open spec fn view(&self) -> InputView {
        InputView {
            txid: self.txid@,
            vout: self.vout,
            value: self.value,
            sighash_type: self.sighash_type,
            to_recipient: self.to_recipient@,
        }
    }
}

/// What an output pays to: an ordinary locking script, or an inscription.
#[derive(Clone, Debug)]
pub enum OutputRecipient {
    Script(Vec<u8>),
    Brc20Inscribe(Brc20Inscription),
}

pub enum OutputRecipientView {
    Script(Seq<u8>),
    Brc20Inscribe(Brc20InscriptionView),
}

impl View for OutputRecipient {
    type V = OutputRecipientView;

    open spec fn view(&self) -> OutputRecipientView {
        match self {
            OutputRecipient::Script(s) => OutputRecipientView::Script(s@),
            OutputRecipient::Brc20Inscribe(b) => OutputRecipientView::Brc20Inscribe(b@),
        }
    }
}

/// An output of a transaction: its value and what it pays to.
#[derive(Clone, Debug)]
pub struct Output {
    pub value: u64,
    pub to_recipient: OutputRecipient,
}

pub struct OutputView {
    pub value: u64,
    pub to_recipient: OutputRecipientView,
}

impl View for Output {
    type V = OutputView;

    open spec fn view(&self) -> OutputView {
        OutputView { value: self.value, to_recipient: self.to_recipient@ }
    }
}

pub open spec fn inputs_view(v: Seq<Input>) -> Seq<InputView> {
    v.map_values(|i: Input| i@)
}

pub open spec fn outputs_view(v: Seq<Output>) -> Seq<OutputView> {
    v.map_values(|o: Output| o@)
}

pub open spec fn opt_output_view(o: Option<Output>) -> Option<OutputView> {
    match o {
        Some(x) => Some(x@),
        None => None,
    }
}

/// An unsigned transaction, as handed to the preimage oracle and later to a signer.
#[derive(Clone, Debug)]
pub struct SigningInput {
    pub inputs: Vec<Input>,
    pub outputs: Vec<Output>,
    pub input_selector: InputSelector,
    pub fee_per_vb: u64,
    pub change_output: Option<Output>,
    pub disable_change_output: bool,
}

pub struct SigningInputView {
    pub inputs: Seq<InputView>,
    pub outputs: Seq<OutputView>,
    pub input_selector: InputSelector,
    pub fee_per_vb: u64,
    pub change_output: Option<OutputView>,
    pub disable_change_output: bool,
}

impl View for SigningInput {
    type V = SigningInputView;

    open spec fn view(&self) -> SigningInputView {
        SigningInputView {
            inputs: inputs_view(self.inputs@),
            outputs: outputs_view(self.outputs@),
            input_selector: self.input_selector,
            fee_per_vb: self.fee_per_vb,
            change_output: opt_output_view(self.change_output),
            disable_change_output: self.disable_change_output,
        }
    }
}

} // verus!
