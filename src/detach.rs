//! Owned copies of transaction descriptors, so that a plan never shares
//! buffers with the request it was built from.
use vstd::prelude::*;
use crate::types::{
    Brc20Inscription, Input, InputRecipient, Output, OutputRecipient, inputs_view, opt_output_view,
};

verus! {

/// A byte-for-byte copy of a buffer.
pub fn detach_bytes(b: &Vec<u8>) -> (r: Vec<u8>)
    ensures
        r@ == b@,
{
    let mut r: Vec<u8> = Vec::with_capacity(b.len());
    let mut i: usize = 0;
    while i < b.len()
        invariant
            i <= b.len(),
            r@ == b@.subrange(0, i as int),
        decreases b.len() - i,
    {
        r.push(b[i]);
        i = i + 1;
    }
    assert(r@ =~= b@);
    r
}

/// A copy of an inscription descriptor that owns its address and ticker.
pub fn detach_inscription(ins: &Brc20Inscription) -> (r: Brc20Inscription)
    ensures
        r@ == ins@,
{
    Brc20Inscription {
        one_prevout: ins.one_prevout,
        inscribe_to: detach_bytes(&ins.inscribe_to),
        ticker: ins.ticker.clone(),
        transfer_amount: ins.transfer_amount,
    }
}

/// A copy of an input descriptor that owns all of its buffers.
pub fn detach_input(input: &Input) -> (r: Input)
    ensures
        r@ == input@,
{
    let to_recipient = match &input.to_recipient {
        InputRecipient::Script(s) => InputRecipient::Script(detach_bytes(s)),
        InputRecipient::Brc20Inscribe(b) => InputRecipient::Brc20Inscribe(detach_inscription(b)),
    };
    Input {
        txid: detach_bytes(&input.txid),
        vout: input.vout,
        value: input.value,
        sighash_type: input.sighash_type,
        to_recipient,
    }
}

/// A copy of an output descriptor that owns all of its buffers.
pub fn detach_output(output: &Output) -> (r: Output)
    ensures
        r@ == output@,
{
    let to_recipient = match &output.to_recipient {
        OutputRecipient::Script(s) => OutputRecipient::Script(detach_bytes(s)),
        OutputRecipient::Brc20Inscribe(b) => OutputRecipient::Brc20Inscribe(detach_inscription(b)),
    };
    Output { value: output.value, to_recipient }
}

/// A copy of an optional output descriptor.
pub fn detach_opt_output(output: &Option<Output>) -> (r: Option<Output>)
    ensures
        opt_output_view(r) == opt_output_view(*output),
{
    match output {
        Some(o) => Some(detach_output(o)),
        None => None,
    }
}

/// Copies of a list of input descriptors, in the same order.
pub fn detach_inputs(inputs: &Vec<Input>) -> (r: Vec<Input>)
    ensures
        inputs_view(r@) == inputs_view(inputs@),
{
    let mut r: Vec<Input> = Vec::with_capacity(inputs.len());
    let mut i: usize = 0;
    while i < inputs.len()
        invariant
            i <= inputs.len(),
            r@.len() == i,
            forall|j: int| 0 <= j < i ==> (#[trigger] r@[j])@ == inputs@[j]@,
        decreases inputs.len() - i,
    {
        let c = detach_input(&inputs[i]);
        r.push(c);
        i = i + 1;
    }
    assert(inputs_view(r@) =~= inputs_view(inputs@));
    r
}

} // verus!
