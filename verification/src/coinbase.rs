//! The coinbase outputs that a pool is configured with.

use crate::text::reads_as;
use vstd::prelude::*;

verus! {

/// One configured output: the kind of script and what it pays to.
#[derive(Debug, Clone)]
pub struct CoinbaseOutput {
    output_script_type: String,
    output_script_value: String,
}

/// A transaction output: an amount and the script that guards it.
#[derive(Debug)]
pub struct TxOut {
    pub value: u64,
    pub script_pubkey: Vec<u8>,
}

/// Why the configured outputs cannot be used.
#[derive(Clone, Copy, Debug, PartialEq, Eq, Structural)]
pub enum CoinbaseError {
    /// An output names a kind of script that is not known.
    UnknownOutputScriptType,
    /// The script of an output could not be built from its value.
    InvalidOutputScript,
    /// No output is configured.
    EmptyCoinbaseOutputs,
}

/// `kind` is one of the seven kinds of script that an output may name.
pub open spec fn known_script_type(kind: Seq<char>) -> bool {
    kind == "TEST"@ || kind == "P2PK"@ || kind == "P2PKH"@ || kind == "P2WPKH"@ || kind == "P2SH"@
        || kind == "P2WSH"@ || kind == "P2TR"@
}

/// The outputs from position `from` on, or the first error among them.
///
/// Each output is looked at in turn: its kind of script must be known, and
/// then its script must have been built. The first output that fails either
/// test decides the error.
pub open spec fn spec_outputs(
    kinds: Seq<Seq<char>>,
    scripts: Seq<Option<Vec<u8>>>,
    from: int,
) -> Result<Seq<Seq<u8>>, CoinbaseError>
    recommends
        kinds.len() == scripts.len(),
    decreases kinds.len() - from,
{
    if from < 0 || from >= kinds.len() {
        Ok(Seq::empty())
    } else if !known_script_type(kinds[from]) {
        Err(CoinbaseError::UnknownOutputScriptType)
    } else {
        match scripts[from] {
            None => Err(CoinbaseError::InvalidOutputScript),
            Some(script) => match spec_outputs(kinds, scripts, from + 1) {
                Ok(rest) => Ok(seq![script@] + rest),
                Err(e) => Err(e),
            },
        }
    }
}

/// The kinds of script that `outputs` name, in order.
pub open spec fn kinds_of(outputs: Seq<CoinbaseOutput>) -> Seq<Seq<char>> {
    Seq::new(outputs.len(), |i: int| outputs[i].spec_script_type())
}

/// The scripts of `outs`, in order.
pub open spec fn scripts_of(outs: Seq<TxOut>) -> Seq<Seq<u8>> {
    Seq::new(outs.len(), |i: int| outs[i].script_pubkey@)
}

/// Whether `kind` is one of the seven known kinds of script.
pub fn is_known_script_type(kind: &str) -> (r: bool)
    ensures
        r == known_script_type(kind@),
{
    reads_as(kind, "TEST") || reads_as(kind, "P2PK") || reads_as(kind, "P2PKH") || reads_as(
        kind,
        "P2WPKH",
    ) || reads_as(kind, "P2SH") || reads_as(kind, "P2WSH") || reads_as(kind, "P2TR")
}

impl CoinbaseOutput {
    /// The kind of script.
    pub closed spec fn spec_script_type(&self) -> Seq<char> {
        self.output_script_type@
    }

    /// What the script pays to.
    pub closed spec fn spec_script_value(&self) -> Seq<char> {
        self.output_script_value@
    }

    /// An output of the given kind and value, as the configuration has it.
    pub fn new(output_script_type: String, output_script_value: String) -> (r: CoinbaseOutput)
        ensures
            r.spec_script_type() == output_script_type@,
            r.spec_script_value() == output_script_value@,
    {
        CoinbaseOutput { output_script_type, output_script_value }
    }

    /// The kind of script.
    pub fn output_script_type(&self) -> (r: &str)
        ensures
            r@ == self.spec_script_type(),
    {
        self.output_script_type.as_str()
    }

    /// What the script pays to.
    pub fn output_script_value(&self) -> (r: &str)
        ensures
            r@ == self.spec_script_value(),
    {
        self.output_script_value.as_str()
    }

    /// Accepts the output if its kind of script is known.
    pub fn checked(&self) -> (r: Result<CoinbaseOutput, CoinbaseError>)
        ensures
            known_script_type(self.spec_script_type()) ==> (r matches Ok(out)
                && out.spec_script_type() == self.spec_script_type() && out.spec_script_value()
                == self.spec_script_value()),
            !known_script_type(self.spec_script_type()) ==> r == Err::<
                CoinbaseOutput,
                CoinbaseError,
            >(CoinbaseError::UnknownOutputScriptType),
    {
        if is_known_script_type(self.output_script_type.as_str()) {
            Ok(
                CoinbaseOutput {
                    output_script_type: self.output_script_type.clone(),
                    output_script_value: self.output_script_value.clone(),
                },
            )
        } else {
            Err(CoinbaseError::UnknownOutputScriptType)
        }
    }
}

/// The transaction outputs for the configured `outputs`, each of value 0.
///
/// `scripts` holds, for each output, the script that was built from it, or
/// `None` where building it failed. The outputs are taken in order and the
/// first that fails decides the error: an unknown kind of script, or a
/// script that could not be built. Without any output there is nothing to
/// pay to, which is an error too.
pub fn get_coinbase_output(outputs: &Vec<CoinbaseOutput>, scripts: Vec<Option<Vec<u8>>>) -> (r:
    Result<Vec<TxOut>, CoinbaseError>)
    requires
        outputs@.len() == scripts@.len(),
    ensures
        match spec_outputs(kinds_of(outputs@), scripts@, 0) {
            Err(e) => r == Err::<Vec<TxOut>, CoinbaseError>(e),
            Ok(all) => if all.len() == 0 {
                r == Err::<Vec<TxOut>, CoinbaseError>(CoinbaseError::EmptyCoinbaseOutputs)
            } else {
                r matches Ok(outs) && scripts_of(outs@) == all && forall|i: int|
                    0 <= i < outs@.len() ==> outs@[i].value == 0
            },
        },
{
    let ghost kinds = kinds_of(outputs@);
    let ghost given = scripts@;
    let mut pending = scripts;
    let mut result: Vec<TxOut> = Vec::new();
    let mut i: usize = 0;
    while i < outputs.len()
        invariant
            i <= outputs@.len(),
            given == scripts@,
            pending@.len() == given.len(),
            kinds == kinds_of(outputs@),
            kinds.len() == given.len(),
            kinds.len() == outputs@.len(),
            forall|j: int| i <= j < given.len() ==> pending@[j] == given[j],
            result@.len() == i,
            forall|j: int| 0 <= j < result@.len() ==> result@[j].value == 0,
            spec_outputs(kinds, given, 0) == (match spec_outputs(kinds, given, i as int) {
                Ok(rest) => Ok::<Seq<Seq<u8>>, CoinbaseError>(scripts_of(result@) + rest),
                Err(e) => Err::<Seq<Seq<u8>>, CoinbaseError>(e),
            }),
        decreases outputs@.len() - i,
    {
        if !is_known_script_type(outputs[i].output_script_type()) {
            return Err(CoinbaseError::UnknownOutputScriptType);
        }
        let mut taken: Option<Vec<u8>> = None;
        std::mem::swap(&mut taken, &mut pending[i]);
        match taken {
            None => {
                return Err(CoinbaseError::InvalidOutputScript);
            },
            Some(script) => {
                let ghost before = result@;
                let ghost rest_here = spec_outputs(kinds, given, i as int);
                result.push(TxOut { value: 0, script_pubkey: script });
                proof {
                    match spec_outputs(kinds, given, i + 1) {
                        Ok(rest) => {
                            assert(scripts_of(result@) + rest =~= scripts_of(before) + (
                            seq![script@] + rest));
                        },
                        Err(e) => {},
                    }
                }
            },
        }
        i = i + 1;
    }
    if result.is_empty() {
        Err(CoinbaseError::EmptyCoinbaseOutputs)
    } else {
        Ok(result)
    }
}

} // verus!
