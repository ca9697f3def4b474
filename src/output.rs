//! Result values and the decision of how to show them.
use vstd::prelude::*;
use vstd::string::*;

use crate::error::CryptoError;

verus! {

/// One named field of a result record.
#[derive(Debug)]
pub struct Field {
    pub name: String,
    pub value: String,
}

/// What an operation produces: a single text, or a record of named fields in order.
#[derive(Debug)]
pub enum Output {
    Text(String),
    Record(Vec<Field>),
}

/// The mathematical value of an [`Output`].
pub enum OutputView {
    Text(Seq<char>),
    Record(Seq<(Seq<char>, Seq<char>)>),
}

impl View for Output {
    type V = OutputView;

    open spec fn view(&self) -> OutputView {
        match self {
            Output::Text(s) => OutputView::Text(s@),
            Output::Record(fs) => OutputView::Record(
                fs@.map_values(|f: Field| (f.name@, f.value@)),
            ),
        }
    }
}

/// The name of the field that marks secret material.
pub open spec fn secret_label() -> Seq<char> {
    "secret"@
}

/// The value is a record with a field named `secret`.
pub open spec fn has_secret_field(v: OutputView) -> bool {
    match v {
        OutputView::Text(_) => false,
        OutputView::Record(fs) => exists|i: int| 0 <= i < fs.len() && (#[trigger] fs[i]).0 == secret_label(),
    }
}

/// Whether `out` holds secret material: a record with a field named `secret`.
pub fn has_sensible_info(out: &Output) -> (r: bool)
    ensures
        r == has_secret_field(out@),
{
    match out {
        Output::Text(_) => false,
        Output::Record(fields) => {
            let label = String::from_str("secret");
            let mut i: usize = 0;
            while i < fields.len()
                invariant
                    i <= fields@.len(),
                    label@ == secret_label(),
                    out@ == OutputView::Record(fields@.map_values(|f: Field| (f.name@, f.value@))),
                    forall|j: int| 0 <= j < i ==> fields@[j].name@ != secret_label(),
                decreases fields@.len() - i,
            {
                if fields[i].name == label {
                    assert(out@->Record_0[i as int].0 == secret_label());
                    return true;
                }
                i = i + 1;
            }
            proof {
                let fs = out@->Record_0;
                assert forall|j: int| 0 <= j < fs.len() implies (#[trigger] fs[j]).0 != secret_label() by {
                    assert(fs[j].0 == fields@[j].name@);
                }
            }
            false
        },
    }
}

/// How a result is shown.
#[derive(Debug, Clone, Copy, PartialEq, Eq, Structural)]
pub enum Presentation {
    /// One line of JSON on standard output, nothing else.
    Json,
    /// Multi-line YAML on the normal terminal screen.
    Yaml,
    /// Multi-line YAML on the alternate screen, followed by the warning line
    /// and a wait for one keypress before the normal screen comes back.
    ShieldedYaml,
}

/// The presentation for a result, given whether standard output is a terminal.
pub open spec fn presentation_for(interactive: bool, v: OutputView) -> Presentation {
    if !interactive {
        Presentation::Json
    } else if has_secret_field(v) {
        Presentation::ShieldedYaml
    } else {
        Presentation::Yaml
    }
}

/// The warning shown under a result that holds a secret.
pub const SECRET_WARNING: &'static str = "### Do not share or lose this private key! Press any key to exit. ###";

/// Decides how `out` is shown: JSON when output is piped, and on a terminal
/// YAML, shielded exactly when the result holds a field named `secret`.
pub fn presentation(interactive: bool, out: &Output) -> (r: Presentation)
    ensures
        r == presentation_for(interactive, out@),
        r == Presentation::ShieldedYaml <==> (interactive && has_secret_field(out@)),
        r == Presentation::Json <==> !interactive,
{
    if !interactive {
        Presentation::Json
    } else if has_sensible_info(out) {
        Presentation::ShieldedYaml
    } else {
        Presentation::Yaml
    }
}

} // verus!

verus! {

/// The mathematical value of an operation's outcome.
pub open spec fn result_view(r: Result<Output, CryptoError>) -> Result<OutputView, CryptoError> {
    match r {
        Ok(o) => Ok(o@),
        Err(e) => Err(e),
    }
}

/// A field named `name` holding `value`.
pub fn field(name: &str, value: String) -> (r: Field)
    ensures
        r.name@ == name@,
        r.value@ == value@,
{
    Field { name: String::from_str(name), value }
}

} // verus!
