//! The internal signals a controller can report besides its output.
use vstd::prelude::*;

use crate::text::str_eq;

verus! {

#[derive(Clone, Copy, Debug, PartialEq, Eq, Hash, Structural)]
pub enum ControllerDiagnostic {
    Setpoint,
    Proportional,
    Integral,
    Derivative,
    Output,
    UnconstrainedOutput,
}

/// The key that names a diagnostic.
pub open spec fn diagnostic_key(diagnostic: ControllerDiagnostic) -> Seq<char> {
    match diagnostic {
        ControllerDiagnostic::Setpoint => "setpoint"@,
        ControllerDiagnostic::Proportional => "proportional"@,
        ControllerDiagnostic::Integral => "integral"@,
        ControllerDiagnostic::Derivative => "derivative"@,
        ControllerDiagnostic::Output => "output"@,
        ControllerDiagnostic::UnconstrainedOutput => "unconstrained_output"@,
    }
}

/// The diagnostic a key names, if any.
pub open spec fn diagnostic_with_key(key: Seq<char>) -> Option<ControllerDiagnostic> {
    if key == "setpoint"@ {
        Some(ControllerDiagnostic::Setpoint)
    } else if key == "proportional"@ {
        Some(ControllerDiagnostic::Proportional)
    } else if key == "integral"@ {
        Some(ControllerDiagnostic::Integral)
    } else if key == "derivative"@ {
        Some(ControllerDiagnostic::Derivative)
    } else if key == "output"@ {
        Some(ControllerDiagnostic::Output)
    } else if key == "unconstrained_output"@ {
        Some(ControllerDiagnostic::UnconstrainedOutput)
    } else {
        None
    }
}

/// Every diagnostic's key names that diagnostic again.
pub proof fn lemma_diagnostic_key_round_trip(diagnostic: ControllerDiagnostic)
    ensures
        diagnostic_with_key(diagnostic_key(diagnostic)) == Some(diagnostic),
{
    reveal_strlit("setpoint");
    reveal_strlit("proportional");
    reveal_strlit("integral");
    reveal_strlit("derivative");
    reveal_strlit("output");
    reveal_strlit("unconstrained_output");
    assert("setpoint"@[0] != "integral"@[0]);
    assert("setpoint"@[0] != "derivative"@[0]);
    assert("setpoint"@[0] != "output"@[0]);
    assert("proportional"@[0] != "setpoint"@[0]);
    assert("proportional"@[0] != "integral"@[0]);
    assert("proportional"@[0] != "derivative"@[0]);
    assert("proportional"@[0] != "output"@[0]);
    assert("integral"@[0] != "derivative"@[0]);
    assert("integral"@[0] != "output"@[0]);
    assert("derivative"@[0] != "output"@[0]);
    assert("unconstrained_output"@.len() != "setpoint"@.len());
}

impl ControllerDiagnostic {
    /// Every diagnostic, in declaration order.
    pub fn all() -> (all: [ControllerDiagnostic; 6])
        ensures
            all@ == seq![
                ControllerDiagnostic::Setpoint,
                ControllerDiagnostic::Proportional,
                ControllerDiagnostic::Integral,
                ControllerDiagnostic::Derivative,
                ControllerDiagnostic::Output,
                ControllerDiagnostic::UnconstrainedOutput,
            ],
    {
        let all = [
            ControllerDiagnostic::Setpoint,
            ControllerDiagnostic::Proportional,
            ControllerDiagnostic::Integral,
            ControllerDiagnostic::Derivative,
            ControllerDiagnostic::Output,
            ControllerDiagnostic::UnconstrainedOutput,
        ];
        assert(all@ =~= seq![
            ControllerDiagnostic::Setpoint,
            ControllerDiagnostic::Proportional,
            ControllerDiagnostic::Integral,
            ControllerDiagnostic::Derivative,
            ControllerDiagnostic::Output,
            ControllerDiagnostic::UnconstrainedOutput,
        ]);
        all
    }

    pub fn key(self) -> (key: &'static str)
        ensures
            key@ == diagnostic_key(self),
    {
        match self {
            ControllerDiagnostic::Setpoint => "setpoint",
            ControllerDiagnostic::Proportional => "proportional",
            ControllerDiagnostic::Integral => "integral",
            ControllerDiagnostic::Derivative => "derivative",
            ControllerDiagnostic::Output => "output",
            ControllerDiagnostic::UnconstrainedOutput => "unconstrained_output",
        }
    }

    /// The first diagnostic whose key is `key`.
    pub fn from_key(key: &str) -> (diagnostic: Option<ControllerDiagnostic>)
        ensures
            diagnostic == diagnostic_with_key(key@),
    {
        let all = ControllerDiagnostic::all();
        let mut index: usize = 0;
        while index < 6
            invariant
                index <= 6,
                all@ == seq![
                    ControllerDiagnostic::Setpoint,
                    ControllerDiagnostic::Proportional,
                    ControllerDiagnostic::Integral,
                    ControllerDiagnostic::Derivative,
                    ControllerDiagnostic::Output,
                    ControllerDiagnostic::UnconstrainedOutput,
                ],
                forall|i: int| 0 <= i < index ==> diagnostic_key(#[trigger] all@[i]) != key@,
            decreases 6 - index,
        {
            let candidate = all[index];
            if str_eq(candidate.key(), key) {
                proof {
                    reveal_strlit("setpoint");
                    reveal_strlit("proportional");
                    reveal_strlit("integral");
                    reveal_strlit("derivative");
                    reveal_strlit("output");
                    reveal_strlit("unconstrained_output");
                }
                return Some(candidate);
            }
            index += 1;
        }
        proof {
            assert(diagnostic_key(all@[0]) != key@);
            assert(diagnostic_key(all@[1]) != key@);
            assert(diagnostic_key(all@[2]) != key@);
            assert(diagnostic_key(all@[3]) != key@);
            assert(diagnostic_key(all@[4]) != key@);
            assert(diagnostic_key(all@[5]) != key@);
        }
        None
    }

    /// The diagnostic's key.
    pub fn to_string(&self) -> (text: String)
        ensures
            text@ == diagnostic_key(*self),
    {
        self.key().to_owned()
    }
}

} // verus!
