//! From a request to the description of the call that is proposed.

use vstd::prelude::*;
use crate::types::{CreateRandomRequest, ProxyError};

verus! {

/// The actions that can be proposed.
#[derive(Clone, Copy, Debug, PartialEq, Eq, Structural)]
pub enum ActionKind {
    SetQuantumSeed,
    ProcessValue,
}

/// The call that a proposal asks the governance service to make.
#[derive(Debug, PartialEq, Eq)]
pub struct ProposalCall {
    pub receiver: String,
    pub method: String,
    pub args: String,
    pub deposit: u128,
}

/// What a `ProposalCall` holds, as mathematical values.
pub struct CallModel {
    pub receiver: Seq<char>,
    pub method: Seq<char>,
    pub args: Seq<char>,
    pub deposit: u128,
}

impl View for ProposalCall {
    type V = CallModel;

    open spec fn view(&self) -> CallModel {
        CallModel {
            receiver: self.receiver@,
            method: self.method@,
            args: self.args@,
            deposit: self.deposit,
        }
    }
}

/// The members of a JSON object whose values are strings, by key. A value
/// that is no object has none.
pub uninterp spec fn string_members(value: serde_json::Value) -> Map<Seq<char>, Seq<char>>;

/// Looks `key` up in `value` with `serde_json::Value`'s index operator and
/// reads the outcome with `Value::as_str`. The index yields null where
/// `value` is no object or lacks the key, and `as_str` yields a string only
/// of a JSON string: so the result is the member `key` where it is a string,
/// and nothing otherwise.
#[verifier::external_body]
fn string_member(value: &serde_json::Value, key: &str) -> (found: Option<String>)
    ensures
        found is Some <==> string_members(*value).contains_key(key@),
        found matches Some(text) ==> text@ == string_members(*value)[key@],
{
    value[key].as_str().map(String::from)
}

/// The contract that every proposed call is addressed to.
pub open spec fn spec_receiver() -> Seq<char> {
    "random_chain"@
}

impl ActionKind {
    /// The action that `name` stands for, if any.
    pub open spec fn spec_parse(name: Seq<char>) -> Option<ActionKind> {
        if name == "SetQuantumSeed"@ {
            Some(ActionKind::SetQuantumSeed)
        } else if name == "ProcessValue"@ {
            Some(ActionKind::ProcessValue)
        } else {
            None
        }
    }

    /// The parameter that a request for this action must hold as a string.
    pub open spec fn spec_parameter(self) -> Seq<char> {
        match self {
            ActionKind::SetQuantumSeed => "seed_value"@,
            ActionKind::ProcessValue => "node"@,
        }
    }

    /// The method that a call for this action names.
    pub open spec fn spec_method(self) -> Seq<char> {
        match self {
            ActionKind::SetQuantumSeed => "set_seed"@,
            ActionKind::ProcessValue => "process_value"@,
        }
    }

    /// Reads an action's name. Any name but the two known ones is refused.
    pub fn parse(name: &String) -> (kind: Result<ActionKind, ProxyError>)
        ensures
            kind == match Self::spec_parse(name@) {
                Some(k) => Ok::<ActionKind, ProxyError>(k),
                None => Err(ProxyError::UnsupportedActionType),
            },
    {
        let seed = "SetQuantumSeed".to_owned();
        let process = "ProcessValue".to_owned();
        if *name == seed {
            Ok(ActionKind::SetQuantumSeed)
        } else if *name == process {
            Ok(ActionKind::ProcessValue)
        } else {
            Err(ProxyError::UnsupportedActionType)
        }
    }

    /// The name of the parameter that this action requires.
    pub fn parameter(self) -> (name: &'static str)
        ensures
            name@ == self.spec_parameter(),
    {
        match self {
            ActionKind::SetQuantumSeed => "seed_value",
            ActionKind::ProcessValue => "node",
        }
    }

    /// The name of the method that this action calls.
    pub fn method(self) -> (name: &'static str)
        ensures
            name@ == self.spec_method(),
    {
        match self {
            ActionKind::SetQuantumSeed => "set_seed",
            ActionKind::ProcessValue => "process_value",
        }
    }
}

/// The outcome of dispatching an action of the given kind whose required
/// parameter was looked up with the given result.
pub open spec fn spec_describe(kind: ActionKind, argument: Option<Seq<char>>) -> Result<
    CallModel,
    Seq<char>,
> {
    match argument {
        Some(text) => Ok(
            CallModel {
                receiver: spec_receiver(),
                method: kind.spec_method(),
                args: text,
                deposit: 0,
            },
        ),
        None => Err(kind.spec_parameter()),
    }
}

/// Whether `outcome` is what `expected` describes: the same call, or a
/// missing parameter of the same name.
pub open spec fn describes(
    outcome: Result<ProposalCall, ProxyError>,
    expected: Result<CallModel, Seq<char>>,
) -> bool {
    match expected {
        Ok(call) => outcome matches Ok(made) && made@ == call,
        Err(name) => outcome matches Err(ProxyError::MissingParameter(given)) && given@ == name,
    }
}

/// Builds the call for an action from the outcome of looking its required
/// parameter up: the call to the action's method with that one argument and
/// nothing attached, or the refusal that names the parameter.
pub fn describe_call(kind: ActionKind, argument: Option<String>) -> (outcome: Result<
    ProposalCall,
    ProxyError,
>)
    ensures
        describes(
            outcome,
            spec_describe(
                kind,
                match argument {
                    Some(text) => Some(text@),
                    None => None,
                },
            ),
        ),
{
    match argument {
        Some(text) => Ok(
            ProposalCall {
                receiver: "random_chain".to_owned(),
                method: kind.method().to_owned(),
                args: text,
                deposit: 0,
            },
        ),
        None => Err(ProxyError::MissingParameter(kind.parameter())),
    }
}

/// What dispatching a request with the given action name and string members
/// yields: `None` where the action is unknown.
pub open spec fn spec_dispatch(action: Seq<char>, members: Map<Seq<char>, Seq<char>>) -> Option<
    Result<CallModel, Seq<char>>,
> {
    match ActionKind::spec_parse(action) {
        Some(kind) => Some(
            spec_describe(
                kind,
                if members.contains_key(kind.spec_parameter()) {
                    Some(members[kind.spec_parameter()])
                } else {
                    None
                },
            ),
        ),
        None => None,
    }
}

/// Validates a request and describes the call that it proposes. Nothing is
/// stored and nothing is sent.
pub fn dispatch(request: &CreateRandomRequest) -> (outcome: Result<ProposalCall, ProxyError>)
    ensures
        match spec_dispatch(request.action_type@, string_members(request.params)) {
            Some(expected) => describes(outcome, expected),
            None => outcome == Err::<ProposalCall, ProxyError>(ProxyError::UnsupportedActionType),
        },
{
    match ActionKind::parse(&request.action_type) {
        Ok(kind) => {
            let argument = string_member(&request.params, kind.parameter());
            describe_call(kind, argument)
        },
        Err(error) => Err(error),
    }
}

} // verus!
