//! The generic call builder: a transaction for one configured function of one
//! configured contract, whose first argument is the authorization.

use crate::abi::{
    duplicate_all, kinds_of, spans, values_of, AbiValue, Address, Kind, Value, ENCODING_LIMIT,
};
use crate::auth::{auth_values, EmailAuthMsg, EmailAuthMsgView};
use crate::codec::abi_encoding;
use crate::function::{call_data, CallError, Function};
use vstd::prelude::*;

verus! {

/// A transaction that is ready to be signed and submitted.
#[derive(Debug, PartialEq, Eq)]
pub struct TransactionRequest {
    pub to: Address,
    pub data: Vec<u8>,
}

/// What to call, and with which arguments after the authorization.
#[derive(Debug)]
pub struct ChainCallSpec {
    pub contract_address: Address,
    pub function: Function,
    pub extra_args: Vec<AbiValue>,
}

/// The target and call data of an outcome that holds a transaction.
pub open spec fn outcome_transaction(outcome: Result<TransactionRequest, CallError>) -> Result<
    (Address, Seq<u8>),
    CallError,
> {
    match outcome {
        Ok(tx) => Ok((tx.to, tx.data@)),
        Err(e) => Err(e),
    }
}

/// The transaction of a call with the given selector and argument values, or
/// `EncodingError` where the arguments are too large to encode.
pub open spec fn method_call(to: Address, selector: Seq<u8>, values: Seq<Value>) -> Result<
    (Address, Seq<u8>),
    CallError,
> {
    if spans(values) > ENCODING_LIMIT {
        Err(CallError::EncodingError)
    } else {
        Ok((to, selector + abi_encoding(values)))
    }
}

/// The transaction that calls a function of a contract with given arguments,
/// or why there is none.
pub open spec fn function_transaction(
    to: Address,
    name: Seq<char>,
    inputs: Seq<Kind>,
    values: Seq<Value>,
) -> Result<(Address, Seq<u8>), CallError> {
    match call_data(name, inputs, values) {
        Ok(data) => Ok((to, data)),
        Err(e) => Err(e),
    }
}

/// The transaction that calls `function` of the contract at `to` with the
/// given arguments. It serves a signed send and a read-only call alike.
pub fn function_call(to: Address, function: &Function, args: &Vec<AbiValue>) -> (outcome: Result<
    TransactionRequest,
    CallError,
>)
    ensures
        outcome_transaction(outcome) == function_transaction(
            to,
            function.name@,
            kinds_of(function.inputs@),
            values_of(args@),
        ),
{
    match function.encode_input(args) {
        Ok(data) => Ok(TransactionRequest { to, data }),
        Err(e) => Err(e),
    }
}

impl ChainCallSpec {
    /// The function declares one parameter for the authorization and one for
    /// each further argument.
    pub open spec fn arity_matches(&self) -> bool {
        self.function.inputs@.len() == 1 + self.extra_args@.len()
    }

    /// The argument values of the call: the authorization as one tuple, then
    /// the further arguments in their order.
    pub open spec fn argument_values(&self, auth: EmailAuthMsgView) -> Seq<Value> {
        seq![Value::Tuple(auth_values(auth))] + values_of(self.extra_args@)
    }

    /// The transaction that the call builder gives, or why it gives none.
    pub open spec fn transaction(&self, auth: EmailAuthMsgView) -> Result<
        (Address, Seq<u8>),
        CallError,
    > {
        function_transaction(
            self.contract_address,
            self.function.name@,
            kinds_of(self.function.inputs@),
            self.argument_values(auth),
        )
    }

    /// What to call, where the function declares one parameter for the
    /// authorization and one for each further argument; `ArityMismatch`
    /// otherwise.
    pub fn new(
        contract_address: Address,
        function: Function,
        extra_args: Vec<AbiValue>,
    ) -> (outcome: Result<ChainCallSpec, CallError>)
        ensures
            match outcome {
                Ok(call) => call.arity_matches() && call.contract_address == contract_address
                    && call.function == function && call.extra_args == extra_args,
                Err(e) => e == CallError::ArityMismatch && function.inputs@.len() != 1
                    + extra_args@.len(),
            },
    {
        let call = ChainCallSpec { contract_address, function, extra_args };
        match call.check_arity() {
            Ok(()) => Ok(call),
            Err(e) => Err(e),
        }
    }

    /// Whether the declared parameter count fits the arguments.
    pub fn check_arity(&self) -> (outcome: Result<(), CallError>)
        ensures
            outcome == if self.arity_matches() {
                Ok::<(), CallError>(())
            } else {
                Err(CallError::ArityMismatch)
            },
    {
        let declared = self.function.inputs.len();
        let given = self.extra_args.len();
        if given < usize::MAX && declared == 1 + given {
            Ok(())
        } else {
            Err(CallError::ArityMismatch)
        }
    }

    /// The arguments of the call as tokens.
    pub fn arguments(&self, auth: &EmailAuthMsg) -> (tokens: Vec<AbiValue>)
        ensures
            values_of(tokens@) == self.argument_values(auth@),
    {
        let mut tokens: Vec<AbiValue> = Vec::new();
        tokens.push(AbiValue::Tuple(auth.to_tokens()));
        let mut rest = duplicate_all(&self.extra_args);
        tokens.append(&mut rest);
        assert(values_of(tokens@) =~= self.argument_values(auth@));
        tokens
    }

    /// The transaction that calls the configured function with the
    /// authorization and the further arguments.
    ///
    /// A call whose parameter count does not fit gives `ArityMismatch` and no
    /// transaction; one with an argument that does not fit its type gives
    /// `EncodingError`.
    pub fn build(&self, auth: &EmailAuthMsg) -> (outcome: Result<TransactionRequest, CallError>)
        ensures
            outcome_transaction(outcome) == self.transaction(auth@),
            !self.arity_matches() <==> outcome == Err::<TransactionRequest, CallError>(
                CallError::ArityMismatch,
            ),
    {
        match self.check_arity() {
            Ok(()) => {},
            Err(e) => {
                return Err(e);
            },
        }
        let tokens = self.arguments(auth);
        function_call(self.contract_address, &self.function, &tokens)
    }
}

} // verus!
