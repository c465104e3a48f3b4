//! The request envelope.
//!
//! An envelope names a remote method and holds its positional parameters, up
//! to four of them, as a tuple. What the parameters are is the caller's
//! business: the envelope carries them in order and unchanged.

use vstd::prelude::*;
use vstd::string::*;

verus! {

/// The protocol version tag of an envelope.
#[derive(Clone, Copy, Debug, PartialEq, Eq, Structural)]
pub enum JsonRpcVersion {
    V1,
    V2,
}

/// One call, ready to be encoded and sent.
#[derive(Clone, Debug, PartialEq)]
pub struct RpcRequest<P> {
    pub version: JsonRpcVersion,
    pub id: String,
    pub method: String,
    pub params: P,
}

impl<P> RpcRequest<P> {
    /// Whether this envelope carries exactly these four things.
    pub open spec fn holds(
        self,
        version: JsonRpcVersion,
        id: Seq<char>,
        method: Seq<char>,
        params: P,
    ) -> bool {
        &&& self.version == version
        &&& self.id@ == id
        &&& self.method@ == method
        &&& self.params == params
    }

    /// Whether this envelope is a call of `method` with `params` as this
    /// client frames it: protocol version 1 and the constant identifier.
    pub open spec fn is_call(self, method: Seq<char>, params: P) -> bool {
        self.holds(JsonRpcVersion::V1, "42"@, method, params)
    }
}

impl RpcRequest<()> {
    /// An envelope without parameters.
    pub fn new0(version: JsonRpcVersion, id: &str, method: &str) -> (request: Self)
        ensures
            request.holds(version, id@, method@, ()),
    {
        RpcRequest { version, id: String::from_str(id), method: String::from_str(method), params: () }
    }
}

impl<A> RpcRequest<(A,)> {
    /// An envelope with one parameter.
    pub fn new1(version: JsonRpcVersion, id: &str, method: &str, first: A) -> (request: Self)
        ensures
            request.holds(version, id@, method@, (first,)),
    {
        RpcRequest {
            version,
            id: String::from_str(id),
            method: String::from_str(method),
            params: (first,),
        }
    }
}

impl<A, B> RpcRequest<(A, B)> {
    /// An envelope with two parameters.
    pub fn new2(version: JsonRpcVersion, id: &str, method: &str, first: A, second: B) -> (request:
        Self)
        ensures
            request.holds(version, id@, method@, (first, second)),
    {
        RpcRequest {
            version,
            id: String::from_str(id),
            method: String::from_str(method),
            params: (first, second),
        }
    }
}

impl<A, B, C> RpcRequest<(A, B, C)> {
    /// An envelope with three parameters.
    pub fn new3(
        version: JsonRpcVersion,
        id: &str,
        method: &str,
        first: A,
        second: B,
        third: C,
    ) -> (request: Self)
        ensures
            request.holds(version, id@, method@, (first, second, third)),
    {
        RpcRequest {
            version,
            id: String::from_str(id),
            method: String::from_str(method),
            params: (first, second, third),
        }
    }
}

impl<A, B, C, D> RpcRequest<(A, B, C, D)> {
    /// An envelope with four parameters.
    pub fn new4(
        version: JsonRpcVersion,
        id: &str,
        method: &str,
        first: A,
        second: B,
        third: C,
        fourth: D,
    ) -> (request: Self)
        ensures
            request.holds(version, id@, method@, (first, second, third, fourth)),
    {
        RpcRequest {
            version,
            id: String::from_str(id),
            method: String::from_str(method),
            params: (first, second, third, fourth),
        }
    }
}

/// How many confirmations an unspent output must have to be listed.
#[derive(Clone, Copy, Debug, PartialEq, Eq)]
pub enum TxOutConfirmations {
    Unconfirmed,
    AtLeast(u32),
}

impl TxOutConfirmations {
    /// The least number of confirmations that this asks for.
    pub open spec fn spec_minimum(self) -> u32 {
        match self {
            TxOutConfirmations::Unconfirmed => 0,
            TxOutConfirmations::AtLeast(number) => number,
        }
    }

    /// The least number of confirmations that this asks for.
    #[verifier::when_used_as_spec(spec_minimum)]
    pub fn minimum(self) -> (number: u32)
        ensures
            number == self.spec_minimum(),
    {
        match self {
            TxOutConfirmations::Unconfirmed => 0,
            TxOutConfirmations::AtLeast(number) => number,
        }
    }
}

} // verus!
