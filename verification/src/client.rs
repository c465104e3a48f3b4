//! The client: its configuration, its dispatch, and one method per remote
//! procedure.
//!
//! A client is made once and never changes. Each remote procedure is a method
//! that packages its arguments into a request envelope; [`BitcoinCoreClient::send`]
//! is the only place where an envelope's call is repeated.

use crate::auth::{authorization_text, basic_authorization, credentials_fit, is_header_text};
use crate::request::{JsonRpcVersion, RpcRequest, TxOutConfirmations};
use crate::retry::{default_retry_policy, dispatch, is_run, yields, Dispatch, Reply, RetryPolicy};
use vstd::prelude::*;
use vstd::string::*;

verus! {

/// What a client is made of.
pub struct BitcoinCoreClient {
    url: String,
    authorization: String,
    retry_policy: Option<RetryPolicy>,
}

/// A client as contracts see it.
pub struct ClientView {
    pub url: Seq<char>,
    pub authorization: Seq<char>,
    pub retry_policy: Option<RetryPolicy>,
}

impl View for BitcoinCoreClient {
    type V = ClientView;

    closed spec fn view(&self) -> ClientView {
        ClientView {
            url: self.url@,
            authorization: self.authorization@,
            retry_policy: self.retry_policy,
        }
    }
}

impl BitcoinCoreClient {
    /// Every client's header value is text that a header accepts.
    #[verifier::type_invariant]
    spec fn header_can_be_built(self) -> bool {
        is_header_text(self.authorization@)
    }

    /// A client for the node at `url`, with the default retry policy. The
    /// credentials are used for the header value and then forgotten.
    pub fn new(url: &str, username: &str, password: &str) -> (client: Self)
        requires
            credentials_fit(username@, password@),
        ensures
            client@ == (ClientView {
                url: url@,
                authorization: authorization_text(username@, password@),
                retry_policy: Some(default_retry_policy()),
            }),
    {
        match basic_authorization(username, password) {
            Some(authorization) => BitcoinCoreClient {
                url: String::from_str(url),
                authorization,
                retry_policy: Some(RetryPolicy::default()),
            },
            None => {
                proof {
                    assert(false);
                }
                unreached()
            },
        }
    }

    /// The same client under another retry policy, or under none.
    pub fn with_retry_policy(self, retry_policy: Option<RetryPolicy>) -> (client: Self)
        ensures
            client@ == (ClientView { retry_policy, ..self@ }),
    {
        proof {
            use_type_invariant(&self);
        }
        BitcoinCoreClient { url: self.url, authorization: self.authorization, retry_policy }
    }

    /// The node's address.
    pub fn url(&self) -> (url: &str)
        ensures
            url@ == self@.url,
    {
        self.url.as_str()
    }

    /// The value of the `Authorization` header of every request.
    pub fn authorization(&self) -> (value: &str)
        ensures
            value@ == self@.authorization,
            is_header_text(value@),
    {
        proof {
            use_type_invariant(self);
        }
        self.authorization.as_str()
    }

    /// The retry policy, if there is one.
    pub fn retry_policy(&self) -> (retry_policy: Option<RetryPolicy>)
        ensures
            retry_policy == self@.retry_policy,
    {
        self.retry_policy
    }

    /// The state in which a dispatch of this client starts.
    pub fn begin(&self) -> (state: Dispatch)
        ensures
            state == Dispatch::start(self@.retry_policy),
    {
        Dispatch::begin(self.retry_policy)
    }

    /// Performs one call under this client's retry policy. `call` makes the
    /// attempt whose number it is given, counted from zero and never above the
    /// policy's budget; `pause` waits the milliseconds it is given, which is
    /// always the policy's interval. The replies seen form one run, and the
    /// last of them is returned as it came.
    pub fn send<T, E, C: Fn(u32) -> Reply<T, E>, W: Fn(u64)>(&self, call: C, pause: W) -> (reply:
        Reply<T, E>)
        requires
            forall|attempt: u32|
                attempt <= Dispatch::start(self@.retry_policy).remaining ==> call_requires(
                    call,
                    (attempt,),
                ),
            call_requires(pause, (Dispatch::start(self@.retry_policy).interval,)),
        ensures
            exists|replies: Seq<Reply<T, E>>|
                is_run(Dispatch::start(self@.retry_policy).remaining as nat, replies) && yields(
                    call,
                    replies,
                ) && #[trigger] replies.last() == reply,
    {
        dispatch(self.retry_policy, call, pause)
    }

    /// A transaction by its identifier, decoded by the node if `verbose`.
    pub fn get_raw_transaction<Tx>(&self, tx: Tx, verbose: bool) -> (request: RpcRequest<(Tx, bool)>)
        ensures
            request.is_call("getrawtransaction"@, (tx, verbose)),
    {
        RpcRequest::new2(JsonRpcVersion::V1, "42", "getrawtransaction", tx, verbose)
    }

    /// Adds a multi-signature address to the wallet.
    pub fn add_multisig_address<A>(&self, number_of_required_signatures: u32, participants: Vec<A>) -> (request: RpcRequest<(u32, Vec<A>)>)
        ensures
            request.is_call("addmultisigaddress"@, (number_of_required_signatures, participants)),
    {
        RpcRequest::new2(JsonRpcVersion::V1, "42", "addmultisigaddress", number_of_required_signatures, participants)
    }

    /// Creates an unsigned transaction that spends `inputs` to `output`.
    pub fn create_raw_transaction<I, O>(&self, inputs: Vec<I>, output: O) -> (request: RpcRequest<(Vec<I>, O)>)
        ensures
            request.is_call("createrawtransaction"@, (inputs, output)),
    {
        RpcRequest::new2(JsonRpcVersion::V1, "42", "createrawtransaction", inputs, output)
    }

    /// Decodes a serialized transaction.
    pub fn decode_rawtransaction<Tx>(&self, tx: Tx) -> (request: RpcRequest<(Tx,)>)
        ensures
            request.is_call("decoderawtransaction"@, (tx,)),
    {
        RpcRequest::new1(JsonRpcVersion::V1, "42", "decoderawtransaction", tx)
    }

    /// Decodes a script.
    pub fn decode_script<S>(&self, script: S) -> (request: RpcRequest<(S,)>)
        ensures
            request.is_call("decodescript"@, (script,)),
    {
        RpcRequest::new1(JsonRpcVersion::V1, "42", "decodescript", script)
    }

    /// The private key of an address of the wallet.
    pub fn dump_privkey<A>(&self, address: A) -> (request: RpcRequest<(A,)>)
        ensures
            request.is_call("dumpprivkey"@, (address,)),
    {
        RpcRequest::new1(JsonRpcVersion::V1, "42", "dumpprivkey", address)
    }

    /// Adds inputs to a transaction until it can pay for its outputs.
    pub fn fund_raw_transaction<Tx, O>(&self, tx: Tx, options: O) -> (request: RpcRequest<(Tx, O)>)
        ensures
            request.is_call("fundrawtransaction"@, (tx, options)),
    {
        RpcRequest::new2(JsonRpcVersion::V1, "42", "fundrawtransaction", tx, options)
    }

    /// Mines blocks at once.
    pub fn generate(&self, number_of_blocks: u32) -> (request: RpcRequest<(u32,)>)
        ensures
            request.is_call("generate"@, (number_of_blocks,)),
    {
        RpcRequest::new1(JsonRpcVersion::V1, "42", "generate", number_of_blocks)
    }

    /// Mines blocks at once, paying the reward to `address`.
    pub fn generate_to_address<A>(&self, number_of_blocks: u32, address: A) -> (request: RpcRequest<(u32, A)>)
        ensures
            request.is_call("generatetoaddress"@, (number_of_blocks, address)),
    {
        RpcRequest::new2(JsonRpcVersion::V1, "42", "generatetoaddress", number_of_blocks, address)
    }

    /// What the wallet knows of an address.
    pub fn get_address_info<A>(&self, address: A) -> (request: RpcRequest<(A,)>)
        ensures
            request.is_call("getaddressinfo"@, (address,)),
    {
        RpcRequest::new1(JsonRpcVersion::V1, "42", "getaddressinfo", address)
    }

    /// The wallet's balance.
    pub fn get_balance(&self) -> (request: RpcRequest<()>)
        ensures
            request.is_call("getbalance"@, ()),
    {
        RpcRequest::new0(JsonRpcVersion::V1, "42", "getbalance")
    }

    /// The hash of the tip of the best chain.
    pub fn get_best_block_hash(&self) -> (request: RpcRequest<()>)
        ensures
            request.is_call("getbestblockhash"@, ()),
    {
        RpcRequest::new0(JsonRpcVersion::V1, "42", "getbestblockhash")
    }

    /// A block with the identifiers of its transactions.
    pub fn get_block<H>(&self, header_hash: H) -> (request: RpcRequest<(H,)>)
        ensures
            request.is_call("getblock"@, (header_hash,)),
    {
        RpcRequest::new1(JsonRpcVersion::V1, "42", "getblock", header_hash)
    }

    /// A block with its transactions decoded.
    pub fn get_block_verbose<H>(&self, header_hash: H) -> (request: RpcRequest<(H, u32)>)
        ensures
            request.is_call("getblock"@, (header_hash, 2)),
    {
        RpcRequest::new2(JsonRpcVersion::V1, "42", "getblock", header_hash, 2)
    }

    /// The state of the chain.
    pub fn get_blockchain_info(&self) -> (request: RpcRequest<()>)
        ensures
            request.is_call("getblockchaininfo"@, ()),
    {
        RpcRequest::new0(JsonRpcVersion::V1, "42", "getblockchaininfo")
    }

    /// The height of the best chain.
    pub fn get_block_count(&self) -> (request: RpcRequest<()>)
        ensures
            request.is_call("getblockcount"@, ()),
    {
        RpcRequest::new0(JsonRpcVersion::V1, "42", "getblockcount")
    }

    /// The hash of the block at `height`.
    pub fn get_block_hash(&self, height: u32) -> (request: RpcRequest<(u32,)>)
        ensures
            request.is_call("getblockhash"@, (height,)),
    {
        RpcRequest::new1(JsonRpcVersion::V1, "42", "getblockhash", height)
    }

    /// A fresh bech32 address of the wallet, without a label.
    pub fn get_new_address(&self) -> (request: RpcRequest<(&'static str, &'static str)>)
        ensures
            request.is_call("getnewaddress"@, ("", "bech32")),
    {
        RpcRequest::new2(JsonRpcVersion::V1, "42", "getnewaddress", "", "bech32")
    }

    /// The wallet's unspent outputs. `Unconfirmed` asks for zero confirmations, `AtLeast` for the number it holds.
    pub fn list_unspent<A>(&self, min_confirmations: TxOutConfirmations, max_confirmations: Option<u32>, recipients: Option<Vec<A>>) -> (request: RpcRequest<(u32, Option<u32>, Option<Vec<A>>)>)
        ensures
            request.is_call("listunspent"@, (min_confirmations.minimum(), max_confirmations, recipients)),
    {
        RpcRequest::new3(JsonRpcVersion::V1, "42", "listunspent", min_confirmations.minimum(), max_confirmations, recipients)
    }

    /// Broadcasts a signed transaction.
    pub fn send_raw_transaction<Tx>(&self, tx_data: Tx) -> (request: RpcRequest<(Tx,)>)
        ensures
            request.is_call("sendrawtransaction"@, (tx_data,)),
    {
        RpcRequest::new1(JsonRpcVersion::V1, "42", "sendrawtransaction", tx_data)
    }

    /// Pays `amount` to `address` from the wallet.
    pub fn send_to_address<A, V>(&self, address: A, amount: V) -> (request: RpcRequest<(A, V)>)
        ensures
            request.is_call("sendtoaddress"@, (address, amount)),
    {
        RpcRequest::new2(JsonRpcVersion::V1, "42", "sendtoaddress", address, amount)
    }

    /// Signs a transaction with the given keys.
    pub fn sign_raw_transaction_with_key<Tx, K, D, S>(&self, tx: Tx, private_keys: Option<Vec<K>>, dependencies: Option<Vec<D>>, signature_hash_type: Option<S>) -> (request: RpcRequest<(Tx, Option<Vec<K>>, Option<Vec<D>>, Option<S>)>)
        ensures
            request.is_call("signrawtransactionwithkey"@, (tx, private_keys, dependencies, signature_hash_type)),
    {
        RpcRequest::new4(JsonRpcVersion::V1, "42", "signrawtransactionwithkey", tx, private_keys, dependencies, signature_hash_type)
    }

    /// Whether an address is valid, and what it is.
    pub fn validate_address<A>(&self, address: A) -> (request: RpcRequest<(A,)>)
        ensures
            request.is_call("validateaddress"@, (address,)),
    {
        RpcRequest::new1(JsonRpcVersion::V1, "42", "validateaddress", address)
    }

    /// A transaction by its identifier, as the node serialized it.
    pub fn get_raw_transaction_serialized<Tx>(&self, tx: Tx) -> (request: RpcRequest<(Tx, bool)>)
        ensures
            request.is_call("getrawtransaction"@, (tx, false)),
    {
        self.get_raw_transaction(tx, false)
    }

    /// A transaction by its identifier, decoded by the node.
    pub fn get_raw_transaction_verbose<Tx>(&self, tx: Tx) -> (request: RpcRequest<(Tx, bool)>)
        ensures
            request.is_call("getrawtransaction"@, (tx, true)),
    {
        self.get_raw_transaction(tx, true)
    }
}

} // verus!
