use bitcoin_rpc_client::request::{JsonRpcVersion, RpcRequest, TxOutConfirmations};
use bitcoin_rpc_client::BitcoinCoreClient;

fn client() -> BitcoinCoreClient {
    BitcoinCoreClient::new("http://localhost:18443", "user", "pass")
}

fn envelope<P>(method: &str, params: P) -> RpcRequest<P> {
    RpcRequest {
        version: JsonRpcVersion::V1,
        id: "42".to_string(),
        method: method.to_string(),
        params,
    }
}

#[test]
fn constructors_keep_what_they_are_given() {
    assert_eq!(
        RpcRequest::new0(JsonRpcVersion::V2, "7", "ping"),
        RpcRequest {
            version: JsonRpcVersion::V2,
            id: "7".to_string(),
            method: "ping".to_string(),
            params: ()
        }
    );
    assert_eq!(
        RpcRequest::new1(JsonRpcVersion::V1, "42", "m", 1u8).params,
        (1u8,)
    );
    assert_eq!(
        RpcRequest::new2(JsonRpcVersion::V1, "42", "m", 1u8, "b").params,
        (1u8, "b")
    );
    assert_eq!(
        RpcRequest::new3(JsonRpcVersion::V1, "42", "m", 1u8, "b", true).params,
        (1u8, "b", true)
    );
    assert_eq!(
        RpcRequest::new4(JsonRpcVersion::V1, "42", "m", 1u8, "b", true, 'd'),
        RpcRequest {
            version: JsonRpcVersion::V1,
            id: "42".to_string(),
            method: "m".to_string(),
            params: (1u8, "b", true, 'd')
        }
    );
}

#[test]
fn unconfirmed_means_zero_confirmations() {
    assert_eq!(TxOutConfirmations::Unconfirmed.minimum(), 0);
    assert_eq!(TxOutConfirmations::AtLeast(6).minimum(), 6);
    assert_eq!(TxOutConfirmations::AtLeast(0).minimum(), 0);
}

#[test]
fn methods_without_parameters() {
    let client = client();
    assert_eq!(client.get_balance(), envelope("getbalance", ()));
    assert_eq!(client.get_best_block_hash(), envelope("getbestblockhash", ()));
    assert_eq!(client.get_blockchain_info(), envelope("getblockchaininfo", ()));
    assert_eq!(client.get_block_count(), envelope("getblockcount", ()));
}

#[test]
fn methods_with_one_parameter() {
    let client = client();
    assert_eq!(
        client.decode_rawtransaction("0200"),
        envelope("decoderawtransaction", ("0200",))
    );
    assert_eq!(client.decode_script("76a9"), envelope("decodescript", ("76a9",)));
    assert_eq!(client.dump_privkey("bcrt1q"), envelope("dumpprivkey", ("bcrt1q",)));
    assert_eq!(client.generate(101), envelope("generate", (101u32,)));
    assert_eq!(
        client.get_address_info("bcrt1q"),
        envelope("getaddressinfo", ("bcrt1q",))
    );
    assert_eq!(client.get_block("00ff"), envelope("getblock", ("00ff",)));
    assert_eq!(client.get_block_hash(7), envelope("getblockhash", (7u32,)));
    assert_eq!(
        client.send_raw_transaction("0200"),
        envelope("sendrawtransaction", ("0200",))
    );
    assert_eq!(
        client.validate_address("bcrt1q"),
        envelope("validateaddress", ("bcrt1q",))
    );
}

#[test]
fn methods_with_two_parameters() {
    let client = client();
    assert_eq!(
        client.add_multisig_address(2, vec!["a", "b", "c"]),
        envelope("addmultisigaddress", (2u32, vec!["a", "b", "c"]))
    );
    assert_eq!(
        client.create_raw_transaction(vec![("txid", 0u32)], "out"),
        envelope("createrawtransaction", (vec![("txid", 0u32)], "out"))
    );
    assert_eq!(
        client.fund_raw_transaction("0200", "options"),
        envelope("fundrawtransaction", ("0200", "options"))
    );
    assert_eq!(
        client.generate_to_address(3, "bcrt1q"),
        envelope("generatetoaddress", (3u32, "bcrt1q"))
    );
    assert_eq!(
        client.send_to_address("bcrt1q", 1.5f64),
        envelope("sendtoaddress", ("bcrt1q", 1.5f64))
    );
}

#[test]
fn verbose_block_asks_for_verbosity_two() {
    assert_eq!(
        client().get_block_verbose("00ff"),
        envelope("getblock", ("00ff", 2u32))
    );
}

#[test]
fn new_address_is_bech32_without_label() {
    assert_eq!(
        client().get_new_address(),
        envelope("getnewaddress", ("", "bech32"))
    );
}

#[test]
fn raw_transaction_carries_the_verbose_flag() {
    let client = client();
    assert_eq!(
        client.get_raw_transaction("ab", true),
        envelope("getrawtransaction", ("ab", true))
    );
    assert_eq!(
        client.get_raw_transaction_serialized("ab"),
        envelope("getrawtransaction", ("ab", false))
    );
    assert_eq!(
        client.get_raw_transaction_verbose("ab"),
        envelope("getrawtransaction", ("ab", true))
    );
}

#[test]
fn list_unspent_maps_the_minimum() {
    let client = client();
    assert_eq!(
        client.list_unspent(TxOutConfirmations::Unconfirmed, None, None::<Vec<&str>>),
        envelope("listunspent", (0u32, None, None))
    );
    assert_eq!(
        client.list_unspent(TxOutConfirmations::AtLeast(6), Some(9999), Some(vec!["a"])),
        envelope("listunspent", (6u32, Some(9999u32), Some(vec!["a"])))
    );
}

#[test]
fn sign_raw_transaction_keeps_the_order_of_its_parameters() {
    let client = client();
    assert_eq!(
        client.sign_raw_transaction_with_key("0200", Some(vec!["key"]), Some(vec![1u8]), Some("ALL")),
        envelope(
            "signrawtransactionwithkey",
            ("0200", Some(vec!["key"]), Some(vec![1u8]), Some("ALL"))
        )
    );
    assert_eq!(
        client.sign_raw_transaction_with_key("0200", None::<Vec<&str>>, None::<Vec<u8>>, None::<&str>),
        envelope("signrawtransactionwithkey", ("0200", None, None, None))
    );
}
