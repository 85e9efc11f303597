use barreleye_client::{Blockchain, Endpoint, Env, Method, Network, NetworkData, Request};
use serde_json::Value;

fn parsed(text: &str) -> Value {
    serde_json::from_str(text).unwrap()
}

fn member_names(value: &Value) -> Vec<String> {
    value.as_object().unwrap().keys().cloned().collect()
}

fn empty_patch() -> NetworkData {
    NetworkData::default()
}

#[test]
fn create_issues_post_networks_with_the_seven_fields() {
    let request = Network::create(
        "ethereum-mainnet",
        Env::Mainnet,
        Blockchain::Evm,
        1,
        12000,
        vec!["https://rpc.example"],
        50,
    );
    assert_eq!(request.method, Method::Post);
    assert_eq!(request.endpoint, Endpoint::Networks);
    assert_eq!(request.endpoint.path(), "/networks");
    assert!(request.query.is_empty());
    let expected = parsed(
        r#"{"name":"ethereum-mainnet","env":"mainnet","blockchain":"evm","chainId":1,"blockTimeMs":12000,"rpcEndpoints":["https://rpc.example"],"rps":50}"#,
    );
    assert_eq!(request.body, Some(expected));
}

#[test]
fn create_body_holds_exactly_seven_members() {
    let request = Network::create("n", Env::Testnet, Blockchain::Bitcoin, 7, 600000, vec![], 0);
    let body = request.body.unwrap();
    let mut names = member_names(&body);
    names.sort();
    assert_eq!(
        names,
        vec!["blockTimeMs", "blockchain", "chainId", "env", "name", "rpcEndpoints", "rps"]
    );
    assert_eq!(body.get("isActive"), None);
    assert_eq!(body.get("createdAt"), None);
}

#[test]
fn create_writes_each_argument_under_its_name() {
    let request = Network::create(
        "bitcoin-local",
        Env::Localhost,
        Blockchain::Bitcoin,
        u64::MAX,
        0,
        vec!["http://a:8332", "http://b:8332"],
        u32::MAX,
    );
    let body = request.body.unwrap();
    assert_eq!(body["name"], Value::String("bitcoin-local".to_string()));
    assert_eq!(body["env"], Value::String("localhost".to_string()));
    assert_eq!(body["blockchain"], Value::String("bitcoin".to_string()));
    assert_eq!(body["chainId"].as_u64(), Some(u64::MAX));
    assert_eq!(body["blockTimeMs"].as_u64(), Some(0));
    assert_eq!(body["rpcEndpoints"], parsed(r#"["http://a:8332","http://b:8332"]"#));
    assert_eq!(body["rps"].as_u64(), Some(4294967295));
}

#[test]
fn create_keeps_the_order_of_the_rpc_endpoints() {
    let request = Network::create("n", Env::Mainnet, Blockchain::Evm, 1, 1, vec!["b", "a", "c"], 1);
    let body = request.body.unwrap();
    assert_eq!(body["rpcEndpoints"], parsed(r#"["b","a","c"]"#));
    assert_ne!(body["rpcEndpoints"], parsed(r#"["a","b","c"]"#));
}

#[test]
fn create_with_an_empty_name_and_no_endpoints() {
    let request = Network::create("", Env::Testnet, Blockchain::Evm, 0, 0, vec![], 0);
    let expected = parsed(
        r#"{"name":"","env":"testnet","blockchain":"evm","chainId":0,"blockTimeMs":0,"rpcEndpoints":[],"rps":0}"#,
    );
    assert_eq!(request.body, Some(expected));
}

#[test]
fn list_issues_get_networks_without_query_or_body() {
    let request = Network::list();
    assert_eq!(request.method, Method::Get);
    assert_eq!(request.endpoint, Endpoint::Networks);
    assert_eq!(request.endpoint.path(), "/networks");
    assert!(request.query.is_empty());
    assert_eq!(request.body, None);
}

#[test]
fn list_is_the_same_request_every_time() {
    assert_eq!(Network::list(), Network::list());
}

#[test]
fn get_issues_get_on_the_single_network() {
    let request = Network::get("net_123");
    assert_eq!(request.method, Method::Get);
    assert_eq!(request.endpoint, Endpoint::Network("net_123".to_string()));
    assert_eq!(request.endpoint.path(), "/networks/net_123");
    assert!(request.query.is_empty());
    assert_eq!(request.body, None);
}

#[test]
fn update_with_only_the_active_flag_sends_only_that_member() {
    let data = NetworkData { is_active: Some(false), ..empty_patch() };
    let request = Network::update("net_123", data);
    assert_eq!(request.method, Method::Put);
    assert_eq!(request.endpoint, Endpoint::Network("net_123".to_string()));
    assert_eq!(request.endpoint.path(), "/networks/net_123");
    assert!(request.query.is_empty());
    let body = request.body.unwrap();
    assert_eq!(body, parsed(r#"{"isActive":false}"#));
    assert_eq!(member_names(&body), vec!["isActive"]);
    assert_eq!(body.get("name"), None);
}

#[test]
fn update_with_an_empty_patch_sends_an_empty_object() {
    let request = Network::update("x", empty_patch());
    assert_eq!(request.body, Some(parsed("{}")));
}

#[test]
fn update_with_every_field_sends_all_eight_members() {
    let data = NetworkData {
        name: Some("polygon".to_string()),
        env: Some(Env::Mainnet),
        blockchain: Some(Blockchain::Evm),
        chain_id: Some(137),
        block_time_ms: Some(2000),
        rpc_endpoints: Some(vec!["https://one".to_string(), "https://two".to_string()]),
        rps: Some(25),
        is_active: Some(true),
    };
    let request = Network::update("net_9", data);
    let expected = parsed(
        r#"{"name":"polygon","env":"mainnet","blockchain":"evm","chainId":137,"blockTimeMs":2000,"rpcEndpoints":["https://one","https://two"],"rps":25,"isActive":true}"#,
    );
    assert_eq!(request.body, Some(expected));
}

#[test]
fn update_with_two_fields_sends_two_members() {
    let data = NetworkData { name: Some("renamed".to_string()), rps: Some(10), ..empty_patch() };
    let request = Network::update("net_9", data);
    assert_eq!(request.body, Some(parsed(r#"{"name":"renamed","rps":10}"#)));
}

#[test]
fn patch_with_an_empty_endpoint_list_sends_an_empty_array() {
    let data = NetworkData { rpc_endpoints: Some(vec![]), ..empty_patch() };
    assert_eq!(data.to_json(), parsed(r#"{"rpcEndpoints":[]}"#));
}

#[test]
fn delete_sends_a_null_body() {
    let request = Network::delete("net_123");
    assert_eq!(request.method, Method::Delete);
    assert_eq!(request.endpoint, Endpoint::Network("net_123".to_string()));
    assert_eq!(request.endpoint.path(), "/networks/net_123");
    assert!(request.query.is_empty());
    assert_eq!(request.body, Some(Value::Null));
    assert_ne!(request.body, None);
    assert_eq!(serde_json::to_string(&request.body.unwrap()).unwrap(), "null");
}

#[test]
fn delete_sends_a_null_body_for_any_identifier() {
    for id in ["", "a", "net/with/slashes", "ünïcode"] {
        let request: Request = Network::delete(id);
        assert_eq!(request.body, Some(Value::Null));
        assert_eq!(request.endpoint, Endpoint::Network(id.to_string()));
    }
}

#[test]
fn path_of_a_network_appends_the_identifier() {
    assert_eq!(Endpoint::Network("".to_string()).path(), "/networks/");
    assert_eq!(Endpoint::Network("abc".to_string()).path(), "/networks/abc");
    assert_eq!(Endpoint::Networks.path(), "/networks");
}

#[test]
fn methods_are_named_as_http_writes_them() {
    assert_eq!(Method::Get.as_str(), "GET");
    assert_eq!(Method::Post.as_str(), "POST");
    assert_eq!(Method::Put.as_str(), "PUT");
    assert_eq!(Method::Delete.as_str(), "DELETE");
}
