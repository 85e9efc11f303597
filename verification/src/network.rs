//! The network record, its patch, and the five operations on the networks resource.

use vstd::prelude::*;
use crate::json::{
    as_list, bool_value, empty_members, flag_at, flag_member, insert_member, items_at,
    items_member, items_of, json_of, members_of, models_of, null_value, number_value,
    object_value, text_at, text_member, text_value, texts_doc, texts_from, texts_of,
    texts_value, unsigned_at, unsigned_member, JsonModel,
};
use crate::request::{Endpoint, EndpointView, Method, Request};
use crate::time::{datetime_of, parse_datetime};
use crate::vocab::{Blockchain, Env};

verus! {

/// The member name of a network's name.
pub open spec fn key_name() -> Seq<char> {
    "name"@
}

/// The member name of a network's environment.
pub open spec fn key_env() -> Seq<char> {
    "env"@
}

/// The member name of a network's protocol family.
pub open spec fn key_blockchain() -> Seq<char> {
    "blockchain"@
}

/// The member name of a network's chain identifier.
pub open spec fn key_chain_id() -> Seq<char> {
    "chainId"@
}

/// The member name of a network's block time in milliseconds.
pub open spec fn key_block_time_ms() -> Seq<char> {
    "blockTimeMs"@
}

/// The member name of a network's RPC endpoints.
pub open spec fn key_rpc_endpoints() -> Seq<char> {
    "rpcEndpoints"@
}

/// The member name of a network's limit of requests per second.
pub open spec fn key_rps() -> Seq<char> {
    "rps"@
}

/// The member name of a network's active flag.
pub open spec fn key_is_active() -> Seq<char> {
    "isActive"@
}

/// The member name of a network's creation time.
pub open spec fn key_created_at() -> Seq<char> {
    "createdAt"@
}

/// The nine member names are pairwise different.
pub proof fn lemma_keys_distinct()
    ensures
        key_name() != key_env(),
        key_name() != key_blockchain(),
        key_name() != key_chain_id(),
        key_name() != key_block_time_ms(),
        key_name() != key_rpc_endpoints(),
        key_name() != key_rps(),
        key_name() != key_is_active(),
        key_name() != key_created_at(),
        key_env() != key_blockchain(),
        key_env() != key_chain_id(),
        key_env() != key_block_time_ms(),
        key_env() != key_rpc_endpoints(),
        key_env() != key_rps(),
        key_env() != key_is_active(),
        key_env() != key_created_at(),
        key_blockchain() != key_chain_id(),
        key_blockchain() != key_block_time_ms(),
        key_blockchain() != key_rpc_endpoints(),
        key_blockchain() != key_rps(),
        key_blockchain() != key_is_active(),
        key_blockchain() != key_created_at(),
        key_chain_id() != key_block_time_ms(),
        key_chain_id() != key_rpc_endpoints(),
        key_chain_id() != key_rps(),
        key_chain_id() != key_is_active(),
        key_chain_id() != key_created_at(),
        key_block_time_ms() != key_rpc_endpoints(),
        key_block_time_ms() != key_rps(),
        key_block_time_ms() != key_is_active(),
        key_block_time_ms() != key_created_at(),
        key_rpc_endpoints() != key_rps(),
        key_rpc_endpoints() != key_is_active(),
        key_rpc_endpoints() != key_created_at(),
        key_rps() != key_is_active(),
        key_rps() != key_created_at(),
        key_is_active() != key_created_at(),
{
    reveal_strlit("name");
    reveal_strlit("env");
    reveal_strlit("blockchain");
    reveal_strlit("chainId");
    reveal_strlit("blockTimeMs");
    reveal_strlit("rpcEndpoints");
    reveal_strlit("rps");
    reveal_strlit("isActive");
    reveal_strlit("createdAt");
    assert(key_name().len() == 4);
    assert(key_env().len() == 3 && key_env()[0] == 'e');
    assert(key_blockchain().len() == 10);
    assert(key_chain_id().len() == 7);
    assert(key_block_time_ms().len() == 11);
    assert(key_rpc_endpoints().len() == 12);
    assert(key_rps().len() == 3 && key_rps()[0] == 'r');
    assert(key_is_active().len() == 8);
    assert(key_created_at().len() == 9);
}

/// A partial description of a network: every field may be absent.
///
/// It is the payload of an update, where an absent field means "leave unchanged".
#[derive(Clone, Debug, PartialEq, Eq)]
pub struct NetworkData {
    pub name: Option<String>,
    pub env: Option<Env>,
    pub blockchain: Option<Blockchain>,
    pub chain_id: Option<u64>,
    pub block_time_ms: Option<u64>,
    pub rpc_endpoints: Option<Vec<String>>,
    pub rps: Option<u32>,
    pub is_active: Option<bool>,
}

/// The mathematical model of a [`NetworkData`].
pub struct NetworkDataView {
    pub name: Option<Seq<char>>,
    pub env: Option<Env>,
    pub blockchain: Option<Blockchain>,
    pub chain_id: Option<u64>,
    pub block_time_ms: Option<u64>,
    pub rpc_endpoints: Option<Seq<Seq<char>>>,
    pub rps: Option<u32>,
    pub is_active: Option<bool>,
}

impl View for NetworkData {
    type V = NetworkDataView;

    open spec fn view(&self) -> NetworkDataView {
        NetworkDataView {
            name: self.name.deep_view(),
            env: self.env,
            blockchain: self.blockchain,
            chain_id: self.chain_id,
            block_time_ms: self.block_time_ms,
            rpc_endpoints: self.rpc_endpoints.deep_view(),
            rps: self.rps,
            is_active: self.is_active,
        }
    }
}

impl NetworkDataView {
    /// The patch without any field.
    pub open spec fn empty() -> NetworkDataView {
        NetworkDataView {
            name: None,
            env: None,
            blockchain: None,
            chain_id: None,
            block_time_ms: None,
            rpc_endpoints: None,
            rps: None,
            is_active: None,
        }
    }

    /// Whether every field is present.
    pub open spec fn is_complete(self) -> bool {
        &&& self.name is Some
        &&& self.env is Some
        &&& self.blockchain is Some
        &&& self.chain_id is Some
        &&& self.block_time_ms is Some
        &&& self.rpc_endpoints is Some
        &&& self.rps is Some
        &&& self.is_active is Some
    }

    /// The member that the patch puts under `key`: the field's value where the field
    /// named by `key` is present, and nothing for an absent field or any other key.
    pub open spec fn member(self, key: Seq<char>) -> Option<JsonModel> {
        if key == key_name() {
            match self.name {
                Some(name) => Some(JsonModel::Text(name)),
                None => None,
            }
        } else if key == key_env() {
            match self.env {
                Some(env) => Some(JsonModel::Text(env.token())),
                None => None,
            }
        } else if key == key_blockchain() {
            match self.blockchain {
                Some(blockchain) => Some(JsonModel::Text(blockchain.token())),
                None => None,
            }
        } else if key == key_chain_id() {
            match self.chain_id {
                Some(chain_id) => Some(JsonModel::Unsigned(chain_id)),
                None => None,
            }
        } else if key == key_block_time_ms() {
            match self.block_time_ms {
                Some(block_time_ms) => Some(JsonModel::Unsigned(block_time_ms)),
                None => None,
            }
        } else if key == key_rpc_endpoints() {
            match self.rpc_endpoints {
                Some(endpoints) => Some(texts_doc(endpoints)),
                None => None,
            }
        } else if key == key_rps() {
            match self.rps {
                Some(rps) => Some(JsonModel::Unsigned(rps as u64)),
                None => None,
            }
        } else if key == key_is_active() {
            match self.is_active {
                Some(is_active) => Some(JsonModel::Bool(is_active)),
                None => None,
            }
        } else {
            None
        }
    }

    /// The members of the patch's JSON object: one for each present field, none else.
    pub open spec fn members(self) -> Map<Seq<char>, JsonModel> {
        Map::new(|key: Seq<char>| self.member(key) is Some, |key: Seq<char>| self.member(key).unwrap())
    }

    /// The JSON object that carries the patch.
    pub open spec fn doc(self) -> JsonModel {
        JsonModel::Object(self.members())
    }
}

impl Default for NetworkData {
    /// The patch without any field.
    fn default() -> (data: NetworkData)
        ensures
            data@ == NetworkDataView::empty(),
    {
        NetworkData {
            name: None,
            env: None,
            blockchain: None,
            chain_id: None,
            block_time_ms: None,
            rpc_endpoints: None,
            rps: None,
            is_active: None,
        }
    }
}

impl NetworkData {
    /// The JSON object that carries this patch: a member for each present field under
    /// its camelCase name, and no member, not even a null one, for an absent field.
    pub fn to_json(&self) -> (value: serde_json::Value)
        ensures
            json_of(value) == self@.doc(),
    {
        let mut map = empty_members();
        if let Some(name) = &self.name {
            insert_member(&mut map, "name", text_value(name.as_str()));
        }
        if let Some(env) = &self.env {
            insert_member(&mut map, "env", text_value(env.as_str()));
        }
        if let Some(blockchain) = &self.blockchain {
            insert_member(&mut map, "blockchain", text_value(blockchain.as_str()));
        }
        if let Some(chain_id) = &self.chain_id {
            insert_member(&mut map, "chainId", number_value(*chain_id));
        }
        if let Some(block_time_ms) = &self.block_time_ms {
            insert_member(&mut map, "blockTimeMs", number_value(*block_time_ms));
        }
        if let Some(endpoints) = &self.rpc_endpoints {
            insert_member(&mut map, "rpcEndpoints", texts_value(endpoints));
        }
        if let Some(rps) = &self.rps {
            insert_member(&mut map, "rps", number_value(*rps as u64));
        }
        if let Some(is_active) = &self.is_active {
            insert_member(&mut map, "isActive", bool_value(*is_active));
        }
        proof {
            lemma_keys_distinct();
            assert(members_of(map) =~= self@.members());
        }
        object_value(map)
    }
}

/// A network as the service holds it: every field of the patch, and the time at
/// which the service created the record.
#[derive(Debug, PartialEq, Eq)]
pub struct Network {
    pub name: String,
    pub env: Env,
    pub blockchain: Blockchain,
    pub chain_id: u64,
    pub block_time_ms: u64,
    pub rpc_endpoints: Vec<String>,
    pub rps: u32,
    pub is_active: bool,
    pub created_at: chrono::NaiveDateTime,
}

/// The mathematical model of a [`Network`].
pub struct NetworkView {
    pub name: Seq<char>,
    pub env: Env,
    pub blockchain: Blockchain,
    pub chain_id: u64,
    pub block_time_ms: u64,
    pub rpc_endpoints: Seq<Seq<char>>,
    pub rps: u32,
    pub is_active: bool,
    pub created_at: chrono::NaiveDateTime,
}

impl View for Network {
    type V = NetworkView;

    open spec fn view(&self) -> NetworkView {
        NetworkView {
            name: self.name@,
            env: self.env,
            blockchain: self.blockchain,
            chain_id: self.chain_id,
            block_time_ms: self.block_time_ms,
            rpc_endpoints: self.rpc_endpoints.deep_view(),
            rps: self.rps,
            is_active: self.is_active,
            created_at: self.created_at,
        }
    }
}

impl Clone for Network {
    fn clone(&self) -> (copy: Network)
        ensures
            copy@ == self@,
    {
        let copy = Network {
            name: self.name.clone(),
            env: self.env,
            blockchain: self.blockchain,
            chain_id: self.chain_id,
            block_time_ms: self.block_time_ms,
            rpc_endpoints: self.rpc_endpoints.clone(),
            rps: self.rps,
            is_active: self.is_active,
            created_at: self.created_at,
        };
        proof {
            assert(copy.rpc_endpoints.deep_view() =~= self.rpc_endpoints.deep_view());
        }
        copy
    }
}

impl DeepView for Network {
    type V = NetworkView;

    open spec fn deep_view(&self) -> NetworkView {
        self@
    }
}

/// The environment under `key`, if `doc` is an object whose member under `key` is a
/// token of the vocabulary.
pub open spec fn env_member(doc: JsonModel, key: Seq<char>) -> Option<Env> {
    match text_member(doc, key) {
        Some(token) => Env::of_token(token),
        None => None,
    }
}

/// The protocol family under `key`, if `doc` is an object whose member under `key` is
/// a token of the vocabulary.
pub open spec fn blockchain_member(doc: JsonModel, key: Seq<char>) -> Option<Blockchain> {
    match text_member(doc, key) {
        Some(token) => Blockchain::of_token(token),
        None => None,
    }
}

/// The strings under `key`, if `doc` is an object whose member under `key` is an
/// array of strings.
pub open spec fn texts_member(doc: JsonModel, key: Seq<char>) -> Option<Seq<Seq<char>>> {
    match items_member(doc, key) {
        Some(items) => texts_of(items),
        None => None,
    }
}

/// The 32-bit unsigned integer under `key`, if `doc` is an object whose member under
/// `key` is an unsigned integer that fits.
pub open spec fn small_unsigned_member(doc: JsonModel, key: Seq<char>) -> Option<u32> {
    match unsigned_member(doc, key) {
        Some(n) => if n <= u32::MAX {
            Some(n as u32)
        } else {
            None
        },
        None => None,
    }
}

/// The date and time under `key`, if `doc` is an object whose member under `key` is
/// a string that denotes one.
pub open spec fn datetime_member(doc: JsonModel, key: Seq<char>) -> Option<chrono::NaiveDateTime> {
    match text_member(doc, key) {
        Some(text) => datetime_of(text),
        None => None,
    }
}

/// The network that the eight settable fields of a JSON document describe, with
/// `created_at` as its creation time.
///
/// The document must be an object that holds the eight fields under their camelCase
/// names, each of the shape of its field; members under other names are ignored.
/// Any other document describes no network.
pub open spec fn network_with(doc: JsonModel, created_at: chrono::NaiveDateTime) -> Option<NetworkView> {
    let name = text_member(doc, key_name());
    let env = env_member(doc, key_env());
    let blockchain = blockchain_member(doc, key_blockchain());
    let chain_id = unsigned_member(doc, key_chain_id());
    let block_time_ms = unsigned_member(doc, key_block_time_ms());
    let rpc_endpoints = texts_member(doc, key_rpc_endpoints());
    let rps = small_unsigned_member(doc, key_rps());
    let is_active = flag_member(doc, key_is_active());
    if name is Some && env is Some && blockchain is Some && chain_id is Some
        && block_time_ms is Some && rpc_endpoints is Some && rps is Some && is_active is Some {
        Some(
            NetworkView {
                name: name.unwrap(),
                env: env.unwrap(),
                blockchain: blockchain.unwrap(),
                chain_id: chain_id.unwrap(),
                block_time_ms: block_time_ms.unwrap(),
                rpc_endpoints: rpc_endpoints.unwrap(),
                rps: rps.unwrap(),
                is_active: is_active.unwrap(),
                created_at,
            },
        )
    } else {
        None
    }
}

/// The network that a JSON document describes.
///
/// The document must be an object that holds all nine fields under their camelCase
/// names, each of the shape of its field, the creation time as a string that denotes
/// a date and time; members under other names are ignored. Any other document
/// describes no network.
pub open spec fn network_of(doc: JsonModel) -> Option<NetworkView> {
    match datetime_member(doc, key_created_at()) {
        Some(created_at) => network_with(doc, created_at),
        None => None,
    }
}

/// The networks that a JSON document lists, in its order: the document must be an
/// array whose every item describes a network.
pub open spec fn networks_of(doc: JsonModel) -> Option<Seq<NetworkView>> {
    match items_of(doc) {
        Some(items) => if forall|i: int| 0 <= i < items.len() ==> network_of(#[trigger] items[i]) is Some {
            Some(Seq::new(items.len(), |i: int| network_of(items[i]).unwrap()))
        } else {
            None
        },
        None => None,
    }
}

/// The patch that `create` sends: every field but the active flag.
pub open spec fn create_data(
    name: Seq<char>,
    env: Env,
    blockchain: Blockchain,
    chain_id: u64,
    block_time_ms: u64,
    rpc_endpoints: Seq<Seq<char>>,
    rps: u32,
) -> NetworkDataView {
    NetworkDataView {
        name: Some(name),
        env: Some(env),
        blockchain: Some(blockchain),
        chain_id: Some(chain_id),
        block_time_ms: Some(block_time_ms),
        rpc_endpoints: Some(rpc_endpoints),
        rps: Some(rps),
        is_active: None,
    }
}

/// A request without query parameters.
fn plain_request(method: Method, endpoint: Endpoint, body: Option<serde_json::Value>) -> (request: Request)
    ensures
        request@.method == method,
        request@.endpoint == endpoint@,
        request@.query.len() == 0,
        request.body == body,
{
    Request { method, endpoint, query: Vec::new(), body }
}

/// Owned copies of `texts`, in order.
fn owned_texts(texts: &Vec<&str>) -> (owned: Vec<String>)
    ensures
        owned.deep_view() == texts.deep_view(),
{
    let mut owned: Vec<String> = Vec::new();
    let mut i: usize = 0;
    while i < texts.len()
        invariant
            i <= texts.len(),
            owned.len() == i,
            forall|j: int| 0 <= j < i ==> owned@[j]@ == texts@[j]@,
        decreases texts.len() - i,
    {
        owned.push(texts[i].to_owned());
        i = i + 1;
    }
    proof {
        assert(owned.deep_view() =~= texts.deep_view());
    }
    owned
}

impl Network {
    /// The request that creates a network from the seven given fields:
    /// `POST /networks`, no query parameter.
    ///
    /// Its body is the JSON object with exactly the members `name`, `env`,
    /// `blockchain`, `chainId`, `blockTimeMs`, `rpcEndpoints` and `rps`.
    pub fn create(
        name: &str,
        env: Env,
        blockchain: Blockchain,
        chain_id: u64,
        block_time_ms: u64,
        rpc_endpoints: Vec<&str>,
        rps: u32,
    ) -> (request: Request)
        ensures
            request@.method == Method::Post,
            request@.endpoint == EndpointView::Networks,
            request@.query.len() == 0,
            request@.body == Some(
                create_data(name@, env, blockchain, chain_id, block_time_ms, rpc_endpoints.deep_view(), rps).doc(),
            ),
    {
        let data = NetworkData {
            name: Some(name.to_owned()),
            env: Some(env),
            blockchain: Some(blockchain),
            chain_id: Some(chain_id),
            block_time_ms: Some(block_time_ms),
            rpc_endpoints: Some(owned_texts(&rpc_endpoints)),
            rps: Some(rps),
            is_active: None,
        };
        plain_request(Method::Post, Endpoint::Networks, Some(data.to_json()))
    }

    /// The request that lists all networks: `GET /networks`, no query parameter, no body.
    pub fn list() -> (request: Request)
        ensures
            request@.method == Method::Get,
            request@.endpoint == EndpointView::Networks,
            request@.query.len() == 0,
            request@.body is None,
    {
        plain_request(Method::Get, Endpoint::Networks, None)
    }

    /// The request that fetches the network `id`: `GET /networks/{id}`, no query
    /// parameter, no body.
    pub fn get(id: &str) -> (request: Request)
        ensures
            request@.method == Method::Get,
            request@.endpoint == EndpointView::Network(id@),
            request@.query.len() == 0,
            request@.body is None,
    {
        plain_request(Method::Get, Endpoint::Network(id.to_owned()), None)
    }

    /// The request that updates the network `id`: `PUT /networks/{id}`, no query
    /// parameter. Its body holds the present fields of `data` and nothing else.
    pub fn update(id: &str, data: NetworkData) -> (request: Request)
        ensures
            request@.method == Method::Put,
            request@.endpoint == EndpointView::Network(id@),
            request@.query.len() == 0,
            request@.body == Some(data@.doc()),
    {
        plain_request(Method::Put, Endpoint::Network(id.to_owned()), Some(data.to_json()))
    }

    /// The request that removes the network `id`: `DELETE /networks/{id}`, no query
    /// parameter. Its body is the JSON value `null`, never an absent body.
    pub fn delete(id: &str) -> (request: Request)
        ensures
            request@.method == Method::Delete,
            request@.endpoint == EndpointView::Network(id@),
            request@.query.len() == 0,
            request@.body == Some(JsonModel::Null),
    {
        plain_request(Method::Delete, Endpoint::Network(id.to_owned()), Some(null_value()))
    }

    /// Reads the eight settable fields of a network from `value` and takes its
    /// creation time as given.
    ///
    /// The result is `Some` exactly when `value` is an object that holds the eight
    /// fields in the shape of their types; members under other names are ignored.
    pub fn from_fields(value: &serde_json::Value, created_at: chrono::NaiveDateTime) -> (network: Option<Network>)
        ensures
            network.deep_view() == network_with(json_of(*value), created_at),
    {
        let name = text_at(value, "name")?;
        let env = Env::from_token(text_at(value, "env")?)?;
        let blockchain = Blockchain::from_token(text_at(value, "blockchain")?)?;
        let chain_id = unsigned_at(value, "chainId")?;
        let block_time_ms = unsigned_at(value, "blockTimeMs")?;
        let rpc_endpoints = texts_from(items_at(value, "rpcEndpoints")?)?;
        let rps = unsigned_at(value, "rps")?;
        if rps > u32::MAX as u64 {
            return None;
        }
        let is_active = flag_at(value, "isActive")?;
        Some(
            Network {
                name: name.to_owned(),
                env,
                blockchain,
                chain_id,
                block_time_ms,
                rpc_endpoints,
                rps: rps as u32,
                is_active,
                created_at,
            },
        )
    }

    /// Reads a network from the JSON payload of an answer.
    ///
    /// The result is `Some` exactly when `value` is an object that holds all nine
    /// fields in the shape of their types, the creation time as a string that denotes
    /// a date and time; members under other names are ignored.
    pub fn from_json(value: &serde_json::Value) -> (network: Option<Network>)
        ensures
            network.deep_view() == network_of(json_of(*value)),
    {
        let created_at = parse_datetime(text_at(value, "createdAt")?)?;
        Network::from_fields(value, created_at)
    }

    /// Reads the networks from the JSON payload of an answer to `list`, in the
    /// payload's order.
    ///
    /// The result is `Some` exactly when `value` is an array whose every item reads
    /// as a network.
    pub fn list_from_json(value: &serde_json::Value) -> (networks: Option<Vec<Network>>)
        ensures
            networks.deep_view() == networks_of(json_of(*value)),
    {
        let items = as_list(value)?;
        let mut networks: Vec<Network> = Vec::new();
        let mut i: usize = 0;
        while i < items.len()
            invariant
                i <= items.len(),
                networks.len() == i,
                items_of(json_of(*value)) == Some(models_of(items@)),
                forall|j: int| 0 <= j < i ==> network_of(#[trigger] models_of(items@)[j]) == Some(networks@[j]@),
            decreases items.len() - i,
        {
            match Network::from_json(&items[i]) {
                Some(network) => {
                    networks.push(network);
                },
                None => {
                    assert(network_of(models_of(items@)[i as int]) is None);
                    return None;
                },
            }
            i = i + 1;
        }
        proof {
            assert(networks.deep_view() =~= networks_of(json_of(*value)).unwrap());
        }
        Some(networks)
    }
}

} // verus!
