//! What holds of the bindings as a whole, beyond the contract of each function.

use vstd::prelude::*;
use crate::json::{no_members, texts_doc, texts_of, JsonModel};
use crate::network::{
    create_data, key_block_time_ms, key_blockchain, key_chain_id, key_created_at, key_env,
    key_is_active, key_name, key_rpc_endpoints, key_rps, lemma_keys_distinct, network_of,
    network_with, NetworkDataView, NetworkView,
};
use crate::time::datetime_of;
use crate::vocab::{lemma_blockchain_token_inverse, lemma_env_token_inverse, Blockchain, Env};

verus! {

/// A patch's object has a member under a name exactly when that name belongs to a
/// field that is present; an absent field leaves no member behind, and no member is
/// ever the JSON value `null`.
pub proof fn lemma_patch_members(data: NetworkDataView, key: Seq<char>)
    ensures
        data.members().contains_key(key) <==> {
            ||| key == key_name() && data.name is Some
            ||| key == key_env() && data.env is Some
            ||| key == key_blockchain() && data.blockchain is Some
            ||| key == key_chain_id() && data.chain_id is Some
            ||| key == key_block_time_ms() && data.block_time_ms is Some
            ||| key == key_rpc_endpoints() && data.rpc_endpoints is Some
            ||| key == key_rps() && data.rps is Some
            ||| key == key_is_active() && data.is_active is Some
        },
        data.members().contains_key(key) ==> data.members()[key] != JsonModel::Null,
{
    lemma_keys_distinct();
}

/// The body of `create` holds exactly seven members, under the names `name`, `env`,
/// `blockchain`, `chainId`, `blockTimeMs`, `rpcEndpoints` and `rps`, each with the
/// value of its argument, and no member under any other name.
pub proof fn lemma_create_members(
    name: Seq<char>,
    env: Env,
    blockchain: Blockchain,
    chain_id: u64,
    block_time_ms: u64,
    rpc_endpoints: Seq<Seq<char>>,
    rps: u32,
)
    ensures
        ({
            let members = create_data(name, env, blockchain, chain_id, block_time_ms, rpc_endpoints, rps).members();
            &&& members.dom() == set![
                key_name(),
                key_env(),
                key_blockchain(),
                key_chain_id(),
                key_block_time_ms(),
                key_rpc_endpoints(),
                key_rps(),
            ]
            &&& members.dom().len() == 7
            &&& members[key_name()] == JsonModel::Text(name)
            &&& members[key_env()] == JsonModel::Text(env.token())
            &&& members[key_blockchain()] == JsonModel::Text(blockchain.token())
            &&& members[key_chain_id()] == JsonModel::Unsigned(chain_id)
            &&& members[key_block_time_ms()] == JsonModel::Unsigned(block_time_ms)
            &&& members[key_rpc_endpoints()] == texts_doc(rpc_endpoints)
            &&& members[key_rps()] == JsonModel::Unsigned(rps as u64)
        }),
{
    lemma_keys_distinct();
    let members = create_data(name, env, blockchain, chain_id, block_time_ms, rpc_endpoints, rps).members();
    let names = set![
        key_name(),
        key_env(),
        key_blockchain(),
        key_chain_id(),
        key_block_time_ms(),
        key_rpc_endpoints(),
        key_rps(),
    ];
    assert(members.dom() =~= names);
}

/// A patch that sets the active flag and nothing else is carried by the object whose
/// only member is `isActive`.
pub proof fn lemma_flag_only_patch(flag: bool)
    ensures
        (NetworkDataView { is_active: Some(flag), ..NetworkDataView::empty() }).members()
            == no_members().insert(key_is_active(), JsonModel::Bool(flag)),
{
    lemma_keys_distinct();
    assert((NetworkDataView { is_active: Some(flag), ..NetworkDataView::empty() }).members()
        =~= no_members().insert(key_is_active(), JsonModel::Bool(flag)));
}

/// No patch carries a creation time: the service sets it once, and no request of
/// these bindings can change it.
pub proof fn lemma_created_at_never_sent(data: NetworkDataView)
    ensures
        !data.members().contains_key(key_created_at()),
{
    lemma_keys_distinct();
}

/// Reading a list of strings back from the array that holds it gives the list.
pub proof fn lemma_texts_round_trip(texts: Seq<Seq<char>>)
    ensures
        texts_of(texts_doc(texts)->List_0) == Some(texts),
{
    assert(texts_of(texts_doc(texts)->List_0).unwrap() =~= texts);
}

/// A patch with every field present reads back as the network with the patch's
/// field values unchanged and the creation time it is given.
pub proof fn lemma_patch_round_trip(data: NetworkDataView, created_at: chrono::NaiveDateTime)
    requires
        data.is_complete(),
    ensures
        network_with(data.doc(), created_at) == Some(
            NetworkView {
                name: data.name.unwrap(),
                env: data.env.unwrap(),
                blockchain: data.blockchain.unwrap(),
                chain_id: data.chain_id.unwrap(),
                block_time_ms: data.block_time_ms.unwrap(),
                rpc_endpoints: data.rpc_endpoints.unwrap(),
                rps: data.rps.unwrap(),
                is_active: data.is_active.unwrap(),
                created_at,
            },
        ),
{
    lemma_keys_distinct();
    lemma_env_token_inverse(data.env.unwrap(), data.env.unwrap().token());
    lemma_blockchain_token_inverse(data.blockchain.unwrap(), data.blockchain.unwrap().token());
    lemma_texts_round_trip(data.rpc_endpoints.unwrap());
}

/// A member under a name that belongs to no settable field does not change which
/// network the settable fields of an object describe.
pub proof fn lemma_other_member_ignored(
    members: Map<Seq<char>, JsonModel>,
    key: Seq<char>,
    value: JsonModel,
    created_at: chrono::NaiveDateTime,
)
    requires
        key != key_name(),
        key != key_env(),
        key != key_blockchain(),
        key != key_chain_id(),
        key != key_block_time_ms(),
        key != key_rpc_endpoints(),
        key != key_rps(),
        key != key_is_active(),
    ensures
        network_with(JsonModel::Object(members.insert(key, value)), created_at) == network_with(
            JsonModel::Object(members),
            created_at,
        ),
{
}

/// A patch with every field present, once a `createdAt` member with a timestamp is
/// added to its object, reads back as the network with the patch's field values
/// unchanged and the time that the timestamp denotes; where the timestamp denotes no
/// time, the object reads as no network.
pub proof fn lemma_patch_with_timestamp_round_trip(data: NetworkDataView, stamp: Seq<char>)
    requires
        data.is_complete(),
    ensures
        network_of(JsonModel::Object(data.members().insert(key_created_at(), JsonModel::Text(stamp))))
            == match datetime_of(stamp) {
            Some(created_at) => Some(
                NetworkView {
                    name: data.name.unwrap(),
                    env: data.env.unwrap(),
                    blockchain: data.blockchain.unwrap(),
                    chain_id: data.chain_id.unwrap(),
                    block_time_ms: data.block_time_ms.unwrap(),
                    rpc_endpoints: data.rpc_endpoints.unwrap(),
                    rps: data.rps.unwrap(),
                    is_active: data.is_active.unwrap(),
                    created_at,
                },
            ),
            None => None,
        },
{
    lemma_keys_distinct();
    if let Some(created_at) = datetime_of(stamp) {
        lemma_patch_round_trip(data, created_at);
        lemma_other_member_ignored(data.members(), key_created_at(), JsonModel::Text(stamp), created_at);
    }
}

} // verus!
