//! The rent-a-car contract: its two entry points write the administrator's
//! and the payment token's addresses into instance storage.
use vstd::prelude::*;
use soroban_sdk::{Address, Env};
use crate::host::{
    bound_to_host, contract_data, contract_running, instance_addresses, instance_entry_key,
    is_symbol_text, set_instance_address,
};
use crate::interfaces::RentACarContractTrait;

verus! {

/// Instance storage key under which the administrator's address is kept.
pub const ADMIN_KEY: &'static str = "ADMIN";

/// Instance storage key under which the payment token's address is kept.
pub const TOKEN_KEY: &'static str = "TOKEN";

/// The contract. It holds no data of its own: its state lives in the
/// instance storage of the host.
pub struct RentACarContract;

/// The address storage after a configuration write: `storage` with `admin`
/// under the administrator key and `token` under the token key, every other
/// entry as it was.
pub open spec fn configured(
    storage: Map<Seq<char>, Address>,
    admin: Address,
    token: Address,
) -> Map<Seq<char>, Address> {
    storage.insert(ADMIN_KEY@, admin).insert(TOKEN_KEY@, token)
}

/// The contract's data apart from the instance entries under the two keys.
pub open spec fn other_data(data: Map<Seq<u8>, Seq<u8>>) -> Map<Seq<u8>, Seq<u8>> {
    data.remove(instance_entry_key(ADMIN_KEY@)).remove(instance_entry_key(TOKEN_KEY@))
}

/// What a configuration write may rely on: a running contract, and both
/// addresses made by its host.
pub open spec fn can_configure(env: Env, admin: Address, token: Address) -> bool {
    contract_running(env) && bound_to_host(env, admin) && bound_to_host(env, token)
}

/// What a configuration write leaves: `admin` and `token` under their keys,
/// every other entry of the contract's data as it was, and the invocation
/// still running.
pub open spec fn config_written(before: Env, after: Env, admin: Address, token: Address) -> bool {
    &&& instance_addresses(after) == configured(instance_addresses(before), admin, token)
    &&& other_data(contract_data(after)) == other_data(contract_data(before))
    &&& contract_running(after)
}

/// The two keys are valid symbol text and differ from each other.
pub proof fn lemma_keys_valid()
    ensures
        is_symbol_text(ADMIN_KEY@),
        is_symbol_text(TOKEN_KEY@),
        ADMIN_KEY@ != TOKEN_KEY@,
{
    reveal_strlit("ADMIN");
    reveal_strlit("TOKEN");
    assert(ADMIN_KEY@[0] != TOKEN_KEY@[0]);
}

/// Writes `admin` and `token` under their keys, replacing whatever was there.
fn store_config(env: &mut Env, admin: &Address, token: &Address)
    requires
        can_configure(*old(env), *admin, *token),
    ensures
        config_written(*old(env), *final(env), *admin, *token),
{
    proof {
        lemma_keys_valid();
    }
    let ghost before = contract_data(*env);
    set_instance_address(env, ADMIN_KEY, admin);
    let ghost middle = contract_data(*env);
    set_instance_address(env, TOKEN_KEY, token);
    proof {
        let ka = instance_entry_key(ADMIN_KEY@);
        let kt = instance_entry_key(TOKEN_KEY@);
        assert(middle.remove(ka).remove(kt) =~= before.remove(ka).remove(kt));
        assert(contract_data(*env).remove(kt).remove(ka) =~= middle.remove(kt).remove(ka));
        assert(middle.remove(ka).remove(kt) =~= middle.remove(kt).remove(ka));
        assert(contract_data(*env).remove(ka).remove(kt) =~= contract_data(*env).remove(kt).remove(
            ka,
        ));
    }
}

impl RentACarContractTrait for RentACarContract {
    fn __constructor(env: &mut Env, admin: Address, token: Address) {
        store_config(env, &admin, &token);
    }

    fn initialize(env: &mut Env, admin: Address, token: Address) {
        store_config(env, &admin, &token);
    }
}

/// After a configuration write the administrator key holds `admin` and the
/// token key holds `token`, whatever the storage held before.
pub proof fn lemma_configured_holds_both(
    storage: Map<Seq<char>, Address>,
    admin: Address,
    token: Address,
)
    ensures
        configured(storage, admin, token).contains_key(ADMIN_KEY@),
        configured(storage, admin, token)[ADMIN_KEY@] == admin,
        configured(storage, admin, token).contains_key(TOKEN_KEY@),
        configured(storage, admin, token)[TOKEN_KEY@] == token,
{
    lemma_keys_valid();
}

/// A second configuration write replaces the first entirely: the storage
/// ends as if only the second had been made. Writing the same pair twice
/// leaves the storage as one write does.
pub proof fn lemma_reconfigure_overwrites(
    storage: Map<Seq<char>, Address>,
    admin1: Address,
    token1: Address,
    admin2: Address,
    token2: Address,
)
    ensures
        configured(configured(storage, admin1, token1), admin2, token2) == configured(
            storage,
            admin2,
            token2,
        ),
        configured(configured(storage, admin2, token2), admin2, token2) == configured(
            storage,
            admin2,
            token2,
        ),
{
    lemma_keys_valid();
    assert(configured(configured(storage, admin1, token1), admin2, token2) =~= configured(
        storage,
        admin2,
        token2,
    ));
    assert(configured(configured(storage, admin2, token2), admin2, token2) =~= configured(
        storage,
        admin2,
        token2,
    ));
}

/// A configuration write needs no earlier one: on storage that holds neither
/// key it adds exactly the two entries and keeps every other entry.
pub proof fn lemma_configure_fresh(storage: Map<Seq<char>, Address>, admin: Address, token: Address)
    requires
        !storage.contains_key(ADMIN_KEY@),
        !storage.contains_key(TOKEN_KEY@),
    ensures
        configured(storage, admin, token).dom() == storage.dom().insert(ADMIN_KEY@).insert(
            TOKEN_KEY@,
        ),
        configured(storage, admin, token)[ADMIN_KEY@] == admin,
        configured(storage, admin, token)[TOKEN_KEY@] == token,
        forall|k: Seq<char>| #[trigger]
            storage.contains_key(k) ==> configured(storage, admin, token)[k] == storage[k],
{
    lemma_keys_valid();
    assert(configured(storage, admin, token).dom() =~= storage.dom().insert(ADMIN_KEY@).insert(
        TOKEN_KEY@,
    ));
}

} // verus!
