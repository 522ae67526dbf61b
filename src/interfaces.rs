//! The entry points that the rent-a-car contract offers to the host.
use vstd::prelude::*;
use soroban_sdk::{Address, Env};
use crate::contract::{can_configure, config_written};

verus! {

pub trait RentACarContractTrait {
    /// Runs once when the contract is deployed: records `admin` as the
    /// administrator and `token` as the payment token.
    fn __constructor(env: &mut Env, admin: Address, token: Address)
        requires
            can_configure(*old(env), admin, token),
        ensures
            config_written(*old(env), *final(env), admin, token),
    ;

    /// Records `admin` and `token` again, at any time and by any caller,
    /// overwriting the values held before.
    fn initialize(env: &mut Env, admin: Address, token: Address)
        requires
            can_configure(*old(env), admin, token),
        ensures
            config_written(*old(env), *final(env), admin, token),
    ;
}

} // verus!
