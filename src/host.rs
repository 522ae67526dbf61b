//! The contract host as the library sees it: the environment handle, account
//! addresses, and the instance storage reached through the handle.
use vstd::prelude::*;
use soroban_sdk::{Address, Env, Symbol};

verus! {

#[verifier::external_type_specification]
#[verifier::external_body]
pub struct ExEnv(Env);

#[verifier::external_type_specification]
#[verifier::external_body]
pub struct ExAddress(Address);

/// The entries of the running contract's instance storage that hold an
/// address, keyed by the text of their symbol key.
pub uninterp spec fn instance_addresses(env: Env) -> Map<Seq<char>, Address>;

/// All data stored for the running contract (its persistent, temporary and
/// instance entries), each entry keyed by the XDR encoding of its storage
/// kind and key and holding the XDR encoding of its value.
pub uninterp spec fn contract_data(env: Env) -> Map<Seq<u8>, Seq<u8>>;

/// The key in `contract_data` of the instance entry whose key is the symbol
/// with text `key`.
pub uninterp spec fn instance_entry_key(key: Seq<char>) -> Seq<u8>;

/// Whether `env` is inside a contract invocation, so that it can reach that
/// contract's storage.
pub uninterp spec fn contract_running(env: Env) -> bool;

/// Whether `address` was made by the host that `env` is a handle to.
pub uninterp spec fn bound_to_host(env: Env, address: Address) -> bool;

/// A character that a symbol may hold: `a-z`, `A-Z`, `0-9` or `_`.
pub open spec fn is_symbol_char(c: char) -> bool {
    ('a' <= c && c <= 'z') || ('A' <= c && c <= 'Z') || ('0' <= c && c <= '9') || c == '_'
}

/// Text that a symbol can represent: at most 32 symbol characters.
pub open spec fn is_symbol_text(s: Seq<char>) -> bool {
    s.len() <= 32 && forall|i: int| 0 <= i < s.len() ==> #[trigger] is_symbol_char(s[i])
}

/// Relies on soroban_sdk's `Symbol::new`, which turns valid key text into a
/// symbol (it panics on other text, hence the `requires`), and on
/// `Instance::set`, which stores the value under that symbol in the running
/// contract's instance storage, replacing any earlier value and leaving every
/// other entry of the contract's data alone. The host fails the call when no
/// contract is running, and an address of another host is not its own object,
/// hence the other two `requires`. A write does not leave the invocation nor
/// change which host an address belongs to.
#[verifier::external_body]
pub(crate) fn set_instance_address(env: &mut Env, key: &str, value: &Address)
    requires
        is_symbol_text(key@),
        contract_running(*old(env)),
        bound_to_host(*old(env), *value),
    ensures
        instance_addresses(*final(env)) == instance_addresses(*old(env)).insert(key@, *value),
        contract_data(*final(env)).remove(instance_entry_key(key@)) == contract_data(
            *old(env),
        ).remove(instance_entry_key(key@)),
        contract_running(*final(env)),
        forall|a: Address| #[trigger]
            bound_to_host(*final(env), a) == bound_to_host(*old(env), a),
{
    env.storage().instance().set(&Symbol::new(env, key), value);
}

} // verus!
