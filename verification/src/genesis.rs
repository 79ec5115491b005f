//! The genesis snapshot and its assembly.

use crate::account::AccountId;
use std::collections::BTreeMap;
use vstd::prelude::*;
use vstd::slice::slice_to_vec;

verus! {

/// The balance that every endowed account starts with: 2^60 units.
pub const ENDOWMENT: u128 = 0x1000_0000_0000_0000;

/// System state: the runtime code, kept as opaque bytes.
#[derive(Clone, Debug, PartialEq, Eq)]
pub struct SystemConfig {
    pub code: Vec<u8>,
}

/// Initial balances: one entry for each endowed account, none for an
/// account twice, in the order in which the accounts were first listed.
#[derive(Clone, Debug, PartialEq, Eq)]
pub struct BalancesConfig {
    pub balances: Vec<(AccountId, u128)>,
}

/// The administrator.
#[derive(Clone, Copy, Debug, PartialEq, Eq)]
pub struct SudoConfig {
    pub key: AccountId,
}

/// The identifier of this parachain on its relay chain.
#[derive(Clone, Copy, Debug, PartialEq, Eq)]
pub struct ParachainInfoConfig {
    pub parachain_id: u32,
}

/// The state of one EVM account.
#[derive(Clone, Debug, PartialEq, Eq)]
pub struct EvmAccount {
    pub nonce: u64,
    pub balance: u128,
    pub code: Vec<u8>,
}

/// The EVM account table.
#[derive(Clone, Debug, PartialEq, Eq)]
pub struct EVMConfig {
    pub accounts: BTreeMap<AccountId, EvmAccount>,
}

/// Ethereum block state: nothing to configure at genesis.
#[derive(Clone, Copy, Debug, PartialEq, Eq)]
pub struct EthereumConfig {}

/// The state of the chain at block zero.
#[derive(Clone, Debug, PartialEq, Eq)]
pub struct GenesisConfig {
    pub frame_system: SystemConfig,
    pub pallet_balances: BalancesConfig,
    pub pallet_sudo: SudoConfig,
    pub parachain_info: ParachainInfoConfig,
    pub frame_evm: EVMConfig,
    pub frame_ethereum: EthereumConfig,
}

/// The runtime code was not there when the snapshot was to be assembled.
#[derive(Clone, Copy, Debug, PartialEq, Eq)]
pub struct MissingArtifactError {}

/// What a genesis snapshot holds, as mathematical values.
pub ghost struct GenesisView {
    pub code: Seq<u8>,
    pub balances: Seq<(AccountId, u128)>,
    pub sudo_key: AccountId,
    pub parachain_id: u32,
    pub evm_accounts: Map<AccountId, EvmAccount>,
}

impl View for GenesisConfig {
    type V = GenesisView;

    open spec fn view(&self) -> GenesisView {
        GenesisView {
            code: self.frame_system.code@,
            balances: self.pallet_balances.balances@,
            sudo_key: self.pallet_sudo.key,
            parachain_id: self.parachain_info.parachain_id,
            evm_accounts: self.frame_evm.accounts@,
        }
    }
}

/// One entry per account of the list, each with the fixed endowment, order
/// kept.
pub open spec fn endowments(accounts: Seq<AccountId>) -> Seq<(AccountId, u128)> {
    Seq::new(accounts.len(), |i: int| (accounts[i], ENDOWMENT))
}

/// The accounts of a list, each once, in the order in which they first
/// occur.
pub open spec fn first_occurrences(accounts: Seq<AccountId>) -> Seq<AccountId>
    decreases accounts.len(),
{
    if accounts.len() == 0 {
        Seq::empty()
    } else {
        let earlier = first_occurrences(accounts.drop_last());
        if accounts.drop_last().contains(accounts.last()) {
            earlier
        } else {
            earlier.push(accounts.last())
        }
    }
}

/// The snapshot that `testnet_genesis` assembles from its four inputs. An
/// account that is listed more than once is endowed once.
pub open spec fn spec_testnet_genesis(
    root_key: AccountId,
    endowed_accounts: Seq<AccountId>,
    id: u32,
    code: Seq<u8>,
) -> GenesisView {
    GenesisView {
        code,
        balances: endowments(first_occurrences(endowed_accounts)),
        sudo_key: root_key,
        parachain_id: id,
        evm_accounts: Map::empty(),
    }
}

/// The accounts that have an entry in a list of balances.
pub open spec fn balance_keys(balances: Seq<(AccountId, u128)>) -> Set<AccountId> {
    Set::new(
        |a: AccountId| exists|i: int| 0 <= i < balances.len() && (#[trigger] balances[i]).0 == a,
    )
}

/// No account has two entries.
pub open spec fn keys_unique(balances: Seq<(AccountId, u128)>) -> bool {
    forall|i: int, j: int|
        0 <= i < j < balances.len() ==> (#[trigger] balances[i]).0 != (#[trigger] balances[j]).0
}

/// Whether an account has an entry in a list of balances.
fn has_balance(balances: &Vec<(AccountId, u128)>, account: &AccountId) -> (found: bool)
    ensures
        found == balance_keys(balances@).contains(*account),
{
    let mut i: usize = 0;
    while i < balances.len()
        invariant
            i <= balances.len(),
            forall|j: int| 0 <= j < i ==> (#[trigger] balances@[j]).0 != *account,
        decreases balances.len() - i,
    {
        if balances[i].0.same_as(account) {
            return true;
        }
        i += 1;
    }
    false
}

/// Assembles the genesis snapshot.
///
/// The runtime code goes in as it is. Every endowed account gets
/// `ENDOWMENT`, once, however often it is listed; the balances stand in
/// the order in which the accounts first occur. `root_key` becomes
/// administrator whether or not it is endowed, `id` becomes the parachain
/// identifier, the EVM account table starts empty. Without runtime code
/// there is no snapshot at all.
pub fn testnet_genesis(
    root_key: AccountId,
    endowed_accounts: Vec<AccountId>,
    id: u32,
    runtime_code: Option<&[u8]>,
) -> (built: Result<GenesisConfig, MissingArtifactError>)
    ensures
        runtime_code is None ==> built is Err,
        runtime_code matches Some(code) ==> (built matches Ok(genesis) && genesis@
            == spec_testnet_genesis(root_key, endowed_accounts@, id, code@)),
        built matches Ok(genesis) ==> keys_unique(genesis@.balances),
        built matches Ok(genesis) ==> balance_keys(genesis@.balances)
            == endowed_accounts@.to_set(),
        built matches Ok(genesis) ==> forall|i: int|
            0 <= i < genesis@.balances.len() ==> (#[trigger] genesis@.balances[i]).1 == ENDOWMENT,
{
    let code = match runtime_code {
        Some(code) => slice_to_vec(code),
        None => { return Err(MissingArtifactError {}); },
    };
    let mut balances: Vec<(AccountId, u128)> = Vec::new();
    let mut i: usize = 0;
    while i < endowed_accounts.len()
        invariant
            i <= endowed_accounts.len(),
            balances@ == endowments(first_occurrences(endowed_accounts@.take(i as int))),
        decreases endowed_accounts.len() - i,
    {
        let account = endowed_accounts[i];
        let listed = has_balance(&balances, &account);
        proof {
            let before = endowed_accounts@.take(i as int);
            let after = endowed_accounts@.take(i + 1);
            assert(after.drop_last() =~= before);
            assert(after.last() == account);
            lemma_first_occurrences(before);
            lemma_endowment_keys(first_occurrences(before));
            assert(listed == before.contains(account));
        }
        if !listed {
            balances.push((account, ENDOWMENT));
        }
        assert(balances@ =~= endowments(first_occurrences(endowed_accounts@.take(i + 1))));
        i += 1;
    }
    proof {
        assert(endowed_accounts@.take(i as int) =~= endowed_accounts@);
        lemma_genesis_invariant(root_key, endowed_accounts@, id, code@);
    }
    Ok(
        GenesisConfig {
            frame_system: SystemConfig { code },
            pallet_balances: BalancesConfig { balances },
            pallet_sudo: SudoConfig { key: root_key },
            parachain_info: ParachainInfoConfig { parachain_id: id },
            frame_evm: EVMConfig { accounts: BTreeMap::new() },
            frame_ethereum: EthereumConfig {  },
        },
    )
}

/// The endowment is two to the power of sixty.
pub proof fn lemma_endowment_value()
    ensures
        ENDOWMENT == vstd::arithmetic::power2::pow2(60),
{
    vstd::arithmetic::power2::lemma2_to64_rest();
}

/// Dropping repeats keeps every account, keeps none twice, and leaves a
/// list without repeats as it is.
pub proof fn lemma_first_occurrences(accounts: Seq<AccountId>)
    ensures
        first_occurrences(accounts).no_duplicates(),
        forall|a: AccountId| first_occurrences(accounts).contains(a) <==> accounts.contains(a),
        first_occurrences(accounts).len() <= accounts.len(),
        accounts.no_duplicates() ==> first_occurrences(accounts) == accounts,
    decreases accounts.len(),
{
    if accounts.len() > 0 {
        let front = accounts.drop_last();
        let last = accounts.last();
        let earlier = first_occurrences(front);
        lemma_first_occurrences(front);
        assert(front.push(last) =~= accounts);
        assert forall|a: AccountId| first_occurrences(accounts).contains(a) <==> accounts.contains(
            a,
        ) by {
            if accounts.contains(a) {
                let k = choose|k: int| 0 <= k < accounts.len() && accounts[k] == a;
                if k < front.len() {
                    assert(front[k] == a);
                    assert(front.contains(a));
                } else {
                    assert(a == last);
                }
                if a != last {
                    assert(front.contains(a));
                    assert(first_occurrences(front).contains(a));
                }
                if front.contains(last) {
                    assert(first_occurrences(front).contains(a));
                } else if a == last {
                    assert(earlier.push(last)[earlier.len() as int] == a);
                } else {
                    let m = choose|m: int| 0 <= m < earlier.len() && earlier[m] == a;
                    assert(earlier.push(last)[m] == a);
                }
            }
            if first_occurrences(accounts).contains(a) {
                let m = choose|m: int|
                    0 <= m < first_occurrences(accounts).len() && first_occurrences(accounts)[m]
                        == a;
                if front.contains(last) || m < earlier.len() {
                    assert(earlier[m] == a);
                    assert(first_occurrences(front).contains(a));
                    assert(front.contains(a));
                    let k = choose|k: int| 0 <= k < front.len() && front[k] == a;
                    assert(accounts[k] == a);
                } else {
                    assert(a == last);
                    assert(accounts[accounts.len() - 1] == a);
                }
            }
        }
        if !front.contains(last) {
            let longer = earlier.push(last);
            assert forall|x: int, y: int|
                0 <= x < longer.len() && 0 <= y < longer.len() && x != y implies longer[x]
                != longer[y] by {
                if x == earlier.len() {
                    assert(earlier.contains(earlier[y]));
                } else if y == earlier.len() {
                    assert(earlier.contains(earlier[x]));
                }
            }
        }
        if accounts.no_duplicates() {
            assert forall|x: int, y: int|
                0 <= x < front.len() && 0 <= y < front.len() && x != y implies front[x]
                != front[y] by {
                assert(accounts[x] != accounts[y]);
            }
            if front.contains(last) {
                let k = choose|k: int| 0 <= k < front.len() && front[k] == last;
                assert(accounts[k] == accounts[accounts.len() - 1]);
            }
            assert(first_occurrences(accounts) =~= accounts);
        }
    }
}

/// The accounts with an entry among the endowments of a list are the
/// accounts of the list.
pub proof fn lemma_endowment_keys(accounts: Seq<AccountId>)
    ensures
        forall|a: AccountId|
            balance_keys(endowments(accounts)).contains(a) <==> accounts.contains(a),
{
    let balances = endowments(accounts);
    assert forall|a: AccountId| balance_keys(balances).contains(a) <==> accounts.contains(a) by {
        if balance_keys(balances).contains(a) {
            let i = choose|i: int| 0 <= i < balances.len() && (#[trigger] balances[i]).0 == a;
            assert(accounts[i] == a);
        }
        if accounts.contains(a) {
            let i = choose|i: int| 0 <= i < accounts.len() && accounts[i] == a;
            assert(balances[i].0 == a);
        }
    }
}

/// Of every assembled snapshot: no account has two balances, the accounts
/// with a balance are exactly the endowed accounts, each balance is the
/// endowment, the administrator is the root key, the parachain identifier
/// is the one given, and no EVM account exists.
pub proof fn lemma_genesis_invariant(
    root_key: AccountId,
    endowed_accounts: Seq<AccountId>,
    id: u32,
    code: Seq<u8>,
)
    ensures
        ({
            let g = spec_testnet_genesis(root_key, endowed_accounts, id, code);
            &&& g.code == code
            &&& g.balances.len() <= endowed_accounts.len()
            &&& keys_unique(g.balances)
            &&& balance_keys(g.balances) == endowed_accounts.to_set()
            &&& forall|i: int|
                0 <= i < g.balances.len() ==> (#[trigger] g.balances[i]).1 == ENDOWMENT
            &&& g.sudo_key == root_key
            &&& g.parachain_id == id
            &&& g.evm_accounts.dom() == Set::<AccountId>::empty()
        }),
{
    let g = spec_testnet_genesis(root_key, endowed_accounts, id, code);
    let kept = first_occurrences(endowed_accounts);
    lemma_first_occurrences(endowed_accounts);
    lemma_endowment_keys(kept);
    assert forall|i: int, j: int| 0 <= i < j < g.balances.len() implies (#[trigger] g.balances[i]).0
        != (#[trigger] g.balances[j]).0 by {
        assert(kept[i] != kept[j]);
    }
    assert(balance_keys(g.balances) =~= endowed_accounts.to_set());
}

/// Where no endowed account is listed twice, the balances are one per
/// listed account, in the order given.
pub proof fn lemma_distinct_accounts_kept(
    root_key: AccountId,
    endowed_accounts: Seq<AccountId>,
    id: u32,
    code: Seq<u8>,
)
    requires
        endowed_accounts.no_duplicates(),
    ensures
        spec_testnet_genesis(root_key, endowed_accounts, id, code).balances == endowments(
            endowed_accounts,
        ),
{
    lemma_first_occurrences(endowed_accounts);
}

/// Listing an account again changes nothing: the snapshot is that of the
/// list without its repeats.
pub proof fn lemma_repeats_change_nothing(
    root_key: AccountId,
    endowed_accounts: Seq<AccountId>,
    id: u32,
    code: Seq<u8>,
)
    ensures
        spec_testnet_genesis(root_key, first_occurrences(endowed_accounts), id, code)
            == spec_testnet_genesis(root_key, endowed_accounts, id, code),
{
    lemma_first_occurrences(endowed_accounts);
    lemma_first_occurrences(first_occurrences(endowed_accounts));
}

} // verus!
