//! The two named network presets.

use crate::account::{
    lemma_account_id_injective, lemma_plain_hex_payload, spec_parse_address, AccountId,
};
use crate::chain_spec::{
    para_id_linked, spec_build_genesis, texts_view, ChainSpec, ChainSpecView, ChainType,
    ExtensionBag, ExtensionBagView, GenesisRecipe, GenesisRecipeView,
};
use crate::extensions::{Extensions, ExtensionsView};
use crate::genesis::{first_occurrences, lemma_first_occurrences, ENDOWMENT};
use vstd::prelude::*;

verus! {

/// The well-known development account.
pub open spec fn founder_id() -> AccountId {
    AccountId(
        [
            0x6Bu8, 0xe0u8, 0x2du8, 0x1du8, 0x36u8, 0x65u8, 0x66u8, 0x0du8, 0x22u8, 0xFFu8,
            0x96u8, 0x24u8, 0xb7u8, 0xBEu8, 0x05u8, 0x51u8, 0xeeu8, 0x1Au8, 0xc9u8, 0x1bu8,
        ],
    )
}

/// The well-known development account, which both presets endow and make
/// administrator. It is read from its hex form.
pub fn founder() -> (id: AccountId)
    ensures
        id == founder_id(),
{
    proof {
        lemma_founder_bytes();
    }
    let id = AccountId::from_hex("6Be02d1d3665660d22FF9624b7BE0551ee1Ac91b").unwrap();
    proof {
        lemma_account_id_injective(id, founder_id());
    }
    id
}

/// A preset: the development account as only endowed account and as
/// administrator, no boot nodes, no telemetry, no protocol id, no
/// properties, and one parachain id in both the recipe and the metadata.
pub open spec fn spec_preset(
    name: Seq<char>,
    id: Seq<char>,
    chain_type: ChainType,
    relay_chain: Seq<char>,
    para_id: u32,
) -> ChainSpecView {
    ChainSpecView {
        name,
        id,
        chain_type,
        genesis: GenesisRecipeView {
            root_key: founder_id(),
            endowed_accounts: seq![founder_id()],
            para_id,
        },
        boot_nodes: Seq::empty(),
        telemetry_endpoints: None,
        protocol_id: None,
        properties: None,
        extensions: ExtensionBagView::Parachain(ExtensionsView { relay_chain, para_id }),
    }
}

/// The local testnet for parachain `para_id`.
pub open spec fn spec_local_testnet(para_id: u32) -> ChainSpecView {
    spec_preset(
        "Moonbase Parachain Local Testnet"@,
        "local_testnet"@,
        ChainType::Local,
        "local_testnet"@,
        para_id,
    )
}

/// The staging testnet for parachain `para_id`.
pub open spec fn spec_staging_testnet(para_id: u32) -> ChainSpecView {
    spec_preset(
        "Moonbase Parachain Testnet"@,
        "staging_testnet"@,
        ChainType::Live,
        "rococo_local_testnet"@,
        para_id,
    )
}

/// Builds a preset from what sets it apart.
fn preset(name: &str, id: &str, chain_type: ChainType, relay_chain: &str, para_id: u32) -> (spec:
    ChainSpec)
    ensures
        spec@ == spec_preset(name@, id@, chain_type, relay_chain@, para_id),
{
    let mut endowed_accounts: Vec<AccountId> = Vec::new();
    endowed_accounts.push(founder());
    assert(endowed_accounts@ =~= seq![founder_id()]);
    let genesis = GenesisRecipe { root_key: founder(), endowed_accounts, para_id };
    let boot_nodes: Vec<String> = Vec::new();
    assert(texts_view(boot_nodes@) =~= Seq::<Seq<char>>::empty());
    ChainSpec::from_genesis(
        name,
        id,
        chain_type,
        genesis,
        boot_nodes,
        None,
        None,
        None,
        ExtensionBag::Parachain(Extensions { relay_chain: relay_chain.to_owned(), para_id }),
    )
}

/// The specification of the local testnet.
pub fn get_chain_spec(id: u32) -> (spec: ChainSpec)
    ensures
        spec@ == spec_local_testnet(id),
{
    preset(
        "Moonbase Parachain Local Testnet",
        "local_testnet",
        ChainType::Local,
        "local_testnet",
        id,
    )
}

/// The specification of the staging testnet. It has the accounts of the
/// local testnet.
pub fn staging_test_net(id: u32) -> (spec: ChainSpec)
    ensures
        spec@ == spec_staging_testnet(id),
{
    preset(
        "Moonbase Parachain Testnet",
        "staging_testnet",
        ChainType::Live,
        "rococo_local_testnet",
        id,
    )
}

/// The bytes of the development account are those of its hex form,
/// `6Be02d1d3665660d22FF9624b7BE0551ee1Ac91b`.
pub proof fn lemma_founder_bytes()
    ensures
        spec_parse_address("6Be02d1d3665660d22FF9624b7BE0551ee1Ac91b"@) == Some(founder_id()@),
{
    let text = "6Be02d1d3665660d22FF9624b7BE0551ee1Ac91b"@;
    reveal_strlit("6Be02d1d3665660d22FF9624b7BE0551ee1Ac91b");
    lemma_plain_hex_payload(text);
    assert(spec_parse_address(text) is Some);
    assert(spec_parse_address(text).unwrap() =~= founder_id()@);
}

/// Both presets carry the parachain id twice, and it is the one given:
/// in the metadata and in the genesis state that they build.
pub proof fn lemma_presets_link_para_id(para_id: u32, code: Seq<u8>)
    ensures
        para_id_linked(spec_local_testnet(para_id)),
        para_id_linked(spec_staging_testnet(para_id)),
        spec_local_testnet(para_id).extensions == ExtensionBagView::Parachain(
            ExtensionsView { relay_chain: "local_testnet"@, para_id },
        ),
        spec_staging_testnet(para_id).extensions == ExtensionBagView::Parachain(
            ExtensionsView { relay_chain: "rococo_local_testnet"@, para_id },
        ),
        spec_build_genesis(spec_local_testnet(para_id).genesis, code).parachain_id == para_id,
        spec_build_genesis(spec_staging_testnet(para_id).genesis, code).parachain_id == para_id,
{
}

/// Both presets endow the development account and no other, with the
/// fixed endowment, and make it administrator.
pub proof fn lemma_presets_endow_founder(para_id: u32, code: Seq<u8>)
    ensures
        spec_build_genesis(spec_local_testnet(para_id).genesis, code).balances == seq![
            (founder_id(), ENDOWMENT),
        ],
        spec_build_genesis(spec_local_testnet(para_id).genesis, code).sudo_key == founder_id(),
        spec_build_genesis(spec_staging_testnet(para_id).genesis, code).balances == seq![
            (founder_id(), ENDOWMENT),
        ],
        spec_build_genesis(spec_staging_testnet(para_id).genesis, code).sudo_key == founder_id(),
{
    let listed = seq![founder_id()];
    lemma_first_occurrences(listed);
    assert(first_occurrences(listed) == listed);
    let local = spec_build_genesis(spec_local_testnet(para_id).genesis, code);
    assert(local.balances =~= seq![(founder_id(), ENDOWMENT)]);
    let staging = spec_build_genesis(spec_staging_testnet(para_id).genesis, code);
    assert(staging.balances =~= seq![(founder_id(), ENDOWMENT)]);
}

/// The two presets of one parachain are two specifications with one
/// genesis: the recipe is the same, and so is the state built from the
/// same runtime code. A preset tells parachains apart: two ids give two
/// specifications.
pub proof fn lemma_presets_share_genesis(para_id: u32, other_id: u32, code: Seq<u8>)
    ensures
        spec_local_testnet(para_id) != spec_staging_testnet(para_id),
        spec_local_testnet(para_id).genesis == spec_staging_testnet(para_id).genesis,
        spec_build_genesis(spec_local_testnet(para_id).genesis, code) == spec_build_genesis(
            spec_staging_testnet(para_id).genesis,
            code,
        ),
        spec_local_testnet(para_id) == spec_local_testnet(other_id) ==> para_id == other_id,
        spec_staging_testnet(para_id) == spec_staging_testnet(other_id) ==> para_id == other_id,
{
    assert(spec_local_testnet(para_id).chain_type != spec_staging_testnet(para_id).chain_type);
    assert(spec_local_testnet(para_id).genesis.para_id == para_id);
    assert(spec_staging_testnet(para_id).genesis.para_id == para_id);
}

} // verus!
