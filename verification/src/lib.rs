//! Genesis chain specification of a parachain: seed-derived identities,
//! relay-chain extension metadata, the genesis snapshot and its presets.

pub mod account;
pub mod chain_spec;
pub mod extensions;
pub mod genesis;
pub mod keys;
pub mod presets;

pub use account::AccountId;
pub use chain_spec::{ChainSpec, ChainType, ExtensionBag, GenesisRecipe};
pub use extensions::{ExtensionSchemaError, Extensions, Field, FieldValue};
pub use genesis::{
    testnet_genesis, BalancesConfig, EVMConfig, EthereumConfig, EvmAccount, GenesisConfig,
    MissingArtifactError, ParachainInfoConfig, SudoConfig, SystemConfig, ENDOWMENT,
};
pub use keys::{get_account_id_from_seed, get_from_seed, seed_to_path, DerivationError, PublicKey};
pub use presets::{founder, get_chain_spec, staging_test_net};
