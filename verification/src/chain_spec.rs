//! The chain specification: a network's identity, the recipe of its genesis
//! state, and the metadata attached to it.

use crate::account::AccountId;
use crate::extensions::{payload_view, Extensions, ExtensionsView, Field, FieldView};
use crate::genesis::{
    spec_testnet_genesis, testnet_genesis, GenesisConfig, GenesisView, MissingArtifactError,
};
use vstd::prelude::*;

verus! {

/// What kind of network a specification describes.
#[derive(Clone, Copy, Debug, PartialEq, Eq)]
pub enum ChainType {
    /// A single node, for development.
    Development,
    /// A local network under one operator.
    Local,
    /// A network that is live.
    Live,
}

/// The deferred genesis builder: what the snapshot is assembled from once
/// the runtime code is at hand.
#[derive(Clone, Debug, PartialEq, Eq)]
pub struct GenesisRecipe {
    pub root_key: AccountId,
    pub endowed_accounts: Vec<AccountId>,
    pub para_id: u32,
}

/// What a recipe holds.
pub ghost struct GenesisRecipeView {
    pub root_key: AccountId,
    pub endowed_accounts: Seq<AccountId>,
    pub para_id: u32,
}

impl View for GenesisRecipe {
    type V = GenesisRecipeView;

    open spec fn view(&self) -> GenesisRecipeView {
        GenesisRecipeView {
            root_key: self.root_key,
            endowed_accounts: self.endowed_accounts@,
            para_id: self.para_id,
        }
    }
}

/// The metadata attached to a chain specification, by kind.
#[derive(Clone, Debug, PartialEq, Eq)]
pub enum ExtensionBag {
    /// Nothing is attached.
    Empty,
    /// The relay-chain linkage of a parachain.
    Parachain(Extensions),
    /// Fields of some other schema, kept as they came.
    Unrecognized(Vec<Field>),
}

/// What a bag holds.
pub ghost enum ExtensionBagView {
    Empty,
    Parachain(ExtensionsView),
    Unrecognized(Seq<FieldView>),
}

impl View for ExtensionBag {
    type V = ExtensionBagView;

    open spec fn view(&self) -> ExtensionBagView {
        match self {
            ExtensionBag::Empty => ExtensionBagView::Empty,
            ExtensionBag::Parachain(extensions) => ExtensionBagView::Parachain(extensions@),
            ExtensionBag::Unrecognized(fields) => ExtensionBagView::Unrecognized(
                payload_view(fields@),
            ),
        }
    }
}

/// A list of strings, each by its characters.
pub open spec fn texts_view(texts: Seq<String>) -> Seq<Seq<char>> {
    Seq::new(texts.len(), |i: int| texts[i]@)
}

/// A list of telemetry endpoints, each address by its characters.
pub open spec fn endpoints_view(endpoints: Seq<(String, u8)>) -> Seq<(Seq<char>, u8)> {
    Seq::new(endpoints.len(), |i: int| (endpoints[i].0@, endpoints[i].1))
}

/// A complete chain specification. Nothing in it changes once it is made.
#[derive(Clone, Debug, PartialEq, Eq)]
pub struct ChainSpec {
    name: String,
    id: String,
    chain_type: ChainType,
    genesis: GenesisRecipe,
    boot_nodes: Vec<String>,
    telemetry_endpoints: Option<Vec<(String, u8)>>,
    protocol_id: Option<String>,
    properties: Option<Vec<Field>>,
    extensions: ExtensionBag,
}

/// What a chain specification holds.
pub ghost struct ChainSpecView {
    pub name: Seq<char>,
    pub id: Seq<char>,
    pub chain_type: ChainType,
    pub genesis: GenesisRecipeView,
    pub boot_nodes: Seq<Seq<char>>,
    pub telemetry_endpoints: Option<Seq<(Seq<char>, u8)>>,
    pub protocol_id: Option<Seq<char>>,
    pub properties: Option<Seq<FieldView>>,
    pub extensions: ExtensionBagView,
}

impl View for ChainSpec {
    type V = ChainSpecView;

    closed spec fn view(&self) -> ChainSpecView {
        ChainSpecView {
            name: self.name@,
            id: self.id@,
            chain_type: self.chain_type,
            genesis: self.genesis@,
            boot_nodes: texts_view(self.boot_nodes@),
            telemetry_endpoints: match self.telemetry_endpoints {
                Some(endpoints) => Some(endpoints_view(endpoints@)),
                None => None,
            },
            protocol_id: match self.protocol_id {
                Some(protocol_id) => Some(protocol_id@),
                None => None,
            },
            properties: match self.properties {
                Some(fields) => Some(payload_view(fields@)),
                None => None,
            },
            extensions: self.extensions@,
        }
    }
}

/// The snapshot that a recipe yields with the given runtime code.
pub open spec fn spec_build_genesis(recipe: GenesisRecipeView, code: Seq<u8>) -> GenesisView {
    spec_testnet_genesis(recipe.root_key, recipe.endowed_accounts, recipe.para_id, code)
}

/// The parachain id that the metadata names is the one that the genesis
/// state will carry.
pub open spec fn para_id_linked(spec: ChainSpecView) -> bool {
    spec.extensions matches ExtensionBagView::Parachain(extensions) ==> extensions.para_id
        == spec.genesis.para_id
}

impl ChainSpec {
    /// Makes a chain specification from its parts. The genesis state is not
    /// assembled here, only its recipe is kept.
    pub fn from_genesis(
        name: &str,
        id: &str,
        chain_type: ChainType,
        genesis: GenesisRecipe,
        boot_nodes: Vec<String>,
        telemetry_endpoints: Option<Vec<(String, u8)>>,
        protocol_id: Option<String>,
        properties: Option<Vec<Field>>,
        extensions: ExtensionBag,
    ) -> (spec: ChainSpec)
        ensures
            spec@ == (ChainSpecView {
                name: name@,
                id: id@,
                chain_type,
                genesis: genesis@,
                boot_nodes: texts_view(boot_nodes@),
                telemetry_endpoints: match telemetry_endpoints {
                    Some(endpoints) => Some(endpoints_view(endpoints@)),
                    None => None,
                },
                protocol_id: match protocol_id {
                    Some(protocol_id) => Some(protocol_id@),
                    None => None,
                },
                properties: match properties {
                    Some(fields) => Some(payload_view(fields@)),
                    None => None,
                },
                extensions: extensions@,
            }),
    {
        ChainSpec {
            name: name.to_owned(),
            id: id.to_owned(),
            chain_type,
            genesis,
            boot_nodes,
            telemetry_endpoints,
            protocol_id,
            properties,
            extensions,
        }
    }

    /// The name of the network, for people.
    pub fn name(&self) -> (name: &str)
        ensures
            name@ == self@.name,
    {
        self.name.as_str()
    }

    /// The short identifier of the network.
    pub fn id(&self) -> (id: &str)
        ensures
            id@ == self@.id,
    {
        self.id.as_str()
    }

    /// The kind of network.
    pub fn chain_type(&self) -> (chain_type: ChainType)
        ensures
            chain_type == self@.chain_type,
    {
        self.chain_type
    }

    /// The recipe of the genesis state.
    pub fn genesis(&self) -> (recipe: &GenesisRecipe)
        ensures
            recipe@ == self@.genesis,
    {
        &self.genesis
    }

    /// The nodes to contact first.
    pub fn boot_nodes(&self) -> (nodes: &Vec<String>)
        ensures
            texts_view(nodes@) == self@.boot_nodes,
    {
        &self.boot_nodes
    }

    /// Where telemetry goes, each endpoint with its verbosity.
    pub fn telemetry_endpoints(&self) -> (endpoints: &Option<Vec<(String, u8)>>)
        ensures
            endpoints matches Some(list) ==> self@.telemetry_endpoints == Some(
                endpoints_view(list@),
            ),
            endpoints is None ==> self@.telemetry_endpoints is None,
    {
        &self.telemetry_endpoints
    }

    /// The network protocol identifier.
    pub fn protocol_id(&self) -> (protocol_id: &Option<String>)
        ensures
            protocol_id matches Some(text) ==> self@.protocol_id == Some(text@),
            protocol_id is None ==> self@.protocol_id is None,
    {
        &self.protocol_id
    }

    /// Free-form properties of the chain.
    pub fn properties(&self) -> (properties: &Option<Vec<Field>>)
        ensures
            properties matches Some(fields) ==> self@.properties == Some(payload_view(fields@)),
            properties is None ==> self@.properties is None,
    {
        &self.properties
    }

    /// The attached metadata, whatever its kind.
    pub fn extensions(&self) -> (bag: &ExtensionBag)
        ensures
            bag@ == self@.extensions,
    {
        &self.extensions
    }

    /// Assembles the genesis state from the recipe, now that the runtime
    /// code is asked for. Without the code there is no state at all.
    pub fn build_genesis(&self, runtime_code: Option<&[u8]>) -> (built: Result<
        GenesisConfig,
        MissingArtifactError,
    >)
        ensures
            runtime_code is None ==> built is Err,
            runtime_code matches Some(code) ==> (built matches Ok(genesis) && genesis@
                == spec_build_genesis(self@.genesis, code@)),
    {
        let mut endowed: Vec<AccountId> = Vec::new();
        let mut i: usize = 0;
        while i < self.genesis.endowed_accounts.len()
            invariant
                i <= self.genesis.endowed_accounts.len(),
                endowed@ == self.genesis.endowed_accounts@.subrange(0, i as int),
            decreases self.genesis.endowed_accounts.len() - i,
        {
            endowed.push(self.genesis.endowed_accounts[i]);
            assert(endowed@ =~= self.genesis.endowed_accounts@.subrange(0, i + 1));
            i += 1;
        }
        assert(endowed@ =~= self.genesis.endowed_accounts@);
        testnet_genesis(self.genesis.root_key, endowed, self.genesis.para_id, runtime_code)
    }
}

impl Extensions {
    /// Try to get the extension from the given chain specification: the
    /// parachain's linkage where that is what is attached, nothing where
    /// something else or nothing is.
    pub fn try_get(chain_spec: &ChainSpec) -> (found: Option<&Extensions>)
        ensures
            match chain_spec@.extensions {
                ExtensionBagView::Parachain(extensions) => found matches Some(held) && held@
                    == extensions,
                _ => found is None,
            },
    {
        match &chain_spec.extensions {
            ExtensionBag::Parachain(extensions) => Some(extensions),
            _ => None,
        }
    }
}

} // verus!
