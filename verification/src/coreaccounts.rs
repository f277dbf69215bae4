//! Call-parameter accessor objects for the core accounts contract: one
//! pair of views (immutable, mutable) per entry point, each wrapping a
//! proxy that locates the parameters and deriving one typed field
//! wrapper per declared parameter.

use vstd::prelude::*;

use crate::proxy::child_key;
use crate::proxy::Proxy;
use crate::scagentid::ScImmutableAgentID;
use crate::scagentid::ScMutableAgentID;
use crate::scbigint::ScImmutableBigInt;
use crate::scbigint::ScMutableBigInt;
use crate::scbool::ScImmutableBool;
use crate::scbool::ScMutableBool;
use crate::scbytes::ScImmutableBytes;
use crate::scbytes::ScMutableBytes;
use crate::scnftid::ScImmutableNftID;
use crate::scnftid::ScMutableNftID;
use crate::scuint32::ScImmutableUint32;
use crate::scuint32::ScMutableUint32;
use crate::scuint64::ScImmutableUint64;
use crate::scuint64::ScMutableUint64;

verus! {

pub const PARAM_AGENT_ID: &'static str = "agentID";

pub const PARAM_DESTROY_TOKENS: &'static str = "destroyTokens";

pub const PARAM_FORCE_MINIMUM_BASE_TOKENS: &'static str = "forceMinimumBaseTokens";

pub const PARAM_FORCE_OPEN_ACCOUNT: &'static str = "forceOpenAccount";

pub const PARAM_FOUNDRY_SN: &'static str = "foundrySN";

pub const PARAM_NFT_ID: &'static str = "nftID";

pub const PARAM_SUPPLY_DELTA_ABS: &'static str = "supplyDeltaAbs";

pub const PARAM_TOKEN_SCHEME: &'static str = "tokenScheme";

/// Immutable view of the parameters of the foundry create-new entry point. The view is
/// the key the wrapped proxy addresses.
#[derive(Clone)]
pub struct ImmutableFoundryCreateNewParams {
    pub(crate) proxy: Proxy,
}

impl View for ImmutableFoundryCreateNewParams {
    type V = Seq<char>;

    closed spec fn view(&self) -> Seq<char> {
        self.proxy@
    }
}

impl ImmutableFoundryCreateNewParams {
    /// Wraps a proxy locating the parameters; the store is not touched.
    pub fn new(proxy: Proxy) -> (r: ImmutableFoundryCreateNewParams)
        ensures
            r@ == proxy@,
    {
        ImmutableFoundryCreateNewParams { proxy }
    }

    pub fn token_scheme(&self) -> (r: ScImmutableBytes)
        ensures
            r@ == child_key(self@, PARAM_TOKEN_SCHEME@),
    {
        ScImmutableBytes::new(self.proxy.root(PARAM_TOKEN_SCHEME))
    }
}

/// Mutable view of the parameters of the foundry create-new entry point. The view is
/// the key the wrapped proxy addresses.
#[derive(Clone)]
pub struct MutableFoundryCreateNewParams {
    pub(crate) proxy: Proxy,
}

impl View for MutableFoundryCreateNewParams {
    type V = Seq<char>;

    closed spec fn view(&self) -> Seq<char> {
        self.proxy@
    }
}

impl MutableFoundryCreateNewParams {
    /// Wraps a proxy locating the parameters; the store is not touched.
    pub fn new(proxy: Proxy) -> (r: MutableFoundryCreateNewParams)
        ensures
            r@ == proxy@,
    {
        MutableFoundryCreateNewParams { proxy }
    }

    pub fn token_scheme(&self) -> (r: ScMutableBytes)
        ensures
            r@ == child_key(self@, PARAM_TOKEN_SCHEME@),
    {
        ScMutableBytes::new(self.proxy.root(PARAM_TOKEN_SCHEME))
    }
}

/// Immutable view of the parameters of the foundry destroy entry point. The view is
/// the key the wrapped proxy addresses.
#[derive(Clone)]
pub struct ImmutableFoundryDestroyParams {
    pub(crate) proxy: Proxy,
}

impl View for ImmutableFoundryDestroyParams {
    type V = Seq<char>;

    closed spec fn view(&self) -> Seq<char> {
        self.proxy@
    }
}

impl ImmutableFoundryDestroyParams {
    /// Wraps a proxy locating the parameters; the store is not touched.
    pub fn new(proxy: Proxy) -> (r: ImmutableFoundryDestroyParams)
        ensures
            r@ == proxy@,
    {
        ImmutableFoundryDestroyParams { proxy }
    }

    pub fn foundry_sn(&self) -> (r: ScImmutableUint32)
        ensures
            r@ == child_key(self@, PARAM_FOUNDRY_SN@),
    {
        ScImmutableUint32::new(self.proxy.root(PARAM_FOUNDRY_SN))
    }
}

/// Mutable view of the parameters of the foundry destroy entry point. The view is
/// the key the wrapped proxy addresses.
#[derive(Clone)]
pub struct MutableFoundryDestroyParams {
    pub(crate) proxy: Proxy,
}

impl View for MutableFoundryDestroyParams {
    type V = Seq<char>;

    closed spec fn view(&self) -> Seq<char> {
        self.proxy@
    }
}

impl MutableFoundryDestroyParams {
    /// Wraps a proxy locating the parameters; the store is not touched.
    pub fn new(proxy: Proxy) -> (r: MutableFoundryDestroyParams)
        ensures
            r@ == proxy@,
    {
        MutableFoundryDestroyParams { proxy }
    }

    pub fn foundry_sn(&self) -> (r: ScMutableUint32)
        ensures
            r@ == child_key(self@, PARAM_FOUNDRY_SN@),
    {
        ScMutableUint32::new(self.proxy.root(PARAM_FOUNDRY_SN))
    }
}

/// Immutable view of the parameters of the foundry modify-supply entry point. The view is
/// the key the wrapped proxy addresses.
#[derive(Clone)]
pub struct ImmutableFoundryModifySupplyParams {
    pub(crate) proxy: Proxy,
}

impl View for ImmutableFoundryModifySupplyParams {
    type V = Seq<char>;

    closed spec fn view(&self) -> Seq<char> {
        self.proxy@
    }
}

impl ImmutableFoundryModifySupplyParams {
    /// Wraps a proxy locating the parameters; the store is not touched.
    pub fn new(proxy: Proxy) -> (r: ImmutableFoundryModifySupplyParams)
        ensures
            r@ == proxy@,
    {
        ImmutableFoundryModifySupplyParams { proxy }
    }

    pub fn destroy_tokens(&self) -> (r: ScImmutableBool)
        ensures
            r@ == child_key(self@, PARAM_DESTROY_TOKENS@),
    {
        ScImmutableBool::new(self.proxy.root(PARAM_DESTROY_TOKENS))
    }

    pub fn foundry_sn(&self) -> (r: ScImmutableUint32)
        ensures
            r@ == child_key(self@, PARAM_FOUNDRY_SN@),
    {
        ScImmutableUint32::new(self.proxy.root(PARAM_FOUNDRY_SN))
    }

    pub fn supply_delta_abs(&self) -> (r: ScImmutableBigInt)
        ensures
            r@ == child_key(self@, PARAM_SUPPLY_DELTA_ABS@),
    {
        ScImmutableBigInt::new(self.proxy.root(PARAM_SUPPLY_DELTA_ABS))
    }
}

/// Mutable view of the parameters of the foundry modify-supply entry point. The view is
/// the key the wrapped proxy addresses.
#[derive(Clone)]
pub struct MutableFoundryModifySupplyParams {
    pub(crate) proxy: Proxy,
}

impl View for MutableFoundryModifySupplyParams {
    type V = Seq<char>;

    closed spec fn view(&self) -> Seq<char> {
        self.proxy@
    }
}

impl MutableFoundryModifySupplyParams {
    /// Wraps a proxy locating the parameters; the store is not touched.
    pub fn new(proxy: Proxy) -> (r: MutableFoundryModifySupplyParams)
        ensures
            r@ == proxy@,
    {
        MutableFoundryModifySupplyParams { proxy }
    }

    pub fn destroy_tokens(&self) -> (r: ScMutableBool)
        ensures
            r@ == child_key(self@, PARAM_DESTROY_TOKENS@),
    {
        ScMutableBool::new(self.proxy.root(PARAM_DESTROY_TOKENS))
    }

    pub fn foundry_sn(&self) -> (r: ScMutableUint32)
        ensures
            r@ == child_key(self@, PARAM_FOUNDRY_SN@),
    {
        ScMutableUint32::new(self.proxy.root(PARAM_FOUNDRY_SN))
    }

    pub fn supply_delta_abs(&self) -> (r: ScMutableBigInt)
        ensures
            r@ == child_key(self@, PARAM_SUPPLY_DELTA_ABS@),
    {
        ScMutableBigInt::new(self.proxy.root(PARAM_SUPPLY_DELTA_ABS))
    }
}

/// Immutable view of the parameters of the harvest entry point. The view is
/// the key the wrapped proxy addresses.
#[derive(Clone)]
pub struct ImmutableHarvestParams {
    pub(crate) proxy: Proxy,
}

impl View for ImmutableHarvestParams {
    type V = Seq<char>;

    closed spec fn view(&self) -> Seq<char> {
        self.proxy@
    }
}

impl ImmutableHarvestParams {
    /// Wraps a proxy locating the parameters; the store is not touched.
    pub fn new(proxy: Proxy) -> (r: ImmutableHarvestParams)
        ensures
            r@ == proxy@,
    {
        ImmutableHarvestParams { proxy }
    }

    pub fn force_minimum_base_tokens(&self) -> (r: ScImmutableUint64)
        ensures
            r@ == child_key(self@, PARAM_FORCE_MINIMUM_BASE_TOKENS@),
    {
        ScImmutableUint64::new(self.proxy.root(PARAM_FORCE_MINIMUM_BASE_TOKENS))
    }
}

/// Mutable view of the parameters of the harvest entry point. The view is
/// the key the wrapped proxy addresses.
#[derive(Clone)]
pub struct MutableHarvestParams {
    pub(crate) proxy: Proxy,
}

impl View for MutableHarvestParams {
    type V = Seq<char>;

    closed spec fn view(&self) -> Seq<char> {
        self.proxy@
    }
}

impl MutableHarvestParams {
    /// Wraps a proxy locating the parameters; the store is not touched.
    pub fn new(proxy: Proxy) -> (r: MutableHarvestParams)
        ensures
            r@ == proxy@,
    {
        MutableHarvestParams { proxy }
    }

    pub fn force_minimum_base_tokens(&self) -> (r: ScMutableUint64)
        ensures
            r@ == child_key(self@, PARAM_FORCE_MINIMUM_BASE_TOKENS@),
    {
        ScMutableUint64::new(self.proxy.root(PARAM_FORCE_MINIMUM_BASE_TOKENS))
    }
}

/// Immutable view of the parameters of the transfer-allowance-to entry point. The view is
/// the key the wrapped proxy addresses.
#[derive(Clone)]
pub struct ImmutableTransferAllowanceToParams {
    pub(crate) proxy: Proxy,
}

impl View for ImmutableTransferAllowanceToParams {
    type V = Seq<char>;

    closed spec fn view(&self) -> Seq<char> {
        self.proxy@
    }
}

impl ImmutableTransferAllowanceToParams {
    /// Wraps a proxy locating the parameters; the store is not touched.
    pub fn new(proxy: Proxy) -> (r: ImmutableTransferAllowanceToParams)
        ensures
            r@ == proxy@,
    {
        ImmutableTransferAllowanceToParams { proxy }
    }

    pub fn agent_id(&self) -> (r: ScImmutableAgentID)
        ensures
            r@ == child_key(self@, PARAM_AGENT_ID@),
    {
        ScImmutableAgentID::new(self.proxy.root(PARAM_AGENT_ID))
    }

    pub fn force_open_account(&self) -> (r: ScImmutableBool)
        ensures
            r@ == child_key(self@, PARAM_FORCE_OPEN_ACCOUNT@),
    {
        ScImmutableBool::new(self.proxy.root(PARAM_FORCE_OPEN_ACCOUNT))
    }
}

/// Mutable view of the parameters of the transfer-allowance-to entry point. The view is
/// the key the wrapped proxy addresses.
#[derive(Clone)]
pub struct MutableTransferAllowanceToParams {
    pub(crate) proxy: Proxy,
}

impl View for MutableTransferAllowanceToParams {
    type V = Seq<char>;

    closed spec fn view(&self) -> Seq<char> {
        self.proxy@
    }
}

impl MutableTransferAllowanceToParams {
    /// Wraps a proxy locating the parameters; the store is not touched.
    pub fn new(proxy: Proxy) -> (r: MutableTransferAllowanceToParams)
        ensures
            r@ == proxy@,
    {
        MutableTransferAllowanceToParams { proxy }
    }

    pub fn agent_id(&self) -> (r: ScMutableAgentID)
        ensures
            r@ == child_key(self@, PARAM_AGENT_ID@),
    {
        ScMutableAgentID::new(self.proxy.root(PARAM_AGENT_ID))
    }

    pub fn force_open_account(&self) -> (r: ScMutableBool)
        ensures
            r@ == child_key(self@, PARAM_FORCE_OPEN_ACCOUNT@),
    {
        ScMutableBool::new(self.proxy.root(PARAM_FORCE_OPEN_ACCOUNT))
    }
}

/// Immutable view of the parameters of the account-NFTs entry point. The view is
/// the key the wrapped proxy addresses.
#[derive(Clone)]
pub struct ImmutableAccountNFTsParams {
    pub(crate) proxy: Proxy,
}

impl View for ImmutableAccountNFTsParams {
    type V = Seq<char>;

    closed spec fn view(&self) -> Seq<char> {
        self.proxy@
    }
}

impl ImmutableAccountNFTsParams {
    /// Wraps a proxy locating the parameters; the store is not touched.
    pub fn new(proxy: Proxy) -> (r: ImmutableAccountNFTsParams)
        ensures
            r@ == proxy@,
    {
        ImmutableAccountNFTsParams { proxy }
    }

    pub fn agent_id(&self) -> (r: ScImmutableAgentID)
        ensures
            r@ == child_key(self@, PARAM_AGENT_ID@),
    {
        ScImmutableAgentID::new(self.proxy.root(PARAM_AGENT_ID))
    }
}

/// Mutable view of the parameters of the account-NFTs entry point. The view is
/// the key the wrapped proxy addresses.
#[derive(Clone)]
pub struct MutableAccountNFTsParams {
    pub(crate) proxy: Proxy,
}

impl View for MutableAccountNFTsParams {
    type V = Seq<char>;

    closed spec fn view(&self) -> Seq<char> {
        self.proxy@
    }
}

impl MutableAccountNFTsParams {
    /// Wraps a proxy locating the parameters; the store is not touched.
    pub fn new(proxy: Proxy) -> (r: MutableAccountNFTsParams)
        ensures
            r@ == proxy@,
    {
        MutableAccountNFTsParams { proxy }
    }

    pub fn agent_id(&self) -> (r: ScMutableAgentID)
        ensures
            r@ == child_key(self@, PARAM_AGENT_ID@),
    {
        ScMutableAgentID::new(self.proxy.root(PARAM_AGENT_ID))
    }
}

/// Immutable view of the parameters of the balance entry point. The view is
/// the key the wrapped proxy addresses.
#[derive(Clone)]
pub struct ImmutableBalanceParams {
    pub(crate) proxy: Proxy,
}

impl View for ImmutableBalanceParams {
    type V = Seq<char>;

    closed spec fn view(&self) -> Seq<char> {
        self.proxy@
    }
}

impl ImmutableBalanceParams {
    /// Wraps a proxy locating the parameters; the store is not touched.
    pub fn new(proxy: Proxy) -> (r: ImmutableBalanceParams)
        ensures
            r@ == proxy@,
    {
        ImmutableBalanceParams { proxy }
    }

    pub fn agent_id(&self) -> (r: ScImmutableAgentID)
        ensures
            r@ == child_key(self@, PARAM_AGENT_ID@),
    {
        ScImmutableAgentID::new(self.proxy.root(PARAM_AGENT_ID))
    }
}

/// Mutable view of the parameters of the balance entry point. The view is
/// the key the wrapped proxy addresses.
#[derive(Clone)]
pub struct MutableBalanceParams {
    pub(crate) proxy: Proxy,
}

impl View for MutableBalanceParams {
    type V = Seq<char>;

    closed spec fn view(&self) -> Seq<char> {
        self.proxy@
    }
}

impl MutableBalanceParams {
    /// Wraps a proxy locating the parameters; the store is not touched.
    pub fn new(proxy: Proxy) -> (r: MutableBalanceParams)
        ensures
            r@ == proxy@,
    {
        MutableBalanceParams { proxy }
    }

    pub fn agent_id(&self) -> (r: ScMutableAgentID)
        ensures
            r@ == child_key(self@, PARAM_AGENT_ID@),
    {
        ScMutableAgentID::new(self.proxy.root(PARAM_AGENT_ID))
    }
}

/// Immutable view of the parameters of the foundry output entry point. The view is
/// the key the wrapped proxy addresses.
#[derive(Clone)]
pub struct ImmutableFoundryOutputParams {
    pub(crate) proxy: Proxy,
}

impl View for ImmutableFoundryOutputParams {
    type V = Seq<char>;

    closed spec fn view(&self) -> Seq<char> {
        self.proxy@
    }
}

impl ImmutableFoundryOutputParams {
    /// Wraps a proxy locating the parameters; the store is not touched.
    pub fn new(proxy: Proxy) -> (r: ImmutableFoundryOutputParams)
        ensures
            r@ == proxy@,
    {
        ImmutableFoundryOutputParams { proxy }
    }

    pub fn foundry_sn(&self) -> (r: ScImmutableUint32)
        ensures
            r@ == child_key(self@, PARAM_FOUNDRY_SN@),
    {
        ScImmutableUint32::new(self.proxy.root(PARAM_FOUNDRY_SN))
    }
}

/// Mutable view of the parameters of the foundry output entry point. The view is
/// the key the wrapped proxy addresses.
#[derive(Clone)]
pub struct MutableFoundryOutputParams {
    pub(crate) proxy: Proxy,
}

impl View for MutableFoundryOutputParams {
    type V = Seq<char>;

    closed spec fn view(&self) -> Seq<char> {
        self.proxy@
    }
}

impl MutableFoundryOutputParams {
    /// Wraps a proxy locating the parameters; the store is not touched.
    pub fn new(proxy: Proxy) -> (r: MutableFoundryOutputParams)
        ensures
            r@ == proxy@,
    {
        MutableFoundryOutputParams { proxy }
    }

    pub fn foundry_sn(&self) -> (r: ScMutableUint32)
        ensures
            r@ == child_key(self@, PARAM_FOUNDRY_SN@),
    {
        ScMutableUint32::new(self.proxy.root(PARAM_FOUNDRY_SN))
    }
}

/// Immutable view of the parameters of the get-account-nonce entry point. The view is
/// the key the wrapped proxy addresses.
#[derive(Clone)]
pub struct ImmutableGetAccountNonceParams {
    pub(crate) proxy: Proxy,
}

impl View for ImmutableGetAccountNonceParams {
    type V = Seq<char>;

    closed spec fn view(&self) -> Seq<char> {
        self.proxy@
    }
}

impl ImmutableGetAccountNonceParams {
    /// Wraps a proxy locating the parameters; the store is not touched.
    pub fn new(proxy: Proxy) -> (r: ImmutableGetAccountNonceParams)
        ensures
            r@ == proxy@,
    {
        ImmutableGetAccountNonceParams { proxy }
    }

    pub fn agent_id(&self) -> (r: ScImmutableAgentID)
        ensures
            r@ == child_key(self@, PARAM_AGENT_ID@),
    {
        ScImmutableAgentID::new(self.proxy.root(PARAM_AGENT_ID))
    }
}

/// Mutable view of the parameters of the get-account-nonce entry point. The view is
/// the key the wrapped proxy addresses.
#[derive(Clone)]
pub struct MutableGetAccountNonceParams {
    pub(crate) proxy: Proxy,
}

impl View for MutableGetAccountNonceParams {
    type V = Seq<char>;

    closed spec fn view(&self) -> Seq<char> {
        self.proxy@
    }
}

impl MutableGetAccountNonceParams {
    /// Wraps a proxy locating the parameters; the store is not touched.
    pub fn new(proxy: Proxy) -> (r: MutableGetAccountNonceParams)
        ensures
            r@ == proxy@,
    {
        MutableGetAccountNonceParams { proxy }
    }

    pub fn agent_id(&self) -> (r: ScMutableAgentID)
        ensures
            r@ == child_key(self@, PARAM_AGENT_ID@),
    {
        ScMutableAgentID::new(self.proxy.root(PARAM_AGENT_ID))
    }
}

/// Immutable view of the parameters of the NFT-data entry point. The view is
/// the key the wrapped proxy addresses.
#[derive(Clone)]
pub struct ImmutableNftDataParams {
    pub(crate) proxy: Proxy,
}

impl View for ImmutableNftDataParams {
    type V = Seq<char>;

    closed spec fn view(&self) -> Seq<char> {
        self.proxy@
    }
}

impl ImmutableNftDataParams {
    /// Wraps a proxy locating the parameters; the store is not touched.
    pub fn new(proxy: Proxy) -> (r: ImmutableNftDataParams)
        ensures
            r@ == proxy@,
    {
        ImmutableNftDataParams { proxy }
    }

    pub fn nft_id(&self) -> (r: ScImmutableNftID)
        ensures
            r@ == child_key(self@, PARAM_NFT_ID@),
    {
        ScImmutableNftID::new(self.proxy.root(PARAM_NFT_ID))
    }
}

/// Mutable view of the parameters of the NFT-data entry point. The view is
/// the key the wrapped proxy addresses.
#[derive(Clone)]
pub struct MutableNftDataParams {
    pub(crate) proxy: Proxy,
}

impl View for MutableNftDataParams {
    type V = Seq<char>;

    closed spec fn view(&self) -> Seq<char> {
        self.proxy@
    }
}

impl MutableNftDataParams {
    /// Wraps a proxy locating the parameters; the store is not touched.
    pub fn new(proxy: Proxy) -> (r: MutableNftDataParams)
        ensures
            r@ == proxy@,
    {
        MutableNftDataParams { proxy }
    }

    pub fn nft_id(&self) -> (r: ScMutableNftID)
        ensures
            r@ == child_key(self@, PARAM_NFT_ID@),
    {
        ScMutableNftID::new(self.proxy.root(PARAM_NFT_ID))
    }
}

} // verus!
