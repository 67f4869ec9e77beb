//! Plain data types of the EVM RPC service interface.
use vstd::prelude::*;

verus! {

pub type Regex = String;

pub type ChainId = u64;

pub type ProviderId = u64;

#[derive(Debug, Clone)]
pub enum LogFilter {
    ShowAll,
    HideAll,
    ShowPattern(Regex),
    HidePattern(Regex),
}

#[derive(Debug, Clone, Copy, PartialEq, Eq)]
pub enum EthSepoliaService {
    Alchemy,
    BlockPi,
    PublicNode,
    Ankr,
    Sepolia,
}

#[derive(Debug, Clone, Copy, PartialEq, Eq)]
pub enum L2MainnetService {
    Alchemy,
    Llama,
    BlockPi,
    PublicNode,
    Ankr,
}

#[derive(Debug, Clone)]
pub struct HttpHeader {
    pub value: String,
    pub name: String,
}

#[derive(Debug, Clone)]
pub struct RpcApi {
    pub url: String,
    pub headers: Option<Vec<HttpHeader>>,
}

#[derive(Debug, Clone, Copy, PartialEq, Eq)]
pub enum EthMainnetService {
    Alchemy,
    Llama,
    BlockPi,
    Cloudflare,
    PublicNode,
    Ankr,
}

#[allow(non_snake_case)]
#[derive(Debug, Clone)]
pub enum RpcServices {
    EthSepolia(Option<Vec<EthSepoliaService>>),
    BaseMainnet(Option<Vec<L2MainnetService>>),
    Custom { chainId: ChainId, services: Vec<RpcApi> },
    OptimismMainnet(Option<Vec<L2MainnetService>>),
    ArbitrumOne(Option<Vec<L2MainnetService>>),
    EthMainnet(Option<Vec<EthMainnetService>>),
}

#[derive(Debug, Clone, Copy, PartialEq, Eq)]
pub enum ConsensusStrategy {
    Equality,
    Threshold { min: u8, total: Option<u8> },
}

#[allow(non_snake_case)]
#[derive(Debug, Clone, Copy, PartialEq, Eq)]
pub struct RpcConfig {
    pub responseConsensus: Option<ConsensusStrategy>,
    pub responseSizeEstimate: Option<u64>,
}

#[allow(non_snake_case)]
#[derive(Debug, Clone)]
pub struct AccessListEntry {
    pub storageKeys: Vec<String>,
    pub address: String,
}

#[derive(Debug, Clone)]
pub struct JsonRpcError {
    pub code: i64,
    pub message: String,
}

#[derive(Debug, Clone)]
pub enum ValidationError {
    Custom(String),
    InvalidHex(String),
}

#[derive(Debug, Clone, Copy, PartialEq, Eq)]
pub enum RejectionCode {
    NoError,
    CanisterError,
    SysTransient,
    DestinationInvalid,
    Unknown,
    SysFatal,
    CanisterReject,
}

#[allow(non_snake_case)]
#[derive(Debug, Clone)]
pub enum HttpOutcallError {
    IcError { code: RejectionCode, message: String },
    InvalidHttpJsonRpcResponse { status: u16, body: String, parsingError: Option<String> },
}

/// One RPC provider: a known service of a chain, a custom endpoint, or a
/// provider by number.
#[derive(Debug, Clone)]
pub enum RpcService {
    EthSepolia(EthSepoliaService),
    BaseMainnet(L2MainnetService),
    Custom(RpcApi),
    OptimismMainnet(L2MainnetService),
    ArbitrumOne(L2MainnetService),
    EthMainnet(EthMainnetService),
    Provider(ProviderId),
}

/// What the ledger said of a raw transaction; `Success` carries its hash.
#[derive(Debug, Clone)]
pub enum SendRawTransactionStatus {
    Success(Option<String>),
    NonceTooLow,
    NonceTooHigh,
    InsufficientFunds,
}

#[allow(non_snake_case)]
#[derive(Debug, Clone)]
pub enum RpcAuth {
    BearerToken { url: String },
    UrlParameter { urlPattern: String },
}

#[allow(non_snake_case)]
#[derive(Debug, Clone)]
pub enum RpcAccess {
    Authenticated { publicUrl: Option<String>, auth: RpcAuth },
    Unauthenticated { publicUrl: String },
}

#[allow(non_snake_case)]
#[derive(Debug, Clone)]
pub struct Provider {
    pub access: RpcAccess,
    pub alias: Option<RpcService>,
    pub chainId: ChainId,
    pub providerId: ProviderId,
}

} // verus!
