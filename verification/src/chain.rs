//! Blockchain network definitions: the set of known networks, and the chain
//! record (identifier, HyperSync URL, optional RPC URL) built for each.

use vstd::prelude::*;
use crate::text::{dec_seq, dec_string};

verus! {

/// A known blockchain network.
#[derive(Clone, Copy, Debug, PartialEq, Eq, Structural, Hash)]
pub enum Blockchain {
    Abstract,
    Arbitrum,
    ArbitrumNova,
    ArbitrumSepolia,
    Aurora,
    Avalanche,
    Base,
    BaseSepolia,
    Berachain,
    BerachainBartio,
    Blast,
    BlastSepolia,
    Boba,
    Bsc,
    BscTestnet,
    Celo,
    Chiliz,
    CitreaTestnet,
    Curtis,
    Cyber,
    Darwinia,
    Ethereum,
    Fantom,
    Flare,
    Fraxtal,
    Fuji,
    GaladrielDevnet,
    Gnosis,
    GnosisChiado,
    GnosisTraces,
    HarmonyShard0,
    Holesky,
    HoleskyTokenTest,
    Hyperliquid,
    HyperliquidTemp,
    Ink,
    InternalTestChain,
    Kroma,
    Linea,
    Lisk,
    Lukso,
    LuksoTestnet,
    Manta,
    Mantle,
    MegaethTestnet,
    Merlin,
    Metall2,
    Metis,
    MevCommit,
    Mode,
    MonadTestnet,
    MonadTestnetBackup,
    MoonbaseAlpha,
    Moonbeam,
    Morph,
    MorphHolesky,
    Opbnb,
    Optimism,
    OptimismSepolia,
    PharosDevnet,
    Polygon,
    PolygonAmoy,
    PolygonZkEvm,
    Rootstock,
    Saakuru,
    Scroll,
    Sepolia,
    ShimmerEvm,
    Soneium,
    Sophon,
    SophonTestnet,
    Superseed,
    Unichain,
    UnichainSepolia,
    Xdc,
    XdcTestnet,
    Zeta,
    Zircuit,
    ZKsync,
    Zora,
}


impl View for Blockchain {
    type V = Blockchain;

    open spec fn view(&self) -> Blockchain {
        *self
    }
}

/// The canonical name of a network, as it appears in topic names.
pub open spec fn blockchain_name_spec(b: Blockchain) -> Seq<char> {
    match b {
        Blockchain::Abstract => "Abstract"@,
        Blockchain::Arbitrum => "Arbitrum"@,
        Blockchain::ArbitrumNova => "ArbitrumNova"@,
        Blockchain::ArbitrumSepolia => "ArbitrumSepolia"@,
        Blockchain::Aurora => "Aurora"@,
        Blockchain::Avalanche => "Avalanche"@,
        Blockchain::Base => "Base"@,
        Blockchain::BaseSepolia => "BaseSepolia"@,
        Blockchain::Berachain => "Berachain"@,
        Blockchain::BerachainBartio => "BerachainBartio"@,
        Blockchain::Blast => "Blast"@,
        Blockchain::BlastSepolia => "BlastSepolia"@,
        Blockchain::Boba => "Boba"@,
        Blockchain::Bsc => "Bsc"@,
        Blockchain::BscTestnet => "BscTestnet"@,
        Blockchain::Celo => "Celo"@,
        Blockchain::Chiliz => "Chiliz"@,
        Blockchain::CitreaTestnet => "CitreaTestnet"@,
        Blockchain::Curtis => "Curtis"@,
        Blockchain::Cyber => "Cyber"@,
        Blockchain::Darwinia => "Darwinia"@,
        Blockchain::Ethereum => "Ethereum"@,
        Blockchain::Fantom => "Fantom"@,
        Blockchain::Flare => "Flare"@,
        Blockchain::Fraxtal => "Fraxtal"@,
        Blockchain::Fuji => "Fuji"@,
        Blockchain::GaladrielDevnet => "GaladrielDevnet"@,
        Blockchain::Gnosis => "Gnosis"@,
        Blockchain::GnosisChiado => "GnosisChiado"@,
        Blockchain::GnosisTraces => "GnosisTraces"@,
        Blockchain::HarmonyShard0 => "HarmonyShard0"@,
        Blockchain::Holesky => "Holesky"@,
        Blockchain::HoleskyTokenTest => "HoleskyTokenTest"@,
        Blockchain::Hyperliquid => "Hyperliquid"@,
        Blockchain::HyperliquidTemp => "HyperliquidTemp"@,
        Blockchain::Ink => "Ink"@,
        Blockchain::InternalTestChain => "InternalTestChain"@,
        Blockchain::Kroma => "Kroma"@,
        Blockchain::Linea => "Linea"@,
        Blockchain::Lisk => "Lisk"@,
        Blockchain::Lukso => "Lukso"@,
        Blockchain::LuksoTestnet => "LuksoTestnet"@,
        Blockchain::Manta => "Manta"@,
        Blockchain::Mantle => "Mantle"@,
        Blockchain::MegaethTestnet => "MegaethTestnet"@,
        Blockchain::Merlin => "Merlin"@,
        Blockchain::Metall2 => "Metall2"@,
        Blockchain::Metis => "Metis"@,
        Blockchain::MevCommit => "MevCommit"@,
        Blockchain::Mode => "Mode"@,
        Blockchain::MonadTestnet => "MonadTestnet"@,
        Blockchain::MonadTestnetBackup => "MonadTestnetBackup"@,
        Blockchain::MoonbaseAlpha => "MoonbaseAlpha"@,
        Blockchain::Moonbeam => "Moonbeam"@,
        Blockchain::Morph => "Morph"@,
        Blockchain::MorphHolesky => "MorphHolesky"@,
        Blockchain::Opbnb => "Opbnb"@,
        Blockchain::Optimism => "Optimism"@,
        Blockchain::OptimismSepolia => "OptimismSepolia"@,
        Blockchain::PharosDevnet => "PharosDevnet"@,
        Blockchain::Polygon => "Polygon"@,
        Blockchain::PolygonAmoy => "PolygonAmoy"@,
        Blockchain::PolygonZkEvm => "PolygonZkEvm"@,
        Blockchain::Rootstock => "Rootstock"@,
        Blockchain::Saakuru => "Saakuru"@,
        Blockchain::Scroll => "Scroll"@,
        Blockchain::Sepolia => "Sepolia"@,
        Blockchain::ShimmerEvm => "ShimmerEvm"@,
        Blockchain::Soneium => "Soneium"@,
        Blockchain::Sophon => "Sophon"@,
        Blockchain::SophonTestnet => "SophonTestnet"@,
        Blockchain::Superseed => "Superseed"@,
        Blockchain::Unichain => "Unichain"@,
        Blockchain::UnichainSepolia => "UnichainSepolia"@,
        Blockchain::Xdc => "Xdc"@,
        Blockchain::XdcTestnet => "XdcTestnet"@,
        Blockchain::Zeta => "Zeta"@,
        Blockchain::Zircuit => "Zircuit"@,
        Blockchain::ZKsync => "ZKsync"@,
        Blockchain::Zora => "Zora"@,
    }
}

impl Blockchain {
    /// The canonical name of the network.
    pub fn as_str(&self) -> (r: &'static str)
        ensures
            r@ == blockchain_name_spec(*self),
    {
        match self {
            Blockchain::Abstract => "Abstract",
            Blockchain::Arbitrum => "Arbitrum",
            Blockchain::ArbitrumNova => "ArbitrumNova",
            Blockchain::ArbitrumSepolia => "ArbitrumSepolia",
            Blockchain::Aurora => "Aurora",
            Blockchain::Avalanche => "Avalanche",
            Blockchain::Base => "Base",
            Blockchain::BaseSepolia => "BaseSepolia",
            Blockchain::Berachain => "Berachain",
            Blockchain::BerachainBartio => "BerachainBartio",
            Blockchain::Blast => "Blast",
            Blockchain::BlastSepolia => "BlastSepolia",
            Blockchain::Boba => "Boba",
            Blockchain::Bsc => "Bsc",
            Blockchain::BscTestnet => "BscTestnet",
            Blockchain::Celo => "Celo",
            Blockchain::Chiliz => "Chiliz",
            Blockchain::CitreaTestnet => "CitreaTestnet",
            Blockchain::Curtis => "Curtis",
            Blockchain::Cyber => "Cyber",
            Blockchain::Darwinia => "Darwinia",
            Blockchain::Ethereum => "Ethereum",
            Blockchain::Fantom => "Fantom",
            Blockchain::Flare => "Flare",
            Blockchain::Fraxtal => "Fraxtal",
            Blockchain::Fuji => "Fuji",
            Blockchain::GaladrielDevnet => "GaladrielDevnet",
            Blockchain::Gnosis => "Gnosis",
            Blockchain::GnosisChiado => "GnosisChiado",
            Blockchain::GnosisTraces => "GnosisTraces",
            Blockchain::HarmonyShard0 => "HarmonyShard0",
            Blockchain::Holesky => "Holesky",
            Blockchain::HoleskyTokenTest => "HoleskyTokenTest",
            Blockchain::Hyperliquid => "Hyperliquid",
            Blockchain::HyperliquidTemp => "HyperliquidTemp",
            Blockchain::Ink => "Ink",
            Blockchain::InternalTestChain => "InternalTestChain",
            Blockchain::Kroma => "Kroma",
            Blockchain::Linea => "Linea",
            Blockchain::Lisk => "Lisk",
            Blockchain::Lukso => "Lukso",
            Blockchain::LuksoTestnet => "LuksoTestnet",
            Blockchain::Manta => "Manta",
            Blockchain::Mantle => "Mantle",
            Blockchain::MegaethTestnet => "MegaethTestnet",
            Blockchain::Merlin => "Merlin",
            Blockchain::Metall2 => "Metall2",
            Blockchain::Metis => "Metis",
            Blockchain::MevCommit => "MevCommit",
            Blockchain::Mode => "Mode",
            Blockchain::MonadTestnet => "MonadTestnet",
            Blockchain::MonadTestnetBackup => "MonadTestnetBackup",
            Blockchain::MoonbaseAlpha => "MoonbaseAlpha",
            Blockchain::Moonbeam => "Moonbeam",
            Blockchain::Morph => "Morph",
            Blockchain::MorphHolesky => "MorphHolesky",
            Blockchain::Opbnb => "Opbnb",
            Blockchain::Optimism => "Optimism",
            Blockchain::OptimismSepolia => "OptimismSepolia",
            Blockchain::PharosDevnet => "PharosDevnet",
            Blockchain::Polygon => "Polygon",
            Blockchain::PolygonAmoy => "PolygonAmoy",
            Blockchain::PolygonZkEvm => "PolygonZkEvm",
            Blockchain::Rootstock => "Rootstock",
            Blockchain::Saakuru => "Saakuru",
            Blockchain::Scroll => "Scroll",
            Blockchain::Sepolia => "Sepolia",
            Blockchain::ShimmerEvm => "ShimmerEvm",
            Blockchain::Soneium => "Soneium",
            Blockchain::Sophon => "Sophon",
            Blockchain::SophonTestnet => "SophonTestnet",
            Blockchain::Superseed => "Superseed",
            Blockchain::Unichain => "Unichain",
            Blockchain::UnichainSepolia => "UnichainSepolia",
            Blockchain::Xdc => "Xdc",
            Blockchain::XdcTestnet => "XdcTestnet",
            Blockchain::Zeta => "Zeta",
            Blockchain::Zircuit => "Zircuit",
            Blockchain::ZKsync => "ZKsync",
            Blockchain::Zora => "Zora",
        }
    }
}

/// The HyperSync endpoint for a chain identifier.
pub open spec fn hypersync_url_spec(chain_id: u32) -> Seq<char> {
    "https://"@ + dec_seq(chain_id as nat) + ".hypersync.xyz"@
}

/// The network registered under a chain identifier, if any.
pub open spec fn blockchain_of_chain_id(chain_id: u32) -> Option<Blockchain> {
    match chain_id {
        2741u32 => Some(Blockchain::Abstract),
        42161u32 => Some(Blockchain::Arbitrum),
        42170u32 => Some(Blockchain::ArbitrumNova),
        421614u32 => Some(Blockchain::ArbitrumSepolia),
        1313161554u32 => Some(Blockchain::Aurora),
        43114u32 => Some(Blockchain::Avalanche),
        8453u32 => Some(Blockchain::Base),
        84532u32 => Some(Blockchain::BaseSepolia),
        80094u32 => Some(Blockchain::Berachain),
        80085u32 => Some(Blockchain::BerachainBartio),
        81457u32 => Some(Blockchain::Blast),
        168587773u32 => Some(Blockchain::BlastSepolia),
        288u32 => Some(Blockchain::Boba),
        56u32 => Some(Blockchain::Bsc),
        97u32 => Some(Blockchain::BscTestnet),
        42220u32 => Some(Blockchain::Celo),
        8888u32 => Some(Blockchain::Chiliz),
        3333u32 => Some(Blockchain::CitreaTestnet),
        33111u32 => Some(Blockchain::Curtis),
        7560u32 => Some(Blockchain::Cyber),
        46u32 => Some(Blockchain::Darwinia),
        1u32 => Some(Blockchain::Ethereum),
        250u32 => Some(Blockchain::Fantom),
        14u32 => Some(Blockchain::Flare),
        252u32 => Some(Blockchain::Fraxtal),
        43113u32 => Some(Blockchain::Fuji),
        696969u32 => Some(Blockchain::GaladrielDevnet),
        100u32 => Some(Blockchain::Gnosis),
        10200u32 => Some(Blockchain::GnosisChiado),
        10300u32 => Some(Blockchain::GnosisTraces),
        1666600000u32 => Some(Blockchain::HarmonyShard0),
        17000u32 => Some(Blockchain::Holesky),
        17001u32 => Some(Blockchain::HoleskyTokenTest),
        7979u32 => Some(Blockchain::Hyperliquid),
        7978u32 => Some(Blockchain::HyperliquidTemp),
        222u32 => Some(Blockchain::Ink),
        13337u32 => Some(Blockchain::InternalTestChain),
        255u32 => Some(Blockchain::Kroma),
        59144u32 => Some(Blockchain::Linea),
        501u32 => Some(Blockchain::Lisk),
        42u32 => Some(Blockchain::Lukso),
        4201u32 => Some(Blockchain::LuksoTestnet),
        169u32 => Some(Blockchain::Manta),
        5000u32 => Some(Blockchain::Mantle),
        777u32 => Some(Blockchain::MegaethTestnet),
        4200u32 => Some(Blockchain::Merlin),
        90u32 => Some(Blockchain::Metall2),
        1088u32 => Some(Blockchain::Metis),
        11u32 => Some(Blockchain::MevCommit),
        34443u32 => Some(Blockchain::Mode),
        2323u32 => Some(Blockchain::MonadTestnet),
        2358u32 => Some(Blockchain::MonadTestnetBackup),
        1287u32 => Some(Blockchain::MoonbaseAlpha),
        1284u32 => Some(Blockchain::Moonbeam),
        2710u32 => Some(Blockchain::Morph),
        2710111u32 => Some(Blockchain::MorphHolesky),
        204u32 => Some(Blockchain::Opbnb),
        10u32 => Some(Blockchain::Optimism),
        11155420u32 => Some(Blockchain::OptimismSepolia),
        1337u32 => Some(Blockchain::PharosDevnet),
        137u32 => Some(Blockchain::Polygon),
        80002u32 => Some(Blockchain::PolygonAmoy),
        1101u32 => Some(Blockchain::PolygonZkEvm),
        30u32 => Some(Blockchain::Rootstock),
        1204u32 => Some(Blockchain::Saakuru),
        534352u32 => Some(Blockchain::Scroll),
        11155111u32 => Some(Blockchain::Sepolia),
        148u32 => Some(Blockchain::ShimmerEvm),
        109u32 => Some(Blockchain::Soneium),
        138u32 => Some(Blockchain::Sophon),
        139u32 => Some(Blockchain::SophonTestnet),
        10001u32 => Some(Blockchain::Superseed),
        9999u32 => Some(Blockchain::Unichain),
        9997u32 => Some(Blockchain::UnichainSepolia),
        50u32 => Some(Blockchain::Xdc),
        51u32 => Some(Blockchain::XdcTestnet),
        7000u32 => Some(Blockchain::Zeta),
        78600u32 => Some(Blockchain::Zircuit),
        324u32 => Some(Blockchain::ZKsync),
        7777777u32 => Some(Blockchain::Zora),
        _ => None,
    }
}

/// A blockchain with its unique identifier and connection details.
pub struct Chain {
    /// The blockchain network.
    pub name: Blockchain,
    /// The unique identifier for this blockchain.
    pub chain_id: u32,
    /// URL endpoint for the HyperSync connection.
    pub hypersync_url: String,
    /// URL endpoint for the default RPC connection, once set.
    pub rpc_url: Option<String>,
    /// The number of decimals of the native currency.
    pub native_currency_decimals: u8,
}

impl Chain {
    /// A fresh chain record: the HyperSync URL is derived from the chain
    /// identifier, no RPC URL is set, and the native currency has the
    /// conventional eighteen decimals.
    pub fn new(name: Blockchain, chain_id: u32) -> (r: Self)
        ensures
            r.name == name,
            r.chain_id == chain_id,
            r.hypersync_url@ == hypersync_url_spec(chain_id),
            r.rpc_url is None,
            r.native_currency_decimals == 18,
    {
        let mut url = String::from_str("https://");
        let digits = dec_string(chain_id);
        url.append(digits.as_str());
        url.append(".hypersync.xyz");
        Chain {
            name,
            chain_id,
            hypersync_url: url,
            rpc_url: None,
            native_currency_decimals: 18,
        }
    }

    /// Sets the RPC URL endpoint; every other field is unchanged.
    pub fn set_rpc_url(&mut self, rpc: String)
        ensures
            final(self).rpc_url matches Some(u) && u@ == rpc@,
            final(self).name == old(self).name,
            final(self).chain_id == old(self).chain_id,
            final(self).hypersync_url == old(self).hypersync_url,
            final(self).native_currency_decimals == old(self).native_currency_decimals,
    {
        self.rpc_url = Some(rpc);
    }

    /// The chain registered under `chain_id`: `Some` exactly for the known
    /// identifiers, and then a fresh record whose `chain_id` matches the one
    /// asked for.
    pub fn from_chain_id(chain_id: u32) -> (r: Option<Chain>)
        ensures
            match r {
                Some(c) => {
                    &&& blockchain_of_chain_id(chain_id) == Some(c.name)
                    &&& c.chain_id == chain_id
                    &&& c.hypersync_url@ == hypersync_url_spec(chain_id)
                    &&& c.rpc_url is None
                    &&& c.native_currency_decimals == 18
                },
                None => blockchain_of_chain_id(chain_id) is None,
            },
    {
        let name = match chain_id {
            2741u32 => Some(Blockchain::Abstract),
            42161u32 => Some(Blockchain::Arbitrum),
            42170u32 => Some(Blockchain::ArbitrumNova),
            421614u32 => Some(Blockchain::ArbitrumSepolia),
            1313161554u32 => Some(Blockchain::Aurora),
            43114u32 => Some(Blockchain::Avalanche),
            8453u32 => Some(Blockchain::Base),
            84532u32 => Some(Blockchain::BaseSepolia),
            80094u32 => Some(Blockchain::Berachain),
            80085u32 => Some(Blockchain::BerachainBartio),
            81457u32 => Some(Blockchain::Blast),
            168587773u32 => Some(Blockchain::BlastSepolia),
            288u32 => Some(Blockchain::Boba),
            56u32 => Some(Blockchain::Bsc),
            97u32 => Some(Blockchain::BscTestnet),
            42220u32 => Some(Blockchain::Celo),
            8888u32 => Some(Blockchain::Chiliz),
            3333u32 => Some(Blockchain::CitreaTestnet),
            33111u32 => Some(Blockchain::Curtis),
            7560u32 => Some(Blockchain::Cyber),
            46u32 => Some(Blockchain::Darwinia),
            1u32 => Some(Blockchain::Ethereum),
            250u32 => Some(Blockchain::Fantom),
            14u32 => Some(Blockchain::Flare),
            252u32 => Some(Blockchain::Fraxtal),
            43113u32 => Some(Blockchain::Fuji),
            696969u32 => Some(Blockchain::GaladrielDevnet),
            100u32 => Some(Blockchain::Gnosis),
            10200u32 => Some(Blockchain::GnosisChiado),
            10300u32 => Some(Blockchain::GnosisTraces),
            1666600000u32 => Some(Blockchain::HarmonyShard0),
            17000u32 => Some(Blockchain::Holesky),
            17001u32 => Some(Blockchain::HoleskyTokenTest),
            7979u32 => Some(Blockchain::Hyperliquid),
            7978u32 => Some(Blockchain::HyperliquidTemp),
            222u32 => Some(Blockchain::Ink),
            13337u32 => Some(Blockchain::InternalTestChain),
            255u32 => Some(Blockchain::Kroma),
            59144u32 => Some(Blockchain::Linea),
            501u32 => Some(Blockchain::Lisk),
            42u32 => Some(Blockchain::Lukso),
            4201u32 => Some(Blockchain::LuksoTestnet),
            169u32 => Some(Blockchain::Manta),
            5000u32 => Some(Blockchain::Mantle),
            777u32 => Some(Blockchain::MegaethTestnet),
            4200u32 => Some(Blockchain::Merlin),
            90u32 => Some(Blockchain::Metall2),
            1088u32 => Some(Blockchain::Metis),
            11u32 => Some(Blockchain::MevCommit),
            34443u32 => Some(Blockchain::Mode),
            2323u32 => Some(Blockchain::MonadTestnet),
            2358u32 => Some(Blockchain::MonadTestnetBackup),
            1287u32 => Some(Blockchain::MoonbaseAlpha),
            1284u32 => Some(Blockchain::Moonbeam),
            2710u32 => Some(Blockchain::Morph),
            2710111u32 => Some(Blockchain::MorphHolesky),
            204u32 => Some(Blockchain::Opbnb),
            10u32 => Some(Blockchain::Optimism),
            11155420u32 => Some(Blockchain::OptimismSepolia),
            1337u32 => Some(Blockchain::PharosDevnet),
            137u32 => Some(Blockchain::Polygon),
            80002u32 => Some(Blockchain::PolygonAmoy),
            1101u32 => Some(Blockchain::PolygonZkEvm),
            30u32 => Some(Blockchain::Rootstock),
            1204u32 => Some(Blockchain::Saakuru),
            534352u32 => Some(Blockchain::Scroll),
            11155111u32 => Some(Blockchain::Sepolia),
            148u32 => Some(Blockchain::ShimmerEvm),
            109u32 => Some(Blockchain::Soneium),
            138u32 => Some(Blockchain::Sophon),
            139u32 => Some(Blockchain::SophonTestnet),
            10001u32 => Some(Blockchain::Superseed),
            9999u32 => Some(Blockchain::Unichain),
            9997u32 => Some(Blockchain::UnichainSepolia),
            50u32 => Some(Blockchain::Xdc),
            51u32 => Some(Blockchain::XdcTestnet),
            7000u32 => Some(Blockchain::Zeta),
            78600u32 => Some(Blockchain::Zircuit),
            324u32 => Some(Blockchain::ZKsync),
            7777777u32 => Some(Blockchain::Zora),
            _ => None,
        };
        match name {
            Some(n) => Some(Chain::new(n, chain_id)),
            None => None,
        }
    }
}

impl Clone for Chain {
    fn clone(&self) -> (r: Self)
        ensures
            r == *self,
    {
        let rpc_url = match &self.rpc_url {
            Some(u) => Some(u.clone()),
            None => None,
        };
        Chain {
            name: self.name,
            chain_id: self.chain_id,
            hypersync_url: self.hypersync_url.clone(),
            rpc_url,
            native_currency_decimals: self.native_currency_decimals,
        }
    }
}

} // verus!
