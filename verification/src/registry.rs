//! The network registry: the fixed mapping from an SS58 network
//! identifier to a chain name.

use vstd::prelude::*;

verus! {

/// The name registered for an SS58 network identifier. Identifiers without
/// an entry name the generic "Substrate" ecosystem: such an address is still
/// valid SS58, only on an unlisted chain. Several identifiers legitimately
/// share one name (shared branding across chain upgrades).
pub open spec fn spec_network_name(id: u16) -> Seq<char> {
    if id == 0 {
        "Polkadot"@
    } else if id == 1 {
        "Bare"@
    } else if id == 2 {
        "Kusama"@
    } else if id == 3 {
        "Reserved"@
    } else if id == 4 {
        "Katalchain"@
    } else if id == 5 {
        "Plasm"@
    } else if id == 6 {
        "Bifrost"@
    } else if id == 7 {
        "Edgeware"@
    } else if id == 8 {
        "Karura"@
    } else if id == 9 {
        "Reynolds"@
    } else if id == 10 {
        "Acala"@
    } else if id == 11 {
        "Laminar"@
    } else if id == 12 {
        "Polymath"@
    } else if id == 13 {
        "SubstraTEE"@
    } else if id == 14 {
        "Totem"@
    } else if id == 15 {
        "Synesthesia"@
    } else if id == 16 {
        "Kulupu"@
    } else if id == 17 {
        "Dark"@
    } else if id == 18 {
        "Darwinia"@
    } else if id == 19 {
        "GeekCash"@
    } else if id == 20 {
        "Stafi"@
    } else if id == 21 {
        "Dock-Testnet"@
    } else if id == 22 {
        "Dock-Mainnet"@
    } else if id == 23 {
        "ShiftNrg"@
    } else if id == 24 {
        "Zero"@
    } else if id == 25 {
        "Alphaville"@
    } else if id == 26 {
        "Jupiter"@
    } else if id == 27 {
        "Patract"@
    } else if id == 28 {
        "Subsocial"@
    } else if id == 29 {
        "Cord"@
    } else if id == 30 {
        "Phala"@
    } else if id == 31 {
        "Litentry"@
    } else if id == 32 {
        "Robonomics"@
    } else if id == 33 {
        "DataHighway"@
    } else if id == 34 {
        "Ares"@
    } else if id == 35 {
        "Valiu"@
    } else if id == 36 {
        "Bernedette"@
    } else if id == 37 {
        "SubDAO"@
    } else if id == 38 {
        "Nodle"@
    } else if id == 39 {
        "Reserved"@
    } else if id == 40 {
        "Basilisk"@
    } else if id == 41 {
        "Kilt"@
    } else if id == 42 {
        "Picasso"@
    } else if id == 43 {
        "Composable"@
    } else if id == 44 {
        "Oak"@
    } else if id == 45 {
        "KICO"@
    } else if id == 46 {
        "DICO"@
    } else if id == 47 {
        "Imbue"@
    } else if id == 48 {
        "Aventus"@
    } else if id == 49 {
        "HydraDX"@
    } else if id == 50 {
        "Astar"@
    } else if id == 51 {
        "Shiden"@
    } else if id == 52 {
        "OriginTrail"@
    } else if id == 53 {
        "Calamari"@
    } else if id == 54 {
        "Parallel"@
    } else if id == 55 {
        "Heiko"@
    } else if id == 56 {
        "Clover"@
    } else if id == 57 {
        "Bit.Country"@
    } else if id == 58 {
        "Zeitgeist"@
    } else if id == 59 {
        "Ajuna"@
    } else if id == 60 {
        "SubGame"@
    } else if id == 61 {
        "Ternoa"@
    } else if id == 62 {
        "Kapex"@
    } else if id == 63 {
        "Genshiro"@
    } else if id == 64 {
        "Equilibrium"@
    } else if id == 65 {
        "Sora"@
    } else if id == 66 {
        "Social Network"@
    } else if id == 67 {
        "ChainX"@
    } else if id == 68 {
        "Crust"@
    } else if id == 69 {
        "Uniarts"@
    } else if id == 70 {
        "Reserved"@
    } else if id == 71 {
        "Unique"@
    } else if id == 72 {
        "Quartz"@
    } else if id == 73 {
        "Bit.Country Pioneer"@
    } else if id == 74 {
        "RMRK"@
    } else if id == 75 {
        "Litmus"@
    } else if id == 76 {
        "Kylin"@
    } else if id == 77 {
        "Bajun"@
    } else if id == 78 {
        "Integritee"@
    } else if id == 79 {
        "Centrifuge"@
    } else if id == 80 {
        "Altair"@
    } else if id == 81 {
        "InvArch"@
    } else if id == 82 {
        "Tinkernet"@
    } else if id == 83 {
        "Brainstorm"@
    } else if id == 84 {
        "Virto"@
    } else if id == 85 {
        "Omnibtc"@
    } else if id == 86 {
        "Hashed"@
    } else if id == 87 {
        "Frequency"@
    } else if id == 88 {
        "Manta"@
    } else if id == 89 {
        "Calamari"@
    } else if id == 90 {
        "Amplitude"@
    } else if id == 91 {
        "Pendulum"@
    } else if id == 1000 {
        "Asset Hub Polkadot"@
    } else if id == 1001 {
        "Collectives Polkadot"@
    } else if id == 2000 {
        "Asset Hub Kusama"@
    } else if id == 2001 {
        "Bridge Hub Kusama"@
    } else if id == 2004 {
        "Encointer Kusama"@
    } else if id == 2007 {
        "Crab"@
    } else if id == 2011 {
        "Kintsugi"@
    } else if id == 2012 {
        "Picasso"@
    } else if id == 2013 {
        "Quartz"@
    } else if id == 2015 {
        "Moonriver"@
    } else if id == 2019 {
        "Karura"@
    } else if id == 2021 {
        "Altair"@
    } else if id == 2023 {
        "Khala"@
    } else if id == 2024 {
        "Kico"@
    } else if id == 2030 {
        "Basilisk"@
    } else if id == 2032 {
        "Interlay"@
    } else if id == 2034 {
        "HydraDX"@
    } else if id == 2035 {
        "Phala"@
    } else if id == 2037 {
        "Unique"@
    } else if id == 2040 {
        "Polkadex"@
    } else if id == 2043 {
        "OriginTrail"@
    } else if id == 2046 {
        "Darwinia"@
    } else if id == 2048 {
        "Robonomics"@
    } else if id == 2051 {
        "Ajuna"@
    } else if id == 2092 {
        "Kilt"@
    } else if id == 2094 {
        "Calamari"@
    } else {
        "Substrate"@
    }
}

/// Look an SS58 network identifier up in the registry.
pub fn ss58_network_name(id: u16) -> (r: String)
    ensures
        r@ == spec_network_name(id),
{
    if id == 0 {
        "Polkadot".to_owned()
    } else if id == 1 {
        "Bare".to_owned()
    } else if id == 2 {
        "Kusama".to_owned()
    } else if id == 3 {
        "Reserved".to_owned()
    } else if id == 4 {
        "Katalchain".to_owned()
    } else if id == 5 {
        "Plasm".to_owned()
    } else if id == 6 {
        "Bifrost".to_owned()
    } else if id == 7 {
        "Edgeware".to_owned()
    } else if id == 8 {
        "Karura".to_owned()
    } else if id == 9 {
        "Reynolds".to_owned()
    } else if id == 10 {
        "Acala".to_owned()
    } else if id == 11 {
        "Laminar".to_owned()
    } else if id == 12 {
        "Polymath".to_owned()
    } else if id == 13 {
        "SubstraTEE".to_owned()
    } else if id == 14 {
        "Totem".to_owned()
    } else if id == 15 {
        "Synesthesia".to_owned()
    } else if id == 16 {
        "Kulupu".to_owned()
    } else if id == 17 {
        "Dark".to_owned()
    } else if id == 18 {
        "Darwinia".to_owned()
    } else if id == 19 {
        "GeekCash".to_owned()
    } else if id == 20 {
        "Stafi".to_owned()
    } else if id == 21 {
        "Dock-Testnet".to_owned()
    } else if id == 22 {
        "Dock-Mainnet".to_owned()
    } else if id == 23 {
        "ShiftNrg".to_owned()
    } else if id == 24 {
        "Zero".to_owned()
    } else if id == 25 {
        "Alphaville".to_owned()
    } else if id == 26 {
        "Jupiter".to_owned()
    } else if id == 27 {
        "Patract".to_owned()
    } else if id == 28 {
        "Subsocial".to_owned()
    } else if id == 29 {
        "Cord".to_owned()
    } else if id == 30 {
        "Phala".to_owned()
    } else if id == 31 {
        "Litentry".to_owned()
    } else if id == 32 {
        "Robonomics".to_owned()
    } else if id == 33 {
        "DataHighway".to_owned()
    } else if id == 34 {
        "Ares".to_owned()
    } else if id == 35 {
        "Valiu".to_owned()
    } else if id == 36 {
        "Bernedette".to_owned()
    } else if id == 37 {
        "SubDAO".to_owned()
    } else if id == 38 {
        "Nodle".to_owned()
    } else if id == 39 {
        "Reserved".to_owned()
    } else if id == 40 {
        "Basilisk".to_owned()
    } else if id == 41 {
        "Kilt".to_owned()
    } else if id == 42 {
        "Picasso".to_owned()
    } else if id == 43 {
        "Composable".to_owned()
    } else if id == 44 {
        "Oak".to_owned()
    } else if id == 45 {
        "KICO".to_owned()
    } else if id == 46 {
        "DICO".to_owned()
    } else if id == 47 {
        "Imbue".to_owned()
    } else if id == 48 {
        "Aventus".to_owned()
    } else if id == 49 {
        "HydraDX".to_owned()
    } else if id == 50 {
        "Astar".to_owned()
    } else if id == 51 {
        "Shiden".to_owned()
    } else if id == 52 {
        "OriginTrail".to_owned()
    } else if id == 53 {
        "Calamari".to_owned()
    } else if id == 54 {
        "Parallel".to_owned()
    } else if id == 55 {
        "Heiko".to_owned()
    } else if id == 56 {
        "Clover".to_owned()
    } else if id == 57 {
        "Bit.Country".to_owned()
    } else if id == 58 {
        "Zeitgeist".to_owned()
    } else if id == 59 {
        "Ajuna".to_owned()
    } else if id == 60 {
        "SubGame".to_owned()
    } else if id == 61 {
        "Ternoa".to_owned()
    } else if id == 62 {
        "Kapex".to_owned()
    } else if id == 63 {
        "Genshiro".to_owned()
    } else if id == 64 {
        "Equilibrium".to_owned()
    } else if id == 65 {
        "Sora".to_owned()
    } else if id == 66 {
        "Social Network".to_owned()
    } else if id == 67 {
        "ChainX".to_owned()
    } else if id == 68 {
        "Crust".to_owned()
    } else if id == 69 {
        "Uniarts".to_owned()
    } else if id == 70 {
        "Reserved".to_owned()
    } else if id == 71 {
        "Unique".to_owned()
    } else if id == 72 {
        "Quartz".to_owned()
    } else if id == 73 {
        "Bit.Country Pioneer".to_owned()
    } else if id == 74 {
        "RMRK".to_owned()
    } else if id == 75 {
        "Litmus".to_owned()
    } else if id == 76 {
        "Kylin".to_owned()
    } else if id == 77 {
        "Bajun".to_owned()
    } else if id == 78 {
        "Integritee".to_owned()
    } else if id == 79 {
        "Centrifuge".to_owned()
    } else if id == 80 {
        "Altair".to_owned()
    } else if id == 81 {
        "InvArch".to_owned()
    } else if id == 82 {
        "Tinkernet".to_owned()
    } else if id == 83 {
        "Brainstorm".to_owned()
    } else if id == 84 {
        "Virto".to_owned()
    } else if id == 85 {
        "Omnibtc".to_owned()
    } else if id == 86 {
        "Hashed".to_owned()
    } else if id == 87 {
        "Frequency".to_owned()
    } else if id == 88 {
        "Manta".to_owned()
    } else if id == 89 {
        "Calamari".to_owned()
    } else if id == 90 {
        "Amplitude".to_owned()
    } else if id == 91 {
        "Pendulum".to_owned()
    } else if id == 1000 {
        "Asset Hub Polkadot".to_owned()
    } else if id == 1001 {
        "Collectives Polkadot".to_owned()
    } else if id == 2000 {
        "Asset Hub Kusama".to_owned()
    } else if id == 2001 {
        "Bridge Hub Kusama".to_owned()
    } else if id == 2004 {
        "Encointer Kusama".to_owned()
    } else if id == 2007 {
        "Crab".to_owned()
    } else if id == 2011 {
        "Kintsugi".to_owned()
    } else if id == 2012 {
        "Picasso".to_owned()
    } else if id == 2013 {
        "Quartz".to_owned()
    } else if id == 2015 {
        "Moonriver".to_owned()
    } else if id == 2019 {
        "Karura".to_owned()
    } else if id == 2021 {
        "Altair".to_owned()
    } else if id == 2023 {
        "Khala".to_owned()
    } else if id == 2024 {
        "Kico".to_owned()
    } else if id == 2030 {
        "Basilisk".to_owned()
    } else if id == 2032 {
        "Interlay".to_owned()
    } else if id == 2034 {
        "HydraDX".to_owned()
    } else if id == 2035 {
        "Phala".to_owned()
    } else if id == 2037 {
        "Unique".to_owned()
    } else if id == 2040 {
        "Polkadex".to_owned()
    } else if id == 2043 {
        "OriginTrail".to_owned()
    } else if id == 2046 {
        "Darwinia".to_owned()
    } else if id == 2048 {
        "Robonomics".to_owned()
    } else if id == 2051 {
        "Ajuna".to_owned()
    } else if id == 2092 {
        "Kilt".to_owned()
    } else if id == 2094 {
        "Calamari".to_owned()
    } else {
        "Substrate".to_owned()
    }
}

} // verus!
