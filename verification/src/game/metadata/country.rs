//! The countries of players and places.

use vstd::prelude::*;

verus! {

/// A country, as the International Olympic Committee lists them.
#[derive(Debug, Copy, Clone, Eq, PartialEq, Structural)]
pub enum Country {
    Afghanistan,
    Albania,
    Algeria,
    Andorra,
    Angola,
    AntiguaAndBarbuda,
    Argentina,
    Armenia,
    Aruba,
    AmericanSamoa,
    Australia,
    Austria,
    Azerbaijan,
    Bahamas,
    Bangladesh,
    Barbados,
    Burundi,
    Belgium,
    Benin,
    Bermuda,
    Bhutan,
    BosniaAndHerzegovina,
    Belize,
    Belarus,
    Bolivia,
    Botswana,
    Brazil,
    Bahrain,
    Brunei,
    Bulgaria,
    BurkinaFaso,
    CentralAfricanRepublic,
    Cambodia,
    Canada,
    CaymanIslands,
    RepublicOfTheCongo,
    Chad,
    Chile,
    China,
    IvoryCoast,
    Cameroon,
    DemocraticRepublicOfTheCongo,
    CookIslands,
    Colombia,
    Comoros,
    CapeVerde,
    CostaRica,
    Croatia,
    Cuba,
    Cyprus,
    CzechRepublic,
    Denmark,
    Djibouti,
    Dominica,
    DominicanRepublic,
    Ecuador,
    Egypt,
    Eritrea,
    ElSalvador,
    Spain,
    Estonia,
    Ethiopia,
    Fiji,
    Finland,
    France,
    FederatedStatesOfMicronesia,
    Gabon,
    TheGambia,
    GreatBritain,
    GuineaBissau,
    Georgia,
    EquatorialGuinea,
    Germany,
    Ghana,
    Greece,
    Grenada,
    Guatemala,
    Guinea,
    Guam,
    Guyana,
    Haiti,
    HongKong,
    Honduras,
    Hungary,
    Indonesia,
    India,
    Iran,
    Ireland,
    Iraq,
    Iceland,
    Israel,
    VirginIslands,
    Italy,
    BritishVirginIslands,
    Jamaica,
    Jordan,
    Japan,
    Kazakhstan,
    Kenya,
    Kyrgyzstan,
    Kiribati,
    SouthKorea,
    Kosovo,
    SaudiArabia,
    Kuwait,
    Laos,
    Latvia,
    Libya,
    Lebanon,
    Liberia,
    SaintLucia,
    Lesotho,
    Liechtenstein,
    Lithuania,
    Luxembourg,
    Madagascar,
    Morocco,
    Malaysia,
    Malawi,
    Moldova,
    Maldives,
    Mexico,
    Mongolia,
    MarshallIslands,
    NorthMacedonia,
    Mali,
    Malta,
    Montenegro,
    Monaco,
    Mozambique,
    Mauritius,
    Mauritania,
    Myanmar,
    Namibia,
    Nicaragua,
    Netherlands,
    Nepal,
    Nigeria,
    Niger,
    Norway,
    Nauru,
    NewZealand,
    Oman,
    Pakistan,
    Panama,
    Paraguay,
    Peru,
    Philippines,
    Palestine,
    Palau,
    PapuaNewGuinea,
    Poland,
    Portugal,
    NorthKorea,
    PuertoRico,
    Qatar,
    Romania,
    SouthAfrica,
    Russia,
    Rwanda,
    Samoa,
    Senegal,
    Seychelles,
    Singapore,
    SaintKittsAndNevis,
    SierraLeone,
    Slovenia,
    SanMarino,
    SolomonIslands,
    Somalia,
    Serbia,
    SriLanka,
    SouthSudan,
    SaoTomeAndPrincipe,
    Sudan,
    Switzerland,
    Suriname,
    Slovakia,
    Sweden,
    Eswatini,
    Syria,
    Tanzania,
    Tonga,
    Thailand,
    Tajikistan,
    Turkmenistan,
    EastTimor,
    Togo,
    ChineseTaipei,
    TrinidadAndTobago,
    Tunisia,
    Turkey,
    Tuvalu,
    UnitedArabEmirates,
    Uganda,
    Ukraine,
    Uruguay,
    UnitedStates,
    Uzbekistan,
    Vanuatu,
    Venezuela,
    Vietnam,
    SaintVincentAndTheGrenadines,
    Yemen,
    Zambia,
    Zimbabwe,
}

} // verus!
