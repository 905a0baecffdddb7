//! The directory of issuing jurisdictions, keyed by issuer identification number.

use vstd::prelude::*;

verus! {

/// The country of an issuing jurisdiction.
#[derive(Debug, Clone, Copy, PartialEq, Eq, Structural)]
pub enum IssuerCountry {
    UnitedStates,
    Canada,
    Mexico,
}

impl Default for IssuerCountry {
    fn default() -> (r: Self)
        ensures
            r == IssuerCountry::UnitedStates,
    {
        IssuerCountry::UnitedStates
    }
}

/// A jurisdiction that issues licenses, by the number it is identified with.
#[derive(Debug, Clone, Copy, PartialEq, Eq, Structural)]
pub enum IssuerIdentification {
    Alabama,
    Alaska,
    Alberta,
    AmericanSamoa,
    Arizona,
    Arkansas,
    BritishColumbia,
    California,
    Coahuila,
    Colorado,
    Connecticut,
    Delaware,
    DistrictOfColumbia,
    Florida,
    Georgia,
    Guam,
    Hawaii,
    Hidalgo,
    Idaho,
    Illinois,
    Indiana,
    Iowa,
    Kansas,
    Kentucky,
    Louisiana,
    Maine,
    Manitoba,
    Maryland,
    Massachusetts,
    Michigan,
    Minnesota,
    Mississippi,
    Missouri,
    Montana,
    Nebraska,
    Nevada,
    NewBrunswick,
    Newfoundland,
    NewHampshire,
    NewJersey,
    NewMexico,
    NewYork,
    NorthCarolina,
    NorthDakota,
    NortherMariannaIslands,
    NorthwestTerritories,
    NovaScotia,
    Nunavut,
    Ohio,
    Oklahoma,
    Ontario,
    Oregon,
    Pennsylvania,
    PrinceEdwardIsland,
    PuertoRico,
    Quebec,
    RhodeIsland,
    Saskatchewan,
    SouthCarolina,
    SouthDakota,
    StateDepartment,
    Tennessee,
    Texas,
    Utah,
    Vermont,
    Virginia,
    VirginIslands,
    Washington,
    WestVirginia,
    Wisconsin,
    Wyoming,
    Yukon,
}

/// A second number under which Alberta issues licenses.
pub const ALBERTA_ALTERNATE_CODE: u32 = 990876;

impl IssuerIdentification {
    /// The issuer identification number of the jurisdiction.
    pub open spec fn spec_code(self) -> u32 {
        match self {
            IssuerIdentification::Alabama => 636033,
            IssuerIdentification::Alaska => 636059,
            IssuerIdentification::Alberta => 604432,
            IssuerIdentification::AmericanSamoa => 604427,
            IssuerIdentification::Arizona => 636026,
            IssuerIdentification::Arkansas => 636021,
            IssuerIdentification::BritishColumbia => 636028,
            IssuerIdentification::California => 636014,
            IssuerIdentification::Coahuila => 636056,
            IssuerIdentification::Colorado => 636020,
            IssuerIdentification::Connecticut => 636006,
            IssuerIdentification::Delaware => 636011,
            IssuerIdentification::DistrictOfColumbia => 636043,
            IssuerIdentification::Florida => 636010,
            IssuerIdentification::Georgia => 636055,
            IssuerIdentification::Guam => 636019,
            IssuerIdentification::Hawaii => 636047,
            IssuerIdentification::Hidalgo => 636057,
            IssuerIdentification::Idaho => 636050,
            IssuerIdentification::Illinois => 636035,
            IssuerIdentification::Indiana => 636037,
            IssuerIdentification::Iowa => 636018,
            IssuerIdentification::Kansas => 636022,
            IssuerIdentification::Kentucky => 636046,
            IssuerIdentification::Louisiana => 636007,
            IssuerIdentification::Maine => 636041,
            IssuerIdentification::Manitoba => 636048,
            IssuerIdentification::Maryland => 636003,
            IssuerIdentification::Massachusetts => 636002,
            IssuerIdentification::Michigan => 636032,
            IssuerIdentification::Minnesota => 636038,
            IssuerIdentification::Mississippi => 636051,
            IssuerIdentification::Missouri => 636030,
            IssuerIdentification::Montana => 636008,
            IssuerIdentification::Nebraska => 636054,
            IssuerIdentification::Nevada => 636049,
            IssuerIdentification::NewBrunswick => 636017,
            IssuerIdentification::Newfoundland => 636016,
            IssuerIdentification::NewHampshire => 636039,
            IssuerIdentification::NewJersey => 636036,
            IssuerIdentification::NewMexico => 636009,
            IssuerIdentification::NewYork => 636001,
            IssuerIdentification::NorthCarolina => 636004,
            IssuerIdentification::NorthDakota => 636034,
            IssuerIdentification::NortherMariannaIslands => 604430,
            IssuerIdentification::NorthwestTerritories => 604434,
            IssuerIdentification::NovaScotia => 636013,
            IssuerIdentification::Nunavut => 604433,
            IssuerIdentification::Ohio => 636023,
            IssuerIdentification::Oklahoma => 636058,
            IssuerIdentification::Ontario => 636012,
            IssuerIdentification::Oregon => 636029,
            IssuerIdentification::Pennsylvania => 636025,
            IssuerIdentification::PrinceEdwardIsland => 604426,
            IssuerIdentification::PuertoRico => 604431,
            IssuerIdentification::Quebec => 604428,
            IssuerIdentification::RhodeIsland => 636052,
            IssuerIdentification::Saskatchewan => 636044,
            IssuerIdentification::SouthCarolina => 636005,
            IssuerIdentification::SouthDakota => 636042,
            IssuerIdentification::StateDepartment => 636027,
            IssuerIdentification::Tennessee => 636053,
            IssuerIdentification::Texas => 636015,
            IssuerIdentification::Utah => 636040,
            IssuerIdentification::Vermont => 636024,
            IssuerIdentification::Virginia => 636000,
            IssuerIdentification::VirginIslands => 636062,
            IssuerIdentification::Washington => 636045,
            IssuerIdentification::WestVirginia => 636061,
            IssuerIdentification::Wisconsin => 636031,
            IssuerIdentification::Wyoming => 636060,
            IssuerIdentification::Yukon => 604429,
        }
    }

    /// The jurisdiction that a number identifies, alternate numbers included.
    pub open spec fn spec_from_code(code: u32) -> Option<IssuerIdentification> {
        match code {
            636033 => Some(IssuerIdentification::Alabama),
            636059 => Some(IssuerIdentification::Alaska),
            604432 => Some(IssuerIdentification::Alberta),
            604427 => Some(IssuerIdentification::AmericanSamoa),
            636026 => Some(IssuerIdentification::Arizona),
            636021 => Some(IssuerIdentification::Arkansas),
            636028 => Some(IssuerIdentification::BritishColumbia),
            636014 => Some(IssuerIdentification::California),
            636056 => Some(IssuerIdentification::Coahuila),
            636020 => Some(IssuerIdentification::Colorado),
            636006 => Some(IssuerIdentification::Connecticut),
            636011 => Some(IssuerIdentification::Delaware),
            636043 => Some(IssuerIdentification::DistrictOfColumbia),
            636010 => Some(IssuerIdentification::Florida),
            636055 => Some(IssuerIdentification::Georgia),
            636019 => Some(IssuerIdentification::Guam),
            636047 => Some(IssuerIdentification::Hawaii),
            636057 => Some(IssuerIdentification::Hidalgo),
            636050 => Some(IssuerIdentification::Idaho),
            636035 => Some(IssuerIdentification::Illinois),
            636037 => Some(IssuerIdentification::Indiana),
            636018 => Some(IssuerIdentification::Iowa),
            636022 => Some(IssuerIdentification::Kansas),
            636046 => Some(IssuerIdentification::Kentucky),
            636007 => Some(IssuerIdentification::Louisiana),
            636041 => Some(IssuerIdentification::Maine),
            636048 => Some(IssuerIdentification::Manitoba),
            636003 => Some(IssuerIdentification::Maryland),
            636002 => Some(IssuerIdentification::Massachusetts),
            636032 => Some(IssuerIdentification::Michigan),
            636038 => Some(IssuerIdentification::Minnesota),
            636051 => Some(IssuerIdentification::Mississippi),
            636030 => Some(IssuerIdentification::Missouri),
            636008 => Some(IssuerIdentification::Montana),
            636054 => Some(IssuerIdentification::Nebraska),
            636049 => Some(IssuerIdentification::Nevada),
            636017 => Some(IssuerIdentification::NewBrunswick),
            636016 => Some(IssuerIdentification::Newfoundland),
            636039 => Some(IssuerIdentification::NewHampshire),
            636036 => Some(IssuerIdentification::NewJersey),
            636009 => Some(IssuerIdentification::NewMexico),
            636001 => Some(IssuerIdentification::NewYork),
            636004 => Some(IssuerIdentification::NorthCarolina),
            636034 => Some(IssuerIdentification::NorthDakota),
            604430 => Some(IssuerIdentification::NortherMariannaIslands),
            604434 => Some(IssuerIdentification::NorthwestTerritories),
            636013 => Some(IssuerIdentification::NovaScotia),
            604433 => Some(IssuerIdentification::Nunavut),
            636023 => Some(IssuerIdentification::Ohio),
            636058 => Some(IssuerIdentification::Oklahoma),
            636012 => Some(IssuerIdentification::Ontario),
            636029 => Some(IssuerIdentification::Oregon),
            636025 => Some(IssuerIdentification::Pennsylvania),
            604426 => Some(IssuerIdentification::PrinceEdwardIsland),
            604431 => Some(IssuerIdentification::PuertoRico),
            604428 => Some(IssuerIdentification::Quebec),
            636052 => Some(IssuerIdentification::RhodeIsland),
            636044 => Some(IssuerIdentification::Saskatchewan),
            636005 => Some(IssuerIdentification::SouthCarolina),
            636042 => Some(IssuerIdentification::SouthDakota),
            636027 => Some(IssuerIdentification::StateDepartment),
            636053 => Some(IssuerIdentification::Tennessee),
            636015 => Some(IssuerIdentification::Texas),
            636040 => Some(IssuerIdentification::Utah),
            636024 => Some(IssuerIdentification::Vermont),
            636000 => Some(IssuerIdentification::Virginia),
            636062 => Some(IssuerIdentification::VirginIslands),
            636045 => Some(IssuerIdentification::Washington),
            636061 => Some(IssuerIdentification::WestVirginia),
            636031 => Some(IssuerIdentification::Wisconsin),
            636060 => Some(IssuerIdentification::Wyoming),
            604429 => Some(IssuerIdentification::Yukon),
            ALBERTA_ALTERNATE_CODE => Some(IssuerIdentification::Alberta),
            _ => None,
        }
    }

    pub open spec fn spec_country(self) -> IssuerCountry {
        match self {
            IssuerIdentification::PrinceEdwardIsland => IssuerCountry::Canada,
            IssuerIdentification::Quebec => IssuerCountry::Canada,
            IssuerIdentification::Yukon => IssuerCountry::Canada,
            IssuerIdentification::Alberta => IssuerCountry::Canada,
            IssuerIdentification::Nunavut => IssuerCountry::Canada,
            IssuerIdentification::NorthwestTerritories => IssuerCountry::Canada,
            IssuerIdentification::Ontario => IssuerCountry::Canada,
            IssuerIdentification::NovaScotia => IssuerCountry::Canada,
            IssuerIdentification::Newfoundland => IssuerCountry::Canada,
            IssuerIdentification::NewBrunswick => IssuerCountry::Canada,
            IssuerIdentification::BritishColumbia => IssuerCountry::Canada,
            IssuerIdentification::Saskatchewan => IssuerCountry::Canada,
            IssuerIdentification::Manitoba => IssuerCountry::Canada,
            IssuerIdentification::Coahuila => IssuerCountry::Mexico,
            IssuerIdentification::Hidalgo => IssuerCountry::Mexico,
            _ => IssuerCountry::UnitedStates,
        }
    }

    /// The issuer identification number of the jurisdiction.
    pub fn code(&self) -> (r: u32)
        ensures
            r == self.spec_code(),
    {
        match self {
            IssuerIdentification::Alabama => 636033,
            IssuerIdentification::Alaska => 636059,
            IssuerIdentification::Alberta => 604432,
            IssuerIdentification::AmericanSamoa => 604427,
            IssuerIdentification::Arizona => 636026,
            IssuerIdentification::Arkansas => 636021,
            IssuerIdentification::BritishColumbia => 636028,
            IssuerIdentification::California => 636014,
            IssuerIdentification::Coahuila => 636056,
            IssuerIdentification::Colorado => 636020,
            IssuerIdentification::Connecticut => 636006,
            IssuerIdentification::Delaware => 636011,
            IssuerIdentification::DistrictOfColumbia => 636043,
            IssuerIdentification::Florida => 636010,
            IssuerIdentification::Georgia => 636055,
            IssuerIdentification::Guam => 636019,
            IssuerIdentification::Hawaii => 636047,
            IssuerIdentification::Hidalgo => 636057,
            IssuerIdentification::Idaho => 636050,
            IssuerIdentification::Illinois => 636035,
            IssuerIdentification::Indiana => 636037,
            IssuerIdentification::Iowa => 636018,
            IssuerIdentification::Kansas => 636022,
            IssuerIdentification::Kentucky => 636046,
            IssuerIdentification::Louisiana => 636007,
            IssuerIdentification::Maine => 636041,
            IssuerIdentification::Manitoba => 636048,
            IssuerIdentification::Maryland => 636003,
            IssuerIdentification::Massachusetts => 636002,
            IssuerIdentification::Michigan => 636032,
            IssuerIdentification::Minnesota => 636038,
            IssuerIdentification::Mississippi => 636051,
            IssuerIdentification::Missouri => 636030,
            IssuerIdentification::Montana => 636008,
            IssuerIdentification::Nebraska => 636054,
            IssuerIdentification::Nevada => 636049,
            IssuerIdentification::NewBrunswick => 636017,
            IssuerIdentification::Newfoundland => 636016,
            IssuerIdentification::NewHampshire => 636039,
            IssuerIdentification::NewJersey => 636036,
            IssuerIdentification::NewMexico => 636009,
            IssuerIdentification::NewYork => 636001,
            IssuerIdentification::NorthCarolina => 636004,
            IssuerIdentification::NorthDakota => 636034,
            IssuerIdentification::NortherMariannaIslands => 604430,
            IssuerIdentification::NorthwestTerritories => 604434,
            IssuerIdentification::NovaScotia => 636013,
            IssuerIdentification::Nunavut => 604433,
            IssuerIdentification::Ohio => 636023,
            IssuerIdentification::Oklahoma => 636058,
            IssuerIdentification::Ontario => 636012,
            IssuerIdentification::Oregon => 636029,
            IssuerIdentification::Pennsylvania => 636025,
            IssuerIdentification::PrinceEdwardIsland => 604426,
            IssuerIdentification::PuertoRico => 604431,
            IssuerIdentification::Quebec => 604428,
            IssuerIdentification::RhodeIsland => 636052,
            IssuerIdentification::Saskatchewan => 636044,
            IssuerIdentification::SouthCarolina => 636005,
            IssuerIdentification::SouthDakota => 636042,
            IssuerIdentification::StateDepartment => 636027,
            IssuerIdentification::Tennessee => 636053,
            IssuerIdentification::Texas => 636015,
            IssuerIdentification::Utah => 636040,
            IssuerIdentification::Vermont => 636024,
            IssuerIdentification::Virginia => 636000,
            IssuerIdentification::VirginIslands => 636062,
            IssuerIdentification::Washington => 636045,
            IssuerIdentification::WestVirginia => 636061,
            IssuerIdentification::Wisconsin => 636031,
            IssuerIdentification::Wyoming => 636060,
            IssuerIdentification::Yukon => 604429,
        }
    }

    /// The jurisdiction that `code` identifies, if any.
    pub fn from_code(code: u32) -> (r: Option<IssuerIdentification>)
        ensures
            r == Self::spec_from_code(code),
    {
        match code {
            636033 => Some(IssuerIdentification::Alabama),
            636059 => Some(IssuerIdentification::Alaska),
            604432 => Some(IssuerIdentification::Alberta),
            604427 => Some(IssuerIdentification::AmericanSamoa),
            636026 => Some(IssuerIdentification::Arizona),
            636021 => Some(IssuerIdentification::Arkansas),
            636028 => Some(IssuerIdentification::BritishColumbia),
            636014 => Some(IssuerIdentification::California),
            636056 => Some(IssuerIdentification::Coahuila),
            636020 => Some(IssuerIdentification::Colorado),
            636006 => Some(IssuerIdentification::Connecticut),
            636011 => Some(IssuerIdentification::Delaware),
            636043 => Some(IssuerIdentification::DistrictOfColumbia),
            636010 => Some(IssuerIdentification::Florida),
            636055 => Some(IssuerIdentification::Georgia),
            636019 => Some(IssuerIdentification::Guam),
            636047 => Some(IssuerIdentification::Hawaii),
            636057 => Some(IssuerIdentification::Hidalgo),
            636050 => Some(IssuerIdentification::Idaho),
            636035 => Some(IssuerIdentification::Illinois),
            636037 => Some(IssuerIdentification::Indiana),
            636018 => Some(IssuerIdentification::Iowa),
            636022 => Some(IssuerIdentification::Kansas),
            636046 => Some(IssuerIdentification::Kentucky),
            636007 => Some(IssuerIdentification::Louisiana),
            636041 => Some(IssuerIdentification::Maine),
            636048 => Some(IssuerIdentification::Manitoba),
            636003 => Some(IssuerIdentification::Maryland),
            636002 => Some(IssuerIdentification::Massachusetts),
            636032 => Some(IssuerIdentification::Michigan),
            636038 => Some(IssuerIdentification::Minnesota),
            636051 => Some(IssuerIdentification::Mississippi),
            636030 => Some(IssuerIdentification::Missouri),
            636008 => Some(IssuerIdentification::Montana),
            636054 => Some(IssuerIdentification::Nebraska),
            636049 => Some(IssuerIdentification::Nevada),
            636017 => Some(IssuerIdentification::NewBrunswick),
            636016 => Some(IssuerIdentification::Newfoundland),
            636039 => Some(IssuerIdentification::NewHampshire),
            636036 => Some(IssuerIdentification::NewJersey),
            636009 => Some(IssuerIdentification::NewMexico),
            636001 => Some(IssuerIdentification::NewYork),
            636004 => Some(IssuerIdentification::NorthCarolina),
            636034 => Some(IssuerIdentification::NorthDakota),
            604430 => Some(IssuerIdentification::NortherMariannaIslands),
            604434 => Some(IssuerIdentification::NorthwestTerritories),
            636013 => Some(IssuerIdentification::NovaScotia),
            604433 => Some(IssuerIdentification::Nunavut),
            636023 => Some(IssuerIdentification::Ohio),
            636058 => Some(IssuerIdentification::Oklahoma),
            636012 => Some(IssuerIdentification::Ontario),
            636029 => Some(IssuerIdentification::Oregon),
            636025 => Some(IssuerIdentification::Pennsylvania),
            604426 => Some(IssuerIdentification::PrinceEdwardIsland),
            604431 => Some(IssuerIdentification::PuertoRico),
            604428 => Some(IssuerIdentification::Quebec),
            636052 => Some(IssuerIdentification::RhodeIsland),
            636044 => Some(IssuerIdentification::Saskatchewan),
            636005 => Some(IssuerIdentification::SouthCarolina),
            636042 => Some(IssuerIdentification::SouthDakota),
            636027 => Some(IssuerIdentification::StateDepartment),
            636053 => Some(IssuerIdentification::Tennessee),
            636015 => Some(IssuerIdentification::Texas),
            636040 => Some(IssuerIdentification::Utah),
            636024 => Some(IssuerIdentification::Vermont),
            636000 => Some(IssuerIdentification::Virginia),
            636062 => Some(IssuerIdentification::VirginIslands),
            636045 => Some(IssuerIdentification::Washington),
            636061 => Some(IssuerIdentification::WestVirginia),
            636031 => Some(IssuerIdentification::Wisconsin),
            636060 => Some(IssuerIdentification::Wyoming),
            604429 => Some(IssuerIdentification::Yukon),
            ALBERTA_ALTERNATE_CODE => Some(IssuerIdentification::Alberta),
            _ => None,
        }
    }

    /// The country the jurisdiction belongs to.
    pub fn country(&self) -> (r: IssuerCountry)
        ensures
            r == self.spec_country(),
    {
        match self {
            IssuerIdentification::PrinceEdwardIsland => IssuerCountry::Canada,
            IssuerIdentification::Quebec => IssuerCountry::Canada,
            IssuerIdentification::Yukon => IssuerCountry::Canada,
            IssuerIdentification::Alberta => IssuerCountry::Canada,
            IssuerIdentification::Nunavut => IssuerCountry::Canada,
            IssuerIdentification::NorthwestTerritories => IssuerCountry::Canada,
            IssuerIdentification::Ontario => IssuerCountry::Canada,
            IssuerIdentification::NovaScotia => IssuerCountry::Canada,
            IssuerIdentification::Newfoundland => IssuerCountry::Canada,
            IssuerIdentification::NewBrunswick => IssuerCountry::Canada,
            IssuerIdentification::BritishColumbia => IssuerCountry::Canada,
            IssuerIdentification::Saskatchewan => IssuerCountry::Canada,
            IssuerIdentification::Manitoba => IssuerCountry::Canada,
            IssuerIdentification::Coahuila => IssuerCountry::Mexico,
            IssuerIdentification::Hidalgo => IssuerCountry::Mexico,
            _ => IssuerCountry::UnitedStates,
        }
    }
}

/// The country of the jurisdiction that an issuer number identifies; an unknown number counts
/// as the United States.
pub open spec fn spec_country_of_code(code: u32) -> IssuerCountry {
    match IssuerIdentification::spec_from_code(code) {
        Some(j) => j.spec_country(),
        None => IssuerCountry::UnitedStates,
    }
}

/// The country of the jurisdiction that an issuer number identifies; an unknown number counts
/// as the United States.
pub fn country_of_code(code: u32) -> (r: IssuerCountry)
    ensures
        r == spec_country_of_code(code),
{
    match IssuerIdentification::from_code(code) {
        Some(j) => j.country(),
        None => IssuerCountry::default(),
    }
}

} // verus!
