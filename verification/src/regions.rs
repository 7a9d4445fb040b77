use vstd::prelude::*;
use vstd::string::StringExecFns;

use crate::strutil::str_eq;

verus! {

/// The closed set of supported chart regions, plus a sentinel for
/// unrecognized input. Classification never fails: anything outside the
/// vocabulary maps to `NOTVALID`.
#[derive(Clone, Copy, Debug, PartialEq, Eq, Structural)]
#[allow(non_camel_case_types)]
pub enum Regions {
    GLOBAL,
    US,
    GB,
    AU,
    CA,
    FR,
    NL,
    FI,
    NO,
    DK,
    SE,
    CH,
    IE,
    NZ,
    MY,
    SG,
    JP,
    IN,
    PH,
    ID,
    DE,
    IT,
    AT,
    BE,
    HU,
    PT,
    ES,
    BR,
    CO,
    MX,
    AR,
    PL,
    CL,
    TR,
    KR,
    TH,
    NOTVALID,
}

/// The lowercase code of each region; the sentinel carries a marker that is
/// itself outside the code vocabulary.
pub open spec fn code_seq(r: Regions) -> Seq<char> {
    match r {
        Regions::GLOBAL => "global"@,
        Regions::US => "us"@,
        Regions::GB => "gb"@,
        Regions::AU => "au"@,
        Regions::CA => "ca"@,
        Regions::FR => "fr"@,
        Regions::NL => "nl"@,
        Regions::FI => "fi"@,
        Regions::NO => "no"@,
        Regions::DK => "dk"@,
        Regions::SE => "se"@,
        Regions::CH => "ch"@,
        Regions::IE => "ie"@,
        Regions::NZ => "nz"@,
        Regions::MY => "my"@,
        Regions::SG => "sg"@,
        Regions::JP => "jp"@,
        Regions::IN => "in"@,
        Regions::PH => "ph"@,
        Regions::ID => "id"@,
        Regions::DE => "de"@,
        Regions::IT => "it"@,
        Regions::AT => "at"@,
        Regions::BE => "be"@,
        Regions::HU => "hu"@,
        Regions::PT => "pt"@,
        Regions::ES => "es"@,
        Regions::BR => "br"@,
        Regions::CO => "co"@,
        Regions::MX => "mx"@,
        Regions::AR => "ar"@,
        Regions::PL => "pl"@,
        Regions::CL => "cl"@,
        Regions::TR => "tr"@,
        Regions::KR => "kr"@,
        Regions::TH => "th"@,
        Regions::NOTVALID => "invd"@,
    }
}

/// Classification of an arbitrary string: the region whose code it equals
/// exactly (case-sensitive), else the sentinel.
pub open spec fn region_of(s: Seq<char>) -> Regions {
    if s == "global"@ {
        Regions::GLOBAL
    } else if s == "us"@ {
        Regions::US
    } else if s == "gb"@ {
        Regions::GB
    } else if s == "au"@ {
        Regions::AU
    } else if s == "ca"@ {
        Regions::CA
    } else if s == "fr"@ {
        Regions::FR
    } else if s == "nl"@ {
        Regions::NL
    } else if s == "fi"@ {
        Regions::FI
    } else if s == "no"@ {
        Regions::NO
    } else if s == "dk"@ {
        Regions::DK
    } else if s == "se"@ {
        Regions::SE
    } else if s == "ch"@ {
        Regions::CH
    } else if s == "ie"@ {
        Regions::IE
    } else if s == "nz"@ {
        Regions::NZ
    } else if s == "my"@ {
        Regions::MY
    } else if s == "sg"@ {
        Regions::SG
    } else if s == "jp"@ {
        Regions::JP
    } else if s == "in"@ {
        Regions::IN
    } else if s == "ph"@ {
        Regions::PH
    } else if s == "id"@ {
        Regions::ID
    } else if s == "de"@ {
        Regions::DE
    } else if s == "it"@ {
        Regions::IT
    } else if s == "at"@ {
        Regions::AT
    } else if s == "be"@ {
        Regions::BE
    } else if s == "hu"@ {
        Regions::HU
    } else if s == "pt"@ {
        Regions::PT
    } else if s == "es"@ {
        Regions::ES
    } else if s == "br"@ {
        Regions::BR
    } else if s == "co"@ {
        Regions::CO
    } else if s == "mx"@ {
        Regions::MX
    } else if s == "ar"@ {
        Regions::AR
    } else if s == "pl"@ {
        Regions::PL
    } else if s == "cl"@ {
        Regions::CL
    } else if s == "tr"@ {
        Regions::TR
    } else if s == "kr"@ {
        Regions::KR
    } else if s == "th"@ {
        Regions::TH
    } else {
        Regions::NOTVALID
    }
}

/// The region at each position of the fixed enumeration order; positions
/// outside the table map to the sentinel.
pub open spec fn region_index(n: int) -> Regions {
    if n == 0 {
        Regions::GLOBAL
    } else if n == 1 {
        Regions::US
    } else if n == 2 {
        Regions::GB
    } else if n == 3 {
        Regions::AU
    } else if n == 4 {
        Regions::CA
    } else if n == 5 {
        Regions::FR
    } else if n == 6 {
        Regions::NL
    } else if n == 7 {
        Regions::FI
    } else if n == 8 {
        Regions::NO
    } else if n == 9 {
        Regions::DK
    } else if n == 10 {
        Regions::SE
    } else if n == 11 {
        Regions::CH
    } else if n == 12 {
        Regions::IE
    } else if n == 13 {
        Regions::NZ
    } else if n == 14 {
        Regions::MY
    } else if n == 15 {
        Regions::SG
    } else if n == 16 {
        Regions::JP
    } else if n == 17 {
        Regions::IN
    } else if n == 18 {
        Regions::PH
    } else if n == 19 {
        Regions::ID
    } else if n == 20 {
        Regions::DE
    } else if n == 21 {
        Regions::IT
    } else if n == 22 {
        Regions::AT
    } else if n == 23 {
        Regions::BE
    } else if n == 24 {
        Regions::HU
    } else if n == 25 {
        Regions::PT
    } else if n == 26 {
        Regions::ES
    } else if n == 27 {
        Regions::BR
    } else if n == 28 {
        Regions::CO
    } else if n == 29 {
        Regions::MX
    } else if n == 30 {
        Regions::AR
    } else if n == 31 {
        Regions::PL
    } else if n == 32 {
        Regions::CL
    } else if n == 33 {
        Regions::TR
    } else if n == 34 {
        Regions::KR
    } else if n == 35 {
        Regions::TH
    } else {
        Regions::NOTVALID
    }
}

/// The human-readable display name of each region.
pub open spec fn display_seq(r: Regions) -> Seq<char> {
    match r {
        Regions::GLOBAL => "Global"@,
        Regions::US => "US"@,
        Regions::GB => "UK"@,
        Regions::AU => "Australia"@,
        Regions::CA => "Canada"@,
        Regions::FR => "France"@,
        Regions::NL => "Netherlands"@,
        Regions::FI => "Finland"@,
        Regions::NO => "Norway"@,
        Regions::DK => "Denmark"@,
        Regions::SE => "Sweden"@,
        Regions::CH => "Switzerland"@,
        Regions::IE => "Ireland"@,
        Regions::NZ => "NewZealand"@,
        Regions::MY => "Malaysia"@,
        Regions::SG => "Singapore"@,
        Regions::JP => "Japan"@,
        Regions::IN => "India"@,
        Regions::PH => "Philippines"@,
        Regions::ID => "Indonesia"@,
        Regions::DE => "Germany"@,
        Regions::IT => "Italy"@,
        Regions::AT => "Austria"@,
        Regions::BE => "Belgium"@,
        Regions::HU => "Hungary"@,
        Regions::PT => "Portugal"@,
        Regions::ES => "Spain"@,
        Regions::BR => "Brazil"@,
        Regions::CO => "Colombia"@,
        Regions::MX => "Mexico"@,
        Regions::AR => "Argentina"@,
        Regions::PL => "Poland"@,
        Regions::CL => "Chile"@,
        Regions::TR => "Turkey"@,
        Regions::KR => "South Korea"@,
        Regions::TH => "Thailand"@,
        Regions::NOTVALID => "Invalid"@,
    }
}

/// A region's display name as text.
pub trait RegionString {
    /// The character sequence that `to_region_string` promises to return.
    spec fn region_string_spec(&self) -> Seq<char>;

    fn to_region_string(&self) -> (s: String)
        ensures
            s@ == self.region_string_spec(),
    ;
}

impl RegionString for Regions {
    open spec fn region_string_spec(&self) -> Seq<char> {
        display_seq(*self)
    }

    fn to_region_string(&self) -> (s: String) {
        match *self {
            Regions::GLOBAL => String::from_str("Global"),
            Regions::US => String::from_str("US"),
            Regions::GB => String::from_str("UK"),
            Regions::AU => String::from_str("Australia"),
            Regions::CA => String::from_str("Canada"),
            Regions::FR => String::from_str("France"),
            Regions::NL => String::from_str("Netherlands"),
            Regions::FI => String::from_str("Finland"),
            Regions::NO => String::from_str("Norway"),
            Regions::DK => String::from_str("Denmark"),
            Regions::SE => String::from_str("Sweden"),
            Regions::CH => String::from_str("Switzerland"),
            Regions::IE => String::from_str("Ireland"),
            Regions::NZ => String::from_str("NewZealand"),
            Regions::MY => String::from_str("Malaysia"),
            Regions::SG => String::from_str("Singapore"),
            Regions::JP => String::from_str("Japan"),
            Regions::IN => String::from_str("India"),
            Regions::PH => String::from_str("Philippines"),
            Regions::ID => String::from_str("Indonesia"),
            Regions::DE => String::from_str("Germany"),
            Regions::IT => String::from_str("Italy"),
            Regions::AT => String::from_str("Austria"),
            Regions::BE => String::from_str("Belgium"),
            Regions::HU => String::from_str("Hungary"),
            Regions::PT => String::from_str("Portugal"),
            Regions::ES => String::from_str("Spain"),
            Regions::BR => String::from_str("Brazil"),
            Regions::CO => String::from_str("Colombia"),
            Regions::MX => String::from_str("Mexico"),
            Regions::AR => String::from_str("Argentina"),
            Regions::PL => String::from_str("Poland"),
            Regions::CL => String::from_str("Chile"),
            Regions::TR => String::from_str("Turkey"),
            Regions::KR => String::from_str("South Korea"),
            Regions::TH => String::from_str("Thailand"),
            Regions::NOTVALID => String::from_str("Invalid"),
        }
    }
}

impl core::convert::From<&str> for Regions {
    fn from(st: &str) -> (r: Self) {
        if str_eq(st, "global") {
            Regions::GLOBAL
        } else if str_eq(st, "us") {
            Regions::US
        } else if str_eq(st, "gb") {
            Regions::GB
        } else if str_eq(st, "au") {
            Regions::AU
        } else if str_eq(st, "ca") {
            Regions::CA
        } else if str_eq(st, "fr") {
            Regions::FR
        } else if str_eq(st, "nl") {
            Regions::NL
        } else if str_eq(st, "fi") {
            Regions::FI
        } else if str_eq(st, "no") {
            Regions::NO
        } else if str_eq(st, "dk") {
            Regions::DK
        } else if str_eq(st, "se") {
            Regions::SE
        } else if str_eq(st, "ch") {
            Regions::CH
        } else if str_eq(st, "ie") {
            Regions::IE
        } else if str_eq(st, "nz") {
            Regions::NZ
        } else if str_eq(st, "my") {
            Regions::MY
        } else if str_eq(st, "sg") {
            Regions::SG
        } else if str_eq(st, "jp") {
            Regions::JP
        } else if str_eq(st, "in") {
            Regions::IN
        } else if str_eq(st, "ph") {
            Regions::PH
        } else if str_eq(st, "id") {
            Regions::ID
        } else if str_eq(st, "de") {
            Regions::DE
        } else if str_eq(st, "it") {
            Regions::IT
        } else if str_eq(st, "at") {
            Regions::AT
        } else if str_eq(st, "be") {
            Regions::BE
        } else if str_eq(st, "hu") {
            Regions::HU
        } else if str_eq(st, "pt") {
            Regions::PT
        } else if str_eq(st, "es") {
            Regions::ES
        } else if str_eq(st, "br") {
            Regions::BR
        } else if str_eq(st, "co") {
            Regions::CO
        } else if str_eq(st, "mx") {
            Regions::MX
        } else if str_eq(st, "ar") {
            Regions::AR
        } else if str_eq(st, "pl") {
            Regions::PL
        } else if str_eq(st, "cl") {
            Regions::CL
        } else if str_eq(st, "tr") {
            Regions::TR
        } else if str_eq(st, "kr") {
            Regions::KR
        } else if str_eq(st, "th") {
            Regions::TH
        } else {
            Regions::NOTVALID
        }
    }
}

impl vstd::std_specs::convert::FromSpecImpl<&str> for Regions {
    open spec fn obeys_from_spec() -> bool {
        true
    }

    open spec fn from_spec(v: &str) -> Regions {
        region_of(v@)
    }
}

impl core::convert::From<u8> for Regions {
    fn from(num: u8) -> (r: Self) {
        match num {
            0 => Regions::GLOBAL,
            1 => Regions::US,
            2 => Regions::GB,
            3 => Regions::AU,
            4 => Regions::CA,
            5 => Regions::FR,
            6 => Regions::NL,
            7 => Regions::FI,
            8 => Regions::NO,
            9 => Regions::DK,
            10 => Regions::SE,
            11 => Regions::CH,
            12 => Regions::IE,
            13 => Regions::NZ,
            14 => Regions::MY,
            15 => Regions::SG,
            16 => Regions::JP,
            17 => Regions::IN,
            18 => Regions::PH,
            19 => Regions::ID,
            20 => Regions::DE,
            21 => Regions::IT,
            22 => Regions::AT,
            23 => Regions::BE,
            24 => Regions::HU,
            25 => Regions::PT,
            26 => Regions::ES,
            27 => Regions::BR,
            28 => Regions::CO,
            29 => Regions::MX,
            30 => Regions::AR,
            31 => Regions::PL,
            32 => Regions::CL,
            33 => Regions::TR,
            34 => Regions::KR,
            35 => Regions::TH,
            _ => Regions::NOTVALID,
        }
    }
}

impl vstd::std_specs::convert::FromSpecImpl<u8> for Regions {
    open spec fn obeys_from_spec() -> bool {
        true
    }

    open spec fn from_spec(v: u8) -> Regions {
        region_index(v as int)
    }
}

impl Regions {
    /// The region's lowercase code as text.
    pub fn code_string(&self) -> (s: String)
        ensures
            s@ == code_seq(*self),
    {
        match *self {
            Regions::GLOBAL => String::from_str("global"),
            Regions::US => String::from_str("us"),
            Regions::GB => String::from_str("gb"),
            Regions::AU => String::from_str("au"),
            Regions::CA => String::from_str("ca"),
            Regions::FR => String::from_str("fr"),
            Regions::NL => String::from_str("nl"),
            Regions::FI => String::from_str("fi"),
            Regions::NO => String::from_str("no"),
            Regions::DK => String::from_str("dk"),
            Regions::SE => String::from_str("se"),
            Regions::CH => String::from_str("ch"),
            Regions::IE => String::from_str("ie"),
            Regions::NZ => String::from_str("nz"),
            Regions::MY => String::from_str("my"),
            Regions::SG => String::from_str("sg"),
            Regions::JP => String::from_str("jp"),
            Regions::IN => String::from_str("in"),
            Regions::PH => String::from_str("ph"),
            Regions::ID => String::from_str("id"),
            Regions::DE => String::from_str("de"),
            Regions::IT => String::from_str("it"),
            Regions::AT => String::from_str("at"),
            Regions::BE => String::from_str("be"),
            Regions::HU => String::from_str("hu"),
            Regions::PT => String::from_str("pt"),
            Regions::ES => String::from_str("es"),
            Regions::BR => String::from_str("br"),
            Regions::CO => String::from_str("co"),
            Regions::MX => String::from_str("mx"),
            Regions::AR => String::from_str("ar"),
            Regions::PL => String::from_str("pl"),
            Regions::CL => String::from_str("cl"),
            Regions::TR => String::from_str("tr"),
            Regions::KR => String::from_str("kr"),
            Regions::TH => String::from_str("th"),
            Regions::NOTVALID => String::from_str("invd"),
        }
    }

    /// Every supported region, in the fixed enumeration order.
    pub fn regions_vec() -> (v: Vec<Regions>)
        ensures
            v@.len() == 36,
            forall|i: int| 0 <= i < 36 ==> v@[i] == region_index(i),
    {
        let mut to_return: Vec<Regions> = Vec::new();
        let mut i: u8 = 0;
        while i <= 35
            invariant
                i <= 36,
                to_return@.len() == i as int,
                forall|j: int| 0 <= j < i ==> to_return@[j] == region_index(j),
            decreases 36 - i,
        {
            to_return.push(Regions::from(i));
            i = i + 1;
        }
        to_return
    }
}

/// A region code is accepted exactly when it classifies to something other
/// than the sentinel.
pub fn verify_code(code: &str) -> (r: bool)
    ensures
        r == (region_of(code@) != Regions::NOTVALID),
{
    match Regions::from(code) {
        Regions::NOTVALID => false,
        _ => true,
    }
}

/// Classifying the code of any supported region gives that region back:
/// no valid code is ever classified as the sentinel.
#[verifier::rlimit(60)]
pub proof fn lemma_valid_code_classifies(r: Regions)
    requires
        r != Regions::NOTVALID,
    ensures
        region_of(code_seq(r)) == r,
{
    reveal_strlit("global");
    reveal_strlit("us");
    reveal_strlit("gb");
    reveal_strlit("au");
    reveal_strlit("ca");
    reveal_strlit("fr");
    reveal_strlit("nl");
    reveal_strlit("fi");
    reveal_strlit("no");
    reveal_strlit("dk");
    reveal_strlit("se");
    reveal_strlit("ch");
    reveal_strlit("ie");
    reveal_strlit("nz");
    reveal_strlit("my");
    reveal_strlit("sg");
    reveal_strlit("jp");
    reveal_strlit("in");
    reveal_strlit("ph");
    reveal_strlit("id");
    reveal_strlit("de");
    reveal_strlit("it");
    reveal_strlit("at");
    reveal_strlit("be");
    reveal_strlit("hu");
    reveal_strlit("pt");
    reveal_strlit("es");
    reveal_strlit("br");
    reveal_strlit("co");
    reveal_strlit("mx");
    reveal_strlit("ar");
    reveal_strlit("pl");
    reveal_strlit("cl");
    reveal_strlit("tr");
    reveal_strlit("kr");
    reveal_strlit("th");
    assert("global"@.len() == 6);
    assert("global"@[0] == 'g');
    assert("global"@[1] == 'l');
    assert("global"@[2] == 'o');
    assert("global"@[3] == 'b');
    assert("global"@[4] == 'a');
    assert("global"@[5] == 'l');
    assert("us"@.len() == 2);
    assert("us"@[0] == 'u');
    assert("us"@[1] == 's');
    assert("gb"@.len() == 2);
    assert("gb"@[0] == 'g');
    assert("gb"@[1] == 'b');
    assert("au"@.len() == 2);
    assert("au"@[0] == 'a');
    assert("au"@[1] == 'u');
    assert("ca"@.len() == 2);
    assert("ca"@[0] == 'c');
    assert("ca"@[1] == 'a');
    assert("fr"@.len() == 2);
    assert("fr"@[0] == 'f');
    assert("fr"@[1] == 'r');
    assert("nl"@.len() == 2);
    assert("nl"@[0] == 'n');
    assert("nl"@[1] == 'l');
    assert("fi"@.len() == 2);
    assert("fi"@[0] == 'f');
    assert("fi"@[1] == 'i');
    assert("no"@.len() == 2);
    assert("no"@[0] == 'n');
    assert("no"@[1] == 'o');
    assert("dk"@.len() == 2);
    assert("dk"@[0] == 'd');
    assert("dk"@[1] == 'k');
    assert("se"@.len() == 2);
    assert("se"@[0] == 's');
    assert("se"@[1] == 'e');
    assert("ch"@.len() == 2);
    assert("ch"@[0] == 'c');
    assert("ch"@[1] == 'h');
    assert("ie"@.len() == 2);
    assert("ie"@[0] == 'i');
    assert("ie"@[1] == 'e');
    assert("nz"@.len() == 2);
    assert("nz"@[0] == 'n');
    assert("nz"@[1] == 'z');
    assert("my"@.len() == 2);
    assert("my"@[0] == 'm');
    assert("my"@[1] == 'y');
    assert("sg"@.len() == 2);
    assert("sg"@[0] == 's');
    assert("sg"@[1] == 'g');
    assert("jp"@.len() == 2);
    assert("jp"@[0] == 'j');
    assert("jp"@[1] == 'p');
    assert("in"@.len() == 2);
    assert("in"@[0] == 'i');
    assert("in"@[1] == 'n');
    assert("ph"@.len() == 2);
    assert("ph"@[0] == 'p');
    assert("ph"@[1] == 'h');
    assert("id"@.len() == 2);
    assert("id"@[0] == 'i');
    assert("id"@[1] == 'd');
    assert("de"@.len() == 2);
    assert("de"@[0] == 'd');
    assert("de"@[1] == 'e');
    assert("it"@.len() == 2);
    assert("it"@[0] == 'i');
    assert("it"@[1] == 't');
    assert("at"@.len() == 2);
    assert("at"@[0] == 'a');
    assert("at"@[1] == 't');
    assert("be"@.len() == 2);
    assert("be"@[0] == 'b');
    assert("be"@[1] == 'e');
    assert("hu"@.len() == 2);
    assert("hu"@[0] == 'h');
    assert("hu"@[1] == 'u');
    assert("pt"@.len() == 2);
    assert("pt"@[0] == 'p');
    assert("pt"@[1] == 't');
    assert("es"@.len() == 2);
    assert("es"@[0] == 'e');
    assert("es"@[1] == 's');
    assert("br"@.len() == 2);
    assert("br"@[0] == 'b');
    assert("br"@[1] == 'r');
    assert("co"@.len() == 2);
    assert("co"@[0] == 'c');
    assert("co"@[1] == 'o');
    assert("mx"@.len() == 2);
    assert("mx"@[0] == 'm');
    assert("mx"@[1] == 'x');
    assert("ar"@.len() == 2);
    assert("ar"@[0] == 'a');
    assert("ar"@[1] == 'r');
    assert("pl"@.len() == 2);
    assert("pl"@[0] == 'p');
    assert("pl"@[1] == 'l');
    assert("cl"@.len() == 2);
    assert("cl"@[0] == 'c');
    assert("cl"@[1] == 'l');
    assert("tr"@.len() == 2);
    assert("tr"@[0] == 't');
    assert("tr"@[1] == 'r');
    assert("kr"@.len() == 2);
    assert("kr"@[0] == 'k');
    assert("kr"@[1] == 'r');
    assert("th"@.len() == 2);
    assert("th"@[0] == 't');
    assert("th"@[1] == 'h');
}

/// A string that equals no supported region's code classifies to the
/// sentinel.
pub proof fn lemma_unknown_code_invalid(s: Seq<char>)
    requires
        forall|r: Regions| r != Regions::NOTVALID ==> s != #[trigger] code_seq(r),
    ensures
        region_of(s) == Regions::NOTVALID,
{
    assert(s != code_seq(Regions::GLOBAL));
    assert(s != code_seq(Regions::US));
    assert(s != code_seq(Regions::GB));
    assert(s != code_seq(Regions::AU));
    assert(s != code_seq(Regions::CA));
    assert(s != code_seq(Regions::FR));
    assert(s != code_seq(Regions::NL));
    assert(s != code_seq(Regions::FI));
    assert(s != code_seq(Regions::NO));
    assert(s != code_seq(Regions::DK));
    assert(s != code_seq(Regions::SE));
    assert(s != code_seq(Regions::CH));
    assert(s != code_seq(Regions::IE));
    assert(s != code_seq(Regions::NZ));
    assert(s != code_seq(Regions::MY));
    assert(s != code_seq(Regions::SG));
    assert(s != code_seq(Regions::JP));
    assert(s != code_seq(Regions::IN));
    assert(s != code_seq(Regions::PH));
    assert(s != code_seq(Regions::ID));
    assert(s != code_seq(Regions::DE));
    assert(s != code_seq(Regions::IT));
    assert(s != code_seq(Regions::AT));
    assert(s != code_seq(Regions::BE));
    assert(s != code_seq(Regions::HU));
    assert(s != code_seq(Regions::PT));
    assert(s != code_seq(Regions::ES));
    assert(s != code_seq(Regions::BR));
    assert(s != code_seq(Regions::CO));
    assert(s != code_seq(Regions::MX));
    assert(s != code_seq(Regions::AR));
    assert(s != code_seq(Regions::PL));
    assert(s != code_seq(Regions::CL));
    assert(s != code_seq(Regions::TR));
    assert(s != code_seq(Regions::KR));
    assert(s != code_seq(Regions::TH));
}

} // verus!
