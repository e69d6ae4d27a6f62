//! Street name post types: the street-type word that follows a street name.
use vstd::prelude::*;
use crate::text::{lemma_upper_idempotent, chars_of, str_eq, string_of, to_upper, upper};

verus! {

/// The street name post type of an address: the street suffix names recognized by postal
/// addressing standards, plus the compound `DriveCutoff`.
#[derive(Clone, Copy, Debug, PartialEq, Eq, Structural, PartialOrd, Ord, Hash)]
pub enum StreetNamePostType {
    ALLEY,
    ANEX,
    ARCADE,
    AVENUE,
    BAYOU,
    BEACH,
    BEND,
    BLUFF,
    BLUFFS,
    BOTTOM,
    BOULEVARD,
    BRANCH,
    BRIDGE,
    BROOK,
    BROOKS,
    BURG,
    BURGS,
    BYPASS,
    CAMP,
    CANYON,
    CAPE,
    CAUSEWAY,
    CENTER,
    CENTERS,
    CIRCLE,
    CIRCLES,
    CLIFF,
    CLIFFS,
    CLUB,
    COMMON,
    COMMONS,
    CORNER,
    CORNERS,
    COURSE,
    COURT,
    COURTS,
    COVE,
    COVES,
    CREEK,
    CRESCENT,
    CREST,
    CROSSING,
    CROSSROAD,
    CROSSROADS,
    CURVE,
    CUTOFF,
    DALE,
    DAM,
    DIVIDE,
    DRIVE,
    DriveCutoff,
    DRIVES,
    ESTATE,
    ESTATES,
    EXPRESSWAY,
    EXTENSION,
    EXTENSIONS,
    FALL,
    FALLS,
    FERRY,
    FIELD,
    FIELDS,
    FLAT,
    FLATS,
    FORD,
    FORDS,
    FOREST,
    FORGE,
    FORGES,
    FORK,
    FORKS,
    FORT,
    FREEWAY,
    GARDEN,
    GARDENS,
    GATEWAY,
    GLEN,
    GLENS,
    GREEN,
    GREENS,
    GROVE,
    GROVES,
    HARBOR,
    HARBORS,
    HAVEN,
    HEIGHTS,
    HIGHWAY,
    HILL,
    HILLS,
    HOLLOW,
    INLET,
    ISLAND,
    ISLANDS,
    ISLE,
    JUNCTION,
    JUNCTIONS,
    KEY,
    KEYS,
    KNOLL,
    KNOLLS,
    LAKE,
    LAKES,
    LAND,
    LANDING,
    LANE,
    LIGHT,
    LIGHTS,
    LOAF,
    LOCK,
    LOCKS,
    LODGE,
    LOOP,
    MALL,
    MANOR,
    MANORS,
    MEADOW,
    MEADOWS,
    MEWS,
    MILL,
    MILLS,
    MISSION,
    MOTORWAY,
    MOUNT,
    MOUNTAIN,
    MOUNTAINS,
    NECK,
    ORCHARD,
    OVAL,
    OVERPASS,
    PARK,
    PARKWAY,
    PASS,
    PASSAGE,
    PATH,
    PIKE,
    PINE,
    PINES,
    PLACE,
    PLAIN,
    PLAINS,
    PLAZA,
    POINT,
    POINTS,
    PORT,
    PORTS,
    PRAIRIE,
    RADIAL,
    RAMP,
    RANCH,
    RAPID,
    RAPIDS,
    REST,
    RIDGE,
    RIDGES,
    RIVER,
    ROAD,
    ROADS,
    ROUTE,
    ROW,
    RUE,
    RUN,
    SHOAL,
    SHOALS,
    SHORE,
    SHORES,
    SKYWAY,
    SPRING,
    SPRINGS,
    SPUR,
    SQUARE,
    SQUARES,
    STATION,
    STRAVENUE,
    STREAM,
    STREET,
    STREETS,
    SUMMIT,
    TERRACE,
    THROUGHWAY,
    TRACE,
    TRACK,
    TRAFFICWAY,
    TRAIL,
    TRAILER,
    TUNNEL,
    TURNPIKE,
    UNDERPASS,
    UNION,
    UNIONS,
    VALLEY,
    VALLEYS,
    VIADUCT,
    VIEW,
    VIEWS,
    VILLAGE,
    VILLAGES,
    VILLE,
    VISTA,
    WALK,
    WALL,
    WAY,
    WAYS,
    WELL,
    WELLS,
}

/// The standard postal abbreviation of a post type.
pub open spec fn post_type_abbreviation(p: StreetNamePostType) -> Seq<char> {
    match p {
        StreetNamePostType::ALLEY => "ALY"@,
        StreetNamePostType::ANEX => "ANX"@,
        StreetNamePostType::ARCADE => "ARC"@,
        StreetNamePostType::AVENUE => "AVE"@,
        StreetNamePostType::BAYOU => "BYU"@,
        StreetNamePostType::BEACH => "BCH"@,
        StreetNamePostType::BEND => "BND"@,
        StreetNamePostType::BLUFF => "BLF"@,
        StreetNamePostType::BLUFFS => "BLFS"@,
        StreetNamePostType::BOTTOM => "BTM"@,
        StreetNamePostType::BOULEVARD => "BLVD"@,
        StreetNamePostType::BRANCH => "BR"@,
        StreetNamePostType::BRIDGE => "BRG"@,
        StreetNamePostType::BROOK => "BRK"@,
        StreetNamePostType::BROOKS => "BRKS"@,
        StreetNamePostType::BURG => "BG"@,
        StreetNamePostType::BURGS => "BGS"@,
        StreetNamePostType::BYPASS => "BYP"@,
        StreetNamePostType::CAMP => "CP"@,
        StreetNamePostType::CANYON => "CYN"@,
        StreetNamePostType::CAPE => "CPE"@,
        StreetNamePostType::CAUSEWAY => "CSWY"@,
        StreetNamePostType::CENTER => "CTR"@,
        StreetNamePostType::CENTERS => "CTRS"@,
        StreetNamePostType::CIRCLE => "CIR"@,
        StreetNamePostType::CIRCLES => "CIRS"@,
        StreetNamePostType::CLIFF => "CLF"@,
        StreetNamePostType::CLIFFS => "CLFS"@,
        StreetNamePostType::CLUB => "CLB"@,
        StreetNamePostType::COMMON => "CMN"@,
        StreetNamePostType::COMMONS => "CMNS"@,
        StreetNamePostType::CORNER => "COR"@,
        StreetNamePostType::CORNERS => "CORS"@,
        StreetNamePostType::COURSE => "CRSE"@,
        StreetNamePostType::COURT => "CT"@,
        StreetNamePostType::COURTS => "CTS"@,
        StreetNamePostType::COVE => "CV"@,
        StreetNamePostType::COVES => "CVS"@,
        StreetNamePostType::CREEK => "CRK"@,
        StreetNamePostType::CRESCENT => "CRES"@,
        StreetNamePostType::CREST => "CRST"@,
        StreetNamePostType::CROSSING => "XING"@,
        StreetNamePostType::CROSSROAD => "XRD"@,
        StreetNamePostType::CROSSROADS => "XRDS"@,
        StreetNamePostType::CURVE => "CURV"@,
        StreetNamePostType::CUTOFF => "CTOFF"@,
        StreetNamePostType::DALE => "DL"@,
        StreetNamePostType::DAM => "DM"@,
        StreetNamePostType::DIVIDE => "DV"@,
        StreetNamePostType::DRIVE => "DR"@,
        StreetNamePostType::DriveCutoff => "DRCTOFF"@,
        StreetNamePostType::DRIVES => "DRS"@,
        StreetNamePostType::ESTATE => "EST"@,
        StreetNamePostType::ESTATES => "ESTS"@,
        StreetNamePostType::EXPRESSWAY => "EXPY"@,
        StreetNamePostType::EXTENSION => "EXT"@,
        StreetNamePostType::EXTENSIONS => "EXTS"@,
        StreetNamePostType::FALL => "FALL"@,
        StreetNamePostType::FALLS => "FLS"@,
        StreetNamePostType::FERRY => "FRY"@,
        StreetNamePostType::FIELD => "FLD"@,
        StreetNamePostType::FIELDS => "FLDS"@,
        StreetNamePostType::FLAT => "FLT"@,
        StreetNamePostType::FLATS => "FLTS"@,
        StreetNamePostType::FORD => "FRD"@,
        StreetNamePostType::FORDS => "FRDS"@,
        StreetNamePostType::FOREST => "FRST"@,
        StreetNamePostType::FORGE => "FRG"@,
        StreetNamePostType::FORGES => "FRGS"@,
        StreetNamePostType::FORK => "FRK"@,
        StreetNamePostType::FORKS => "FRKS"@,
        StreetNamePostType::FORT => "FT"@,
        StreetNamePostType::FREEWAY => "FWY"@,
        StreetNamePostType::GARDEN => "GDN"@,
        StreetNamePostType::GARDENS => "GDNS"@,
        StreetNamePostType::GATEWAY => "GTWY"@,
        StreetNamePostType::GLEN => "GLN"@,
        StreetNamePostType::GLENS => "GLNS"@,
        StreetNamePostType::GREEN => "GRN"@,
        StreetNamePostType::GREENS => "GRNS"@,
        StreetNamePostType::GROVE => "GRV"@,
        StreetNamePostType::GROVES => "GRVS"@,
        StreetNamePostType::HARBOR => "HBR"@,
        StreetNamePostType::HARBORS => "HBRS"@,
        StreetNamePostType::HAVEN => "HVN"@,
        StreetNamePostType::HEIGHTS => "HTS"@,
        StreetNamePostType::HIGHWAY => "HWY"@,
        StreetNamePostType::HILL => "HL"@,
        StreetNamePostType::HILLS => "HLS"@,
        StreetNamePostType::HOLLOW => "HOLW"@,
        StreetNamePostType::INLET => "INLT"@,
        StreetNamePostType::ISLAND => "IS"@,
        StreetNamePostType::ISLANDS => "ISS"@,
        StreetNamePostType::ISLE => "ISLE"@,
        StreetNamePostType::JUNCTION => "JCT"@,
        StreetNamePostType::JUNCTIONS => "JCTS"@,
        StreetNamePostType::KEY => "KY"@,
        StreetNamePostType::KEYS => "KYS"@,
        StreetNamePostType::KNOLL => "KNL"@,
        StreetNamePostType::KNOLLS => "KNLS"@,
        StreetNamePostType::LAKE => "LK"@,
        StreetNamePostType::LAKES => "LKS"@,
        StreetNamePostType::LAND => "LAND"@,
        StreetNamePostType::LANDING => "LNDG"@,
        StreetNamePostType::LANE => "LN"@,
        StreetNamePostType::LIGHT => "LGT"@,
        StreetNamePostType::LIGHTS => "LGTS"@,
        StreetNamePostType::LOAF => "LF"@,
        StreetNamePostType::LOCK => "LCK"@,
        StreetNamePostType::LOCKS => "LCKS"@,
        StreetNamePostType::LODGE => "LDG"@,
        StreetNamePostType::LOOP => "LOOP"@,
        StreetNamePostType::MALL => "MALL"@,
        StreetNamePostType::MANOR => "MNR"@,
        StreetNamePostType::MANORS => "MNRS"@,
        StreetNamePostType::MEADOW => "MDW"@,
        StreetNamePostType::MEADOWS => "MDWS"@,
        StreetNamePostType::MEWS => "MEWS"@,
        StreetNamePostType::MILL => "ML"@,
        StreetNamePostType::MILLS => "MLS"@,
        StreetNamePostType::MISSION => "MSN"@,
        StreetNamePostType::MOTORWAY => "MTWY"@,
        StreetNamePostType::MOUNT => "MT"@,
        StreetNamePostType::MOUNTAIN => "MTN"@,
        StreetNamePostType::MOUNTAINS => "MTNS"@,
        StreetNamePostType::NECK => "NCK"@,
        StreetNamePostType::ORCHARD => "ORCH"@,
        StreetNamePostType::OVAL => "OVAL"@,
        StreetNamePostType::OVERPASS => "OPAS"@,
        StreetNamePostType::PARK => "PARK"@,
        StreetNamePostType::PARKWAY => "PKWY"@,
        StreetNamePostType::PASS => "PASS"@,
        StreetNamePostType::PASSAGE => "PSGE"@,
        StreetNamePostType::PATH => "PATH"@,
        StreetNamePostType::PIKE => "PIKE"@,
        StreetNamePostType::PINE => "PNE"@,
        StreetNamePostType::PINES => "PNES"@,
        StreetNamePostType::PLACE => "PL"@,
        StreetNamePostType::PLAIN => "PLN"@,
        StreetNamePostType::PLAINS => "PLNS"@,
        StreetNamePostType::PLAZA => "PLZ"@,
        StreetNamePostType::POINT => "PT"@,
        StreetNamePostType::POINTS => "PTS"@,
        StreetNamePostType::PORT => "PRT"@,
        StreetNamePostType::PORTS => "PRTS"@,
        StreetNamePostType::PRAIRIE => "PR"@,
        StreetNamePostType::RADIAL => "RADL"@,
        StreetNamePostType::RAMP => "RAMP"@,
        StreetNamePostType::RANCH => "RNCH"@,
        StreetNamePostType::RAPID => "RPD"@,
        StreetNamePostType::RAPIDS => "RPDS"@,
        StreetNamePostType::REST => "RST"@,
        StreetNamePostType::RIDGE => "RDG"@,
        StreetNamePostType::RIDGES => "RDGS"@,
        StreetNamePostType::RIVER => "RIV"@,
        StreetNamePostType::ROAD => "RD"@,
        StreetNamePostType::ROADS => "RDS"@,
        StreetNamePostType::ROUTE => "RTE"@,
        StreetNamePostType::ROW => "ROW"@,
        StreetNamePostType::RUE => "RUE"@,
        StreetNamePostType::RUN => "RUN"@,
        StreetNamePostType::SHOAL => "SHL"@,
        StreetNamePostType::SHOALS => "SHLS"@,
        StreetNamePostType::SHORE => "SHR"@,
        StreetNamePostType::SHORES => "SHRS"@,
        StreetNamePostType::SKYWAY => "SKWY"@,
        StreetNamePostType::SPRING => "SPG"@,
        StreetNamePostType::SPRINGS => "SPGS"@,
        StreetNamePostType::SPUR => "SPUR"@,
        StreetNamePostType::SQUARE => "SQ"@,
        StreetNamePostType::SQUARES => "SQS"@,
        StreetNamePostType::STATION => "STA"@,
        StreetNamePostType::STRAVENUE => "STRA"@,
        StreetNamePostType::STREAM => "STRM"@,
        StreetNamePostType::STREET => "ST"@,
        StreetNamePostType::STREETS => "STS"@,
        StreetNamePostType::SUMMIT => "SMT"@,
        StreetNamePostType::TERRACE => "TER"@,
        StreetNamePostType::THROUGHWAY => "TRWY"@,
        StreetNamePostType::TRACE => "TRCE"@,
        StreetNamePostType::TRACK => "TRAK"@,
        StreetNamePostType::TRAFFICWAY => "TRFY"@,
        StreetNamePostType::TRAIL => "TRL"@,
        StreetNamePostType::TRAILER => "TRLR"@,
        StreetNamePostType::TUNNEL => "TUNL"@,
        StreetNamePostType::TURNPIKE => "TPKE"@,
        StreetNamePostType::UNDERPASS => "UPAS"@,
        StreetNamePostType::UNION => "UN"@,
        StreetNamePostType::UNIONS => "UNS"@,
        StreetNamePostType::VALLEY => "VLY"@,
        StreetNamePostType::VALLEYS => "VLYS"@,
        StreetNamePostType::VIADUCT => "VIA"@,
        StreetNamePostType::VIEW => "VW"@,
        StreetNamePostType::VIEWS => "VWS"@,
        StreetNamePostType::VILLAGE => "VLG"@,
        StreetNamePostType::VILLAGES => "VLGS"@,
        StreetNamePostType::VILLE => "VL"@,
        StreetNamePostType::VISTA => "VIS"@,
        StreetNamePostType::WALK => "WALK"@,
        StreetNamePostType::WALL => "WALL"@,
        StreetNamePostType::WAY => "WAY"@,
        StreetNamePostType::WAYS => "WAYS"@,
        StreetNamePostType::WELL => "WL"@,
        StreetNamePostType::WELLS => "WLS"@,
    }
}

/// The full name of a post type, as written in a complete street name.
pub open spec fn post_type_name(p: StreetNamePostType) -> Seq<char> {
    match p {
        StreetNamePostType::ALLEY => "ALLEY"@,
        StreetNamePostType::ANEX => "ANEX"@,
        StreetNamePostType::ARCADE => "ARCADE"@,
        StreetNamePostType::AVENUE => "AVENUE"@,
        StreetNamePostType::BAYOU => "BAYOU"@,
        StreetNamePostType::BEACH => "BEACH"@,
        StreetNamePostType::BEND => "BEND"@,
        StreetNamePostType::BLUFF => "BLUFF"@,
        StreetNamePostType::BLUFFS => "BLUFFS"@,
        StreetNamePostType::BOTTOM => "BOTTOM"@,
        StreetNamePostType::BOULEVARD => "BOULEVARD"@,
        StreetNamePostType::BRANCH => "BRANCH"@,
        StreetNamePostType::BRIDGE => "BRIDGE"@,
        StreetNamePostType::BROOK => "BROOK"@,
        StreetNamePostType::BROOKS => "BROOKS"@,
        StreetNamePostType::BURG => "BURG"@,
        StreetNamePostType::BURGS => "BURGS"@,
        StreetNamePostType::BYPASS => "BYPASS"@,
        StreetNamePostType::CAMP => "CAMP"@,
        StreetNamePostType::CANYON => "CANYON"@,
        StreetNamePostType::CAPE => "CAPE"@,
        StreetNamePostType::CAUSEWAY => "CAUSEWAY"@,
        StreetNamePostType::CENTER => "CENTER"@,
        StreetNamePostType::CENTERS => "CENTERS"@,
        StreetNamePostType::CIRCLE => "CIRCLE"@,
        StreetNamePostType::CIRCLES => "CIRCLES"@,
        StreetNamePostType::CLIFF => "CLIFF"@,
        StreetNamePostType::CLIFFS => "CLIFFS"@,
        StreetNamePostType::CLUB => "CLUB"@,
        StreetNamePostType::COMMON => "COMMON"@,
        StreetNamePostType::COMMONS => "COMMONS"@,
        StreetNamePostType::CORNER => "CORNER"@,
        StreetNamePostType::CORNERS => "CORNERS"@,
        StreetNamePostType::COURSE => "COURSE"@,
        StreetNamePostType::COURT => "COURT"@,
        StreetNamePostType::COURTS => "COURTS"@,
        StreetNamePostType::COVE => "COVE"@,
        StreetNamePostType::COVES => "COVES"@,
        StreetNamePostType::CREEK => "CREEK"@,
        StreetNamePostType::CRESCENT => "CRESCENT"@,
        StreetNamePostType::CREST => "CREST"@,
        StreetNamePostType::CROSSING => "CROSSING"@,
        StreetNamePostType::CROSSROAD => "CROSSROAD"@,
        StreetNamePostType::CROSSROADS => "CROSSROADS"@,
        StreetNamePostType::CURVE => "CURVE"@,
        StreetNamePostType::CUTOFF => "CUTOFF"@,
        StreetNamePostType::DALE => "DALE"@,
        StreetNamePostType::DAM => "DAM"@,
        StreetNamePostType::DIVIDE => "DIVIDE"@,
        StreetNamePostType::DRIVE => "DRIVE"@,
        StreetNamePostType::DriveCutoff => "DRIVE CUTOFF"@,
        StreetNamePostType::DRIVES => "DRIVES"@,
        StreetNamePostType::ESTATE => "ESTATE"@,
        StreetNamePostType::ESTATES => "ESTATES"@,
        StreetNamePostType::EXPRESSWAY => "EXPRESSWAY"@,
        StreetNamePostType::EXTENSION => "EXTENSION"@,
        StreetNamePostType::EXTENSIONS => "EXTENSIONS"@,
        StreetNamePostType::FALL => "FALL"@,
        StreetNamePostType::FALLS => "FALLS"@,
        StreetNamePostType::FERRY => "FERRY"@,
        StreetNamePostType::FIELD => "FIELD"@,
        StreetNamePostType::FIELDS => "FIELDS"@,
        StreetNamePostType::FLAT => "FLAT"@,
        StreetNamePostType::FLATS => "FLATS"@,
        StreetNamePostType::FORD => "FORD"@,
        StreetNamePostType::FORDS => "FORDS"@,
        StreetNamePostType::FOREST => "FOREST"@,
        StreetNamePostType::FORGE => "FORGE"@,
        StreetNamePostType::FORGES => "FORGES"@,
        StreetNamePostType::FORK => "FORK"@,
        StreetNamePostType::FORKS => "FORKS"@,
        StreetNamePostType::FORT => "FORT"@,
        StreetNamePostType::FREEWAY => "FREEWAY"@,
        StreetNamePostType::GARDEN => "GARDEN"@,
        StreetNamePostType::GARDENS => "GARDENS"@,
        StreetNamePostType::GATEWAY => "GATEWAY"@,
        StreetNamePostType::GLEN => "GLEN"@,
        StreetNamePostType::GLENS => "GLENS"@,
        StreetNamePostType::GREEN => "GREEN"@,
        StreetNamePostType::GREENS => "GREENS"@,
        StreetNamePostType::GROVE => "GROVE"@,
        StreetNamePostType::GROVES => "GROVES"@,
        StreetNamePostType::HARBOR => "HARBOR"@,
        StreetNamePostType::HARBORS => "HARBORS"@,
        StreetNamePostType::HAVEN => "HAVEN"@,
        StreetNamePostType::HEIGHTS => "HEIGHTS"@,
        StreetNamePostType::HIGHWAY => "HIGHWAY"@,
        StreetNamePostType::HILL => "HILL"@,
        StreetNamePostType::HILLS => "HILLS"@,
        StreetNamePostType::HOLLOW => "HOLLOW"@,
        StreetNamePostType::INLET => "INLET"@,
        StreetNamePostType::ISLAND => "ISLAND"@,
        StreetNamePostType::ISLANDS => "ISLANDS"@,
        StreetNamePostType::ISLE => "ISLE"@,
        StreetNamePostType::JUNCTION => "JUNCTION"@,
        StreetNamePostType::JUNCTIONS => "JUNCTIONS"@,
        StreetNamePostType::KEY => "KEY"@,
        StreetNamePostType::KEYS => "KEYS"@,
        StreetNamePostType::KNOLL => "KNOLL"@,
        StreetNamePostType::KNOLLS => "KNOLLS"@,
        StreetNamePostType::LAKE => "LAKE"@,
        StreetNamePostType::LAKES => "LAKES"@,
        StreetNamePostType::LAND => "LAND"@,
        StreetNamePostType::LANDING => "LANDING"@,
        StreetNamePostType::LANE => "LANE"@,
        StreetNamePostType::LIGHT => "LIGHT"@,
        StreetNamePostType::LIGHTS => "LIGHTS"@,
        StreetNamePostType::LOAF => "LOAF"@,
        StreetNamePostType::LOCK => "LOCK"@,
        StreetNamePostType::LOCKS => "LOCKS"@,
        StreetNamePostType::LODGE => "LODGE"@,
        StreetNamePostType::LOOP => "LOOP"@,
        StreetNamePostType::MALL => "MALL"@,
        StreetNamePostType::MANOR => "MANOR"@,
        StreetNamePostType::MANORS => "MANORS"@,
        StreetNamePostType::MEADOW => "MEADOW"@,
        StreetNamePostType::MEADOWS => "MEADOWS"@,
        StreetNamePostType::MEWS => "MEWS"@,
        StreetNamePostType::MILL => "MILL"@,
        StreetNamePostType::MILLS => "MILLS"@,
        StreetNamePostType::MISSION => "MISSION"@,
        StreetNamePostType::MOTORWAY => "MOTORWAY"@,
        StreetNamePostType::MOUNT => "MOUNT"@,
        StreetNamePostType::MOUNTAIN => "MOUNTAIN"@,
        StreetNamePostType::MOUNTAINS => "MOUNTAINS"@,
        StreetNamePostType::NECK => "NECK"@,
        StreetNamePostType::ORCHARD => "ORCHARD"@,
        StreetNamePostType::OVAL => "OVAL"@,
        StreetNamePostType::OVERPASS => "OVERPASS"@,
        StreetNamePostType::PARK => "PARK"@,
        StreetNamePostType::PARKWAY => "PARKWAY"@,
        StreetNamePostType::PASS => "PASS"@,
        StreetNamePostType::PASSAGE => "PASSAGE"@,
        StreetNamePostType::PATH => "PATH"@,
        StreetNamePostType::PIKE => "PIKE"@,
        StreetNamePostType::PINE => "PINE"@,
        StreetNamePostType::PINES => "PINES"@,
        StreetNamePostType::PLACE => "PLACE"@,
        StreetNamePostType::PLAIN => "PLAIN"@,
        StreetNamePostType::PLAINS => "PLAINS"@,
        StreetNamePostType::PLAZA => "PLAZA"@,
        StreetNamePostType::POINT => "POINT"@,
        StreetNamePostType::POINTS => "POINTS"@,
        StreetNamePostType::PORT => "PORT"@,
        StreetNamePostType::PORTS => "PORTS"@,
        StreetNamePostType::PRAIRIE => "PRAIRIE"@,
        StreetNamePostType::RADIAL => "RADIAL"@,
        StreetNamePostType::RAMP => "RAMP"@,
        StreetNamePostType::RANCH => "RANCH"@,
        StreetNamePostType::RAPID => "RAPID"@,
        StreetNamePostType::RAPIDS => "RAPIDS"@,
        StreetNamePostType::REST => "REST"@,
        StreetNamePostType::RIDGE => "RIDGE"@,
        StreetNamePostType::RIDGES => "RIDGES"@,
        StreetNamePostType::RIVER => "RIVER"@,
        StreetNamePostType::ROAD => "ROAD"@,
        StreetNamePostType::ROADS => "ROADS"@,
        StreetNamePostType::ROUTE => "ROUTE"@,
        StreetNamePostType::ROW => "ROW"@,
        StreetNamePostType::RUE => "RUE"@,
        StreetNamePostType::RUN => "RUN"@,
        StreetNamePostType::SHOAL => "SHOAL"@,
        StreetNamePostType::SHOALS => "SHOALS"@,
        StreetNamePostType::SHORE => "SHORE"@,
        StreetNamePostType::SHORES => "SHORES"@,
        StreetNamePostType::SKYWAY => "SKYWAY"@,
        StreetNamePostType::SPRING => "SPRING"@,
        StreetNamePostType::SPRINGS => "SPRINGS"@,
        StreetNamePostType::SPUR => "SPUR"@,
        StreetNamePostType::SQUARE => "SQUARE"@,
        StreetNamePostType::SQUARES => "SQUARES"@,
        StreetNamePostType::STATION => "STATION"@,
        StreetNamePostType::STRAVENUE => "STRAVENUE"@,
        StreetNamePostType::STREAM => "STREAM"@,
        StreetNamePostType::STREET => "STREET"@,
        StreetNamePostType::STREETS => "STREETS"@,
        StreetNamePostType::SUMMIT => "SUMMIT"@,
        StreetNamePostType::TERRACE => "TERRACE"@,
        StreetNamePostType::THROUGHWAY => "THROUGHWAY"@,
        StreetNamePostType::TRACE => "TRACE"@,
        StreetNamePostType::TRACK => "TRACK"@,
        StreetNamePostType::TRAFFICWAY => "TRAFFICWAY"@,
        StreetNamePostType::TRAIL => "TRAIL"@,
        StreetNamePostType::TRAILER => "TRAILER"@,
        StreetNamePostType::TUNNEL => "TUNNEL"@,
        StreetNamePostType::TURNPIKE => "TURNPIKE"@,
        StreetNamePostType::UNDERPASS => "UNDERPASS"@,
        StreetNamePostType::UNION => "UNION"@,
        StreetNamePostType::UNIONS => "UNIONS"@,
        StreetNamePostType::VALLEY => "VALLEY"@,
        StreetNamePostType::VALLEYS => "VALLEYS"@,
        StreetNamePostType::VIADUCT => "VIADUCT"@,
        StreetNamePostType::VIEW => "VIEW"@,
        StreetNamePostType::VIEWS => "VIEWS"@,
        StreetNamePostType::VILLAGE => "VILLAGE"@,
        StreetNamePostType::VILLAGES => "VILLAGES"@,
        StreetNamePostType::VILLE => "VILLE"@,
        StreetNamePostType::VISTA => "VISTA"@,
        StreetNamePostType::WALK => "WALK"@,
        StreetNamePostType::WALL => "WALL"@,
        StreetNamePostType::WAY => "WAY"@,
        StreetNamePostType::WAYS => "WAYS"@,
        StreetNamePostType::WELL => "WELL"@,
        StreetNamePostType::WELLS => "WELLS"@,
    }
}

/// The post type whose postal abbreviation is exactly `s`.
pub open spec fn post_type_of_abbreviation(s: Seq<char>) -> Option<StreetNamePostType> {
    if s == "ALY"@ {
        Some(StreetNamePostType::ALLEY)
    } else if s == "ANX"@ {
        Some(StreetNamePostType::ANEX)
    } else if s == "ARC"@ {
        Some(StreetNamePostType::ARCADE)
    } else if s == "AVE"@ {
        Some(StreetNamePostType::AVENUE)
    } else if s == "BYU"@ {
        Some(StreetNamePostType::BAYOU)
    } else if s == "BCH"@ {
        Some(StreetNamePostType::BEACH)
    } else if s == "BND"@ {
        Some(StreetNamePostType::BEND)
    } else if s == "BLF"@ {
        Some(StreetNamePostType::BLUFF)
    } else if s == "BLFS"@ {
        Some(StreetNamePostType::BLUFFS)
    } else if s == "BTM"@ {
        Some(StreetNamePostType::BOTTOM)
    } else if s == "BLVD"@ {
        Some(StreetNamePostType::BOULEVARD)
    } else if s == "BR"@ {
        Some(StreetNamePostType::BRANCH)
    } else if s == "BRG"@ {
        Some(StreetNamePostType::BRIDGE)
    } else if s == "BRK"@ {
        Some(StreetNamePostType::BROOK)
    } else if s == "BRKS"@ {
        Some(StreetNamePostType::BROOKS)
    } else if s == "BG"@ {
        Some(StreetNamePostType::BURG)
    } else if s == "BGS"@ {
        Some(StreetNamePostType::BURGS)
    } else if s == "BYP"@ {
        Some(StreetNamePostType::BYPASS)
    } else if s == "CP"@ {
        Some(StreetNamePostType::CAMP)
    } else if s == "CYN"@ {
        Some(StreetNamePostType::CANYON)
    } else if s == "CPE"@ {
        Some(StreetNamePostType::CAPE)
    } else if s == "CSWY"@ {
        Some(StreetNamePostType::CAUSEWAY)
    } else if s == "CTR"@ {
        Some(StreetNamePostType::CENTER)
    } else if s == "CTRS"@ {
        Some(StreetNamePostType::CENTERS)
    } else if s == "CIR"@ {
        Some(StreetNamePostType::CIRCLE)
    } else if s == "CIRS"@ {
        Some(StreetNamePostType::CIRCLES)
    } else if s == "CLF"@ {
        Some(StreetNamePostType::CLIFF)
    } else if s == "CLFS"@ {
        Some(StreetNamePostType::CLIFFS)
    } else if s == "CLB"@ {
        Some(StreetNamePostType::CLUB)
    } else if s == "CMN"@ {
        Some(StreetNamePostType::COMMON)
    } else if s == "CMNS"@ {
        Some(StreetNamePostType::COMMONS)
    } else if s == "COR"@ {
        Some(StreetNamePostType::CORNER)
    } else if s == "CORS"@ {
        Some(StreetNamePostType::CORNERS)
    } else if s == "CRSE"@ {
        Some(StreetNamePostType::COURSE)
    } else if s == "CT"@ {
        Some(StreetNamePostType::COURT)
    } else if s == "CTS"@ {
        Some(StreetNamePostType::COURTS)
    } else if s == "CV"@ {
        Some(StreetNamePostType::COVE)
    } else if s == "CVS"@ {
        Some(StreetNamePostType::COVES)
    } else if s == "CRK"@ {
        Some(StreetNamePostType::CREEK)
    } else if s == "CRES"@ {
        Some(StreetNamePostType::CRESCENT)
    } else if s == "CRST"@ {
        Some(StreetNamePostType::CREST)
    } else if s == "XING"@ {
        Some(StreetNamePostType::CROSSING)
    } else if s == "XRD"@ {
        Some(StreetNamePostType::CROSSROAD)
    } else if s == "XRDS"@ {
        Some(StreetNamePostType::CROSSROADS)
    } else if s == "CURV"@ {
        Some(StreetNamePostType::CURVE)
    } else if s == "CUTOFF"@ || s == "CTOFF"@ {
        Some(StreetNamePostType::CUTOFF)
    } else if s == "DL"@ {
        Some(StreetNamePostType::DALE)
    } else if s == "DM"@ {
        Some(StreetNamePostType::DAM)
    } else if s == "DV"@ {
        Some(StreetNamePostType::DIVIDE)
    } else if s == "DR"@ {
        Some(StreetNamePostType::DRIVE)
    } else if s == "DR CUTOFF"@ || s == "DRCTOFF"@ {
        Some(StreetNamePostType::DriveCutoff)
    } else if s == "DRS"@ {
        Some(StreetNamePostType::DRIVES)
    } else if s == "EST"@ {
        Some(StreetNamePostType::ESTATE)
    } else if s == "ESTS"@ {
        Some(StreetNamePostType::ESTATES)
    } else if s == "EXPY"@ {
        Some(StreetNamePostType::EXPRESSWAY)
    } else if s == "EXT"@ {
        Some(StreetNamePostType::EXTENSION)
    } else if s == "EXTS"@ {
        Some(StreetNamePostType::EXTENSIONS)
    } else if s == "FALL"@ {
        Some(StreetNamePostType::FALL)
    } else if s == "FLS"@ {
        Some(StreetNamePostType::FALLS)
    } else if s == "FRY"@ {
        Some(StreetNamePostType::FERRY)
    } else if s == "FLD"@ {
        Some(StreetNamePostType::FIELD)
    } else if s == "FLDS"@ {
        Some(StreetNamePostType::FIELDS)
    } else if s == "FLT"@ {
        Some(StreetNamePostType::FLAT)
    } else if s == "FLTS"@ {
        Some(StreetNamePostType::FLATS)
    } else if s == "FRD"@ {
        Some(StreetNamePostType::FORD)
    } else if s == "FRDS"@ {
        Some(StreetNamePostType::FORDS)
    } else if s == "FRST"@ {
        Some(StreetNamePostType::FOREST)
    } else if s == "FRG"@ {
        Some(StreetNamePostType::FORGE)
    } else if s == "FRGS"@ {
        Some(StreetNamePostType::FORGES)
    } else if s == "FRK"@ {
        Some(StreetNamePostType::FORK)
    } else if s == "FRKS"@ {
        Some(StreetNamePostType::FORKS)
    } else if s == "FT"@ {
        Some(StreetNamePostType::FORT)
    } else if s == "FWY"@ {
        Some(StreetNamePostType::FREEWAY)
    } else if s == "GDN"@ {
        Some(StreetNamePostType::GARDEN)
    } else if s == "GDNS"@ {
        Some(StreetNamePostType::GARDENS)
    } else if s == "GTWY"@ {
        Some(StreetNamePostType::GATEWAY)
    } else if s == "GLN"@ {
        Some(StreetNamePostType::GLEN)
    } else if s == "GLNS"@ {
        Some(StreetNamePostType::GLENS)
    } else if s == "GRN"@ {
        Some(StreetNamePostType::GREEN)
    } else if s == "GRNS"@ {
        Some(StreetNamePostType::GREENS)
    } else if s == "GRV"@ {
        Some(StreetNamePostType::GROVE)
    } else if s == "GRVS"@ {
        Some(StreetNamePostType::GROVES)
    } else if s == "HBR"@ {
        Some(StreetNamePostType::HARBOR)
    } else if s == "HBRS"@ {
        Some(StreetNamePostType::HARBORS)
    } else if s == "HVN"@ {
        Some(StreetNamePostType::HAVEN)
    } else if s == "HTS"@ {
        Some(StreetNamePostType::HEIGHTS)
    } else if s == "HWY"@ {
        Some(StreetNamePostType::HIGHWAY)
    } else if s == "HL"@ {
        Some(StreetNamePostType::HILL)
    } else if s == "HLS"@ {
        Some(StreetNamePostType::HILLS)
    } else if s == "HOLW"@ {
        Some(StreetNamePostType::HOLLOW)
    } else if s == "INLT"@ {
        Some(StreetNamePostType::INLET)
    } else if s == "IS"@ {
        Some(StreetNamePostType::ISLAND)
    } else if s == "ISS"@ {
        Some(StreetNamePostType::ISLANDS)
    } else if s == "ISLE"@ {
        Some(StreetNamePostType::ISLE)
    } else if s == "JCT"@ {
        Some(StreetNamePostType::JUNCTION)
    } else if s == "JCTS"@ {
        Some(StreetNamePostType::JUNCTIONS)
    } else if s == "KY"@ {
        Some(StreetNamePostType::KEY)
    } else if s == "KYS"@ {
        Some(StreetNamePostType::KEYS)
    } else if s == "KNL"@ {
        Some(StreetNamePostType::KNOLL)
    } else if s == "KNLS"@ {
        Some(StreetNamePostType::KNOLLS)
    } else if s == "LK"@ {
        Some(StreetNamePostType::LAKE)
    } else if s == "LKS"@ {
        Some(StreetNamePostType::LAKES)
    } else if s == "LAND"@ {
        Some(StreetNamePostType::LAND)
    } else if s == "LNDG"@ {
        Some(StreetNamePostType::LANDING)
    } else if s == "LN"@ {
        Some(StreetNamePostType::LANE)
    } else if s == "LGT"@ {
        Some(StreetNamePostType::LIGHT)
    } else if s == "LGTS"@ {
        Some(StreetNamePostType::LIGHTS)
    } else if s == "LF"@ {
        Some(StreetNamePostType::LOAF)
    } else if s == "LCK"@ {
        Some(StreetNamePostType::LOCK)
    } else if s == "LCKS"@ {
        Some(StreetNamePostType::LOCKS)
    } else if s == "LDG"@ {
        Some(StreetNamePostType::LODGE)
    } else if s == "LOOP"@ {
        Some(StreetNamePostType::LOOP)
    } else if s == "MALL"@ {
        Some(StreetNamePostType::MALL)
    } else if s == "MNR"@ {
        Some(StreetNamePostType::MANOR)
    } else if s == "MNRS"@ {
        Some(StreetNamePostType::MANORS)
    } else if s == "MDW"@ {
        Some(StreetNamePostType::MEADOW)
    } else if s == "MDWS"@ {
        Some(StreetNamePostType::MEADOWS)
    } else if s == "MEWS"@ {
        Some(StreetNamePostType::MEWS)
    } else if s == "ML"@ {
        Some(StreetNamePostType::MILL)
    } else if s == "MLS"@ {
        Some(StreetNamePostType::MILLS)
    } else if s == "MSN"@ {
        Some(StreetNamePostType::MISSION)
    } else if s == "MTWY"@ {
        Some(StreetNamePostType::MOTORWAY)
    } else if s == "MT"@ {
        Some(StreetNamePostType::MOUNT)
    } else if s == "MTN"@ {
        Some(StreetNamePostType::MOUNTAIN)
    } else if s == "MTNS"@ {
        Some(StreetNamePostType::MOUNTAINS)
    } else if s == "NCK"@ {
        Some(StreetNamePostType::NECK)
    } else if s == "ORCH"@ {
        Some(StreetNamePostType::ORCHARD)
    } else if s == "OVAL"@ {
        Some(StreetNamePostType::OVAL)
    } else if s == "OPAS"@ {
        Some(StreetNamePostType::OVERPASS)
    } else if s == "PARK"@ {
        Some(StreetNamePostType::PARK)
    } else if s == "PKWY"@ {
        Some(StreetNamePostType::PARKWAY)
    } else if s == "PASS"@ {
        Some(StreetNamePostType::PASS)
    } else if s == "PSGE"@ {
        Some(StreetNamePostType::PASSAGE)
    } else if s == "PATH"@ {
        Some(StreetNamePostType::PATH)
    } else if s == "PIKE"@ {
        Some(StreetNamePostType::PIKE)
    } else if s == "PNE"@ {
        Some(StreetNamePostType::PINE)
    } else if s == "PNES"@ {
        Some(StreetNamePostType::PINES)
    } else if s == "PL"@ {
        Some(StreetNamePostType::PLACE)
    } else if s == "PLN"@ {
        Some(StreetNamePostType::PLAIN)
    } else if s == "PLNS"@ {
        Some(StreetNamePostType::PLAINS)
    } else if s == "PLZ"@ {
        Some(StreetNamePostType::PLAZA)
    } else if s == "PT"@ {
        Some(StreetNamePostType::POINT)
    } else if s == "PTS"@ {
        Some(StreetNamePostType::POINTS)
    } else if s == "PRT"@ {
        Some(StreetNamePostType::PORT)
    } else if s == "PRTS"@ {
        Some(StreetNamePostType::PORTS)
    } else if s == "PR"@ {
        Some(StreetNamePostType::PRAIRIE)
    } else if s == "RADL"@ {
        Some(StreetNamePostType::RADIAL)
    } else if s == "RAMP"@ {
        Some(StreetNamePostType::RAMP)
    } else if s == "RNCH"@ {
        Some(StreetNamePostType::RANCH)
    } else if s == "RPD"@ {
        Some(StreetNamePostType::RAPID)
    } else if s == "RPDS"@ {
        Some(StreetNamePostType::RAPIDS)
    } else if s == "RST"@ {
        Some(StreetNamePostType::REST)
    } else if s == "RDG"@ {
        Some(StreetNamePostType::RIDGE)
    } else if s == "RDGS"@ {
        Some(StreetNamePostType::RIDGES)
    } else if s == "RIV"@ {
        Some(StreetNamePostType::RIVER)
    } else if s == "RD"@ {
        Some(StreetNamePostType::ROAD)
    } else if s == "RDS"@ {
        Some(StreetNamePostType::ROADS)
    } else if s == "RTE"@ {
        Some(StreetNamePostType::ROUTE)
    } else if s == "ROW"@ {
        Some(StreetNamePostType::ROW)
    } else if s == "RUE"@ {
        Some(StreetNamePostType::RUE)
    } else if s == "RUN"@ {
        Some(StreetNamePostType::RUN)
    } else if s == "SHL"@ {
        Some(StreetNamePostType::SHOAL)
    } else if s == "SHLS"@ {
        Some(StreetNamePostType::SHOALS)
    } else if s == "SHR"@ {
        Some(StreetNamePostType::SHORE)
    } else if s == "SHRS"@ {
        Some(StreetNamePostType::SHORES)
    } else if s == "SKWY"@ {
        Some(StreetNamePostType::SKYWAY)
    } else if s == "SPG"@ {
        Some(StreetNamePostType::SPRING)
    } else if s == "SPGS"@ {
        Some(StreetNamePostType::SPRINGS)
    } else if s == "SPUR"@ {
        Some(StreetNamePostType::SPUR)
    } else if s == "SQ"@ {
        Some(StreetNamePostType::SQUARE)
    } else if s == "SQS"@ {
        Some(StreetNamePostType::SQUARES)
    } else if s == "STA"@ {
        Some(StreetNamePostType::STATION)
    } else if s == "STRA"@ {
        Some(StreetNamePostType::STRAVENUE)
    } else if s == "STRM"@ {
        Some(StreetNamePostType::STREAM)
    } else if s == "ST"@ {
        Some(StreetNamePostType::STREET)
    } else if s == "STS"@ {
        Some(StreetNamePostType::STREETS)
    } else if s == "SMT"@ {
        Some(StreetNamePostType::SUMMIT)
    } else if s == "TER"@ {
        Some(StreetNamePostType::TERRACE)
    } else if s == "TRWY"@ {
        Some(StreetNamePostType::THROUGHWAY)
    } else if s == "TRCE"@ {
        Some(StreetNamePostType::TRACE)
    } else if s == "TRAK"@ {
        Some(StreetNamePostType::TRACK)
    } else if s == "TRFY"@ {
        Some(StreetNamePostType::TRAFFICWAY)
    } else if s == "TRL"@ {
        Some(StreetNamePostType::TRAIL)
    } else if s == "TRLR"@ {
        Some(StreetNamePostType::TRAILER)
    } else if s == "TUNL"@ {
        Some(StreetNamePostType::TUNNEL)
    } else if s == "TPKE"@ {
        Some(StreetNamePostType::TURNPIKE)
    } else if s == "UPAS"@ {
        Some(StreetNamePostType::UNDERPASS)
    } else if s == "UN"@ {
        Some(StreetNamePostType::UNION)
    } else if s == "UNS"@ {
        Some(StreetNamePostType::UNIONS)
    } else if s == "VLY"@ {
        Some(StreetNamePostType::VALLEY)
    } else if s == "VLYS"@ {
        Some(StreetNamePostType::VALLEYS)
    } else if s == "VIA"@ {
        Some(StreetNamePostType::VIADUCT)
    } else if s == "VW"@ {
        Some(StreetNamePostType::VIEW)
    } else if s == "VWS"@ {
        Some(StreetNamePostType::VIEWS)
    } else if s == "VLG"@ {
        Some(StreetNamePostType::VILLAGE)
    } else if s == "VLGS"@ {
        Some(StreetNamePostType::VILLAGES)
    } else if s == "VL"@ {
        Some(StreetNamePostType::VILLE)
    } else if s == "VIS"@ {
        Some(StreetNamePostType::VISTA)
    } else if s == "WALK"@ {
        Some(StreetNamePostType::WALK)
    } else if s == "WALL"@ {
        Some(StreetNamePostType::WALL)
    } else if s == "WAY"@ {
        Some(StreetNamePostType::WAY)
    } else if s == "WAYS"@ {
        Some(StreetNamePostType::WAYS)
    } else if s == "WL"@ {
        Some(StreetNamePostType::WELL)
    } else if s == "WLS"@ {
        Some(StreetNamePostType::WELLS)
    } else {
        None
    }
}

/// The post type that the upper-case spelling `s` stands for: an abbreviation, the full word,
/// or a known variant spelling.
pub open spec fn post_type_of_alias(s: Seq<char>) -> Option<StreetNamePostType> {
    if s == "ALY"@ {
        Some(StreetNamePostType::ALLEY)
    } else if s == "ANX"@ {
        Some(StreetNamePostType::ANEX)
    } else if s == "ARC"@ {
        Some(StreetNamePostType::ARCADE)
    } else if s == "AVE"@ || s == "AVENUE"@ {
        Some(StreetNamePostType::AVENUE)
    } else if s == "BYU"@ {
        Some(StreetNamePostType::BAYOU)
    } else if s == "BCH"@ {
        Some(StreetNamePostType::BEACH)
    } else if s == "BND"@ {
        Some(StreetNamePostType::BEND)
    } else if s == "BLF"@ {
        Some(StreetNamePostType::BLUFF)
    } else if s == "BLFS"@ {
        Some(StreetNamePostType::BLUFFS)
    } else if s == "BTM"@ {
        Some(StreetNamePostType::BOTTOM)
    } else if s == "BLVD"@ || s == "BOULEVARD"@ {
        Some(StreetNamePostType::BOULEVARD)
    } else if s == "BR"@ {
        Some(StreetNamePostType::BRANCH)
    } else if s == "BRG"@ {
        Some(StreetNamePostType::BRIDGE)
    } else if s == "BRK"@ {
        Some(StreetNamePostType::BROOK)
    } else if s == "BRKS"@ {
        Some(StreetNamePostType::BROOKS)
    } else if s == "BG"@ {
        Some(StreetNamePostType::BURG)
    } else if s == "BGS"@ {
        Some(StreetNamePostType::BURGS)
    } else if s == "BYP"@ {
        Some(StreetNamePostType::BYPASS)
    } else if s == "CP"@ {
        Some(StreetNamePostType::CAMP)
    } else if s == "CYN"@ {
        Some(StreetNamePostType::CANYON)
    } else if s == "CPE"@ {
        Some(StreetNamePostType::CAPE)
    } else if s == "CSWY"@ {
        Some(StreetNamePostType::CAUSEWAY)
    } else if s == "CTR"@ {
        Some(StreetNamePostType::CENTER)
    } else if s == "CTRS"@ {
        Some(StreetNamePostType::CENTERS)
    } else if s == "CIR"@ || s == "CIRCLE"@ {
        Some(StreetNamePostType::CIRCLE)
    } else if s == "CIRS"@ {
        Some(StreetNamePostType::CIRCLES)
    } else if s == "CLF"@ {
        Some(StreetNamePostType::CLIFF)
    } else if s == "CLFS"@ {
        Some(StreetNamePostType::CLIFFS)
    } else if s == "CLB"@ {
        Some(StreetNamePostType::CLUB)
    } else if s == "CMN"@ {
        Some(StreetNamePostType::COMMON)
    } else if s == "CMNS"@ {
        Some(StreetNamePostType::COMMONS)
    } else if s == "COR"@ {
        Some(StreetNamePostType::CORNER)
    } else if s == "CORS"@ {
        Some(StreetNamePostType::CORNERS)
    } else if s == "CRSE"@ {
        Some(StreetNamePostType::COURSE)
    } else if s == "CT"@ || s == "COURT"@ {
        Some(StreetNamePostType::COURT)
    } else if s == "CTS"@ {
        Some(StreetNamePostType::COURTS)
    } else if s == "CV"@ {
        Some(StreetNamePostType::COVE)
    } else if s == "CVS"@ {
        Some(StreetNamePostType::COVES)
    } else if s == "CRK"@ {
        Some(StreetNamePostType::CREEK)
    } else if s == "CRES"@ {
        Some(StreetNamePostType::CRESCENT)
    } else if s == "CRST"@ || s == "CREST"@ {
        Some(StreetNamePostType::CREST)
    } else if s == "XING"@ {
        Some(StreetNamePostType::CROSSING)
    } else if s == "XRD"@ {
        Some(StreetNamePostType::CROSSROAD)
    } else if s == "XRDS"@ {
        Some(StreetNamePostType::CROSSROADS)
    } else if s == "CURV"@ {
        Some(StreetNamePostType::CURVE)
    } else if s == "CUTOFF"@ || s == "CTOFF"@ {
        Some(StreetNamePostType::CUTOFF)
    } else if s == "DL"@ {
        Some(StreetNamePostType::DALE)
    } else if s == "DM"@ {
        Some(StreetNamePostType::DAM)
    } else if s == "DV"@ {
        Some(StreetNamePostType::DIVIDE)
    } else if s == "DR"@ || s == "DRIVE"@ {
        Some(StreetNamePostType::DRIVE)
    } else if s == "DR CUTOFF"@ || s == "DRCTOFF"@ {
        Some(StreetNamePostType::DriveCutoff)
    } else if s == "DRS"@ {
        Some(StreetNamePostType::DRIVES)
    } else if s == "EST"@ {
        Some(StreetNamePostType::ESTATE)
    } else if s == "ESTS"@ {
        Some(StreetNamePostType::ESTATES)
    } else if s == "EXPY"@ {
        Some(StreetNamePostType::EXPRESSWAY)
    } else if s == "EXT"@ {
        Some(StreetNamePostType::EXTENSION)
    } else if s == "EXTS"@ {
        Some(StreetNamePostType::EXTENSIONS)
    } else if s == "FALL"@ {
        Some(StreetNamePostType::FALL)
    } else if s == "FLS"@ {
        Some(StreetNamePostType::FALLS)
    } else if s == "FRY"@ {
        Some(StreetNamePostType::FERRY)
    } else if s == "FLD"@ {
        Some(StreetNamePostType::FIELD)
    } else if s == "FLDS"@ {
        Some(StreetNamePostType::FIELDS)
    } else if s == "FLT"@ {
        Some(StreetNamePostType::FLAT)
    } else if s == "FLTS"@ {
        Some(StreetNamePostType::FLATS)
    } else if s == "FRD"@ {
        Some(StreetNamePostType::FORD)
    } else if s == "FRDS"@ {
        Some(StreetNamePostType::FORDS)
    } else if s == "FRST"@ {
        Some(StreetNamePostType::FOREST)
    } else if s == "FRG"@ {
        Some(StreetNamePostType::FORGE)
    } else if s == "FRGS"@ {
        Some(StreetNamePostType::FORGES)
    } else if s == "FRK"@ {
        Some(StreetNamePostType::FORK)
    } else if s == "FRKS"@ {
        Some(StreetNamePostType::FORKS)
    } else if s == "FT"@ {
        Some(StreetNamePostType::FORT)
    } else if s == "FWY"@ {
        Some(StreetNamePostType::FREEWAY)
    } else if s == "GDN"@ || s == "GARDEN"@ {
        Some(StreetNamePostType::GARDEN)
    } else if s == "GDNS"@ {
        Some(StreetNamePostType::GARDENS)
    } else if s == "GTWY"@ {
        Some(StreetNamePostType::GATEWAY)
    } else if s == "GLN"@ || s == "GLEN"@ {
        Some(StreetNamePostType::GLEN)
    } else if s == "GLNS"@ {
        Some(StreetNamePostType::GLENS)
    } else if s == "GRN"@ {
        Some(StreetNamePostType::GREEN)
    } else if s == "GRNS"@ {
        Some(StreetNamePostType::GREENS)
    } else if s == "GRV"@ {
        Some(StreetNamePostType::GROVE)
    } else if s == "GRVS"@ {
        Some(StreetNamePostType::GROVES)
    } else if s == "HBR"@ {
        Some(StreetNamePostType::HARBOR)
    } else if s == "HBRS"@ {
        Some(StreetNamePostType::HARBORS)
    } else if s == "HVN"@ {
        Some(StreetNamePostType::HAVEN)
    } else if s == "HTS"@ {
        Some(StreetNamePostType::HEIGHTS)
    } else if s == "HWY"@ || s == "HIGHWAY"@ {
        Some(StreetNamePostType::HIGHWAY)
    } else if s == "HL"@ {
        Some(StreetNamePostType::HILL)
    } else if s == "HLS"@ {
        Some(StreetNamePostType::HILLS)
    } else if s == "HOLW"@ {
        Some(StreetNamePostType::HOLLOW)
    } else if s == "INLT"@ {
        Some(StreetNamePostType::INLET)
    } else if s == "IS"@ {
        Some(StreetNamePostType::ISLAND)
    } else if s == "ISS"@ {
        Some(StreetNamePostType::ISLANDS)
    } else if s == "ISLE"@ {
        Some(StreetNamePostType::ISLE)
    } else if s == "JCT"@ {
        Some(StreetNamePostType::JUNCTION)
    } else if s == "JCTS"@ {
        Some(StreetNamePostType::JUNCTIONS)
    } else if s == "KY"@ {
        Some(StreetNamePostType::KEY)
    } else if s == "KYS"@ {
        Some(StreetNamePostType::KEYS)
    } else if s == "KNL"@ {
        Some(StreetNamePostType::KNOLL)
    } else if s == "KNLS"@ {
        Some(StreetNamePostType::KNOLLS)
    } else if s == "LK"@ {
        Some(StreetNamePostType::LAKE)
    } else if s == "LKS"@ {
        Some(StreetNamePostType::LAKES)
    } else if s == "LAND"@ {
        Some(StreetNamePostType::LAND)
    } else if s == "LNDG"@ {
        Some(StreetNamePostType::LANDING)
    } else if s == "LN"@ || s == "LANE"@ {
        Some(StreetNamePostType::LANE)
    } else if s == "LGT"@ {
        Some(StreetNamePostType::LIGHT)
    } else if s == "LGTS"@ {
        Some(StreetNamePostType::LIGHTS)
    } else if s == "LF"@ {
        Some(StreetNamePostType::LOAF)
    } else if s == "LCK"@ {
        Some(StreetNamePostType::LOCK)
    } else if s == "LCKS"@ {
        Some(StreetNamePostType::LOCKS)
    } else if s == "LDG"@ {
        Some(StreetNamePostType::LODGE)
    } else if s == "LOOP"@ {
        Some(StreetNamePostType::LOOP)
    } else if s == "MALL"@ {
        Some(StreetNamePostType::MALL)
    } else if s == "MNR"@ {
        Some(StreetNamePostType::MANOR)
    } else if s == "MNRS"@ {
        Some(StreetNamePostType::MANORS)
    } else if s == "MDW"@ {
        Some(StreetNamePostType::MEADOW)
    } else if s == "MDWS"@ {
        Some(StreetNamePostType::MEADOWS)
    } else if s == "MEWS"@ {
        Some(StreetNamePostType::MEWS)
    } else if s == "ML"@ {
        Some(StreetNamePostType::MILL)
    } else if s == "MLS"@ {
        Some(StreetNamePostType::MILLS)
    } else if s == "MSN"@ {
        Some(StreetNamePostType::MISSION)
    } else if s == "MTWY"@ {
        Some(StreetNamePostType::MOTORWAY)
    } else if s == "MT"@ {
        Some(StreetNamePostType::MOUNT)
    } else if s == "MTN"@ {
        Some(StreetNamePostType::MOUNTAIN)
    } else if s == "MTNS"@ {
        Some(StreetNamePostType::MOUNTAINS)
    } else if s == "NCK"@ {
        Some(StreetNamePostType::NECK)
    } else if s == "ORCH"@ {
        Some(StreetNamePostType::ORCHARD)
    } else if s == "OVAL"@ {
        Some(StreetNamePostType::OVAL)
    } else if s == "OPAS"@ {
        Some(StreetNamePostType::OVERPASS)
    } else if s == "PARK"@ {
        Some(StreetNamePostType::PARK)
    } else if s == "PKWY"@ {
        Some(StreetNamePostType::PARKWAY)
    } else if s == "PASS"@ {
        Some(StreetNamePostType::PASS)
    } else if s == "PSGE"@ {
        Some(StreetNamePostType::PASSAGE)
    } else if s == "PATH"@ {
        Some(StreetNamePostType::PATH)
    } else if s == "PIKE"@ {
        Some(StreetNamePostType::PIKE)
    } else if s == "PNE"@ {
        Some(StreetNamePostType::PINE)
    } else if s == "PNES"@ {
        Some(StreetNamePostType::PINES)
    } else if s == "PL"@ || s == "PLACE"@ {
        Some(StreetNamePostType::PLACE)
    } else if s == "PLN"@ {
        Some(StreetNamePostType::PLAIN)
    } else if s == "PLNS"@ {
        Some(StreetNamePostType::PLAINS)
    } else if s == "PLZ"@ {
        Some(StreetNamePostType::PLAZA)
    } else if s == "PT"@ {
        Some(StreetNamePostType::POINT)
    } else if s == "PTS"@ {
        Some(StreetNamePostType::POINTS)
    } else if s == "PRT"@ {
        Some(StreetNamePostType::PORT)
    } else if s == "PRTS"@ {
        Some(StreetNamePostType::PORTS)
    } else if s == "PR"@ {
        Some(StreetNamePostType::PRAIRIE)
    } else if s == "RADL"@ {
        Some(StreetNamePostType::RADIAL)
    } else if s == "RAMP"@ {
        Some(StreetNamePostType::RAMP)
    } else if s == "RNCH"@ {
        Some(StreetNamePostType::RANCH)
    } else if s == "RPD"@ {
        Some(StreetNamePostType::RAPID)
    } else if s == "RPDS"@ {
        Some(StreetNamePostType::RAPIDS)
    } else if s == "RST"@ {
        Some(StreetNamePostType::REST)
    } else if s == "RDG"@ {
        Some(StreetNamePostType::RIDGE)
    } else if s == "RDGS"@ {
        Some(StreetNamePostType::RIDGES)
    } else if s == "RIV"@ {
        Some(StreetNamePostType::RIVER)
    } else if s == "RD"@ || s == "ROAD"@ {
        Some(StreetNamePostType::ROAD)
    } else if s == "RDS"@ {
        Some(StreetNamePostType::ROADS)
    } else if s == "RTE"@ {
        Some(StreetNamePostType::ROUTE)
    } else if s == "ROW"@ {
        Some(StreetNamePostType::ROW)
    } else if s == "RUE"@ {
        Some(StreetNamePostType::RUE)
    } else if s == "RUN"@ {
        Some(StreetNamePostType::RUN)
    } else if s == "SHL"@ {
        Some(StreetNamePostType::SHOAL)
    } else if s == "SHLS"@ {
        Some(StreetNamePostType::SHOALS)
    } else if s == "SHR"@ {
        Some(StreetNamePostType::SHORE)
    } else if s == "SHRS"@ {
        Some(StreetNamePostType::SHORES)
    } else if s == "SKWY"@ {
        Some(StreetNamePostType::SKYWAY)
    } else if s == "SPG"@ {
        Some(StreetNamePostType::SPRING)
    } else if s == "SPGS"@ {
        Some(StreetNamePostType::SPRINGS)
    } else if s == "SPUR"@ {
        Some(StreetNamePostType::SPUR)
    } else if s == "SQ"@ {
        Some(StreetNamePostType::SQUARE)
    } else if s == "SQS"@ {
        Some(StreetNamePostType::SQUARES)
    } else if s == "STA"@ {
        Some(StreetNamePostType::STATION)
    } else if s == "STRA"@ {
        Some(StreetNamePostType::STRAVENUE)
    } else if s == "STRM"@ {
        Some(StreetNamePostType::STREAM)
    } else if s == "ST"@ || s == "STREET"@ {
        Some(StreetNamePostType::STREET)
    } else if s == "STS"@ {
        Some(StreetNamePostType::STREETS)
    } else if s == "SMT"@ {
        Some(StreetNamePostType::SUMMIT)
    } else if s == "TER"@ {
        Some(StreetNamePostType::TERRACE)
    } else if s == "TRWY"@ {
        Some(StreetNamePostType::THROUGHWAY)
    } else if s == "TRCE"@ {
        Some(StreetNamePostType::TRACE)
    } else if s == "TRAK"@ {
        Some(StreetNamePostType::TRACK)
    } else if s == "TRFY"@ {
        Some(StreetNamePostType::TRAFFICWAY)
    } else if s == "TRL"@ {
        Some(StreetNamePostType::TRAIL)
    } else if s == "TRLR"@ {
        Some(StreetNamePostType::TRAILER)
    } else if s == "TUNL"@ {
        Some(StreetNamePostType::TUNNEL)
    } else if s == "TPKE"@ {
        Some(StreetNamePostType::TURNPIKE)
    } else if s == "UPAS"@ {
        Some(StreetNamePostType::UNDERPASS)
    } else if s == "UN"@ {
        Some(StreetNamePostType::UNION)
    } else if s == "UNS"@ {
        Some(StreetNamePostType::UNIONS)
    } else if s == "VLY"@ {
        Some(StreetNamePostType::VALLEY)
    } else if s == "VLYS"@ {
        Some(StreetNamePostType::VALLEYS)
    } else if s == "VIA"@ {
        Some(StreetNamePostType::VIADUCT)
    } else if s == "VW"@ || s == "VIEW"@ {
        Some(StreetNamePostType::VIEW)
    } else if s == "VWS"@ {
        Some(StreetNamePostType::VIEWS)
    } else if s == "VLG"@ {
        Some(StreetNamePostType::VILLAGE)
    } else if s == "VLGS"@ {
        Some(StreetNamePostType::VILLAGES)
    } else if s == "VL"@ {
        Some(StreetNamePostType::VILLE)
    } else if s == "VIS"@ {
        Some(StreetNamePostType::VISTA)
    } else if s == "WALK"@ {
        Some(StreetNamePostType::WALK)
    } else if s == "WALL"@ {
        Some(StreetNamePostType::WALL)
    } else if s == "WAY"@ {
        Some(StreetNamePostType::WAY)
    } else if s == "WAYS"@ {
        Some(StreetNamePostType::WAYS)
    } else if s == "WL"@ {
        Some(StreetNamePostType::WELL)
    } else if s == "WLS"@ {
        Some(StreetNamePostType::WELLS)
    } else {
        None
    }
}

/// What the recognizer returns for the token `s`: its spelling is compared without regard to
/// the case of ASCII letters.
pub open spec fn recognize_post_type(s: Seq<char>) -> Option<StreetNamePostType> {
    post_type_of_alias(upper(s))
}

impl StreetNamePostType {
    /// The standard postal abbreviation, for labels.
    pub fn abbreviate(&self) -> (r: String)
        ensures
            r@ == post_type_abbreviation(*self),
    {
        let abbr = match self {
            StreetNamePostType::ALLEY => "ALY",
            StreetNamePostType::ANEX => "ANX",
            StreetNamePostType::ARCADE => "ARC",
            StreetNamePostType::AVENUE => "AVE",
            StreetNamePostType::BAYOU => "BYU",
            StreetNamePostType::BEACH => "BCH",
            StreetNamePostType::BEND => "BND",
            StreetNamePostType::BLUFF => "BLF",
            StreetNamePostType::BLUFFS => "BLFS",
            StreetNamePostType::BOTTOM => "BTM",
            StreetNamePostType::BOULEVARD => "BLVD",
            StreetNamePostType::BRANCH => "BR",
            StreetNamePostType::BRIDGE => "BRG",
            StreetNamePostType::BROOK => "BRK",
            StreetNamePostType::BROOKS => "BRKS",
            StreetNamePostType::BURG => "BG",
            StreetNamePostType::BURGS => "BGS",
            StreetNamePostType::BYPASS => "BYP",
            StreetNamePostType::CAMP => "CP",
            StreetNamePostType::CANYON => "CYN",
            StreetNamePostType::CAPE => "CPE",
            StreetNamePostType::CAUSEWAY => "CSWY",
            StreetNamePostType::CENTER => "CTR",
            StreetNamePostType::CENTERS => "CTRS",
            StreetNamePostType::CIRCLE => "CIR",
            StreetNamePostType::CIRCLES => "CIRS",
            StreetNamePostType::CLIFF => "CLF",
            StreetNamePostType::CLIFFS => "CLFS",
            StreetNamePostType::CLUB => "CLB",
            StreetNamePostType::COMMON => "CMN",
            StreetNamePostType::COMMONS => "CMNS",
            StreetNamePostType::CORNER => "COR",
            StreetNamePostType::CORNERS => "CORS",
            StreetNamePostType::COURSE => "CRSE",
            StreetNamePostType::COURT => "CT",
            StreetNamePostType::COURTS => "CTS",
            StreetNamePostType::COVE => "CV",
            StreetNamePostType::COVES => "CVS",
            StreetNamePostType::CREEK => "CRK",
            StreetNamePostType::CRESCENT => "CRES",
            StreetNamePostType::CREST => "CRST",
            StreetNamePostType::CROSSING => "XING",
            StreetNamePostType::CROSSROAD => "XRD",
            StreetNamePostType::CROSSROADS => "XRDS",
            StreetNamePostType::CURVE => "CURV",
            StreetNamePostType::CUTOFF => "CTOFF",
            StreetNamePostType::DALE => "DL",
            StreetNamePostType::DAM => "DM",
            StreetNamePostType::DIVIDE => "DV",
            StreetNamePostType::DRIVE => "DR",
            StreetNamePostType::DriveCutoff => "DRCTOFF",
            StreetNamePostType::DRIVES => "DRS",
            StreetNamePostType::ESTATE => "EST",
            StreetNamePostType::ESTATES => "ESTS",
            StreetNamePostType::EXPRESSWAY => "EXPY",
            StreetNamePostType::EXTENSION => "EXT",
            StreetNamePostType::EXTENSIONS => "EXTS",
            StreetNamePostType::FALL => "FALL",
            StreetNamePostType::FALLS => "FLS",
            StreetNamePostType::FERRY => "FRY",
            StreetNamePostType::FIELD => "FLD",
            StreetNamePostType::FIELDS => "FLDS",
            StreetNamePostType::FLAT => "FLT",
            StreetNamePostType::FLATS => "FLTS",
            StreetNamePostType::FORD => "FRD",
            StreetNamePostType::FORDS => "FRDS",
            StreetNamePostType::FOREST => "FRST",
            StreetNamePostType::FORGE => "FRG",
            StreetNamePostType::FORGES => "FRGS",
            StreetNamePostType::FORK => "FRK",
            StreetNamePostType::FORKS => "FRKS",
            StreetNamePostType::FORT => "FT",
            StreetNamePostType::FREEWAY => "FWY",
            StreetNamePostType::GARDEN => "GDN",
            StreetNamePostType::GARDENS => "GDNS",
            StreetNamePostType::GATEWAY => "GTWY",
            StreetNamePostType::GLEN => "GLN",
            StreetNamePostType::GLENS => "GLNS",
            StreetNamePostType::GREEN => "GRN",
            StreetNamePostType::GREENS => "GRNS",
            StreetNamePostType::GROVE => "GRV",
            StreetNamePostType::GROVES => "GRVS",
            StreetNamePostType::HARBOR => "HBR",
            StreetNamePostType::HARBORS => "HBRS",
            StreetNamePostType::HAVEN => "HVN",
            StreetNamePostType::HEIGHTS => "HTS",
            StreetNamePostType::HIGHWAY => "HWY",
            StreetNamePostType::HILL => "HL",
            StreetNamePostType::HILLS => "HLS",
            StreetNamePostType::HOLLOW => "HOLW",
            StreetNamePostType::INLET => "INLT",
            StreetNamePostType::ISLAND => "IS",
            StreetNamePostType::ISLANDS => "ISS",
            StreetNamePostType::ISLE => "ISLE",
            StreetNamePostType::JUNCTION => "JCT",
            StreetNamePostType::JUNCTIONS => "JCTS",
            StreetNamePostType::KEY => "KY",
            StreetNamePostType::KEYS => "KYS",
            StreetNamePostType::KNOLL => "KNL",
            StreetNamePostType::KNOLLS => "KNLS",
            StreetNamePostType::LAKE => "LK",
            StreetNamePostType::LAKES => "LKS",
            StreetNamePostType::LAND => "LAND",
            StreetNamePostType::LANDING => "LNDG",
            StreetNamePostType::LANE => "LN",
            StreetNamePostType::LIGHT => "LGT",
            StreetNamePostType::LIGHTS => "LGTS",
            StreetNamePostType::LOAF => "LF",
            StreetNamePostType::LOCK => "LCK",
            StreetNamePostType::LOCKS => "LCKS",
            StreetNamePostType::LODGE => "LDG",
            StreetNamePostType::LOOP => "LOOP",
            StreetNamePostType::MALL => "MALL",
            StreetNamePostType::MANOR => "MNR",
            StreetNamePostType::MANORS => "MNRS",
            StreetNamePostType::MEADOW => "MDW",
            StreetNamePostType::MEADOWS => "MDWS",
            StreetNamePostType::MEWS => "MEWS",
            StreetNamePostType::MILL => "ML",
            StreetNamePostType::MILLS => "MLS",
            StreetNamePostType::MISSION => "MSN",
            StreetNamePostType::MOTORWAY => "MTWY",
            StreetNamePostType::MOUNT => "MT",
            StreetNamePostType::MOUNTAIN => "MTN",
            StreetNamePostType::MOUNTAINS => "MTNS",
            StreetNamePostType::NECK => "NCK",
            StreetNamePostType::ORCHARD => "ORCH",
            StreetNamePostType::OVAL => "OVAL",
            StreetNamePostType::OVERPASS => "OPAS",
            StreetNamePostType::PARK => "PARK",
            StreetNamePostType::PARKWAY => "PKWY",
            StreetNamePostType::PASS => "PASS",
            StreetNamePostType::PASSAGE => "PSGE",
            StreetNamePostType::PATH => "PATH",
            StreetNamePostType::PIKE => "PIKE",
            StreetNamePostType::PINE => "PNE",
            StreetNamePostType::PINES => "PNES",
            StreetNamePostType::PLACE => "PL",
            StreetNamePostType::PLAIN => "PLN",
            StreetNamePostType::PLAINS => "PLNS",
            StreetNamePostType::PLAZA => "PLZ",
            StreetNamePostType::POINT => "PT",
            StreetNamePostType::POINTS => "PTS",
            StreetNamePostType::PORT => "PRT",
            StreetNamePostType::PORTS => "PRTS",
            StreetNamePostType::PRAIRIE => "PR",
            StreetNamePostType::RADIAL => "RADL",
            StreetNamePostType::RAMP => "RAMP",
            StreetNamePostType::RANCH => "RNCH",
            StreetNamePostType::RAPID => "RPD",
            StreetNamePostType::RAPIDS => "RPDS",
            StreetNamePostType::REST => "RST",
            StreetNamePostType::RIDGE => "RDG",
            StreetNamePostType::RIDGES => "RDGS",
            StreetNamePostType::RIVER => "RIV",
            StreetNamePostType::ROAD => "RD",
            StreetNamePostType::ROADS => "RDS",
            StreetNamePostType::ROUTE => "RTE",
            StreetNamePostType::ROW => "ROW",
            StreetNamePostType::RUE => "RUE",
            StreetNamePostType::RUN => "RUN",
            StreetNamePostType::SHOAL => "SHL",
            StreetNamePostType::SHOALS => "SHLS",
            StreetNamePostType::SHORE => "SHR",
            StreetNamePostType::SHORES => "SHRS",
            StreetNamePostType::SKYWAY => "SKWY",
            StreetNamePostType::SPRING => "SPG",
            StreetNamePostType::SPRINGS => "SPGS",
            StreetNamePostType::SPUR => "SPUR",
            StreetNamePostType::SQUARE => "SQ",
            StreetNamePostType::SQUARES => "SQS",
            StreetNamePostType::STATION => "STA",
            StreetNamePostType::STRAVENUE => "STRA",
            StreetNamePostType::STREAM => "STRM",
            StreetNamePostType::STREET => "ST",
            StreetNamePostType::STREETS => "STS",
            StreetNamePostType::SUMMIT => "SMT",
            StreetNamePostType::TERRACE => "TER",
            StreetNamePostType::THROUGHWAY => "TRWY",
            StreetNamePostType::TRACE => "TRCE",
            StreetNamePostType::TRACK => "TRAK",
            StreetNamePostType::TRAFFICWAY => "TRFY",
            StreetNamePostType::TRAIL => "TRL",
            StreetNamePostType::TRAILER => "TRLR",
            StreetNamePostType::TUNNEL => "TUNL",
            StreetNamePostType::TURNPIKE => "TPKE",
            StreetNamePostType::UNDERPASS => "UPAS",
            StreetNamePostType::UNION => "UN",
            StreetNamePostType::UNIONS => "UNS",
            StreetNamePostType::VALLEY => "VLY",
            StreetNamePostType::VALLEYS => "VLYS",
            StreetNamePostType::VIADUCT => "VIA",
            StreetNamePostType::VIEW => "VW",
            StreetNamePostType::VIEWS => "VWS",
            StreetNamePostType::VILLAGE => "VLG",
            StreetNamePostType::VILLAGES => "VLGS",
            StreetNamePostType::VILLE => "VL",
            StreetNamePostType::VISTA => "VIS",
            StreetNamePostType::WALK => "WALK",
            StreetNamePostType::WALL => "WALL",
            StreetNamePostType::WAY => "WAY",
            StreetNamePostType::WAYS => "WAYS",
            StreetNamePostType::WELL => "WL",
            StreetNamePostType::WELLS => "WLS",
        };
        abbr.to_owned()
    }

    /// The full name, as written in a complete street name.
    pub fn name(&self) -> (r: String)
        ensures
            r@ == post_type_name(*self),
    {
        let full = match self {
            StreetNamePostType::ALLEY => "ALLEY",
            StreetNamePostType::ANEX => "ANEX",
            StreetNamePostType::ARCADE => "ARCADE",
            StreetNamePostType::AVENUE => "AVENUE",
            StreetNamePostType::BAYOU => "BAYOU",
            StreetNamePostType::BEACH => "BEACH",
            StreetNamePostType::BEND => "BEND",
            StreetNamePostType::BLUFF => "BLUFF",
            StreetNamePostType::BLUFFS => "BLUFFS",
            StreetNamePostType::BOTTOM => "BOTTOM",
            StreetNamePostType::BOULEVARD => "BOULEVARD",
            StreetNamePostType::BRANCH => "BRANCH",
            StreetNamePostType::BRIDGE => "BRIDGE",
            StreetNamePostType::BROOK => "BROOK",
            StreetNamePostType::BROOKS => "BROOKS",
            StreetNamePostType::BURG => "BURG",
            StreetNamePostType::BURGS => "BURGS",
            StreetNamePostType::BYPASS => "BYPASS",
            StreetNamePostType::CAMP => "CAMP",
            StreetNamePostType::CANYON => "CANYON",
            StreetNamePostType::CAPE => "CAPE",
            StreetNamePostType::CAUSEWAY => "CAUSEWAY",
            StreetNamePostType::CENTER => "CENTER",
            StreetNamePostType::CENTERS => "CENTERS",
            StreetNamePostType::CIRCLE => "CIRCLE",
            StreetNamePostType::CIRCLES => "CIRCLES",
            StreetNamePostType::CLIFF => "CLIFF",
            StreetNamePostType::CLIFFS => "CLIFFS",
            StreetNamePostType::CLUB => "CLUB",
            StreetNamePostType::COMMON => "COMMON",
            StreetNamePostType::COMMONS => "COMMONS",
            StreetNamePostType::CORNER => "CORNER",
            StreetNamePostType::CORNERS => "CORNERS",
            StreetNamePostType::COURSE => "COURSE",
            StreetNamePostType::COURT => "COURT",
            StreetNamePostType::COURTS => "COURTS",
            StreetNamePostType::COVE => "COVE",
            StreetNamePostType::COVES => "COVES",
            StreetNamePostType::CREEK => "CREEK",
            StreetNamePostType::CRESCENT => "CRESCENT",
            StreetNamePostType::CREST => "CREST",
            StreetNamePostType::CROSSING => "CROSSING",
            StreetNamePostType::CROSSROAD => "CROSSROAD",
            StreetNamePostType::CROSSROADS => "CROSSROADS",
            StreetNamePostType::CURVE => "CURVE",
            StreetNamePostType::CUTOFF => "CUTOFF",
            StreetNamePostType::DALE => "DALE",
            StreetNamePostType::DAM => "DAM",
            StreetNamePostType::DIVIDE => "DIVIDE",
            StreetNamePostType::DRIVE => "DRIVE",
            StreetNamePostType::DriveCutoff => "DRIVE CUTOFF",
            StreetNamePostType::DRIVES => "DRIVES",
            StreetNamePostType::ESTATE => "ESTATE",
            StreetNamePostType::ESTATES => "ESTATES",
            StreetNamePostType::EXPRESSWAY => "EXPRESSWAY",
            StreetNamePostType::EXTENSION => "EXTENSION",
            StreetNamePostType::EXTENSIONS => "EXTENSIONS",
            StreetNamePostType::FALL => "FALL",
            StreetNamePostType::FALLS => "FALLS",
            StreetNamePostType::FERRY => "FERRY",
            StreetNamePostType::FIELD => "FIELD",
            StreetNamePostType::FIELDS => "FIELDS",
            StreetNamePostType::FLAT => "FLAT",
            StreetNamePostType::FLATS => "FLATS",
            StreetNamePostType::FORD => "FORD",
            StreetNamePostType::FORDS => "FORDS",
            StreetNamePostType::FOREST => "FOREST",
            StreetNamePostType::FORGE => "FORGE",
            StreetNamePostType::FORGES => "FORGES",
            StreetNamePostType::FORK => "FORK",
            StreetNamePostType::FORKS => "FORKS",
            StreetNamePostType::FORT => "FORT",
            StreetNamePostType::FREEWAY => "FREEWAY",
            StreetNamePostType::GARDEN => "GARDEN",
            StreetNamePostType::GARDENS => "GARDENS",
            StreetNamePostType::GATEWAY => "GATEWAY",
            StreetNamePostType::GLEN => "GLEN",
            StreetNamePostType::GLENS => "GLENS",
            StreetNamePostType::GREEN => "GREEN",
            StreetNamePostType::GREENS => "GREENS",
            StreetNamePostType::GROVE => "GROVE",
            StreetNamePostType::GROVES => "GROVES",
            StreetNamePostType::HARBOR => "HARBOR",
            StreetNamePostType::HARBORS => "HARBORS",
            StreetNamePostType::HAVEN => "HAVEN",
            StreetNamePostType::HEIGHTS => "HEIGHTS",
            StreetNamePostType::HIGHWAY => "HIGHWAY",
            StreetNamePostType::HILL => "HILL",
            StreetNamePostType::HILLS => "HILLS",
            StreetNamePostType::HOLLOW => "HOLLOW",
            StreetNamePostType::INLET => "INLET",
            StreetNamePostType::ISLAND => "ISLAND",
            StreetNamePostType::ISLANDS => "ISLANDS",
            StreetNamePostType::ISLE => "ISLE",
            StreetNamePostType::JUNCTION => "JUNCTION",
            StreetNamePostType::JUNCTIONS => "JUNCTIONS",
            StreetNamePostType::KEY => "KEY",
            StreetNamePostType::KEYS => "KEYS",
            StreetNamePostType::KNOLL => "KNOLL",
            StreetNamePostType::KNOLLS => "KNOLLS",
            StreetNamePostType::LAKE => "LAKE",
            StreetNamePostType::LAKES => "LAKES",
            StreetNamePostType::LAND => "LAND",
            StreetNamePostType::LANDING => "LANDING",
            StreetNamePostType::LANE => "LANE",
            StreetNamePostType::LIGHT => "LIGHT",
            StreetNamePostType::LIGHTS => "LIGHTS",
            StreetNamePostType::LOAF => "LOAF",
            StreetNamePostType::LOCK => "LOCK",
            StreetNamePostType::LOCKS => "LOCKS",
            StreetNamePostType::LODGE => "LODGE",
            StreetNamePostType::LOOP => "LOOP",
            StreetNamePostType::MALL => "MALL",
            StreetNamePostType::MANOR => "MANOR",
            StreetNamePostType::MANORS => "MANORS",
            StreetNamePostType::MEADOW => "MEADOW",
            StreetNamePostType::MEADOWS => "MEADOWS",
            StreetNamePostType::MEWS => "MEWS",
            StreetNamePostType::MILL => "MILL",
            StreetNamePostType::MILLS => "MILLS",
            StreetNamePostType::MISSION => "MISSION",
            StreetNamePostType::MOTORWAY => "MOTORWAY",
            StreetNamePostType::MOUNT => "MOUNT",
            StreetNamePostType::MOUNTAIN => "MOUNTAIN",
            StreetNamePostType::MOUNTAINS => "MOUNTAINS",
            StreetNamePostType::NECK => "NECK",
            StreetNamePostType::ORCHARD => "ORCHARD",
            StreetNamePostType::OVAL => "OVAL",
            StreetNamePostType::OVERPASS => "OVERPASS",
            StreetNamePostType::PARK => "PARK",
            StreetNamePostType::PARKWAY => "PARKWAY",
            StreetNamePostType::PASS => "PASS",
            StreetNamePostType::PASSAGE => "PASSAGE",
            StreetNamePostType::PATH => "PATH",
            StreetNamePostType::PIKE => "PIKE",
            StreetNamePostType::PINE => "PINE",
            StreetNamePostType::PINES => "PINES",
            StreetNamePostType::PLACE => "PLACE",
            StreetNamePostType::PLAIN => "PLAIN",
            StreetNamePostType::PLAINS => "PLAINS",
            StreetNamePostType::PLAZA => "PLAZA",
            StreetNamePostType::POINT => "POINT",
            StreetNamePostType::POINTS => "POINTS",
            StreetNamePostType::PORT => "PORT",
            StreetNamePostType::PORTS => "PORTS",
            StreetNamePostType::PRAIRIE => "PRAIRIE",
            StreetNamePostType::RADIAL => "RADIAL",
            StreetNamePostType::RAMP => "RAMP",
            StreetNamePostType::RANCH => "RANCH",
            StreetNamePostType::RAPID => "RAPID",
            StreetNamePostType::RAPIDS => "RAPIDS",
            StreetNamePostType::REST => "REST",
            StreetNamePostType::RIDGE => "RIDGE",
            StreetNamePostType::RIDGES => "RIDGES",
            StreetNamePostType::RIVER => "RIVER",
            StreetNamePostType::ROAD => "ROAD",
            StreetNamePostType::ROADS => "ROADS",
            StreetNamePostType::ROUTE => "ROUTE",
            StreetNamePostType::ROW => "ROW",
            StreetNamePostType::RUE => "RUE",
            StreetNamePostType::RUN => "RUN",
            StreetNamePostType::SHOAL => "SHOAL",
            StreetNamePostType::SHOALS => "SHOALS",
            StreetNamePostType::SHORE => "SHORE",
            StreetNamePostType::SHORES => "SHORES",
            StreetNamePostType::SKYWAY => "SKYWAY",
            StreetNamePostType::SPRING => "SPRING",
            StreetNamePostType::SPRINGS => "SPRINGS",
            StreetNamePostType::SPUR => "SPUR",
            StreetNamePostType::SQUARE => "SQUARE",
            StreetNamePostType::SQUARES => "SQUARES",
            StreetNamePostType::STATION => "STATION",
            StreetNamePostType::STRAVENUE => "STRAVENUE",
            StreetNamePostType::STREAM => "STREAM",
            StreetNamePostType::STREET => "STREET",
            StreetNamePostType::STREETS => "STREETS",
            StreetNamePostType::SUMMIT => "SUMMIT",
            StreetNamePostType::TERRACE => "TERRACE",
            StreetNamePostType::THROUGHWAY => "THROUGHWAY",
            StreetNamePostType::TRACE => "TRACE",
            StreetNamePostType::TRACK => "TRACK",
            StreetNamePostType::TRAFFICWAY => "TRAFFICWAY",
            StreetNamePostType::TRAIL => "TRAIL",
            StreetNamePostType::TRAILER => "TRAILER",
            StreetNamePostType::TUNNEL => "TUNNEL",
            StreetNamePostType::TURNPIKE => "TURNPIKE",
            StreetNamePostType::UNDERPASS => "UNDERPASS",
            StreetNamePostType::UNION => "UNION",
            StreetNamePostType::UNIONS => "UNIONS",
            StreetNamePostType::VALLEY => "VALLEY",
            StreetNamePostType::VALLEYS => "VALLEYS",
            StreetNamePostType::VIADUCT => "VIADUCT",
            StreetNamePostType::VIEW => "VIEW",
            StreetNamePostType::VIEWS => "VIEWS",
            StreetNamePostType::VILLAGE => "VILLAGE",
            StreetNamePostType::VILLAGES => "VILLAGES",
            StreetNamePostType::VILLE => "VILLE",
            StreetNamePostType::VISTA => "VISTA",
            StreetNamePostType::WALK => "WALK",
            StreetNamePostType::WALL => "WALL",
            StreetNamePostType::WAY => "WAY",
            StreetNamePostType::WAYS => "WAYS",
            StreetNamePostType::WELL => "WELL",
            StreetNamePostType::WELLS => "WELLS",
        };
        full.to_owned()
    }
}

/// Matches `input` exactly against the standard postal abbreviations.
pub fn match_abbreviated_post_type(input: &str) -> (r: Option<StreetNamePostType>)
    ensures
        r == post_type_of_abbreviation(input@),
{
    let s = input;
    if str_eq(s, "ALY") {
        Some(StreetNamePostType::ALLEY)
    } else if str_eq(s, "ANX") {
        Some(StreetNamePostType::ANEX)
    } else if str_eq(s, "ARC") {
        Some(StreetNamePostType::ARCADE)
    } else if str_eq(s, "AVE") {
        Some(StreetNamePostType::AVENUE)
    } else if str_eq(s, "BYU") {
        Some(StreetNamePostType::BAYOU)
    } else if str_eq(s, "BCH") {
        Some(StreetNamePostType::BEACH)
    } else if str_eq(s, "BND") {
        Some(StreetNamePostType::BEND)
    } else if str_eq(s, "BLF") {
        Some(StreetNamePostType::BLUFF)
    } else if str_eq(s, "BLFS") {
        Some(StreetNamePostType::BLUFFS)
    } else if str_eq(s, "BTM") {
        Some(StreetNamePostType::BOTTOM)
    } else if str_eq(s, "BLVD") {
        Some(StreetNamePostType::BOULEVARD)
    } else if str_eq(s, "BR") {
        Some(StreetNamePostType::BRANCH)
    } else if str_eq(s, "BRG") {
        Some(StreetNamePostType::BRIDGE)
    } else if str_eq(s, "BRK") {
        Some(StreetNamePostType::BROOK)
    } else if str_eq(s, "BRKS") {
        Some(StreetNamePostType::BROOKS)
    } else if str_eq(s, "BG") {
        Some(StreetNamePostType::BURG)
    } else if str_eq(s, "BGS") {
        Some(StreetNamePostType::BURGS)
    } else if str_eq(s, "BYP") {
        Some(StreetNamePostType::BYPASS)
    } else if str_eq(s, "CP") {
        Some(StreetNamePostType::CAMP)
    } else if str_eq(s, "CYN") {
        Some(StreetNamePostType::CANYON)
    } else if str_eq(s, "CPE") {
        Some(StreetNamePostType::CAPE)
    } else if str_eq(s, "CSWY") {
        Some(StreetNamePostType::CAUSEWAY)
    } else if str_eq(s, "CTR") {
        Some(StreetNamePostType::CENTER)
    } else if str_eq(s, "CTRS") {
        Some(StreetNamePostType::CENTERS)
    } else if str_eq(s, "CIR") {
        Some(StreetNamePostType::CIRCLE)
    } else if str_eq(s, "CIRS") {
        Some(StreetNamePostType::CIRCLES)
    } else if str_eq(s, "CLF") {
        Some(StreetNamePostType::CLIFF)
    } else if str_eq(s, "CLFS") {
        Some(StreetNamePostType::CLIFFS)
    } else if str_eq(s, "CLB") {
        Some(StreetNamePostType::CLUB)
    } else if str_eq(s, "CMN") {
        Some(StreetNamePostType::COMMON)
    } else if str_eq(s, "CMNS") {
        Some(StreetNamePostType::COMMONS)
    } else if str_eq(s, "COR") {
        Some(StreetNamePostType::CORNER)
    } else if str_eq(s, "CORS") {
        Some(StreetNamePostType::CORNERS)
    } else if str_eq(s, "CRSE") {
        Some(StreetNamePostType::COURSE)
    } else if str_eq(s, "CT") {
        Some(StreetNamePostType::COURT)
    } else if str_eq(s, "CTS") {
        Some(StreetNamePostType::COURTS)
    } else if str_eq(s, "CV") {
        Some(StreetNamePostType::COVE)
    } else if str_eq(s, "CVS") {
        Some(StreetNamePostType::COVES)
    } else if str_eq(s, "CRK") {
        Some(StreetNamePostType::CREEK)
    } else if str_eq(s, "CRES") {
        Some(StreetNamePostType::CRESCENT)
    } else if str_eq(s, "CRST") {
        Some(StreetNamePostType::CREST)
    } else if str_eq(s, "XING") {
        Some(StreetNamePostType::CROSSING)
    } else if str_eq(s, "XRD") {
        Some(StreetNamePostType::CROSSROAD)
    } else if str_eq(s, "XRDS") {
        Some(StreetNamePostType::CROSSROADS)
    } else if str_eq(s, "CURV") {
        Some(StreetNamePostType::CURVE)
    } else if str_eq(s, "CUTOFF") || str_eq(s, "CTOFF") {
        Some(StreetNamePostType::CUTOFF)
    } else if str_eq(s, "DL") {
        Some(StreetNamePostType::DALE)
    } else if str_eq(s, "DM") {
        Some(StreetNamePostType::DAM)
    } else if str_eq(s, "DV") {
        Some(StreetNamePostType::DIVIDE)
    } else if str_eq(s, "DR") {
        Some(StreetNamePostType::DRIVE)
    } else if str_eq(s, "DR CUTOFF") || str_eq(s, "DRCTOFF") {
        Some(StreetNamePostType::DriveCutoff)
    } else if str_eq(s, "DRS") {
        Some(StreetNamePostType::DRIVES)
    } else if str_eq(s, "EST") {
        Some(StreetNamePostType::ESTATE)
    } else if str_eq(s, "ESTS") {
        Some(StreetNamePostType::ESTATES)
    } else if str_eq(s, "EXPY") {
        Some(StreetNamePostType::EXPRESSWAY)
    } else if str_eq(s, "EXT") {
        Some(StreetNamePostType::EXTENSION)
    } else if str_eq(s, "EXTS") {
        Some(StreetNamePostType::EXTENSIONS)
    } else if str_eq(s, "FALL") {
        Some(StreetNamePostType::FALL)
    } else if str_eq(s, "FLS") {
        Some(StreetNamePostType::FALLS)
    } else if str_eq(s, "FRY") {
        Some(StreetNamePostType::FERRY)
    } else if str_eq(s, "FLD") {
        Some(StreetNamePostType::FIELD)
    } else if str_eq(s, "FLDS") {
        Some(StreetNamePostType::FIELDS)
    } else if str_eq(s, "FLT") {
        Some(StreetNamePostType::FLAT)
    } else if str_eq(s, "FLTS") {
        Some(StreetNamePostType::FLATS)
    } else if str_eq(s, "FRD") {
        Some(StreetNamePostType::FORD)
    } else if str_eq(s, "FRDS") {
        Some(StreetNamePostType::FORDS)
    } else if str_eq(s, "FRST") {
        Some(StreetNamePostType::FOREST)
    } else if str_eq(s, "FRG") {
        Some(StreetNamePostType::FORGE)
    } else if str_eq(s, "FRGS") {
        Some(StreetNamePostType::FORGES)
    } else if str_eq(s, "FRK") {
        Some(StreetNamePostType::FORK)
    } else if str_eq(s, "FRKS") {
        Some(StreetNamePostType::FORKS)
    } else if str_eq(s, "FT") {
        Some(StreetNamePostType::FORT)
    } else if str_eq(s, "FWY") {
        Some(StreetNamePostType::FREEWAY)
    } else if str_eq(s, "GDN") {
        Some(StreetNamePostType::GARDEN)
    } else if str_eq(s, "GDNS") {
        Some(StreetNamePostType::GARDENS)
    } else if str_eq(s, "GTWY") {
        Some(StreetNamePostType::GATEWAY)
    } else if str_eq(s, "GLN") {
        Some(StreetNamePostType::GLEN)
    } else if str_eq(s, "GLNS") {
        Some(StreetNamePostType::GLENS)
    } else if str_eq(s, "GRN") {
        Some(StreetNamePostType::GREEN)
    } else if str_eq(s, "GRNS") {
        Some(StreetNamePostType::GREENS)
    } else if str_eq(s, "GRV") {
        Some(StreetNamePostType::GROVE)
    } else if str_eq(s, "GRVS") {
        Some(StreetNamePostType::GROVES)
    } else if str_eq(s, "HBR") {
        Some(StreetNamePostType::HARBOR)
    } else if str_eq(s, "HBRS") {
        Some(StreetNamePostType::HARBORS)
    } else if str_eq(s, "HVN") {
        Some(StreetNamePostType::HAVEN)
    } else if str_eq(s, "HTS") {
        Some(StreetNamePostType::HEIGHTS)
    } else if str_eq(s, "HWY") {
        Some(StreetNamePostType::HIGHWAY)
    } else if str_eq(s, "HL") {
        Some(StreetNamePostType::HILL)
    } else if str_eq(s, "HLS") {
        Some(StreetNamePostType::HILLS)
    } else if str_eq(s, "HOLW") {
        Some(StreetNamePostType::HOLLOW)
    } else if str_eq(s, "INLT") {
        Some(StreetNamePostType::INLET)
    } else if str_eq(s, "IS") {
        Some(StreetNamePostType::ISLAND)
    } else if str_eq(s, "ISS") {
        Some(StreetNamePostType::ISLANDS)
    } else if str_eq(s, "ISLE") {
        Some(StreetNamePostType::ISLE)
    } else if str_eq(s, "JCT") {
        Some(StreetNamePostType::JUNCTION)
    } else if str_eq(s, "JCTS") {
        Some(StreetNamePostType::JUNCTIONS)
    } else if str_eq(s, "KY") {
        Some(StreetNamePostType::KEY)
    } else if str_eq(s, "KYS") {
        Some(StreetNamePostType::KEYS)
    } else if str_eq(s, "KNL") {
        Some(StreetNamePostType::KNOLL)
    } else if str_eq(s, "KNLS") {
        Some(StreetNamePostType::KNOLLS)
    } else if str_eq(s, "LK") {
        Some(StreetNamePostType::LAKE)
    } else if str_eq(s, "LKS") {
        Some(StreetNamePostType::LAKES)
    } else if str_eq(s, "LAND") {
        Some(StreetNamePostType::LAND)
    } else if str_eq(s, "LNDG") {
        Some(StreetNamePostType::LANDING)
    } else if str_eq(s, "LN") {
        Some(StreetNamePostType::LANE)
    } else if str_eq(s, "LGT") {
        Some(StreetNamePostType::LIGHT)
    } else if str_eq(s, "LGTS") {
        Some(StreetNamePostType::LIGHTS)
    } else if str_eq(s, "LF") {
        Some(StreetNamePostType::LOAF)
    } else if str_eq(s, "LCK") {
        Some(StreetNamePostType::LOCK)
    } else if str_eq(s, "LCKS") {
        Some(StreetNamePostType::LOCKS)
    } else if str_eq(s, "LDG") {
        Some(StreetNamePostType::LODGE)
    } else if str_eq(s, "LOOP") {
        Some(StreetNamePostType::LOOP)
    } else if str_eq(s, "MALL") {
        Some(StreetNamePostType::MALL)
    } else if str_eq(s, "MNR") {
        Some(StreetNamePostType::MANOR)
    } else if str_eq(s, "MNRS") {
        Some(StreetNamePostType::MANORS)
    } else if str_eq(s, "MDW") {
        Some(StreetNamePostType::MEADOW)
    } else if str_eq(s, "MDWS") {
        Some(StreetNamePostType::MEADOWS)
    } else if str_eq(s, "MEWS") {
        Some(StreetNamePostType::MEWS)
    } else if str_eq(s, "ML") {
        Some(StreetNamePostType::MILL)
    } else if str_eq(s, "MLS") {
        Some(StreetNamePostType::MILLS)
    } else if str_eq(s, "MSN") {
        Some(StreetNamePostType::MISSION)
    } else if str_eq(s, "MTWY") {
        Some(StreetNamePostType::MOTORWAY)
    } else if str_eq(s, "MT") {
        Some(StreetNamePostType::MOUNT)
    } else if str_eq(s, "MTN") {
        Some(StreetNamePostType::MOUNTAIN)
    } else if str_eq(s, "MTNS") {
        Some(StreetNamePostType::MOUNTAINS)
    } else if str_eq(s, "NCK") {
        Some(StreetNamePostType::NECK)
    } else if str_eq(s, "ORCH") {
        Some(StreetNamePostType::ORCHARD)
    } else if str_eq(s, "OVAL") {
        Some(StreetNamePostType::OVAL)
    } else if str_eq(s, "OPAS") {
        Some(StreetNamePostType::OVERPASS)
    } else if str_eq(s, "PARK") {
        Some(StreetNamePostType::PARK)
    } else if str_eq(s, "PKWY") {
        Some(StreetNamePostType::PARKWAY)
    } else if str_eq(s, "PASS") {
        Some(StreetNamePostType::PASS)
    } else if str_eq(s, "PSGE") {
        Some(StreetNamePostType::PASSAGE)
    } else if str_eq(s, "PATH") {
        Some(StreetNamePostType::PATH)
    } else if str_eq(s, "PIKE") {
        Some(StreetNamePostType::PIKE)
    } else if str_eq(s, "PNE") {
        Some(StreetNamePostType::PINE)
    } else if str_eq(s, "PNES") {
        Some(StreetNamePostType::PINES)
    } else if str_eq(s, "PL") {
        Some(StreetNamePostType::PLACE)
    } else if str_eq(s, "PLN") {
        Some(StreetNamePostType::PLAIN)
    } else if str_eq(s, "PLNS") {
        Some(StreetNamePostType::PLAINS)
    } else if str_eq(s, "PLZ") {
        Some(StreetNamePostType::PLAZA)
    } else if str_eq(s, "PT") {
        Some(StreetNamePostType::POINT)
    } else if str_eq(s, "PTS") {
        Some(StreetNamePostType::POINTS)
    } else if str_eq(s, "PRT") {
        Some(StreetNamePostType::PORT)
    } else if str_eq(s, "PRTS") {
        Some(StreetNamePostType::PORTS)
    } else if str_eq(s, "PR") {
        Some(StreetNamePostType::PRAIRIE)
    } else if str_eq(s, "RADL") {
        Some(StreetNamePostType::RADIAL)
    } else if str_eq(s, "RAMP") {
        Some(StreetNamePostType::RAMP)
    } else if str_eq(s, "RNCH") {
        Some(StreetNamePostType::RANCH)
    } else if str_eq(s, "RPD") {
        Some(StreetNamePostType::RAPID)
    } else if str_eq(s, "RPDS") {
        Some(StreetNamePostType::RAPIDS)
    } else if str_eq(s, "RST") {
        Some(StreetNamePostType::REST)
    } else if str_eq(s, "RDG") {
        Some(StreetNamePostType::RIDGE)
    } else if str_eq(s, "RDGS") {
        Some(StreetNamePostType::RIDGES)
    } else if str_eq(s, "RIV") {
        Some(StreetNamePostType::RIVER)
    } else if str_eq(s, "RD") {
        Some(StreetNamePostType::ROAD)
    } else if str_eq(s, "RDS") {
        Some(StreetNamePostType::ROADS)
    } else if str_eq(s, "RTE") {
        Some(StreetNamePostType::ROUTE)
    } else if str_eq(s, "ROW") {
        Some(StreetNamePostType::ROW)
    } else if str_eq(s, "RUE") {
        Some(StreetNamePostType::RUE)
    } else if str_eq(s, "RUN") {
        Some(StreetNamePostType::RUN)
    } else if str_eq(s, "SHL") {
        Some(StreetNamePostType::SHOAL)
    } else if str_eq(s, "SHLS") {
        Some(StreetNamePostType::SHOALS)
    } else if str_eq(s, "SHR") {
        Some(StreetNamePostType::SHORE)
    } else if str_eq(s, "SHRS") {
        Some(StreetNamePostType::SHORES)
    } else if str_eq(s, "SKWY") {
        Some(StreetNamePostType::SKYWAY)
    } else if str_eq(s, "SPG") {
        Some(StreetNamePostType::SPRING)
    } else if str_eq(s, "SPGS") {
        Some(StreetNamePostType::SPRINGS)
    } else if str_eq(s, "SPUR") {
        Some(StreetNamePostType::SPUR)
    } else if str_eq(s, "SQ") {
        Some(StreetNamePostType::SQUARE)
    } else if str_eq(s, "SQS") {
        Some(StreetNamePostType::SQUARES)
    } else if str_eq(s, "STA") {
        Some(StreetNamePostType::STATION)
    } else if str_eq(s, "STRA") {
        Some(StreetNamePostType::STRAVENUE)
    } else if str_eq(s, "STRM") {
        Some(StreetNamePostType::STREAM)
    } else if str_eq(s, "ST") {
        Some(StreetNamePostType::STREET)
    } else if str_eq(s, "STS") {
        Some(StreetNamePostType::STREETS)
    } else if str_eq(s, "SMT") {
        Some(StreetNamePostType::SUMMIT)
    } else if str_eq(s, "TER") {
        Some(StreetNamePostType::TERRACE)
    } else if str_eq(s, "TRWY") {
        Some(StreetNamePostType::THROUGHWAY)
    } else if str_eq(s, "TRCE") {
        Some(StreetNamePostType::TRACE)
    } else if str_eq(s, "TRAK") {
        Some(StreetNamePostType::TRACK)
    } else if str_eq(s, "TRFY") {
        Some(StreetNamePostType::TRAFFICWAY)
    } else if str_eq(s, "TRL") {
        Some(StreetNamePostType::TRAIL)
    } else if str_eq(s, "TRLR") {
        Some(StreetNamePostType::TRAILER)
    } else if str_eq(s, "TUNL") {
        Some(StreetNamePostType::TUNNEL)
    } else if str_eq(s, "TPKE") {
        Some(StreetNamePostType::TURNPIKE)
    } else if str_eq(s, "UPAS") {
        Some(StreetNamePostType::UNDERPASS)
    } else if str_eq(s, "UN") {
        Some(StreetNamePostType::UNION)
    } else if str_eq(s, "UNS") {
        Some(StreetNamePostType::UNIONS)
    } else if str_eq(s, "VLY") {
        Some(StreetNamePostType::VALLEY)
    } else if str_eq(s, "VLYS") {
        Some(StreetNamePostType::VALLEYS)
    } else if str_eq(s, "VIA") {
        Some(StreetNamePostType::VIADUCT)
    } else if str_eq(s, "VW") {
        Some(StreetNamePostType::VIEW)
    } else if str_eq(s, "VWS") {
        Some(StreetNamePostType::VIEWS)
    } else if str_eq(s, "VLG") {
        Some(StreetNamePostType::VILLAGE)
    } else if str_eq(s, "VLGS") {
        Some(StreetNamePostType::VILLAGES)
    } else if str_eq(s, "VL") {
        Some(StreetNamePostType::VILLE)
    } else if str_eq(s, "VIS") {
        Some(StreetNamePostType::VISTA)
    } else if str_eq(s, "WALK") {
        Some(StreetNamePostType::WALK)
    } else if str_eq(s, "WALL") {
        Some(StreetNamePostType::WALL)
    } else if str_eq(s, "WAY") {
        Some(StreetNamePostType::WAY)
    } else if str_eq(s, "WAYS") {
        Some(StreetNamePostType::WAYS)
    } else if str_eq(s, "WL") {
        Some(StreetNamePostType::WELL)
    } else if str_eq(s, "WLS") {
        Some(StreetNamePostType::WELLS)
    } else {
        None
    }
}

/// Matches `input`, in any letter case, against the abbreviations, full words and variant
/// spellings of the post types.
pub fn match_mixed_post_type(input: &str) -> (r: Option<StreetNamePostType>)
    ensures
        r == recognize_post_type(input@),
{
    let t = chars_of(input);
    post_type_of_chars(t.as_slice())
}

/// Matches a token held as characters; see [`match_mixed_post_type`].
pub fn post_type_of_chars(t: &[char]) -> (r: Option<StreetNamePostType>)
    ensures
        r == recognize_post_type(t@),
{
    let u = string_of(to_upper(t).as_slice());
    let s = u.as_str();
    if str_eq(s, "ALY") {
        Some(StreetNamePostType::ALLEY)
    } else if str_eq(s, "ANX") {
        Some(StreetNamePostType::ANEX)
    } else if str_eq(s, "ARC") {
        Some(StreetNamePostType::ARCADE)
    } else if str_eq(s, "AVE") || str_eq(s, "AVENUE") {
        Some(StreetNamePostType::AVENUE)
    } else if str_eq(s, "BYU") {
        Some(StreetNamePostType::BAYOU)
    } else if str_eq(s, "BCH") {
        Some(StreetNamePostType::BEACH)
    } else if str_eq(s, "BND") {
        Some(StreetNamePostType::BEND)
    } else if str_eq(s, "BLF") {
        Some(StreetNamePostType::BLUFF)
    } else if str_eq(s, "BLFS") {
        Some(StreetNamePostType::BLUFFS)
    } else if str_eq(s, "BTM") {
        Some(StreetNamePostType::BOTTOM)
    } else if str_eq(s, "BLVD") || str_eq(s, "BOULEVARD") {
        Some(StreetNamePostType::BOULEVARD)
    } else if str_eq(s, "BR") {
        Some(StreetNamePostType::BRANCH)
    } else if str_eq(s, "BRG") {
        Some(StreetNamePostType::BRIDGE)
    } else if str_eq(s, "BRK") {
        Some(StreetNamePostType::BROOK)
    } else if str_eq(s, "BRKS") {
        Some(StreetNamePostType::BROOKS)
    } else if str_eq(s, "BG") {
        Some(StreetNamePostType::BURG)
    } else if str_eq(s, "BGS") {
        Some(StreetNamePostType::BURGS)
    } else if str_eq(s, "BYP") {
        Some(StreetNamePostType::BYPASS)
    } else if str_eq(s, "CP") {
        Some(StreetNamePostType::CAMP)
    } else if str_eq(s, "CYN") {
        Some(StreetNamePostType::CANYON)
    } else if str_eq(s, "CPE") {
        Some(StreetNamePostType::CAPE)
    } else if str_eq(s, "CSWY") {
        Some(StreetNamePostType::CAUSEWAY)
    } else if str_eq(s, "CTR") {
        Some(StreetNamePostType::CENTER)
    } else if str_eq(s, "CTRS") {
        Some(StreetNamePostType::CENTERS)
    } else if str_eq(s, "CIR") || str_eq(s, "CIRCLE") {
        Some(StreetNamePostType::CIRCLE)
    } else if str_eq(s, "CIRS") {
        Some(StreetNamePostType::CIRCLES)
    } else if str_eq(s, "CLF") {
        Some(StreetNamePostType::CLIFF)
    } else if str_eq(s, "CLFS") {
        Some(StreetNamePostType::CLIFFS)
    } else if str_eq(s, "CLB") {
        Some(StreetNamePostType::CLUB)
    } else if str_eq(s, "CMN") {
        Some(StreetNamePostType::COMMON)
    } else if str_eq(s, "CMNS") {
        Some(StreetNamePostType::COMMONS)
    } else if str_eq(s, "COR") {
        Some(StreetNamePostType::CORNER)
    } else if str_eq(s, "CORS") {
        Some(StreetNamePostType::CORNERS)
    } else if str_eq(s, "CRSE") {
        Some(StreetNamePostType::COURSE)
    } else if str_eq(s, "CT") || str_eq(s, "COURT") {
        Some(StreetNamePostType::COURT)
    } else if str_eq(s, "CTS") {
        Some(StreetNamePostType::COURTS)
    } else if str_eq(s, "CV") {
        Some(StreetNamePostType::COVE)
    } else if str_eq(s, "CVS") {
        Some(StreetNamePostType::COVES)
    } else if str_eq(s, "CRK") {
        Some(StreetNamePostType::CREEK)
    } else if str_eq(s, "CRES") {
        Some(StreetNamePostType::CRESCENT)
    } else if str_eq(s, "CRST") || str_eq(s, "CREST") {
        Some(StreetNamePostType::CREST)
    } else if str_eq(s, "XING") {
        Some(StreetNamePostType::CROSSING)
    } else if str_eq(s, "XRD") {
        Some(StreetNamePostType::CROSSROAD)
    } else if str_eq(s, "XRDS") {
        Some(StreetNamePostType::CROSSROADS)
    } else if str_eq(s, "CURV") {
        Some(StreetNamePostType::CURVE)
    } else if str_eq(s, "CUTOFF") || str_eq(s, "CTOFF") {
        Some(StreetNamePostType::CUTOFF)
    } else if str_eq(s, "DL") {
        Some(StreetNamePostType::DALE)
    } else if str_eq(s, "DM") {
        Some(StreetNamePostType::DAM)
    } else if str_eq(s, "DV") {
        Some(StreetNamePostType::DIVIDE)
    } else if str_eq(s, "DR") || str_eq(s, "DRIVE") {
        Some(StreetNamePostType::DRIVE)
    } else if str_eq(s, "DR CUTOFF") || str_eq(s, "DRCTOFF") {
        Some(StreetNamePostType::DriveCutoff)
    } else if str_eq(s, "DRS") {
        Some(StreetNamePostType::DRIVES)
    } else if str_eq(s, "EST") {
        Some(StreetNamePostType::ESTATE)
    } else if str_eq(s, "ESTS") {
        Some(StreetNamePostType::ESTATES)
    } else if str_eq(s, "EXPY") {
        Some(StreetNamePostType::EXPRESSWAY)
    } else if str_eq(s, "EXT") {
        Some(StreetNamePostType::EXTENSION)
    } else if str_eq(s, "EXTS") {
        Some(StreetNamePostType::EXTENSIONS)
    } else if str_eq(s, "FALL") {
        Some(StreetNamePostType::FALL)
    } else if str_eq(s, "FLS") {
        Some(StreetNamePostType::FALLS)
    } else if str_eq(s, "FRY") {
        Some(StreetNamePostType::FERRY)
    } else if str_eq(s, "FLD") {
        Some(StreetNamePostType::FIELD)
    } else if str_eq(s, "FLDS") {
        Some(StreetNamePostType::FIELDS)
    } else if str_eq(s, "FLT") {
        Some(StreetNamePostType::FLAT)
    } else if str_eq(s, "FLTS") {
        Some(StreetNamePostType::FLATS)
    } else if str_eq(s, "FRD") {
        Some(StreetNamePostType::FORD)
    } else if str_eq(s, "FRDS") {
        Some(StreetNamePostType::FORDS)
    } else if str_eq(s, "FRST") {
        Some(StreetNamePostType::FOREST)
    } else if str_eq(s, "FRG") {
        Some(StreetNamePostType::FORGE)
    } else if str_eq(s, "FRGS") {
        Some(StreetNamePostType::FORGES)
    } else if str_eq(s, "FRK") {
        Some(StreetNamePostType::FORK)
    } else if str_eq(s, "FRKS") {
        Some(StreetNamePostType::FORKS)
    } else if str_eq(s, "FT") {
        Some(StreetNamePostType::FORT)
    } else if str_eq(s, "FWY") {
        Some(StreetNamePostType::FREEWAY)
    } else if str_eq(s, "GDN") || str_eq(s, "GARDEN") {
        Some(StreetNamePostType::GARDEN)
    } else if str_eq(s, "GDNS") {
        Some(StreetNamePostType::GARDENS)
    } else if str_eq(s, "GTWY") {
        Some(StreetNamePostType::GATEWAY)
    } else if str_eq(s, "GLN") || str_eq(s, "GLEN") {
        Some(StreetNamePostType::GLEN)
    } else if str_eq(s, "GLNS") {
        Some(StreetNamePostType::GLENS)
    } else if str_eq(s, "GRN") {
        Some(StreetNamePostType::GREEN)
    } else if str_eq(s, "GRNS") {
        Some(StreetNamePostType::GREENS)
    } else if str_eq(s, "GRV") {
        Some(StreetNamePostType::GROVE)
    } else if str_eq(s, "GRVS") {
        Some(StreetNamePostType::GROVES)
    } else if str_eq(s, "HBR") {
        Some(StreetNamePostType::HARBOR)
    } else if str_eq(s, "HBRS") {
        Some(StreetNamePostType::HARBORS)
    } else if str_eq(s, "HVN") {
        Some(StreetNamePostType::HAVEN)
    } else if str_eq(s, "HTS") {
        Some(StreetNamePostType::HEIGHTS)
    } else if str_eq(s, "HWY") || str_eq(s, "HIGHWAY") {
        Some(StreetNamePostType::HIGHWAY)
    } else if str_eq(s, "HL") {
        Some(StreetNamePostType::HILL)
    } else if str_eq(s, "HLS") {
        Some(StreetNamePostType::HILLS)
    } else if str_eq(s, "HOLW") {
        Some(StreetNamePostType::HOLLOW)
    } else if str_eq(s, "INLT") {
        Some(StreetNamePostType::INLET)
    } else if str_eq(s, "IS") {
        Some(StreetNamePostType::ISLAND)
    } else if str_eq(s, "ISS") {
        Some(StreetNamePostType::ISLANDS)
    } else if str_eq(s, "ISLE") {
        Some(StreetNamePostType::ISLE)
    } else if str_eq(s, "JCT") {
        Some(StreetNamePostType::JUNCTION)
    } else if str_eq(s, "JCTS") {
        Some(StreetNamePostType::JUNCTIONS)
    } else if str_eq(s, "KY") {
        Some(StreetNamePostType::KEY)
    } else if str_eq(s, "KYS") {
        Some(StreetNamePostType::KEYS)
    } else if str_eq(s, "KNL") {
        Some(StreetNamePostType::KNOLL)
    } else if str_eq(s, "KNLS") {
        Some(StreetNamePostType::KNOLLS)
    } else if str_eq(s, "LK") {
        Some(StreetNamePostType::LAKE)
    } else if str_eq(s, "LKS") {
        Some(StreetNamePostType::LAKES)
    } else if str_eq(s, "LAND") {
        Some(StreetNamePostType::LAND)
    } else if str_eq(s, "LNDG") {
        Some(StreetNamePostType::LANDING)
    } else if str_eq(s, "LN") || str_eq(s, "LANE") {
        Some(StreetNamePostType::LANE)
    } else if str_eq(s, "LGT") {
        Some(StreetNamePostType::LIGHT)
    } else if str_eq(s, "LGTS") {
        Some(StreetNamePostType::LIGHTS)
    } else if str_eq(s, "LF") {
        Some(StreetNamePostType::LOAF)
    } else if str_eq(s, "LCK") {
        Some(StreetNamePostType::LOCK)
    } else if str_eq(s, "LCKS") {
        Some(StreetNamePostType::LOCKS)
    } else if str_eq(s, "LDG") {
        Some(StreetNamePostType::LODGE)
    } else if str_eq(s, "LOOP") {
        Some(StreetNamePostType::LOOP)
    } else if str_eq(s, "MALL") {
        Some(StreetNamePostType::MALL)
    } else if str_eq(s, "MNR") {
        Some(StreetNamePostType::MANOR)
    } else if str_eq(s, "MNRS") {
        Some(StreetNamePostType::MANORS)
    } else if str_eq(s, "MDW") {
        Some(StreetNamePostType::MEADOW)
    } else if str_eq(s, "MDWS") {
        Some(StreetNamePostType::MEADOWS)
    } else if str_eq(s, "MEWS") {
        Some(StreetNamePostType::MEWS)
    } else if str_eq(s, "ML") {
        Some(StreetNamePostType::MILL)
    } else if str_eq(s, "MLS") {
        Some(StreetNamePostType::MILLS)
    } else if str_eq(s, "MSN") {
        Some(StreetNamePostType::MISSION)
    } else if str_eq(s, "MTWY") {
        Some(StreetNamePostType::MOTORWAY)
    } else if str_eq(s, "MT") {
        Some(StreetNamePostType::MOUNT)
    } else if str_eq(s, "MTN") {
        Some(StreetNamePostType::MOUNTAIN)
    } else if str_eq(s, "MTNS") {
        Some(StreetNamePostType::MOUNTAINS)
    } else if str_eq(s, "NCK") {
        Some(StreetNamePostType::NECK)
    } else if str_eq(s, "ORCH") {
        Some(StreetNamePostType::ORCHARD)
    } else if str_eq(s, "OVAL") {
        Some(StreetNamePostType::OVAL)
    } else if str_eq(s, "OPAS") {
        Some(StreetNamePostType::OVERPASS)
    } else if str_eq(s, "PARK") {
        Some(StreetNamePostType::PARK)
    } else if str_eq(s, "PKWY") {
        Some(StreetNamePostType::PARKWAY)
    } else if str_eq(s, "PASS") {
        Some(StreetNamePostType::PASS)
    } else if str_eq(s, "PSGE") {
        Some(StreetNamePostType::PASSAGE)
    } else if str_eq(s, "PATH") {
        Some(StreetNamePostType::PATH)
    } else if str_eq(s, "PIKE") {
        Some(StreetNamePostType::PIKE)
    } else if str_eq(s, "PNE") {
        Some(StreetNamePostType::PINE)
    } else if str_eq(s, "PNES") {
        Some(StreetNamePostType::PINES)
    } else if str_eq(s, "PL") || str_eq(s, "PLACE") {
        Some(StreetNamePostType::PLACE)
    } else if str_eq(s, "PLN") {
        Some(StreetNamePostType::PLAIN)
    } else if str_eq(s, "PLNS") {
        Some(StreetNamePostType::PLAINS)
    } else if str_eq(s, "PLZ") {
        Some(StreetNamePostType::PLAZA)
    } else if str_eq(s, "PT") {
        Some(StreetNamePostType::POINT)
    } else if str_eq(s, "PTS") {
        Some(StreetNamePostType::POINTS)
    } else if str_eq(s, "PRT") {
        Some(StreetNamePostType::PORT)
    } else if str_eq(s, "PRTS") {
        Some(StreetNamePostType::PORTS)
    } else if str_eq(s, "PR") {
        Some(StreetNamePostType::PRAIRIE)
    } else if str_eq(s, "RADL") {
        Some(StreetNamePostType::RADIAL)
    } else if str_eq(s, "RAMP") {
        Some(StreetNamePostType::RAMP)
    } else if str_eq(s, "RNCH") {
        Some(StreetNamePostType::RANCH)
    } else if str_eq(s, "RPD") {
        Some(StreetNamePostType::RAPID)
    } else if str_eq(s, "RPDS") {
        Some(StreetNamePostType::RAPIDS)
    } else if str_eq(s, "RST") {
        Some(StreetNamePostType::REST)
    } else if str_eq(s, "RDG") {
        Some(StreetNamePostType::RIDGE)
    } else if str_eq(s, "RDGS") {
        Some(StreetNamePostType::RIDGES)
    } else if str_eq(s, "RIV") {
        Some(StreetNamePostType::RIVER)
    } else if str_eq(s, "RD") || str_eq(s, "ROAD") {
        Some(StreetNamePostType::ROAD)
    } else if str_eq(s, "RDS") {
        Some(StreetNamePostType::ROADS)
    } else if str_eq(s, "RTE") {
        Some(StreetNamePostType::ROUTE)
    } else if str_eq(s, "ROW") {
        Some(StreetNamePostType::ROW)
    } else if str_eq(s, "RUE") {
        Some(StreetNamePostType::RUE)
    } else if str_eq(s, "RUN") {
        Some(StreetNamePostType::RUN)
    } else if str_eq(s, "SHL") {
        Some(StreetNamePostType::SHOAL)
    } else if str_eq(s, "SHLS") {
        Some(StreetNamePostType::SHOALS)
    } else if str_eq(s, "SHR") {
        Some(StreetNamePostType::SHORE)
    } else if str_eq(s, "SHRS") {
        Some(StreetNamePostType::SHORES)
    } else if str_eq(s, "SKWY") {
        Some(StreetNamePostType::SKYWAY)
    } else if str_eq(s, "SPG") {
        Some(StreetNamePostType::SPRING)
    } else if str_eq(s, "SPGS") {
        Some(StreetNamePostType::SPRINGS)
    } else if str_eq(s, "SPUR") {
        Some(StreetNamePostType::SPUR)
    } else if str_eq(s, "SQ") {
        Some(StreetNamePostType::SQUARE)
    } else if str_eq(s, "SQS") {
        Some(StreetNamePostType::SQUARES)
    } else if str_eq(s, "STA") {
        Some(StreetNamePostType::STATION)
    } else if str_eq(s, "STRA") {
        Some(StreetNamePostType::STRAVENUE)
    } else if str_eq(s, "STRM") {
        Some(StreetNamePostType::STREAM)
    } else if str_eq(s, "ST") || str_eq(s, "STREET") {
        Some(StreetNamePostType::STREET)
    } else if str_eq(s, "STS") {
        Some(StreetNamePostType::STREETS)
    } else if str_eq(s, "SMT") {
        Some(StreetNamePostType::SUMMIT)
    } else if str_eq(s, "TER") {
        Some(StreetNamePostType::TERRACE)
    } else if str_eq(s, "TRWY") {
        Some(StreetNamePostType::THROUGHWAY)
    } else if str_eq(s, "TRCE") {
        Some(StreetNamePostType::TRACE)
    } else if str_eq(s, "TRAK") {
        Some(StreetNamePostType::TRACK)
    } else if str_eq(s, "TRFY") {
        Some(StreetNamePostType::TRAFFICWAY)
    } else if str_eq(s, "TRL") {
        Some(StreetNamePostType::TRAIL)
    } else if str_eq(s, "TRLR") {
        Some(StreetNamePostType::TRAILER)
    } else if str_eq(s, "TUNL") {
        Some(StreetNamePostType::TUNNEL)
    } else if str_eq(s, "TPKE") {
        Some(StreetNamePostType::TURNPIKE)
    } else if str_eq(s, "UPAS") {
        Some(StreetNamePostType::UNDERPASS)
    } else if str_eq(s, "UN") {
        Some(StreetNamePostType::UNION)
    } else if str_eq(s, "UNS") {
        Some(StreetNamePostType::UNIONS)
    } else if str_eq(s, "VLY") {
        Some(StreetNamePostType::VALLEY)
    } else if str_eq(s, "VLYS") {
        Some(StreetNamePostType::VALLEYS)
    } else if str_eq(s, "VIA") {
        Some(StreetNamePostType::VIADUCT)
    } else if str_eq(s, "VW") || str_eq(s, "VIEW") {
        Some(StreetNamePostType::VIEW)
    } else if str_eq(s, "VWS") {
        Some(StreetNamePostType::VIEWS)
    } else if str_eq(s, "VLG") {
        Some(StreetNamePostType::VILLAGE)
    } else if str_eq(s, "VLGS") {
        Some(StreetNamePostType::VILLAGES)
    } else if str_eq(s, "VL") {
        Some(StreetNamePostType::VILLE)
    } else if str_eq(s, "VIS") {
        Some(StreetNamePostType::VISTA)
    } else if str_eq(s, "WALK") {
        Some(StreetNamePostType::WALK)
    } else if str_eq(s, "WALL") {
        Some(StreetNamePostType::WALL)
    } else if str_eq(s, "WAY") {
        Some(StreetNamePostType::WAY)
    } else if str_eq(s, "WAYS") {
        Some(StreetNamePostType::WAYS)
    } else if str_eq(s, "WL") {
        Some(StreetNamePostType::WELL)
    } else if str_eq(s, "WLS") {
        Some(StreetNamePostType::WELLS)
    } else {
        None
    }
}

/// What the post type spellings that begin with `A` hold, character by character.
proof fn lemma_post_type_literals_a0()
    ensures
        "ALY"@.len() == 3 && "ALY"@[0] == 'A' && "ALY"@[1] == 'L' && "ALY"@[2] == 'Y',
        "ANX"@.len() == 3 && "ANX"@[0] == 'A' && "ANX"@[1] == 'N' && "ANX"@[2] == 'X',
        "ARC"@.len() == 3 && "ARC"@[0] == 'A' && "ARC"@[1] == 'R' && "ARC"@[2] == 'C',
        "AVE"@.len() == 3 && "AVE"@[0] == 'A' && "AVE"@[1] == 'V' && "AVE"@[2] == 'E',
        "AVENUE"@.len() == 6 && "AVENUE"@[0] == 'A' && "AVENUE"@[1] == 'V' && "AVENUE"@[2] == 'E' && "AVENUE"@[3] == 'N' && "AVENUE"@[4] == 'U' && "AVENUE"@[5] == 'E',
{
    reveal_strlit("ALY");
    reveal_strlit("ANX");
    reveal_strlit("ARC");
    reveal_strlit("AVE");
    reveal_strlit("AVENUE");
}

/// What the post type spellings that begin with `B` hold, character by character.
proof fn lemma_post_type_literals_b0()
    ensures
        "BYU"@.len() == 3 && "BYU"@[0] == 'B' && "BYU"@[1] == 'Y' && "BYU"@[2] == 'U',
        "BCH"@.len() == 3 && "BCH"@[0] == 'B' && "BCH"@[1] == 'C' && "BCH"@[2] == 'H',
        "BND"@.len() == 3 && "BND"@[0] == 'B' && "BND"@[1] == 'N' && "BND"@[2] == 'D',
        "BLF"@.len() == 3 && "BLF"@[0] == 'B' && "BLF"@[1] == 'L' && "BLF"@[2] == 'F',
        "BLFS"@.len() == 4 && "BLFS"@[0] == 'B' && "BLFS"@[1] == 'L' && "BLFS"@[2] == 'F' && "BLFS"@[3] == 'S',
        "BTM"@.len() == 3 && "BTM"@[0] == 'B' && "BTM"@[1] == 'T' && "BTM"@[2] == 'M',
        "BLVD"@.len() == 4 && "BLVD"@[0] == 'B' && "BLVD"@[1] == 'L' && "BLVD"@[2] == 'V' && "BLVD"@[3] == 'D',
        "BOULEVARD"@.len() == 9 && "BOULEVARD"@[0] == 'B' && "BOULEVARD"@[1] == 'O' && "BOULEVARD"@[2] == 'U' && "BOULEVARD"@[3] == 'L' && "BOULEVARD"@[4] == 'E' && "BOULEVARD"@[5] == 'V' && "BOULEVARD"@[6] == 'A' && "BOULEVARD"@[7] == 'R' && "BOULEVARD"@[8] == 'D',
        "BR"@.len() == 2 && "BR"@[0] == 'B' && "BR"@[1] == 'R',
        "BRG"@.len() == 3 && "BRG"@[0] == 'B' && "BRG"@[1] == 'R' && "BRG"@[2] == 'G',
        "BRK"@.len() == 3 && "BRK"@[0] == 'B' && "BRK"@[1] == 'R' && "BRK"@[2] == 'K',
        "BRKS"@.len() == 4 && "BRKS"@[0] == 'B' && "BRKS"@[1] == 'R' && "BRKS"@[2] == 'K' && "BRKS"@[3] == 'S',
{
    reveal_strlit("BYU");
    reveal_strlit("BCH");
    reveal_strlit("BND");
    reveal_strlit("BLF");
    reveal_strlit("BLFS");
    reveal_strlit("BTM");
    reveal_strlit("BLVD");
    reveal_strlit("BOULEVARD");
    reveal_strlit("BR");
    reveal_strlit("BRG");
    reveal_strlit("BRK");
    reveal_strlit("BRKS");
}

/// What the post type spellings that begin with `B` hold, character by character.
proof fn lemma_post_type_literals_b1()
    ensures
        "BG"@.len() == 2 && "BG"@[0] == 'B' && "BG"@[1] == 'G',
        "BGS"@.len() == 3 && "BGS"@[0] == 'B' && "BGS"@[1] == 'G' && "BGS"@[2] == 'S',
        "BYP"@.len() == 3 && "BYP"@[0] == 'B' && "BYP"@[1] == 'Y' && "BYP"@[2] == 'P',
{
    reveal_strlit("BG");
    reveal_strlit("BGS");
    reveal_strlit("BYP");
}

/// What the post type spellings that begin with `C` hold, character by character.
proof fn lemma_post_type_literals_c0()
    ensures
        "CP"@.len() == 2 && "CP"@[0] == 'C' && "CP"@[1] == 'P',
        "CYN"@.len() == 3 && "CYN"@[0] == 'C' && "CYN"@[1] == 'Y' && "CYN"@[2] == 'N',
        "CPE"@.len() == 3 && "CPE"@[0] == 'C' && "CPE"@[1] == 'P' && "CPE"@[2] == 'E',
        "CSWY"@.len() == 4 && "CSWY"@[0] == 'C' && "CSWY"@[1] == 'S' && "CSWY"@[2] == 'W' && "CSWY"@[3] == 'Y',
        "CTR"@.len() == 3 && "CTR"@[0] == 'C' && "CTR"@[1] == 'T' && "CTR"@[2] == 'R',
        "CTRS"@.len() == 4 && "CTRS"@[0] == 'C' && "CTRS"@[1] == 'T' && "CTRS"@[2] == 'R' && "CTRS"@[3] == 'S',
        "CIR"@.len() == 3 && "CIR"@[0] == 'C' && "CIR"@[1] == 'I' && "CIR"@[2] == 'R',
        "CIRCLE"@.len() == 6 && "CIRCLE"@[0] == 'C' && "CIRCLE"@[1] == 'I' && "CIRCLE"@[2] == 'R' && "CIRCLE"@[3] == 'C' && "CIRCLE"@[4] == 'L' && "CIRCLE"@[5] == 'E',
        "CIRS"@.len() == 4 && "CIRS"@[0] == 'C' && "CIRS"@[1] == 'I' && "CIRS"@[2] == 'R' && "CIRS"@[3] == 'S',
        "CLF"@.len() == 3 && "CLF"@[0] == 'C' && "CLF"@[1] == 'L' && "CLF"@[2] == 'F',
        "CLFS"@.len() == 4 && "CLFS"@[0] == 'C' && "CLFS"@[1] == 'L' && "CLFS"@[2] == 'F' && "CLFS"@[3] == 'S',
        "CLB"@.len() == 3 && "CLB"@[0] == 'C' && "CLB"@[1] == 'L' && "CLB"@[2] == 'B',
{
    reveal_strlit("CP");
    reveal_strlit("CYN");
    reveal_strlit("CPE");
    reveal_strlit("CSWY");
    reveal_strlit("CTR");
    reveal_strlit("CTRS");
    reveal_strlit("CIR");
    reveal_strlit("CIRCLE");
    reveal_strlit("CIRS");
    reveal_strlit("CLF");
    reveal_strlit("CLFS");
    reveal_strlit("CLB");
}

/// What the post type spellings that begin with `C` hold, character by character.
proof fn lemma_post_type_literals_c1()
    ensures
        "CMN"@.len() == 3 && "CMN"@[0] == 'C' && "CMN"@[1] == 'M' && "CMN"@[2] == 'N',
        "CMNS"@.len() == 4 && "CMNS"@[0] == 'C' && "CMNS"@[1] == 'M' && "CMNS"@[2] == 'N' && "CMNS"@[3] == 'S',
        "COR"@.len() == 3 && "COR"@[0] == 'C' && "COR"@[1] == 'O' && "COR"@[2] == 'R',
        "CORS"@.len() == 4 && "CORS"@[0] == 'C' && "CORS"@[1] == 'O' && "CORS"@[2] == 'R' && "CORS"@[3] == 'S',
        "CRSE"@.len() == 4 && "CRSE"@[0] == 'C' && "CRSE"@[1] == 'R' && "CRSE"@[2] == 'S' && "CRSE"@[3] == 'E',
        "CT"@.len() == 2 && "CT"@[0] == 'C' && "CT"@[1] == 'T',
        "COURT"@.len() == 5 && "COURT"@[0] == 'C' && "COURT"@[1] == 'O' && "COURT"@[2] == 'U' && "COURT"@[3] == 'R' && "COURT"@[4] == 'T',
        "CTS"@.len() == 3 && "CTS"@[0] == 'C' && "CTS"@[1] == 'T' && "CTS"@[2] == 'S',
        "CV"@.len() == 2 && "CV"@[0] == 'C' && "CV"@[1] == 'V',
        "CVS"@.len() == 3 && "CVS"@[0] == 'C' && "CVS"@[1] == 'V' && "CVS"@[2] == 'S',
        "CRK"@.len() == 3 && "CRK"@[0] == 'C' && "CRK"@[1] == 'R' && "CRK"@[2] == 'K',
        "CRES"@.len() == 4 && "CRES"@[0] == 'C' && "CRES"@[1] == 'R' && "CRES"@[2] == 'E' && "CRES"@[3] == 'S',
{
    reveal_strlit("CMN");
    reveal_strlit("CMNS");
    reveal_strlit("COR");
    reveal_strlit("CORS");
    reveal_strlit("CRSE");
    reveal_strlit("CT");
    reveal_strlit("COURT");
    reveal_strlit("CTS");
    reveal_strlit("CV");
    reveal_strlit("CVS");
    reveal_strlit("CRK");
    reveal_strlit("CRES");
}

/// What the post type spellings that begin with `C` hold, character by character.
proof fn lemma_post_type_literals_c2()
    ensures
        "CRST"@.len() == 4 && "CRST"@[0] == 'C' && "CRST"@[1] == 'R' && "CRST"@[2] == 'S' && "CRST"@[3] == 'T',
        "CREST"@.len() == 5 && "CREST"@[0] == 'C' && "CREST"@[1] == 'R' && "CREST"@[2] == 'E' && "CREST"@[3] == 'S' && "CREST"@[4] == 'T',
        "CURV"@.len() == 4 && "CURV"@[0] == 'C' && "CURV"@[1] == 'U' && "CURV"@[2] == 'R' && "CURV"@[3] == 'V',
        "CUTOFF"@.len() == 6 && "CUTOFF"@[0] == 'C' && "CUTOFF"@[1] == 'U' && "CUTOFF"@[2] == 'T' && "CUTOFF"@[3] == 'O' && "CUTOFF"@[4] == 'F' && "CUTOFF"@[5] == 'F',
        "CTOFF"@.len() == 5 && "CTOFF"@[0] == 'C' && "CTOFF"@[1] == 'T' && "CTOFF"@[2] == 'O' && "CTOFF"@[3] == 'F' && "CTOFF"@[4] == 'F',
{
    reveal_strlit("CRST");
    reveal_strlit("CREST");
    reveal_strlit("CURV");
    reveal_strlit("CUTOFF");
    reveal_strlit("CTOFF");
}

/// What the post type spellings that begin with `X` hold, character by character.
proof fn lemma_post_type_literals_x0()
    ensures
        "XING"@.len() == 4 && "XING"@[0] == 'X' && "XING"@[1] == 'I' && "XING"@[2] == 'N' && "XING"@[3] == 'G',
        "XRD"@.len() == 3 && "XRD"@[0] == 'X' && "XRD"@[1] == 'R' && "XRD"@[2] == 'D',
        "XRDS"@.len() == 4 && "XRDS"@[0] == 'X' && "XRDS"@[1] == 'R' && "XRDS"@[2] == 'D' && "XRDS"@[3] == 'S',
{
    reveal_strlit("XING");
    reveal_strlit("XRD");
    reveal_strlit("XRDS");
}

/// What the post type spellings that begin with `D` hold, character by character.
proof fn lemma_post_type_literals_d0()
    ensures
        "DL"@.len() == 2 && "DL"@[0] == 'D' && "DL"@[1] == 'L',
        "DM"@.len() == 2 && "DM"@[0] == 'D' && "DM"@[1] == 'M',
        "DV"@.len() == 2 && "DV"@[0] == 'D' && "DV"@[1] == 'V',
        "DR"@.len() == 2 && "DR"@[0] == 'D' && "DR"@[1] == 'R',
        "DRIVE"@.len() == 5 && "DRIVE"@[0] == 'D' && "DRIVE"@[1] == 'R' && "DRIVE"@[2] == 'I' && "DRIVE"@[3] == 'V' && "DRIVE"@[4] == 'E',
        "DR CUTOFF"@.len() == 9 && "DR CUTOFF"@[0] == 'D' && "DR CUTOFF"@[1] == 'R' && "DR CUTOFF"@[2] == ' ' && "DR CUTOFF"@[3] == 'C' && "DR CUTOFF"@[4] == 'U' && "DR CUTOFF"@[5] == 'T' && "DR CUTOFF"@[6] == 'O' && "DR CUTOFF"@[7] == 'F' && "DR CUTOFF"@[8] == 'F',
        "DRCTOFF"@.len() == 7 && "DRCTOFF"@[0] == 'D' && "DRCTOFF"@[1] == 'R' && "DRCTOFF"@[2] == 'C' && "DRCTOFF"@[3] == 'T' && "DRCTOFF"@[4] == 'O' && "DRCTOFF"@[5] == 'F' && "DRCTOFF"@[6] == 'F',
        "DRS"@.len() == 3 && "DRS"@[0] == 'D' && "DRS"@[1] == 'R' && "DRS"@[2] == 'S',
{
    reveal_strlit("DL");
    reveal_strlit("DM");
    reveal_strlit("DV");
    reveal_strlit("DR");
    reveal_strlit("DRIVE");
    reveal_strlit("DR CUTOFF");
    reveal_strlit("DRCTOFF");
    reveal_strlit("DRS");
}

/// What the post type spellings that begin with `E` hold, character by character.
proof fn lemma_post_type_literals_e0()
    ensures
        "EST"@.len() == 3 && "EST"@[0] == 'E' && "EST"@[1] == 'S' && "EST"@[2] == 'T',
        "ESTS"@.len() == 4 && "ESTS"@[0] == 'E' && "ESTS"@[1] == 'S' && "ESTS"@[2] == 'T' && "ESTS"@[3] == 'S',
        "EXPY"@.len() == 4 && "EXPY"@[0] == 'E' && "EXPY"@[1] == 'X' && "EXPY"@[2] == 'P' && "EXPY"@[3] == 'Y',
        "EXT"@.len() == 3 && "EXT"@[0] == 'E' && "EXT"@[1] == 'X' && "EXT"@[2] == 'T',
        "EXTS"@.len() == 4 && "EXTS"@[0] == 'E' && "EXTS"@[1] == 'X' && "EXTS"@[2] == 'T' && "EXTS"@[3] == 'S',
{
    reveal_strlit("EST");
    reveal_strlit("ESTS");
    reveal_strlit("EXPY");
    reveal_strlit("EXT");
    reveal_strlit("EXTS");
}

/// What the post type spellings that begin with `F` hold, character by character.
proof fn lemma_post_type_literals_f0()
    ensures
        "FALL"@.len() == 4 && "FALL"@[0] == 'F' && "FALL"@[1] == 'A' && "FALL"@[2] == 'L' && "FALL"@[3] == 'L',
        "FLS"@.len() == 3 && "FLS"@[0] == 'F' && "FLS"@[1] == 'L' && "FLS"@[2] == 'S',
        "FRY"@.len() == 3 && "FRY"@[0] == 'F' && "FRY"@[1] == 'R' && "FRY"@[2] == 'Y',
        "FLD"@.len() == 3 && "FLD"@[0] == 'F' && "FLD"@[1] == 'L' && "FLD"@[2] == 'D',
        "FLDS"@.len() == 4 && "FLDS"@[0] == 'F' && "FLDS"@[1] == 'L' && "FLDS"@[2] == 'D' && "FLDS"@[3] == 'S',
        "FLT"@.len() == 3 && "FLT"@[0] == 'F' && "FLT"@[1] == 'L' && "FLT"@[2] == 'T',
        "FLTS"@.len() == 4 && "FLTS"@[0] == 'F' && "FLTS"@[1] == 'L' && "FLTS"@[2] == 'T' && "FLTS"@[3] == 'S',
        "FRD"@.len() == 3 && "FRD"@[0] == 'F' && "FRD"@[1] == 'R' && "FRD"@[2] == 'D',
        "FRDS"@.len() == 4 && "FRDS"@[0] == 'F' && "FRDS"@[1] == 'R' && "FRDS"@[2] == 'D' && "FRDS"@[3] == 'S',
        "FRST"@.len() == 4 && "FRST"@[0] == 'F' && "FRST"@[1] == 'R' && "FRST"@[2] == 'S' && "FRST"@[3] == 'T',
        "FRG"@.len() == 3 && "FRG"@[0] == 'F' && "FRG"@[1] == 'R' && "FRG"@[2] == 'G',
        "FRGS"@.len() == 4 && "FRGS"@[0] == 'F' && "FRGS"@[1] == 'R' && "FRGS"@[2] == 'G' && "FRGS"@[3] == 'S',
{
    reveal_strlit("FALL");
    reveal_strlit("FLS");
    reveal_strlit("FRY");
    reveal_strlit("FLD");
    reveal_strlit("FLDS");
    reveal_strlit("FLT");
    reveal_strlit("FLTS");
    reveal_strlit("FRD");
    reveal_strlit("FRDS");
    reveal_strlit("FRST");
    reveal_strlit("FRG");
    reveal_strlit("FRGS");
}

/// What the post type spellings that begin with `F` hold, character by character.
proof fn lemma_post_type_literals_f1()
    ensures
        "FRK"@.len() == 3 && "FRK"@[0] == 'F' && "FRK"@[1] == 'R' && "FRK"@[2] == 'K',
        "FRKS"@.len() == 4 && "FRKS"@[0] == 'F' && "FRKS"@[1] == 'R' && "FRKS"@[2] == 'K' && "FRKS"@[3] == 'S',
        "FT"@.len() == 2 && "FT"@[0] == 'F' && "FT"@[1] == 'T',
        "FWY"@.len() == 3 && "FWY"@[0] == 'F' && "FWY"@[1] == 'W' && "FWY"@[2] == 'Y',
{
    reveal_strlit("FRK");
    reveal_strlit("FRKS");
    reveal_strlit("FT");
    reveal_strlit("FWY");
}

/// What the post type spellings that begin with `G` hold, character by character.
proof fn lemma_post_type_literals_g0()
    ensures
        "GDN"@.len() == 3 && "GDN"@[0] == 'G' && "GDN"@[1] == 'D' && "GDN"@[2] == 'N',
        "GARDEN"@.len() == 6 && "GARDEN"@[0] == 'G' && "GARDEN"@[1] == 'A' && "GARDEN"@[2] == 'R' && "GARDEN"@[3] == 'D' && "GARDEN"@[4] == 'E' && "GARDEN"@[5] == 'N',
        "GDNS"@.len() == 4 && "GDNS"@[0] == 'G' && "GDNS"@[1] == 'D' && "GDNS"@[2] == 'N' && "GDNS"@[3] == 'S',
        "GTWY"@.len() == 4 && "GTWY"@[0] == 'G' && "GTWY"@[1] == 'T' && "GTWY"@[2] == 'W' && "GTWY"@[3] == 'Y',
        "GLN"@.len() == 3 && "GLN"@[0] == 'G' && "GLN"@[1] == 'L' && "GLN"@[2] == 'N',
        "GLEN"@.len() == 4 && "GLEN"@[0] == 'G' && "GLEN"@[1] == 'L' && "GLEN"@[2] == 'E' && "GLEN"@[3] == 'N',
        "GLNS"@.len() == 4 && "GLNS"@[0] == 'G' && "GLNS"@[1] == 'L' && "GLNS"@[2] == 'N' && "GLNS"@[3] == 'S',
        "GRN"@.len() == 3 && "GRN"@[0] == 'G' && "GRN"@[1] == 'R' && "GRN"@[2] == 'N',
        "GRNS"@.len() == 4 && "GRNS"@[0] == 'G' && "GRNS"@[1] == 'R' && "GRNS"@[2] == 'N' && "GRNS"@[3] == 'S',
        "GRV"@.len() == 3 && "GRV"@[0] == 'G' && "GRV"@[1] == 'R' && "GRV"@[2] == 'V',
        "GRVS"@.len() == 4 && "GRVS"@[0] == 'G' && "GRVS"@[1] == 'R' && "GRVS"@[2] == 'V' && "GRVS"@[3] == 'S',
{
    reveal_strlit("GDN");
    reveal_strlit("GARDEN");
    reveal_strlit("GDNS");
    reveal_strlit("GTWY");
    reveal_strlit("GLN");
    reveal_strlit("GLEN");
    reveal_strlit("GLNS");
    reveal_strlit("GRN");
    reveal_strlit("GRNS");
    reveal_strlit("GRV");
    reveal_strlit("GRVS");
}

/// What the post type spellings that begin with `H` hold, character by character.
proof fn lemma_post_type_literals_h0()
    ensures
        "HBR"@.len() == 3 && "HBR"@[0] == 'H' && "HBR"@[1] == 'B' && "HBR"@[2] == 'R',
        "HBRS"@.len() == 4 && "HBRS"@[0] == 'H' && "HBRS"@[1] == 'B' && "HBRS"@[2] == 'R' && "HBRS"@[3] == 'S',
        "HVN"@.len() == 3 && "HVN"@[0] == 'H' && "HVN"@[1] == 'V' && "HVN"@[2] == 'N',
        "HTS"@.len() == 3 && "HTS"@[0] == 'H' && "HTS"@[1] == 'T' && "HTS"@[2] == 'S',
        "HWY"@.len() == 3 && "HWY"@[0] == 'H' && "HWY"@[1] == 'W' && "HWY"@[2] == 'Y',
        "HIGHWAY"@.len() == 7 && "HIGHWAY"@[0] == 'H' && "HIGHWAY"@[1] == 'I' && "HIGHWAY"@[2] == 'G' && "HIGHWAY"@[3] == 'H' && "HIGHWAY"@[4] == 'W' && "HIGHWAY"@[5] == 'A' && "HIGHWAY"@[6] == 'Y',
        "HL"@.len() == 2 && "HL"@[0] == 'H' && "HL"@[1] == 'L',
        "HLS"@.len() == 3 && "HLS"@[0] == 'H' && "HLS"@[1] == 'L' && "HLS"@[2] == 'S',
        "HOLW"@.len() == 4 && "HOLW"@[0] == 'H' && "HOLW"@[1] == 'O' && "HOLW"@[2] == 'L' && "HOLW"@[3] == 'W',
{
    reveal_strlit("HBR");
    reveal_strlit("HBRS");
    reveal_strlit("HVN");
    reveal_strlit("HTS");
    reveal_strlit("HWY");
    reveal_strlit("HIGHWAY");
    reveal_strlit("HL");
    reveal_strlit("HLS");
    reveal_strlit("HOLW");
}

/// What the post type spellings that begin with `I` hold, character by character.
proof fn lemma_post_type_literals_i0()
    ensures
        "INLT"@.len() == 4 && "INLT"@[0] == 'I' && "INLT"@[1] == 'N' && "INLT"@[2] == 'L' && "INLT"@[3] == 'T',
        "IS"@.len() == 2 && "IS"@[0] == 'I' && "IS"@[1] == 'S',
        "ISS"@.len() == 3 && "ISS"@[0] == 'I' && "ISS"@[1] == 'S' && "ISS"@[2] == 'S',
        "ISLE"@.len() == 4 && "ISLE"@[0] == 'I' && "ISLE"@[1] == 'S' && "ISLE"@[2] == 'L' && "ISLE"@[3] == 'E',
{
    reveal_strlit("INLT");
    reveal_strlit("IS");
    reveal_strlit("ISS");
    reveal_strlit("ISLE");
}

/// What the post type spellings that begin with `J` hold, character by character.
proof fn lemma_post_type_literals_j0()
    ensures
        "JCT"@.len() == 3 && "JCT"@[0] == 'J' && "JCT"@[1] == 'C' && "JCT"@[2] == 'T',
        "JCTS"@.len() == 4 && "JCTS"@[0] == 'J' && "JCTS"@[1] == 'C' && "JCTS"@[2] == 'T' && "JCTS"@[3] == 'S',
{
    reveal_strlit("JCT");
    reveal_strlit("JCTS");
}

/// What the post type spellings that begin with `K` hold, character by character.
proof fn lemma_post_type_literals_k0()
    ensures
        "KY"@.len() == 2 && "KY"@[0] == 'K' && "KY"@[1] == 'Y',
        "KYS"@.len() == 3 && "KYS"@[0] == 'K' && "KYS"@[1] == 'Y' && "KYS"@[2] == 'S',
        "KNL"@.len() == 3 && "KNL"@[0] == 'K' && "KNL"@[1] == 'N' && "KNL"@[2] == 'L',
        "KNLS"@.len() == 4 && "KNLS"@[0] == 'K' && "KNLS"@[1] == 'N' && "KNLS"@[2] == 'L' && "KNLS"@[3] == 'S',
{
    reveal_strlit("KY");
    reveal_strlit("KYS");
    reveal_strlit("KNL");
    reveal_strlit("KNLS");
}

/// What the post type spellings that begin with `L` hold, character by character.
proof fn lemma_post_type_literals_l0()
    ensures
        "LK"@.len() == 2 && "LK"@[0] == 'L' && "LK"@[1] == 'K',
        "LKS"@.len() == 3 && "LKS"@[0] == 'L' && "LKS"@[1] == 'K' && "LKS"@[2] == 'S',
        "LAND"@.len() == 4 && "LAND"@[0] == 'L' && "LAND"@[1] == 'A' && "LAND"@[2] == 'N' && "LAND"@[3] == 'D',
        "LNDG"@.len() == 4 && "LNDG"@[0] == 'L' && "LNDG"@[1] == 'N' && "LNDG"@[2] == 'D' && "LNDG"@[3] == 'G',
        "LN"@.len() == 2 && "LN"@[0] == 'L' && "LN"@[1] == 'N',
        "LANE"@.len() == 4 && "LANE"@[0] == 'L' && "LANE"@[1] == 'A' && "LANE"@[2] == 'N' && "LANE"@[3] == 'E',
        "LGT"@.len() == 3 && "LGT"@[0] == 'L' && "LGT"@[1] == 'G' && "LGT"@[2] == 'T',
        "LGTS"@.len() == 4 && "LGTS"@[0] == 'L' && "LGTS"@[1] == 'G' && "LGTS"@[2] == 'T' && "LGTS"@[3] == 'S',
        "LF"@.len() == 2 && "LF"@[0] == 'L' && "LF"@[1] == 'F',
        "LCK"@.len() == 3 && "LCK"@[0] == 'L' && "LCK"@[1] == 'C' && "LCK"@[2] == 'K',
        "LCKS"@.len() == 4 && "LCKS"@[0] == 'L' && "LCKS"@[1] == 'C' && "LCKS"@[2] == 'K' && "LCKS"@[3] == 'S',
        "LDG"@.len() == 3 && "LDG"@[0] == 'L' && "LDG"@[1] == 'D' && "LDG"@[2] == 'G',
{
    reveal_strlit("LK");
    reveal_strlit("LKS");
    reveal_strlit("LAND");
    reveal_strlit("LNDG");
    reveal_strlit("LN");
    reveal_strlit("LANE");
    reveal_strlit("LGT");
    reveal_strlit("LGTS");
    reveal_strlit("LF");
    reveal_strlit("LCK");
    reveal_strlit("LCKS");
    reveal_strlit("LDG");
}

/// What the post type spellings that begin with `L` hold, character by character.
proof fn lemma_post_type_literals_l1()
    ensures
        "LOOP"@.len() == 4 && "LOOP"@[0] == 'L' && "LOOP"@[1] == 'O' && "LOOP"@[2] == 'O' && "LOOP"@[3] == 'P',
{
    reveal_strlit("LOOP");
}

/// What the post type spellings that begin with `M` hold, character by character.
proof fn lemma_post_type_literals_m0()
    ensures
        "MALL"@.len() == 4 && "MALL"@[0] == 'M' && "MALL"@[1] == 'A' && "MALL"@[2] == 'L' && "MALL"@[3] == 'L',
        "MNR"@.len() == 3 && "MNR"@[0] == 'M' && "MNR"@[1] == 'N' && "MNR"@[2] == 'R',
        "MNRS"@.len() == 4 && "MNRS"@[0] == 'M' && "MNRS"@[1] == 'N' && "MNRS"@[2] == 'R' && "MNRS"@[3] == 'S',
        "MDW"@.len() == 3 && "MDW"@[0] == 'M' && "MDW"@[1] == 'D' && "MDW"@[2] == 'W',
        "MDWS"@.len() == 4 && "MDWS"@[0] == 'M' && "MDWS"@[1] == 'D' && "MDWS"@[2] == 'W' && "MDWS"@[3] == 'S',
        "MEWS"@.len() == 4 && "MEWS"@[0] == 'M' && "MEWS"@[1] == 'E' && "MEWS"@[2] == 'W' && "MEWS"@[3] == 'S',
        "ML"@.len() == 2 && "ML"@[0] == 'M' && "ML"@[1] == 'L',
        "MLS"@.len() == 3 && "MLS"@[0] == 'M' && "MLS"@[1] == 'L' && "MLS"@[2] == 'S',
        "MSN"@.len() == 3 && "MSN"@[0] == 'M' && "MSN"@[1] == 'S' && "MSN"@[2] == 'N',
        "MTWY"@.len() == 4 && "MTWY"@[0] == 'M' && "MTWY"@[1] == 'T' && "MTWY"@[2] == 'W' && "MTWY"@[3] == 'Y',
        "MT"@.len() == 2 && "MT"@[0] == 'M' && "MT"@[1] == 'T',
        "MTN"@.len() == 3 && "MTN"@[0] == 'M' && "MTN"@[1] == 'T' && "MTN"@[2] == 'N',
{
    reveal_strlit("MALL");
    reveal_strlit("MNR");
    reveal_strlit("MNRS");
    reveal_strlit("MDW");
    reveal_strlit("MDWS");
    reveal_strlit("MEWS");
    reveal_strlit("ML");
    reveal_strlit("MLS");
    reveal_strlit("MSN");
    reveal_strlit("MTWY");
    reveal_strlit("MT");
    reveal_strlit("MTN");
}

/// What the post type spellings that begin with `M` hold, character by character.
proof fn lemma_post_type_literals_m1()
    ensures
        "MTNS"@.len() == 4 && "MTNS"@[0] == 'M' && "MTNS"@[1] == 'T' && "MTNS"@[2] == 'N' && "MTNS"@[3] == 'S',
{
    reveal_strlit("MTNS");
}

/// What the post type spellings that begin with `N` hold, character by character.
proof fn lemma_post_type_literals_n0()
    ensures
        "NCK"@.len() == 3 && "NCK"@[0] == 'N' && "NCK"@[1] == 'C' && "NCK"@[2] == 'K',
{
    reveal_strlit("NCK");
}

/// What the post type spellings that begin with `O` hold, character by character.
proof fn lemma_post_type_literals_o0()
    ensures
        "ORCH"@.len() == 4 && "ORCH"@[0] == 'O' && "ORCH"@[1] == 'R' && "ORCH"@[2] == 'C' && "ORCH"@[3] == 'H',
        "OVAL"@.len() == 4 && "OVAL"@[0] == 'O' && "OVAL"@[1] == 'V' && "OVAL"@[2] == 'A' && "OVAL"@[3] == 'L',
        "OPAS"@.len() == 4 && "OPAS"@[0] == 'O' && "OPAS"@[1] == 'P' && "OPAS"@[2] == 'A' && "OPAS"@[3] == 'S',
{
    reveal_strlit("ORCH");
    reveal_strlit("OVAL");
    reveal_strlit("OPAS");
}

/// What the post type spellings that begin with `P` hold, character by character.
proof fn lemma_post_type_literals_p0()
    ensures
        "PARK"@.len() == 4 && "PARK"@[0] == 'P' && "PARK"@[1] == 'A' && "PARK"@[2] == 'R' && "PARK"@[3] == 'K',
        "PKWY"@.len() == 4 && "PKWY"@[0] == 'P' && "PKWY"@[1] == 'K' && "PKWY"@[2] == 'W' && "PKWY"@[3] == 'Y',
        "PASS"@.len() == 4 && "PASS"@[0] == 'P' && "PASS"@[1] == 'A' && "PASS"@[2] == 'S' && "PASS"@[3] == 'S',
        "PSGE"@.len() == 4 && "PSGE"@[0] == 'P' && "PSGE"@[1] == 'S' && "PSGE"@[2] == 'G' && "PSGE"@[3] == 'E',
        "PATH"@.len() == 4 && "PATH"@[0] == 'P' && "PATH"@[1] == 'A' && "PATH"@[2] == 'T' && "PATH"@[3] == 'H',
        "PIKE"@.len() == 4 && "PIKE"@[0] == 'P' && "PIKE"@[1] == 'I' && "PIKE"@[2] == 'K' && "PIKE"@[3] == 'E',
        "PNE"@.len() == 3 && "PNE"@[0] == 'P' && "PNE"@[1] == 'N' && "PNE"@[2] == 'E',
        "PNES"@.len() == 4 && "PNES"@[0] == 'P' && "PNES"@[1] == 'N' && "PNES"@[2] == 'E' && "PNES"@[3] == 'S',
        "PL"@.len() == 2 && "PL"@[0] == 'P' && "PL"@[1] == 'L',
        "PLACE"@.len() == 5 && "PLACE"@[0] == 'P' && "PLACE"@[1] == 'L' && "PLACE"@[2] == 'A' && "PLACE"@[3] == 'C' && "PLACE"@[4] == 'E',
        "PLN"@.len() == 3 && "PLN"@[0] == 'P' && "PLN"@[1] == 'L' && "PLN"@[2] == 'N',
        "PLNS"@.len() == 4 && "PLNS"@[0] == 'P' && "PLNS"@[1] == 'L' && "PLNS"@[2] == 'N' && "PLNS"@[3] == 'S',
{
    reveal_strlit("PARK");
    reveal_strlit("PKWY");
    reveal_strlit("PASS");
    reveal_strlit("PSGE");
    reveal_strlit("PATH");
    reveal_strlit("PIKE");
    reveal_strlit("PNE");
    reveal_strlit("PNES");
    reveal_strlit("PL");
    reveal_strlit("PLACE");
    reveal_strlit("PLN");
    reveal_strlit("PLNS");
}

/// What the post type spellings that begin with `P` hold, character by character.
proof fn lemma_post_type_literals_p1()
    ensures
        "PLZ"@.len() == 3 && "PLZ"@[0] == 'P' && "PLZ"@[1] == 'L' && "PLZ"@[2] == 'Z',
        "PT"@.len() == 2 && "PT"@[0] == 'P' && "PT"@[1] == 'T',
        "PTS"@.len() == 3 && "PTS"@[0] == 'P' && "PTS"@[1] == 'T' && "PTS"@[2] == 'S',
        "PRT"@.len() == 3 && "PRT"@[0] == 'P' && "PRT"@[1] == 'R' && "PRT"@[2] == 'T',
        "PRTS"@.len() == 4 && "PRTS"@[0] == 'P' && "PRTS"@[1] == 'R' && "PRTS"@[2] == 'T' && "PRTS"@[3] == 'S',
        "PR"@.len() == 2 && "PR"@[0] == 'P' && "PR"@[1] == 'R',
{
    reveal_strlit("PLZ");
    reveal_strlit("PT");
    reveal_strlit("PTS");
    reveal_strlit("PRT");
    reveal_strlit("PRTS");
    reveal_strlit("PR");
}

/// What the post type spellings that begin with `R` hold, character by character.
proof fn lemma_post_type_literals_r0()
    ensures
        "RADL"@.len() == 4 && "RADL"@[0] == 'R' && "RADL"@[1] == 'A' && "RADL"@[2] == 'D' && "RADL"@[3] == 'L',
        "RAMP"@.len() == 4 && "RAMP"@[0] == 'R' && "RAMP"@[1] == 'A' && "RAMP"@[2] == 'M' && "RAMP"@[3] == 'P',
        "RNCH"@.len() == 4 && "RNCH"@[0] == 'R' && "RNCH"@[1] == 'N' && "RNCH"@[2] == 'C' && "RNCH"@[3] == 'H',
        "RPD"@.len() == 3 && "RPD"@[0] == 'R' && "RPD"@[1] == 'P' && "RPD"@[2] == 'D',
        "RPDS"@.len() == 4 && "RPDS"@[0] == 'R' && "RPDS"@[1] == 'P' && "RPDS"@[2] == 'D' && "RPDS"@[3] == 'S',
        "RST"@.len() == 3 && "RST"@[0] == 'R' && "RST"@[1] == 'S' && "RST"@[2] == 'T',
        "RDG"@.len() == 3 && "RDG"@[0] == 'R' && "RDG"@[1] == 'D' && "RDG"@[2] == 'G',
        "RDGS"@.len() == 4 && "RDGS"@[0] == 'R' && "RDGS"@[1] == 'D' && "RDGS"@[2] == 'G' && "RDGS"@[3] == 'S',
        "RIV"@.len() == 3 && "RIV"@[0] == 'R' && "RIV"@[1] == 'I' && "RIV"@[2] == 'V',
        "RD"@.len() == 2 && "RD"@[0] == 'R' && "RD"@[1] == 'D',
        "ROAD"@.len() == 4 && "ROAD"@[0] == 'R' && "ROAD"@[1] == 'O' && "ROAD"@[2] == 'A' && "ROAD"@[3] == 'D',
        "RDS"@.len() == 3 && "RDS"@[0] == 'R' && "RDS"@[1] == 'D' && "RDS"@[2] == 'S',
{
    reveal_strlit("RADL");
    reveal_strlit("RAMP");
    reveal_strlit("RNCH");
    reveal_strlit("RPD");
    reveal_strlit("RPDS");
    reveal_strlit("RST");
    reveal_strlit("RDG");
    reveal_strlit("RDGS");
    reveal_strlit("RIV");
    reveal_strlit("RD");
    reveal_strlit("ROAD");
    reveal_strlit("RDS");
}

/// What the post type spellings that begin with `R` hold, character by character.
proof fn lemma_post_type_literals_r1()
    ensures
        "RTE"@.len() == 3 && "RTE"@[0] == 'R' && "RTE"@[1] == 'T' && "RTE"@[2] == 'E',
        "ROW"@.len() == 3 && "ROW"@[0] == 'R' && "ROW"@[1] == 'O' && "ROW"@[2] == 'W',
        "RUE"@.len() == 3 && "RUE"@[0] == 'R' && "RUE"@[1] == 'U' && "RUE"@[2] == 'E',
        "RUN"@.len() == 3 && "RUN"@[0] == 'R' && "RUN"@[1] == 'U' && "RUN"@[2] == 'N',
{
    reveal_strlit("RTE");
    reveal_strlit("ROW");
    reveal_strlit("RUE");
    reveal_strlit("RUN");
}

/// What the post type spellings that begin with `S` hold, character by character.
proof fn lemma_post_type_literals_s0()
    ensures
        "SHL"@.len() == 3 && "SHL"@[0] == 'S' && "SHL"@[1] == 'H' && "SHL"@[2] == 'L',
        "SHLS"@.len() == 4 && "SHLS"@[0] == 'S' && "SHLS"@[1] == 'H' && "SHLS"@[2] == 'L' && "SHLS"@[3] == 'S',
        "SHR"@.len() == 3 && "SHR"@[0] == 'S' && "SHR"@[1] == 'H' && "SHR"@[2] == 'R',
        "SHRS"@.len() == 4 && "SHRS"@[0] == 'S' && "SHRS"@[1] == 'H' && "SHRS"@[2] == 'R' && "SHRS"@[3] == 'S',
        "SKWY"@.len() == 4 && "SKWY"@[0] == 'S' && "SKWY"@[1] == 'K' && "SKWY"@[2] == 'W' && "SKWY"@[3] == 'Y',
        "SPG"@.len() == 3 && "SPG"@[0] == 'S' && "SPG"@[1] == 'P' && "SPG"@[2] == 'G',
        "SPGS"@.len() == 4 && "SPGS"@[0] == 'S' && "SPGS"@[1] == 'P' && "SPGS"@[2] == 'G' && "SPGS"@[3] == 'S',
        "SPUR"@.len() == 4 && "SPUR"@[0] == 'S' && "SPUR"@[1] == 'P' && "SPUR"@[2] == 'U' && "SPUR"@[3] == 'R',
        "SQ"@.len() == 2 && "SQ"@[0] == 'S' && "SQ"@[1] == 'Q',
        "SQS"@.len() == 3 && "SQS"@[0] == 'S' && "SQS"@[1] == 'Q' && "SQS"@[2] == 'S',
        "STA"@.len() == 3 && "STA"@[0] == 'S' && "STA"@[1] == 'T' && "STA"@[2] == 'A',
        "STRA"@.len() == 4 && "STRA"@[0] == 'S' && "STRA"@[1] == 'T' && "STRA"@[2] == 'R' && "STRA"@[3] == 'A',
{
    reveal_strlit("SHL");
    reveal_strlit("SHLS");
    reveal_strlit("SHR");
    reveal_strlit("SHRS");
    reveal_strlit("SKWY");
    reveal_strlit("SPG");
    reveal_strlit("SPGS");
    reveal_strlit("SPUR");
    reveal_strlit("SQ");
    reveal_strlit("SQS");
    reveal_strlit("STA");
    reveal_strlit("STRA");
}

/// What the post type spellings that begin with `S` hold, character by character.
proof fn lemma_post_type_literals_s1()
    ensures
        "STRM"@.len() == 4 && "STRM"@[0] == 'S' && "STRM"@[1] == 'T' && "STRM"@[2] == 'R' && "STRM"@[3] == 'M',
        "ST"@.len() == 2 && "ST"@[0] == 'S' && "ST"@[1] == 'T',
        "STREET"@.len() == 6 && "STREET"@[0] == 'S' && "STREET"@[1] == 'T' && "STREET"@[2] == 'R' && "STREET"@[3] == 'E' && "STREET"@[4] == 'E' && "STREET"@[5] == 'T',
        "STS"@.len() == 3 && "STS"@[0] == 'S' && "STS"@[1] == 'T' && "STS"@[2] == 'S',
        "SMT"@.len() == 3 && "SMT"@[0] == 'S' && "SMT"@[1] == 'M' && "SMT"@[2] == 'T',
{
    reveal_strlit("STRM");
    reveal_strlit("ST");
    reveal_strlit("STREET");
    reveal_strlit("STS");
    reveal_strlit("SMT");
}

/// What the post type spellings that begin with `T` hold, character by character.
proof fn lemma_post_type_literals_t0()
    ensures
        "TER"@.len() == 3 && "TER"@[0] == 'T' && "TER"@[1] == 'E' && "TER"@[2] == 'R',
        "TRWY"@.len() == 4 && "TRWY"@[0] == 'T' && "TRWY"@[1] == 'R' && "TRWY"@[2] == 'W' && "TRWY"@[3] == 'Y',
        "TRCE"@.len() == 4 && "TRCE"@[0] == 'T' && "TRCE"@[1] == 'R' && "TRCE"@[2] == 'C' && "TRCE"@[3] == 'E',
        "TRAK"@.len() == 4 && "TRAK"@[0] == 'T' && "TRAK"@[1] == 'R' && "TRAK"@[2] == 'A' && "TRAK"@[3] == 'K',
        "TRFY"@.len() == 4 && "TRFY"@[0] == 'T' && "TRFY"@[1] == 'R' && "TRFY"@[2] == 'F' && "TRFY"@[3] == 'Y',
        "TRL"@.len() == 3 && "TRL"@[0] == 'T' && "TRL"@[1] == 'R' && "TRL"@[2] == 'L',
        "TRLR"@.len() == 4 && "TRLR"@[0] == 'T' && "TRLR"@[1] == 'R' && "TRLR"@[2] == 'L' && "TRLR"@[3] == 'R',
        "TUNL"@.len() == 4 && "TUNL"@[0] == 'T' && "TUNL"@[1] == 'U' && "TUNL"@[2] == 'N' && "TUNL"@[3] == 'L',
        "TPKE"@.len() == 4 && "TPKE"@[0] == 'T' && "TPKE"@[1] == 'P' && "TPKE"@[2] == 'K' && "TPKE"@[3] == 'E',
{
    reveal_strlit("TER");
    reveal_strlit("TRWY");
    reveal_strlit("TRCE");
    reveal_strlit("TRAK");
    reveal_strlit("TRFY");
    reveal_strlit("TRL");
    reveal_strlit("TRLR");
    reveal_strlit("TUNL");
    reveal_strlit("TPKE");
}

/// What the post type spellings that begin with `U` hold, character by character.
proof fn lemma_post_type_literals_u0()
    ensures
        "UPAS"@.len() == 4 && "UPAS"@[0] == 'U' && "UPAS"@[1] == 'P' && "UPAS"@[2] == 'A' && "UPAS"@[3] == 'S',
        "UN"@.len() == 2 && "UN"@[0] == 'U' && "UN"@[1] == 'N',
        "UNS"@.len() == 3 && "UNS"@[0] == 'U' && "UNS"@[1] == 'N' && "UNS"@[2] == 'S',
{
    reveal_strlit("UPAS");
    reveal_strlit("UN");
    reveal_strlit("UNS");
}

/// What the post type spellings that begin with `V` hold, character by character.
proof fn lemma_post_type_literals_v0()
    ensures
        "VLY"@.len() == 3 && "VLY"@[0] == 'V' && "VLY"@[1] == 'L' && "VLY"@[2] == 'Y',
        "VLYS"@.len() == 4 && "VLYS"@[0] == 'V' && "VLYS"@[1] == 'L' && "VLYS"@[2] == 'Y' && "VLYS"@[3] == 'S',
        "VIA"@.len() == 3 && "VIA"@[0] == 'V' && "VIA"@[1] == 'I' && "VIA"@[2] == 'A',
        "VW"@.len() == 2 && "VW"@[0] == 'V' && "VW"@[1] == 'W',
        "VIEW"@.len() == 4 && "VIEW"@[0] == 'V' && "VIEW"@[1] == 'I' && "VIEW"@[2] == 'E' && "VIEW"@[3] == 'W',
        "VWS"@.len() == 3 && "VWS"@[0] == 'V' && "VWS"@[1] == 'W' && "VWS"@[2] == 'S',
        "VLG"@.len() == 3 && "VLG"@[0] == 'V' && "VLG"@[1] == 'L' && "VLG"@[2] == 'G',
        "VLGS"@.len() == 4 && "VLGS"@[0] == 'V' && "VLGS"@[1] == 'L' && "VLGS"@[2] == 'G' && "VLGS"@[3] == 'S',
        "VL"@.len() == 2 && "VL"@[0] == 'V' && "VL"@[1] == 'L',
        "VIS"@.len() == 3 && "VIS"@[0] == 'V' && "VIS"@[1] == 'I' && "VIS"@[2] == 'S',
{
    reveal_strlit("VLY");
    reveal_strlit("VLYS");
    reveal_strlit("VIA");
    reveal_strlit("VW");
    reveal_strlit("VIEW");
    reveal_strlit("VWS");
    reveal_strlit("VLG");
    reveal_strlit("VLGS");
    reveal_strlit("VL");
    reveal_strlit("VIS");
}

/// What the post type spellings that begin with `W` hold, character by character.
proof fn lemma_post_type_literals_w0()
    ensures
        "WALK"@.len() == 4 && "WALK"@[0] == 'W' && "WALK"@[1] == 'A' && "WALK"@[2] == 'L' && "WALK"@[3] == 'K',
        "WALL"@.len() == 4 && "WALL"@[0] == 'W' && "WALL"@[1] == 'A' && "WALL"@[2] == 'L' && "WALL"@[3] == 'L',
        "WAY"@.len() == 3 && "WAY"@[0] == 'W' && "WAY"@[1] == 'A' && "WAY"@[2] == 'Y',
        "WAYS"@.len() == 4 && "WAYS"@[0] == 'W' && "WAYS"@[1] == 'A' && "WAYS"@[2] == 'Y' && "WAYS"@[3] == 'S',
        "WL"@.len() == 2 && "WL"@[0] == 'W' && "WL"@[1] == 'L',
        "WLS"@.len() == 3 && "WLS"@[0] == 'W' && "WLS"@[1] == 'L' && "WLS"@[2] == 'S',
{
    reveal_strlit("WALK");
    reveal_strlit("WALL");
    reveal_strlit("WAY");
    reveal_strlit("WAYS");
    reveal_strlit("WL");
    reveal_strlit("WLS");
}

/// The round trip for one part of the post types.
proof fn lemma_post_type_round_trip_0(p: StreetNamePostType)
    requires
        p == StreetNamePostType::ALLEY || p == StreetNamePostType::ANEX ||
            p == StreetNamePostType::ARCADE || p == StreetNamePostType::AVENUE ||
            p == StreetNamePostType::BAYOU || p == StreetNamePostType::BEACH ||
            p == StreetNamePostType::BEND || p == StreetNamePostType::BLUFF ||
            p == StreetNamePostType::BLUFFS || p == StreetNamePostType::BOTTOM ||
            p == StreetNamePostType::BOULEVARD || p == StreetNamePostType::BRANCH ||
            p == StreetNamePostType::BRIDGE || p == StreetNamePostType::BROOK ||
            p == StreetNamePostType::BROOKS || p == StreetNamePostType::BURG ||
            p == StreetNamePostType::BURGS,
    ensures
        post_type_of_alias(post_type_abbreviation(p)) == Some(p),
        post_type_of_abbreviation(post_type_abbreviation(p)) == Some(p),
{
    lemma_post_type_literals_a0();
    lemma_post_type_literals_b0();
    lemma_post_type_literals_b1();
    lemma_post_type_literals_c0();
    lemma_post_type_literals_c1();
    lemma_post_type_literals_c2();
    lemma_post_type_literals_x0();
    lemma_post_type_literals_d0();
    lemma_post_type_literals_e0();
    lemma_post_type_literals_f0();
    lemma_post_type_literals_f1();
    lemma_post_type_literals_g0();
    lemma_post_type_literals_h0();
    lemma_post_type_literals_i0();
    lemma_post_type_literals_j0();
    lemma_post_type_literals_k0();
    lemma_post_type_literals_l0();
    lemma_post_type_literals_l1();
    lemma_post_type_literals_m0();
    lemma_post_type_literals_m1();
    lemma_post_type_literals_n0();
    lemma_post_type_literals_o0();
    lemma_post_type_literals_p0();
    lemma_post_type_literals_p1();
    lemma_post_type_literals_r0();
    lemma_post_type_literals_r1();
    lemma_post_type_literals_s0();
    lemma_post_type_literals_s1();
    lemma_post_type_literals_t0();
    lemma_post_type_literals_u0();
    lemma_post_type_literals_v0();
    lemma_post_type_literals_w0();
    let a = post_type_abbreviation(p);
    match p {
        StreetNamePostType::ALLEY => {
            assert(post_type_of_alias(a) == Some(p));
            assert(post_type_of_abbreviation(a) == Some(p));
        }
        StreetNamePostType::ANEX => {
            assert(post_type_of_alias(a) == Some(p));
            assert(post_type_of_abbreviation(a) == Some(p));
        }
        StreetNamePostType::ARCADE => {
            assert(post_type_of_alias(a) == Some(p));
            assert(post_type_of_abbreviation(a) == Some(p));
        }
        StreetNamePostType::AVENUE => {
            assert(post_type_of_alias(a) == Some(p));
            assert(post_type_of_abbreviation(a) == Some(p));
        }
        StreetNamePostType::BAYOU => {
            assert(post_type_of_alias(a) == Some(p));
            assert(post_type_of_abbreviation(a) == Some(p));
        }
        StreetNamePostType::BEACH => {
            assert(post_type_of_alias(a) == Some(p));
            assert(post_type_of_abbreviation(a) == Some(p));
        }
        StreetNamePostType::BEND => {
            assert(post_type_of_alias(a) == Some(p));
            assert(post_type_of_abbreviation(a) == Some(p));
        }
        StreetNamePostType::BLUFF => {
            assert(post_type_of_alias(a) == Some(p));
            assert(post_type_of_abbreviation(a) == Some(p));
        }
        StreetNamePostType::BLUFFS => {
            assert(post_type_of_alias(a) == Some(p));
            assert(post_type_of_abbreviation(a) == Some(p));
        }
        StreetNamePostType::BOTTOM => {
            assert(post_type_of_alias(a) == Some(p));
            assert(post_type_of_abbreviation(a) == Some(p));
        }
        StreetNamePostType::BOULEVARD => {
            assert(post_type_of_alias(a) == Some(p));
            assert(post_type_of_abbreviation(a) == Some(p));
        }
        StreetNamePostType::BRANCH => {
            assert(post_type_of_alias(a) == Some(p));
            assert(post_type_of_abbreviation(a) == Some(p));
        }
        StreetNamePostType::BRIDGE => {
            assert(post_type_of_alias(a) == Some(p));
            assert(post_type_of_abbreviation(a) == Some(p));
        }
        StreetNamePostType::BROOK => {
            assert(post_type_of_alias(a) == Some(p));
            assert(post_type_of_abbreviation(a) == Some(p));
        }
        StreetNamePostType::BROOKS => {
            assert(post_type_of_alias(a) == Some(p));
            assert(post_type_of_abbreviation(a) == Some(p));
        }
        StreetNamePostType::BURG => {
            assert(post_type_of_alias(a) == Some(p));
            assert(post_type_of_abbreviation(a) == Some(p));
        }
        StreetNamePostType::BURGS => {
            assert(post_type_of_alias(a) == Some(p));
            assert(post_type_of_abbreviation(a) == Some(p));
        }
        _ => {}
    }
}

/// The round trip for one part of the post types.
proof fn lemma_post_type_round_trip_1(p: StreetNamePostType)
    requires
        p == StreetNamePostType::BYPASS || p == StreetNamePostType::CAMP ||
            p == StreetNamePostType::CANYON || p == StreetNamePostType::CAPE ||
            p == StreetNamePostType::CAUSEWAY || p == StreetNamePostType::CENTER ||
            p == StreetNamePostType::CENTERS || p == StreetNamePostType::CIRCLE ||
            p == StreetNamePostType::CIRCLES || p == StreetNamePostType::CLIFF ||
            p == StreetNamePostType::CLIFFS || p == StreetNamePostType::CLUB ||
            p == StreetNamePostType::COMMON || p == StreetNamePostType::COMMONS ||
            p == StreetNamePostType::CORNER || p == StreetNamePostType::CORNERS ||
            p == StreetNamePostType::COURSE,
    ensures
        post_type_of_alias(post_type_abbreviation(p)) == Some(p),
        post_type_of_abbreviation(post_type_abbreviation(p)) == Some(p),
{
    lemma_post_type_literals_a0();
    lemma_post_type_literals_b0();
    lemma_post_type_literals_b1();
    lemma_post_type_literals_c0();
    lemma_post_type_literals_c1();
    lemma_post_type_literals_c2();
    lemma_post_type_literals_x0();
    lemma_post_type_literals_d0();
    lemma_post_type_literals_e0();
    lemma_post_type_literals_f0();
    lemma_post_type_literals_f1();
    lemma_post_type_literals_g0();
    lemma_post_type_literals_h0();
    lemma_post_type_literals_i0();
    lemma_post_type_literals_j0();
    lemma_post_type_literals_k0();
    lemma_post_type_literals_l0();
    lemma_post_type_literals_l1();
    lemma_post_type_literals_m0();
    lemma_post_type_literals_m1();
    lemma_post_type_literals_n0();
    lemma_post_type_literals_o0();
    lemma_post_type_literals_p0();
    lemma_post_type_literals_p1();
    lemma_post_type_literals_r0();
    lemma_post_type_literals_r1();
    lemma_post_type_literals_s0();
    lemma_post_type_literals_s1();
    lemma_post_type_literals_t0();
    lemma_post_type_literals_u0();
    lemma_post_type_literals_v0();
    lemma_post_type_literals_w0();
    let a = post_type_abbreviation(p);
    match p {
        StreetNamePostType::BYPASS => {
            assert(post_type_of_alias(a) == Some(p));
            assert(post_type_of_abbreviation(a) == Some(p));
        }
        StreetNamePostType::CAMP => {
            assert(post_type_of_alias(a) == Some(p));
            assert(post_type_of_abbreviation(a) == Some(p));
        }
        StreetNamePostType::CANYON => {
            assert(post_type_of_alias(a) == Some(p));
            assert(post_type_of_abbreviation(a) == Some(p));
        }
        StreetNamePostType::CAPE => {
            assert(post_type_of_alias(a) == Some(p));
            assert(post_type_of_abbreviation(a) == Some(p));
        }
        StreetNamePostType::CAUSEWAY => {
            assert(post_type_of_alias(a) == Some(p));
            assert(post_type_of_abbreviation(a) == Some(p));
        }
        StreetNamePostType::CENTER => {
            assert(post_type_of_alias(a) == Some(p));
            assert(post_type_of_abbreviation(a) == Some(p));
        }
        StreetNamePostType::CENTERS => {
            assert(post_type_of_alias(a) == Some(p));
            assert(post_type_of_abbreviation(a) == Some(p));
        }
        StreetNamePostType::CIRCLE => {
            assert(post_type_of_alias(a) == Some(p));
            assert(post_type_of_abbreviation(a) == Some(p));
        }
        StreetNamePostType::CIRCLES => {
            assert(post_type_of_alias(a) == Some(p));
            assert(post_type_of_abbreviation(a) == Some(p));
        }
        StreetNamePostType::CLIFF => {
            assert(post_type_of_alias(a) == Some(p));
            assert(post_type_of_abbreviation(a) == Some(p));
        }
        StreetNamePostType::CLIFFS => {
            assert(post_type_of_alias(a) == Some(p));
            assert(post_type_of_abbreviation(a) == Some(p));
        }
        StreetNamePostType::CLUB => {
            assert(post_type_of_alias(a) == Some(p));
            assert(post_type_of_abbreviation(a) == Some(p));
        }
        StreetNamePostType::COMMON => {
            assert(post_type_of_alias(a) == Some(p));
            assert(post_type_of_abbreviation(a) == Some(p));
        }
        StreetNamePostType::COMMONS => {
            assert(post_type_of_alias(a) == Some(p));
            assert(post_type_of_abbreviation(a) == Some(p));
        }
        StreetNamePostType::CORNER => {
            assert(post_type_of_alias(a) == Some(p));
            assert(post_type_of_abbreviation(a) == Some(p));
        }
        StreetNamePostType::CORNERS => {
            assert(post_type_of_alias(a) == Some(p));
            assert(post_type_of_abbreviation(a) == Some(p));
        }
        StreetNamePostType::COURSE => {
            assert(post_type_of_alias(a) == Some(p));
            assert(post_type_of_abbreviation(a) == Some(p));
        }
        _ => {}
    }
}

/// The round trip for one part of the post types.
proof fn lemma_post_type_round_trip_2(p: StreetNamePostType)
    requires
        p == StreetNamePostType::COURT || p == StreetNamePostType::COURTS ||
            p == StreetNamePostType::COVE || p == StreetNamePostType::COVES ||
            p == StreetNamePostType::CREEK || p == StreetNamePostType::CRESCENT ||
            p == StreetNamePostType::CREST || p == StreetNamePostType::CROSSING ||
            p == StreetNamePostType::CROSSROAD || p == StreetNamePostType::CROSSROADS ||
            p == StreetNamePostType::CURVE || p == StreetNamePostType::CUTOFF ||
            p == StreetNamePostType::DALE || p == StreetNamePostType::DAM ||
            p == StreetNamePostType::DIVIDE || p == StreetNamePostType::DRIVE ||
            p == StreetNamePostType::DriveCutoff,
    ensures
        post_type_of_alias(post_type_abbreviation(p)) == Some(p),
        post_type_of_abbreviation(post_type_abbreviation(p)) == Some(p),
{
    lemma_post_type_literals_a0();
    lemma_post_type_literals_b0();
    lemma_post_type_literals_b1();
    lemma_post_type_literals_c0();
    lemma_post_type_literals_c1();
    lemma_post_type_literals_c2();
    lemma_post_type_literals_x0();
    lemma_post_type_literals_d0();
    lemma_post_type_literals_e0();
    lemma_post_type_literals_f0();
    lemma_post_type_literals_f1();
    lemma_post_type_literals_g0();
    lemma_post_type_literals_h0();
    lemma_post_type_literals_i0();
    lemma_post_type_literals_j0();
    lemma_post_type_literals_k0();
    lemma_post_type_literals_l0();
    lemma_post_type_literals_l1();
    lemma_post_type_literals_m0();
    lemma_post_type_literals_m1();
    lemma_post_type_literals_n0();
    lemma_post_type_literals_o0();
    lemma_post_type_literals_p0();
    lemma_post_type_literals_p1();
    lemma_post_type_literals_r0();
    lemma_post_type_literals_r1();
    lemma_post_type_literals_s0();
    lemma_post_type_literals_s1();
    lemma_post_type_literals_t0();
    lemma_post_type_literals_u0();
    lemma_post_type_literals_v0();
    lemma_post_type_literals_w0();
    let a = post_type_abbreviation(p);
    match p {
        StreetNamePostType::COURT => {
            assert(post_type_of_alias(a) == Some(p));
            assert(post_type_of_abbreviation(a) == Some(p));
        }
        StreetNamePostType::COURTS => {
            assert(post_type_of_alias(a) == Some(p));
            assert(post_type_of_abbreviation(a) == Some(p));
        }
        StreetNamePostType::COVE => {
            assert(post_type_of_alias(a) == Some(p));
            assert(post_type_of_abbreviation(a) == Some(p));
        }
        StreetNamePostType::COVES => {
            assert(post_type_of_alias(a) == Some(p));
            assert(post_type_of_abbreviation(a) == Some(p));
        }
        StreetNamePostType::CREEK => {
            assert(post_type_of_alias(a) == Some(p));
            assert(post_type_of_abbreviation(a) == Some(p));
        }
        StreetNamePostType::CRESCENT => {
            assert(post_type_of_alias(a) == Some(p));
            assert(post_type_of_abbreviation(a) == Some(p));
        }
        StreetNamePostType::CREST => {
            assert(post_type_of_alias(a) == Some(p));
            assert(post_type_of_abbreviation(a) == Some(p));
        }
        StreetNamePostType::CROSSING => {
            assert(post_type_of_alias(a) == Some(p));
            assert(post_type_of_abbreviation(a) == Some(p));
        }
        StreetNamePostType::CROSSROAD => {
            assert(post_type_of_alias(a) == Some(p));
            assert(post_type_of_abbreviation(a) == Some(p));
        }
        StreetNamePostType::CROSSROADS => {
            assert(post_type_of_alias(a) == Some(p));
            assert(post_type_of_abbreviation(a) == Some(p));
        }
        StreetNamePostType::CURVE => {
            assert(post_type_of_alias(a) == Some(p));
            assert(post_type_of_abbreviation(a) == Some(p));
        }
        StreetNamePostType::CUTOFF => {
            assert(post_type_of_alias(a) == Some(p));
            assert(post_type_of_abbreviation(a) == Some(p));
        }
        StreetNamePostType::DALE => {
            assert(post_type_of_alias(a) == Some(p));
            assert(post_type_of_abbreviation(a) == Some(p));
        }
        StreetNamePostType::DAM => {
            assert(post_type_of_alias(a) == Some(p));
            assert(post_type_of_abbreviation(a) == Some(p));
        }
        StreetNamePostType::DIVIDE => {
            assert(post_type_of_alias(a) == Some(p));
            assert(post_type_of_abbreviation(a) == Some(p));
        }
        StreetNamePostType::DRIVE => {
            assert(post_type_of_alias(a) == Some(p));
            assert(post_type_of_abbreviation(a) == Some(p));
        }
        StreetNamePostType::DriveCutoff => {
            assert(post_type_of_alias(a) == Some(p));
            assert(post_type_of_abbreviation(a) == Some(p));
        }
        _ => {}
    }
}

/// The round trip for one part of the post types.
proof fn lemma_post_type_round_trip_3(p: StreetNamePostType)
    requires
        p == StreetNamePostType::DRIVES || p == StreetNamePostType::ESTATE ||
            p == StreetNamePostType::ESTATES || p == StreetNamePostType::EXPRESSWAY ||
            p == StreetNamePostType::EXTENSION || p == StreetNamePostType::EXTENSIONS ||
            p == StreetNamePostType::FALL || p == StreetNamePostType::FALLS ||
            p == StreetNamePostType::FERRY || p == StreetNamePostType::FIELD ||
            p == StreetNamePostType::FIELDS || p == StreetNamePostType::FLAT ||
            p == StreetNamePostType::FLATS || p == StreetNamePostType::FORD ||
            p == StreetNamePostType::FORDS || p == StreetNamePostType::FOREST ||
            p == StreetNamePostType::FORGE,
    ensures
        post_type_of_alias(post_type_abbreviation(p)) == Some(p),
        post_type_of_abbreviation(post_type_abbreviation(p)) == Some(p),
{
    lemma_post_type_literals_a0();
    lemma_post_type_literals_b0();
    lemma_post_type_literals_b1();
    lemma_post_type_literals_c0();
    lemma_post_type_literals_c1();
    lemma_post_type_literals_c2();
    lemma_post_type_literals_x0();
    lemma_post_type_literals_d0();
    lemma_post_type_literals_e0();
    lemma_post_type_literals_f0();
    lemma_post_type_literals_f1();
    lemma_post_type_literals_g0();
    lemma_post_type_literals_h0();
    lemma_post_type_literals_i0();
    lemma_post_type_literals_j0();
    lemma_post_type_literals_k0();
    lemma_post_type_literals_l0();
    lemma_post_type_literals_l1();
    lemma_post_type_literals_m0();
    lemma_post_type_literals_m1();
    lemma_post_type_literals_n0();
    lemma_post_type_literals_o0();
    lemma_post_type_literals_p0();
    lemma_post_type_literals_p1();
    lemma_post_type_literals_r0();
    lemma_post_type_literals_r1();
    lemma_post_type_literals_s0();
    lemma_post_type_literals_s1();
    lemma_post_type_literals_t0();
    lemma_post_type_literals_u0();
    lemma_post_type_literals_v0();
    lemma_post_type_literals_w0();
    let a = post_type_abbreviation(p);
    match p {
        StreetNamePostType::DRIVES => {
            assert(post_type_of_alias(a) == Some(p));
            assert(post_type_of_abbreviation(a) == Some(p));
        }
        StreetNamePostType::ESTATE => {
            assert(post_type_of_alias(a) == Some(p));
            assert(post_type_of_abbreviation(a) == Some(p));
        }
        StreetNamePostType::ESTATES => {
            assert(post_type_of_alias(a) == Some(p));
            assert(post_type_of_abbreviation(a) == Some(p));
        }
        StreetNamePostType::EXPRESSWAY => {
            assert(post_type_of_alias(a) == Some(p));
            assert(post_type_of_abbreviation(a) == Some(p));
        }
        StreetNamePostType::EXTENSION => {
            assert(post_type_of_alias(a) == Some(p));
            assert(post_type_of_abbreviation(a) == Some(p));
        }
        StreetNamePostType::EXTENSIONS => {
            assert(post_type_of_alias(a) == Some(p));
            assert(post_type_of_abbreviation(a) == Some(p));
        }
        StreetNamePostType::FALL => {
            assert(post_type_of_alias(a) == Some(p));
            assert(post_type_of_abbreviation(a) == Some(p));
        }
        StreetNamePostType::FALLS => {
            assert(post_type_of_alias(a) == Some(p));
            assert(post_type_of_abbreviation(a) == Some(p));
        }
        StreetNamePostType::FERRY => {
            assert(post_type_of_alias(a) == Some(p));
            assert(post_type_of_abbreviation(a) == Some(p));
        }
        StreetNamePostType::FIELD => {
            assert(post_type_of_alias(a) == Some(p));
            assert(post_type_of_abbreviation(a) == Some(p));
        }
        StreetNamePostType::FIELDS => {
            assert(post_type_of_alias(a) == Some(p));
            assert(post_type_of_abbreviation(a) == Some(p));
        }
        StreetNamePostType::FLAT => {
            assert(post_type_of_alias(a) == Some(p));
            assert(post_type_of_abbreviation(a) == Some(p));
        }
        StreetNamePostType::FLATS => {
            assert(post_type_of_alias(a) == Some(p));
            assert(post_type_of_abbreviation(a) == Some(p));
        }
        StreetNamePostType::FORD => {
            assert(post_type_of_alias(a) == Some(p));
            assert(post_type_of_abbreviation(a) == Some(p));
        }
        StreetNamePostType::FORDS => {
            assert(post_type_of_alias(a) == Some(p));
            assert(post_type_of_abbreviation(a) == Some(p));
        }
        StreetNamePostType::FOREST => {
            assert(post_type_of_alias(a) == Some(p));
            assert(post_type_of_abbreviation(a) == Some(p));
        }
        StreetNamePostType::FORGE => {
            assert(post_type_of_alias(a) == Some(p));
            assert(post_type_of_abbreviation(a) == Some(p));
        }
        _ => {}
    }
}

/// The round trip for one part of the post types.
proof fn lemma_post_type_round_trip_4(p: StreetNamePostType)
    requires
        p == StreetNamePostType::FORGES || p == StreetNamePostType::FORK ||
            p == StreetNamePostType::FORKS || p == StreetNamePostType::FORT ||
            p == StreetNamePostType::FREEWAY || p == StreetNamePostType::GARDEN ||
            p == StreetNamePostType::GARDENS || p == StreetNamePostType::GATEWAY ||
            p == StreetNamePostType::GLEN || p == StreetNamePostType::GLENS ||
            p == StreetNamePostType::GREEN || p == StreetNamePostType::GREENS ||
            p == StreetNamePostType::GROVE || p == StreetNamePostType::GROVES ||
            p == StreetNamePostType::HARBOR || p == StreetNamePostType::HARBORS ||
            p == StreetNamePostType::HAVEN,
    ensures
        post_type_of_alias(post_type_abbreviation(p)) == Some(p),
        post_type_of_abbreviation(post_type_abbreviation(p)) == Some(p),
{
    lemma_post_type_literals_a0();
    lemma_post_type_literals_b0();
    lemma_post_type_literals_b1();
    lemma_post_type_literals_c0();
    lemma_post_type_literals_c1();
    lemma_post_type_literals_c2();
    lemma_post_type_literals_x0();
    lemma_post_type_literals_d0();
    lemma_post_type_literals_e0();
    lemma_post_type_literals_f0();
    lemma_post_type_literals_f1();
    lemma_post_type_literals_g0();
    lemma_post_type_literals_h0();
    lemma_post_type_literals_i0();
    lemma_post_type_literals_j0();
    lemma_post_type_literals_k0();
    lemma_post_type_literals_l0();
    lemma_post_type_literals_l1();
    lemma_post_type_literals_m0();
    lemma_post_type_literals_m1();
    lemma_post_type_literals_n0();
    lemma_post_type_literals_o0();
    lemma_post_type_literals_p0();
    lemma_post_type_literals_p1();
    lemma_post_type_literals_r0();
    lemma_post_type_literals_r1();
    lemma_post_type_literals_s0();
    lemma_post_type_literals_s1();
    lemma_post_type_literals_t0();
    lemma_post_type_literals_u0();
    lemma_post_type_literals_v0();
    lemma_post_type_literals_w0();
    let a = post_type_abbreviation(p);
    match p {
        StreetNamePostType::FORGES => {
            assert(post_type_of_alias(a) == Some(p));
            assert(post_type_of_abbreviation(a) == Some(p));
        }
        StreetNamePostType::FORK => {
            assert(post_type_of_alias(a) == Some(p));
            assert(post_type_of_abbreviation(a) == Some(p));
        }
        StreetNamePostType::FORKS => {
            assert(post_type_of_alias(a) == Some(p));
            assert(post_type_of_abbreviation(a) == Some(p));
        }
        StreetNamePostType::FORT => {
            assert(post_type_of_alias(a) == Some(p));
            assert(post_type_of_abbreviation(a) == Some(p));
        }
        StreetNamePostType::FREEWAY => {
            assert(post_type_of_alias(a) == Some(p));
            assert(post_type_of_abbreviation(a) == Some(p));
        }
        StreetNamePostType::GARDEN => {
            assert(post_type_of_alias(a) == Some(p));
            assert(post_type_of_abbreviation(a) == Some(p));
        }
        StreetNamePostType::GARDENS => {
            assert(post_type_of_alias(a) == Some(p));
            assert(post_type_of_abbreviation(a) == Some(p));
        }
        StreetNamePostType::GATEWAY => {
            assert(post_type_of_alias(a) == Some(p));
            assert(post_type_of_abbreviation(a) == Some(p));
        }
        StreetNamePostType::GLEN => {
            assert(post_type_of_alias(a) == Some(p));
            assert(post_type_of_abbreviation(a) == Some(p));
        }
        StreetNamePostType::GLENS => {
            assert(post_type_of_alias(a) == Some(p));
            assert(post_type_of_abbreviation(a) == Some(p));
        }
        StreetNamePostType::GREEN => {
            assert(post_type_of_alias(a) == Some(p));
            assert(post_type_of_abbreviation(a) == Some(p));
        }
        StreetNamePostType::GREENS => {
            assert(post_type_of_alias(a) == Some(p));
            assert(post_type_of_abbreviation(a) == Some(p));
        }
        StreetNamePostType::GROVE => {
            assert(post_type_of_alias(a) == Some(p));
            assert(post_type_of_abbreviation(a) == Some(p));
        }
        StreetNamePostType::GROVES => {
            assert(post_type_of_alias(a) == Some(p));
            assert(post_type_of_abbreviation(a) == Some(p));
        }
        StreetNamePostType::HARBOR => {
            assert(post_type_of_alias(a) == Some(p));
            assert(post_type_of_abbreviation(a) == Some(p));
        }
        StreetNamePostType::HARBORS => {
            assert(post_type_of_alias(a) == Some(p));
            assert(post_type_of_abbreviation(a) == Some(p));
        }
        StreetNamePostType::HAVEN => {
            assert(post_type_of_alias(a) == Some(p));
            assert(post_type_of_abbreviation(a) == Some(p));
        }
        _ => {}
    }
}

/// The round trip for one part of the post types.
proof fn lemma_post_type_round_trip_5(p: StreetNamePostType)
    requires
        p == StreetNamePostType::HEIGHTS || p == StreetNamePostType::HIGHWAY ||
            p == StreetNamePostType::HILL || p == StreetNamePostType::HILLS ||
            p == StreetNamePostType::HOLLOW || p == StreetNamePostType::INLET ||
            p == StreetNamePostType::ISLAND || p == StreetNamePostType::ISLANDS ||
            p == StreetNamePostType::ISLE || p == StreetNamePostType::JUNCTION ||
            p == StreetNamePostType::JUNCTIONS || p == StreetNamePostType::KEY ||
            p == StreetNamePostType::KEYS || p == StreetNamePostType::KNOLL ||
            p == StreetNamePostType::KNOLLS || p == StreetNamePostType::LAKE ||
            p == StreetNamePostType::LAKES,
    ensures
        post_type_of_alias(post_type_abbreviation(p)) == Some(p),
        post_type_of_abbreviation(post_type_abbreviation(p)) == Some(p),
{
    lemma_post_type_literals_a0();
    lemma_post_type_literals_b0();
    lemma_post_type_literals_b1();
    lemma_post_type_literals_c0();
    lemma_post_type_literals_c1();
    lemma_post_type_literals_c2();
    lemma_post_type_literals_x0();
    lemma_post_type_literals_d0();
    lemma_post_type_literals_e0();
    lemma_post_type_literals_f0();
    lemma_post_type_literals_f1();
    lemma_post_type_literals_g0();
    lemma_post_type_literals_h0();
    lemma_post_type_literals_i0();
    lemma_post_type_literals_j0();
    lemma_post_type_literals_k0();
    lemma_post_type_literals_l0();
    lemma_post_type_literals_l1();
    lemma_post_type_literals_m0();
    lemma_post_type_literals_m1();
    lemma_post_type_literals_n0();
    lemma_post_type_literals_o0();
    lemma_post_type_literals_p0();
    lemma_post_type_literals_p1();
    lemma_post_type_literals_r0();
    lemma_post_type_literals_r1();
    lemma_post_type_literals_s0();
    lemma_post_type_literals_s1();
    lemma_post_type_literals_t0();
    lemma_post_type_literals_u0();
    lemma_post_type_literals_v0();
    lemma_post_type_literals_w0();
    let a = post_type_abbreviation(p);
    match p {
        StreetNamePostType::HEIGHTS => {
            assert(post_type_of_alias(a) == Some(p));
            assert(post_type_of_abbreviation(a) == Some(p));
        }
        StreetNamePostType::HIGHWAY => {
            assert(post_type_of_alias(a) == Some(p));
            assert(post_type_of_abbreviation(a) == Some(p));
        }
        StreetNamePostType::HILL => {
            assert(post_type_of_alias(a) == Some(p));
            assert(post_type_of_abbreviation(a) == Some(p));
        }
        StreetNamePostType::HILLS => {
            assert(post_type_of_alias(a) == Some(p));
            assert(post_type_of_abbreviation(a) == Some(p));
        }
        StreetNamePostType::HOLLOW => {
            assert(post_type_of_alias(a) == Some(p));
            assert(post_type_of_abbreviation(a) == Some(p));
        }
        StreetNamePostType::INLET => {
            assert(post_type_of_alias(a) == Some(p));
            assert(post_type_of_abbreviation(a) == Some(p));
        }
        StreetNamePostType::ISLAND => {
            assert(post_type_of_alias(a) == Some(p));
            assert(post_type_of_abbreviation(a) == Some(p));
        }
        StreetNamePostType::ISLANDS => {
            assert(post_type_of_alias(a) == Some(p));
            assert(post_type_of_abbreviation(a) == Some(p));
        }
        StreetNamePostType::ISLE => {
            assert(post_type_of_alias(a) == Some(p));
            assert(post_type_of_abbreviation(a) == Some(p));
        }
        StreetNamePostType::JUNCTION => {
            assert(post_type_of_alias(a) == Some(p));
            assert(post_type_of_abbreviation(a) == Some(p));
        }
        StreetNamePostType::JUNCTIONS => {
            assert(post_type_of_alias(a) == Some(p));
            assert(post_type_of_abbreviation(a) == Some(p));
        }
        StreetNamePostType::KEY => {
            assert(post_type_of_alias(a) == Some(p));
            assert(post_type_of_abbreviation(a) == Some(p));
        }
        StreetNamePostType::KEYS => {
            assert(post_type_of_alias(a) == Some(p));
            assert(post_type_of_abbreviation(a) == Some(p));
        }
        StreetNamePostType::KNOLL => {
            assert(post_type_of_alias(a) == Some(p));
            assert(post_type_of_abbreviation(a) == Some(p));
        }
        StreetNamePostType::KNOLLS => {
            assert(post_type_of_alias(a) == Some(p));
            assert(post_type_of_abbreviation(a) == Some(p));
        }
        StreetNamePostType::LAKE => {
            assert(post_type_of_alias(a) == Some(p));
            assert(post_type_of_abbreviation(a) == Some(p));
        }
        StreetNamePostType::LAKES => {
            assert(post_type_of_alias(a) == Some(p));
            assert(post_type_of_abbreviation(a) == Some(p));
        }
        _ => {}
    }
}

/// The round trip for one part of the post types.
proof fn lemma_post_type_round_trip_6(p: StreetNamePostType)
    requires
        p == StreetNamePostType::LAND || p == StreetNamePostType::LANDING ||
            p == StreetNamePostType::LANE || p == StreetNamePostType::LIGHT ||
            p == StreetNamePostType::LIGHTS || p == StreetNamePostType::LOAF ||
            p == StreetNamePostType::LOCK || p == StreetNamePostType::LOCKS ||
            p == StreetNamePostType::LODGE || p == StreetNamePostType::LOOP ||
            p == StreetNamePostType::MALL || p == StreetNamePostType::MANOR ||
            p == StreetNamePostType::MANORS || p == StreetNamePostType::MEADOW ||
            p == StreetNamePostType::MEADOWS || p == StreetNamePostType::MEWS ||
            p == StreetNamePostType::MILL,
    ensures
        post_type_of_alias(post_type_abbreviation(p)) == Some(p),
        post_type_of_abbreviation(post_type_abbreviation(p)) == Some(p),
{
    lemma_post_type_literals_a0();
    lemma_post_type_literals_b0();
    lemma_post_type_literals_b1();
    lemma_post_type_literals_c0();
    lemma_post_type_literals_c1();
    lemma_post_type_literals_c2();
    lemma_post_type_literals_x0();
    lemma_post_type_literals_d0();
    lemma_post_type_literals_e0();
    lemma_post_type_literals_f0();
    lemma_post_type_literals_f1();
    lemma_post_type_literals_g0();
    lemma_post_type_literals_h0();
    lemma_post_type_literals_i0();
    lemma_post_type_literals_j0();
    lemma_post_type_literals_k0();
    lemma_post_type_literals_l0();
    lemma_post_type_literals_l1();
    lemma_post_type_literals_m0();
    lemma_post_type_literals_m1();
    lemma_post_type_literals_n0();
    lemma_post_type_literals_o0();
    lemma_post_type_literals_p0();
    lemma_post_type_literals_p1();
    lemma_post_type_literals_r0();
    lemma_post_type_literals_r1();
    lemma_post_type_literals_s0();
    lemma_post_type_literals_s1();
    lemma_post_type_literals_t0();
    lemma_post_type_literals_u0();
    lemma_post_type_literals_v0();
    lemma_post_type_literals_w0();
    let a = post_type_abbreviation(p);
    match p {
        StreetNamePostType::LAND => {
            assert(post_type_of_alias(a) == Some(p));
            assert(post_type_of_abbreviation(a) == Some(p));
        }
        StreetNamePostType::LANDING => {
            assert(post_type_of_alias(a) == Some(p));
            assert(post_type_of_abbreviation(a) == Some(p));
        }
        StreetNamePostType::LANE => {
            assert(post_type_of_alias(a) == Some(p));
            assert(post_type_of_abbreviation(a) == Some(p));
        }
        StreetNamePostType::LIGHT => {
            assert(post_type_of_alias(a) == Some(p));
            assert(post_type_of_abbreviation(a) == Some(p));
        }
        StreetNamePostType::LIGHTS => {
            assert(post_type_of_alias(a) == Some(p));
            assert(post_type_of_abbreviation(a) == Some(p));
        }
        StreetNamePostType::LOAF => {
            assert(post_type_of_alias(a) == Some(p));
            assert(post_type_of_abbreviation(a) == Some(p));
        }
        StreetNamePostType::LOCK => {
            assert(post_type_of_alias(a) == Some(p));
            assert(post_type_of_abbreviation(a) == Some(p));
        }
        StreetNamePostType::LOCKS => {
            assert(post_type_of_alias(a) == Some(p));
            assert(post_type_of_abbreviation(a) == Some(p));
        }
        StreetNamePostType::LODGE => {
            assert(post_type_of_alias(a) == Some(p));
            assert(post_type_of_abbreviation(a) == Some(p));
        }
        StreetNamePostType::LOOP => {
            assert(post_type_of_alias(a) == Some(p));
            assert(post_type_of_abbreviation(a) == Some(p));
        }
        StreetNamePostType::MALL => {
            assert(post_type_of_alias(a) == Some(p));
            assert(post_type_of_abbreviation(a) == Some(p));
        }
        StreetNamePostType::MANOR => {
            assert(post_type_of_alias(a) == Some(p));
            assert(post_type_of_abbreviation(a) == Some(p));
        }
        StreetNamePostType::MANORS => {
            assert(post_type_of_alias(a) == Some(p));
            assert(post_type_of_abbreviation(a) == Some(p));
        }
        StreetNamePostType::MEADOW => {
            assert(post_type_of_alias(a) == Some(p));
            assert(post_type_of_abbreviation(a) == Some(p));
        }
        StreetNamePostType::MEADOWS => {
            assert(post_type_of_alias(a) == Some(p));
            assert(post_type_of_abbreviation(a) == Some(p));
        }
        StreetNamePostType::MEWS => {
            assert(post_type_of_alias(a) == Some(p));
            assert(post_type_of_abbreviation(a) == Some(p));
        }
        StreetNamePostType::MILL => {
            assert(post_type_of_alias(a) == Some(p));
            assert(post_type_of_abbreviation(a) == Some(p));
        }
        _ => {}
    }
}

/// The round trip for one part of the post types.
proof fn lemma_post_type_round_trip_7(p: StreetNamePostType)
    requires
        p == StreetNamePostType::MILLS || p == StreetNamePostType::MISSION ||
            p == StreetNamePostType::MOTORWAY || p == StreetNamePostType::MOUNT ||
            p == StreetNamePostType::MOUNTAIN || p == StreetNamePostType::MOUNTAINS ||
            p == StreetNamePostType::NECK || p == StreetNamePostType::ORCHARD ||
            p == StreetNamePostType::OVAL || p == StreetNamePostType::OVERPASS ||
            p == StreetNamePostType::PARK || p == StreetNamePostType::PARKWAY ||
            p == StreetNamePostType::PASS || p == StreetNamePostType::PASSAGE ||
            p == StreetNamePostType::PATH || p == StreetNamePostType::PIKE ||
            p == StreetNamePostType::PINE,
    ensures
        post_type_of_alias(post_type_abbreviation(p)) == Some(p),
        post_type_of_abbreviation(post_type_abbreviation(p)) == Some(p),
{
    lemma_post_type_literals_a0();
    lemma_post_type_literals_b0();
    lemma_post_type_literals_b1();
    lemma_post_type_literals_c0();
    lemma_post_type_literals_c1();
    lemma_post_type_literals_c2();
    lemma_post_type_literals_x0();
    lemma_post_type_literals_d0();
    lemma_post_type_literals_e0();
    lemma_post_type_literals_f0();
    lemma_post_type_literals_f1();
    lemma_post_type_literals_g0();
    lemma_post_type_literals_h0();
    lemma_post_type_literals_i0();
    lemma_post_type_literals_j0();
    lemma_post_type_literals_k0();
    lemma_post_type_literals_l0();
    lemma_post_type_literals_l1();
    lemma_post_type_literals_m0();
    lemma_post_type_literals_m1();
    lemma_post_type_literals_n0();
    lemma_post_type_literals_o0();
    lemma_post_type_literals_p0();
    lemma_post_type_literals_p1();
    lemma_post_type_literals_r0();
    lemma_post_type_literals_r1();
    lemma_post_type_literals_s0();
    lemma_post_type_literals_s1();
    lemma_post_type_literals_t0();
    lemma_post_type_literals_u0();
    lemma_post_type_literals_v0();
    lemma_post_type_literals_w0();
    let a = post_type_abbreviation(p);
    match p {
        StreetNamePostType::MILLS => {
            assert(post_type_of_alias(a) == Some(p));
            assert(post_type_of_abbreviation(a) == Some(p));
        }
        StreetNamePostType::MISSION => {
            assert(post_type_of_alias(a) == Some(p));
            assert(post_type_of_abbreviation(a) == Some(p));
        }
        StreetNamePostType::MOTORWAY => {
            assert(post_type_of_alias(a) == Some(p));
            assert(post_type_of_abbreviation(a) == Some(p));
        }
        StreetNamePostType::MOUNT => {
            assert(post_type_of_alias(a) == Some(p));
            assert(post_type_of_abbreviation(a) == Some(p));
        }
        StreetNamePostType::MOUNTAIN => {
            assert(post_type_of_alias(a) == Some(p));
            assert(post_type_of_abbreviation(a) == Some(p));
        }
        StreetNamePostType::MOUNTAINS => {
            assert(post_type_of_alias(a) == Some(p));
            assert(post_type_of_abbreviation(a) == Some(p));
        }
        StreetNamePostType::NECK => {
            assert(post_type_of_alias(a) == Some(p));
            assert(post_type_of_abbreviation(a) == Some(p));
        }
        StreetNamePostType::ORCHARD => {
            assert(post_type_of_alias(a) == Some(p));
            assert(post_type_of_abbreviation(a) == Some(p));
        }
        StreetNamePostType::OVAL => {
            assert(post_type_of_alias(a) == Some(p));
            assert(post_type_of_abbreviation(a) == Some(p));
        }
        StreetNamePostType::OVERPASS => {
            assert(post_type_of_alias(a) == Some(p));
            assert(post_type_of_abbreviation(a) == Some(p));
        }
        StreetNamePostType::PARK => {
            assert(post_type_of_alias(a) == Some(p));
            assert(post_type_of_abbreviation(a) == Some(p));
        }
        StreetNamePostType::PARKWAY => {
            assert(post_type_of_alias(a) == Some(p));
            assert(post_type_of_abbreviation(a) == Some(p));
        }
        StreetNamePostType::PASS => {
            assert(post_type_of_alias(a) == Some(p));
            assert(post_type_of_abbreviation(a) == Some(p));
        }
        StreetNamePostType::PASSAGE => {
            assert(post_type_of_alias(a) == Some(p));
            assert(post_type_of_abbreviation(a) == Some(p));
        }
        StreetNamePostType::PATH => {
            assert(post_type_of_alias(a) == Some(p));
            assert(post_type_of_abbreviation(a) == Some(p));
        }
        StreetNamePostType::PIKE => {
            assert(post_type_of_alias(a) == Some(p));
            assert(post_type_of_abbreviation(a) == Some(p));
        }
        StreetNamePostType::PINE => {
            assert(post_type_of_alias(a) == Some(p));
            assert(post_type_of_abbreviation(a) == Some(p));
        }
        _ => {}
    }
}

/// The round trip for one part of the post types.
proof fn lemma_post_type_round_trip_8(p: StreetNamePostType)
    requires
        p == StreetNamePostType::PINES || p == StreetNamePostType::PLACE ||
            p == StreetNamePostType::PLAIN || p == StreetNamePostType::PLAINS ||
            p == StreetNamePostType::PLAZA || p == StreetNamePostType::POINT ||
            p == StreetNamePostType::POINTS || p == StreetNamePostType::PORT ||
            p == StreetNamePostType::PORTS || p == StreetNamePostType::PRAIRIE ||
            p == StreetNamePostType::RADIAL || p == StreetNamePostType::RAMP ||
            p == StreetNamePostType::RANCH || p == StreetNamePostType::RAPID ||
            p == StreetNamePostType::RAPIDS || p == StreetNamePostType::REST ||
            p == StreetNamePostType::RIDGE,
    ensures
        post_type_of_alias(post_type_abbreviation(p)) == Some(p),
        post_type_of_abbreviation(post_type_abbreviation(p)) == Some(p),
{
    lemma_post_type_literals_a0();
    lemma_post_type_literals_b0();
    lemma_post_type_literals_b1();
    lemma_post_type_literals_c0();
    lemma_post_type_literals_c1();
    lemma_post_type_literals_c2();
    lemma_post_type_literals_x0();
    lemma_post_type_literals_d0();
    lemma_post_type_literals_e0();
    lemma_post_type_literals_f0();
    lemma_post_type_literals_f1();
    lemma_post_type_literals_g0();
    lemma_post_type_literals_h0();
    lemma_post_type_literals_i0();
    lemma_post_type_literals_j0();
    lemma_post_type_literals_k0();
    lemma_post_type_literals_l0();
    lemma_post_type_literals_l1();
    lemma_post_type_literals_m0();
    lemma_post_type_literals_m1();
    lemma_post_type_literals_n0();
    lemma_post_type_literals_o0();
    lemma_post_type_literals_p0();
    lemma_post_type_literals_p1();
    lemma_post_type_literals_r0();
    lemma_post_type_literals_r1();
    lemma_post_type_literals_s0();
    lemma_post_type_literals_s1();
    lemma_post_type_literals_t0();
    lemma_post_type_literals_u0();
    lemma_post_type_literals_v0();
    lemma_post_type_literals_w0();
    let a = post_type_abbreviation(p);
    match p {
        StreetNamePostType::PINES => {
            assert(post_type_of_alias(a) == Some(p));
            assert(post_type_of_abbreviation(a) == Some(p));
        }
        StreetNamePostType::PLACE => {
            assert(post_type_of_alias(a) == Some(p));
            assert(post_type_of_abbreviation(a) == Some(p));
        }
        StreetNamePostType::PLAIN => {
            assert(post_type_of_alias(a) == Some(p));
            assert(post_type_of_abbreviation(a) == Some(p));
        }
        StreetNamePostType::PLAINS => {
            assert(post_type_of_alias(a) == Some(p));
            assert(post_type_of_abbreviation(a) == Some(p));
        }
        StreetNamePostType::PLAZA => {
            assert(post_type_of_alias(a) == Some(p));
            assert(post_type_of_abbreviation(a) == Some(p));
        }
        StreetNamePostType::POINT => {
            assert(post_type_of_alias(a) == Some(p));
            assert(post_type_of_abbreviation(a) == Some(p));
        }
        StreetNamePostType::POINTS => {
            assert(post_type_of_alias(a) == Some(p));
            assert(post_type_of_abbreviation(a) == Some(p));
        }
        StreetNamePostType::PORT => {
            assert(post_type_of_alias(a) == Some(p));
            assert(post_type_of_abbreviation(a) == Some(p));
        }
        StreetNamePostType::PORTS => {
            assert(post_type_of_alias(a) == Some(p));
            assert(post_type_of_abbreviation(a) == Some(p));
        }
        StreetNamePostType::PRAIRIE => {
            assert(post_type_of_alias(a) == Some(p));
            assert(post_type_of_abbreviation(a) == Some(p));
        }
        StreetNamePostType::RADIAL => {
            assert(post_type_of_alias(a) == Some(p));
            assert(post_type_of_abbreviation(a) == Some(p));
        }
        StreetNamePostType::RAMP => {
            assert(post_type_of_alias(a) == Some(p));
            assert(post_type_of_abbreviation(a) == Some(p));
        }
        StreetNamePostType::RANCH => {
            assert(post_type_of_alias(a) == Some(p));
            assert(post_type_of_abbreviation(a) == Some(p));
        }
        StreetNamePostType::RAPID => {
            assert(post_type_of_alias(a) == Some(p));
            assert(post_type_of_abbreviation(a) == Some(p));
        }
        StreetNamePostType::RAPIDS => {
            assert(post_type_of_alias(a) == Some(p));
            assert(post_type_of_abbreviation(a) == Some(p));
        }
        StreetNamePostType::REST => {
            assert(post_type_of_alias(a) == Some(p));
            assert(post_type_of_abbreviation(a) == Some(p));
        }
        StreetNamePostType::RIDGE => {
            assert(post_type_of_alias(a) == Some(p));
            assert(post_type_of_abbreviation(a) == Some(p));
        }
        _ => {}
    }
}

/// The round trip for one part of the post types.
proof fn lemma_post_type_round_trip_9(p: StreetNamePostType)
    requires
        p == StreetNamePostType::RIDGES || p == StreetNamePostType::RIVER ||
            p == StreetNamePostType::ROAD || p == StreetNamePostType::ROADS ||
            p == StreetNamePostType::ROUTE || p == StreetNamePostType::ROW ||
            p == StreetNamePostType::RUE || p == StreetNamePostType::RUN ||
            p == StreetNamePostType::SHOAL || p == StreetNamePostType::SHOALS ||
            p == StreetNamePostType::SHORE || p == StreetNamePostType::SHORES ||
            p == StreetNamePostType::SKYWAY || p == StreetNamePostType::SPRING ||
            p == StreetNamePostType::SPRINGS || p == StreetNamePostType::SPUR ||
            p == StreetNamePostType::SQUARE,
    ensures
        post_type_of_alias(post_type_abbreviation(p)) == Some(p),
        post_type_of_abbreviation(post_type_abbreviation(p)) == Some(p),
{
    lemma_post_type_literals_a0();
    lemma_post_type_literals_b0();
    lemma_post_type_literals_b1();
    lemma_post_type_literals_c0();
    lemma_post_type_literals_c1();
    lemma_post_type_literals_c2();
    lemma_post_type_literals_x0();
    lemma_post_type_literals_d0();
    lemma_post_type_literals_e0();
    lemma_post_type_literals_f0();
    lemma_post_type_literals_f1();
    lemma_post_type_literals_g0();
    lemma_post_type_literals_h0();
    lemma_post_type_literals_i0();
    lemma_post_type_literals_j0();
    lemma_post_type_literals_k0();
    lemma_post_type_literals_l0();
    lemma_post_type_literals_l1();
    lemma_post_type_literals_m0();
    lemma_post_type_literals_m1();
    lemma_post_type_literals_n0();
    lemma_post_type_literals_o0();
    lemma_post_type_literals_p0();
    lemma_post_type_literals_p1();
    lemma_post_type_literals_r0();
    lemma_post_type_literals_r1();
    lemma_post_type_literals_s0();
    lemma_post_type_literals_s1();
    lemma_post_type_literals_t0();
    lemma_post_type_literals_u0();
    lemma_post_type_literals_v0();
    lemma_post_type_literals_w0();
    let a = post_type_abbreviation(p);
    match p {
        StreetNamePostType::RIDGES => {
            assert(post_type_of_alias(a) == Some(p));
            assert(post_type_of_abbreviation(a) == Some(p));
        }
        StreetNamePostType::RIVER => {
            assert(post_type_of_alias(a) == Some(p));
            assert(post_type_of_abbreviation(a) == Some(p));
        }
        StreetNamePostType::ROAD => {
            assert(post_type_of_alias(a) == Some(p));
            assert(post_type_of_abbreviation(a) == Some(p));
        }
        StreetNamePostType::ROADS => {
            assert(post_type_of_alias(a) == Some(p));
            assert(post_type_of_abbreviation(a) == Some(p));
        }
        StreetNamePostType::ROUTE => {
            assert(post_type_of_alias(a) == Some(p));
            assert(post_type_of_abbreviation(a) == Some(p));
        }
        StreetNamePostType::ROW => {
            assert(post_type_of_alias(a) == Some(p));
            assert(post_type_of_abbreviation(a) == Some(p));
        }
        StreetNamePostType::RUE => {
            assert(post_type_of_alias(a) == Some(p));
            assert(post_type_of_abbreviation(a) == Some(p));
        }
        StreetNamePostType::RUN => {
            assert(post_type_of_alias(a) == Some(p));
            assert(post_type_of_abbreviation(a) == Some(p));
        }
        StreetNamePostType::SHOAL => {
            assert(post_type_of_alias(a) == Some(p));
            assert(post_type_of_abbreviation(a) == Some(p));
        }
        StreetNamePostType::SHOALS => {
            assert(post_type_of_alias(a) == Some(p));
            assert(post_type_of_abbreviation(a) == Some(p));
        }
        StreetNamePostType::SHORE => {
            assert(post_type_of_alias(a) == Some(p));
            assert(post_type_of_abbreviation(a) == Some(p));
        }
        StreetNamePostType::SHORES => {
            assert(post_type_of_alias(a) == Some(p));
            assert(post_type_of_abbreviation(a) == Some(p));
        }
        StreetNamePostType::SKYWAY => {
            assert(post_type_of_alias(a) == Some(p));
            assert(post_type_of_abbreviation(a) == Some(p));
        }
        StreetNamePostType::SPRING => {
            assert(post_type_of_alias(a) == Some(p));
            assert(post_type_of_abbreviation(a) == Some(p));
        }
        StreetNamePostType::SPRINGS => {
            assert(post_type_of_alias(a) == Some(p));
            assert(post_type_of_abbreviation(a) == Some(p));
        }
        StreetNamePostType::SPUR => {
            assert(post_type_of_alias(a) == Some(p));
            assert(post_type_of_abbreviation(a) == Some(p));
        }
        StreetNamePostType::SQUARE => {
            assert(post_type_of_alias(a) == Some(p));
            assert(post_type_of_abbreviation(a) == Some(p));
        }
        _ => {}
    }
}

/// The round trip for one part of the post types.
proof fn lemma_post_type_round_trip_10(p: StreetNamePostType)
    requires
        p == StreetNamePostType::SQUARES || p == StreetNamePostType::STATION ||
            p == StreetNamePostType::STRAVENUE || p == StreetNamePostType::STREAM ||
            p == StreetNamePostType::STREET || p == StreetNamePostType::STREETS ||
            p == StreetNamePostType::SUMMIT || p == StreetNamePostType::TERRACE ||
            p == StreetNamePostType::THROUGHWAY || p == StreetNamePostType::TRACE ||
            p == StreetNamePostType::TRACK || p == StreetNamePostType::TRAFFICWAY ||
            p == StreetNamePostType::TRAIL || p == StreetNamePostType::TRAILER ||
            p == StreetNamePostType::TUNNEL || p == StreetNamePostType::TURNPIKE ||
            p == StreetNamePostType::UNDERPASS,
    ensures
        post_type_of_alias(post_type_abbreviation(p)) == Some(p),
        post_type_of_abbreviation(post_type_abbreviation(p)) == Some(p),
{
    lemma_post_type_literals_a0();
    lemma_post_type_literals_b0();
    lemma_post_type_literals_b1();
    lemma_post_type_literals_c0();
    lemma_post_type_literals_c1();
    lemma_post_type_literals_c2();
    lemma_post_type_literals_x0();
    lemma_post_type_literals_d0();
    lemma_post_type_literals_e0();
    lemma_post_type_literals_f0();
    lemma_post_type_literals_f1();
    lemma_post_type_literals_g0();
    lemma_post_type_literals_h0();
    lemma_post_type_literals_i0();
    lemma_post_type_literals_j0();
    lemma_post_type_literals_k0();
    lemma_post_type_literals_l0();
    lemma_post_type_literals_l1();
    lemma_post_type_literals_m0();
    lemma_post_type_literals_m1();
    lemma_post_type_literals_n0();
    lemma_post_type_literals_o0();
    lemma_post_type_literals_p0();
    lemma_post_type_literals_p1();
    lemma_post_type_literals_r0();
    lemma_post_type_literals_r1();
    lemma_post_type_literals_s0();
    lemma_post_type_literals_s1();
    lemma_post_type_literals_t0();
    lemma_post_type_literals_u0();
    lemma_post_type_literals_v0();
    lemma_post_type_literals_w0();
    let a = post_type_abbreviation(p);
    match p {
        StreetNamePostType::SQUARES => {
            assert(post_type_of_alias(a) == Some(p));
            assert(post_type_of_abbreviation(a) == Some(p));
        }
        StreetNamePostType::STATION => {
            assert(post_type_of_alias(a) == Some(p));
            assert(post_type_of_abbreviation(a) == Some(p));
        }
        StreetNamePostType::STRAVENUE => {
            assert(post_type_of_alias(a) == Some(p));
            assert(post_type_of_abbreviation(a) == Some(p));
        }
        StreetNamePostType::STREAM => {
            assert(post_type_of_alias(a) == Some(p));
            assert(post_type_of_abbreviation(a) == Some(p));
        }
        StreetNamePostType::STREET => {
            assert(post_type_of_alias(a) == Some(p));
            assert(post_type_of_abbreviation(a) == Some(p));
        }
        StreetNamePostType::STREETS => {
            assert(post_type_of_alias(a) == Some(p));
            assert(post_type_of_abbreviation(a) == Some(p));
        }
        StreetNamePostType::SUMMIT => {
            assert(post_type_of_alias(a) == Some(p));
            assert(post_type_of_abbreviation(a) == Some(p));
        }
        StreetNamePostType::TERRACE => {
            assert(post_type_of_alias(a) == Some(p));
            assert(post_type_of_abbreviation(a) == Some(p));
        }
        StreetNamePostType::THROUGHWAY => {
            assert(post_type_of_alias(a) == Some(p));
            assert(post_type_of_abbreviation(a) == Some(p));
        }
        StreetNamePostType::TRACE => {
            assert(post_type_of_alias(a) == Some(p));
            assert(post_type_of_abbreviation(a) == Some(p));
        }
        StreetNamePostType::TRACK => {
            assert(post_type_of_alias(a) == Some(p));
            assert(post_type_of_abbreviation(a) == Some(p));
        }
        StreetNamePostType::TRAFFICWAY => {
            assert(post_type_of_alias(a) == Some(p));
            assert(post_type_of_abbreviation(a) == Some(p));
        }
        StreetNamePostType::TRAIL => {
            assert(post_type_of_alias(a) == Some(p));
            assert(post_type_of_abbreviation(a) == Some(p));
        }
        StreetNamePostType::TRAILER => {
            assert(post_type_of_alias(a) == Some(p));
            assert(post_type_of_abbreviation(a) == Some(p));
        }
        StreetNamePostType::TUNNEL => {
            assert(post_type_of_alias(a) == Some(p));
            assert(post_type_of_abbreviation(a) == Some(p));
        }
        StreetNamePostType::TURNPIKE => {
            assert(post_type_of_alias(a) == Some(p));
            assert(post_type_of_abbreviation(a) == Some(p));
        }
        StreetNamePostType::UNDERPASS => {
            assert(post_type_of_alias(a) == Some(p));
            assert(post_type_of_abbreviation(a) == Some(p));
        }
        _ => {}
    }
}

/// The round trip for one part of the post types.
proof fn lemma_post_type_round_trip_11(p: StreetNamePostType)
    requires
        p == StreetNamePostType::UNION || p == StreetNamePostType::UNIONS ||
            p == StreetNamePostType::VALLEY || p == StreetNamePostType::VALLEYS ||
            p == StreetNamePostType::VIADUCT || p == StreetNamePostType::VIEW ||
            p == StreetNamePostType::VIEWS || p == StreetNamePostType::VILLAGE ||
            p == StreetNamePostType::VILLAGES || p == StreetNamePostType::VILLE ||
            p == StreetNamePostType::VISTA || p == StreetNamePostType::WALK ||
            p == StreetNamePostType::WALL || p == StreetNamePostType::WAY ||
            p == StreetNamePostType::WAYS || p == StreetNamePostType::WELL ||
            p == StreetNamePostType::WELLS,
    ensures
        post_type_of_alias(post_type_abbreviation(p)) == Some(p),
        post_type_of_abbreviation(post_type_abbreviation(p)) == Some(p),
{
    lemma_post_type_literals_a0();
    lemma_post_type_literals_b0();
    lemma_post_type_literals_b1();
    lemma_post_type_literals_c0();
    lemma_post_type_literals_c1();
    lemma_post_type_literals_c2();
    lemma_post_type_literals_x0();
    lemma_post_type_literals_d0();
    lemma_post_type_literals_e0();
    lemma_post_type_literals_f0();
    lemma_post_type_literals_f1();
    lemma_post_type_literals_g0();
    lemma_post_type_literals_h0();
    lemma_post_type_literals_i0();
    lemma_post_type_literals_j0();
    lemma_post_type_literals_k0();
    lemma_post_type_literals_l0();
    lemma_post_type_literals_l1();
    lemma_post_type_literals_m0();
    lemma_post_type_literals_m1();
    lemma_post_type_literals_n0();
    lemma_post_type_literals_o0();
    lemma_post_type_literals_p0();
    lemma_post_type_literals_p1();
    lemma_post_type_literals_r0();
    lemma_post_type_literals_r1();
    lemma_post_type_literals_s0();
    lemma_post_type_literals_s1();
    lemma_post_type_literals_t0();
    lemma_post_type_literals_u0();
    lemma_post_type_literals_v0();
    lemma_post_type_literals_w0();
    let a = post_type_abbreviation(p);
    match p {
        StreetNamePostType::UNION => {
            assert(post_type_of_alias(a) == Some(p));
            assert(post_type_of_abbreviation(a) == Some(p));
        }
        StreetNamePostType::UNIONS => {
            assert(post_type_of_alias(a) == Some(p));
            assert(post_type_of_abbreviation(a) == Some(p));
        }
        StreetNamePostType::VALLEY => {
            assert(post_type_of_alias(a) == Some(p));
            assert(post_type_of_abbreviation(a) == Some(p));
        }
        StreetNamePostType::VALLEYS => {
            assert(post_type_of_alias(a) == Some(p));
            assert(post_type_of_abbreviation(a) == Some(p));
        }
        StreetNamePostType::VIADUCT => {
            assert(post_type_of_alias(a) == Some(p));
            assert(post_type_of_abbreviation(a) == Some(p));
        }
        StreetNamePostType::VIEW => {
            assert(post_type_of_alias(a) == Some(p));
            assert(post_type_of_abbreviation(a) == Some(p));
        }
        StreetNamePostType::VIEWS => {
            assert(post_type_of_alias(a) == Some(p));
            assert(post_type_of_abbreviation(a) == Some(p));
        }
        StreetNamePostType::VILLAGE => {
            assert(post_type_of_alias(a) == Some(p));
            assert(post_type_of_abbreviation(a) == Some(p));
        }
        StreetNamePostType::VILLAGES => {
            assert(post_type_of_alias(a) == Some(p));
            assert(post_type_of_abbreviation(a) == Some(p));
        }
        StreetNamePostType::VILLE => {
            assert(post_type_of_alias(a) == Some(p));
            assert(post_type_of_abbreviation(a) == Some(p));
        }
        StreetNamePostType::VISTA => {
            assert(post_type_of_alias(a) == Some(p));
            assert(post_type_of_abbreviation(a) == Some(p));
        }
        StreetNamePostType::WALK => {
            assert(post_type_of_alias(a) == Some(p));
            assert(post_type_of_abbreviation(a) == Some(p));
        }
        StreetNamePostType::WALL => {
            assert(post_type_of_alias(a) == Some(p));
            assert(post_type_of_abbreviation(a) == Some(p));
        }
        StreetNamePostType::WAY => {
            assert(post_type_of_alias(a) == Some(p));
            assert(post_type_of_abbreviation(a) == Some(p));
        }
        StreetNamePostType::WAYS => {
            assert(post_type_of_alias(a) == Some(p));
            assert(post_type_of_abbreviation(a) == Some(p));
        }
        StreetNamePostType::WELL => {
            assert(post_type_of_alias(a) == Some(p));
            assert(post_type_of_abbreviation(a) == Some(p));
        }
        StreetNamePostType::WELLS => {
            assert(post_type_of_alias(a) == Some(p));
            assert(post_type_of_abbreviation(a) == Some(p));
        }
        _ => {}
    }
}

/// Every post type is recognized from its own postal abbreviation, by both matchers.
pub proof fn lemma_post_type_round_trip(p: StreetNamePostType)
    ensures
        recognize_post_type(post_type_abbreviation(p)) == Some(p),
        post_type_of_abbreviation(post_type_abbreviation(p)) == Some(p),
{
    lemma_post_type_literals_a0();
    lemma_post_type_literals_b0();
    lemma_post_type_literals_b1();
    lemma_post_type_literals_c0();
    lemma_post_type_literals_c1();
    lemma_post_type_literals_c2();
    lemma_post_type_literals_x0();
    lemma_post_type_literals_d0();
    lemma_post_type_literals_e0();
    lemma_post_type_literals_f0();
    lemma_post_type_literals_f1();
    lemma_post_type_literals_g0();
    lemma_post_type_literals_h0();
    lemma_post_type_literals_i0();
    lemma_post_type_literals_j0();
    lemma_post_type_literals_k0();
    lemma_post_type_literals_l0();
    lemma_post_type_literals_l1();
    lemma_post_type_literals_m0();
    lemma_post_type_literals_m1();
    lemma_post_type_literals_n0();
    lemma_post_type_literals_o0();
    lemma_post_type_literals_p0();
    lemma_post_type_literals_p1();
    lemma_post_type_literals_r0();
    lemma_post_type_literals_r1();
    lemma_post_type_literals_s0();
    lemma_post_type_literals_s1();
    lemma_post_type_literals_t0();
    lemma_post_type_literals_u0();
    lemma_post_type_literals_v0();
    lemma_post_type_literals_w0();
    let a = post_type_abbreviation(p);
    assert(upper(a) =~= a);
    match p {
        StreetNamePostType::ALLEY => lemma_post_type_round_trip_0(p),
        StreetNamePostType::ANEX => lemma_post_type_round_trip_0(p),
        StreetNamePostType::ARCADE => lemma_post_type_round_trip_0(p),
        StreetNamePostType::AVENUE => lemma_post_type_round_trip_0(p),
        StreetNamePostType::BAYOU => lemma_post_type_round_trip_0(p),
        StreetNamePostType::BEACH => lemma_post_type_round_trip_0(p),
        StreetNamePostType::BEND => lemma_post_type_round_trip_0(p),
        StreetNamePostType::BLUFF => lemma_post_type_round_trip_0(p),
        StreetNamePostType::BLUFFS => lemma_post_type_round_trip_0(p),
        StreetNamePostType::BOTTOM => lemma_post_type_round_trip_0(p),
        StreetNamePostType::BOULEVARD => lemma_post_type_round_trip_0(p),
        StreetNamePostType::BRANCH => lemma_post_type_round_trip_0(p),
        StreetNamePostType::BRIDGE => lemma_post_type_round_trip_0(p),
        StreetNamePostType::BROOK => lemma_post_type_round_trip_0(p),
        StreetNamePostType::BROOKS => lemma_post_type_round_trip_0(p),
        StreetNamePostType::BURG => lemma_post_type_round_trip_0(p),
        StreetNamePostType::BURGS => lemma_post_type_round_trip_0(p),
        StreetNamePostType::BYPASS => lemma_post_type_round_trip_1(p),
        StreetNamePostType::CAMP => lemma_post_type_round_trip_1(p),
        StreetNamePostType::CANYON => lemma_post_type_round_trip_1(p),
        StreetNamePostType::CAPE => lemma_post_type_round_trip_1(p),
        StreetNamePostType::CAUSEWAY => lemma_post_type_round_trip_1(p),
        StreetNamePostType::CENTER => lemma_post_type_round_trip_1(p),
        StreetNamePostType::CENTERS => lemma_post_type_round_trip_1(p),
        StreetNamePostType::CIRCLE => lemma_post_type_round_trip_1(p),
        StreetNamePostType::CIRCLES => lemma_post_type_round_trip_1(p),
        StreetNamePostType::CLIFF => lemma_post_type_round_trip_1(p),
        StreetNamePostType::CLIFFS => lemma_post_type_round_trip_1(p),
        StreetNamePostType::CLUB => lemma_post_type_round_trip_1(p),
        StreetNamePostType::COMMON => lemma_post_type_round_trip_1(p),
        StreetNamePostType::COMMONS => lemma_post_type_round_trip_1(p),
        StreetNamePostType::CORNER => lemma_post_type_round_trip_1(p),
        StreetNamePostType::CORNERS => lemma_post_type_round_trip_1(p),
        StreetNamePostType::COURSE => lemma_post_type_round_trip_1(p),
        StreetNamePostType::COURT => lemma_post_type_round_trip_2(p),
        StreetNamePostType::COURTS => lemma_post_type_round_trip_2(p),
        StreetNamePostType::COVE => lemma_post_type_round_trip_2(p),
        StreetNamePostType::COVES => lemma_post_type_round_trip_2(p),
        StreetNamePostType::CREEK => lemma_post_type_round_trip_2(p),
        StreetNamePostType::CRESCENT => lemma_post_type_round_trip_2(p),
        StreetNamePostType::CREST => lemma_post_type_round_trip_2(p),
        StreetNamePostType::CROSSING => lemma_post_type_round_trip_2(p),
        StreetNamePostType::CROSSROAD => lemma_post_type_round_trip_2(p),
        StreetNamePostType::CROSSROADS => lemma_post_type_round_trip_2(p),
        StreetNamePostType::CURVE => lemma_post_type_round_trip_2(p),
        StreetNamePostType::CUTOFF => lemma_post_type_round_trip_2(p),
        StreetNamePostType::DALE => lemma_post_type_round_trip_2(p),
        StreetNamePostType::DAM => lemma_post_type_round_trip_2(p),
        StreetNamePostType::DIVIDE => lemma_post_type_round_trip_2(p),
        StreetNamePostType::DRIVE => lemma_post_type_round_trip_2(p),
        StreetNamePostType::DriveCutoff => lemma_post_type_round_trip_2(p),
        StreetNamePostType::DRIVES => lemma_post_type_round_trip_3(p),
        StreetNamePostType::ESTATE => lemma_post_type_round_trip_3(p),
        StreetNamePostType::ESTATES => lemma_post_type_round_trip_3(p),
        StreetNamePostType::EXPRESSWAY => lemma_post_type_round_trip_3(p),
        StreetNamePostType::EXTENSION => lemma_post_type_round_trip_3(p),
        StreetNamePostType::EXTENSIONS => lemma_post_type_round_trip_3(p),
        StreetNamePostType::FALL => lemma_post_type_round_trip_3(p),
        StreetNamePostType::FALLS => lemma_post_type_round_trip_3(p),
        StreetNamePostType::FERRY => lemma_post_type_round_trip_3(p),
        StreetNamePostType::FIELD => lemma_post_type_round_trip_3(p),
        StreetNamePostType::FIELDS => lemma_post_type_round_trip_3(p),
        StreetNamePostType::FLAT => lemma_post_type_round_trip_3(p),
        StreetNamePostType::FLATS => lemma_post_type_round_trip_3(p),
        StreetNamePostType::FORD => lemma_post_type_round_trip_3(p),
        StreetNamePostType::FORDS => lemma_post_type_round_trip_3(p),
        StreetNamePostType::FOREST => lemma_post_type_round_trip_3(p),
        StreetNamePostType::FORGE => lemma_post_type_round_trip_3(p),
        StreetNamePostType::FORGES => lemma_post_type_round_trip_4(p),
        StreetNamePostType::FORK => lemma_post_type_round_trip_4(p),
        StreetNamePostType::FORKS => lemma_post_type_round_trip_4(p),
        StreetNamePostType::FORT => lemma_post_type_round_trip_4(p),
        StreetNamePostType::FREEWAY => lemma_post_type_round_trip_4(p),
        StreetNamePostType::GARDEN => lemma_post_type_round_trip_4(p),
        StreetNamePostType::GARDENS => lemma_post_type_round_trip_4(p),
        StreetNamePostType::GATEWAY => lemma_post_type_round_trip_4(p),
        StreetNamePostType::GLEN => lemma_post_type_round_trip_4(p),
        StreetNamePostType::GLENS => lemma_post_type_round_trip_4(p),
        StreetNamePostType::GREEN => lemma_post_type_round_trip_4(p),
        StreetNamePostType::GREENS => lemma_post_type_round_trip_4(p),
        StreetNamePostType::GROVE => lemma_post_type_round_trip_4(p),
        StreetNamePostType::GROVES => lemma_post_type_round_trip_4(p),
        StreetNamePostType::HARBOR => lemma_post_type_round_trip_4(p),
        StreetNamePostType::HARBORS => lemma_post_type_round_trip_4(p),
        StreetNamePostType::HAVEN => lemma_post_type_round_trip_4(p),
        StreetNamePostType::HEIGHTS => lemma_post_type_round_trip_5(p),
        StreetNamePostType::HIGHWAY => lemma_post_type_round_trip_5(p),
        StreetNamePostType::HILL => lemma_post_type_round_trip_5(p),
        StreetNamePostType::HILLS => lemma_post_type_round_trip_5(p),
        StreetNamePostType::HOLLOW => lemma_post_type_round_trip_5(p),
        StreetNamePostType::INLET => lemma_post_type_round_trip_5(p),
        StreetNamePostType::ISLAND => lemma_post_type_round_trip_5(p),
        StreetNamePostType::ISLANDS => lemma_post_type_round_trip_5(p),
        StreetNamePostType::ISLE => lemma_post_type_round_trip_5(p),
        StreetNamePostType::JUNCTION => lemma_post_type_round_trip_5(p),
        StreetNamePostType::JUNCTIONS => lemma_post_type_round_trip_5(p),
        StreetNamePostType::KEY => lemma_post_type_round_trip_5(p),
        StreetNamePostType::KEYS => lemma_post_type_round_trip_5(p),
        StreetNamePostType::KNOLL => lemma_post_type_round_trip_5(p),
        StreetNamePostType::KNOLLS => lemma_post_type_round_trip_5(p),
        StreetNamePostType::LAKE => lemma_post_type_round_trip_5(p),
        StreetNamePostType::LAKES => lemma_post_type_round_trip_5(p),
        StreetNamePostType::LAND => lemma_post_type_round_trip_6(p),
        StreetNamePostType::LANDING => lemma_post_type_round_trip_6(p),
        StreetNamePostType::LANE => lemma_post_type_round_trip_6(p),
        StreetNamePostType::LIGHT => lemma_post_type_round_trip_6(p),
        StreetNamePostType::LIGHTS => lemma_post_type_round_trip_6(p),
        StreetNamePostType::LOAF => lemma_post_type_round_trip_6(p),
        StreetNamePostType::LOCK => lemma_post_type_round_trip_6(p),
        StreetNamePostType::LOCKS => lemma_post_type_round_trip_6(p),
        StreetNamePostType::LODGE => lemma_post_type_round_trip_6(p),
        StreetNamePostType::LOOP => lemma_post_type_round_trip_6(p),
        StreetNamePostType::MALL => lemma_post_type_round_trip_6(p),
        StreetNamePostType::MANOR => lemma_post_type_round_trip_6(p),
        StreetNamePostType::MANORS => lemma_post_type_round_trip_6(p),
        StreetNamePostType::MEADOW => lemma_post_type_round_trip_6(p),
        StreetNamePostType::MEADOWS => lemma_post_type_round_trip_6(p),
        StreetNamePostType::MEWS => lemma_post_type_round_trip_6(p),
        StreetNamePostType::MILL => lemma_post_type_round_trip_6(p),
        StreetNamePostType::MILLS => lemma_post_type_round_trip_7(p),
        StreetNamePostType::MISSION => lemma_post_type_round_trip_7(p),
        StreetNamePostType::MOTORWAY => lemma_post_type_round_trip_7(p),
        StreetNamePostType::MOUNT => lemma_post_type_round_trip_7(p),
        StreetNamePostType::MOUNTAIN => lemma_post_type_round_trip_7(p),
        StreetNamePostType::MOUNTAINS => lemma_post_type_round_trip_7(p),
        StreetNamePostType::NECK => lemma_post_type_round_trip_7(p),
        StreetNamePostType::ORCHARD => lemma_post_type_round_trip_7(p),
        StreetNamePostType::OVAL => lemma_post_type_round_trip_7(p),
        StreetNamePostType::OVERPASS => lemma_post_type_round_trip_7(p),
        StreetNamePostType::PARK => lemma_post_type_round_trip_7(p),
        StreetNamePostType::PARKWAY => lemma_post_type_round_trip_7(p),
        StreetNamePostType::PASS => lemma_post_type_round_trip_7(p),
        StreetNamePostType::PASSAGE => lemma_post_type_round_trip_7(p),
        StreetNamePostType::PATH => lemma_post_type_round_trip_7(p),
        StreetNamePostType::PIKE => lemma_post_type_round_trip_7(p),
        StreetNamePostType::PINE => lemma_post_type_round_trip_7(p),
        StreetNamePostType::PINES => lemma_post_type_round_trip_8(p),
        StreetNamePostType::PLACE => lemma_post_type_round_trip_8(p),
        StreetNamePostType::PLAIN => lemma_post_type_round_trip_8(p),
        StreetNamePostType::PLAINS => lemma_post_type_round_trip_8(p),
        StreetNamePostType::PLAZA => lemma_post_type_round_trip_8(p),
        StreetNamePostType::POINT => lemma_post_type_round_trip_8(p),
        StreetNamePostType::POINTS => lemma_post_type_round_trip_8(p),
        StreetNamePostType::PORT => lemma_post_type_round_trip_8(p),
        StreetNamePostType::PORTS => lemma_post_type_round_trip_8(p),
        StreetNamePostType::PRAIRIE => lemma_post_type_round_trip_8(p),
        StreetNamePostType::RADIAL => lemma_post_type_round_trip_8(p),
        StreetNamePostType::RAMP => lemma_post_type_round_trip_8(p),
        StreetNamePostType::RANCH => lemma_post_type_round_trip_8(p),
        StreetNamePostType::RAPID => lemma_post_type_round_trip_8(p),
        StreetNamePostType::RAPIDS => lemma_post_type_round_trip_8(p),
        StreetNamePostType::REST => lemma_post_type_round_trip_8(p),
        StreetNamePostType::RIDGE => lemma_post_type_round_trip_8(p),
        StreetNamePostType::RIDGES => lemma_post_type_round_trip_9(p),
        StreetNamePostType::RIVER => lemma_post_type_round_trip_9(p),
        StreetNamePostType::ROAD => lemma_post_type_round_trip_9(p),
        StreetNamePostType::ROADS => lemma_post_type_round_trip_9(p),
        StreetNamePostType::ROUTE => lemma_post_type_round_trip_9(p),
        StreetNamePostType::ROW => lemma_post_type_round_trip_9(p),
        StreetNamePostType::RUE => lemma_post_type_round_trip_9(p),
        StreetNamePostType::RUN => lemma_post_type_round_trip_9(p),
        StreetNamePostType::SHOAL => lemma_post_type_round_trip_9(p),
        StreetNamePostType::SHOALS => lemma_post_type_round_trip_9(p),
        StreetNamePostType::SHORE => lemma_post_type_round_trip_9(p),
        StreetNamePostType::SHORES => lemma_post_type_round_trip_9(p),
        StreetNamePostType::SKYWAY => lemma_post_type_round_trip_9(p),
        StreetNamePostType::SPRING => lemma_post_type_round_trip_9(p),
        StreetNamePostType::SPRINGS => lemma_post_type_round_trip_9(p),
        StreetNamePostType::SPUR => lemma_post_type_round_trip_9(p),
        StreetNamePostType::SQUARE => lemma_post_type_round_trip_9(p),
        StreetNamePostType::SQUARES => lemma_post_type_round_trip_10(p),
        StreetNamePostType::STATION => lemma_post_type_round_trip_10(p),
        StreetNamePostType::STRAVENUE => lemma_post_type_round_trip_10(p),
        StreetNamePostType::STREAM => lemma_post_type_round_trip_10(p),
        StreetNamePostType::STREET => lemma_post_type_round_trip_10(p),
        StreetNamePostType::STREETS => lemma_post_type_round_trip_10(p),
        StreetNamePostType::SUMMIT => lemma_post_type_round_trip_10(p),
        StreetNamePostType::TERRACE => lemma_post_type_round_trip_10(p),
        StreetNamePostType::THROUGHWAY => lemma_post_type_round_trip_10(p),
        StreetNamePostType::TRACE => lemma_post_type_round_trip_10(p),
        StreetNamePostType::TRACK => lemma_post_type_round_trip_10(p),
        StreetNamePostType::TRAFFICWAY => lemma_post_type_round_trip_10(p),
        StreetNamePostType::TRAIL => lemma_post_type_round_trip_10(p),
        StreetNamePostType::TRAILER => lemma_post_type_round_trip_10(p),
        StreetNamePostType::TUNNEL => lemma_post_type_round_trip_10(p),
        StreetNamePostType::TURNPIKE => lemma_post_type_round_trip_10(p),
        StreetNamePostType::UNDERPASS => lemma_post_type_round_trip_10(p),
        StreetNamePostType::UNION => lemma_post_type_round_trip_11(p),
        StreetNamePostType::UNIONS => lemma_post_type_round_trip_11(p),
        StreetNamePostType::VALLEY => lemma_post_type_round_trip_11(p),
        StreetNamePostType::VALLEYS => lemma_post_type_round_trip_11(p),
        StreetNamePostType::VIADUCT => lemma_post_type_round_trip_11(p),
        StreetNamePostType::VIEW => lemma_post_type_round_trip_11(p),
        StreetNamePostType::VIEWS => lemma_post_type_round_trip_11(p),
        StreetNamePostType::VILLAGE => lemma_post_type_round_trip_11(p),
        StreetNamePostType::VILLAGES => lemma_post_type_round_trip_11(p),
        StreetNamePostType::VILLE => lemma_post_type_round_trip_11(p),
        StreetNamePostType::VISTA => lemma_post_type_round_trip_11(p),
        StreetNamePostType::WALK => lemma_post_type_round_trip_11(p),
        StreetNamePostType::WALL => lemma_post_type_round_trip_11(p),
        StreetNamePostType::WAY => lemma_post_type_round_trip_11(p),
        StreetNamePostType::WAYS => lemma_post_type_round_trip_11(p),
        StreetNamePostType::WELL => lemma_post_type_round_trip_11(p),
        StreetNamePostType::WELLS => lemma_post_type_round_trip_11(p),
    }
}

/// Recognition ignores the case of ASCII letters: a spelling and its upper-case form are
/// recognized alike, and every spelling whose upper-case form is listed is recognized as the
/// listed post type.
pub proof fn lemma_post_type_case_insensitive(a: Seq<char>)
    ensures
        recognize_post_type(upper(a)) == recognize_post_type(a),
        recognize_post_type(a) == post_type_of_alias(upper(a)),
{
    lemma_upper_idempotent(a);
}

/// Every listed spelling of a post type is recognized as it stands.
#[verifier::rlimit(100)]
pub proof fn lemma_post_type_aliases(a: Seq<char>)
    requires
        post_type_of_alias(a) is Some,
    ensures
        recognize_post_type(a) == post_type_of_alias(a),
{
    lemma_post_type_literals_a0();
    lemma_post_type_literals_b0();
    lemma_post_type_literals_b1();
    lemma_post_type_literals_c0();
    lemma_post_type_literals_c1();
    lemma_post_type_literals_c2();
    lemma_post_type_literals_x0();
    lemma_post_type_literals_d0();
    lemma_post_type_literals_e0();
    lemma_post_type_literals_f0();
    lemma_post_type_literals_f1();
    lemma_post_type_literals_g0();
    lemma_post_type_literals_h0();
    lemma_post_type_literals_i0();
    lemma_post_type_literals_j0();
    lemma_post_type_literals_k0();
    lemma_post_type_literals_l0();
    lemma_post_type_literals_l1();
    lemma_post_type_literals_m0();
    lemma_post_type_literals_m1();
    lemma_post_type_literals_n0();
    lemma_post_type_literals_o0();
    lemma_post_type_literals_p0();
    lemma_post_type_literals_p1();
    lemma_post_type_literals_r0();
    lemma_post_type_literals_r1();
    lemma_post_type_literals_s0();
    lemma_post_type_literals_s1();
    lemma_post_type_literals_t0();
    lemma_post_type_literals_u0();
    lemma_post_type_literals_v0();
    lemma_post_type_literals_w0();
    assert(upper(a) =~= a);
}

} // verus!
