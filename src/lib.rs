//! Normalizes free-text street addresses into structured addresses, and decides whether two
//! structured addresses refer to the same place.
pub mod address;
pub mod addresses;
pub mod compare;
pub mod directional;
pub mod parser;
pub mod post_type;
pub mod subaddress;
pub mod text;

pub use address::{AddressStatus, CommonAddress, PartialAddress, PartialAddresses};
pub use addresses::{AddressField, CommonAddresses};
pub use compare::{
    AddressMatch, MatchFilter, MatchPartialRecord, MatchPartialRecords, MatchRecord, MatchRecords,
    MatchStatus, Mismatch, MismatchField,
};
pub use directional::StreetNamePreDirectional;
pub use parser::{parse_address, ParseError};
pub use post_type::{match_abbreviated_post_type, match_mixed_post_type, StreetNamePostType};
pub use subaddress::SubaddressType;
