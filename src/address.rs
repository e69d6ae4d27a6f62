//! Structured addresses: the full form, whose number and street name are always known, and the
//! partial form, in which any component may be unknown.
use vstd::prelude::*;
use crate::directional::{directional_abbreviation, directional_name, StreetNamePreDirectional};
use crate::post_type::{post_type_abbreviation, post_type_name, StreetNamePostType};
use crate::subaddress::{subaddress_abbreviation, subaddress_name, SubaddressType};
use crate::text::{append_str, int_text, int_to_text, opt_copy, opt_view, string_of};

verus! {

/// The local status of an address, as set by the address authority.
#[derive(Clone, Copy, Debug, PartialEq, Eq, Structural, PartialOrd, Ord, Hash)]
pub enum AddressStatus {
    Active,
    Pending,
    Retired,
    Temporary,
    Virtual,
    Other,
}

/// The name of a status.
pub open spec fn status_name(s: AddressStatus) -> Seq<char> {
    match s {
        AddressStatus::Active => "Active"@,
        AddressStatus::Pending => "Pending"@,
        AddressStatus::Retired => "Retired"@,
        AddressStatus::Temporary => "Temporary"@,
        AddressStatus::Virtual => "Virtual"@,
        AddressStatus::Other => "Other"@,
    }
}

impl AddressStatus {
    /// The name of the status.
    pub fn name(&self) -> (r: String)
        ensures
            r@ == status_name(*self),
    {
        let text = match self {
            AddressStatus::Active => "Active",
            AddressStatus::Pending => "Pending",
            AddressStatus::Retired => "Retired",
            AddressStatus::Temporary => "Temporary",
            AddressStatus::Virtual => "Virtual",
            AddressStatus::Other => "Other",
        };
        text.to_owned()
    }
}

/// A fully structured address, following the FGDC address components, with the NENA floor and
/// building fields. The address number and the street name are always present.
#[derive(Clone, Debug)]
pub struct CommonAddress {
    pub number: i64,
    pub number_suffix: Option<String>,
    pub directional: Option<StreetNamePreDirectional>,
    pub pre_modifier: Option<String>,
    pub pre_type: Option<String>,
    pub separator: Option<String>,
    pub street_name: String,
    pub street_type: Option<StreetNamePostType>,
    pub subaddress_type: Option<SubaddressType>,
    pub subaddress_id: Option<String>,
    pub floor: Option<i64>,
    pub building: Option<String>,
    pub zip: i64,
    pub postal_community: String,
    pub state: String,
    pub status: AddressStatus,
}

/// An optional word followed by a space, or nothing.
pub open spec fn opt_word(o: Option<String>) -> Seq<char> {
    match o {
        Some(s) => s@ + seq![' '],
        None => Seq::empty(),
    }
}

/// A directional as written in a complete street name.
pub open spec fn directional_text(d: StreetNamePreDirectional, abbreviate: bool) -> Seq<char> {
    if abbreviate {
        directional_abbreviation(d)
    } else {
        directional_name(d)
    }
}

/// A post type as written in a complete street name.
pub open spec fn post_type_text(p: StreetNamePostType, abbreviate: bool) -> Seq<char> {
    if abbreviate {
        post_type_abbreviation(p)
    } else {
        post_type_name(p)
    }
}

/// The complete street name: directional, pre-modifier, pre-type, separator, street name and
/// post type, those present, separated by spaces.
pub open spec fn complete_street_name_of(a: CommonAddress, abbreviate: bool) -> Seq<char> {
    (match a.directional {
        Some(d) => directional_text(d, abbreviate) + seq![' '],
        None => Seq::empty(),
    }) + opt_word(a.pre_modifier) + opt_word(a.pre_type) + opt_word(a.separator) + a.street_name@
        + (match a.street_type {
        Some(p) => seq![' '] + post_type_text(p, abbreviate),
        None => Seq::empty(),
    })
}

/// The complete address number: the number, then its suffix if any.
pub open spec fn complete_number_of(number: i64, suffix: Option<String>) -> Seq<char> {
    match suffix {
        Some(s) => int_text(number as int) + seq![' '] + s@,
        None => int_text(number as int),
    }
}

/// The complete subaddress: type and identifier, a `#` before an identifier without a type,
/// or the type alone.
pub open spec fn complete_subaddress_of(a: CommonAddress) -> Option<Seq<char>> {
    match a.subaddress_id {
        Some(id) => match a.subaddress_type {
            Some(t) => Some(subaddress_abbreviation(t) + seq![' '] + id@),
            None => Some(seq!['#'] + id@),
        },
        None => match a.subaddress_type {
            Some(t) => Some(subaddress_abbreviation(t)),
            None => None,
        },
    }
}

/// The label of an address: complete address number, abbreviated complete street name, and the
/// complete subaddress or, when there is none, the building.
pub open spec fn label_of(a: CommonAddress) -> Seq<char> {
    let head = complete_number_of(a.number, a.number_suffix) + seq![' '] + complete_street_name_of(
        a,
        true,
    );
    match complete_subaddress_of(a) {
        Some(sub) => head + seq![' '] + sub,
        None => match a.building {
            Some(b) => head + seq![' '] + "BLDG "@ + b@,
            None => head,
        },
    }
}

/// Appends an optional word and a space.
fn push_opt_word(out: &mut Vec<char>, o: &Option<String>)
    ensures
        final(out)@ == old(out)@ + opt_word(*o),
{
    if let Some(s) = o {
        append_str(out, s.as_str());
        out.push(' ');
    }
}

/// Appends the complete street name.
fn push_complete_street_name(out: &mut Vec<char>, a: &CommonAddress, abbreviate: bool)
    ensures
        final(out)@ == old(out)@ + complete_street_name_of(*a, abbreviate),
{
    let ghost start = out@;
    if let Some(d) = &a.directional {
        let text = if abbreviate {
            d.abbreviate()
        } else {
            d.name()
        };
        append_str(out, text.as_str());
        out.push(' ');
    }
    push_opt_word(out, &a.pre_modifier);
    push_opt_word(out, &a.pre_type);
    push_opt_word(out, &a.separator);
    append_str(out, a.street_name.as_str());
    if let Some(p) = &a.street_type {
        out.push(' ');
        let text = if abbreviate {
            p.abbreviate()
        } else {
            p.name()
        };
        append_str(out, text.as_str());
    }
    assert(out@ =~= start + complete_street_name_of(*a, abbreviate));
}

impl CommonAddress {
    /// A field-by-field copy.
    pub fn copy(&self) -> (r: Self)
        ensures
            r == *self,
    {
        CommonAddress {
            number: self.number,
            number_suffix: opt_copy(&self.number_suffix),
            directional: self.directional,
            pre_modifier: opt_copy(&self.pre_modifier),
            pre_type: opt_copy(&self.pre_type),
            separator: opt_copy(&self.separator),
            street_name: self.street_name.clone(),
            street_type: self.street_type,
            subaddress_type: self.subaddress_type,
            subaddress_id: opt_copy(&self.subaddress_id),
            floor: self.floor,
            building: opt_copy(&self.building),
            zip: self.zip,
            postal_community: self.postal_community.clone(),
            state: self.state.clone(),
            status: self.status,
        }
    }

    /// The complete street name, with abbreviated or full directional and post type.
    pub fn complete_street_name(&self, abbreviate: bool) -> (r: String)
        ensures
            r@ == complete_street_name_of(*self, abbreviate),
    {
        let mut out: Vec<char> = Vec::new();
        push_complete_street_name(&mut out, self, abbreviate);
        assert(out@ =~= complete_street_name_of(*self, abbreviate));
        string_of(out.as_slice())
    }

    /// The abbreviation of the directional, if there is one.
    pub fn directional_abbreviated(&self) -> (r: Option<String>)
        ensures
            r is Some <==> self.directional is Some,
            r is Some ==> r->0@ == directional_abbreviation(self.directional->0),
    {
        match &self.directional {
            Some(d) => Some(d.abbreviate()),
            None => None,
        }
    }

    /// The label used on maps and mailings, and as the identity of an address when looking for
    /// duplicates.
    pub fn label(&self) -> (r: String)
        ensures
            r@ == label_of(*self),
    {
        let mut out = int_to_text(self.number);
        if let Some(s) = &self.number_suffix {
            out.push(' ');
            append_str(&mut out, s.as_str());
        }
        out.push(' ');
        push_complete_street_name(&mut out, self, true);
        let ghost head = out@;
        assert(head =~= complete_number_of(self.number, self.number_suffix) + seq![' ']
            + complete_street_name_of(*self, true));
        match (&self.subaddress_id, &self.subaddress_type) {
            (Some(id), Some(t)) => {
                out.push(' ');
                append_str(&mut out, t.abbreviate().as_str());
                out.push(' ');
                append_str(&mut out, id.as_str());
            },
            (Some(id), None) => {
                out.push(' ');
                out.push('#');
                append_str(&mut out, id.as_str());
            },
            (None, Some(t)) => {
                out.push(' ');
                append_str(&mut out, t.abbreviate().as_str());
            },
            (None, None) => {
                if let Some(b) = &self.building {
                    out.push(' ');
                    append_str(&mut out, "BLDG ");
                    append_str(&mut out, b.as_str());
                }
            },
        }
        assert(out@ =~= label_of(*self));
        string_of(out.as_slice())
    }
}

/// An address in which any component may be unknown, as read from free text.
#[derive(Clone, Debug)]
pub struct PartialAddress {
    pub address_number: Option<i64>,
    pub address_number_suffix: Option<String>,
    pub street_name_pre_directional: Option<StreetNamePreDirectional>,
    pub pre_modifier: Option<String>,
    pub pre_type: Option<String>,
    pub separator: Option<String>,
    pub street_name: Option<String>,
    pub street_name_post_type: Option<StreetNamePostType>,
    pub subaddress_type: Option<SubaddressType>,
    pub subaddress_identifier: Option<String>,
    pub floor: Option<i64>,
    pub building: Option<String>,
    pub zip_code: Option<i64>,
    pub postal_community: Option<String>,
    pub state_name: Option<String>,
    pub status: Option<AddressStatus>,
}

/// Whether every component of `p` is unknown.
pub open spec fn is_unknown(p: PartialAddress) -> bool {
    &&& p.address_number is None
    &&& p.address_number_suffix is None
    &&& p.street_name_pre_directional is None
    &&& p.pre_modifier is None
    &&& p.pre_type is None
    &&& p.separator is None
    &&& p.street_name is None
    &&& p.street_name_post_type is None
    &&& p.subaddress_type is None
    &&& p.subaddress_identifier is None
    &&& p.floor is None
    &&& p.building is None
    &&& p.zip_code is None
    &&& p.postal_community is None
    &&& p.state_name is None
    &&& p.status is None
}

/// Whether two partial addresses hold the same components.
pub open spec fn same_partial(a: PartialAddress, b: PartialAddress) -> bool {
    &&& a.address_number == b.address_number
    &&& opt_view(a.address_number_suffix) == opt_view(b.address_number_suffix)
    &&& a.street_name_pre_directional == b.street_name_pre_directional
    &&& opt_view(a.pre_modifier) == opt_view(b.pre_modifier)
    &&& opt_view(a.pre_type) == opt_view(b.pre_type)
    &&& opt_view(a.separator) == opt_view(b.separator)
    &&& opt_view(a.street_name) == opt_view(b.street_name)
    &&& a.street_name_post_type == b.street_name_post_type
    &&& a.subaddress_type == b.subaddress_type
    &&& opt_view(a.subaddress_identifier) == opt_view(b.subaddress_identifier)
    &&& a.floor == b.floor
    &&& opt_view(a.building) == opt_view(b.building)
    &&& a.zip_code == b.zip_code
    &&& opt_view(a.postal_community) == opt_view(b.postal_community)
    &&& opt_view(a.state_name) == opt_view(b.state_name)
    &&& a.status == b.status
}

/// A space and an optional text, or nothing.
pub open spec fn spaced(o: Option<Seq<char>>) -> Seq<char> {
    match o {
        Some(s) => seq![' '] + s,
        None => Seq::empty(),
    }
}

/// The label of a partial address: the known components, in order, separated by spaces, with
/// the directional, post type and subaddress type written in full.
pub open spec fn partial_label_of(p: PartialAddress) -> Seq<char> {
    (match p.address_number {
        Some(n) => int_text(n as int),
        None => Seq::empty(),
    }) + spaced(opt_view(p.address_number_suffix)) + spaced(
        match p.street_name_pre_directional {
            Some(d) => Some(directional_name(d)),
            None => None,
        },
    ) + spaced(opt_view(p.street_name)) + spaced(
        match p.street_name_post_type {
            Some(t) => Some(post_type_name(t)),
            None => None,
        },
    ) + spaced(
        match p.subaddress_type {
            Some(t) => Some(subaddress_name(t)),
            None => None,
        },
    ) + spaced(opt_view(p.subaddress_identifier))
}

/// Appends a space and the text of `o`, if there is one.
fn push_opt_spaced(out: &mut Vec<char>, o: &Option<String>)
    ensures
        final(out)@ == old(out)@ + spaced(opt_view(*o)),
{
    let ghost start = out@;
    if let Some(s) = o {
        out.push(' ');
        append_str(out, s.as_str());
    }
    assert(out@ =~= start + spaced(opt_view(*o)));
}

impl PartialAddress {
    /// The unknown address: every component is absent.
    pub fn new() -> (r: Self)
        ensures
            is_unknown(r),
    {
        PartialAddress {
            address_number: None,
            address_number_suffix: None,
            street_name_pre_directional: None,
            pre_modifier: None,
            pre_type: None,
            separator: None,
            street_name: None,
            street_name_post_type: None,
            subaddress_type: None,
            subaddress_identifier: None,
            floor: None,
            building: None,
            zip_code: None,
            postal_community: None,
            state_name: None,
            status: None,
        }
    }

    pub fn address_number(&self) -> (r: Option<i64>)
        ensures
            r == self.address_number,
    {
        self.address_number
    }

    pub fn address_number_suffix(&self) -> (r: Option<String>)
        ensures
            r == self.address_number_suffix,
    {
        opt_copy(&self.address_number_suffix)
    }

    pub fn street_name_pre_directional(&self) -> (r: Option<StreetNamePreDirectional>)
        ensures
            r == self.street_name_pre_directional,
    {
        self.street_name_pre_directional
    }

    pub fn street_name(&self) -> (r: Option<String>)
        ensures
            r == self.street_name,
    {
        opt_copy(&self.street_name)
    }

    pub fn street_name_post_type(&self) -> (r: Option<StreetNamePostType>)
        ensures
            r == self.street_name_post_type,
    {
        self.street_name_post_type
    }

    pub fn subaddress_type(&self) -> (r: Option<SubaddressType>)
        ensures
            r == self.subaddress_type,
    {
        self.subaddress_type
    }

    pub fn subaddress_identifier(&self) -> (r: Option<String>)
        ensures
            r == self.subaddress_identifier,
    {
        opt_copy(&self.subaddress_identifier)
    }

    pub fn building(&self) -> (r: Option<String>)
        ensures
            r == self.building,
    {
        opt_copy(&self.building)
    }

    pub fn floor(&self) -> (r: Option<i64>)
        ensures
            r == self.floor,
    {
        self.floor
    }

    pub fn set_address_number(&mut self, value: i64)
        ensures
            *final(self) == (PartialAddress { address_number: Some(value), ..*old(self) }),
    {
        self.address_number = Some(value);
    }

    pub fn set_address_number_suffix(&mut self, value: Option<&str>)
        ensures
            final(self).address_number_suffix is Some <==> value is Some,
            value is Some ==> final(self).address_number_suffix->0@ == value->0@,
            *final(self) == (PartialAddress {
                address_number_suffix: final(self).address_number_suffix,
                ..*old(self)
            }),
    {
        if let Some(suffix) = value {
            self.address_number_suffix = Some(suffix.to_owned());
        } else {
            self.address_number_suffix = None;
        }
    }

    pub fn set_pre_directional(&mut self, value: &StreetNamePreDirectional)
        ensures
            *final(self) == (PartialAddress {
                street_name_pre_directional: Some(*value),
                ..*old(self)
            }),
    {
        self.street_name_pre_directional = Some(*value);
    }

    pub fn set_street_name(&mut self, value: &str)
        ensures
            final(self).street_name is Some,
            final(self).street_name->0@ == value@,
            *final(self) == (PartialAddress { street_name: final(self).street_name, ..*old(self) }),
    {
        self.street_name = Some(value.to_owned());
    }

    pub fn set_post_type(&mut self, value: &StreetNamePostType)
        ensures
            *final(self) == (PartialAddress { street_name_post_type: Some(*value), ..*old(self) }),
    {
        self.street_name_post_type = Some(*value);
    }

    pub fn set_subaddress_type(&mut self, value: &SubaddressType)
        ensures
            *final(self) == (PartialAddress { subaddress_type: Some(*value), ..*old(self) }),
    {
        self.subaddress_type = Some(*value);
    }

    pub fn set_subaddress_identifier(&mut self, value: &str)
        ensures
            final(self).subaddress_identifier is Some,
            final(self).subaddress_identifier->0@ == value@,
            *final(self) == (PartialAddress {
                subaddress_identifier: final(self).subaddress_identifier,
                ..*old(self)
            }),
    {
        self.subaddress_identifier = Some(value.to_owned());
    }

    /// The label of the known components.
    pub fn label(&self) -> (r: String)
        ensures
            r@ == partial_label_of(*self),
    {
        let mut out: Vec<char> = Vec::new();
        if let Some(n) = self.address_number {
            out = int_to_text(n);
        }
        let directional = match &self.street_name_pre_directional {
            Some(d) => Some(d.name()),
            None => None,
        };
        let post_type = match &self.street_name_post_type {
            Some(t) => Some(t.name()),
            None => None,
        };
        let subaddress_type = match &self.subaddress_type {
            Some(t) => Some(t.name()),
            None => None,
        };
        let ghost s0 = out@;
        push_opt_spaced(&mut out, &self.address_number_suffix);
        let ghost s1 = out@;
        push_opt_spaced(&mut out, &directional);
        let ghost s2 = out@;
        push_opt_spaced(&mut out, &self.street_name);
        let ghost s3 = out@;
        push_opt_spaced(&mut out, &post_type);
        let ghost s4 = out@;
        push_opt_spaced(&mut out, &subaddress_type);
        let ghost s5 = out@;
        push_opt_spaced(&mut out, &self.subaddress_identifier);
        assert(opt_view(directional) == match self.street_name_pre_directional {
            Some(d) => Some(directional_name(d)),
            None => None::<Seq<char>>,
        });
        assert(opt_view(post_type) == match self.street_name_post_type {
            Some(t) => Some(post_type_name(t)),
            None => None::<Seq<char>>,
        });
        assert(opt_view(subaddress_type) == match self.subaddress_type {
            Some(t) => Some(subaddress_name(t)),
            None => None::<Seq<char>>,
        });
        assert(out@ =~= partial_label_of(*self));
        string_of(out.as_slice())
    }
}

/// A collection of partial addresses.
#[derive(Clone, Debug)]
pub struct PartialAddresses {
    pub records: Vec<PartialAddress>,
}

impl PartialAddresses {
    pub fn new(records: Vec<PartialAddress>) -> (r: Self)
        ensures
            r.records == records,
    {
        PartialAddresses { records }
    }
}

} // verus!
