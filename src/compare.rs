//! Matching structured addresses against each other: the coincidence matcher for full
//! addresses, the partial matcher for partial ones, and batch reconciliation.
use vstd::prelude::*;
use crate::address::{label_of, partial_label_of, status_name, AddressStatus, CommonAddress, PartialAddress};
use crate::directional::StreetNamePreDirectional;
use crate::post_type::StreetNamePostType;
use crate::subaddress::{subaddress_abbreviation, SubaddressType};
use crate::text::{append_str, int_text, int_to_text, opt_copy, opt_eq, opt_view, str_eq, string_of};

verus! {

/// The outcome of comparing an address with its candidates.
#[derive(Clone, Copy, Debug, PartialEq, Eq, Structural)]
pub enum MatchStatus {
    /// Identical on every compared field.
    Matching,
    /// Identical on the primary key, different on a secondary field.
    Divergent,
    /// No candidate shares the primary key.
    Missing,
}

/// The secondary fields, compared once the primary key matches.
#[derive(Clone, Copy, Debug, PartialEq, Eq, Structural)]
pub enum MismatchField {
    SubaddressType,
    Floor,
    Building,
    Status,
}

/// A secondary field that differs between two coincident addresses, with a description of the
/// two values.
#[derive(Clone, Debug)]
pub enum Mismatch {
    SubaddressType(String),
    Floor(String),
    Building(String),
    Status(String),
}

/// The field and the description of a mismatch.
pub open spec fn mismatch_view(m: Mismatch) -> (MismatchField, Seq<char>) {
    match m {
        Mismatch::SubaddressType(s) => (MismatchField::SubaddressType, s@),
        Mismatch::Floor(s) => (MismatchField::Floor, s@),
        Mismatch::Building(s) => (MismatchField::Building, s@),
        Mismatch::Status(s) => (MismatchField::Status, s@),
    }
}

/// The description of two differing values.
pub open spec fn describe(from: Seq<char>, to: Seq<char>) -> Seq<char> {
    from + " not equal to "@ + to
}

/// A subaddress type as written in a description.
pub open spec fn subaddress_type_text(o: Option<SubaddressType>) -> Seq<char> {
    match o {
        Some(t) => subaddress_abbreviation(t),
        None => "None"@,
    }
}

/// A floor as written in a description.
pub open spec fn floor_text(o: Option<i64>) -> Seq<char> {
    match o {
        Some(n) => int_text(n as int),
        None => "None"@,
    }
}

/// A building as written in a description.
pub open spec fn building_text(o: Option<Seq<char>>) -> Seq<char> {
    match o {
        Some(b) => b,
        None => "None"@,
    }
}

/// Appends the description of two values.
fn push_describe(out: &mut Vec<char>, from: &str, to: &str)
    ensures
        final(out)@ == old(out)@ + describe(from@, to@),
{
    let ghost start = out@;
    append_str(out, from);
    append_str(out, " not equal to ");
    append_str(out, to);
    assert(out@ =~= start + describe(from@, to@));
}

/// The description of two values.
fn description(from: &str, to: &str) -> (r: String)
    ensures
        r@ == describe(from@, to@),
{
    let mut out: Vec<char> = Vec::new();
    push_describe(&mut out, from, to);
    assert(out@ =~= describe(from@, to@));
    string_of(out.as_slice())
}

fn subaddress_type_string(o: Option<SubaddressType>) -> (r: String)
    ensures
        r@ == subaddress_type_text(o),
{
    match o {
        Some(t) => t.abbreviate(),
        None => "None".to_owned(),
    }
}

fn floor_string(o: Option<i64>) -> (r: String)
    ensures
        r@ == floor_text(o),
{
    match o {
        Some(n) => string_of(int_to_text(n).as_slice()),
        None => "None".to_owned(),
    }
}

fn building_string(o: &Option<String>) -> (r: String)
    ensures
        r@ == building_text(opt_view(*o)),
{
    match o {
        Some(b) => b.clone(),
        None => "None".to_owned(),
    }
}

impl Mismatch {
    /// A subaddress type mismatch.
    pub fn subaddress_type(from: Option<SubaddressType>, to: Option<SubaddressType>) -> (r: Self)
        ensures
            mismatch_view(r) == (MismatchField::SubaddressType, describe(
                subaddress_type_text(from),
                subaddress_type_text(to),
            )),
    {
        let a = subaddress_type_string(from);
        let b = subaddress_type_string(to);
        Mismatch::SubaddressType(description(a.as_str(), b.as_str()))
    }

    /// A floor mismatch.
    pub fn floor(from: Option<i64>, to: Option<i64>) -> (r: Self)
        ensures
            mismatch_view(r) == (MismatchField::Floor, describe(floor_text(from), floor_text(to))),
    {
        let a = floor_string(from);
        let b = floor_string(to);
        Mismatch::Floor(description(a.as_str(), b.as_str()))
    }

    /// A building mismatch.
    pub fn building(from: Option<String>, to: Option<String>) -> (r: Self)
        ensures
            mismatch_view(r) == (MismatchField::Building, describe(
                building_text(opt_view(from)),
                building_text(opt_view(to)),
            )),
    {
        let a = building_string(&from);
        let b = building_string(&to);
        Mismatch::Building(description(a.as_str(), b.as_str()))
    }

    /// A status mismatch.
    pub fn status(from: AddressStatus, to: AddressStatus) -> (r: Self)
        ensures
            mismatch_view(r) == (MismatchField::Status, describe(status_name(from), status_name(to))),
    {
        let a = from.name();
        let b = to.name();
        Mismatch::Status(description(a.as_str(), b.as_str()))
    }
}

/// Whether two addresses agree on the primary key: number, number suffix, directional,
/// pre-modifier, pre-type, separator, street name, post type, subaddress identifier, zip,
/// postal community and state.
pub open spec fn same_primary_key(a: CommonAddress, b: CommonAddress) -> bool {
    &&& a.number == b.number
    &&& opt_view(a.number_suffix) == opt_view(b.number_suffix)
    &&& a.directional == b.directional
    &&& opt_view(a.pre_modifier) == opt_view(b.pre_modifier)
    &&& opt_view(a.pre_type) == opt_view(b.pre_type)
    &&& opt_view(a.separator) == opt_view(b.separator)
    &&& a.street_name@ == b.street_name@
    &&& a.street_type == b.street_type
    &&& opt_view(a.subaddress_id) == opt_view(b.subaddress_id)
    &&& a.zip == b.zip
    &&& a.postal_community@ == b.postal_community@
    &&& a.state@ == b.state@
}

/// The note for one secondary field: its description when the two values differ.
pub open spec fn note(differs: bool, text: Seq<char>) -> Option<Seq<char>> {
    if differs {
        Some(text)
    } else {
        None
    }
}

/// The subaddress type note of a pair.
pub open spec fn subaddress_type_note(a: CommonAddress, b: CommonAddress) -> Option<Seq<char>> {
    note(
        a.subaddress_type != b.subaddress_type,
        describe(subaddress_type_text(a.subaddress_type), subaddress_type_text(b.subaddress_type)),
    )
}

/// The floor note of a pair.
pub open spec fn floor_note(a: CommonAddress, b: CommonAddress) -> Option<Seq<char>> {
    note(a.floor != b.floor, describe(floor_text(a.floor), floor_text(b.floor)))
}

/// The building note of a pair.
pub open spec fn building_note(a: CommonAddress, b: CommonAddress) -> Option<Seq<char>> {
    note(
        opt_view(a.building) != opt_view(b.building),
        describe(building_text(opt_view(a.building)), building_text(opt_view(b.building))),
    )
}

/// The status note of a pair.
pub open spec fn status_note(a: CommonAddress, b: CommonAddress) -> Option<Seq<char>> {
    note(a.status != b.status, describe(status_name(a.status), status_name(b.status)))
}

/// A note as a one-entry list of mismatches, or none.
pub open spec fn note_list(field: MismatchField, n: Option<Seq<char>>) -> Seq<(MismatchField, Seq<char>)> {
    match n {
        Some(text) => seq![(field, text)],
        None => Seq::empty(),
    }
}

/// The mismatches of two addresses, in the order subaddress type, floor, building, status.
pub open spec fn expected_mismatches(a: CommonAddress, b: CommonAddress) -> Seq<(MismatchField, Seq<char>)> {
    note_list(MismatchField::SubaddressType, subaddress_type_note(a, b))
        + note_list(MismatchField::Floor, floor_note(a, b))
        + note_list(MismatchField::Building, building_note(a, b))
        + note_list(MismatchField::Status, status_note(a, b))
}

/// Whether two coincident addresses differ on any secondary field.
pub open spec fn diverges(a: CommonAddress, b: CommonAddress) -> bool {
    subaddress_type_note(a, b) is Some || floor_note(a, b) is Some || building_note(a, b) is Some
        || status_note(a, b) is Some
}

/// Whether two addresses are coincident, and how they differ if they are.
pub struct AddressMatch {
    pub coincident: bool,
    pub mismatches: Vec<Mismatch>,
}

impl AddressMatch {
    pub fn new(coincident: bool, fields: Vec<Mismatch>) -> (r: Self)
        ensures
            r.coincident == coincident,
            r.mismatches == fields,
    {
        AddressMatch { coincident, mismatches: fields }
    }
}

fn same_directional(a: Option<StreetNamePreDirectional>, b: Option<StreetNamePreDirectional>) -> (r: bool)
    ensures
        r == (a == b),
{
    match (a, b) {
        (Some(x), Some(y)) => x == y,
        (None, None) => true,
        _ => false,
    }
}

fn same_post_type(a: Option<StreetNamePostType>, b: Option<StreetNamePostType>) -> (r: bool)
    ensures
        r == (a == b),
{
    match (a, b) {
        (Some(x), Some(y)) => x == y,
        (None, None) => true,
        _ => false,
    }
}

fn same_subaddress_type(a: Option<SubaddressType>, b: Option<SubaddressType>) -> (r: bool)
    ensures
        r == (a == b),
{
    match (a, b) {
        (Some(x), Some(y)) => x == y,
        (None, None) => true,
        _ => false,
    }
}

fn same_floor(a: Option<i64>, b: Option<i64>) -> (r: bool)
    ensures
        r == (a == b),
{
    match (a, b) {
        (Some(x), Some(y)) => x == y,
        (None, None) => true,
        _ => false,
    }
}

/// See [`same_primary_key`].
pub fn primary_key_matches(a: &CommonAddress, b: &CommonAddress) -> (r: bool)
    ensures
        r == same_primary_key(*a, *b),
{
    a.number == b.number && opt_eq(&a.number_suffix, &b.number_suffix) && same_directional(
        a.directional,
        b.directional,
    ) && opt_eq(&a.pre_modifier, &b.pre_modifier) && opt_eq(&a.pre_type, &b.pre_type) && opt_eq(
        &a.separator,
        &b.separator,
    ) && str_eq(a.street_name.as_str(), b.street_name.as_str()) && same_post_type(
        a.street_type,
        b.street_type,
    ) && opt_eq(&a.subaddress_id, &b.subaddress_id) && a.zip == b.zip && str_eq(
        a.postal_community.as_str(),
        b.postal_community.as_str(),
    ) && str_eq(a.state.as_str(), b.state.as_str())
}

impl CommonAddress {
    /// Compares with `other`: the two are coincident when they agree on the primary key, and
    /// then each differing secondary field is reported, in the order subaddress type, floor,
    /// building, status.
    pub fn coincident(&self, other: &CommonAddress) -> (r: AddressMatch)
        ensures
            r.coincident == same_primary_key(*self, *other),
            r.mismatches@.map_values(|m: Mismatch| mismatch_view(m)) == if r.coincident {
                expected_mismatches(*self, *other)
            } else {
                Seq::empty()
            },
    {
        let mut mismatches: Vec<Mismatch> = Vec::new();
        let coincident = primary_key_matches(self, other);
        if coincident {
            let ghost a = *self;
            let ghost b = *other;
            if !same_subaddress_type(self.subaddress_type, other.subaddress_type) {
                mismatches.push(Mismatch::subaddress_type(self.subaddress_type, other.subaddress_type));
            }
            assert(mismatches@.map_values(|m: Mismatch| mismatch_view(m)) =~= note_list(
                MismatchField::SubaddressType,
                subaddress_type_note(a, b),
            ));
            let ghost s1 = mismatches@;
            if !same_floor(self.floor, other.floor) {
                mismatches.push(Mismatch::floor(self.floor, other.floor));
            }
            assert(mismatches@.map_values(|m: Mismatch| mismatch_view(m)) =~= s1.map_values(
                |m: Mismatch| mismatch_view(m),
            ) + note_list(MismatchField::Floor, floor_note(a, b)));
            let ghost s2 = mismatches@;
            if !opt_eq(&self.building, &other.building) {
                mismatches.push(Mismatch::building(self.building.clone(), other.building.clone()));
            }
            assert(mismatches@.map_values(|m: Mismatch| mismatch_view(m)) =~= s2.map_values(
                |m: Mismatch| mismatch_view(m),
            ) + note_list(MismatchField::Building, building_note(a, b)));
            let ghost s3 = mismatches@;
            if self.status != other.status {
                mismatches.push(Mismatch::status(self.status, other.status));
            }
            assert(mismatches@.map_values(|m: Mismatch| mismatch_view(m)) =~= s3.map_values(
                |m: Mismatch| mismatch_view(m),
            ) + note_list(MismatchField::Status, status_note(a, b)));
        }
        assert(!coincident ==> mismatches@.map_values(|m: Mismatch| mismatch_view(m)) =~= Seq::<
            (MismatchField, Seq<char>),
        >::empty());
        AddressMatch { coincident, mismatches }
    }
}

/// One line of a match report: the address, how it matched one candidate, and a description of
/// each secondary field that differs.
#[derive(Clone, Debug)]
pub struct MatchRecord {
    pub match_status: MatchStatus,
    pub address_label: String,
    pub subaddress_type: Option<String>,
    pub floor: Option<String>,
    pub building: Option<String>,
    pub status: Option<String>,
}

impl MatchRecord {
    /// A field-by-field copy.
    pub fn copy(&self) -> (r: Self)
        ensures
            r == *self,
    {
        MatchRecord {
            match_status: self.match_status,
            address_label: self.address_label.clone(),
            subaddress_type: opt_copy(&self.subaddress_type),
            floor: opt_copy(&self.floor),
            building: opt_copy(&self.building),
            status: opt_copy(&self.status),
        }
    }
}

/// What a match record holds.
pub struct MatchRecordView {
    pub match_status: MatchStatus,
    pub address_label: Seq<char>,
    pub subaddress_type: Option<Seq<char>>,
    pub floor: Option<Seq<char>>,
    pub building: Option<Seq<char>>,
    pub status: Option<Seq<char>>,
}

/// The view of a match record.
pub open spec fn record_view(r: MatchRecord) -> MatchRecordView {
    MatchRecordView {
        match_status: r.match_status,
        address_label: r.address_label@,
        subaddress_type: opt_view(r.subaddress_type),
        floor: opt_view(r.floor),
        building: opt_view(r.building),
        status: opt_view(r.status),
    }
}

/// The views of a list of match records.
pub open spec fn record_views(rs: Seq<MatchRecord>) -> Seq<MatchRecordView> {
    rs.map_values(|r: MatchRecord| record_view(r))
}

/// The record of `a` against a coincident candidate `b`.
pub open spec fn pair_record(a: CommonAddress, b: CommonAddress) -> MatchRecordView {
    MatchRecordView {
        match_status: if diverges(a, b) {
            MatchStatus::Divergent
        } else {
            MatchStatus::Matching
        },
        address_label: label_of(a),
        subaddress_type: subaddress_type_note(a, b),
        floor: floor_note(a, b),
        building: building_note(a, b),
        status: status_note(a, b),
    }
}

/// The record of an address that no candidate shares the primary key with.
pub open spec fn missing_record(a: CommonAddress) -> MatchRecordView {
    MatchRecordView {
        match_status: MatchStatus::Missing,
        address_label: label_of(a),
        subaddress_type: None,
        floor: None,
        building: None,
        status: None,
    }
}

/// The records of `a` against the coincident candidates among `cs`, in candidate order.
pub open spec fn coincident_records(a: CommonAddress, cs: Seq<CommonAddress>) -> Seq<MatchRecordView>
    decreases cs.len(),
{
    if cs.len() == 0 {
        Seq::empty()
    } else {
        coincident_records(a, cs.drop_last()) + if same_primary_key(a, cs.last()) {
            seq![pair_record(a, cs.last())]
        } else {
            Seq::empty()
        }
    }
}

/// The report for `a`: its coincident records, or one missing record when there are none.
pub open spec fn match_report(a: CommonAddress, cs: Seq<CommonAddress>) -> Seq<MatchRecordView> {
    if coincident_records(a, cs).len() == 0 {
        seq![missing_record(a)]
    } else {
        coincident_records(a, cs)
    }
}

/// The reports of every source address, concatenated in source order.
pub open spec fn reconcile_report(sources: Seq<CommonAddress>, cs: Seq<CommonAddress>) -> Seq<MatchRecordView>
    decreases sources.len(),
{
    if sources.len() == 0 {
        Seq::empty()
    } else {
        reconcile_report(sources.drop_last(), cs) + match_report(sources.last(), cs)
    }
}

/// A choice of records by their outcome or by the secondary field they differ on.
#[derive(Clone, Copy, Debug, PartialEq, Eq, Structural)]
pub enum MatchFilter {
    Missing,
    Divergent,
    Matching,
    Subaddress,
    Floor,
    Building,
    Status,
}

/// The filter that a verb names.
pub open spec fn filter_of_verb(v: Seq<char>) -> Option<MatchFilter> {
    if v == "missing"@ {
        Some(MatchFilter::Missing)
    } else if v == "divergent"@ {
        Some(MatchFilter::Divergent)
    } else if v == "matching"@ {
        Some(MatchFilter::Matching)
    } else if v == "subaddress"@ {
        Some(MatchFilter::Subaddress)
    } else if v == "floor"@ {
        Some(MatchFilter::Floor)
    } else if v == "building"@ {
        Some(MatchFilter::Building)
    } else if v == "status"@ {
        Some(MatchFilter::Status)
    } else {
        None
    }
}

impl MatchFilter {
    /// The filter named by `verb`: `missing`, `divergent`, `matching`, `subaddress`, `floor`,
    /// `building` or `status`.
    pub fn from_verb(verb: &str) -> (r: Option<Self>)
        ensures
            r == filter_of_verb(verb@),
    {
        if str_eq(verb, "missing") {
            Some(MatchFilter::Missing)
        } else if str_eq(verb, "divergent") {
            Some(MatchFilter::Divergent)
        } else if str_eq(verb, "matching") {
            Some(MatchFilter::Matching)
        } else if str_eq(verb, "subaddress") {
            Some(MatchFilter::Subaddress)
        } else if str_eq(verb, "floor") {
            Some(MatchFilter::Floor)
        } else if str_eq(verb, "building") {
            Some(MatchFilter::Building)
        } else if str_eq(verb, "status") {
            Some(MatchFilter::Status)
        } else {
            None
        }
    }
}

/// Whether a record passes a filter: by its outcome, or as a divergent record with a note on the
/// named field.
pub open spec fn keeps_record(f: MatchFilter, r: MatchRecordView) -> bool {
    match f {
        MatchFilter::Missing => r.match_status == MatchStatus::Missing,
        MatchFilter::Divergent => r.match_status == MatchStatus::Divergent,
        MatchFilter::Matching => r.match_status == MatchStatus::Matching,
        MatchFilter::Subaddress => r.match_status == MatchStatus::Divergent && r.subaddress_type is Some,
        MatchFilter::Floor => r.match_status == MatchStatus::Divergent && r.floor is Some,
        MatchFilter::Building => r.match_status == MatchStatus::Divergent && r.building is Some,
        MatchFilter::Status => r.match_status == MatchStatus::Divergent && r.status is Some,
    }
}

/// The records of `rs` that pass `f`, in order.
pub open spec fn filter_records(f: MatchFilter, rs: Seq<MatchRecordView>) -> Seq<MatchRecordView>
    decreases rs.len(),
{
    if rs.len() == 0 {
        Seq::empty()
    } else {
        filter_records(f, rs.drop_last()) + if keeps_record(f, rs.last()) {
            seq![rs.last()]
        } else {
            Seq::empty()
        }
    }
}

fn keeps_match_record(f: MatchFilter, r: &MatchRecord) -> (b: bool)
    ensures
        b == keeps_record(f, record_view(*r)),
{
    let divergent = r.match_status == MatchStatus::Divergent;
    match f {
        MatchFilter::Missing => r.match_status == MatchStatus::Missing,
        MatchFilter::Divergent => divergent,
        MatchFilter::Matching => r.match_status == MatchStatus::Matching,
        MatchFilter::Subaddress => divergent && r.subaddress_type.is_some(),
        MatchFilter::Floor => divergent && r.floor.is_some(),
        MatchFilter::Building => divergent && r.building.is_some(),
        MatchFilter::Status => divergent && r.status.is_some(),
    }
}

/// A note as a string: the description when the two values differ.
fn note_string(differs: bool, text: String) -> (r: Option<String>)
    ensures
        opt_view(r) == note(differs, text@),
{
    if differs {
        Some(text)
    } else {
        None
    }
}

/// The record of `a` against the coincident candidate `b`.
fn pair_match_record(a: &CommonAddress, b: &CommonAddress, label: &String) -> (r: MatchRecord)
    requires
        label@ == label_of(*a),
    ensures
        record_view(r) == pair_record(*a, *b),
{
    let st = !same_subaddress_type(a.subaddress_type, b.subaddress_type);
    let fl = !same_floor(a.floor, b.floor);
    let bd = !opt_eq(&a.building, &b.building);
    let ss = a.status != b.status;
    let match_status = if st || fl || bd || ss {
        MatchStatus::Divergent
    } else {
        MatchStatus::Matching
    };
    let subaddress_type = note_string(st, {
        let x = subaddress_type_string(a.subaddress_type);
        let y = subaddress_type_string(b.subaddress_type);
        description(x.as_str(), y.as_str())
    });
    let floor = note_string(fl, {
        let x = floor_string(a.floor);
        let y = floor_string(b.floor);
        description(x.as_str(), y.as_str())
    });
    let building = note_string(bd, {
        let x = building_string(&a.building);
        let y = building_string(&b.building);
        description(x.as_str(), y.as_str())
    });
    let status = note_string(ss, {
        let x = a.status.name();
        let y = b.status.name();
        description(x.as_str(), y.as_str())
    });
    MatchRecord {
        match_status,
        address_label: label.clone(),
        subaddress_type,
        floor,
        building,
        status,
    }
}

/// A match report.
#[derive(Clone, Debug)]
pub struct MatchRecords {
    pub records: Vec<MatchRecord>,
}

impl MatchRecords {
    /// Matches `self_address` against every candidate: one record per coincident candidate, in
    /// candidate order, or a single missing record when no candidate is coincident.
    pub fn new(self_address: &CommonAddress, other_addresses: &[CommonAddress]) -> (r: Self)
        ensures
            record_views(r.records@) == match_report(*self_address, other_addresses@),
    {
        let label = self_address.label();
        let mut records: Vec<MatchRecord> = Vec::new();
        let mut i: usize = 0;
        while i < other_addresses.len()
            invariant
                i <= other_addresses@.len(),
                label@ == label_of(*self_address),
                record_views(records@) == coincident_records(
                    *self_address,
                    other_addresses@.subrange(0, i as int),
                ),
            decreases other_addresses@.len() - i,
        {
            let other = &other_addresses[i];
            let ghost before = records@;
            if primary_key_matches(self_address, other) {
                let rec = pair_match_record(self_address, other, &label);
                records.push(rec);
            }
            let ghost prefix = other_addresses@.subrange(0, i as int + 1);
            assert(prefix.drop_last() =~= other_addresses@.subrange(0, i as int));
            assert(record_views(records@) =~= record_views(before) + if same_primary_key(
                *self_address,
                prefix.last(),
            ) {
                seq![pair_record(*self_address, prefix.last())]
            } else {
                Seq::empty()
            });
            i += 1;
        }
        assert(other_addresses@.subrange(0, i as int) =~= other_addresses@);
        if records.len() == 0 {
            records.push(
                MatchRecord {
                    match_status: MatchStatus::Missing,
                    address_label: label,
                    subaddress_type: None,
                    floor: None,
                    building: None,
                    status: None,
                },
            );
            assert(record_views(records@) =~= seq![missing_record(*self_address)]);
        }
        MatchRecords { records }
    }

    /// Matches every source address against the candidates and concatenates the reports in
    /// source order.
    pub fn compare(self_addresses: &[CommonAddress], other_addresses: &[CommonAddress]) -> (r: Self)
        ensures
            record_views(r.records@) == reconcile_report(self_addresses@, other_addresses@),
    {
        let mut records: Vec<MatchRecord> = Vec::new();
        let mut i: usize = 0;
        while i < self_addresses.len()
            invariant
                i <= self_addresses@.len(),
                record_views(records@) == reconcile_report(
                    self_addresses@.subrange(0, i as int),
                    other_addresses@,
                ),
            decreases self_addresses@.len() - i,
        {
            let mut item = MatchRecords::new(&self_addresses[i], other_addresses);
            let ghost before = records@;
            let ghost added = item.records@;
            records.append(&mut item.records);
            let ghost prefix = self_addresses@.subrange(0, i as int + 1);
            assert(prefix.drop_last() =~= self_addresses@.subrange(0, i as int));
            assert(record_views(records@) =~= record_views(before) + record_views(added));
            i += 1;
        }
        assert(self_addresses@.subrange(0, i as int) =~= self_addresses@);
        MatchRecords { records }
    }

    /// The records that pass `filter`, in order.
    pub fn filter_by(self, filter: MatchFilter) -> (r: Self)
        ensures
            record_views(r.records@) == filter_records(filter, record_views(self.records@)),
    {
        let mut records: Vec<MatchRecord> = Vec::new();
        let mut i: usize = 0;
        let n = self.records.len();
        while i < n
            invariant
                n == self.records@.len(),
                i <= n,
                record_views(records@) == filter_records(
                    filter,
                    record_views(self.records@.subrange(0, i as int)),
                ),
            decreases n - i,
        {
            let rec = &self.records[i];
            let ghost before = records@;
            if keeps_match_record(filter, rec) {
                records.push(rec.copy());
            }
            let ghost prefix = record_views(self.records@.subrange(0, i as int + 1));
            assert(prefix.drop_last() =~= record_views(self.records@.subrange(0, i as int)));
            assert(record_views(records@) =~= record_views(before) + if keeps_record(
                filter,
                prefix.last(),
            ) {
                seq![prefix.last()]
            } else {
                Seq::empty()
            });
            i += 1;
        }
        assert(self.records@.subrange(0, n as int) =~= self.records@);
        MatchRecords { records }
    }

    /// The records that pass the filter named by `filter`; none when the verb names no filter.
    pub fn filter(self, filter: &str) -> (r: Self)
        ensures
            match filter_of_verb(filter@) {
                Some(f) => record_views(r.records@) == filter_records(f, record_views(self.records@)),
                None => r.records@.len() == 0,
            },
    {
        match MatchFilter::from_verb(filter) {
            Some(f) => self.filter_by(f),
            None => MatchRecords { records: Vec::new() },
        }
    }

    pub fn records_ref(&self) -> (r: &Vec<MatchRecord>)
        ensures
            r == &self.records,
    {
        &self.records
    }
}

/// How a partial address matches one candidate. A known number that differs, or a known
/// directional, street name or post type that differs, leaves it missing. Otherwise a different
/// subaddress identifier, or (for a candidate without one) a different building, or (for a
/// candidate with neither) a different floor, makes it divergent; else it is matching.
pub open spec fn partial_status(p: PartialAddress, a: CommonAddress) -> MatchStatus {
    if p.address_number is Some && p.address_number->0 != a.number {
        MatchStatus::Missing
    } else if (p.street_name_pre_directional is Some && p.street_name_pre_directional
        != a.directional) || (p.street_name is Some && p.street_name->0@ != a.street_name@) || (
    p.street_name_post_type is Some && p.street_name_post_type != a.street_type) {
        MatchStatus::Missing
    } else if opt_view(p.subaddress_identifier) != opt_view(a.subaddress_id) || (a.subaddress_id is None
        && opt_view(p.building) != opt_view(a.building)) || (a.subaddress_id is None && a.building is None
        && p.floor != a.floor) {
        MatchStatus::Divergent
    } else {
        MatchStatus::Matching
    }
}

/// One line of a partial match report.
#[derive(Clone, Debug)]
pub struct MatchPartialRecord {
    pub match_status: MatchStatus,
    pub address_label: String,
    pub other_label: Option<String>,
}

/// What a partial match record holds.
pub struct PartialRecordView {
    pub match_status: MatchStatus,
    pub address_label: Seq<char>,
    pub other_label: Option<Seq<char>>,
}

/// The view of a partial match record.
pub open spec fn partial_record_view(r: MatchPartialRecord) -> PartialRecordView {
    PartialRecordView {
        match_status: r.match_status,
        address_label: r.address_label@,
        other_label: opt_view(r.other_label),
    }
}

/// The views of a list of partial match records.
pub open spec fn partial_record_views(rs: Seq<MatchPartialRecord>) -> Seq<PartialRecordView> {
    rs.map_values(|r: MatchPartialRecord| partial_record_view(r))
}

/// The records of `p` against the candidates that do not leave it missing, in candidate order.
pub open spec fn partial_hits(p: PartialAddress, cs: Seq<CommonAddress>) -> Seq<PartialRecordView>
    decreases cs.len(),
{
    if cs.len() == 0 {
        Seq::empty()
    } else {
        partial_hits(p, cs.drop_last()) + if partial_status(p, cs.last()) != MatchStatus::Missing {
            seq![
                PartialRecordView {
                    match_status: partial_status(p, cs.last()),
                    address_label: partial_label_of(p),
                    other_label: Some(label_of(cs.last())),
                },
            ]
        } else {
            Seq::empty()
        }
    }
}

/// Whether a partial record passes a filter; only the filters by outcome apply to partial
/// records.
pub open spec fn keeps_partial(f: MatchFilter, r: PartialRecordView) -> bool {
    match f {
        MatchFilter::Missing => r.match_status == MatchStatus::Missing,
        MatchFilter::Divergent => r.match_status == MatchStatus::Divergent,
        MatchFilter::Matching => r.match_status == MatchStatus::Matching,
        _ => false,
    }
}

/// The partial records of `rs` that pass `f`, in order.
pub open spec fn filter_partial(f: MatchFilter, rs: Seq<PartialRecordView>) -> Seq<PartialRecordView>
    decreases rs.len(),
{
    if rs.len() == 0 {
        Seq::empty()
    } else {
        filter_partial(f, rs.drop_last()) + if keeps_partial(f, rs.last()) {
            seq![rs.last()]
        } else {
            Seq::empty()
        }
    }
}

/// The report for a partial address: one missing record when every candidate leaves it
/// missing; else only the matching records when there are any, and all the records otherwise.
pub open spec fn partial_report(p: PartialAddress, cs: Seq<CommonAddress>) -> Seq<PartialRecordView> {
    let hits = partial_hits(p, cs);
    if hits.len() == 0 {
        seq![
            PartialRecordView {
                match_status: MatchStatus::Missing,
                address_label: partial_label_of(p),
                other_label: None,
            },
        ]
    } else if filter_partial(MatchFilter::Matching, hits).len() > 0 {
        filter_partial(MatchFilter::Matching, hits)
    } else {
        hits
    }
}

/// The reports of every partial address, concatenated in source order.
pub open spec fn partial_reconcile_report(ps: Seq<PartialAddress>, cs: Seq<CommonAddress>) -> Seq<PartialRecordView>
    decreases ps.len(),
{
    if ps.len() == 0 {
        Seq::empty()
    } else {
        partial_reconcile_report(ps.drop_last(), cs) + partial_report(ps.last(), cs)
    }
}

fn same_number(p: Option<i64>, n: i64) -> (r: bool)
    ensures
        r == (p is Some ==> p->0 == n),
{
    match p {
        Some(v) => v == n,
        None => true,
    }
}

/// See [`partial_status`].
fn partial_match_status(p: &PartialAddress, a: &CommonAddress) -> (r: MatchStatus)
    ensures
        r == partial_status(*p, *a),
{
    if !same_number(p.address_number, a.number) {
        return MatchStatus::Missing;
    }
    let mut status = MatchStatus::Matching;
    if p.street_name_pre_directional.is_some() && !same_directional(
        p.street_name_pre_directional,
        a.directional,
    ) {
        status = MatchStatus::Missing;
    }
    if let Some(name) = &p.street_name {
        if !str_eq(name.as_str(), a.street_name.as_str()) && status == MatchStatus::Matching {
            status = MatchStatus::Missing;
        }
    }
    if p.street_name_post_type.is_some() && !same_post_type(p.street_name_post_type, a.street_type)
        && status == MatchStatus::Matching {
        status = MatchStatus::Missing;
    }
    if !opt_eq(&p.subaddress_identifier, &a.subaddress_id) && status == MatchStatus::Matching {
        status = MatchStatus::Divergent;
    }
    if a.subaddress_id.is_none() && !opt_eq(&p.building, &a.building) && status
        == MatchStatus::Matching {
        status = MatchStatus::Divergent;
    }
    if a.subaddress_id.is_none() && a.building.is_none() && !same_floor(p.floor, a.floor) && status
        == MatchStatus::Matching {
        status = MatchStatus::Divergent;
    }
    status
}

impl MatchPartialRecord {
    /// The record of `partial` against `address`, or `None` when the address leaves it missing.
    pub fn coincident(partial: &PartialAddress, address: &CommonAddress) -> (r: Option<MatchPartialRecord>)
        ensures
            match r {
                Some(rec) => partial_status(*partial, *address) != MatchStatus::Missing
                    && partial_record_view(rec) == (PartialRecordView {
                    match_status: partial_status(*partial, *address),
                    address_label: partial_label_of(*partial),
                    other_label: Some(label_of(*address)),
                }),
                None => partial_status(*partial, *address) == MatchStatus::Missing,
            },
    {
        let match_status = partial_match_status(partial, address);
        if match_status != MatchStatus::Missing {
            Some(
                MatchPartialRecord {
                    match_status,
                    address_label: partial.label(),
                    other_label: Some(address.label()),
                },
            )
        } else {
            None
        }
    }

    /// Matches `partial` against every candidate; see [`partial_report`].
    pub fn compare(partial: &PartialAddress, addresses: &[CommonAddress]) -> (r: MatchPartialRecords)
        ensures
            partial_record_views(r.records@) == partial_report(*partial, addresses@),
    {
        let mut records: Vec<MatchPartialRecord> = Vec::new();
        let mut i: usize = 0;
        while i < addresses.len()
            invariant
                i <= addresses@.len(),
                partial_record_views(records@) == partial_hits(
                    *partial,
                    addresses@.subrange(0, i as int),
                ),
            decreases addresses@.len() - i,
        {
            let ghost before = records@;
            if let Some(rec) = MatchPartialRecord::coincident(partial, &addresses[i]) {
                records.push(rec);
            }
            let ghost prefix = addresses@.subrange(0, i as int + 1);
            assert(prefix.drop_last() =~= addresses@.subrange(0, i as int));
            assert(partial_record_views(records@) =~= partial_record_views(before) + if partial_status(
                *partial,
                prefix.last(),
            ) != MatchStatus::Missing {
                seq![
                    PartialRecordView {
                        match_status: partial_status(*partial, prefix.last()),
                        address_label: partial_label_of(*partial),
                        other_label: Some(label_of(prefix.last())),
                    },
                ]
            } else {
                Seq::empty()
            });
            i += 1;
        }
        assert(addresses@.subrange(0, i as int) =~= addresses@);
        if records.len() == 0 {
            records.push(
                MatchPartialRecord {
                    match_status: MatchStatus::Missing,
                    address_label: partial.label(),
                    other_label: None,
                },
            );
            assert(partial_record_views(records@) =~= partial_report(*partial, addresses@));
            return MatchPartialRecords { records };
        }
        let compared = MatchPartialRecords { records };
        let matching = compared.copy().filter_by(MatchFilter::Matching);
        if matching.records.len() == 0 {
            compared
        } else {
            matching
        }
    }

    /// A field-by-field copy.
    pub fn copy(&self) -> (r: Self)
        ensures
            r == *self,
    {
        MatchPartialRecord {
            match_status: self.match_status,
            address_label: self.address_label.clone(),
            other_label: opt_copy(&self.other_label),
        }
    }

    pub fn match_status(&self) -> (r: MatchStatus)
        ensures
            r == self.match_status,
    {
        self.match_status
    }

    pub fn address_label(&self) -> (r: String)
        ensures
            r == self.address_label,
    {
        self.address_label.clone()
    }

    pub fn other_label(&self) -> (r: Option<String>)
        ensures
            r == self.other_label,
    {
        opt_copy(&self.other_label)
    }
}

/// A partial match report.
#[derive(Clone, Debug)]
pub struct MatchPartialRecords {
    pub records: Vec<MatchPartialRecord>,
}

impl MatchPartialRecords {
    /// A field-by-field copy.
    pub fn copy(&self) -> (r: Self)
        ensures
            r.records@ == self.records@,
    {
        let mut records: Vec<MatchPartialRecord> = Vec::new();
        let mut i: usize = 0;
        while i < self.records.len()
            invariant
                i <= self.records@.len(),
                records@ == self.records@.subrange(0, i as int),
            decreases self.records@.len() - i,
        {
            records.push(self.records[i].copy());
            i += 1;
            assert(records@ =~= self.records@.subrange(0, i as int));
        }
        assert(self.records@.subrange(0, i as int) =~= self.records@);
        MatchPartialRecords { records }
    }

    /// Matches every partial address against the candidates and concatenates the reports in
    /// source order.
    pub fn compare(self_addresses: &[PartialAddress], other_addresses: &[CommonAddress]) -> (r: Self)
        ensures
            partial_record_views(r.records@) == partial_reconcile_report(
                self_addresses@,
                other_addresses@,
            ),
    {
        let mut records: Vec<MatchPartialRecord> = Vec::new();
        let mut i: usize = 0;
        while i < self_addresses.len()
            invariant
                i <= self_addresses@.len(),
                partial_record_views(records@) == partial_reconcile_report(
                    self_addresses@.subrange(0, i as int),
                    other_addresses@,
                ),
            decreases self_addresses@.len() - i,
        {
            let mut item = MatchPartialRecord::compare(&self_addresses[i], other_addresses);
            let ghost before = records@;
            let ghost added = item.records@;
            records.append(&mut item.records);
            let ghost prefix = self_addresses@.subrange(0, i as int + 1);
            assert(prefix.drop_last() =~= self_addresses@.subrange(0, i as int));
            assert(partial_record_views(records@) =~= partial_record_views(before)
                + partial_record_views(added));
            i += 1;
        }
        assert(self_addresses@.subrange(0, i as int) =~= self_addresses@);
        MatchPartialRecords { records }
    }

    /// The records that pass `filter`, in order.
    pub fn filter_by(self, filter: MatchFilter) -> (r: Self)
        ensures
            partial_record_views(r.records@) == filter_partial(
                filter,
                partial_record_views(self.records@),
            ),
    {
        let mut records: Vec<MatchPartialRecord> = Vec::new();
        let mut i: usize = 0;
        let n = self.records.len();
        while i < n
            invariant
                n == self.records@.len(),
                i <= n,
                partial_record_views(records@) == filter_partial(
                    filter,
                    partial_record_views(self.records@.subrange(0, i as int)),
                ),
            decreases n - i,
        {
            let rec = &self.records[i];
            let ghost before = records@;
            let keep = match filter {
                MatchFilter::Missing => rec.match_status == MatchStatus::Missing,
                MatchFilter::Divergent => rec.match_status == MatchStatus::Divergent,
                MatchFilter::Matching => rec.match_status == MatchStatus::Matching,
                _ => false,
            };
            if keep {
                records.push(rec.copy());
            }
            let ghost prefix = partial_record_views(self.records@.subrange(0, i as int + 1));
            assert(prefix.drop_last() =~= partial_record_views(self.records@.subrange(0, i as int)));
            assert(partial_record_views(records@) =~= partial_record_views(before) + if keeps_partial(
                filter,
                prefix.last(),
            ) {
                seq![prefix.last()]
            } else {
                Seq::empty()
            });
            i += 1;
        }
        assert(self.records@.subrange(0, n as int) =~= self.records@);
        MatchPartialRecords { records }
    }

    /// The records that pass the filter named by `filter`; none when the verb names no filter.
    pub fn filter(self, filter: &str) -> (r: Self)
        ensures
            match filter_of_verb(filter@) {
                Some(f) => partial_record_views(r.records@) == filter_partial(
                    f,
                    partial_record_views(self.records@),
                ),
                None => r.records@.len() == 0,
            },
    {
        match MatchFilter::from_verb(filter) {
            Some(f) => self.filter_by(f),
            None => MatchPartialRecords { records: Vec::new() },
        }
    }

    /// A copy of the records.
    pub fn records(&self) -> (r: Vec<MatchPartialRecord>)
        ensures
            r@ == self.records@,
    {
        self.copy().records
    }
}

/// Reconciling a batch split in two gives the report of the first part followed by the report
/// of the second: the records of each source address come in source order, whatever order the
/// work was done in.
pub proof fn lemma_reconcile_order(s1: Seq<CommonAddress>, s2: Seq<CommonAddress>, cs: Seq<CommonAddress>)
    ensures
        reconcile_report(s1 + s2, cs) == reconcile_report(s1, cs) + reconcile_report(s2, cs),
    decreases s2.len(),
{
    if s2.len() == 0 {
        assert(s1 + s2 =~= s1);
        assert(reconcile_report(s1, cs) + reconcile_report(s2, cs) =~= reconcile_report(s1, cs));
    } else {
        lemma_reconcile_order(s1, s2.drop_last(), cs);
        assert((s1 + s2).drop_last() =~= s1 + s2.drop_last());
        assert((s1 + s2).last() == s2.last());
        assert(reconcile_report(s1 + s2, cs) =~= reconcile_report(s1, cs) + reconcile_report(
            s2,
            cs,
        ));
    }
}

/// Each source address contributes its own report, and nothing else, at its place in the batch.
pub proof fn lemma_reconcile_single(a: CommonAddress, cs: Seq<CommonAddress>)
    ensures
        reconcile_report(seq![a], cs) == match_report(a, cs),
{
    assert(seq![a].drop_last() =~= Seq::<CommonAddress>::empty());
    assert(seq![a].last() == a);
    assert(reconcile_report(Seq::<CommonAddress>::empty(), cs) == Seq::<MatchRecordView>::empty());
    assert(reconcile_report(seq![a], cs) =~= match_report(a, cs));
}

/// The same law for batches of partial addresses.
pub proof fn lemma_partial_reconcile_order(s1: Seq<PartialAddress>, s2: Seq<PartialAddress>, cs: Seq<CommonAddress>)
    ensures
        partial_reconcile_report(s1 + s2, cs) == partial_reconcile_report(s1, cs)
            + partial_reconcile_report(s2, cs),
    decreases s2.len(),
{
    if s2.len() == 0 {
        assert(s1 + s2 =~= s1);
        assert(partial_reconcile_report(s1, cs) + partial_reconcile_report(s2, cs)
            =~= partial_reconcile_report(s1, cs));
    } else {
        lemma_partial_reconcile_order(s1, s2.drop_last(), cs);
        assert((s1 + s2).drop_last() =~= s1 + s2.drop_last());
        assert((s1 + s2).last() == s2.last());
        assert(partial_reconcile_report(s1 + s2, cs) =~= partial_reconcile_report(s1, cs)
            + partial_reconcile_report(s2, cs));
    }
}

/// Two addresses that agree on every field but the status are coincident and divergent, with
/// exactly one mismatch, on the status.
pub proof fn lemma_status_only_divergence(a: CommonAddress, b: CommonAddress)
    requires
        same_primary_key(a, b),
        a.subaddress_type == b.subaddress_type,
        a.floor == b.floor,
        opt_view(a.building) == opt_view(b.building),
        a.status != b.status,
    ensures
        expected_mismatches(a, b) == seq![
            (MismatchField::Status, describe(status_name(a.status), status_name(b.status))),
        ],
        pair_record(a, b).match_status == MatchStatus::Divergent,
{
    assert(expected_mismatches(a, b) =~= seq![
        (MismatchField::Status, describe(status_name(a.status), status_name(b.status))),
    ]);
}

} // verus!
