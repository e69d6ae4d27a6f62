//! Collections of full addresses: duplicate detection, selection by field, street checks and
//! the place-name corrections.
use vstd::prelude::*;
use crate::address::{complete_street_name_of, label_of, opt_word, CommonAddress};
use crate::directional::{directional_abbreviation, directional_name};
use crate::post_type::{post_type_abbreviation, post_type_name, StreetNamePostType};
use crate::text::str_eq;

verus! {

/// A collection of full addresses.
#[derive(Clone, Debug)]
pub struct CommonAddresses {
    pub records: Vec<CommonAddress>,
}

/// The addresses of `vs` whose label is `l`, in order.
pub open spec fn with_label(vs: Seq<CommonAddress>, l: Seq<char>) -> Seq<CommonAddress>
    decreases vs.len(),
{
    if vs.len() == 0 {
        Seq::empty()
    } else {
        with_label(vs.drop_last(), l) + if label_of(vs.last()) == l {
            seq![vs.last()]
        } else {
            Seq::empty()
        }
    }
}

/// Whether no address before position `i` has the label of the address at `i`.
pub open spec fn first_with_label(vs: Seq<CommonAddress>, i: int) -> bool {
    forall|j: int| 0 <= j < i ==> label_of(#[trigger] vs[j]) != label_of(vs[i])
}

/// The duplicate groups among the first `n` addresses: for each label that first appears there
/// and that more than one address of `vs` carries, all the addresses with that label.
pub open spec fn duplicate_groups_upto(vs: Seq<CommonAddress>, n: int) -> Seq<CommonAddress>
    decreases n,
{
    if n <= 0 {
        Seq::empty()
    } else {
        duplicate_groups_upto(vs, n - 1) + if first_with_label(vs, n - 1) && with_label(
            vs,
            label_of(vs[n - 1]),
        ).len() > 1 {
            with_label(vs, label_of(vs[n - 1]))
        } else {
            Seq::empty()
        }
    }
}

/// The addresses whose label occurs more than once, grouped by label, the groups in the order
/// in which their labels first appear.
pub open spec fn duplicate_groups(vs: Seq<CommonAddress>) -> Seq<CommonAddress> {
    duplicate_groups_upto(vs, vs.len() as int)
}

/// A field that addresses can be selected by.
#[derive(Clone, Copy, Debug, PartialEq, Eq, Structural)]
pub enum AddressField {
    Label,
    StreetName,
    PreDirectional,
    PostType,
}

/// The field that a name designates.
pub open spec fn field_of_name(f: Seq<char>) -> Option<AddressField> {
    if f == "label"@ {
        Some(AddressField::Label)
    } else if f == "street_name"@ {
        Some(AddressField::StreetName)
    } else if f == "pre_directional"@ {
        Some(AddressField::PreDirectional)
    } else if f == "post_type"@ {
        Some(AddressField::PostType)
    } else {
        None
    }
}

/// Whether the field `f` of `a` reads `value`; the directional and the post type are read by
/// their full names.
pub open spec fn field_is(f: AddressField, a: CommonAddress, value: Seq<char>) -> bool {
    match f {
        AddressField::Label => label_of(a) == value,
        AddressField::StreetName => a.street_name@ == value,
        AddressField::PreDirectional => a.directional is Some && directional_name(a.directional->0)
            == value,
        AddressField::PostType => a.street_type is Some && post_type_name(a.street_type->0) == value,
    }
}

/// The addresses of `vs` whose field `f` reads `value`, in order.
pub open spec fn select_field(f: AddressField, vs: Seq<CommonAddress>, value: Seq<char>) -> Seq<CommonAddress>
    decreases vs.len(),
{
    if vs.len() == 0 {
        Seq::empty()
    } else {
        select_field(f, vs.drop_last(), value) + if field_is(f, vs.last(), value) {
            seq![vs.last()]
        } else {
            Seq::empty()
        }
    }
}

/// Whether some address of `vs` has the complete street name `street`, written in full.
pub open spec fn has_street(vs: Seq<CommonAddress>, street: Seq<char>) -> bool {
    exists|i: int| 0 <= i < vs.len() && complete_street_name_of(#[trigger] vs[i], false) == street
}

/// Whether no address before position `i` has the complete street name of the address at `i`.
pub open spec fn first_with_street(vs: Seq<CommonAddress>, i: int) -> bool {
    forall|j: int|
        0 <= j < i ==> complete_street_name_of(#[trigger] vs[j], false) != complete_street_name_of(
            vs[i],
            false,
        )
}

/// The complete street names among the first `n` addresses of `vs`, each once in order of first
/// appearance, that no address of `others` has.
pub open spec fn orphans_upto(vs: Seq<CommonAddress>, others: Seq<CommonAddress>, n: int) -> Seq<Seq<char>>
    decreases n,
{
    if n <= 0 {
        Seq::empty()
    } else {
        orphans_upto(vs, others, n - 1) + if first_with_street(vs, n - 1) && !has_street(
            others,
            complete_street_name_of(vs[n - 1], false),
        ) {
            seq![complete_street_name_of(vs[n - 1], false)]
        } else {
            Seq::empty()
        }
    }
}

/// The place-name correction for an abbreviated complete street name: the street name and post
/// type that it is rewritten to.
pub open spec fn correction_of(street: Seq<char>) -> Option<(Seq<char>, StreetNamePostType)> {
    if street == "NE BEAVILLA VIEW"@ {
        Some(("BEAVILLA"@, StreetNamePostType::VIEW))
    } else if street == "COLUMBIA CREST"@ {
        Some(("COLUMBIA"@, StreetNamePostType::CREST))
    } else if street == "SE FORMOSA GARDENS"@ {
        Some(("FORMOSA"@, StreetNamePostType::GARDENS))
    } else if street == "SE HILLTOP VIEW"@ {
        Some(("HILLTOP"@, StreetNamePostType::VIEW))
    } else if street == "MARILEE ROW"@ {
        Some(("MARILEE"@, StreetNamePostType::ROW))
    } else if street == "MEADOW GLEN"@ {
        Some(("MEADOW"@, StreetNamePostType::GLEN))
    } else if street == "ROBERTSON CREST"@ {
        Some(("ROBERTSON"@, StreetNamePostType::CREST))
    } else if street == "NE QUAIL CROSSING"@ {
        Some(("QUAIL"@, StreetNamePostType::CROSSING))
    } else {
        None
    }
}

/// Whether `after` is `before` with its place-name correction applied, if one applies.
pub open spec fn corrected(before: CommonAddress, after: CommonAddress) -> bool {
    match correction_of(complete_street_name_of(before, true)) {
        Some((name, post_type)) => {
            &&& after.street_name@ == name
            &&& after.street_type == Some(post_type)
            &&& after == (CommonAddress {
                street_name: after.street_name,
                street_type: after.street_type,
                ..before
            })
        },
        None => after == before,
    }
}

/// The correction for a complete street name; see [`correction_of`].
fn correction(street: &str) -> (r: Option<(String, StreetNamePostType)>)
    ensures
        match (r, correction_of(street@)) {
            (Some((n, p)), Some((sn, sp))) => n@ == sn && p == sp,
            (None, None) => true,
            _ => false,
        },
{
    if str_eq(street, "NE BEAVILLA VIEW") {
        Some(("BEAVILLA".to_owned(), StreetNamePostType::VIEW))
    } else if str_eq(street, "COLUMBIA CREST") {
        Some(("COLUMBIA".to_owned(), StreetNamePostType::CREST))
    } else if str_eq(street, "SE FORMOSA GARDENS") {
        Some(("FORMOSA".to_owned(), StreetNamePostType::GARDENS))
    } else if str_eq(street, "SE HILLTOP VIEW") {
        Some(("HILLTOP".to_owned(), StreetNamePostType::VIEW))
    } else if str_eq(street, "MARILEE ROW") {
        Some(("MARILEE".to_owned(), StreetNamePostType::ROW))
    } else if str_eq(street, "MEADOW GLEN") {
        Some(("MEADOW".to_owned(), StreetNamePostType::GLEN))
    } else if str_eq(street, "ROBERTSON CREST") {
        Some(("ROBERTSON".to_owned(), StreetNamePostType::CREST))
    } else if str_eq(street, "NE QUAIL CROSSING") {
        Some(("QUAIL".to_owned(), StreetNamePostType::CROSSING))
    } else {
        None
    }
}

/// Whether the field `f` of `a` reads `value`.
fn field_matches(f: AddressField, a: &CommonAddress, value: &str) -> (r: bool)
    ensures
        r == field_is(f, *a, value@),
{
    match f {
        AddressField::Label => str_eq(a.label().as_str(), value),
        AddressField::StreetName => str_eq(a.street_name.as_str(), value),
        AddressField::PreDirectional => match &a.directional {
            Some(d) => str_eq(d.name().as_str(), value),
            None => false,
        },
        AddressField::PostType => match &a.street_type {
            Some(p) => str_eq(p.name().as_str(), value),
            None => false,
        },
    }
}

/// The field named `f`.
fn field_named(f: &str) -> (r: Option<AddressField>)
    ensures
        r == field_of_name(f@),
{
    if str_eq(f, "label") {
        Some(AddressField::Label)
    } else if str_eq(f, "street_name") {
        Some(AddressField::StreetName)
    } else if str_eq(f, "pre_directional") {
        Some(AddressField::PreDirectional)
    } else if str_eq(f, "post_type") {
        Some(AddressField::PostType)
    } else {
        None
    }
}

/// The addresses of `vs` whose field `f` reads `value`, in order.
fn select(f: AddressField, vs: &Vec<CommonAddress>, value: &str) -> (r: Vec<CommonAddress>)
    ensures
        r@ == select_field(f, vs@, value@),
{
    let mut out: Vec<CommonAddress> = Vec::new();
    let mut i: usize = 0;
    while i < vs.len()
        invariant
            i <= vs@.len(),
            out@ == select_field(f, vs@.subrange(0, i as int), value@),
        decreases vs@.len() - i,
    {
        if field_matches(f, &vs[i], value) {
            out.push(vs[i].copy());
        }
        let ghost prefix = vs@.subrange(0, i as int + 1);
        assert(prefix.drop_last() =~= vs@.subrange(0, i as int));
        i += 1;
        assert(out@ =~= select_field(f, vs@.subrange(0, i as int), value@));
    }
    assert(vs@.subrange(0, i as int) =~= vs@);
    out
}

/// The addresses of `vs` whose label is `l`, in order, given the labels of `vs`.
fn same_label(vs: &Vec<CommonAddress>, labels: &Vec<String>, l: &String) -> (r: Vec<CommonAddress>)
    requires
        labels@.len() == vs@.len(),
        forall|k: int| 0 <= k < vs@.len() ==> (#[trigger] labels@[k])@ == label_of(vs@[k]),
    ensures
        r@ == with_label(vs@, l@),
{
    let mut out: Vec<CommonAddress> = Vec::new();
    let mut i: usize = 0;
    while i < vs.len()
        invariant
            i <= vs@.len(),
            labels@.len() == vs@.len(),
            forall|k: int| 0 <= k < vs@.len() ==> (#[trigger] labels@[k])@ == label_of(vs@[k]),
            out@ == with_label(vs@.subrange(0, i as int), l@),
        decreases vs@.len() - i,
    {
        if str_eq(labels[i].as_str(), l.as_str()) {
            out.push(vs[i].copy());
        }
        let ghost prefix = vs@.subrange(0, i as int + 1);
        assert(prefix.drop_last() =~= vs@.subrange(0, i as int));
        assert(labels@[i as int]@ == label_of(vs@[i as int]));
        i += 1;
        assert(out@ =~= with_label(vs@.subrange(0, i as int), l@));
    }
    assert(vs@.subrange(0, i as int) =~= vs@);
    out
}

impl CommonAddresses {
    /// The addresses that share their label with another address, grouped by label, the groups
    /// in the order in which their labels first appear.
    pub fn duplicates(&self) -> (r: Vec<CommonAddress>)
        ensures
            r@ == duplicate_groups(self.records@),
    {
        let vs = &self.records;
        let n = vs.len();
        let mut labels: Vec<String> = Vec::new();
        let mut i: usize = 0;
        while i < n
            invariant
                n == vs@.len(),
                i <= n,
                labels@.len() == i,
                forall|k: int| 0 <= k < i ==> (#[trigger] labels@[k])@ == label_of(vs@[k]),
            decreases n - i,
        {
            labels.push(vs[i].label());
            i += 1;
        }
        let mut out: Vec<CommonAddress> = Vec::new();
        let mut i: usize = 0;
        while i < n
            invariant
                n == vs@.len(),
                i <= n,
                labels@.len() == n,
                forall|k: int| 0 <= k < n ==> (#[trigger] labels@[k])@ == label_of(vs@[k]),
                out@ == duplicate_groups_upto(vs@, i as int),
            decreases n - i,
        {
            let mut first = true;
            let mut j: usize = 0;
            while j < i
                invariant
                    i < n,
                    j <= i,
                    labels@.len() == n,
                    forall|k: int| 0 <= k < n ==> (#[trigger] labels@[k])@ == label_of(vs@[k]),
                    first == forall|k: int| 0 <= k < j ==> label_of(#[trigger] vs@[k]) != label_of(
                        vs@[i as int],
                    ),
                decreases i - j,
            {
                assert(labels@[j as int]@ == label_of(vs@[j as int]));
                assert(labels@[i as int]@ == label_of(vs@[i as int]));
                if str_eq(labels[j].as_str(), labels[i].as_str()) {
                    first = false;
                }
                j += 1;
            }
            let ghost before = out@;
            if first {
                let mut group = same_label(vs, &labels, &labels[i]);
                assert(labels@[i as int]@ == label_of(vs@[i as int]));
                if group.len() > 1 {
                    out.append(&mut group);
                }
            }
            assert(out@ =~= duplicate_groups_upto(vs@, i as int + 1));
            i += 1;
        }
        out
    }

    /// The addresses that the filter named `filter` selects: `duplicate` gives the duplicate
    /// groups; any other name selects nothing.
    pub fn filter(&self, filter: &str) -> (r: Vec<CommonAddress>)
        ensures
            filter@ == "duplicate"@ ==> r@ == duplicate_groups(self.records@),
            filter@ != "duplicate"@ ==> r@.len() == 0,
    {
        if str_eq(filter, "duplicate") {
            self.duplicates()
        } else {
            Vec::new()
        }
    }

    /// Keeps the addresses whose field named `filter` reads `field`: `label`, `street_name`,
    /// `pre_directional` or `post_type`. Any other name keeps nothing.
    pub fn filter_field(&mut self, filter: &str, field: &str)
        ensures
            match field_of_name(filter@) {
                Some(f) => final(self).records@ == select_field(f, old(self).records@, field@),
                None => final(self).records@.len() == 0,
            },
    {
        let records = match field_named(filter) {
            Some(f) => select(f, &self.records, field),
            None => Vec::new(),
        };
        self.records = records;
    }

    /// Whether some address has the complete street name `street`, written in full.
    pub fn contains_street(&self, street: &str) -> (r: bool)
        ensures
            r == has_street(self.records@, street@),
    {
        let mut i: usize = 0;
        while i < self.records.len()
            invariant
                i <= self.records@.len(),
                forall|k: int|
                    0 <= k < i ==> complete_street_name_of(#[trigger] self.records@[k], false)
                        != street@,
            decreases self.records@.len() - i,
        {
            if str_eq(self.records[i].complete_street_name(false).as_str(), street) {
                return true;
            }
            i += 1;
        }
        false
    }

    /// The complete street names of these addresses, each once in order of first appearance,
    /// that no address of `other` has.
    pub fn orphan_streets(&self, other: &CommonAddresses) -> (r: Vec<String>)
        ensures
            r@.map_values(|s: String| s@) == orphans_upto(
                self.records@,
                other.records@,
                self.records@.len() as int,
            ),
    {
        let vs = &self.records;
        let n = vs.len();
        let mut streets: Vec<String> = Vec::new();
        let mut i: usize = 0;
        while i < n
            invariant
                n == vs@.len(),
                i <= n,
                streets@.len() == i,
                forall|k: int|
                    0 <= k < i ==> (#[trigger] streets@[k])@ == complete_street_name_of(
                        vs@[k],
                        false,
                    ),
            decreases n - i,
        {
            streets.push(vs[i].complete_street_name(false));
            i += 1;
        }
        let mut out: Vec<String> = Vec::new();
        let mut i: usize = 0;
        while i < n
            invariant
                n == vs@.len(),
                i <= n,
                streets@.len() == n,
                forall|k: int|
                    0 <= k < n ==> (#[trigger] streets@[k])@ == complete_street_name_of(
                        vs@[k],
                        false,
                    ),
                out@.map_values(|s: String| s@) == orphans_upto(vs@, other.records@, i as int),
            decreases n - i,
        {
            let mut first = true;
            let mut j: usize = 0;
            while j < i
                invariant
                    i < n,
                    j <= i,
                    streets@.len() == n,
                    forall|k: int|
                        0 <= k < n ==> (#[trigger] streets@[k])@ == complete_street_name_of(
                            vs@[k],
                            false,
                        ),
                    first == forall|k: int|
                        0 <= k < j ==> complete_street_name_of(#[trigger] vs@[k], false)
                            != complete_street_name_of(vs@[i as int], false),
                decreases i - j,
            {
                assert(streets@[j as int]@ == complete_street_name_of(vs@[j as int], false));
                assert(streets@[i as int]@ == complete_street_name_of(vs@[i as int], false));
                if str_eq(streets[j].as_str(), streets[i].as_str()) {
                    first = false;
                }
                j += 1;
            }
            let ghost before = out@;
            assert(streets@[i as int]@ == complete_street_name_of(vs@[i as int], false));
            if first && !other.contains_street(streets[i].as_str()) {
                out.push(streets[i].clone());
            }
            assert(out@.map_values(|s: String| s@) =~= orphans_upto(
                vs@,
                other.records@,
                i as int + 1,
            ));
            i += 1;
        }
        out
    }

    /// Applies the place-name corrections: an address whose abbreviated complete street name is
    /// one of the corrected names gets the street name and post type of the correction.
    pub fn citify(&mut self)
        ensures
            final(self).records@.len() == old(self).records@.len(),
            forall|i: int|
                0 <= i < old(self).records@.len() ==> corrected(
                    #[trigger] old(self).records@[i],
                    final(self).records@[i],
                ),
    {
        let n = self.records.len();
        let ghost start = self.records@;
        let mut i: usize = 0;
        while i < n
            invariant
                n == start.len(),
                i <= n,
                self.records@.len() == n,
                forall|k: int| 0 <= k < i ==> corrected(#[trigger] start[k], self.records@[k]),
                forall|k: int| i <= k < n ==> #[trigger] self.records@[k] == start[k],
            decreases n - i,
        {
            let street = self.records[i].complete_street_name(true);
            if let Some((name, post_type)) = correction(street.as_str()) {
                let mut a = self.records[i].copy();
                a.street_name = name;
                a.street_type = Some(post_type);
                self.records.set(i, a);
            }
            i += 1;
        }
    }
}

/// What the corrected street names and the abbreviations of their post types hold.
proof fn lemma_correction_literals()
    ensures
        "NE BEAVILLA VIEW"@.len() == 16 && "NE BEAVILLA VIEW"@[0] == 'N' && "NE BEAVILLA VIEW"@[1] == 'E' && "NE BEAVILLA VIEW"@[2] == ' ' && "NE BEAVILLA VIEW"@[3] == 'B' && "NE BEAVILLA VIEW"@[4] == 'E' && "NE BEAVILLA VIEW"@[5] == 'A' && "NE BEAVILLA VIEW"@[6] == 'V' && "NE BEAVILLA VIEW"@[7] == 'I' && "NE BEAVILLA VIEW"@[8] == 'L' && "NE BEAVILLA VIEW"@[9] == 'L' && "NE BEAVILLA VIEW"@[10] == 'A' && "NE BEAVILLA VIEW"@[11] == ' ' && "NE BEAVILLA VIEW"@[12] == 'V' && "NE BEAVILLA VIEW"@[13] == 'I' && "NE BEAVILLA VIEW"@[14] == 'E' && "NE BEAVILLA VIEW"@[15] == 'W',
        "COLUMBIA CREST"@.len() == 14 && "COLUMBIA CREST"@[0] == 'C' && "COLUMBIA CREST"@[1] == 'O' && "COLUMBIA CREST"@[2] == 'L' && "COLUMBIA CREST"@[3] == 'U' && "COLUMBIA CREST"@[4] == 'M' && "COLUMBIA CREST"@[5] == 'B' && "COLUMBIA CREST"@[6] == 'I' && "COLUMBIA CREST"@[7] == 'A' && "COLUMBIA CREST"@[8] == ' ' && "COLUMBIA CREST"@[9] == 'C' && "COLUMBIA CREST"@[10] == 'R' && "COLUMBIA CREST"@[11] == 'E' && "COLUMBIA CREST"@[12] == 'S' && "COLUMBIA CREST"@[13] == 'T',
        "SE FORMOSA GARDENS"@.len() == 18 && "SE FORMOSA GARDENS"@[0] == 'S' && "SE FORMOSA GARDENS"@[1] == 'E' && "SE FORMOSA GARDENS"@[2] == ' ' && "SE FORMOSA GARDENS"@[3] == 'F' && "SE FORMOSA GARDENS"@[4] == 'O' && "SE FORMOSA GARDENS"@[5] == 'R' && "SE FORMOSA GARDENS"@[6] == 'M' && "SE FORMOSA GARDENS"@[7] == 'O' && "SE FORMOSA GARDENS"@[8] == 'S' && "SE FORMOSA GARDENS"@[9] == 'A' && "SE FORMOSA GARDENS"@[10] == ' ' && "SE FORMOSA GARDENS"@[11] == 'G' && "SE FORMOSA GARDENS"@[12] == 'A' && "SE FORMOSA GARDENS"@[13] == 'R' && "SE FORMOSA GARDENS"@[14] == 'D' && "SE FORMOSA GARDENS"@[15] == 'E' && "SE FORMOSA GARDENS"@[16] == 'N' && "SE FORMOSA GARDENS"@[17] == 'S',
        "SE HILLTOP VIEW"@.len() == 15 && "SE HILLTOP VIEW"@[0] == 'S' && "SE HILLTOP VIEW"@[1] == 'E' && "SE HILLTOP VIEW"@[2] == ' ' && "SE HILLTOP VIEW"@[3] == 'H' && "SE HILLTOP VIEW"@[4] == 'I' && "SE HILLTOP VIEW"@[5] == 'L' && "SE HILLTOP VIEW"@[6] == 'L' && "SE HILLTOP VIEW"@[7] == 'T' && "SE HILLTOP VIEW"@[8] == 'O' && "SE HILLTOP VIEW"@[9] == 'P' && "SE HILLTOP VIEW"@[10] == ' ' && "SE HILLTOP VIEW"@[11] == 'V' && "SE HILLTOP VIEW"@[12] == 'I' && "SE HILLTOP VIEW"@[13] == 'E' && "SE HILLTOP VIEW"@[14] == 'W',
        "MARILEE ROW"@.len() == 11 && "MARILEE ROW"@[0] == 'M' && "MARILEE ROW"@[1] == 'A' && "MARILEE ROW"@[2] == 'R' && "MARILEE ROW"@[3] == 'I' && "MARILEE ROW"@[4] == 'L' && "MARILEE ROW"@[5] == 'E' && "MARILEE ROW"@[6] == 'E' && "MARILEE ROW"@[7] == ' ' && "MARILEE ROW"@[8] == 'R' && "MARILEE ROW"@[9] == 'O' && "MARILEE ROW"@[10] == 'W',
        "MEADOW GLEN"@.len() == 11 && "MEADOW GLEN"@[0] == 'M' && "MEADOW GLEN"@[1] == 'E' && "MEADOW GLEN"@[2] == 'A' && "MEADOW GLEN"@[3] == 'D' && "MEADOW GLEN"@[4] == 'O' && "MEADOW GLEN"@[5] == 'W' && "MEADOW GLEN"@[6] == ' ' && "MEADOW GLEN"@[7] == 'G' && "MEADOW GLEN"@[8] == 'L' && "MEADOW GLEN"@[9] == 'E' && "MEADOW GLEN"@[10] == 'N',
        "ROBERTSON CREST"@.len() == 15 && "ROBERTSON CREST"@[0] == 'R' && "ROBERTSON CREST"@[1] == 'O' && "ROBERTSON CREST"@[2] == 'B' && "ROBERTSON CREST"@[3] == 'E' && "ROBERTSON CREST"@[4] == 'R' && "ROBERTSON CREST"@[5] == 'T' && "ROBERTSON CREST"@[6] == 'S' && "ROBERTSON CREST"@[7] == 'O' && "ROBERTSON CREST"@[8] == 'N' && "ROBERTSON CREST"@[9] == ' ' && "ROBERTSON CREST"@[10] == 'C' && "ROBERTSON CREST"@[11] == 'R' && "ROBERTSON CREST"@[12] == 'E' && "ROBERTSON CREST"@[13] == 'S' && "ROBERTSON CREST"@[14] == 'T',
        "NE QUAIL CROSSING"@.len() == 17 && "NE QUAIL CROSSING"@[0] == 'N' && "NE QUAIL CROSSING"@[1] == 'E' && "NE QUAIL CROSSING"@[2] == ' ' && "NE QUAIL CROSSING"@[3] == 'Q' && "NE QUAIL CROSSING"@[4] == 'U' && "NE QUAIL CROSSING"@[5] == 'A' && "NE QUAIL CROSSING"@[6] == 'I' && "NE QUAIL CROSSING"@[7] == 'L' && "NE QUAIL CROSSING"@[8] == ' ' && "NE QUAIL CROSSING"@[9] == 'C' && "NE QUAIL CROSSING"@[10] == 'R' && "NE QUAIL CROSSING"@[11] == 'O' && "NE QUAIL CROSSING"@[12] == 'S' && "NE QUAIL CROSSING"@[13] == 'S' && "NE QUAIL CROSSING"@[14] == 'I' && "NE QUAIL CROSSING"@[15] == 'N' && "NE QUAIL CROSSING"@[16] == 'G',
        "VW"@.len() == 2 && "VW"@[0] == 'V' && "VW"@[1] == 'W',
        "CRST"@.len() == 4 && "CRST"@[0] == 'C' && "CRST"@[1] == 'R' && "CRST"@[2] == 'S' && "CRST"@[3] == 'T',
        "GDNS"@.len() == 4 && "GDNS"@[0] == 'G' && "GDNS"@[1] == 'D' && "GDNS"@[2] == 'N' && "GDNS"@[3] == 'S',
        "ROW"@.len() == 3 && "ROW"@[0] == 'R' && "ROW"@[1] == 'O' && "ROW"@[2] == 'W',
        "GLN"@.len() == 3 && "GLN"@[0] == 'G' && "GLN"@[1] == 'L' && "GLN"@[2] == 'N',
        "XING"@.len() == 4 && "XING"@[0] == 'X' && "XING"@[1] == 'I' && "XING"@[2] == 'N' && "XING"@[3] == 'G',
        "MARILEE"@.len() == 7 && "MARILEE"@[0] == 'M' && "MARILEE"@[1] == 'A' && "MARILEE"@[2] == 'R' && "MARILEE"@[3] == 'I' && "MARILEE"@[4] == 'L' && "MARILEE"@[5] == 'E' && "MARILEE"@[6] == 'E',
{
    reveal_strlit("NE BEAVILLA VIEW");
    reveal_strlit("COLUMBIA CREST");
    reveal_strlit("SE FORMOSA GARDENS");
    reveal_strlit("SE HILLTOP VIEW");
    reveal_strlit("MARILEE ROW");
    reveal_strlit("MEADOW GLEN");
    reveal_strlit("ROBERTSON CREST");
    reveal_strlit("NE QUAIL CROSSING");
    reveal_strlit("VW");
    reveal_strlit("CRST");
    reveal_strlit("GDNS");
    reveal_strlit("ROW");
    reveal_strlit("GLN");
    reveal_strlit("XING");
    reveal_strlit("MARILEE");
}

/// A street name just corrected ends in the abbreviation of its new post type, which no
/// corrected name but `MARILEE ROW` does.
proof fn lemma_corrected_name_stays(head: Seq<char>, p: StreetNamePostType)
    requires
        p == StreetNamePostType::VIEW || p == StreetNamePostType::CREST || p
            == StreetNamePostType::GARDENS || p == StreetNamePostType::ROW || p
            == StreetNamePostType::GLEN || p == StreetNamePostType::CROSSING,
    ensures
        correction_of(head + seq![' '] + post_type_abbreviation(p)) is None || (p
            == StreetNamePostType::ROW && correction_of(head + seq![' '] + post_type_abbreviation(p))
            == Some(("MARILEE"@, StreetNamePostType::ROW))),
{
    lemma_correction_literals();
    let tail = seq![' '] + post_type_abbreviation(p);
    let t = head + tail;
    let m = t.len() as int;
    match p {
        StreetNamePostType::VIEW => {
            assert(post_type_abbreviation(p) == "VW"@);
            assert(t[m - 1] == 'W');
            assert(t[m - 2] == 'V');
            assert(t[m - 3] == ' ');
        },
        StreetNamePostType::CREST => {
            assert(post_type_abbreviation(p) == "CRST"@);
            assert(t[m - 1] == 'T');
            assert(t[m - 2] == 'S');
            assert(t[m - 3] == 'R');
            assert(t[m - 4] == 'C');
            assert(t[m - 5] == ' ');
        },
        StreetNamePostType::GARDENS => {
            assert(post_type_abbreviation(p) == "GDNS"@);
            assert(t[m - 1] == 'S');
            assert(t[m - 2] == 'N');
            assert(t[m - 3] == 'D');
            assert(t[m - 4] == 'G');
            assert(t[m - 5] == ' ');
        },
        StreetNamePostType::ROW => {
            assert(post_type_abbreviation(p) == "ROW"@);
            assert(t[m - 1] == 'W');
            assert(t[m - 2] == 'O');
            assert(t[m - 3] == 'R');
            assert(t[m - 4] == ' ');
        },
        StreetNamePostType::GLEN => {
            assert(post_type_abbreviation(p) == "GLN"@);
            assert(t[m - 1] == 'N');
            assert(t[m - 2] == 'L');
            assert(t[m - 3] == 'G');
            assert(t[m - 4] == ' ');
        },
        StreetNamePostType::CROSSING => {
            assert(post_type_abbreviation(p) == "XING"@);
            assert(t[m - 1] == 'G');
            assert(t[m - 2] == 'N');
            assert(t[m - 3] == 'I');
            assert(t[m - 4] == 'X');
            assert(t[m - 5] == ' ');
        },
        _ => {},
    }
}

/// The place-name corrections are idempotent: correcting an address that was just corrected
/// leaves it as it is.
pub proof fn lemma_correction_idempotent(a: CommonAddress, b: CommonAddress, c: CommonAddress)
    requires
        corrected(a, b),
        corrected(b, c),
    ensures
        c.street_name@ == b.street_name@,
        c.street_type == b.street_type,
        c == (CommonAddress { street_name: c.street_name, ..b }),
{
    match correction_of(complete_street_name_of(a, true)) {
        None => {},
        Some((n, p)) => {
            let head = (match b.directional {
                Some(d) => directional_abbreviation(d) + seq![' '],
                None => Seq::empty(),
            }) + opt_word(b.pre_modifier) + opt_word(b.pre_type) + opt_word(b.separator)
                + b.street_name@;
            assert(complete_street_name_of(b, true) =~= head + seq![' '] + post_type_abbreviation(p));
            lemma_corrected_name_stays(head, p);
            if p == StreetNamePostType::ROW {
                lemma_correction_literals();
                assert(n == "MARILEE"@);
            }
        },
    }
}

/// Every address that `with_label` returns has the label asked for.
proof fn lemma_with_label_labels(vs: Seq<CommonAddress>, l: Seq<char>)
    ensures
        forall|k: int|
            0 <= k < with_label(vs, l).len() ==> label_of(#[trigger] with_label(vs, l)[k]) == l,
    decreases vs.len(),
{
    if vs.len() > 0 {
        lemma_with_label_labels(vs.drop_last(), l);
        let w = with_label(vs.drop_last(), l);
        assert forall|k: int| 0 <= k < with_label(vs, l).len() implies label_of(
            #[trigger] with_label(vs, l)[k],
        ) == l by {
            if k < w.len() {
                assert(with_label(vs, l)[k] == w[k]);
            }
        }
    }
}

/// An address with label `l` is among those that `with_label` returns.
proof fn lemma_with_label_contains(vs: Seq<CommonAddress>, l: Seq<char>, i: int)
    requires
        0 <= i < vs.len(),
        label_of(vs[i]) == l,
    ensures
        with_label(vs, l).contains(vs[i]),
    decreases vs.len(),
{
    if i == vs.len() - 1 {
        assert(with_label(vs, l)[with_label(vs, l).len() - 1] == vs[i]);
    } else {
        lemma_with_label_contains(vs.drop_last(), l, i);
        let w = with_label(vs.drop_last(), l);
        let k = choose|k: int| 0 <= k < w.len() && w[k] == vs.drop_last()[i];
        assert(with_label(vs, l)[k] == vs[i]);
    }
}

/// The label of every address lies first at some position.
proof fn lemma_first_label(vs: Seq<CommonAddress>, i: int)
    requires
        0 <= i < vs.len(),
    ensures
        exists|j: int| 0 <= j <= i && first_with_label(vs, j) && label_of(vs[j]) == label_of(vs[i]),
    decreases i,
{
    if !first_with_label(vs, i) {
        let j0 = choose|j: int| 0 <= j < i && label_of(vs[j]) == label_of(vs[i]);
        lemma_first_label(vs, j0);
    }
}

/// Every address of the duplicate groups up to `n` shares its label with another address.
proof fn lemma_groups_shared(vs: Seq<CommonAddress>, n: int)
    ensures
        forall|k: int|
            0 <= k < duplicate_groups_upto(vs, n).len() ==> with_label(
                vs,
                label_of(#[trigger] duplicate_groups_upto(vs, n)[k]),
            ).len() > 1,
    decreases n,
{
    if n > 0 {
        lemma_groups_shared(vs, n - 1);
        let prev = duplicate_groups_upto(vs, n - 1);
        let l = label_of(vs[n - 1]);
        lemma_with_label_labels(vs, l);
        assert forall|k: int| 0 <= k < duplicate_groups_upto(vs, n).len() implies with_label(
            vs,
            label_of(#[trigger] duplicate_groups_upto(vs, n)[k]),
        ).len() > 1 by {
            if k < prev.len() {
                assert(duplicate_groups_upto(vs, n)[k] == prev[k]);
            } else {
                assert(duplicate_groups_upto(vs, n)[k] == with_label(vs, l)[k - prev.len()]);
            }
        }
    }
}

/// The group of a label that first appears before `n`, when it has more than one address, is
/// within the duplicate groups up to `n`.
proof fn lemma_groups_contain(vs: Seq<CommonAddress>, n: int, j: int, x: CommonAddress)
    requires
        0 <= j < n <= vs.len(),
        first_with_label(vs, j),
        with_label(vs, label_of(vs[j])).len() > 1,
        with_label(vs, label_of(vs[j])).contains(x),
    ensures
        duplicate_groups_upto(vs, n).contains(x),
    decreases n,
{
    let prev = duplicate_groups_upto(vs, n - 1);
    if j == n - 1 {
        let g = with_label(vs, label_of(vs[j]));
        let k = choose|k: int| 0 <= k < g.len() && g[k] == x;
        assert(duplicate_groups_upto(vs, n)[prev.len() + k] == x);
    } else {
        lemma_groups_contain(vs, n - 1, j, x);
        let k = choose|k: int| 0 <= k < prev.len() && prev[k] == x;
        assert(duplicate_groups_upto(vs, n)[k] == x);
    }
}

/// Duplicate detection is exact: what it returns are addresses whose label another address
/// shares too, and every such address is returned.
pub proof fn lemma_duplicates_exact(vs: Seq<CommonAddress>)
    ensures
        forall|k: int|
            0 <= k < duplicate_groups(vs).len() ==> with_label(
                vs,
                label_of(#[trigger] duplicate_groups(vs)[k]),
            ).len() > 1,
        forall|i: int|
            0 <= i < vs.len() && with_label(vs, label_of(vs[i])).len() > 1 ==> duplicate_groups(
                vs,
            ).contains(#[trigger] vs[i]),
{
    lemma_groups_shared(vs, vs.len() as int);
    assert forall|i: int|
        0 <= i < vs.len() && with_label(vs, label_of(vs[i])).len() > 1 implies duplicate_groups(
        vs,
    ).contains(#[trigger] vs[i]) by {
        lemma_first_label(vs, i);
        let j = choose|j: int|
            0 <= j <= i && first_with_label(vs, j) && label_of(vs[j]) == label_of(vs[i]);
        lemma_with_label_contains(vs, label_of(vs[j]), i);
        lemma_groups_contain(vs, vs.len() as int, j, vs[i]);
    }
}

} // verus!
