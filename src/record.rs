//! The specimen record: an identifier and 24 descriptive text attributes.
use vstd::prelude::*;

use crate::columns::{Column, ATTRIBUTE_COUNT};

verus! {

/// One specimen of the catalog. `id` is assigned by the repository; every
/// other field is free text, empty when unknown.
#[derive(Debug)]
pub struct Eucarinogammarus {
    pub id: i32,
    pub code: String,
    pub genus: String,
    pub species: String,
    pub size_mm: String,
    pub body: String,
    pub coloration: String,
    pub distribution: String,
    pub depth_m: String,
    pub body_armament: String,
    pub median_row_i_vii: String,
    pub median_row_viii_x: String,
    pub median_row_urozom: String,
    pub lateral_row: String,
    pub marginal_row: String,
    pub special_armament: String,
    pub epimeral_plate: String,
    pub upper_antennae: String,
    pub accessory_flagellum: String,
    pub lower_antennae: String,
    pub basipodite_iii_v: String,
    pub uropods_iii: String,
    pub head_segment: String,
    pub eyes: String,
    pub telson: String,
}

/// The text of value `i` of a positional list, or the empty text when the
/// list is shorter.
pub open spec fn value_or_empty(values: Seq<Seq<char>>, i: int) -> Seq<char> {
    if 0 <= i < values.len() {
        values[i]
    } else {
        Seq::empty()
    }
}

/// Value `i` of a positional list, or a new empty string past its end.
pub fn value_at(values: &Vec<String>, i: usize) -> (r: String)
    ensures
        r@ == value_or_empty(values.deep_view(), i as int),
{
    if i < values.len() {
        values[i].clone()
    } else {
        String::new()
    }
}

impl Clone for Eucarinogammarus {
    fn clone(&self) -> (r: Self)
        ensures
            r == *self,
    {
        Eucarinogammarus {
            id: self.id,
            code: self.code.clone(),
            genus: self.genus.clone(),
            species: self.species.clone(),
            size_mm: self.size_mm.clone(),
            body: self.body.clone(),
            coloration: self.coloration.clone(),
            distribution: self.distribution.clone(),
            depth_m: self.depth_m.clone(),
            body_armament: self.body_armament.clone(),
            median_row_i_vii: self.median_row_i_vii.clone(),
            median_row_viii_x: self.median_row_viii_x.clone(),
            median_row_urozom: self.median_row_urozom.clone(),
            lateral_row: self.lateral_row.clone(),
            marginal_row: self.marginal_row.clone(),
            special_armament: self.special_armament.clone(),
            epimeral_plate: self.epimeral_plate.clone(),
            upper_antennae: self.upper_antennae.clone(),
            accessory_flagellum: self.accessory_flagellum.clone(),
            lower_antennae: self.lower_antennae.clone(),
            basipodite_iii_v: self.basipodite_iii_v.clone(),
            uropods_iii: self.uropods_iii.clone(),
            head_segment: self.head_segment.clone(),
            eyes: self.eyes.clone(),
            telson: self.telson.clone(),
        }
    }
}

impl Eucarinogammarus {
    /// The text of attribute `c`.
    pub open spec fn attr(&self, c: Column) -> Seq<char> {
        match c {
            Column::Code => self.code@,
            Column::Genus => self.genus@,
            Column::Species => self.species@,
            Column::SizeMm => self.size_mm@,
            Column::Body => self.body@,
            Column::Coloration => self.coloration@,
            Column::Distribution => self.distribution@,
            Column::DepthM => self.depth_m@,
            Column::BodyArmament => self.body_armament@,
            Column::MedianRowIVii => self.median_row_i_vii@,
            Column::MedianRowViiiX => self.median_row_viii_x@,
            Column::MedianRowUrozom => self.median_row_urozom@,
            Column::LateralRow => self.lateral_row@,
            Column::MarginalRow => self.marginal_row@,
            Column::SpecialArmament => self.special_armament@,
            Column::EpimeralPlate => self.epimeral_plate@,
            Column::UpperAntennae => self.upper_antennae@,
            Column::AccessoryFlagellum => self.accessory_flagellum@,
            Column::LowerAntennae => self.lower_antennae@,
            Column::BasipoditeIiiV => self.basipodite_iii_v@,
            Column::UropodsIii => self.uropods_iii@,
            Column::HeadSegment => self.head_segment@,
            Column::Eyes => self.eyes@,
            Column::Telson => self.telson@,
        }
    }

    /// Whether the record has identifier `id` and, for each attribute, the
    /// value at the attribute's position in `values` (empty past its end).
    pub open spec fn holds(&self, id: int, values: Seq<Seq<char>>) -> bool {
        &&& self.id == id
        &&& forall|c: Column| #[trigger] self.attr(c) == value_or_empty(values, c.position())
    }

    /// Whether `self` is `other` with attribute `c` set to `value` and all
    /// else kept.
    pub open spec fn is_update_of(&self, other: Self, c: Column, value: Seq<char>) -> bool {
        &&& self.id == other.id
        &&& self.attr(c) == value
        &&& forall|d: Column| d != c ==> #[trigger] self.attr(d) == other.attr(d)
    }

    /// Builds a record from positional values: value `i` goes to the
    /// attribute at position `i`; missing trailing values are empty and
    /// values past the last attribute are ignored.
    pub fn from_values(id: i32, values: &Vec<String>) -> (r: Eucarinogammarus)
        ensures
            r.holds(id as int, values.deep_view()),
    {
        Eucarinogammarus {
            id,
            code: value_at(values, 0),
            genus: value_at(values, 1),
            species: value_at(values, 2),
            size_mm: value_at(values, 3),
            body: value_at(values, 4),
            coloration: value_at(values, 5),
            distribution: value_at(values, 6),
            depth_m: value_at(values, 7),
            body_armament: value_at(values, 8),
            median_row_i_vii: value_at(values, 9),
            median_row_viii_x: value_at(values, 10),
            median_row_urozom: value_at(values, 11),
            lateral_row: value_at(values, 12),
            marginal_row: value_at(values, 13),
            special_armament: value_at(values, 14),
            epimeral_plate: value_at(values, 15),
            upper_antennae: value_at(values, 16),
            accessory_flagellum: value_at(values, 17),
            lower_antennae: value_at(values, 18),
            basipodite_iii_v: value_at(values, 19),
            uropods_iii: value_at(values, 20),
            head_segment: value_at(values, 21),
            eyes: value_at(values, 22),
            telson: value_at(values, 23),
        }
    }

    /// The text of attribute `c`.
    pub fn attribute(&self, c: Column) -> (r: &String)
        ensures
            r@ == self.attr(c),
    {
        match c {
            Column::Code => &self.code,
            Column::Genus => &self.genus,
            Column::Species => &self.species,
            Column::SizeMm => &self.size_mm,
            Column::Body => &self.body,
            Column::Coloration => &self.coloration,
            Column::Distribution => &self.distribution,
            Column::DepthM => &self.depth_m,
            Column::BodyArmament => &self.body_armament,
            Column::MedianRowIVii => &self.median_row_i_vii,
            Column::MedianRowViiiX => &self.median_row_viii_x,
            Column::MedianRowUrozom => &self.median_row_urozom,
            Column::LateralRow => &self.lateral_row,
            Column::MarginalRow => &self.marginal_row,
            Column::SpecialArmament => &self.special_armament,
            Column::EpimeralPlate => &self.epimeral_plate,
            Column::UpperAntennae => &self.upper_antennae,
            Column::AccessoryFlagellum => &self.accessory_flagellum,
            Column::LowerAntennae => &self.lower_antennae,
            Column::BasipoditeIiiV => &self.basipodite_iii_v,
            Column::UropodsIii => &self.uropods_iii,
            Column::HeadSegment => &self.head_segment,
            Column::Eyes => &self.eyes,
            Column::Telson => &self.telson,
        }
    }

    /// Replaces attribute `c` with `value`, keeping the identifier and every
    /// other attribute.
    pub fn set_attribute(&mut self, c: Column, value: String)
        ensures
            final(self).is_update_of(*old(self), c, value@),
    {
        match c {
            Column::Code => self.code = value,
            Column::Genus => self.genus = value,
            Column::Species => self.species = value,
            Column::SizeMm => self.size_mm = value,
            Column::Body => self.body = value,
            Column::Coloration => self.coloration = value,
            Column::Distribution => self.distribution = value,
            Column::DepthM => self.depth_m = value,
            Column::BodyArmament => self.body_armament = value,
            Column::MedianRowIVii => self.median_row_i_vii = value,
            Column::MedianRowViiiX => self.median_row_viii_x = value,
            Column::MedianRowUrozom => self.median_row_urozom = value,
            Column::LateralRow => self.lateral_row = value,
            Column::MarginalRow => self.marginal_row = value,
            Column::SpecialArmament => self.special_armament = value,
            Column::EpimeralPlate => self.epimeral_plate = value,
            Column::UpperAntennae => self.upper_antennae = value,
            Column::AccessoryFlagellum => self.accessory_flagellum = value,
            Column::LowerAntennae => self.lower_antennae = value,
            Column::BasipoditeIiiV => self.basipodite_iii_v = value,
            Column::UropodsIii => self.uropods_iii = value,
            Column::HeadSegment => self.head_segment = value,
            Column::Eyes => self.eyes = value,
            Column::Telson => self.telson = value,
        }
    }

    /// The attributes in table order.
    pub fn values(&self) -> (r: Vec<String>)
        ensures
            r@.len() == ATTRIBUTE_COUNT,
            forall|c: Column| #[trigger] r@[c.position()]@ == self.attr(c),
    {
        let mut r: Vec<String> = Vec::new();
        let mut i: usize = 0;
        while i < ATTRIBUTE_COUNT
            invariant
                i <= ATTRIBUTE_COUNT,
                r@.len() == i,
                forall|j: int| 0 <= j < i ==> #[trigger] r@[j]@ == self.attr(Column::at(j)),
            decreases ATTRIBUTE_COUNT - i,
        {
            let c = Column::from_index(i);
            r.push(self.attribute(c).clone());
            i = i + 1;
        }
        proof {
            assert forall|c: Column| #[trigger] r@[c.position()]@ == self.attr(c) by {
                crate::columns::lemma_position_at(c);
            }
        }
        r
    }
}

/// The five attributes that the short entry form collects for a new record.
#[derive(Debug, Default, Clone)]
pub struct NewRecord {
    pub code: String,
    pub genus: String,
    pub species: String,
    pub size_mm: String,
    pub body: String,
}

impl NewRecord {
    /// The form's values in table order, ready for an insert: the remaining
    /// attributes stay empty.
    pub fn to_values(&self) -> (r: Vec<String>)
        ensures
            r.deep_view() == seq![self.code@, self.genus@, self.species@, self.size_mm@, self.body@],
    {
        let mut r: Vec<String> = Vec::new();
        r.push(self.code.clone());
        r.push(self.genus.clone());
        r.push(self.species.clone());
        r.push(self.size_mm.clone());
        r.push(self.body.clone());
        assert(r.deep_view() =~= seq![self.code@, self.genus@, self.species@, self.size_mm@, self.body@]);
        r
    }
}

} // verus!
