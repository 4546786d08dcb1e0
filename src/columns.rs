//! The fixed set of descriptive attributes of a specimen record, and the
//! allow-list that maps a column name to one of them.
use vstd::prelude::*;

use crate::text::same_text;

verus! {

/// How many descriptive text attributes a record has.
pub const ATTRIBUTE_COUNT: usize = 24;

/// One descriptive attribute of a specimen record, in table order.
#[derive(Clone, Copy, Debug, PartialEq, Eq, Structural)]
pub enum Column {
    Code,
    Genus,
    Species,
    SizeMm,
    Body,
    Coloration,
    Distribution,
    DepthM,
    BodyArmament,
    MedianRowIVii,
    MedianRowViiiX,
    MedianRowUrozom,
    LateralRow,
    MarginalRow,
    SpecialArmament,
    EpimeralPlate,
    UpperAntennae,
    AccessoryFlagellum,
    LowerAntennae,
    BasipoditeIiiV,
    UropodsIii,
    HeadSegment,
    Eyes,
    Telson,
}

/// The attribute whose column name is `s`, if there is one (names are
/// distinct, see `lemma_names_distinct`).
pub open spec fn column_named(s: Seq<char>) -> Option<Column> {
    if exists|c: Column| c.name_of() == s {
        Some(choose|c: Column| c.name_of() == s)
    } else {
        None
    }
}

/// Direction of a sorted listing.
#[derive(Clone, Copy, Debug, PartialEq, Eq, Structural)]
pub enum SortDirection {
    Ascending,
    Descending,
}

impl Column {
    /// Position of the attribute in the table, after the identifier.
    pub open spec fn position(self) -> int {
        match self {
            Column::Code => 0,
            Column::Genus => 1,
            Column::Species => 2,
            Column::SizeMm => 3,
            Column::Body => 4,
            Column::Coloration => 5,
            Column::Distribution => 6,
            Column::DepthM => 7,
            Column::BodyArmament => 8,
            Column::MedianRowIVii => 9,
            Column::MedianRowViiiX => 10,
            Column::MedianRowUrozom => 11,
            Column::LateralRow => 12,
            Column::MarginalRow => 13,
            Column::SpecialArmament => 14,
            Column::EpimeralPlate => 15,
            Column::UpperAntennae => 16,
            Column::AccessoryFlagellum => 17,
            Column::LowerAntennae => 18,
            Column::BasipoditeIiiV => 19,
            Column::UropodsIii => 20,
            Column::HeadSegment => 21,
            Column::Eyes => 22,
            Column::Telson => 23,
        }
    }

    /// The attribute at position `i` of the table (the last one past the end).
    pub open spec fn at(i: int) -> Column {
        if i == 0 {
            Column::Code
        } else if i == 1 {
            Column::Genus
        } else if i == 2 {
            Column::Species
        } else if i == 3 {
            Column::SizeMm
        } else if i == 4 {
            Column::Body
        } else if i == 5 {
            Column::Coloration
        } else if i == 6 {
            Column::Distribution
        } else if i == 7 {
            Column::DepthM
        } else if i == 8 {
            Column::BodyArmament
        } else if i == 9 {
            Column::MedianRowIVii
        } else if i == 10 {
            Column::MedianRowViiiX
        } else if i == 11 {
            Column::MedianRowUrozom
        } else if i == 12 {
            Column::LateralRow
        } else if i == 13 {
            Column::MarginalRow
        } else if i == 14 {
            Column::SpecialArmament
        } else if i == 15 {
            Column::EpimeralPlate
        } else if i == 16 {
            Column::UpperAntennae
        } else if i == 17 {
            Column::AccessoryFlagellum
        } else if i == 18 {
            Column::LowerAntennae
        } else if i == 19 {
            Column::BasipoditeIiiV
        } else if i == 20 {
            Column::UropodsIii
        } else if i == 21 {
            Column::HeadSegment
        } else if i == 22 {
            Column::Eyes
        } else {
            Column::Telson
        }
    }

    /// The literal name of the attribute's column in the store.
    pub open spec fn name_of(self) -> Seq<char> {
        match self {
            Column::Code => "Код"@,
            Column::Genus => "Род"@,
            Column::Species => "Вид"@,
            Column::SizeMm => "Размеры_мм"@,
            Column::Body => "Тело"@,
            Column::Coloration => "Окраска"@,
            Column::Distribution => "Распространение"@,
            Column::DepthM => "Глубина_м"@,
            Column::BodyArmament => "Вооруж_тела"@,
            Column::MedianRowIVii => "Средний_ряд_I_VII"@,
            Column::MedianRowViiiX => "Средн_ряд_VIII_X"@,
            Column::MedianRowUrozom => "Сред_ряд_урозом"@,
            Column::LateralRow => "Боковой_ряд"@,
            Column::MarginalRow => "Краевой_ряд"@,
            Column::SpecialArmament => "Особен_воор"@,
            Column::EpimeralPlate => "Эпимир_пласт"@,
            Column::UpperAntennae => "Верх_антенны"@,
            Column::AccessoryFlagellum => "Прид_жгутик"@,
            Column::LowerAntennae => "Нижн_антенны"@,
            Column::BasipoditeIiiV => "Базип_III_V"@,
            Column::UropodsIii => "Уроподы_III"@,
            Column::HeadSegment => "Головн_сегм"@,
            Column::Eyes => "Глаза"@,
            Column::Telson => "Тельсон"@,
        }
    }

    pub fn index(self) -> (r: usize)
        ensures
            r as int == self.position(),
            r < ATTRIBUTE_COUNT,
    {
        match self {
        Column::Code => 0,
        Column::Genus => 1,
        Column::Species => 2,
        Column::SizeMm => 3,
        Column::Body => 4,
        Column::Coloration => 5,
        Column::Distribution => 6,
        Column::DepthM => 7,
        Column::BodyArmament => 8,
        Column::MedianRowIVii => 9,
        Column::MedianRowViiiX => 10,
        Column::MedianRowUrozom => 11,
        Column::LateralRow => 12,
        Column::MarginalRow => 13,
        Column::SpecialArmament => 14,
        Column::EpimeralPlate => 15,
        Column::UpperAntennae => 16,
        Column::AccessoryFlagellum => 17,
        Column::LowerAntennae => 18,
        Column::BasipoditeIiiV => 19,
        Column::UropodsIii => 20,
        Column::HeadSegment => 21,
        Column::Eyes => 22,
        Column::Telson => 23,
        }
    }

    pub fn from_index(i: usize) -> (r: Column)
        requires
            i < ATTRIBUTE_COUNT,
        ensures
            r == Column::at(i as int),
            r.position() == i as int,
    {
            if i == 0 {
                Column::Code
            } else if i == 1 {
                Column::Genus
            } else if i == 2 {
                Column::Species
            } else if i == 3 {
                Column::SizeMm
            } else if i == 4 {
                Column::Body
            } else if i == 5 {
                Column::Coloration
            } else if i == 6 {
                Column::Distribution
            } else if i == 7 {
                Column::DepthM
            } else if i == 8 {
                Column::BodyArmament
            } else if i == 9 {
                Column::MedianRowIVii
            } else if i == 10 {
                Column::MedianRowViiiX
            } else if i == 11 {
                Column::MedianRowUrozom
            } else if i == 12 {
                Column::LateralRow
            } else if i == 13 {
                Column::MarginalRow
            } else if i == 14 {
                Column::SpecialArmament
            } else if i == 15 {
                Column::EpimeralPlate
            } else if i == 16 {
                Column::UpperAntennae
            } else if i == 17 {
                Column::AccessoryFlagellum
            } else if i == 18 {
                Column::LowerAntennae
            } else if i == 19 {
                Column::BasipoditeIiiV
            } else if i == 20 {
                Column::UropodsIii
            } else if i == 21 {
                Column::HeadSegment
            } else if i == 22 {
                Column::Eyes
            } else {
                Column::Telson
            }
    }

    /// The column name that the store uses for this attribute.
    pub fn name(self) -> (r: &'static str)
        ensures
            r@ == self.name_of(),
    {
        match self {
            Column::Code => "Код",
            Column::Genus => "Род",
            Column::Species => "Вид",
            Column::SizeMm => "Размеры_мм",
            Column::Body => "Тело",
            Column::Coloration => "Окраска",
            Column::Distribution => "Распространение",
            Column::DepthM => "Глубина_м",
            Column::BodyArmament => "Вооруж_тела",
            Column::MedianRowIVii => "Средний_ряд_I_VII",
            Column::MedianRowViiiX => "Средн_ряд_VIII_X",
            Column::MedianRowUrozom => "Сред_ряд_урозом",
            Column::LateralRow => "Боковой_ряд",
            Column::MarginalRow => "Краевой_ряд",
            Column::SpecialArmament => "Особен_воор",
            Column::EpimeralPlate => "Эпимир_пласт",
            Column::UpperAntennae => "Верх_антенны",
            Column::AccessoryFlagellum => "Прид_жгутик",
            Column::LowerAntennae => "Нижн_антенны",
            Column::BasipoditeIiiV => "Базип_III_V",
            Column::UropodsIii => "Уроподы_III",
            Column::HeadSegment => "Головн_сегм",
            Column::Eyes => "Глаза",
            Column::Telson => "Тельсон",
        }
    }

    /// Looks a column name up in the allow-list. Only the exact name of one
    /// of the attributes is accepted; anything else gives `None`.
    pub fn parse(text: &str) -> (r: Option<Column>)
        ensures
            r == column_named(text@),
            match r {
                Some(c) => c.name_of() == text@,
                None => forall|c: Column| c.name_of() != text@,
            },
    {
        let mut i: usize = 0;
        while i < ATTRIBUTE_COUNT
            invariant
                i <= ATTRIBUTE_COUNT,
                forall|c: Column| c.position() < i ==> c.name_of() != text@,
            decreases ATTRIBUTE_COUNT - i,
        {
            let c = Column::from_index(i);
            if same_text(text, c.name()) {
                proof {
                    let d = choose|d: Column| d.name_of() == text@;
                    lemma_names_distinct(c, d);
                }
                return Some(c);
            }
            i = i + 1;
        }
        None
    }
}

impl Column {
    /// Length and first two characters of the column name: enough to tell
    /// the names apart.
    pub open spec fn name_shape(self) -> (int, char, char) {
        match self {
            Column::Code => (3, 'К', 'о'),
            Column::Genus => (3, 'Р', 'о'),
            Column::Species => (3, 'В', 'и'),
            Column::SizeMm => (10, 'Р', 'а'),
            Column::Body => (4, 'Т', 'е'),
            Column::Coloration => (7, 'О', 'к'),
            Column::Distribution => (15, 'Р', 'а'),
            Column::DepthM => (9, 'Г', 'л'),
            Column::BodyArmament => (11, 'В', 'о'),
            Column::MedianRowIVii => (17, 'С', 'р'),
            Column::MedianRowViiiX => (16, 'С', 'р'),
            Column::MedianRowUrozom => (15, 'С', 'р'),
            Column::LateralRow => (11, 'Б', 'о'),
            Column::MarginalRow => (11, 'К', 'р'),
            Column::SpecialArmament => (11, 'О', 'с'),
            Column::EpimeralPlate => (12, 'Э', 'п'),
            Column::UpperAntennae => (12, 'В', 'е'),
            Column::AccessoryFlagellum => (11, 'П', 'р'),
            Column::LowerAntennae => (12, 'Н', 'и'),
            Column::BasipoditeIiiV => (11, 'Б', 'а'),
            Column::UropodsIii => (11, 'У', 'р'),
            Column::HeadSegment => (11, 'Г', 'о'),
            Column::Eyes => (5, 'Г', 'л'),
            Column::Telson => (7, 'Т', 'е'),
        }
    }
}

pub proof fn lemma_name_shape(c: Column)
    ensures
        c.name_of().len() == c.name_shape().0,
        c.name_of()[0] == c.name_shape().1,
        c.name_of()[1] == c.name_shape().2,
{
    match c {
        Column::Code => {
            reveal_strlit("Код");
        },
        Column::Genus => {
            reveal_strlit("Род");
        },
        Column::Species => {
            reveal_strlit("Вид");
        },
        Column::SizeMm => {
            reveal_strlit("Размеры_мм");
        },
        Column::Body => {
            reveal_strlit("Тело");
        },
        Column::Coloration => {
            reveal_strlit("Окраска");
        },
        Column::Distribution => {
            reveal_strlit("Распространение");
        },
        Column::DepthM => {
            reveal_strlit("Глубина_м");
        },
        Column::BodyArmament => {
            reveal_strlit("Вооруж_тела");
        },
        Column::MedianRowIVii => {
            reveal_strlit("Средний_ряд_I_VII");
        },
        Column::MedianRowViiiX => {
            reveal_strlit("Средн_ряд_VIII_X");
        },
        Column::MedianRowUrozom => {
            reveal_strlit("Сред_ряд_урозом");
        },
        Column::LateralRow => {
            reveal_strlit("Боковой_ряд");
        },
        Column::MarginalRow => {
            reveal_strlit("Краевой_ряд");
        },
        Column::SpecialArmament => {
            reveal_strlit("Особен_воор");
        },
        Column::EpimeralPlate => {
            reveal_strlit("Эпимир_пласт");
        },
        Column::UpperAntennae => {
            reveal_strlit("Верх_антенны");
        },
        Column::AccessoryFlagellum => {
            reveal_strlit("Прид_жгутик");
        },
        Column::LowerAntennae => {
            reveal_strlit("Нижн_антенны");
        },
        Column::BasipoditeIiiV => {
            reveal_strlit("Базип_III_V");
        },
        Column::UropodsIii => {
            reveal_strlit("Уроподы_III");
        },
        Column::HeadSegment => {
            reveal_strlit("Головн_сегм");
        },
        Column::Eyes => {
            reveal_strlit("Глаза");
        },
        Column::Telson => {
            reveal_strlit("Тельсон");
        },
    }
}

/// Distinct attributes have distinct column names.
pub proof fn lemma_names_distinct(c: Column, d: Column)
    ensures
        c.name_of() == d.name_of() ==> c == d,
{
    lemma_name_shape(c);
    lemma_name_shape(d);
}

/// Every attribute has a position in the table, and the position leads back to it.
pub proof fn lemma_position_at(c: Column)
    ensures
        0 <= c.position() < ATTRIBUTE_COUNT,
        Column::at(c.position()) == c,
{
}

} // verus!
