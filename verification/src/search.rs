//! The textual search language: a one-line phrase
//! `<field> <"not"|""> <operator> <value…>` parsed into a validated search,
//! which lowers into one filter-builder call or a keyword join.

use vstd::prelude::*;
use crate::catalog::{Keyword, Music};
use crate::query::{CmpModel, Column, MusicQuery};
use crate::store::{Db, Error};
use crate::text::{
    all_digits, contains_char, digits_val, first_occurrence, parse_u16, split_char, split_seq,
    splitn_char, splitn_seq, str_eq,
};

verus! {

/// A comparison operator of the search language.
#[derive(Clone, Copy, Debug, PartialEq, Eq, Structural)]
pub enum SearchOp {
    /// `==`: numeric equality.
    Eq,
    /// `'=`: string equality.
    StrEq,
    Lt,
    Le,
    Gt,
    Ge,
    /// `in`: substring.
    Contains,
    /// `has`: keyword attachment.
    Has,
}

impl SearchOp {
    /// The operator's textual token.
    pub open spec fn spec_token(self) -> Seq<char> {
        match self {
            SearchOp::Eq => "=="@,
            SearchOp::StrEq => "'="@,
            SearchOp::Lt => "<"@,
            SearchOp::Le => "<="@,
            SearchOp::Gt => ">"@,
            SearchOp::Ge => ">="@,
            SearchOp::Contains => "in"@,
            SearchOp::Has => "has"@,
        }
    }

    /// The operator's textual token.
    pub fn token(self) -> (r: &'static str)
        ensures
            r@ == self.spec_token(),
    {
        match self {
            SearchOp::Eq => "==",
            SearchOp::StrEq => "'=",
            SearchOp::Lt => "<",
            SearchOp::Le => "<=",
            SearchOp::Gt => ">",
            SearchOp::Ge => ">=",
            SearchOp::Contains => "in",
            SearchOp::Has => "has",
        }
    }

    /// The operator a token denotes, if any.
    pub open spec fn spec_of(s: Seq<char>) -> Option<SearchOp> {
        if s == "=="@ {
            Some(SearchOp::Eq)
        } else if s == "'="@ {
            Some(SearchOp::StrEq)
        } else if s == "<"@ {
            Some(SearchOp::Lt)
        } else if s == "<="@ {
            Some(SearchOp::Le)
        } else if s == ">"@ {
            Some(SearchOp::Gt)
        } else if s == ">="@ {
            Some(SearchOp::Ge)
        } else if s == "in"@ {
            Some(SearchOp::Contains)
        } else if s == "has"@ {
            Some(SearchOp::Has)
        } else {
            None
        }
    }

    /// Reads an operator token; an unknown token is a parse failure.
    pub fn from_str(s: &str) -> (r: Result<SearchOp, &'static str>)
        ensures
            match r {
                Ok(op) => Self::spec_of(s@) == Some(op),
                Err(_) => Self::spec_of(s@) is None,
            },
    {
        if str_eq(s, "==") {
            Ok(SearchOp::Eq)
        } else if str_eq(s, "'=") {
            Ok(SearchOp::StrEq)
        } else if str_eq(s, "<") {
            Ok(SearchOp::Lt)
        } else if str_eq(s, "<=") {
            Ok(SearchOp::Le)
        } else if str_eq(s, ">") {
            Ok(SearchOp::Gt)
        } else if str_eq(s, ">=") {
            Ok(SearchOp::Ge)
        } else if str_eq(s, "in") {
            Ok(SearchOp::Contains)
        } else if str_eq(s, "has") {
            Ok(SearchOp::Has)
        } else {
            Err("Not a valid search operation")
        }
    }
}

/// A searchable field of the catalog.
#[derive(Clone, Copy, Debug, PartialEq, Eq, Structural)]
pub enum Field {
    Title,
    Source,
    Composer,
    Arranger,
    Notes,
    Runtime,
    Keyword,
}

impl Field {
    /// The field's textual token.
    pub open spec fn spec_token(self) -> Seq<char> {
        match self {
            Field::Title => "title"@,
            Field::Source => "source"@,
            Field::Composer => "composer"@,
            Field::Arranger => "arranger"@,
            Field::Notes => "notes"@,
            Field::Runtime => "runtime"@,
            Field::Keyword => "keywords"@,
        }
    }

    /// The field's textual token.
    pub fn token(self) -> (r: &'static str)
        ensures
            r@ == self.spec_token(),
    {
        match self {
            Field::Title => "title",
            Field::Source => "source",
            Field::Composer => "composer",
            Field::Arranger => "arranger",
            Field::Notes => "notes",
            Field::Runtime => "runtime",
            Field::Keyword => "keywords",
        }
    }

    /// The field a token denotes, if any.
    pub open spec fn spec_of(s: Seq<char>) -> Option<Field> {
        if s == "title"@ {
            Some(Field::Title)
        } else if s == "source"@ {
            Some(Field::Source)
        } else if s == "composer"@ {
            Some(Field::Composer)
        } else if s == "arranger"@ {
            Some(Field::Arranger)
        } else if s == "notes"@ {
            Some(Field::Notes)
        } else if s == "runtime"@ {
            Some(Field::Runtime)
        } else if s == "keywords"@ {
            Some(Field::Keyword)
        } else {
            None
        }
    }

    /// Reads a field token; an unknown token is a parse failure.
    pub fn from_str(s: &str) -> (r: Result<Field, &'static str>)
        ensures
            match r {
                Ok(f) => Self::spec_of(s@) == Some(f),
                Err(_) => Self::spec_of(s@) is None,
            },
    {
        if str_eq(s, "title") {
            Ok(Field::Title)
        } else if str_eq(s, "source") {
            Ok(Field::Source)
        } else if str_eq(s, "composer") {
            Ok(Field::Composer)
        } else if str_eq(s, "arranger") {
            Ok(Field::Arranger)
        } else if str_eq(s, "notes") {
            Ok(Field::Notes)
        } else if str_eq(s, "runtime") {
            Ok(Field::Runtime)
        } else if str_eq(s, "keywords") {
            Ok(Field::Keyword)
        } else {
            Err("Not a valid field")
        }
    }
}

/// The model of a search operand: text, or a number of seconds.
pub enum SearchTypeModel {
    Str(Seq<char>),
    Num(int),
}

/// A search operand: the right-hand value of a phrase, either text or a
/// runtime in seconds.
#[derive(Debug)]
pub enum SearchType {
    Str(String),
    Num(u16),
}

impl View for SearchType {
    type V = SearchTypeModel;

    open spec fn view(&self) -> SearchTypeModel {
        match self {
            SearchType::Str(s) => SearchTypeModel::Str(s@),
            SearchType::Num(n) => SearchTypeModel::Num(*n as int),
        }
    }
}

/// Whether a clock-duration segment is well-formed: one or two digits,
/// below sixty.
pub open spec fn valid_segment(seg: Seq<char>) -> bool {
    1 <= seg.len() <= 2 && all_digits(seg) && digits_val(seg) < 60
}

/// The number of seconds a duration string denotes, if any: empty is zero;
/// a plain digit string is taken as seconds; a colon-separated form is
/// `m:s` or `h:m:s` with every segment one or two digits below sixty. A
/// value that does not fit in sixteen bits denotes nothing.
pub open spec fn spec_time_val(s: Seq<char>) -> Option<int> {
    if s.len() == 0 {
        Some(0)
    } else if first_occurrence(s, ':') is None {
        if all_digits(s) && digits_val(s) <= u16::MAX {
            Some(digits_val(s) as int)
        } else {
            None
        }
    } else {
        let segs = split_seq(s, ':');
        if segs.len() == 2 && valid_segment(segs[0]) && valid_segment(segs[1]) {
            Some(digits_val(segs[0]) * 60 + digits_val(segs[1]) as int)
        } else if segs.len() == 3 && valid_segment(segs[0]) && valid_segment(segs[1])
            && valid_segment(segs[2]) && digits_val(segs[0]) * 3600 + digits_val(segs[1]) * 60
            + digits_val(segs[2]) <= u16::MAX {
            Some(digits_val(segs[0]) * 3600 + digits_val(segs[1]) * 60 + digits_val(segs[2]) as int)
        } else {
            None
        }
    }
}

impl SearchType {
    /// Reads a clock duration into a number of seconds. The empty string is
    /// zero; a malformed duration is a parse failure.
    pub fn from_time(s: &str) -> (r: Result<SearchType, &'static str>)
        ensures
            match r {
                Ok(st) => st@ matches SearchTypeModel::Num(n) && spec_time_val(s@) == Some(n),
                Err(_) => spec_time_val(s@) is None,
            },
    {
        let n = s.unicode_len();
        if n == 0 {
            return Ok(SearchType::Num(0));
        }
        match crate::text::find_char(s, ':') {
            None => {
                proof {
                    crate::text::lemma_first_occurrence(s@, ':');
                    if first_occurrence(s@, ':') is Some {
                        assert(s@[first_occurrence(s@, ':')->0] == ':');
                    }
                }
                match parse_u16(s) {
                    Some(v) => Ok(SearchType::Num(v)),
                    None => Err("not an integer in time"),
                }
            },
            Some(i) => {
                proof {
                    crate::text::lemma_first_occurrence_is(s@, ':', i as int);
                }
                let segs = split_char(s, ':');
                proof {
                    assert(segs.deep_view() == split_seq(s@, ':'));
                }
                if segs.len() == 2 {
                    let v0 = match segment_value(&segs[0]) {
                        Some(v) => v,
                        None => {
                            return Err("not an integer in time");
                        },
                    };
                    let v1 = match segment_value(&segs[1]) {
                        Some(v) => v,
                        None => {
                            return Err("not an integer in time");
                        },
                    };
                    proof {
                        assert(segs@[0]@ == split_seq(s@, ':')[0]);
                        assert(segs@[1]@ == split_seq(s@, ':')[1]);
                    }
                    Ok(SearchType::Num(v0 * 60 + v1))
                } else if segs.len() == 3 {
                    let v0 = match segment_value(&segs[0]) {
                        Some(v) => v,
                        None => {
                            return Err("not an integer in time");
                        },
                    };
                    let v1 = match segment_value(&segs[1]) {
                        Some(v) => v,
                        None => {
                            return Err("not an integer in time");
                        },
                    };
                    let v2 = match segment_value(&segs[2]) {
                        Some(v) => v,
                        None => {
                            return Err("not an integer in time");
                        },
                    };
                    proof {
                        assert(segs@[0]@ == split_seq(s@, ':')[0]);
                        assert(segs@[1]@ == split_seq(s@, ':')[1]);
                        assert(segs@[2]@ == split_seq(s@, ':')[2]);
                    }
                    let total: u32 = (v0 as u32) * 3600 + (v1 as u32) * 60 + (v2 as u32);
                    if total > 65535 {
                        return Err("not an integer in time");
                    }
                    Ok(SearchType::Num(total as u16))
                } else {
                    Err("not an integer in time")
                }
            },
        }
    }

    /// The operand's textual form: the text itself, or a number of seconds
    /// in decimal.
    pub fn to_string(&self) -> (r: String)
        ensures
            r@ == match self@ {
                SearchTypeModel::Str(s) => s,
                SearchTypeModel::Num(n) => crate::text::dec_digits(n as nat),
            },
    {
        match self {
            SearchType::Str(s) => s.clone(),
            SearchType::Num(n) => crate::text::u64_to_dec(*n as u64),
        }
    }

    /// The operand as a number of seconds; only a numeric operand has one.
    pub fn as_num(&self) -> (r: u16)
        requires
            self@ is Num,
        ensures
            self@ == SearchTypeModel::Num(r as int),
    {
        match self {
            SearchType::Num(n) => *n,
            SearchType::Str(_) => {
                proof {
                    assert(false);
                }
                0
            },
        }
    }
}

/// The combinations of field, operator and negation the language defines:
/// string equality and substring tests on the text fields, numeric
/// comparisons only on the runtime, and keyword attachment — which does not
/// support negation — only on the keyword field.
pub open spec fn valid_combo(field: Field, op: SearchOp, invert: bool) -> bool {
    match (field, op) {
        (Field::Title, SearchOp::StrEq) => true,
        (Field::Title, SearchOp::Contains) => true,
        (Field::Source, SearchOp::StrEq) => true,
        (Field::Source, SearchOp::Contains) => true,
        (Field::Composer, SearchOp::StrEq) => true,
        (Field::Composer, SearchOp::Contains) => true,
        (Field::Arranger, SearchOp::StrEq) => true,
        (Field::Arranger, SearchOp::Contains) => true,
        (Field::Notes, SearchOp::Contains) => true,
        (Field::Runtime, SearchOp::Eq) => true,
        (Field::Runtime, SearchOp::Lt) => true,
        (Field::Runtime, SearchOp::Le) => true,
        (Field::Runtime, SearchOp::Gt) => true,
        (Field::Runtime, SearchOp::Ge) => true,
        (Field::Keyword, SearchOp::Has) => !invert,
        _ => false,
    }
}

/// Decides a combination, mirroring `valid_combo`.
fn combo_ok(field: Field, op: SearchOp, invert: bool) -> (r: bool)
    ensures
        r == valid_combo(field, op, invert),
{
    match (field, op) {
        (Field::Title, SearchOp::StrEq) => true,
        (Field::Title, SearchOp::Contains) => true,
        (Field::Source, SearchOp::StrEq) => true,
        (Field::Source, SearchOp::Contains) => true,
        (Field::Composer, SearchOp::StrEq) => true,
        (Field::Composer, SearchOp::Contains) => true,
        (Field::Arranger, SearchOp::StrEq) => true,
        (Field::Arranger, SearchOp::Contains) => true,
        (Field::Notes, SearchOp::Contains) => true,
        (Field::Runtime, SearchOp::Eq) => true,
        (Field::Runtime, SearchOp::Lt) => true,
        (Field::Runtime, SearchOp::Le) => true,
        (Field::Runtime, SearchOp::Gt) => true,
        (Field::Runtime, SearchOp::Ge) => true,
        (Field::Keyword, SearchOp::Has) => !invert,
        _ => false,
    }
}

/// The mathematical model of a search: the validated phrase.
pub struct SearchModel {
    pub field: Field,
    pub invert: bool,
    pub op: SearchOp,
    pub right: SearchTypeModel,
}

/// A search is well-formed when its combination is defined and its operand
/// shape fits the field: a number for the runtime, text for everything
/// else.
pub open spec fn search_wf(m: SearchModel) -> bool {
    &&& valid_combo(m.field, m.op, m.invert)
    &&& (m.field == Field::Runtime ==> m.right is Num)
    &&& (m.field != Field::Runtime ==> m.right is Str)
}

/// One validated search phrase. Identity search is deliberately not part of
/// the language.
pub struct Search {
    field: Field,
    invert: bool,
    op: SearchOp,
    right: SearchType,
}

impl View for Search {
    type V = SearchModel;

    closed spec fn view(&self) -> SearchModel {
        SearchModel { field: self.field, invert: self.invert, op: self.op, right: self.right@ }
    }
}

/// The builder conditions a non-keyword search lowers to: exactly one
/// setter call, chosen by field, operator and negation. Negating an order
/// comparison flips it to its complement, and negating numeric equality
/// selects the not-equal condition — the only way the language can say it.
pub open spec fn spec_lowered(m: SearchModel) -> Seq<(Column, CmpModel)> {
    match (m.field, m.op, m.invert) {
        (Field::Title, SearchOp::StrEq, false) => seq![
            (Column::Title, CmpModel::StrEqual(m.right->Str_0)),
        ],
        (Field::Title, SearchOp::StrEq, true) => seq![
            (Column::Title, CmpModel::StrNotEqual(m.right->Str_0)),
        ],
        (Field::Title, SearchOp::Contains, false) => seq![
            (Column::Title, CmpModel::Contains(m.right->Str_0)),
        ],
        (Field::Title, SearchOp::Contains, true) => seq![
            (Column::Title, CmpModel::NotContains(m.right->Str_0)),
        ],
        (Field::Source, SearchOp::StrEq, false) => seq![
            (Column::Source, CmpModel::StrEqual(m.right->Str_0)),
        ],
        (Field::Source, SearchOp::StrEq, true) => seq![
            (Column::Source, CmpModel::StrNotEqual(m.right->Str_0)),
        ],
        (Field::Source, SearchOp::Contains, false) => seq![
            (Column::Source, CmpModel::Contains(m.right->Str_0)),
        ],
        (Field::Source, SearchOp::Contains, true) => seq![
            (Column::Source, CmpModel::NotContains(m.right->Str_0)),
        ],
        (Field::Composer, SearchOp::StrEq, false) => seq![
            (Column::Composer, CmpModel::StrEqual(m.right->Str_0)),
        ],
        (Field::Composer, SearchOp::StrEq, true) => seq![
            (Column::Composer, CmpModel::StrNotEqual(m.right->Str_0)),
        ],
        (Field::Composer, SearchOp::Contains, false) => seq![
            (Column::Composer, CmpModel::Contains(m.right->Str_0)),
        ],
        (Field::Composer, SearchOp::Contains, true) => seq![
            (Column::Composer, CmpModel::NotContains(m.right->Str_0)),
        ],
        (Field::Arranger, SearchOp::StrEq, false) => seq![
            (Column::Arranger, CmpModel::StrEqual(m.right->Str_0)),
        ],
        (Field::Arranger, SearchOp::StrEq, true) => seq![
            (Column::Arranger, CmpModel::StrNotEqual(m.right->Str_0)),
        ],
        (Field::Arranger, SearchOp::Contains, false) => seq![
            (Column::Arranger, CmpModel::Contains(m.right->Str_0)),
        ],
        (Field::Arranger, SearchOp::Contains, true) => seq![
            (Column::Arranger, CmpModel::NotContains(m.right->Str_0)),
        ],
        (Field::Notes, SearchOp::Contains, false) => seq![
            (Column::Notes, CmpModel::Contains(m.right->Str_0)),
        ],
        (Field::Notes, SearchOp::Contains, true) => seq![
            (Column::Notes, CmpModel::NotContains(m.right->Str_0)),
        ],
        (Field::Runtime, SearchOp::Eq, false) => seq![
            (Column::Runtime, CmpModel::Equal(m.right->Num_0)),
        ],
        (Field::Runtime, SearchOp::Eq, true) => seq![
            (Column::Runtime, CmpModel::NotEqual(m.right->Num_0)),
        ],
        (Field::Runtime, SearchOp::Lt, false) => seq![
            (Column::Runtime, CmpModel::Less(m.right->Num_0)),
        ],
        (Field::Runtime, SearchOp::Lt, true) => seq![
            (Column::Runtime, CmpModel::GreaterEqual(m.right->Num_0)),
        ],
        (Field::Runtime, SearchOp::Gt, false) => seq![
            (Column::Runtime, CmpModel::Greater(m.right->Num_0)),
        ],
        (Field::Runtime, SearchOp::Gt, true) => seq![
            (Column::Runtime, CmpModel::LessEqual(m.right->Num_0)),
        ],
        (Field::Runtime, SearchOp::Le, false) => seq![
            (Column::Runtime, CmpModel::LessEqual(m.right->Num_0)),
        ],
        (Field::Runtime, SearchOp::Le, true) => seq![
            (Column::Runtime, CmpModel::Greater(m.right->Num_0)),
        ],
        (Field::Runtime, SearchOp::Ge, false) => seq![
            (Column::Runtime, CmpModel::GreaterEqual(m.right->Num_0)),
        ],
        (Field::Runtime, SearchOp::Ge, true) => seq![
            (Column::Runtime, CmpModel::Less(m.right->Num_0)),
        ],
        _ => Seq::empty(),
    }
}

/// Law: a negated at-least comparison on the runtime lowers to the strictly
/// below condition on the same number of seconds — the negation table
/// inverts `>=` into `<`.
pub proof fn lemma_negated_ge_lowers_to_lt(se: Search)
    requires
        search_wf(se@),
        se@.field == Field::Runtime,
        se@.op == SearchOp::Ge,
        se@.invert,
    ensures
        spec_lowered(se@) == seq![(Column::Runtime, CmpModel::Less(se@.right->Num_0))],
{
}

/// What a parse of a phrase yields, if anything: the line splits into at
/// most four space-delimited slots — field, negation, operator, value, the
/// value keeping any further spaces — and the combination must be defined.
/// The negation slot negates exactly when it is the word `not`.
pub open spec fn spec_parse_search(s: Seq<char>) -> Option<SearchModel> {
    let items = splitn_seq(s, ' ', 4);
    if Field::spec_of(items[0]) is None {
        None
    } else {
        let f = Field::spec_of(items[0])->0;
        if items.len() < 3 {
            None
        } else {
            let inv = items[1] == "not"@;
            if SearchOp::spec_of(items[2]) is None {
                None
            } else {
                let op = SearchOp::spec_of(items[2])->0;
                if items.len() < 4 {
                    None
                } else if !valid_combo(f, op, inv) {
                    None
                } else if f == Field::Runtime {
                    match spec_time_val(items[3]) {
                        Some(n) => Some(
                            SearchModel {
                                field: f,
                                invert: inv,
                                op,
                                right: SearchTypeModel::Num(n),
                            },
                        ),
                        None => None,
                    }
                } else {
                    Some(
                        SearchModel {
                            field: f,
                            invert: inv,
                            op,
                            right: SearchTypeModel::Str(items[3]),
                        },
                    )
                }
            }
        }
    }
}

/// The canonical line for a search: field token, the word `not` or an empty
/// slot, operator token, then the value — a runtime as its total seconds.
pub open spec fn spec_render_search(m: SearchModel) -> Seq<char> {
    m.field.spec_token() + " "@ + (if m.invert {
        "not"@
    } else {
        Seq::<char>::empty()
    }) + " "@ + m.op.spec_token() + " "@ + (match m.right {
        SearchTypeModel::Str(s) => s,
        SearchTypeModel::Num(n) => crate::text::dec_digits(n as nat),
    })
}

impl Search {
    /// The operand as text; every non-runtime search has a textual operand.
    fn right_str(&self) -> (r: &str)
        requires
            self@.right is Str,
        ensures
            r@ == self@.right->Str_0,
    {
        match &self.right {
            SearchType::Str(s) => s.as_str(),
            SearchType::Num(_) => {
                proof {
                    assert(false);
                }
                ""
            },
        }
    }

    /// Builds a search from a defined combination. The value is read as a
    /// clock duration for the runtime field and kept as text otherwise.
    pub fn new(field: Field, op: SearchOp, right: &str, invert: bool) -> (r: Search)
        requires
            valid_combo(field, op, invert),
            field == Field::Runtime ==> spec_time_val(right@) is Some,
        ensures
            r@.field == field,
            r@.op == op,
            r@.invert == invert,
            search_wf(r@),
            field == Field::Runtime ==> r@.right == SearchTypeModel::Num(spec_time_val(right@)->0),
            field != Field::Runtime ==> r@.right == SearchTypeModel::Str(right@),
    {
        let value = if field == Field::Runtime {
            match SearchType::from_time(right) {
                Ok(st) => st,
                Err(_) => {
                    proof {
                        assert(false);
                    }
                    SearchType::Num(0)
                },
            }
        } else {
            SearchType::Str(right.to_owned())
        };
        Search { field, invert, op, right: value }
    }

    /// Lowers a non-keyword search into the one builder condition its
    /// combination selects.
    pub fn to_query(&self) -> (r: MusicQuery)
        requires
            search_wf(self@),
            self@.field != Field::Keyword,
        ensures
            r@ == spec_lowered(self@),
    {
        let q = Music::query();
        let r = match (self.field, self.op, self.invert) {
            (Field::Title, SearchOp::StrEq, false) => q.title_eq(self.right_str()),
            (Field::Title, SearchOp::StrEq, true) => q.title_ne(self.right_str()),
            (Field::Title, SearchOp::Contains, false) => q.title_contains(self.right_str()),
            (Field::Title, SearchOp::Contains, true) => q.title_not_contains(self.right_str()),
            (Field::Source, SearchOp::StrEq, false) => q.source_eq(self.right_str()),
            (Field::Source, SearchOp::StrEq, true) => q.source_ne(self.right_str()),
            (Field::Source, SearchOp::Contains, false) => q.source_contains(self.right_str()),
            (Field::Source, SearchOp::Contains, true) => q.source_not_contains(self.right_str()),
            (Field::Composer, SearchOp::StrEq, false) => q.composer_eq(self.right_str()),
            (Field::Composer, SearchOp::StrEq, true) => q.composer_ne(self.right_str()),
            (Field::Composer, SearchOp::Contains, false) => q.composer_contains(self.right_str()),
            (Field::Composer, SearchOp::Contains, true) => q.composer_not_contains(
                self.right_str(),
            ),
            (Field::Arranger, SearchOp::StrEq, false) => q.arranger_eq(self.right_str()),
            (Field::Arranger, SearchOp::StrEq, true) => q.arranger_ne(self.right_str()),
            (Field::Arranger, SearchOp::Contains, false) => q.arranger_contains(self.right_str()),
            (Field::Arranger, SearchOp::Contains, true) => q.arranger_not_contains(
                self.right_str(),
            ),
            (Field::Notes, SearchOp::Contains, false) => q.notes_contains(self.right_str()),
            (Field::Notes, SearchOp::Contains, true) => q.notes_not_contains(self.right_str()),
            (Field::Runtime, SearchOp::Eq, false) => q.runtime_eq(self.right.as_num()),
            (Field::Runtime, SearchOp::Eq, true) => q.runtime_ne(self.right.as_num()),
            (Field::Runtime, SearchOp::Lt, false) => q.runtime_lt(self.right.as_num()),
            (Field::Runtime, SearchOp::Lt, true) => q.runtime_ge(self.right.as_num()),
            (Field::Runtime, SearchOp::Gt, false) => q.runtime_gt(self.right.as_num()),
            (Field::Runtime, SearchOp::Gt, true) => q.runtime_le(self.right.as_num()),
            (Field::Runtime, SearchOp::Le, false) => q.runtime_le(self.right.as_num()),
            (Field::Runtime, SearchOp::Le, true) => q.runtime_gt(self.right.as_num()),
            (Field::Runtime, SearchOp::Ge, false) => q.runtime_ge(self.right.as_num()),
            (Field::Runtime, SearchOp::Ge, true) => q.runtime_lt(self.right.as_num()),
            _ => {
                proof {
                    assert(false);
                }
                q
            },
        };
        proof {
            assert(r@ =~= spec_lowered(self@));
        }
        r
    }

    /// Runs the search: the keyword field splits its value on spaces into
    /// keyword tokens and takes the association join; every other field
    /// lowers into the builder and executes it.
    pub fn execute(&self, db: &Db) -> (r: Result<Vec<Music>, Error>)
        requires
            search_wf(self@),
        ensures
            r matches Err(e) ==> e is Storage,
    {
        if self.field == Field::Keyword {
            let keywords = keyword_tokens(self.right_str());
            return Music::by_keywords(db, &keywords);
        }
        self.to_query().run(db)
    }

    /// Parses a one-line phrase, validating the combination: an unknown
    /// field or operator, a missing slot, an undefined combination, or a
    /// malformed duration is a failure, never a silently empty search.
    pub fn from_str(s: &str) -> (r: Result<Search, String>)
        ensures
            match r {
                Ok(se) => spec_parse_search(s@) == Some(se@) && search_wf(se@),
                Err(_) => spec_parse_search(s@) is None,
            },
    {
        let items = splitn_char(s, ' ', 4);
        proof {
            assert(items.deep_view() == splitn_seq(s@, ' ', 4));
            assert(items@[0]@ == splitn_seq(s@, ' ', 4)[0]);
        }
        let field = match Field::from_str(items[0].as_str()) {
            Ok(f) => f,
            Err(m) => {
                return Err(m.to_owned());
            },
        };
        if items.len() < 3 {
            return Err("Not enough fields found".to_owned());
        }
        proof {
            assert(items@[1]@ == splitn_seq(s@, ' ', 4)[1]);
            assert(items@[2]@ == splitn_seq(s@, ' ', 4)[2]);
        }
        let invert = str_eq(items[1].as_str(), "not");
        let op = match SearchOp::from_str(items[2].as_str()) {
            Ok(o) => o,
            Err(m) => {
                return Err(m.to_owned());
            },
        };
        if items.len() < 4 {
            return Err("Not enough fields found".to_owned());
        }
        proof {
            assert(items@[3]@ == splitn_seq(s@, ' ', 4)[3]);
        }
        if !combo_ok(field, op, invert) {
            return Err("Not a valid query combination".to_owned());
        }
        if field == Field::Runtime {
            match SearchType::from_time(items[3].as_str()) {
                Ok(st) => Ok(Search { field, invert, op, right: st }),
                Err(m) => Err(m.to_owned()),
            }
        } else {
            Ok(Search { field, invert, op, right: SearchType::Str(items[3].clone()) })
        }
    }

    /// Renders the search back to its one-line form: field, the negation
    /// slot, operator, then the value — a runtime as its total seconds.
    pub fn to_string(&self) -> (r: String)
        ensures
            r@ == spec_render_search(self@),
    {
        let mut out = self.field.token().to_owned();
        out.append(" ");
        if self.invert {
            out.append("not");
        }
        out.append(" ");
        out.append(self.op.token());
        out.append(" ");
        match &self.right {
            SearchType::Str(s) => {
                out.append(s.as_str());
            },
            SearchType::Num(n) => {
                out.append(crate::text::u64_to_dec(*n as u64).as_str());
            },
        }
        proof {
            assert(out@ =~= spec_render_search(self@));
        }
        out
    }
}

proof fn lemma_token_facts()
    ensures
        ("title"@).len() == 5 && ("title"@)[0] == 't',
        ("source"@).len() == 6 && ("source"@)[0] == 's',
        ("composer"@).len() == 8 && ("composer"@)[0] == 'c',
        ("arranger"@).len() == 8 && ("arranger"@)[0] == 'a',
        ("notes"@).len() == 5 && ("notes"@)[0] == 'n',
        ("runtime"@).len() == 7 && ("runtime"@)[0] == 'r',
        ("keywords"@).len() == 8 && ("keywords"@)[0] == 'k',
        ("=="@).len() == 2 && ("=="@)[0] == '=',
        ("'="@).len() == 2 && ("'="@)[0] == '\'',
        ("<"@).len() == 1 && ("<"@)[0] == '<',
        ("<="@).len() == 2 && ("<="@)[0] == '<',
        (">"@).len() == 1 && (">"@)[0] == '>',
        (">="@).len() == 2 && (">="@)[0] == '>',
        ("in"@).len() == 2 && ("in"@)[0] == 'i',
        ("has"@).len() == 3 && ("has"@)[0] == 'h',
        ("not"@).len() == 3 && ("not"@)[0] == 'n',
{
    reveal_strlit("title");
    reveal_strlit("source");
    reveal_strlit("composer");
    reveal_strlit("arranger");
    reveal_strlit("notes");
    reveal_strlit("runtime");
    reveal_strlit("keywords");
    reveal_strlit("==");
    reveal_strlit("'=");
    reveal_strlit("<");
    reveal_strlit("<=");
    reveal_strlit(">");
    reveal_strlit(">=");
    reveal_strlit("in");
    reveal_strlit("has");
    reveal_strlit("not");
}

proof fn lemma_tokens_space_free()
    ensures
        !contains_char("title"@, ' '),
        !contains_char("source"@, ' '),
        !contains_char("composer"@, ' '),
        !contains_char("arranger"@, ' '),
        !contains_char("notes"@, ' '),
        !contains_char("runtime"@, ' '),
        !contains_char("keywords"@, ' '),
        !contains_char("=="@, ' '),
        !contains_char("'="@, ' '),
        !contains_char("<"@, ' '),
        !contains_char("<="@, ' '),
        !contains_char(">"@, ' '),
        !contains_char(">="@, ' '),
        !contains_char("in"@, ' '),
        !contains_char("has"@, ' '),
        !contains_char("not"@, ' '),
{
    reveal_strlit("title");
    reveal_strlit("source");
    reveal_strlit("composer");
    reveal_strlit("arranger");
    reveal_strlit("notes");
    reveal_strlit("runtime");
    reveal_strlit("keywords");
    reveal_strlit("==");
    reveal_strlit("'=");
    reveal_strlit("<");
    reveal_strlit("<=");
    reveal_strlit(">");
    reveal_strlit(">=");
    reveal_strlit("in");
    reveal_strlit("has");
    reveal_strlit("not");
}

proof fn lemma_field_token_reads_back(f: Field)
    ensures
        Field::spec_of(f.spec_token()) == Some(f),
{
    reveal_strlit("title");
    reveal_strlit("source");
    reveal_strlit("composer");
    reveal_strlit("arranger");
    reveal_strlit("notes");
    reveal_strlit("runtime");
    reveal_strlit("keywords");
    lemma_token_facts();
    match f {
        Field::Title => {},
        Field::Source => {
            assert("source"@ != "title"@);
        },
        Field::Composer => {
            assert("composer"@ != "title"@);
            assert("composer"@ != "source"@);
        },
        Field::Arranger => {
            assert("arranger"@ != "title"@);
            assert("arranger"@ != "source"@);
            assert("arranger"@ != "composer"@);
        },
        Field::Notes => {
            assert("notes"@ != "title"@);
            assert("notes"@ != "source"@);
            assert("notes"@ != "composer"@);
            assert("notes"@ != "arranger"@);
        },
        Field::Runtime => {
            assert("runtime"@ != "title"@);
            assert("runtime"@ != "source"@);
            assert("runtime"@ != "composer"@);
            assert("runtime"@ != "arranger"@);
            assert("runtime"@ != "notes"@);
        },
        Field::Keyword => {
            assert("keywords"@ != "title"@);
            assert("keywords"@ != "source"@);
            assert("keywords"@ != "composer"@);
            assert("keywords"@ != "arranger"@);
            assert("keywords"@ != "notes"@);
            assert("keywords"@ != "runtime"@);
        },
    }
}

proof fn lemma_op_token_reads_back(op: SearchOp)
    ensures
        SearchOp::spec_of(op.spec_token()) == Some(op),
{
    reveal_strlit("==");
    reveal_strlit("'=");
    reveal_strlit("<");
    reveal_strlit("<=");
    reveal_strlit(">");
    reveal_strlit(">=");
    reveal_strlit("in");
    reveal_strlit("has");
    lemma_token_facts();
    match op {
        SearchOp::Eq => {},
        SearchOp::StrEq => {
            assert("'="@ != "=="@);
        },
        SearchOp::Lt => {
            assert("<"@ != "=="@);
            assert("<"@ != "'="@);
        },
        SearchOp::Le => {
            assert("<="@ != "=="@);
            assert("<="@ != "'="@);
            assert("<="@ != "<"@);
        },
        SearchOp::Gt => {
            assert(">"@ != "=="@);
            assert(">"@ != "'="@);
            assert(">"@ != "<"@);
            assert(">"@ != "<="@);
        },
        SearchOp::Ge => {
            assert(">="@ != "=="@);
            assert(">="@ != "'="@);
            assert(">="@ != "<"@);
            assert(">="@ != "<="@);
            assert(">="@ != ">"@);
        },
        SearchOp::Contains => {
            assert("in"@ != "=="@);
            assert("in"@ != "'="@);
            assert("in"@ != "<"@);
            assert("in"@ != "<="@);
            assert("in"@ != ">"@);
            assert("in"@ != ">="@);
        },
        SearchOp::Has => {
            assert("has"@ != "=="@);
            assert("has"@ != "'="@);
            assert("has"@ != "<"@);
            assert("has"@ != "<="@);
            assert("has"@ != ">"@);
            assert("has"@ != ">="@);
            assert("has"@ != "in"@);
        },
    }
}

/// Law: the textual form round-trips — rendering a well-formed search and
/// parsing the line back yields exactly the same search. A runtime operand
/// renders as its total seconds and reads back to the same number.
pub proof fn lemma_search_round_trip(se: Search)
    requires
        search_wf(se@),
    ensures
        spec_parse_search(spec_render_search(se@)) == Some(se@),
{
    reveal_strlit(" ");
    reveal_strlit("not");
    let m = se@;
    let t0 = m.field.spec_token();
    let t1: Seq<char> = if m.invert {
        "not"@
    } else {
        Seq::<char>::empty()
    };
    let t2 = m.op.spec_token();
    let v: Seq<char> = match m.right {
        SearchTypeModel::Str(s) => s,
        SearchTypeModel::Num(n) => crate::text::dec_digits(n as nat),
    };
    let line = spec_render_search(m);
    lemma_tokens_space_free();
    assert(!contains_char(t1, ' '));
    assert(" "@ =~= seq![' ']);
    let rest2 = t2 + seq![' '] + v;
    let rest1 = t1 + seq![' '] + rest2;
    assert(line =~= t0 + seq![' '] + rest1);
    crate::text::lemma_splitn_step(t0, ' ', rest1, 4);
    crate::text::lemma_splitn_step(t1, ' ', rest2, 3);
    crate::text::lemma_splitn_step(t2, ' ', v, 2);
    assert(splitn_seq(v, ' ', 1) =~= seq![v]);
    let items = splitn_seq(line, ' ', 4);
    assert(items =~= seq![t0, t1, t2, v]);
    lemma_field_token_reads_back(m.field);
    lemma_op_token_reads_back(m.op);
    if m.invert {
        assert(items[1] == "not"@);
    } else {
        assert(items[1].len() == 0);
        assert(items[1] != "not"@);
    }
    match m.right {
        SearchTypeModel::Num(n) => {
            assert(m.field == Field::Runtime);
            match se.right {
                SearchType::Num(k) => {
                    assert(n == k as int);
                    assert(0 <= n <= u16::MAX);
                },
                SearchType::Str(_) => {
                    assert(false);
                },
            }
            crate::text::lemma_dec_digits_reads_back(n as nat);
            assert(!crate::text::is_digit(':'));
            crate::text::lemma_digits_have_no_separator(v, ':');
            assert(spec_time_val(v) == Some(n));
        },
        SearchTypeModel::Str(_) => {
            assert(m.field != Field::Runtime);
        },
    }
    assert(spec_parse_search(line) == Some(m));
}

/// Splits a keyword-search value on spaces and parses every token by the
/// keyword's canonical grammar: one keyword per token, in order, none of
/// them persisted.
fn keyword_tokens(text: &str) -> (r: Vec<Keyword>)
    ensures
        r@.len() == split_seq(text@, ' ').len(),
        forall|j: int|
            0 <= j < r@.len() ==> {
                &&& (#[trigger] r@[j])@.id is None
                &&& r@[j]@.category == crate::catalog::spec_parse_category(
                    split_seq(text@, ' ')[j],
                )
                &&& r@[j]@.keyword == crate::catalog::spec_parse_keyword(split_seq(text@, ' ')[j])
            },
{
    let toks = split_char(text, ' ');
    let mut out: Vec<Keyword> = Vec::new();
    let mut i: usize = 0;
    while i < toks.len()
        invariant
            0 <= i <= toks@.len(),
            toks.deep_view() == split_seq(text@, ' '),
            out@.len() == i,
            forall|j: int|
                0 <= j < i ==> {
                    &&& (#[trigger] out@[j])@.id is None
                    &&& out@[j]@.category == crate::catalog::spec_parse_category(
                        split_seq(text@, ' ')[j],
                    )
                    &&& out@[j]@.keyword == crate::catalog::spec_parse_keyword(
                        split_seq(text@, ' ')[j],
                    )
                },
        decreases toks@.len() - i,
    {
        proof {
            assert(toks@[i as int]@ == split_seq(text@, ' ')[i as int]);
        }
        out.push(Keyword::from_str(toks[i].as_str()));
        i = i + 1;
    }
    out
}

/// Whether a string is a well-formed clock duration: exactly the inputs
/// the duration parser accepts.
pub fn validate_time(s: &str) -> (r: bool)
    ensures
        r == (spec_time_val(s@) is Some),
{
    match SearchType::from_time(s) {
        Ok(_) => true,
        Err(_) => false,
    }
}

/// Reads one duration segment: one or two digits below sixty.
fn segment_value(seg: &String) -> (r: Option<u16>)
    ensures
        match r {
            Some(v) => valid_segment(seg@) && digits_val(seg@) == v as nat && v < 60,
            None => !valid_segment(seg@),
        },
{
    let n = seg.as_str().unicode_len();
    if n < 1 || n > 2 {
        return None;
    }
    match parse_u16(seg.as_str()) {
        Some(v) => {
            if v < 60 {
                Some(v)
            } else {
                None
            }
        },
        None => {
            proof {
                if all_digits(seg@) {
                    crate::text::lemma_digits_small(seg@);
                }
            }
            None
        },
    }
}

} // verus!
