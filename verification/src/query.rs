//! The filter builder: atomic conditions over the catalog's columns,
//! rendered into one parameterized `SELECT` statement plus the matching
//! ordered parameter list.
//!
//! The two orderings — predicates left to right in the statement, and
//! positional parameters — stay in lockstep: a placeholder index counts only
//! the conditions that bind a value, so `?1, ?2, …` is contiguous however
//! many existence checks are interleaved.

use vstd::prelude::*;
use crate::catalog::Music;
use crate::store::{db_query, Db, Error, SqlValue};
use crate::text::{
    contains_char, count_char, dec_digits, int_dec, lemma_absent_concat, lemma_count_char_absent,
    lemma_count_char_concat, lemma_dec_digits_no_qmark, u64_to_dec, i64_to_dec,
};

verus! {

/// A column of the catalog table that a condition may constrain.
#[derive(Clone, Copy, Debug, PartialEq, Eq, Structural)]
pub enum Column {
    Id,
    Title,
    Source,
    Composer,
    Arranger,
    Notes,
    Runtime,
}

impl Column {
    /// The column's name as it appears in a rendered statement.
    pub open spec fn spec_name(self) -> Seq<char> {
        match self {
            Column::Id => "id"@,
            Column::Title => "title"@,
            Column::Source => "source"@,
            Column::Composer => "composer"@,
            Column::Arranger => "arranger"@,
            Column::Notes => "notes"@,
            Column::Runtime => "runtime"@,
        }
    }

    /// The column's name, for rendering.
    pub fn name(self) -> (r: &'static str)
        ensures
            r@ == self.spec_name(),
    {
        match self {
            Column::Id => "id",
            Column::Title => "title",
            Column::Source => "source",
            Column::Composer => "composer",
            Column::Arranger => "arranger",
            Column::Notes => "notes",
            Column::Runtime => "runtime",
        }
    }
}

/// The mathematical model of one comparison: the operator variant together
/// with its operand as a plain integer or character sequence.
pub enum CmpModel {
    Has,
    NotHas,
    Less(int),
    LessEqual(int),
    Greater(int),
    GreaterEqual(int),
    Equal(int),
    NotEqual(int),
    StrEqual(Seq<char>),
    StrNotEqual(Seq<char>),
    Contains(Seq<char>),
    NotContains(Seq<char>),
}

impl CmpModel {
    /// Whether this comparison binds a parameter. Only the two existence
    /// checks do not.
    pub open spec fn binds(self) -> bool {
        !(self is Has || self is NotHas)
    }

    /// The canonical textual form of the operand: nothing for the existence
    /// checks, the decimal rendering of a number, the string itself otherwise.
    pub open spec fn spec_param(self) -> Option<Seq<char>> {
        match self {
            CmpModel::Has => None,
            CmpModel::NotHas => None,
            CmpModel::Less(n) => Some(int_dec(n)),
            CmpModel::LessEqual(n) => Some(int_dec(n)),
            CmpModel::Greater(n) => Some(int_dec(n)),
            CmpModel::GreaterEqual(n) => Some(int_dec(n)),
            CmpModel::Equal(n) => Some(int_dec(n)),
            CmpModel::NotEqual(n) => Some(int_dec(n)),
            CmpModel::StrEqual(s) => Some(s),
            CmpModel::StrNotEqual(s) => Some(s),
            CmpModel::Contains(s) => Some(s),
            CmpModel::NotContains(s) => Some(s),
        }
    }
}

/// One atomic comparison, operand included.
#[derive(Clone, Debug)]
pub enum Comparison {
    /// The column is not null.
    Has,
    /// The column is null.
    NotHas,
    Less(i32),
    LessEqual(i32),
    Greater(i32),
    GreaterEqual(i32),
    Equal(i32),
    NotEqual(i32),
    StrEqual(String),
    StrNotEqual(String),
    Contains(String),
    NotContains(String),
}

impl View for Comparison {
    type V = CmpModel;

    open spec fn view(&self) -> CmpModel {
        match self {
            Comparison::Has => CmpModel::Has,
            Comparison::NotHas => CmpModel::NotHas,
            Comparison::Less(n) => CmpModel::Less(*n as int),
            Comparison::LessEqual(n) => CmpModel::LessEqual(*n as int),
            Comparison::Greater(n) => CmpModel::Greater(*n as int),
            Comparison::GreaterEqual(n) => CmpModel::GreaterEqual(*n as int),
            Comparison::Equal(n) => CmpModel::Equal(*n as int),
            Comparison::NotEqual(n) => CmpModel::NotEqual(*n as int),
            Comparison::StrEqual(s) => CmpModel::StrEqual(s@),
            Comparison::StrNotEqual(s) => CmpModel::StrNotEqual(s@),
            Comparison::Contains(s) => CmpModel::Contains(s@),
            Comparison::NotContains(s) => CmpModel::NotContains(s@),
        }
    }
}

impl Comparison {
    /// Extracts the parameter this comparison binds: nothing for the
    /// existence checks, the canonical textual form of the operand otherwise.
    pub fn param(&self) -> (r: Option<String>)
        ensures
            match r {
                Some(p) => self@.spec_param() == Some(p@),
                None => self@.spec_param() is None,
            },
    {
        match self {
            Comparison::Has => None,
            Comparison::NotHas => None,
            Comparison::Less(n) => Some(i64_to_dec(*n as i64)),
            Comparison::LessEqual(n) => Some(i64_to_dec(*n as i64)),
            Comparison::Greater(n) => Some(i64_to_dec(*n as i64)),
            Comparison::GreaterEqual(n) => Some(i64_to_dec(*n as i64)),
            Comparison::Equal(n) => Some(i64_to_dec(*n as i64)),
            Comparison::NotEqual(n) => Some(i64_to_dec(*n as i64)),
            Comparison::StrEqual(s) => Some(s.clone()),
            Comparison::StrNotEqual(s) => Some(s.clone()),
            Comparison::Contains(s) => Some(s.clone()),
            Comparison::NotContains(s) => Some(s.clone()),
        }
    }
}

/// The rendered predicate for one condition, `k` being the one-based
/// placeholder index it uses when it binds a value.
pub open spec fn spec_render_cond(col: Column, c: CmpModel, k: nat) -> Seq<char> {
    let name = col.spec_name();
    match c {
        CmpModel::Has => " "@ + name + " IS NOT NULL"@,
        CmpModel::NotHas => " "@ + name + " IS NULL"@,
        CmpModel::Less(_) => " "@ + name + " < "@ + "?"@ + dec_digits(k),
        CmpModel::LessEqual(_) => " "@ + name + " <= "@ + "?"@ + dec_digits(k),
        CmpModel::Greater(_) => " "@ + name + " > "@ + "?"@ + dec_digits(k),
        CmpModel::GreaterEqual(_) => " "@ + name + " >= "@ + "?"@ + dec_digits(k),
        CmpModel::Equal(_) => " "@ + name + " == "@ + "?"@ + dec_digits(k),
        CmpModel::NotEqual(_) => " "@ + name + " != "@ + "?"@ + dec_digits(k),
        CmpModel::StrEqual(_) => " "@ + name + " == "@ + "?"@ + dec_digits(k),
        CmpModel::StrNotEqual(_) => " "@ + name + " != "@ + "?"@ + dec_digits(k),
        CmpModel::Contains(_) => " instr("@ + name + ", "@ + "?"@ + dec_digits(k) + ")"@,
        CmpModel::NotContains(_) => " NOT instr("@ + name + ", "@ + "?"@ + dec_digits(k) + ")"@,
    }
}

/// How many of these conditions bind a parameter.
pub open spec fn spec_binds_count(conds: Seq<(Column, CmpModel)>) -> nat
    decreases conds.len(),
{
    if conds.len() == 0 {
        0
    } else {
        spec_binds_count(conds.drop_last()) + (if conds.last().1.binds() {
            1nat
        } else {
            0nat
        })
    }
}

/// The rendered predicates, in declaration order, joined by ` AND`; the
/// placeholder index of each binding condition is the number of binding
/// conditions up to and including it.
pub open spec fn spec_render_conds(conds: Seq<(Column, CmpModel)>) -> Seq<char>
    decreases conds.len(),
{
    if conds.len() == 0 {
        Seq::empty()
    } else {
        spec_render_conds(conds.drop_last()) + (if conds.len() > 1 {
            " AND"@
        } else {
            Seq::<char>::empty()
        }) + spec_render_cond(conds.last().0, conds.last().1, spec_binds_count(conds))
    }
}

/// The full rendered statement: an unconditional scan when there are no
/// conditions, a `WHERE` clause otherwise.
pub open spec fn spec_query(conds: Seq<(Column, CmpModel)>) -> Seq<char> {
    "SELECT * FROM music"@ + (if conds.len() > 0 {
        " WHERE"@ + spec_render_conds(conds)
    } else {
        Seq::<char>::empty()
    }) + ";"@
}

/// The bound parameters, in declaration order: the operand text of every
/// binding condition.
pub open spec fn spec_params(conds: Seq<(Column, CmpModel)>) -> Seq<Seq<char>>
    decreases conds.len(),
{
    if conds.len() == 0 {
        Seq::empty()
    } else {
        spec_params(conds.drop_last()) + (match conds.last().1.spec_param() {
            Some(p) => seq![p],
            None => Seq::<Seq<char>>::empty(),
        })
    }
}

proof fn lemma_literal_qfree()
    ensures
        !contains_char(" "@, '?'),
        !contains_char(" AND"@, '?'),
        !contains_char(" WHERE"@, '?'),
        !contains_char(";"@, '?'),
        !contains_char("SELECT * FROM music"@, '?'),
        !contains_char(" IS NOT NULL"@, '?'),
        !contains_char(" IS NULL"@, '?'),
        !contains_char(" < "@, '?'),
        !contains_char(" <= "@, '?'),
        !contains_char(" > "@, '?'),
        !contains_char(" >= "@, '?'),
        !contains_char(" == "@, '?'),
        !contains_char(" != "@, '?'),
        !contains_char(" instr("@, '?'),
        !contains_char(" NOT instr("@, '?'),
        !contains_char(", "@, '?'),
        !contains_char(")"@, '?'),
        count_char("?"@, '?') == 1,
{
    reveal_strlit(" ");
    reveal_strlit(" AND");
    reveal_strlit(" WHERE");
    reveal_strlit(";");
    reveal_strlit("SELECT * FROM music");
    reveal_strlit(" IS NOT NULL");
    reveal_strlit(" IS NULL");
    reveal_strlit(" < ");
    reveal_strlit(" <= ");
    reveal_strlit(" > ");
    reveal_strlit(" >= ");
    reveal_strlit(" == ");
    reveal_strlit(" != ");
    reveal_strlit(" instr(");
    reveal_strlit(" NOT instr(");
    reveal_strlit(", ");
    reveal_strlit(")");
    reveal_strlit("?");
    assert(("?"@).drop_last().len() == 0);
    assert(count_char(("?"@).drop_last(), '?') == 0);
    assert(("?"@).last() == '?');
}

proof fn lemma_colname_qfree(col: Column)
    ensures
        !contains_char(col.spec_name(), '?'),
{
    reveal_strlit("id");
    reveal_strlit("title");
    reveal_strlit("source");
    reveal_strlit("composer");
    reveal_strlit("arranger");
    reveal_strlit("notes");
    reveal_strlit("runtime");
}

/// A fragment `a + "?" + digits` holds exactly one question mark when `a` is
/// free of them.
proof fn lemma_qcount_marked(a: Seq<char>, k: nat)
    requires
        !contains_char(a, '?'),
    ensures
        count_char(a + "?"@ + dec_digits(k), '?') == 1,
{
    lemma_literal_qfree();
    lemma_count_char_absent(a, '?');
    lemma_dec_digits_no_qmark(k);
    lemma_count_char_concat(a, "?"@, '?');
    lemma_count_char_concat(a + "?"@, dec_digits(k), '?');
}

/// The rendered predicate of a condition holds exactly one question mark
/// when the condition binds a parameter, and none otherwise.
proof fn lemma_cond_qcount(col: Column, c: CmpModel, k: nat)
    ensures
        count_char(spec_render_cond(col, c, k), '?') == (if c.binds() {
            1nat
        } else {
            0nat
        }),
{
    lemma_literal_qfree();
    lemma_colname_qfree(col);
    let name = col.spec_name();
    match c {
        CmpModel::Has => {
            lemma_absent_concat(" "@, name, '?');
            lemma_absent_concat(" "@ + name, " IS NOT NULL"@, '?');
            lemma_count_char_absent(" "@ + name + " IS NOT NULL"@, '?');
        },
        CmpModel::NotHas => {
            lemma_absent_concat(" "@, name, '?');
            lemma_absent_concat(" "@ + name, " IS NULL"@, '?');
            lemma_count_char_absent(" "@ + name + " IS NULL"@, '?');
        },
        CmpModel::Less(_) => {
            lemma_absent_concat(" "@, name, '?');
            lemma_absent_concat(" "@ + name, " < "@, '?');
            lemma_qcount_marked(" "@ + name + " < "@, k);
        },
        CmpModel::LessEqual(_) => {
            lemma_absent_concat(" "@, name, '?');
            lemma_absent_concat(" "@ + name, " <= "@, '?');
            lemma_qcount_marked(" "@ + name + " <= "@, k);
        },
        CmpModel::Greater(_) => {
            lemma_absent_concat(" "@, name, '?');
            lemma_absent_concat(" "@ + name, " > "@, '?');
            lemma_qcount_marked(" "@ + name + " > "@, k);
        },
        CmpModel::GreaterEqual(_) => {
            lemma_absent_concat(" "@, name, '?');
            lemma_absent_concat(" "@ + name, " >= "@, '?');
            lemma_qcount_marked(" "@ + name + " >= "@, k);
        },
        CmpModel::Equal(_) => {
            lemma_absent_concat(" "@, name, '?');
            lemma_absent_concat(" "@ + name, " == "@, '?');
            lemma_qcount_marked(" "@ + name + " == "@, k);
        },
        CmpModel::NotEqual(_) => {
            lemma_absent_concat(" "@, name, '?');
            lemma_absent_concat(" "@ + name, " != "@, '?');
            lemma_qcount_marked(" "@ + name + " != "@, k);
        },
        CmpModel::StrEqual(_) => {
            lemma_absent_concat(" "@, name, '?');
            lemma_absent_concat(" "@ + name, " == "@, '?');
            lemma_qcount_marked(" "@ + name + " == "@, k);
        },
        CmpModel::StrNotEqual(_) => {
            lemma_absent_concat(" "@, name, '?');
            lemma_absent_concat(" "@ + name, " != "@, '?');
            lemma_qcount_marked(" "@ + name + " != "@, k);
        },
        CmpModel::Contains(_) => {
            lemma_absent_concat(" instr("@, name, '?');
            lemma_absent_concat(" instr("@ + name, ", "@, '?');
            lemma_qcount_marked(" instr("@ + name + ", "@, k);
            lemma_count_char_absent(")"@, '?');
            lemma_count_char_concat(" instr("@ + name + ", "@ + "?"@ + dec_digits(k), ")"@, '?');
        },
        CmpModel::NotContains(_) => {
            lemma_absent_concat(" NOT instr("@, name, '?');
            lemma_absent_concat(" NOT instr("@ + name, ", "@, '?');
            lemma_qcount_marked(" NOT instr("@ + name + ", "@, k);
            lemma_count_char_absent(")"@, '?');
            lemma_count_char_concat(
                " NOT instr("@ + name + ", "@ + "?"@ + dec_digits(k),
                ")"@,
                '?',
            );
        },
    }
}

proof fn lemma_render_conds_qcount(conds: Seq<(Column, CmpModel)>)
    ensures
        count_char(spec_render_conds(conds), '?') == spec_binds_count(conds),
    decreases conds.len(),
{
    if conds.len() == 0 {
        assert(spec_render_conds(conds) =~= Seq::<char>::empty());
    } else {
        lemma_render_conds_qcount(conds.drop_last());
        lemma_literal_qfree();
        let head = spec_render_conds(conds.drop_last());
        let sep: Seq<char> = if conds.len() > 1 {
            " AND"@
        } else {
            Seq::<char>::empty()
        };
        let frag = spec_render_cond(conds.last().0, conds.last().1, spec_binds_count(conds));
        lemma_cond_qcount(conds.last().0, conds.last().1, spec_binds_count(conds));
        lemma_count_char_absent(sep, '?');
        lemma_count_char_concat(head, sep, '?');
        lemma_count_char_concat(head + sep, frag, '?');
    }
}

proof fn lemma_params_len(conds: Seq<(Column, CmpModel)>)
    ensures
        spec_params(conds).len() == spec_binds_count(conds),
    decreases conds.len(),
{
    if conds.len() > 0 {
        lemma_params_len(conds.drop_last());
    }
}

/// Law: for every non-empty condition list, the rendered statement holds
/// exactly one `?` placeholder per condition that binds a value — the
/// existence checks contribute none — and the bound parameter list has
/// exactly that many entries, so positions and placeholders stay in
/// lockstep.
pub proof fn lemma_query_placeholder_lockstep(conds: Seq<(Column, CmpModel)>)
    requires
        conds.len() > 0,
    ensures
        count_char(spec_query(conds), '?') == spec_binds_count(conds),
        spec_params(conds).len() == spec_binds_count(conds),
{
    lemma_literal_qfree();
    lemma_render_conds_qcount(conds);
    lemma_params_len(conds);
    lemma_count_char_absent("SELECT * FROM music"@, '?');
    lemma_count_char_absent(" WHERE"@, '?');
    lemma_count_char_absent(";"@, '?');
    lemma_count_char_concat(" WHERE"@, spec_render_conds(conds), '?');
    lemma_count_char_concat("SELECT * FROM music"@, " WHERE"@ + spec_render_conds(conds), '?');
    lemma_count_char_concat(
        "SELECT * FROM music"@ + (" WHERE"@ + spec_render_conds(conds)),
        ";"@,
        '?',
    );
}

/// Law: placeholder indices run contiguously from one, in declaration
/// order. Extending a prefix of the condition list by one condition extends
/// the rendering by that condition's predicate, whose placeholder index —
/// when it binds a value — is exactly one more than the number of binding
/// conditions before it.
pub proof fn lemma_placeholder_indices_contiguous(conds: Seq<(Column, CmpModel)>, i: int)
    requires
        0 <= i < conds.len(),
    ensures
        spec_binds_count(conds.take(i + 1)) == spec_binds_count(conds.take(i)) + (
        if conds[i].1.binds() {
            1nat
        } else {
            0nat
        }),
        spec_render_conds(conds.take(i + 1)) == spec_render_conds(conds.take(i)) + (if i > 0 {
            " AND"@
        } else {
            Seq::<char>::empty()
        }) + spec_render_cond(conds[i].0, conds[i].1, spec_binds_count(conds.take(i + 1))),
{
    assert(conds.take(i + 1).drop_last() =~= conds.take(i));
    assert(conds.take(i + 1).last() == conds[i]);
}

/// An accumulating builder for one catalog query: an ordered sequence of
/// conditions, each appended by one setter.
pub struct MusicQuery {
    conditions: Vec<(Column, Comparison)>,
}

impl View for MusicQuery {
    type V = Seq<(Column, CmpModel)>;

    closed spec fn view(&self) -> Seq<(Column, CmpModel)> {
        self.conditions@.map_values(|c: (Column, Comparison)| (c.0, c.1@))
    }
}

fn render_cond(col: Column, c: &Comparison, k: u64) -> (r: String)
    ensures
        r@ == spec_render_cond(col, c@, k as nat),
{
    let mut s = " ".to_owned();
    match c {
        Comparison::Has => {
            s.append(col.name());
            s.append(" IS NOT NULL");
        },
        Comparison::NotHas => {
            s.append(col.name());
            s.append(" IS NULL");
        },
        Comparison::Less(_) => {
            s.append(col.name());
            s.append(" < ");
            s.append("?");
            s.append(u64_to_dec(k).as_str());
        },
        Comparison::LessEqual(_) => {
            s.append(col.name());
            s.append(" <= ");
            s.append("?");
            s.append(u64_to_dec(k).as_str());
        },
        Comparison::Greater(_) => {
            s.append(col.name());
            s.append(" > ");
            s.append("?");
            s.append(u64_to_dec(k).as_str());
        },
        Comparison::GreaterEqual(_) => {
            s.append(col.name());
            s.append(" >= ");
            s.append("?");
            s.append(u64_to_dec(k).as_str());
        },
        Comparison::Equal(_) => {
            s.append(col.name());
            s.append(" == ");
            s.append("?");
            s.append(u64_to_dec(k).as_str());
        },
        Comparison::NotEqual(_) => {
            s.append(col.name());
            s.append(" != ");
            s.append("?");
            s.append(u64_to_dec(k).as_str());
        },
        Comparison::StrEqual(_) => {
            s.append(col.name());
            s.append(" == ");
            s.append("?");
            s.append(u64_to_dec(k).as_str());
        },
        Comparison::StrNotEqual(_) => {
            s.append(col.name());
            s.append(" != ");
            s.append("?");
            s.append(u64_to_dec(k).as_str());
        },
        Comparison::Contains(_) => {
            s = " instr(".to_owned();
            s.append(col.name());
            s.append(", ");
            s.append("?");
            s.append(u64_to_dec(k).as_str());
            s.append(")");
        },
        Comparison::NotContains(_) => {
            s = " NOT instr(".to_owned();
            s.append(col.name());
            s.append(", ");
            s.append("?");
            s.append(u64_to_dec(k).as_str());
            s.append(")");
        },
    }
    proof {
        assert(s@ =~= spec_render_cond(col, c@, k as nat));
    }
    s
}

impl MusicQuery {
    /// A builder with no conditions yet.
    pub fn new() -> (r: MusicQuery)
        ensures
            r@ == Seq::<(Column, CmpModel)>::empty(),
    {
        let r = MusicQuery { conditions: Vec::new() };
        proof {
            assert(r@ =~= Seq::<(Column, CmpModel)>::empty());
        }
        r
    }

    fn push_cond(self, col: Column, c: Comparison) -> (r: Self)
        ensures
            r@ == self@.push((col, c@)),
    {
        let mut conditions = self.conditions;
        conditions.push((col, c));
        let r = MusicQuery { conditions };
        proof {
            assert(r@ =~= self@.push((col, r.conditions@.last().1@)));
        }
        r
    }

    /// Renders the accumulated conditions into one statement. Rendering is
    /// total: every condition variant has a predicate shape, so this never
    /// fails.
    pub fn make_query(&self) -> (r: Result<String, crate::store::Error>)
        ensures
            r matches Ok(q) && q@ == spec_query(self@),
    {
        let mut s = "SELECT * FROM music".to_owned();
        let n = self.conditions.len();
        if n > 0 {
            s.append(" WHERE");
            let mut count: u64 = 0;
            let mut i: usize = 0;
            proof {
                assert(self@.take(0int) =~= Seq::<(Column, CmpModel)>::empty());
            }
            while i < n
                invariant
                    0 <= i <= n,
                    n == self.conditions.len(),
                    n > 0,
                    self@ == self.conditions@.map_values(|c: (Column, Comparison)| (c.0, c.1@)),
                    self@.len() == n,
                    count as nat == spec_binds_count(self@.take(i as int)),
                    count <= i,
                    s@ == "SELECT * FROM music"@ + " WHERE"@ + spec_render_conds(
                        self@.take(i as int),
                    ),
                decreases n - i,
            {
                let cond = &self.conditions[i];
                let binds = match cond.1 {
                    Comparison::Has => false,
                    Comparison::NotHas => false,
                    _ => true,
                };
                if binds {
                    count = count + 1;
                }
                if i > 0 {
                    s.append(" AND");
                }
                let frag = render_cond(cond.0, &cond.1, count);
                s.append(frag.as_str());
                proof {
                    let prefix = self@.take(i as int);
                    let prefix1 = self@.take(i + 1);
                    assert(prefix1.drop_last() =~= prefix);
                    assert(prefix1.last() == self@[i as int]);
                    assert(self@[i as int].1 == cond.1@);
                    assert(binds == self@[i as int].1.binds());
                    assert(spec_binds_count(prefix1) == spec_binds_count(prefix) + (
                    if self@[i as int].1.binds() {
                        1nat
                    } else {
                        0nat
                    }));
                    if i == 0 {
                        assert(spec_render_conds(prefix) =~= Seq::<char>::empty());
                        assert(s@ =~= "SELECT * FROM music"@ + " WHERE"@ + spec_render_conds(
                            prefix1,
                        ));
                    } else {
                        assert(s@ =~= "SELECT * FROM music"@ + " WHERE"@ + spec_render_conds(
                            prefix1,
                        ));
                    }
                }
                i = i + 1;
            }
            proof {
                assert(self@.take(n as int) =~= self@);
            }
        }
        s.append(";");
        proof {
            assert(s@ =~= spec_query(self@));
        }
        Ok(s)
    }

    /// Requires the record's id to equal the given value.
    pub fn id_eq(self, id: i32) -> (r: Self)
        ensures
            r@ == self@.push((Column::Id, CmpModel::Equal(id as int))),
    {
        self.push_cond(Column::Id, Comparison::Equal(id))
    }

    /// Requires the record's id to differ from the given value.
    pub fn id_ne(self, id: i32) -> (r: Self)
        ensures
            r@ == self@.push((Column::Id, CmpModel::NotEqual(id as int))),
    {
        self.push_cond(Column::Id, Comparison::NotEqual(id))
    }

    /// Requires the title to equal the given string.
    pub fn title_eq(self, title: &str) -> (r: Self)
        ensures
            r@ == self@.push((Column::Title, CmpModel::StrEqual(title@))),
    {
        self.push_cond(Column::Title, Comparison::StrEqual(title.to_owned()))
    }

    /// Requires the title to differ from the given string.
    pub fn title_ne(self, title: &str) -> (r: Self)
        ensures
            r@ == self@.push((Column::Title, CmpModel::StrNotEqual(title@))),
    {
        self.push_cond(Column::Title, Comparison::StrNotEqual(title.to_owned()))
    }

    /// Requires the title to contain the given string.
    pub fn title_contains(self, title: &str) -> (r: Self)
        ensures
            r@ == self@.push((Column::Title, CmpModel::Contains(title@))),
    {
        self.push_cond(Column::Title, Comparison::Contains(title.to_owned()))
    }

    /// Requires the title not to contain the given string.
    pub fn title_not_contains(self, title: &str) -> (r: Self)
        ensures
            r@ == self@.push((Column::Title, CmpModel::NotContains(title@))),
    {
        self.push_cond(Column::Title, Comparison::NotContains(title.to_owned()))
    }

    /// Requires the source to equal the given string.
    pub fn source_eq(self, source: &str) -> (r: Self)
        ensures
            r@ == self@.push((Column::Source, CmpModel::StrEqual(source@))),
    {
        self.push_cond(Column::Source, Comparison::StrEqual(source.to_owned()))
    }

    /// Requires the source to differ from the given string.
    pub fn source_ne(self, source: &str) -> (r: Self)
        ensures
            r@ == self@.push((Column::Source, CmpModel::StrNotEqual(source@))),
    {
        self.push_cond(Column::Source, Comparison::StrNotEqual(source.to_owned()))
    }

    /// Requires the source to contain the given string.
    pub fn source_contains(self, source: &str) -> (r: Self)
        ensures
            r@ == self@.push((Column::Source, CmpModel::Contains(source@))),
    {
        self.push_cond(Column::Source, Comparison::Contains(source.to_owned()))
    }

    /// Requires the source not to contain the given string.
    pub fn source_not_contains(self, source: &str) -> (r: Self)
        ensures
            r@ == self@.push((Column::Source, CmpModel::NotContains(source@))),
    {
        self.push_cond(Column::Source, Comparison::NotContains(source.to_owned()))
    }

    /// Requires a composer to be recorded.
    pub fn has_composer(self) -> (r: Self)
        ensures
            r@ == self@.push((Column::Composer, CmpModel::Has)),
    {
        self.push_cond(Column::Composer, Comparison::Has)
    }

    /// Requires no composer to be recorded.
    pub fn null_composer(self) -> (r: Self)
        ensures
            r@ == self@.push((Column::Composer, CmpModel::NotHas)),
    {
        self.push_cond(Column::Composer, Comparison::NotHas)
    }

    /// Requires the composer to equal the given string.
    pub fn composer_eq(self, composer: &str) -> (r: Self)
        ensures
            r@ == self@.push((Column::Composer, CmpModel::StrEqual(composer@))),
    {
        self.push_cond(Column::Composer, Comparison::StrEqual(composer.to_owned()))
    }

    /// Requires the composer to differ from the given string.
    pub fn composer_ne(self, composer: &str) -> (r: Self)
        ensures
            r@ == self@.push((Column::Composer, CmpModel::StrNotEqual(composer@))),
    {
        self.push_cond(Column::Composer, Comparison::StrNotEqual(composer.to_owned()))
    }

    /// Requires the composer to contain the given string.
    pub fn composer_contains(self, composer: &str) -> (r: Self)
        ensures
            r@ == self@.push((Column::Composer, CmpModel::Contains(composer@))),
    {
        self.push_cond(Column::Composer, Comparison::Contains(composer.to_owned()))
    }

    /// Requires the composer not to contain the given string.
    pub fn composer_not_contains(self, composer: &str) -> (r: Self)
        ensures
            r@ == self@.push((Column::Composer, CmpModel::NotContains(composer@))),
    {
        self.push_cond(Column::Composer, Comparison::NotContains(composer.to_owned()))
    }

    /// Requires an arranger to be recorded.
    pub fn has_arranger(self) -> (r: Self)
        ensures
            r@ == self@.push((Column::Arranger, CmpModel::Has)),
    {
        self.push_cond(Column::Arranger, Comparison::Has)
    }

    /// Requires no arranger to be recorded.
    pub fn null_arranger(self) -> (r: Self)
        ensures
            r@ == self@.push((Column::Arranger, CmpModel::NotHas)),
    {
        self.push_cond(Column::Arranger, Comparison::NotHas)
    }

    /// Requires the arranger to equal the given string.
    pub fn arranger_eq(self, arranger: &str) -> (r: Self)
        ensures
            r@ == self@.push((Column::Arranger, CmpModel::StrEqual(arranger@))),
    {
        self.push_cond(Column::Arranger, Comparison::StrEqual(arranger.to_owned()))
    }

    /// Requires the arranger to differ from the given string.
    pub fn arranger_ne(self, arranger: &str) -> (r: Self)
        ensures
            r@ == self@.push((Column::Arranger, CmpModel::StrNotEqual(arranger@))),
    {
        self.push_cond(Column::Arranger, Comparison::StrNotEqual(arranger.to_owned()))
    }

    /// Requires the arranger to contain the given string.
    pub fn arranger_contains(self, arranger: &str) -> (r: Self)
        ensures
            r@ == self@.push((Column::Arranger, CmpModel::Contains(arranger@))),
    {
        self.push_cond(Column::Arranger, Comparison::Contains(arranger.to_owned()))
    }

    /// Requires the arranger not to contain the given string.
    pub fn arranger_not_contains(self, arranger: &str) -> (r: Self)
        ensures
            r@ == self@.push((Column::Arranger, CmpModel::NotContains(arranger@))),
    {
        self.push_cond(Column::Arranger, Comparison::NotContains(arranger.to_owned()))
    }

    /// Requires notes to be recorded.
    pub fn has_notes(self) -> (r: Self)
        ensures
            r@ == self@.push((Column::Notes, CmpModel::Has)),
    {
        self.push_cond(Column::Notes, Comparison::Has)
    }

    /// Requires no notes to be recorded.
    pub fn null_notes(self) -> (r: Self)
        ensures
            r@ == self@.push((Column::Notes, CmpModel::NotHas)),
    {
        self.push_cond(Column::Notes, Comparison::NotHas)
    }

    /// Requires the notes to equal the given string.
    pub fn notes_eq(self, notes: &str) -> (r: Self)
        ensures
            r@ == self@.push((Column::Notes, CmpModel::StrEqual(notes@))),
    {
        self.push_cond(Column::Notes, Comparison::StrEqual(notes.to_owned()))
    }

    /// Requires the notes to differ from the given string.
    pub fn notes_ne(self, notes: &str) -> (r: Self)
        ensures
            r@ == self@.push((Column::Notes, CmpModel::StrNotEqual(notes@))),
    {
        self.push_cond(Column::Notes, Comparison::StrNotEqual(notes.to_owned()))
    }

    /// Requires the notes to contain the given string.
    pub fn notes_contains(self, notes: &str) -> (r: Self)
        ensures
            r@ == self@.push((Column::Notes, CmpModel::Contains(notes@))),
    {
        self.push_cond(Column::Notes, Comparison::Contains(notes.to_owned()))
    }

    /// Requires the notes not to contain the given string.
    pub fn notes_not_contains(self, notes: &str) -> (r: Self)
        ensures
            r@ == self@.push((Column::Notes, CmpModel::NotContains(notes@))),
    {
        self.push_cond(Column::Notes, Comparison::NotContains(notes.to_owned()))
    }

    /// Requires a runtime to be recorded.
    pub fn has_runtime(self) -> (r: Self)
        ensures
            r@ == self@.push((Column::Runtime, CmpModel::Has)),
    {
        self.push_cond(Column::Runtime, Comparison::Has)
    }

    /// Requires no runtime to be recorded.
    pub fn null_runtime(self) -> (r: Self)
        ensures
            r@ == self@.push((Column::Runtime, CmpModel::NotHas)),
    {
        self.push_cond(Column::Runtime, Comparison::NotHas)
    }

    /// Requires the runtime to equal the given number of seconds.
    pub fn runtime_eq(self, runtime: u16) -> (r: Self)
        ensures
            r@ == self@.push((Column::Runtime, CmpModel::Equal(runtime as int))),
    {
        self.push_cond(Column::Runtime, Comparison::Equal(runtime as i32))
    }

    /// Requires the runtime to differ from the given number of seconds.
    pub fn runtime_ne(self, runtime: u16) -> (r: Self)
        ensures
            r@ == self@.push((Column::Runtime, CmpModel::NotEqual(runtime as int))),
    {
        self.push_cond(Column::Runtime, Comparison::NotEqual(runtime as i32))
    }

    /// Requires the runtime to be below the given number of seconds.
    pub fn runtime_lt(self, runtime: u16) -> (r: Self)
        ensures
            r@ == self@.push((Column::Runtime, CmpModel::Less(runtime as int))),
    {
        self.push_cond(Column::Runtime, Comparison::Less(runtime as i32))
    }

    /// Requires the runtime to be at most the given number of seconds.
    pub fn runtime_le(self, runtime: u16) -> (r: Self)
        ensures
            r@ == self@.push((Column::Runtime, CmpModel::LessEqual(runtime as int))),
    {
        self.push_cond(Column::Runtime, Comparison::LessEqual(runtime as i32))
    }

    /// Requires the runtime to be above the given number of seconds.
    pub fn runtime_gt(self, runtime: u16) -> (r: Self)
        ensures
            r@ == self@.push((Column::Runtime, CmpModel::Greater(runtime as int))),
    {
        self.push_cond(Column::Runtime, Comparison::Greater(runtime as i32))
    }

    /// Requires the runtime to be at least the given number of seconds.
    pub fn runtime_ge(self, runtime: u16) -> (r: Self)
        ensures
            r@ == self@.push((Column::Runtime, CmpModel::GreaterEqual(runtime as int))),
    {
        self.push_cond(Column::Runtime, Comparison::GreaterEqual(runtime as i32))
    }

    /// The ordered parameter list matching the rendered statement: the
    /// operand text of each binding condition, in declaration order.
    pub fn make_params(&self) -> (r: Vec<String>)
        ensures
            r.deep_view() == spec_params(self@),
    {
        let mut out: Vec<String> = Vec::new();
        let n = self.conditions.len();
        let mut i: usize = 0;
        proof {
            assert(out.deep_view() =~= spec_params(self@.take(0int)));
        }
        while i < n
            invariant
                0 <= i <= n,
                n == self.conditions.len(),
                self@ == self.conditions@.map_values(|c: (Column, Comparison)| (c.0, c.1@)),
                self@.len() == n,
                out.deep_view() == spec_params(self@.take(i as int)),
            decreases n - i,
        {
            let cond = &self.conditions[i];
            let ghost prior = out.deep_view();
            match cond.1.param() {
                Some(p) => {
                    out.push(p);
                },
                None => {},
            }
            proof {
                let prefix = self@.take(i as int);
                let prefix1 = self@.take(i + 1);
                assert(prefix1.drop_last() =~= prefix);
                assert(prefix1.last() == self@[i as int]);
                assert(self@[i as int].1 == cond.1@);
                assert(out.deep_view() =~= spec_params(prefix1));
            }
            i = i + 1;
        }
        proof {
            assert(self@.take(n as int) =~= self@);
        }
        out
    }

    /// Executes the rendered query and maps every returned row to a record.
    /// No match is an empty sequence, not a failure; what the store returns
    /// depends on its state, so nothing more is promised of the rows.
    pub fn run(&self, db: &Db) -> (r: Result<Vec<Music>, Error>)
        ensures
            r matches Err(e) ==> e is Storage,
    {
        let q = match self.make_query() {
            Ok(q) => q,
            Err(_) => {
                proof {
                    assert(false);
                }
                return Err(Error::NotPersisted);
            },
        };
        let params = self.make_params();
        let bound = text_params(&params);
        proof {
            assert(bound@.len() == spec_params(self@).len());
        }
        let rows = match db_query(db, q.as_str(), &bound) {
            Ok(rows) => rows,
            Err(e) => {
                return Err(e);
            },
        };
        rows_to_music(rows)
    }

    /// Executes the rendered query and returns at most one mapped record —
    /// the first row of an unspecified order when several qualify. Absence
    /// is not a failure.
    pub fn run_one(&self, db: &Db) -> (r: Result<Option<Music>, Error>)
        ensures
            r matches Err(e) ==> e is Storage,
    {
        let all = match self.run(db) {
            Ok(all) => all,
            Err(e) => {
                return Err(e);
            },
        };
        if all.len() == 0 {
            Ok(None)
        } else {
            Ok(Some(all[0].clone()))
        }
    }
}

/// Maps raw rows to records. Success is owed exactly when every row has
/// the catalog table's shape; one misshapen row fails the whole read.
pub(crate) fn rows_to_music(rows: Vec<Vec<SqlValue>>) -> (r: Result<Vec<Music>, Error>)
    ensures
        r is Ok <==> forall|j: int|
            0 <= j < rows@.len() ==> crate::catalog::spec_from_row((#[trigger] rows@[j])@) is Some,
        r matches Err(e) ==> e is Storage,
        r matches Ok(out) ==> out@.len() == rows@.len() && forall|j: int|
            0 <= j < rows@.len() ==> Some((#[trigger] out@[j])@) == crate::catalog::spec_from_row(
                rows@[j]@,
            ),
{
    let mut out: Vec<Music> = Vec::new();
    let mut i: usize = 0;
    while i < rows.len()
        invariant
            0 <= i <= rows.len(),
            out@.len() == i,
            forall|j: int|
                0 <= j < i ==> crate::catalog::spec_from_row((#[trigger] rows@[j])@) is Some,
            forall|j: int|
                0 <= j < i ==> Some((#[trigger] out@[j])@) == crate::catalog::spec_from_row(
                    rows@[j]@,
                ),
        decreases rows.len() - i,
    {
        match Music::from_row(&rows[i]) {
            Some(m) => {
                out.push(m);
            },
            None => {
                proof {
                    assert(crate::catalog::spec_from_row(rows@[i as int]@) is None);
                }
                return Err(Error::Storage("row did not match the catalog schema".to_owned()));
            },
        }
        i = i + 1;
    }
    Ok(out)
}

/// Rebinds rendered parameter texts as textual cells, one for one and in
/// order.
pub(crate) fn text_params(ps: &Vec<String>) -> (r: Vec<SqlValue>)
    ensures
        r@.len() == ps@.len(),
        forall|j: int|
            0 <= j < ps@.len() ==> ((#[trigger] r@[j]) matches SqlValue::Text(t) && t@ == ps@[j]@),
{
    let mut out: Vec<SqlValue> = Vec::new();
    let mut i: usize = 0;
    while i < ps.len()
        invariant
            0 <= i <= ps@.len(),
            out@.len() == i,
            forall|j: int|
                0 <= j < i ==> ((#[trigger] out@[j]) matches SqlValue::Text(t) && t@ == ps@[j]@),
        decreases ps@.len() - i,
    {
        out.push(SqlValue::Text(ps[i].clone()));
        i = i + 1;
    }
    out
}

} // verus!
