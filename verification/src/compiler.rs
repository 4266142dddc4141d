//! The query compiler: turns a terse fragment plus naming-convention type
//! annotations (or an implicit table lookup through the schema registry)
//! into a fully-formed, validated statement plus the shape of its result
//! rows.
//!
//! Inline result columns are declared with a closed mini-grammar: an
//! identifier `name_Tag`, where `Tag` is drawn from a fixed set of type
//! tags.  The fragment is scanned with a small tokenizer; identifiers after
//! the `FROM` keyword and inside string literals do not declare columns.

use vstd::prelude::*;

use crate::db::StatementInfo;
use crate::error::TurboError;
use crate::registry::SchemaRegistry;
use crate::schema::{lower_chars, lowered, spec_lowered};
use crate::strutil::{chars_of, chars_eq, string_of_chars, sub_chars};
use crate::validator::validate_sql;

verus! {

/// How a statement is used: run for effect, as a select with generated
/// `SELECT`/`FROM` clauses, or as a common-table-expression select passed
/// through whole.
#[derive(Debug, Clone, Copy, PartialEq, Eq, Structural)]
pub enum StatementKind {
    Execute,
    Select,
    SelectCte,
}

/// The closed set of recognized result-column type tags.
#[derive(Debug, Clone, Copy, PartialEq, Eq, Structural)]
pub enum TypeTag {
    TagString,
    TagF64,
    TagI64,
    TagI32,
    TagBool,
}

/// One declared result column: its name and its type tag.
#[derive(Debug, Clone)]
pub struct ResultColumn {
    pub name: String,
    pub tag: TypeTag,
}

/// The view of declared result columns as (name, tag) pairs.
pub open spec fn result_columns_view(cols: Seq<ResultColumn>) -> Seq<(Seq<char>, TypeTag)> {
    cols.map_values(|c: ResultColumn| (c.name@, c.tag))
}

/// A character that may start an identifier.
pub open spec fn is_ident_start(c: char) -> bool {
    ||| ('a' as u32) <= c as u32 <= ('z' as u32)
    ||| ('A' as u32) <= c as u32 <= ('Z' as u32)
    ||| c == '_'
}

/// A decimal digit.
pub open spec fn is_digit(c: char) -> bool {
    ('0' as u32) <= c as u32 <= ('9' as u32)
}

/// A character that may continue an identifier.
pub open spec fn is_ident_char(c: char) -> bool {
    is_ident_start(c) || is_digit(c)
}

/// A character that may start an identifier.
pub fn ident_start(c: char) -> (r: bool)
    ensures
        r == is_ident_start(c),
{
    let u = c as u32;
    (97 <= u && u <= 122) || (65 <= u && u <= 90) || u == 95
}

/// A character that may continue an identifier.
pub fn ident_char(c: char) -> (r: bool)
    ensures
        r == is_ident_char(c),
{
    let u = c as u32;
    (97 <= u && u <= 122) || (65 <= u && u <= 90) || u == 95 || (48 <= u && u <= 57)
}

/// The first position at or past `i` that does not continue an identifier.
pub open spec fn ident_end(s: Seq<char>, i: int) -> int
    decreases s.len() - i,
        when 0 <= i <= s.len()
{
    if i >= s.len() {
        i
    } else if is_ident_char(s[i]) {
        ident_end(s, i + 1)
    } else {
        i
    }
}

/// Where an identifier scan stops: within bounds, past every identifier
/// character, and strictly forward when it started on one.
pub proof fn lemma_ident_end(s: Seq<char>, i: int)
    requires
        0 <= i <= s.len(),
    ensures
        i <= ident_end(s, i) <= s.len(),
        forall|k: int| i <= k < ident_end(s, i) ==> is_ident_char(s[k]),
        ident_end(s, i) < s.len() ==> !is_ident_char(s[ident_end(s, i)]),
        i < s.len() && is_ident_char(s[i]) ==> ident_end(s, i) > i,
    decreases s.len() - i,
{
    if i < s.len() && is_ident_char(s[i]) {
        lemma_ident_end(s, i + 1);
    }
}

/// The first position at or past `i` holding a single quote.
pub open spec fn quote_end(s: Seq<char>, i: int) -> int
    decreases s.len() - i,
        when 0 <= i <= s.len()
{
    if i >= s.len() {
        i
    } else if s[i] == '\'' {
        i
    } else {
        quote_end(s, i + 1)
    }
}

/// Where a string-literal scan stops.
pub proof fn lemma_quote_end(s: Seq<char>, i: int)
    requires
        0 <= i <= s.len(),
    ensures
        i <= quote_end(s, i) <= s.len(),
        quote_end(s, i) < s.len() ==> s[quote_end(s, i)] == '\'',
        forall|k: int| i <= k < quote_end(s, i) ==> s[k] != '\'',
    decreases s.len() - i,
{
    if i < s.len() && s[i] != '\'' {
        lemma_quote_end(s, i + 1);
    }
}

/// The recognized type tag a suffix spells, if any.
pub open spec fn spec_tag_of(w: Seq<char>) -> Option<TypeTag> {
    if w == "String"@ {
        Some(TypeTag::TagString)
    } else if w == "f64"@ {
        Some(TypeTag::TagF64)
    } else if w == "i64"@ {
        Some(TypeTag::TagI64)
    } else if w == "i32"@ {
        Some(TypeTag::TagI32)
    } else if w == "bool"@ {
        Some(TypeTag::TagBool)
    } else {
        None
    }
}

/// A suffix that reads as a numeric type tag — a signedness-or-float letter
/// followed by digits.  One of these that is not in the recognized set is a
/// declaration error, never a plain name.
pub open spec fn is_tag_shaped(w: Seq<char>) -> bool {
    &&& w.len() >= 2
    &&& (w[0] == 'i' || w[0] == 'u' || w[0] == 'f')
    &&& forall|k: int| 1 <= k < w.len() ==> is_digit(#[trigger] w[k])
}

/// The identifier is the `FROM` keyword, in any capitalization.
pub open spec fn is_from_keyword(w: Seq<char>) -> bool {
    spec_lowered(w) == "from"@
}

/// Whether the span `[start, end)` spells the given text.
fn span_eq_str(chars: &Vec<char>, start: usize, end: usize, lit: &str) -> (r: bool)
    requires
        start <= end <= chars@.len(),
    ensures
        r == (chars@.subrange(start as int, end as int) == lit@),
{
    let span = sub_chars(chars, start, end);
    let lit_chars = chars_of(lit);
    chars_eq(&span, &lit_chars)
}

/// The recognized type tag the span spells, if any.
fn tag_of(chars: &Vec<char>, start: usize, end: usize) -> (r: Option<TypeTag>)
    requires
        start <= end <= chars@.len(),
    ensures
        r == spec_tag_of(chars@.subrange(start as int, end as int)),
{
    if span_eq_str(chars, start, end, "String") {
        Some(TypeTag::TagString)
    } else if span_eq_str(chars, start, end, "f64") {
        Some(TypeTag::TagF64)
    } else if span_eq_str(chars, start, end, "i64") {
        Some(TypeTag::TagI64)
    } else if span_eq_str(chars, start, end, "i32") {
        Some(TypeTag::TagI32)
    } else if span_eq_str(chars, start, end, "bool") {
        Some(TypeTag::TagBool)
    } else {
        None
    }
}

/// Whether the span reads as a numeric type tag.
fn tag_shaped(chars: &Vec<char>, start: usize, end: usize) -> (r: bool)
    requires
        start <= end <= chars@.len(),
    ensures
        r == is_tag_shaped(chars@.subrange(start as int, end as int)),
{
    let ghost w = chars@.subrange(start as int, end as int);
    if end - start < 2 {
        return false;
    }
    let c0 = chars[start];
    if !(c0 == 'i' || c0 == 'u' || c0 == 'f') {
        return false;
    }
    let mut k: usize = start + 1;
    while k < end
        invariant
            start + 1 <= k <= end <= chars@.len(),
            w == chars@.subrange(start as int, end as int),
            forall|j: int| start + 1 <= j < k ==> is_digit(#[trigger] chars@[j]),
        decreases end - k,
    {
        let u = chars[k] as u32;
        if !(48 <= u && u <= 57) {
            proof {
                assert(w[k - start] == chars@[k as int]);
            }
            return false;
        }
        k += 1;
    }
    proof {
        assert forall|j: int| 1 <= j < w.len() implies is_digit(#[trigger] w[j]) by {
            assert(w[j] == chars@[start + j]);
        }
    }
    true
}

/// Whether the span spells the `FROM` keyword, in any capitalization.
fn from_keyword(chars: &Vec<char>, start: usize, end: usize) -> (r: bool)
    requires
        start <= end <= chars@.len(),
    ensures
        r == is_from_keyword(chars@.subrange(start as int, end as int)),
{
    let span = sub_chars(chars, start, end);
    let low = lower_chars(&span);
    let lit_chars = chars_of("from");
    chars_eq(&low, &lit_chars)
}

/// The position of the last underscore of a word, or -1 when it has none.
pub open spec fn last_underscore(w: Seq<char>) -> int
    decreases w.len(),
{
    if w.len() == 0 {
        -1
    } else if w.last() == '_' {
        w.len() - 1
    } else {
        last_underscore(w.drop_last())
    }
}

/// Where the underscore scan stops: at the last underscore if any.
proof fn lemma_last_underscore(w: Seq<char>)
    ensures
        -1 <= last_underscore(w) < w.len(),
        last_underscore(w) >= 0 ==> w[last_underscore(w)] == '_',
        forall|k: int| last_underscore(w) < k < w.len() ==> w[k] != '_',
    decreases w.len(),
{
    if w.len() > 0 && w.last() != '_' {
        lemma_last_underscore(w.drop_last());
        assert forall|k: int| last_underscore(w) < k < w.len() implies w[k] != '_' by {
            if k < w.len() - 1 {
                assert(w.drop_last()[k] == w[k]);
            }
        }
    }
}

/// What a word before the `FROM` clause declares.
pub enum SpecWordClass {
    /// An ordinary identifier: a column or table reference.
    Plain,
    /// A type-suffixed identifier declaring a result column.
    Member { name: Seq<char>, tag: TypeTag },
    /// A tag-shaped suffix outside the recognized set: a declaration error.
    BadTag { tag: Seq<char> },
}

/// Classify one identifier of the fragment.  The suffix after the last
/// underscore is the candidate tag; the part before it, which must be
/// nonempty, is the column name.
pub open spec fn classify_word(w: Seq<char>) -> SpecWordClass {
    let p = last_underscore(w);
    if p <= 0 {
        SpecWordClass::Plain
    } else {
        let tag = w.subrange(p + 1, w.len() as int);
        match spec_tag_of(tag) {
            Some(t) => SpecWordClass::Member { name: w.subrange(0, p), tag: t },
            None => {
                if is_tag_shaped(tag) {
                    SpecWordClass::BadTag { tag }
                } else {
                    SpecWordClass::Plain
                }
            },
        }
    }
}

/// What the classifier hands back for one word, with the owned strings a
/// caller keeps.
pub enum WordOutcome {
    Plain,
    Member(ResultColumn),
    BadTag { column: String, tag: String },
}

/// Classify the identifier in the span `[start, end)`.
fn classify_span(chars: &Vec<char>, start: usize, end: usize) -> (r: WordOutcome)
    requires
        start <= end <= chars@.len(),
    ensures
        match classify_word(chars@.subrange(start as int, end as int)) {
            SpecWordClass::Plain => r is Plain,
            SpecWordClass::Member { name, tag } => r matches WordOutcome::Member(col)
                && col.name@ == name && col.tag == tag,
            SpecWordClass::BadTag { tag } => r matches WordOutcome::BadTag {
                column,
                tag: tag_text,
            } && column@ == chars@.subrange(start as int, end as int) && tag_text@ == tag,
        },
{
    let ghost w = chars@.subrange(start as int, end as int);
    proof {
        lemma_last_underscore(w);
    }
    // find the last underscore in [start, end)
    let mut p: usize = end;
    let mut found: bool = false;
    let mut k: usize = start;
    while k < end
        invariant
            start <= k <= end <= chars@.len(),
            w == chars@.subrange(start as int, end as int),
            found ==> start <= p < k && chars@[p as int] == '_',
            found ==> forall|j: int| p < j < k ==> chars@[j] != '_',
            !found ==> forall|j: int| start <= j < k ==> chars@[j] != '_',
            !found ==> p == end,
        decreases end - k,
    {
        if chars[k] == '_' {
            p = k;
            found = true;
        }
        k += 1;
    }
    proof {
        if found {
            assert(w[p - start] == '_');
            assert forall|j: int| (p - start) < j < w.len() implies w[j] != '_' by {
                assert(w[j] == chars@[start + j]);
            }
            lemma_last_underscore_hit(w, p - start);
        } else {
            assert forall|j: int| 0 <= j < w.len() implies w[j] != '_' by {
                assert(w[j] == chars@[start + j]);
            }
            lemma_last_underscore_miss(w);
        }
    }
    if !found || p == start {
        return WordOutcome::Plain;
    }
    let ghost tag_spec = w.subrange(p - start + 1, w.len() as int);
    proof {
        assert(tag_spec =~= chars@.subrange(p as int + 1, end as int));
    }
    match tag_of(chars, p + 1, end) {
        Some(t) => {
            let name_chars = sub_chars(chars, start, p);
            proof {
                assert(w.subrange(0, p - start) =~= chars@.subrange(start as int, p as int));
            }
            WordOutcome::Member(
                ResultColumn { name: string_of_chars(&name_chars), tag: t },
            )
        },
        None => {
            if tag_shaped(chars, p + 1, end) {
                let column_chars = sub_chars(chars, start, end);
                let tag_chars = sub_chars(chars, p + 1, end);
                WordOutcome::BadTag {
                    column: string_of_chars(&column_chars),
                    tag: string_of_chars(&tag_chars),
                }
            } else {
                WordOutcome::Plain
            }
        },
    }
}

/// A matching position with nothing after it is the last underscore.
proof fn lemma_last_underscore_hit(w: Seq<char>, p: int)
    requires
        0 <= p < w.len(),
        w[p] == '_',
        forall|k: int| p < k < w.len() ==> w[k] != '_',
    ensures
        last_underscore(w) == p,
    decreases w.len(),
{
    if w.len() > 0 && w.last() != '_' {
        assert(forall|k: int| p < k < w.drop_last().len() ==> w.drop_last()[k] != '_');
        lemma_last_underscore_hit(w.drop_last(), p);
    }
}

/// No underscore anywhere means the scan reports none.
proof fn lemma_last_underscore_miss(w: Seq<char>)
    requires
        forall|k: int| 0 <= k < w.len() ==> w[k] != '_',
    ensures
        last_underscore(w) == -1,
    decreases w.len(),
{
    if w.len() > 0 {
        lemma_last_underscore_miss(w.drop_last());
    }
}

/// A strictly forward step: to `j` if it is past `i`, else to `i + 1`.
pub open spec fn step_to(i: int, j: int) -> int {
    if j > i {
        j
    } else {
        i + 1
    }
}

/// The scan over the fragment from position `i` on.  Identifiers are
/// classified until the `FROM` keyword is seen; string literals are
/// skipped; everything else is punctuation.  `acc` holds the members
/// declared so far; a bad tag stops the scan with the offending word and
/// tag.
pub open spec fn scan_from(
    s: Seq<char>,
    i: int,
    past_from: bool,
    acc: Seq<(Seq<char>, TypeTag)>,
) -> Result<Seq<(Seq<char>, TypeTag)>, (Seq<char>, Seq<char>)>
    decreases s.len() - i,
        when 0 <= i <= s.len()
{
    if i >= s.len() {
        Ok(acc)
    } else if is_ident_char(s[i]) {
        let j = step_to(i, ident_end(s, i));
        let jc = if j <= s.len() {
            j
        } else {
            s.len() as int
        };
        let w = s.subrange(i, jc);
        if is_from_keyword(w) {
            scan_from(s, jc, true, acc)
        } else if past_from || !is_ident_start(s[i]) {
            scan_from(s, jc, past_from, acc)
        } else {
            match classify_word(w) {
                SpecWordClass::Plain => scan_from(s, jc, past_from, acc),
                SpecWordClass::Member { name, tag } => scan_from(
                    s,
                    jc,
                    past_from,
                    acc.push((name, tag)),
                ),
                SpecWordClass::BadTag { tag } => Err((w, tag)),
            }
        }
    } else if s[i] == '\'' {
        let k = quote_end(s, i + 1);
        if k >= s.len() {
            Ok(acc)
        } else {
            scan_from(s, step_to(i, k + 1), past_from, acc)
        }
    } else {
        scan_from(s, i + 1, past_from, acc)
    }
}

/// The result columns a fragment declares inline, or the offending word and
/// tag where one carries an unrecognized type tag.
pub open spec fn spec_explicit_members(s: Seq<char>) -> Result<
    Seq<(Seq<char>, TypeTag)>,
    (Seq<char>, Seq<char>),
> {
    scan_from(s, 0, false, Seq::empty())
}

/// Scan a fragment for explicitly declared result columns — identifiers of
/// the form `name_Tag` standing before the `FROM` clause and outside string
/// literals.  A tag-shaped suffix outside the recognized closed set is a
/// fatal declaration error naming the invalid tag.
pub fn extract_explicit_members(fragment: &str) -> (r: Result<Vec<ResultColumn>, TurboError>)
    ensures
        match spec_explicit_members(fragment@) {
            Ok(ms) => r matches Ok(cols) && result_columns_view(cols@) =~= ms,
            Err((w, t)) => r matches Err(e) && e matches TurboError::InvalidTypeTag {
                column,
                tag,
            } && column@ == w && tag@ == t,
        },
{
    let chars = chars_of(fragment);
    let mut cols: Vec<ResultColumn> = Vec::new();
    let mut past_from: bool = false;
    let mut i: usize = 0;
    proof {
        assert(result_columns_view(cols@) =~= Seq::<(Seq<char>, TypeTag)>::empty());
    }
    while i < chars.len()
        invariant
            chars@ == fragment@,
            i <= chars@.len(),
            scan_from(chars@, i as int, past_from, result_columns_view(cols@))
                == spec_explicit_members(fragment@),
        decreases chars@.len() - i,
    {
        let ghost acc0 = result_columns_view(cols@);
        let c = chars[i];
        if ident_char(c) {
            proof {
                lemma_ident_end(chars@, i as int);
            }
            let mut j: usize = i;
            while j < chars.len() && ident_char(chars[j])
                invariant
                    i <= j <= chars@.len(),
                    ident_end(chars@, i as int) == ident_end(chars@, j as int),
                decreases chars@.len() - j,
            {
                j += 1;
            }
            proof {
                assert(ident_end(chars@, j as int) == j);
                assert(step_to(i as int, ident_end(chars@, i as int)) == j);
            }
            if from_keyword(&chars, i, j) {
                past_from = true;
            } else if past_from || !ident_start(c) {
                // an identifier past FROM, or a bare number: no declaration
            } else {
                match classify_span(&chars, i, j) {
                    WordOutcome::Plain => {},
                    WordOutcome::Member(col) => {
                        cols.push(col);
                        proof {
                            assert(result_columns_view(cols@) =~= acc0.push(
                                (cols@.last().name@, cols@.last().tag),
                            ));
                        }
                    },
                    WordOutcome::BadTag { column, tag } => {
                        return Err(TurboError::InvalidTypeTag { column, tag });
                    },
                }
            }
            i = j;
        } else if c == '\'' {
            proof {
                lemma_quote_end(chars@, i as int + 1);
            }
            let mut k: usize = i + 1;
            while k < chars.len() && chars[k] != '\''
                invariant
                    i + 1 <= k <= chars@.len(),
                    quote_end(chars@, i as int + 1) == quote_end(chars@, k as int),
                decreases chars@.len() - k,
            {
                k += 1;
            }
            proof {
                assert(quote_end(chars@, k as int) == k);
                assert(quote_end(chars@, i as int + 1) == k);
            }
            if k >= chars.len() {
                // unterminated literal: the rest of the fragment is consumed
                return Ok(cols);
            }
            i = k + 1;
        } else {
            i = i + 1;
        }
    }
    Ok(cols)
}

/// The shape of a compiled statement's result rows.
#[derive(Debug)]
pub enum ResultShape {
    /// The statement runs for effect; no rows are read back.
    Effect,
    /// Rows cast into the record shape the call site named; the labels are
    /// the result columns the prepared statement reported, in order.
    Named(Vec<String>),
    /// Rows cast into an anonymous shape of the explicitly tagged columns.
    Inline(Vec<ResultColumn>),
}

/// A fully assembled, validated statement: its text, the bound-parameter
/// count the scratch validator discovered, and its result shape.
#[derive(Debug)]
pub struct CompiledQuery {
    pub sql: String,
    pub parameter_count: usize,
    pub shape: ResultShape,
}

/// The fragment with the generated `SELECT` prefix.
pub fn prefixed_select(fragment: &str) -> (r: String)
    ensures
        r@ == "SELECT "@ + fragment@,
{
    let mut r: String = "SELECT ".to_owned();
    r.append(fragment);
    r
}

/// The validator's discovered parameter count must equal the number of
/// arguments the call site supplies; a mismatch is fatal before the
/// statement ever reaches live data, reporting both counts and the
/// statement text.
pub fn check_param_count(info: &StatementInfo, n_args: usize, sql: &String) -> (r: Result<
    (),
    TurboError,
>)
    ensures
        r is Ok <==> info.parameter_count == n_args,
        r matches Err(e) ==> e matches TurboError::ParamCountMismatch { expected, got, sql: s }
            && expected == info.parameter_count && got == n_args && s@ == sql@,
{
    if info.parameter_count != n_args {
        return Err(
            TurboError::ParamCountMismatch {
                expected: info.parameter_count,
                got: n_args,
                sql: sql.clone(),
            },
        );
    }
    Ok(())
}

/// Compile one query: assemble the full statement from the fragment, the
/// statement kind and the optionally named result type, validate it against
/// the fully migrated scratch database, check the bound-parameter count
/// against the call site, and derive the result shape.
///
/// The statement text is, by kind:
/// - `Execute` and `SelectCte`: the fragment as given;
/// - `Select` with inline typed columns or no named result type: the
///   fragment behind a generated `SELECT`;
/// - `Select` with a named result type and no inline columns: the fragment
///   behind a generated `SELECT` when that validates as it stands, else the
///   registered shape's full `SELECT ... FROM <table>` with the fragment
///   appended.
pub fn compile_query(
    kind: StatementKind,
    result_table: Option<&String>,
    fragment: &str,
    n_args: usize,
    registry: &SchemaRegistry,
    migrations: &Vec<String>,
) -> (r: Result<CompiledQuery, TurboError>)
    requires
        registry.wf(),
    ensures
        r matches Ok(cq) ==> {
            &&& cq.parameter_count == n_args
            &&& kind == StatementKind::Execute ==> cq.sql@ == fragment@ && cq.shape is Effect
            &&& kind == StatementKind::SelectCte ==> cq.sql@ == fragment@
            &&& kind != StatementKind::Execute ==> match spec_explicit_members(fragment@) {
                Ok(ms) => {
                    if ms.len() > 0 {
                        cq.shape matches ResultShape::Inline(cols) && result_columns_view(cols@)
                            =~= ms
                    } else {
                        cq.shape is Named && kind == StatementKind::Select && result_table is Some
                    }
                },
                Err(_) => false,
            }
            &&& kind == StatementKind::Select ==> (cq.sql@ == "SELECT "@ + fragment@ || (
            result_table matches Some(rt) && match registry.spec_lookup(spec_lowered(rt@)) {
                Some(shape) => cq.sql@ == crate::mapper::spec_select_sql(
                    shape.table_name@,
                    crate::schema::columns_view(shape.columns@),
                ) + " "@ + fragment@,
                None => false,
            }))
        },
        r matches Err(e) ==> match e {
            TurboError::ParamCountMismatch { expected, got, sql } => got == n_args && expected
                != n_args,
            TurboError::InvalidTypeTag { column, tag } => (spec_explicit_members(
                fragment@,
            ) matches Err((w, t)) && column@ == w && tag@ == t),
            TurboError::UnknownTable { table } => kind == StatementKind::Select && (
            result_table matches Some(rt) && table@ == spec_lowered(rt@) && registry.spec_lookup(
                spec_lowered(rt@),
            ) is None),
            TurboError::NoResultShape => {
                &&& kind != StatementKind::Execute
                &&& (kind == StatementKind::SelectCte || result_table is None)
                &&& (spec_explicit_members(fragment@) matches Ok(ms) && ms.len() == 0)
            },
            _ => true,
        },
        spec_explicit_members(fragment@) matches Err((w, t)) ==> (r matches Err(e)
            && e matches TurboError::InvalidTypeTag { column, tag } && column@ == w && tag@ == t),
{
    let explicit = extract_explicit_members(fragment)?;
    let has_explicit = explicit.len() > 0;
    let sql: String = match kind {
        StatementKind::Execute => fragment.to_owned(),
        StatementKind::SelectCte => fragment.to_owned(),
        StatementKind::Select => {
            match result_table {
                Some(rt) if !has_explicit => {
                    let probed = prefixed_select(fragment);
                    match validate_sql(probed.as_str(), migrations) {
                        Ok(_) => probed,
                        Err(_) => {
                            let table = lowered(rt.as_str());
                            let shape = match registry.lookup(table.as_str()) {
                                Ok(shape) => shape,
                                Err(e) => {
                                    return Err(e);
                                },
                            };
                            let mut s = shape.select_sql();
                            s.append(" ");
                            s.append(fragment);
                            s
                        },
                    }
                },
                _ => prefixed_select(fragment),
            }
        },
    };
    let info = validate_sql(sql.as_str(), migrations)?;
    check_param_count(&info, n_args, &sql)?;
    let shape: ResultShape = match kind {
        StatementKind::Execute => ResultShape::Effect,
        StatementKind::Select => {
            if has_explicit {
                ResultShape::Inline(explicit)
            } else if result_table.is_some() {
                ResultShape::Named(info.column_names.clone())
            } else {
                return Err(TurboError::NoResultShape);
            }
        },
        StatementKind::SelectCte => {
            if has_explicit {
                ResultShape::Inline(explicit)
            } else {
                return Err(TurboError::NoResultShape);
            }
        },
    };
    Ok(CompiledQuery { sql, parameter_count: info.parameter_count, shape })
}

} // verus!
