//! Statements assembled from parts. A filter is a sequence of pieces, each
//! either SQL text or a value bound as a parameter, which whoever runs the
//! statement hands to its query builder in order. Caller-supplied text is
//! only ever bound, never spliced into the SQL.
use crate::text::{push_char, trim, trim_to_string};
use vstd::prelude::*;

verus! {

/// One piece of a statement.
#[derive(Debug)]
pub enum SqlPiece {
    /// SQL text, written by this library.
    Sql(String),
    /// A text value, bound as a parameter.
    BindText(String),
    /// An identifier, bound as a UUID parameter.
    BindId(u128),
}

pub enum PieceView {
    Sql(Seq<char>),
    BindText(Seq<char>),
    BindId(u128),
}

impl View for SqlPiece {
    type V = PieceView;

    open spec fn view(&self) -> PieceView {
        match self {
            SqlPiece::Sql(s) => PieceView::Sql(s@),
            SqlPiece::BindText(s) => PieceView::BindText(s@),
            SqlPiece::BindId(id) => PieceView::BindId(*id),
        }
    }
}

pub open spec fn pieces_view(pieces: Seq<SqlPiece>) -> Seq<PieceView> {
    pieces.map_values(|p: SqlPiece| p@)
}

pub fn push_sql(pieces: &mut Vec<SqlPiece>, sql: &str)
    ensures
        pieces_view(final(pieces)@) == pieces_view(old(pieces)@).push(PieceView::Sql(sql@)),
{
    pieces.push(SqlPiece::Sql(String::from_str(sql)));
    assert(pieces_view(pieces@) =~= pieces_view(old(pieces)@).push(PieceView::Sql(sql@)));
}

pub fn push_text(pieces: &mut Vec<SqlPiece>, value: String)
    ensures
        pieces_view(final(pieces)@) == pieces_view(old(pieces)@).push(PieceView::BindText(value@)),
{
    let ghost v = value@;
    pieces.push(SqlPiece::BindText(value));
    assert(pieces_view(pieces@) =~= pieces_view(old(pieces)@).push(PieceView::BindText(v)));
}

pub fn push_id(pieces: &mut Vec<SqlPiece>, id: u128)
    ensures
        pieces_view(final(pieces)@) == pieces_view(old(pieces)@).push(PieceView::BindId(id)),
{
    pieces.push(SqlPiece::BindId(id));
    assert(pieces_view(pieces@) =~= pieces_view(old(pieces)@).push(PieceView::BindId(id)));
}

/// A filter value as the filters read it: trimmed, and absent when blank.
pub open spec fn filter_text(value: Option<Seq<char>>) -> Option<Seq<char>> {
    match value {
        Some(v) => if trim(v).len() > 0 {
            Some(trim(v))
        } else {
            None
        },
        None => None,
    }
}

pub fn filter_value(value: Option<&str>) -> (r: Option<String>)
    ensures
        match filter_text(
            match value {
                Some(v) => Some(v@),
                None => None,
            },
        ) {
            Some(t) => r matches Some(s) && s@ == t,
            None => r is None,
        },
{
    match value {
        Some(v) => {
            let t = trim_to_string(v);
            if t.unicode_len() > 0 {
                Some(t)
            } else {
                None
            }
        },
        None => None,
    }
}

/// The `ILIKE` pattern that matches a keyword anywhere in a value.
pub open spec fn like_pattern(keyword: Seq<char>) -> Seq<char> {
    seq!['%'] + keyword + seq!['%']
}

pub fn contains_pattern(keyword: &str) -> (r: String)
    ensures
        r@ == like_pattern(keyword@),
{
    let mut r = String::new();
    push_char(&mut r, '%');
    r.append(keyword);
    push_char(&mut r, '%');
    assert(r@ =~= like_pattern(keyword@));
    r
}

/// The pieces that compare `pattern` against each column of `columns` with
/// `ILIKE`, any of them matching: `open`, then the pattern, then for each
/// further column its `OR ... ILIKE` text and the pattern again, then `)`.
pub open spec fn keyword_pieces(open: Seq<char>, rest: Seq<Seq<char>>, pattern: Seq<char>) -> Seq<PieceView>
    decreases rest.len(),
{
    if rest.len() == 0 {
        seq![PieceView::Sql(open), PieceView::BindText(pattern)]
    } else {
        keyword_pieces(open, rest.drop_last(), pattern) + seq![
            PieceView::Sql(rest.last()),
            PieceView::BindText(pattern),
        ]
    }
}

pub fn push_keyword_pieces(pieces: &mut Vec<SqlPiece>, open: &str, rest: &Vec<&str>, pattern: &str)
    ensures
        pieces_view(final(pieces)@) == pieces_view(old(pieces)@) + keyword_pieces(
            open@,
            rest@.map_values(|s: &str| s@),
            pattern@,
        ) + seq![PieceView::Sql(")"@)],
{
    let ghost base = pieces_view(pieces@);
    push_sql(pieces, open);
    push_text(pieces, String::from_str(pattern));
    let ghost restv = rest@.map_values(|s: &str| s@);
    assert(pieces_view(pieces@) =~= base + keyword_pieces(open@, restv.subrange(0, 0), pattern@));
    let mut i: usize = 0;
    while i < rest.len()
        invariant
            i <= rest@.len(),
            restv == rest@.map_values(|s: &str| s@),
            pieces_view(pieces@) == base + keyword_pieces(open@, restv.subrange(0, i as int), pattern@),
        decreases rest@.len() - i,
    {
        let ghost before = pieces_view(pieces@);
        push_sql(pieces, rest[i]);
        push_text(pieces, String::from_str(pattern));
        assert(restv.subrange(0, i + 1).drop_last() =~= restv.subrange(0, i as int));
        assert(restv.subrange(0, i + 1).last() == rest@[i as int]@);
        assert(pieces_view(pieces@) =~= base + keyword_pieces(open@, restv.subrange(0, i + 1), pattern@));
        i = i + 1;
    }
    assert(restv.subrange(0, rest@.len() as int) =~= restv);
    push_sql(pieces, ")");
}

/// Every SQL text among `pieces` is one of `allowed`.
pub open spec fn sql_texts_within(pieces: Seq<PieceView>, allowed: Set<Seq<char>>) -> bool {
    forall|i: int| 0 <= i < pieces.len() ==> (#[trigger] pieces[i] matches PieceView::Sql(t) ==> allowed.contains(t))
}

pub proof fn lemma_concat_within(a: Seq<PieceView>, b: Seq<PieceView>, allowed: Set<Seq<char>>)
    requires
        sql_texts_within(a, allowed),
        sql_texts_within(b, allowed),
    ensures
        sql_texts_within(a + b, allowed),
{
    assert forall|i: int| 0 <= i < (a + b).len() implies ((#[trigger] (a + b)[i]) matches PieceView::Sql(t) ==> allowed.contains(t)) by {
        if i < a.len() {
            assert((a + b)[i] == a[i]);
        } else {
            assert((a + b)[i] == b[i - a.len()]);
        }
    }
}

pub proof fn lemma_keyword_pieces_within(open: Seq<char>, rest: Seq<Seq<char>>, pattern: Seq<char>, allowed: Set<Seq<char>>)
    requires
        allowed.contains(open),
        forall|j: int| 0 <= j < rest.len() ==> allowed.contains(#[trigger] rest[j]),
    ensures
        sql_texts_within(keyword_pieces(open, rest, pattern), allowed),
    decreases rest.len(),
{
    if rest.len() > 0 {
        assert forall|j: int| 0 <= j < rest.drop_last().len() implies allowed.contains(#[trigger] rest.drop_last()[j]) by {
            assert(rest.drop_last()[j] == rest[j]);
        }
        lemma_keyword_pieces_within(open, rest.drop_last(), pattern, allowed);
        assert(allowed.contains(rest[rest.len() - 1]));
        lemma_concat_within(
            keyword_pieces(open, rest.drop_last(), pattern),
            seq![PieceView::Sql(rest.last()), PieceView::BindText(pattern)],
            allowed,
        );
    }
}

/// Whether `pieces` hold the SQL text `sql` immediately followed by `value`.
pub open spec fn holds_condition(pieces: Seq<PieceView>, sql: Seq<char>, value: PieceView) -> bool {
    exists|i: int| 0 <= i < pieces.len() - 1 && #[trigger] pieces[i] == PieceView::Sql(sql) && pieces[i + 1] == value
}

pub proof fn lemma_holds_condition_in(a: Seq<PieceView>, sql: Seq<char>, value: PieceView, b: Seq<PieceView>)
    ensures
        holds_condition(a + seq![PieceView::Sql(sql), value] + b, sql, value),
{
    let f = a + seq![PieceView::Sql(sql), value] + b;
    assert(f[a.len() as int] == PieceView::Sql(sql));
    assert(f[a.len() as int + 1] == value);
}

/// A condition matched against a pattern begins with its opening text and
/// the pattern.
pub proof fn lemma_keyword_pieces_starts(open: Seq<char>, rest: Seq<Seq<char>>, pattern: Seq<char>)
    ensures
        keyword_pieces(open, rest, pattern).len() >= 2,
        keyword_pieces(open, rest, pattern)[0] == PieceView::Sql(open),
        keyword_pieces(open, rest, pattern)[1] == PieceView::BindText(pattern),
    decreases rest.len(),
{
    if rest.len() > 0 {
        lemma_keyword_pieces_starts(open, rest.drop_last(), pattern);
    }
}

pub proof fn lemma_holds_condition_append(a: Seq<PieceView>, b: Seq<PieceView>, sql: Seq<char>, value: PieceView)
    requires
        holds_condition(a, sql, value),
    ensures
        holds_condition(a + b, sql, value),
{
    let i = choose|i: int| 0 <= i < a.len() - 1 && #[trigger] a[i] == PieceView::Sql(sql) && a[i + 1] == value;
    assert((a + b)[i] == a[i]);
    assert((a + b)[i + 1] == a[i + 1]);
}

pub proof fn lemma_holds_condition_prepend(a: Seq<PieceView>, b: Seq<PieceView>, sql: Seq<char>, value: PieceView)
    requires
        holds_condition(b, sql, value),
    ensures
        holds_condition(a + b, sql, value),
{
    let i = choose|i: int| 0 <= i < b.len() - 1 && #[trigger] b[i] == PieceView::Sql(sql) && b[i + 1] == value;
    assert((a + b)[a.len() + i] == b[i]);
    assert((a + b)[a.len() + i + 1] == b[i + 1]);
}

pub proof fn lemma_contains_append(a: Seq<PieceView>, b: Seq<PieceView>, piece: PieceView)
    requires
        a.contains(piece),
    ensures
        (a + b).contains(piece),
{
    let i = choose|i: int| 0 <= i < a.len() && a[i] == piece;
    assert((a + b)[i] == a[i]);
}

pub proof fn lemma_contains_prepend(a: Seq<PieceView>, b: Seq<PieceView>, piece: PieceView)
    requires
        b.contains(piece),
    ensures
        (a + b).contains(piece),
{
    let i = choose|i: int| 0 <= i < b.len() && b[i] == piece;
    assert((a + b)[a.len() + i] == b[i]);
}

} // verus!
