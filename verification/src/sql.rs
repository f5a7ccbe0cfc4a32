//! The SQL query builder of `sqlx`, as the planner uses it: text is appended
//! with `push`, and each `push_bind` appends a numbered Postgres placeholder
//! (`$1`, `$2`, ...) while the bound value travels beside the text.

use sqlx::{Postgres, QueryBuilder};
use vstd::prelude::*;
use vstd::string::*;
use vstd::utf8::{encode_scalar, encode_utf8};

verus! {

/// A Postgres query under construction: a `sqlx::QueryBuilder` whose SQL
/// text is `query_text` and whose bound values number `bind_count`.
#[verifier::external_body]
pub struct SqlBuilder {
    qb: QueryBuilder<'static, Postgres>,
}

/// The SQL text that a query builder holds.
pub uninterp spec fn query_text(qb: SqlBuilder) -> Seq<char>;

/// How many values have been bound to a query builder.
pub uninterp spec fn bind_count(qb: SqlBuilder) -> nat;

/// The decimal digits of `n`, without leading zeros.
pub open spec fn decimal(n: nat) -> Seq<char>
    decreases n,
{
    if n < 10 {
        seq![(n + 48) as char]
    } else {
        decimal(n / 10).push(((n % 10) + 48) as char)
    }
}

/// The Postgres placeholder of the `k`-th bound value: `$k`.
pub open spec fn placeholder(k: nat) -> Seq<char> {
    seq!['$'] + decimal(k)
}

/// Number of bytes of the UTF-8 encoding of `s`.
pub open spec fn utf8_len(s: Seq<char>) -> nat {
    encode_utf8(s).len()
}

/// Bytes that Postgres' binary encoding of a text array takes: a 20-byte
/// header, then a 4-byte length and the UTF-8 bytes of each element.
pub open spec fn text_array_len(v: Seq<Seq<char>>) -> int
    decreases v.len(),
{
    if v.len() == 0 {
        20
    } else {
        text_array_len(v.drop_last()) + 4 + utf8_len(v.last())
    }
}

/// The UTF-8 encoding of a suffix is no longer than that of the whole.
proof fn lemma_utf8_len_suffix(s: Seq<char>, i: int)
    requires
        0 <= i <= s.len(),
    ensures
        utf8_len(s.skip(i)) <= utf8_len(s),
    decreases i,
{
    if i > 0 {
        lemma_utf8_len_suffix(s, i - 1);
        assert(s.skip(i - 1).drop_first() =~= s.skip(i));
        assert(encode_utf8(s.skip(i - 1)) == encode_scalar(s.skip(i - 1)[0] as u32) + encode_utf8(
            s.skip(i),
        ));
    } else {
        assert(s.skip(0) =~= s);
    }
}

/// Bytes of the UTF-8 encoding of one character.
fn char_utf8_len(c: char) -> (n: u64)
    ensures
        n == encode_scalar(c as u32).len(),
        1 <= n <= 4,
{
    let v = c as u32;
    if v <= 0x7F {
        1
    } else if v <= 0x7FF {
        2
    } else if v <= 0xFFFF {
        3
    } else {
        4
    }
}

/// The number of bytes of the UTF-8 encoding of `s`, when it is at most
/// `i32::MAX`.
pub fn utf8_len_within_i32(s: &str) -> (res: Option<u64>)
    ensures
        res is Some <==> utf8_len(s@) <= i32::MAX,
        res matches Some(n) ==> n == utf8_len(s@),
{
    let n = s.unicode_len();
    let mut i: usize = n;
    let mut acc: u64 = 0;
    proof {
        assert(s@.skip(n as int) =~= Seq::<char>::empty());
    }
    while i > 0
        invariant
            n == s@.len(),
            i <= n,
            acc == utf8_len(s@.skip(i as int)),
            acc <= i32::MAX,
        decreases i,
    {
        i = i - 1;
        let w = char_utf8_len(s.get_char(i));
        proof {
            assert(s@.skip(i as int).drop_first() =~= s@.skip(i + 1));
            assert(s@.skip(i as int)[0] == s@[i as int]);
        }
        acc = acc + w;
        if acc > 2147483647 {
            proof {
                lemma_utf8_len_suffix(s@, i as int);
            }
            return None;
        }
    }
    proof {
        assert(s@.skip(0) =~= s@);
    }
    Some(acc)
}

/// A text array never encodes shorter than any prefix of it.
proof fn lemma_text_array_len_prefix(v: Seq<Seq<char>>, i: int)
    requires
        0 <= i <= v.len(),
    ensures
        text_array_len(v.take(i)) <= text_array_len(v),
    decreases v.len(),
{
    if i < v.len() {
        assert(v.drop_last().take(i) =~= v.take(i));
        lemma_text_array_len_prefix(v.drop_last(), i);
    } else {
        assert(v.take(i) =~= v);
    }
}

/// Whether the Postgres encoding of the text array `v` fits in
/// `i32::MAX` bytes.
pub fn text_array_fits(v: &Vec<String>) -> (res: bool)
    ensures
        res == (text_array_len(v.deep_view()) <= i32::MAX),
{
    let mut acc: u64 = 20;
    let mut i: usize = 0;
    proof {
        assert(v.deep_view().take(0) =~= Seq::<Seq<char>>::empty());
    }
    while i < v.len()
        invariant
            i <= v.len(),
            acc == text_array_len(v.deep_view().take(i as int)),
            acc <= i32::MAX,
        decreases v.len() - i,
    {
        proof {
            assert(v.deep_view().take(i + 1).drop_last() =~= v.deep_view().take(i as int));
            assert(v.deep_view().take(i + 1).last() == v[i as int]@);
        }
        match utf8_len_within_i32(v[i].as_str()) {
            Some(w) => {
                acc = acc + 4 + w;
                if acc > 2147483647 {
                    proof {
                        lemma_text_array_len_prefix(v.deep_view(), i + 1);
                    }
                    return false;
                }
            },
            None => {
                proof {
                    lemma_text_array_len_prefix(v.deep_view(), i + 1);
                }
                return false;
            },
        }
        i = i + 1;
    }
    proof {
        assert(v.deep_view().take(v.len() as int) =~= v.deep_view());
    }
    true
}

/// Calls `QueryBuilder::new`: a builder whose text is `init` and that has no
/// bound value.
#[verifier::external_body]
pub(crate) fn builder_new(init: &str) -> (qb: SqlBuilder)
    ensures
        query_text(qb) == init@,
        bind_count(qb) == 0,
{
    SqlBuilder { qb: QueryBuilder::new(init) }
}

/// Calls `QueryBuilder::push`, which writes `sql` at the end of the text and
/// leaves the bound values as they were.
#[verifier::external_body]
pub(crate) fn builder_push(qb: &mut SqlBuilder, sql: &str)
    ensures
        query_text(*final(qb)) == query_text(*old(qb)) + sql@,
        bind_count(*final(qb)) == bind_count(*old(qb)),
{
    qb.qb.push(sql);
}

/// Calls `QueryBuilder::push_bind` with a text value. The value is encoded
/// among the arguments (which panics beyond `i32::MAX` bytes, hence the
/// `requires`), the count of arguments goes up by one and the text gets the
/// placeholder `$count`. The encoded argument itself is not described.
#[verifier::external_body]
pub(crate) fn builder_push_bind_text(qb: &mut SqlBuilder, value: String)
    requires
        utf8_len(value@) <= i32::MAX,
        bind_count(*old(qb)) < usize::MAX,
    ensures
        bind_count(*final(qb)) == bind_count(*old(qb)) + 1,
        query_text(*final(qb)) == query_text(*old(qb)) + placeholder(bind_count(*old(qb)) + 1),
{
    qb.qb.push_bind(value);
}

/// Calls `QueryBuilder::push_bind` with an `i32` value: the count of
/// arguments goes up by one and the text gets the placeholder `$count`.
/// The encoded argument itself is not described.
#[verifier::external_body]
pub(crate) fn builder_push_bind_int(qb: &mut SqlBuilder, value: i32)
    requires
        bind_count(*old(qb)) < usize::MAX,
    ensures
        bind_count(*final(qb)) == bind_count(*old(qb)) + 1,
        query_text(*final(qb)) == query_text(*old(qb)) + placeholder(bind_count(*old(qb)) + 1),
{
    qb.qb.push_bind(value);
}

/// Calls `QueryBuilder::push_bind` with a text array. The array is encoded
/// among the arguments (which panics when its encoding exceeds `i32::MAX`
/// bytes, hence the `requires`), the count of arguments goes up by one and
/// the text gets the placeholder `$count`. The encoded argument itself is not
/// described.
#[verifier::external_body]
pub(crate) fn builder_push_bind_text_array(
    qb: &mut SqlBuilder,
    value: Vec<String>,
)
    requires
        text_array_len(value.deep_view()) <= i32::MAX,
        bind_count(*old(qb)) < usize::MAX,
    ensures
        bind_count(*final(qb)) == bind_count(*old(qb)) + 1,
        query_text(*final(qb)) == query_text(*old(qb)) + placeholder(bind_count(*old(qb)) + 1),
{
    qb.qb.push_bind(value);
}

/// Calls `QueryBuilder::sql`, which returns the text built so far.
#[verifier::external_body]
pub(crate) fn builder_sql(qb: &SqlBuilder) -> (res: String)
    ensures
        res@ == query_text(*qb),
{
    qb.qb.sql().into()
}

/// A query as a list of parts: `Some(text)` is SQL text written as it is,
/// `None` a bound value, written as its placeholder.
pub type SqlParts = Seq<Option<Seq<char>>>;

/// Number of bound values among `parts`.
pub open spec fn param_count(parts: SqlParts) -> nat
    decreases parts.len(),
{
    if parts.len() == 0 {
        0
    } else {
        param_count(parts.drop_last()) + if parts.last() is None {
            1nat
        } else {
            0nat
        }
    }
}

/// The SQL text of `parts`: the text parts as they are, and the `k`-th bound
/// value as `$k`.
pub open spec fn render(parts: SqlParts) -> Seq<char>
    decreases parts.len(),
{
    if parts.len() == 0 {
        Seq::<char>::empty()
    } else {
        render(parts.drop_last()) + match parts.last() {
            Some(t) => t,
            None => placeholder(param_count(parts.drop_last()) + 1),
        }
    }
}

/// The builder holds exactly the text of `parts` and one bound value for
/// each `None` among them.
pub open spec fn builder_holds(qb: SqlBuilder, parts: SqlParts) -> bool {
    &&& query_text(qb) == render(parts)
    &&& bind_count(qb) == param_count(parts)
}

/// Rendering one more part appends that part's text.
pub proof fn lemma_render_push(parts: SqlParts, p: Option<Seq<char>>)
    ensures
        render(parts.push(p)) == render(parts) + match p {
            Some(t) => t,
            None => placeholder(param_count(parts) + 1),
        },
        param_count(parts.push(p)) == param_count(parts) + if p is None {
            1nat
        } else {
            0nat
        },
{
    assert(parts.push(p).drop_last() =~= parts);
}

/// Starts a builder whose text is `init`.
pub(crate) fn emit_start(init: &str) -> (qb: SqlBuilder)
    ensures
        builder_holds(qb, seq![Some(init@)]),
        param_count(seq![Some(init@)]) == 0,
{
    let qb = builder_new(init);
    proof {
        lemma_render_push(Seq::<Option<Seq<char>>>::empty(), Some(init@));
        assert(seq![Some(init@)] =~= Seq::<Option<Seq<char>>>::empty().push(Some(init@)));
    }
    qb
}

/// Appends SQL text.
pub(crate) fn emit_sql(qb: &mut SqlBuilder, sql: &str, Ghost(parts): Ghost<SqlParts>)
    requires
        builder_holds(*old(qb), parts),
    ensures
        builder_holds(*final(qb), parts.push(Some(sql@))),
        param_count(parts.push(Some(sql@))) == param_count(parts),
{
    builder_push(qb, sql);
    proof {
        lemma_render_push(parts, Some(sql@));
    }
}

/// Binds a text value.
pub(crate) fn emit_text_param(
    qb: &mut SqlBuilder,
    value: String,
    Ghost(parts): Ghost<SqlParts>,
)
    requires
        builder_holds(*old(qb), parts),
        utf8_len(value@) <= i32::MAX,
        param_count(parts) < usize::MAX,
    ensures
        builder_holds(*final(qb), parts.push(None)),
        param_count(parts.push(None)) == param_count(parts) + 1,
{
    builder_push_bind_text(qb, value);
    proof {
        lemma_render_push(parts, None);
    }
}

/// Binds an `i32` value.
pub(crate) fn emit_int_param(qb: &mut SqlBuilder, value: i32, Ghost(parts): Ghost<SqlParts>)
    requires
        builder_holds(*old(qb), parts),
        param_count(parts) < usize::MAX,
    ensures
        builder_holds(*final(qb), parts.push(None)),
        param_count(parts.push(None)) == param_count(parts) + 1,
{
    builder_push_bind_int(qb, value);
    proof {
        lemma_render_push(parts, None);
    }
}

/// Binds a text array.
pub(crate) fn emit_text_array_param(
    qb: &mut SqlBuilder,
    value: Vec<String>,
    Ghost(parts): Ghost<SqlParts>,
)
    requires
        builder_holds(*old(qb), parts),
        text_array_len(value.deep_view()) <= i32::MAX,
        param_count(parts) < usize::MAX,
    ensures
        builder_holds(*final(qb), parts.push(None)),
        param_count(parts.push(None)) == param_count(parts) + 1,
{
    builder_push_bind_text_array(qb, value);
    proof {
        lemma_render_push(parts, None);
    }
}

} // verus!
