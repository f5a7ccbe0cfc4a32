//! Properties of the planner that hold across its functions.

use crate::api::{params_count_query, params_definitions_query};
use crate::params::{
    csv_values, search_terms, is_parent_property_type, opt_list_view, opt_view, parsed_from, PropDefParams,
    RawParams, GROUP_TYPE_LIMIT,
};
use crate::sql::{decimal, lemma_render_push, param_count, placeholder, render, SqlParts};
use crate::query::{
    count_head_text, count_query_parts, definitions_head_text, definitions_query_parts,
    event_join_parts, events_hidden_property_definitions, exclude_text, exclusion_parts,
    excluded_names, filter_parts, filters_excluded, from_clause_text, is_event_type, page_parts,
    where_parts, QueryManager,
};
use crate::text::{
    all_digits, digits_value, is_whitespace, lowercase, lemma_split_char_nonempty, spec_parse_i32, spec_trim,
    split_char, trim_end, trim_start,
};
use vstd::prelude::*;

verus! {

/// How often `c` occurs in `s`.
pub open spec fn count_char(s: Seq<char>, c: char) -> nat
    decreases s.len(),
{
    if s.len() == 0 {
        0
    } else {
        count_char(s.drop_last(), c) + if s.last() == c {
            1nat
        } else {
            0nat
        }
    }
}

/// The pieces joined again, with `sep` between each two.
pub open spec fn join_with(pieces: Seq<Seq<char>>, sep: char) -> Seq<char>
    decreases pieces.len(),
{
    if pieces.len() <= 1 {
        if pieces.len() == 1 {
            pieces[0]
        } else {
            Seq::<char>::empty()
        }
    } else {
        join_with(pieces.drop_last(), sep).push(sep) + pieces.last()
    }
}

/// Splitting at a character yields one more piece than the character
/// occurs, and no piece holds the character.
pub proof fn law_split_piece_count(s: Seq<char>, sep: char)
    ensures
        split_char(s, sep).len() == count_char(s, sep) + 1,
        forall|i: int, j: int|
            0 <= i < split_char(s, sep).len() && 0 <= j < split_char(s, sep)[i].len()
                ==> split_char(s, sep)[i][j] != sep,
    decreases s.len(),
{
    if s.len() > 0 {
        law_split_piece_count(s.drop_last(), sep);
        lemma_split_char_nonempty(s.drop_last(), sep);
        let prev = split_char(s.drop_last(), sep);
        if s.last() != sep {
            assert forall|i: int, j: int|
                0 <= i < split_char(s, sep).len() && 0 <= j < split_char(s, sep)[i].len()
                    implies split_char(s, sep)[i][j] != sep by {
                if i == prev.len() - 1 {
                    assert(split_char(s, sep)[i] == prev.last().push(s.last()));
                    if j < prev.last().len() {
                        assert(prev[i][j] != sep);
                    }
                } else {
                    assert(split_char(s, sep)[i] == prev[i]);
                }
            }
        } else {
            assert forall|i: int, j: int|
                0 <= i < split_char(s, sep).len() && 0 <= j < split_char(s, sep)[i].len()
                    implies split_char(s, sep)[i][j] != sep by {
                assert(split_char(s, sep)[i] == prev[i]);
            }
        }
    }
}

/// Joining the pieces of a split with the separator gives back the text.
pub proof fn law_split_join_roundtrip(s: Seq<char>, sep: char)
    ensures
        join_with(split_char(s, sep), sep) == s,
    decreases s.len(),
{
    if s.len() == 0 {
        assert(split_char(s, sep) =~= seq![Seq::<char>::empty()]);
    } else {
        law_split_join_roundtrip(s.drop_last(), sep);
        lemma_split_char_nonempty(s.drop_last(), sep);
        let prev = split_char(s.drop_last(), sep);
        let cur = split_char(s, sep);
        if s.last() == sep {
            assert(cur.drop_last() =~= prev);
            assert(cur.last() =~= Seq::<char>::empty());
            assert(join_with(cur, sep) =~= s.drop_last().push(sep));
            assert(s =~= s.drop_last().push(s.last()));
        } else {
            if prev.len() == 1 {
                assert(cur =~= seq![prev[0].push(s.last())]);
                assert(prev[0] == s.drop_last());
                assert(s =~= s.drop_last().push(s.last()));
            } else {
                assert(cur.drop_last() =~= prev.drop_last());
                assert(join_with(prev, sep) == join_with(prev.drop_last(), sep).push(sep) + prev.last());
                assert(join_with(cur, sep) =~= join_with(prev, sep).push(s.last()));
                assert(s =~= s.drop_last().push(s.last()));
            }
        }
    }
}

/// The group type index is -1 unless the request is for group properties
/// and names an index in range; a missing index is always -1.
pub proof fn law_group_type_index_default(raw: RawParams, p: PropDefParams)
    requires
        parsed_from(raw, p),
    ensures
        p.group_type_index == -1 || (0 <= p.group_type_index < GROUP_TYPE_LIMIT && opt_view(
            p.property_type,
        ) == Some("group"@)),
        raw.group_type_index is None ==> p.group_type_index == -1,
{
}

/// A property type survives parsing only when it is a parent property
/// type, and then unchanged.
pub proof fn law_property_type_is_parent(raw: RawParams, p: PropDefParams)
    requires
        parsed_from(raw, p),
    ensures
        opt_view(p.property_type) matches Some(t) ==> (is_parent_property_type(t)
            && opt_view(raw.property_type) == Some(t)),
{
}

/// The text of both queries does not depend on the group type index, the
/// limit or the offset: those are bound values.
pub proof fn law_queries_bind_index_and_paging(qmgr: QueryManager, p1: PropDefParams, p2: PropDefParams)
    requires
        p1.search == p2.search,
        p1.property_type == p2.property_type,
        p1.properties == p2.properties,
        p1.is_numerical == p2.is_numerical,
        p1.is_feature_flag == p2.is_feature_flag,
        p1.excluded_properties == p2.excluded_properties,
        p1.use_enterprise_taxonomy == p2.use_enterprise_taxonomy,
        p1.filter_by_event_names == p2.filter_by_event_names,
        p1.event_names == p2.event_names,
    ensures
        params_count_query(qmgr, p1) == params_count_query(qmgr, p2),
        forall|v: bool|
            #[trigger] params_definitions_query(qmgr, p1, v) == params_definitions_query(qmgr, p2, v),
{
}

/// The count query and the property-definitions query select from the same
/// table expression with the same join and filters; the definitions query
/// then orders and bounds the page.
pub proof fn law_queries_share_filters(
    enterprise_table: Seq<char>,
    prop_defs_table: Seq<char>,
    event_props_table: Seq<char>,
    property_type: Option<Seq<char>>,
    properties: Option<Seq<Seq<char>>>,
    excluded_properties: Option<Seq<Seq<char>>>,
    search: Option<Seq<Seq<char>>>,
    event_names: Option<Seq<Seq<char>>>,
    is_feature_flag: Option<bool>,
    is_numerical: Option<bool>,
    use_enterprise_taxonomy: Option<bool>,
    filter_by_event_names: Option<bool>,
    order_by_verified: bool,
)
    ensures
        ({
            let from = from_clause_text(enterprise_table, prop_defs_table, use_enterprise_taxonomy);
            let filters = filter_parts(
                prop_defs_table,
                event_props_table,
                property_type,
                properties,
                excluded_properties,
                search,
                event_names,
                is_feature_flag,
                is_numerical,
                filter_by_event_names,
            );
            &&& count_query_parts(
                enterprise_table,
                prop_defs_table,
                event_props_table,
                property_type,
                properties,
                excluded_properties,
                search,
                event_names,
                is_feature_flag,
                is_numerical,
                use_enterprise_taxonomy,
                filter_by_event_names,
            ) == seq![Some(count_head_text(from))] + filters
            &&& definitions_query_parts(
                enterprise_table,
                prop_defs_table,
                event_props_table,
                property_type,
                properties,
                excluded_properties,
                search,
                event_names,
                is_feature_flag,
                is_numerical,
                use_enterprise_taxonomy,
                filter_by_event_names,
                order_by_verified,
            ) == seq![Some(definitions_head_text(prop_defs_table, property_type, from))] + filters
                + page_parts(prop_defs_table, order_by_verified)
        }),
{
}

/// The join on event properties is written only for event-typed queries.
pub proof fn law_event_join_only_for_events(
    prop_defs_table: Seq<char>,
    event_props_table: Seq<char>,
    property_type: Option<Seq<char>>,
    properties: Option<Seq<Seq<char>>>,
    excluded_properties: Option<Seq<Seq<char>>>,
    search: Option<Seq<Seq<char>>>,
    event_names: Option<Seq<Seq<char>>>,
    is_feature_flag: Option<bool>,
    is_numerical: Option<bool>,
    filter_by_event_names: Option<bool>,
)
    ensures
        ({
            let parts = filter_parts(
                prop_defs_table,
                event_props_table,
                property_type,
                properties,
                excluded_properties,
                search,
                event_names,
                is_feature_flag,
                is_numerical,
                filter_by_event_names,
            );
            let rest = where_parts(
                prop_defs_table,
                property_type,
                properties,
                excluded_properties,
                search,
                event_names,
                is_feature_flag,
                is_numerical,
                filter_by_event_names,
            );
            &&& is_event_type(property_type) ==> parts == event_join_parts(
                event_props_table,
                filter_by_event_names,
                event_names,
            ) + rest
            &&& !is_event_type(property_type) ==> parts == rest
        }),
{
    let rest = where_parts(
        prop_defs_table,
        property_type,
        properties,
        excluded_properties,
        search,
        event_names,
        is_feature_flag,
        is_numerical,
        filter_by_event_names,
    );
    assert(Seq::<Option<Seq<char>>>::empty() + rest =~= rest);
}

/// Event-typed queries that list excluded properties always exclude the
/// hidden event properties first, then the listed ones.
pub proof fn law_hidden_event_properties_excluded(
    prop_defs_table: Seq<char>,
    excludes: Seq<Seq<char>>,
)
    ensures
        exclusion_parts(prop_defs_table, Some("event"@), Some(excludes)) == seq![
            Some(exclude_text(prop_defs_table)),
            None,
            Some(")"@),
        ],
        excluded_names(is_event_type(Some("event"@)), excludes) == events_hidden_property_definitions()
            + excludes,
{
    assert(filters_excluded(Some("event"@), Some(excludes)));
}

/// Trimming the start leaves nothing or a text that starts with
/// non-whitespace.
proof fn lemma_trim_start_shape(s: Seq<char>)
    ensures
        trim_start(s).len() == 0 || !is_whitespace(trim_start(s)[0]),
    decreases s.len(),
{
    if s.len() > 0 && is_whitespace(s[0]) {
        lemma_trim_start_shape(s.drop_first());
    }
}

/// Trimming the end keeps a prefix; it leaves nothing or a text that ends
/// with non-whitespace, and a text that starts with non-whitespace keeps
/// its first character.
proof fn lemma_trim_end_shape(s: Seq<char>)
    ensures
        trim_end(s).len() <= s.len(),
        trim_end(s) == s.take(trim_end(s).len() as int),
        trim_end(s).len() == 0 || !is_whitespace(trim_end(s).last()),
        s.len() > 0 && !is_whitespace(s[0]) ==> trim_end(s).len() > 0,
    decreases s.len(),
{
    if s.len() > 0 && is_whitespace(s.last()) {
        lemma_trim_end_shape(s.drop_last());
        let t = trim_end(s.drop_last());
        assert(s.drop_last().take(t.len() as int) =~= s.take(t.len() as int));
        if s.len() > 0 && !is_whitespace(s[0]) {
            assert(s.len() > 1);
            assert(s.drop_last()[0] == s[0]);
        }
    } else {
        assert(s.take(s.len() as int) =~= s);
    }
}

/// Trimming twice is trimming once.
pub proof fn law_trim_idempotent(s: Seq<char>)
    ensures
        spec_trim(spec_trim(s)) == spec_trim(s),
{
    let a = trim_start(s);
    let t = trim_end(a);
    lemma_trim_start_shape(s);
    lemma_trim_end_shape(a);
    if t.len() > 0 {
        assert(t[0] == a[0]);
        assert(trim_start(t) == t);
    } else {
        assert(trim_start(t) == t);
    }
}

/// The digits of `n` in decimal, and the number they denote.
proof fn lemma_decimal_digits(n: nat)
    ensures
        decimal(n).len() > 0,
        all_digits(decimal(n)),
        digits_value(decimal(n)) == n,
    decreases n,
{
    let d = decimal(n);
    let c = ((n % 10) + 48) as char;
    assert(c as int == (n % 10) + 48);
    assert(d.len() > 0 ==> digits_value(d) == 10 * digits_value(d.drop_last()) + crate::text::digit_value(d.last()));
    if n < 10 {
        assert(d.drop_last() =~= Seq::<char>::empty());
        assert(digits_value(Seq::<char>::empty()) == 0);
        assert(d.last() == (n + 48) as char);
        assert(((n + 48) as char) as int == n + 48);
        assert(crate::text::digit_value(d.last()) == n);
    } else {
        lemma_decimal_digits(n / 10);
        assert(d.drop_last() =~= decimal(n / 10));
        assert(d.last() == c);
        assert(n == 10 * (n / 10) + n % 10);
        assert(crate::text::digit_value(d.last()) == n % 10);
        assert forall|i: int| 0 <= i < d.len() implies crate::text::is_digit(#[trigger] d[i]) by {
            if i < d.len() - 1 {
                assert(d[i] == decimal(n / 10)[i]);
            }
        }
    }
}

/// A number written in decimal parses back to itself.
pub proof fn law_parse_i32_reads_decimal(n: nat)
    requires
        n <= i32::MAX,
    ensures
        spec_parse_i32(decimal(n)) == Some(n as i32),
{
    lemma_decimal_digits(n);
    assert(crate::text::is_digit(decimal(n)[0]));
}

/// A group type index in range, given for `group` properties, is the index
/// that both queries filter on: it is kept as it parses, 0 included.
pub proof fn law_group_type_index_kept_in_range(raw: RawParams, p: PropDefParams, s: Seq<char>, g: i32)
    requires
        parsed_from(raw, p),
        opt_view(raw.property_type) == Some("group"@),
        opt_view(raw.group_type_index) == Some(s),
        spec_parse_i32(s) == Some(g),
        0 <= g < GROUP_TYPE_LIMIT,
    ensures
        p.group_type_index == g,
        opt_view(p.property_type) == Some("group"@),
{
}

/// The index `g` of a group type in range, written in decimal as the
/// request's `group_type_index` for `group` properties, parses to `g`.
pub proof fn law_group_type_index_written_in_decimal(raw: RawParams, p: PropDefParams, g: nat)
    requires
        parsed_from(raw, p),
        opt_view(raw.property_type) == Some("group"@),
        opt_view(raw.group_type_index) == Some(decimal(g)),
        g < GROUP_TYPE_LIMIT,
    ensures
        p.group_type_index == g,
{
    law_parse_i32_reads_decimal(g);
}

/// Trimming leaves the whitespace at the start of `s`: some prefix of
/// whitespace is dropped, and what is left is empty or starts with
/// non-whitespace.
proof fn lemma_trim_start_drops_prefix(s: Seq<char>) -> (k: int)
    ensures
        0 <= k <= s.len(),
        trim_start(s) == s.skip(k),
        forall|i: int| 0 <= i < k ==> is_whitespace(#[trigger] s[i]),
        k < s.len() ==> !is_whitespace(s[k]),
    decreases s.len(),
{
    if s.len() > 0 && is_whitespace(s[0]) {
        let k1 = lemma_trim_start_drops_prefix(s.drop_first());
        assert(s.drop_first().skip(k1) =~= s.skip(k1 + 1));
        assert forall|i: int| 0 <= i < k1 + 1 implies is_whitespace(#[trigger] s[i]) by {
            if i > 0 {
                assert(s[i] == s.drop_first()[i - 1]);
            }
        }
        if k1 + 1 < s.len() {
            assert(s[k1 + 1] == s.drop_first()[k1]);
        }
        k1 + 1
    } else {
        assert(s.skip(0) =~= s);
        0
    }
}

/// Trimming the end drops a suffix of whitespace; what is left is empty or
/// ends with non-whitespace.
proof fn lemma_trim_end_drops_suffix(s: Seq<char>) -> (m: int)
    ensures
        0 <= m <= s.len(),
        trim_end(s) == s.take(m),
        forall|i: int| m <= i < s.len() ==> is_whitespace(#[trigger] s[i]),
        m > 0 ==> !is_whitespace(s[m - 1]),
    decreases s.len(),
{
    if s.len() > 0 && is_whitespace(s.last()) {
        let m1 = lemma_trim_end_drops_suffix(s.drop_last());
        assert(s.drop_last().take(m1) =~= s.take(m1));
        assert forall|i: int| m1 <= i < s.len() implies is_whitespace(#[trigger] s[i]) by {
            if i < s.len() - 1 {
                assert(s[i] == s.drop_last()[i]);
            }
        }
        if m1 > 0 {
            assert(s[m1 - 1] == s.drop_last()[m1 - 1]);
        }
        m1
    } else {
        assert(s.take(s.len() as int) =~= s);
        s.len() as int
    }
}

/// Trimming removes whitespace and nothing else: the result is the text
/// between a run of whitespace at the start and one at the end, and it is
/// empty or starts and ends with non-whitespace. Case and inner characters
/// are kept.
pub proof fn law_trim_strips_only_outer_whitespace(s: Seq<char>)
    ensures
        exists|a: int, b: int|
            {
                &&& 0 <= a <= b <= s.len()
                &&& spec_trim(s) == #[trigger] s.subrange(a, b)
                &&& forall|i: int| 0 <= i < a ==> is_whitespace(#[trigger] s[i])
                &&& forall|i: int| b <= i < s.len() ==> is_whitespace(#[trigger] s[i])
                &&& a < b ==> !is_whitespace(s[a]) && !is_whitespace(s[b - 1])
            },
{
    let k = lemma_trim_start_drops_prefix(s);
    let t = s.skip(k);
    let m = lemma_trim_end_drops_suffix(t);
    assert(t.take(m) =~= s.subrange(k, k + m));
    assert forall|i: int| k + m <= i < s.len() implies is_whitespace(#[trigger] s[i]) by {
        assert(s[i] == t[i - k]);
    }
    if m > 0 {
        assert(s[k + m - 1] == t[m - 1]);
    }
    assert(spec_trim(s) == s.subrange(k, k + m));
}

/// A text with no whitespace at either end is its own trim.
pub proof fn law_trim_keeps_unpadded(s: Seq<char>)
    requires
        s.len() == 0 || (!is_whitespace(s[0]) && !is_whitespace(s.last())),
    ensures
        spec_trim(s) == s,
{
}

/// A comma-separated parameter parses into one value per piece between
/// commas, in order: the piece with the whitespace at its ends removed,
/// character for character (no case mapping). A piece with no whitespace
/// at its ends comes back unchanged.
pub proof fn law_csv_values_are_trimmed_pieces(raw: Seq<char>)
    ensures
        csv_values(raw).len() == split_char(raw, ',').len(),
        forall|i: int|
            0 <= i < csv_values(raw).len() ==> #[trigger] csv_values(raw)[i] == spec_trim(
                split_char(raw, ',')[i],
            ),
        forall|i: int|
            0 <= i < csv_values(raw).len() && (split_char(raw, ',')[i].len() == 0 || (
            !is_whitespace(split_char(raw, ',')[i][0]) && !is_whitespace(
                split_char(raw, ',')[i].last(),
            ))) ==> #[trigger] csv_values(raw)[i] == split_char(raw, ',')[i],
{
}

/// A comma-separated parameter without commas and without whitespace at its
/// ends parses into exactly itself.
pub proof fn law_csv_single_value_unchanged(raw: Seq<char>)
    requires
        count_char(raw, ',') == 0,
        raw.len() == 0 || (!is_whitespace(raw[0]) && !is_whitespace(raw.last())),
    ensures
        csv_values(raw) == seq![raw],
{
    law_split_piece_count(raw, ',');
    law_split_join_roundtrip(raw, ',');
    assert(split_char(raw, ',')[0] == raw);
    assert(csv_values(raw) =~= seq![raw]);
}

/// A `search` value parses into one term per piece between single spaces,
/// in order: the piece trimmed, then lowercased.
pub proof fn law_search_terms_are_lowercased_trimmed_pieces(raw: Seq<char>)
    ensures
        search_terms(raw).len() == split_char(raw, ' ').len(),
        forall|i: int|
            0 <= i < search_terms(raw).len() ==> #[trigger] search_terms(raw)[i] == lowercase(
                spec_trim(split_char(raw, ' ')[i]),
            ),
{
}

/// `limit` and `offset` written in decimal are kept as they are; a missing
/// one takes its default (a `limit` of 0 and an `offset` of 100).
pub proof fn law_limit_and_offset_read(raw: RawParams, p: PropDefParams, l: nat, o: nat)
    requires
        parsed_from(raw, p),
        l <= i32::MAX,
        o <= i32::MAX,
    ensures
        opt_view(raw.limit) == Some(decimal(l)) ==> p.limit == l,
        opt_view(raw.offset) == Some(decimal(o)) ==> p.offset == o,
        raw.limit is None ==> p.limit == 0,
        raw.offset is None ==> p.offset == 100,
{
    law_parse_i32_reads_decimal(l);
    law_parse_i32_reads_decimal(o);
}

/// The text of parts followed by the ordering and the page bounds.
proof fn lemma_render_page_tail(pre: SqlParts, prop_defs_table: Seq<char>, order_by_verified: bool)
    ensures
        render(pre + page_parts(prop_defs_table, order_by_verified)) == render(pre)
            + " ORDER BY is_seen_on_filtered_events DESC, "@ + (if order_by_verified {
            "verified DESC NULLS LAST, "@
        } else {
            ""@
        }) + prop_defs_table + ".name ASC"@ + " LIMIT "@ + placeholder(param_count(pre) + 1)
            + " OFFSET "@ + placeholder(param_count(pre) + 2),
{
    let order = crate::query::order_text(prop_defs_table, order_by_verified) + " LIMIT "@;
    let p1 = pre.push(Some(order));
    let p2 = p1.push(None);
    let p3 = p2.push(Some(" OFFSET "@));
    let p4 = p3.push(None);
    assert(p4 =~= pre + page_parts(prop_defs_table, order_by_verified));
    lemma_render_push(pre, Some(order));
    lemma_render_push(p1, None);
    lemma_render_push(p2, Some(" OFFSET "@));
    lemma_render_push(p3, None);
    let n = param_count(pre);
    let verified = if order_by_verified {
        "verified DESC NULLS LAST, "@
    } else {
        ""@
    };
    assert(render(pre) + order + placeholder(n + 1) + " OFFSET "@ + placeholder(n + 2) =~= render(pre)
        + " ORDER BY is_seen_on_filtered_events DESC, "@ + verified + prop_defs_table
        + ".name ASC"@ + " LIMIT "@ + placeholder(n + 1) + " OFFSET "@ + placeholder(n + 2));
}

/// The planned page query ends with its ordering and page bounds, written
/// out: seen properties first, then verified ones exactly when
/// `order_by_verified` holds, then by name, then `LIMIT` and `OFFSET` as the
/// next two bound values.
pub proof fn law_planned_page_query_ordering(qmgr: QueryManager, p: PropDefParams, order_by_verified: bool)
    ensures
        exists|head: Seq<char>, n: nat|
            #![trigger head.len(), placeholder(n + 1)]
            params_definitions_query(qmgr, p, order_by_verified) == head
                + " ORDER BY is_seen_on_filtered_events DESC, "@ + (if order_by_verified {
                "verified DESC NULLS LAST, "@
            } else {
                ""@
            }) + qmgr.prop_defs_table() + ".name ASC"@ + " LIMIT "@ + placeholder(n + 1)
                + " OFFSET "@ + placeholder(n + 2),
{
    let pd = qmgr.prop_defs_table();
    let pt = opt_view(p.property_type);
    let pre: SqlParts = seq![Some(definitions_head_text(
        pd,
        pt,
        from_clause_text(qmgr.enterprise_table(), pd, p.use_enterprise_taxonomy),
    ))] + filter_parts(
        pd,
        qmgr.event_props_table(),
        pt,
        opt_list_view(p.properties),
        opt_list_view(p.excluded_properties),
        opt_list_view(p.search),
        opt_list_view(p.event_names),
        p.is_feature_flag,
        p.is_numerical,
        p.filter_by_event_names,
    );
    lemma_render_page_tail(pre, pd, order_by_verified);
    let head = render(pre);
    let n = param_count(pre);
    // the witnesses, written where the quantifier's trigger sees them
    assert(head.len() == head.len());
    assert(placeholder(n + 1) == placeholder(n + 1));
}

} // verus!
