//! The SQL text that the backend sends to ClickHouse: the queries behind the
//! read endpoints and the insert statements of the writer.

use vstd::prelude::*;

verus! {

/// Number of rows a read endpoint returns when the request names no limit.
pub open spec fn default_limit() -> Seq<char> {
    "100"@
}

/// A text value in single quotes, as it stands in a statement.
pub open spec fn quoted(s: Seq<char>) -> Seq<char> {
    seq!['\''] + s + seq!['\'']
}

/// A quoted value is the whole text between two single quotes: two
/// characters longer than the text, and the text itself once the first and
/// last characters are taken off.
pub proof fn lemma_quoted_holds_whole_text(s: Seq<char>)
    ensures
        quoted(s).len() == s.len() + 2,
        quoted(s)[0] == '\'',
        quoted(s)[quoted(s).len() - 1] == '\'',
        quoted(s).subrange(1, quoted(s).len() - 1) == s,
{
    assert(quoted(s).subrange(1, quoted(s).len() - 1) =~= s);
}

/// The items joined by `", "`.
pub open spec fn comma_joined(items: Seq<Seq<char>>) -> Seq<char>
    decreases items.len(),
{
    if items.len() == 0 {
        Seq::empty()
    } else if items.len() == 1 {
        items[0]
    } else {
        comma_joined(items.drop_last()) + seq![',', ' '] + items.last()
    }
}

/// Joining is determined by three facts: nothing joins to nothing, one item
/// joins to itself, and joining two non-empty runs of items one after the
/// other puts `", "` between their joins.
pub proof fn lemma_comma_joined(a: Seq<Seq<char>>, b: Seq<Seq<char>>, x: Seq<char>)
    ensures
        comma_joined(Seq::empty()) == Seq::<char>::empty(),
        comma_joined(seq![x]) == x,
        a.len() > 0 && b.len() > 0 ==> comma_joined(a + b) == comma_joined(a) + seq![',', ' ']
            + comma_joined(b),
    decreases b.len(),
{
    if a.len() > 0 && b.len() > 0 {
        if b.len() == 1 {
            assert((a + b).drop_last() =~= a);
            assert(comma_joined(b) == b[0]);
        } else {
            lemma_comma_joined(a, b.drop_last(), x);
            assert((a + b).drop_last() =~= a + b.drop_last());
            assert(comma_joined(a + b) =~= comma_joined(a) + seq![',', ' '] + comma_joined(b));
        }
    }
}

/// The value list grows value by value: an insert statement with one value
/// more is the statement before with `", {value}"` put before its closing
/// parenthesis, and the statement of one value holds that value alone.
pub proof fn lemma_insert_sql_values(
    table: Seq<char>,
    columns: Seq<char>,
    values: Seq<Seq<char>>,
    value: Seq<char>,
)
    ensures
        insert_sql(table, columns, seq![value]) == "INSERT INTO "@ + table + " ("@ + columns
            + ") VALUES ("@ + value + seq![')'],
        values.len() > 0 ==> insert_sql(table, columns, values.push(value)) == insert_sql(
            table,
            columns,
            values,
        ).drop_last() + seq![',', ' '] + value + seq![')'],
{
    reveal_strlit(")");
    lemma_comma_joined(values, seq![value], value);
    assert(values.push(value) =~= values + seq![value]);
    let pre = "INSERT INTO "@ + table + " ("@ + columns + ") VALUES ("@;
    assert(insert_sql(table, columns, seq![value]) =~= pre + value + seq![')']);
    if values.len() > 0 {
        assert(insert_sql(table, columns, values) =~= pre + comma_joined(values) + seq![')']);
        assert(insert_sql(table, columns, values).drop_last() =~= pre + comma_joined(values));
        assert(insert_sql(table, columns, values.push(value)) =~= pre + comma_joined(values)
            + seq![',', ' '] + value + seq![')']);
    }
}

/// Absent parameters take their default; present ones stand verbatim.
pub proof fn lemma_param_or(param: Option<&str>, default: Seq<char>)
    ensures
        param matches Some(p) ==> param_or(param, default) == p@,
        param is None ==> param_or(param, default) == default,
        default_limit() == seq!['1', '0', '0'],
{
    reveal_strlit("100");
    assert(default_limit() =~= seq!['1', '0', '0']);
}

/// `INSERT INTO {table} ({columns}) VALUES ({values joined by ", "})`.
pub open spec fn insert_sql(table: Seq<char>, columns: Seq<char>, values: Seq<Seq<char>>) -> Seq<
    char,
> {
    "INSERT INTO "@ + table + " ("@ + columns + ") VALUES ("@ + comma_joined(values) + ")"@
}

/// The newest rows of a table, newest first, at most `limit` of them, as JSON;
/// only those of one spindle when `spindle_id` is not empty.
pub open spec fn recent_rows_sql(table: Seq<char>, spindle_id: Seq<char>, limit: Seq<char>) -> Seq<
    char,
> {
    if spindle_id.len() == 0 {
        "SELECT * FROM "@ + table + " ORDER BY timestamp DESC LIMIT "@ + limit + " FORMAT JSON"@
    } else {
        "SELECT * FROM "@ + table + " WHERE spindle_id = '"@ + spindle_id
            + "' ORDER BY timestamp DESC LIMIT "@ + limit + " FORMAT JSON"@
    }
}

/// The spindle filter adds exactly ` WHERE spindle_id = '{id}'`, the whole id
/// verbatim, right after the table name of the unfiltered query, and
/// changes nothing else; every query starts with `SELECT * FROM {table}`
/// and ends with `LIMIT {limit} FORMAT JSON`, the limit verbatim.
pub proof fn lemma_spindle_filter(table: Seq<char>, spindle_id: Seq<char>, limit: Seq<char>)
    ensures
        ({
            let all = recent_rows_sql(table, Seq::empty(), limit);
            let one = recent_rows_sql(table, spindle_id, limit);
            let p = "SELECT * FROM "@.len() + table.len();
            &&& all.take(p as int) == "SELECT * FROM "@ + table
            &&& one.take(p as int) == "SELECT * FROM "@ + table
            &&& all.skip(all.len() - (" FORMAT JSON"@.len() + limit.len() + "LIMIT "@.len())) == "LIMIT "@ + limit + " FORMAT JSON"@
            &&& one.skip(one.len() - (" FORMAT JSON"@.len() + limit.len() + "LIMIT "@.len())) == "LIMIT "@ + limit + " FORMAT JSON"@
            &&& spindle_id.len() > 0 ==> one == all.take(p as int) + " WHERE spindle_id = '"@
                + spindle_id + seq!['\''] + all.skip(p as int)
        }),
{
    reveal_strlit("SELECT * FROM ");
    reveal_strlit(" ORDER BY timestamp DESC LIMIT ");
    reveal_strlit(" FORMAT JSON");
    reveal_strlit(" WHERE spindle_id = '");
    reveal_strlit("' ORDER BY timestamp DESC LIMIT ");
    reveal_strlit("LIMIT ");
    let head = "SELECT * FROM "@ + table;
    let all = recent_rows_sql(table, Seq::empty(), limit);
    let one = recent_rows_sql(table, spindle_id, limit);
    let p = head.len();
    let rest = " ORDER BY timestamp DESC LIMIT "@ + limit + " FORMAT JSON"@;
    let lim = "LIMIT "@ + limit + " FORMAT JSON"@;
    assert(all =~= head + rest);
    assert(all.take(p as int) =~= head);
    assert(all.skip(p as int) =~= rest);
    assert(all.skip(all.len() - lim.len()) =~= lim);
    if spindle_id.len() > 0 {
        let filtered = head + " WHERE spindle_id = '"@ + spindle_id + "' ORDER BY timestamp DESC LIMIT "@
            + limit + " FORMAT JSON"@;
        assert(one =~= filtered);
        assert(one.take(p as int) =~= head);
        assert(one =~= head + " WHERE spindle_id = '"@ + spindle_id + seq!['\''] + rest);
        assert(one.skip(one.len() - lim.len()) =~= lim);
    } else {
        assert(one =~= all);
    }
}

/// The text that an optional request parameter stands for, `default` when absent.
pub open spec fn param_or(param: Option<&str>, default: Seq<char>) -> Seq<char> {
    match param {
        Some(p) => p@,
        None => default,
    }
}

/// A message with each single quote preceded by a backslash.
pub open spec fn quotes_escaped(s: Seq<char>) -> Seq<char>
    decreases s.len(),
{
    if s.len() == 0 {
        Seq::empty()
    } else if s.last() == '\'' {
        quotes_escaped(s.drop_last()) + seq!['\\', '\'']
    } else {
        quotes_escaped(s.drop_last()).push(s.last())
    }
}

/// Every single quote of the text stands right after a backslash.
pub open spec fn quotes_follow_backslash(s: Seq<char>) -> bool {
    forall|i: int| 0 <= i < s.len() && #[trigger] s[i] == '\'' ==> i > 0 && s[i - 1] == '\\'
}

/// Escaping puts a backslash before every single quote, so no quote of the
/// message can end the quoted value it stands in.
pub proof fn lemma_escaped_quotes_follow_backslash(s: Seq<char>)
    ensures
        quotes_follow_backslash(quotes_escaped(s)),
        quotes_escaped(s).len() >= s.len(),
    decreases s.len(),
{
    if s.len() > 0 {
        lemma_escaped_quotes_follow_backslash(s.drop_last());
        let head = quotes_escaped(s.drop_last());
        let tail: Seq<char> = if s.last() == '\'' { seq!['\\', '\''] } else { seq![s.last()] };
        assert(quotes_escaped(s) =~= head + tail);
        assert forall|i: int| 0 <= i < (head + tail).len() && #[trigger] (head + tail)[i] == '\''
            implies i > 0 && (head + tail)[i - 1] == '\\' by {
            if i < head.len() {
                assert((head + tail)[i] == head[i]);
                assert((head + tail)[i - 1] == head[i - 1]);
            } else {
                assert((head + tail)[i] == tail[i - head.len()]);
                assert((head + tail)[i - 1] == if i - 1 < head.len() { head[i - 1] } else { tail[i - 1 - head.len()] });
            }
        }
    }
}

/// The text with the backslash taken out of each backslash-quote pair,
/// reading from the end.
pub open spec fn quotes_unescaped(t: Seq<char>) -> Seq<char>
    decreases t.len(),
{
    if t.len() == 0 {
        Seq::empty()
    } else if t.len() >= 2 && t.last() == '\'' && t[t.len() - 2] == '\\' {
        quotes_unescaped(t.subrange(0, t.len() - 2)).push('\'')
    } else {
        quotes_unescaped(t.drop_last()).push(t.last())
    }
}

/// Escaping loses nothing: taking the added backslashes out of an escaped
/// message gives the message back.
pub proof fn lemma_unescape_escaped(s: Seq<char>)
    ensures
        quotes_unescaped(quotes_escaped(s)) == s,
    decreases s.len(),
{
    if s.len() > 0 {
        lemma_unescape_escaped(s.drop_last());
        let head = quotes_escaped(s.drop_last());
        let t = quotes_escaped(s);
        if s.last() == '\'' {
            assert(t =~= head + seq!['\\', '\'']);
            assert(t.subrange(0, t.len() - 2) =~= head);
        } else {
            assert(t =~= head.push(s.last()));
            assert(t.drop_last() =~= head);
        }
        assert(quotes_unescaped(t) =~= s);
    }
}

/// Appends one character to a string.
///
/// Trusted: `String::push`, which std documents as appending the given
/// char to the end of the string.
#[verifier::external_body]
pub(crate) fn push_char(s: &mut String, c: char)
    ensures
        final(s)@ == old(s)@.push(c),
{
    s.push(c);
}

/// The text in single quotes.
pub fn quote(s: &str) -> (res: String)
    ensures
        res@ == quoted(s@),
{
    let mut out = String::new();
    push_char(&mut out, '\'');
    out.append(s);
    push_char(&mut out, '\'');
    assert(out@ =~= quoted(s@));
    out
}

/// Escapes the single quotes of a message with a backslash, so that the
/// message can stand inside a quoted value of a statement.
pub fn escape_single_quotes(s: &str) -> (res: String)
    ensures
        res@ == quotes_escaped(s@),
{
    let mut out = String::new();
    for c in it: s.chars()
        invariant
            it.seq() == s@,
            out@ == quotes_escaped(s@.take(it.index())),
    {
        let ghost i = it.index();
        assert(s@.take(i + 1).drop_last() =~= s@.take(i));
        assert(s@.take(i + 1).last() == c);
        if c == '\'' {
            push_char(&mut out, '\\');
            push_char(&mut out, '\'');
        } else {
            push_char(&mut out, c);
        }
    }
    assert(s@.take(s@.len() as int) =~= s@);
    out
}

/// Joins the values with `", "`.
pub fn join_with_commas(values: &Vec<String>) -> (res: String)
    ensures
        res@ == comma_joined(values@.map_values(|v: String| v@)),
{
    let ghost views = values@.map_values(|v: String| v@);
    let mut out = String::new();
    let n = values.len();
    let mut i: usize = 0;
    while i < n
        invariant
            n == values.len(),
            i <= n,
            views == values@.map_values(|v: String| v@),
            out@ == comma_joined(views.take(i as int)),
        decreases n - i,
    {
        assert(views.take(i + 1).drop_last() =~= views.take(i as int));
        if i > 0 {
            push_char(&mut out, ',');
            push_char(&mut out, ' ');
        } else {
            assert(views.take(0) =~= Seq::<Seq<char>>::empty());
        }
        out.append(values[i].as_str());
        i = i + 1;
    }
    assert(views.take(n as int) =~= views);
    out
}

/// `INSERT INTO {table} ({columns}) VALUES ({values})`, the values joined by `", "`
/// and each standing as given: text values arrive already quoted.
pub fn insert_statement(table: &str, columns: &str, values: &Vec<String>) -> (res: String)
    ensures
        res@ == insert_sql(table@, columns@, values@.map_values(|v: String| v@)),
{
    let joined = join_with_commas(values);
    let mut out = String::from_str("INSERT INTO ");
    out.append(table);
    out.append(" (");
    out.append(columns);
    out.append(") VALUES (");
    out.append(joined.as_str());
    out.append(")");
    out
}

/// Applies the default of an optional request parameter.
fn param_text<'a>(param: Option<&'a str>, default: &'a str) -> (res: &'a str)
    ensures
        res@ == param_or(param, default@),
{
    match param {
        Some(p) => p,
        None => default,
    }
}

/// The query behind a read endpoint: the newest rows of `table`, newest
/// first, at most `limit` of them (100 when absent), restricted to one
/// spindle when `spindle_id` is present and not empty.
pub fn recent_rows_query(table: &str, spindle_id: Option<&str>, limit: Option<&str>) -> (res:
    String)
    ensures
        res@ == recent_rows_sql(table@, param_or(spindle_id, Seq::empty()), param_or(limit, default_limit())),
{
    let limit = param_text(limit, "100");
    let spindle_id = param_text(spindle_id, "");
    proof {
        reveal_strlit("");
    }
    let mut out = String::from_str("SELECT * FROM ");
    out.append(table);
    if spindle_id.is_empty() {
        out.append(" ORDER BY timestamp DESC LIMIT ");
    } else {
        out.append(" WHERE spindle_id = '");
        out.append(spindle_id);
        out.append("' ORDER BY timestamp DESC LIMIT ");
    }
    out.append(limit);
    out.append(" FORMAT JSON");
    out
}

} // verus!
