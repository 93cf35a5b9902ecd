//! Builder for the `VALUES (?,?,...),(?,?,...),...` fragment of a bulk
//! insert statement.

use vstd::prelude::*;

verus! {

/// One row's placeholder list without parentheses: `?,?,...,?`
/// (`cols` question marks separated by commas).
pub open spec fn row_marks(cols: nat) -> Seq<char>
    decreases cols,
{
    if cols <= 1 {
        seq!['?']
    } else {
        row_marks((cols - 1) as nat) + seq![',', '?']
    }
}

/// One parenthesised row group: `(?,...,?)`.
pub open spec fn row_group(cols: nat) -> Seq<char> {
    seq!['('] + row_marks(cols) + seq![')']
}

/// `rows` comma-separated row groups.
pub open spec fn row_groups(cols: nat, rows: nat) -> Seq<char>
    decreases rows,
{
    if rows <= 1 {
        row_group(cols)
    } else {
        row_groups(cols, (rows - 1) as nat) + seq![','] + row_group(cols)
    }
}

/// The full clause, with one trailing space: `VALUES (?,...),...,(?,...) `.
pub open spec fn values_clause_chars(cols: nat, rows: nat) -> Seq<char> {
    "VALUES "@ + row_groups(cols, rows) + seq![' ']
}

/// Returns a string of the form `VALUES (?,?,...),(?,?,...),...` with the
/// given number of columns per row and the given number of rows.
pub fn values_clause(cols: usize, rows: usize) -> (r: String)
    requires
        1 <= cols,
        1 <= rows,
    ensures
        r@ == values_clause_chars(cols as nat, rows as nat),
{
    proof {
        reveal_strlit("(");
        reveal_strlit("?");
    }
    let mut group = String::from_str("(");
    group.append("?");
    assert(group@ =~= seq!['('] + row_marks(1));
    let mut c: usize = 1;
    while c < cols
        invariant
            1 <= c <= cols,
            group@ == seq!['('] + row_marks(c as nat),
        decreases cols - c,
    {
        proof {
            reveal_strlit(",?");
        }
        group.append(",?");
        c = c + 1;
        assert(group@ =~= seq!['('] + row_marks(c as nat));
    }
    proof {
        reveal_strlit(")");
    }
    group.append(")");
    assert(group@ =~= row_group(cols as nat));
    let mut s = String::from_str("VALUES ");
    s.append(group.as_str());
    assert(s@ =~= "VALUES "@ + row_groups(cols as nat, 1));
    let mut rr: usize = 1;
    while rr < rows
        invariant
            1 <= rr <= rows,
            group@ == row_group(cols as nat),
            s@ == "VALUES "@ + row_groups(cols as nat, rr as nat),
        decreases rows - rr,
    {
        proof {
            reveal_strlit(",");
        }
        s.append(",");
        s.append(group.as_str());
        rr = rr + 1;
        assert(s@ =~= "VALUES "@ + row_groups(cols as nat, rr as nat));
    }
    proof {
        reveal_strlit(" ");
    }
    s.append(" ");
    assert(s@ =~= values_clause_chars(cols as nat, rows as nat));
    s
}

/// The number of parameter placeholders in `s`.
pub open spec fn placeholder_count(s: Seq<char>) -> nat
    decreases s.len(),
{
    if s.len() == 0 {
        0
    } else {
        placeholder_count(s.drop_last()) + if s.last() == '?' {
            1nat
        } else {
            0nat
        }
    }
}

/// Placeholders are counted piecewise.
proof fn lemma_placeholder_concat(a: Seq<char>, b: Seq<char>)
    ensures
        placeholder_count(a + b) == placeholder_count(a) + placeholder_count(b),
    decreases b.len(),
{
    if b.len() == 0 {
        assert(a + b =~= a);
    } else {
        lemma_placeholder_concat(a, b.drop_last());
        assert((a + b).drop_last() =~= a + b.drop_last());
        assert((a + b).last() == b.last());
    }
}

/// Text with no question mark holds no placeholder.
proof fn lemma_no_placeholders(s: Seq<char>)
    requires
        forall|i: int| 0 <= i < s.len() ==> s[i] != '?',
    ensures
        placeholder_count(s) == 0,
    decreases s.len(),
{
    if s.len() > 0 {
        lemma_no_placeholders(s.drop_last());
    }
}

/// One row's placeholder list holds one placeholder per column.
proof fn lemma_row_marks_placeholders(cols: nat)
    requires
        1 <= cols,
    ensures
        placeholder_count(row_marks(cols)) == cols,
    decreases cols,
{
    if cols == 1 {
        lemma_no_placeholders(Seq::<char>::empty());
        assert(row_marks(1) =~= seq!['?']);
        assert(seq!['?'].drop_last() =~= Seq::<char>::empty());
        assert(placeholder_count(row_marks(1)) == 1);
    } else {
        lemma_row_marks_placeholders((cols - 1) as nat);
        lemma_placeholder_concat(row_marks((cols - 1) as nat), seq![',', '?']);
        lemma_no_placeholders(seq![',']);
        assert(seq![',', '?'].drop_last() =~= seq![',']);
        assert(placeholder_count(seq![',', '?']) == 1);
    }
}

/// One parenthesised row group holds one placeholder per column.
proof fn lemma_row_group_placeholders(cols: nat)
    requires
        1 <= cols,
    ensures
        placeholder_count(row_group(cols)) == cols,
{
    lemma_row_marks_placeholders(cols);
    lemma_placeholder_concat(seq!['('], row_marks(cols));
    lemma_placeholder_concat(seq!['('] + row_marks(cols), seq![')']);
    lemma_no_placeholders(seq!['(']);
    lemma_no_placeholders(seq![')']);
}

/// The comma-separated row groups hold one placeholder per column and row.
proof fn lemma_row_groups_placeholders(cols: nat, rows: nat)
    requires
        1 <= cols,
        1 <= rows,
    ensures
        placeholder_count(row_groups(cols, rows)) == cols * rows,
    decreases rows,
{
    lemma_row_group_placeholders(cols);
    if rows > 1 {
        let prev = (rows - 1) as nat;
        lemma_row_groups_placeholders(cols, prev);
        lemma_placeholder_concat(row_groups(cols, prev), seq![',']);
        lemma_placeholder_concat(row_groups(cols, prev) + seq![','], row_group(cols));
        lemma_no_placeholders(seq![',']);
        assert(row_groups(cols, rows) == row_groups(cols, prev) + seq![','] + row_group(cols));
        assert(placeholder_count(row_groups(cols, prev) + seq![',']) == cols * prev);
        assert(placeholder_count(row_groups(cols, rows)) == cols * prev + cols);
        assert(cols * prev + cols == cols * rows) by (nonlinear_arith)
            requires
                prev + 1 == rows,
        ;
    } else {
        assert(cols * 1 == cols) by (nonlinear_arith);
    }
}

/// The full clause holds exactly one placeholder per column of each row:
/// binding one parameter per placeholder binds `cols * rows` row parameters.
pub proof fn lemma_values_clause_placeholders(cols: nat, rows: nat)
    requires
        1 <= cols,
        1 <= rows,
    ensures
        placeholder_count(values_clause_chars(cols, rows)) == cols * rows,
{
    lemma_row_groups_placeholders(cols, rows);
    reveal_strlit("VALUES ");
    lemma_no_placeholders("VALUES "@);
    lemma_placeholder_concat("VALUES "@, row_groups(cols, rows));
    lemma_placeholder_concat("VALUES "@ + row_groups(cols, rows), seq![' ']);
    lemma_no_placeholders(seq![' ']);
}

/// A total variant of [`values_clause`]: a zero column or row count is
/// rejected with `None` instead of being ruled out by contract.
pub fn values_clause_checked(cols: usize, rows: usize) -> (r: Option<String>)
    ensures
        r is Some <==> (1 <= cols && 1 <= rows),
        r matches Some(s) ==> s@ == values_clause_chars(cols as nat, rows as nat),
{
    if cols >= 1 && rows >= 1 {
        Some(values_clause(cols, rows))
    } else {
        None
    }
}

} // verus!
