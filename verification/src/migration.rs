//! Discovery, validation, ordering, and application of schema migrations.
//!
//! Migration sources follow the `<version>_<name>(.up|.down)?.sql` naming
//! convention. Discovery parses every source name; validation checks that the
//! versions are contiguous integers starting at 1 and that each version has
//! either one plain script or a matched up/down pair; application steps the
//! database to the configured target versions.

use vstd::prelude::*;

use crate::config::MigrationConfig;
use crate::error::MigrationError;
use crate::sqlite;

verus! {

/// The type of a migration source, ordered `Simple < Up < Down` within one
/// version's group.
#[derive(Clone, Copy, Debug, PartialEq, Eq, Structural)]
pub enum MigrationSourceType {
    Simple,
    Up,
    Down,
}

impl MigrationSourceType {
    /// The name suffix that marks a source of this type.
    pub fn extension(self) -> (r: &'static str)
        ensures
            self is Simple ==> r@ == ".sql"@,
            self is Up ==> r@ == ".up.sql"@,
            self is Down ==> r@ == ".down.sql"@,
    {
        match self {
            MigrationSourceType::Simple => ".sql",
            MigrationSourceType::Up => ".up.sql",
            MigrationSourceType::Down => ".down.sql",
        }
    }
}

/// One embedded migration source: a name following the naming convention and
/// the UTF-8 SQL text it resolves to.
#[derive(Debug, Clone, PartialEq, Eq)]
pub struct MigrationSource {
    pub name: String,
    pub content: String,
}

/// Whether `c` is a decimal digit.
pub open spec fn is_ascii_digit(c: char) -> bool {
    '0' as u32 <= c as u32 && c as u32 <= '9' as u32
}

/// The value of the decimal digit `c`.
pub open spec fn digit_val(c: char) -> nat {
    (c as u32 - '0' as u32) as nat
}

/// Whether every character of `s` is a decimal digit.
pub open spec fn all_digits(s: Seq<char>) -> bool {
    forall|i: int| 0 <= i < s.len() ==> is_ascii_digit(s[i])
}

/// The numeric value of the digit string `s`.
pub open spec fn digits_val(s: Seq<char>) -> nat
    decreases s.len(),
{
    if s.len() == 0 {
        0
    } else {
        digits_val(s.drop_last()) * 10 + digit_val(s.last())
    }
}

/// The version encoded by a source name's prefix: a nonempty digit string
/// whose value fits the machine's word size.
pub open spec fn parsed_version(s: Seq<char>) -> Option<nat> {
    if s.len() > 0 && all_digits(s) && digits_val(s) <= usize::MAX {
        Some(digits_val(s))
    } else {
        None
    }
}

/// Whether `s` ends with `suffix`.
pub open spec fn seq_ends_with(s: Seq<char>, suffix: Seq<char>) -> bool {
    s.len() >= suffix.len() && s.skip(s.len() - suffix.len()) == suffix
}

/// How the remainder of a source name (after `<version>_`) classifies:
/// `.up.sql` and `.down.sql` mark the halves of a reversible pair, any other
/// name with a `.sql` file extension marks a simple forward script, and
/// everything else is discarded. A remainder whose file name is exactly
/// `.sql` has no extension and is discarded too.
pub open spec fn classified(rest: Seq<char>) -> Option<MigrationSourceType> {
    if seq_ends_with(rest, ".up.sql"@) {
        Some(MigrationSourceType::Up)
    } else if seq_ends_with(rest, ".down.sql"@) {
        Some(MigrationSourceType::Down)
    } else if seq_ends_with(rest, ".sql"@) && rest != ".sql"@ && !seq_ends_with(rest, "/.sql"@) {
        Some(MigrationSourceType::Simple)
    } else {
        None
    }
}

/// What a full source name parses to: the digits before the first underscore
/// give the version, and the remainder classifies the type.
pub open spec fn parsed_name(s: Seq<char>) -> Option<(MigrationSourceType, nat)> {
    match s.index_of_first('_') {
        Some(k) => match (parsed_version(s.take(k)), classified(s.skip(k + 1))) {
            (Some(v), Some(t)) => Some((t, v)),
            _ => None,
        },
        None => None,
    }
}

/// A longer digit-string prefix never has a smaller value.
proof fn lemma_digits_val_monotone(s: Seq<char>, i: int, j: int)
    requires
        0 <= i <= j <= s.len(),
    ensures
        digits_val(s.take(i)) <= digits_val(s.take(j)),
    decreases j - i,
{
    if i < j {
        lemma_digits_val_monotone(s, i, j - 1);
        assert(s.take(j).drop_last() =~= s.take(j - 1));
        let v = digits_val(s.take(j - 1));
        assert(v * 10 >= v) by (nonlinear_arith);
    }
}

/// Finds the first underscore of `s`.
fn find_underscore(s: &str) -> (r: Option<usize>)
    ensures
        r matches Some(k) ==> s@.index_of_first('_') == Some(k as int),
        r is None ==> s@.index_of_first('_') is None,
{
    let n = s.unicode_len();
    let mut i: usize = 0;
    while i < n
        invariant
            i <= n,
            n == s@.len(),
            forall|j: int| 0 <= j < i ==> s@[j] != '_',
        decreases n - i,
    {
        let c = s.get_char(i);
        if c == '_' {
            proof {
                s@.index_of_first_ensures('_');
            }
            return Some(i);
        }
        i = i + 1;
    }
    proof {
        s@.index_of_first_ensures('_');
    }
    None
}

/// Whether `s`, from position `start` on, ends with `suffix`.
fn str_ends_with_from(s: &str, start: usize, suffix: &str) -> (r: bool)
    requires
        start <= s@.len(),
    ensures
        r == seq_ends_with(s@.skip(start as int), suffix@),
{
    let n = s.unicode_len();
    let m = suffix.unicode_len();
    if m > n - start {
        return false;
    }
    let base = n - m;
    let ghost rest = s@.skip(start as int);
    assert(rest.len() == n - start);
    let mut j: usize = 0;
    while j < m
        invariant
            j <= m,
            m <= n - start,
            start <= n,
            base == n - m,
            n == s@.len(),
            m == suffix@.len(),
            rest == s@.skip(start as int),
            forall|t: int| 0 <= t < j ==> s@[base + t] == suffix@[t],
        decreases m - j,
    {
        let c1 = s.get_char(base + j);
        let c2 = suffix.get_char(j);
        if c1 != c2 {
            proof {
                assert(rest.skip(rest.len() - m)[j as int] == s@[base + j]);
                assert(rest.skip(rest.len() - m) != suffix@);
            }
            return false;
        }
        j = j + 1;
    }
    proof {
        assert(rest.skip(rest.len() - m) =~= suffix@);
    }
    true
}

/// Parses one migration source name into its type and version, or `None`
/// for a name that does not follow the naming convention.
pub fn parse_migration_name(name: &str) -> (r: Option<(MigrationSourceType, usize)>)
    ensures
        r is Some <==> parsed_name(name@) is Some,
        r matches Some(p) ==> parsed_name(name@) == Some((p.0, p.1 as nat)),
{
    let n = name.unicode_len();
    let k = match find_underscore(name) {
        Some(k) => k,
        None => {
            return None;
        },
    };
    proof {
        name@.index_of_first_ensures('_');
    }
    if k == 0 {
        return None;
    }
    let ghost prefix = name@.take(k as int);
    let mut val: usize = 0;
    let mut i: usize = 0;
    while i < k
        invariant
            i <= k,
            k < n,
            n == name@.len(),
            name@.index_of_first('_') == Some(k as int),
            prefix == name@.take(k as int),
            all_digits(prefix.take(i as int)),
            val == digits_val(prefix.take(i as int)),
        decreases k - i,
    {
        let c = name.get_char(i);
        let u = c as u32;
        if u < '0' as u32 || u > '9' as u32 {
            proof {
                assert(prefix[i as int] == name@[i as int]);
                assert(!is_ascii_digit(prefix[i as int]));
                assert(!all_digits(prefix));
            }
            return None;
        }
        let d = (u - '0' as u32) as usize;
        let next = match val.checked_mul(10) {
            Some(v10) => v10.checked_add(d),
            None => None,
        };
        match next {
            Some(v) => {
                val = v;
            },
            None => {
                proof {
                    assert(prefix.take(i + 1).drop_last() =~= prefix.take(i as int));
                    assert(prefix.take(i + 1).last() == name@[i as int]);
                    assert(digits_val(prefix.take(i + 1)) == val * 10 + d);
                    assert(digits_val(prefix.take(i + 1)) > usize::MAX);
                    lemma_digits_val_monotone(prefix, i + 1, prefix.len() as int);
                    assert(prefix.take(prefix.len() as int) =~= prefix);
                    assert(digits_val(prefix) > usize::MAX);
                }
                return None;
            },
        }
        i = i + 1;
        proof {
            assert(prefix.take(i as int).drop_last() =~= prefix.take(i - 1));
            assert(prefix.take(i as int).last() == name@[i - 1]);
        }
    }
    proof {
        assert(prefix.take(k as int) =~= prefix);
        assert(parsed_version(prefix) == Some(val as nat));
    }
    let rest_start = k + 1;
    let ghost rest = name@.skip(rest_start as int);
    if str_ends_with_from(name, rest_start, ".up.sql") {
        return Some((MigrationSourceType::Up, val));
    }
    if str_ends_with_from(name, rest_start, ".down.sql") {
        return Some((MigrationSourceType::Down, val));
    }
    if str_ends_with_from(name, rest_start, ".sql") {
        let sql_len = ".sql".unicode_len();
        let rest_len = n - rest_start;
        if rest_len > sql_len && !str_ends_with_from(name, rest_start, "/.sql") {
            return Some((MigrationSourceType::Simple, val));
        }
        proof {
            if rest_len == sql_len {
                assert(rest.skip(rest.len() - ".sql"@.len()) =~= rest);
                assert(rest == ".sql"@);
            }
        }
        return None;
    }
    None
}

/// One parsed source entry: its type, its version, and the full source name.
#[derive(Debug, Clone, PartialEq, Eq)]
pub struct SourceEntry {
    pub kind: MigrationSourceType,
    pub version: usize,
    pub name: String,
}

impl View for SourceEntry {
    type V = (MigrationSourceType, nat, Seq<char>);

    open spec fn view(&self) -> Self::V {
        (self.kind, self.version as nat, self.name@)
    }
}

/// The entries that a list of source names parses to, in order, dropping
/// names that do not follow the naming convention.
pub open spec fn parsed_entries(names: Seq<Seq<char>>) -> Seq<(MigrationSourceType, nat, Seq<char>)>
    decreases names.len(),
{
    if names.len() == 0 {
        Seq::empty()
    } else {
        let rest = parsed_entries(names.drop_last());
        match parsed_name(names.last()) {
            Some(tv) => rest.push((tv.0, tv.1, names.last())),
            None => rest,
        }
    }
}

/// The names of the sources of one version and one type, in encounter order.
pub open spec fn names_of(
    entries: Seq<(MigrationSourceType, nat, Seq<char>)>,
    v: nat,
    kind: MigrationSourceType,
) -> Seq<Seq<char>>
    decreases entries.len(),
{
    if entries.len() == 0 {
        Seq::empty()
    } else {
        let rest = names_of(entries.drop_last(), v, kind);
        if entries.last().1 == v && entries.last().0 == kind {
            rest.push(entries.last().2)
        } else {
            rest
        }
    }
}

/// Whether any entry carries version `v`.
pub open spec fn has_version(entries: Seq<(MigrationSourceType, nat, Seq<char>)>, v: nat) -> bool {
    exists|i: int| 0 <= i < entries.len() && entries[i].1 == v
}

/// The least version present among the entries, not counting versions in
/// `1..expected` (those have already been handled).
pub open spec fn min_version_outside(
    entries: Seq<(MigrationSourceType, nat, Seq<char>)>,
    expected: nat,
) -> Option<nat>
    decreases entries.len(),
{
    if entries.len() == 0 {
        None
    } else {
        let rest = min_version_outside(entries.drop_last(), expected);
        let lv = entries.last().1;
        if 1 <= lv && lv < expected {
            rest
        } else {
            match rest {
                None => Some(lv),
                Some(m) => Some(if lv < m {
                    lv
                } else {
                    m
                }),
            }
        }
    }
}

/// The greatest version present among the entries (zero when there are none).
pub open spec fn max_entry_version(entries: Seq<(MigrationSourceType, nat, Seq<char>)>) -> nat
    decreases entries.len(),
{
    if entries.len() == 0 {
        0
    } else {
        let rest = max_entry_version(entries.drop_last());
        if entries.last().1 > rest {
            entries.last().1
        } else {
            rest
        }
    }
}

/// What `min_version_outside` returns: the least present version outside the
/// already-handled range, or nothing when every present version was handled.
proof fn lemma_min_version_outside(
    entries: Seq<(MigrationSourceType, nat, Seq<char>)>,
    expected: nat,
)
    ensures
        match min_version_outside(entries, expected) {
            Some(m) => has_version(entries, m) && !(1 <= m && m < expected) && (forall|i: int|
                0 <= i < entries.len() && !(1 <= entries[i].1 && entries[i].1 < expected)
                    ==> m <= entries[i].1),
            None => forall|i: int|
                0 <= i < entries.len() ==> 1 <= entries[i].1 && entries[i].1 < expected,
        },
    decreases entries.len(),
{
    if entries.len() > 0 {
        lemma_min_version_outside(entries.drop_last(), expected);
        assert(forall|i: int|
            0 <= i < entries.len() - 1 ==> entries[i] == entries.drop_last()[i]);
        match min_version_outside(entries, expected) {
            Some(m) => {
                if has_version(entries.drop_last(), m) {
                    let i = choose|i: int|
                        0 <= i < entries.drop_last().len() && entries.drop_last()[i].1 == m;
                    assert(entries[i].1 == m);
                } else {
                    assert(entries.last().1 == m);
                    assert(entries[entries.len() - 1].1 == m);
                }
            },
            None => {},
        }
    }
}

/// Every present version is at most the greatest one.
proof fn lemma_version_le_max(
    entries: Seq<(MigrationSourceType, nat, Seq<char>)>,
    i: int,
)
    requires
        0 <= i < entries.len(),
    ensures
        entries[i].1 <= max_entry_version(entries),
    decreases entries.len(),
{
    if i < entries.len() - 1 {
        lemma_version_le_max(entries.drop_last(), i);
        assert(entries.drop_last()[i] == entries[i]);
    }
}

/// A version's three name lists never hold more names than there are entries.
proof fn lemma_group_size(entries: Seq<(MigrationSourceType, nat, Seq<char>)>, v: nat)
    ensures
        names_of(entries, v, MigrationSourceType::Simple).len() + names_of(
            entries,
            v,
            MigrationSourceType::Up,
        ).len() + names_of(entries, v, MigrationSourceType::Down).len() <= entries.len(),
    decreases entries.len(),
{
    if entries.len() > 0 {
        lemma_group_size(entries.drop_last(), v);
    }
}

/// One version's migration, as forward SQL or a forward/backward pair. The
/// payload is a source name during validation and SQL text after resolution.
#[derive(Debug, Clone, PartialEq, Eq)]
pub enum MigrationScript {
    Simple(String),
    Reversible(String, String),
}

/// The mathematical value of a [`MigrationScript`].
pub enum ScriptChars {
    Simple(Seq<char>),
    Reversible(Seq<char>, Seq<char>),
}

impl View for MigrationScript {
    type V = ScriptChars;

    open spec fn view(&self) -> ScriptChars {
        match self {
            MigrationScript::Simple(s) => ScriptChars::Simple(s@),
            MigrationScript::Reversible(u, d) => ScriptChars::Reversible(u@, d@),
        }
    }
}

/// The mathematical value of a [`MigrationError`].
pub enum MigrationErrorChars {
    WrongVersionNumber(nat, nat),
    WrongTypeForSingleMigration(Seq<char>),
    ReversibleMigrationMissingUp(Seq<char>),
    ReversibleMigrationMissingDown(Seq<char>),
    TooManyMigrationsForVersion(nat, nat),
    MissingMigrationSource(Seq<char>),
    RusqliteMigration(Seq<char>),
}

impl View for MigrationError {
    type V = MigrationErrorChars;

    open spec fn view(&self) -> MigrationErrorChars {
        match self {
            MigrationError::WrongVersionNumber(a, b) => MigrationErrorChars::WrongVersionNumber(
                *a as nat,
                *b as nat,
            ),
            MigrationError::WrongTypeForSingleMigration(n) => {
                MigrationErrorChars::WrongTypeForSingleMigration(n@)
            },
            MigrationError::ReversibleMigrationMissingUp(n) => {
                MigrationErrorChars::ReversibleMigrationMissingUp(n@)
            },
            MigrationError::ReversibleMigrationMissingDown(n) => {
                MigrationErrorChars::ReversibleMigrationMissingDown(n@)
            },
            MigrationError::TooManyMigrationsForVersion(a, b) => {
                MigrationErrorChars::TooManyMigrationsForVersion(*a as nat, *b as nat)
            },
            MigrationError::MissingMigrationSource(n) => {
                MigrationErrorChars::MissingMigrationSource(n@)
            },
            MigrationError::RusqliteMigration(t) => MigrationErrorChars::RusqliteMigration(t@),
        }
    }
}

/// What one version's group validates to, over the version's three name
/// lists laid out in kind order (simple, then up, then down): one simple
/// name is a forward script; an up name followed by a down name is a
/// reversible pair; anything else names the offending source or counts.
pub open spec fn group_result(
    entries: Seq<(MigrationSourceType, nat, Seq<char>)>,
    v: nat,
) -> Result<ScriptChars, MigrationErrorChars> {
    let s = names_of(entries, v, MigrationSourceType::Simple);
    let u = names_of(entries, v, MigrationSourceType::Up);
    let d = names_of(entries, v, MigrationSourceType::Down);
    let total = s.len() + u.len() + d.len();
    if total == 1 {
        if s.len() == 1 {
            Ok(ScriptChars::Simple(s[0]))
        } else if u.len() == 1 {
            Err(MigrationErrorChars::WrongTypeForSingleMigration(u[0]))
        } else {
            Err(MigrationErrorChars::WrongTypeForSingleMigration(d[0]))
        }
    } else if total == 2 {
        if s.len() > 0 {
            Err(MigrationErrorChars::ReversibleMigrationMissingUp(s[0]))
        } else if u.len() == 0 {
            Err(MigrationErrorChars::ReversibleMigrationMissingUp(d[0]))
        } else if u.len() == 2 {
            Err(MigrationErrorChars::ReversibleMigrationMissingDown(u[1]))
        } else {
            Ok(ScriptChars::Reversible(u[0], d[0]))
        }
    } else {
        Err(MigrationErrorChars::TooManyMigrationsForVersion(v, total))
    }
}

/// What validation returns from version `expected` on: the groups in
/// ascending version order, each version equal to its rank, stopping at the
/// first offense.
pub open spec fn validate_from(
    entries: Seq<(MigrationSourceType, nat, Seq<char>)>,
    expected: nat,
) -> Result<Seq<ScriptChars>, MigrationErrorChars>
    decreases max_entry_version(entries) + 1 - expected,
    via validate_from_decreases
{
    match min_version_outside(entries, expected) {
        None => Ok(Seq::empty()),
        Some(got) => {
            if got != expected {
                Err(MigrationErrorChars::WrongVersionNumber(expected, got))
            } else {
                match group_result(entries, expected) {
                    Err(e) => Err(e),
                    Ok(script) => match validate_from(entries, expected + 1) {
                        Err(e) => Err(e),
                        Ok(rest) => Ok(seq![script] + rest),
                    },
                }
            }
        },
    }
}

#[via_fn]
proof fn validate_from_decreases(
    entries: Seq<(MigrationSourceType, nat, Seq<char>)>,
    expected: nat,
) {
    lemma_min_version_outside(entries, expected);
    match min_version_outside(entries, expected) {
        Some(m) => {
            let i = choose|i: int| 0 <= i < entries.len() && entries[i].1 == m;
            lemma_version_le_max(entries, i);
        },
        None => {},
    }
}

/// What validation returns for the discovered entries: one script per
/// version, versions contiguous from 1, or the first offense found.
pub open spec fn validated_scripts(
    entries: Seq<(MigrationSourceType, nat, Seq<char>)>,
) -> Result<Seq<ScriptChars>, MigrationErrorChars> {
    validate_from(entries, 1)
}

/// Behind a successful validation from `expected` on: the versions present
/// outside the already-handled range are exactly the next `result.len()`
/// ones, and each script is its version's validated group.
proof fn lemma_validate_from_versions(
    entries: Seq<(MigrationSourceType, nat, Seq<char>)>,
    expected: nat,
)
    requires
        1 <= expected <= max_entry_version(entries) + 1,
        validate_from(entries, expected) is Ok,
    ensures
        forall|v: nat|
            !(1 <= v && v < expected) ==> (#[trigger] has_version(entries, v) <==> (expected <= v
                && v < expected + validate_from_len(entries, expected))),
        forall|i: int|
            0 <= i < validate_from_len(entries, expected) ==> group_result(entries, (expected + i) as nat)
                == Ok::<ScriptChars, MigrationErrorChars>(
                validate_from_scripts(entries, expected)[i],
            ),
    decreases max_entry_version(entries) + 1 - expected,
{
    lemma_min_version_outside(entries, expected);
    match min_version_outside(entries, expected) {
        None => {},
        Some(got) => {
            let i = choose|i: int| 0 <= i < entries.len() && entries[i].1 == got;
            lemma_version_le_max(entries, i);
            lemma_validate_from_versions(entries, expected + 1);
        },
    }
}

/// The scripts behind a successful validation from `expected` on.
pub open spec fn validate_from_scripts(
    entries: Seq<(MigrationSourceType, nat, Seq<char>)>,
    expected: nat,
) -> Seq<ScriptChars> {
    match validate_from(entries, expected) {
        Ok(ss) => ss,
        Err(_) => Seq::empty(),
    }
}

/// The number of scripts behind a successful validation from `expected` on.
pub open spec fn validate_from_len(
    entries: Seq<(MigrationSourceType, nat, Seq<char>)>,
    expected: nat,
) -> nat {
    validate_from_scripts(entries, expected).len()
}

/// What a successful validation means, directly: the versions present among
/// the discovered entries are exactly 1 through the number of scripts
/// returned; that count is the greatest version present; and each returned
/// script is its version's validated group — one simple name, or an up name
/// with its down name.
pub proof fn lemma_validated_versions(entries: Seq<(MigrationSourceType, nat, Seq<char>)>)
    requires
        validated_scripts(entries) is Ok,
    ensures
        forall|v: nat|
            #[trigger] has_version(entries, v) <==> (1 <= v && v <= validate_from_len(entries, 1)),
        validate_from_len(entries, 1) == max_entry_version(entries),
        forall|i: int|
            0 <= i < validate_from_len(entries, 1) ==> group_result(entries, (i + 1) as nat) == Ok::<
                ScriptChars,
                MigrationErrorChars,
            >(validate_from_scripts(entries, 1)[i]),
{
    lemma_validate_from_versions(entries, 1);
    let len = validate_from_len(entries, 1);
    if len > 0 {
        assert(has_version(entries, len));
        let i = choose|i: int| 0 <= i < entries.len() && entries[i].1 == len;
        lemma_version_le_max(entries, i);
        let m = max_entry_version(entries);
        lemma_max_version_present(entries);
        assert(has_version(entries, m));
        assert(m <= len);
    } else {
        if entries.len() > 0 {
            assert(has_version(entries, entries[0].1));
        }
        lemma_max_version_present(entries);
    }
}

/// A nonempty entry list contains its greatest version.
proof fn lemma_max_version_present(entries: Seq<(MigrationSourceType, nat, Seq<char>)>)
    ensures
        entries.len() > 0 ==> has_version(entries, max_entry_version(entries)),
        entries.len() == 0 ==> max_entry_version(entries) == 0,
    decreases entries.len(),
{
    if entries.len() > 0 {
        lemma_max_version_present(entries.drop_last());
        if entries.len() > 1 && max_entry_version(entries) == max_entry_version(
            entries.drop_last(),
        ) {
            let i = choose|i: int|
                0 <= i < entries.drop_last().len() && entries.drop_last()[i].1
                    == max_entry_version(entries.drop_last());
            assert(entries[i].1 == max_entry_version(entries));
        } else {
            assert(entries[entries.len() - 1].1 == max_entry_version(entries));
        }
    }
}

/// The names of a list of sources, in order.
pub open spec fn source_names(sources: Seq<MigrationSource>) -> Seq<Seq<char>> {
    sources.map_values(|s: MigrationSource| s.name@)
}

/// Parses every source name, keeping the entries that follow the naming
/// convention, in order.
pub fn parse_sources(sources: &Vec<MigrationSource>) -> (r: Vec<SourceEntry>)
    ensures
        r@.map_values(|e: SourceEntry| e@) == parsed_entries(source_names(sources@)),
{
    let ghost names = source_names(sources@);
    let mut out: Vec<SourceEntry> = Vec::new();
    let mut i: usize = 0;
    while i < sources.len()
        invariant
            i <= sources@.len(),
            names == source_names(sources@),
            out@.map_values(|e: SourceEntry| e@) == parsed_entries(names.take(i as int)),
        decreases sources@.len() - i,
    {
        let ghost prev = out@;
        match parse_migration_name(sources[i].name.as_str()) {
            Some((kind, version)) => {
                out.push(SourceEntry { kind, version, name: sources[i].name.clone() });
            },
            None => {},
        }
        i = i + 1;
        proof {
            assert(names.take(i as int).drop_last() =~= names.take(i - 1));
            assert(names.take(i as int).last() == names[i - 1]);
            assert(names[i - 1] == sources@[i - 1].name@);
            assert(out@.map_values(|e: SourceEntry| e@) =~= parsed_entries(names.take(i as int)));
        }
    }
    proof {
        assert(names.take(names.len() as int) =~= names);
    }
    out
}

/// Finds the least version present among the entries, not counting versions
/// in `1..expected`.
fn find_min_version_outside(entries: &Vec<SourceEntry>, expected: usize) -> (r: Option<usize>)
    ensures
        match r {
            Some(m) => min_version_outside(
                entries@.map_values(|e: SourceEntry| e@),
                expected as nat,
            ) == Some(m as nat),
            None => min_version_outside(
                entries@.map_values(|e: SourceEntry| e@),
                expected as nat,
            ) is None,
        },
{
    let ghost ev = entries@.map_values(|e: SourceEntry| e@);
    let mut best: Option<usize> = None;
    let mut i: usize = 0;
    while i < entries.len()
        invariant
            i <= entries@.len(),
            ev == entries@.map_values(|e: SourceEntry| e@),
            match best {
                Some(m) => min_version_outside(ev.take(i as int), expected as nat) == Some(
                    m as nat,
                ),
                None => min_version_outside(ev.take(i as int), expected as nat) is None,
            },
        decreases entries@.len() - i,
    {
        let v = entries[i].version;
        proof {
            assert(ev.take(i + 1).drop_last() =~= ev.take(i as int));
            assert(ev.take(i + 1).last() == ev[i as int]);
            assert(ev[i as int].1 == entries@[i as int].version as nat);
        }
        if !(1 <= v && v < expected) {
            best = match best {
                None => Some(v),
                Some(m) => Some(if v < m {
                    v
                } else {
                    m
                }),
            };
        }
        i = i + 1;
    }
    proof {
        assert(ev.take(ev.len() as int) =~= ev);
    }
    best
}

/// Collects, in encounter order, the names of the sources of one version and
/// one type.
fn collect_names(entries: &Vec<SourceEntry>, v: usize, kind: MigrationSourceType) -> (r: Vec<
    String,
>)
    ensures
        r@.map_values(|n: String| n@) == names_of(
            entries@.map_values(|e: SourceEntry| e@),
            v as nat,
            kind,
        ),
{
    let ghost ev = entries@.map_values(|e: SourceEntry| e@);
    let mut out: Vec<String> = Vec::new();
    let mut i: usize = 0;
    while i < entries.len()
        invariant
            i <= entries@.len(),
            ev == entries@.map_values(|e: SourceEntry| e@),
            out@.map_values(|n: String| n@) == names_of(ev.take(i as int), v as nat, kind),
        decreases entries@.len() - i,
    {
        proof {
            assert(ev.take(i + 1).drop_last() =~= ev.take(i as int));
            assert(ev.take(i + 1).last() == ev[i as int]);
        }
        if entries[i].version == v && entries[i].kind == kind {
            out.push(entries[i].name.clone());
        }
        i = i + 1;
        assert(out@.map_values(|n: String| n@) =~= names_of(ev.take(i as int), v as nat, kind));
    }
    proof {
        assert(ev.take(ev.len() as int) =~= ev);
    }
    out
}

/// The mathematical values of a list of scripts.
pub open spec fn script_views(scripts: Seq<MigrationScript>) -> Seq<ScriptChars> {
    scripts.map_values(|s: MigrationScript| s@)
}

/// The loop relation of [`validate_sources`]: what validation of the whole
/// entry list returns, given the scripts already produced and what
/// validation from `expected` on returns.
pub open spec fn validate_continues(
    entries: Seq<(MigrationSourceType, nat, Seq<char>)>,
    expected: nat,
    done: Seq<ScriptChars>,
) -> bool {
    match validate_from(entries, expected) {
        Ok(rest) => validated_scripts(entries) == Ok::<Seq<ScriptChars>, MigrationErrorChars>(
            done + rest,
        ),
        Err(e) => validated_scripts(entries) == Err::<Seq<ScriptChars>, MigrationErrorChars>(e),
    }
}

/// Validates the discovered entries: versions must be contiguous integers
/// starting at 1, and each version must carry either one plain script or an
/// up/down pair. Returns one script of names per version, in version order,
/// or the first offense found.
pub fn validate_sources(entries: &Vec<SourceEntry>) -> (r: Result<
    Vec<MigrationScript>,
    MigrationError,
>)
    ensures
        match validated_scripts(entries@.map_values(|e: SourceEntry| e@)) {
            Ok(ss) => r matches Ok(v) && script_views(v@) == ss,
            Err(es) => r matches Err(e) && e@ == es,
        },
{
    let ghost ev = entries@.map_values(|e: SourceEntry| e@);
    proof {
        assert(forall|i: int| 0 <= i < ev.len() ==> ev[i].1 <= usize::MAX);
    }
    let mut out: Vec<MigrationScript> = Vec::new();
    let mut expected: usize = 1;
    loop
        invariant
            1 <= expected,
            expected <= max_entry_version(ev) + 1,
            ev == entries@.map_values(|e: SourceEntry| e@),
            validate_continues(ev, expected as nat, script_views(out@)),
            forall|w: nat| 1 <= w && w < expected ==> has_version(ev, w),
            expected >= 2 ==> (forall|i: int| 0 <= i < ev.len() ==> ev[i].1 >= 1),
        decreases max_entry_version(ev) + 1 - expected,
    {
        let got = match find_min_version_outside(entries, expected) {
            None => {
                proof {
                    assert(script_views(out@) + Seq::<ScriptChars>::empty() =~= script_views(
                        out@,
                    ));
                }
                return Ok(out);
            },
            Some(got) => got,
        };
        if got != expected {
            return Err(MigrationError::WrongVersionNumber(expected, got));
        }
        proof {
            lemma_min_version_outside(ev, expected as nat);
            if expected == 1 {
                assert(forall|i: int| 0 <= i < ev.len() ==> ev[i].1 >= 1);
            }
            let i = choose|i: int| 0 <= i < ev.len() && ev[i].1 == expected as nat;
            lemma_version_le_max(ev, i);
            lemma_group_size(ev, expected as nat);
        }
        let entry_count = entries.len();
        let mut simples = collect_names(entries, expected, MigrationSourceType::Simple);
        let mut ups = collect_names(entries, expected, MigrationSourceType::Up);
        let mut downs = collect_names(entries, expected, MigrationSourceType::Down);
        proof {
            assert(ev.len() == entry_count);
            assert(simples@.len() == names_of(ev, expected as nat, MigrationSourceType::Simple).len());
            assert(ups@.len() == names_of(ev, expected as nat, MigrationSourceType::Up).len());
            assert(downs@.len() == names_of(ev, expected as nat, MigrationSourceType::Down).len());
            assert(simples@.len() + ups@.len() + downs@.len() <= ev.len());
        }
        let total = simples.len() + ups.len() + downs.len();
        let script: MigrationScript;
        if total == 1 {
            if simples.len() == 1 {
                script = match simples.pop() {
                    Some(n) => MigrationScript::Simple(n),
                    None => unreached(),
                };
            } else if ups.len() == 1 {
                return Err(MigrationError::WrongTypeForSingleMigration(ups.remove(0)));
            } else {
                return Err(MigrationError::WrongTypeForSingleMigration(downs.remove(0)));
            }
        } else if total == 2 {
            if simples.len() > 0 {
                return Err(MigrationError::ReversibleMigrationMissingUp(simples.remove(0)));
            } else if ups.len() == 0 {
                return Err(MigrationError::ReversibleMigrationMissingUp(downs.remove(0)));
            } else if ups.len() == 2 {
                return Err(MigrationError::ReversibleMigrationMissingDown(ups.remove(1)));
            } else {
                let u = ups.remove(0);
                let d = downs.remove(0);
                script = MigrationScript::Reversible(u, d);
            }
        } else {
            return Err(MigrationError::TooManyMigrationsForVersion(expected, total));
        }
        let ghost done = script_views(out@);
        out.push(script);
        proof {
            assert(script_views(out@) =~= done.push(script@));
            match validate_from(ev, expected as nat + 1) {
                Ok(rest) => {
                    assert(done + (seq![script@] + rest) =~= done.push(script@) + rest);
                },
                Err(e) => {},
            }
        }
        if expected == usize::MAX {
            proof {
                lemma_min_version_outside(ev, expected as nat + 1);
                match min_version_outside(ev, expected as nat + 1) {
                    Some(m) => {
                        let i = choose|i: int| 0 <= i < ev.len() && ev[i].1 == m;
                        assert(ev[i].1 <= usize::MAX);
                        assert(false);
                    },
                    None => {},
                }
                assert(script_views(out@) + Seq::<ScriptChars>::empty() =~= script_views(out@));
            }
            return Ok(out);
        }
        expected = expected + 1;
    }
}

/// The content of the first source with the given name, if any.
pub open spec fn lookup_content(sources: Seq<MigrationSource>, name: Seq<char>) -> Option<
    Seq<char>,
>
    decreases sources.len(),
{
    if sources.len() == 0 {
        None
    } else if sources[0].name@ == name {
        Some(sources[0].content@)
    } else {
        lookup_content(sources.drop_first(), name)
    }
}

/// Fetches the content of the first source with the given name.
pub fn find_content(sources: &Vec<MigrationSource>, name: &String) -> (r: Option<String>)
    ensures
        match lookup_content(sources@, name@) {
            Some(c) => r matches Some(s) && s@ == c,
            None => r is None,
        },
{
    proof {
        assert(sources@.skip(0) =~= sources@);
    }
    let mut i: usize = 0;
    while i < sources.len()
        invariant
            i <= sources@.len(),
            lookup_content(sources@, name@) == lookup_content(sources@.skip(i as int), name@),
        decreases sources@.len() - i,
    {
        proof {
            assert(sources@.skip(i as int)[0] == sources@[i as int]);
            assert(sources@.skip(i as int).drop_first() =~= sources@.skip(i + 1));
        }
        if sources[i].name.eq(name) {
            return Some(sources[i].content.clone());
        }
        i = i + 1;
    }
    proof {
        assert(sources@.skip(sources@.len() as int) =~= Seq::<MigrationSource>::empty());
    }
    None
}

/// What resolving a list of validated name scripts against the sources
/// returns: the same scripts with each name replaced by its content, or the
/// first name with no content to fetch.
pub open spec fn resolved_scripts(
    scripts: Seq<ScriptChars>,
    sources: Seq<MigrationSource>,
) -> Result<Seq<ScriptChars>, MigrationErrorChars>
    decreases scripts.len(),
{
    if scripts.len() == 0 {
        Ok(Seq::empty())
    } else {
        match resolved_scripts(scripts.drop_last(), sources) {
            Err(e) => Err(e),
            Ok(rest) => match scripts.last() {
                ScriptChars::Simple(n) => match lookup_content(sources, n) {
                    None => Err(MigrationErrorChars::MissingMigrationSource(n)),
                    Some(c) => Ok(rest.push(ScriptChars::Simple(c))),
                },
                ScriptChars::Reversible(u, d) => match lookup_content(sources, u) {
                    None => Err(MigrationErrorChars::MissingMigrationSource(u)),
                    Some(cu) => match lookup_content(sources, d) {
                        None => Err(MigrationErrorChars::MissingMigrationSource(d)),
                        Some(cd) => Ok(rest.push(ScriptChars::Reversible(cu, cd))),
                    },
                },
            },
        }
    }
}

/// Replaces each validated script's names by the contents they resolve to,
/// in order, failing on the first name with no content.
pub fn resolve_scripts(scripts: &Vec<MigrationScript>, sources: &Vec<MigrationSource>) -> (r:
    Result<Vec<MigrationScript>, MigrationError>)
    ensures
        match resolved_scripts(script_views(scripts@), sources@) {
            Ok(ss) => r matches Ok(v) && script_views(v@) == ss,
            Err(es) => r matches Err(e) && e@ == es,
        },
{
    let ghost sv = script_views(scripts@);
    let mut out: Vec<MigrationScript> = Vec::new();
    proof {
        assert(sv.take(0) =~= Seq::<ScriptChars>::empty());
        assert(script_views(out@) =~= Seq::<ScriptChars>::empty());
    }
    let mut i: usize = 0;
    while i < scripts.len()
        invariant
            i <= scripts@.len(),
            sv == script_views(scripts@),
            resolved_scripts(sv.take(i as int), sources@) == Ok::<
                Seq<ScriptChars>,
                MigrationErrorChars,
            >(script_views(out@)),
        decreases scripts@.len() - i,
    {
        proof {
            assert(sv.take(i + 1).drop_last() =~= sv.take(i as int));
            assert(sv.take(i + 1).last() == sv[i as int]);
        }
        let ghost done = script_views(out@);
        match &scripts[i] {
            MigrationScript::Simple(n) => {
                match find_content(sources, n) {
                    Some(c) => out.push(MigrationScript::Simple(c)),
                    None => {
                        proof {
                            lemma_resolved_prefix(sv, sources@, i + 1);
                        }
                        return Err(MigrationError::MissingMigrationSource(n.clone()));
                    },
                }
            },
            MigrationScript::Reversible(u, d) => {
                let cu = match find_content(sources, u) {
                    Some(cu) => cu,
                    None => {
                        proof {
                            lemma_resolved_prefix(sv, sources@, i + 1);
                        }
                        return Err(MigrationError::MissingMigrationSource(u.clone()));
                    },
                };
                match find_content(sources, d) {
                    Some(cd) => out.push(MigrationScript::Reversible(cu, cd)),
                    None => {
                        proof {
                            lemma_resolved_prefix(sv, sources@, i + 1);
                        }
                        return Err(MigrationError::MissingMigrationSource(d.clone()));
                    },
                }
            },
        }
        i = i + 1;
        proof {
            assert(script_views(out@) =~= done.push(out@[out@.len() - 1]@));
        }
    }
    proof {
        assert(sv.take(sv.len() as int) =~= sv);
    }
    Ok(out)
}

/// A failed prefix dooms the whole resolution: once resolving the first `j`
/// scripts fails, resolving any longer prefix fails the same way.
proof fn lemma_resolved_prefix(scripts: Seq<ScriptChars>, sources: Seq<MigrationSource>, j: int)
    requires
        0 <= j <= scripts.len(),
        resolved_scripts(scripts.take(j), sources) is Err,
    ensures
        resolved_scripts(scripts, sources) == resolved_scripts(scripts.take(j), sources),
    decreases scripts.len() - j,
{
    if j < scripts.len() {
        assert(scripts.take(j + 1).drop_last() =~= scripts.take(j));
        lemma_resolved_prefix(scripts, sources, j + 1);
    } else {
        assert(scripts.take(j) =~= scripts);
    }
}

/// One step of the apply plan: move to an explicit version, or forward to
/// the latest one.
#[derive(Clone, Copy, Debug, PartialEq, Eq, Structural)]
pub enum MigrationStep {
    ToVersion(usize),
    ToLatest,
}

/// The steps that follow the optional first target: an explicit target wins;
/// otherwise the database moves forward to the latest version if it is
/// behind it, and nothing happens if not.
pub open spec fn tail_plan(current: usize, to: Option<usize>, latest: usize) -> Seq<
    MigrationStep,
> {
    match to {
        Some(t) => seq![MigrationStep::ToVersion(t)],
        None => if current < latest {
            seq![MigrationStep::ToLatest]
        } else {
            Seq::empty()
        },
    }
}

/// The full apply plan: when a first target is set and differs from the
/// current version, move there first (forward or backward), then follow the
/// tail policy from that version.
pub open spec fn migration_plan(
    current: usize,
    first_to: Option<usize>,
    to: Option<usize>,
    latest: usize,
) -> Seq<MigrationStep> {
    match first_to {
        Some(f) => if f != current {
            seq![MigrationStep::ToVersion(f)] + tail_plan(f, to, latest)
        } else {
            tail_plan(f, to, latest)
        },
        None => tail_plan(current, to, latest),
    }
}

/// The schema version the database holds after following a plan, given the
/// version it starts from: the last step decides.
pub open spec fn plan_outcome(plan: Seq<MigrationStep>, start: usize, latest: usize) -> usize {
    if plan.len() == 0 {
        start
    } else {
        match plan.last() {
            MigrationStep::ToVersion(v) => v,
            MigrationStep::ToLatest => latest,
        }
    }
}

/// Computes the apply plan for the given current version, configuration, and
/// latest defined version.
pub fn migration_targets(current: usize, config: &MigrationConfig, latest: usize) -> (r: Vec<
    MigrationStep,
>)
    ensures
        r@ == migration_plan(current, config.first_to, config.to, latest),
{
    let mut plan: Vec<MigrationStep> = Vec::new();
    let mut cur = current;
    match config.first_to {
        Some(f) => {
            if f != current {
                plan.push(MigrationStep::ToVersion(f));
            }
            cur = f;
        },
        None => {},
    }
    match config.to {
        Some(t) => {
            plan.push(MigrationStep::ToVersion(t));
        },
        None => {
            if cur < latest {
                plan.push(MigrationStep::ToLatest);
            }
        },
    }
    proof {
        assert(plan@ =~= migration_plan(current, config.first_to, config.to, latest));
    }
    plan
}

/// Where a plan ends: an explicit target is reached exactly; with none, a
/// database behind the latest version ends at the latest version, and one
/// already at or past it stays put. A differing first target is visited by
/// the plan's first step.
pub proof fn lemma_plan_outcome(
    current: usize,
    first_to: Option<usize>,
    to: Option<usize>,
    latest: usize,
)
    ensures
        to matches Some(t) ==> plan_outcome(
            migration_plan(current, first_to, to, latest),
            current,
            latest,
        ) == t,
        (to is None && first_to is None && current < latest) ==> plan_outcome(
            migration_plan(current, first_to, to, latest),
            current,
            latest,
        ) == latest,
        (to is None && first_to is None && current >= latest) ==> migration_plan(
            current,
            first_to,
            to,
            latest,
        ) == Seq::<MigrationStep>::empty() && plan_outcome(
            migration_plan(current, first_to, to, latest),
            current,
            latest,
        ) == current,
        first_to matches Some(f) ==> ((to is None && f < latest) ==> plan_outcome(
            migration_plan(current, first_to, to, latest),
            current,
            latest,
        ) == latest),
        first_to matches Some(f) ==> (f != current ==> migration_plan(
            current,
            first_to,
            to,
            latest,
        )[0] == MigrationStep::ToVersion(f)),
{
}

/// With a first target below the latest version and no explicit target, the
/// plan visits the first target and ends at the latest version.
pub proof fn lemma_first_to_then_latest(current: usize, f: usize, latest: usize)
    requires
        f < latest,
    ensures
        plan_outcome(migration_plan(current, Some(f), None, latest), current, latest) == latest,
        f != current ==> migration_plan(current, Some(f), None, latest) == seq![
            MigrationStep::ToVersion(f),
            MigrationStep::ToLatest,
        ],
        f == current ==> migration_plan(current, Some(f), None, latest) == seq![
            MigrationStep::ToLatest,
        ],
{
    if f != current {
        assert(migration_plan(current, Some(f), None, latest) =~= seq![
            MigrationStep::ToVersion(f),
            MigrationStep::ToLatest,
        ]);
    } else {
        assert(migration_plan(current, Some(f), None, latest) =~= seq![
            MigrationStep::ToLatest,
        ]);
    }
}

/// What discovery, validation and resolution together return for a list of
/// sources.
pub open spec fn prepared_scripts(sources: Seq<MigrationSource>) -> Result<
    Seq<ScriptChars>,
    MigrationErrorChars,
> {
    match validated_scripts(parsed_entries(source_names(sources))) {
        Err(e) => Err(e),
        Ok(ss) => resolved_scripts(ss, sources),
    }
}

/// Discovers, validates, orders, and applies the given migration sources
/// against the given connection: the current schema version is read, then
/// the database is stepped to the planned target versions. Discovery,
/// validation and resolution errors are exact; reading the version or
/// stepping the database can also fail, with the underlying cause rendered.
pub fn run_migrations(
    config: &MigrationConfig,
    sources: &Vec<MigrationSource>,
    connection: &mut rusqlite::Connection,
) -> (r: Result<(), MigrationError>)
    ensures
        match prepared_scripts(sources@) {
            Err(es) => r matches Err(e) && e@ == es,
            Ok(_) => r is Ok || (r matches Err(e) && e@ is RusqliteMigration),
        },
{
    let entries = parse_sources(sources);
    let scripts = match validate_sources(&entries) {
        Ok(s) => s,
        Err(e) => {
            return Err(e);
        },
    };
    let resolved = match resolve_scripts(&scripts, sources) {
        Ok(s) => s,
        Err(e) => {
            return Err(e);
        },
    };
    proof {
        assert(prepared_scripts(sources@) is Ok);
    }
    let mut ms: Vec<rusqlite_migration::M> = Vec::new();
    let mut i: usize = 0;
    while i < resolved.len()
        invariant
            i <= resolved@.len(),
            prepared_scripts(sources@) is Ok,
        decreases resolved@.len() - i,
    {
        match &resolved[i] {
            MigrationScript::Simple(sql) => {
                ms.push(sqlite::migration_up(sql.as_str()));
            },
            MigrationScript::Reversible(up, down) => {
                ms.push(sqlite::migration_down(sqlite::migration_up(up.as_str()), down.as_str()));
            },
        }
        i = i + 1;
    }
    let migs = sqlite::migrations_new(ms);
    let current = match sqlite::migrations_current_version(&migs, connection) {
        Ok(v) => v,
        Err(t) => {
            return Err(MigrationError::RusqliteMigration(t));
        },
    };
    let latest = resolved.len();
    let plan = migration_targets(current, config, latest);
    let mut j: usize = 0;
    while j < plan.len()
        invariant
            j <= plan@.len(),
            prepared_scripts(sources@) is Ok,
        decreases plan@.len() - j,
    {
        let step = match plan[j] {
            MigrationStep::ToVersion(v) => sqlite::migrations_to_version(&migs, connection, v),
            MigrationStep::ToLatest => sqlite::migrations_to_latest(&migs, connection),
        };
        match step {
            Ok(()) => {},
            Err(t) => {
                return Err(MigrationError::RusqliteMigration(t));
            },
        }
        j = j + 1;
    }
    Ok(())
}

} // verus!
