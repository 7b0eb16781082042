//! Bulk import of links: batch limits, the reasons a row is refused, titles
//! and the per-row report.
use crate::text::{int_decimal, string_from_chars, trim, trim_chars, u64_decimal_chars, utf8_len, utf8_len_exceeds, chars_of};
use vstd::prelude::*;

verus! {

broadcast use vstd::string::group_string_axioms;

/// Rows one import may hold.
pub const MAX_IMPORT_ROWS: usize = 50;

/// What to do with a batch of `n` rows.
#[derive(Debug, Clone, Copy, PartialEq, Eq, Structural)]
pub enum BatchDecision {
    /// No rows: answer an empty report.
    Empty,
    /// More than fifty rows: 400, "Maximum 50 links per import batch".
    TooMany,
    /// Import the rows.
    Proceed,
}

/// Decides what to do with a batch of `n` rows.
pub fn check_import_batch(n: usize) -> (r: BatchDecision)
    ensures
        n == 0 ==> r == BatchDecision::Empty,
        n > MAX_IMPORT_ROWS ==> r == BatchDecision::TooMany,
        0 < n <= MAX_IMPORT_ROWS ==> r == BatchDecision::Proceed,
{
    if n == 0 {
        BatchDecision::Empty
    } else if n > MAX_IMPORT_ROWS {
        BatchDecision::TooMany
    } else {
        BatchDecision::Proceed
    }
}

/// Random codes tried before a row without a chosen code fails (see
/// `import_flow`).
pub const MAX_RANDOM_TRIES: u32 = 10;

/// The reason of a row whose chosen code is invalid: `Invalid short code: `
/// followed by the validation error.
pub open spec fn invalid_code_reason_of(error: Seq<char>) -> Seq<char> {
    "Invalid short code: "@ + error
}

/// The reason of a row whose chosen code is invalid.
pub fn invalid_code_reason(error: &str) -> (r: String)
    ensures
        r@ == invalid_code_reason_of(error@),
{
    let mut s = "Invalid short code: ".to_string();
    s.append(error);
    s
}

/// The reason of a row skipped because its chosen code is already taken.
pub open spec fn duplicate_code_reason_of(code: Seq<char>) -> Seq<char> {
    "Duplicate short code: '"@ + code + "' is already in use"@
}

/// The reason of a row skipped because its chosen code is already taken.
pub fn duplicate_code_reason(code: &str) -> (r: String)
    ensures
        r@ == duplicate_code_reason_of(code@),
{
    let mut s = "Duplicate short code: '".to_string();
    s.append(code);
    s.append("' is already in use");
    s
}

/// A row's title: trimmed, dropped when empty or longer than 200 bytes.
pub open spec fn import_title_of(title: Option<Seq<char>>) -> Option<Seq<char>> {
    match title {
        Some(t) => if trim(t).len() == 0 || utf8_len(trim(t)) > 200 {
            None
        } else {
            Some(trim(t))
        },
        None => None,
    }
}

/// A row's title as stored.
pub fn import_title(title: Option<&str>) -> (r: Option<String>)
    ensures
        match r {
            Some(t) => import_title_of(
                match title {
                    Some(x) => Some(x@),
                    None => None,
                },
            ) == Some(t@),
            None => import_title_of(
                match title {
                    Some(x) => Some(x@),
                    None => None,
                },
            ) is None,
        },
{
    match title {
        None => None,
        Some(t) => {
            let chars = chars_of(t);
            let trimmed = trim_chars(chars.as_slice());
            if trimmed.len() == 0 || utf8_len_exceeds(trimmed.as_slice(), 200) {
                None
            } else {
                Some(string_from_chars(trimmed.as_slice()))
            }
        },
    }
}

/// The warning of a row whose tags were dropped for the tag limit.
pub open spec fn tags_skipped_warning(max_tags: int) -> Seq<char> {
    "Tags skipped: would exceed tag limit ("@ + int_decimal(max_tags)
        + " max). Consider upgrading your plan."@
}

/// The warning of a row whose tags were dropped for the tag limit.
pub fn tags_skipped_message(max_tags: i64) -> (r: String)
    ensures
        r@ == tags_skipped_warning(max_tags as int),
{
    let digits = crate::text::i64_decimal_chars(max_tags);
    let number = string_from_chars(digits.as_slice());
    let mut s = "Tags skipped: would exceed tag limit (".to_string();
    s.append(number.as_str());
    s.append(" max). Consider upgrading your plan.");
    s
}

/// How one row of an import ended.
#[derive(Debug, Clone)]
pub enum RowOutcome {
    /// The row was not imported (invalid or blocked URL, quota, no free code).
    Failed { destination_url: String, reason: String },
    /// The chosen short code is invalid; the row was skipped.
    InvalidCode { destination_url: String, reason: String },
    /// The chosen short code is already taken; the row was skipped.
    DuplicateCode { destination_url: String, reason: String },
    /// The link was created; `tags_warning` when its tags were dropped.
    Created { destination_url: String, tags_warning: Option<String> },
}

/// One line of the report's `errors` or `warnings`.
#[derive(Debug, Clone)]
pub struct RowNote {
    /// The row's position, counting from 1.
    pub row: usize,
    pub destination_url: String,
    pub reason: String,
}

/// The import's answer.
#[derive(Debug, Clone)]
pub struct ImportReport {
    pub created: usize,
    pub skipped: usize,
    pub failed: usize,
    pub errors: Vec<RowNote>,
    pub warnings: Vec<RowNote>,
}

pub open spec fn is_created(o: RowOutcome) -> bool {
    o is Created
}

pub open spec fn is_failed(o: RowOutcome) -> bool {
    o is Failed
}

/// The row was skipped for its chosen code (invalid or taken).
pub open spec fn is_code_skip(o: RowOutcome) -> bool {
    o is InvalidCode || o is DuplicateCode
}

pub open spec fn tags_dropped(o: RowOutcome) -> bool {
    o matches RowOutcome::Created { tags_warning: Some(_), .. }
}

/// How many of `s` satisfy `p`.
pub open spec fn count_where(s: Seq<RowOutcome>, p: spec_fn(RowOutcome) -> bool) -> nat
    decreases s.len(),
{
    if s.len() == 0 {
        0
    } else {
        count_where(s.drop_last(), p) + if p(s.last()) {
            1nat
        } else {
            0nat
        }
    }
}

/// A report line as (row, destination URL, reason).
pub open spec fn note_view(n: RowNote) -> (int, Seq<char>, Seq<char>) {
    (n.row as int, n.destination_url@, n.reason@)
}

pub open spec fn notes_view(v: Seq<RowNote>) -> Seq<(int, Seq<char>, Seq<char>)> {
    v.map_values(|n: RowNote| note_view(n))
}

/// The report's errors for the rows `s`, in row order: one per failed or
/// skipped-for-its-code row, naming the row (from 1), its URL and its reason.
pub open spec fn error_notes(s: Seq<RowOutcome>) -> Seq<(int, Seq<char>, Seq<char>)>
    decreases s.len(),
{
    if s.len() == 0 {
        Seq::empty()
    } else {
        error_notes(s.drop_last()) + match s.last() {
            RowOutcome::Failed { destination_url, reason } => seq![(s.len() as int, destination_url@, reason@)],
            RowOutcome::InvalidCode { destination_url, reason } => seq![(s.len() as int, destination_url@, reason@)],
            RowOutcome::DuplicateCode { destination_url, reason } => seq![(s.len() as int, destination_url@, reason@)],
            RowOutcome::Created { .. } => Seq::empty(),
        }
    }
}

/// The report's warnings for the rows `s`, in row order: one per created row
/// whose tags were dropped.
pub open spec fn warning_notes(s: Seq<RowOutcome>) -> Seq<(int, Seq<char>, Seq<char>)>
    decreases s.len(),
{
    if s.len() == 0 {
        Seq::empty()
    } else {
        warning_notes(s.drop_last()) + match s.last() {
            RowOutcome::Created { destination_url, tags_warning: Some(w) } => seq![(s.len() as int, destination_url@, w@)],
            _ => Seq::empty(),
        }
    }
}

/// Every row ends one way: created, failed or skipped for its code.
pub proof fn lemma_rows_partition(s: Seq<RowOutcome>)
    ensures
        count_where(s, |o: RowOutcome| is_created(o)) + count_where(s, |o: RowOutcome| is_failed(o))
            + count_where(s, |o: RowOutcome| is_code_skip(o)) == s.len(),
    decreases s.len(),
{
    if s.len() > 0 {
        lemma_rows_partition(s.drop_last());
    }
}

/// The report names each row at most once among its errors, in increasing
/// row order, and only rows that exist; so does it among its warnings.
pub proof fn lemma_notes_in_row_order(s: Seq<RowOutcome>)
    ensures
        forall|a: int, b: int|
            0 <= a < b < error_notes(s).len() ==> #[trigger] error_notes(s)[a].0 < #[trigger] error_notes(s)[b].0,
        forall|a: int| 0 <= a < error_notes(s).len() ==> 1 <= #[trigger] error_notes(s)[a].0 <= s.len(),
        forall|a: int, b: int|
            0 <= a < b < warning_notes(s).len() ==> #[trigger] warning_notes(s)[a].0 < #[trigger] warning_notes(s)[b].0,
        forall|a: int| 0 <= a < warning_notes(s).len() ==> 1 <= #[trigger] warning_notes(s)[a].0 <= s.len(),
    decreases s.len(),
{
    if s.len() > 0 {
        lemma_notes_in_row_order(s.drop_last());
        let pe = error_notes(s.drop_last());
        let pw = warning_notes(s.drop_last());
        assert forall|a: int| 0 <= a < error_notes(s).len() implies 1 <= #[trigger] error_notes(s)[a].0 <= s.len() by {
            if a < pe.len() {
                assert(error_notes(s)[a] == pe[a]);
            }
        }
        assert forall|a: int, b: int|
            0 <= a < b < error_notes(s).len() implies #[trigger] error_notes(s)[a].0 < #[trigger] error_notes(s)[b].0 by {
            assert(error_notes(s)[a] == pe[a]);
            if b < pe.len() {
                assert(error_notes(s)[b] == pe[b]);
            }
        }
        assert forall|a: int| 0 <= a < warning_notes(s).len() implies 1 <= #[trigger] warning_notes(s)[a].0 <= s.len() by {
            if a < pw.len() {
                assert(warning_notes(s)[a] == pw[a]);
            }
        }
        assert forall|a: int, b: int|
            0 <= a < b < warning_notes(s).len() implies #[trigger] warning_notes(s)[a].0 < #[trigger] warning_notes(s)[b].0 by {
            assert(warning_notes(s)[a] == pw[a]);
            if b < pw.len() {
                assert(warning_notes(s)[b] == pw[b]);
            }
        }
    }
}

/// Builds the report of an import from its rows' outcomes, in row order.
/// `skipped` counts rows skipped for their code and created rows whose tags
/// were dropped; `errors` holds, in row order, the row number (from 1), URL
/// and reason of each failed or skipped row; `warnings` those of each row
/// whose tags were dropped.
pub fn summarize_import(outcomes: &Vec<RowOutcome>) -> (r: ImportReport)
    requires
        outcomes.len() <= MAX_IMPORT_ROWS,
    ensures
        r.created == count_where(outcomes@, |o: RowOutcome| is_created(o)),
        r.failed == count_where(outcomes@, |o: RowOutcome| is_failed(o)),
        r.skipped == count_where(outcomes@, |o: RowOutcome| is_code_skip(o)) + count_where(
            outcomes@,
            |o: RowOutcome| tags_dropped(o),
        ),
        notes_view(r.errors@) == error_notes(outcomes@),
        notes_view(r.warnings@) == warning_notes(outcomes@),
        r.errors.len() == r.failed + count_where(outcomes@, |o: RowOutcome| is_code_skip(o)),
        r.warnings.len() == count_where(outcomes@, |o: RowOutcome| tags_dropped(o)),
        r.created + r.failed + count_where(outcomes@, |o: RowOutcome| is_code_skip(o))
            == outcomes.len(),
{
    let ghost s = outcomes@;
    let mut created: usize = 0;
    let mut skipped: usize = 0;
    let mut failed: usize = 0;
    let mut errors: Vec<RowNote> = Vec::new();
    let mut warnings: Vec<RowNote> = Vec::new();
    let mut i: usize = 0;
    assert(notes_view(errors@) =~= error_notes(s.subrange(0, 0)));
    assert(notes_view(warnings@) =~= warning_notes(s.subrange(0, 0)));
    while i < outcomes.len()
        invariant
            i <= outcomes.len() <= MAX_IMPORT_ROWS,
            s == outcomes@,
            created == count_where(s.subrange(0, i as int), |o: RowOutcome| is_created(o)),
            failed == count_where(s.subrange(0, i as int), |o: RowOutcome| is_failed(o)),
            skipped == count_where(s.subrange(0, i as int), |o: RowOutcome| is_code_skip(o))
                + count_where(s.subrange(0, i as int), |o: RowOutcome| tags_dropped(o)),
            errors.len() == failed + count_where(
                s.subrange(0, i as int),
                |o: RowOutcome| is_code_skip(o),
            ),
            warnings.len() == count_where(s.subrange(0, i as int), |o: RowOutcome| tags_dropped(o)),
            created + failed + count_where(s.subrange(0, i as int), |o: RowOutcome| is_code_skip(o))
                == i,
            warnings.len() <= i,
            notes_view(errors@) == error_notes(s.subrange(0, i as int)),
            notes_view(warnings@) == warning_notes(s.subrange(0, i as int)),
        decreases outcomes.len() - i,
    {
        let ghost prev = s.subrange(0, i as int);
        let ghost next = s.subrange(0, i + 1);
        assert(next.drop_last() =~= prev);
        assert(next.last() == s[i as int]);
        assert(next.len() == i + 1);
        let ghost old_errors = errors@;
        let ghost old_warnings = warnings@;
        let row = i + 1;
        match &outcomes[i] {
            RowOutcome::Failed { destination_url, reason } => {
                failed = failed + 1;
                errors.push(
                    RowNote { row, destination_url: destination_url.clone(), reason: reason.clone() },
                );
            },
            RowOutcome::InvalidCode { destination_url, reason } => {
                skipped = skipped + 1;
                errors.push(
                    RowNote { row, destination_url: destination_url.clone(), reason: reason.clone() },
                );
            },
            RowOutcome::DuplicateCode { destination_url, reason } => {
                skipped = skipped + 1;
                errors.push(
                    RowNote { row, destination_url: destination_url.clone(), reason: reason.clone() },
                );
            },
            RowOutcome::Created { destination_url, tags_warning } => {
                if let Some(w) = tags_warning {
                    skipped = skipped + 1;
                    warnings.push(
                        RowNote { row, destination_url: destination_url.clone(), reason: w.clone() },
                    );
                }
                created = created + 1;
            },
        }
        proof {
            assert(notes_view(errors@) =~= error_notes(next));
            assert(notes_view(warnings@) =~= warning_notes(next));
        }
        i = i + 1;
    }
    assert(s.subrange(0, i as int) =~= s);
    ImportReport { created, skipped, failed, errors, warnings }
}

} // verus!
