//! CSV export of an organization's links.
use crate::clock::{format_utc, utc_formatted};
use crate::links::redirect::UtmParams;
use crate::links::status::{status_name, LinkStatus};
use crate::text::{chars_of, i64_decimal_chars, int_decimal, string_from_chars};
use vstd::prelude::*;

verus! {

broadcast use vstd::string::group_string_axioms;

/// `s` with every `"` doubled.
pub open spec fn escape_quotes(s: Seq<char>) -> Seq<char>
    decreases s.len(),
{
    if s.len() == 0 {
        s
    } else {
        escape_quotes(s.drop_last()) + if s.last() == '"' {
            seq!['"', '"']
        } else {
            seq![s.last()]
        }
    }
}

/// Whether a CSV field must be quoted: it holds a comma, a quote or a line break.
pub open spec fn needs_quoting(s: Seq<char>) -> bool {
    s.contains(',') || s.contains('"') || s.contains('\n') || s.contains('\r')
}

/// A CSV field: quoted, with quotes doubled, when it needs quoting; as is otherwise.
pub open spec fn csv_field(s: Seq<char>) -> Seq<char> {
    if needs_quoting(s) {
        seq!['"'] + escape_quotes(s) + seq!['"']
    } else {
        s
    }
}

/// Escapes a value for a CSV field.
pub fn csv_escape(value: &str) -> (r: String)
    ensures
        r@ == csv_field(value@),
{
    let chars = chars_of(value);
    let mut quoted: Vec<char> = Vec::new();
    let mut needs = false;
    let mut i: usize = 0;
    while i < chars.len()
        invariant
            i <= chars.len(),
            chars@ == value@,
            quoted@ == escape_quotes(chars@.subrange(0, i as int)),
            needs == needs_quoting(chars@.subrange(0, i as int)),
        decreases chars.len() - i,
    {
        let c = chars[i];
        let ghost prev = chars@.subrange(0, i as int);
        let ghost next = chars@.subrange(0, i + 1);
        assert(next.drop_last() =~= prev);
        assert(next.last() == c);
        if c == '"' {
            quoted.push('"');
            quoted.push('"');
            assert(quoted@ =~= escape_quotes(prev) + seq!['"', '"']);
        } else {
            quoted.push(c);
            assert(quoted@ =~= escape_quotes(prev) + seq![c]);
        }
        proof {
            assert(next =~= prev.push(c));
            assert(forall|x: char| next.contains(x) <==> (prev.contains(x) || x == c)) by {
                assert forall|x: char| next.contains(x) implies (prev.contains(x) || x == c) by {
                    let j = choose|j: int| 0 <= j < next.len() && next[j] == x;
                    if j < prev.len() {
                        assert(prev[j] == x);
                    }
                }
                assert forall|x: char| prev.contains(x) implies next.contains(x) by {
                    let j = choose|j: int| 0 <= j < prev.len() && prev[j] == x;
                    assert(next[j] == x);
                }
                assert(next[prev.len() as int] == c);
            }
        }
        if c == ',' || c == '"' || c == '\n' || c == '\r' {
            needs = true;
        }
        i = i + 1;
    }
    assert(chars@.subrange(0, i as int) =~= value@);
    if needs {
        let mut out: Vec<char> = Vec::new();
        out.push('"');
        let mut k: usize = 0;
        while k < quoted.len()
            invariant
                k <= quoted.len(),
                out@ == seq!['"'] + quoted@.subrange(0, k as int),
            decreases quoted.len() - k,
        {
            out.push(quoted[k]);
            assert(out@ =~= seq!['"'] + quoted@.subrange(0, k + 1));
            k = k + 1;
        }
        out.push('"');
        assert(out@ =~= seq!['"'] + quoted@ + seq!['"']);
        string_from_chars(out.as_slice())
    } else {
        value.to_string()
    }
}

/// Reads doubled quotes back as single quotes.
pub open spec fn undouble_quotes(t: Seq<char>) -> Seq<char>
    decreases t.len(),
{
    if t.len() == 0 {
        t
    } else if t.len() >= 2 && t.last() == '"' && t[t.len() - 2] == '"' {
        undouble_quotes(t.subrange(0, t.len() - 2)) + seq!['"']
    } else {
        undouble_quotes(t.drop_last()) + seq![t.last()]
    }
}

/// How a CSV reader reads a field back: a quoted field loses its quotes and
/// its doubled quotes; any other field is taken as is.
pub open spec fn csv_field_read(f: Seq<char>) -> Seq<char> {
    if f.len() >= 2 && f[0] == '"' && f.last() == '"' {
        undouble_quotes(f.subrange(1, f.len() - 1))
    } else {
        f
    }
}

proof fn lemma_undouble_escape(s: Seq<char>)
    ensures
        undouble_quotes(escape_quotes(s)) == s,
    decreases s.len(),
{
    if s.len() > 0 {
        lemma_undouble_escape(s.drop_last());
        let e = escape_quotes(s.drop_last());
        if s.last() == '"' {
            let t = e + seq!['"', '"'];
            assert(t.subrange(0, t.len() - 2) =~= e);
        } else {
            let t = e + seq![s.last()];
            assert(t.drop_last() =~= e);
        }
        assert(s.drop_last() + seq![s.last()] =~= s);
    }
}

/// Exported fields read back exactly: whatever a title, URL or tag holds
/// (commas, quotes, line breaks), a CSV reader recovers it.
pub proof fn lemma_csv_field_roundtrip(s: Seq<char>)
    ensures
        csv_field_read(csv_field(s)) == s,
{
    if needs_quoting(s) {
        let f = seq!['"'] + escape_quotes(s) + seq!['"'];
        assert(f.subrange(1, f.len() - 1) =~= escape_quotes(s));
        lemma_undouble_escape(s);
    } else {
        if s.len() >= 2 && s[0] == '"' {
            assert(s.contains('"'));
        }
    }
}

/// `parts` separated by `sep`.
pub open spec fn join_with(parts: Seq<Seq<char>>, sep: Seq<char>) -> Seq<char>
    decreases parts.len(),
{
    if parts.len() == 0 {
        Seq::empty()
    } else if parts.len() == 1 {
        parts[0]
    } else {
        join_with(parts.drop_last(), sep) + sep + parts.last()
    }
}

pub open spec fn strings_view(v: Seq<String>) -> Seq<Seq<char>> {
    v.map_values(|s: String| s@)
}

/// Joins strings with a separator.
pub fn join_strings(parts: &Vec<String>, sep: &str) -> (r: String)
    ensures
        r@ == join_with(strings_view(parts@), sep@),
{
    let mut out = String::new();
    let mut i: usize = 0;
    assert(out@ =~= Seq::<char>::empty());
    while i < parts.len()
        invariant
            i <= parts.len(),
            out@ == join_with(strings_view(parts@).subrange(0, i as int), sep@),
        decreases parts.len() - i,
    {
        let ghost prev = strings_view(parts@).subrange(0, i as int);
        let ghost next = strings_view(parts@).subrange(0, i + 1);
        assert(next.drop_last() =~= prev);
        if i > 0 {
            out.append(sep);
        }
        out.append(parts[i].as_str());
        proof {
            if i == 0 {
                assert(next.len() == 1);
                assert(out@ =~= next[0]);
            }
        }
        i = i + 1;
    }
    assert(strings_view(parts@).subrange(0, i as int) =~= strings_view(parts@));
    out
}

/// The header line of the export.
pub open spec fn export_header() -> Seq<char> {
    "short_code,destination_url,title,tags,status,click_count,created_at,expires_at,utm_source,utm_medium,utm_campaign,utm_term,utm_content,utm_ref,forward_query_params\n"@
}

/// One exported link.
#[derive(Debug, Clone)]
pub struct ExportLink {
    pub short_code: String,
    pub destination_url: String,
    pub title: Option<String>,
    pub tags: Vec<String>,
    pub status: LinkStatus,
    pub click_count: i64,
    pub created_at: i64,
    pub expires_at: Option<i64>,
    pub utm_params: Option<UtmParams>,
    pub forward_query_params: Option<bool>,
}

pub open spec fn text_or_empty(o: Option<String>) -> Seq<char> {
    match o {
        Some(s) => s@,
        None => ""@,
    }
}

/// A timestamp as `YYYY-MM-DDTHH:MM:SSZ`, empty when chrono cannot represent it.
pub open spec fn iso_or_empty(ts: Option<i64>) -> Seq<char> {
    match ts {
        Some(t) => match utc_formatted(t, "%Y-%m-%dT%H:%M:%SZ"@) {
            Some(s) => s,
            None => ""@,
        },
        None => ""@,
    }
}

pub open spec fn utm_field(l: ExportLink, f: spec_fn(UtmParams) -> Option<String>) -> Seq<char> {
    match l.utm_params {
        Some(u) => text_or_empty(f(u)),
        None => ""@,
    }
}

/// The fields of a link's line, in header order.
pub open spec fn export_fields(l: ExportLink) -> Seq<Seq<char>> {
    seq![
        csv_field(l.short_code@),
        csv_field(l.destination_url@),
        csv_field(text_or_empty(l.title)),
        csv_field(join_with(strings_view(l.tags@), "|"@)),
        csv_field(status_name(l.status)),
        int_decimal(l.click_count as int),
        iso_or_empty(Some(l.created_at)),
        iso_or_empty(l.expires_at),
        csv_field(utm_field(l, |u: UtmParams| u.utm_source)),
        csv_field(utm_field(l, |u: UtmParams| u.utm_medium)),
        csv_field(utm_field(l, |u: UtmParams| u.utm_campaign)),
        csv_field(utm_field(l, |u: UtmParams| u.utm_term)),
        csv_field(utm_field(l, |u: UtmParams| u.utm_content)),
        csv_field(utm_field(l, |u: UtmParams| u.utm_ref)),
        match l.forward_query_params {
            Some(true) => "true"@,
            Some(false) => "false"@,
            None => ""@,
        },
    ]
}

/// A link's line: its fields separated by commas, ending in a newline.
pub open spec fn export_line(l: ExportLink) -> Seq<char> {
    join_with(export_fields(l), ","@) + "\n"@
}

/// The columns of the export, as the header names them.
#[derive(Debug, Clone, Copy, PartialEq, Eq, Structural)]
pub enum Column {
    ShortCode,
    DestinationUrl,
    Title,
    Tags,
    Status,
    ClickCount,
    CreatedAt,
    ExpiresAt,
    UtmSource,
    UtmMedium,
    UtmCampaign,
    UtmTerm,
    UtmContent,
    UtmRef,
    ForwardQueryParams,
}

/// A column's name in the header.
pub open spec fn column_name(c: Column) -> Seq<char> {
    match c {
        Column::ShortCode => "short_code"@,
        Column::DestinationUrl => "destination_url"@,
        Column::Title => "title"@,
        Column::Tags => "tags"@,
        Column::Status => "status"@,
        Column::ClickCount => "click_count"@,
        Column::CreatedAt => "created_at"@,
        Column::ExpiresAt => "expires_at"@,
        Column::UtmSource => "utm_source"@,
        Column::UtmMedium => "utm_medium"@,
        Column::UtmCampaign => "utm_campaign"@,
        Column::UtmTerm => "utm_term"@,
        Column::UtmContent => "utm_content"@,
        Column::UtmRef => "utm_ref"@,
        Column::ForwardQueryParams => "forward_query_params"@,
    }
}

/// The header's columns, in order.
pub open spec fn header_columns() -> Seq<Column> {
    seq![
        Column::ShortCode,
        Column::DestinationUrl,
        Column::Title,
        Column::Tags,
        Column::Status,
        Column::ClickCount,
        Column::CreatedAt,
        Column::ExpiresAt,
        Column::UtmSource,
        Column::UtmMedium,
        Column::UtmCampaign,
        Column::UtmTerm,
        Column::UtmContent,
        Column::UtmRef,
        Column::ForwardQueryParams,
    ]
}

/// A text UTM parameter of the link, empty when it has none.
pub open spec fn utm_text_of(l: ExportLink, c: Column) -> Seq<char> {
    match l.utm_params {
        Some(u) => text_or_empty(
            match c {
                Column::UtmSource => u.utm_source,
                Column::UtmMedium => u.utm_medium,
                Column::UtmCampaign => u.utm_campaign,
                Column::UtmTerm => u.utm_term,
                Column::UtmContent => u.utm_content,
                _ => u.utm_ref,
            },
        ),
        None => ""@,
    }
}

/// What a column holds for a link: the link's field of that name, escaped
/// for CSV where it is text.
pub open spec fn column_value(l: ExportLink, c: Column) -> Seq<char> {
    match c {
        Column::ShortCode => csv_field(l.short_code@),
        Column::DestinationUrl => csv_field(l.destination_url@),
        Column::Title => csv_field(text_or_empty(l.title)),
        Column::Tags => csv_field(join_with(strings_view(l.tags@), "|"@)),
        Column::Status => csv_field(status_name(l.status)),
        Column::ClickCount => int_decimal(l.click_count as int),
        Column::CreatedAt => iso_or_empty(Some(l.created_at)),
        Column::ExpiresAt => iso_or_empty(l.expires_at),
        Column::ForwardQueryParams => match l.forward_query_params {
            Some(true) => "true"@,
            Some(false) => "false"@,
            None => ""@,
        },
        _ => csv_field(utm_text_of(l, c)),
    }
}

/// An export line lines up with the header: it has one field per header
/// column, and the field in each position is the value of the column the
/// header names there (so the utm_term column holds the link's utm_term,
/// the utm_content column its utm_content, and so on); and the header is
/// those column names, comma-separated.
pub proof fn lemma_export_columns(l: ExportLink)
    ensures
        export_fields(l).len() == header_columns().len(),
        forall|k: int|
            0 <= k < header_columns().len() ==> #[trigger] export_fields(l)[k] == column_value(
                l,
                header_columns()[k],
            ),
        export_header() == join_with(header_columns().map_values(|c: Column| column_name(c)), ","@)
            + "\n"@,
{
    assert forall|k: int| 0 <= k < header_columns().len() implies #[trigger] export_fields(l)[k]
        == column_value(l, header_columns()[k]) by {
        if k == 8 || k == 9 || k == 10 || k == 11 || k == 12 || k == 13 {
            assert(export_fields(l)[k] == column_value(l, header_columns()[k]));
        }
    }
    let names = header_columns().map_values(|c: Column| column_name(c));
    reveal_strlit("short_code,destination_url,title,tags,status,click_count,created_at,expires_at,utm_source,utm_medium,utm_campaign,utm_term,utm_content,utm_ref,forward_query_params\n");
    reveal_strlit("short_code");
    reveal_strlit("destination_url");
    reveal_strlit("title");
    reveal_strlit("tags");
    reveal_strlit("status");
    reveal_strlit("click_count");
    reveal_strlit("created_at");
    reveal_strlit("expires_at");
    reveal_strlit("utm_source");
    reveal_strlit("utm_medium");
    reveal_strlit("utm_campaign");
    reveal_strlit("utm_term");
    reveal_strlit("utm_content");
    reveal_strlit("utm_ref");
    reveal_strlit("forward_query_params");
    reveal_strlit(",");
    reveal_strlit("\n");
    reveal_with_fuel(join_with, 16);
    assert(names =~= seq![
        "short_code"@, "destination_url"@, "title"@, "tags"@, "status"@, "click_count"@,
        "created_at"@, "expires_at"@, "utm_source"@, "utm_medium"@, "utm_campaign"@,
        "utm_term"@, "utm_content"@, "utm_ref"@, "forward_query_params"@,
    ]);
    assert(export_header() =~= join_with(names, ","@) + "\n"@);
}

fn iso_field(ts: Option<i64>) -> (r: String)
    ensures
        r@ == iso_or_empty(ts),
{
    match ts {
        Some(t) => {
            proof {
                reveal_strlit("%Y-%m-%dT%H:%M:%SZ");
                reveal_strlit("%Y-%m-%d");
            }
            match format_utc(t, "%Y-%m-%dT%H:%M:%SZ") {
                Some(s) => s,
                None => "".to_string(),
            }
        },
        None => "".to_string(),
    }
}

fn opt_text(o: &Option<String>) -> (r: String)
    ensures
        r@ == text_or_empty(*o),
{
    match o {
        Some(s) => s.clone(),
        None => "".to_string(),
    }
}

fn utm_text(l: &ExportLink, which: u8) -> (r: String)
    requires
        which < 6,
    ensures
        which == 0 ==> r@ == utm_field(*l, |u: UtmParams| u.utm_source),
        which == 1 ==> r@ == utm_field(*l, |u: UtmParams| u.utm_medium),
        which == 2 ==> r@ == utm_field(*l, |u: UtmParams| u.utm_campaign),
        which == 3 ==> r@ == utm_field(*l, |u: UtmParams| u.utm_term),
        which == 4 ==> r@ == utm_field(*l, |u: UtmParams| u.utm_content),
        which == 5 ==> r@ == utm_field(*l, |u: UtmParams| u.utm_ref),
{
    match &l.utm_params {
        Some(u) => {
            let f = if which == 0 {
                &u.utm_source
            } else if which == 1 {
                &u.utm_medium
            } else if which == 2 {
                &u.utm_campaign
            } else if which == 3 {
                &u.utm_term
            } else if which == 4 {
                &u.utm_content
            } else {
                &u.utm_ref
            };
            opt_text(f)
        },
        None => "".to_string(),
    }
}

/// The export line of a link.
pub fn export_row(l: &ExportLink) -> (r: String)
    ensures
        r@ == export_line(*l),
{
    let mut fields: Vec<String> = Vec::new();
    fields.push(csv_escape(l.short_code.as_str()));
    fields.push(csv_escape(l.destination_url.as_str()));
    fields.push(csv_escape(opt_text(&l.title).as_str()));
    fields.push(csv_escape(join_strings(&l.tags, "|").as_str()));
    fields.push(csv_escape(l.status.as_str()));
    fields.push(string_from_chars(i64_decimal_chars(l.click_count).as_slice()));
    fields.push(iso_field(Some(l.created_at)));
    fields.push(iso_field(l.expires_at));
    fields.push(csv_escape(utm_text(l, 0).as_str()));
    fields.push(csv_escape(utm_text(l, 1).as_str()));
    fields.push(csv_escape(utm_text(l, 2).as_str()));
    fields.push(csv_escape(utm_text(l, 3).as_str()));
    fields.push(csv_escape(utm_text(l, 4).as_str()));
    fields.push(csv_escape(utm_text(l, 5).as_str()));
    let forward = match l.forward_query_params {
        Some(true) => "true",
        Some(false) => "false",
        None => "",
    };
    fields.push(forward.to_string());
    assert(strings_view(fields@) =~= export_fields(*l));
    let mut line = join_strings(&fields, ",");
    line.append("\n");
    line
}

/// The whole export: the header, then one line per link.
pub open spec fn export_csv_of(links: Seq<ExportLink>) -> Seq<char>
    decreases links.len(),
{
    if links.len() == 0 {
        export_header()
    } else {
        export_csv_of(links.drop_last()) + export_line(links.last())
    }
}

/// Builds the CSV file of the links.
pub fn export_csv(links: &Vec<ExportLink>) -> (r: String)
    ensures
        r@ == export_csv_of(links@),
{
    let mut out = "short_code,destination_url,title,tags,status,click_count,created_at,expires_at,utm_source,utm_medium,utm_campaign,utm_term,utm_content,utm_ref,forward_query_params\n".to_string();
    let mut i: usize = 0;
    while i < links.len()
        invariant
            i <= links.len(),
            out@ == export_csv_of(links@.subrange(0, i as int)),
        decreases links.len() - i,
    {
        assert(links@.subrange(0, i + 1).drop_last() =~= links@.subrange(0, i as int));
        let row = export_row(&links[i]);
        out.append(row.as_str());
        i = i + 1;
    }
    assert(links@.subrange(0, i as int) =~= links@);
    out
}

/// The download's file name for the export made at `now`.
pub fn export_filename(now: i64) -> (r: String)
    ensures
        r@ == "rushomon-links-"@ + match utc_formatted(now, "%Y-%m-%d"@) {
            Some(d) => d,
            None => ""@,
        } + ".csv"@,
{
    proof {
        reveal_strlit("%Y-%m-%dT%H:%M:%SZ");
        reveal_strlit("%Y-%m-%d");
    }
    let date = match format_utc(now, "%Y-%m-%d") {
        Some(d) => d,
        None => "".to_string(),
    };
    let mut s = "rushomon-links-".to_string();
    s.append(date.as_str());
    s.append(".csv");
    s
}

} // verus!
